//! The byte-level model of a bidirectional stream: a send half that is
//! written and then explicitly finished, and a receive half that is
//! drained to completion or to an optional byte cap. Within one stream,
//! bytes reach the peer exactly as written and in issuance order.

use vstd::prelude::*;

verus! {

/// The send half of a bidirectional stream: the bytes written so far, and
/// whether end-of-data has been signalled to the peer.
pub struct SendHalf {
    /// Every byte written, in issuance order.
    pub written: Vec<u8>,
    /// Whether the half has been finished.
    pub finished: bool,
}

impl SendHalf {
    /// A freshly opened send half: nothing written, not finished.
    pub fn new() -> (r: SendHalf)
        ensures
            r.written@ == Seq::<u8>::empty(),
            !r.finished,
    {
        SendHalf { written: Vec::new(), finished: false }
    }

    /// Write bytes; they follow everything written before, in order.
    pub fn write_all(&mut self, data: &[u8])
        requires
            !old(self).finished,
        ensures
            final(self).written@ == old(self).written@ + data@,
            !final(self).finished,
    {
        self.written.extend_from_slice(data);
        assert(self.written@ =~= old(self).written@ + data@);
    }

    /// Signal end-of-data to the peer; what was written stays as it is.
    pub fn finish(&mut self)
        requires
            !old(self).finished,
        ensures
            final(self).finished,
            final(self).written@ == old(self).written@,
    {
        self.finished = true;
    }
}

/// The receive half of a bidirectional stream: the bytes the peer wrote,
/// in issuance order, complete once the peer finished its send half.
pub struct RecvHalf {
    /// The bytes available to read, in the order the peer wrote them.
    pub data: Vec<u8>,
}

/// Delivery of a finished send half to the peer: the receive half carries
/// exactly the written bytes, in issuance order.
pub fn transmit(s: SendHalf) -> (r: RecvHalf)
    requires
        s.finished,
    ensures
        r.data@ == s.written@,
{
    RecvHalf { data: s.written }
}

/// Drain a receive half: everything the peer wrote, or, under a byte cap,
/// exactly the first `cap` bytes. A capped, truncated read is not an
/// error; whether truncation matters is the caller's policy.
pub fn read_recv_stream(stream: RecvHalf, max_bytes: Option<usize>) -> (r: Vec<u8>)
    ensures
        max_bytes is None ==> r@ == stream.data@,
        max_bytes matches Some(cap) ==> r@ == stream.data@.take(
            if cap <= stream.data@.len() {
                cap as int
            } else {
                stream.data@.len() as int
            },
        ),
{
    let mut buf = stream.data;
    match max_bytes {
        None => buf,
        Some(cap) => {
            if cap < buf.len() {
                buf.truncate(cap);
            }
            assert(buf@ =~= buf@.take(buf@.len() as int));
            buf
        },
    }
}

/// One full exchange over a freshly opened stream pair: the client writes
/// its payload and finishes; the server drains it, writes its reply and
/// finishes; the client drains the reply. The server reads exactly the
/// client's bytes and the client reads exactly the server's, byte-exact
/// and order-preserving.
pub fn echo_exchange(client_payload: &[u8], server_reply: &[u8]) -> (r: (Vec<u8>, Vec<u8>))
    ensures
        r.0@ == client_payload@,
        r.1@ == server_reply@,
{
    let mut client_send = SendHalf::new();
    client_send.write_all(client_payload);
    client_send.finish();
    let server_recv = transmit(client_send);
    let server_read = read_recv_stream(server_recv, None);

    let mut server_send = SendHalf::new();
    server_send.write_all(server_reply);
    server_send.finish();
    let client_recv = transmit(server_send);
    let client_read = read_recv_stream(client_recv, None);

    assert(server_read@ =~= client_payload@);
    assert(client_read@ =~= server_reply@);
    (server_read, client_read)
}

} // verus!
