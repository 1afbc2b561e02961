//! Certificate and key material: PEM key reading with automatic format
//! detection, certificate-chain reading, and byte escaping for
//! diagnostics.

use crate::error::NetworkError;
use vstd::prelude::*;

verus! {

/// The keys a PEM parse yields as mathematical sequences.
pub open spec fn keys_view(v: Vec<Vec<u8>>) -> Seq<Seq<u8>> {
    v@.map_values(|k: Vec<u8>| k@)
}

/// What parsing the bytes as RSA-encoded PEM keys yields: the DER bytes
/// of each key, or nothing on a parse failure.
pub uninterp spec fn rsa_keys_of(data: Seq<u8>) -> Option<Seq<Seq<u8>>>;

/// What parsing the bytes as PKCS8-encoded PEM keys yields.
pub uninterp spec fn pkcs8_keys_of(data: Seq<u8>) -> Option<Seq<Seq<u8>>>;

/// What parsing the bytes as EC-encoded PEM keys yields.
pub uninterp spec fn ec_keys_of(data: Seq<u8>) -> Option<Seq<Seq<u8>>>;

/// What parsing the bytes as a PEM certificate chain yields.
pub uninterp spec fn pem_certs_of(data: Seq<u8>) -> Option<Seq<Seq<u8>>>;

/// Relies on rustls_pemfile::rsa_private_keys over an in-memory cursor:
/// the outcome is a function of the bytes alone.
#[verifier::external_body]
fn parse_rsa_keys(data: &[u8]) -> (r: Option<Vec<Vec<u8>>>)
    ensures
        r matches Some(v) ==> rsa_keys_of(data@) == Some(keys_view(v)),
        r is None ==> rsa_keys_of(data@) is None,
{
    let mut cursor = std::io::Cursor::new(data);
    rustls_pemfile::rsa_private_keys(&mut cursor).ok()
}

/// Relies on rustls_pemfile::pkcs8_private_keys over an in-memory cursor:
/// the outcome is a function of the bytes alone.
#[verifier::external_body]
fn parse_pkcs8_keys(data: &[u8]) -> (r: Option<Vec<Vec<u8>>>)
    ensures
        r matches Some(v) ==> pkcs8_keys_of(data@) == Some(keys_view(v)),
        r is None ==> pkcs8_keys_of(data@) is None,
{
    let mut cursor = std::io::Cursor::new(data);
    rustls_pemfile::pkcs8_private_keys(&mut cursor).ok()
}

/// Relies on rustls_pemfile::ec_private_keys over an in-memory cursor:
/// the outcome is a function of the bytes alone.
#[verifier::external_body]
fn parse_ec_keys(data: &[u8]) -> (r: Option<Vec<Vec<u8>>>)
    ensures
        r matches Some(v) ==> ec_keys_of(data@) == Some(keys_view(v)),
        r is None ==> ec_keys_of(data@) is None,
{
    let mut cursor = std::io::Cursor::new(data);
    rustls_pemfile::ec_private_keys(&mut cursor).ok()
}

/// Relies on rustls_pemfile::certs over an in-memory cursor: the outcome
/// is a function of the bytes alone.
#[verifier::external_body]
fn parse_certs(data: &[u8]) -> (r: Result<Vec<Vec<u8>>, String>)
    ensures
        r matches Ok(v) ==> pem_certs_of(data@) == Some(keys_view(v)),
        r is Err ==> pem_certs_of(data@) is None,
{
    let mut cursor = std::io::Cursor::new(data);
    rustls_pemfile::certs(&mut cursor).map_err(|e| format!("{}", e))
}

/// A parse outcome settles the scan when it succeeded and found at least
/// one key; a failed parse or an empty yield falls through to the next
/// encoding.
pub open spec fn stage_yields(o: Option<Seq<Seq<u8>>>) -> bool {
    o matches Some(s) && s.len() >= 1
}

/// The keys of the first encoding — RSA, then PKCS8, then EC — whose
/// parse succeeds and yields at least one key.
pub open spec fn first_decisive_keys(data: Seq<u8>) -> Option<Seq<Seq<u8>>> {
    if stage_yields(rsa_keys_of(data)) {
        rsa_keys_of(data)
    } else if stage_yields(pkcs8_keys_of(data)) {
        pkcs8_keys_of(data)
    } else if stage_yields(ec_keys_of(data)) {
        ec_keys_of(data)
    } else {
        None
    }
}

/// Read one private key out of PEM bytes, trying the RSA, PKCS8 and EC
/// encodings in that order; the first encoding that parses and yields a
/// key settles the outcome. Exactly one key must be found there: zero
/// keys in every encoding, or more than one in the settling encoding, is
/// a configuration failure.
pub fn read_key(data: &[u8]) -> (r: Result<Vec<u8>, NetworkError>)
    ensures
        r is Ok <==> (first_decisive_keys(data@) matches Some(ks) && ks.len() == 1),
        r matches Ok(k) ==> (first_decisive_keys(data@) matches Some(ks) && ks.len() == 1
            && ks[0] == k@),
        r matches Err(e) ==> e is InternalError,
        (first_decisive_keys(data@) matches Some(ks) && ks.len() > 1) ==> (r matches Err(e)
            && e.detail_view() == "more than 1 key found"@),
        first_decisive_keys(data@) is None ==> (r matches Err(e)
            && e.detail_view() == "no valid keys found"@),
{
    let parsed_rsa = parse_rsa_keys(data);
    match parsed_rsa {
        Some(keys) => {
            if keys.len() > 0 {
                return single_key_of(keys);
            }
        },
        None => {},
    }
    let parsed_pkcs8 = parse_pkcs8_keys(data);
    match parsed_pkcs8 {
        Some(keys) => {
            if keys.len() > 0 {
                return single_key_of(keys);
            }
        },
        None => {},
    }
    let parsed_ec = parse_ec_keys(data);
    match parsed_ec {
        Some(keys) => {
            if keys.len() > 0 {
                return single_key_of(keys);
            }
        },
        None => {},
    }
    Err(NetworkError::InternalError(String::from_str("no valid keys found")))
}

/// The single key of a settling parse, or the too-many-keys failure.
pub fn single_key_of(keys: Vec<Vec<u8>>) -> (r: Result<Vec<u8>, NetworkError>)
    requires
        keys@.len() >= 1,
    ensures
        keys@.len() == 1 ==> (r matches Ok(k) && k@ == keys@[0]@),
        keys@.len() > 1 ==> (r matches Err(e) && e is InternalError
            && e.detail_view() == "more than 1 key found"@),
{
    let mut keys = keys;
    if keys.len() == 1 {
        let k = keys.pop().unwrap();
        Ok(k)
    } else {
        Err(NetworkError::InternalError(String::from_str("more than 1 key found")))
    }
}

/// Read every certificate of a PEM chain; a parse failure surfaces as an
/// I/O failure.
pub fn read_cert_chain(data: &[u8]) -> (r: Result<Vec<Vec<u8>>, NetworkError>)
    ensures
        r is Ok <==> pem_certs_of(data@) is Some,
        r matches Ok(v) ==> pem_certs_of(data@) == Some(keys_view(v)),
        r matches Err(e) ==> e is IOError,
{
    match parse_certs(data) {
        Ok(v) => Ok(v),
        Err(d) => Err(NetworkError::IOError(d)),
    }
}

/// The escape of one byte: tabs, carriage returns, line feeds,
/// backslashes and both quotes take a two-character backslash form, other
/// printable bytes stand for themselves, and everything else becomes a
/// backslash-x pair of lowercase hex digits.
pub open spec fn escape_byte(b: u8) -> Seq<u8> {
    if b == 9 {
        seq![92u8, 116u8]
    } else if b == 13 {
        seq![92u8, 114u8]
    } else if b == 10 {
        seq![92u8, 110u8]
    } else if b == 92 {
        seq![92u8, 92u8]
    } else if b == 39 {
        seq![92u8, 39u8]
    } else if b == 34 {
        seq![92u8, 34u8]
    } else if 32 <= b <= 126 {
        seq![b]
    } else {
        seq![92u8, 120u8, hex_digit((b >> 4) as u8), hex_digit((b & 15) as u8)]
    }
}

/// The lowercase hex digit of a nibble.
pub open spec fn hex_digit(n: u8) -> u8 {
    if n < 10 {
        (48 + n) as u8
    } else {
        (87 + n) as u8
    }
}

/// The escape of a whole byte sequence, bytewise and in order.
pub open spec fn escape_bytes(s: Seq<u8>) -> Seq<u8>
    decreases s.len(),
{
    if s.len() == 0 {
        Seq::empty()
    } else {
        escape_byte(s[0]) + escape_bytes(s.skip(1))
    }
}

/// Append the escape of one byte.
fn push_escaped(out: &mut Vec<u8>, b: u8)
    ensures
        final(out)@ == old(out)@ + escape_byte(b),
{
    if b == 9 {
        out.push(92);
        out.push(116);
    } else if b == 13 {
        out.push(92);
        out.push(114);
    } else if b == 10 {
        out.push(92);
        out.push(110);
    } else if b == 92 {
        out.push(92);
        out.push(92);
    } else if b == 39 {
        out.push(92);
        out.push(39);
    } else if b == 34 {
        out.push(92);
        out.push(34);
    } else if 32 <= b && b <= 126 {
        out.push(b);
    } else {
        assert(b >> 4 < 16 && b & 15 < 16) by (bit_vector);
        let hi = b >> 4;
        let lo = b & 15;
        out.push(92);
        out.push(120);
        out.push(if hi < 10 { 48 + hi } else { 87 + hi });
        out.push(if lo < 10 { 48 + lo } else { 87 + lo });
    }
    assert(out@ =~= old(out)@ + escape_byte(b));
}

/// Escape every byte of the input for diagnostic display.
pub fn bytes_escape(req: &Vec<u8>) -> (r: Vec<u8>)
    ensures
        r@ == escape_bytes(req@),
{
    let mut out: Vec<u8> = Vec::new();
    let n = req.len();
    assert(req@.skip(0) == req@);
    for i in 0..n
        invariant
            n == req@.len(),
            escape_bytes(req@) =~= out@ + escape_bytes(req@.skip(i as int)),
    {
        push_escaped(&mut out, req[i]);
        assert(req@.skip(i as int).drop_first() == req@.skip(i + 1));
    }
    out
}

} // verus!
