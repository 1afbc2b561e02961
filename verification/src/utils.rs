//! Random selection of TLS negotiation parameters and of user-agent
//! strings.
//!
//! The cipher-suite, key-exchange-group and protocol-version catalogs come
//! from the TLS engine through trusted wrappers; the sampling itself is
//! verified: every selection has the promised size, holds no duplicate
//! identifier, and every protocol-version choice is a prefix of the
//! supported list ordered oldest-first.

use vstd::prelude::*;

verus! {

/// Number of cipher suites in the engine's default set.
pub const SUPPORTED_SUITE_COUNT: usize = 9;

/// Identifier of TLS 1.2 (the older supported protocol version).
pub const TLS12_ID: u16 = 0x0303;

/// Identifier of TLS 1.3 (the newer supported protocol version).
pub const TLS13_ID: u16 = 0x0304;

/// A sequence holds no element twice.
pub open spec fn distinct_seq(s: Seq<u16>) -> bool {
    forall|i: int, j: int| 0 <= i < j < s.len() ==> s[i] != s[j]
}

/// Identifiers of the supported protocol versions, ordered oldest-first.
pub open spec fn supported_version_ids() -> Seq<u16> {
    seq![0x0303u16, 0x0304u16]
}

/// Identifiers of the engine's supported key-exchange groups
/// (X25519, secp256r1, secp384r1).
pub open spec fn supported_kx_ids() -> Seq<u16> {
    seq![0x001du16, 0x0017u16, 0x0018u16]
}

/// Identifiers of the engine's default cipher suites, in catalog order:
/// the three TLS 1.3 suites, then the six TLS 1.2 ECDHE suites.
pub open spec fn supported_suite_ids() -> Seq<u16> {
    seq![
        0x1302u16,
        0x1301u16,
        0x1303u16,
        0xc02cu16,
        0xc02bu16,
        0xcca9u16,
        0xc030u16,
        0xc02fu16,
        0xcca8u16,
    ]
}

/// A nonempty prefix of the supported version list, oldest-first: the
/// shape that guarantees monotonic downgrade compatibility.
pub open spec fn is_version_prefix(s: Seq<u16>) -> bool {
    &&& 1 <= s.len() <= supported_version_ids().len()
    &&& forall|i: int| 0 <= i < s.len() ==> s[i] == supported_version_ids()[i]
}

/// The identifier is one of the TLS 1.3 cipher-suite code points; every
/// other identifier of the default set names a TLS 1.2 suite.
pub open spec fn is_tls13_id(id: u16) -> bool {
    id == 0x1301 || id == 0x1302 || id == 0x1303
}

/// The code point of the protocol version a cipher suite belongs to:
/// what `SupportedCipherSuite::version` reports, as the version's
/// identifier. A suite's version is a function of the suite value alone.
pub uninterp spec fn spec_suite_version_id(s: rustls::SupportedCipherSuite) -> u16;

/// The code point a protocol version carries in its `version` field, a
/// function of the value alone. The engine compares versions by exactly
/// this code point.
pub uninterp spec fn spec_version_id(v: rustls::SupportedProtocolVersion) -> u16;

/// Each suite's protocol version agrees with its identifier: a TLS 1.3
/// code point names a TLS 1.3 suite, every other identifier a TLS 1.2
/// suite.
pub open spec fn suites_match_ids(suites: Seq<rustls::SupportedCipherSuite>, ids: Seq<u16>) -> bool {
    forall|i: int|
        0 <= i < suites.len() ==> spec_suite_version_id(#[trigger] suites[i]) == (if is_tls13_id(
            ids[i],
        ) {
            TLS13_ID
        } else {
            TLS12_ID
        })
}

// ----------------------------------------------------------------------
// The engine's catalogs, through trusted wrappers.
// ----------------------------------------------------------------------

#[verifier::external_type_specification]
#[verifier::external_body]
pub struct ExSupportedCipherSuite(rustls::SupportedCipherSuite);

#[verifier::external_type_specification]
#[verifier::external_body]
pub struct ExSupportedKxGroup(rustls::SupportedKxGroup);

#[verifier::external_type_specification]
#[verifier::external_body]
pub struct ExSupportedProtocolVersion(rustls::SupportedProtocolVersion);

/// Relies on rustls's `DEFAULT_CIPHER_SUITES`: nine suites, paired here
/// with their `CipherSuite` code points, in catalog order — the three
/// TLS 1.3 suites first, then the six TLS 1.2 ECDHE suites, as
/// `SupportedCipherSuite::version` reports them.
#[verifier::external_body]
fn default_cipher_suites() -> (r: (Vec<rustls::SupportedCipherSuite>, Vec<u16>))
    ensures
        r.0@.len() == SUPPORTED_SUITE_COUNT,
        r.1@ == supported_suite_ids(),
        forall|i: int|
            0 <= i < r.0@.len() ==> spec_suite_version_id(#[trigger] r.0@[i]) == (if i < 3 {
                TLS13_ID
            } else {
                TLS12_ID
            }),
{
    let suites: Vec<rustls::SupportedCipherSuite> = rustls::DEFAULT_CIPHER_SUITES.to_vec();
    let ids: Vec<u16> = suites.iter().map(|s| s.suite().get_u16()).collect();
    (suites, ids)
}

/// Relies on rustls's `ALL_KX_GROUPS`: three groups, paired here with
/// their `NamedGroup` code points.
#[verifier::external_body]
fn all_kx_groups() -> (r: (Vec<&'static rustls::SupportedKxGroup>, Vec<u16>))
    ensures
        r.0@.len() == supported_kx_ids().len(),
        r.1@ == supported_kx_ids(),
{
    let groups: Vec<&'static rustls::SupportedKxGroup> = rustls::ALL_KX_GROUPS.to_vec();
    let ids: Vec<u16> = groups.iter().map(|g| g.name.get_u16()).collect();
    (groups, ids)
}

/// Relies on rustls's `version::TLS12` static, whose `version` field is
/// the TLS 1.2 code point.
#[verifier::external_body]
fn version_tls12() -> (r: &'static rustls::SupportedProtocolVersion)
    ensures
        spec_version_id(*r) == TLS12_ID,
{
    &rustls::version::TLS12
}

/// Relies on rustls's `version::TLS13` static, whose `version` field is
/// the TLS 1.3 code point.
#[verifier::external_body]
fn version_tls13() -> (r: &'static rustls::SupportedProtocolVersion)
    ensures
        spec_version_id(*r) == TLS13_ID,
{
    &rustls::version::TLS13
}

// ----------------------------------------------------------------------
// Verified sampling.
// ----------------------------------------------------------------------

/// A set of cipher suites sampled without replacement from the engine's
/// default set, paired with their identifiers.
pub struct CipherSuiteSelection {
    /// The selected suites, in selection order.
    pub suites: Vec<rustls::SupportedCipherSuite>,
    /// The identifier of each selected suite, in the same order.
    pub suite_ids: Vec<u16>,
}

impl CipherSuiteSelection {
    /// One identifier per suite, no identifier twice, every identifier
    /// drawn from the engine's default set, and each suite's protocol
    /// version agreeing with its identifier.
    pub open spec fn wf(self) -> bool {
        &&& self.suites@.len() == self.suite_ids@.len()
        &&& distinct_seq(self.suite_ids@)
        &&& forall|i: int|
            0 <= i < self.suite_ids@.len() ==> supported_suite_ids().contains(
                #[trigger] self.suite_ids@[i],
            )
        &&& suites_match_ids(self.suites@, self.suite_ids@)
    }
}

/// Sample `n` distinct cipher suites, without replacement, from the
/// engine's default set.
pub fn get_random_ciphersuites(n: usize) -> (r: CipherSuiteSelection)
    requires
        n <= SUPPORTED_SUITE_COUNT,
    ensures
        r.wf(),
        r.suite_ids@.len() == n,
        r.suites@.len() == n,
{
    let (mut pool_suites, mut pool_ids) = default_cipher_suites();
    assert(forall|i: int|
        0 <= i < SUPPORTED_SUITE_COUNT ==> (is_tls13_id(#[trigger] supported_suite_ids()[i])
            <==> i < 3));
    let mut suites: Vec<rustls::SupportedCipherSuite> = Vec::new();
    let mut ids: Vec<u16> = Vec::new();
    while ids.len() < n
        invariant
            ids@.len() <= n,
            suites@.len() == ids@.len(),
            pool_suites@.len() == pool_ids@.len(),
            ids@.len() + pool_ids@.len() == SUPPORTED_SUITE_COUNT,
            n <= SUPPORTED_SUITE_COUNT,
            distinct_seq(ids@),
            distinct_seq(pool_ids@),
            forall|i: int, j: int|
                0 <= i < ids@.len() && 0 <= j < pool_ids@.len() ==> ids@[i] != pool_ids@[j],
            forall|i: int|
                0 <= i < ids@.len() ==> supported_suite_ids().contains(#[trigger] ids@[i]),
            forall|j: int|
                0 <= j < pool_ids@.len() ==> supported_suite_ids().contains(
                    #[trigger] pool_ids@[j],
                ),
            suites_match_ids(suites@, ids@),
            suites_match_ids(pool_suites@, pool_ids@),
        decreases n - ids@.len(),
    {
        let idx = crate::rng::get_random_int(0, pool_ids.len());
        let id = pool_ids.remove(idx);
        let suite = pool_suites.remove(idx);
        ids.push(id);
        suites.push(suite);
    }
    CipherSuiteSelection { suites, suite_ids: ids }
}

/// One key-exchange group sampled uniformly from the engine's supported
/// list, paired with its identifier.
pub struct KxSelection {
    /// A single-element list holding the chosen group.
    pub groups: Vec<&'static rustls::SupportedKxGroup>,
    /// The identifier of the chosen group.
    pub group_id: u16,
}

impl KxSelection {
    /// Exactly one group, drawn from the supported set.
    pub open spec fn wf(self) -> bool {
        &&& self.groups@.len() == 1
        &&& supported_kx_ids().contains(self.group_id)
    }
}

/// Sample one key-exchange group uniformly from the engine's supported
/// list.
pub fn get_random_kx_group() -> (r: KxSelection)
    ensures
        r.wf(),
{
    let (groups, ids) = all_kx_groups();
    let idx = crate::rng::get_random_int(0, groups.len());
    let group = groups[idx];
    let id = ids[idx];
    let mut chosen: Vec<&'static rustls::SupportedKxGroup> = Vec::new();
    chosen.push(group);
    KxSelection { groups: chosen, group_id: id }
}

/// A protocol-version prefix sampled from the supported list, paired with
/// the version identifiers, ordered oldest-first.
pub struct ProtocolSelection {
    /// The selected versions, oldest-first.
    pub versions: Vec<&'static rustls::SupportedProtocolVersion>,
    /// The identifier of each selected version, in the same order.
    pub version_ids: Vec<u16>,
}

impl ProtocolSelection {
    /// One identifier per version, forming a nonempty oldest-first prefix
    /// of the supported list, with each version value carrying exactly
    /// its listed identifier.
    pub open spec fn wf(self) -> bool {
        &&& self.versions@.len() == self.version_ids@.len()
        &&& is_version_prefix(self.version_ids@)
        &&& forall|i: int|
            0 <= i < self.versions@.len() ==> spec_version_id(*(#[trigger] self.versions@[i]))
                == self.version_ids@[i]
    }
}

/// Sample a protocol-version prefix: either the oldest supported version
/// alone, or every supported version, each with equal probability. A
/// newer version is never selected without every older one.
pub fn get_random_protocols() -> (r: ProtocolSelection)
    ensures
        r.wf(),
{
    let k = crate::rng::get_random_int(1, 3);
    let mut versions: Vec<&'static rustls::SupportedProtocolVersion> = Vec::new();
    let mut ids: Vec<u16> = Vec::new();
    versions.push(version_tls12());
    ids.push(TLS12_ID);
    if k == 2 {
        versions.push(version_tls13());
        ids.push(TLS13_ID);
    }
    ProtocolSelection { versions, version_ids: ids }
}

/// Inclusion of a newer protocol version implies inclusion of every older
/// supported version: version selection never skips a version in the
/// middle of the supported list.
pub proof fn lemma_version_prefix_monotonic(s: Seq<u16>, older: int, newer: int)
    requires
        is_version_prefix(s),
        0 <= older <= newer < supported_version_ids().len(),
        s.contains(supported_version_ids()[newer]),
    ensures
        s.contains(supported_version_ids()[older]),
{
    let ids = supported_version_ids();
    let k = choose|k: int| 0 <= k < s.len() && s[k] == ids[newer];
    assert(s[k] == ids[k]);
    assert(k == newer);
    assert(s[older] == ids[older]);
}

// ----------------------------------------------------------------------
// User agents.
// ----------------------------------------------------------------------

/// Number of user-agent strings in the table.
pub const USER_AGENT_COUNT: usize = 91;

/// The string is one of the table's user-agent entries.
pub open spec fn is_known_agent(s: Seq<char>) -> bool {
    ||| s == "Mozilla/5.0 (Windows NT 10.0; Win64; x64) AppleWebKit/537.36 (KHTML, like Gecko) Chrome/101.0.4951.67 Safari/537.36"@
    ||| s == "Mozilla/5.0 (Windows NT 10.0; Win64; x64; rv:100.0) Gecko/20100101 Firefox/100.0"@
    ||| s == "Mozilla/5.0 (Windows NT 10.0; Win64; x64) AppleWebKit/537.36 (KHTML, like Gecko) Chrome/101.0.4951.54 Safari/537.36"@
    ||| s == "Mozilla/5.0 (Macintosh; Intel Mac OS X 10_15_7) AppleWebKit/537.36 (KHTML, like Gecko) Chrome/101.0.4951.64 Safari/537.36"@
    ||| s == "Mozilla/5.0 (Windows NT 10.0; Win64; x64) AppleWebKit/537.36 (KHTML, like Gecko) Chrome/100.0.4896.127 Safari/537.36"@
    ||| s == "Mozilla/5.0 (X11; Linux x86_64; rv:100.0) Gecko/20100101 Firefox/100.0"@
    ||| s == "Mozilla/5.0 (Windows NT 10.0; rv:91.0) Gecko/20100101 Firefox/91.0"@
    ||| s == "Mozilla/5.0 (Macintosh; Intel Mac OS X 10_15_7) AppleWebKit/537.36 (KHTML, like Gecko) Chrome/101.0.4951.54 Safari/537.36"@
    ||| s == "Mozilla/5.0 (Macintosh; Intel Mac OS X 10_15_7) AppleWebKit/605.1.15 (KHTML, like Gecko) Version/15.4 Safari/605.1.15"@
    ||| s == "Mozilla/5.0 (Macintosh; Intel Mac OS X 10.15; rv:100.0) Gecko/20100101 Firefox/100.0"@
    ||| s == "Mozilla/5.0 (Macintosh; Intel Mac OS X 10_15_7) AppleWebKit/537.36 (KHTML, like Gecko) Chrome/100.0.4896.127 Safari/537.36"@
    ||| s == "Mozilla/5.0 (Windows NT 10.0; Win64; x64) AppleWebKit/537.36 (KHTML, like Gecko) Chrome/101.0.4951.64 Safari/537.36"@
    ||| s == "Mozilla/5.0 (Windows NT 10.0; Win64; x64) AppleWebKit/537.36 (KHTML, like Gecko) Chrome/102.0.5005.61 Safari/537.36"@
    ||| s == "Mozilla/5.0 (Macintosh; Intel Mac OS X 10_15_7) AppleWebKit/537.36 (KHTML, like Gecko) Chrome/102.0.5005.61 Safari/537.36"@
    ||| s == "Mozilla/5.0 (Windows NT 10.0; Win64; x64) AppleWebKit/537.36 (KHTML, like Gecko) Chrome/102.0.5005.63 Safari/537.36"@
    ||| s == "Mozilla/5.0 (Windows NT 10.0; Win64; x64; rv:99.0) Gecko/20100101 Firefox/99.0"@
    ||| s == "Mozilla/5.0 (Windows NT 10.0; Win64; x64; rv:101.0) Gecko/20100101 Firefox/101.0"@
    ||| s == "Mozilla/5.0 (Windows NT 10.0; Win64; x64) AppleWebKit/537.36 (KHTML, like Gecko) Chrome/101.0.4951.64 Safari/537.36 Edg/101.0.1210.53"@
    ||| s == "Mozilla/5.0 (Windows NT 10.0; Win64; x64) AppleWebKit/537.36 (KHTML, like Gecko) Chrome/101.0.0.0 Safari/537.36"@
    ||| s == "Mozilla/5.0 (X11; Linux x86_64) AppleWebKit/537.36 (KHTML, like Gecko) Chrome/101.0.4951.64 Safari/537.36"@
    ||| s == "Mozilla/5.0 (Macintosh; Intel Mac OS X 10_15_7) AppleWebKit/605.1.15 (KHTML, like Gecko) Version/15.5 Safari/605.1.15"@
    ||| s == "Mozilla/5.0 (Windows NT 10.0; Win64; x64) AppleWebKit/537.36 (KHTML, like Gecko) Chrome/102.0.5005.62 Safari/537.36"@
    ||| s == "Mozilla/5.0 (X11; Linux x86_64) AppleWebKit/537.36 (KHTML, like Gecko) Chrome/102.0.5005.61 Safari/537.36"@
    ||| s == "Mozilla/5.0 (Windows NT 10.0; Win64; x64) AppleWebKit/537.36 (KHTML, like Gecko) Chrome/101.0.4951.64 Safari/537.36 Edg/101.0.1210.47"@
    ||| s == "Mozilla/5.0 (X11; Ubuntu; Linux x86_64; rv:100.0) Gecko/20100101 Firefox/100.0"@
    ||| s == "Mozilla/5.0 (Windows NT 10.0; Win64; x64) AppleWebKit/537.36 (KHTML, like Gecko) Chrome/101.0.4951.54 Safari/537.36 Edg/101.0.1210.39"@
    ||| s == "Mozilla/5.0 (Macintosh; Intel Mac OS X 10_15_7) AppleWebKit/605.1.15 (KHTML, like Gecko) Version/15.3 Safari/605.1.15"@
    ||| s == "Mozilla/5.0 (X11; Linux x86_64; rv:91.0) Gecko/20100101 Firefox/91.0"@
    ||| s == "Mozilla/5.0 (X11; Linux x86_64) AppleWebKit/537.36 (KHTML, like Gecko) Chrome/101.0.4951.54 Safari/537.36"@
    ||| s == "Mozilla/5.0 (X11; Linux x86_64; rv:99.0) Gecko/20100101 Firefox/99.0"@
    ||| s == "Mozilla/5.0 (Windows NT 10.0; Win64; x64) AppleWebKit/537.36 (KHTML, like Gecko) Chrome/100.0.4896.75 Safari/537.36"@
    ||| s == "Mozilla/5.0 (Windows NT 10.0; Win64; x64) AppleWebKit/537.36 (KHTML, like Gecko) Chrome/102.0.0.0 Safari/537.36"@
    ||| s == "Mozilla/5.0 (Windows NT 10.0; Win64; x64) AppleWebKit/537.36 (KHTML, like Gecko) Chrome/101.0.4951.41 Safari/537.36"@
    ||| s == "Mozilla/5.0 (X11; Ubuntu; Linux x86_64; rv:99.0) Gecko/20100101 Firefox/99.0"@
    ||| s == "Mozilla/5.0 (Windows NT 10.0; Win64; x64) AppleWebKit/537.36 (KHTML, like Gecko) Chrome/101.0.4951.41 Safari/537.36 Edg/101.0.1210.32"@
    ||| s == "Mozilla/5.0 (X11; Linux x86_64; rv:101.0) Gecko/20100101 Firefox/101.0"@
    ||| s == "Mozilla/5.0 (Windows NT 6.1; Win64; x64; rv:100.0) Gecko/20100101 Firefox/100.0"@
    ||| s == "Mozilla/5.0 (Macintosh; Intel Mac OS X 10_15_7) AppleWebKit/537.36 (KHTML, like Gecko) Chrome/101.0.0.0 Safari/537.36"@
    ||| s == "Mozilla/5.0 (X11; Linux x86_64) AppleWebKit/537.36 (KHTML, like Gecko) Chrome/100.0.4896.127 Safari/537.36"@
    ||| s == "Mozilla/5.0 (Windows NT 10.0; Win64; x64) AppleWebKit/537.36 (KHTML, like Gecko) Chrome/100.0.4896.127 Safari/537.36 OPR/86.0.4363.59"@
    ||| s == "Mozilla/5.0 (Windows NT 6.1; Win64; x64) AppleWebKit/537.36 (KHTML, like Gecko) Chrome/101.0.4951.54 Safari/537.36"@
    ||| s == "Mozilla/5.0 (X11; Linux x86_64) AppleWebKit/537.36 (KHTML, like Gecko) Chrome/101.0.4951.41 Safari/537.36"@
    ||| s == "Mozilla/5.0 (Macintosh; Intel Mac OS X 10_15_7) AppleWebKit/537.36 (KHTML, like Gecko) Chrome/100.0.4896.88 Safari/537.36"@
    ||| s == "Mozilla/5.0 (Macintosh; Intel Mac OS X 10_15_7) AppleWebKit/537.36 (KHTML, like Gecko) Chrome/101.0.4951.41 Safari/537.36"@
    ||| s == "Mozilla/5.0 (Windows NT 10.0; Win64; x64) AppleWebKit/537.36 (KHTML, like Gecko) Chrome/100.0.4896.88 Safari/537.36"@
    ||| s == "Mozilla/5.0 (Windows NT 10.0; Win64; x64) AppleWebKit/537.36 (KHTML, like Gecko) Chrome/98.0.4758.141 YaBrowser/22.3.3.852 Yowser/2.5 Safari/537.36"@
    ||| s == "Mozilla/5.0 (Windows NT 10.0; Win64; x64) AppleWebKit/537.36 (KHTML, like Gecko) Chrome/99.0.4844.84 Safari/537.36 OPR/85.0.4341.75"@
    ||| s == "Mozilla/5.0 (Macintosh; Intel Mac OS X 10.15; rv:99.0) Gecko/20100101 Firefox/99.0"@
    ||| s == "Mozilla/5.0 (Macintosh; Intel Mac OS X 10_15_7) AppleWebKit/605.1.15 (KHTML, like Gecko) Version/15.1 Safari/605.1.15"@
    ||| s == "Mozilla/5.0 (Windows NT 10.0; Win64; x64; rv:91.0) Gecko/20100101 Firefox/91.0"@
    ||| s == "Mozilla/5.0 (Windows NT 10.0; Win64; x64) AppleWebKit/537.36 (KHTML, like Gecko) Chrome/100.0.4896.60 Safari/537.36"@
    ||| s == "Mozilla/5.0 (Macintosh; Intel Mac OS X 10_15_2) AppleWebKit/537.36 (KHTML, like Gecko) Chrome/79.0.3945.88 Safari/537.36"@
    ||| s == "Mozilla/5.0 (X11; Fedora; Linux x86_64; rv:100.0) Gecko/20100101 Firefox/100.0"@
    ||| s == "Mozilla/5.0 (Macintosh; Intel Mac OS X 10_15_7) AppleWebKit/605.1.15 (KHTML, like Gecko) Version/15.2 Safari/605.1.15"@
    ||| s == "Mozilla/5.0 (Macintosh; Intel Mac OS X 10_15_6) AppleWebKit/605.1.15 (KHTML, like Gecko) Version/15.4 Safari/605.1.15"@
    ||| s == "Mozilla/5.0 (Windows NT 10.0; Win64; x64) AppleWebKit/537.36 (KHTML, like Gecko) Chrome/99.0.4844.84 Safari/537.36"@
    ||| s == "Mozilla/5.0 (Windows NT 10.0; Win64; x64) AppleWebKit/537.36 (KHTML, like Gecko) Chrome/99.0.4844.84 Safari/537.36 OPR/85.0.4341.71"@
    ||| s == "Mozilla/5.0 (Windows NT 6.1; Win64; x64) AppleWebKit/537.36 (KHTML, like Gecko) Chrome/101.0.4951.67 Safari/537.36"@
    ||| s == "Mozilla/5.0 (X11; Linux x86_64; rv:78.0) Gecko/20100101 Firefox/78.0"@
    ||| s == "Mozilla/5.0 (Macintosh; Intel Mac OS X 10_15_7) AppleWebKit/605.1.15 (KHTML, like Gecko) Version/14.1.2 Safari/605.1.15"@
    ||| s == "Mozilla/5.0 (X11; Linux x86_64) AppleWebKit/537.36 (KHTML, like Gecko) Chrome/101.0.4951.67 Safari/537.36"@
    ||| s == "Mozilla/5.0 (Windows NT 10.0; WOW64) AppleWebKit/537.36 (KHTML, like Gecko) Chrome/86.0.4240.198 Safari/537.36"@
    ||| s == "Mozilla/5.0 (Windows NT 10.0; Win64; x64) AppleWebKit/537.36 (KHTML, like Gecko) Chrome/100.0.4896.127 Safari/537.36 OPR/86.0.4363.64"@
    ||| s == "Mozilla/5.0 (Windows NT 6.3; Win64; x64) AppleWebKit/537.36 (KHTML, like Gecko) Chrome/101.0.4951.67 Safari/537.36"@
    ||| s == "Mozilla/5.0 (Windows NT 6.3; Win64; x64; rv:100.0) Gecko/20100101 Firefox/100.0"@
    ||| s == "Mozilla/5.0 (Macintosh; Intel Mac OS X 10.15; rv:101.0) Gecko/20100101 Firefox/101.0"@
    ||| s == "Mozilla/5.0 (Windows NT 10.0; Win64; x64) AppleWebKit/537.36 (KHTML, like Gecko) Chrome/100.0.4896.127 Safari/537.36 Edg/100.0.1185.50"@
    ||| s == "Mozilla/5.0 (Windows NT 10.0; Win64; x64) AppleWebKit/537.36 (KHTML, like Gecko) Chrome/99.0.4844.51 Safari/537.36"@
    ||| s == "Mozilla/5.0 (Windows NT 10.0; WOW64) AppleWebKit/537.36 (KHTML, like Gecko) Chrome/101.0.4951.67 Safari/537.3"@
    ||| s == "Mozilla/5.0 (X11; U; SunOS sun4u; en-US; rv:1.8.1.11) Gecko/20080118 Firefox/2.0.0.11"@
    ||| s == "Mozilla/5.0 (X11; U; OpenBSD i386; en-US; rv:1.8.1.4) Gecko/20071127 Firefox/2.0.0.11"@
    ||| s == "Mozilla/5.0 (X11; U; Linux x86_64; zh-TW; rv:1.8.1.11) Gecko/20071204 Ubuntu/7.10 (gutsy) Firefox/2.0.0.11"@
    ||| s == "Mozilla/5.0 (X11; U; Linux x86_64; fr; rv:1.8.1.11) Gecko/20071127 Firefox/2.0.0.11"@
    ||| s == "Mozilla/5.0 (X11; U; Linux x86_64; en-US; rv:1.8.1.11) Gecko/20071201 Firefox/2.0.0.11"@
    ||| s == "Mozilla/5.0 (X11; U; Linux x86_64; en-US; rv:1.8.1.11) Gecko/20071127 Firefox/2.0.0.11"@
    ||| s == "Mozilla/5.0 (X11; U; Linux x86_64; en-US; rv:1.8.1.11) Gecko/20070914 Mandriva/2.0.0.11-1.1mdv2008.0 (2008.0) Firefox/2.0.0.11"@
    ||| s == "Mozilla/5.0 (X11; U; Linux i686; ru-RU; rv:1.8.1.11) Gecko/20071201 Firefox/2.0.0.11"@
    ||| s == "Mozilla/5.0 (X11; U; Linux i686; pt-PT; rv:1.8.1.11) Gecko/20071204 Ubuntu/7.10 (gutsy) Firefox/2.0.0.11"@
    ||| s == "Mozilla/5.0 (X11; U; Linux i686; ja; rv:1.8.1.11) Gecko/20071128 Firefox/2.0.0.11 (Debian-2.0.0.11-1)"@
    ||| s == "Mozilla/5.0 (X11; U; Linux i686; ja; rv:1.8.1.11) Gecko/20071127 Firefox/2.0.0.11"@
    ||| s == "Mozilla/5.0 (X11; U; Linux i686; ja-JP; rv:1.8.1.11) Gecko/20071204 Ubuntu/7.10 (gutsy) Firefox/2.0.0.11"@
    ||| s == "Mozilla/5.0 (X11; U; Linux i686; fr; rv:1.8.1.8) Gecko/20071022 Ubuntu/7.10 (gutsy) Firefox/2.0.0.11"@
    ||| s == "Mozilla/5.0 (X11; U; Linux i686; fr; rv:1.8.1.6) Gecko/20071008 Ubuntu/7.10 (gutsy) Firefox/2.0.0.11"@
    ||| s == "Mozilla/5.0 (X11; U; Linux i686; es-AR; rv:1.8.1.11) Gecko/20071204 Ubuntu/7.10 (gutsy) Firefox/2.0.0.11"@
    ||| s == "Mozilla/5.0 (X11; U; Linux i686; en; rv:1.8.1.11) Gecko/20071216 Firefox/2.0.0.11"@
    ||| s == "Mozilla/5.0 (X11; U; Linux i686; en-US; rv:1.8.1.11) Gecko/20080201 Firefox/2.0.0.11"@
    ||| s == "Mozilla/5.0 (X11; U; Linux i686; en-US; rv:1.8.1.11) Gecko/20071217 Firefox/2.0.0.11"@
    ||| s == "Mozilla/5.0 (X11; U; Linux i686; en-US; rv:1.8.1.11) Gecko/20071204 Ubuntu/7.10 (gutsy) Firefox/2.0.0.11"@
    ||| s == "Mozilla/5.0 (X11; U; Linux i686; en-US; rv:1.8.1.11) Gecko/20071204 Firefox/2.0.0.11"@
    ||| s == "Mozilla/5.0 (X11; Ubuntu i686; rv:52.0) Gecko/20100101 Firefox/52.0"@
    ||| s == "Mozilla/5.0 (X11; Ubuntu; Linux i686; rv:52.0) Gecko/20100101 Firefox/52.0"@
}

/// The user-agent table, one entry per index.
fn user_agent_at(i: usize) -> (r: &'static str)
    requires
        i < USER_AGENT_COUNT,
    ensures
        is_known_agent(r@),
{
    match i {
        0 => "Mozilla/5.0 (Windows NT 10.0; Win64; x64) AppleWebKit/537.36 (KHTML, like Gecko) Chrome/101.0.4951.67 Safari/537.36",
        1 => "Mozilla/5.0 (Windows NT 10.0; Win64; x64; rv:100.0) Gecko/20100101 Firefox/100.0",
        2 => "Mozilla/5.0 (Windows NT 10.0; Win64; x64) AppleWebKit/537.36 (KHTML, like Gecko) Chrome/101.0.4951.54 Safari/537.36",
        3 => "Mozilla/5.0 (Macintosh; Intel Mac OS X 10_15_7) AppleWebKit/537.36 (KHTML, like Gecko) Chrome/101.0.4951.64 Safari/537.36",
        4 => "Mozilla/5.0 (Windows NT 10.0; Win64; x64) AppleWebKit/537.36 (KHTML, like Gecko) Chrome/100.0.4896.127 Safari/537.36",
        5 => "Mozilla/5.0 (X11; Linux x86_64; rv:100.0) Gecko/20100101 Firefox/100.0",
        6 => "Mozilla/5.0 (Windows NT 10.0; rv:91.0) Gecko/20100101 Firefox/91.0",
        7 => "Mozilla/5.0 (Macintosh; Intel Mac OS X 10_15_7) AppleWebKit/537.36 (KHTML, like Gecko) Chrome/101.0.4951.54 Safari/537.36",
        8 => "Mozilla/5.0 (Macintosh; Intel Mac OS X 10_15_7) AppleWebKit/605.1.15 (KHTML, like Gecko) Version/15.4 Safari/605.1.15",
        9 => "Mozilla/5.0 (Macintosh; Intel Mac OS X 10.15; rv:100.0) Gecko/20100101 Firefox/100.0",
        10 => "Mozilla/5.0 (Macintosh; Intel Mac OS X 10_15_7) AppleWebKit/537.36 (KHTML, like Gecko) Chrome/100.0.4896.127 Safari/537.36",
        11 => "Mozilla/5.0 (Windows NT 10.0; Win64; x64) AppleWebKit/537.36 (KHTML, like Gecko) Chrome/101.0.4951.64 Safari/537.36",
        12 => "Mozilla/5.0 (Windows NT 10.0; Win64; x64) AppleWebKit/537.36 (KHTML, like Gecko) Chrome/102.0.5005.61 Safari/537.36",
        13 => "Mozilla/5.0 (Macintosh; Intel Mac OS X 10_15_7) AppleWebKit/537.36 (KHTML, like Gecko) Chrome/102.0.5005.61 Safari/537.36",
        14 => "Mozilla/5.0 (Windows NT 10.0; Win64; x64) AppleWebKit/537.36 (KHTML, like Gecko) Chrome/102.0.5005.63 Safari/537.36",
        15 => "Mozilla/5.0 (Windows NT 10.0; Win64; x64; rv:99.0) Gecko/20100101 Firefox/99.0",
        16 => "Mozilla/5.0 (Windows NT 10.0; Win64; x64; rv:101.0) Gecko/20100101 Firefox/101.0",
        17 => "Mozilla/5.0 (Windows NT 10.0; Win64; x64) AppleWebKit/537.36 (KHTML, like Gecko) Chrome/101.0.4951.64 Safari/537.36 Edg/101.0.1210.53",
        18 => "Mozilla/5.0 (Windows NT 10.0; Win64; x64) AppleWebKit/537.36 (KHTML, like Gecko) Chrome/101.0.0.0 Safari/537.36",
        19 => "Mozilla/5.0 (X11; Linux x86_64) AppleWebKit/537.36 (KHTML, like Gecko) Chrome/101.0.4951.64 Safari/537.36",
        20 => "Mozilla/5.0 (Macintosh; Intel Mac OS X 10_15_7) AppleWebKit/605.1.15 (KHTML, like Gecko) Version/15.5 Safari/605.1.15",
        21 => "Mozilla/5.0 (Windows NT 10.0; Win64; x64) AppleWebKit/537.36 (KHTML, like Gecko) Chrome/102.0.5005.62 Safari/537.36",
        22 => "Mozilla/5.0 (X11; Linux x86_64) AppleWebKit/537.36 (KHTML, like Gecko) Chrome/102.0.5005.61 Safari/537.36",
        23 => "Mozilla/5.0 (Windows NT 10.0; Win64; x64) AppleWebKit/537.36 (KHTML, like Gecko) Chrome/101.0.4951.64 Safari/537.36 Edg/101.0.1210.47",
        24 => "Mozilla/5.0 (X11; Ubuntu; Linux x86_64; rv:100.0) Gecko/20100101 Firefox/100.0",
        25 => "Mozilla/5.0 (Windows NT 10.0; Win64; x64) AppleWebKit/537.36 (KHTML, like Gecko) Chrome/101.0.4951.54 Safari/537.36 Edg/101.0.1210.39",
        26 => "Mozilla/5.0 (Macintosh; Intel Mac OS X 10_15_7) AppleWebKit/605.1.15 (KHTML, like Gecko) Version/15.3 Safari/605.1.15",
        27 => "Mozilla/5.0 (X11; Linux x86_64; rv:91.0) Gecko/20100101 Firefox/91.0",
        28 => "Mozilla/5.0 (X11; Linux x86_64) AppleWebKit/537.36 (KHTML, like Gecko) Chrome/101.0.4951.54 Safari/537.36",
        29 => "Mozilla/5.0 (X11; Linux x86_64; rv:99.0) Gecko/20100101 Firefox/99.0",
        30 => "Mozilla/5.0 (Windows NT 10.0; Win64; x64) AppleWebKit/537.36 (KHTML, like Gecko) Chrome/100.0.4896.75 Safari/537.36",
        31 => "Mozilla/5.0 (Windows NT 10.0; Win64; x64) AppleWebKit/537.36 (KHTML, like Gecko) Chrome/102.0.0.0 Safari/537.36",
        32 => "Mozilla/5.0 (Windows NT 10.0; Win64; x64) AppleWebKit/537.36 (KHTML, like Gecko) Chrome/101.0.4951.41 Safari/537.36",
        33 => "Mozilla/5.0 (X11; Ubuntu; Linux x86_64; rv:99.0) Gecko/20100101 Firefox/99.0",
        34 => "Mozilla/5.0 (Windows NT 10.0; Win64; x64) AppleWebKit/537.36 (KHTML, like Gecko) Chrome/101.0.4951.41 Safari/537.36 Edg/101.0.1210.32",
        35 => "Mozilla/5.0 (X11; Linux x86_64; rv:101.0) Gecko/20100101 Firefox/101.0",
        36 => "Mozilla/5.0 (Windows NT 6.1; Win64; x64; rv:100.0) Gecko/20100101 Firefox/100.0",
        37 => "Mozilla/5.0 (Macintosh; Intel Mac OS X 10_15_7) AppleWebKit/537.36 (KHTML, like Gecko) Chrome/101.0.0.0 Safari/537.36",
        38 => "Mozilla/5.0 (X11; Linux x86_64) AppleWebKit/537.36 (KHTML, like Gecko) Chrome/100.0.4896.127 Safari/537.36",
        39 => "Mozilla/5.0 (Windows NT 10.0; Win64; x64) AppleWebKit/537.36 (KHTML, like Gecko) Chrome/100.0.4896.127 Safari/537.36 OPR/86.0.4363.59",
        40 => "Mozilla/5.0 (Windows NT 6.1; Win64; x64) AppleWebKit/537.36 (KHTML, like Gecko) Chrome/101.0.4951.54 Safari/537.36",
        41 => "Mozilla/5.0 (X11; Linux x86_64) AppleWebKit/537.36 (KHTML, like Gecko) Chrome/101.0.4951.41 Safari/537.36",
        42 => "Mozilla/5.0 (Macintosh; Intel Mac OS X 10_15_7) AppleWebKit/537.36 (KHTML, like Gecko) Chrome/100.0.4896.88 Safari/537.36",
        43 => "Mozilla/5.0 (Macintosh; Intel Mac OS X 10_15_7) AppleWebKit/537.36 (KHTML, like Gecko) Chrome/101.0.4951.41 Safari/537.36",
        44 => "Mozilla/5.0 (Windows NT 10.0; Win64; x64) AppleWebKit/537.36 (KHTML, like Gecko) Chrome/100.0.4896.88 Safari/537.36",
        45 => "Mozilla/5.0 (Windows NT 10.0; Win64; x64) AppleWebKit/537.36 (KHTML, like Gecko) Chrome/98.0.4758.141 YaBrowser/22.3.3.852 Yowser/2.5 Safari/537.36",
        46 => "Mozilla/5.0 (Windows NT 10.0; Win64; x64) AppleWebKit/537.36 (KHTML, like Gecko) Chrome/99.0.4844.84 Safari/537.36 OPR/85.0.4341.75",
        47 => "Mozilla/5.0 (Macintosh; Intel Mac OS X 10.15; rv:99.0) Gecko/20100101 Firefox/99.0",
        48 => "Mozilla/5.0 (Macintosh; Intel Mac OS X 10_15_7) AppleWebKit/605.1.15 (KHTML, like Gecko) Version/15.1 Safari/605.1.15",
        49 => "Mozilla/5.0 (Windows NT 10.0; Win64; x64; rv:91.0) Gecko/20100101 Firefox/91.0",
        50 => "Mozilla/5.0 (Windows NT 10.0; Win64; x64) AppleWebKit/537.36 (KHTML, like Gecko) Chrome/100.0.4896.60 Safari/537.36",
        51 => "Mozilla/5.0 (Macintosh; Intel Mac OS X 10_15_2) AppleWebKit/537.36 (KHTML, like Gecko) Chrome/79.0.3945.88 Safari/537.36",
        52 => "Mozilla/5.0 (X11; Fedora; Linux x86_64; rv:100.0) Gecko/20100101 Firefox/100.0",
        53 => "Mozilla/5.0 (Macintosh; Intel Mac OS X 10_15_7) AppleWebKit/605.1.15 (KHTML, like Gecko) Version/15.2 Safari/605.1.15",
        54 => "Mozilla/5.0 (Macintosh; Intel Mac OS X 10_15_6) AppleWebKit/605.1.15 (KHTML, like Gecko) Version/15.4 Safari/605.1.15",
        55 => "Mozilla/5.0 (Windows NT 10.0; Win64; x64) AppleWebKit/537.36 (KHTML, like Gecko) Chrome/99.0.4844.84 Safari/537.36",
        56 => "Mozilla/5.0 (Windows NT 10.0; Win64; x64) AppleWebKit/537.36 (KHTML, like Gecko) Chrome/99.0.4844.84 Safari/537.36 OPR/85.0.4341.71",
        57 => "Mozilla/5.0 (Windows NT 6.1; Win64; x64) AppleWebKit/537.36 (KHTML, like Gecko) Chrome/101.0.4951.67 Safari/537.36",
        58 => "Mozilla/5.0 (X11; Linux x86_64; rv:78.0) Gecko/20100101 Firefox/78.0",
        59 => "Mozilla/5.0 (Macintosh; Intel Mac OS X 10_15_7) AppleWebKit/605.1.15 (KHTML, like Gecko) Version/14.1.2 Safari/605.1.15",
        60 => "Mozilla/5.0 (X11; Linux x86_64) AppleWebKit/537.36 (KHTML, like Gecko) Chrome/101.0.4951.67 Safari/537.36",
        61 => "Mozilla/5.0 (Windows NT 10.0; WOW64) AppleWebKit/537.36 (KHTML, like Gecko) Chrome/86.0.4240.198 Safari/537.36",
        62 => "Mozilla/5.0 (Windows NT 10.0; Win64; x64) AppleWebKit/537.36 (KHTML, like Gecko) Chrome/100.0.4896.127 Safari/537.36 OPR/86.0.4363.64",
        63 => "Mozilla/5.0 (Windows NT 6.3; Win64; x64) AppleWebKit/537.36 (KHTML, like Gecko) Chrome/101.0.4951.67 Safari/537.36",
        64 => "Mozilla/5.0 (Windows NT 6.3; Win64; x64; rv:100.0) Gecko/20100101 Firefox/100.0",
        65 => "Mozilla/5.0 (Macintosh; Intel Mac OS X 10.15; rv:101.0) Gecko/20100101 Firefox/101.0",
        66 => "Mozilla/5.0 (Windows NT 10.0; Win64; x64) AppleWebKit/537.36 (KHTML, like Gecko) Chrome/100.0.4896.127 Safari/537.36 Edg/100.0.1185.50",
        67 => "Mozilla/5.0 (Windows NT 10.0; Win64; x64) AppleWebKit/537.36 (KHTML, like Gecko) Chrome/99.0.4844.51 Safari/537.36",
        68 => "Mozilla/5.0 (Windows NT 10.0; WOW64) AppleWebKit/537.36 (KHTML, like Gecko) Chrome/101.0.4951.67 Safari/537.3",
        69 => "Mozilla/5.0 (X11; U; SunOS sun4u; en-US; rv:1.8.1.11) Gecko/20080118 Firefox/2.0.0.11",
        70 => "Mozilla/5.0 (X11; U; OpenBSD i386; en-US; rv:1.8.1.4) Gecko/20071127 Firefox/2.0.0.11",
        71 => "Mozilla/5.0 (X11; U; Linux x86_64; zh-TW; rv:1.8.1.11) Gecko/20071204 Ubuntu/7.10 (gutsy) Firefox/2.0.0.11",
        72 => "Mozilla/5.0 (X11; U; Linux x86_64; fr; rv:1.8.1.11) Gecko/20071127 Firefox/2.0.0.11",
        73 => "Mozilla/5.0 (X11; U; Linux x86_64; en-US; rv:1.8.1.11) Gecko/20071201 Firefox/2.0.0.11",
        74 => "Mozilla/5.0 (X11; U; Linux x86_64; en-US; rv:1.8.1.11) Gecko/20071127 Firefox/2.0.0.11",
        75 => "Mozilla/5.0 (X11; U; Linux x86_64; en-US; rv:1.8.1.11) Gecko/20070914 Mandriva/2.0.0.11-1.1mdv2008.0 (2008.0) Firefox/2.0.0.11",
        76 => "Mozilla/5.0 (X11; U; Linux i686; ru-RU; rv:1.8.1.11) Gecko/20071201 Firefox/2.0.0.11",
        77 => "Mozilla/5.0 (X11; U; Linux i686; pt-PT; rv:1.8.1.11) Gecko/20071204 Ubuntu/7.10 (gutsy) Firefox/2.0.0.11",
        78 => "Mozilla/5.0 (X11; U; Linux i686; ja; rv:1.8.1.11) Gecko/20071128 Firefox/2.0.0.11 (Debian-2.0.0.11-1)",
        79 => "Mozilla/5.0 (X11; U; Linux i686; ja; rv:1.8.1.11) Gecko/20071127 Firefox/2.0.0.11",
        80 => "Mozilla/5.0 (X11; U; Linux i686; ja-JP; rv:1.8.1.11) Gecko/20071204 Ubuntu/7.10 (gutsy) Firefox/2.0.0.11",
        81 => "Mozilla/5.0 (X11; U; Linux i686; fr; rv:1.8.1.8) Gecko/20071022 Ubuntu/7.10 (gutsy) Firefox/2.0.0.11",
        82 => "Mozilla/5.0 (X11; U; Linux i686; fr; rv:1.8.1.6) Gecko/20071008 Ubuntu/7.10 (gutsy) Firefox/2.0.0.11",
        83 => "Mozilla/5.0 (X11; U; Linux i686; es-AR; rv:1.8.1.11) Gecko/20071204 Ubuntu/7.10 (gutsy) Firefox/2.0.0.11",
        84 => "Mozilla/5.0 (X11; U; Linux i686; en; rv:1.8.1.11) Gecko/20071216 Firefox/2.0.0.11",
        85 => "Mozilla/5.0 (X11; U; Linux i686; en-US; rv:1.8.1.11) Gecko/20080201 Firefox/2.0.0.11",
        86 => "Mozilla/5.0 (X11; U; Linux i686; en-US; rv:1.8.1.11) Gecko/20071217 Firefox/2.0.0.11",
        87 => "Mozilla/5.0 (X11; U; Linux i686; en-US; rv:1.8.1.11) Gecko/20071204 Ubuntu/7.10 (gutsy) Firefox/2.0.0.11",
        88 => "Mozilla/5.0 (X11; U; Linux i686; en-US; rv:1.8.1.11) Gecko/20071204 Firefox/2.0.0.11",
        89 => "Mozilla/5.0 (X11; Ubuntu i686; rv:52.0) Gecko/20100101 Firefox/52.0",
        _ => "Mozilla/5.0 (X11; Ubuntu; Linux i686; rv:52.0) Gecko/20100101 Firefox/52.0",
    }
}

/// Get a random user agent from the table.
pub fn get_random_usr_agent() -> (r: &'static str)
    ensures
        is_known_agent(r@),
{
    let i = crate::rng::get_random_int(0, USER_AGENT_COUNT);
    user_agent_at(i)
}

} // verus!
