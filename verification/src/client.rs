//! Randomized TLS client configurations.
//!
//! A configuration samples one key-exchange group, a protocol-version
//! prefix and a set of distinct cipher suites, then asks the TLS engine to
//! accept the combination. On rejection only the cipher-suite subset is
//! resampled — the group and the version prefix stay fixed for the session
//! — until the engine accepts or a bounded retry budget runs out.

use crate::error::NetworkError;
use crate::utils::{
    get_random_ciphersuites, get_random_kx_group, get_random_protocols, is_tls13_id,
    is_version_prefix, spec_suite_version_id, spec_version_id, supported_kx_ids, TLS12_ID,
    TLS13_ID, SUPPORTED_SUITE_COUNT,
};
use vstd::prelude::*;

verus! {

#[verifier::external_type_specification]
#[verifier::external_body]
pub struct ExClientConfig(rustls::ClientConfig);

#[verifier::external_type_specification]
#[verifier::external_body]
pub struct ExRootCertStore(rustls::RootCertStore);

/// How many cipher-suite subsets are tried before configuration
/// generation gives up.
pub const CONFIG_RETRY_BUDGET: usize = 16;

/// Relies on rustls's `RootCertStore` and on `webpki_roots`'s bundled
/// trust anchors: the returned store holds every bundled anchor.
#[verifier::external_body]
pub fn get_root_store() -> rustls::RootCertStore {
    let mut root_store = rustls::RootCertStore::empty();
    root_store.add_trust_anchors(webpki_roots::TLS_SERVER_ROOTS.iter().map(|ta| {
        rustls::OwnedTrustAnchor::from_subject_spki_name_constraints(
            ta.subject,
            ta.spki,
            ta.name_constraints,
        )
    }));
    root_store
}

/// Relies on rustls's client `ConfigBuilder` chain: the first two steps
/// only store their arguments, and `with_protocol_versions` accepts
/// exactly when some selected suite's protocol version is among the
/// selected versions — versions compare by their code point — and the
/// key-exchange list is nonempty; the remaining steps cannot fail. `Ok`
/// carries a configuration restricted to exactly the given suites,
/// groups and versions, with the key-log sink installed only when asked
/// for; `Err` carries the engine's rejection text.
#[verifier::external_body]
fn try_build_client_config(
    suites: &Vec<rustls::SupportedCipherSuite>,
    kx_groups: &Vec<&'static rustls::SupportedKxGroup>,
    versions: &Vec<&'static rustls::SupportedProtocolVersion>,
    roots: &rustls::RootCertStore,
    keylog: bool,
) -> (r: Result<rustls::ClientConfig, String>)
    ensures
        r is Ok <==> (kx_groups@.len() > 0 && exists|i: int, j: int|
            0 <= i < suites@.len() && 0 <= j < versions@.len()
            && #[trigger] crate::utils::spec_suite_version_id(suites@[i])
                == #[trigger] crate::utils::spec_version_id(*versions@[j])),
{
    let built = rustls::ClientConfig::builder()
        .with_cipher_suites(suites.as_slice())
        .with_kx_groups(kx_groups.as_slice())
        .with_protocol_versions(versions.as_slice());
    match built {
        Ok(b) => {
            let mut config = b.with_root_certificates(roots.clone()).with_no_client_auth();
            if keylog {
                config.key_log = std::sync::Arc::new(rustls::KeyLogFile::new());
            }
            Ok(config)
        }
        Err(e) => Err(format!("{}", e)),
    }
}

/// A TLS configuration accepted by the engine, together with the
/// identifiers of everything that was sampled into it.
pub struct TlsConfiguration {
    /// The engine configuration itself, ready to drive a connection.
    pub config: rustls::ClientConfig,
    /// Identifiers of the selected cipher suites, in selection order.
    pub suite_ids: Vec<u16>,
    /// Identifiers of the selected protocol versions, oldest-first.
    pub version_ids: Vec<u16>,
    /// Identifier of the selected key-exchange group.
    pub kx_id: u16,
    /// Whether the diagnostic key-log sink was installed.
    pub keylog: bool,
}

impl TlsConfiguration {
    /// At least three distinct suites drawn from the engine's default
    /// set, a monotonic version prefix, and a supported key-exchange
    /// group.
    pub open spec fn wf(self) -> bool {
        &&& 3 <= self.suite_ids@.len() <= SUPPORTED_SUITE_COUNT
        &&& crate::utils::distinct_seq(self.suite_ids@)
        &&& forall|i: int|
            0 <= i < self.suite_ids@.len() ==> crate::utils::supported_suite_ids().contains(
                #[trigger] self.suite_ids@[i],
            )
        &&& is_version_prefix(self.version_ids@)
        &&& supported_kx_ids().contains(self.kx_id)
    }
}

/// Build a randomized TLS client configuration with `nciphers` distinct
/// cipher suites. The key-log sink that exposes session secrets is
/// installed only when `keylog` is set. On engine rejection only the
/// cipher-suite subset is resampled; when the retry budget is exhausted
/// the failure is fatal, since no session can proceed without an accepted
/// configuration. The version prefix always holds TLS 1.2 and only three
/// of the nine default suites are TLS 1.3-only, so any draw of four or
/// more distinct suites is accepted: success is owed for every
/// `nciphers` above the minimum, and failure is possible only at three,
/// when every retry drew exactly the three TLS 1.3 suites.
pub fn get_random_tls_config(nciphers: usize, keylog: bool) -> (r: Result<
    TlsConfiguration,
    NetworkError,
>)
    requires
        3 <= nciphers <= SUPPORTED_SUITE_COUNT,
    ensures
        r matches Ok(c) ==> c.wf() && c.suite_ids@.len() == nciphers && c.keylog == keylog,
        r matches Err(e) ==> e is FatalError,
        nciphers >= 4 ==> r is Ok,
{
    let roots = get_root_store();
    let kx = get_random_kx_group();
    let protocols = get_random_protocols();
    let mut attempt: usize = 0;
    while attempt < CONFIG_RETRY_BUDGET
        invariant
            kx.wf(),
            protocols.wf(),
            3 <= nciphers <= SUPPORTED_SUITE_COUNT,
            attempt > 0 ==> nciphers == 3,
        decreases CONFIG_RETRY_BUDGET - attempt,
    {
        let selection = get_random_ciphersuites(nciphers);
        let built = try_build_client_config(
            &selection.suites,
            &kx.groups,
            &protocols.versions,
            &roots,
            keylog,
        );
        match built {
            Ok(config) => {
                let mut version_ids: Vec<u16> = Vec::new();
                version_ids.push(TLS12_ID);
                if protocols.version_ids.len() == 2 {
                    version_ids.push(TLS13_ID);
                }
                return Ok(TlsConfiguration {
                    config,
                    suite_ids: selection.suite_ids,
                    version_ids,
                    kx_id: kx.group_id,
                    keylog,
                });
            },
            Err(_) => {
                proof {
                    if nciphers >= 4 {
                        // A rejection is impossible here: the version
                        // prefix holds TLS 1.2, and four distinct
                        // identifiers cannot all be TLS 1.3 code points,
                        // so some selected suite matches TLS 1.2 and the
                        // engine must have accepted.
                        let ids = selection.suite_ids@;
                        assert(ids[0] != ids[1] && ids[0] != ids[2] && ids[0] != ids[3]
                            && ids[1] != ids[2] && ids[1] != ids[3] && ids[2] != ids[3]);
                        let k: int = if !is_tls13_id(ids[0]) {
                            0
                        } else if !is_tls13_id(ids[1]) {
                            1
                        } else if !is_tls13_id(ids[2]) {
                            2
                        } else {
                            3
                        };
                        assert(!is_tls13_id(ids[k]));
                        assert(spec_suite_version_id(selection.suites@[k]) == TLS12_ID);
                        assert(spec_version_id(*protocols.versions@[0]) == TLS12_ID);
                        assert(false);
                    }
                }
            },
        }
        attempt = attempt + 1;
    }
    Err(NetworkError::FatalError(String::from_str("tls configuration retry budget exhausted")))
}

/// Pick a random cipher-suite count for a new endpoint, anywhere from the
/// smallest allowed selection up to the engine's full default set.
pub fn get_random_suite_count() -> (r: usize)
    ensures
        3 <= r <= SUPPORTED_SUITE_COUNT,
{
    crate::rng::get_random_int(3, SUPPORTED_SUITE_COUNT + 1)
}

} // verus!
