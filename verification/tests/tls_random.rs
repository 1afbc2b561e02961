use quic_hyper_stunt::client::{get_random_suite_count, get_random_tls_config, get_root_store};
use quic_hyper_stunt::utils::{
    get_random_ciphersuites, get_random_kx_group, get_random_protocols, get_random_usr_agent,
    SUPPORTED_SUITE_COUNT,
};

const ENGINE_SUITE_IDS: [u16; 9] = [
    0x1302, 0x1301, 0x1303, 0xc02c, 0xc02b, 0xcca9, 0xc030, 0xc02f, 0xcca8,
];

fn all_distinct(ids: &[u16]) -> bool {
    for i in 0..ids.len() {
        for j in (i + 1)..ids.len() {
            if ids[i] == ids[j] {
                return false;
            }
        }
    }
    true
}

#[test]
fn test_ciphersuites_exact_count_and_distinct() {
    for n in 3..=SUPPORTED_SUITE_COUNT {
        let selection = get_random_ciphersuites(n);
        assert_eq!(selection.suites.len(), n);
        assert_eq!(selection.suite_ids.len(), n);
        assert!(all_distinct(&selection.suite_ids));
        for id in &selection.suite_ids {
            assert!(ENGINE_SUITE_IDS.contains(id), "unknown suite identifier {id:#06x}");
        }
    }
}

#[test]
fn test_repeated_sampling_varies() {
    let first = {
        let mut ids = get_random_ciphersuites(3).suite_ids;
        ids.sort();
        ids
    };
    let mut saw_other = false;
    for _ in 0..200 {
        let mut ids = get_random_ciphersuites(3).suite_ids;
        ids.sort();
        if ids != first {
            saw_other = true;
            break;
        }
    }
    assert!(saw_other, "two hundred samples of three suites never differed");
}

#[test]
fn test_protocol_prefix_is_monotonic() {
    for _ in 0..50 {
        let protocols = get_random_protocols();
        let ids = &protocols.version_ids;
        assert!(!ids.is_empty() && ids.len() <= 2);
        assert_eq!(ids[0], 0x0303, "the oldest supported version opens every prefix");
        if ids.len() == 2 {
            assert_eq!(ids[1], 0x0304);
        }
        assert_eq!(protocols.versions.len(), ids.len());
    }
}

#[test]
fn test_kx_group_single_choice() {
    for _ in 0..50 {
        let kx = get_random_kx_group();
        assert_eq!(kx.groups.len(), 1);
        assert!(
            kx.group_id == 0x001d || kx.group_id == 0x0017 || kx.group_id == 0x0018,
            "unexpected key-exchange group identifier {:#06x}",
            kx.group_id
        );
    }
}

#[test]
fn test_random_tls_config_shape() {
    let config = get_random_tls_config(5, false).expect("five suites always include a usable one");
    assert_eq!(config.suite_ids.len(), 5);
    assert!(all_distinct(&config.suite_ids));
    assert_eq!(config.version_ids[0], 0x0303);
    assert!(config.version_ids.len() <= 2);
    assert!(!config.keylog);
}

#[test]
fn test_random_tls_config_succeeds_above_minimum() {
    for n in 4..=SUPPORTED_SUITE_COUNT {
        let config = get_random_tls_config(n, false)
            .expect("four or more distinct suites always include a TLS 1.2 suite");
        assert_eq!(config.suite_ids.len(), n);
    }
}

#[test]
fn test_random_tls_config_keylog_flag() {
    let config = get_random_tls_config(3, true).expect("retry budget should not run out");
    assert!(config.keylog);
    assert_eq!(config.suite_ids.len(), 3);
}

#[test]
fn test_random_suite_count_range() {
    for _ in 0..100 {
        let n = get_random_suite_count();
        assert!((3..=SUPPORTED_SUITE_COUNT).contains(&n));
    }
}

#[test]
fn test_root_store_not_empty() {
    let store = get_root_store();
    assert!(!store.roots.is_empty());
}

#[test]
fn test_user_agent_plausible_and_varies() {
    let first = get_random_usr_agent();
    assert!(first.starts_with("Mozilla/5.0"));
    let mut varied = false;
    for _ in 0..1000 {
        let next = get_random_usr_agent();
        assert!(next.starts_with("Mozilla/5.0"));
        if next != first {
            varied = true;
            break;
        }
    }
    assert!(varied, "a thousand draws never left the first user agent");
}
