use quic_hyper_stunt::error::NetworkError;
use quic_hyper_stunt::quic::common::{bytes_escape, read_cert_chain, read_key, single_key_of};

fn pem(tag: &str, body: &str) -> Vec<u8> {
    format!("-----BEGIN {tag}-----\n{body}\n-----END {tag}-----\n").into_bytes()
}

#[test]
fn test_read_key_pkcs8_single() {
    let data = pem("PRIVATE KEY", "AAAA");
    let key = read_key(&data).expect("one PKCS8 key must be returned");
    assert_eq!(key, vec![0, 0, 0]);
}

#[test]
fn test_read_key_rsa_single() {
    let data = pem("RSA PRIVATE KEY", "/////w==");
    let key = read_key(&data).expect("one RSA key must be returned");
    assert_eq!(key, vec![255, 255, 255, 255]);
}

#[test]
fn test_read_key_ec_single() {
    let data = pem("EC PRIVATE KEY", "AQID");
    let key = read_key(&data).expect("one EC key must be returned");
    assert_eq!(key, vec![1, 2, 3]);
}

#[test]
fn test_read_key_multiple_keys_rejected() {
    let mut data = pem("PRIVATE KEY", "AAAA");
    data.extend_from_slice(&pem("PRIVATE KEY", "AQID"));
    match read_key(&data) {
        Err(NetworkError::InternalError(detail)) => {
            assert_eq!(detail, "more than 1 key found");
        }
        other => panic!("two keys must be a configuration failure, got {:?}", other),
    }
}

#[test]
fn test_read_key_no_keys_rejected() {
    match read_key(b"not a pem file at all") {
        Err(NetworkError::InternalError(detail)) => {
            assert_eq!(detail, "no valid keys found");
        }
        other => panic!("keyless input must be a configuration failure, got {:?}", other),
    }
    match read_key(&pem("CERTIFICATE", "AAAA")) {
        Err(NetworkError::InternalError(detail)) => {
            assert_eq!(detail, "no valid keys found");
        }
        other => panic!("a lone certificate must yield no key, got {:?}", other),
    }
}

#[test]
fn test_single_key_of_direct() {
    let key = single_key_of(vec![vec![9, 8, 7]]).expect("a single key is returned as is");
    assert_eq!(key, vec![9, 8, 7]);
    match single_key_of(vec![vec![1], vec![2]]) {
        Err(NetworkError::InternalError(detail)) => assert_eq!(detail, "more than 1 key found"),
        other => panic!("two keys must be rejected, got {:?}", other),
    }
}

#[test]
fn test_read_cert_chain_decodes() {
    let mut data = pem("CERTIFICATE", "AAAA");
    data.extend_from_slice(&pem("CERTIFICATE", "AQID"));
    let certs = read_cert_chain(&data).expect("two certificates must parse");
    assert_eq!(certs, vec![vec![0, 0, 0], vec![1, 2, 3]]);
}

#[test]
fn test_read_cert_chain_bad_base64_is_io_error() {
    let data = pem("CERTIFICATE", "!!!not base64!!!");
    match read_cert_chain(&data) {
        Err(NetworkError::IOError(_)) => {}
        other => panic!("malformed chain must be an I/O failure, got {:?}", other),
    }
}

#[test]
fn test_bytes_escape_formula() {
    let escaped = bytes_escape(&b"ab\n\\\x9d".to_vec());
    assert_eq!(escaped, b"ab\\n\\\\\\x9d".to_vec());
    let escaped = bytes_escape(&vec![9, 13, 39, 34, 0, 127, 255]);
    assert_eq!(escaped, b"\\t\\r\\'\\\"\\x00\\x7f\\xff".to_vec());
    assert_eq!(bytes_escape(&Vec::new()), Vec::<u8>::new());
}
