use sha2::Digest;
use trade_gateway::checksum::{checksum, hex_lower};
use trade_gateway::session::{AuthError, AuthManager, TOKEN_LIFETIME_SECS};

fn hex_of_sha256(s: &str) -> String {
    let digest = sha2::Sha256::digest(s.as_bytes());
    digest.iter().map(|b| format!("{:02x}", b)).collect()
}

#[test]
fn checksum_is_hex_sha256_of_concatenation() {
    let c = checksum("K", "T", "S");
    assert_eq!(c, hex_of_sha256("KTS"));
    assert_eq!(c.len(), 64);
}

#[test]
fn checksum_known_vector() {
    assert_eq!(
        checksum("a", "b", "c"),
        "ba7816bf8f01cfea414140de5dae2223b00361a396177a9cb410ff61f20015ad"
    );
}

#[test]
fn session_checksum_uses_key_token_secret_order() {
    let m = AuthManager::new("K".to_string(), "S".to_string());
    assert_eq!(m.session_checksum("T"), hex_of_sha256("KTS"));
    assert_ne!(m.session_checksum("T"), hex_of_sha256("STK"));
}

#[test]
fn hex_lower_encodes_each_byte() {
    assert_eq!(hex_lower(&[0x00, 0x0f, 0xa5, 0xff]), "000fa5ff");
    assert_eq!(hex_lower(&[]), "");
}

#[test]
fn login_url_is_built_from_api_key() {
    let m = AuthManager::new("abc123".to_string(), "secret".to_string());
    assert_eq!(m.get_login_url(), "https://kite.trade/connect/login?api_key=abc123&v3");
}

#[test]
fn no_session_is_valid_before_a_token() {
    let m = AuthManager::new("K".to_string(), "S".to_string());
    assert!(m.access_token.is_none());
    assert!(!m.is_token_valid_at(0));
    assert!(!m.is_token_valid());
}

#[test]
fn token_valid_for_twelve_hours() {
    let mut m = AuthManager::new("K".to_string(), "S".to_string());
    m.set_access_token_at("tok".to_string(), 1_000);
    assert_eq!(TOKEN_LIFETIME_SECS, 12 * 60 * 60);
    assert!(m.is_token_valid_at(1_000));
    assert!(m.is_token_valid_at(1_000 + 43_199));
    assert!(!m.is_token_valid_at(1_000 + 43_200));
    assert!(!m.is_token_valid_at(1_000 + 100_000));
}

#[test]
fn token_set_now_is_valid_now() {
    let mut m = AuthManager::new("K".to_string(), "S".to_string());
    m.set_access_token("tok".to_string());
    assert!(m.is_token_valid());
    assert_eq!(m.access_token.as_deref(), Some("tok"));
}

#[test]
fn successful_exchange_starts_session() {
    let mut m = AuthManager::new("K".to_string(), "S".to_string());
    let r = m.accept_token_response(Ok(Some("access".to_string())), 500);
    assert_eq!(r, Ok(()));
    assert_eq!(m.access_token.as_deref(), Some("access"));
    assert_eq!(m.issued_at, Some(500));
    assert!(m.is_token_valid_at(500));
}

#[test]
fn failed_exchange_keeps_prior_session() {
    let mut m = AuthManager::new("K".to_string(), "S".to_string());
    m.set_access_token_at("old".to_string(), 10);
    assert_eq!(m.accept_token_response(Ok(None), 20), Err(AuthError::MissingAccessToken));
    assert_eq!(m.accept_token_response(Ok(Some(String::new())), 20), Err(AuthError::MissingAccessToken));
    assert_eq!(
        m.accept_token_response(Err("timeout".to_string()), 20),
        Err(AuthError::Transport("timeout".to_string()))
    );
    assert_eq!(m.access_token.as_deref(), Some("old"));
    assert_eq!(m.issued_at, Some(10));
}
