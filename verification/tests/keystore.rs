use keybear_client::config::{default_proxy_port, Config};
use keybear_client::error::{Error, NetworkFailure, ProtocolViolation};
use keybear_client::keystore::{KeyStore, Stored};

fn some_public_key() -> keybear_client::crypto::PublicKey {
    keybear_client::crypto::PublicKey { bytes: [3; 32] }
}

#[test]
fn config_hands_out_its_settings() {
    let config = Config {
        name: "client 1".to_string(),
        url: "test.onion".to_string(),
        secret_key_path: "/data/keybear.sk".to_string(),
        server_public_key_path: "/data/server.pk".to_string(),
        id_path: "/data/keybear.id".to_string(),
        proxy_port: 1234,
    };
    assert_eq!(config.name(), "client 1");
    assert_eq!(config.url(), "test.onion");
    assert_eq!(config.proxy_port(), 1234);
}

#[test]
fn default_proxy_port_is_that_of_tor() {
    assert_eq!(default_proxy_port(), 9050);
}

#[test]
fn fresh_key_store_holds_nothing() {
    let keys = KeyStore::new();
    assert_eq!(keys.secret_key, Stored::Missing);
    assert_eq!(keys.server_public_key, Stored::Missing);
    assert_eq!(keys.id, Stored::Missing);
    assert!(!keys.id_exists());
    assert_eq!(keys.id().err(), Some(Error::Io));
    assert!(matches!(keys.secret_key(), Err(Error::Io)));
    assert_eq!(keys.server_public_key().err(), Some(Error::Io));
    assert!(matches!(keys.shared_key(), Err(Error::Io)));
}

#[test]
fn generated_secret_key_is_stored() {
    let mut keys = KeyStore::new();
    let key = keys.generate_secret_key();
    assert_eq!(keys.secret_key, Stored::Present(key.to_bytes()));
    assert_eq!(keys.server_public_key, Stored::Missing);
    assert_eq!(keys.id, Stored::Missing);
    assert_eq!(keys.secret_key().unwrap().to_bytes(), key.to_bytes());
}

#[test]
fn generating_again_replaces_the_secret_key() {
    let mut keys = KeyStore::new();
    let first = keys.generate_secret_key();
    let second = keys.generate_secret_key();
    assert_ne!(first.to_bytes(), second.to_bytes());
    assert_eq!(keys.secret_key, Stored::Present(second.to_bytes()));
}

#[test]
fn saved_id_is_loaded_again() {
    let mut keys = KeyStore::new();
    keys.save_id("abc123");
    assert!(keys.id_exists());
    assert_eq!(keys.id, Stored::Present("abc123".to_string()));
    assert_eq!(keys.id(), Ok("abc123".to_string()));
    assert_eq!(keys.secret_key, Stored::Missing);
    assert_eq!(keys.server_public_key, Stored::Missing);
}

#[test]
fn unreadable_id_exists_and_cannot_be_loaded() {
    let mut keys = KeyStore::new();
    keys.id = Stored::Unreadable;
    assert!(keys.id_exists());
    assert_eq!(keys.id(), Err(Error::Io));
}

#[test]
fn empty_id_file_exists() {
    let mut keys = KeyStore::new();
    keys.id = Stored::Present(String::new());
    assert!(keys.id_exists());
    assert_eq!(keys.id(), Ok(String::new()));
}

#[test]
fn saved_server_public_key_is_loaded_again() {
    let mut keys = KeyStore::new();
    keys.save_server_public_key(&some_public_key());
    assert_eq!(keys.server_public_key, Stored::Present(vec![3; 32]));
    assert_eq!(keys.server_public_key().unwrap().bytes, [3; 32]);
    assert_eq!(keys.secret_key, Stored::Missing);
    assert_eq!(keys.id, Stored::Missing);
}

#[test]
fn server_public_key_file_of_wrong_length_is_corrupt() {
    let mut keys = KeyStore::new();
    for length in [0usize, 1, 31, 33, 64] {
        keys.server_public_key = Stored::Present(vec![3; length]);
        assert_eq!(keys.server_public_key().err(), Some(Error::CorruptKey));
    }
    keys.server_public_key = Stored::Unreadable;
    assert_eq!(keys.server_public_key().err(), Some(Error::Io));
}

#[test]
fn shared_key_is_derived_from_both_files() {
    let mut keys = KeyStore::new();
    let secret = keys.generate_secret_key();
    keys.save_server_public_key(&some_public_key());
    let shared = keys.shared_key().ok().unwrap();
    assert_eq!(shared.bytes, secret.diffie_hellman(&some_public_key()).bytes);
    let again = keys.shared_key().ok().unwrap();
    assert_eq!(shared.bytes, again.bytes);
}

#[test]
fn shared_key_fails_as_the_first_key_that_fails() {
    let mut keys = KeyStore::new();
    keys.server_public_key = Stored::Present(vec![3; 31]);
    assert!(matches!(keys.shared_key(), Err(Error::Io)));
    keys.generate_secret_key();
    assert!(matches!(keys.shared_key(), Err(Error::CorruptKey)));
    keys.server_public_key = Stored::Missing;
    assert!(matches!(keys.shared_key(), Err(Error::Io)));
    keys.secret_key = Stored::Present(vec![1; 5]);
    keys.server_public_key = Stored::Present(vec![3; 31]);
    assert!(matches!(keys.shared_key(), Err(Error::Io)));
}

#[test]
fn errors_say_what_went_wrong() {
    assert_eq!(Error::Protocol(ProtocolViolation::NonceSize).message(), "invalid nonce size");
    assert_eq!(Error::AlreadyRegistered.message(), "client is already registered");
    assert_eq!(Error::Network(NetworkFailure::Timeout).message(), "the request timed out");
    assert_eq!(
        Error::CorruptKey.message(),
        "server public key file has wrong size, it might be corrupt"
    );
    let all = [
        Error::Config,
        Error::Io,
        Error::CorruptKey,
        Error::AlreadyRegistered,
        Error::Server { status: 500, body: vec![] },
        Error::Network(NetworkFailure::Timeout),
        Error::Network(NetworkFailure::Connection),
        Error::Protocol(ProtocolViolation::NonceSize),
        Error::Protocol(ProtocolViolation::PayloadSize),
        Error::Integrity,
        Error::Decode,
    ];
    for (i, one) in all.iter().enumerate() {
        assert!(!one.message().is_empty());
        for other in &all[i + 1..] {
            assert_ne!(one.message(), other.message());
        }
    }
}

#[test]
fn default_config_names_nothing() {
    let config = Config::default();
    assert_eq!(config.name(), "");
    assert_eq!(config.url(), "");
    assert_eq!(config.proxy_port(), 0);
    assert_eq!(config.secret_key_path, "");
    assert_eq!(config.server_public_key_path, "");
    assert_eq!(config.id_path, "");
}
