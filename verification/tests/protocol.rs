use keybear_client::command::register::{
    register, register_with, unencrypted_post, Registered, Registration,
};
use keybear_client::config::Config;
use keybear_client::crypto::{encrypt, Nonce, PublicKey, SecretKey};
use keybear_client::error::{Error, NetworkFailure, ProtocolViolation};
use keybear_client::keystore::{KeyStore, Stored};
use keybear_client::net::{
    accepted, proxy_url, server_url, Client, Exchange, HttpRequest, HttpResponse, Method,
    ProxyClient, Reply, Step, Transport, CLIENT_ID_HEADER, REQUEST_TIMEOUT,
};
use keybear_core::types::{PublicPassword, RegisterDeviceRequest, RegisterDeviceResponse};

const SERVER_SECRET: [u8; 32] = [
    0x5d, 0xab, 0x08, 0x7e, 0x62, 0x4a, 0x8a, 0x4b, 0x79, 0xe1, 0x7f, 0x8b, 0x83, 0x80, 0x0e, 0xe6,
    0x6f, 0x3b, 0xb1, 0x29, 0x26, 0x18, 0xb6, 0xfd, 0x1c, 0x2f, 0x8b, 0x27, 0xff, 0x88, 0xe0, 0xeb,
];

fn config() -> Config {
    Config {
        name: "laptop".to_string(),
        url: "test.onion".to_string(),
        secret_key_path: "/data/keybear.sk".to_string(),
        server_public_key_path: "/data/server.pk".to_string(),
        id_path: "/data/keybear.id".to_string(),
        proxy_port: 9050,
    }
}

fn server_public() -> [u8; 32] {
    SecretKey { bytes: SERVER_SECRET }.public_key().bytes
}

fn ok(body: Vec<u8>) -> Reply {
    Reply::Response(HttpResponse { status: 200, body })
}

fn registered_keys() -> KeyStore {
    let mut keys = KeyStore::new();
    keys.generate_secret_key();
    keys.save_server_public_key(&PublicKey { bytes: server_public() });
    keys.save_id("abc123");
    keys
}

fn sent<S, T>(step: Step<S, T>) -> (S, HttpRequest) {
    match step {
        Step::Send(state, request) => (state, request),
        Step::Done(_) => panic!("the protocol is done, and should have sent a request"),
        Step::Fail(error) => panic!("the protocol failed with {:?}", error),
    }
}

fn failed<S, T>(step: Step<S, T>) -> Error {
    match step {
        Step::Fail(error) => error,
        Step::Send(_, request) => panic!("the protocol sent {:?}, and should have failed", request),
        Step::Done(_) => panic!("the protocol is done, and should have failed"),
    }
}

fn done<S, T>(step: Step<S, T>) -> T {
    match step {
        Step::Done(result) => result,
        Step::Send(_, request) => panic!("the protocol sent {:?}, and should be done", request),
        Step::Fail(error) => panic!("the protocol failed with {:?}", error),
    }
}

/// What the server would seal for this client under the given nonce.
fn sealed_by_server(keys: &KeyStore, nonce: [u8; 12], plaintext: &[u8]) -> Vec<u8> {
    let client_public = keys.secret_key().ok().unwrap().public_key();
    let shared = SecretKey { bytes: SERVER_SECRET }.diffie_hellman(&client_public);
    encrypt(&shared, &Nonce { bytes: nonce }, plaintext).unwrap()
}

#[test]
fn proxy_is_the_local_socks5_port() {
    let transport = Transport::new_proxy(&config()).unwrap();
    assert_eq!(transport.proxy, "socks5h://127.0.0.1:9050");
    assert_eq!(transport.timeout, 10);
    let mut other = config();
    other.proxy_port = 1234;
    assert_eq!(Transport::new_proxy(&other).unwrap().proxy, "socks5h://127.0.0.1:1234");
    other.proxy_port = 0;
    assert_eq!(Transport::new_proxy(&other).unwrap().proxy, "socks5h://127.0.0.1:0");
}

#[test]
fn request_timeout_is_ten_seconds() {
    assert_eq!(REQUEST_TIMEOUT, 10);
}

#[test]
fn client_id_header_is_that_of_the_server() {
    assert_eq!(CLIENT_ID_HEADER, "keybear-client-id");
    assert_eq!(CLIENT_ID_HEADER, keybear_core::CLIENT_ID_HEADER);
}

#[test]
fn server_is_addressed_on_its_service_port() {
    assert_eq!(proxy_url("test.onion", "/v1/nonce").unwrap(), "http://test.onion:5219/v1/nonce");
    assert_eq!(
        proxy_url("test.onion", keybear_core::route::v1::PASSWORD).unwrap(),
        "http://test.onion:5219/v1/passwords"
    );
    assert_eq!(
        proxy_url("test.onion", "v1/passwords/mail").unwrap(),
        "http://test.onion:5219/v1/passwords/mail"
    );
    assert_eq!(
        proxy_url("test.onion", "/v1/passwords/my mail").unwrap(),
        "http://test.onion:5219/v1/passwords/my%20mail"
    );
}

#[test]
fn server_that_cannot_be_addressed_is_a_config_error() {
    assert_eq!(proxy_url("", "/v1/nonce"), Err(Error::Config));
    assert_eq!(proxy_url("test onion", "/v1/nonce"), Err(Error::Config));
    assert_eq!(proxy_url("test.onion", "http://[/"), Err(Error::Config));
}

#[test]
fn response_is_accepted_on_success_only() {
    assert_eq!(accepted(ok(vec![1, 2, 3])), Ok(vec![1, 2, 3]));
    for status in [200u16, 204, 299] {
        assert_eq!(accepted(Reply::Response(HttpResponse { status, body: vec![] })), Ok(vec![]));
    }
    for status in [0u16, 100, 199, 300, 404, 500, 65535] {
        let reply = Reply::Response(HttpResponse { status, body: b"no".to_vec() });
        assert_eq!(accepted(reply), Err(Error::Server { status, body: b"no".to_vec() }));
    }
    assert_eq!(
        accepted(Reply::Failed(NetworkFailure::Timeout)),
        Err(Error::Network(NetworkFailure::Timeout))
    );
    assert_eq!(
        accepted(Reply::Failed(NetworkFailure::Connection)),
        Err(Error::Network(NetworkFailure::Connection))
    );
}

#[test]
fn unencrypted_post_carries_json_and_no_client_id() {
    let request = unencrypted_post(&config(), "/v1/register", b"{}".to_vec()).unwrap();
    assert_eq!(
        request,
        HttpRequest {
            method: Method::Post,
            url: "http://test.onion:5219/v1/register".to_string(),
            proxy: "socks5h://127.0.0.1:9050".to_string(),
            timeout: 10,
            client_id: None,
            json: true,
            body: b"{}".to_vec(),
        }
    );
    let mut nowhere = config();
    nowhere.url = String::new();
    assert_eq!(unencrypted_post(&nowhere, "/v1/register", vec![]), Err(Error::Config));
}

#[test]
fn registration_scenario() {
    let config = config();
    let mut keys = KeyStore::new();

    let (state, request) = sent(register(&config, &mut keys));

    // The private key file is created, and nothing else yet.
    let secret = match &keys.secret_key {
        Stored::Present(bytes) => bytes.clone(),
        other => panic!("the secret key is {:?}", other),
    };
    assert_eq!(secret.len(), 32);
    assert_eq!(keys.server_public_key, Stored::Missing);
    assert_eq!(keys.id, Stored::Missing);
    assert_eq!(state.name, "laptop");
    assert_eq!(state.secret_key.to_bytes(), secret);

    // One unencrypted request goes out, with the name and the public key.
    assert_eq!(request.method, Method::Post);
    assert_eq!(request.url, "http://test.onion:5219/v1/register");
    assert_eq!(request.url, proxy_url("test.onion", keybear_core::route::v1::REGISTER).unwrap());
    assert_eq!(request.proxy, "socks5h://127.0.0.1:9050");
    assert_eq!(request.timeout, 10);
    assert_eq!(request.client_id, None);
    assert!(request.json);
    let public = SecretKey::from_bytes(&secret).unwrap().public_key();
    let sent_request: RegisterDeviceRequest = serde_json::from_slice(&request.body).unwrap();
    assert_eq!(
        sent_request,
        RegisterDeviceRequest::new("laptop", &x25519_dalek::PublicKey::from(public.bytes))
    );

    // The server answers.
    let answer = RegisterDeviceResponse::new(
        "abc123",
        "vault",
        &x25519_dalek::PublicKey::from(server_public()),
        "1234",
    );
    let registered: Registered = done(state.step(&mut keys, ok(serde_json::to_vec(&answer).unwrap())));

    assert_eq!(keys.secret_key, Stored::Present(secret.clone()));
    assert_eq!(keys.server_public_key, Stored::Present(server_public().to_vec()));
    assert_eq!(keys.id, Stored::Present("abc123".to_string()));
    assert_eq!(registered.client.name, "laptop");
    assert_eq!(registered.client.id, "abc123");
    assert_eq!(registered.client.secret_key.to_bytes(), secret);
    assert_eq!(registered.server.name, "vault");
    assert_eq!(registered.server.public_key.bytes, server_public());
}

#[test]
fn registration_with_a_given_key_sends_its_public_key() {
    let (state, request) = sent(register_with(&config(), SecretKey { bytes: SERVER_SECRET }));
    assert_eq!(state.secret_key.bytes, SERVER_SECRET);
    assert_eq!(
        String::from_utf8(request.body).unwrap(),
        "{\"name\":\"laptop\",\"public_key\":\"3p7bfXt9wbTTW2HC7OQ1Nz+DQ8hbeGdNrfx+FG+IK08=\"}"
    );
}

#[test]
fn registered_client_is_refused() {
    let mut keys = registered_keys();
    let before = keys.clone();
    assert_eq!(failed(register(&config(), &mut keys)), Error::AlreadyRegistered);
    assert_eq!(keys, before);

    let mut keys = KeyStore::new();
    keys.id = Stored::Unreadable;
    assert_eq!(failed(register(&config(), &mut keys)), Error::AlreadyRegistered);
    assert_eq!(keys.secret_key, Stored::Missing);
}

#[test]
fn registration_without_a_server_address_keeps_the_new_key() {
    let mut nowhere = config();
    nowhere.url = String::new();
    let mut keys = KeyStore::new();
    assert_eq!(failed(register(&nowhere, &mut keys)), Error::Config);
    assert!(matches!(keys.secret_key, Stored::Present(_)));
    assert_eq!(keys.id, Stored::Missing);
}

#[test]
fn refused_registration_stores_nothing_more() {
    let mut keys = KeyStore::new();
    let (state, _) = sent(register(&config(), &mut keys));
    let before = keys.clone();
    let reply = Reply::Response(HttpResponse { status: 409, body: b"name taken".to_vec() });
    assert_eq!(
        failed(state.step(&mut keys, reply)),
        Error::Server { status: 409, body: b"name taken".to_vec() }
    );
    assert_eq!(keys, before);
    assert!(!keys.id_exists());
}

#[test]
fn lost_registration_stores_nothing_more() {
    let mut keys = KeyStore::new();
    let (state, _) = sent(register(&config(), &mut keys));
    let before = keys.clone();
    assert_eq!(
        failed(state.step(&mut keys, Reply::Failed(NetworkFailure::Timeout))),
        Error::Network(NetworkFailure::Timeout)
    );
    assert_eq!(keys, before);
}

#[test]
fn undecodable_registration_answer_stores_nothing_more() {
    let bodies: [&[u8]; 4] = [
        b"",
        b"not json",
        b"{\"id\":\"abc123\",\"name\":\"vault\"}",
        b"{\"id\":\"abc123\",\"name\":\"vault\",\"server_public_key\":\"AAAA\",\"verification\":\"1\"}",
    ];
    for body in bodies {
        let mut keys = KeyStore::new();
        let (state, _) = sent(register(&config(), &mut keys));
        let before = keys.clone();
        assert_eq!(failed(state.step(&mut keys, ok(body.to_vec()))), Error::Decode);
        assert_eq!(keys, before);
    }
}

#[test]
fn list_passwords_scenario() {
    let config = config();
    let keys = registered_keys();
    let client = Client::new(&config).unwrap();

    // First round trip: the nonce.
    let (state, request) = sent(client.get(&keys, "/v1/passwords", None));
    assert_eq!(
        request,
        HttpRequest {
            method: Method::Get,
            url: "http://test.onion:5219/v1/nonce".to_string(),
            proxy: "socks5h://127.0.0.1:9050".to_string(),
            timeout: 10,
            client_id: Some("abc123".to_string()),
            json: false,
            body: vec![],
        }
    );
    assert_eq!(request.url, proxy_url("test.onion", keybear_core::route::v1::NONCE).unwrap());
    assert!(matches!(state, Exchange::NonceRequested { .. }));

    // Second round trip: the request itself, without a body.
    let (state, request) = sent(client.step(&keys, state, ok(vec![1; 12])));
    assert_eq!(
        request,
        HttpRequest {
            method: Method::Get,
            url: "http://test.onion:5219/v1/passwords".to_string(),
            proxy: "socks5h://127.0.0.1:9050".to_string(),
            timeout: 10,
            client_id: Some("abc123".to_string()),
            json: false,
            body: vec![],
        }
    );
    match &state {
        Exchange::Sent { nonce, .. } => assert_eq!(nonce.bytes, [1; 12]),
        Exchange::NonceRequested { .. } => panic!("the nonce has been answered"),
    }

    // The server answers with the sealed empty list.
    let body = sealed_by_server(&keys, [1; 12], b"[]");
    let plaintext = done(client.step(&keys, state, ok(body)));
    assert_eq!(plaintext, b"[]".to_vec());
    let passwords: Vec<PublicPassword> = serde_json::from_slice(&plaintext).unwrap();
    assert!(passwords.is_empty());
}

#[test]
fn server_error_on_the_second_round_trip() {
    let config = config();
    let keys = registered_keys();
    let client = Client::new(&config).unwrap();
    let (state, _) = sent(client.get(&keys, "/v1/passwords", None));
    let (state, _) = sent(client.step(&keys, state, ok(vec![1; 12])));
    // The body would decrypt, and must not be looked at.
    let body = sealed_by_server(&keys, [1; 12], b"[]");
    let reply = Reply::Response(HttpResponse { status: 500, body: body.clone() });
    assert_eq!(failed(client.step(&keys, state, reply)), Error::Server { status: 500, body });
}

#[test]
fn server_error_on_the_first_round_trip() {
    let config = config();
    let keys = registered_keys();
    let client = Client::new(&config).unwrap();
    let (state, _) = sent(client.get(&keys, "/v1/passwords", None));
    let reply = Reply::Response(HttpResponse { status: 401, body: vec![1; 12] });
    assert_eq!(
        failed(client.step(&keys, state, reply)),
        Error::Server { status: 401, body: vec![1; 12] }
    );
}

#[test]
fn tampered_response_scenario() {
    let config = config();
    let keys = registered_keys();
    let client = Client::new(&config).unwrap();
    let mut body = sealed_by_server(&keys, [1; 12], b"[]");
    body[0] ^= 0x01;
    let (state, _) = sent(client.get(&keys, "/v1/passwords", None));
    let (state, _) = sent(client.step(&keys, state, ok(vec![1; 12])));
    assert_eq!(failed(client.step(&keys, state, ok(body))), Error::Integrity);
}

#[test]
fn response_sealed_under_another_nonce_is_rejected() {
    let config = config();
    let keys = registered_keys();
    let client = Client::new(&config).unwrap();
    let body = sealed_by_server(&keys, [2; 12], b"[]");
    let (state, _) = sent(client.get(&keys, "/v1/passwords", None));
    let (state, _) = sent(client.step(&keys, state, ok(vec![1; 12])));
    assert_eq!(failed(client.step(&keys, state, ok(body))), Error::Integrity);
}

#[test]
fn nonce_of_wrong_size_ends_the_exchange() {
    let config = config();
    let keys = registered_keys();
    let client = Client::new(&config).unwrap();
    for length in [0usize, 1, 11, 13, 24] {
        let (state, _) = sent(client.post(&keys, "/v1/passwords", b"{}"));
        assert_eq!(
            failed(client.step(&keys, state, ok(vec![1; length]))),
            Error::Protocol(ProtocolViolation::NonceSize)
        );
    }
}

#[test]
fn nonce_of_wrong_size_is_rejected_before_the_keys_are_loaded() {
    let config = config();
    let mut keys = KeyStore::new();
    keys.save_id("abc123");
    let client = Client::new(&config).unwrap();
    let (state, _) = sent(client.post(&keys, "/v1/passwords", b"{}"));
    assert_eq!(
        failed(client.step(&keys, state, ok(vec![1; 11]))),
        Error::Protocol(ProtocolViolation::NonceSize)
    );
    let (state, _) = sent(client.post(&keys, "/v1/passwords", b"{}"));
    assert_eq!(failed(client.step(&keys, state, ok(vec![1; 12]))), Error::Io);
}

#[test]
fn post_seals_the_payload() {
    let config = config();
    let keys = registered_keys();
    let client = Client::new(&config).unwrap();
    let payload = b"{\"name\":\"mail\",\"password\":\"hunter2\"}";
    let (state, request) = sent(client.post(&keys, "/v1/passwords", payload));
    assert_eq!(request.method, Method::Get);
    assert_eq!(request.body, Vec::<u8>::new());
    let (state, request) = sent(client.step(&keys, state, ok(b"abcdefghijkl".to_vec())));
    assert_eq!(request.method, Method::Post);
    assert_eq!(request.url, "http://test.onion:5219/v1/passwords");
    assert_eq!(request.client_id, Some("abc123".to_string()));
    assert_eq!(request.body, sealed_by_server(&keys, *b"abcdefghijkl", payload));
    assert_eq!(request.body.len(), payload.len() + 16);

    // What the server would read is what keybear-core decrypts.
    let client_public = keys.secret_key().ok().unwrap().public_key();
    let shared = x25519_dalek::StaticSecret::from(SERVER_SECRET)
        .diffie_hellman(&x25519_dalek::PublicKey::from(client_public.bytes));
    let nonce = *keybear_core::crypto::Nonce::from_slice(b"abcdefghijkl");
    let read: keybear_core::types::RegisterPasswordRequest =
        keybear_core::crypto::decrypt(&shared, &nonce, &request.body).unwrap();
    assert_eq!(read.name(), "mail");
    assert_eq!(read.password(), "hunter2");

    let answer = sealed_by_server(&keys, *b"abcdefghijkl", b"{\"id\":\"1\"}");
    assert_eq!(done(client.step(&keys, state, ok(answer))), b"{\"id\":\"1\"}".to_vec());
}

#[test]
fn delete_goes_out_as_delete() {
    let config = config();
    let keys = registered_keys();
    let client = Client::new(&config).unwrap();
    let (state, request) = sent(client.delete(&keys, "/v1/passwords", b"{\"id\":\"1\"}"));
    assert_eq!(request.method, Method::Get);
    let (_, request) = sent(client.step(&keys, state, ok(vec![1; 12])));
    assert_eq!(request.method, Method::Delete);
    assert_eq!(request.body, sealed_by_server(&keys, [1; 12], b"{\"id\":\"1\"}"));
}

#[test]
fn request_with_an_empty_payload_still_seals_it() {
    let config = config();
    let keys = registered_keys();
    let client = Client::new(&config).unwrap();
    let (state, _) = sent(client.request(&keys, "/v1/passwords", Some(b""), Method::Get));
    let (_, request) = sent(client.step(&keys, state, ok(vec![1; 12])));
    assert_eq!(request.body.len(), 16);
}

#[test]
fn unregistered_client_cannot_begin_an_exchange() {
    let config = config();
    let client = Client::new(&config).unwrap();
    assert_eq!(failed(client.get(&KeyStore::new(), "/v1/passwords", None)), Error::Io);
}

#[test]
fn client_without_a_server_address_cannot_begin_an_exchange() {
    let mut nowhere = config();
    nowhere.url = String::new();
    let client = Client::new(&nowhere).unwrap();
    assert_eq!(failed(client.get(&registered_keys(), "/v1/passwords", None)), Error::Config);
}

#[test]
fn corrupt_server_key_ends_the_exchange() {
    let config = config();
    let mut keys = registered_keys();
    keys.server_public_key = Stored::Present(vec![3; 33]);
    let client = Client::new(&config).unwrap();
    let (state, _) = sent(client.get(&keys, "/v1/passwords", None));
    assert_eq!(failed(client.step(&keys, state, ok(vec![1; 12]))), Error::CorruptKey);
}

#[test]
fn lost_round_trip_ends_the_exchange() {
    let config = config();
    let keys = registered_keys();
    let client = Client::new(&config).unwrap();
    let (state, _) = sent(client.get(&keys, "/v1/passwords", None));
    assert_eq!(
        failed(client.step(&keys, state, Reply::Failed(NetworkFailure::Timeout))),
        Error::Network(NetworkFailure::Timeout)
    );
    let (state, _) = sent(client.get(&keys, "/v1/passwords", None));
    let (state, _) = sent(client.step(&keys, state, ok(vec![1; 12])));
    assert_eq!(
        failed(client.step(&keys, state, Reply::Failed(NetworkFailure::Connection))),
        Error::Network(NetworkFailure::Connection)
    );
}

#[test]
fn path_that_cannot_be_addressed_fails_after_the_nonce() {
    let config = config();
    let keys = registered_keys();
    let client = Client::new(&config).unwrap();
    let (state, _) = sent(client.get(&keys, "http://[/", None));
    assert_eq!(failed(client.step(&keys, state, ok(vec![1; 12]))), Error::Config);
}

#[test]
fn server_is_reached_over_http_on_port_5219() {
    assert_eq!(server_url("test.onion"), "http://test.onion:5219");
    assert_eq!(server_url(""), "http://:5219");
}

#[test]
fn transport_gives_up_after_ten_seconds() {
    let transport = Transport::through("socks5h://127.0.0.1:9050".to_string());
    assert_eq!(
        transport,
        Transport { proxy: "socks5h://127.0.0.1:9050".to_string(), timeout: 10 }
    );
}

#[test]
fn requests_are_built_from_their_parts() {
    let transport = Transport { proxy: "socks5h://127.0.0.1:1".to_string(), timeout: 3 };
    assert_eq!(
        HttpRequest::nonce("http://a:5219/v1/nonce".to_string(), &transport, "id".to_string()),
        HttpRequest {
            method: Method::Get,
            url: "http://a:5219/v1/nonce".to_string(),
            proxy: "socks5h://127.0.0.1:1".to_string(),
            timeout: 3,
            client_id: Some("id".to_string()),
            json: false,
            body: vec![],
        }
    );
    assert_eq!(
        HttpRequest::sealed(
            Method::Delete,
            "http://a:5219/v1/passwords".to_string(),
            &transport,
            "id".to_string(),
            vec![1, 2, 3],
        ),
        HttpRequest {
            method: Method::Delete,
            url: "http://a:5219/v1/passwords".to_string(),
            proxy: "socks5h://127.0.0.1:1".to_string(),
            timeout: 3,
            client_id: Some("id".to_string()),
            json: false,
            body: vec![1, 2, 3],
        }
    );
    assert_eq!(
        HttpRequest::unencrypted("http://a:5219/v1/register".to_string(), &transport, vec![4]),
        HttpRequest {
            method: Method::Post,
            url: "http://a:5219/v1/register".to_string(),
            proxy: "socks5h://127.0.0.1:1".to_string(),
            timeout: 3,
            client_id: None,
            json: true,
            body: vec![4],
        }
    );
}

#[test]
fn completed_registration_stores_the_server_key_and_the_id() {
    let mut keys = KeyStore::new();
    keys.save_secret_key(&SecretKey { bytes: SERVER_SECRET });
    let state = Registration { name: "laptop".to_string(), secret_key: SecretKey { bytes: SERVER_SECRET } };
    let registered = state.complete(
        &mut keys,
        "abc123".to_string(),
        "vault".to_string(),
        PublicKey { bytes: [5; 32] },
    );
    assert_eq!(keys.secret_key, Stored::Present(SERVER_SECRET.to_vec()));
    assert_eq!(keys.server_public_key, Stored::Present(vec![5; 32]));
    assert_eq!(keys.id, Stored::Present("abc123".to_string()));
    assert_eq!(registered.client.name, "laptop");
    assert_eq!(registered.client.id, "abc123");
    assert_eq!(registered.client.secret_key.bytes, SERVER_SECRET);
    assert_eq!(registered.server.name, "vault");
    assert_eq!(registered.server.public_key.bytes, [5; 32]);
}
