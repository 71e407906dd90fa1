//! The registration of a device: the one exchange that is not encrypted, and
//! the only one that writes to the key files.
//!
//! A device registers once. It makes itself a secret key, tells the server its
//! name and its public key, and stores what the server answers: the server's
//! public key and the identifier under which the server will know the device.

use crate::config::{Config, ConfigView};
use crate::crypto::{x25519_public, x25519_shared, PublicKey, SecretKey};
use crate::error::{option_view, result_view, Error, ErrorView};
use crate::keystore::{KeyStore, KeyStoreView, Stored};
use crate::net::{
    accepted, accepted_body, proxy_url, server_address, transport_of, unencrypted_request,
    HttpRequest, HttpRequestView, ProxyClient, Reply, Step, StepView, Transport,
};
use keybear_core::types::{RegisterDeviceRequest, RegisterDeviceResponse};
use vstd::prelude::*;

verus! {

/// The JSON text that serde_json writes for the `RegisterDeviceRequest` that
/// keybear-core makes of a device name and the 32 bytes of a public key; or
/// nothing where serde_json fails.
pub uninterp spec fn registration_request(name: Seq<char>, public_key: Seq<u8>) -> Option<Seq<u8>>;

/// What serde_json and keybear-core read out of the body of the server's
/// answer to a registration, taken as a `RegisterDeviceResponse`: the client
/// identifier, the name and the 32 bytes of the server's public key, in this
/// order; or nothing where the body is no such answer.
pub uninterp spec fn registration_reply(body: Seq<u8>) -> Option<(Seq<char>, Seq<char>, Seq<u8>)>;

/// Calls `RegisterDeviceRequest::new` of keybear-core on the name and on the
/// public key made of the given bytes, and `serde_json::to_vec` on what it
/// gives. The contract only names the result.
#[verifier::external_body]
fn encode_request(name: &str, public_key: &[u8; 32]) -> (body: Option<Vec<u8>>)
    ensures
        option_view(body) == registration_request(name@, public_key@),
{
    let request = RegisterDeviceRequest::new(name, &x25519_dalek::PublicKey::from(*public_key));
    serde_json::to_vec(&request).ok()
}

/// Calls `serde_json::from_slice` for a `RegisterDeviceResponse` of
/// keybear-core, and on what it gives `id`, `name` and `server_public_key`,
/// which decodes the key from base64 and fails unless it has 32 bytes. The
/// contract only names the result.
#[verifier::external_body]
fn decode_reply(body: &[u8]) -> (reply: Option<(String, String, [u8; 32])>)
    ensures
        match reply {
            Some((id, name, key)) => registration_reply(body@) == Some((id@, name@, key@)),
            None => registration_reply(body@) is None,
        },
{
    let reply: RegisterDeviceResponse = serde_json::from_slice(body).ok()?;
    let key = reply.server_public_key().ok()?;
    Some((reply.id().to_string(), reply.name().to_string(), key.to_bytes()))
}

/// This device's identity, as a registration leaves it.
pub struct ClientIdentity {
    /// The name under which the device registered.
    pub name: String,
    /// The static secret key of the device.
    pub secret_key: SecretKey,
    /// The identifier that the server assigned.
    pub id: String,
}

/// The server's identity, as this client knows it.
#[derive(Clone, Debug)]
pub struct ServerIdentity {
    /// The name that the server's answer carried.
    pub name: String,
    /// The static public key of the server.
    pub public_key: PublicKey,
}

/// What a registration ends with.
pub struct Registered {
    /// Who this device is from now on.
    pub client: ClientIdentity,
    /// Whom it registered with.
    pub server: ServerIdentity,
}

/// A [`Registered`] with its texts and keys as sequences.
pub ghost struct RegisteredView {
    pub name: Seq<char>,
    pub secret_key: Seq<u8>,
    pub id: Seq<char>,
    pub server_name: Seq<char>,
    pub server_public_key: Seq<u8>,
}

impl View for Registered {
    type V = RegisteredView;

    open spec fn view(&self) -> RegisteredView {
        RegisteredView {
            name: self.client.name@,
            secret_key: self.client.secret_key@,
            id: self.client.id@,
            server_name: self.server.name@,
            server_public_key: self.server.public_key@,
        }
    }
}

/// A registration that waits for the server's answer.
pub struct Registration {
    /// The name under which the device registers.
    pub name: String,
    /// The secret key that the device made for itself.
    pub secret_key: SecretKey,
}

/// A [`Registration`] with its text and key as sequences.
pub ghost struct RegistrationView {
    pub name: Seq<char>,
    pub secret_key: Seq<u8>,
}

impl View for Registration {
    type V = RegistrationView;

    open spec fn view(&self) -> RegistrationView {
        RegistrationView { name: self.name@, secret_key: self.secret_key@ }
    }
}

/// The request that posts a JSON body to a path on the server, without a
/// client identifier and without encryption. The proxy comes first: where it
/// cannot be set up, the address of the server is not looked at.
pub open spec fn unencrypted_posted(config: ConfigView, path: Seq<char>, body: Seq<u8>) -> Result<
    HttpRequestView,
    ErrorView,
> {
    match transport_of(config.proxy_port) {
        Err(error) => Err(error),
        Ok(transport) => match server_address(config.url, path) {
            Err(error) => Err(error),
            Ok(url) => Ok(unencrypted_request(url, transport, body)),
        },
    }
}

/// The first step of a registration with the given secret key: the device's
/// name and public key are put into the body of a request to `/v1/register`.
pub open spec fn registration_begun(config: ConfigView, secret_key: Seq<u8>) -> StepView<
    RegistrationView,
    RegisteredView,
> {
    match registration_request(config.name, x25519_public(secret_key)) {
        None => StepView::Fail(ErrorView::Decode),
        Some(body) => match unencrypted_posted(config, "/v1/register"@, body) {
            Err(error) => StepView::Fail(error),
            Ok(request) => StepView::Send(
                RegistrationView { name: config.name, secret_key },
                request,
            ),
        },
    }
}

/// What a registration ends with, once the server has answered with a client
/// identifier, its name and its public key.
pub open spec fn registered(
    state: RegistrationView,
    id: Seq<char>,
    server_name: Seq<char>,
    server_public_key: Seq<u8>,
) -> RegisteredView {
    RegisteredView {
        name: state.name,
        secret_key: state.secret_key,
        id,
        server_name,
        server_public_key,
    }
}

/// The last step of a registration: the answer must have arrived, report
/// success and be a registration's answer.
pub open spec fn registration_answered(state: RegistrationView, reply: Reply) -> StepView<
    RegistrationView,
    RegisteredView,
> {
    match accepted_body(reply) {
        Err(error) => StepView::Fail(error),
        Ok(body) => match registration_reply(body) {
            None => StepView::Fail(ErrorView::Decode),
            Some((id, server_name, server_public_key)) => StepView::Done(
                registered(state, id, server_name, server_public_key),
            ),
        },
    }
}

/// The key files after a step of a registration: where the registration is
/// done they hold the server's public key and the client identifier, and else
/// they are as before. The secret key stays in either case.
pub open spec fn stored_after(
    keys: KeyStoreView,
    step: StepView<RegistrationView, RegisteredView>,
) -> KeyStoreView {
    match step {
        StepView::Done(registered) => KeyStoreView {
            secret_key: keys.secret_key,
            server_public_key: Stored::Present(registered.server_public_key),
            id: Stored::Present(registered.id),
        },
        _ => keys,
    }
}

/// Builds an unencrypted POST request with a JSON body.
pub fn unencrypted_post(config: &Config, path: &str, body: Vec<u8>) -> (request: Result<
    HttpRequest,
    Error,
>)
    ensures
        result_view(request) == unencrypted_posted(config@, path@, body@),
{
    let transport = match Transport::new_proxy(config) {
        Ok(transport) => transport,
        Err(error) => {
            return Err(error);
        },
    };
    let url = match proxy_url(config.url(), path) {
        Ok(url) => url,
        Err(error) => {
            return Err(error);
        },
    };
    Ok(HttpRequest::unencrypted(url, &transport, body))
}

/// Begins a registration with a secret key that is already made and stored.
pub fn register_with(config: &Config, secret_key: SecretKey) -> (step: Step<
    Registration,
    Registered,
>)
    ensures
        step@ == registration_begun(config@, secret_key@),
{
    let public_key = secret_key.public_key();
    let body = match encode_request(config.name(), &public_key.bytes) {
        Some(body) => body,
        None => {
            return Step::Fail(Error::Decode);
        },
    };
    match unencrypted_post(config, "/v1/register", body) {
        Ok(request) => Step::Send(
            Registration { name: config.name.clone(), secret_key },
            request,
        ),
        Err(error) => Step::Fail(error),
    }
}

/// Begins the registration of this device.
///
/// A device that holds a client identifier is registered, and is refused: no
/// request is handed out and the key files stay as they are. Otherwise a new
/// secret key is made and stored, whatever the file of the secret key held,
/// and the device's name and public key are sent to the server. The key stays
/// stored where the registration fails later.
pub fn register(config: &Config, keys: &mut KeyStore) -> (step: Step<Registration, Registered>)
    ensures
        old(keys)@.id_exists() ==> step@ == StepView::<RegistrationView, RegisteredView>::Fail(
            ErrorView::AlreadyRegistered,
        ) && final(keys)@ == old(keys)@,
        !old(keys)@.id_exists() ==> {
            &&& final(keys)@.secret_key matches Stored::Present(secret_key)
            &&& secret_key.len() == 32
            &&& step@ == registration_begun(config@, secret_key)
            &&& final(keys)@.server_public_key == old(keys)@.server_public_key
            &&& final(keys)@.id == old(keys)@.id
        },
{
    if keys.id_exists() {
        return Step::Fail(Error::AlreadyRegistered);
    }
    let secret_key = keys.generate_secret_key();
    register_with(config, secret_key)
}

impl Registration {
    /// Ends a registration, with what the request brought.
    ///
    /// Where the server accepted the device, its public key and the client
    /// identifier are stored, and the two identities are handed out. In every
    /// other case the key files stay as they are, the secret key included.
    pub fn step(self, keys: &mut KeyStore, reply: Reply) -> (step: Step<Registration, Registered>)
        ensures
            step@ == registration_answered(self@, reply),
            final(keys)@ == stored_after(old(keys)@, step@),
    {
        let body = match accepted(reply) {
            Ok(body) => body,
            Err(error) => {
                return Step::Fail(error);
            },
        };
        match decode_reply(body.as_slice()) {
            Some((id, server_name, server_key)) => Step::Done(
                self.complete(keys, id, server_name, PublicKey { bytes: server_key }),
            ),
            None => Step::Fail(Error::Decode),
        }
    }

    /// Completes a registration that the server has accepted: stores the
    /// server's public key and the client identifier, and hands out the two
    /// identities. The secret key stays as it is stored.
    pub fn complete(
        self,
        keys: &mut KeyStore,
        id: String,
        server_name: String,
        server_public_key: PublicKey,
    ) -> (done: Registered)
        ensures
            done@ == registered(self@, id@, server_name@, server_public_key@),
            final(keys)@ == (KeyStoreView {
                secret_key: old(keys)@.secret_key,
                server_public_key: Stored::Present(server_public_key@),
                id: Stored::Present(id@),
            }),
    {
        keys.save_server_public_key(&server_public_key);
        keys.save_id(id.as_str());
        Registered {
            client: ClientIdentity { name: self.name, secret_key: self.secret_key, id },
            server: ServerIdentity { name: server_name, public_key: server_public_key },
        }
    }
}

/// A registration makes at most one request: its answer ends it, whatever it
/// is.
pub proof fn answer_ends_registration(state: RegistrationView, reply: Reply)
    ensures
        !(registration_answered(state, reply) is Send),
{
}

/// A failed registration leaves the key files as they were: the server's
/// public key and the client identifier are stored only together, and only
/// when the server has accepted the device.
pub proof fn failed_registration_stores_nothing(
    keys: KeyStoreView,
    state: RegistrationView,
    reply: Reply,
)
    requires
        !(registration_answered(state, reply) is Done),
    ensures
        stored_after(keys, registration_answered(state, reply)) == keys,
{
}

/// A device registers once. When a registration is done the key files hold a
/// client identifier, so that a second registration is refused; and they hold
/// what every later request needs: the identifier that the server assigned,
/// and the two keys from which the shared secret is derived.
pub proof fn registration_completes_the_keys(
    keys: KeyStoreView,
    state: RegistrationView,
    reply: Reply,
)
    requires
        state.secret_key.len() == 32,
        keys.secret_key == Stored::Present(state.secret_key),
        registration_answered(state, reply) matches StepView::Done(registered)
            && registered.server_public_key.len() == 32,
    ensures
        ({
            let registered = registration_answered(state, reply)->Done_0;
            let after = stored_after(keys, registration_answered(state, reply));
            &&& after.id_exists()
            &&& after.id() == Ok::<Seq<char>, ErrorView>(registered.id)
            &&& after.secret_key() == Ok::<Seq<u8>, ErrorView>(registered.secret_key)
            &&& after.server_public_key() == Ok::<Seq<u8>, ErrorView>(
                registered.server_public_key,
            )
            &&& after.shared_key() == Ok::<Seq<u8>, ErrorView>(
                x25519_shared(registered.secret_key, registered.server_public_key),
            )
        }),
{
    let registered = registration_answered(state, reply)->Done_0;
    assert(registered.secret_key.subrange(0, 32) =~= registered.secret_key);
}

} // verus!
