//! The secured request: one exchange with the server, from the nonce to the
//! decrypted response.
//!
//! Nothing here touches the network. An exchange is a value that is stepped:
//! each step hands out the request to perform next, and the following step
//! takes what came back. There are exactly two such round trips, the first for
//! the nonce and the second for the request itself.
//!
//! An exchange waits in one of two states. In [`Exchange::NonceRequested`] it
//! has asked for the nonce. The step that takes the nonce derives the shared
//! secret, seals the payload and hands out the request, and leaves the
//! exchange in [`Exchange::Sent`]. The step that takes the response opens it
//! and ends the exchange with [`Step::Done`]. Every step can end it with
//! [`Step::Fail`] instead, and nothing follows a failure: the nonce belongs to
//! one exchange, and a new exchange asks for a new one.
//!
//! The nonce is the server's to choose. The client never makes one up: which
//! nonces are fresh is for the server to say.

use crate::config::Config;
use crate::crypto::{
    aead_open, decrypt, encrypt, nonce_of, opened, sealed, to_vec, Nonce, SharedSecret,
};
use crate::error::{option_view, result_view, Error, ErrorView, NetworkFailure};
use crate::keystore::{KeyStore, KeyStoreView};
use vstd::prelude::*;
use vstd::string::StringExecFns;

verus! {

/// Seconds after which a request is given up.
pub const REQUEST_TIMEOUT: u64 = 10;

/// The name of the header that carries the client identifier.
pub const CLIENT_ID_HEADER: &'static str = "keybear-client-id";

/// The URL that `Url::parse` of crate url reads from `url`, with its port set
/// by `Url::set_port`, written out again; or nothing where `url` is no URL or
/// cannot have a port.
pub uninterp spec fn url_on_port(url: Seq<char>, port: u16) -> Option<Seq<char>>;

/// The URL that `Url::parse` of crate url reads from `base`, with `path`
/// resolved against it by `Url::join`, written out again; or nothing where
/// either step fails.
pub uninterp spec fn url_joined(base: Seq<char>, path: Seq<char>) -> Option<Seq<char>>;

/// Calls `Url::parse` of crate url on `url` and `Url::set_port` on what it
/// gives, and hands out the URL's text. The contract only names the result.
#[verifier::external_body]
fn set_port(url: &str, port: u16) -> (with_port: Option<String>)
    ensures
        option_view(with_port) == url_on_port(url@, port),
{
    let mut parsed = url::Url::parse(url).ok()?;
    parsed.set_port(Some(port)).ok()?;
    Some(String::from(parsed))
}

/// Calls `Url::parse` of crate url on `base` and `Url::join` on what it gives,
/// and hands out the URL's text. The contract only names the result.
#[verifier::external_body]
fn join(base: &str, path: &str) -> (joined: Option<String>)
    ensures
        option_view(joined) == url_joined(base@, path@),
{
    let joined = url::Url::parse(base).ok()?.join(path).ok()?;
    Some(String::from(joined))
}

/// The verb of a request.
#[derive(Clone, Copy, Debug, PartialEq, Eq, Structural)]
pub enum Method {
    Get,
    Post,
    Delete,
}

/// A request for the caller to perform.
#[derive(Clone, Debug, PartialEq, Eq)]
pub struct HttpRequest {
    /// The verb.
    pub method: Method,
    /// Where to send it.
    pub url: String,
    /// The SOCKS5 proxy to send it through.
    pub proxy: String,
    /// After how many seconds to give it up.
    pub timeout: u64,
    /// The client identifier to attach as the header [`CLIENT_ID_HEADER`], on
    /// an authenticated request.
    pub client_id: Option<String>,
    /// Whether the body is to be declared as JSON.
    pub json: bool,
    /// The body, as it goes over the wire.
    pub body: Vec<u8>,
}

/// An [`HttpRequest`] with its texts and bytes as sequences.
pub ghost struct HttpRequestView {
    pub method: Method,
    pub url: Seq<char>,
    pub proxy: Seq<char>,
    pub timeout: u64,
    pub client_id: Option<Seq<char>>,
    pub json: bool,
    pub body: Seq<u8>,
}

impl View for HttpRequest {
    type V = HttpRequestView;

    open spec fn view(&self) -> HttpRequestView {
        HttpRequestView {
            method: self.method,
            url: self.url@,
            proxy: self.proxy@,
            timeout: self.timeout,
            client_id: option_view(self.client_id),
            json: self.json,
            body: self.body@,
        }
    }
}

/// What the server answered.
#[derive(Clone, Debug, PartialEq, Eq)]
pub struct HttpResponse {
    /// The status code.
    pub status: u16,
    /// The body, as it came over the wire.
    pub body: Vec<u8>,
}

/// How a round trip ended.
#[derive(Clone, Debug, PartialEq, Eq)]
pub enum Reply {
    /// The server answered.
    Response(HttpResponse),
    /// No answer arrived.
    Failed(NetworkFailure),
}

/// What one step of a protocol comes to.
#[derive(Debug)]
pub enum Step<S, T> {
    /// Perform the request, and step again from the given state with what
    /// came back.
    Send(S, HttpRequest),
    /// The protocol has run to its end, with this result.
    Done(T),
    /// The protocol has failed. Nothing is retried.
    Fail(Error),
}

/// A [`Step`] with its parts as views.
pub ghost enum StepView<S, T> {
    Send(S, HttpRequestView),
    Done(T),
    Fail(ErrorView),
}

impl<S: View, T: View> View for Step<S, T> {
    type V = StepView<S::V, T::V>;

    open spec fn view(&self) -> StepView<S::V, T::V> {
        match *self {
            Step::Send(state, request) => StepView::Send(state@, request@),
            Step::Done(result) => StepView::Done(result@),
            Step::Fail(error) => StepView::Fail(error@),
        }
    }
}

/// Where a secured request stands while it waits for the server.
pub enum Exchange {
    /// The nonce has been asked for. The request itself is still to be made.
    NonceRequested { method: Method, path: String, payload: Option<Vec<u8>>, client_id: String },
    /// The request has been sent, its body sealed under this secret and nonce.
    Sent { shared: SharedSecret, nonce: Nonce },
}

/// An [`Exchange`] with its texts and bytes as sequences.
pub ghost enum ExchangeView {
    NonceRequested {
        method: Method,
        path: Seq<char>,
        payload: Option<Seq<u8>>,
        client_id: Seq<char>,
    },
    Sent { shared: Seq<u8>, nonce: Seq<u8> },
}

impl View for Exchange {
    type V = ExchangeView;

    open spec fn view(&self) -> ExchangeView {
        match *self {
            Exchange::NonceRequested { method, path, payload, client_id } => {
                ExchangeView::NonceRequested {
                    method,
                    path: path@,
                    payload: option_view(payload),
                    client_id: client_id@,
                }
            },
            Exchange::Sent { shared, nonce } => ExchangeView::Sent {
                shared: shared@,
                nonce: nonce@,
            },
        }
    }
}

/// The address of the local SOCKS5 proxy on the given port.
pub open spec fn proxy_address(port: u16) -> Result<Seq<char>, ErrorView> {
    match url_on_port("socks5h://127.0.0.1"@, port) {
        Some(address) => Ok(address),
        None => Err(ErrorView::Config),
    }
}

/// The address of the server at `host`: plain HTTP on the port of the service.
pub open spec fn server_root(host: Seq<char>) -> Seq<char> {
    "http://"@ + host + ":5219"@
}

/// The address of `path` on the server at `host`.
pub open spec fn server_address(host: Seq<char>, path: Seq<char>) -> Result<Seq<char>, ErrorView> {
    match url_joined(server_root(host), path) {
        Some(address) => Ok(address),
        None => Err(ErrorView::Config),
    }
}

/// Whether a status code reports success.
pub open spec fn is_success(status: u16) -> bool {
    200 <= status < 300
}

/// What a round trip brought: the body of a response that reports success.
pub open spec fn accepted_body(reply: Reply) -> Result<Seq<u8>, ErrorView> {
    match reply {
        Reply::Failed(failure) => Err(ErrorView::Network(failure)),
        Reply::Response(response) => if is_success(response.status) {
            Ok(response.body@)
        } else {
            Err(ErrorView::Server { status: response.status, body: response.body@ })
        },
    }
}

/// The request for the nonce of an exchange.
pub open spec fn nonce_request(
    url: Seq<char>,
    transport: TransportView,
    client_id: Seq<char>,
) -> HttpRequestView {
    HttpRequestView {
        method: Method::Get,
        url,
        proxy: transport.proxy,
        timeout: transport.timeout,
        client_id: Some(client_id),
        json: false,
        body: Seq::empty(),
    }
}

/// The request of an exchange, its body already sealed.
pub open spec fn sealed_request(
    method: Method,
    url: Seq<char>,
    transport: TransportView,
    client_id: Seq<char>,
    body: Seq<u8>,
) -> HttpRequestView {
    HttpRequestView {
        method,
        url,
        proxy: transport.proxy,
        timeout: transport.timeout,
        client_id: Some(client_id),
        json: false,
        body,
    }
}

/// A POST of a JSON body that is not sealed and carries no client identifier.
pub open spec fn unencrypted_request(
    url: Seq<char>,
    transport: TransportView,
    body: Seq<u8>,
) -> HttpRequestView {
    HttpRequestView {
        method: Method::Post,
        url,
        proxy: transport.proxy,
        timeout: transport.timeout,
        client_id: None,
        json: true,
        body,
    }
}

/// The body of the request of an exchange: the payload sealed, or nothing
/// where there is no payload.
pub open spec fn sealed_body(shared: Seq<u8>, nonce: Seq<u8>, payload: Option<Seq<u8>>) -> Result<
    Seq<u8>,
    ErrorView,
> {
    match payload {
        Some(plaintext) => sealed(shared, nonce, plaintext),
        None => Ok(Seq::empty()),
    }
}

/// The first step of an exchange: the address of the nonce is built, the
/// client identifier is loaded, and the nonce is asked for.
pub open spec fn begun(
    host: Seq<char>,
    transport: TransportView,
    keys: KeyStoreView,
    method: Method,
    path: Seq<char>,
    payload: Option<Seq<u8>>,
) -> StepView<ExchangeView, Seq<u8>> {
    match server_address(host, "/v1/nonce"@) {
        Err(error) => StepView::Fail(error),
        Ok(url) => match keys.id() {
            Err(error) => StepView::Fail(error),
            Ok(client_id) => StepView::Send(
                ExchangeView::NonceRequested { method, path, payload, client_id },
                nonce_request(url, transport, client_id),
            ),
        },
    }
}

/// The step that takes the answer to the nonce request. In this order: the
/// answer must have arrived and report success; its body must be a nonce; the
/// shared secret is derived from the key files; the address of the request is
/// built; the payload is sealed; the request is handed out.
pub open spec fn nonce_received(
    host: Seq<char>,
    transport: TransportView,
    keys: KeyStoreView,
    method: Method,
    path: Seq<char>,
    payload: Option<Seq<u8>>,
    client_id: Seq<char>,
    reply: Reply,
) -> StepView<ExchangeView, Seq<u8>> {
    match accepted_body(reply) {
        Err(error) => StepView::Fail(error),
        Ok(body) => match nonce_of(body) {
            Err(error) => StepView::Fail(error),
            Ok(nonce) => match keys.shared_key() {
                Err(error) => StepView::Fail(error),
                Ok(shared) => match server_address(host, path) {
                    Err(error) => StepView::Fail(error),
                    Ok(url) => match sealed_body(shared, nonce, payload) {
                        Err(error) => StepView::Fail(error),
                        Ok(body) => StepView::Send(
                            ExchangeView::Sent { shared, nonce },
                            sealed_request(method, url, transport, client_id, body),
                        ),
                    },
                },
            },
        },
    }
}

/// The step that takes the answer to the request itself: it must have arrived
/// and report success, and its body must open under the secret and the nonce
/// that sealed the request.
pub open spec fn response_received(shared: Seq<u8>, nonce: Seq<u8>, reply: Reply) -> StepView<
    ExchangeView,
    Seq<u8>,
> {
    match accepted_body(reply) {
        Err(error) => StepView::Fail(error),
        Ok(body) => match opened(shared, nonce, body) {
            Err(error) => StepView::Fail(error),
            Ok(plaintext) => StepView::Done(plaintext),
        },
    }
}

/// One step of an exchange, from the state it waits in and what came back.
pub open spec fn stepped(
    host: Seq<char>,
    transport: TransportView,
    keys: KeyStoreView,
    state: ExchangeView,
    reply: Reply,
) -> StepView<ExchangeView, Seq<u8>> {
    match state {
        ExchangeView::NonceRequested { method, path, payload, client_id } => nonce_received(
            host,
            transport,
            keys,
            method,
            path,
            payload,
            client_id,
            reply,
        ),
        ExchangeView::Sent { shared, nonce } => response_received(shared, nonce, reply),
    }
}

/// Builds the address of the server itself, against which every path is
/// resolved: plain HTTP on port 5219 of its onion address.
pub fn server_url(url: &str) -> (root: String)
    ensures
        root@ == server_root(url@),
{
    let mut root = String::from_str("http://");
    root.append(url);
    root.append(":5219");
    root
}

/// Builds the address of a path on the server.
pub fn proxy_url(url: &str, path: &str) -> (address: Result<String, Error>)
    ensures
        result_view(address) == server_address(url@, path@),
{
    match join(server_url(url).as_str(), path) {
        Some(address) => Ok(address),
        None => Err(Error::Config),
    }
}

impl HttpRequest {
    /// The request for the nonce of an exchange: a GET without a body, in the
    /// client's name.
    pub fn nonce(url: String, transport: &Transport, client_id: String) -> (request: HttpRequest)
        ensures
            request@ == nonce_request(url@, transport@, client_id@),
    {
        HttpRequest {
            method: Method::Get,
            url,
            proxy: transport.proxy.clone(),
            timeout: transport.timeout,
            client_id: Some(client_id),
            json: false,
            body: Vec::new(),
        }
    }

    /// The request of an exchange, in the client's name, with the body as it
    /// was sealed.
    pub fn sealed(
        method: Method,
        url: String,
        transport: &Transport,
        client_id: String,
        body: Vec<u8>,
    ) -> (request: HttpRequest)
        ensures
            request@ == sealed_request(method, url@, transport@, client_id@, body@),
    {
        HttpRequest {
            method,
            url,
            proxy: transport.proxy.clone(),
            timeout: transport.timeout,
            client_id: Some(client_id),
            json: false,
            body,
        }
    }

    /// A POST of a JSON body in nobody's name.
    pub fn unencrypted(url: String, transport: &Transport, body: Vec<u8>) -> (request: HttpRequest)
        ensures
            request@ == unencrypted_request(url@, transport@, body@),
    {
        HttpRequest {
            method: Method::Post,
            url,
            proxy: transport.proxy.clone(),
            timeout: transport.timeout,
            client_id: None,
            json: true,
            body,
        }
    }
}

/// Tells apart the responses that report success.
///
/// A round trip that brought no response is a network failure, and a response
/// with a status outside of 200 to 299 is a server error that carries the
/// status and the body as the server sent it.
pub fn accepted(reply: Reply) -> (body: Result<Vec<u8>, Error>)
    ensures
        result_view(body) == accepted_body(reply),
{
    match reply {
        Reply::Failed(failure) => Err(Error::Network(failure)),
        Reply::Response(response) => {
            if 200 <= response.status && response.status < 300 {
                Ok(response.body)
            } else {
                Err(Error::Server { status: response.status, body: response.body })
            }
        },
    }
}

/// What the HTTP connection is to be set up with.
#[derive(Clone, Debug, PartialEq, Eq)]
pub struct Transport {
    /// The address of the SOCKS5 proxy.
    pub proxy: String,
    /// After how many seconds a request is given up.
    pub timeout: u64,
}

/// A transport with its address as a sequence.
pub ghost struct TransportView {
    pub proxy: Seq<char>,
    pub timeout: u64,
}

impl View for Transport {
    type V = TransportView;

    open spec fn view(&self) -> TransportView {
        TransportView { proxy: self.proxy@, timeout: self.timeout }
    }
}

/// The transport that the settings ask for.
pub open spec fn transport_of(port: u16) -> Result<TransportView, ErrorView> {
    match proxy_address(port) {
        Ok(proxy) => Ok(TransportView { proxy, timeout: REQUEST_TIMEOUT }),
        Err(error) => Err(error),
    }
}

impl Transport {
    /// The transport through the proxy at the given address. Every request
    /// that goes through it is given up after [`REQUEST_TIMEOUT`] seconds.
    pub fn through(proxy: String) -> (transport: Transport)
        ensures
            transport@ == (TransportView { proxy: proxy@, timeout: REQUEST_TIMEOUT }),
    {
        Transport { proxy, timeout: REQUEST_TIMEOUT }
    }
}

/// Adds a constructor that sets up a proxied connection.
pub trait ProxyClient: Sized {
    /// Sets up a connection through the proxy that the settings name.
    fn new_proxy(config: &Config) -> Result<Self, Error>;
}

impl ProxyClient for Transport {
    /// The connection goes through the SOCKS5 proxy on the configured port of
    /// this machine, which also resolves the host names, and gives up a
    /// request after [`REQUEST_TIMEOUT`] seconds.
    fn new_proxy(config: &Config) -> (transport: Result<Transport, Error>)
        ensures
            result_view(transport) == transport_of(config@.proxy_port),
    {
        match set_port("socks5h://127.0.0.1", config.proxy_port()) {
            Some(proxy) => Ok(Transport::through(proxy)),
            None => Err(Error::Config),
        }
    }
}

/// A client of one server, connected through the proxy.
pub struct Client<'a> {
    /// How requests are sent.
    pub client: Transport,
    /// The settings. The client lives no longer than they do.
    pub config: &'a Config,
}

impl<'a> Client<'a> {
    /// Sets up a client from the settings.
    pub fn new(config: &'a Config) -> (client: Result<Client<'a>, Error>)
        ensures
            match client {
                Ok(client) => transport_of(config@.proxy_port) == Ok::<TransportView, ErrorView>(
                    client.client@,
                ) && client.config == config,
                Err(error) => transport_of(config@.proxy_port) == Err::<TransportView, ErrorView>(
                    error@,
                ),
            },
    {
        match Transport::new_proxy(config) {
            Ok(client) => Ok(Client { client, config }),
            Err(error) => Err(error),
        }
    }

    /// Begins an encrypted POST request.
    pub fn post(&self, keys: &KeyStore, path: &str, payload: &[u8]) -> (step: Step<
        Exchange,
        Vec<u8>,
    >)
        ensures
            step@ == begun(
                self.config@.url,
                self.client@,
                keys@,
                Method::Post,
                path@,
                Some(payload@),
            ),
    {
        self.request(keys, path, Some(payload), Method::Post)
    }

    /// Begins an encrypted GET request.
    pub fn get(&self, keys: &KeyStore, path: &str, payload: Option<&[u8]>) -> (step: Step<
        Exchange,
        Vec<u8>,
    >)
        ensures
            step@ == begun(
                self.config@.url,
                self.client@,
                keys@,
                Method::Get,
                path@,
                option_view(payload),
            ),
    {
        self.request(keys, path, payload, Method::Get)
    }

    /// Begins an encrypted DELETE request.
    pub fn delete(&self, keys: &KeyStore, path: &str, payload: &[u8]) -> (step: Step<
        Exchange,
        Vec<u8>,
    >)
        ensures
            step@ == begun(
                self.config@.url,
                self.client@,
                keys@,
                Method::Delete,
                path@,
                Some(payload@),
            ),
    {
        self.request(keys, path, Some(payload), Method::Delete)
    }

    /// Begins a request with the given verb: asks the server for the nonce of
    /// this exchange, in the name of the stored client identifier.
    pub fn request(
        &self,
        keys: &KeyStore,
        path: &str,
        payload: Option<&[u8]>,
        method: Method,
    ) -> (step: Step<Exchange, Vec<u8>>)
        ensures
            step@ == begun(
                self.config@.url,
                self.client@,
                keys@,
                method,
                path@,
                option_view(payload),
            ),
    {
        let url = match proxy_url(self.config.url(), "/v1/nonce") {
            Ok(url) => url,
            Err(error) => {
                return Step::Fail(error);
            },
        };
        let client_id = match keys.id() {
            Ok(client_id) => client_id,
            Err(error) => {
                return Step::Fail(error);
            },
        };
        let payload = match payload {
            Some(bytes) => Some(to_vec(bytes)),
            None => None,
        };
        let request = HttpRequest::nonce(url, &self.client, client_id.clone());
        let state = Exchange::NonceRequested {
            method,
            path: String::from_str(path),
            payload,
            client_id,
        };
        Step::Send(state, request)
    }

    /// Takes an exchange one step further, with what the last request
    /// brought.
    ///
    /// From [`Exchange::NonceRequested`] the step leads to the request itself,
    /// and from [`Exchange::Sent`] to the decrypted response. A failure ends
    /// the exchange: the nonce is spent, and a new exchange has to ask for a
    /// new one.
    pub fn step(&self, keys: &KeyStore, state: Exchange, reply: Reply) -> (step: Step<
        Exchange,
        Vec<u8>,
    >)
        ensures
            step@ == stepped(self.config@.url, self.client@, keys@, state@, reply),
            step matches Step::Send(Exchange::Sent { shared, nonce }, request) ==> (
            state matches Exchange::NonceRequested { payload: Some(plaintext), .. } ==> opened(
                shared@,
                nonce@,
                request.body@,
            ) == Ok::<Seq<u8>, ErrorView>(plaintext@)),
    {
        match state {
            Exchange::NonceRequested { method, path, payload, client_id } => {
                let body = match accepted(reply) {
                    Ok(body) => body,
                    Err(error) => {
                        return Step::Fail(error);
                    },
                };
                let nonce = match Nonce::from_bytes(body.as_slice()) {
                    Ok(nonce) => nonce,
                    Err(error) => {
                        return Step::Fail(error);
                    },
                };
                let shared = match keys.shared_key() {
                    Ok(shared) => shared,
                    Err(error) => {
                        return Step::Fail(error);
                    },
                };
                let url = match proxy_url(self.config.url(), path.as_str()) {
                    Ok(url) => url,
                    Err(error) => {
                        return Step::Fail(error);
                    },
                };
                let body = match payload {
                    Some(plaintext) => match encrypt(&shared, &nonce, plaintext.as_slice()) {
                        Ok(body) => body,
                        Err(error) => {
                            return Step::Fail(error);
                        },
                    },
                    None => Vec::new(),
                };
                let request = HttpRequest::sealed(method, url, &self.client, client_id, body);
                Step::Send(Exchange::Sent { shared, nonce }, request)
            },
            Exchange::Sent { shared, nonce } => {
                let body = match accepted(reply) {
                    Ok(body) => body,
                    Err(error) => {
                        return Step::Fail(error);
                    },
                };
                match decrypt(&shared, &nonce, body.as_slice()) {
                    Ok(plaintext) => Step::Done(plaintext),
                    Err(error) => Step::Fail(error),
                }
            },
        }
    }
}

/// An exchange begins by asking for a nonce, and with nothing else: the first
/// request is a GET for `/v1/nonce` without a body, in the client's name, and
/// the exchange then waits for the nonce.
pub proof fn exchange_begins_with_nonce(
    host: Seq<char>,
    transport: TransportView,
    keys: KeyStoreView,
    method: Method,
    path: Seq<char>,
    payload: Option<Seq<u8>>,
)
    ensures
        begun(host, transport, keys, method, path, payload) matches StepView::Send(
            state,
            request,
        ) ==> {
            &&& state is NonceRequested
            &&& request.method == Method::Get
            &&& request.body.len() == 0
            &&& request.proxy == transport.proxy
            &&& request.timeout == transport.timeout
            &&& keys.id() == Ok::<Seq<char>, ErrorView>(request.client_id->Some_0)
            &&& server_address(host, "/v1/nonce"@) == Ok::<Seq<char>, ErrorView>(request.url)
        },
        !(begun(host, transport, keys, method, path, payload) is Done),
{
}

/// A nonce response of any other length than twelve bytes ends the exchange
/// with a protocol error, whatever the key files hold and whatever the payload
/// is: no key is loaded and nothing is sealed before the nonce is known to be
/// one.
pub proof fn nonce_of_wrong_size_ends_exchange(
    host: Seq<char>,
    transport: TransportView,
    keys: KeyStoreView,
    method: Method,
    path: Seq<char>,
    payload: Option<Seq<u8>>,
    client_id: Seq<char>,
    response: HttpResponse,
)
    requires
        is_success(response.status),
        response.body@.len() != 12,
    ensures
        nonce_received(
            host,
            transport,
            keys,
            method,
            path,
            payload,
            client_id,
            Reply::Response(response),
        ) == StepView::<ExchangeView, Seq<u8>>::Fail(
            ErrorView::Protocol(crate::error::ProtocolViolation::NonceSize),
        ),
{
}

/// The request that follows the nonce is the only one: it goes out with the
/// verb, the client identifier and the timeout of the exchange, its body is
/// empty where there is no payload, and the exchange then waits for the
/// response under the very secret and nonce that sealed the body.
pub proof fn nonce_leads_to_one_request(
    host: Seq<char>,
    transport: TransportView,
    keys: KeyStoreView,
    method: Method,
    path: Seq<char>,
    payload: Option<Seq<u8>>,
    client_id: Seq<char>,
    reply: Reply,
)
    ensures
        nonce_received(
            host,
            transport,
            keys,
            method,
            path,
            payload,
            client_id,
            reply,
        ) matches StepView::Send(state, request) ==> {
            &&& state matches ExchangeView::Sent { shared, nonce }
            &&& reply matches Reply::Response(response)
            &&& nonce == response.body@
            &&& nonce.len() == 12
            &&& keys.shared_key() == Ok::<Seq<u8>, ErrorView>(shared)
            &&& request.method == method
            &&& request.client_id == Some(client_id)
            &&& request.proxy == transport.proxy
            &&& request.timeout == transport.timeout
            &&& sealed_body(shared, nonce, payload) == Ok::<Seq<u8>, ErrorView>(request.body)
            &&& payload is None ==> request.body.len() == 0
        },
        !(nonce_received(host, transport, keys, method, path, payload, client_id, reply) is Done),
{
}

/// The response ends the exchange: whatever it is, no further request is
/// handed out, so that a nonce is never used for a second request.
pub proof fn response_ends_exchange(shared: Seq<u8>, nonce: Seq<u8>, reply: Reply)
    ensures
        !(response_received(shared, nonce, reply) is Send),
        response_received(shared, nonce, reply) matches StepView::Done(plaintext) ==> {
            &&& reply matches Reply::Response(response)
            &&& is_success(response.status)
            &&& aead_open(shared, nonce, response.body@) == Some(plaintext)
        },
{
}

/// A round trip that brings no response ends the exchange with a network
/// error, in whichever state it waits. Nothing is sent again.
pub proof fn lost_round_trip_ends_exchange(
    host: Seq<char>,
    transport: TransportView,
    keys: KeyStoreView,
    state: ExchangeView,
    failure: NetworkFailure,
)
    ensures
        stepped(host, transport, keys, state, Reply::Failed(failure)) == StepView::<
            ExchangeView,
            Seq<u8>,
        >::Fail(ErrorView::Network(failure)),
{
}

/// A response with a status outside of 200 to 299 ends the exchange with a
/// server error that carries the status and the body, in whichever state it
/// waits. The body is not opened.
pub proof fn refusal_ends_exchange(
    host: Seq<char>,
    transport: TransportView,
    keys: KeyStoreView,
    state: ExchangeView,
    response: HttpResponse,
)
    requires
        !is_success(response.status),
    ensures
        stepped(host, transport, keys, state, Reply::Response(response)) == StepView::<
            ExchangeView,
            Seq<u8>,
        >::Fail(ErrorView::Server { status: response.status, body: response.body@ }),
{
}

} // verus!
