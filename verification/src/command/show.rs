//! Showing one password.

use crate::command::password::{
    password_read, read_password, request_by_name_written, write_request_by_name,
};
use crate::error::{result_view, Error, ErrorView};
use crate::keystore::{KeyStore, KeyStoreView};
use crate::net::{
    begun, Client, Exchange, ExchangeView, Method, Step, StepView, TransportView,
};
use vstd::prelude::*;
use vstd::string::StringExecFns;

verus! {

/// The path of the password of the given name.
pub open spec fn password_path_of(name: Seq<char>) -> Seq<char> {
    "/v1/passwords/"@ + name
}

/// The first step of showing the password of the given name: a request by
/// name is the payload of a POST to the password's own path.
pub open spec fn show_begun(
    host: Seq<char>,
    transport: TransportView,
    keys: KeyStoreView,
    name: Seq<char>,
) -> StepView<ExchangeView, Seq<u8>> {
    match request_by_name_written(name) {
        None => StepView::Fail(ErrorView::Decode),
        Some(payload) => begun(
            host,
            transport,
            keys,
            Method::Post,
            password_path_of(name),
            Some(payload),
        ),
    }
}

/// What is printed for the decrypted answer: the password.
pub open spec fn shown_password(body: Seq<u8>) -> Result<Seq<char>, ErrorView> {
    match password_read(body) {
        Some(password) => Ok(password),
        None => Err(ErrorView::Decode),
    }
}

/// Begins the request for the password of the given name.
pub fn show(client: &Client, keys: &KeyStore, name: &str) -> (step: Step<Exchange, Vec<u8>>)
    ensures
        step@ == show_begun(client.config@.url, client.client@, keys@, name@),
{
    let payload = match write_request_by_name(name) {
        Some(payload) => payload,
        None => {
            return Step::Fail(Error::Decode);
        },
    };
    client.post(keys, password_path(name).as_str(), payload.as_slice())
}

/// The path of the password of the given name: the name below the path of all
/// passwords.
pub fn password_path(name: &str) -> (path: String)
    ensures
        path@ == password_path_of(name@),
{
    let mut path = String::from_str("/v1/passwords/");
    path.append(name);
    path
}

/// The password to print, from the decrypted answer.
pub fn shown(body: &[u8]) -> (password: Result<String, Error>)
    ensures
        result_view(password) == shown_password(body@),
{
    match read_password(body) {
        Some(password) => Ok(password),
        None => Err(Error::Decode),
    }
}

} // verus!
