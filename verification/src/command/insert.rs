//! Storing a password that the user chose.

use crate::command::password::{
    new_password_written, public_password_read, read_public_password, write_new_password,
    PublicPassword, PublicPasswordView,
};
use crate::error::{option_view, Error, ErrorView};
use crate::keystore::{KeyStore, KeyStoreView};
use crate::net::{
    begun, Client, Exchange, ExchangeView, Method, Step, StepView, TransportView,
};
use vstd::prelude::*;
use vstd::string::StringExecFns;

verus! {

/// The first step of storing a password under a name: the two are the payload
/// of a POST to `/v1/passwords`.
pub open spec fn insert_begun(
    host: Seq<char>,
    transport: TransportView,
    keys: KeyStoreView,
    name: Seq<char>,
    password: Seq<char>,
) -> StepView<ExchangeView, Seq<u8>> {
    match new_password_written(name, password) {
        None => StepView::Fail(ErrorView::Decode),
        Some(payload) => begun(
            host,
            transport,
            keys,
            Method::Post,
            "/v1/passwords"@,
            Some(payload),
        ),
    }
}

/// What the decrypted answer to a stored password comes to: the record that
/// the server made, and the password where it is to be echoed.
pub open spec fn inserted_record(body: Seq<u8>, password: Seq<char>, echo: bool) -> Result<
    (PublicPasswordView, Option<Seq<char>>),
    ErrorView,
> {
    match public_password_read(body) {
        Some(record) => Ok((record, echo_of(password, echo))),
        None => Err(ErrorView::Decode),
    }
}

/// The line that echoes a stored password, where the user asked for it.
pub open spec fn echo_of(password: Seq<char>, echo: bool) -> Option<Seq<char>> {
    if echo {
        Some(password)
    } else {
        None
    }
}

/// Begins the request that stores a password under a name.
pub fn insert(client: &Client, keys: &KeyStore, name: &str, password: &str) -> (step: Step<
    Exchange,
    Vec<u8>,
>)
    ensures
        step@ == insert_begun(client.config@.url, client.client@, keys@, name@, password@),
{
    match write_new_password(name, password) {
        Some(payload) => client.post(keys, "/v1/passwords", payload.as_slice()),
        None => Step::Fail(Error::Decode),
    }
}

/// Reads the decrypted answer to a stored password: the record that the server
/// made of it, and the line to print, which is the password where the user
/// asked to see it.
pub fn inserted(body: &[u8], password: &str, echo: bool) -> (outcome: Result<
    (PublicPassword, Option<String>),
    Error,
>)
    ensures
        match outcome {
            Ok((record, line)) => inserted_record(body@, password@, echo) == Ok::<
                (PublicPasswordView, Option<Seq<char>>),
                ErrorView,
            >((record@, option_view(line))),
            Err(error) => inserted_record(body@, password@, echo) == Err::<
                (PublicPasswordView, Option<Seq<char>>),
                ErrorView,
            >(error@),
        },
{
    match read_public_password(body) {
        Some(record) => Ok((record, echoed(password, echo))),
        None => Err(Error::Decode),
    }
}

/// The line to print for a stored password: the password itself where the user
/// asked to see it, and nothing otherwise.
pub fn echoed(password: &str, echo: bool) -> (line: Option<String>)
    ensures
        option_view(line) == echo_of(password@, echo),
{
    if echo {
        Some(String::from_str(password))
    } else {
        None
    }
}

} // verus!
