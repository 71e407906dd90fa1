//! Removing a password by its name.
//!
//! The server removes by identifier, so the password is looked up first: one
//! exchange lists the passwords, and a second removes the one of that name.

use crate::command::password::{
    nothing_read, public_passwords_read, read_nothing, read_public_passwords,
    request_by_id_written, write_request_by_id, PublicPassword, PublicPasswordView,
};
use crate::error::{option_view, result_view, Error, ErrorView};
use crate::keystore::{KeyStore, KeyStoreView};
use crate::net::{
    begun, Client, Exchange, ExchangeView, Method, Step, StepView, TransportView,
};
use vstd::prelude::*;
use vstd::string::StringExecFns;

verus! {

/// The identifier of the first password in a list that has the given name.
pub open spec fn first_named(passwords: Seq<PublicPasswordView>, name: Seq<char>) -> Option<
    Seq<char>,
>
    decreases passwords.len(),
{
    if passwords.len() == 0 {
        None
    } else if passwords.first().name == name {
        Some(passwords.first().id)
    } else {
        first_named(passwords.drop_first(), name)
    }
}

/// What the decrypted listing tells of a name: the identifier of the first
/// password that has it, or that there is none.
pub open spec fn found_id(body: Seq<u8>, name: Seq<char>) -> Result<Option<Seq<char>>, ErrorView> {
    match public_passwords_read(body) {
        Some(passwords) => Ok(first_named(passwords, name)),
        None => Err(ErrorView::Decode),
    }
}

/// The first step of removing the password of an identifier: a request by
/// identifier is the payload of a DELETE to `/v1/passwords`.
pub open spec fn remove_begun(
    host: Seq<char>,
    transport: TransportView,
    keys: KeyStoreView,
    id: Seq<char>,
) -> StepView<ExchangeView, Seq<u8>> {
    match request_by_id_written(id) {
        None => StepView::Fail(ErrorView::Decode),
        Some(payload) => begun(
            host,
            transport,
            keys,
            Method::Delete,
            "/v1/passwords"@,
            Some(payload),
        ),
    }
}

/// The line that reports the removal of the password of a name.
pub open spec fn removal_line(name: Seq<char>) -> Seq<char> {
    "Successfully removed password \""@ + name + "\""@
}

/// The line that reports that no password has a name.
pub open spec fn missing_line(name: Seq<char>) -> Seq<char> {
    "Password with name \""@ + name + "\" does not exist"@
}

/// What is printed for the decrypted answer to a removal.
pub open spec fn removed_line(body: Seq<u8>, name: Seq<char>) -> Result<Seq<char>, ErrorView> {
    if nothing_read(body) {
        Ok(removal_line(name))
    } else {
        Err(ErrorView::Decode)
    }
}

/// A password is found by the first name that matches, in the order of the
/// list: the names before it differ, and a name that no password has finds
/// nothing.
pub proof fn first_named_is_first(passwords: Seq<PublicPasswordView>, name: Seq<char>)
    ensures
        match first_named(passwords, name) {
            Some(id) => exists|i: int|
                0 <= i < passwords.len() && passwords[i].name == name && passwords[i].id == id
                    && forall|j: int| 0 <= j < i ==> passwords[j].name != name,
            None => forall|j: int| 0 <= j < passwords.len() ==> passwords[j].name != name,
        },
    decreases passwords.len(),
{
    if passwords.len() == 0 {
    } else if passwords.first().name == name {
    } else {
        let rest = passwords.drop_first();
        first_named_is_first(rest, name);
        match first_named(rest, name) {
            Some(id) => {
                let i = choose|i: int|
                    0 <= i < rest.len() && rest[i].name == name && rest[i].id == id
                        && forall|j: int| 0 <= j < i ==> rest[j].name != name;
                assert forall|j: int| 0 <= j < i + 1 implies passwords[j].name != name by {
                    if j > 0 {
                        assert(passwords[j] == rest[j - 1]);
                    }
                }
            },
            None => {
                assert forall|j: int| 0 <= j < passwords.len() implies passwords[j].name
                    != name by {
                    if j > 0 {
                        assert(passwords[j] == rest[j - 1]);
                    }
                }
            },
        }
    }
}

/// Begins the removal of a password by listing all passwords: a GET for
/// `/v1/passwords` without a payload.
pub fn rm(client: &Client, keys: &KeyStore) -> (step: Step<Exchange, Vec<u8>>)
    ensures
        step@ == begun(
            client.config@.url,
            client.client@,
            keys@,
            Method::Get,
            "/v1/passwords"@,
            None,
        ),
{
    client.get(keys, "/v1/passwords", None)
}

/// Looks up a name in the decrypted listing, and hands out the identifier of
/// the first password that has it.
pub fn found(body: &[u8], name: &str) -> (id: Result<Option<String>, Error>)
    ensures
        match id {
            Ok(id) => found_id(body@, name@) == Ok::<Option<Seq<char>>, ErrorView>(option_view(id)),
            Err(error) => found_id(body@, name@) == Err::<Option<Seq<char>>, ErrorView>(error@),
        },
{
    match read_public_passwords(body) {
        Some(passwords) => Ok(find(&passwords, name)),
        None => Err(Error::Decode),
    }
}

/// Looks up a name in a list of passwords, and hands out the identifier of the
/// first password that has it.
pub fn find(passwords: &Vec<PublicPassword>, name: &str) -> (id: Option<String>)
    ensures
        option_view(id) == first_named(passwords.deep_view(), name@),
{
    let wanted = String::from_str(name);
    let ghost all = passwords.deep_view();
    let mut i: usize = 0;
    assert(all.skip(0) =~= all);
    while i < passwords.len()
        invariant
            i <= passwords.len(),
            all == passwords.deep_view(),
            wanted@ == name@,
            first_named(all, name@) == first_named(all.skip(i as int), name@),
        decreases passwords.len() - i,
    {
        if passwords[i].name == wanted {
            return Some(passwords[i].id.clone());
        }
        assert(all.skip(i as int).drop_first() =~= all.skip(i + 1));
        i = i + 1;
    }
    None
}

/// Begins the removal of the password of an identifier.
pub fn remove(client: &Client, keys: &KeyStore, id: &str) -> (step: Step<Exchange, Vec<u8>>)
    ensures
        step@ == remove_begun(client.config@.url, client.client@, keys@, id@),
{
    match write_request_by_id(id) {
        Some(payload) => client.delete(keys, "/v1/passwords", payload.as_slice()),
        None => Step::Fail(Error::Decode),
    }
}

/// The line to print for the decrypted answer to a removal, which holds
/// nothing.
pub fn removed(body: &[u8], name: &str) -> (line: Result<String, Error>)
    ensures
        result_view(line) == removed_line(body@, name@),
{
    if read_nothing(body) {
        Ok(removal(name))
    } else {
        Err(Error::Decode)
    }
}

/// The line to print where the password of the name has been removed.
pub fn removal(name: &str) -> (line: String)
    ensures
        line@ == removal_line(name@),
{
    let mut line = String::from_str("Successfully removed password \"");
    line.append(name);
    line.append("\"");
    line
}

/// The line to print where no password has the name.
pub fn missing(name: &str) -> (line: String)
    ensures
        line@ == missing_line(name@),
{
    let mut line = String::from_str("Password with name \"");
    line.append(name);
    line.append("\" does not exist");
    line
}

} // verus!
