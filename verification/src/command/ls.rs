//! Listing the passwords that the server holds.

use crate::command::password::{
    public_passwords_read, read_public_passwords, PublicPassword, PublicPasswordView,
};
use crate::error::{Error, ErrorView};
use crate::keystore::KeyStore;
use crate::net::{begun, Client, Exchange, Method, Step};
use vstd::prelude::*;
use vstd::string::StringExecFns;

verus! {

/// The lines that tell of one password: its name, its identifier, and its
/// e-mail address and website where it has them.
pub open spec fn described(password: PublicPasswordView) -> Seq<Seq<char>> {
    seq!["name:\t"@ + password.name, "id:\t"@ + password.id] + match password.email {
        Some(email) => seq!["email:\t"@ + email],
        None => Seq::empty(),
    } + match password.website {
        Some(website) => seq!["website:\t"@ + website],
        None => Seq::empty(),
    }
}

/// The lines that tell of a list of passwords, one after the other.
pub open spec fn listing(passwords: Seq<PublicPasswordView>) -> Seq<Seq<char>>
    decreases passwords.len(),
{
    if passwords.len() == 0 {
        Seq::empty()
    } else {
        listing(passwords.drop_last()) + described(passwords.last())
    }
}

/// What is printed for the decrypted answer to a listing.
pub open spec fn listed_lines(body: Seq<u8>) -> Result<Seq<Seq<char>>, ErrorView> {
    match public_passwords_read(body) {
        Some(passwords) => Ok(listing(passwords)),
        None => Err(ErrorView::Decode),
    }
}

/// A label followed by a value.
fn labelled(label: &str, value: &str) -> (line: String)
    ensures
        line@ == label@ + value@,
{
    let mut line = String::from_str(label);
    line.append(value);
    line
}

/// Appends the lines that tell of one password.
fn describe(password: &PublicPassword, lines: &mut Vec<String>)
    ensures
        final(lines).deep_view() == old(lines).deep_view() + described(password@),
{
    lines.push(labelled("name:\t", password.name.as_str()));
    lines.push(labelled("id:\t", password.id.as_str()));
    match &password.email {
        Some(email) => {
            lines.push(labelled("email:\t", email.as_str()));
        },
        None => {},
    }
    match &password.website {
        Some(website) => {
            lines.push(labelled("website:\t", website.as_str()));
        },
        None => {},
    }
}

/// Begins the listing of all passwords: a GET for `/v1/passwords` without a
/// payload.
pub fn ls(client: &Client, keys: &KeyStore) -> (step: Step<Exchange, Vec<u8>>)
    ensures
        step@ == begun(
            client.config@.url,
            client.client@,
            keys@,
            Method::Get,
            "/v1/passwords"@,
            None,
        ),
{
    client.get(keys, "/v1/passwords", None)
}

/// The lines to print for the decrypted answer to a listing: those of each
/// password, in the order in which the server listed them.
pub fn listed(body: &[u8]) -> (lines: Result<Vec<String>, Error>)
    ensures
        match lines {
            Ok(lines) => listed_lines(body@) == Ok::<Seq<Seq<char>>, ErrorView>(lines.deep_view()),
            Err(error) => listed_lines(body@) == Err::<Seq<Seq<char>>, ErrorView>(error@),
        },
{
    match read_public_passwords(body) {
        Some(passwords) => Ok(lines(&passwords)),
        None => Err(Error::Decode),
    }
}

/// The lines to print for a list of passwords: the name and the identifier of
/// each, then its e-mail address and its website where it has them, in the
/// order of the list.
pub fn lines(passwords: &Vec<PublicPassword>) -> (lines: Vec<String>)
    ensures
        lines.deep_view() == listing(passwords.deep_view()),
{
    let mut lines: Vec<String> = Vec::new();
    let mut i: usize = 0;
    while i < passwords.len()
        invariant
            i <= passwords.len(),
            lines.deep_view() == listing(passwords.deep_view().take(i as int)),
        decreases passwords.len() - i,
    {
        describe(&passwords[i], &mut lines);
        proof {
            let all = passwords.deep_view();
            assert(all.take(i + 1).drop_last() =~= all.take(i as int));
        }
        i = i + 1;
    }
    assert(passwords.deep_view().take(i as int) =~= passwords.deep_view());
    lines
}

} // verus!
