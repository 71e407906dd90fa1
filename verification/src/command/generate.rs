//! Storing a password that is made up here.

use crate::command::insert::{insert, insert_begun};
use crate::keystore::KeyStore;
use crate::net::{Client, Exchange, Step};
use chbs::config::BasicConfig;
use chbs::scheme::ToScheme;
use vstd::prelude::*;

verus! {

/// Calls `ToScheme::to_scheme` and `Scheme::generate` of chbs on its default
/// settings with the number of words set, which draws that many words at
/// random and joins them. Nothing is claimed of the phrase: it differs from
/// call to call. Without a word chbs panics.
#[verifier::external_body]
fn passphrase(words: usize) -> (phrase: String)
    requires
        words > 0,
{
    let mut config = BasicConfig::default();
    config.words = words;
    config.to_scheme().generate()
}

/// Makes up a passphrase of `length` words and begins the request that stores
/// it under a name. The passphrase is handed out with the step, and the step
/// is that of storing this very passphrase.
pub fn generate(client: &Client, keys: &KeyStore, name: &str, length: usize) -> (made: (
    String,
    Step<Exchange, Vec<u8>>,
))
    requires
        length > 0,
    ensures
        made.1@ == insert_begun(client.config@.url, client.client@, keys@, name@, made.0@),
{
    let password = passphrase(length);
    let step = insert(client, keys, name, password.as_str());
    (password, step)
}

} // verus!
