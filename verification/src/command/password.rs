//! Password records as they go over the wire, inside the sealed bodies.
//!
//! The records are those of keybear-core, written and read as JSON. The
//! commands work on what a record holds, and leave the JSON to the crates
//! that define it.

use crate::error::option_view;
use keybear_core::types::{PasswordRequest, PasswordResponse, RegisterPasswordRequest};
use vstd::prelude::*;

verus! {

/// What the server tells of a stored password: everything but the password.
#[derive(Clone, Debug, PartialEq, Eq)]
pub struct PublicPassword {
    /// The identifier that the server gave it.
    pub id: String,
    /// The name that the user gave it.
    pub name: String,
    /// The e-mail address that goes with it.
    pub email: Option<String>,
    /// The website that it is for.
    pub website: Option<String>,
}

/// A [`PublicPassword`] with its texts as sequences.
pub ghost struct PublicPasswordView {
    pub id: Seq<char>,
    pub name: Seq<char>,
    pub email: Option<Seq<char>>,
    pub website: Option<Seq<char>>,
}

impl View for PublicPassword {
    type V = PublicPasswordView;

    open spec fn view(&self) -> PublicPasswordView {
        PublicPasswordView {
            id: self.id@,
            name: self.name@,
            email: option_view(self.email),
            website: option_view(self.website),
        }
    }
}

impl DeepView for PublicPassword {
    type V = PublicPasswordView;

    open spec fn deep_view(&self) -> PublicPasswordView {
        self@
    }
}

/// The JSON text that serde_json writes for the `RegisterPasswordRequest` that
/// keybear-core makes of a name and a password, without e-mail address and
/// website; or nothing where serde_json fails.
pub uninterp spec fn new_password_written(name: Seq<char>, password: Seq<char>) -> Option<Seq<u8>>;

/// The JSON text that serde_json writes for the `PasswordRequest` that
/// keybear-core makes of an identifier; or nothing where serde_json fails.
pub uninterp spec fn request_by_id_written(id: Seq<char>) -> Option<Seq<u8>>;

/// The JSON text that serde_json writes for the `PasswordRequest` that
/// keybear-core makes of a name; or nothing where serde_json fails.
pub uninterp spec fn request_by_name_written(name: Seq<char>) -> Option<Seq<u8>>;

/// The `PublicPassword` of keybear-core that serde_json reads from a body; or
/// nothing where the body is no such record.
pub uninterp spec fn public_password_read(body: Seq<u8>) -> Option<PublicPasswordView>;

/// The list of `PublicPassword` of keybear-core that serde_json reads from a
/// body; or nothing where the body is no such list.
pub uninterp spec fn public_passwords_read(body: Seq<u8>) -> Option<Seq<PublicPasswordView>>;

/// The password of the `PasswordResponse` of keybear-core that serde_json
/// reads from a body; or nothing where the body is no such record.
pub uninterp spec fn password_read(body: Seq<u8>) -> Option<Seq<char>>;

/// Whether serde_json reads the unit value from a body.
pub uninterp spec fn nothing_read(body: Seq<u8>) -> bool;

/// Calls `RegisterPasswordRequest::new` of keybear-core on the name and the
/// password, without e-mail address and website, and `serde_json::to_vec` on
/// what it gives. The contract only names the result.
#[verifier::external_body]
pub(crate) fn write_new_password(name: &str, password: &str) -> (body: Option<Vec<u8>>)
    ensures
        option_view(body) == new_password_written(name@, password@),
{
    let request = RegisterPasswordRequest::new::<_, _, String, String>(name, password, None, None);
    serde_json::to_vec(&request).ok()
}

/// Calls `PasswordRequest::from_id` of keybear-core and `serde_json::to_vec`
/// on what it gives. The contract only names the result.
#[verifier::external_body]
pub(crate) fn write_request_by_id(id: &str) -> (body: Option<Vec<u8>>)
    ensures
        option_view(body) == request_by_id_written(id@),
{
    serde_json::to_vec(&PasswordRequest::from_id(id)).ok()
}

/// Calls `PasswordRequest::from_name` of keybear-core and `serde_json::to_vec`
/// on what it gives. The contract only names the result.
#[verifier::external_body]
pub(crate) fn write_request_by_name(name: &str) -> (body: Option<Vec<u8>>)
    ensures
        option_view(body) == request_by_name_written(name@),
{
    serde_json::to_vec(&PasswordRequest::from_name(name)).ok()
}

/// Calls `serde_json::from_slice` for a `PublicPassword` of keybear-core and
/// copies what its four getters give. The contract only names the result.
#[verifier::external_body]
pub(crate) fn read_public_password(body: &[u8]) -> (password: Option<PublicPassword>)
    ensures
        option_view(password) == public_password_read(body@),
{
    let read: keybear_core::types::PublicPassword = serde_json::from_slice(body).ok()?;
    Some(
        PublicPassword {
            id: read.id().to_string(),
            name: read.name().to_string(),
            email: read.email().map(str::to_string),
            website: read.website().map(str::to_string),
        },
    )
}

/// Calls `serde_json::from_slice` for a list of `PublicPassword` of
/// keybear-core and copies, in the order of the list, what the four getters
/// of each give. The contract only names the result.
#[verifier::external_body]
pub(crate) fn read_public_passwords(body: &[u8]) -> (passwords: Option<Vec<PublicPassword>>)
    ensures
        match passwords {
            Some(list) => public_passwords_read(body@) == Some(list.deep_view()),
            None => public_passwords_read(body@) is None,
        },
{
    let read: Vec<keybear_core::types::PublicPassword> = serde_json::from_slice(body).ok()?;
    Some(
        read.iter().map(
            |one|
                PublicPassword {
                    id: one.id().to_string(),
                    name: one.name().to_string(),
                    email: one.email().map(str::to_string),
                    website: one.website().map(str::to_string),
                },
        ).collect(),
    )
}

/// Calls `serde_json::from_slice` for a `PasswordResponse` of keybear-core and
/// copies what its getter `password` gives. The contract only names the
/// result.
#[verifier::external_body]
pub(crate) fn read_password(body: &[u8]) -> (password: Option<String>)
    ensures
        option_view(password) == password_read(body@),
{
    let read: PasswordResponse = serde_json::from_slice(body).ok()?;
    Some(read.password().to_string())
}

/// Calls `serde_json::from_slice` for the unit value. The contract only names
/// the result.
#[verifier::external_body]
pub(crate) fn read_nothing(body: &[u8]) -> (read: bool)
    ensures
        read == nothing_read(body@),
{
    serde_json::from_slice::<()>(body).is_ok()
}

} // verus!
