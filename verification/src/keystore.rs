//! The three long-lived secrets of a client, as they are kept in its key
//! files: the secret key, the public key of the server and the client
//! identifier.
//!
//! A [`KeyStore`] holds what the files contain. Whoever owns it reads the files
//! into it before the protocol runs, and writes back what the protocol stored.

use crate::crypto::{
    public_key_of, secret_key_of, x25519_public, x25519_shared, PublicKey, SecretKey,
    SharedSecret,
};
use crate::error::{result_view, Error, ErrorView};
use vstd::prelude::*;
use vstd::string::StringExecFns;

verus! {

/// What is known of one file.
#[derive(Clone, Debug, PartialEq, Eq)]
pub enum Stored<T> {
    /// There is no such file.
    Missing,
    /// The file exists, and cannot be read.
    Unreadable,
    /// The file holds this.
    Present(T),
}

impl<T: View> View for Stored<T> {
    type V = Stored<T::V>;

    open spec fn view(&self) -> Stored<T::V> {
        match *self {
            Stored::Missing => Stored::Missing,
            Stored::Unreadable => Stored::Unreadable,
            Stored::Present(contents) => Stored::Present(contents@),
        }
    }
}

/// The key files of one client.
#[derive(Clone, Debug, PartialEq, Eq)]
pub struct KeyStore {
    /// The file of the secret key: raw bytes.
    pub secret_key: Stored<Vec<u8>>,
    /// The file of the server's public key: raw bytes.
    pub server_public_key: Stored<Vec<u8>>,
    /// The file of the client identifier: text.
    pub id: Stored<String>,
}

/// A [`KeyStore`] with the contents of its files as sequences.
pub ghost struct KeyStoreView {
    pub secret_key: Stored<Seq<u8>>,
    pub server_public_key: Stored<Seq<u8>>,
    pub id: Stored<Seq<char>>,
}

impl View for KeyStore {
    type V = KeyStoreView;

    open spec fn view(&self) -> KeyStoreView {
        KeyStoreView {
            secret_key: self.secret_key@,
            server_public_key: self.server_public_key@,
            id: self.id@,
        }
    }
}

impl KeyStoreView {
    /// Whether a client identifier is stored, readable or not.
    pub open spec fn id_exists(self) -> bool {
        !(self.id is Missing)
    }

    /// The client identifier, where its file can be read.
    pub open spec fn id(self) -> Result<Seq<char>, ErrorView> {
        match self.id {
            Stored::Present(id) => Ok(id),
            _ => Err(ErrorView::Io),
        }
    }

    /// The secret key, where its file can be read to the 32nd byte.
    pub open spec fn secret_key(self) -> Result<Seq<u8>, ErrorView> {
        match self.secret_key {
            Stored::Present(contents) => secret_key_of(contents),
            _ => Err(ErrorView::Io),
        }
    }

    /// The public key of the server, where its file can be read and holds
    /// exactly 32 bytes.
    pub open spec fn server_public_key(self) -> Result<Seq<u8>, ErrorView> {
        match self.server_public_key {
            Stored::Present(contents) => public_key_of(contents),
            _ => Err(ErrorView::Io),
        }
    }

    /// The secret shared with the server: the failure of the secret key where
    /// it fails, else that of the server's public key, else what the two keys
    /// agree on.
    pub open spec fn shared_key(self) -> Result<Seq<u8>, ErrorView> {
        match self.secret_key() {
            Ok(secret) => match self.server_public_key() {
                Ok(public) => Ok(x25519_shared(secret, public)),
                Err(error) => Err(error),
            },
            Err(error) => Err(error),
        }
    }
}

impl KeyStore {
    /// The key files of a client that has none yet.
    pub fn new() -> (store: KeyStore)
        ensures
            store@.secret_key is Missing,
            store@.server_public_key is Missing,
            store@.id is Missing,
    {
        KeyStore {
            secret_key: Stored::Missing,
            server_public_key: Stored::Missing,
            id: Stored::Missing,
        }
    }

    /// Makes a new secret key and stores it, in place of whatever the file of
    /// the secret key held. The other two files stay as they are.
    pub fn generate_secret_key(&mut self) -> (key: SecretKey)
        ensures
            final(self)@.secret_key == Stored::Present(key@),
            final(self)@.server_public_key == old(self)@.server_public_key,
            final(self)@.id == old(self)@.id,
    {
        let key = SecretKey::generate();
        self.save_secret_key(&key);
        key
    }

    /// Stores a secret key, in place of whatever the file of the secret key
    /// held.
    pub fn save_secret_key(&mut self, secret_key: &SecretKey)
        ensures
            final(self)@.secret_key == Stored::Present(secret_key@),
            final(self)@.server_public_key == old(self)@.server_public_key,
            final(self)@.id == old(self)@.id,
    {
        self.secret_key = Stored::Present(secret_key.to_bytes());
    }

    /// Loads the secret key.
    pub fn secret_key(&self) -> (key: Result<SecretKey, Error>)
        ensures
            result_view(key) == self@.secret_key(),
    {
        match &self.secret_key {
            Stored::Present(contents) => SecretKey::from_bytes(contents.as_slice()),
            _ => Err(Error::Io),
        }
    }

    /// Loads the public key of the server.
    pub fn server_public_key(&self) -> (key: Result<PublicKey, Error>)
        ensures
            result_view(key) == self@.server_public_key(),
    {
        match &self.server_public_key {
            Stored::Present(contents) => PublicKey::from_bytes(contents.as_slice()),
            _ => Err(Error::Io),
        }
    }

    /// Loads the secret key and the public key of the server, in this order,
    /// and derives the secret that the two share.
    ///
    /// The derivation is symmetric: where the stored public key belongs to
    /// some secret key, the owner of that key derives the same secret from the
    /// public key that belongs to the secret key stored here.
    pub fn shared_key(&self) -> (shared: Result<SharedSecret, Error>)
        ensures
            result_view(shared) == self@.shared_key(),
            shared matches Ok(secret) ==> forall|theirs: Seq<u8>|
                theirs.len() == 32 && self@.server_public_key() == Ok::<Seq<u8>, ErrorView>(
                    #[trigger] x25519_public(theirs),
                ) ==> self@.secret_key() is Ok && secret@ == x25519_shared(
                    theirs,
                    x25519_public(self@.secret_key()->Ok_0),
                ),
    {
        let secret = match self.secret_key() {
            Ok(secret) => secret,
            Err(error) => {
                return Err(error);
            },
        };
        let public = match self.server_public_key() {
            Ok(public) => public,
            Err(error) => {
                return Err(error);
            },
        };
        Ok(secret.diffie_hellman(&public))
    }

    /// Stores the client identifier that the server assigned.
    pub fn save_id(&mut self, client_id: &str)
        ensures
            final(self)@.id == Stored::Present(client_id@),
            final(self)@.secret_key == old(self)@.secret_key,
            final(self)@.server_public_key == old(self)@.server_public_key,
    {
        self.id = Stored::Present(String::from_str(client_id));
    }

    /// Stores the public key of the server.
    pub fn save_server_public_key(&mut self, server_public_key: &PublicKey)
        ensures
            final(self)@.server_public_key == Stored::Present(server_public_key@),
            final(self)@.secret_key == old(self)@.secret_key,
            final(self)@.id == old(self)@.id,
    {
        self.server_public_key = Stored::Present(server_public_key.to_bytes());
    }

    /// Loads the client identifier.
    pub fn id(&self) -> (id: Result<String, Error>)
        ensures
            result_view(id) == self@.id(),
    {
        match &self.id {
            Stored::Present(id) => Ok(id.clone()),
            _ => Err(Error::Io),
        }
    }

    /// Whether a client identifier is stored. Only the file's existence
    /// counts, not what it holds.
    pub fn id_exists(&self) -> (exists: bool)
        ensures
            exists == self@.id_exists(),
    {
        match &self.id {
            Stored::Missing => false,
            _ => true,
        }
    }
}

/// A file of the server's public key that holds any other number of bytes
/// than 32 is rejected as corrupt when the key is loaded, and no secret is
/// derived from it.
pub proof fn corrupt_public_key_is_rejected(keys: KeyStoreView, contents: Seq<u8>)
    requires
        keys.server_public_key == Stored::Present(contents),
        contents.len() != 32,
    ensures
        keys.server_public_key() == Err::<Seq<u8>, ErrorView>(ErrorView::CorruptKey),
        keys.shared_key() is Err,
        keys.secret_key() is Ok ==> keys.shared_key() == Err::<Seq<u8>, ErrorView>(
            ErrorView::CorruptKey,
        ),
{
}

/// What is stored is what is loaded: a secret key and a public key come back
/// from their files as they went in, and so does the client identifier.
pub proof fn stored_keys_load_again(
    keys: KeyStoreView,
    secret: Seq<u8>,
    public: Seq<u8>,
    id: Seq<char>,
)
    requires
        secret.len() == 32,
        public.len() == 32,
        keys.secret_key == Stored::Present(secret),
        keys.server_public_key == Stored::Present(public),
        keys.id == Stored::Present(id),
    ensures
        keys.secret_key() == Ok::<Seq<u8>, ErrorView>(secret),
        keys.server_public_key() == Ok::<Seq<u8>, ErrorView>(public),
        keys.id() == Ok::<Seq<char>, ErrorView>(id),
        keys.id_exists(),
        keys.shared_key() == Ok::<Seq<u8>, ErrorView>(x25519_shared(secret, public)),
{
    assert(secret.subrange(0, 32) =~= secret);
}

} // verus!
