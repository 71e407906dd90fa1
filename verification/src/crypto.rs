//! Keys, nonces and the two primitives that the protocol rests on: X25519 key
//! agreement and the ChaCha20-Poly1305 cipher.
//!
//! Neither primitive is computed here. Each is called in the crate that
//! implements it, and what it returns is known to the proofs only by name.

use crate::error::{result_view, Error, ErrorView, ProtocolViolation};
use chacha20poly1305::aead::{Aead, NewAead};
use keybear_core::crypto::StaticSecretExt;
use vstd::prelude::*;

verus! {

/// The public key that X25519 derives from the 32 bytes of a secret key.
pub uninterp spec fn x25519_public(secret: Seq<u8>) -> Seq<u8>;

/// The secret on which X25519 lets the holder of `secret` agree with the holder
/// of the secret key behind `public`.
pub uninterp spec fn x25519_shared(secret: Seq<u8>, public: Seq<u8>) -> Seq<u8>;

/// The ciphertext, tag included, that ChaCha20-Poly1305 makes of `plaintext`
/// under a 32-byte key and a 12-byte nonce, without associated data.
pub uninterp spec fn aead_seal(key: Seq<u8>, nonce: Seq<u8>, plaintext: Seq<u8>) -> Seq<u8>;

/// What ChaCha20-Poly1305 recovers from `sealed` under a 32-byte key and a
/// 12-byte nonce: the plaintext, or nothing where the tag does not match.
pub uninterp spec fn aead_open(key: Seq<u8>, nonce: Seq<u8>, sealed: Seq<u8>) -> Option<Seq<u8>>;

/// Calls `StaticSecretExt::new_with_os_rand` of keybear-core, which fills a
/// secret key from the operating system's random number generator, and hands
/// out its bytes. Nothing is claimed of them: they differ from call to call.
#[verifier::external_body]
fn random_secret() -> (secret: [u8; 32]) {
    x25519_dalek::StaticSecret::new_with_os_rand().to_bytes()
}

/// Calls `PublicKey::from(&StaticSecret)` of x25519-dalek on the secret key
/// made of the given bytes. The contract only names the result.
#[verifier::external_body]
fn derive_public(secret: &[u8; 32]) -> (public: [u8; 32])
    ensures
        public@ == x25519_public(secret@),
{
    x25519_dalek::PublicKey::from(&x25519_dalek::StaticSecret::from(*secret)).to_bytes()
}

/// Calls `StaticSecret::diffie_hellman` of x25519-dalek on the keys made of the
/// given bytes. The contract names the result, and states the one property
/// that makes it a key agreement, as the documentation of x25519-dalek does:
/// the owner of the secret key behind `public` arrives at the same secret from
/// the public key of `secret`.
#[verifier::external_body]
fn agree(secret: &[u8; 32], public: &[u8; 32]) -> (shared: [u8; 32])
    ensures
        shared@ == x25519_shared(secret@, public@),
        forall|theirs: Seq<u8>|
            theirs.len() == 32 && public@ == #[trigger] x25519_public(theirs) ==> shared@
                == x25519_shared(theirs, x25519_public(secret@)),
{
    x25519_dalek::StaticSecret::from(*secret).diffie_hellman(
        &x25519_dalek::PublicKey::from(*public),
    ).to_bytes()
}

/// Calls `Aead::encrypt` of ChaCha20-Poly1305 (crate chacha20poly1305, trait
/// from aead) with the plaintext as the whole payload. As the source shows, the
/// call fails exactly when the plaintext fills `u32::MAX` or more blocks of 64
/// bytes, and the result is the plaintext's length plus a tag of 16 bytes. The
/// last clause is the cipher's promise that what it sealed opens again under
/// the same key and nonce.
#[verifier::external_body]
fn seal(key: &[u8; 32], nonce: &[u8; 12], plaintext: &[u8]) -> (sealed: Option<Vec<u8>>)
    ensures
        sealed is Some <==> sealable(plaintext@.len()),
        sealed matches Some(bytes) ==> bytes@ == aead_seal(key@, nonce@, plaintext@),
        sealed matches Some(bytes) ==> bytes@.len() == plaintext@.len() + 16,
        sealed matches Some(bytes) ==> aead_open(key@, nonce@, bytes@) == Some(plaintext@),
{
    chacha20poly1305::ChaCha20Poly1305::new(&chacha20poly1305::Key::from(*key)).encrypt(
        &chacha20poly1305::Nonce::from(*nonce),
        plaintext,
    ).ok()
}

/// Calls `Aead::decrypt` of ChaCha20-Poly1305 with the sealed bytes as the
/// whole payload. The contract only names the result.
#[verifier::external_body]
fn open(key: &[u8; 32], nonce: &[u8; 12], sealed: &[u8]) -> (plaintext: Option<Vec<u8>>)
    ensures
        match plaintext {
            Some(bytes) => aead_open(key@, nonce@, sealed@) == Some(bytes@),
            None => aead_open(key@, nonce@, sealed@) is None,
        },
{
    chacha20poly1305::ChaCha20Poly1305::new(&chacha20poly1305::Key::from(*key)).decrypt(
        &chacha20poly1305::Nonce::from(*nonce),
        sealed,
    ).ok()
}

/// Copies the first 32 bytes of a slice.
fn first_32(bytes: &[u8]) -> (head: [u8; 32])
    requires
        bytes@.len() >= 32,
    ensures
        head@ == bytes@.subrange(0, 32),
{
    let mut head = [0u8;32];
    let mut i: usize = 0;
    while i < 32
        invariant
            i <= 32,
            bytes@.len() >= 32,
            forall|j: int| 0 <= j < i ==> head@[j] == bytes@[j],
        decreases 32 - i,
    {
        head[i] = bytes[i];
        i = i + 1;
    }
    head
}

/// Copies the first 12 bytes of a slice.
fn first_12(bytes: &[u8]) -> (head: [u8; 12])
    requires
        bytes@.len() >= 12,
    ensures
        head@ == bytes@.subrange(0, 12),
{
    let mut head = [0u8;12];
    let mut i: usize = 0;
    while i < 12
        invariant
            i <= 12,
            bytes@.len() >= 12,
            forall|j: int| 0 <= j < i ==> head@[j] == bytes@[j],
        decreases 12 - i,
    {
        head[i] = bytes[i];
        i = i + 1;
    }
    head
}

/// Copies a slice into a vector.
pub(crate) fn to_vec(bytes: &[u8]) -> (copy: Vec<u8>)
    ensures
        copy@ == bytes@,
{
    let mut copy: Vec<u8> = Vec::new();
    let mut i: usize = 0;
    while i < bytes.len()
        invariant
            i <= bytes@.len(),
            copy@ == bytes@.subrange(0, i as int),
        decreases bytes@.len() - i,
    {
        copy.push(bytes[i]);
        i = i + 1;
    }
    copy
}

/// The static secret key of this device: a scalar of 32 bytes.
pub struct SecretKey {
    pub bytes: [u8; 32],
}

/// A static public key, of this device or of the server: a point of 32 bytes.
#[derive(Clone, Copy, Debug)]
pub struct PublicKey {
    pub bytes: [u8; 32],
}

/// The symmetric key of one exchange. It is derived anew for every exchange
/// and dropped with it: nothing in this crate stores it.
pub struct SharedSecret {
    pub bytes: [u8; 32],
}

/// The nonce that the server issued for one exchange.
#[derive(Clone, Copy, Debug)]
pub struct Nonce {
    pub bytes: [u8; 12],
}

impl View for SecretKey {
    type V = Seq<u8>;

    open spec fn view(&self) -> Seq<u8> {
        self.bytes@
    }
}

impl View for PublicKey {
    type V = Seq<u8>;

    open spec fn view(&self) -> Seq<u8> {
        self.bytes@
    }
}

impl View for SharedSecret {
    type V = Seq<u8>;

    open spec fn view(&self) -> Seq<u8> {
        self.bytes@
    }
}

impl View for Nonce {
    type V = Seq<u8>;

    open spec fn view(&self) -> Seq<u8> {
        self.bytes@
    }
}

/// What the file of a secret key yields: its first 32 bytes, or a failed read
/// where it holds fewer.
pub open spec fn secret_key_of(contents: Seq<u8>) -> Result<Seq<u8>, ErrorView> {
    if contents.len() >= 32 {
        Ok(contents.subrange(0, 32))
    } else {
        Err(ErrorView::Io)
    }
}

/// What the file of a public key yields: its bytes where there are exactly 32
/// of them, and a corrupt key otherwise.
pub open spec fn public_key_of(contents: Seq<u8>) -> Result<Seq<u8>, ErrorView> {
    if contents.len() == 32 {
        Ok(contents)
    } else {
        Err(ErrorView::CorruptKey)
    }
}

/// What the body of a nonce response yields: its bytes where there are exactly
/// twelve of them.
pub open spec fn nonce_of(body: Seq<u8>) -> Result<Seq<u8>, ErrorView> {
    if body.len() == 12 {
        Ok(body)
    } else {
        Err(ErrorView::Protocol(ProtocolViolation::NonceSize))
    }
}

/// Whether the cipher takes a plaintext of this length under one nonce: it
/// must fill fewer than `u32::MAX` blocks of 64 bytes.
pub open spec fn sealable(length: nat) -> bool {
    length / 64 < 0xFFFF_FFFF
}

/// What sealing gives: the ciphertext, unless the plaintext is too long for
/// the cipher.
pub open spec fn sealed(key: Seq<u8>, nonce: Seq<u8>, plaintext: Seq<u8>) -> Result<
    Seq<u8>,
    ErrorView,
> {
    if sealable(plaintext.len()) {
        Ok(aead_seal(key, nonce, plaintext))
    } else {
        Err(ErrorView::Protocol(ProtocolViolation::PayloadSize))
    }
}

/// What opening gives: the plaintext, unless the tag does not match.
pub open spec fn opened(key: Seq<u8>, nonce: Seq<u8>, sealed: Seq<u8>) -> Result<
    Seq<u8>,
    ErrorView,
> {
    match aead_open(key, nonce, sealed) {
        Some(plaintext) => Ok(plaintext),
        None => Err(ErrorView::Integrity),
    }
}

impl SecretKey {
    /// A fresh secret key from the operating system's random number generator.
    pub fn generate() -> (key: SecretKey) {
        SecretKey { bytes: random_secret() }
    }

    /// The secret key that a key file of the given contents holds. The length
    /// is not held against the key: whatever follows the first 32 bytes is
    /// ignored, and a shorter file cannot be read to the end.
    pub fn from_bytes(contents: &[u8]) -> (key: Result<SecretKey, Error>)
        ensures
            result_view(key) == secret_key_of(contents@),
    {
        if contents.len() >= 32 {
            Ok(SecretKey { bytes: first_32(contents) })
        } else {
            Err(Error::Io)
        }
    }

    /// The bytes to keep in the key file.
    pub fn to_bytes(&self) -> (bytes: Vec<u8>)
        ensures
            bytes@ == self@,
    {
        to_vec(self.bytes.as_slice())
    }

    /// The public key that belongs to this secret key.
    pub fn public_key(&self) -> (public: PublicKey)
        ensures
            public@ == x25519_public(self@),
    {
        PublicKey { bytes: derive_public(&self.bytes) }
    }

    /// The secret shared with the owner of `their_public`.
    ///
    /// Key agreement is symmetric: whoever owns the secret key behind
    /// `their_public` derives the same secret from the public key of `self`.
    pub fn diffie_hellman(&self, their_public: &PublicKey) -> (shared: SharedSecret)
        ensures
            shared@ == x25519_shared(self@, their_public@),
            forall|theirs: Seq<u8>|
                theirs.len() == 32 && their_public@ == #[trigger] x25519_public(theirs)
                    ==> shared@ == x25519_shared(theirs, x25519_public(self@)),
    {
        SharedSecret { bytes: agree(&self.bytes, &their_public.bytes) }
    }
}

impl PublicKey {
    /// The public key that a key file of the given contents holds. A file of
    /// any other length than 32 bytes is corrupt.
    pub fn from_bytes(contents: &[u8]) -> (key: Result<PublicKey, Error>)
        ensures
            result_view(key) == public_key_of(contents@),
    {
        if contents.len() == 32 {
            let key = PublicKey { bytes: first_32(contents) };
            assert(key@ =~= contents@);
            Ok(key)
        } else {
            Err(Error::CorruptKey)
        }
    }

    /// The bytes to keep in the key file.
    pub fn to_bytes(&self) -> (bytes: Vec<u8>)
        ensures
            bytes@ == self@,
    {
        to_vec(self.bytes.as_slice())
    }
}

impl Nonce {
    /// The nonce that the body of a nonce response holds. A body of any other
    /// length than twelve bytes is no nonce.
    pub fn from_bytes(body: &[u8]) -> (nonce: Result<Nonce, Error>)
        ensures
            result_view(nonce) == nonce_of(body@),
    {
        if body.len() == 12 {
            let nonce = Nonce { bytes: first_12(body) };
            assert(nonce@ =~= body@);
            Ok(nonce)
        } else {
            Err(Error::Protocol(ProtocolViolation::NonceSize))
        }
    }
}

/// Seals a message body under the shared secret and the nonce of the exchange.
///
/// Fails only on a plaintext that the cipher cannot take. Whatever it returns
/// opens again, under the same secret and nonce, to the plaintext given.
pub fn encrypt(shared: &SharedSecret, nonce: &Nonce, plaintext: &[u8]) -> (body: Result<
    Vec<u8>,
    Error,
>)
    ensures
        result_view(body) == sealed(shared@, nonce@, plaintext@),
        body matches Ok(bytes) ==> bytes@.len() == plaintext@.len() + 16,
        body matches Ok(bytes) ==> opened(shared@, nonce@, bytes@) == Ok::<Seq<u8>, ErrorView>(
            plaintext@,
        ),
{
    match seal(&shared.bytes, &nonce.bytes, plaintext) {
        Some(bytes) => Ok(bytes),
        None => Err(Error::Protocol(ProtocolViolation::PayloadSize)),
    }
}

/// Opens a message body under the shared secret and the nonce of the exchange.
///
/// Fails exactly when the cipher does not open the body, which it refuses
/// unless the tag at the end of the body matches.
pub fn decrypt(shared: &SharedSecret, nonce: &Nonce, body: &[u8]) -> (plaintext: Result<
    Vec<u8>,
    Error,
>)
    ensures
        result_view(plaintext) == opened(shared@, nonce@, body@),
{
    match open(&shared.bytes, &nonce.bytes, body) {
        Some(bytes) => Ok(bytes),
        None => Err(Error::Integrity),
    }
}

} // verus!
