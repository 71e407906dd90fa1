//! Client side of the Keybear vault protocol, without any I/O of its own.
//!
//! The crate holds the rules of the protocol: which keys a device owns and
//! when they may be written, how a device registers itself once, and how every
//! later request fetches a nonce from the server, derives the shared secret
//! and seals and opens the message bodies. Reading files and talking to the
//! network is left to the caller, who performs the requests that the protocol
//! hands out and feeds the answers back in.
//!
//! - [`config`]: the settings of a client.
//! - [`keystore`]: the three key files of a client, and what may be loaded
//!   from them and stored in them.
//! - [`crypto`]: keys and nonces, key agreement and the authenticated cipher.
//! - [`net`]: the transport through the proxy, and the secured request.
//! - [`command`]: the registration, and what the other commands send and
//!   print.
//! - [`error`]: the failures.

pub mod command;
pub mod config;
pub mod crypto;
pub mod error;
pub mod keystore;
pub mod net;
