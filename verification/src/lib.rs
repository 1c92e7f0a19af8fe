//! An identity-authenticated, encrypted channel protocol over an arbitrary
//! message-routing substrate.
//!
//! The crate is organised leaf-first:
//!
//! * [`bitops`] — the keyed mixing primitive and the XOR lemmas the cipher
//!   proofs rest on;
//! * [`cipher`] — the framing cipher: nonce-prefixed, tag-suffixed buffers,
//!   with the encryptor and decryptor cipher-state objects;
//! * [`messages`] — addresses, routes, identifiers, credentials and the
//!   protocol envelope;
//! * [`codec`] — the stable byte encoding of the protocol envelope;
//! * [`handshake`] — the three-message mutual-authentication key exchange;
//! * [`state`] — the route and close-flag state shared by the two workers of
//!   one channel end;
//! * [`encryptor_worker`] and [`decryptor_worker`] — the two actors of an
//!   established channel end, written as state machines whose surrounding
//!   runtime performs the sends they decide on.
//!
//! Beside the channel core, [`registry`], [`manager`], [`share`], [`node`]
//! and [`commands`] carry the plain data records of the surrounding node:
//! service bookkeeping, manager options, invitations, and the questions a
//! launcher asks of a parsed command.

use vstd::prelude::*;

pub mod bitops;
pub mod cipher;
pub mod codec;
pub mod handshake;
pub mod messages;
pub mod state;
pub mod encryptor_worker;
pub mod decryptor_worker;
pub mod registry;
pub mod manager;
pub mod share;
pub mod node;
pub mod commands;

verus! {

/// The number of bytes reserved at the front of an encrypted buffer for the
/// nonce.
pub const NONCE_LEN: usize = 8;

/// The number of bytes reserved at the back of an encrypted buffer for the
/// authentication tag.
pub const TAG_LEN: usize = 8;

} // verus!
