//! The receiving worker of an established channel end.
//!
//! It owns the receive-direction cipher state: ciphertext arriving at the
//! channel's `decryptor` address is authenticated and decrypted, the
//! padded envelope is decoded, and the worker dispatches on the variant —
//! payload messages are re-addressed onward with their carried return
//! route, credential refreshes are checked against the known peer
//! identity and handed upward, and a close notification raises the shared
//! close flag and stops both workers of this end.
//!
//! Failure semantics are fail-stop: an authentication failure, a buffer
//! that decodes to no envelope, or a refresh under a foreign identity
//! stops the worker at once — a forged or corrupted ciphertext is never
//! delivered onward, partially or fully.

use vstd::prelude::*;

use crate::cipher::spec_decrypt;
use crate::cipher::CipherError;
use crate::cipher::Decryptor;
use crate::codec::decode_message;
use crate::codec::spec_decode_message;
use crate::messages::Address;
use crate::messages::Addresses;
use crate::messages::ChangeHistory;
use crate::messages::ChannelError;
use crate::messages::Credential;
use crate::messages::Identifier;
use crate::messages::LocalMessage;
use crate::messages::SecureChannelMessage;
use crate::messages::SpecLocalMessage;
use crate::messages::SpecChannelMessage;
use crate::state::close_received_step;
use crate::state::SecureChannelSharedState;
use crate::state::SpecSharedState;

verus! {

/// What one decrypted envelope made the worker decide.
pub enum DecryptorAction {
    /// Forward this reconstructed plaintext message toward its final
    /// destination.
    Forwarded(LocalMessage),
    /// A credential refresh arrived from the verified peer: hand the
    /// change history and credentials to the identity subsystem for
    /// validation and storage.
    CredentialsRefreshed {
        /// The peer's latest change history.
        change_history: ChangeHistory,
        /// The credentials the peer now presents.
        credentials: Vec<Credential>,
    },
    /// The peer closed the channel: both workers of this end must stop,
    /// and no close notification may be echoed back.
    Closed,
    /// A stop request arrived on the internal control address.
    Stopped,
}

/// The receiving worker of one channel end: owns the receive-direction
/// cipher state and the verified peer identity.
pub struct DecryptorWorker {
    /// The five addresses of this channel end.
    pub addresses: Addresses,
    /// The receive-direction cipher state; exclusively owned.
    pub decryptor: Decryptor,
    /// The verified identifier of the peer, from the handshake.
    pub their_identifier: Identifier,
    /// Set on shutdown or on the first fatal failure.
    pub stopped: bool,
}

/// How the shared state moves when a payload envelope is accepted: the
/// last validated nonce is recorded, and a non-empty return route on the
/// transport message replaces the remote route (the peer moved).
pub open spec fn route_refresh_step(
    pre: SpecSharedState,
    post: SpecSharedState,
    incoming_return_route: Seq<Address>,
    nonce: u64,
) -> bool {
    &&& post.last_nonce == nonce
    &&& post.remote_route == if incoming_return_route.len() > 0 {
        incoming_return_route
    } else {
        pre.remote_route
    }
    &&& post.should_send_close == pre.should_send_close
}

impl DecryptorWorker {
    /// A new worker for an established channel.
    pub fn new(addresses: Addresses, decryptor: Decryptor, their_identifier: Identifier) -> (r:
        DecryptorWorker)
        ensures
            r == (DecryptorWorker { addresses, decryptor, their_identifier, stopped: false }),
    {
        DecryptorWorker { addresses, decryptor, their_identifier, stopped: false }
    }
}

/// The full decrypt-and-dispatch contract, shared by [`DecryptorWorker::handle_decrypt`]
/// and the dispatch of [`DecryptorWorker::handle_message`].  It walks the
/// same pipeline as the code: what [`spec_decrypt`] yields on the payload
/// bytes, what [`spec_decode_message`] makes of the recovered plaintext,
/// and then one case per envelope variant.
pub open spec fn decrypt_outcome(
    pre: DecryptorWorker,
    post: DecryptorWorker,
    pre_state: SpecSharedState,
    post_state: SpecSharedState,
    msg: SpecLocalMessage,
    r: Result<DecryptorAction, ChannelError>,
) -> bool {
    &&& post.addresses == pre.addresses
    &&& post.their_identifier == pre.their_identifier
    &&& post.decryptor.key == pre.decryptor.key
    &&& pre.stopped ==> r == Err::<DecryptorAction, ChannelError>(ChannelError::WorkerStopped)
        && post == pre && post_state == pre_state
    &&& !pre.stopped && pre.decryptor.poisoned ==> r == Err::<DecryptorAction, ChannelError>(
        ChannelError::Cipher(CipherError::Internal),
    ) && post.stopped && post_state == pre_state
    &&& !pre.stopped && !pre.decryptor.poisoned ==> match spec_decrypt(
        pre.decryptor.key,
        msg.payload,
    ) {
        None => {
            &&& r == Err::<DecryptorAction, ChannelError>(
                ChannelError::Cipher(CipherError::AuthenticationFailed),
            )
            &&& post.stopped
            &&& post.decryptor.poisoned
            &&& post_state == pre_state
        },
        Some(npt) => {
            &&& post.decryptor.last_nonce == npt.0
            &&& !post.decryptor.poisoned
            &&& match spec_decode_message(npt.1) {
                None => r == Err::<DecryptorAction, ChannelError>(ChannelError::MalformedMessage)
                    && post.stopped && post_state == pre_state,
                Some(pm) => match pm.message {
                    SpecChannelMessage::Payload(p) => {
                        &&& (r matches Ok(a) && a matches DecryptorAction::Forwarded(out)
                            && out@.onward_route == p.onward_route && out@.return_route
                            == p.return_route && out@.payload == p.payload)
                        &&& route_refresh_step(pre_state, post_state, msg.return_route, npt.0)
                        &&& !post.stopped
                    },
                    SpecChannelMessage::RefreshCredentials(rm) => {
                        &&& rm.change_history.subject == pre.their_identifier ==> (r matches Ok(a)
                            && (a matches DecryptorAction::CredentialsRefreshed {
                            change_history,
                            credentials,
                        } && change_history == rm.change_history && credentials@
                            == rm.credentials)) && !post.stopped && post_state == (SpecSharedState {
                            last_nonce: npt.0,
                            ..pre_state
                        })
                        &&& rm.change_history.subject != pre.their_identifier ==> r == Err::<
                            DecryptorAction,
                            ChannelError,
                        >(ChannelError::PeerIdentityMismatch) && post.stopped && post_state
                            == pre_state
                    },
                    SpecChannelMessage::Close => {
                        &&& r == Ok::<DecryptorAction, ChannelError>(DecryptorAction::Closed)
                        &&& close_received_step(pre_state, post_state)
                        &&& post.stopped
                    },
                },
            }
        },
    }
}

impl DecryptorWorker {
    /// Authenticate, decrypt and dispatch one ciphertext message.
    pub fn handle_decrypt(
        &mut self,
        state: &mut SecureChannelSharedState,
        msg: &LocalMessage,
    ) -> (r: Result<DecryptorAction, ChannelError>)
        ensures
            decrypt_outcome(*old(self), *final(self), old(state)@, final(state)@, msg@, r),
    {
        if self.stopped {
            return Err(ChannelError::WorkerStopped);
        }
        let plaintext = match self.decryptor.decrypt(&msg.payload) {
            Ok(plaintext) => plaintext,
            Err(err) => {
                // Never deliver an unauthenticated buffer: stop at once.
                self.stopped = true;
                return Err(ChannelError::Cipher(err));
            },
        };
        let decoded = match decode_message(&plaintext) {
            Some(decoded) => decoded,
            None => {
                // An authenticated but undecodable envelope is treated
                // as forged: stop at once.
                self.stopped = true;
                return Err(ChannelError::MalformedMessage);
            },
        };
        match decoded.message {
            SecureChannelMessage::Payload(p) => {
                // Record the freshest validated nonce, and follow the
                // peer if the transport message carried a newer way
                // back to it.
                state.remote_route.last_nonce = self.decryptor.last_nonce;
                if !msg.return_route.is_empty() {
                    state.remote_route.route = msg.return_route.duplicate();
                }
                // Re-attach the carried return route so the true
                // originator can be replied to across the whole path.
                Ok(
                    DecryptorAction::Forwarded(
                        LocalMessage {
                            onward_route: p.onward_route,
                            return_route: p.return_route,
                            payload: p.payload,
                        },
                    ),
                )
            },
            SecureChannelMessage::RefreshCredentials(rm) => {
                if rm.change_history.subject.value != self.their_identifier.value {
                    // A refresh under a foreign identity is fatal.
                    self.stopped = true;
                    return Err(ChannelError::PeerIdentityMismatch);
                }
                state.remote_route.last_nonce = self.decryptor.last_nonce;
                Ok(
                    DecryptorAction::CredentialsRefreshed {
                        change_history: rm.change_history,
                        credentials: rm.credentials,
                    },
                )
            },
            SecureChannelMessage::Close => {
                // The peer already told us: a later shutdown of this end
                // must not echo the close back.
                state.should_send_close = true;
                self.stopped = true;
                Ok(DecryptorAction::Closed)
            },
        }
    }

    /// Dispatch one inbound message by the address it arrived at:
    /// ciphertext on the `decryptor` address, stop requests on the
    /// internal control address, nothing else.
    pub fn handle_message(
        &mut self,
        state: &mut SecureChannelSharedState,
        msg_addr: Address,
        msg: &LocalMessage,
    ) -> (r: Result<DecryptorAction, ChannelError>)
        requires
            old(self).addresses.wf(),
        ensures
            final(self).addresses == old(self).addresses,
            final(self).their_identifier == old(self).their_identifier,
            final(self).decryptor.key == old(self).decryptor.key,
            old(self).stopped ==> r == Err::<DecryptorAction, ChannelError>(
                ChannelError::WorkerStopped,
            ) && *final(self) == *old(self) && final(state)@ == old(state)@,
            !old(self).stopped && msg_addr == old(self).addresses.decryptor ==> decrypt_outcome(
                *old(self),
                *final(self),
                old(state)@,
                final(state)@,
                msg@,
                r,
            ),
            !old(self).stopped && msg_addr == old(self).addresses.decryptor_internal ==> r == Ok::<
                DecryptorAction,
                ChannelError,
            >(DecryptorAction::Stopped) && final(self).stopped && final(state)@ == old(state)@,
            !old(self).stopped && msg_addr != old(self).addresses.decryptor && msg_addr != old(
                self,
            ).addresses.decryptor_internal ==> r == Err::<DecryptorAction, ChannelError>(
                ChannelError::UnknownChannelMsgDestination,
            ) && *final(self) == *old(self) && final(state)@ == old(state)@,
    {
        if self.stopped {
            return Err(ChannelError::WorkerStopped);
        }
        if msg_addr.value == self.addresses.decryptor.value {
            self.handle_decrypt(state, msg)
        } else if msg_addr.value == self.addresses.decryptor_internal.value {
            self.stopped = true;
            Ok(DecryptorAction::Stopped)
        } else {
            Err(ChannelError::UnknownChannelMsgDestination)
        }
    }
}

} // verus!
