//! The application-facing worker of an established channel end.
//!
//! It serves three addresses: plaintext application messages to relay
//! (`encryptor`), explicit encrypt-and-reply requests (`encryptor_api`),
//! and asynchronous credential-refresh triggers (`encryptor_internal`).
//!
//! The worker is a state machine: each handler consumes one inbound
//! message, updates the worker and the shared channel state, and returns
//! what the surrounding runtime must send.  Outside work it cannot do
//! itself — performing the sends, retrieving a credential, looking up the
//! local change history — is done by the runtime, which hands the results
//! back as plain values.
//!
//! Failure semantics are fail-stop: any cipher failure poisons the cipher
//! state, marks the worker stopped, and every later call fails.  A
//! credential-refresh failure that is not a cipher failure is surfaced
//! but leaves the worker running.

use vstd::prelude::*;

use crate::cipher::encrypt_fails;
use crate::cipher::encrypt_step;
use crate::cipher::spec_encrypt;
use crate::cipher::CipherError;
use crate::cipher::Encryptor;
use crate::codec::encode_message;
use crate::codec::spec_encode_message;
use crate::handshake::Role;
use crate::messages::Address;
use crate::messages::Addresses;
use crate::messages::ChangeHistory;
use crate::messages::ChannelError;
use crate::messages::Credential;
use crate::messages::Identifier;
use crate::messages::LocalMessage;
use crate::messages::PlaintextPayloadMessage;
use crate::messages::RefreshCredentialsMessage;
use crate::messages::Route;
use crate::messages::SecureChannelMessage;
use crate::messages::SecureChannelPaddedMessage;
use crate::messages::SpecChannelMessage;
use crate::messages::SpecLocalMessage;
use crate::messages::SpecPaddedMessage;
use crate::messages::SpecPayloadMessage;
use crate::messages::SpecRefreshMessage;
use crate::state::close_emission_allowed;
use crate::state::SecureChannelSharedState;
use crate::NONCE_LEN;
use crate::TAG_LEN;

verus! {

/// The reply of the encrypt API: the ciphertext, or the error that ended
/// the request.
pub enum EncryptionResponse {
    /// The encrypted buffer.
    Encrypted(Vec<u8>),
    /// Encryption failed; the worker is stopping.
    Failed(ChannelError),
}

/// A reply the runtime must send back to the caller of the encrypt API,
/// addressed as coming from the `encryptor_api` address.
pub struct ApiReply {
    /// Where the reply goes: the request's return route.
    pub to: Route,
    /// The address the reply must appear to come from.
    pub from: Address,
    /// The outcome of the request.
    pub response: EncryptionResponse,
}

/// What one inbound message made the worker decide.
pub enum EncryptorAction {
    /// Forward this ciphertext message to the peer's decryptor.
    Forwarded(LocalMessage),
    /// Send this reply to the encrypt-API caller.
    Replied(ApiReply),
    /// A refresh trigger arrived: the runtime must retrieve the latest
    /// credential and the local change history, then call
    /// `handle_refresh_credentials` with them.
    RefreshRequested,
}

/// What the worker asks of the runtime when it shuts down.
pub struct ShutdownActions {
    /// Unsubscribe this address from credential-refresh notifications.
    pub unsubscribe: Option<Address>,
    /// Request a stop of the paired decryptor's internal address;
    /// best-effort, a failure there must not block this shutdown.
    pub stop_decryptor_internal: Address,
    /// The close notification to send to the peer, when this side
    /// originated the close and the envelope could still be encrypted.
    pub close_message: Option<LocalMessage>,
}

/// The onward route of a relayed message with this worker's own hop
/// removed.
pub open spec fn spec_strip_first(r: Seq<Address>) -> Seq<Address> {
    if r.len() > 0 {
        r.drop_first()
    } else {
        r
    }
}

/// The padded envelope built for a plaintext message arriving at the
/// `encryptor` address.
pub open spec fn spec_payload_envelope(msg: SpecLocalMessage) -> SpecPaddedMessage {
    SpecPaddedMessage {
        message: SpecChannelMessage::Payload(
            SpecPayloadMessage {
                onward_route: spec_strip_first(msg.onward_route),
                return_route: msg.return_route,
                payload: msg.payload,
            },
        ),
        padding: Seq::<u8>::empty(),
    }
}

/// The padded envelope of a credential refresh.
pub open spec fn spec_refresh_envelope(
    change_history: ChangeHistory,
    credential: Credential,
) -> SpecPaddedMessage {
    SpecPaddedMessage {
        message: SpecChannelMessage::RefreshCredentials(
            SpecRefreshMessage { change_history, credentials: seq![credential] },
        ),
        padding: Seq::<u8>::empty(),
    }
}

/// The padded envelope of a close notification.
pub open spec fn spec_close_envelope() -> SpecPaddedMessage {
    SpecPaddedMessage { message: SpecChannelMessage::Close, padding: Seq::<u8>::empty() }
}

/// The ciphertext message the worker hands to the runtime: addressed to
/// the peer's decryptor, no return route (the peer holds its own), and
/// the envelope encrypted under the worker's next nonce.
pub open spec fn spec_ciphertext_out(
    pre: Encryptor,
    env: SpecPaddedMessage,
    remote: Seq<Address>,
    out: SpecLocalMessage,
) -> bool {
    &&& out.onward_route == remote
    &&& out.return_route == Seq::<Address>::empty()
    &&& out.payload == spec_encrypt(pre.key, pre.nonce, spec_encode_message(env))
}

/// The fields of the worker that no handler ever rewrites.
pub open spec fn same_worker_config(pre: EncryptorWorker, post: EncryptorWorker) -> bool {
    &&& post.role == pre.role
    &&& post.key_exchange_only == pre.key_exchange_only
    &&& post.addresses == pre.addresses
    &&& post.my_identifier == pre.my_identifier
    &&& post.has_credential_retriever == pre.has_credential_retriever
}

/// How one refresh trigger moves the record of the last presented
/// credential: an envelope is sent only for a credential that differs
/// from the last presented one, and sending records it.
pub open spec fn refresh_step(
    pre: EncryptorWorker,
    post: EncryptorWorker,
    credential: Credential,
    sent: bool,
) -> bool {
    &&& sent ==> pre.last_presented_credential != Some(credential)
        && post.last_presented_credential == Some(credential)
    &&& !sent ==> post.last_presented_credential == pre.last_presented_credential
}

/// Credential-refresh idempotence: once a credential has been presented,
/// a second trigger with the same, unchanged credential sends nothing, so
/// two consecutive triggers send at most one refresh envelope.
pub proof fn lemma_refresh_idempotent(
    w0: EncryptorWorker,
    w1: EncryptorWorker,
    w2: EncryptorWorker,
    credential: Credential,
    sent1: bool,
    sent2: bool,
)
    requires
        refresh_step(w0, w1, credential, sent1),
        refresh_step(w1, w2, credential, sent2),
        sent1,
    ensures
        !sent2,
{
}

/// The application-facing worker of one channel end: owns the
/// send-direction cipher state and the record of the last presented
/// credential.
pub struct EncryptorWorker {
    /// Which side of the handshake created this worker; diagnostics only.
    pub role: Role,
    /// When set, the worker only serves the encrypt API, not the relay or
    /// refresh paths.
    pub key_exchange_only: bool,
    /// The five addresses of this channel end.
    pub addresses: Addresses,
    /// The send-direction cipher state; exclusively owned, never shared.
    pub encryptor: Encryptor,
    /// The local identity, whose change history accompanies refreshes.
    pub my_identifier: Identifier,
    /// Whether a credential retriever is configured.
    pub has_credential_retriever: bool,
    /// The credential last presented to the peer, if any.
    pub last_presented_credential: Option<Credential>,
    /// Set on shutdown or on the first cipher failure; a stopped worker
    /// serves nothing.
    pub stopped: bool,
}

impl EncryptorWorker {
    /// A new worker for an established channel.
    pub fn new(
        role: Role,
        key_exchange_only: bool,
        addresses: Addresses,
        encryptor: Encryptor,
        my_identifier: Identifier,
        has_credential_retriever: bool,
        last_presented_credential: Option<Credential>,
    ) -> (r: EncryptorWorker)
        ensures
            r == (EncryptorWorker {
                role,
                key_exchange_only,
                addresses,
                encryptor,
                my_identifier,
                has_credential_retriever,
                last_presented_credential,
                stopped: false,
            }),
    {
        EncryptorWorker {
            role,
            key_exchange_only,
            addresses,
            encryptor,
            my_identifier,
            has_credential_retriever,
            last_presented_credential,
            stopped: false,
        }
    }

    /// On start the worker subscribes for credential-refresh
    /// notifications: the runtime must register the returned address with
    /// the credential retriever.
    pub fn initialize(&self) -> (r: Option<Address>)
        ensures
            r == if self.has_credential_retriever {
                Some(self.addresses.encryptor_internal)
            } else {
                None::<Address>
            },
    {
        if self.has_credential_retriever {
            Some(self.addresses.encryptor_internal)
        } else {
            None
        }
    }

    /// Wrap an envelope with the reserved padding field.  The padding is
    /// currently always empty; the field stays in the wire format for
    /// forward compatibility.
    pub fn add_padding(msg: SecureChannelMessage) -> (r: SecureChannelPaddedMessage)
        ensures
            r@ == (SpecPaddedMessage { message: msg@, padding: Seq::<u8>::empty() }),
    {
        SecureChannelPaddedMessage { message: msg, padding: Vec::new() }
    }

    /// Serialize and encrypt one envelope under the next nonce.  Any
    /// cipher failure poisons the cipher state and stops the worker, and
    /// the error says which failure it was.
    pub fn encrypt(&mut self, msg: &SecureChannelPaddedMessage) -> (r: Result<
        Vec<u8>,
        ChannelError,
    >)
        ensures
            same_worker_config(*old(self), *final(self)),
            final(self).last_presented_credential == old(self).last_presented_credential,
            r is Ok <==> !encrypt_fails(old(self).encryptor),
            r matches Ok(ct) ==> {
                &&& ct@ == spec_encrypt(
                    old(self).encryptor.key,
                    old(self).encryptor.nonce,
                    spec_encode_message(msg@),
                )
                &&& encrypt_step(old(self).encryptor, final(self).encryptor, old(self).encryptor.nonce)
                &&& final(self).stopped == old(self).stopped
            },
            r is Err ==> {
                &&& final(self).encryptor == (Encryptor { poisoned: true, ..old(self).encryptor })
                &&& final(self).stopped
            },
            old(self).encryptor.poisoned ==> r == Err::<Vec<u8>, ChannelError>(
                ChannelError::Cipher(CipherError::Internal),
            ),
            !old(self).encryptor.poisoned && old(self).encryptor.nonce
                >= old(self).encryptor.nonce_limit ==> r == Err::<Vec<u8>, ChannelError>(
                ChannelError::Cipher(CipherError::Exhausted),
            ),
    {
        let encoded = encode_message(msg);
        let mut buffer: Vec<u8> = Vec::new();
        let mut i: usize = 0;
        while i < NONCE_LEN
            invariant
                0 <= i <= NONCE_LEN,
                buffer@.len() == i,
            decreases NONCE_LEN - i,
        {
            buffer.push(0);
            i += 1;
        }
        let mut j: usize = 0;
        while j < encoded.len()
            invariant
                0 <= j <= encoded@.len(),
                buffer@.len() == NONCE_LEN + j,
                buffer@.subrange(NONCE_LEN as int, buffer@.len() as int) =~= encoded@.take(
                    j as int,
                ),
            decreases encoded@.len() - j,
        {
            buffer.push(encoded[j]);
            proof {
                assert(buffer@.subrange(NONCE_LEN as int, buffer@.len() as int) =~= encoded@.take(
                    j + 1,
                ));
            }
            j += 1;
        }
        let mid = buffer.len();
        let mut t: usize = 0;
        while t < TAG_LEN
            invariant
                0 <= t <= TAG_LEN,
                mid == NONCE_LEN + encoded@.len(),
                buffer@.len() == mid + t,
                buffer@.subrange(NONCE_LEN as int, mid as int) =~= encoded@,
            decreases TAG_LEN - t,
        {
            buffer.push(0);
            t += 1;
        }
        proof {
            assert(encoded@.take(encoded@.len() as int) =~= encoded@);
            assert(buffer@.subrange(NONCE_LEN as int, buffer@.len() - TAG_LEN) =~= encoded@);
        }
        match self.encryptor.encrypt(&mut buffer) {
            Ok(()) => Ok(buffer),
            Err(err) => {
                // A cipher failure may leave the state invalid: stop the
                // worker rather than run a partial channel.
                self.stopped = true;
                Err(ChannelError::Cipher(err))
            },
        }
    }

    /// Relay one plaintext application message: strip this worker's own
    /// hop from the onward route, wrap the message as a payload envelope,
    /// pad and encrypt it, and address the ciphertext to the current
    /// remote route.  The returned message is what the runtime forwards.
    pub fn handle_encrypt(
        &mut self,
        state: &mut SecureChannelSharedState,
        msg: LocalMessage,
    ) -> (r: Result<LocalMessage, ChannelError>)
        ensures
            same_worker_config(*old(self), *final(self)),
            final(self).last_presented_credential == old(self).last_presented_credential,
            final(state)@ == old(state)@,
            old(self).stopped ==> r == Err::<LocalMessage, ChannelError>(
                ChannelError::WorkerStopped,
            ) && *final(self) == *old(self),
            !old(self).stopped ==> {
                &&& (r is Ok <==> !encrypt_fails(old(self).encryptor))
                &&& r matches Ok(out) ==> {
                    &&& spec_ciphertext_out(
                        old(self).encryptor,
                        spec_payload_envelope(msg@),
                        old(state)@.remote_route,
                        out@,
                    )
                    &&& encrypt_step(
                        old(self).encryptor,
                        final(self).encryptor,
                        old(self).encryptor.nonce,
                    )
                    &&& !final(self).stopped
                }
                &&& r matches Err(e) ==> e == ChannelError::Cipher(
                    if old(self).encryptor.poisoned {
                        CipherError::Internal
                    } else {
                        CipherError::Exhausted
                    },
                ) && final(self).stopped
            },
    {
        if self.stopped {
            return Err(ChannelError::WorkerStopped);
        }
        let LocalMessage { onward_route, return_route, payload } = msg;
        let mut onward_route = onward_route;
        // Remove this worker's own hop from the onward route.
        let _ = onward_route.step();
        let envelope = SecureChannelMessage::Payload(
            PlaintextPayloadMessage { onward_route, return_route, payload },
        );
        let padded = Self::add_padding(envelope);
        let ciphertext = self.encrypt(&padded)?;
        // The decryptor on the other side holds its own return route, so
        // none is attached here.
        Ok(
            LocalMessage {
                onward_route: state.remote_route.route.duplicate(),
                return_route: Route::new(),
                payload: ciphertext,
            },
        )
    }

    /// Serve one encrypt-API request: encrypt the raw request bytes in a
    /// nonce- and tag-framed buffer and reply to the caller's return
    /// route, as coming from the API address.  If encryption fails the
    /// error is put in the reply first — the caller must not be left
    /// waiting — and the worker stops.
    pub fn handle_encrypt_api(&mut self, msg: LocalMessage) -> (r: Result<ApiReply, ChannelError>)
        ensures
            same_worker_config(*old(self), *final(self)),
            final(self).last_presented_credential == old(self).last_presented_credential,
            old(self).stopped ==> r == Err::<ApiReply, ChannelError>(ChannelError::WorkerStopped)
                && *final(self) == *old(self),
            !old(self).stopped ==> (r matches Ok(reply) && reply.to@ == msg@.return_route
                && reply.from == old(self).addresses.encryptor_api && {
                if !encrypt_fails(old(self).encryptor) {
                    &&& (reply.response matches EncryptionResponse::Encrypted(ct) && ct@
                        == spec_encrypt(
                        old(self).encryptor.key,
                        old(self).encryptor.nonce,
                        msg@.payload,
                    ))
                    &&& encrypt_step(
                        old(self).encryptor,
                        final(self).encryptor,
                        old(self).encryptor.nonce,
                    )
                    &&& !final(self).stopped
                } else {
                    &&& reply.response matches EncryptionResponse::Failed(e) && e
                        == ChannelError::Cipher(
                        if old(self).encryptor.poisoned {
                            CipherError::Internal
                        } else {
                            CipherError::Exhausted
                        },
                    )
                    &&& final(self).stopped
                    &&& final(self).encryptor == (Encryptor {
                        poisoned: true,
                        ..old(self).encryptor
                    })
                }
            }),
    {
        if self.stopped {
            return Err(ChannelError::WorkerStopped);
        }
        let LocalMessage { onward_route: _, return_route, payload } = msg;
        let mut buffer: Vec<u8> = Vec::new();
        let mut i: usize = 0;
        while i < NONCE_LEN
            invariant
                0 <= i <= NONCE_LEN,
                buffer@.len() == i,
            decreases NONCE_LEN - i,
        {
            buffer.push(0);
            i += 1;
        }
        let mut j: usize = 0;
        while j < payload.len()
            invariant
                0 <= j <= payload@.len(),
                buffer@.len() == NONCE_LEN + j,
                buffer@.subrange(NONCE_LEN as int, buffer@.len() as int) =~= payload@.take(
                    j as int,
                ),
            decreases payload@.len() - j,
        {
            buffer.push(payload[j]);
            proof {
                assert(buffer@.subrange(NONCE_LEN as int, buffer@.len() as int) =~= payload@.take(
                    j + 1,
                ));
            }
            j += 1;
        }
        let mid = buffer.len();
        let mut t: usize = 0;
        while t < TAG_LEN
            invariant
                0 <= t <= TAG_LEN,
                mid == NONCE_LEN + payload@.len(),
                buffer@.len() == mid + t,
                buffer@.subrange(NONCE_LEN as int, mid as int) =~= payload@,
            decreases TAG_LEN - t,
        {
            buffer.push(0);
            t += 1;
        }
        proof {
            assert(payload@.take(payload@.len() as int) =~= payload@);
            assert(buffer@.subrange(NONCE_LEN as int, buffer@.len() - TAG_LEN) =~= payload@);
        }
        let response = match self.encryptor.encrypt(&mut buffer) {
            Ok(()) => EncryptionResponse::Encrypted(buffer),
            Err(err) => {
                // Reply with the error first, then stop: the caller is
                // answered before the worker goes away.
                self.stopped = true;
                EncryptionResponse::Failed(ChannelError::Cipher(err))
            },
        };
        Ok(ApiReply { to: return_route, from: self.addresses.encryptor_api, response })
    }

    /// Present a refreshed credential to the peer.  The runtime hands in
    /// the credential it retrieved and the local change history it looked
    /// up.  An unchanged credential is a no-op — no redundant refresh
    /// traffic.  `Ok(Some(..))` carries the ciphertext message to send.
    pub fn handle_refresh_credentials(
        &mut self,
        state: &mut SecureChannelSharedState,
        credential: Credential,
        change_history: Option<ChangeHistory>,
    ) -> (r: Result<Option<LocalMessage>, ChannelError>)
        ensures
            same_worker_config(*old(self), *final(self)),
            final(state)@ == old(state)@,
            ({
                let sent = r matches Ok(out) && out is Some;
                r is Ok ==> refresh_step(*old(self), *final(self), credential, sent)
            }),
            old(self).stopped ==> r == Err::<Option<LocalMessage>, ChannelError>(
                ChannelError::WorkerStopped,
            ) && *final(self) == *old(self),
            !old(self).stopped && !old(self).has_credential_retriever ==> r == Err::<
                Option<LocalMessage>,
                ChannelError,
            >(ChannelError::NoCredentialRetriever) && *final(self) == *old(self),
            !old(self).stopped && old(self).has_credential_retriever && old(
                self,
            ).last_presented_credential == Some(credential) ==> r == Ok::<
                Option<LocalMessage>,
                ChannelError,
            >(None) && *final(self) == *old(self),
            !old(self).stopped && old(self).has_credential_retriever && old(
                self,
            ).last_presented_credential != Some(credential) ==> {
                &&& change_history is None ==> r == Err::<Option<LocalMessage>, ChannelError>(
                    ChannelError::NoChangeHistory,
                ) && *final(self) == *old(self)
                &&& change_history matches Some(ch) ==> {
                    &&& (r is Ok <==> !encrypt_fails(old(self).encryptor))
                    &&& r matches Ok(out) ==> out matches Some(m) && spec_ciphertext_out(
                        old(self).encryptor,
                        spec_refresh_envelope(ch, credential),
                        old(state)@.remote_route,
                        m@,
                    ) && encrypt_step(
                        old(self).encryptor,
                        final(self).encryptor,
                        old(self).encryptor.nonce,
                    ) && final(self).last_presented_credential == Some(credential)
                        && !final(self).stopped
                    &&& r matches Err(e) ==> e == ChannelError::Cipher(
                        if old(self).encryptor.poisoned {
                            CipherError::Internal
                        } else {
                            CipherError::Exhausted
                        },
                    ) && final(self).stopped && final(self).last_presented_credential == old(
                        self,
                    ).last_presented_credential
                }
            },
    {
        if self.stopped {
            return Err(ChannelError::WorkerStopped);
        }
        if !self.has_credential_retriever {
            return Err(ChannelError::NoCredentialRetriever);
        }
        match self.last_presented_credential {
            Some(last) if last.value == credential.value => {
                // The credential has not actually changed: avoid
                // redundant refresh traffic.
                return Ok(None);
            },
            _ => {},
        }
        let ch = match change_history {
            Some(ch) => ch,
            None => {
                return Err(ChannelError::NoChangeHistory);
            },
        };
        let mut credentials: Vec<Credential> = Vec::new();
        credentials.push(credential);
        let envelope = SecureChannelMessage::RefreshCredentials(
            RefreshCredentialsMessage { change_history: ch, credentials },
        );
        let padded = Self::add_padding(envelope);
        let ciphertext = self.encrypt(&padded)?;
        let out = LocalMessage {
            onward_route: state.remote_route.route.duplicate(),
            return_route: Route::new(),
            payload: ciphertext,
        };
        self.last_presented_credential = Some(credential);
        Ok(Some(out))
    }

    /// Encrypt and address a close notification to the peer.
    pub fn send_close_channel(&mut self, state: &mut SecureChannelSharedState) -> (r: Result<
        LocalMessage,
        ChannelError,
    >)
        ensures
            same_worker_config(*old(self), *final(self)),
            final(self).last_presented_credential == old(self).last_presented_credential,
            final(state)@ == old(state)@,
            old(self).stopped ==> r == Err::<LocalMessage, ChannelError>(
                ChannelError::WorkerStopped,
            ) && *final(self) == *old(self),
            !old(self).stopped ==> {
                &&& (r is Ok <==> !encrypt_fails(old(self).encryptor))
                &&& r matches Ok(out) ==> spec_ciphertext_out(
                    old(self).encryptor,
                    spec_close_envelope(),
                    old(state)@.remote_route,
                    out@,
                ) && encrypt_step(
                    old(self).encryptor,
                    final(self).encryptor,
                    old(self).encryptor.nonce,
                ) && !final(self).stopped
                &&& r is Err ==> final(self).stopped
            },
    {
        if self.stopped {
            return Err(ChannelError::WorkerStopped);
        }
        let padded = Self::add_padding(SecureChannelMessage::Close);
        let ciphertext = self.encrypt(&padded)?;
        Ok(
            LocalMessage {
                onward_route: state.remote_route.route.duplicate(),
                return_route: Route::new(),
                payload: ciphertext,
            },
        )
    }

    /// Dispatch one inbound message by the address it arrived at.  In
    /// key-exchange-only mode only the API address is served; any other
    /// destination is unknown and fatal to that message.
    pub fn handle_message(
        &mut self,
        state: &mut SecureChannelSharedState,
        msg_addr: Address,
        msg: LocalMessage,
    ) -> (r: Result<EncryptorAction, ChannelError>)
        requires
            old(self).addresses.wf(),
        ensures
            same_worker_config(*old(self), *final(self)),
            final(state)@ == old(state)@,
            old(self).stopped ==> r == Err::<EncryptorAction, ChannelError>(
                ChannelError::WorkerStopped,
            ) && *final(self) == *old(self),
            !old(self).stopped && old(self).key_exchange_only && msg_addr != old(
                self,
            ).addresses.encryptor_api ==> r == Err::<EncryptorAction, ChannelError>(
                ChannelError::UnknownChannelMsgDestination,
            ) && *final(self) == *old(self),
            !old(self).stopped && !old(self).key_exchange_only && msg_addr != old(
                self,
            ).addresses.encryptor && msg_addr != old(self).addresses.encryptor_api && msg_addr
                != old(self).addresses.encryptor_internal ==> r == Err::<
                EncryptorAction,
                ChannelError,
            >(ChannelError::UnknownChannelMsgDestination) && *final(self) == *old(self),
            !old(self).stopped && !old(self).key_exchange_only && msg_addr == old(
                self,
            ).addresses.encryptor ==> {
                &&& (r is Ok <==> !encrypt_fails(old(self).encryptor))
                &&& r matches Ok(a) ==> a matches EncryptorAction::Forwarded(out)
                    && spec_ciphertext_out(
                    old(self).encryptor,
                    spec_payload_envelope(msg@),
                    old(state)@.remote_route,
                    out@,
                ) && encrypt_step(
                    old(self).encryptor,
                    final(self).encryptor,
                    old(self).encryptor.nonce,
                ) && !final(self).stopped
                &&& r is Err ==> final(self).stopped
            },
            !old(self).stopped && msg_addr == old(self).addresses.encryptor_api ==> (r matches Ok(
                a,
            ) && a matches EncryptorAction::Replied(reply) && reply.to@ == msg@.return_route
                && reply.from == old(self).addresses.encryptor_api && (reply.response matches
            EncryptionResponse::Encrypted(ct) ==> ct@ == spec_encrypt(
                old(self).encryptor.key,
                old(self).encryptor.nonce,
                msg@.payload,
            )) && (encrypt_fails(old(self).encryptor) <==> reply.response is Failed) && (
            reply.response is Failed ==> final(self).stopped) && (reply.response is Encrypted
                ==> !final(self).stopped)),
            !old(self).stopped && !old(self).key_exchange_only && msg_addr == old(
                self,
            ).addresses.encryptor_internal ==> r == Ok::<EncryptorAction, ChannelError>(
                EncryptorAction::RefreshRequested,
            ) && *final(self) == *old(self),
    {
        if self.stopped {
            return Err(ChannelError::WorkerStopped);
        }
        if self.key_exchange_only {
            if msg_addr.value == self.addresses.encryptor_api.value {
                let reply = self.handle_encrypt_api(msg)?;
                Ok(EncryptorAction::Replied(reply))
            } else {
                Err(ChannelError::UnknownChannelMsgDestination)
            }
        } else if msg_addr.value == self.addresses.encryptor.value {
            let out = self.handle_encrypt(state, msg)?;
            Ok(EncryptorAction::Forwarded(out))
        } else if msg_addr.value == self.addresses.encryptor_api.value {
            let reply = self.handle_encrypt_api(msg)?;
            Ok(EncryptorAction::Replied(reply))
        } else if msg_addr.value == self.addresses.encryptor_internal.value {
            Ok(EncryptorAction::RefreshRequested)
        } else {
            Err(ChannelError::UnknownChannelMsgDestination)
        }
    }

    /// Shut the worker down: unsubscribe from refresh notifications,
    /// request a stop of the paired decryptor, send a close notification
    /// to the peer only when the peer has not already announced the close
    /// — preventing a close echo loop — and release the key material.
    pub fn shutdown(&mut self, state: &mut SecureChannelSharedState) -> (r: ShutdownActions)
        ensures
            same_worker_config(*old(self), *final(self)),
            final(state)@ == old(state)@,
            final(self).stopped,
            final(self).encryptor.poisoned,
            final(self).encryptor.key == 0,
            r.unsubscribe == if old(self).has_credential_retriever {
                Some(old(self).addresses.encryptor_internal)
            } else {
                None::<Address>
            },
            r.stop_decryptor_internal == old(self).addresses.decryptor_internal,
            r.close_message is Some ==> close_emission_allowed(old(state)@),
            r.close_message matches Some(m) ==> !old(self).stopped && spec_ciphertext_out(
                old(self).encryptor,
                spec_close_envelope(),
                old(state)@.remote_route,
                m@,
            ),
            close_emission_allowed(old(state)@) && !old(self).stopped && !encrypt_fails(
                old(self).encryptor,
            ) ==> r.close_message is Some,
    {
        let unsubscribe = self.initialize();
        let close_message = if !state.should_send_close {
            // This side originated the close: tell the peer, best-effort.
            match self.send_close_channel(state) {
                Ok(m) => Some(m),
                Err(_) => None,
            }
        } else {
            // The peer already announced the close; do not echo it back.
            None
        };
        self.stopped = true;
        // Release the key material before the worker goes away.
        self.encryptor.shutdown();
        ShutdownActions {
            unsubscribe,
            stop_decryptor_internal: self.addresses.decryptor_internal,
            close_message,
        }
    }
}

} // verus!
