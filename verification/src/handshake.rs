//! The three-message mutual-authentication key exchange.
//!
//! The pattern is initiator → responder → initiator: the first message
//! carries the initiator's ephemeral public key, the second the
//! responder's ephemeral public key and identity proof, the third the
//! initiator's identity proof.  An identity proof is a signature over the
//! transcript of both ephemeral keys — never over a raw key — so a proof
//! cannot be replayed under another exchange (identity misbinding).
//!
//! The key-exchange arithmetic is a commutative keyed transform in the
//! 64-bit ring, a stand-in with the algebraic shape of a Diffie–Hellman
//! exchange: [`lemma_handshake_key_agreement`] proves that both sides
//! derive the same shared secret, and [`lemma_sign_verifies`] that an
//! honestly produced identity proof verifies.
//!
//! An optional allow-list of peer identifiers is enforced fail-closed
//! after signature verification: a verified peer whose identifier is not
//! listed still aborts the handshake.

use vstd::prelude::*;

use crate::bitops::mix64;
use crate::bitops::spec_mix64;
use crate::cipher::Decryptor;
use crate::cipher::Encryptor;
use crate::messages::ChangeHistory;
use crate::messages::Credential;
use crate::messages::Identifier;

use vstd::arithmetic::div_mod::lemma_mul_mod_noop_general;
use vstd::arithmetic::mul::lemma_mul_is_associative;
use vstd::arithmetic::mul::lemma_mul_is_commutative;

verus! {

/// Generator of the key-exchange transform; an odd 64-bit constant.
pub const GENERATOR: u64 = 0x2545f4914f6cdd1d;

/// Domain separation constant of the transcript hash.
pub const TRANSCRIPT_SALT: u64 = 0x7472616e73637269;

/// Derivation label of the initiator-to-responder key.
pub const KEY_DIR_I2R: u64 = 1;

/// Derivation label of the responder-to-initiator key.
pub const KEY_DIR_R2I: u64 = 2;

/// Product in the 64-bit ring.
pub open spec fn spec_wmul(a: u64, b: u64) -> u64 {
    vstd::wrapping::u64_specs::wrapping_mul(a, b)
}

/// The public key of an ephemeral or signing secret.
pub open spec fn spec_public_key_of(secret: u64) -> u64 {
    spec_wmul(GENERATOR, secret)
}

/// The shared secret one side derives from its own secret and the peer's
/// public key.
pub open spec fn spec_dh_shared(secret: u64, peer_public: u64) -> u64 {
    spec_wmul(secret, peer_public)
}

/// The transcript hash over the two ephemeral public keys, initiator's
/// first.
pub open spec fn spec_transcript(e1: u64, e2: u64) -> u64 {
    spec_mix64(spec_mix64(e1 ^ TRANSCRIPT_SALT) ^ e2)
}

/// The identity proof of `secret` over transcript `t`.
pub open spec fn spec_sign(secret: u64, t: u64) -> u64 {
    spec_wmul(secret, spec_mix64(t))
}

/// Whether `sig` is a valid identity proof of the holder of `public` over
/// transcript `t`.
pub open spec fn spec_verify_sig(public: u64, t: u64, sig: u64) -> bool {
    spec_wmul(GENERATOR, sig) == spec_wmul(public, spec_mix64(t))
}

/// The directional symmetric key derived from a shared secret.
pub open spec fn spec_key_for(shared: u64, direction: u64) -> u64 {
    spec_mix64(shared ^ direction)
}

/// Whether `id` passes the allow-list: an empty list admits every peer, a
/// non-empty list only its members.
pub open spec fn spec_allowed(list: Seq<Identifier>, id: Identifier) -> bool {
    list.len() == 0 || list.contains(id)
}

/// Products in the 64-bit ring can be reassociated and reordered.
proof fn lemma_wmul_shuffle(a: u64, b: u64, c: u64)
    ensures
        spec_wmul(a, spec_wmul(b, c)) == spec_wmul(b, spec_wmul(a, c)),
{
    let m = 0x1_0000_0000_0000_0000int;
    lemma_mul_mod_noop_general(a as int, (b as int) * (c as int), m);
    lemma_mul_mod_noop_general(b as int, (a as int) * (c as int), m);
    lemma_mul_is_associative(a as int, b as int, c as int);
    lemma_mul_is_associative(b as int, a as int, c as int);
    lemma_mul_is_commutative(a as int, b as int);
}

/// Products in the 64-bit ring can be reassociated.
proof fn lemma_wmul_assoc(a: u64, b: u64, c: u64)
    ensures
        spec_wmul(a, spec_wmul(b, c)) == spec_wmul(spec_wmul(a, b), c),
{
    let m = 0x1_0000_0000_0000_0000int;
    lemma_mul_mod_noop_general(a as int, (b as int) * (c as int), m);
    lemma_mul_mod_noop_general((a as int) * (b as int), c as int, m);
    lemma_mul_is_associative(a as int, b as int, c as int);
}

/// Key agreement: both sides of an exchange derive the same shared
/// secret from their own secret and the peer's public key.
pub proof fn lemma_handshake_key_agreement(a_secret: u64, b_secret: u64)
    ensures
        spec_dh_shared(a_secret, spec_public_key_of(b_secret)) == spec_dh_shared(
            b_secret,
            spec_public_key_of(a_secret),
        ),
{
    lemma_wmul_shuffle(a_secret, GENERATOR, b_secret);
    lemma_wmul_shuffle(b_secret, GENERATOR, a_secret);
    assert(spec_wmul(a_secret, b_secret) == spec_wmul(b_secret, a_secret)) by {
        lemma_mul_is_commutative(a_secret as int, b_secret as int);
    }
}

/// Both sides of an exchange derive the same directional key for each
/// direction, so the initiator's send key is the responder's receive key
/// and vice versa.
pub proof fn lemma_directional_keys_agree(a_secret: u64, b_secret: u64, direction: u64)
    ensures
        spec_key_for(spec_dh_shared(a_secret, spec_public_key_of(b_secret)), direction)
            == spec_key_for(spec_dh_shared(b_secret, spec_public_key_of(a_secret)), direction),
{
    lemma_handshake_key_agreement(a_secret, b_secret);
}

/// An honestly produced identity proof verifies against the signer's
/// public key.
pub proof fn lemma_sign_verifies(secret: u64, t: u64)
    ensures
        spec_verify_sig(spec_public_key_of(secret), t, spec_sign(secret, t)),
{
    lemma_wmul_assoc(GENERATOR, secret, spec_mix64(t));
}

/// Executable product in the 64-bit ring.
fn wmul(a: u64, b: u64) -> (r: u64)
    ensures
        r == spec_wmul(a, b),
{
    a.wrapping_mul(b)
}

/// Executable transcript hash.
fn transcript(e1: u64, e2: u64) -> (r: u64)
    ensures
        r == spec_transcript(e1, e2),
{
    mix64(mix64(e1 ^ TRANSCRIPT_SALT) ^ e2)
}

/// Whether `list` holds `id`.
fn id_list_contains(list: &Vec<Identifier>, id: Identifier) -> (r: bool)
    ensures
        r == list@.contains(id),
{
    let mut i: usize = 0;
    while i < list.len()
        invariant
            0 <= i <= list@.len(),
            forall|k: int| 0 <= k < i ==> list@[k] != id,
        decreases list@.len() - i,
    {
        if list[i].value == id.value {
            return true;
        }
        i += 1;
    }
    false
}

/// An identical copy of a credential list.
pub fn duplicate_credentials(creds: &Vec<Credential>) -> (r: Vec<Credential>)
    ensures
        r@ == creds@,
{
    let mut out: Vec<Credential> = Vec::new();
    let mut i: usize = 0;
    while i < creds.len()
        invariant
            0 <= i <= creds@.len(),
            out@ == creds@.take(i as int),
        decreases creds@.len() - i,
    {
        out.push(creds[i]);
        proof {
            assert(out@ =~= creds@.take(i + 1));
        }
        i += 1;
    }
    proof {
        assert(creds@.take(creds@.len() as int) =~= creds@);
    }
    out
}

/// Which side of the exchange a handshake drives.
#[derive(Clone, Copy, Debug, PartialEq, Eq, Structural)]
pub enum Role {
    /// The side that sends the first message.
    Initiator,
    /// The side that answers it.
    Responder,
}

/// Where a handshake stands.
#[derive(Clone, Copy, Debug, PartialEq, Eq, Structural)]
pub enum HandshakeStatus {
    /// Created as initiator; nothing sent yet.
    Initial,
    /// Initiator: first message sent, waiting for the responder.
    SentMessage1,
    /// Responder: created, waiting for the first message.
    AwaitingMessage1,
    /// Responder: second message sent, waiting for the initiator's proof.
    SentMessage2,
    /// Both proofs verified; keys may be derived.
    Completed,
    /// Terminal failure; the handshake can never complete.
    Aborted,
}

/// Why a handshake failed.
#[derive(Clone, Copy, Debug, PartialEq, Eq, Structural)]
pub enum HandshakeError {
    /// The operation does not fit the current state or role.
    InvalidState,
    /// The peer's change history does not belong to the identifier it
    /// claims.
    IdentityMismatch,
    /// The peer's identity proof did not verify.
    InvalidSignature,
    /// The peer verified cryptographically but its identifier is not on
    /// the allow-list; fail-closed.
    UnauthorizedIdentifier,
}

/// The first handshake message: the initiator's ephemeral public key.
#[derive(Clone, Copy, Debug, PartialEq, Eq, Structural)]
pub struct Message1 {
    /// The initiator's ephemeral public key.
    pub ephemeral_public: u64,
}

/// The second handshake message: the responder's ephemeral public key and
/// identity proof.
pub struct Message2 {
    /// The responder's ephemeral public key.
    pub ephemeral_public: u64,
    /// The identifier the responder claims.
    pub identifier: Identifier,
    /// The responder's change history, ending in its signing public key.
    pub change_history: ChangeHistory,
    /// Signature over the transcript of both ephemeral keys.
    pub signature: u64,
    /// The credentials the responder presents.
    pub credentials: Vec<Credential>,
}

/// The third handshake message: the initiator's identity proof.
pub struct Message3 {
    /// The identifier the initiator claims.
    pub identifier: Identifier,
    /// The initiator's change history, ending in its signing public key.
    pub change_history: ChangeHistory,
    /// Signature over the transcript of both ephemeral keys.
    pub signature: u64,
    /// The credentials the initiator presents.
    pub credentials: Vec<Credential>,
}

/// What a completed handshake yields: the two directional cipher states,
/// and the verified identity and credentials of the peer.
pub struct ChannelKeys {
    /// Send-direction cipher state.
    pub encryptor: Encryptor,
    /// Receive-direction cipher state.
    pub decryptor: Decryptor,
    /// The verified identifier of the peer.
    pub their_identifier: Identifier,
    /// The credentials the peer presented.
    pub their_credentials: Vec<Credential>,
}

/// The handshake state machine of one side of the exchange.
pub struct Handshake {
    /// Which side this state machine drives.
    pub role: Role,
    /// Where the handshake stands.
    pub status: HandshakeStatus,
    /// The local identifier.
    pub my_identifier: Identifier,
    /// The local change history, ending in the local signing public key.
    pub my_change_history: ChangeHistory,
    /// The local long-term signing secret.
    pub signing_secret: u64,
    /// The local ephemeral secret of this exchange.
    pub ephemeral_secret: u64,
    /// The credentials to present to the peer.
    pub credentials: Vec<Credential>,
    /// Allow-list of acceptable peer identifiers; empty admits any.
    pub authorized_identifiers: Vec<Identifier>,
    /// The peer's ephemeral public key, once received.
    pub their_ephemeral: u64,
    /// The peer's verified identifier, once its proof verified.
    pub their_identifier: Option<Identifier>,
    /// The credentials the peer presented.
    pub their_credentials: Vec<Credential>,
}

/// The configuration fields of a handshake are never rewritten by its
/// steps.
pub open spec fn same_config(pre: Handshake, post: Handshake) -> bool {
    &&& post.role == pre.role
    &&& post.my_identifier == pre.my_identifier
    &&& post.my_change_history == pre.my_change_history
    &&& post.signing_secret == pre.signing_secret
    &&& post.ephemeral_secret == pre.ephemeral_secret
    &&& post.credentials@ == pre.credentials@
    &&& post.authorized_identifiers@ == pre.authorized_identifiers@
}

/// Whether a peer's claim passes the three checks of the exchange, in
/// their order: the change history belongs to the claimed identifier, the
/// proof verifies against the history's public key, and the identifier
/// passes the allow-list.
pub open spec fn spec_peer_accepted(
    list: Seq<Identifier>,
    id: Identifier,
    history: ChangeHistory,
    t: u64,
    sig: u64,
) -> bool {
    &&& history.subject == id
    &&& spec_verify_sig(history.public_key, t, sig)
    &&& spec_allowed(list, id)
}

impl Handshake {
    /// A new initiator-side handshake.  The local change history is
    /// derived from the signing secret, so the identity proof this side
    /// produces will verify.
    pub fn new_initiator(
        my_identifier: Identifier,
        signing_secret: u64,
        ephemeral_secret: u64,
        credentials: Vec<Credential>,
        authorized_identifiers: Vec<Identifier>,
    ) -> (r: Handshake)
        ensures
            r.role == Role::Initiator,
            r.status == HandshakeStatus::Initial,
            r.my_identifier == my_identifier,
            r.my_change_history == (ChangeHistory {
                subject: my_identifier,
                public_key: spec_public_key_of(signing_secret),
                generation: 0u64,
            }),
            r.signing_secret == signing_secret,
            r.ephemeral_secret == ephemeral_secret,
            r.credentials@ == credentials@,
            r.authorized_identifiers@ == authorized_identifiers@,
    {
        let public_key = wmul(GENERATOR, signing_secret);
        Handshake {
            role: Role::Initiator,
            status: HandshakeStatus::Initial,
            my_identifier,
            my_change_history: ChangeHistory { subject: my_identifier, public_key, generation: 0 },
            signing_secret,
            ephemeral_secret,
            credentials,
            authorized_identifiers,
            their_ephemeral: 0,
            their_identifier: None,
            their_credentials: Vec::new(),
        }
    }

    /// A new responder-side handshake.
    pub fn new_responder(
        my_identifier: Identifier,
        signing_secret: u64,
        ephemeral_secret: u64,
        credentials: Vec<Credential>,
        authorized_identifiers: Vec<Identifier>,
    ) -> (r: Handshake)
        ensures
            r.role == Role::Responder,
            r.status == HandshakeStatus::AwaitingMessage1,
            r.my_identifier == my_identifier,
            r.my_change_history == (ChangeHistory {
                subject: my_identifier,
                public_key: spec_public_key_of(signing_secret),
                generation: 0u64,
            }),
            r.signing_secret == signing_secret,
            r.ephemeral_secret == ephemeral_secret,
            r.credentials@ == credentials@,
            r.authorized_identifiers@ == authorized_identifiers@,
    {
        let public_key = wmul(GENERATOR, signing_secret);
        Handshake {
            role: Role::Responder,
            status: HandshakeStatus::AwaitingMessage1,
            my_identifier,
            my_change_history: ChangeHistory { subject: my_identifier, public_key, generation: 0 },
            signing_secret,
            ephemeral_secret,
            credentials,
            authorized_identifiers,
            their_ephemeral: 0,
            their_identifier: None,
            their_credentials: Vec::new(),
        }
    }

    /// Initiator: produce the first handshake message.  Fails, aborting
    /// the handshake, when called on the wrong role or state.
    pub fn initiate(&mut self) -> (r: Result<Message1, HandshakeError>)
        ensures
            same_config(*old(self), *final(self)),
            r is Ok <==> old(self).role == Role::Initiator && old(self).status
                == HandshakeStatus::Initial,
            r matches Ok(m1) ==> m1.ephemeral_public == spec_public_key_of(
                old(self).ephemeral_secret,
            ) && final(self).status == HandshakeStatus::SentMessage1,
            r is Err ==> r == Err::<Message1, HandshakeError>(HandshakeError::InvalidState)
                && final(self).status == HandshakeStatus::Aborted,
    {
        match (self.role, self.status) {
            (Role::Initiator, HandshakeStatus::Initial) => {
                self.status = HandshakeStatus::SentMessage1;
                Ok(Message1 { ephemeral_public: wmul(GENERATOR, self.ephemeral_secret) })
            },
            _ => {
                self.status = HandshakeStatus::Aborted;
                Err(HandshakeError::InvalidState)
            },
        }
    }

    /// Responder: consume the first message and produce the second, with
    /// this side's ephemeral public key, identity proof over the
    /// transcript, and credentials.
    pub fn respond(&mut self, m1: &Message1) -> (r: Result<Message2, HandshakeError>)
        ensures
            same_config(*old(self), *final(self)),
            r is Ok <==> old(self).role == Role::Responder && old(self).status
                == HandshakeStatus::AwaitingMessage1,
            r matches Ok(m2) ==> {
                &&& m2.ephemeral_public == spec_public_key_of(old(self).ephemeral_secret)
                &&& m2.identifier == old(self).my_identifier
                &&& m2.change_history == old(self).my_change_history
                &&& m2.signature == spec_sign(
                    old(self).signing_secret,
                    spec_transcript(
                        m1.ephemeral_public,
                        spec_public_key_of(old(self).ephemeral_secret),
                    ),
                )
                &&& m2.credentials@ == old(self).credentials@
                &&& final(self).status == HandshakeStatus::SentMessage2
                &&& final(self).their_ephemeral == m1.ephemeral_public
            },
            r is Err ==> r == Err::<Message2, HandshakeError>(HandshakeError::InvalidState)
                && final(self).status == HandshakeStatus::Aborted,
    {
        match (self.role, self.status) {
            (Role::Responder, HandshakeStatus::AwaitingMessage1) => {
                let my_ephemeral_public = wmul(GENERATOR, self.ephemeral_secret);
                let t = transcript(m1.ephemeral_public, my_ephemeral_public);
                self.their_ephemeral = m1.ephemeral_public;
                self.status = HandshakeStatus::SentMessage2;
                Ok(
                    Message2 {
                        ephemeral_public: my_ephemeral_public,
                        identifier: self.my_identifier,
                        change_history: self.my_change_history,
                        signature: wmul(self.signing_secret, mix64(t)),
                        credentials: duplicate_credentials(&self.credentials),
                    },
                )
            },
            _ => {
                self.status = HandshakeStatus::Aborted;
                Err(HandshakeError::InvalidState)
            },
        }
    }

    /// Initiator: verify the responder's identity proof and allow-list
    /// membership, and produce the third message.  Any failed check
    /// aborts the handshake; the allow-list is enforced even though the
    /// signature already verified.
    pub fn process_message2(&mut self, m2: &Message2) -> (r: Result<Message3, HandshakeError>)
        ensures
            same_config(*old(self), *final(self)),
            ({
                let t = spec_transcript(
                    spec_public_key_of(old(self).ephemeral_secret),
                    m2.ephemeral_public,
                );
                let in_state = old(self).role == Role::Initiator && old(self).status
                    == HandshakeStatus::SentMessage1;
                &&& (r is Ok <==> in_state && spec_peer_accepted(
                    old(self).authorized_identifiers@,
                    m2.identifier,
                    m2.change_history,
                    t,
                    m2.signature,
                ))
                &&& !in_state ==> r == Err::<Message3, HandshakeError>(
                    HandshakeError::InvalidState,
                )
                &&& in_state && m2.change_history.subject != m2.identifier ==> r == Err::<
                    Message3,
                    HandshakeError,
                >(HandshakeError::IdentityMismatch)
                &&& in_state && m2.change_history.subject == m2.identifier && !spec_verify_sig(
                    m2.change_history.public_key,
                    t,
                    m2.signature,
                ) ==> r == Err::<Message3, HandshakeError>(HandshakeError::InvalidSignature)
                &&& in_state && m2.change_history.subject == m2.identifier && spec_verify_sig(
                    m2.change_history.public_key,
                    t,
                    m2.signature,
                ) && !spec_allowed(old(self).authorized_identifiers@, m2.identifier) ==> r == Err::<
                    Message3,
                    HandshakeError,
                >(HandshakeError::UnauthorizedIdentifier)
                &&& r matches Ok(m3) ==> {
                    &&& m3.identifier == old(self).my_identifier
                    &&& m3.change_history == old(self).my_change_history
                    &&& m3.signature == spec_sign(old(self).signing_secret, t)
                    &&& m3.credentials@ == old(self).credentials@
                    &&& final(self).status == HandshakeStatus::Completed
                    &&& final(self).their_ephemeral == m2.ephemeral_public
                    &&& final(self).their_identifier == Some(m2.identifier)
                    &&& final(self).their_credentials@ == m2.credentials@
                }
                &&& r is Err ==> final(self).status == HandshakeStatus::Aborted
            }),
    {
        match (self.role, self.status) {
            (Role::Initiator, HandshakeStatus::SentMessage1) => {
                let my_ephemeral_public = wmul(GENERATOR, self.ephemeral_secret);
                let t = transcript(my_ephemeral_public, m2.ephemeral_public);
                if m2.change_history.subject.value != m2.identifier.value {
                    self.status = HandshakeStatus::Aborted;
                    return Err(HandshakeError::IdentityMismatch);
                }
                if wmul(GENERATOR, m2.signature) != wmul(m2.change_history.public_key, mix64(t)) {
                    self.status = HandshakeStatus::Aborted;
                    return Err(HandshakeError::InvalidSignature);
                }
                if self.authorized_identifiers.len() > 0 && !id_list_contains(
                    &self.authorized_identifiers,
                    m2.identifier,
                ) {
                    self.status = HandshakeStatus::Aborted;
                    return Err(HandshakeError::UnauthorizedIdentifier);
                }
                self.their_ephemeral = m2.ephemeral_public;
                self.their_identifier = Some(m2.identifier);
                self.their_credentials = duplicate_credentials(&m2.credentials);
                self.status = HandshakeStatus::Completed;
                Ok(
                    Message3 {
                        identifier: self.my_identifier,
                        change_history: self.my_change_history,
                        signature: wmul(self.signing_secret, mix64(t)),
                        credentials: duplicate_credentials(&self.credentials),
                    },
                )
            },
            _ => {
                self.status = HandshakeStatus::Aborted;
                Err(HandshakeError::InvalidState)
            },
        }
    }

    /// Responder: verify the initiator's identity proof and allow-list
    /// membership.  Any failed check aborts the handshake.
    pub fn process_message3(&mut self, m3: &Message3) -> (r: Result<(), HandshakeError>)
        ensures
            same_config(*old(self), *final(self)),
            final(self).their_ephemeral == old(self).their_ephemeral,
            ({
                let t = spec_transcript(
                    old(self).their_ephemeral,
                    spec_public_key_of(old(self).ephemeral_secret),
                );
                let in_state = old(self).role == Role::Responder && old(self).status
                    == HandshakeStatus::SentMessage2;
                &&& (r is Ok <==> in_state && spec_peer_accepted(
                    old(self).authorized_identifiers@,
                    m3.identifier,
                    m3.change_history,
                    t,
                    m3.signature,
                ))
                &&& !in_state ==> r == Err::<(), HandshakeError>(HandshakeError::InvalidState)
                &&& in_state && m3.change_history.subject != m3.identifier ==> r == Err::<
                    (),
                    HandshakeError,
                >(HandshakeError::IdentityMismatch)
                &&& in_state && m3.change_history.subject == m3.identifier && !spec_verify_sig(
                    m3.change_history.public_key,
                    t,
                    m3.signature,
                ) ==> r == Err::<(), HandshakeError>(HandshakeError::InvalidSignature)
                &&& in_state && m3.change_history.subject == m3.identifier && spec_verify_sig(
                    m3.change_history.public_key,
                    t,
                    m3.signature,
                ) && !spec_allowed(old(self).authorized_identifiers@, m3.identifier) ==> r == Err::<
                    (),
                    HandshakeError,
                >(HandshakeError::UnauthorizedIdentifier)
                &&& r is Ok ==> {
                    &&& final(self).status == HandshakeStatus::Completed
                    &&& final(self).their_identifier == Some(m3.identifier)
                    &&& final(self).their_credentials@ == m3.credentials@
                }
                &&& r is Err ==> final(self).status == HandshakeStatus::Aborted
            }),
    {
        match (self.role, self.status) {
            (Role::Responder, HandshakeStatus::SentMessage2) => {
                let my_ephemeral_public = wmul(GENERATOR, self.ephemeral_secret);
                let t = transcript(self.their_ephemeral, my_ephemeral_public);
                if m3.change_history.subject.value != m3.identifier.value {
                    self.status = HandshakeStatus::Aborted;
                    return Err(HandshakeError::IdentityMismatch);
                }
                if wmul(GENERATOR, m3.signature) != wmul(m3.change_history.public_key, mix64(t)) {
                    self.status = HandshakeStatus::Aborted;
                    return Err(HandshakeError::InvalidSignature);
                }
                if self.authorized_identifiers.len() > 0 && !id_list_contains(
                    &self.authorized_identifiers,
                    m3.identifier,
                ) {
                    self.status = HandshakeStatus::Aborted;
                    return Err(HandshakeError::UnauthorizedIdentifier);
                }
                self.their_identifier = Some(m3.identifier);
                self.their_credentials = duplicate_credentials(&m3.credentials);
                self.status = HandshakeStatus::Completed;
                Ok(())
            },
            _ => {
                self.status = HandshakeStatus::Aborted;
                Err(HandshakeError::InvalidState)
            },
        }
    }

    /// Derive the two directional cipher states of a completed handshake,
    /// together with the verified peer identifier and its credentials.
    /// The initiator sends under the initiator-to-responder key and
    /// receives under the other; the responder the reverse.
    pub fn finalize(&self, nonce_limit: u64) -> (r: Result<ChannelKeys, HandshakeError>)
        ensures
            r is Ok <==> self.status == HandshakeStatus::Completed && self.their_identifier
                is Some,
            r matches Ok(keys) ==> {
                let shared = spec_dh_shared(self.ephemeral_secret, self.their_ephemeral);
                let k_i2r = spec_key_for(shared, KEY_DIR_I2R);
                let k_r2i = spec_key_for(shared, KEY_DIR_R2I);
                &&& self.role == Role::Initiator ==> keys.encryptor == (Encryptor {
                    key: k_i2r,
                    nonce: 0u64,
                    nonce_limit,
                    poisoned: false,
                }) && keys.decryptor == (Decryptor {
                    key: k_r2i,
                    last_nonce: 0u64,
                    poisoned: false,
                })
                &&& self.role == Role::Responder ==> keys.encryptor == (Encryptor {
                    key: k_r2i,
                    nonce: 0u64,
                    nonce_limit,
                    poisoned: false,
                }) && keys.decryptor == (Decryptor {
                    key: k_i2r,
                    last_nonce: 0u64,
                    poisoned: false,
                })
                &&& Some(keys.their_identifier) == self.their_identifier
                &&& keys.their_credentials@ == self.their_credentials@
            },
            r is Err ==> r == Err::<ChannelKeys, HandshakeError>(HandshakeError::InvalidState),
    {
        match (self.status, self.their_identifier) {
            (HandshakeStatus::Completed, Some(their_identifier)) => {
                let shared = wmul(self.ephemeral_secret, self.their_ephemeral);
                let k_i2r = mix64(shared ^ KEY_DIR_I2R);
                let k_r2i = mix64(shared ^ KEY_DIR_R2I);
                let (enc_key, dec_key) = match self.role {
                    Role::Initiator => (k_i2r, k_r2i),
                    Role::Responder => (k_r2i, k_i2r),
                };
                Ok(
                    ChannelKeys {
                        encryptor: Encryptor::new(enc_key, nonce_limit),
                        decryptor: Decryptor::new(dec_key),
                        their_identifier,
                        their_credentials: duplicate_credentials(&self.their_credentials),
                    },
                )
            },
            _ => Err(HandshakeError::InvalidState),
        }
    }
}

} // verus!
