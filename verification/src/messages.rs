//! The data model of the channel: opaque handles (addresses, identifiers,
//! credentials), routes, the protocol envelope, and the error taxonomy.

use vstd::prelude::*;

use crate::cipher::CipherError;

verus! {

/// An opaque routable name: one logical endpoint of the routing substrate.
#[derive(Clone, Copy, Debug, PartialEq, Eq, Structural)]
pub struct Address {
    /// The substrate-assigned handle of this endpoint.
    pub value: u64,
}

/// An opaque unique identity handle of a channel participant.  The channel
/// core only compares identifiers for equality.
#[derive(Clone, Copy, Debug, PartialEq, Eq, Structural)]
pub struct Identifier {
    /// The handle assigned by the identity subsystem.
    pub value: u64,
}

/// An externally issued attestation.  The channel core only compares
/// credentials for equality (has it changed since last presented) and
/// forwards them; it never interprets their contents.
#[derive(Clone, Copy, Debug, PartialEq, Eq, Structural)]
pub struct Credential {
    /// The handle of the attestation as issued by the authority.
    pub value: u64,
}

/// The record of an identity's key rotations, as summarised by the
/// identity subsystem: the subject it belongs to, the public key it
/// currently ends in, and how many rotations led there.
#[derive(Clone, Copy, Debug, PartialEq, Eq, Structural)]
pub struct ChangeHistory {
    /// The identity this history belongs to.
    pub subject: Identifier,
    /// The public key the history currently ends in.
    pub public_key: u64,
    /// The number of rotations recorded.
    pub generation: u64,
}

/// An ordered sequence of hops describing how to reach a destination
/// across the routing substrate.
pub struct Route {
    /// The hops, first hop first.
    pub hops: Vec<Address>,
}

impl View for Route {
    type V = Seq<Address>;

    open spec fn view(&self) -> Seq<Address> {
        self.hops@
    }
}

impl Route {
    /// The empty route.
    pub fn new() -> (r: Route)
        ensures
            r@ == Seq::<Address>::empty(),
    {
        Route { hops: Vec::new() }
    }

    /// A route over the given hops.
    pub fn from_hops(hops: Vec<Address>) -> (r: Route)
        ensures
            r@ == hops@,
    {
        Route { hops }
    }

    /// Whether the route has no hops left.
    pub fn is_empty(&self) -> (r: bool)
        ensures
            r == (self@.len() == 0),
    {
        self.hops.len() == 0
    }

    /// Remove and return the first hop, if any.
    pub fn step(&mut self) -> (r: Option<Address>)
        ensures
            old(self)@.len() == 0 ==> r is None && final(self)@ == old(self)@,
            old(self)@.len() > 0 ==> r == Some(old(self)@[0]) && final(self)@ == old(
                self,
            )@.drop_first(),
    {
        if self.hops.len() == 0 {
            None
        } else {
            let first = self.hops.remove(0);
            proof {
                assert(final(self)@ =~= old(self)@.drop_first());
            }
            Some(first)
        }
    }

    /// An identical copy of the route.
    pub fn duplicate(&self) -> (r: Route)
        ensures
            r@ == self@,
    {
        let mut hops: Vec<Address> = Vec::new();
        let mut i: usize = 0;
        while i < self.hops.len()
            invariant
                0 <= i <= self.hops.len(),
                hops@ == self.hops@.take(i as int),
            decreases self.hops.len() - i,
        {
            hops.push(self.hops[i]);
            proof {
                assert(hops@ =~= self.hops@.take(i + 1));
            }
            i += 1;
        }
        proof {
            assert(self.hops@.take(self.hops@.len() as int) =~= self.hops@);
        }
        Route { hops }
    }
}

/// The five distinct logical endpoints of one channel half, created at
/// establishment time and immutable thereafter.
#[derive(Clone, Copy, Debug, PartialEq, Eq, Structural)]
pub struct Addresses {
    /// External-facing send entrypoint.
    pub encryptor: Address,
    /// Request/response "encrypt and return the ciphertext" entrypoint.
    pub encryptor_api: Address,
    /// Internal trigger address for credential-refresh notifications.
    pub encryptor_internal: Address,
    /// The address the peer's ciphertext arrives at.
    pub decryptor: Address,
    /// Internal control address of the decryptor.
    pub decryptor_internal: Address,
}

impl Addresses {
    /// The five endpoints are pairwise distinct.
    pub open spec fn wf(self) -> bool {
        &&& self.encryptor != self.encryptor_api
        &&& self.encryptor != self.encryptor_internal
        &&& self.encryptor != self.decryptor
        &&& self.encryptor != self.decryptor_internal
        &&& self.encryptor_api != self.encryptor_internal
        &&& self.encryptor_api != self.decryptor
        &&& self.encryptor_api != self.decryptor_internal
        &&& self.encryptor_internal != self.decryptor
        &&& self.encryptor_internal != self.decryptor_internal
        &&& self.decryptor != self.decryptor_internal
    }
}

/// A message travelling over the routing substrate: where it still has to
/// go, where replies should go, and the carried bytes.
pub struct LocalMessage {
    /// The hops the message still has to take.
    pub onward_route: Route,
    /// The route a reply should take.
    pub return_route: Route,
    /// The carried bytes.
    pub payload: Vec<u8>,
}

/// Mathematical value of a [`LocalMessage`].
pub struct SpecLocalMessage {
    /// The hops the message still has to take.
    pub onward_route: Seq<Address>,
    /// The route a reply should take.
    pub return_route: Seq<Address>,
    /// The carried bytes.
    pub payload: Seq<u8>,
}

impl View for LocalMessage {
    type V = SpecLocalMessage;

    open spec fn view(&self) -> SpecLocalMessage {
        SpecLocalMessage {
            onward_route: self.onward_route@,
            return_route: self.return_route@,
            payload: self.payload@,
        }
    }
}

/// An application payload carried through the channel: the route to its
/// final destination, the route back to the true originator, and the
/// opaque bytes.
pub struct PlaintextPayloadMessage {
    /// Route from the peer's decryptor to the final destination.
    pub onward_route: Route,
    /// Route back to the originator, re-attached on delivery.
    pub return_route: Route,
    /// The opaque application bytes.
    pub payload: Vec<u8>,
}

/// Mathematical value of a [`PlaintextPayloadMessage`].
pub struct SpecPayloadMessage {
    /// Route from the peer's decryptor to the final destination.
    pub onward_route: Seq<Address>,
    /// Route back to the originator.
    pub return_route: Seq<Address>,
    /// The opaque application bytes.
    pub payload: Seq<u8>,
}

impl View for PlaintextPayloadMessage {
    type V = SpecPayloadMessage;

    open spec fn view(&self) -> SpecPayloadMessage {
        SpecPayloadMessage {
            onward_route: self.onward_route@,
            return_route: self.return_route@,
            payload: self.payload@,
        }
    }
}

/// An in-band credential refresh: the sender's current change history and
/// the credentials it now presents.
pub struct RefreshCredentialsMessage {
    /// The sender's latest change history.
    pub change_history: ChangeHistory,
    /// The credentials now presented.
    pub credentials: Vec<Credential>,
}

/// Mathematical value of a [`RefreshCredentialsMessage`].
pub struct SpecRefreshMessage {
    /// The sender's latest change history.
    pub change_history: ChangeHistory,
    /// The credentials now presented.
    pub credentials: Seq<Credential>,
}

impl View for RefreshCredentialsMessage {
    type V = SpecRefreshMessage;

    open spec fn view(&self) -> SpecRefreshMessage {
        SpecRefreshMessage {
            change_history: self.change_history,
            credentials: self.credentials@,
        }
    }
}

/// The protocol envelope: what one end of the channel says to the other.
pub enum SecureChannelMessage {
    /// An application payload to deliver onward.
    Payload(PlaintextPayloadMessage),
    /// An in-band credential refresh.
    RefreshCredentials(RefreshCredentialsMessage),
    /// The sending side is closing the channel.
    Close,
}

/// Mathematical value of a [`SecureChannelMessage`].
pub enum SpecChannelMessage {
    /// An application payload to deliver onward.
    Payload(SpecPayloadMessage),
    /// An in-band credential refresh.
    RefreshCredentials(SpecRefreshMessage),
    /// The sending side is closing the channel.
    Close,
}

impl View for SecureChannelMessage {
    type V = SpecChannelMessage;

    open spec fn view(&self) -> SpecChannelMessage {
        match self {
            SecureChannelMessage::Payload(m) => SpecChannelMessage::Payload(m@),
            SecureChannelMessage::RefreshCredentials(m) => SpecChannelMessage::RefreshCredentials(
                m@,
            ),
            SecureChannelMessage::Close => SpecChannelMessage::Close,
        }
    }
}

/// The envelope wrapped with padding before encryption.  The padding is
/// currently always empty, but the field is part of the stable wire format
/// and is preserved for forward compatibility.
pub struct SecureChannelPaddedMessage {
    /// The protocol envelope.
    pub message: SecureChannelMessage,
    /// Reserved padding bytes.
    pub padding: Vec<u8>,
}

/// Mathematical value of a [`SecureChannelPaddedMessage`].
pub struct SpecPaddedMessage {
    /// The protocol envelope.
    pub message: SpecChannelMessage,
    /// Reserved padding bytes.
    pub padding: Seq<u8>,
}

impl View for SecureChannelPaddedMessage {
    type V = SpecPaddedMessage;

    open spec fn view(&self) -> SpecPaddedMessage {
        SpecPaddedMessage { message: self.message@, padding: self.padding@ }
    }
}

/// Why the channel rejected an operation or stopped.
#[derive(Clone, Copy, Debug, PartialEq, Eq, Structural)]
pub enum ChannelError {
    /// A cipher-state failure; fatal to the owning worker.
    Cipher(CipherError),
    /// A refresh was triggered but no credential retriever is configured;
    /// recoverable, the channel keeps running.
    NoCredentialRetriever,
    /// The identity subsystem has no change history for the local
    /// identifier.
    NoChangeHistory,
    /// A message arrived at an address the worker does not serve.
    UnknownChannelMsgDestination,
    /// A decrypted envelope could not be decoded; fatal, the buffer is
    /// treated as forged.
    MalformedMessage,
    /// A refresh carried a change history that does not belong to the
    /// known peer identity; fatal.
    PeerIdentityMismatch,
    /// The worker already stopped and no longer serves requests.
    WorkerStopped,
}

} // verus!
