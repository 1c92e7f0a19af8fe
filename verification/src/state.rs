//! The small state shared by the two workers of one channel end: the
//! current route to the peer's decryptor and the close-origination flag.
//!
//! In the running system this state sits behind a mutual-exclusion
//! primitive owned by both workers; here each worker step takes it as an
//! exclusive `&mut` argument, which models the lock by construction: a
//! step reads and updates the state atomically with respect to any other
//! step.

use vstd::prelude::*;

use crate::messages::Address;
use crate::messages::Route;

verus! {

/// Where to send ciphertext to reach the peer's decryptor, and the last
/// validated nonce seen from that peer (diagnostics and replay bounds).
pub struct RemoteRoute {
    /// The route to the decryptor on the other side.
    pub route: Route,
    /// The nonce of the last successfully authenticated message.
    pub last_nonce: u64,
}

impl RemoteRoute {
    /// A fresh remote route: empty, with no nonce seen yet.
    pub fn create() -> (r: RemoteRoute)
        ensures
            r.route@ == Seq::<Address>::empty(),
            r.last_nonce == 0,
    {
        RemoteRoute { route: Route::new(), last_nonce: 0 }
    }
}

/// Mathematical value of the shared state of one channel end.
pub struct SpecSharedState {
    /// The hops of the route to the peer's decryptor.
    pub remote_route: Seq<Address>,
    /// The nonce of the last successfully authenticated message.
    pub last_nonce: u64,
    /// Set when the peer already announced the close, so this side must
    /// not echo a close notification back.
    pub should_send_close: bool,
}

/// The state shared by the encryptor and decryptor workers of one channel
/// end: one instance per channel end, not per direction.
pub struct SecureChannelSharedState {
    /// The mutable route to the peer's decryptor.
    pub remote_route: RemoteRoute,
    /// Set by the decryptor when the peer's close notification arrives.
    pub should_send_close: bool,
}

impl View for SecureChannelSharedState {
    type V = SpecSharedState;

    open spec fn view(&self) -> SpecSharedState {
        SpecSharedState {
            remote_route: self.remote_route.route@,
            last_nonce: self.remote_route.last_nonce,
            should_send_close: self.should_send_close,
        }
    }
}

impl SecureChannelSharedState {
    /// Fresh shared state at channel establishment: no route learned yet
    /// and no close seen.
    pub fn create() -> (r: SecureChannelSharedState)
        ensures
            r@ == (SpecSharedState {
                remote_route: Seq::<Address>::empty(),
                last_nonce: 0u64,
                should_send_close: false,
            }),
    {
        SecureChannelSharedState { remote_route: RemoteRoute::create(), should_send_close: false }
    }

    /// Explicit external route update: point the send path at a new route
    /// to the peer's decryptor.
    pub fn update_remote_route(&mut self, route: Route)
        ensures
            final(self)@ == (SpecSharedState { remote_route: route@, ..old(self)@ }),
    {
        self.remote_route.route = route;
    }
}

/// The step the shared state takes when the decryptor observes the peer's
/// close notification: the flag is raised and nothing else moves.
pub open spec fn close_received_step(pre: SpecSharedState, post: SpecSharedState) -> bool {
    &&& post.should_send_close == true
    &&& post.remote_route == pre.remote_route
    &&& post.last_nonce == pre.last_nonce
}

/// Whether a shutting-down encryptor may emit its own close notification:
/// only while the peer has not already announced the close.
pub open spec fn close_emission_allowed(state: SpecSharedState) -> bool {
    !state.should_send_close
}

/// Close symmetry: once the peer's close notification has been received,
/// a later shutdown of this end emits no close notification back, so two
/// peers can never feed each other an endless close echo.
pub proof fn lemma_close_symmetry(pre: SpecSharedState, post: SpecSharedState, emitted: bool)
    requires
        close_received_step(pre, post),
        emitted ==> close_emission_allowed(post),
    ensures
        !emitted,
{
}

} // verus!
