//! Invitation records of the sharing workflow.

use vstd::prelude::*;

verus! {

/// A request to invite a recipient to a shared resource.  The role and
/// scope names are carried as plain strings; their interpretation
/// belongs to the orchestrator, not to this core.
#[derive(Debug)]
pub struct CreateInvitation {
    /// When the invitation expires, if ever.
    pub expires_at: Option<String>,
    /// The role granted to the recipient.
    pub grant_role: String,
    /// The e-mail address of the recipient.
    pub recipient_email: String,
    /// How many times the invitation may be used, if bounded.
    pub remaining_uses: Option<usize>,
    /// The scope the invitation applies to.
    pub scope: String,
    /// The resource being shared.
    pub target_id: String,
}

} // verus!
