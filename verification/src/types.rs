//! Records kept in the contract's storage. Accounts and program identifiers
//! are held as their textual form (an account's strkey, a program's id).
use vstd::prelude::*;

verus! {

/// A pending two-step role rotation.
pub struct RoleTransitionState {
    /// Account that made the proposal.
    pub proposer: String,
    /// Account proposed for the role.
    pub proposed_role: String,
    /// Ledger time of the proposal.
    pub proposed_at: u64,
    /// Last ledger time at which the proposal may still be accepted.
    pub deadline: u64,
    /// Contract-wide proposal counter at the time of the proposal.
    pub nonce: u64,
}

impl Clone for RoleTransitionState {
    fn clone(&self) -> (r: Self)
        ensures
            r == *self,
    {
        RoleTransitionState {
            proposer: self.proposer.clone(),
            proposed_role: self.proposed_role.clone(),
            proposed_at: self.proposed_at,
            deadline: self.deadline,
            nonce: self.nonce,
        }
    }
}

/// The public data of an escrow program.
pub struct ProgramData {
    pub program_id: String,
    /// The program's controller: the account allowed to authorize payouts.
    pub authorized_payout_key: String,
    pub token_address: String,
    /// Nonce that the next direct payout-key rotation must present.
    pub rotation_nonce: u64,
}

impl Clone for ProgramData {
    fn clone(&self) -> (r: Self)
        ensures
            r == *self,
    {
        ProgramData {
            program_id: self.program_id.clone(),
            authorized_payout_key: self.authorized_payout_key.clone(),
            token_address: self.token_address.clone(),
            rotation_nonce: self.rotation_nonce,
        }
    }
}

/// An account acting on a program's behalf with a set of permission bits.
pub struct DelegateGrant {
    pub delegate: String,
    pub permissions: u32,
}

impl Clone for DelegateGrant {
    fn clone(&self) -> (r: Self)
        ensures
            r == *self,
    {
        DelegateGrant { delegate: self.delegate.clone(), permissions: self.permissions }
    }
}

/// Everything stored for one program.
pub struct ProgramRecord {
    pub data: ProgramData,
    pub delegate: Option<DelegateGrant>,
    /// The controller rotation awaiting acceptance, if any.
    pub pending_controller: Option<RoleTransitionState>,
}

impl Clone for ProgramRecord {
    fn clone(&self) -> (r: Self)
        ensures
            r == *self,
    {
        let delegate = match &self.delegate {
            Some(g) => Some(g.clone()),
            None => None,
        };
        let pending_controller = match &self.pending_controller {
            Some(t) => Some(t.clone()),
            None => None,
        };
        ProgramRecord { data: self.data.clone(), delegate, pending_controller }
    }
}

} // verus!
