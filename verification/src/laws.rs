//! Properties that hold of the contract as a whole, over the abstract model
//! that every entry point's contract is stated in.
use vstd::prelude::*;
use crate::config::{
    MAX_ROLE_TRANSITION_PERIOD, ROLE_EVENT_VERSION, ROLE_MANAGEMENT_SCHEMA_VERSION_V1, ROTATION_TIMELOCK_DELAY,
    RoleManagementConfig,
};
use crate::error::{ContractError, PayoutKeyRotationError, error_code};
use crate::events::{
    AdminAcceptedEvent, AdminProposedEvent, AdminRotationCancelledEvent, ControllerAcceptedEvent,
    ControllerProposedEvent, ControllerRotationCancelledEvent,
};
use crate::model::{
    EscrowModel, deadline_after, lemma_program_calls, lemma_program_found, lemma_same_programs, next_nonce,
};
use crate::types::{DelegateGrant, ProgramData, RoleTransitionState};

verus! {

/// Distinct errors are reported under distinct codes.
pub proof fn error_codes_are_distinct(a: ContractError, b: ContractError)
    ensures
        a != b ==> error_code(a) != error_code(b),
{
}

/// A refused call leaves the contract's storage exactly as it was.
pub proof fn refused_calls_change_nothing(
    m: EscrowModel,
    program_id: String,
    caller: String,
    account: String,
    permissions: u32,
    nonce: u64,
    now: u64,
)
    ensures
        m.admin is Some && m.propose_admin(caller, account, now).1 is Err
            ==> m.propose_admin(caller, account, now).0 == m,
        m.accept_admin(caller, now).1 is Err ==> m.accept_admin(caller, now).0 == m,
        m.admin is Some && m.cancel_admin_rotation(caller, now).1 is Err
            ==> m.cancel_admin_rotation(caller, now).0 == m,
        m.propose_controller(program_id, caller, account, now).1 is Err
            ==> m.propose_controller(program_id, caller, account, now).0 == m,
        m.accept_controller(program_id, caller, now).1 is Err ==> m.accept_controller(program_id, caller, now).0 == m,
        m.cancel_controller_rotation(program_id, caller, now).1 is Err
            ==> m.cancel_controller_rotation(program_id, caller, now).0 == m,
        m.set_program_delegate(program_id, caller, account, permissions).1 is Err
            ==> m.set_program_delegate(program_id, caller, account, permissions).0 == m,
        m.rotate_payout_key(program_id, caller, account, nonce).1 is Err
            ==> m.rotate_payout_key(program_id, caller, account, nonce).0 == m,
{
}

/// Every entry point keeps program ids distinct.
pub proof fn operations_keep_program_ids_distinct(
    m: EscrowModel,
    program_id: String,
    caller: String,
    account: String,
    token: String,
    permissions: u32,
    nonce: u64,
    now: u64,
)
    requires
        m.wf(),
    ensures
        m.initialize_contract(account, now).0.wf(),
        m.propose_admin(caller, account, now).0.wf(),
        m.accept_admin(caller, now).0.wf(),
        m.cancel_admin_rotation(caller, now).0.wf(),
        m.has_program(program_id@) ==> m.propose_controller(program_id, caller, account, now).0.wf(),
        m.accept_controller(program_id, caller, now).0.wf(),
        m.cancel_controller_rotation(program_id, caller, now).0.wf(),
        !m.has_program(program_id@) ==> m.init_program(program_id, account, token, now).0.wf(),
        m.has_program(program_id@) ==> m.set_program_delegate(program_id, caller, account, permissions).0.wf(),
        m.rotate_payout_key(program_id, caller, account, nonce).0.wf(),
{
    lemma_same_programs(m, m.initialize_contract(account, now).0);
    lemma_same_programs(m, m.propose_admin(caller, account, now).0);
    lemma_same_programs(m, m.accept_admin(caller, now).0);
    lemma_same_programs(m, m.cancel_admin_rotation(caller, now).0);
    if m.has_program(program_id@) {
        lemma_program_calls(m, program_id@, caller, account, permissions, now);
    } else {
        let n = m.init_program(program_id, account, token, now).0;
        assert forall|i: int, j: int|
            0 <= i < n.programs.len() && 0 <= j < n.programs.len() && i != j
                implies #[trigger] n.id_at(i) != #[trigger] n.id_at(j) by {
            let last = m.programs.len() as int;
            if i != last && j != last {
                assert(m.id_at(i) != m.id_at(j));
            } else if i == last {
                assert(m.id_at(j) == n.id_at(j));
            } else {
                assert(m.id_at(i) == n.id_at(i));
            }
        }
    }
}

/// Only the current admin can propose or cancel an admin rotation: any other
/// caller is refused with `Unauthorized`.
pub proof fn only_the_admin_proposes_or_cancels(m: EscrowModel, caller: String, proposed: String, now: u64)
    requires
        m.admin is Some,
    ensures
        m.propose_admin(caller, proposed, now).1 is Ok ==> caller@ == m.admin.unwrap()@,
        m.cancel_admin_rotation(caller, now).1 is Ok ==> caller@ == m.admin.unwrap()@,
        caller@ != m.admin.unwrap()@ ==> {
            &&& m.propose_admin(caller, proposed, now).1
                == Err::<AdminProposedEvent, ContractError>(ContractError::Unauthorized)
            &&& m.cancel_admin_rotation(caller, now).1
                == Err::<AdminRotationCancelledEvent, ContractError>(ContractError::Unauthorized)
        },
{
}

/// Only the proposed account can accept a rotation, for the admin and for a
/// program's controller; with a proposal pending, anyone else is refused with
/// `Unauthorized`.
pub proof fn only_the_candidate_accepts(m: EscrowModel, program_id: String, caller: String, now: u64)
    ensures
        m.accept_admin(caller, now).1 is Ok ==> {
            &&& m.pending_admin is Some
            &&& caller@ == m.pending_admin.unwrap().proposed_role@
        },
        m.pending_admin is Some && caller@ != m.pending_admin.unwrap().proposed_role@
            ==> m.accept_admin(caller, now).1
            == Err::<AdminAcceptedEvent, ContractError>(ContractError::Unauthorized),
        m.accept_controller(program_id, caller, now).1 is Ok ==> {
            &&& m.has_program(program_id@)
            &&& m.program(program_id@).pending_controller is Some
            &&& caller@ == m.program(program_id@).pending_controller.unwrap().proposed_role@
        },
        m.has_program(program_id@) && m.program(program_id@).pending_controller is Some
            && caller@ != m.program(program_id@).pending_controller.unwrap().proposed_role@
            ==> m.accept_controller(program_id, caller, now).1
            == Err::<(ProgramData, ControllerAcceptedEvent), ContractError>(ContractError::Unauthorized),
{
}

/// Two-step rotation: a proposal never changes who holds the role.
pub proof fn proposals_do_not_transfer_roles(
    m: EscrowModel,
    program_id: String,
    caller: String,
    proposed: String,
    now: u64,
)
    requires
        m.wf(),
    ensures
        m.propose_admin(caller, proposed, now).0.admin == m.admin,
        m.has_program(program_id@) ==> {
            let n = m.propose_controller(program_id, caller, proposed, now).0;
            &&& n.has_program(program_id@)
            &&& n.program(program_id@).data == m.program(program_id@).data
        },
{
    if m.has_program(program_id@) {
        lemma_program_calls(m, program_id@, caller, proposed, 0, now);
    }
}

/// At most one admin rotation and one rotation per program are pending: a new
/// proposal is refused while one is outstanding.
pub proof fn one_pending_rotation_at_a_time(
    m: EscrowModel,
    program_id: String,
    caller: String,
    proposed: String,
    now: u64,
)
    ensures
        m.pending_admin is Some ==> m.propose_admin(caller, proposed, now).1 is Err,
        m.program(program_id@).pending_controller is Some
            ==> m.propose_controller(program_id, caller, proposed, now).1 is Err,
{
}

/// Each proposal is stamped with the contract's proposal counter, which then
/// advances: the next proposal carries a different nonce.
pub proof fn proposals_carry_fresh_nonces(
    m: EscrowModel,
    program_id: String,
    caller: String,
    proposed: String,
    now: u64,
)
    requires
        m.wf(),
    ensures
        m.propose_admin(caller, proposed, now).1 is Ok ==> {
            let n = m.propose_admin(caller, proposed, now).0;
            &&& n.pending_admin.unwrap().nonce == m.role_nonce
            &&& n.role_nonce == next_nonce(m.role_nonce)
            &&& n.role_nonce != m.role_nonce
        },
        m.has_program(program_id@) && m.propose_controller(program_id, caller, proposed, now).1 is Ok ==> {
            let n = m.propose_controller(program_id, caller, proposed, now).0;
            &&& n.program(program_id@).pending_controller.unwrap().nonce == m.role_nonce
            &&& n.role_nonce == next_nonce(m.role_nonce)
            &&& n.role_nonce != m.role_nonce
        },
{
    if m.has_program(program_id@) {
        lemma_program_calls(m, program_id@, caller, proposed, 0, now);
        let n = m.propose_controller(program_id, caller, proposed, now).0;
        assert(n.has_program(program_id@));
    }
}

/// An accepted admin rotation is one that was proposed, whose time-lock has
/// elapsed and whose acceptance window is still open; the proposed account
/// becomes the admin and nothing stays pending.
pub proof fn admin_acceptance_respects_timelock(m: EscrowModel, caller: String, now: u64)
    ensures
        m.accept_admin(caller, now).1 is Ok ==> {
            let t = m.pending_admin.unwrap();
            &&& m.pending_admin is Some
            &&& now >= t.proposed_at + ROTATION_TIMELOCK_DELAY
            &&& now <= t.deadline
            &&& m.accept_admin(caller, now).0.admin == Some(t.proposed_role)
            &&& m.accept_admin(caller, now).0.pending_admin is None
        },
{
}

/// The same for a program's controller: the accepted account becomes the
/// program's payout key.
pub proof fn controller_acceptance_respects_timelock(m: EscrowModel, program_id: String, caller: String, now: u64)
    requires
        m.wf(),
    ensures
        m.accept_controller(program_id, caller, now).1 is Ok ==> {
            let t = m.program(program_id@).pending_controller.unwrap();
            let n = m.accept_controller(program_id, caller, now).0;
            &&& m.has_program(program_id@)
            &&& m.program(program_id@).pending_controller is Some
            &&& now >= t.proposed_at + ROTATION_TIMELOCK_DELAY
            &&& now <= t.deadline
            &&& n.program(program_id@).data.authorized_payout_key == t.proposed_role
            &&& n.program(program_id@).pending_controller is None
            &&& m.accept_controller(program_id, caller, now).1.unwrap().0 == n.program(program_id@).data
        },
{
    if m.has_program(program_id@) {
        lemma_program_calls(m, program_id@, caller, caller, 0, now);
    }
}

/// The proposed admin, accepting once the time-lock has elapsed and within the
/// transition period, becomes the admin.
pub proof fn admin_rotation_completes_after_timelock(
    m: EscrowModel,
    admin: String,
    proposed: String,
    proposed_at: u64,
    now: u64,
)
    requires
        m.admin is Some,
        m.propose_admin(admin, proposed, proposed_at).1 is Ok,
        proposed_at + ROTATION_TIMELOCK_DELAY <= now,
        now <= deadline_after(proposed_at, m.effective_config().max_transition_period),
    ensures
        ({
            let after = m.propose_admin(admin, proposed, proposed_at).0;
            &&& after.accept_admin(proposed, now).1 is Ok
            &&& after.accept_admin(proposed, now).0.admin == Some(proposed)
            &&& after.accept_admin(proposed, now).0.pending_admin is None
        }),
{
}

/// Accepting an admin rotation before 24 hours have passed since the proposal
/// is refused with `RotationTimelockActive`, and the admin stays in place.
pub proof fn early_admin_acceptance_is_refused(
    m: EscrowModel,
    admin: String,
    proposed: String,
    proposed_at: u64,
    now: u64,
)
    requires
        m.admin is Some,
        m.propose_admin(admin, proposed, proposed_at).1 is Ok,
        now < proposed_at + ROTATION_TIMELOCK_DELAY,
    ensures
        ({
            let after = m.propose_admin(admin, proposed, proposed_at).0;
            &&& after.accept_admin(proposed, now).1 == Err::<AdminAcceptedEvent, ContractError>(
                ContractError::RotationTimelockActive,
            )
            &&& after.accept_admin(proposed, now).0.admin == m.admin
        }),
{
}

/// A cancelled admin rotation can no longer be accepted, the admin stays in
/// place, and the admin may make a new proposal.
pub proof fn cancelled_admin_rotation_is_discarded(
    m: EscrowModel,
    admin: String,
    proposed: String,
    other: String,
    proposed_at: u64,
    cancelled_at: u64,
    now: u64,
)
    requires
        m.admin is Some,
        m.propose_admin(admin, proposed, proposed_at).1 is Ok,
    ensures
        ({
            let proposed_state = m.propose_admin(admin, proposed, proposed_at).0;
            let cancelled = proposed_state.cancel_admin_rotation(admin, cancelled_at);
            &&& cancelled.1 is Ok
            &&& cancelled.0.admin == m.admin
            &&& cancelled.0.accept_admin(proposed, now).1 == Err::<AdminAcceptedEvent, ContractError>(
                ContractError::NoAdminRotationInProgress,
            )
            &&& (other@ != admin@ ==> cancelled.0.propose_admin(admin, other, now).1 is Ok)
        }),
{
}

/// A program's proposed controller, accepting once the time-lock has elapsed
/// and within the transition period, becomes the program's payout key.
pub proof fn controller_rotation_completes_after_timelock(
    m: EscrowModel,
    program_id: String,
    caller: String,
    proposed: String,
    proposed_at: u64,
    now: u64,
)
    requires
        m.wf(),
        m.has_program(program_id@),
        m.propose_controller(program_id, caller, proposed, proposed_at).1 is Ok,
        proposed_at + ROTATION_TIMELOCK_DELAY <= now,
        now <= deadline_after(proposed_at, m.effective_config().max_transition_period),
    ensures
        ({
            let after = m.propose_controller(program_id, caller, proposed, proposed_at).0;
            let accepted = after.accept_controller(program_id, proposed, now);
            &&& accepted.1 is Ok
            &&& accepted.1.unwrap().0.authorized_payout_key == proposed
            &&& accepted.0.program(program_id@).data.authorized_payout_key == proposed
            &&& accepted.0.program(program_id@).pending_controller is None
        }),
{
    lemma_program_calls(m, program_id@, caller, proposed, 0, proposed_at);
    let after = m.propose_controller(program_id, caller, proposed, proposed_at).0;
    controller_acceptance_respects_timelock(after, program_id, proposed, now);
}

/// Accepting a controller rotation before 24 hours have passed since the
/// proposal is refused with `RotationTimelockActive`.
pub proof fn early_controller_acceptance_is_refused(
    m: EscrowModel,
    program_id: String,
    caller: String,
    proposed: String,
    proposed_at: u64,
    now: u64,
)
    requires
        m.wf(),
        m.has_program(program_id@),
        m.propose_controller(program_id, caller, proposed, proposed_at).1 is Ok,
        now < proposed_at + ROTATION_TIMELOCK_DELAY,
    ensures
        m.propose_controller(program_id, caller, proposed, proposed_at).0.accept_controller(program_id, proposed, now).1
            == Err::<(ProgramData, ControllerAcceptedEvent), ContractError>(ContractError::RotationTimelockActive),
{
    lemma_program_calls(m, program_id@, caller, proposed, 0, proposed_at);
}

/// A cancelled controller rotation can no longer be accepted, and the
/// program's payout key stays as it was.
pub proof fn cancelled_controller_rotation_is_discarded(
    m: EscrowModel,
    program_id: String,
    caller: String,
    canceller: String,
    proposed: String,
    proposed_at: u64,
    cancelled_at: u64,
    now: u64,
)
    requires
        m.wf(),
        m.has_program(program_id@),
        m.propose_controller(program_id, caller, proposed, proposed_at).1 is Ok,
        m.propose_controller(program_id, caller, proposed, proposed_at).0.cancel_controller_rotation(
            program_id,
            canceller,
            cancelled_at,
        ).1 is Ok,
    ensures
        ({
            let cancelled = m.propose_controller(program_id, caller, proposed, proposed_at).0
                .cancel_controller_rotation(program_id, canceller, cancelled_at).0;
            &&& cancelled.accept_controller(program_id, proposed, now).1
                == Err::<(ProgramData, ControllerAcceptedEvent), ContractError>(
                ContractError::NoControllerRotationInProgress,
            )
            &&& cancelled.program(program_id@).data == m.program(program_id@).data
        }),
{
    lemma_program_calls(m, program_id@, caller, proposed, 0, proposed_at);
    let after = m.propose_controller(program_id, caller, proposed, proposed_at).0;
    lemma_program_calls(after, program_id@, canceller, proposed, 0, cancelled_at);
}

/// Only a program's current payout key or the contract admin can rotate the
/// payout key, and only by presenting the program's current rotation nonce.
pub proof fn payout_key_rotation_requires_role(
    m: EscrowModel,
    program_id: String,
    caller: String,
    new_key: String,
    nonce: u64,
)
    ensures
        m.rotate_payout_key(program_id, caller, new_key, nonce).1 is Ok ==> {
            &&& m.has_program(program_id@)
            &&& (m.program(program_id@).data.authorized_payout_key@ == caller@ || m.is_admin(caller@))
            &&& nonce == m.program(program_id@).data.rotation_nonce
        },
        m.has_program(program_id@)
            && !(m.program(program_id@).data.authorized_payout_key@ == caller@ || m.is_admin(caller@))
            ==> m.rotate_payout_key(program_id, caller, new_key, nonce).1
            == Err::<ProgramData, PayoutKeyRotationError>(PayoutKeyRotationError::Unauthorized),
        !m.has_program(program_id@) ==> m.rotate_payout_key(program_id, caller, new_key, nonce).1
            == Err::<ProgramData, PayoutKeyRotationError>(PayoutKeyRotationError::ProgramNotFound),
{
}

/// Once a payout key has been replaced, the old key (unless it is the admin)
/// can no longer rotate the program's key, whatever nonce it presents.
pub proof fn replaced_payout_key_cannot_rotate(
    m: EscrowModel,
    program_id: String,
    old_key: String,
    new_key: String,
    next_key: String,
    nonce: u64,
    later_nonce: u64,
)
    requires
        m.wf(),
        m.rotate_payout_key(program_id, old_key, new_key, nonce).1 is Ok,
        new_key@ != old_key@,
        !m.is_admin(old_key@),
    ensures
        m.rotate_payout_key(program_id, old_key, new_key, nonce).0.rotate_payout_key(
            program_id,
            old_key,
            next_key,
            later_nonce,
        ).1 == Err::<ProgramData, PayoutKeyRotationError>(PayoutKeyRotationError::Unauthorized),
{
    lemma_program_calls(m, program_id@, old_key, new_key, 0, 0);
}

/// A rotation nonce is good for one rotation only: presenting it again is refused.
pub proof fn rotation_nonce_cannot_be_replayed(
    m: EscrowModel,
    program_id: String,
    caller: String,
    new_key: String,
    replayer: String,
    replayed_key: String,
    nonce: u64,
)
    requires
        m.wf(),
        m.rotate_payout_key(program_id, caller, new_key, nonce).1 is Ok,
    ensures
        m.rotate_payout_key(program_id, caller, new_key, nonce).0.rotate_payout_key(
            program_id,
            replayer,
            replayed_key,
            nonce,
        ).1 is Err,
{
    lemma_program_calls(m, program_id@, caller, new_key, 0, 0);
}

/// A delegate, whatever permissions it was granted, cannot rotate the payout
/// key unless it is itself the payout key or the admin.
pub proof fn delegate_cannot_rotate(
    m: EscrowModel,
    program_id: String,
    granter: String,
    delegate: String,
    permissions: u32,
    new_key: String,
    nonce: u64,
)
    requires
        m.wf(),
        m.has_program(program_id@),
        m.set_program_delegate(program_id, granter, delegate, permissions).1 is Ok,
        delegate@ != m.program(program_id@).data.authorized_payout_key@,
        !m.is_admin(delegate@),
    ensures
        m.set_program_delegate(program_id, granter, delegate, permissions).0.rotate_payout_key(
            program_id,
            delegate,
            new_key,
            nonce,
        ).1 == Err::<ProgramData, PayoutKeyRotationError>(PayoutKeyRotationError::Unauthorized),
{
    lemma_program_calls(m, program_id@, granter, delegate, permissions, 0);
}

/// A call about one program leaves every other program's record untouched.
pub proof fn calls_on_one_program_leave_others_alone(
    m: EscrowModel,
    program_id: String,
    other_id: Seq<char>,
    caller: String,
    account: String,
    token: String,
    permissions: u32,
    nonce: u64,
    now: u64,
)
    requires
        m.wf(),
        m.has_program(other_id),
        other_id != program_id@,
    ensures
        m.has_program(program_id@) ==> {
            let n = m.propose_controller(program_id, caller, account, now).0;
            n.has_program(other_id) && n.program(other_id) == m.program(other_id)
        },
        ({
            let n = m.accept_controller(program_id, caller, now).0;
            n.has_program(other_id) && n.program(other_id) == m.program(other_id)
        }),
        ({
            let n = m.cancel_controller_rotation(program_id, caller, now).0;
            n.has_program(other_id) && n.program(other_id) == m.program(other_id)
        }),
        !m.has_program(program_id@) ==> {
            let n = m.init_program(program_id, account, token, now).0;
            n.has_program(other_id) && n.program(other_id) == m.program(other_id)
        },
        m.has_program(program_id@) ==> {
            let n = m.set_program_delegate(program_id, caller, account, permissions).0;
            n.has_program(other_id) && n.program(other_id) == m.program(other_id)
        },
        ({
            let n = m.rotate_payout_key(program_id, caller, account, nonce).0;
            n.has_program(other_id) && n.program(other_id) == m.program(other_id)
        }),
{
    lemma_program_found(m, other_id);
    let j = m.program_index(other_id);
    crate::model::lemma_program_at(m, other_id, j);
    if m.has_program(program_id@) {
        lemma_program_calls(m, program_id@, caller, account, permissions, now);
    } else {
        operations_keep_program_ids_distinct(m, program_id, caller, account, token, permissions, nonce, now);
        let n = m.init_program(program_id, account, token, now).0;
        assert(n.id_at(j) == other_id);
        crate::model::lemma_program_at(n, other_id, j);
    }
}

/// Initializing a fresh contract records its admin, schema version 1 and the
/// standard configuration, under which rotations are allowed.
pub proof fn initialization_sets_up_role_management(m: EscrowModel, admin: String, now: u64)
    requires
        m.admin is None,
        m.schema_version is None,
        !m.read_only,
    ensures
        ({
            let n = m.initialize_contract(admin, now).0;
            &&& n.admin == Some(admin)
            &&& n.schema_version_or_zero() == ROLE_MANAGEMENT_SCHEMA_VERSION_V1
            &&& n.effective_config() == RoleManagementConfig::standard()
            &&& n.rotation_allowed()
        }),
{
}

/// In read-only mode, or with rotation disabled, no rotation can be proposed:
/// a proposal by an account holding the role is refused with
/// `RoleRotationNotAllowed`.
pub proof fn blocked_rotation_refuses_proposals(
    m: EscrowModel,
    program_id: String,
    caller: String,
    proposed: String,
    now: u64,
)
    requires
        !m.rotation_allowed(),
    ensures
        m.is_admin(caller@) ==> m.propose_admin(caller, proposed, now).1
            == Err::<AdminProposedEvent, ContractError>(ContractError::RoleRotationNotAllowed),
        m.may_manage(program_id@, caller@) ==> m.propose_controller(program_id, caller, proposed, now).1
            == Err::<(ProgramData, ControllerProposedEvent), ContractError>(ContractError::RoleRotationNotAllowed),
{
}

// ----- what each call does, stated from its inputs -----

/// The longest a proposal made in state `m` stays acceptable.
pub open spec fn transition_period(m: EscrowModel) -> u64 {
    match m.config {
        Some(c) => c.max_transition_period,
        None => MAX_ROLE_TRANSITION_PERIOD,
    }
}

/// Rotations are switched on and the contract is not read-only.
pub open spec fn rotations_open(m: EscrowModel) -> bool {
    (match m.config {
        Some(c) => c.rotation_enabled,
        None => true,
    }) && !m.read_only
}

/// `who` is the admin of `m`.
pub open spec fn holds_admin(m: EscrowModel, who: Seq<char>) -> bool {
    m.admin is Some && m.admin.unwrap()@ == who
}

/// `who` is program `id`'s payout key or the admin.
pub open spec fn controls(m: EscrowModel, id: Seq<char>, who: Seq<char>) -> bool {
    m.program(id).data.authorized_payout_key@ == who || holds_admin(m, who)
}

/// `t` is a proposal made at `now` by `proposer` for `proposed` in state `m`:
/// acceptable until `now` plus the transition period (capped at the largest
/// time), stamped with the proposal counter.
pub open spec fn fresh_proposal(m: EscrowModel, t: RoleTransitionState, proposer: String, proposed: String, now: u64) -> bool {
    &&& t.proposer == proposer
    &&& t.proposed_role == proposed
    &&& t.proposed_at == now
    &&& (now + transition_period(m) <= u64::MAX ==> t.deadline == now + transition_period(m))
    &&& (now + transition_period(m) > u64::MAX ==> t.deadline == u64::MAX)
    &&& t.nonce == m.role_nonce
}

/// An admin proposal succeeds exactly when the admin makes it, rotations are
/// open, it names someone other than the admin and none is pending (whatever
/// the programs hold). It then records the proposal with its 30-day deadline,
/// leaves the admin and the programs alone, and announces the current admin as
/// proposer and the candidate as proposed admin.
pub proof fn propose_admin_outcome(m: EscrowModel, caller: String, proposed: String, now: u64)
    requires
        m.admin is Some,
    ensures
        ({
            let (n, r) = m.propose_admin(caller, proposed, now);
            &&& r is Ok <==> (holds_admin(m, caller@) && rotations_open(m) && proposed@ != m.admin.unwrap()@
                && m.pending_admin is None)
            &&& r is Ok ==> {
                let e = r.unwrap();
                &&& e.version == ROLE_EVENT_VERSION
                &&& e.proposed_by == m.admin.unwrap()
                &&& e.proposed_admin == proposed
                &&& e.timestamp == now
                &&& n.pending_admin is Some
                &&& fresh_proposal(m, n.pending_admin.unwrap(), m.admin.unwrap(), proposed, now)
                &&& n.admin == m.admin
                &&& n.programs == m.programs
                &&& n.schema_version == Some(ROLE_MANAGEMENT_SCHEMA_VERSION_V1)
            }
        }),
{
}

/// An admin rotation is accepted exactly when one is pending, the candidate
/// accepts, an admin is recorded, 24 hours have passed since the proposal and
/// its deadline has not. The candidate then becomes the admin, nothing stays
/// pending, and the event names the previous and the new admin. A late
/// acceptance past the time-lock is refused as expired.
pub proof fn accept_admin_outcome(m: EscrowModel, caller: String, now: u64)
    ensures
        ({
            let (n, r) = m.accept_admin(caller, now);
            let t = m.pending_admin.unwrap();
            &&& r is Ok <==> (m.pending_admin is Some && caller@ == t.proposed_role@ && m.admin is Some
                && now >= t.proposed_at + ROTATION_TIMELOCK_DELAY && now <= t.deadline)
            &&& r is Ok ==> {
                let e = r.unwrap();
                &&& n.admin == Some(t.proposed_role)
                &&& n.pending_admin is None
                &&& n.programs == m.programs
                &&& e.version == ROLE_EVENT_VERSION
                &&& e.previous_admin == m.admin.unwrap()
                &&& e.new_admin == t.proposed_role
                &&& e.timestamp == now
            }
            &&& (m.pending_admin is Some && caller@ == t.proposed_role@ && m.admin is Some
                && now >= t.proposed_at + ROTATION_TIMELOCK_DELAY && now > t.deadline)
                ==> r == Err::<AdminAcceptedEvent, ContractError>(ContractError::RoleTransitionExpired)
        }),
{
}

/// The admin can cancel a pending admin rotation at any time; the proposal is
/// dropped and the admin and programs stay as they were.
pub proof fn cancel_admin_rotation_outcome(m: EscrowModel, caller: String, now: u64)
    requires
        m.admin is Some,
    ensures
        ({
            let (n, r) = m.cancel_admin_rotation(caller, now);
            &&& r is Ok <==> (holds_admin(m, caller@) && m.pending_admin is Some)
            &&& r is Ok ==> {
                &&& n.pending_admin is None
                &&& n.admin == m.admin
                &&& n.programs == m.programs
                &&& r.unwrap().cancelled_by == m.admin.unwrap()
                &&& r.unwrap().timestamp == now
            }
        }),
{
}

/// A controller proposal for program `p` succeeds exactly when its payout key
/// or the admin makes it, rotations are open, it names someone other than the
/// payout key and no controller rotation is pending for `p` (whatever admin
/// rotation is pending). It records the proposal for `p` with its 30-day
/// deadline and leaves the payout key in place.
pub proof fn propose_controller_outcome(
    m: EscrowModel,
    program_id: String,
    caller: String,
    proposed: String,
    now: u64,
)
    requires
        m.wf(),
        m.has_program(program_id@),
    ensures
        ({
            let (n, r) = m.propose_controller(program_id, caller, proposed, now);
            let old_rec = m.program(program_id@);
            &&& r is Ok <==> (controls(m, program_id@, caller@) && rotations_open(m)
                && proposed@ != old_rec.data.authorized_payout_key@ && old_rec.pending_controller is None)
            &&& r is Ok ==> {
                let (d, e) = r.unwrap();
                let rec = n.program(program_id@);
                &&& n.has_program(program_id@)
                &&& rec.data == old_rec.data
                &&& rec.delegate == old_rec.delegate
                &&& rec.pending_controller is Some
                &&& fresh_proposal(m, rec.pending_controller.unwrap(), caller, proposed, now)
                &&& n.admin == m.admin
                &&& n.pending_admin == m.pending_admin
                &&& d == old_rec.data
                &&& e.version == ROLE_EVENT_VERSION
                &&& e.program_id == program_id
                &&& e.proposed_by == caller
                &&& e.proposed_controller == proposed
                &&& e.timestamp == now
            }
        }),
{
    lemma_program_calls(m, program_id@, caller, proposed, 0, now);
    let n = m.propose_controller(program_id, caller, proposed, now).0;
    assert(n.has_program(program_id@));
}

/// A controller rotation for `p` is accepted exactly when one is pending, the
/// candidate accepts, 24 hours have passed since the proposal and its deadline
/// has not. The candidate then becomes `p`'s payout key and nothing stays
/// pending. An acceptance after the deadline, once the time-lock has passed, is
/// refused as expired and changes nothing.
pub proof fn accept_controller_outcome(m: EscrowModel, program_id: String, caller: String, now: u64)
    requires
        m.wf(),
    ensures
        ({
            let (n, r) = m.accept_controller(program_id, caller, now);
            let old_rec = m.program(program_id@);
            let t = old_rec.pending_controller.unwrap();
            &&& r is Ok <==> (m.has_program(program_id@) && old_rec.pending_controller is Some
                && caller@ == t.proposed_role@ && now >= t.proposed_at + ROTATION_TIMELOCK_DELAY
                && now <= t.deadline)
            &&& r is Ok ==> {
                let (d, e) = r.unwrap();
                let rec = n.program(program_id@);
                &&& rec.data.authorized_payout_key == t.proposed_role
                &&& rec.data.program_id == old_rec.data.program_id
                &&& rec.data.token_address == old_rec.data.token_address
                &&& rec.data.rotation_nonce == old_rec.data.rotation_nonce
                &&& rec.pending_controller is None
                &&& rec.delegate == old_rec.delegate
                &&& d == rec.data
                &&& n.admin == m.admin
                &&& e.previous_controller == old_rec.data.authorized_payout_key
                &&& e.new_controller == t.proposed_role
                &&& e.program_id == program_id
                &&& e.timestamp == now
            }
            &&& (m.has_program(program_id@) && old_rec.pending_controller is Some && caller@ == t.proposed_role@
                && now >= t.proposed_at + ROTATION_TIMELOCK_DELAY && now > t.deadline) ==> {
                &&& r == Err::<(ProgramData, ControllerAcceptedEvent), ContractError>(
                    ContractError::RoleTransitionExpired,
                )
                &&& n == m
            }
        }),
{
    if m.has_program(program_id@) {
        lemma_program_calls(m, program_id@, caller, caller, 0, now);
    }
}

/// A controller rotation proposed at `proposed_at` can no longer be accepted
/// once the transition period after it has run out: the acceptance is refused
/// (as expired once the time-lock has passed) and the payout key stays.
pub proof fn late_controller_acceptance_is_refused(
    m: EscrowModel,
    program_id: String,
    caller: String,
    proposed: String,
    proposed_at: u64,
    now: u64,
)
    requires
        m.wf(),
        m.has_program(program_id@),
        m.propose_controller(program_id, caller, proposed, proposed_at).1 is Ok,
        proposed_at + transition_period(m) < now,
    ensures
        ({
            let after = m.propose_controller(program_id, caller, proposed, proposed_at).0;
            let accepted = after.accept_controller(program_id, proposed, now);
            &&& accepted.1 is Err
            &&& accepted.0.program(program_id@).data.authorized_payout_key
                == m.program(program_id@).data.authorized_payout_key
            &&& now >= proposed_at + ROTATION_TIMELOCK_DELAY ==> accepted.1
                == Err::<(ProgramData, ControllerAcceptedEvent), ContractError>(ContractError::RoleTransitionExpired)
        }),
{
    propose_controller_outcome(m, program_id, caller, proposed, proposed_at);
    operations_keep_program_ids_distinct(m, program_id, caller, proposed, proposed, 0, 0, proposed_at);
    let after = m.propose_controller(program_id, caller, proposed, proposed_at).0;
    accept_controller_outcome(after, program_id, proposed, now);
}

/// An admin rotation proposed at `proposed_at` can no longer be accepted once
/// the transition period after it has run out.
pub proof fn late_admin_acceptance_is_refused(
    m: EscrowModel,
    admin: String,
    proposed: String,
    proposed_at: u64,
    now: u64,
)
    requires
        m.admin is Some,
        m.propose_admin(admin, proposed, proposed_at).1 is Ok,
        proposed_at + transition_period(m) < now,
    ensures
        ({
            let after = m.propose_admin(admin, proposed, proposed_at).0;
            let accepted = after.accept_admin(proposed, now);
            &&& accepted.1 is Err
            &&& accepted.0.admin == m.admin
            &&& now >= proposed_at + ROTATION_TIMELOCK_DELAY ==> accepted.1
                == Err::<AdminAcceptedEvent, ContractError>(ContractError::RoleTransitionExpired)
        }),
{
    propose_admin_outcome(m, admin, proposed, proposed_at);
    let after = m.propose_admin(admin, proposed, proposed_at).0;
    accept_admin_outcome(after, proposed, now);
}

/// A pending controller rotation for `p` can be cancelled by its payout key or
/// the admin at any time, before or after the time-lock; the proposal is
/// dropped and `p`'s data stays as it was.
pub proof fn cancel_controller_rotation_outcome(m: EscrowModel, program_id: String, caller: String, now: u64)
    requires
        m.wf(),
    ensures
        ({
            let (n, r) = m.cancel_controller_rotation(program_id, caller, now);
            let old_rec = m.program(program_id@);
            &&& r is Ok <==> (m.has_program(program_id@) && old_rec.pending_controller is Some
                && controls(m, program_id@, caller@))
            &&& r is Ok ==> {
                let (d, e) = r.unwrap();
                &&& n.program(program_id@).pending_controller is None
                &&& n.program(program_id@).data == old_rec.data
                &&& n.program(program_id@).delegate == old_rec.delegate
                &&& n.admin == m.admin
                &&& n.pending_admin == m.pending_admin
                &&& d == old_rec.data
                &&& e.program_id == program_id
                &&& e.cancelled_by == caller
                &&& e.timestamp == now
            }
        }),
{
    if m.has_program(program_id@) {
        lemma_program_calls(m, program_id@, caller, caller, 0, now);
    }
}

/// A payout-key rotation succeeds exactly when the program exists, its payout
/// key or the admin asks, and the program's current nonce is presented,
/// whatever delegate the program has. The new key is then in place, the nonce
/// has advanced by one (wrapping), and the rest of the program's data is kept.
pub proof fn rotate_payout_key_outcome(m: EscrowModel, program_id: String, caller: String, new_key: String, nonce: u64)
    requires
        m.wf(),
    ensures
        ({
            let (n, r) = m.rotate_payout_key(program_id, caller, new_key, nonce);
            let old_rec = m.program(program_id@);
            &&& r is Ok <==> (m.has_program(program_id@) && controls(m, program_id@, caller@)
                && nonce == old_rec.data.rotation_nonce)
            &&& r is Ok ==> {
                let d = r.unwrap();
                let rec = n.program(program_id@);
                &&& d.authorized_payout_key == new_key
                &&& d.program_id == old_rec.data.program_id
                &&& d.token_address == old_rec.data.token_address
                &&& (nonce < u64::MAX ==> d.rotation_nonce == nonce + 1)
                &&& (nonce == u64::MAX ==> d.rotation_nonce == 0)
                &&& rec.data == d
                &&& rec.delegate == old_rec.delegate
                &&& rec.pending_controller == old_rec.pending_controller
                &&& n.admin == m.admin
            }
        }),
{
    if m.has_program(program_id@) {
        lemma_program_calls(m, program_id@, caller, new_key, 0, 0);
    }
}

/// Granting a delegate succeeds exactly when the program's payout key or the
/// admin asks; the grant is recorded and the program's data is unchanged.
pub proof fn set_program_delegate_outcome(
    m: EscrowModel,
    program_id: String,
    caller: String,
    delegate: String,
    permissions: u32,
)
    requires
        m.wf(),
        m.has_program(program_id@),
    ensures
        ({
            let (n, r) = m.set_program_delegate(program_id, caller, delegate, permissions);
            let old_rec = m.program(program_id@);
            &&& r is Ok <==> controls(m, program_id@, caller@)
            &&& r is Ok ==> {
                &&& r.unwrap() == old_rec.data
                &&& n.program(program_id@).data == old_rec.data
                &&& n.program(program_id@).delegate == Some(DelegateGrant { delegate, permissions })
                &&& n.program(program_id@).pending_controller == old_rec.pending_controller
                &&& n.admin == m.admin
            }
        }),
{
    lemma_program_calls(m, program_id@, caller, delegate, permissions, 0);
}

/// Registering a program adds it with the given payout key and token, nonce 0,
/// no delegate and nothing pending, and announces it twice; initializing the
/// contract records the admin and announces it.
pub proof fn registration_outcome(
    m: EscrowModel,
    program_id: String,
    payout_key: String,
    token: String,
    admin: String,
    now: u64,
)
    requires
        m.wf(),
        !m.has_program(program_id@),
    ensures
        ({
            let (n, (d, initialized, published)) = m.init_program(program_id, payout_key, token, now);
            &&& n.has_program(program_id@)
            &&& n.program(program_id@).data == d
            &&& d.program_id == program_id
            &&& d.authorized_payout_key == payout_key
            &&& d.token_address == token
            &&& d.rotation_nonce == 0
            &&& n.program(program_id@).delegate is None
            &&& n.program(program_id@).pending_controller is None
            &&& initialized.program_id == program_id
            &&& initialized.authorized_payout_key == payout_key
            &&& initialized.token_address == token
            &&& initialized.timestamp == now
            &&& published.program_id == program_id
            &&& published.timestamp == now
        }),
        ({
            let (n, e) = m.initialize_contract(admin, now);
            &&& n.admin == Some(admin)
            &&& n.programs == m.programs
            &&& e.admin == admin
            &&& e.timestamp == now
            &&& e.version == ROLE_EVENT_VERSION
        }),
{
    let n = m.init_program(program_id, payout_key, token, now).0;
    operations_keep_program_ids_distinct(m, program_id, payout_key, payout_key, token, 0, 0, now);
    let last = m.programs.len() as int;
    assert(n.id_at(last) == program_id@);
    crate::model::lemma_program_at(n, program_id@, last);
}

} // verus!
