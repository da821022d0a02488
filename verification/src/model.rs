//! The abstract state of the contract and the meaning of every entry point,
//! as a function from a state and the call's arguments to the next state and
//! the call's result.
use vstd::prelude::*;
use crate::config::{
    ROLE_EVENT_VERSION, ROLE_MANAGEMENT_SCHEMA_VERSION_V1, ROTATION_TIMELOCK_DELAY, RoleManagementConfig,
};
use crate::error::{ContractError, PayoutKeyRotationError};
use crate::events::{
    ContractInitializedEvent, ProgramInitializedEvent, ProgramPublishedEvent, AdminAcceptedEvent, AdminProposedEvent, AdminRotationCancelledEvent, ControllerAcceptedEvent,
    ControllerProposedEvent, ControllerRotationCancelledEvent,
};
use crate::types::{DelegateGrant, ProgramData, ProgramRecord, RoleTransitionState};

verus! {

/// The contract's storage, with the program table seen as a sequence.
pub struct EscrowModel {
    pub admin: Option<String>,
    pub pending_admin: Option<RoleTransitionState>,
    pub schema_version: Option<u32>,
    pub config: Option<RoleManagementConfig>,
    pub read_only: bool,
    pub role_nonce: u64,
    pub programs: Seq<ProgramRecord>,
}

/// `now + period`, capped at the largest ledger time.
pub open spec fn deadline_after(now: u64, period: u64) -> u64 {
    if now + period > u64::MAX {
        u64::MAX
    } else {
        (now + period) as u64
    }
}

/// The successor of a counter, wrapping to zero after the largest value.
pub open spec fn next_nonce(n: u64) -> u64 {
    if n == u64::MAX {
        0
    } else {
        (n + 1) as u64
    }
}

/// The 24-hour delay since the proposal has fully elapsed at `now`.
pub open spec fn timelock_elapsed(t: RoleTransitionState, now: u64) -> bool {
    now >= t.proposed_at + ROTATION_TIMELOCK_DELAY
}

/// The proposal's acceptance window has closed at `now`.
pub open spec fn transition_expired(t: RoleTransitionState, now: u64) -> bool {
    now > t.deadline
}


/// In a well-formed table, the program found at position `i` is the one that
/// `program_index` designates.
pub proof fn lemma_program_at(m: EscrowModel, id: Seq<char>, i: int)
    requires
        m.wf(),
        0 <= i < m.programs.len(),
        m.id_at(i) == id,
    ensures
        m.has_program(id),
        m.program_index(id) == i,
        m.program(id) == m.programs[i],
{
    assert(m.has_program(id));
    let k = m.program_index(id);
    assert(0 <= k < m.programs.len() && m.id_at(k) == id);
    if k != i {
        assert(m.id_at(k) != m.id_at(i));
    }
}

/// A program that is in the table sits at `program_index`, under its own id.
pub proof fn lemma_program_found(m: EscrowModel, id: Seq<char>)
    requires
        m.has_program(id),
    ensures
        0 <= m.program_index(id) < m.programs.len(),
        m.id_at(m.program_index(id)) == id,
        m.program(id).data.program_id@ == id,
{
}

/// `b` holds the programs of `a`, each under the same id, and no others.
pub open spec fn keeps_programs(a: EscrowModel, b: EscrowModel) -> bool {
    &&& b.wf()
    &&& forall|o: Seq<char>| a.has_program(o) ==> #[trigger] b.has_program(o) && b.program(o) == a.program(o)
    &&& forall|o: Seq<char>| #[trigger] b.has_program(o) ==> a.has_program(o)
}

/// `m.with_program(id, r)` holds `r` for program `id` and leaves every other
/// program as it was.
pub open spec fn replaces_program(m: EscrowModel, id: Seq<char>, r: ProgramRecord) -> bool {
    let n = m.with_program(id, r);
    &&& n.wf()
    &&& n.programs.len() == m.programs.len()
    &&& n.has_program(id)
    &&& n.program(id) == r
    &&& forall|o: Seq<char>| o != id && m.has_program(o)
        ==> #[trigger] n.has_program(o) && n.program(o) == m.program(o)
    &&& forall|o: Seq<char>| #[trigger] n.has_program(o) ==> m.has_program(o)
}

/// Replacing a program's record by one with the same id keeps ids distinct,
/// and leaves every other program as it was.
pub proof fn lemma_with_program(m: EscrowModel, id: Seq<char>, r: ProgramRecord)
    requires
        m.wf(),
        m.has_program(id),
        r.data.program_id@ == id,
    ensures
        replaces_program(m, id, r),
{
    let k = m.program_index(id);
    let n = m.with_program(id, r);
    assert(0 <= k < m.programs.len() && m.id_at(k) == id);
    assert forall|i: int, j: int|
        0 <= i < n.programs.len() && 0 <= j < n.programs.len() && i != j
            implies #[trigger] n.id_at(i) != #[trigger] n.id_at(j) by {
        assert(m.id_at(i) != m.id_at(j));
        if i == k {
            assert(n.id_at(i) == m.id_at(k));
        }
        if j == k {
            assert(n.id_at(j) == m.id_at(k));
        }
    }
    assert(n.id_at(k) == id);
    lemma_program_at(n, id, k);
    assert forall|o: Seq<char>| o != id && m.has_program(o)
        implies #[trigger] n.has_program(o) && n.program(o) == m.program(o) by {
        let j = m.program_index(o);
        assert(0 <= j < m.programs.len() && m.id_at(j) == o);
        lemma_program_at(m, o, j);
        assert(j != k);
        assert(n.id_at(j) == o);
        lemma_program_at(n, o, j);
    }
    assert forall|o: Seq<char>| #[trigger] n.has_program(o) implies m.has_program(o) by {
        let j = choose|j: int| 0 <= j < n.programs.len() && #[trigger] n.id_at(j) == o;
        if j == k {
            assert(m.id_at(k) == o);
        } else {
            assert(m.id_at(j) == o);
        }
    }
}

/// Two states with the same program table hold the same programs.
pub proof fn lemma_same_programs(a: EscrowModel, b: EscrowModel)
    requires
        a.wf(),
        a.programs == b.programs,
    ensures
        keeps_programs(a, b),
{
    lemma_wf_same_programs(a, b);
    assert forall|o: Seq<char>| a.has_program(o) implies #[trigger] b.has_program(o) && b.program(o)
        == a.program(o) by {
        let j = a.program_index(o);
        assert(0 <= j < a.programs.len() && a.id_at(j) == o);
        lemma_program_at(a, o, j);
        assert(b.id_at(j) == o);
        lemma_program_at(b, o, j);
    }
    assert forall|o: Seq<char>| #[trigger] b.has_program(o) implies a.has_program(o) by {
        let j = choose|j: int| 0 <= j < b.programs.len() && #[trigger] b.id_at(j) == o;
        assert(a.id_at(j) == o);
    }
}

/// Well-formedness depends on the program table alone.
pub proof fn lemma_wf_same_programs(a: EscrowModel, b: EscrowModel)
    requires
        a.wf(),
        a.programs == b.programs,
    ensures
        b.wf(),
{
    assert forall|i: int, j: int|
        0 <= i < b.programs.len() && 0 <= j < b.programs.len() && i != j
            implies #[trigger] b.id_at(i) != #[trigger] b.id_at(j) by {
        assert(a.id_at(i) != a.id_at(j));
    }
}

/// Every record that a call about program `id` may write keeps its id, so each
/// such write replaces that program alone; recording a proposal afterwards
/// keeps the programs too.
pub proof fn lemma_program_calls(
    m: EscrowModel,
    id: Seq<char>,
    caller: String,
    account: String,
    permissions: u32,
    now: u64,
)
    requires
        m.wf(),
        m.has_program(id),
    ensures
        replaces_program(m, id, m.proposed_controller_record(id, caller, account, now)),
        keeps_programs(
            m.with_program(id, m.proposed_controller_record(id, caller, account, now)),
            m.with_program(id, m.proposed_controller_record(id, caller, account, now)).after_proposal(),
        ),
        replaces_program(m, id, m.accepted_controller_record(id)),
        replaces_program(m, id, m.cancelled_controller_record(id)),
        replaces_program(m, id, m.delegated_record(id, account, permissions)),
        replaces_program(m, id, m.rotated_record(id, account)),
{
    lemma_program_found(m, id);
    let w = m.with_program(id, m.proposed_controller_record(id, caller, account, now));
    lemma_with_program(m, id, m.proposed_controller_record(id, caller, account, now));
    lemma_same_programs(w, w.after_proposal());
    lemma_with_program(m, id, m.accepted_controller_record(id));
    lemma_with_program(m, id, m.cancelled_controller_record(id));
    lemma_with_program(m, id, m.delegated_record(id, account, permissions));
    lemma_with_program(m, id, m.rotated_record(id, account));
}

impl EscrowModel {
    /// Program identifiers are unique in the program table.
    pub open spec fn wf(self) -> bool {
        forall|i: int, j: int|
            0 <= i < self.programs.len() && 0 <= j < self.programs.len() && i != j
                ==> #[trigger] self.id_at(i) != #[trigger] self.id_at(j)
    }

    pub open spec fn id_at(self, i: int) -> Seq<char> {
        self.programs[i].data.program_id@
    }

    pub open spec fn has_program(self, id: Seq<char>) -> bool {
        exists|i: int| 0 <= i < self.programs.len() && #[trigger] self.id_at(i) == id
    }

    /// Position of the program `id` in the table (meaningful when it is there).
    pub open spec fn program_index(self, id: Seq<char>) -> int {
        choose|i: int| 0 <= i < self.programs.len() && #[trigger] self.id_at(i) == id
    }

    pub open spec fn program(self, id: Seq<char>) -> ProgramRecord {
        self.programs[self.program_index(id)]
    }

    /// The state with the record of program `id` replaced by `r`.
    pub open spec fn with_program(self, id: Seq<char>, r: ProgramRecord) -> EscrowModel {
        EscrowModel { programs: self.programs.update(self.program_index(id), r), ..self }
    }

    /// The stored configuration, or the standard one when none is stored.
    pub open spec fn effective_config(self) -> RoleManagementConfig {
        match self.config {
            Some(c) => c,
            None => RoleManagementConfig::standard(),
        }
    }

    /// Rotations are enabled and the contract is not in read-only mode.
    pub open spec fn rotation_allowed(self) -> bool {
        self.effective_config().rotation_enabled && !self.read_only
    }

    /// The stored schema version, 0 for a contract that never wrote one.
    pub open spec fn schema_version_or_zero(self) -> u32 {
        match self.schema_version {
            Some(v) => v,
            None => 0,
        }
    }

    pub open spec fn is_admin(self, who: Seq<char>) -> bool {
        self.admin matches Some(a) && a@ == who
    }

    /// `who` may act for program `id`: it is the program's payout key or the admin.
    pub open spec fn may_manage(self, id: Seq<char>, who: Seq<char>) -> bool {
        self.program(id).data.authorized_payout_key@ == who || self.is_admin(who)
    }

    /// A proposal made now by `proposer` for `proposed`.
    pub open spec fn new_transition(self, proposer: String, proposed: String, now: u64) -> RoleTransitionState {
        RoleTransitionState {
            proposer,
            proposed_role: proposed,
            proposed_at: now,
            deadline: deadline_after(now, self.effective_config().max_transition_period),
            nonce: self.role_nonce,
        }
    }

    /// The state after a proposal has been recorded elsewhere in it.
    pub open spec fn after_proposal(self) -> EscrowModel {
        EscrowModel {
            schema_version: Some(ROLE_MANAGEMENT_SCHEMA_VERSION_V1),
            role_nonce: next_nonce(self.role_nonce),
            ..self
        }
    }

    // ----- records after a program-level call -----

    /// Program `id`'s record with a controller proposal from `caller` for `proposed`.
    pub open spec fn proposed_controller_record(self, id: Seq<char>, caller: String, proposed: String, now: u64)
        -> ProgramRecord
    {
        ProgramRecord {
            pending_controller: Some(self.new_transition(caller, proposed, now)),
            ..self.program(id)
        }
    }

    /// Program `id`'s record once its pending controller has taken over.
    pub open spec fn accepted_controller_record(self, id: Seq<char>) -> ProgramRecord {
        let rec = self.program(id);
        ProgramRecord {
            data: ProgramData {
                authorized_payout_key: rec.pending_controller.unwrap().proposed_role,
                ..rec.data
            },
            pending_controller: None,
            ..rec
        }
    }

    /// Program `id`'s record with no pending controller rotation.
    pub open spec fn cancelled_controller_record(self, id: Seq<char>) -> ProgramRecord {
        ProgramRecord { pending_controller: None, ..self.program(id) }
    }

    /// Program `id`'s record with `delegate` granted `permissions`.
    pub open spec fn delegated_record(self, id: Seq<char>, delegate: String, permissions: u32) -> ProgramRecord {
        ProgramRecord { delegate: Some(DelegateGrant { delegate, permissions }), ..self.program(id) }
    }

    /// Program `id`'s record with `new_key` as payout key and the nonce advanced.
    pub open spec fn rotated_record(self, id: Seq<char>, new_key: String) -> ProgramRecord {
        let rec = self.program(id);
        ProgramRecord {
            data: ProgramData {
                authorized_payout_key: new_key,
                rotation_nonce: next_nonce(rec.data.rotation_nonce),
                ..rec.data
            },
            ..rec
        }
    }

    // ----- contract set-up -----

    /// Records `admin`; a contract without a schema also gets the current schema
    /// version and the standard configuration.
    pub open spec fn initialize_contract(self, admin: String, now: u64) -> (EscrowModel, ContractInitializedEvent) {
        let event = ContractInitializedEvent { version: ROLE_EVENT_VERSION, admin, timestamp: now };
        if self.schema_version is Some {
            (EscrowModel { admin: Some(admin), ..self }, event)
        } else {
            (
                EscrowModel {
                    admin: Some(admin),
                    schema_version: Some(ROLE_MANAGEMENT_SCHEMA_VERSION_V1),
                    config: Some(RoleManagementConfig::standard()),
                    ..self
                },
                event,
            )
        }
    }

    // ----- admin rotation -----

    /// Proposed by `caller`, who must be the current admin.
    pub open spec fn propose_admin(self, caller: String, proposed: String, now: u64)
        -> (EscrowModel, Result<AdminProposedEvent, ContractError>)
    {
        let admin = self.admin.unwrap();
        if caller@ != admin@ {
            (self, Err(ContractError::Unauthorized))
        } else if !self.rotation_allowed() {
            (self, Err(ContractError::RoleRotationNotAllowed))
        } else if proposed@ == admin@ {
            (self, Err(ContractError::InvalidRoleProposal))
        } else if self.pending_admin is Some {
            (self, Err(ContractError::AdminRotationInProgress))
        } else {
            (
                EscrowModel {
                    pending_admin: Some(self.new_transition(admin, proposed, now)),
                    ..self.after_proposal()
                },
                Ok(AdminProposedEvent {
                    version: ROLE_EVENT_VERSION,
                    proposed_by: admin,
                    proposed_admin: proposed,
                    timestamp: now,
                }),
            )
        }
    }

    /// Accepted by `caller`, who must be the proposed admin.
    pub open spec fn accept_admin(self, caller: String, now: u64)
        -> (EscrowModel, Result<AdminAcceptedEvent, ContractError>)
    {
        match self.pending_admin {
            None => (self, Err(ContractError::NoAdminRotationInProgress)),
            Some(t) => {
                if caller@ != t.proposed_role@ {
                    (self, Err(ContractError::Unauthorized))
                } else if self.admin is None {
                    (self, Err(ContractError::InvalidAdminRotationState))
                } else if !timelock_elapsed(t, now) {
                    (self, Err(ContractError::RotationTimelockActive))
                } else if transition_expired(t, now) {
                    (self, Err(ContractError::RoleTransitionExpired))
                } else {
                    (
                        EscrowModel { admin: Some(t.proposed_role), pending_admin: None, ..self },
                        Ok(AdminAcceptedEvent {
                            version: ROLE_EVENT_VERSION,
                            previous_admin: self.admin.unwrap(),
                            new_admin: t.proposed_role,
                            timestamp: now,
                        }),
                    )
                }
            },
        }
    }

    /// Cancelled by `caller`, who must be the current admin.
    pub open spec fn cancel_admin_rotation(self, caller: String, now: u64)
        -> (EscrowModel, Result<AdminRotationCancelledEvent, ContractError>)
    {
        if caller@ != self.admin.unwrap()@ {
            (self, Err(ContractError::Unauthorized))
        } else if self.pending_admin is None {
            (self, Err(ContractError::NoAdminRotationInProgress))
        } else {
            (
                EscrowModel { pending_admin: None, ..self },
                Ok(AdminRotationCancelledEvent {
                    version: ROLE_EVENT_VERSION,
                    cancelled_by: self.admin.unwrap(),
                    timestamp: now,
                }),
            )
        }
    }

    // ----- controller rotation -----

    /// Proposed by `caller`, who must be the program's payout key or the admin.
    pub open spec fn propose_controller(self, program_id: String, caller: String, proposed: String, now: u64)
        -> (EscrowModel, Result<(ProgramData, ControllerProposedEvent), ContractError>)
    {
        let rec = self.program(program_id@);
        if !self.may_manage(program_id@, caller@) {
            (self, Err(ContractError::Unauthorized))
        } else if !self.rotation_allowed() {
            (self, Err(ContractError::RoleRotationNotAllowed))
        } else if proposed@ == rec.data.authorized_payout_key@ {
            (self, Err(ContractError::InvalidRoleProposal))
        } else if rec.pending_controller is Some {
            (self, Err(ContractError::ControllerRotationInProgress))
        } else {
            (
                self.with_program(
                    program_id@,
                    self.proposed_controller_record(program_id@, caller, proposed, now),
                ).after_proposal(),
                Ok((rec.data, ControllerProposedEvent {
                    version: ROLE_EVENT_VERSION,
                    program_id,
                    proposed_by: caller,
                    proposed_controller: proposed,
                    timestamp: now,
                })),
            )
        }
    }

    /// Accepted by `caller`, who must be the program's proposed controller.
    pub open spec fn accept_controller(self, program_id: String, caller: String, now: u64)
        -> (EscrowModel, Result<(ProgramData, ControllerAcceptedEvent), ContractError>)
    {
        let rec = self.program(program_id@);
        if !self.has_program(program_id@) || rec.pending_controller is None {
            (self, Err(ContractError::NoControllerRotationInProgress))
        } else {
            let t = rec.pending_controller.unwrap();
            if caller@ != t.proposed_role@ {
                (self, Err(ContractError::Unauthorized))
            } else if !timelock_elapsed(t, now) {
                (self, Err(ContractError::RotationTimelockActive))
            } else if transition_expired(t, now) {
                (self, Err(ContractError::RoleTransitionExpired))
            } else {
                let after = self.accepted_controller_record(program_id@);
                (
                    self.with_program(program_id@, after),
                    Ok((after.data, ControllerAcceptedEvent {
                        version: ROLE_EVENT_VERSION,
                        program_id,
                        previous_controller: rec.data.authorized_payout_key,
                        new_controller: t.proposed_role,
                        timestamp: now,
                    })),
                )
            }
        }
    }

    /// Cancelled by `caller`, who must be the program's payout key or the admin.
    pub open spec fn cancel_controller_rotation(self, program_id: String, caller: String, now: u64)
        -> (EscrowModel, Result<(ProgramData, ControllerRotationCancelledEvent), ContractError>)
    {
        let rec = self.program(program_id@);
        if !self.has_program(program_id@) || rec.pending_controller is None {
            (self, Err(ContractError::NoControllerRotationInProgress))
        } else if !self.may_manage(program_id@, caller@) {
            (self, Err(ContractError::Unauthorized))
        } else {
            (
                self.with_program(program_id@, self.cancelled_controller_record(program_id@)),
                Ok((rec.data, ControllerRotationCancelledEvent {
                    version: ROLE_EVENT_VERSION,
                    program_id,
                    cancelled_by: caller,
                    timestamp: now,
                })),
            )
        }
    }

    // ----- programs -----

    /// Registers a program, announcing its initialization and its publication.
    pub open spec fn init_program(self, program_id: String, payout_key: String, token_address: String, now: u64)
        -> (EscrowModel, (ProgramData, ProgramInitializedEvent, ProgramPublishedEvent))
    {
        let data = ProgramData {
            program_id,
            authorized_payout_key: payout_key,
            token_address,
            rotation_nonce: 0,
        };
        (
            EscrowModel {
                programs: self.programs.push(ProgramRecord { data, delegate: None, pending_controller: None }),
                ..self
            },
            (
                data,
                ProgramInitializedEvent {
                    version: ROLE_EVENT_VERSION,
                    program_id,
                    authorized_payout_key: payout_key,
                    token_address,
                    timestamp: now,
                },
                ProgramPublishedEvent { version: ROLE_EVENT_VERSION, program_id, timestamp: now },
            ),
        )
    }

    pub open spec fn set_program_delegate(self, program_id: String, caller: String, delegate: String, permissions: u32)
        -> (EscrowModel, Result<ProgramData, ContractError>)
    {
        if !self.may_manage(program_id@, caller@) {
            (self, Err(ContractError::Unauthorized))
        } else {
            (
                self.with_program(program_id@, self.delegated_record(program_id@, delegate, permissions)),
                Ok(self.program(program_id@).data),
            )
        }
    }

    /// Rotated by `caller`, who must be the payout key or the admin, presenting
    /// the program's current nonce.
    pub open spec fn rotate_payout_key(self, program_id: String, caller: String, new_key: String, nonce: u64)
        -> (EscrowModel, Result<ProgramData, PayoutKeyRotationError>)
    {
        if !self.has_program(program_id@) {
            (self, Err(PayoutKeyRotationError::ProgramNotFound))
        } else if !self.may_manage(program_id@, caller@) {
            (self, Err(PayoutKeyRotationError::Unauthorized))
        } else if nonce != self.program(program_id@).data.rotation_nonce {
            (self, Err(PayoutKeyRotationError::InvalidNonce))
        } else {
            let after = self.rotated_record(program_id@, new_key);
            (self.with_program(program_id@, after), Ok(after.data))
        }
    }
}

} // verus!
