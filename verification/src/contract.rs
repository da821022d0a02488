//! The contract's entry points over its storage.
use vstd::prelude::*;
use crate::config::{
    ROLE_EVENT_VERSION, ROLE_MANAGEMENT_SCHEMA_VERSION_V1, ROTATION_TIMELOCK_DELAY, RoleManagementConfig,
};
use crate::error::{ContractError, PayoutKeyRotationError};
use crate::events::{
    ContractInitializedEvent, ProgramInitializedEvent, ProgramPublishedEvent,
    AdminAcceptedEvent, AdminProposedEvent, AdminRotationCancelledEvent, ControllerAcceptedEvent,
    ControllerProposedEvent, ControllerRotationCancelledEvent,
};
use crate::model::{
    EscrowModel, deadline_after, lemma_program_at, lemma_with_program, lemma_wf_same_programs,
    next_nonce, timelock_elapsed,
};
use crate::types::{DelegateGrant, ProgramData, ProgramRecord, RoleTransitionState};

verus! {

/// The program escrow contract's role-management storage.
pub struct ProgramEscrowContract {
    /// The contract admin, once initialized.
    pub admin: Option<String>,
    /// The admin rotation awaiting acceptance, if any.
    pub pending_admin: Option<RoleTransitionState>,
    pub schema_version: Option<u32>,
    pub config: Option<RoleManagementConfig>,
    /// Emergency read-only mode: no role rotation may be proposed.
    pub read_only: bool,
    /// Counter stamped on each new role proposal.
    pub role_nonce: u64,
    /// One record per program, with distinct program ids.
    pub programs: Vec<ProgramRecord>,
}

impl View for ProgramEscrowContract {
    type V = EscrowModel;

    open spec fn view(&self) -> EscrowModel {
        EscrowModel {
            admin: self.admin,
            pending_admin: self.pending_admin,
            schema_version: self.schema_version,
            config: self.config,
            read_only: self.read_only,
            role_nonce: self.role_nonce,
            programs: self.programs@,
        }
    }
}

/// `now + period`, capped at the largest ledger time.
fn deadline_after_exec(now: u64, period: u64) -> (d: u64)
    ensures
        d == deadline_after(now, period),
{
    if period > u64::MAX - now {
        u64::MAX
    } else {
        now + period
    }
}

/// The successor of a counter, wrapping to zero after the largest value.
fn next_nonce_exec(n: u64) -> (m: u64)
    ensures
        m == next_nonce(n),
{
    if n == u64::MAX {
        0
    } else {
        n + 1
    }
}

/// Whether the 24-hour delay since `proposed_at` has elapsed at `now`.
fn timelock_elapsed_exec(t: &RoleTransitionState, now: u64) -> (b: bool)
    ensures
        b == timelock_elapsed(*t, now),
{
    now >= t.proposed_at && now - t.proposed_at >= ROTATION_TIMELOCK_DELAY
}

impl ProgramEscrowContract {
    /// The storage of a freshly deployed contract.
    pub fn new() -> (c: ProgramEscrowContract)
        ensures
            c@ == (EscrowModel {
                admin: None,
                pending_admin: None,
                schema_version: None,
                config: None,
                read_only: false,
                role_nonce: 0,
                programs: Seq::empty(),
            }),
            c@.wf(),
    {
        ProgramEscrowContract {
            admin: None,
            pending_admin: None,
            schema_version: None,
            config: None,
            read_only: false,
            role_nonce: 0,
            programs: Vec::new(),
        }
    }

    /// Records the admin and, on a contract without a schema, the current schema
    /// version and the standard configuration.
    pub fn initialize_contract(&mut self, admin: String, now: u64) -> (e: ContractInitializedEvent)
        requires
            old(self).admin is None,
        ensures
            (final(self)@, e) == old(self)@.initialize_contract(admin, now),
    {
        self.admin = Some(admin.clone());
        if self.schema_version.is_none() {
            self.schema_version = Some(ROLE_MANAGEMENT_SCHEMA_VERSION_V1);
            self.config = Some(RoleManagementConfig::default());
        }
        ContractInitializedEvent { version: ROLE_EVENT_VERSION, admin, timestamp: now }
    }

    pub fn get_admin(&self) -> (a: Option<String>)
        ensures
            a == self.admin,
    {
        match &self.admin {
            Some(a) => Some(a.clone()),
            None => None,
        }
    }

    /// The stored schema version, 0 when none was stored.
    pub fn get_role_management_schema_version(&self) -> (v: u32)
        ensures
            v == self@.schema_version_or_zero(),
    {
        match self.schema_version {
            Some(v) => v,
            None => 0,
        }
    }

    /// The stored configuration, or the standard one when none is stored.
    pub fn get_role_management_config(&self) -> (c: RoleManagementConfig)
        ensures
            c == self@.effective_config(),
    {
        match self.config {
            Some(c) => c,
            None => RoleManagementConfig::default(),
        }
    }

    /// Refuses rotations when they are disabled or the contract is read-only.
    pub fn ensure_role_rotation_allowed(&self) -> (r: Result<(), ContractError>)
        ensures
            r is Ok <==> self@.rotation_allowed(),
            r is Err ==> r == Err::<(), ContractError>(ContractError::RoleRotationNotAllowed),
    {
        let config = self.get_role_management_config();
        if !config.rotation_enabled {
            return Err(ContractError::RoleRotationNotAllowed);
        }
        if self.read_only {
            return Err(ContractError::RoleRotationNotAllowed);
        }
        Ok(())
    }

    /// A proposal by `proposer` for `proposed`, made at `now`.
    fn new_transition(&self, proposer: String, proposed: String, now: u64) -> (t: RoleTransitionState)
        ensures
            t == self@.new_transition(proposer, proposed, now),
    {
        let config = self.get_role_management_config();
        RoleTransitionState {
            proposer,
            proposed_role: proposed,
            proposed_at: now,
            deadline: deadline_after_exec(now, config.max_transition_period),
            nonce: self.role_nonce,
        }
    }

    /// The current admin, provided `caller` is that admin.
    fn require_admin(&self, caller: &String) -> (r: Result<String, ContractError>)
        requires
            self.admin is Some,
        ensures
            r is Ok <==> caller@ == self.admin.unwrap()@,
            r is Ok ==> Some(r.unwrap()) == self.admin,
            r is Err ==> r == Err::<String, ContractError>(ContractError::Unauthorized),
    {
        let admin = self.admin.as_ref().unwrap();
        if *caller == *admin {
            Ok(admin.clone())
        } else {
            Err(ContractError::Unauthorized)
        }
    }

    /// First step of an admin rotation, made by `caller`, who must be the current admin.
    pub fn propose_admin(&mut self, caller: String, proposed_admin: String, now: u64)
        -> (r: Result<AdminProposedEvent, ContractError>)
        requires
            old(self).admin is Some,
        ensures
            (final(self)@, r) == old(self)@.propose_admin(caller, proposed_admin, now),
            r is Ok ==> caller@ == old(self).admin.unwrap()@,
    {
        let current_admin = match self.require_admin(&caller) {
            Ok(a) => a,
            Err(e) => {
                return Err(e);
            },
        };
        if let Err(e) = self.ensure_role_rotation_allowed() {
            return Err(e);
        }
        if proposed_admin == current_admin {
            return Err(ContractError::InvalidRoleProposal);
        }
        if self.pending_admin.is_some() {
            return Err(ContractError::AdminRotationInProgress);
        }
        let transition = self.new_transition(current_admin.clone(), proposed_admin.clone(), now);
        self.pending_admin = Some(transition);
        self.schema_version = Some(ROLE_MANAGEMENT_SCHEMA_VERSION_V1);
        self.role_nonce = next_nonce_exec(self.role_nonce);
        Ok(AdminProposedEvent {
            version: ROLE_EVENT_VERSION,
            proposed_by: current_admin,
            proposed_admin,
            timestamp: now,
        })
    }

    /// Second step of an admin rotation, made by `caller`, who must be the proposed
    /// admin: takes effect once the time-lock has elapsed and before the proposal expires.
    pub fn accept_admin(&mut self, caller: String, now: u64) -> (r: Result<AdminAcceptedEvent, ContractError>)
        ensures
            (final(self)@, r) == old(self)@.accept_admin(caller, now),
            r is Ok ==> caller@ == old(self).pending_admin.unwrap().proposed_role@,
    {
        let transition = match &self.pending_admin {
            None => {
                return Err(ContractError::NoAdminRotationInProgress);
            },
            Some(t) => t.clone(),
        };
        if caller != transition.proposed_role {
            return Err(ContractError::Unauthorized);
        }
        let previous_admin = match &self.admin {
            None => {
                return Err(ContractError::InvalidAdminRotationState);
            },
            Some(a) => a.clone(),
        };
        if !timelock_elapsed_exec(&transition, now) {
            return Err(ContractError::RotationTimelockActive);
        }
        if now > transition.deadline {
            return Err(ContractError::RoleTransitionExpired);
        }
        self.admin = Some(transition.proposed_role.clone());
        self.pending_admin = None;
        Ok(AdminAcceptedEvent {
            version: ROLE_EVENT_VERSION,
            previous_admin,
            new_admin: transition.proposed_role,
            timestamp: now,
        })
    }

    /// Withdraws a pending admin rotation; `caller` must be the current admin.
    pub fn cancel_admin_rotation(&mut self, caller: String, now: u64)
        -> (r: Result<AdminRotationCancelledEvent, ContractError>)
        requires
            old(self).admin is Some,
        ensures
            (final(self)@, r) == old(self)@.cancel_admin_rotation(caller, now),
            r is Ok ==> caller@ == old(self).admin.unwrap()@,
    {
        let current_admin = match self.require_admin(&caller) {
            Ok(a) => a,
            Err(e) => {
                return Err(e);
            },
        };
        if self.pending_admin.is_none() {
            return Err(ContractError::NoAdminRotationInProgress);
        }
        self.pending_admin = None;
        Ok(AdminRotationCancelledEvent {
            version: ROLE_EVENT_VERSION,
            cancelled_by: current_admin,
            timestamp: now,
        })
    }

    /// Position of the program `program_id` in the table, if it is there.
    fn find_program(&self, program_id: &String) -> (r: Option<usize>)
        requires
            self@.wf(),
        ensures
            match r {
                Some(i) => {
                    &&& i < self.programs@.len()
                    &&& self@.has_program(program_id@)
                    &&& self@.program_index(program_id@) == i
                    &&& self@.program(program_id@) == self.programs@[i as int]
                },
                None => !self@.has_program(program_id@),
            },
    {
        let mut i: usize = 0;
        while i < self.programs.len()
            invariant
                self@.wf(),
                i <= self.programs@.len(),
                forall|j: int| 0 <= j < i ==> self@.id_at(j) != program_id@,
            decreases self.programs@.len() - i,
        {
            if self.programs[i].data.program_id == *program_id {
                proof {
                    lemma_program_at(self@, program_id@, i as int);
                }
                return Some(i);
            }
            i += 1;
        }
        None
    }

    /// Whether `who` is the program's payout key or the contract admin.
    fn may_manage(&self, i: usize, who: &String) -> (b: bool)
        requires
            i < self.programs@.len(),
        ensures
            b == (self.programs@[i as int].data.authorized_payout_key@ == who@ || self@.is_admin(who@)),
    {
        if self.programs[i].data.authorized_payout_key == *who {
            return true;
        }
        match &self.admin {
            Some(a) => *a == *who,
            None => false,
        }
    }

    /// First step of a controller rotation for a program, by its payout key or the admin.
    pub fn propose_controller(&mut self, program_id: String, caller: String, proposed_controller: String, now: u64)
        -> (r: Result<(ProgramData, ControllerProposedEvent), ContractError>)
        requires
            old(self)@.wf(),
            old(self)@.has_program(program_id@),
        ensures
            (final(self)@, r) == old(self)@.propose_controller(program_id, caller, proposed_controller, now),
            final(self)@.wf(),
    {
        let i = self.find_program(&program_id).unwrap();
        if !self.may_manage(i, &caller) {
            return Err(ContractError::Unauthorized);
        }
        if let Err(e) = self.ensure_role_rotation_allowed() {
            return Err(e);
        }
        let mut record = self.programs[i].clone();
        if proposed_controller == record.data.authorized_payout_key {
            return Err(ContractError::InvalidRoleProposal);
        }
        if record.pending_controller.is_some() {
            return Err(ContractError::ControllerRotationInProgress);
        }
        let data = record.data.clone();
        let transition = self.new_transition(caller.clone(), proposed_controller.clone(), now);
        record.pending_controller = Some(transition);
        proof {
            lemma_with_program(self@, program_id@, record);
            lemma_wf_same_programs(
                self@.with_program(program_id@, record),
                self@.with_program(program_id@, record).after_proposal(),
            );
        }
        self.programs.set(i, record);
        self.schema_version = Some(ROLE_MANAGEMENT_SCHEMA_VERSION_V1);
        self.role_nonce = next_nonce_exec(self.role_nonce);
        Ok((data, ControllerProposedEvent {
            version: ROLE_EVENT_VERSION,
            program_id,
            proposed_by: caller,
            proposed_controller,
            timestamp: now,
        }))
    }

    /// Second step of a controller rotation, authorized by the proposed controller:
    /// once the time-lock has elapsed and before the proposal expires, the proposed
    /// account becomes the program's payout key.
    pub fn accept_controller(&mut self, program_id: String, caller: String, now: u64)
        -> (r: Result<(ProgramData, ControllerAcceptedEvent), ContractError>)
        requires
            old(self)@.wf(),
        ensures
            (final(self)@, r) == old(self)@.accept_controller(program_id, caller, now),
            r is Ok ==> caller@ == old(self)@.program(program_id@).pending_controller.unwrap().proposed_role@,
            final(self)@.wf(),
    {
        let i = match self.find_program(&program_id) {
            None => {
                return Err(ContractError::NoControllerRotationInProgress);
            },
            Some(i) => i,
        };
        let mut record = self.programs[i].clone();
        let transition = match &record.pending_controller {
            None => {
                return Err(ContractError::NoControllerRotationInProgress);
            },
            Some(t) => t.clone(),
        };
        if caller != transition.proposed_role {
            return Err(ContractError::Unauthorized);
        }
        if !timelock_elapsed_exec(&transition, now) {
            return Err(ContractError::RotationTimelockActive);
        }
        if now > transition.deadline {
            return Err(ContractError::RoleTransitionExpired);
        }
        let previous_controller = record.data.authorized_payout_key.clone();
        record.data.authorized_payout_key = transition.proposed_role.clone();
        record.pending_controller = None;
        let data = record.data.clone();
        proof {
            lemma_with_program(self@, program_id@, record);
        }
        self.programs.set(i, record);
        Ok((data, ControllerAcceptedEvent {
            version: ROLE_EVENT_VERSION,
            program_id,
            previous_controller,
            new_controller: transition.proposed_role,
            timestamp: now,
        }))
    }

    /// Withdraws a program's pending controller rotation, by its payout key or the admin.
    pub fn cancel_controller_rotation(&mut self, program_id: String, caller: String, now: u64)
        -> (r: Result<(ProgramData, ControllerRotationCancelledEvent), ContractError>)
        requires
            old(self)@.wf(),
        ensures
            (final(self)@, r) == old(self)@.cancel_controller_rotation(program_id, caller, now),
            final(self)@.wf(),
    {
        let i = match self.find_program(&program_id) {
            None => {
                return Err(ContractError::NoControllerRotationInProgress);
            },
            Some(i) => i,
        };
        let mut record = self.programs[i].clone();
        if record.pending_controller.is_none() {
            return Err(ContractError::NoControllerRotationInProgress);
        }
        if !self.may_manage(i, &caller) {
            return Err(ContractError::Unauthorized);
        }
        record.pending_controller = None;
        let data = record.data.clone();
        proof {
            lemma_with_program(self@, program_id@, record);
        }
        self.programs.set(i, record);
        Ok((data, ControllerRotationCancelledEvent {
            version: ROLE_EVENT_VERSION,
            program_id,
            cancelled_by: caller,
            timestamp: now,
        }))
    }

    /// Whether a program with this id is registered.
    pub fn has_program(&self, program_id: &String) -> (b: bool)
        requires
            self@.wf(),
        ensures
            b == self@.has_program(program_id@),
    {
        self.find_program(program_id).is_some()
    }

    /// Registers a new program with `authorized_payout_key` as its controller.
    pub fn init_program(
        &mut self,
        program_id: String,
        authorized_payout_key: String,
        token_address: String,
        now: u64,
    ) -> (d: (ProgramData, ProgramInitializedEvent, ProgramPublishedEvent))
        requires
            old(self)@.wf(),
            !old(self)@.has_program(program_id@),
        ensures
            (final(self)@, d) == old(self)@.init_program(program_id, authorized_payout_key, token_address, now),
            final(self)@.wf(),
    {
        let initialized = ProgramInitializedEvent {
            version: ROLE_EVENT_VERSION,
            program_id: program_id.clone(),
            authorized_payout_key: authorized_payout_key.clone(),
            token_address: token_address.clone(),
            timestamp: now,
        };
        let published = ProgramPublishedEvent {
            version: ROLE_EVENT_VERSION,
            program_id: program_id.clone(),
            timestamp: now,
        };
        let data = ProgramData {
            program_id,
            authorized_payout_key,
            token_address,
            rotation_nonce: 0,
        };
        let result = (data.clone(), initialized, published);
        let ghost before = self@;
        self.programs.push(ProgramRecord { data, delegate: None, pending_controller: None });
        proof {
            let n = self@;
            assert forall|i: int, j: int|
                0 <= i < n.programs.len() && 0 <= j < n.programs.len() && i != j
                    implies #[trigger] n.id_at(i) != #[trigger] n.id_at(j) by {
                let last = before.programs.len() as int;
                if i != last && j != last {
                    assert(before.id_at(i) != before.id_at(j));
                } else if i == last {
                    assert(before.id_at(j) == n.id_at(j));
                } else {
                    assert(before.id_at(i) == n.id_at(i));
                }
            }
        }
        result
    }

    /// The program's data, if it is registered.
    pub fn get_program(&self, program_id: &String) -> (d: Option<ProgramData>)
        requires
            self@.wf(),
        ensures
            d == (if self@.has_program(program_id@) {
                Some(self@.program(program_id@).data)
            } else {
                None
            }),
    {
        match self.find_program(program_id) {
            Some(i) => Some(self.programs[i].data.clone()),
            None => None,
        }
    }

    /// The nonce that the program's next payout-key rotation must present.
    pub fn get_rotation_nonce(&self, program_id: &String) -> (n: Option<u64>)
        requires
            self@.wf(),
        ensures
            n == (if self@.has_program(program_id@) {
                Some(self@.program(program_id@).data.rotation_nonce)
            } else {
                None
            }),
    {
        match self.find_program(program_id) {
            Some(i) => Some(self.programs[i].data.rotation_nonce),
            None => None,
        }
    }

    /// Grants `delegate` the given permission bits on a program; only its payout
    /// key or the admin may do so.
    pub fn set_program_delegate(&mut self, program_id: String, caller: String, delegate: String, permissions: u32)
        -> (r: Result<ProgramData, ContractError>)
        requires
            old(self)@.wf(),
            old(self)@.has_program(program_id@),
        ensures
            (final(self)@, r) == old(self)@.set_program_delegate(program_id, caller, delegate, permissions),
            final(self)@.wf(),
    {
        let i = self.find_program(&program_id).unwrap();
        if !self.may_manage(i, &caller) {
            return Err(ContractError::Unauthorized);
        }
        let mut record = self.programs[i].clone();
        record.delegate = Some(DelegateGrant { delegate, permissions });
        let data = record.data.clone();
        proof {
            lemma_with_program(self@, program_id@, record);
        }
        self.programs.set(i, record);
        Ok(data)
    }

    /// Replaces a program's payout key at once. Only the current payout key or the
    /// admin may do so, presenting the program's current rotation nonce, which the
    /// rotation then advances.
    pub fn rotate_payout_key(&mut self, program_id: String, caller: String, new_key: String, nonce: u64)
        -> (r: Result<ProgramData, PayoutKeyRotationError>)
        requires
            old(self)@.wf(),
        ensures
            (final(self)@, r) == old(self)@.rotate_payout_key(program_id, caller, new_key, nonce),
            final(self)@.wf(),
    {
        let i = match self.find_program(&program_id) {
            Some(i) => i,
            None => {
                return Err(PayoutKeyRotationError::ProgramNotFound);
            },
        };
        if !self.may_manage(i, &caller) {
            return Err(PayoutKeyRotationError::Unauthorized);
        }
        let mut record = self.programs[i].clone();
        if nonce != record.data.rotation_nonce {
            return Err(PayoutKeyRotationError::InvalidNonce);
        }
        record.data.authorized_payout_key = new_key;
        record.data.rotation_nonce = next_nonce_exec(record.data.rotation_nonce);
        let data = record.data.clone();
        proof {
            lemma_with_program(self@, program_id@, record);
        }
        self.programs.set(i, record);
        Ok(data)
    }
}

} // verus!
