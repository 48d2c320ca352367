//! The loan ledger as a state machine: what each call makes of the state, or
//! why it is refused.
use super::terms::{collateral, ltv, releasable, release_in_range};
use super::{Config, Error, Loan, LoanStatus, Pair, BPS};
use crate::guarantor_vault::model::VaultState;
use crate::host::{Address, BytesN, Call, Failure};
use vstd::prelude::*;

verus! {

/// Everything the loan ledger remembers.
#[verifier::ext_equal]
pub struct LedgerState {
    pub admin: Option<Address>,
    pub oracle: Option<Address>,
    pub vault: Option<Address>,
    pub liquidation_engine: Option<Address>,
    pub config: Option<Config>,
    /// How many loans have been opened; the last one has this id.
    pub loan_count: u64,
    pub loans: Map<u64, Loan>,
    pub partners: Map<Address, bool>,
    pub reputations: Map<BytesN<32>, u32>,
    /// The live loan of each guarantor and beneficiary.
    pub open_loans: Map<Pair, u64>,
}

/// A refusal by the ledger.
pub open spec fn refused(e: Error) -> Failure {
    Failure::Ledger(e)
}

impl Loan {
    /// Repayments are still expected.
    pub open spec fn is_open(self) -> bool {
        self.status is Active || self.status is Grace
    }

    pub open spec fn pair(self) -> Pair {
        Pair { guarantor: self.guarantor, beneficiary: self.beneficiary }
    }

    /// Principal still owed.
    pub open spec fn outstanding(self) -> int {
        self.principal_usd - self.total_repaid_usd
    }

    /// Collateral still locked against the loan.
    pub open spec fn remaining(self) -> int {
        self.collateral_locked - self.collateral_released
    }

    /// The collateral that is free once `repaid` of the principal is repaid.
    pub open spec fn releasable(self, config: Config, repaid: int) -> int {
        releasable(
            config.safety_buffer_bps as int,
            self.collateral_locked as int,
            repaid,
            self.principal_usd as int,
        )
    }

    /// The record is one that the ledger under `config` can hold: the collateral
    /// is what the rate asks, no more than the principal is repaid, and what has
    /// been released is exactly what the repayments so far have freed, or all of
    /// it once the loan is closed.
    pub open spec fn wf(self, config: Config) -> bool {
        &&& 0 < self.principal_usd
        &&& config.min_ltv_bps <= self.ltv_bps <= config.base_ltv_bps
        &&& self.collateral_locked == collateral(self.principal_usd as int, self.ltv_bps as int)
        &&& 0 < self.collateral_locked
        &&& 0 < self.installment_count
        &&& 0 < self.interval_secs
        &&& self.installment_amount == self.principal_usd as int / self.installment_count as int
        &&& 0 <= self.total_repaid_usd <= self.principal_usd
        &&& self.collateral_released == if self.is_open() {
            self.releasable(config, self.total_repaid_usd as int)
        } else {
            self.collateral_locked as int
        }
        &&& self.status is Repaid <==> self.total_repaid_usd == self.principal_usd
        &&& (self.status is Active || self.status is Repaid) ==> self.grace_expires_at == 0
    }
}

impl LedgerState {
    /// A ledger that nothing has been set up in.
    pub open spec fn empty() -> LedgerState {
        LedgerState {
            admin: None,
            oracle: None,
            vault: None,
            liquidation_engine: None,
            config: None,
            loan_count: 0,
            loans: Map::empty(),
            partners: Map::empty(),
            reputations: Map::empty(),
            open_loans: Map::empty(),
        }
    }

    /// The configuration, the scores and each loan record by itself are sound.
    pub open spec fn wf(self) -> bool {
        &&& self.config is Some <==> self.admin is Some
        &&& self.config matches Some(config) ==> config.wf()
        &&& forall|b: BytesN<32>| #[trigger]
            self.reputations.dom().contains(b) ==> self.reputations[b] <= BPS
        &&& forall|id: u64| #[trigger]
            self.loans.dom().contains(id) ==> self.config is Some && self.loans[id].id == id
                && self.loans[id].wf(self.config->0)
    }

    /// The records belong together: loans are numbered from one on without a
    /// gap, and the live loan registered for a guarantor and a beneficiary is
    /// the one open loan between the two.
    pub open spec fn coherent(self) -> bool {
        &&& forall|id: u64| #[trigger]
            self.loans.dom().contains(id) <==> 1 <= id <= self.loan_count
        &&& forall|id: u64| #[trigger]
            self.loans.dom().contains(id) && self.loans[id].is_open()
                ==> self.open_loans.dom().contains(self.loans[id].pair())
                && self.open_loans[self.loans[id].pair()] == id
        &&& forall|p: Pair| #[trigger]
            self.open_loans.dom().contains(p) ==> self.loans.dom().contains(self.open_loans[p])
                && self.loans[self.open_loans[p]].is_open()
                && self.loans[self.open_loans[p]].pair() == p
    }

    pub open spec fn score(self, beneficiary: BytesN<32>) -> u32 {
        if self.reputations.dom().contains(beneficiary) {
            self.reputations[beneficiary]
        } else {
            0
        }
    }

    pub open spec fn is_partner(self, partner: Address) -> bool {
        self.partners.dom().contains(partner) && self.partners[partner]
    }

    /// The rate that the beneficiary qualifies for.
    pub open spec fn required_ltv(self, beneficiary: BytesN<32>) -> int {
        ltv(self.config->0, self.score(beneficiary) as int)
    }

    /// Why `admin` may not act as the administrator, if so.
    pub open spec fn admin_refusal(self, env: Call, admin: Address) -> Option<Failure> {
        if !env.auths.contains(admin) {
            Some(Failure::Auth)
        } else if self.admin is None {
            Some(refused(Error::NotInitialized))
        } else if self.admin != Some(admin) {
            Some(refused(Error::NotAuthorized))
        } else {
            None
        }
    }

    /// Why `caller` may not act as the liquidation engine, if so.
    pub open spec fn engine_refusal(self, env: Call, caller: Address) -> Option<Failure> {
        if !env.auths.contains(caller) {
            Some(Failure::Auth)
        } else if self.liquidation_engine is None {
            Some(refused(Error::NotInitialized))
        } else if self.liquidation_engine != Some(caller) {
            Some(refused(Error::NotAuthorized))
        } else {
            None
        }
    }

    /// The ledger with the record of `loan.id` replaced.
    pub open spec fn with_loan(self, loan: Loan) -> LedgerState {
        LedgerState { loans: self.loans.insert(loan.id, loan), ..self }
    }

    /// The ledger after `loan` reached a closed state: its pair is free again.
    pub open spec fn closed(self, loan: Loan) -> LedgerState {
        LedgerState { open_loans: self.open_loans.remove(loan.pair()), ..self.with_loan(loan) }
    }

    // --- Setup and administration ---

    pub open spec fn initialize(self, admin: Address, vault: Address, config: Config) -> Result<
        LedgerState,
        Failure,
    > {
        if self.admin is Some {
            Err(refused(Error::AlreadyInitialized))
        } else if !config.wf() {
            Err(refused(Error::InvalidConfig))
        } else {
            Ok(
                LedgerState {
                    admin: Some(admin),
                    vault: Some(vault),
                    loan_count: 0,
                    config: Some(config),
                    ..self
                },
            )
        }
    }

    pub open spec fn set_oracle(self, env: Call, admin: Address, oracle: Address) -> Result<
        LedgerState,
        Failure,
    > {
        match self.admin_refusal(env, admin) {
            Some(e) => Err(e),
            None => Ok(LedgerState { oracle: Some(oracle), ..self }),
        }
    }

    pub open spec fn set_liquidation_engine(
        self,
        env: Call,
        admin: Address,
        engine: Address,
    ) -> Result<LedgerState, Failure> {
        match self.admin_refusal(env, admin) {
            Some(e) => Err(e),
            None => Ok(LedgerState { liquidation_engine: Some(engine), ..self }),
        }
    }

    pub open spec fn set_partner(
        self,
        env: Call,
        admin: Address,
        partner: Address,
        authorized: bool,
    ) -> Result<LedgerState, Failure> {
        match self.admin_refusal(env, admin) {
            Some(e) => Err(e),
            None => Ok(LedgerState { partners: self.partners.insert(partner, authorized), ..self }),
        }
    }

    pub open spec fn set_reputation(
        self,
        env: Call,
        oracle: Address,
        beneficiary: BytesN<32>,
        score_bps: u32,
    ) -> Result<LedgerState, Failure> {
        if !env.auths.contains(oracle) {
            Err(Failure::Auth)
        } else if self.oracle is None {
            Err(refused(Error::NotInitialized))
        } else if self.oracle != Some(oracle) {
            Err(refused(Error::NotAuthorized))
        } else if score_bps > BPS {
            Err(refused(Error::InvalidScore))
        } else {
            Ok(
                LedgerState {
                    reputations: self.reputations.insert(beneficiary, score_bps),
                    ..self
                },
            )
        }
    }

    // --- Origination ---

    /// Why the ledger refuses a new loan before it turns to the vault, if so.
    pub open spec fn origination_refusal(
        self,
        env: Call,
        guarantor: Address,
        beneficiary: BytesN<32>,
        principal: i128,
        installment_count: u32,
        interval_secs: u64,
    ) -> Option<Failure> {
        if !env.auths.contains(guarantor) {
            Some(Failure::Auth)
        } else if principal <= 0 {
            Some(refused(Error::InvalidAmount))
        } else if installment_count == 0 || interval_secs == 0 {
            Some(refused(Error::InvalidSchedule))
        } else if self.open_loans.dom().contains(Pair { guarantor, beneficiary }) {
            Some(refused(Error::LoanAlreadyOpen))
        } else if self.config is None {
            Some(refused(Error::NotInitialized))
        } else if principal * self.required_ltv(beneficiary) > i128::MAX {
            Some(Failure::Trap)
        } else if self.vault is None {
            Some(refused(Error::NotInitialized))
        } else {
            None
        }
    }

    /// Has the vault lock the collateral of a new loan: the vault afterwards.
    pub open spec fn lock_for_loan(
        self,
        vault: VaultState,
        env: Call,
        guarantor: Address,
        beneficiary: BytesN<32>,
        principal: i128,
        installment_count: u32,
        interval_secs: u64,
    ) -> Result<VaultState, Failure> {
        match self.origination_refusal(
            env,
            guarantor,
            beneficiary,
            principal,
            installment_count,
            interval_secs,
        ) {
            Some(e) => Err(e),
            None => vault.lock_collateral(
                env.invoke(self.vault->0),
                env.contract,
                guarantor,
                collateral(principal as int, self.required_ltv(beneficiary)) as i128,
            ),
        }
    }

    /// The loan that is opened.
    pub open spec fn new_loan(
        self,
        env: Call,
        guarantor: Address,
        beneficiary: BytesN<32>,
        principal: i128,
        installment_count: u32,
        interval_secs: u64,
    ) -> Loan {
        Loan {
            id: (self.loan_count + 1) as u64,
            guarantor,
            beneficiary,
            principal_usd: principal,
            ltv_bps: self.required_ltv(beneficiary) as u32,
            collateral_locked: collateral(
                principal as int,
                self.required_ltv(beneficiary),
            ) as i128,
            collateral_released: 0,
            installment_count,
            installment_amount: (principal as int / installment_count as int) as i128,
            interval_secs,
            installments_paid: 0,
            total_repaid_usd: 0,
            next_due: (env.timestamp + interval_secs) as u64,
            grace_expires_at: 0,
            status: LoanStatus::Active,
        }
    }

    /// The ledger after `loan` was opened.
    pub open spec fn opened(self, loan: Loan) -> LedgerState {
        LedgerState {
            loan_count: loan.id,
            open_loans: self.open_loans.insert(loan.pair(), loan.id),
            ..self.with_loan(loan)
        }
    }

    /// Opens a loan and locks its collateral in the vault: the ledger and the
    /// vault afterwards, and the loan's id.
    pub open spec fn originate(
        self,
        vault: VaultState,
        env: Call,
        guarantor: Address,
        beneficiary: BytesN<32>,
        principal: i128,
        installment_count: u32,
        interval_secs: u64,
    ) -> Result<(LedgerState, VaultState, u64), Failure> {
        let loan = self.new_loan(
            env,
            guarantor,
            beneficiary,
            principal,
            installment_count,
            interval_secs,
        );
        match self.lock_for_loan(
            vault,
            env,
            guarantor,
            beneficiary,
            principal,
            installment_count,
            interval_secs,
        ) {
            Err(e) => Err(e),
            Ok(locked) => if self.loan_count + 1 > u64::MAX || env.timestamp + interval_secs
                > u64::MAX {
                Err(Failure::Trap)
            } else {
                Ok((self.opened(loan), locked, loan.id))
            },
        }
    }

    // --- Repayment ---

    /// The collateral that a repayment on the loan frees.
    pub open spec fn release_due(self, loan: Loan, amount: i128) -> int {
        loan.releasable(self.config->0, loan.total_repaid_usd + amount) - loan.collateral_released
    }

    /// Whether every number that the release for a repayment goes through is in
    /// range.
    pub open spec fn repayment_in_range(self, loan: Loan, amount: i128) -> bool {
        let repaid = loan.total_repaid_usd + amount;
        &&& loan.installments_paid + 1 <= u32::MAX
        &&& release_in_range(
            (self.config->0).safety_buffer_bps as int,
            loan.collateral_locked as int,
            repaid,
            loan.principal_usd as int,
        )
    }

    /// Why the ledger refuses an attested repayment before it turns to the vault,
    /// if so.
    pub open spec fn repayment_refusal(
        self,
        env: Call,
        partner: Address,
        loan_id: u64,
        amount: i128,
    ) -> Option<Failure> {
        if !env.auths.contains(partner) {
            Some(Failure::Auth)
        } else if !self.is_partner(partner) {
            Some(refused(Error::NotAuthorized))
        } else if amount <= 0 {
            Some(refused(Error::InvalidAmount))
        } else if !self.loans.dom().contains(loan_id) {
            Some(refused(Error::LoanNotFound))
        } else {
            let loan = self.loans[loan_id];
            if !loan.is_open() {
                Some(refused(Error::LoanNotActive))
            } else if loan.total_repaid_usd + amount > i128::MAX {
                Some(Failure::Trap)
            } else if loan.total_repaid_usd + amount > loan.principal_usd {
                Some(refused(Error::Overpayment))
            } else if !self.repayment_in_range(loan, amount) {
                Some(Failure::Trap)
            } else if self.release_due(loan, amount) > 0 && self.vault is None {
                Some(refused(Error::NotInitialized))
            } else {
                None
            }
        }
    }

    /// The loan after a repayment: closed once all of the principal is repaid,
    /// else in good standing, with its next installment one interval later.
    pub open spec fn repaid_loan(self, loan: Loan, amount: i128) -> Loan {
        let repaid = loan.total_repaid_usd + amount;
        let counted = Loan {
            total_repaid_usd: repaid as i128,
            installments_paid: (loan.installments_paid + 1) as u32,
            collateral_released: loan.releasable(self.config->0, repaid) as i128,
            grace_expires_at: 0,
            ..loan
        };
        if repaid == loan.principal_usd {
            Loan { status: LoanStatus::Repaid, ..counted }
        } else {
            Loan {
                status: LoanStatus::Active,
                next_due: (loan.next_due + loan.interval_secs) as u64,
                ..counted
            }
        }
    }

    /// The ledger after a repayment.
    pub open spec fn repaid(self, loan: Loan, amount: i128) -> LedgerState {
        let after = self.repaid_loan(loan, amount);
        if after.status is Repaid {
            self.closed(after)
        } else {
            self.with_loan(after)
        }
    }

    /// Has the vault release the collateral that a repayment frees: the vault
    /// afterwards.
    pub open spec fn release_for_repayment(
        self,
        vault: VaultState,
        env: Call,
        partner: Address,
        loan_id: u64,
        amount: i128,
    ) -> Result<VaultState, Failure> {
        let due = self.release_due(self.loans[loan_id], amount);
        match self.repayment_refusal(env, partner, loan_id, amount) {
            Some(e) => Err(e),
            None => if due > 0 {
                vault.release_collateral(
                    env.invoke(self.vault->0),
                    env.contract,
                    self.loans[loan_id].guarantor,
                    due as i128,
                )
            } else {
                Ok(vault)
            },
        }
    }

    /// Whether the due date that follows a repayment on the loan is in range.
    pub open spec fn schedule_in_range(self, loan: Loan, amount: i128) -> bool {
        loan.total_repaid_usd + amount < loan.principal_usd ==> loan.next_due + loan.interval_secs
            <= u64::MAX
    }

    /// Records a repayment and has the vault release the collateral it frees:
    /// the ledger and the vault afterwards, and the amount released.
    pub open spec fn attest_repayment(
        self,
        vault: VaultState,
        env: Call,
        partner: Address,
        loan_id: u64,
        amount: i128,
    ) -> Result<(LedgerState, VaultState, i128), Failure> {
        let loan = self.loans[loan_id];
        match self.release_for_repayment(vault, env, partner, loan_id, amount) {
            Err(e) => Err(e),
            Ok(released) => if !self.schedule_in_range(loan, amount) {
                Err(Failure::Trap)
            } else {
                Ok(
                    (
                        self.repaid(loan, amount),
                        released,
                        self.release_due(loan, amount) as i128,
                    ),
                )
            },
        }
    }

    // --- Default transitions ---

    pub open spec fn is_overdue(self, env: Call, loan_id: u64) -> Result<bool, Failure> {
        if !self.loans.dom().contains(loan_id) {
            Err(refused(Error::LoanNotFound))
        } else {
            Ok(
                self.loans[loan_id].status is Active && env.timestamp
                    > self.loans[loan_id].next_due,
            )
        }
    }

    pub open spec fn is_grace_expired(self, env: Call, loan_id: u64) -> Result<bool, Failure> {
        if !self.loans.dom().contains(loan_id) {
            Err(refused(Error::LoanNotFound))
        } else {
            Ok(
                self.loans[loan_id].status is Grace && env.timestamp
                    > self.loans[loan_id].grace_expires_at,
            )
        }
    }

    pub open spec fn mark_grace(self, env: Call, caller: Address, loan_id: u64) -> Result<
        LedgerState,
        Failure,
    > {
        match self.engine_refusal(env, caller) {
            Some(e) => Err(e),
            None => if !self.loans.dom().contains(loan_id) {
                Err(refused(Error::LoanNotFound))
            } else {
                let loan = self.loans[loan_id];
                let grace = (self.config->0).grace_period_secs;
                if !(loan.status is Active) {
                    Err(refused(Error::LoanNotActive))
                } else if env.timestamp <= loan.next_due {
                    Err(refused(Error::NotOverdue))
                } else if env.timestamp + grace > u64::MAX {
                    Err(Failure::Trap)
                } else {
                    Ok(
                        self.with_loan(
                            Loan {
                                status: LoanStatus::Grace,
                                grace_expires_at: (env.timestamp + grace) as u64,
                                ..loan
                            },
                        ),
                    )
                }
            },
        }
    }

    pub open spec fn mark_defaulted(self, env: Call, caller: Address, loan_id: u64) -> Result<
        LedgerState,
        Failure,
    > {
        match self.engine_refusal(env, caller) {
            Some(e) => Err(e),
            None => if !self.loans.dom().contains(loan_id) {
                Err(refused(Error::LoanNotFound))
            } else {
                let loan = self.loans[loan_id];
                if !(loan.status is Grace) {
                    Err(refused(Error::LoanNotActive))
                } else if env.timestamp <= loan.grace_expires_at {
                    Err(refused(Error::GraceNotExpired))
                } else {
                    Ok(
                        self.closed(
                            Loan {
                                status: LoanStatus::Defaulted,
                                collateral_released: loan.collateral_locked,
                                ..loan
                            },
                        ),
                    )
                }
            },
        }
    }
}

} // verus!
