//! LoanLedger: loan records, repayment schedules and attested repayments.
//!
//! The beneficiary has no wallet and never appears as an address. They are
//! identified by a 32-byte handle derived off the ledger, so no personally
//! identifying data reaches it.
//!
//! Repayments happen off the ledger in local currency. The protocol learns about
//! them only through an attestation from a registered off-ramp partner, which
//! here means an invocation authorized by that partner's address.
pub mod laws;
pub mod model;
pub mod operations;
pub mod terms;

use crate::guarantor_vault::model::VaultState;
use crate::guarantor_vault::GuarantorVaultContract;
use crate::host::{settles, Address, BytesN, Env, Failure};
use crate::table::{Key, Table};
use model::LedgerState;
use terms::{compute_collateral, compute_ltv, compute_releasable};
use vstd::prelude::*;

verus! {

/// A whole, in basis points.
pub const BPS: i128 = 10_000;

/// Why the ledger refuses a call.
#[derive(Clone, Copy, Debug, PartialEq, Eq, Structural)]
pub enum Error {
    AlreadyInitialized,
    NotInitialized,
    NotAuthorized,
    InvalidAmount,
    InvalidSchedule,
    InvalidConfig,
    InvalidScore,
    LoanNotFound,
    LoanNotActive,
    LoanAlreadyOpen,
    NotOverdue,
    GraceNotExpired,
    Overpayment,
}

impl Error {
    /// The number clients see, the same in every version of the contract.
    pub open spec fn spec_code(self) -> u32 {
        match self {
            Error::AlreadyInitialized => 1,
            Error::NotInitialized => 2,
            Error::NotAuthorized => 3,
            Error::InvalidAmount => 4,
            Error::InvalidSchedule => 5,
            Error::InvalidConfig => 6,
            Error::InvalidScore => 7,
            Error::LoanNotFound => 8,
            Error::LoanNotActive => 9,
            Error::LoanAlreadyOpen => 10,
            Error::NotOverdue => 11,
            Error::GraceNotExpired => 12,
            Error::Overpayment => 13,
        }
    }

    /// The number clients see.
    pub fn code(self) -> (r: u32)
        ensures
            r == self.spec_code(),
    {
        match self {
            Error::AlreadyInitialized => 1,
            Error::NotInitialized => 2,
            Error::NotAuthorized => 3,
            Error::InvalidAmount => 4,
            Error::InvalidSchedule => 5,
            Error::InvalidConfig => 6,
            Error::InvalidScore => 7,
            Error::LoanNotFound => 8,
            Error::LoanNotActive => 9,
            Error::LoanAlreadyOpen => 10,
            Error::NotOverdue => 11,
            Error::GraceNotExpired => 12,
            Error::Overpayment => 13,
        }
    }
}

#[derive(Clone, Copy, Debug, PartialEq, Eq, Structural)]
pub enum LoanStatus {
    /// Repayments are on schedule.
    Active,
    /// An installment is overdue but the grace period has not expired.
    Grace,
    /// Fully repaid; all collateral returned.
    Repaid,
    /// Grace expired without payment; collateral forfeited.
    Defaulted,
}

#[derive(Clone, Copy, Debug, PartialEq, Eq)]
pub struct Loan {
    pub id: u64,
    pub guarantor: Address,
    /// Handle for the beneficiary; never a wallet address.
    pub beneficiary: BytesN<32>,
    pub principal_usd: i128,
    /// Loan-to-value applied at origination, in basis points (15000 = 150%).
    pub ltv_bps: u32,
    pub collateral_locked: i128,
    pub collateral_released: i128,
    pub installment_count: u32,
    pub installment_amount: i128,
    pub interval_secs: u64,
    pub installments_paid: u32,
    pub total_repaid_usd: i128,
    pub next_due: u64,
    pub grace_expires_at: u64,
    pub status: LoanStatus,
}

#[derive(Clone, Copy, Debug, PartialEq, Eq, Structural)]
pub struct Config {
    /// LTV required of a beneficiary with no reputation (15000 = 150%).
    pub base_ltv_bps: u32,
    /// Floor the LTV can never go below however good the reputation (11000 = 110%).
    pub min_ltv_bps: u32,
    /// Share of collateral withheld until the final installment (500 = 5%).
    pub safety_buffer_bps: u32,
    /// How long after a missed installment before the loan may be liquidated.
    pub grace_period_secs: u64,
}

impl Config {
    /// The configurations that are accepted.
    pub open spec fn wf(self) -> bool {
        &&& self.min_ltv_bps <= self.base_ltv_bps
        &&& self.safety_buffer_bps < BPS
        &&& self.grace_period_secs > 0
    }

    /// Whether the configuration is accepted: the floor is at or below the base,
    /// the buffer is less than the whole, and there is a grace period.
    pub fn is_sound(&self) -> (r: bool)
        ensures
            r == self.wf(),
            r == (self.min_ltv_bps <= self.base_ltv_bps && self.safety_buffer_bps < 10_000
                && self.grace_period_secs > 0),
    {
        self.min_ltv_bps <= self.base_ltv_bps && (self.safety_buffer_bps as i128) < BPS
            && self.grace_period_secs > 0
    }
}

impl Loan {
    /// Whether a stored record is one that the ledger under `config` has written.
    pub fn is_sound(&self, config: Config) -> (r: bool)
        requires
            config.wf(),
        ensures
            r ==> self.wf(config),
            self.wf(config) && self.principal_usd * self.ltv_bps <= i128::MAX
                && terms::release_in_range(
                config.safety_buffer_bps as int,
                self.collateral_locked as int,
                self.total_repaid_usd as int,
                self.principal_usd as int,
            ) ==> r,
    {
        if self.principal_usd <= 0 || self.collateral_locked <= 0 || self.installment_count == 0
            || self.interval_secs == 0 || self.total_repaid_usd < 0 || self.total_repaid_usd
            > self.principal_usd || self.ltv_bps < config.min_ltv_bps || self.ltv_bps
            > config.base_ltv_bps {
            return false;
        }
        if self.installment_amount != self.principal_usd / self.installment_count as i128 {
            return false;
        }
        match compute_collateral(self.principal_usd, self.ltv_bps) {
            Some(collateral) => if self.collateral_locked != collateral {
                return false;
            },
            None => return false,
        }
        let fully_repaid = self.total_repaid_usd == self.principal_usd;
        match self.status {
            LoanStatus::Active | LoanStatus::Grace => {
                let releasable = match compute_releasable(
                    config.safety_buffer_bps,
                    self.collateral_locked,
                    self.total_repaid_usd,
                    self.principal_usd,
                ) {
                    Some(releasable) => releasable,
                    None => return false,
                };
                !fully_repaid && self.collateral_released == releasable && (matches!(
                    self.status,
                    LoanStatus::Grace
                ) || self.grace_expires_at == 0)
            },
            LoanStatus::Repaid => fully_repaid && self.collateral_released
                == self.collateral_locked && self.grace_expires_at == 0,
            LoanStatus::Defaulted => !fully_repaid && self.collateral_released
                == self.collateral_locked,
        }
    }
}

/// A guarantor and a beneficiary, who have at most one live loan between them.
#[derive(Clone, Copy, Debug, PartialEq, Eq)]
pub struct Pair {
    pub guarantor: Address,
    pub beneficiary: BytesN<32>,
}

impl Key for Pair {
    fn same(&self, other: &Self) -> (r: bool) {
        self.guarantor.same(&other.guarantor) && self.beneficiary.same(&other.beneficiary)
    }
}

/// The slice of the vault that the ledger calls.
pub trait VaultInterface {
    /// The state of the vault contract behind the interface.
    spec fn vault_state(&self) -> VaultState;

    fn lock_collateral(
        &mut self,
        env: &Env,
        caller: Address,
        guarantor: Address,
        amount: i128,
    ) -> (r: Result<(), Failure>)
        requires
            old(self).vault_state().wf(),
        ensures
            settles(
                old(self).vault_state(),
                final(self).vault_state(),
                r,
                old(self).vault_state().lock_collateral(env@, caller, guarantor, amount),
            ),
            final(self).vault_state().wf(),
    ;

    fn release_collateral(
        &mut self,
        env: &Env,
        caller: Address,
        guarantor: Address,
        amount: i128,
    ) -> (r: Result<(), Failure>)
        requires
            old(self).vault_state().wf(),
        ensures
            settles(
                old(self).vault_state(),
                final(self).vault_state(),
                r,
                old(self).vault_state().release_collateral(env@, caller, guarantor, amount),
            ),
            final(self).vault_state().wf(),
    ;
}

impl VaultInterface for GuarantorVaultContract {
    open spec fn vault_state(&self) -> VaultState {
        self@
    }

    fn lock_collateral(
        &mut self,
        env: &Env,
        caller: Address,
        guarantor: Address,
        amount: i128,
    ) -> (r: Result<(), Failure>) {
        GuarantorVaultContract::lock_collateral(self, env, caller, guarantor, amount)
    }

    fn release_collateral(
        &mut self,
        env: &Env,
        caller: Address,
        guarantor: Address,
        amount: i128,
    ) -> (r: Result<(), Failure>) {
        GuarantorVaultContract::release_collateral(self, env, caller, guarantor, amount)
    }
}

/// The loan ledger and all it remembers.
#[derive(Debug)]
pub struct LoanLedgerContract {
    pub admin: Option<Address>,
    pub oracle: Option<Address>,
    pub vault: Option<Address>,
    pub liquidation_engine: Option<Address>,
    pub config: Option<Config>,
    pub loan_count: u64,
    pub loans: Table<u64, Loan>,
    pub partners: Table<Address, bool>,
    pub reputations: Table<BytesN<32>, u32>,
    pub open_loans: Table<Pair, u64>,
}

impl View for LoanLedgerContract {
    type V = LedgerState;

    open spec fn view(&self) -> LedgerState {
        LedgerState {
            admin: self.admin,
            oracle: self.oracle,
            vault: self.vault,
            liquidation_engine: self.liquidation_engine,
            config: self.config,
            loan_count: self.loan_count,
            loans: self.loans@,
            partners: self.partners@,
            reputations: self.reputations@,
            open_loans: self.open_loans@,
        }
    }
}

/// A refusal by the ledger.
fn refuse<T>(e: Error) -> (r: Result<T, Failure>)
    ensures
        r == Err::<T, Failure>(Failure::Ledger(e)),
{
    Err(Failure::Ledger(e))
}

impl LoanLedgerContract {
    /// A loan ledger that nothing has been set up in yet.
    pub fn new() -> (r: Self)
        ensures
            r@ == LedgerState::empty(),
            r@.wf(),
    {
        LoanLedgerContract {
            admin: None,
            oracle: None,
            vault: None,
            liquidation_engine: None,
            config: None,
            loan_count: 0,
            loans: Table::new(),
            partners: Table::new(),
            reputations: Table::new(),
            open_loans: Table::new(),
        }
    }

    /// Sets up the ledger, once.
    pub fn initialize(
        &mut self,
        admin: Address,
        vault: Address,
        base_ltv_bps: u32,
        min_ltv_bps: u32,
        safety_buffer_bps: u32,
        grace_period_secs: u64,
    ) -> (r: Result<(), Failure>)
        requires
            old(self)@.wf(),
        ensures
            settles(
                old(self)@,
                final(self)@,
                r,
                old(self)@.initialize(
                    admin,
                    vault,
                    Config { base_ltv_bps, min_ltv_bps, safety_buffer_bps, grace_period_secs },
                ),
            ),
            final(self)@.wf(),
    {
        if self.admin.is_some() {
            return refuse(Error::AlreadyInitialized);
        }
        let config = Config { base_ltv_bps, min_ltv_bps, safety_buffer_bps, grace_period_secs };
        if !config.is_sound() {
            return refuse(Error::InvalidConfig);
        }
        self.admin = Some(admin);
        self.vault = Some(vault);
        self.loan_count = 0;
        self.config = Some(config);
        Ok(())
    }

    // --- Administration ---

    /// Registers the oracle allowed to publish reputation scores.
    pub fn set_oracle(&mut self, env: &Env, admin: Address, oracle: Address) -> (r: Result<
        (),
        Failure,
    >)
        requires
            old(self)@.wf(),
        ensures
            settles(old(self)@, final(self)@, r, old(self)@.set_oracle(env@, admin, oracle)),
            final(self)@.wf(),
    {
        if let Err(e) = self.require_admin(env, admin) {
            return Err(e);
        }
        self.oracle = Some(oracle);
        Ok(())
    }

    /// Registers the liquidation engine allowed to drive default transitions.
    pub fn set_liquidation_engine(&mut self, env: &Env, admin: Address, engine: Address) -> (r:
        Result<(), Failure>)
        requires
            old(self)@.wf(),
        ensures
            settles(
                old(self)@,
                final(self)@,
                r,
                old(self)@.set_liquidation_engine(env@, admin, engine),
            ),
            final(self)@.wf(),
    {
        if let Err(e) = self.require_admin(env, admin) {
            return Err(e);
        }
        self.liquidation_engine = Some(engine);
        Ok(())
    }

    /// Authorizes or revokes an off-ramp partner. Only an authorized partner may
    /// attest that a repayment happened.
    pub fn set_partner(
        &mut self,
        env: &Env,
        admin: Address,
        partner: Address,
        authorized: bool,
    ) -> (r: Result<(), Failure>)
        requires
            old(self)@.wf(),
        ensures
            settles(
                old(self)@,
                final(self)@,
                r,
                old(self)@.set_partner(env@, admin, partner, authorized),
            ),
            final(self)@.wf(),
    {
        if let Err(e) = self.require_admin(env, admin) {
            return Err(e);
        }
        self.partners.set(partner, authorized);
        Ok(())
    }

    /// Publishes a beneficiary's composite reputation score, in basis points of a
    /// perfect score.
    pub fn set_reputation(
        &mut self,
        env: &Env,
        oracle: Address,
        beneficiary: BytesN<32>,
        score_bps: u32,
    ) -> (r: Result<(), Failure>)
        requires
            old(self)@.wf(),
        ensures
            settles(
                old(self)@,
                final(self)@,
                r,
                old(self)@.set_reputation(env@, oracle, beneficiary, score_bps),
            ),
            final(self)@.wf(),
    {
        if let Err(e) = env.require_auth(oracle) {
            return Err(e);
        }
        match self.oracle {
            Some(stored) => if !stored.same(&oracle) {
                return refuse(Error::NotAuthorized);
            },
            None => return refuse(Error::NotInitialized),
        }
        if score_bps as i128 > BPS {
            return refuse(Error::InvalidScore);
        }
        self.reputations.set(beneficiary, score_bps);
        Ok(())
    }

    // --- Origination ---

    /// The LTV a given beneficiary currently qualifies for. A perfect reputation
    /// earns the configured floor; no reputation pays the base rate.
    pub fn required_ltv_bps(&self, beneficiary: BytesN<32>) -> (r: Result<u32, Failure>)
        requires
            self@.wf(),
        ensures
            match self@.config {
                None => r == Err::<u32, Failure>(Failure::Ledger(Error::NotInitialized)),
                Some(config) => r matches Ok(ltv) && ltv == self@.required_ltv(beneficiary)
                    && config.min_ltv_bps <= ltv <= config.base_ltv_bps && {
                    let score = if self@.reputations.dom().contains(beneficiary) {
                        self@.reputations[beneficiary] as int
                    } else {
                        0
                    };
                    let span = config.base_ltv_bps - config.min_ltv_bps;
                    let reduction = config.base_ltv_bps - ltv;
                    reduction * 10_000 <= span * score < (reduction + 1) * 10_000
                },
            },
    {
        let config = match self.config() {
            Ok(config) => config,
            Err(e) => return Err(e),
        };
        let score = self.get_reputation(beneficiary);
        proof {
            terms::law_ltv_between_floor_and_base(config, score as int);
        }
        Ok(compute_ltv(config, score))
    }

    /// Opens a loan. Locks `principal * ltv` of the guarantor's collateral in
    /// `vault`, the contract at the registered vault address, before the off-ramp
    /// partner is instructed to disburse local currency.
    ///
    /// An invocation that is aborted after the vault has answered leaves `vault`
    /// locked; the host discards that along with the rest.
    pub fn originate<V: VaultInterface>(
        &mut self,
        env: &Env,
        vault: &mut V,
        guarantor: Address,
        beneficiary: BytesN<32>,
        principal_usd: i128,
        installment_count: u32,
        interval_secs: u64,
    ) -> (r: Result<u64, Failure>)
        requires
            old(self)@.wf(),
            old(vault).vault_state().wf(),
        ensures
            match old(self)@.originate(
                old(vault).vault_state(),
                env@,
                guarantor,
                beneficiary,
                principal_usd,
                installment_count,
                interval_secs,
            ) {
                Ok((ledger, locked, id)) => r == Ok::<u64, Failure>(id) && final(self)@ == ledger
                    && final(vault).vault_state() == locked,
                Err(e) => r == Err::<u64, Failure>(e) && final(self)@ == old(self)@,
            },
            final(vault).vault_state() == match old(self)@.lock_for_loan(
                old(vault).vault_state(),
                env@,
                guarantor,
                beneficiary,
                principal_usd,
                installment_count,
                interval_secs,
            ) {
                Ok(locked) => locked,
                Err(_) => old(vault).vault_state(),
            },
            final(self)@.wf(),
            final(vault).vault_state().wf(),
    {
        if let Err(e) = env.require_auth(guarantor) {
            return Err(e);
        }
        if principal_usd <= 0 {
            return refuse(Error::InvalidAmount);
        }
        if installment_count == 0 || interval_secs == 0 {
            return refuse(Error::InvalidSchedule);
        }
        // One live loan per guarantor-beneficiary pair at a time.
        let pair = Pair { guarantor, beneficiary };
        if self.open_loans.get(pair).is_some() {
            return refuse(Error::LoanAlreadyOpen);
        }
        let ltv_bps = match self.required_ltv_bps(beneficiary) {
            Ok(ltv_bps) => ltv_bps,
            Err(e) => return Err(e),
        };
        let collateral = match compute_collateral(principal_usd, ltv_bps) {
            Some(collateral) => collateral,
            None => return Err(Failure::Trap),
        };
        let vault_address = match self.vault_address() {
            Ok(address) => address,
            Err(e) => return Err(e),
        };
        let call = env.invoke(vault_address);
        if let Err(e) = vault.lock_collateral(&call, env.contract, guarantor, collateral) {
            return Err(e);
        }
        let (id, next_due) = match (
            self.loan_count.checked_add(1),
            env.timestamp.checked_add(interval_secs),
        ) {
            (Some(id), Some(next_due)) => (id, next_due),
            _ => return Err(Failure::Trap),
        };
        let loan = Loan {
            id,
            guarantor,
            beneficiary,
            principal_usd,
            ltv_bps,
            collateral_locked: collateral,
            collateral_released: 0,
            installment_count,
            installment_amount: principal_usd / installment_count as i128,
            interval_secs,
            installments_paid: 0,
            total_repaid_usd: 0,
            next_due,
            grace_expires_at: 0,
            status: LoanStatus::Active,
        };
        proof {
            let config = self@.config->0;
            terms::law_release_within_share(
                config.safety_buffer_bps as int,
                collateral as int,
                0,
                principal_usd as int,
            );
            assert(loan.wf(config));
        }
        self.loan_count = id;
        self.loans.set(id, loan);
        self.open_loans.set(pair, id);
        Ok(id)
    }

    // --- Repayment ---

    /// Records a repayment the off-ramp partner collected in local currency, and
    /// releases the collateral it earns back. Returns the amount released.
    ///
    /// Release is proportional to principal repaid, less the safety buffer that
    /// is withheld until the loan closes:
    ///
    /// ```text
    /// releasable = collateral * (repaid / principal) * (1 - safety_buffer)
    /// ```
    ///
    /// An invocation that is aborted after the vault has answered leaves the
    /// release in `vault`; the host discards that along with the rest.
    pub fn attest_repayment<V: VaultInterface>(
        &mut self,
        env: &Env,
        vault: &mut V,
        partner: Address,
        loan_id: u64,
        amount_usd: i128,
    ) -> (r: Result<i128, Failure>)
        requires
            old(self)@.wf(),
            old(vault).vault_state().wf(),
        ensures
            match old(self)@.attest_repayment(
                old(vault).vault_state(),
                env@,
                partner,
                loan_id,
                amount_usd,
            ) {
                Ok((ledger, released, due)) => r == Ok::<i128, Failure>(due) && due >= 0
                    && final(self)@ == ledger && final(vault).vault_state() == released,
                Err(e) => r == Err::<i128, Failure>(e) && final(self)@ == old(self)@,
            },
            final(vault).vault_state() == match old(self)@.release_for_repayment(
                old(vault).vault_state(),
                env@,
                partner,
                loan_id,
                amount_usd,
            ) {
                Ok(released) => released,
                Err(_) => old(vault).vault_state(),
            },
            final(self)@.wf(),
            final(vault).vault_state().wf(),
    {
        if let Err(e) = env.require_auth(partner) {
            return Err(e);
        }
        if !self.is_partner(partner) {
            return refuse(Error::NotAuthorized);
        }
        if amount_usd <= 0 {
            return refuse(Error::InvalidAmount);
        }
        let mut loan = match self.loan_of(loan_id) {
            Ok(loan) => loan,
            Err(e) => return Err(e),
        };
        if !matches!(loan.status, LoanStatus::Active | LoanStatus::Grace) {
            return refuse(Error::LoanNotActive);
        }
        let repaid = match loan.total_repaid_usd.checked_add(amount_usd) {
            Some(repaid) => repaid,
            None => return Err(Failure::Trap),
        };
        if repaid > loan.principal_usd {
            return refuse(Error::Overpayment);
        }
        let config = match self.config() {
            Ok(config) => config,
            Err(e) => return Err(e),
        };
        let ghost before = loan;
        proof {
            terms::law_release_within_share(
                config.safety_buffer_bps as int,
                loan.collateral_locked as int,
                repaid as int,
                loan.principal_usd as int,
            );
            terms::law_release_within_share(
                config.safety_buffer_bps as int,
                loan.collateral_locked as int,
                loan.total_repaid_usd as int,
                loan.principal_usd as int,
            );
            terms::law_release_grows(
                config.safety_buffer_bps as int,
                loan.collateral_locked as int,
                loan.total_repaid_usd as int,
                repaid as int,
                loan.principal_usd as int,
            );
        }

        // Closing is decided by principal actually repaid, never by how many
        // attestations have arrived. Counting attestations would let a partner
        // close a loan, and release all of its collateral, with a handful of
        // token payments.
        let fully_repaid = repaid >= loan.principal_usd;
        loan.total_repaid_usd = repaid;
        loan.installments_paid = match loan.installments_paid.checked_add(1) {
            Some(paid) => paid,
            None => return Err(Failure::Trap),
        };
        let releasable = match compute_releasable(
            config.safety_buffer_bps,
            loan.collateral_locked,
            repaid,
            loan.principal_usd,
        ) {
            Some(releasable) => releasable,
            None => return Err(Failure::Trap),
        };

        let release_now: i128 = releasable - loan.collateral_released;
        if release_now > 0 {
            let vault_address = match self.vault_address() {
                Ok(address) => address,
                Err(e) => return Err(e),
            };
            let call = env.invoke(vault_address);
            if let Err(e) = vault.release_collateral(
                &call,
                env.contract,
                loan.guarantor,
                release_now,
            ) {
                return Err(e);
            }
            loan.collateral_released = loan.collateral_released + release_now;
        }

        loan.grace_expires_at = 0;
        if fully_repaid {
            loan.status = LoanStatus::Repaid;
        } else {
            // A payment clears any grace period and advances the schedule.
            loan.status = LoanStatus::Active;
            loan.next_due = match loan.next_due.checked_add(loan.interval_secs) {
                Some(next_due) => next_due,
                None => return Err(Failure::Trap),
            };
        }
        proof {
            assert(loan == self@.repaid_loan(before, amount_usd));
            assert(loan.wf(config));
        }
        if fully_repaid {
            self.open_loans.remove(
                Pair { guarantor: loan.guarantor, beneficiary: loan.beneficiary },
            );
        }
        self.loans.set(loan_id, loan);
        Ok(release_now)
    }

    // --- Default transitions (liquidation engine only) ---

    /// Moves an overdue loan into its grace period.
    pub fn mark_grace(&mut self, env: &Env, caller: Address, loan_id: u64) -> (r: Result<
        (),
        Failure,
    >)
        requires
            old(self)@.wf(),
        ensures
            settles(old(self)@, final(self)@, r, old(self)@.mark_grace(env@, caller, loan_id)),
            final(self)@.wf(),
    {
        if let Err(e) = self.require_engine(env, caller) {
            return Err(e);
        }
        let mut loan = match self.loan_of(loan_id) {
            Ok(loan) => loan,
            Err(e) => return Err(e),
        };
        if !matches!(loan.status, LoanStatus::Active) {
            return refuse(Error::LoanNotActive);
        }
        if env.timestamp <= loan.next_due {
            return refuse(Error::NotOverdue);
        }
        let config = match self.config() {
            Ok(config) => config,
            Err(e) => return Err(e),
        };
        loan.status = LoanStatus::Grace;
        loan.grace_expires_at = match env.timestamp.checked_add(config.grace_period_secs) {
            Some(expires_at) => expires_at,
            None => return Err(Failure::Trap),
        };
        self.loans.set(loan_id, loan);
        Ok(())
    }

    /// Closes a loan as defaulted. The engine calls this after it has settled the
    /// collateral, so the ledger records the full locked amount as accounted for.
    pub fn mark_defaulted(&mut self, env: &Env, caller: Address, loan_id: u64) -> (r: Result<
        (),
        Failure,
    >)
        requires
            old(self)@.wf(),
        ensures
            settles(old(self)@, final(self)@, r, old(self)@.mark_defaulted(env@, caller, loan_id)),
            final(self)@.wf(),
    {
        if let Err(e) = self.require_engine(env, caller) {
            return Err(e);
        }
        let mut loan = match self.loan_of(loan_id) {
            Ok(loan) => loan,
            Err(e) => return Err(e),
        };
        if !matches!(loan.status, LoanStatus::Grace) {
            return refuse(Error::LoanNotActive);
        }
        if env.timestamp <= loan.grace_expires_at {
            return refuse(Error::GraceNotExpired);
        }
        loan.status = LoanStatus::Defaulted;
        loan.collateral_released = loan.collateral_locked;
        self.loans.set(loan_id, loan);
        self.open_loans.remove(Pair { guarantor: loan.guarantor, beneficiary: loan.beneficiary });
        Ok(())
    }

    // --- Views used by the liquidation engine ---

    /// Whether the loan has missed an installment and may enter grace.
    pub fn is_overdue(&self, env: &Env, loan_id: u64) -> (r: Result<bool, Failure>)
        ensures
            r == self@.is_overdue(env@, loan_id),
            self@.loans.dom().contains(loan_id) ==> r == Ok::<bool, Failure>(
                self@.loans[loan_id].status is Active && env.timestamp
                    > self@.loans[loan_id].next_due,
            ),
            !self@.loans.dom().contains(loan_id) ==> r == Err::<bool, Failure>(
                Failure::Ledger(Error::LoanNotFound),
            ),
    {
        match self.loan_of(loan_id) {
            Ok(loan) => Ok(
                matches!(loan.status, LoanStatus::Active) && env.timestamp > loan.next_due,
            ),
            Err(e) => Err(e),
        }
    }

    /// Whether the loan's grace period has run out.
    pub fn is_grace_expired(&self, env: &Env, loan_id: u64) -> (r: Result<bool, Failure>)
        ensures
            r == self@.is_grace_expired(env@, loan_id),
            self@.loans.dom().contains(loan_id) ==> r == Ok::<bool, Failure>(
                self@.loans[loan_id].status is Grace && env.timestamp
                    > self@.loans[loan_id].grace_expires_at,
            ),
            !self@.loans.dom().contains(loan_id) ==> r == Err::<bool, Failure>(
                Failure::Ledger(Error::LoanNotFound),
            ),
    {
        match self.loan_of(loan_id) {
            Ok(loan) => Ok(
                matches!(loan.status, LoanStatus::Grace) && env.timestamp > loan.grace_expires_at,
            ),
            Err(e) => Err(e),
        }
    }

    /// Whose collateral backs the loan.
    pub fn loan_guarantor(&self, loan_id: u64) -> (r: Result<Address, Failure>)
        ensures
            self@.loans.dom().contains(loan_id) ==> r == Ok::<Address, Failure>(
                self@.loans[loan_id].guarantor,
            ),
            !self@.loans.dom().contains(loan_id) ==> r == Err::<Address, Failure>(
                Failure::Ledger(Error::LoanNotFound),
            ),
    {
        match self.loan_of(loan_id) {
            Ok(loan) => Ok(loan.guarantor),
            Err(e) => Err(e),
        }
    }

    /// Principal still owed.
    pub fn loan_outstanding(&self, loan_id: u64) -> (r: Result<i128, Failure>)
        requires
            self@.wf(),
        ensures
            self@.loans.dom().contains(loan_id) ==> (r matches Ok(owed) && owed
                == self@.loans[loan_id].outstanding() && owed >= 0 && owed
                == self@.loans[loan_id].principal_usd - self@.loans[loan_id].total_repaid_usd),
            !self@.loans.dom().contains(loan_id) ==> r == Err::<i128, Failure>(
                Failure::Ledger(Error::LoanNotFound),
            ),
    {
        match self.loan_of(loan_id) {
            Ok(loan) => {
                let outstanding: i128 = loan.principal_usd - loan.total_repaid_usd;
                if outstanding > 0 {
                    Ok(outstanding)
                } else {
                    Ok(0)
                }
            },
            Err(e) => Err(e),
        }
    }

    /// Collateral still locked against this loan.
    pub fn loan_collateral_remaining(&self, loan_id: u64) -> (r: Result<i128, Failure>)
        requires
            self@.wf(),
        ensures
            self@.loans.dom().contains(loan_id) ==> (r matches Ok(held) && held
                == self@.loans[loan_id].remaining() && held >= 0 && held
                == self@.loans[loan_id].collateral_locked
                - self@.loans[loan_id].collateral_released),
            !self@.loans.dom().contains(loan_id) ==> r == Err::<i128, Failure>(
                Failure::Ledger(Error::LoanNotFound),
            ),
    {
        match self.loan_of(loan_id) {
            Ok(loan) => {
                proof {
                    laws::lemma_released_within_locked(self@, loan_id);
                }
                Ok(loan.collateral_locked - loan.collateral_released)
            },
            Err(e) => Err(e),
        }
    }

    // --- Getters ---

    pub fn get_loan(&self, loan_id: u64) -> (r: Option<Loan>)
        ensures
            r == if self@.loans.dom().contains(loan_id) {
                Some(self@.loans[loan_id])
            } else {
                None
            },
    {
        self.loans.get(loan_id)
    }

    pub fn get_config(&self) -> (r: Result<Config, Failure>)
        ensures
            r == match self@.config {
                Some(config) => Ok::<Config, Failure>(config),
                None => Err::<Config, Failure>(Failure::Ledger(Error::NotInitialized)),
            },
    {
        self.config()
    }

    /// The published score; none counts as zero.
    pub fn get_reputation(&self, beneficiary: BytesN<32>) -> (r: u32)
        ensures
            r == self@.score(beneficiary),
            self@.reputations.dom().contains(beneficiary) ==> r == self@.reputations[beneficiary],
            !self@.reputations.dom().contains(beneficiary) ==> r == 0,
    {
        match self.reputations.get(beneficiary) {
            Some(score) => score,
            None => 0,
        }
    }

    pub fn is_partner(&self, partner: Address) -> (r: bool)
        ensures
            r == self@.is_partner(partner),
            r == (self@.partners.dom().contains(partner) && self@.partners[partner]),
    {
        match self.partners.get(partner) {
            Some(authorized) => authorized,
            None => false,
        }
    }

    /// The live loan between the two, if there is one.
    pub fn get_open_loan(&self, guarantor: Address, beneficiary: BytesN<32>) -> (r: Option<u64>)
        ensures
            r == if self@.open_loans.dom().contains(Pair { guarantor, beneficiary }) {
                Some(self@.open_loans[Pair { guarantor, beneficiary }])
            } else {
                None
            },
    {
        self.open_loans.get(Pair { guarantor, beneficiary })
    }

    pub fn get_loan_count(&self) -> (r: u64)
        ensures
            r == self@.loan_count,
    {
        self.loan_count
    }

    pub fn get_admin(&self) -> (r: Address)
        requires
            self@.admin is Some,
        ensures
            Some(r) == self@.admin,
    {
        self.admin.unwrap()
    }

    pub fn get_vault(&self) -> (r: Address)
        requires
            self@.vault is Some,
        ensures
            Some(r) == self@.vault,
    {
        self.vault.unwrap()
    }

    // --- Internals ---

    fn config(&self) -> (r: Result<Config, Failure>)
        ensures
            r == match self@.config {
                Some(config) => Ok::<Config, Failure>(config),
                None => Err::<Config, Failure>(Failure::Ledger(Error::NotInitialized)),
            },
    {
        match self.config {
            Some(config) => Ok(config),
            None => refuse(Error::NotInitialized),
        }
    }

    fn loan_of(&self, loan_id: u64) -> (r: Result<Loan, Failure>)
        ensures
            r == if self@.loans.dom().contains(loan_id) {
                Ok::<Loan, Failure>(self@.loans[loan_id])
            } else {
                Err::<Loan, Failure>(Failure::Ledger(Error::LoanNotFound))
            },
    {
        match self.loans.get(loan_id) {
            Some(loan) => Ok(loan),
            None => refuse(Error::LoanNotFound),
        }
    }

    fn vault_address(&self) -> (r: Result<Address, Failure>)
        ensures
            r == match self@.vault {
                Some(address) => Ok::<Address, Failure>(address),
                None => Err::<Address, Failure>(Failure::Ledger(Error::NotInitialized)),
            },
    {
        match self.vault {
            Some(address) => Ok(address),
            None => refuse(Error::NotInitialized),
        }
    }

    fn require_admin(&self, env: &Env, admin: Address) -> (r: Result<(), Failure>)
        ensures
            r == match self@.admin_refusal(env@, admin) {
                Some(e) => Err::<(), Failure>(e),
                None => Ok::<(), Failure>(()),
            },
    {
        if let Err(e) = env.require_auth(admin) {
            return Err(e);
        }
        match self.admin {
            Some(stored) => if stored.same(&admin) {
                Ok(())
            } else {
                refuse(Error::NotAuthorized)
            },
            None => refuse(Error::NotInitialized),
        }
    }

    fn require_engine(&self, env: &Env, caller: Address) -> (r: Result<(), Failure>)
        ensures
            r == match self@.engine_refusal(env@, caller) {
                Some(e) => Err::<(), Failure>(e),
                None => Ok::<(), Failure>(()),
            },
    {
        if let Err(e) = env.require_auth(caller) {
            return Err(e);
        }
        match self.liquidation_engine {
            Some(engine) => if engine.same(&caller) {
                Ok(())
            } else {
                refuse(Error::NotAuthorized)
            },
            None => refuse(Error::NotInitialized),
        }
    }
}

} // verus!
