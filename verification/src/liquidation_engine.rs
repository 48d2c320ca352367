//! LiquidationEngine: default detection and collateral settlement.
//!
//! The cranks are permissionless. Anyone may call them; what they do is
//! determined entirely by the loan's own state and the ledger clock, so there is
//! nothing for a caller to influence. That means a missed installment cannot be
//! left unrecorded because the platform failed to run a job.
//!
//! The engine never decides *how much* is owed: it reads that from the ledger
//! and settles exactly the outstanding amount, returning any excess collateral
//! to the guarantor rather than seizing the whole position.
pub mod laws;
pub mod model;
pub mod operations;

use crate::guarantor_vault::model::VaultState;
use crate::guarantor_vault::GuarantorVaultContract;
use crate::host::{renew, settles, Address, BytesN, Env, Failure};
use crate::loan_ledger;
use crate::loan_ledger::model::LedgerState;
use crate::loan_ledger::LoanLedgerContract;
use crate::table::Key;
use model::EngineState;
use vstd::prelude::*;

verus! {

/// Why the engine refuses a call.
#[derive(Clone, Copy, Debug, PartialEq, Eq, Structural)]
pub enum Error {
    AlreadyInitialized,
    NotInitialized,
    NotAuthorized,
    NotOverdue,
    GraceNotExpired,
}

impl Error {
    /// The number clients see, the same in every version of the contract.
    pub open spec fn spec_code(self) -> u32 {
        match self {
            Error::AlreadyInitialized => 1,
            Error::NotInitialized => 2,
            Error::NotAuthorized => 3,
            Error::NotOverdue => 4,
            Error::GraceNotExpired => 5,
        }
    }

    /// The number clients see.
    pub fn code(self) -> (r: u32)
        ensures
            r == self.spec_code(),
    {
        match self {
            Error::AlreadyInitialized => 1,
            Error::NotInitialized => 2,
            Error::NotAuthorized => 3,
            Error::NotOverdue => 4,
            Error::GraceNotExpired => 5,
        }
    }
}

/// The slice of the loan ledger that the engine calls.
pub trait LedgerInterface {
    /// The state of the ledger contract behind the interface.
    spec fn ledger_state(&self) -> LedgerState;

    fn is_overdue(&self, env: &Env, loan_id: u64) -> (r: Result<bool, Failure>)
        ensures
            r == self.ledger_state().is_overdue(env@, loan_id),
            r is Ok <==> self.ledger_state().loans.dom().contains(loan_id),
            r matches Ok(overdue) ==> overdue == (self.ledger_state().loans[loan_id].status
                is Active && env.timestamp > self.ledger_state().loans[loan_id].next_due),
    ;

    fn is_grace_expired(&self, env: &Env, loan_id: u64) -> (r: Result<bool, Failure>)
        ensures
            r == self.ledger_state().is_grace_expired(env@, loan_id),
            r is Ok <==> self.ledger_state().loans.dom().contains(loan_id),
            r matches Ok(expired) ==> expired == (self.ledger_state().loans[loan_id].status is Grace
                && env.timestamp > self.ledger_state().loans[loan_id].grace_expires_at),
    ;

    fn loan_guarantor(&self, env: &Env, loan_id: u64) -> (r: Result<Address, Failure>)
        ensures
            self.ledger_state().loans.dom().contains(loan_id) ==> r == Ok::<Address, Failure>(
                self.ledger_state().loans[loan_id].guarantor,
            ),
            !self.ledger_state().loans.dom().contains(loan_id) ==> r == Err::<Address, Failure>(
                Failure::Ledger(loan_ledger::Error::LoanNotFound),
            ),
    ;

    fn loan_outstanding(&self, env: &Env, loan_id: u64) -> (r: Result<i128, Failure>)
        requires
            self.ledger_state().wf(),
        ensures
            self.ledger_state().loans.dom().contains(loan_id) ==> (r matches Ok(owed) && owed
                == self.ledger_state().loans[loan_id].outstanding() && owed >= 0 && owed
                == self.ledger_state().loans[loan_id].principal_usd
                - self.ledger_state().loans[loan_id].total_repaid_usd),
            !self.ledger_state().loans.dom().contains(loan_id) ==> r == Err::<i128, Failure>(
                Failure::Ledger(loan_ledger::Error::LoanNotFound),
            ),
    ;

    fn loan_collateral_remaining(&self, env: &Env, loan_id: u64) -> (r: Result<i128, Failure>)
        requires
            self.ledger_state().wf(),
        ensures
            self.ledger_state().loans.dom().contains(loan_id) ==> (r matches Ok(held) && held
                == self.ledger_state().loans[loan_id].remaining() && held >= 0 && held
                == self.ledger_state().loans[loan_id].collateral_locked
                - self.ledger_state().loans[loan_id].collateral_released),
            !self.ledger_state().loans.dom().contains(loan_id) ==> r == Err::<i128, Failure>(
                Failure::Ledger(loan_ledger::Error::LoanNotFound),
            ),
    ;

    fn mark_grace(&mut self, env: &Env, caller: Address, loan_id: u64) -> (r: Result<(), Failure>)
        requires
            old(self).ledger_state().wf(),
        ensures
            settles(
                old(self).ledger_state(),
                final(self).ledger_state(),
                r,
                old(self).ledger_state().mark_grace(env@, caller, loan_id),
            ),
            final(self).ledger_state().wf(),
    ;

    fn mark_defaulted(&mut self, env: &Env, caller: Address, loan_id: u64) -> (r: Result<
        (),
        Failure,
    >)
        requires
            old(self).ledger_state().wf(),
        ensures
            settles(
                old(self).ledger_state(),
                final(self).ledger_state(),
                r,
                old(self).ledger_state().mark_defaulted(env@, caller, loan_id),
            ),
            final(self).ledger_state().wf(),
    ;
}

impl LedgerInterface for LoanLedgerContract {
    open spec fn ledger_state(&self) -> LedgerState {
        self@
    }

    fn is_overdue(&self, env: &Env, loan_id: u64) -> (r: Result<bool, Failure>) {
        LoanLedgerContract::is_overdue(self, env, loan_id)
    }

    fn is_grace_expired(&self, env: &Env, loan_id: u64) -> (r: Result<bool, Failure>) {
        LoanLedgerContract::is_grace_expired(self, env, loan_id)
    }

    fn loan_guarantor(&self, env: &Env, loan_id: u64) -> (r: Result<Address, Failure>) {
        LoanLedgerContract::loan_guarantor(self, loan_id)
    }

    fn loan_outstanding(&self, env: &Env, loan_id: u64) -> (r: Result<i128, Failure>) {
        LoanLedgerContract::loan_outstanding(self, loan_id)
    }

    fn loan_collateral_remaining(&self, env: &Env, loan_id: u64) -> (r: Result<i128, Failure>) {
        LoanLedgerContract::loan_collateral_remaining(self, loan_id)
    }

    fn mark_grace(&mut self, env: &Env, caller: Address, loan_id: u64) -> (r: Result<
        (),
        Failure,
    >) {
        LoanLedgerContract::mark_grace(self, env, caller, loan_id)
    }

    fn mark_defaulted(&mut self, env: &Env, caller: Address, loan_id: u64) -> (r: Result<
        (),
        Failure,
    >) {
        LoanLedgerContract::mark_defaulted(self, env, caller, loan_id)
    }
}

/// The slice of the vault that the engine calls.
pub trait VaultInterface {
    /// The state of the vault contract behind the interface.
    spec fn vault_state(&self) -> VaultState;

    fn release_collateral(
        &mut self,
        env: &Env,
        caller: Address,
        guarantor: Address,
        amount: i128,
    ) -> (r: Result<(), Failure>)
        requires
            old(self).vault_state().wf(),
        ensures
            settles(
                old(self).vault_state(),
                final(self).vault_state(),
                r,
                old(self).vault_state().release_collateral(env@, caller, guarantor, amount),
            ),
            final(self).vault_state().wf(),
    ;

    fn forfeit_collateral(
        &mut self,
        env: &Env,
        caller: Address,
        guarantor: Address,
        amount: i128,
    ) -> (r: Result<(), Failure>)
        requires
            old(self).vault_state().wf(),
        ensures
            settles(
                old(self).vault_state(),
                final(self).vault_state(),
                r,
                old(self).vault_state().forfeit_collateral(env@, caller, guarantor, amount),
            ),
            final(self).vault_state().wf(),
    ;
}

impl VaultInterface for GuarantorVaultContract {
    open spec fn vault_state(&self) -> VaultState {
        self@
    }

    fn release_collateral(
        &mut self,
        env: &Env,
        caller: Address,
        guarantor: Address,
        amount: i128,
    ) -> (r: Result<(), Failure>) {
        GuarantorVaultContract::release_collateral(self, env, caller, guarantor, amount)
    }

    fn forfeit_collateral(
        &mut self,
        env: &Env,
        caller: Address,
        guarantor: Address,
        amount: i128,
    ) -> (r: Result<(), Failure>) {
        GuarantorVaultContract::forfeit_collateral(self, env, caller, guarantor, amount)
    }
}

/// The liquidation engine and all it remembers.
#[derive(Debug)]
pub struct LiquidationEngineContract {
    pub admin: Option<Address>,
    pub pending_admin: Option<Address>,
    pub vault: Option<Address>,
    pub loan_ledger: Option<Address>,
    pub wasm_hash: Option<BytesN<32>>,
    pub live_until: u64,
}

impl View for LiquidationEngineContract {
    type V = EngineState;

    open spec fn view(&self) -> EngineState {
        EngineState {
            admin: self.admin,
            pending_admin: self.pending_admin,
            vault: self.vault,
            loan_ledger: self.loan_ledger,
            wasm_hash: self.wasm_hash,
            live_until: self.live_until,
        }
    }
}

/// A refusal by the engine.
fn refuse<T>(e: Error) -> (r: Result<T, Failure>)
    ensures
        r == Err::<T, Failure>(Failure::Engine(e)),
{
    Err(Failure::Engine(e))
}

impl LiquidationEngineContract {
    /// An engine that nothing has been set up in yet.
    pub fn new() -> (r: Self)
        ensures
            r@ == EngineState::empty(),
    {
        LiquidationEngineContract {
            admin: None,
            pending_admin: None,
            vault: None,
            loan_ledger: None,
            wasm_hash: None,
            live_until: 0,
        }
    }

    /// Runs once, as part of the deployment. There is no separate call for anyone
    /// to front-run between deployment and setup, so nobody else can claim the
    /// admin role.
    pub fn __constructor(env: &Env, admin: Address, vault: Address, loan_ledger: Address) -> (r:
        Self)
        ensures
            r@ == EngineState::constructed(env@, admin, vault, loan_ledger),
    {
        let mut contract = LiquidationEngineContract::new();
        contract.extend_instance(env);
        contract.admin = Some(admin);
        contract.vault = Some(vault);
        contract.loan_ledger = Some(loan_ledger);
        contract
    }

    /// Sets up an engine that was deployed without a constructor, once.
    pub fn initialize(
        &mut self,
        env: &Env,
        admin: Address,
        vault: Address,
        loan_ledger: Address,
    ) -> (r: Result<(), Failure>)
        ensures
            settles(
                old(self)@,
                final(self)@,
                r,
                old(self)@.initialize(env@, admin, vault, loan_ledger),
            ),
    {
        if self.admin.is_some() {
            return refuse(Error::AlreadyInitialized);
        }
        self.extend_instance(env);
        self.admin = Some(admin);
        self.vault = Some(vault);
        self.loan_ledger = Some(loan_ledger);
        Ok(())
    }

    // --- Administration ---

    /// Replaces this contract's code while keeping its address and storage, so
    /// a bug found after launch can be fixed without migrating live loans or
    /// locked collateral. Admin only. The new code must already be uploaded.
    pub fn upgrade(&mut self, env: &Env, admin: Address, new_wasm_hash: BytesN<32>) -> (r: Result<
        (),
        Failure,
    >)
        ensures
            settles(old(self)@, final(self)@, r, old(self)@.upgrade(env@, admin, new_wasm_hash)),
    {
        if let Err(e) = self.require_admin(env, admin) {
            return Err(e);
        }
        self.extend_instance(env);
        self.wasm_hash = Some(new_wasm_hash);
        Ok(())
    }

    /// Begins handing the admin role to `new_admin`. Nothing changes until the
    /// new admin accepts, so a mistyped address cannot lock the protocol out.
    pub fn propose_admin(&mut self, env: &Env, admin: Address, new_admin: Address) -> (r: Result<
        (),
        Failure,
    >)
        ensures
            settles(old(self)@, final(self)@, r, old(self)@.propose_admin(env@, admin, new_admin)),
    {
        if let Err(e) = self.require_admin(env, admin) {
            return Err(e);
        }
        self.extend_instance(env);
        self.pending_admin = Some(new_admin);
        Ok(())
    }

    /// Completes a handover proposed by the current admin.
    pub fn accept_admin(&mut self, env: &Env, new_admin: Address) -> (r: Result<(), Failure>)
        ensures
            settles(old(self)@, final(self)@, r, old(self)@.accept_admin(env@, new_admin)),
    {
        if let Err(e) = env.require_auth(new_admin) {
            return Err(e);
        }
        match self.pending_admin {
            Some(pending) => if !pending.same(&new_admin) {
                return refuse(Error::NotAuthorized);
            },
            None => return refuse(Error::NotAuthorized),
        }
        self.extend_instance(env);
        self.admin = Some(new_admin);
        self.pending_admin = None;
        Ok(())
    }

    // --- Cranks ---

    /// Starts the grace period on an overdue loan. Permissionless. `ledger` is
    /// the contract at the registered ledger address.
    pub fn flag_overdue<L: LedgerInterface>(
        &mut self,
        env: &Env,
        ledger: &mut L,
        loan_id: u64,
    ) -> (r: Result<(), Failure>)
        requires
            old(ledger).ledger_state().wf(),
        ensures
            match old(self)@.flag_overdue(old(ledger).ledger_state(), env@, loan_id) {
                Ok((engine, marked)) => r == Ok::<(), Failure>(()) && final(self)@ == engine
                    && final(ledger).ledger_state() == marked,
                Err(e) => r == Err::<(), Failure>(e) && final(self)@ == old(self)@
                    && final(ledger).ledger_state() == old(ledger).ledger_state(),
            },
            final(ledger).ledger_state().wf(),
    {
        let address = match self.ledger_address() {
            Ok(address) => address,
            Err(e) => return Err(e),
        };
        let call = env.invoke(address);
        match ledger.is_overdue(&call, loan_id) {
            Ok(overdue) => if !overdue {
                return refuse(Error::NotOverdue);
            },
            Err(e) => return Err(e),
        }
        if let Err(e) = ledger.mark_grace(&call, env.contract, loan_id) {
            return Err(e);
        }
        self.extend_instance(env);
        Ok(())
    }

    /// Liquidates a loan whose grace period has expired. Permissionless.
    ///
    /// Forfeits collateral equal to the outstanding principal, capped at what is
    /// actually locked, and returns the remainder to the guarantor. Returns the
    /// amount forfeited. `ledger` and `vault` are the contracts at the registered
    /// addresses.
    pub fn liquidate<L: LedgerInterface, V: VaultInterface>(
        &mut self,
        env: &Env,
        ledger: &mut L,
        vault: &mut V,
        loan_id: u64,
    ) -> (r: Result<i128, Failure>)
        requires
            old(ledger).ledger_state().wf(),
            old(vault).vault_state().wf(),
        ensures
            ({
                let (settled, result) = old(self)@.liquidate(
                    old(ledger).ledger_state(),
                    old(vault).vault_state(),
                    env@,
                    loan_id,
                );
                &&& final(vault).vault_state() == settled
                &&& match result {
                    Ok((engine, closed, seized)) => r == Ok::<i128, Failure>(seized)
                        && final(self)@ == engine && final(ledger).ledger_state() == closed,
                    Err(e) => r == Err::<i128, Failure>(e) && final(self)@ == old(self)@
                        && final(ledger).ledger_state() == old(ledger).ledger_state(),
                }
            }),
            r matches Ok(seized) ==> ({
                let loan = old(ledger).ledger_state().loans[loan_id];
                let owed = loan.principal_usd - loan.total_repaid_usd;
                let held = loan.collateral_locked - loan.collateral_released;
                &&& seized <= owed
                &&& seized <= held
                &&& seized == owed || seized == held
            }),
            final(ledger).ledger_state().wf(),
            final(vault).vault_state().wf(),
    {
        let ledger_address = match self.ledger_address() {
            Ok(address) => address,
            Err(e) => return Err(e),
        };
        let ledger_call = env.invoke(ledger_address);
        match ledger.is_grace_expired(&ledger_call, loan_id) {
            Ok(expired) => if !expired {
                return refuse(Error::GraceNotExpired);
            },
            Err(e) => return Err(e),
        }
        let guarantor = match ledger.loan_guarantor(&ledger_call, loan_id) {
            Ok(guarantor) => guarantor,
            Err(e) => return Err(e),
        };
        let outstanding = match ledger.loan_outstanding(&ledger_call, loan_id) {
            Ok(outstanding) => outstanding,
            Err(e) => return Err(e),
        };
        let remaining = match ledger.loan_collateral_remaining(&ledger_call, loan_id) {
            Ok(remaining) => remaining,
            Err(e) => return Err(e),
        };
        let forfeited: i128 = if outstanding < remaining {
            outstanding
        } else {
            remaining
        };
        let returned: i128 = remaining - forfeited;

        let vault_address = match self.vault_address() {
            Ok(address) => address,
            Err(e) => return Err(e),
        };
        let vault_call = env.invoke(vault_address);
        if forfeited > 0 {
            if let Err(e) = vault.forfeit_collateral(
                &vault_call,
                env.contract,
                guarantor,
                forfeited,
            ) {
                return Err(e);
            }
        }
        if returned > 0 {
            if let Err(e) = vault.release_collateral(
                &vault_call,
                env.contract,
                guarantor,
                returned,
            ) {
                return Err(e);
            }
        }
        if let Err(e) = ledger.mark_defaulted(&ledger_call, env.contract, loan_id) {
            return Err(e);
        }
        self.extend_instance(env);
        Ok(forfeited)
    }

    /// Convenience crank: advances whichever transition the loan is due for.
    /// Returns true if it did something.
    pub fn poke<L: LedgerInterface, V: VaultInterface>(
        &mut self,
        env: &Env,
        ledger: &mut L,
        vault: &mut V,
        loan_id: u64,
    ) -> (r: Result<bool, Failure>)
        requires
            old(ledger).ledger_state().wf(),
            old(vault).vault_state().wf(),
        ensures
            ({
                let (settled, result) = old(self)@.poke(
                    old(ledger).ledger_state(),
                    old(vault).vault_state(),
                    env@,
                    loan_id,
                );
                &&& final(vault).vault_state() == settled
                &&& match result {
                    Ok((engine, after, acted)) => r == Ok::<bool, Failure>(acted) && final(self)@
                        == engine && final(ledger).ledger_state() == after,
                    Err(e) => r == Err::<bool, Failure>(e) && final(self)@ == old(self)@
                        && final(ledger).ledger_state() == old(ledger).ledger_state(),
                }
            }),
            final(ledger).ledger_state().wf(),
            final(vault).vault_state().wf(),
    {
        let address = match self.ledger_address() {
            Ok(address) => address,
            Err(e) => return Err(e),
        };
        let call = env.invoke(address);
        let overdue = match ledger.is_overdue(&call, loan_id) {
            Ok(overdue) => overdue,
            Err(e) => return Err(e),
        };
        if overdue {
            if let Err(e) = ledger.mark_grace(&call, env.contract, loan_id) {
                return Err(e);
            }
            self.extend_instance(env);
            return Ok(true);
        }
        let expired = match ledger.is_grace_expired(&call, loan_id) {
            Ok(expired) => expired,
            Err(e) => return Err(e),
        };
        if expired {
            return match self.liquidate(env, ledger, vault, loan_id) {
                Ok(_) => Ok(true),
                Err(e) => Err(e),
            };
        }
        self.extend_instance(env);
        Ok(false)
    }

    // --- Getters ---

    pub fn get_admin(&self) -> (r: Address)
        requires
            self@.admin is Some,
        ensures
            Some(r) == self@.admin,
    {
        self.admin.unwrap()
    }

    pub fn get_vault(&self) -> (r: Address)
        requires
            self@.vault is Some,
        ensures
            Some(r) == self@.vault,
    {
        self.vault.unwrap()
    }

    pub fn get_loan_ledger(&self) -> (r: Address)
        requires
            self@.loan_ledger is Some,
        ensures
            Some(r) == self@.loan_ledger,
    {
        self.loan_ledger.unwrap()
    }

    // --- Internals ---

    /// Keeps the contract instance, and with it the configuration and the
    /// contract code, from being archived while the protocol is in use.
    fn extend_instance(&mut self, env: &Env)
        ensures
            final(self)@ == old(self)@.used(env@),
    {
        self.live_until = renew(self.live_until, env.sequence);
    }

    fn require_admin(&self, env: &Env, admin: Address) -> (r: Result<(), Failure>)
        ensures
            r == match self@.admin_refusal(env@, admin) {
                Some(e) => Err::<(), Failure>(e),
                None => Ok::<(), Failure>(()),
            },
    {
        if let Err(e) = env.require_auth(admin) {
            return Err(e);
        }
        match self.admin {
            Some(stored) => if stored.same(&admin) {
                Ok(())
            } else {
                refuse(Error::NotAuthorized)
            },
            None => refuse(Error::NotInitialized),
        }
    }

    fn ledger_address(&self) -> (r: Result<Address, Failure>)
        ensures
            r == match self@.loan_ledger {
                Some(address) => Ok::<Address, Failure>(address),
                None => Err::<Address, Failure>(Failure::Engine(Error::NotInitialized)),
            },
    {
        match self.loan_ledger {
            Some(address) => Ok(address),
            None => refuse(Error::NotInitialized),
        }
    }

    fn vault_address(&self) -> (r: Result<Address, Failure>)
        ensures
            r == match self@.vault {
                Some(address) => Ok::<Address, Failure>(address),
                None => Err::<Address, Failure>(Failure::Engine(Error::NotInitialized)),
            },
    {
        match self.vault {
            Some(address) => Ok(address),
            None => refuse(Error::NotInitialized),
        }
    }
}

} // verus!
