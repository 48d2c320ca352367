//! GuarantorVault: isolated USDC collateral vaults.
//!
//! Every guarantor has a vault of their own. Collateral is never pooled across
//! guarantors, so a default on one relationship can never touch another
//! guarantor's funds.
//!
//! The vault is deliberately passive: it holds USDC and tracks how much of it
//! is spoken for, but it does not know what a loan is. The loan ledger decides
//! when to lock and release; the liquidation engine decides when to forfeit.
pub mod laws;
pub mod model;
pub mod operations;

use crate::host::{renew, settles, Address, BytesN, Env, Failure, Transfer};
use crate::table::{Key, Table};
use model::VaultState;
use vstd::prelude::*;

verus! {

/// Why the vault refuses a call.
#[derive(Clone, Copy, Debug, PartialEq, Eq, Structural)]
pub enum Error {
    AlreadyInitialized,
    NotInitialized,
    NotAuthorized,
    InvalidAmount,
    InsufficientAvailable,
    InsufficientLocked,
    LedgerNotSet,
    EngineNotSet,
    /// The ledger or the engine has been set before; it is set once.
    AlreadyWired,
    /// Another change is waiting; there is one at a time.
    ActionAlreadyScheduled,
    NoScheduledAction,
    /// The change has to wait out the timelock.
    TimelockNotExpired,
}

impl Error {
    /// The number clients see, the same in every version of the contract.
    pub open spec fn spec_code(self) -> u32 {
        match self {
            Error::AlreadyInitialized => 1,
            Error::NotInitialized => 2,
            Error::NotAuthorized => 3,
            Error::InvalidAmount => 4,
            Error::InsufficientAvailable => 5,
            Error::InsufficientLocked => 6,
            Error::LedgerNotSet => 7,
            Error::EngineNotSet => 8,
            Error::AlreadyWired => 9,
            Error::ActionAlreadyScheduled => 10,
            Error::NoScheduledAction => 11,
            Error::TimelockNotExpired => 12,
        }
    }

    /// The number clients see.
    pub fn code(self) -> (r: u32)
        ensures
            r == self.spec_code(),
    {
        match self {
            Error::AlreadyInitialized => 1,
            Error::NotInitialized => 2,
            Error::NotAuthorized => 3,
            Error::InvalidAmount => 4,
            Error::InsufficientAvailable => 5,
            Error::InsufficientLocked => 6,
            Error::LedgerNotSet => 7,
            Error::EngineNotSet => 8,
            Error::AlreadyWired => 9,
            Error::ActionAlreadyScheduled => 10,
            Error::NoScheduledAction => 11,
            Error::TimelockNotExpired => 12,
        }
    }
}

/// A single guarantor's collateral position.
///
/// `locked_amount` is the portion backing active loans. `collateral_balance`
/// minus `locked_amount` is what the guarantor may withdraw.
#[derive(Clone, Copy, Debug, PartialEq, Eq)]
pub struct Vault {
    pub guarantor: Address,
    pub collateral_balance: i128,
    pub locked_amount: i128,
}

impl Vault {
    /// A position locks no more than it holds.
    pub open spec fn wf(self) -> bool {
        0 <= self.locked_amount <= self.collateral_balance
    }

    /// Whether a stored position is one that the vault has written.
    pub fn is_sound(&self) -> (r: bool)
        ensures
            r == self.wf(),
            r == (0 <= self.locked_amount && self.locked_amount <= self.collateral_balance),
    {
        0 <= self.locked_amount && self.locked_amount <= self.collateral_balance
    }
}

/// A stored position and the last ledger it lives through.
#[derive(Clone, Copy, Debug, PartialEq, Eq)]
pub struct Entry {
    pub vault: Vault,
    pub live_until: u64,
}

/// A change that has to wait out the timelock.
#[derive(Clone, Copy, Debug, PartialEq, Eq)]
pub enum Action {
    /// Send forfeited collateral to another address.
    SetSettlement(Address),
    /// Replace the contract's code.
    Upgrade(BytesN<32>),
}

/// A scheduled change and the earliest time it may run.
#[derive(Clone, Copy, Debug, PartialEq, Eq)]
pub struct ScheduledAction {
    pub action: Action,
    pub eta: u64,
}

/// The vault contract and all it remembers.
#[derive(Debug)]
pub struct GuarantorVaultContract {
    pub admin: Option<Address>,
    pub pending_admin: Option<Address>,
    pub usdc_token: Option<Address>,
    pub settlement_address: Option<Address>,
    pub loan_ledger: Option<Address>,
    pub liquidation_engine: Option<Address>,
    pub timelock_secs: Option<u64>,
    pub scheduled_action: Option<ScheduledAction>,
    pub wasm_hash: Option<BytesN<32>>,
    pub live_until: u64,
    pub vaults: Table<Address, Entry>,
    pub transfers: Vec<Transfer>,
}

impl View for GuarantorVaultContract {
    type V = VaultState;

    open spec fn view(&self) -> VaultState {
        VaultState {
            admin: self.admin,
            pending_admin: self.pending_admin,
            usdc_token: self.usdc_token,
            settlement_address: self.settlement_address,
            loan_ledger: self.loan_ledger,
            liquidation_engine: self.liquidation_engine,
            timelock_secs: self.timelock_secs,
            scheduled_action: self.scheduled_action,
            wasm_hash: self.wasm_hash,
            live_until: self.live_until,
            vaults: self.vaults@,
            transfers: self.transfers@,
        }
    }
}

/// A refusal by the vault.
fn refuse(e: Error) -> (r: Result<(), Failure>)
    ensures
        r == Err::<(), Failure>(Failure::Vault(e)),
{
    Err(Failure::Vault(e))
}

impl GuarantorVaultContract {
    /// A vault contract that nothing has been set up in yet.
    pub fn new() -> (r: Self)
        ensures
            r@ == VaultState::empty(),
            r@.wf(),
    {
        GuarantorVaultContract {
            admin: None,
            pending_admin: None,
            usdc_token: None,
            settlement_address: None,
            loan_ledger: None,
            liquidation_engine: None,
            timelock_secs: None,
            scheduled_action: None,
            wasm_hash: None,
            live_until: 0,
            vaults: Table::new(),
            transfers: Vec::new(),
        }
    }

    /// Runs once, as part of the deployment, so that there is no moment at which
    /// an unclaimed vault could be claimed by someone else. Sensitive changes to
    /// a vault deployed so wait out `timelock_secs`.
    pub fn __constructor(
        env: &Env,
        admin: Address,
        usdc_token: Address,
        settlement_address: Address,
        timelock_secs: u64,
    ) -> (r: Self)
        ensures
            r@ == VaultState::constructed(
                env@,
                admin,
                usdc_token,
                settlement_address,
                timelock_secs,
            ),
            r@.wf(),
    {
        let mut contract = GuarantorVaultContract::new();
        contract.extend_instance(env);
        contract.admin = Some(admin);
        contract.usdc_token = Some(usdc_token);
        contract.settlement_address = Some(settlement_address);
        contract.timelock_secs = Some(timelock_secs);
        contract
    }

    /// Sets up a vault that was deployed without a constructor, once. Such a
    /// vault has no timelock.
    pub fn initialize(
        &mut self,
        env: &Env,
        admin: Address,
        usdc_token: Address,
        settlement_address: Address,
    ) -> (r: Result<(), Failure>)
        requires
            old(self)@.wf(),
        ensures
            settles(
                old(self)@,
                final(self)@,
                r,
                old(self)@.initialize(env@, admin, usdc_token, settlement_address),
            ),
            final(self)@.wf(),
    {
        if self.admin.is_some() {
            return refuse(Error::AlreadyInitialized);
        }
        self.extend_instance(env);
        self.admin = Some(admin);
        self.usdc_token = Some(usdc_token);
        self.settlement_address = Some(settlement_address);
        Ok(())
    }

    // --- Administration ---

    /// Registers the loan ledger, the only caller allowed to lock collateral. Set once.
    pub fn set_loan_ledger(&mut self, env: &Env, admin: Address, ledger: Address) -> (r: Result<
        (),
        Failure,
    >)
        requires
            old(self)@.wf(),
        ensures
            settles(
                old(self)@,
                final(self)@,
                r,
                old(self)@.set_loan_ledger(env@, admin, ledger),
            ),
            final(self)@.wf(),
    {
        if let Err(e) = self.require_admin(env, admin) {
            return Err(e);
        }
        if self.loan_ledger.is_some() {
            return refuse(Error::AlreadyWired);
        }
        self.extend_instance(env);
        self.loan_ledger = Some(ledger);
        Ok(())
    }

    /// Registers the liquidation engine, the only caller allowed to forfeit
    /// collateral. Set once.
    pub fn set_liquidation_engine(&mut self, env: &Env, admin: Address, engine: Address) -> (r:
        Result<(), Failure>)
        requires
            old(self)@.wf(),
        ensures
            settles(
                old(self)@,
                final(self)@,
                r,
                old(self)@.set_liquidation_engine(env@, admin, engine),
            ),
            final(self)@.wf(),
    {
        if let Err(e) = self.require_admin(env, admin) {
            return Err(e);
        }
        if self.liquidation_engine.is_some() {
            return refuse(Error::AlreadyWired);
        }
        self.extend_instance(env);
        self.liquidation_engine = Some(engine);
        Ok(())
    }

    /// Changes where forfeited collateral is sent. On a vault with a timelock
    /// the change is scheduled instead, and this is refused.
    pub fn set_settlement_address(
        &mut self,
        env: &Env,
        admin: Address,
        settlement_address: Address,
    ) -> (r: Result<(), Failure>)
        requires
            old(self)@.wf(),
        ensures
            settles(
                old(self)@,
                final(self)@,
                r,
                old(self)@.set_settlement_address(env@, admin, settlement_address),
            ),
            final(self)@.wf(),
    {
        if let Err(e) = self.require_admin(env, admin) {
            return Err(e);
        }
        if self.timelock_secs.is_some() {
            return refuse(Error::TimelockNotExpired);
        }
        self.extend_instance(env);
        self.settlement_address = Some(settlement_address);
        Ok(())
    }

    /// Records a change and the earliest time it may run. One at a time.
    pub fn schedule_action(&mut self, env: &Env, admin: Address, action: Action) -> (r: Result<
        (),
        Failure,
    >)
        requires
            old(self)@.wf(),
        ensures
            settles(
                old(self)@,
                final(self)@,
                r,
                old(self)@.schedule_action(env@, admin, action),
            ),
            final(self)@.wf(),
    {
        if let Err(e) = self.require_admin(env, admin) {
            return Err(e);
        }
        let delay = match self.timelock_secs {
            Some(delay) => delay,
            None => return refuse(Error::NotInitialized),
        };
        if self.scheduled_action.is_some() {
            return refuse(Error::ActionAlreadyScheduled);
        }
        match env.timestamp.checked_add(delay) {
            Some(eta) => {
                self.extend_instance(env);
                self.scheduled_action = Some(ScheduledAction { action, eta });
                Ok(())
            },
            None => Err(Failure::Trap),
        }
    }

    /// Carries out the scheduled change, once its time has come.
    pub fn execute_action(&mut self, env: &Env, admin: Address) -> (r: Result<(), Failure>)
        requires
            old(self)@.wf(),
        ensures
            settles(old(self)@, final(self)@, r, old(self)@.execute_action(env@, admin)),
            final(self)@.wf(),
    {
        if let Err(e) = self.require_admin(env, admin) {
            return Err(e);
        }
        let scheduled = match self.scheduled_action {
            Some(scheduled) => scheduled,
            None => return refuse(Error::NoScheduledAction),
        };
        if env.timestamp < scheduled.eta {
            return refuse(Error::TimelockNotExpired);
        }
        self.extend_instance(env);
        self.scheduled_action = None;
        match scheduled.action {
            Action::SetSettlement(address) => {
                self.settlement_address = Some(address);
            },
            Action::Upgrade(wasm_hash) => {
                self.wasm_hash = Some(wasm_hash);
            },
        }
        Ok(())
    }

    /// Withdraws the scheduled change before it runs.
    pub fn cancel_action(&mut self, env: &Env, admin: Address) -> (r: Result<(), Failure>)
        requires
            old(self)@.wf(),
        ensures
            settles(old(self)@, final(self)@, r, old(self)@.cancel_action(env@, admin)),
            final(self)@.wf(),
    {
        if let Err(e) = self.require_admin(env, admin) {
            return Err(e);
        }
        if self.scheduled_action.is_none() {
            return refuse(Error::NoScheduledAction);
        }
        self.extend_instance(env);
        self.scheduled_action = None;
        Ok(())
    }

    /// Begins handing the admin role to `new_admin`. Nothing changes until the
    /// new admin accepts, so a mistyped address cannot lock the protocol out.
    pub fn propose_admin(&mut self, env: &Env, admin: Address, new_admin: Address) -> (r: Result<
        (),
        Failure,
    >)
        requires
            old(self)@.wf(),
        ensures
            settles(
                old(self)@,
                final(self)@,
                r,
                old(self)@.propose_admin(env@, admin, new_admin),
            ),
            final(self)@.wf(),
    {
        if let Err(e) = self.require_admin(env, admin) {
            return Err(e);
        }
        self.extend_instance(env);
        self.pending_admin = Some(new_admin);
        Ok(())
    }

    /// Completes a handover proposed by the current admin.
    pub fn accept_admin(&mut self, env: &Env, new_admin: Address) -> (r: Result<(), Failure>)
        requires
            old(self)@.wf(),
        ensures
            settles(old(self)@, final(self)@, r, old(self)@.accept_admin(env@, new_admin)),
            final(self)@.wf(),
    {
        if let Err(e) = env.require_auth(new_admin) {
            return Err(e);
        }
        match self.pending_admin {
            Some(pending) => if !pending.same(&new_admin) {
                return refuse(Error::NotAuthorized);
            },
            None => return refuse(Error::NotAuthorized),
        }
        self.extend_instance(env);
        self.admin = Some(new_admin);
        self.pending_admin = None;
        Ok(())
    }

    // --- Guarantor operations ---

    /// Deposits USDC into the caller's own vault.
    pub fn deposit(&mut self, env: &Env, guarantor: Address, amount: i128) -> (r: Result<
        (),
        Failure,
    >)
        requires
            old(self)@.wf(),
        ensures
            settles(old(self)@, final(self)@, r, old(self)@.deposit(env@, guarantor, amount)),
            final(self)@.wf(),
    {
        if let Err(e) = env.require_auth(guarantor) {
            return Err(e);
        }
        if amount <= 0 {
            return refuse(Error::InvalidAmount);
        }
        let usdc = match self.usdc() {
            Ok(usdc) => usdc,
            Err(e) => return Err(e),
        };
        let mut vault = self.vault_of(guarantor);
        match vault.collateral_balance.checked_add(amount) {
            Some(balance) => {
                vault.collateral_balance = balance;
            },
            None => return Err(Failure::Trap),
        }
        self.transfers.push(Transfer { token: usdc, from: guarantor, to: env.contract, amount });
        self.save(env, vault);
        Ok(())
    }

    /// Withdraws unlocked collateral. Collateral backing an active loan cannot be
    /// withdrawn.
    pub fn withdraw(&mut self, env: &Env, guarantor: Address, amount: i128) -> (r: Result<
        (),
        Failure,
    >)
        requires
            old(self)@.wf(),
        ensures
            settles(old(self)@, final(self)@, r, old(self)@.withdraw(env@, guarantor, amount)),
            final(self)@.wf(),
    {
        if let Err(e) = env.require_auth(guarantor) {
            return Err(e);
        }
        if amount <= 0 {
            return refuse(Error::InvalidAmount);
        }
        let mut vault = self.vault_of(guarantor);
        let available: i128 = vault.collateral_balance - vault.locked_amount;
        if amount > available {
            return refuse(Error::InsufficientAvailable);
        }
        let usdc = match self.usdc() {
            Ok(usdc) => usdc,
            Err(e) => return Err(e),
        };
        vault.collateral_balance = vault.collateral_balance - amount;
        self.transfers.push(Transfer { token: usdc, from: env.contract, to: guarantor, amount });
        self.save(env, vault);
        Ok(())
    }

    // --- Protocol operations ---

    /// Reserves collateral against a new loan. Loan ledger only.
    pub fn lock_collateral(
        &mut self,
        env: &Env,
        caller: Address,
        guarantor: Address,
        amount: i128,
    ) -> (r: Result<(), Failure>)
        requires
            old(self)@.wf(),
        ensures
            settles(
                old(self)@,
                final(self)@,
                r,
                old(self)@.lock_collateral(env@, caller, guarantor, amount),
            ),
            final(self)@.wf(),
    {
        if let Err(e) = env.require_auth(caller) {
            return Err(e);
        }
        if let Err(e) = self.require_ledger(caller) {
            return Err(e);
        }
        if amount <= 0 {
            return refuse(Error::InvalidAmount);
        }
        let mut vault = self.vault_of(guarantor);
        let available: i128 = vault.collateral_balance - vault.locked_amount;
        if amount > available {
            return refuse(Error::InsufficientAvailable);
        }
        vault.locked_amount = vault.locked_amount + amount;
        self.save(env, vault);
        Ok(())
    }

    /// Returns collateral to the guarantor's available balance. Loan ledger or
    /// liquidation engine: the ledger releases as repayments land, the engine
    /// releases whatever a liquidation did not consume.
    pub fn release_collateral(
        &mut self,
        env: &Env,
        caller: Address,
        guarantor: Address,
        amount: i128,
    ) -> (r: Result<(), Failure>)
        requires
            old(self)@.wf(),
        ensures
            settles(
                old(self)@,
                final(self)@,
                r,
                old(self)@.release_collateral(env@, caller, guarantor, amount),
            ),
            final(self)@.wf(),
    {
        if let Err(e) = env.require_auth(caller) {
            return Err(e);
        }
        if let Err(e) = self.require_ledger_or_engine(caller) {
            return Err(e);
        }
        if amount <= 0 {
            return refuse(Error::InvalidAmount);
        }
        let mut vault = self.vault_of(guarantor);
        if amount > vault.locked_amount {
            return refuse(Error::InsufficientLocked);
        }
        vault.locked_amount = vault.locked_amount - amount;
        self.save(env, vault);
        Ok(())
    }

    /// Seizes locked collateral and orders its USDC moved to the settlement
    /// address. Liquidation engine only.
    pub fn forfeit_collateral(
        &mut self,
        env: &Env,
        caller: Address,
        guarantor: Address,
        amount: i128,
    ) -> (r: Result<(), Failure>)
        requires
            old(self)@.wf(),
        ensures
            settles(
                old(self)@,
                final(self)@,
                r,
                old(self)@.forfeit_collateral(env@, caller, guarantor, amount),
            ),
            final(self)@.wf(),
    {
        if let Err(e) = env.require_auth(caller) {
            return Err(e);
        }
        if let Err(e) = self.require_engine(caller) {
            return Err(e);
        }
        if amount <= 0 {
            return refuse(Error::InvalidAmount);
        }
        let mut vault = self.vault_of(guarantor);
        if amount > vault.locked_amount {
            return refuse(Error::InsufficientLocked);
        }
        let settlement = match self.settlement_address {
            Some(settlement) => settlement,
            None => return refuse(Error::NotInitialized),
        };
        let usdc = match self.usdc() {
            Ok(usdc) => usdc,
            Err(e) => return Err(e),
        };
        vault.locked_amount = vault.locked_amount - amount;
        vault.collateral_balance = vault.collateral_balance - amount;
        self.transfers.push(Transfer { token: usdc, from: env.contract, to: settlement, amount });
        self.save(env, vault);
        Ok(())
    }

    // --- Getters ---

    /// The guarantor's position. Reading it renews it.
    pub fn get_vault(&mut self, env: &Env, guarantor: Address) -> (r: Vault)
        requires
            old(self)@.wf(),
        ensures
            r == old(self)@.position(guarantor),
            final(self)@ == old(self)@.read(env@, guarantor),
            final(self)@.wf(),
    {
        match self.vaults.get(guarantor) {
            Some(entry) => {
                self.save(env, entry.vault);
                entry.vault
            },
            None => {
                self.extend_instance(env);
                self.vault_of(guarantor)
            },
        }
    }

    /// All the guarantor's collateral.
    pub fn get_balance(&mut self, env: &Env, guarantor: Address) -> (r: i128)
        requires
            old(self)@.wf(),
        ensures
            r == old(self)@.balance(guarantor),
            final(self)@ == old(self)@.read(env@, guarantor),
            final(self)@.wf(),
    {
        self.get_vault(env, guarantor).collateral_balance
    }

    /// The part of it that backs loans.
    pub fn get_locked(&mut self, env: &Env, guarantor: Address) -> (r: i128)
        requires
            old(self)@.wf(),
        ensures
            r == old(self)@.locked(guarantor),
            final(self)@ == old(self)@.read(env@, guarantor),
            final(self)@.wf(),
    {
        self.get_vault(env, guarantor).locked_amount
    }

    /// The part of it that may be withdrawn.
    pub fn get_available(&mut self, env: &Env, guarantor: Address) -> (r: i128)
        requires
            old(self)@.wf(),
        ensures
            r == old(self)@.available(guarantor),
            final(self)@ == old(self)@.read(env@, guarantor),
            final(self)@.wf(),
    {
        let vault = self.get_vault(env, guarantor);
        vault.collateral_balance - vault.locked_amount
    }

    pub fn get_admin(&self) -> (r: Address)
        requires
            self@.admin is Some,
        ensures
            Some(r) == self@.admin,
    {
        self.admin.unwrap()
    }

    pub fn get_usdc_token(&self) -> (r: Address)
        requires
            self@.usdc_token is Some,
        ensures
            Some(r) == self@.usdc_token,
    {
        self.usdc_token.unwrap()
    }

    pub fn get_settlement_address(&self) -> (r: Address)
        requires
            self@.settlement_address is Some,
        ensures
            Some(r) == self@.settlement_address,
    {
        self.settlement_address.unwrap()
    }

    pub fn get_timelock_secs(&self) -> (r: u64)
        requires
            self@.timelock_secs is Some,
        ensures
            Some(r) == self@.timelock_secs,
    {
        self.timelock_secs.unwrap()
    }

    pub fn get_loan_ledger(&self) -> (r: Option<Address>)
        ensures
            r == self@.loan_ledger,
    {
        self.loan_ledger
    }

    pub fn get_liquidation_engine(&self) -> (r: Option<Address>)
        ensures
            r == self@.liquidation_engine,
    {
        self.liquidation_engine
    }

    pub fn get_scheduled_action(&self) -> (r: Option<ScheduledAction>)
        ensures
            r == self@.scheduled_action,
    {
        self.scheduled_action
    }

    // --- Internals ---

    /// Keeps the contract from being archived while it is in use.
    fn extend_instance(&mut self, env: &Env)
        ensures
            final(self)@ == old(self)@.used(env@),
    {
        self.live_until = renew(self.live_until, env.sequence);
    }

    /// The guarantor's position: empty where there is no record.
    fn vault_of(&self, guarantor: Address) -> (r: Vault)
        ensures
            r == self@.position(guarantor),
    {
        match self.vaults.get(guarantor) {
            Some(entry) => entry.vault,
            None => Vault { guarantor, collateral_balance: 0, locked_amount: 0 },
        }
    }

    /// Stores the position under its guarantor.
    fn save(&mut self, env: &Env, vault: Vault)
        ensures
            final(self)@ == old(self)@.with_position(env@, vault),
    {
        let life: u64 = match self.vaults.get(vault.guarantor) {
            Some(entry) => entry.live_until,
            None => 0,
        };
        self.extend_instance(env);
        self.vaults.set(vault.guarantor, Entry { vault, live_until: renew(life, env.sequence) });
    }

    /// The token that collateral is held in.
    fn usdc(&self) -> (r: Result<Address, Failure>)
        ensures
            r == match self@.usdc_token {
                Some(usdc) => Ok::<Address, Failure>(usdc),
                None => Err::<Address, Failure>(Failure::Vault(Error::NotInitialized)),
            },
    {
        match self.usdc_token {
            Some(usdc) => Ok(usdc),
            None => Err(Failure::Vault(Error::NotInitialized)),
        }
    }

    fn require_admin(&self, env: &Env, admin: Address) -> (r: Result<(), Failure>)
        ensures
            r == match self@.admin_refusal(env@, admin) {
                Some(e) => Err::<(), Failure>(e),
                None => Ok::<(), Failure>(()),
            },
    {
        if let Err(e) = env.require_auth(admin) {
            return Err(e);
        }
        match self.admin {
            Some(stored) => if stored.same(&admin) {
                Ok(())
            } else {
                refuse(Error::NotAuthorized)
            },
            None => refuse(Error::NotInitialized),
        }
    }

    fn require_ledger(&self, caller: Address) -> (r: Result<(), Failure>)
        ensures
            r == match self@.loan_ledger {
                Some(ledger) => if ledger == caller {
                    Ok::<(), Failure>(())
                } else {
                    Err::<(), Failure>(Failure::Vault(Error::NotAuthorized))
                },
                None => Err::<(), Failure>(Failure::Vault(Error::LedgerNotSet)),
            },
    {
        match self.loan_ledger {
            Some(ledger) => if ledger.same(&caller) {
                Ok(())
            } else {
                refuse(Error::NotAuthorized)
            },
            None => refuse(Error::LedgerNotSet),
        }
    }

    fn require_engine(&self, caller: Address) -> (r: Result<(), Failure>)
        ensures
            r == match self@.liquidation_engine {
                Some(engine) => if engine == caller {
                    Ok::<(), Failure>(())
                } else {
                    Err::<(), Failure>(Failure::Vault(Error::NotAuthorized))
                },
                None => Err::<(), Failure>(Failure::Vault(Error::EngineNotSet)),
            },
    {
        match self.liquidation_engine {
            Some(engine) => if engine.same(&caller) {
                Ok(())
            } else {
                refuse(Error::NotAuthorized)
            },
            None => refuse(Error::EngineNotSet),
        }
    }

    fn require_ledger_or_engine(&self, caller: Address) -> (r: Result<(), Failure>)
        ensures
            r == if self@.loan_ledger == Some(caller) || self@.liquidation_engine == Some(caller) {
                Ok::<(), Failure>(())
            } else {
                Err::<(), Failure>(Failure::Vault(Error::NotAuthorized))
            },
    {
        let from_ledger = match self.loan_ledger {
            Some(ledger) => ledger.same(&caller),
            None => false,
        };
        let from_engine = match self.liquidation_engine {
            Some(engine) => engine.same(&caller),
            None => false,
        };
        if from_ledger || from_engine {
            Ok(())
        } else {
            refuse(Error::NotAuthorized)
        }
    }
}

} // verus!
