//! The vault as a state machine: what each call makes of the state, or why it
//! is refused.
use super::{Action, Entry, Error, ScheduledAction, Vault};
use crate::host::{renewed, Address, BytesN, Call, Failure, Transfer};
use vstd::prelude::*;

verus! {

/// Everything the vault contract remembers.
#[verifier::ext_equal]
pub struct VaultState {
    pub admin: Option<Address>,
    pub pending_admin: Option<Address>,
    pub usdc_token: Option<Address>,
    pub settlement_address: Option<Address>,
    pub loan_ledger: Option<Address>,
    pub liquidation_engine: Option<Address>,
    /// The delay that sensitive changes wait out, on a vault that has one.
    pub timelock_secs: Option<u64>,
    pub scheduled_action: Option<ScheduledAction>,
    /// The code the host is to replace the contract's with.
    pub wasm_hash: Option<BytesN<32>>,
    /// The last ledger the contract itself lives through.
    pub live_until: u64,
    pub vaults: Map<Address, Entry>,
    /// Every token movement ordered so far, in order.
    pub transfers: Seq<Transfer>,
}

/// A refusal by the vault.
pub open spec fn refused(e: Error) -> Failure {
    Failure::Vault(e)
}

impl VaultState {
    /// A vault contract that nothing has been set up in.
    pub open spec fn empty() -> VaultState {
        VaultState {
            admin: None,
            pending_admin: None,
            usdc_token: None,
            settlement_address: None,
            loan_ledger: None,
            liquidation_engine: None,
            timelock_secs: None,
            scheduled_action: None,
            wasm_hash: None,
            live_until: 0,
            vaults: Map::empty(),
            transfers: Seq::empty(),
        }
    }

    /// Every record is kept under its guarantor, and locks no more than it holds.
    pub open spec fn wf(self) -> bool {
        &&& self.vaults.dom().finite()
        &&& forall|g: Address| #[trigger]
            self.vaults.dom().contains(g) ==> self.vaults[g].vault.guarantor == g
                && self.vaults[g].vault.wf()
    }

    /// The guarantor's position: empty where there is no record.
    pub open spec fn position(self, guarantor: Address) -> Vault {
        if self.vaults.dom().contains(guarantor) {
            self.vaults[guarantor].vault
        } else {
            Vault { guarantor, collateral_balance: 0, locked_amount: 0 }
        }
    }

    pub open spec fn balance(self, guarantor: Address) -> int {
        self.position(guarantor).collateral_balance as int
    }

    pub open spec fn locked(self, guarantor: Address) -> int {
        self.position(guarantor).locked_amount as int
    }

    /// What the guarantor may withdraw.
    pub open spec fn available(self, guarantor: Address) -> int {
        self.balance(guarantor) - self.locked(guarantor)
    }

    /// The last ledger the guarantor's record lives through.
    pub open spec fn record_life(self, guarantor: Address) -> u64 {
        if self.vaults.dom().contains(guarantor) {
            self.vaults[guarantor].live_until
        } else {
            0
        }
    }

    /// The contract after a use: its life is renewed.
    pub open spec fn used(self, env: Call) -> VaultState {
        VaultState { live_until: renewed(self.live_until, env.sequence), ..self }
    }

    /// The contract after its record of `vault.guarantor` became `vault`; the
    /// lives of the contract and the record are renewed.
    pub open spec fn with_position(self, env: Call, vault: Vault) -> VaultState {
        VaultState {
            vaults: self.vaults.insert(
                vault.guarantor,
                Entry {
                    vault,
                    live_until: renewed(self.record_life(vault.guarantor), env.sequence),
                },
            ),
            ..self.used(env)
        }
    }

    /// The contract after the guarantor's record was read.
    pub open spec fn read(self, env: Call, guarantor: Address) -> VaultState {
        if self.vaults.dom().contains(guarantor) {
            self.with_position(env, self.position(guarantor))
        } else {
            self.used(env)
        }
    }

    /// The contract after it ordered a movement of its token.
    pub open spec fn ordered(
        self,
        token: Address,
        from: Address,
        to: Address,
        amount: i128,
    ) -> VaultState {
        VaultState {
            transfers: self.transfers.push(Transfer { token, from, to, amount }),
            ..self
        }
    }

    /// Why `admin` may not act as the administrator, if so.
    pub open spec fn admin_refusal(self, env: Call, admin: Address) -> Option<Failure> {
        if !env.auths.contains(admin) {
            Some(Failure::Auth)
        } else if self.admin is None {
            Some(refused(Error::NotInitialized))
        } else if self.admin != Some(admin) {
            Some(refused(Error::NotAuthorized))
        } else {
            None
        }
    }

    // --- Setup ---

    /// A vault deployed with a timelock on its sensitive changes.
    pub open spec fn constructed(
        env: Call,
        admin: Address,
        usdc_token: Address,
        settlement_address: Address,
        timelock_secs: u64,
    ) -> VaultState {
        VaultState {
            admin: Some(admin),
            usdc_token: Some(usdc_token),
            settlement_address: Some(settlement_address),
            timelock_secs: Some(timelock_secs),
            ..VaultState::empty().used(env)
        }
    }

    pub open spec fn initialize(
        self,
        env: Call,
        admin: Address,
        usdc_token: Address,
        settlement_address: Address,
    ) -> Result<VaultState, Failure> {
        if self.admin is Some {
            Err(refused(Error::AlreadyInitialized))
        } else {
            Ok(
                VaultState {
                    admin: Some(admin),
                    usdc_token: Some(usdc_token),
                    settlement_address: Some(settlement_address),
                    ..self.used(env)
                },
            )
        }
    }

    // --- Administration ---

    pub open spec fn set_loan_ledger(self, env: Call, admin: Address, ledger: Address) -> Result<
        VaultState,
        Failure,
    > {
        match self.admin_refusal(env, admin) {
            Some(e) => Err(e),
            None => if self.loan_ledger is Some {
                Err(refused(Error::AlreadyWired))
            } else {
                Ok(VaultState { loan_ledger: Some(ledger), ..self.used(env) })
            },
        }
    }

    pub open spec fn set_liquidation_engine(
        self,
        env: Call,
        admin: Address,
        engine: Address,
    ) -> Result<VaultState, Failure> {
        match self.admin_refusal(env, admin) {
            Some(e) => Err(e),
            None => if self.liquidation_engine is Some {
                Err(refused(Error::AlreadyWired))
            } else {
                Ok(VaultState { liquidation_engine: Some(engine), ..self.used(env) })
            },
        }
    }

    pub open spec fn set_settlement_address(
        self,
        env: Call,
        admin: Address,
        settlement_address: Address,
    ) -> Result<VaultState, Failure> {
        match self.admin_refusal(env, admin) {
            Some(e) => Err(e),
            None => if self.timelock_secs is Some {
                Err(refused(Error::TimelockNotExpired))
            } else {
                Ok(VaultState { settlement_address: Some(settlement_address), ..self.used(env) })
            },
        }
    }

    pub open spec fn schedule_action(self, env: Call, admin: Address, action: Action) -> Result<
        VaultState,
        Failure,
    > {
        match self.admin_refusal(env, admin) {
            Some(e) => Err(e),
            None => match self.timelock_secs {
                None => Err(refused(Error::NotInitialized)),
                Some(delay) => if self.scheduled_action is Some {
                    Err(refused(Error::ActionAlreadyScheduled))
                } else if env.timestamp + delay > u64::MAX {
                    Err(Failure::Trap)
                } else {
                    Ok(
                        VaultState {
                            scheduled_action: Some(
                                ScheduledAction { action, eta: (env.timestamp + delay) as u64 },
                            ),
                            ..self.used(env)
                        },
                    )
                },
            },
        }
    }

    /// The contract after `action` took effect.
    pub open spec fn performed(self, action: Action) -> VaultState {
        match action {
            Action::SetSettlement(address) => VaultState {
                settlement_address: Some(address),
                ..self
            },
            Action::Upgrade(wasm_hash) => VaultState { wasm_hash: Some(wasm_hash), ..self },
        }
    }

    pub open spec fn execute_action(self, env: Call, admin: Address) -> Result<
        VaultState,
        Failure,
    > {
        match self.admin_refusal(env, admin) {
            Some(e) => Err(e),
            None => match self.scheduled_action {
                None => Err(refused(Error::NoScheduledAction)),
                Some(scheduled) => if env.timestamp < scheduled.eta {
                    Err(refused(Error::TimelockNotExpired))
                } else {
                    Ok(
                        VaultState {
                            scheduled_action: None,
                            ..self.used(env).performed(scheduled.action)
                        },
                    )
                },
            },
        }
    }

    pub open spec fn cancel_action(self, env: Call, admin: Address) -> Result<
        VaultState,
        Failure,
    > {
        match self.admin_refusal(env, admin) {
            Some(e) => Err(e),
            None => if self.scheduled_action is None {
                Err(refused(Error::NoScheduledAction))
            } else {
                Ok(VaultState { scheduled_action: None, ..self.used(env) })
            },
        }
    }

    pub open spec fn propose_admin(self, env: Call, admin: Address, new_admin: Address) -> Result<
        VaultState,
        Failure,
    > {
        match self.admin_refusal(env, admin) {
            Some(e) => Err(e),
            None => Ok(VaultState { pending_admin: Some(new_admin), ..self.used(env) }),
        }
    }

    pub open spec fn accept_admin(self, env: Call, new_admin: Address) -> Result<
        VaultState,
        Failure,
    > {
        if !env.auths.contains(new_admin) {
            Err(Failure::Auth)
        } else if self.pending_admin != Some(new_admin) {
            Err(refused(Error::NotAuthorized))
        } else {
            Ok(VaultState { admin: Some(new_admin), pending_admin: None, ..self.used(env) })
        }
    }

    // --- Guarantor operations ---

    pub open spec fn deposit(self, env: Call, guarantor: Address, amount: i128) -> Result<
        VaultState,
        Failure,
    > {
        if !env.auths.contains(guarantor) {
            Err(Failure::Auth)
        } else if amount <= 0 {
            Err(refused(Error::InvalidAmount))
        } else if self.usdc_token is None {
            Err(refused(Error::NotInitialized))
        } else if self.balance(guarantor) + amount > i128::MAX {
            Err(Failure::Trap)
        } else {
            Ok(
                self.ordered(
                    self.usdc_token->0,
                    guarantor,
                    env.contract,
                    amount,
                ).with_position(
                    env,
                    Vault {
                        collateral_balance: (self.balance(guarantor) + amount) as i128,
                        ..self.position(guarantor)
                    },
                ),
            )
        }
    }

    pub open spec fn withdraw(self, env: Call, guarantor: Address, amount: i128) -> Result<
        VaultState,
        Failure,
    > {
        if !env.auths.contains(guarantor) {
            Err(Failure::Auth)
        } else if amount <= 0 {
            Err(refused(Error::InvalidAmount))
        } else if amount > self.available(guarantor) {
            Err(refused(Error::InsufficientAvailable))
        } else if self.usdc_token is None {
            Err(refused(Error::NotInitialized))
        } else {
            Ok(
                self.ordered(
                    self.usdc_token->0,
                    env.contract,
                    guarantor,
                    amount,
                ).with_position(
                    env,
                    Vault {
                        collateral_balance: (self.balance(guarantor) - amount) as i128,
                        ..self.position(guarantor)
                    },
                ),
            )
        }
    }

    // --- Protocol operations ---

    pub open spec fn lock_collateral(
        self,
        env: Call,
        caller: Address,
        guarantor: Address,
        amount: i128,
    ) -> Result<VaultState, Failure> {
        if !env.auths.contains(caller) {
            Err(Failure::Auth)
        } else if self.loan_ledger is None {
            Err(refused(Error::LedgerNotSet))
        } else if self.loan_ledger != Some(caller) {
            Err(refused(Error::NotAuthorized))
        } else if amount <= 0 {
            Err(refused(Error::InvalidAmount))
        } else if amount > self.available(guarantor) {
            Err(refused(Error::InsufficientAvailable))
        } else {
            Ok(
                self.with_position(
                    env,
                    Vault {
                        locked_amount: (self.locked(guarantor) + amount) as i128,
                        ..self.position(guarantor)
                    },
                ),
            )
        }
    }

    pub open spec fn release_collateral(
        self,
        env: Call,
        caller: Address,
        guarantor: Address,
        amount: i128,
    ) -> Result<VaultState, Failure> {
        if !env.auths.contains(caller) {
            Err(Failure::Auth)
        } else if self.loan_ledger != Some(caller) && self.liquidation_engine != Some(caller) {
            Err(refused(Error::NotAuthorized))
        } else if amount <= 0 {
            Err(refused(Error::InvalidAmount))
        } else if amount > self.locked(guarantor) {
            Err(refused(Error::InsufficientLocked))
        } else {
            Ok(
                self.with_position(
                    env,
                    Vault {
                        locked_amount: (self.locked(guarantor) - amount) as i128,
                        ..self.position(guarantor)
                    },
                ),
            )
        }
    }

    pub open spec fn forfeit_collateral(
        self,
        env: Call,
        caller: Address,
        guarantor: Address,
        amount: i128,
    ) -> Result<VaultState, Failure> {
        if !env.auths.contains(caller) {
            Err(Failure::Auth)
        } else if self.liquidation_engine is None {
            Err(refused(Error::EngineNotSet))
        } else if self.liquidation_engine != Some(caller) {
            Err(refused(Error::NotAuthorized))
        } else if amount <= 0 {
            Err(refused(Error::InvalidAmount))
        } else if amount > self.locked(guarantor) {
            Err(refused(Error::InsufficientLocked))
        } else if self.settlement_address is None || self.usdc_token is None {
            Err(refused(Error::NotInitialized))
        } else {
            Ok(
                self.ordered(
                    self.usdc_token->0,
                    env.contract,
                    self.settlement_address->0,
                    amount,
                ).with_position(
                    env,
                    Vault {
                        collateral_balance: (self.balance(guarantor) - amount) as i128,
                        locked_amount: (self.locked(guarantor) - amount) as i128,
                        ..self.position(guarantor)
                    },
                ),
            )
        }
    }
}

} // verus!
