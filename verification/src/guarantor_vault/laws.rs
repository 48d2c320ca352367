//! What holds of the vault whatever is called.
use super::model::{refused, VaultState};
use super::{Action, Entry, Error};
use crate::host::{Address, Call, Failure, Transfer, THRESHOLD};
use vstd::prelude::*;

verus! {

/// A call of the vault contract.
pub enum VaultCall {
    Initialize { admin: Address, usdc_token: Address, settlement_address: Address },
    SetLoanLedger { admin: Address, ledger: Address },
    SetLiquidationEngine { admin: Address, engine: Address },
    SetSettlementAddress { admin: Address, settlement_address: Address },
    ScheduleAction { admin: Address, action: Action },
    ExecuteAction { admin: Address },
    CancelAction { admin: Address },
    ProposeAdmin { admin: Address, new_admin: Address },
    AcceptAdmin { new_admin: Address },
    Deposit { guarantor: Address, amount: i128 },
    Withdraw { guarantor: Address, amount: i128 },
    LockCollateral { caller: Address, guarantor: Address, amount: i128 },
    ReleaseCollateral { caller: Address, guarantor: Address, amount: i128 },
    ForfeitCollateral { caller: Address, guarantor: Address, amount: i128 },
    Read { guarantor: Address },
}

impl VaultCall {
    /// The guarantor that the call names, if it names one.
    pub open spec fn guarantor(self) -> Option<Address> {
        match self {
            VaultCall::Deposit { guarantor, amount } => Some(guarantor),
            VaultCall::Withdraw { guarantor, amount } => Some(guarantor),
            VaultCall::LockCollateral { caller, guarantor, amount } => Some(guarantor),
            VaultCall::ReleaseCollateral { caller, guarantor, amount } => Some(guarantor),
            VaultCall::ForfeitCollateral { caller, guarantor, amount } => Some(guarantor),
            VaultCall::Read { guarantor } => Some(guarantor),
            _ => None,
        }
    }

    /// What a successful call adds to the guarantor's balance.
    pub open spec fn balance_change(self, g: Address) -> int {
        match self {
            VaultCall::Deposit { guarantor, amount } if guarantor == g => amount as int,
            VaultCall::Withdraw { guarantor, amount } if guarantor == g => -amount,
            VaultCall::ForfeitCollateral { caller, guarantor, amount } if guarantor == g => -amount,
            _ => 0,
        }
    }

    /// What a successful call adds to the guarantor's locked collateral.
    pub open spec fn locked_change(self, g: Address) -> int {
        match self {
            VaultCall::LockCollateral { caller, guarantor, amount } if guarantor == g =>
                amount as int,
            VaultCall::ReleaseCollateral { caller, guarantor, amount } if guarantor == g => -amount,
            VaultCall::ForfeitCollateral { caller, guarantor, amount } if guarantor == g => -amount,
            _ => 0,
        }
    }
}

impl VaultState {
    /// What the call makes of the state.
    pub open spec fn step(self, env: Call, call: VaultCall) -> Result<VaultState, Failure> {
        match call {
            VaultCall::Initialize { admin, usdc_token, settlement_address } => self.initialize(
                env,
                admin,
                usdc_token,
                settlement_address,
            ),
            VaultCall::SetLoanLedger { admin, ledger } => self.set_loan_ledger(env, admin, ledger),
            VaultCall::SetLiquidationEngine { admin, engine } => self.set_liquidation_engine(
                env,
                admin,
                engine,
            ),
            VaultCall::SetSettlementAddress { admin, settlement_address } =>
                self.set_settlement_address(env, admin, settlement_address),
            VaultCall::ScheduleAction { admin, action } => self.schedule_action(
                env,
                admin,
                action,
            ),
            VaultCall::ExecuteAction { admin } => self.execute_action(env, admin),
            VaultCall::CancelAction { admin } => self.cancel_action(env, admin),
            VaultCall::ProposeAdmin { admin, new_admin } => self.propose_admin(
                env,
                admin,
                new_admin,
            ),
            VaultCall::AcceptAdmin { new_admin } => self.accept_admin(env, new_admin),
            VaultCall::Deposit { guarantor, amount } => self.deposit(env, guarantor, amount),
            VaultCall::Withdraw { guarantor, amount } => self.withdraw(env, guarantor, amount),
            VaultCall::LockCollateral { caller, guarantor, amount } => self.lock_collateral(
                env,
                caller,
                guarantor,
                amount,
            ),
            VaultCall::ReleaseCollateral { caller, guarantor, amount } => self.release_collateral(
                env,
                caller,
                guarantor,
                amount,
            ),
            VaultCall::ForfeitCollateral { caller, guarantor, amount } => self.forfeit_collateral(
                env,
                caller,
                guarantor,
                amount,
            ),
            VaultCall::Read { guarantor } => Ok(self.read(env, guarantor)),
        }
    }
}

/// Every call keeps the records sound: no guarantor ever has more locked than
/// they have.
pub proof fn law_records_stay_sound(vault: VaultState, env: Call, call: VaultCall)
    requires
        vault.wf(),
        vault.step(env, call) is Ok,
    ensures
        vault.step(env, call)->Ok_0.wf(),
{
}

/// Vaults are isolated: a call reaches only the record of the guarantor it names.
pub proof fn law_vaults_are_isolated(vault: VaultState, env: Call, call: VaultCall, other: Address)
    requires
        vault.wf(),
        vault.step(env, call) is Ok,
        call.guarantor() != Some(other),
    ensures
        ({
            let after = vault.step(env, call)->Ok_0;
            &&& after.vaults.dom().contains(other) == vault.vaults.dom().contains(other)
            &&& after.vaults.dom().contains(other) ==> after.vaults[other] == vault.vaults[other]
        }),
{
}

/// A balance changes only by deposits, withdrawals and forfeitures, and by
/// exactly their amounts. Locking and releasing move the boundary between locked
/// and available, and forfeiting takes from both.
#[verifier::spinoff_prover]
#[verifier::rlimit(40)]
pub proof fn law_custody_is_conserved(vault: VaultState, env: Call, call: VaultCall, g: Address)
    requires
        vault.wf(),
        vault.step(env, call) is Ok,
    ensures
        ({
            let after = vault.step(env, call)->Ok_0;
            &&& after.balance(g) == vault.balance(g) + call.balance_change(g)
            &&& after.locked(g) == vault.locked(g) + call.locked_change(g)
        }),
{
}

/// Locked collateral cannot be withdrawn: a withdrawal is bounded by what is not
/// locked, and leaves what is locked in place.
pub proof fn law_locked_collateral_stays(
    vault: VaultState,
    env: Call,
    guarantor: Address,
    amount: i128,
)
    requires
        vault.wf(),
    ensures
        amount > vault.available(guarantor) ==> vault.withdraw(env, guarantor, amount) is Err,
        vault.withdraw(env, guarantor, amount) matches Ok(after) ==> amount <= vault.available(
            guarantor,
        ) && after.locked(guarantor) == vault.locked(guarantor) && after.balance(guarantor)
            >= after.locked(guarantor),
{
}

/// Only the guarantor's own authorization lets collateral out to them, and only
/// the liquidation engine's lets it out to the settlement address: every
/// movement of tokens out of the vault is one of the two.
pub proof fn law_how_tokens_leave(vault: VaultState, env: Call, call: VaultCall)
    requires
        vault.step(env, call) is Ok,
    ensures
        ({
            let after = vault.step(env, call)->Ok_0;
            ||| after.transfers == vault.transfers
            ||| exists|guarantor: Address, amount: i128| #[trigger]
                vault.deposit(env, guarantor, amount) == Ok::<VaultState, Failure>(after)
                    && env.auths.contains(guarantor) && after.transfers == vault.transfers.push(
                    Transfer {
                        token: vault.usdc_token->0,
                        from: guarantor,
                        to: env.contract,
                        amount,
                    },
                )
            ||| exists|guarantor: Address, amount: i128| #[trigger]
                vault.withdraw(env, guarantor, amount) == Ok::<VaultState, Failure>(after)
                    && env.auths.contains(guarantor) && after.transfers == vault.transfers.push(
                    Transfer {
                        token: vault.usdc_token->0,
                        from: env.contract,
                        to: guarantor,
                        amount,
                    },
                )
            ||| exists|caller: Address, guarantor: Address, amount: i128| #[trigger]
                vault.forfeit_collateral(env, caller, guarantor, amount) == Ok::<
                    VaultState,
                    Failure,
                >(after) && env.auths.contains(caller) && vault.liquidation_engine == Some(caller)
                    && after.transfers == vault.transfers.push(
                    Transfer {
                        token: vault.usdc_token->0,
                        from: env.contract,
                        to: vault.settlement_address->0,
                        amount,
                    },
                )
        }),
{
    let after = vault.step(env, call)->Ok_0;
    match call {
        VaultCall::Deposit { guarantor, amount } => {
            assert(vault.deposit(env, guarantor, amount) == Ok::<VaultState, Failure>(after));
        },
        VaultCall::Withdraw { guarantor, amount } => {
            assert(vault.withdraw(env, guarantor, amount) == Ok::<VaultState, Failure>(after));
        },
        VaultCall::ForfeitCollateral { caller, guarantor, amount } => {
            assert(vault.forfeit_collateral(env, caller, guarantor, amount) == Ok::<
                VaultState,
                Failure,
            >(after));
        },
        _ => {},
    }
}

/// The ledger locks, and only the engine forfeits; either may release. Before
/// the ledger and the engine are named, nobody can.
pub proof fn law_who_may_act(
    vault: VaultState,
    env: Call,
    caller: Address,
    guarantor: Address,
    amount: i128,
)
    ensures
        vault.lock_collateral(env, caller, guarantor, amount) is Ok ==> env.auths.contains(caller)
            && vault.loan_ledger == Some(caller),
        vault.forfeit_collateral(env, caller, guarantor, amount) is Ok ==> env.auths.contains(
            caller,
        ) && vault.liquidation_engine == Some(caller),
        vault.release_collateral(env, caller, guarantor, amount) is Ok ==> env.auths.contains(
            caller,
        ) && (vault.loan_ledger == Some(caller) || vault.liquidation_engine == Some(caller)),
{
}

/// The administrator has no custody: a call that names no guarantor moves no
/// tokens and touches no record.
pub proof fn law_admin_has_no_custody(vault: VaultState, env: Call, call: VaultCall)
    requires
        vault.step(env, call) is Ok,
        call.guarantor() is None,
    ensures
        vault.step(env, call)->Ok_0.vaults == vault.vaults,
        vault.step(env, call)->Ok_0.transfers == vault.transfers,
{
}

/// The ledger and the engine are set once: no call changes either afterwards.
pub proof fn law_wiring_is_set_once(vault: VaultState, env: Call, call: VaultCall)
    requires
        vault.step(env, call) is Ok,
    ensures
        vault.loan_ledger is Some ==> vault.step(env, call)->Ok_0.loan_ledger == vault.loan_ledger,
        vault.liquidation_engine is Some ==> vault.step(env, call)->Ok_0.liquidation_engine
            == vault.liquidation_engine,
{
}

/// On a vault with a timelock, where forfeited collateral goes and what code
/// runs change only when a scheduled change is executed, at or after its time;
/// and what is scheduled was scheduled for a full delay ahead. The delay itself
/// never changes.
pub proof fn law_sensitive_changes_wait(vault: VaultState, env: Call, call: VaultCall)
    requires
        vault.timelock_secs is Some,
        vault.admin is Some,
        vault.step(env, call) is Ok,
    ensures
        ({
            let after = vault.step(env, call)->Ok_0;
            &&& after.timelock_secs == vault.timelock_secs
            &&& (after.settlement_address != vault.settlement_address || after.wasm_hash
                != vault.wasm_hash) ==> {
                &&& call is ExecuteAction
                &&& vault.scheduled_action matches Some(scheduled)
                &&& scheduled.eta <= env.timestamp
                &&& after == VaultState {
                    scheduled_action: None,
                    ..vault.used(env).performed(scheduled.action)
                }
            }
            &&& after.scheduled_action != vault.scheduled_action ==> {
                ||| after.scheduled_action is None && (call is ExecuteAction
                    || call is CancelAction)
                ||| vault.scheduled_action is None && (after.scheduled_action matches Some(
                    scheduled,
                ) && scheduled.eta == env.timestamp + vault.timelock_secs->0)
            }
        }),
{
}

/// A change scheduled at one moment cannot be executed before the delay has
/// passed, can be from then on, and then takes effect and is scheduled no more.
pub proof fn law_timelock_is_waited_out(
    vault: VaultState,
    scheduling: Call,
    executing: Call,
    admin: Address,
    action: Action,
)
    requires
        vault.schedule_action(scheduling, admin, action) is Ok,
        executing.auths.contains(admin),
    ensures
        ({
            let waiting = vault.schedule_action(scheduling, admin, action)->Ok_0;
            let due = scheduling.timestamp + vault.timelock_secs->0;
            &&& waiting.settlement_address == vault.settlement_address
            &&& waiting.wasm_hash == vault.wasm_hash
            &&& executing.timestamp < due ==> waiting.execute_action(executing, admin) == Err::<
                VaultState,
                Failure,
            >(refused(Error::TimelockNotExpired))
            &&& executing.timestamp >= due ==> (waiting.execute_action(executing, admin) matches Ok(
                after,
            ) && after.scheduled_action is None && (match action {
                Action::SetSettlement(address) => after.settlement_address == Some(address),
                Action::Upgrade(wasm_hash) => after.wasm_hash == Some(wasm_hash),
            }))
        }),
{
}

/// A cancelled change never runs: there is nothing left to execute.
pub proof fn law_cancelled_change_is_gone(
    vault: VaultState,
    cancelling: Call,
    executing: Call,
    admin: Address,
)
    requires
        vault.cancel_action(cancelling, admin) is Ok,
        executing.auths.contains(admin),
    ensures
        vault.cancel_action(cancelling, admin)->Ok_0.execute_action(executing, admin) == Err::<
            VaultState,
            Failure,
        >(refused(Error::NoScheduledAction)),
{
}

/// The admin role changes hands only when the address that the admin proposed
/// accepts it.
pub proof fn law_admin_changes_by_acceptance(vault: VaultState, env: Call, call: VaultCall)
    requires
        vault.admin is Some,
        vault.step(env, call) is Ok,
        vault.step(env, call)->Ok_0.admin != vault.admin,
    ensures
        ({
            let after = vault.step(env, call)->Ok_0;
            &&& after.admin == vault.pending_admin
            &&& env.auths.contains(after.admin->0)
            &&& after.pending_admin is None
        }),
{
}

/// A handover takes two steps, after which the old admin has lost its powers,
/// the new one has them, and the acceptance cannot be replayed.
pub proof fn law_handover_is_two_step(
    vault: VaultState,
    proposing: Call,
    accepting: Call,
    later: Call,
    admin: Address,
    new_admin: Address,
)
    requires
        vault.propose_admin(proposing, admin, new_admin) is Ok,
        accepting.auths.contains(new_admin),
        later.auths.contains(admin),
        later.auths.contains(new_admin),
        admin != new_admin,
    ensures
        ({
            let proposed = vault.propose_admin(proposing, admin, new_admin)->Ok_0;
            &&& proposed.admin == Some(admin)
            &&& proposed.accept_admin(accepting, new_admin) matches Ok(after)
            &&& after.admin == Some(new_admin)
            &&& after.admin_refusal(later, admin) == Some(refused(Error::NotAuthorized))
            &&& after.admin_refusal(later, new_admin) is None
            &&& after.accept_admin(later, new_admin) == Err::<VaultState, Failure>(
                refused(Error::NotAuthorized),
            )
        }),
{
}

/// Releasing undoes a lock of the same amount, whichever of the ledger and the
/// engine releases what the ledger locked: every position is as before, and no
/// tokens have moved.
pub proof fn law_release_undoes_lock(
    vault: VaultState,
    locking: Call,
    releasing: Call,
    locker: Address,
    releaser: Address,
    guarantor: Address,
    amount: i128,
)
    requires
        vault.wf(),
        vault.lock_collateral(locking, locker, guarantor, amount) is Ok,
        releasing.auths.contains(releaser),
        vault.loan_ledger == Some(releaser) || vault.liquidation_engine == Some(releaser),
    ensures
        ({
            let locked = vault.lock_collateral(locking, locker, guarantor, amount)->Ok_0;
            &&& locked.release_collateral(releasing, releaser, guarantor, amount) matches Ok(after)
            &&& forall|g: Address| #[trigger] after.position(g) == vault.position(g)
            &&& after.transfers == vault.transfers
        }),
{
}

/// What is deposited can be withdrawn again, after which every position is as
/// before. Where both calls are of the same contract, so is everyone's holding
/// of every token, the guarantor's and the contract's among them.
pub proof fn law_withdrawal_undoes_deposit(
    vault: VaultState,
    depositing: Call,
    withdrawing: Call,
    guarantor: Address,
    amount: i128,
)
    requires
        vault.wf(),
        vault.deposit(depositing, guarantor, amount) is Ok,
        withdrawing.auths.contains(guarantor),
    ensures
        ({
            let deposited = vault.deposit(depositing, guarantor, amount)->Ok_0;
            &&& deposited.withdraw(withdrawing, guarantor, amount) matches Ok(after)
            &&& forall|g: Address| #[trigger] after.position(g) == vault.position(g)
            &&& depositing.contract == withdrawing.contract ==> forall|
                token: Address,
                holder: Address,
            | #[trigger]
                holding(after.transfers, token, holder) == holding(vault.transfers, token, holder)
        }),
{
    let deposited = vault.deposit(depositing, guarantor, amount)->Ok_0;
    let after = deposited.withdraw(withdrawing, guarantor, amount)->Ok_0;
    assert(deposited.transfers.drop_last() =~= vault.transfers);
    assert(after.transfers.drop_last() =~= deposited.transfers);
    assert forall|token: Address, holder: Address|
        depositing.contract == withdrawing.contract implies #[trigger] holding(
        after.transfers,
        token,
        holder,
    ) == holding(vault.transfers, token, holder) by {
        reveal_with_fuel(holding, 3);
    }
}

/// Every use leaves the contract, and the record it names, more than the
/// threshold of life, and shortens no life.
pub proof fn law_use_extends_lifetimes(vault: VaultState, env: Call, call: VaultCall, g: Address)
    requires
        vault.wf(),
        vault.step(env, call) is Ok,
    ensures
        ({
            let after = vault.step(env, call)->Ok_0;
            &&& after.live_until - env.sequence > THRESHOLD
            &&& after.live_until >= vault.live_until
            &&& after.record_life(g) >= vault.record_life(g)
            &&& call.guarantor() == Some(g) && after.vaults.dom().contains(g) ==> after.record_life(
                g,
            ) - env.sequence > THRESHOLD
        }),
{
}

// --- The vault holds what its records say ---

/// The sum of all balances.
pub open spec fn total(vaults: Map<Address, Entry>) -> int
    decreases vaults.dom().len(),
    when vaults.dom().finite()
{
    if vaults.dom().len() == 0 {
        0
    } else {
        let g = vaults.dom().choose();
        vaults[g].vault.collateral_balance + total(vaults.remove(g))
    }
}

/// What the ordered movements of `token` have brought `holder`, less what they
/// have taken.
pub open spec fn holding(transfers: Seq<Transfer>, token: Address, holder: Address) -> int
    decreases transfers.len(),
{
    if transfers.len() == 0 {
        0
    } else {
        let last = transfers.last();
        let before = holding(transfers.drop_last(), token, holder);
        if last.token != token {
            before
        } else {
            before + (if last.to == holder { last.amount as int } else { 0 }) - (if last.from
                == holder { last.amount as int } else { 0 })
        }
    }
}

/// The tokens the vault contract has received and kept are exactly the sum of
/// the guarantors' balances.
pub open spec fn backed(vault: VaultState, contract: Address) -> bool {
    &&& vault.admin is None ==> vault.usdc_token is None
    &&& match vault.usdc_token {
        Some(token) => total(vault.vaults) == holding(vault.transfers, token, contract),
        None => total(vault.vaults) == 0 && vault.transfers.len() == 0,
    }
}

/// The tokens the vault contract has received and kept are at least the sum of
/// the guarantors' balances.
pub open spec fn covered(vault: VaultState, contract: Address) -> bool {
    &&& vault.admin is None ==> vault.usdc_token is None
    &&& match vault.usdc_token {
        Some(token) => total(vault.vaults) <= holding(vault.transfers, token, contract),
        None => total(vault.vaults) == 0 && vault.transfers.len() == 0,
    }
}

/// Any record can be taken out of the sum.
proof fn lemma_total_remove(vaults: Map<Address, Entry>, g: Address)
    requires
        vaults.dom().finite(),
        vaults.dom().contains(g),
    ensures
        total(vaults) == vaults[g].vault.collateral_balance + total(vaults.remove(g)),
    decreases vaults.dom().len(),
{
    let first = vaults.dom().choose();
    if first != g {
        let rest = vaults.remove(first);
        assert(rest.dom().contains(g));
        lemma_total_remove(rest, g);
        assert(vaults.remove(g).dom().contains(first));
        assert(vaults.remove(g).dom().len() < vaults.dom().len());
        lemma_total_remove(vaults.remove(g), first);
        assert(rest.remove(g) =~= vaults.remove(g).remove(first));
    }
}

/// Replacing one record changes the sum by what it changes that record.
proof fn lemma_total_insert(vaults: Map<Address, Entry>, g: Address, entry: Entry)
    requires
        vaults.dom().finite(),
    ensures
        total(vaults.insert(g, entry)) == total(vaults) + entry.vault.collateral_balance - (
        if vaults.dom().contains(g) {
            vaults[g].vault.collateral_balance as int
        } else {
            0
        }),
{
    let after = vaults.insert(g, entry);
    lemma_total_remove(after, g);
    if vaults.dom().contains(g) {
        lemma_total_remove(vaults, g);
        assert(after.remove(g) =~= vaults.remove(g));
    } else {
        assert(after.remove(g) =~= vaults);
    }
}

/// A call that names a guarantor changes the sum of the balances by what it
/// changes that guarantor's, and any other call leaves it as it is.
proof fn lemma_total_step(vault: VaultState, env: Call, call: VaultCall)
    requires
        vault.wf(),
        vault.step(env, call) is Ok,
    ensures
        total(vault.step(env, call)->Ok_0.vaults) == total(vault.vaults) + match call.guarantor() {
            Some(g) => call.balance_change(g),
            None => 0,
        },
{
    let after = vault.step(env, call)->Ok_0;
    law_custody_is_conserved(vault, env, call, call.guarantor()->0);
    if let Some(g) = call.guarantor() {
        if after.vaults.dom().contains(g) {
            lemma_total_insert(vault.vaults, g, after.vaults[g]);
            assert(after.vaults =~= vault.vaults.insert(g, after.vaults[g]));
        }
    }
}

/// One more movement changes a holding by what it brings the holder, less what it
/// takes.
proof fn lemma_holding_push(transfers: Seq<Transfer>, t: Transfer, holder: Address)
    ensures
        holding(transfers.push(t), t.token, holder) == holding(transfers, t.token, holder) + (
        if t.to == holder {
            t.amount as int
        } else {
            0
        }) - (if t.from == holder {
            t.amount as int
        } else {
            0
        }),
{
    assert(transfers.push(t).drop_last() =~= transfers);
}

/// What a call brings the vault contract, less what it takes: a deposit in, a
/// withdrawal or a forfeit out, and nothing where the other side is the vault
/// contract itself.
proof fn lemma_holding_step(vault: VaultState, env: Call, call: VaultCall, token: Address)
    requires
        vault.usdc_token == Some(token),
        vault.step(env, call) is Ok,
    ensures
        holding(vault.step(env, call)->Ok_0.transfers, token, env.contract) == holding(
            vault.transfers,
            token,
            env.contract,
        ) + match call {
            VaultCall::Deposit { guarantor, amount } if guarantor != env.contract => amount as int,
            VaultCall::Withdraw { guarantor, amount } if guarantor != env.contract => -amount,
            VaultCall::ForfeitCollateral { caller, guarantor, amount } if vault.settlement_address
                != Some(env.contract) => -amount,
            _ => 0,
        },
{
    let contract = env.contract;
    match call {
        VaultCall::Deposit { guarantor, amount } => {
            lemma_holding_push(
                vault.transfers,
                Transfer { token, from: guarantor, to: contract, amount },
                contract,
            );
        },
        VaultCall::Withdraw { guarantor, amount } => {
            lemma_holding_push(
                vault.transfers,
                Transfer { token, from: contract, to: guarantor, amount },
                contract,
            );
        },
        VaultCall::ForfeitCollateral { caller, guarantor, amount } => {
            lemma_holding_push(
                vault.transfers,
                Transfer { token, from: contract, to: vault.settlement_address->0, amount },
                contract,
            );
        },
        _ => {},
    }
}

/// A call on a vault that has a token keeps it. One on a vault that has neither a
/// token nor an administrator moves nothing.
proof fn lemma_token_step(vault: VaultState, env: Call, call: VaultCall)
    requires
        vault.step(env, call) is Ok,
        vault.admin is None ==> vault.usdc_token is None,
    ensures
        ({
            let after = vault.step(env, call)->Ok_0;
            &&& after.admin is None ==> after.usdc_token is None
            &&& vault.usdc_token is Some ==> after.usdc_token == vault.usdc_token
            &&& vault.usdc_token is None ==> after.transfers == vault.transfers
        }),
{
}

/// The vault holds exactly what its records say, and goes on doing so whatever
/// is called. Left out are only a deposit or a withdrawal by the vault contract
/// itself, and a forfeit that is sent to it.
pub proof fn law_vault_is_backed(vault: VaultState, env: Call, call: VaultCall)
    requires
        vault.wf(),
        backed(vault, env.contract),
        vault.step(env, call) is Ok,
        call is Deposit || call is Withdraw ==> call.guarantor() != Some(env.contract),
        call is ForfeitCollateral ==> vault.settlement_address != Some(env.contract),
    ensures
        backed(vault.step(env, call)->Ok_0, env.contract),
{
    lemma_total_step(vault, env, call);
    lemma_token_step(vault, env, call);
    if let Some(token) = vault.usdc_token {
        lemma_holding_step(vault, env, call, token);
    }
}

/// The vault never holds less than its records say, wherever forfeited collateral
/// is sent, the vault contract itself included: what is forfeited to it stays
/// there beyond what the records say. Left out is only a deposit by the vault
/// contract itself, which brings it nothing.
pub proof fn law_vault_is_covered(vault: VaultState, env: Call, call: VaultCall)
    requires
        vault.wf(),
        covered(vault, env.contract),
        vault.step(env, call) is Ok,
        call is Deposit ==> call.guarantor() != Some(env.contract),
    ensures
        covered(vault.step(env, call)->Ok_0, env.contract),
{
    lemma_total_step(vault, env, call);
    lemma_token_step(vault, env, call);
    if let Some(token) = vault.usdc_token {
        lemma_holding_step(vault, env, call, token);
    }
}

/// A vault that has just been deployed holds nothing, and its records say so.
pub proof fn law_new_vault_is_backed(
    env: Call,
    admin: Address,
    usdc_token: Address,
    settlement_address: Address,
    timelock_secs: u64,
)
    ensures
        backed(VaultState::empty(), env.contract),
        covered(VaultState::empty(), env.contract),
        backed(
            VaultState::constructed(env, admin, usdc_token, settlement_address, timelock_secs),
            env.contract,
        ),
        covered(
            VaultState::constructed(env, admin, usdc_token, settlement_address, timelock_secs),
            env.contract,
        ),
{
}

} // verus!
