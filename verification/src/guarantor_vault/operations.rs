//! What each call of the vault is for: who may make it, when it succeeds, what it
//! does to the records and what tokens it moves.
use super::laws::VaultCall;
use super::model::VaultState;
use super::{Action, Error, GuarantorVaultContract, ScheduledAction};
use crate::host::{fails, Address, Call, Failure, Transfer, EXTEND_TO, THRESHOLD};
use vstd::prelude::*;

verus! {

/// What the record of the guarantor says they have; nothing without a record.
pub open spec fn deposited(vault: VaultState, g: Address) -> int {
    if vault.vaults.dom().contains(g) {
        vault.vaults[g].vault.collateral_balance as int
    } else {
        0
    }
}

/// What the record of the guarantor says is locked of it.
pub open spec fn reserved(vault: VaultState, g: Address) -> int {
    if vault.vaults.dom().contains(g) {
        vault.vaults[g].vault.locked_amount as int
    } else {
        0
    }
}

/// The record of one guarantor, and it alone, has changed by these amounts, and
/// nothing else about the contract is different but its life and the movements
/// that were ordered.
pub open spec fn position_moved(
    before: VaultState,
    after: VaultState,
    g: Address,
    balance: int,
    locked: int,
) -> bool {
    &&& after.vaults.dom() =~= before.vaults.dom().insert(g)
    &&& after.vaults[g].vault.guarantor == g
    &&& deposited(after, g) == deposited(before, g) + balance
    &&& reserved(after, g) == reserved(before, g) + locked
    &&& forall|o: Address|
        o != g && #[trigger] before.vaults.dom().contains(o) ==> after.vaults[o]
            == before.vaults[o]
    &&& after == VaultState {
        vaults: after.vaults,
        transfers: after.transfers,
        live_until: after.live_until,
        ..before
    }
}

/// The administrator has authorized the call.
pub open spec fn by_admin(vault: VaultState, env: Call, admin: Address) -> bool {
    env.auths.contains(admin) && vault.admin == Some(admin)
}

/// The address that the call claims to be the administrator's, if it is a call for
/// the administrator.
pub open spec fn claimed_admin(call: VaultCall) -> Option<Address> {
    match call {
        VaultCall::SetLoanLedger { admin, ledger } => Some(admin),
        VaultCall::SetLiquidationEngine { admin, engine } => Some(admin),
        VaultCall::SetSettlementAddress { admin, settlement_address } => Some(admin),
        VaultCall::ScheduleAction { admin, action } => Some(admin),
        VaultCall::ExecuteAction { admin } => Some(admin),
        VaultCall::CancelAction { admin } => Some(admin),
        VaultCall::ProposeAdmin { admin, new_admin } => Some(admin),
        _ => None,
    }
}

/// Every reason has the number it has always had, and no two have the same.
pub proof fn law_codes_are_stable(a: Error, b: Error)
    ensures
        Error::AlreadyInitialized.spec_code() == 1,
        Error::NotInitialized.spec_code() == 2,
        Error::NotAuthorized.spec_code() == 3,
        Error::InvalidAmount.spec_code() == 4,
        Error::InsufficientAvailable.spec_code() == 5,
        Error::InsufficientLocked.spec_code() == 6,
        Error::LedgerNotSet.spec_code() == 7,
        Error::EngineNotSet.spec_code() == 8,
        Error::AlreadyWired.spec_code() == 9,
        Error::ActionAlreadyScheduled.spec_code() == 10,
        Error::NoScheduledAction.spec_code() == 11,
        Error::TimelockNotExpired.spec_code() == 12,
        a.spec_code() == b.spec_code() ==> a == b,
{
}

/// The state of the contract is its fields, each under its own name.
pub proof fn law_state_is_the_fields(contract: GuarantorVaultContract)
    ensures
        contract@.admin == contract.admin,
        contract@.pending_admin == contract.pending_admin,
        contract@.usdc_token == contract.usdc_token,
        contract@.settlement_address == contract.settlement_address,
        contract@.loan_ledger == contract.loan_ledger,
        contract@.liquidation_engine == contract.liquidation_engine,
        contract@.timelock_secs == contract.timelock_secs,
        contract@.scheduled_action == contract.scheduled_action,
        contract@.wasm_hash == contract.wasm_hash,
        contract@.live_until == contract.live_until,
        contract@.vaults == contract.vaults@,
        contract@.transfers == contract.transfers@,
{
}

/// A position is what the guarantor's record says, and empty without one; what is
/// available is what is there and not locked.
pub proof fn law_position_is_the_record(vault: VaultState, g: Address)
    ensures
        vault.vaults.dom().contains(g) ==> vault.position(g) == vault.vaults[g].vault,
        !vault.vaults.dom().contains(g) ==> vault.position(g).guarantor == g && vault.position(
            g,
        ).collateral_balance == 0 && vault.position(g).locked_amount == 0,
        vault.balance(g) == deposited(vault, g),
        vault.locked(g) == reserved(vault, g),
        vault.available(g) == deposited(vault, g) - reserved(vault, g),
        vault.vaults.dom().contains(g) ==> vault.record_life(g) == vault.vaults[g].live_until,
        !vault.vaults.dom().contains(g) ==> vault.record_life(g) == 0,
{
}

/// Reading a position changes nobody's.
pub proof fn law_reading_changes_no_position(vault: VaultState, env: Call, guarantor: Address)
    requires
        vault.wf(),
    ensures
        ({
            let after = vault.read(env, guarantor);
            &&& after.vaults.dom() =~= vault.vaults.dom()
            &&& forall|g: Address| #[trigger]
                vault.vaults.dom().contains(g) ==> after.vaults[g].vault == vault.vaults[g].vault
            &&& after == VaultState {
                vaults: after.vaults,
                live_until: after.live_until,
                ..vault
            }
        }),
{
}

/// Every successful call extends the life of the contract, and that of the record
/// it names, to a hundred and twenty days where ninety or fewer were left, and
/// leaves a longer one alone. No other record's life changes.
pub proof fn law_use_renews_lives(vault: VaultState, env: Call, call: VaultCall, g: Address)
    requires
        vault.wf(),
        vault.step(env, call) is Ok,
    ensures
        ({
            let after = vault.step(env, call)->Ok_0;
            &&& vault.live_until - env.sequence <= THRESHOLD ==> after.live_until == env.sequence
                + EXTEND_TO
            &&& vault.live_until - env.sequence > THRESHOLD ==> after.live_until == vault.live_until
            &&& after.vaults.dom().contains(g) && call.guarantor() == Some(g) ==> {
                let had = if vault.vaults.dom().contains(g) {
                    vault.vaults[g].live_until as int
                } else {
                    0
                };
                &&& had - env.sequence <= THRESHOLD ==> after.vaults[g].live_until == env.sequence
                    + EXTEND_TO
                &&& had - env.sequence > THRESHOLD ==> after.vaults[g].live_until == had
            }
            &&& vault.vaults.dom().contains(g) && call.guarantor() != Some(g)
                ==> after.vaults[g].live_until == vault.vaults[g].live_until
        }),
{
}

/// A vault deployed with a timelock has exactly what it was deployed with.
pub proof fn law_constructor_sets_up(
    env: Call,
    admin: Address,
    usdc_token: Address,
    settlement_address: Address,
    timelock_secs: u64,
)
    ensures
        ({
            let vault = VaultState::constructed(
                env,
                admin,
                usdc_token,
                settlement_address,
                timelock_secs,
            );
            &&& vault.admin == Some(admin)
            &&& vault.usdc_token == Some(usdc_token)
            &&& vault.settlement_address == Some(settlement_address)
            &&& vault.timelock_secs == Some(timelock_secs)
            &&& vault.pending_admin is None
            &&& vault.loan_ledger is None
            &&& vault.liquidation_engine is None
            &&& vault.scheduled_action is None
            &&& vault.wasm_hash is None
            &&& vault.vaults =~= Map::empty()
            &&& vault.transfers =~= Seq::empty()
            &&& vault.live_until == env.sequence + EXTEND_TO
        }),
{
}

/// A new vault contract has nothing set, no records, and has ordered nothing.
pub proof fn law_new_vault_is_blank()
    ensures
        ({
            let vault = VaultState::empty();
            &&& vault.admin is None
            &&& vault.pending_admin is None
            &&& vault.usdc_token is None
            &&& vault.settlement_address is None
            &&& vault.loan_ledger is None
            &&& vault.liquidation_engine is None
            &&& vault.timelock_secs is None
            &&& vault.scheduled_action is None
            &&& vault.wasm_hash is None
            &&& vault.live_until == 0
            &&& vault.vaults =~= Map::empty()
            &&& vault.transfers =~= Seq::empty()
        }),
{
}

/// A vault can be initialized by anyone until it has an administrator, and then by
/// nobody.
pub proof fn law_initialization(
    vault: VaultState,
    env: Call,
    admin: Address,
    usdc_token: Address,
    settlement_address: Address,
)
    ensures
        ({
            let r = vault.initialize(env, admin, usdc_token, settlement_address);
            &&& vault.admin is Some ==> fails(r, Failure::Vault(Error::AlreadyInitialized))
            &&& vault.admin is None ==> (r matches Ok(after) && after == VaultState {
                admin: Some(admin),
                usdc_token: Some(usdc_token),
                settlement_address: Some(settlement_address),
                live_until: after.live_until,
                ..vault
            })
        }),
{
}

/// Calls for the administrator are refused to everyone else: without the signature
/// of the address they name, before there is an administrator, and when the
/// address is not the administrator's.
pub proof fn law_administration_is_for_the_admin(
    vault: VaultState,
    env: Call,
    call: VaultCall,
    admin: Address,
)
    requires
        claimed_admin(call) == Some(admin),
    ensures
        ({
            let r = vault.step(env, call);
            &&& !env.auths.contains(admin) ==> fails(r, Failure::Auth)
            &&& env.auths.contains(admin) && vault.admin is None ==> fails(
                r,
                Failure::Vault(Error::NotInitialized),
            )
            &&& env.auths.contains(admin) && vault.admin is Some && vault.admin->0 != admin
                ==> fails(r, Failure::Vault(Error::NotAuthorized))
        }),
{
}

/// The administrator names the ledger and the engine, each once, and nothing else
/// changes.
pub proof fn law_wiring(vault: VaultState, env: Call, admin: Address, named: Address)
    requires
        by_admin(vault, env, admin),
    ensures
        ({
            let r = vault.set_loan_ledger(env, admin, named);
            &&& vault.loan_ledger is Some ==> fails(r, Failure::Vault(Error::AlreadyWired))
            &&& vault.loan_ledger is None ==> (r matches Ok(after) && after == VaultState {
                loan_ledger: Some(named),
                live_until: after.live_until,
                ..vault
            })
        }),
        ({
            let r = vault.set_liquidation_engine(env, admin, named);
            &&& vault.liquidation_engine is Some ==> fails(r, Failure::Vault(Error::AlreadyWired))
            &&& vault.liquidation_engine is None ==> (r matches Ok(after) && after == VaultState {
                liquidation_engine: Some(named),
                live_until: after.live_until,
                ..vault
            })
        }),
{
}

/// The administrator changes the settlement address at once on a vault without a
/// timelock, and not directly on one with a timelock.
pub proof fn law_settlement_change(vault: VaultState, env: Call, admin: Address, to: Address)
    requires
        by_admin(vault, env, admin),
    ensures
        ({
            let r = vault.set_settlement_address(env, admin, to);
            &&& vault.timelock_secs is Some ==> fails(r, Failure::Vault(Error::TimelockNotExpired))
            &&& vault.timelock_secs is None ==> (r matches Ok(after) && after == VaultState {
                settlement_address: Some(to),
                live_until: after.live_until,
                ..vault
            })
        }),
{
}

/// The administrator schedules one change at a time, for the timelock's delay from
/// now; a vault without a timelock schedules none.
pub proof fn law_scheduling(vault: VaultState, env: Call, admin: Address, action: Action)
    requires
        by_admin(vault, env, admin),
    ensures
        ({
            let r = vault.schedule_action(env, admin, action);
            &&& vault.timelock_secs is None ==> fails(r, Failure::Vault(Error::NotInitialized))
            &&& vault.timelock_secs is Some && vault.scheduled_action is Some ==> fails(
                r,
                Failure::Vault(Error::ActionAlreadyScheduled),
            )
            &&& vault.timelock_secs is Some && vault.scheduled_action is None && env.timestamp
                + vault.timelock_secs->0 > u64::MAX ==> fails(r, Failure::Trap)
            &&& vault.timelock_secs is Some && vault.scheduled_action is None && env.timestamp
                + vault.timelock_secs->0 <= u64::MAX ==> (r matches Ok(after)
                && after.scheduled_action is Some && (after.scheduled_action->0).action == action
                && (after.scheduled_action->0).eta - env.timestamp == vault.timelock_secs->0
                && after == VaultState {
                scheduled_action: after.scheduled_action,
                live_until: after.live_until,
                ..vault
            })
        }),
{
}

/// The administrator executes what is scheduled from its time on, no sooner, and
/// it alone takes effect; and withdraws it at any time, with no effect at all.
pub proof fn law_execution_and_cancellation(vault: VaultState, env: Call, admin: Address)
    requires
        by_admin(vault, env, admin),
    ensures
        ({
            let run = vault.execute_action(env, admin);
            let drop = vault.cancel_action(env, admin);
            &&& vault.scheduled_action is None ==> fails(
                run,
                Failure::Vault(Error::NoScheduledAction),
            ) && fails(drop, Failure::Vault(Error::NoScheduledAction))
            &&& vault.scheduled_action matches Some(ScheduledAction { action, eta }) ==> {
                &&& env.timestamp < eta ==> fails(run, Failure::Vault(Error::TimelockNotExpired))
                &&& env.timestamp >= eta ==> (run matches Ok(after) && after == VaultState {
                    scheduled_action: None,
                    settlement_address: if action is SetSettlement {
                        Some(action->SetSettlement_0)
                    } else {
                        vault.settlement_address
                    },
                    wasm_hash: if action is Upgrade {
                        Some(action->Upgrade_0)
                    } else {
                        vault.wasm_hash
                    },
                    live_until: after.live_until,
                    ..vault
                })
                &&& drop matches Ok(after) && after == VaultState {
                    scheduled_action: None,
                    live_until: after.live_until,
                    ..vault
                }
            }
        }),
{
}

/// The administrator proposes a successor, and the successor proposed last becomes
/// administrator by accepting; anyone else's acceptance is refused.
pub proof fn law_handover(
    vault: VaultState,
    env: Call,
    admin: Address,
    new_admin: Address,
)
    ensures
        by_admin(vault, env, admin) ==> (vault.propose_admin(env, admin, new_admin) matches Ok(after)
            && after == (VaultState {
            pending_admin: Some(new_admin),
            live_until: after.live_until,
            ..vault
        })),
        ({
            let r = vault.accept_admin(env, new_admin);
            &&& !env.auths.contains(new_admin) ==> fails(r, Failure::Auth)
            &&& env.auths.contains(new_admin) && vault.pending_admin != Some(new_admin) ==> fails(
                r,
                Failure::Vault(Error::NotAuthorized),
            )
            &&& env.auths.contains(new_admin) && vault.pending_admin == Some(new_admin) ==> (
            r matches Ok(after) && after == VaultState {
                admin: Some(new_admin),
                pending_admin: None,
                live_until: after.live_until,
                ..vault
            })
        }),
{
}

/// A deposit takes the guarantor's signature and a positive amount. It adds exactly
/// that amount to what the guarantor has and locks none of it, and the tokens come
/// from the guarantor into the vault.
pub proof fn law_deposit(vault: VaultState, env: Call, guarantor: Address, amount: i128)
    requires
        vault.wf(),
    ensures
        ({
            let r = vault.deposit(env, guarantor, amount);
            let signed = env.auths.contains(guarantor);
            &&& !signed ==> fails(r, Failure::Auth)
            &&& signed && amount <= 0 ==> fails(r, Failure::Vault(Error::InvalidAmount))
            &&& signed && amount > 0 && vault.usdc_token is None ==> fails(
                r,
                Failure::Vault(Error::NotInitialized),
            )
            &&& signed && amount > 0 && vault.usdc_token is Some ==> {
                &&& deposited(vault, guarantor) + amount > i128::MAX ==> fails(r, Failure::Trap)
                &&& deposited(vault, guarantor) + amount <= i128::MAX ==> (r matches Ok(after)
                    && position_moved(vault, after, guarantor, amount as int, 0)
                    && after.transfers == vault.transfers.push(
                    Transfer {
                        token: vault.usdc_token->0,
                        from: guarantor,
                        to: env.contract,
                        amount,
                    },
                ))
            }
        }),
{
}

/// A withdrawal takes the guarantor's signature and a positive amount that is not
/// locked. It takes exactly that amount from what the guarantor has, and the tokens
/// go from the vault to the guarantor.
pub proof fn law_withdrawal(vault: VaultState, env: Call, guarantor: Address, amount: i128)
    requires
        vault.wf(),
    ensures
        ({
            let r = vault.withdraw(env, guarantor, amount);
            let signed = env.auths.contains(guarantor);
            let free = deposited(vault, guarantor) - reserved(vault, guarantor);
            &&& !signed ==> fails(r, Failure::Auth)
            &&& signed && amount <= 0 ==> fails(r, Failure::Vault(Error::InvalidAmount))
            &&& signed && amount > 0 && amount > free ==> fails(
                r,
                Failure::Vault(Error::InsufficientAvailable),
            )
            &&& signed && 0 < amount <= free && vault.usdc_token is None ==> fails(
                r,
                Failure::Vault(Error::NotInitialized),
            )
            &&& signed && 0 < amount <= free && vault.usdc_token is Some ==> (r matches Ok(after)
                && position_moved(vault, after, guarantor, -amount, 0) && after.transfers
                == vault.transfers.push(
                Transfer {
                    token: vault.usdc_token->0,
                    from: env.contract,
                    to: guarantor,
                    amount,
                },
            ))
        }),
{
}

/// The ledger locks a positive amount that is not locked yet. Exactly that amount
/// becomes locked, and neither the balance nor any tokens move.
pub proof fn law_lock(
    vault: VaultState,
    env: Call,
    caller: Address,
    guarantor: Address,
    amount: i128,
)
    requires
        vault.wf(),
    ensures
        ({
            let r = vault.lock_collateral(env, caller, guarantor, amount);
            let signed = env.auths.contains(caller);
            let ledger = signed && vault.loan_ledger == Some(caller);
            let free = deposited(vault, guarantor) - reserved(vault, guarantor);
            &&& !signed ==> fails(r, Failure::Auth)
            &&& signed && vault.loan_ledger is None ==> fails(
                r,
                Failure::Vault(Error::LedgerNotSet),
            )
            &&& signed && vault.loan_ledger is Some && vault.loan_ledger->0 != caller ==> fails(
                r,
                Failure::Vault(Error::NotAuthorized),
            )
            &&& ledger && amount <= 0 ==> fails(r, Failure::Vault(Error::InvalidAmount))
            &&& ledger && amount > 0 && amount > free ==> fails(
                r,
                Failure::Vault(Error::InsufficientAvailable),
            )
            &&& ledger && 0 < amount <= free ==> (r matches Ok(after) && position_moved(
                vault,
                after,
                guarantor,
                0,
                amount as int,
            ) && after.transfers == vault.transfers)
        }),
{
}

/// The ledger or the engine releases a positive amount that is locked. Exactly that
/// amount ceases to be locked, and neither the balance nor any tokens move.
pub proof fn law_release(
    vault: VaultState,
    env: Call,
    caller: Address,
    guarantor: Address,
    amount: i128,
)
    requires
        vault.wf(),
    ensures
        ({
            let r = vault.release_collateral(env, caller, guarantor, amount);
            let signed = env.auths.contains(caller);
            let known = vault.loan_ledger == Some(caller) || vault.liquidation_engine == Some(
                caller,
            );
            &&& !signed ==> fails(r, Failure::Auth)
            &&& signed && !known ==> fails(r, Failure::Vault(Error::NotAuthorized))
            &&& signed && known && amount <= 0 ==> fails(r, Failure::Vault(Error::InvalidAmount))
            &&& signed && known && amount > 0 && amount > reserved(vault, guarantor) ==> fails(
                r,
                Failure::Vault(Error::InsufficientLocked),
            )
            &&& signed && known && 0 < amount <= reserved(vault, guarantor) ==> (r matches Ok(after)
                && position_moved(vault, after, guarantor, 0, -amount) && after.transfers
                == vault.transfers)
        }),
{
}

/// The engine forfeits a positive amount that is locked. Exactly that amount leaves
/// both what the guarantor has and what is locked, and the tokens go from the vault
/// to the settlement address.
pub proof fn law_forfeit(
    vault: VaultState,
    env: Call,
    caller: Address,
    guarantor: Address,
    amount: i128,
)
    requires
        vault.wf(),
    ensures
        ({
            let r = vault.forfeit_collateral(env, caller, guarantor, amount);
            let signed = env.auths.contains(caller);
            let engine = signed && vault.liquidation_engine == Some(caller);
            let ready = vault.settlement_address is Some && vault.usdc_token is Some;
            &&& !signed ==> fails(r, Failure::Auth)
            &&& signed && vault.liquidation_engine is None ==> fails(
                r,
                Failure::Vault(Error::EngineNotSet),
            )
            &&& signed && vault.liquidation_engine is Some && vault.liquidation_engine->0 != caller
                ==> fails(r, Failure::Vault(Error::NotAuthorized))
            &&& engine && amount <= 0 ==> fails(r, Failure::Vault(Error::InvalidAmount))
            &&& engine && amount > 0 && amount > reserved(vault, guarantor) ==> fails(
                r,
                Failure::Vault(Error::InsufficientLocked),
            )
            &&& engine && 0 < amount <= reserved(vault, guarantor) && !ready ==> fails(
                r,
                Failure::Vault(Error::NotInitialized),
            )
            &&& engine && 0 < amount <= reserved(vault, guarantor) && ready ==> (r matches Ok(after)
                && position_moved(vault, after, guarantor, -amount, -amount) && after.transfers
                == vault.transfers.push(
                Transfer {
                    token: vault.usdc_token->0,
                    from: env.contract,
                    to: vault.settlement_address->0,
                    amount,
                },
            ))
        }),
{
}

} // verus!
