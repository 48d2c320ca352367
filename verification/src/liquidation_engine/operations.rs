//! What each call of the liquidation engine is for: when it acts on a loan, what it
//! takes of the collateral, and what it gives back.
use super::laws::EngineCall;
use super::model::EngineState;
use super::{Error, LiquidationEngineContract};
use crate::guarantor_vault;
use crate::guarantor_vault::model::VaultState;
use crate::guarantor_vault::operations::{position_moved, reserved};
use crate::host::{fails, Address, BytesN, Call, Failure, Transfer, EXTEND_TO, THRESHOLD};
use crate::loan_ledger;
use crate::loan_ledger::model::LedgerState;
use crate::loan_ledger::operations::only_loan_changed;
use crate::loan_ledger::terms::{law_release_within_share, law_some_is_held_until_paid_off};
use crate::loan_ledger::{Loan, LoanStatus, Pair};
use vstd::prelude::*;

verus! {

/// The administrator has authorized the call.
pub open spec fn by_admin(engine: EngineState, env: Call, admin: Address) -> bool {
    env.auths.contains(admin) && engine.admin == Some(admin)
}

/// The loan is active and its due date has passed.
pub open spec fn is_late(ledger: LedgerState, env: Call, loan_id: u64) -> bool {
    &&& ledger.loans.dom().contains(loan_id)
    &&& ledger.loans[loan_id].status == LoanStatus::Active
    &&& ledger.loans[loan_id].next_due < env.timestamp
}

/// The loan is in grace and the end of that has passed.
pub open spec fn is_forfeit(ledger: LedgerState, env: Call, loan_id: u64) -> bool {
    &&& ledger.loans.dom().contains(loan_id)
    &&& ledger.loans[loan_id].status == LoanStatus::Grace
    &&& ledger.loans[loan_id].grace_expires_at < env.timestamp
}

/// Every reason has the number it has always had, and no two have the same.
pub proof fn law_codes_are_stable(a: Error, b: Error)
    ensures
        Error::AlreadyInitialized.spec_code() == 1,
        Error::NotInitialized.spec_code() == 2,
        Error::NotAuthorized.spec_code() == 3,
        Error::NotOverdue.spec_code() == 4,
        Error::GraceNotExpired.spec_code() == 5,
        a.spec_code() == b.spec_code() ==> a == b,
{
}

/// The state of the contract is its fields, each under its own name.
pub proof fn law_state_is_the_fields(contract: LiquidationEngineContract)
    ensures
        contract@.admin == contract.admin,
        contract@.pending_admin == contract.pending_admin,
        contract@.vault == contract.vault,
        contract@.loan_ledger == contract.loan_ledger,
        contract@.wasm_hash == contract.wasm_hash,
        contract@.live_until == contract.live_until,
{
}

/// A new engine has nothing set; one that is deployed has exactly what it was
/// deployed with.
pub proof fn law_deployment(env: Call, admin: Address, vault: Address, loan_ledger: Address)
    ensures
        ({
            let blank = EngineState::empty();
            &&& blank.admin is None
            &&& blank.pending_admin is None
            &&& blank.vault is None
            &&& blank.loan_ledger is None
            &&& blank.wasm_hash is None
            &&& blank.live_until == 0
        }),
        ({
            let engine = EngineState::constructed(env, admin, vault, loan_ledger);
            &&& engine.admin == Some(admin)
            &&& engine.pending_admin is None
            &&& engine.vault == Some(vault)
            &&& engine.loan_ledger == Some(loan_ledger)
            &&& engine.wasm_hash is None
            &&& engine.live_until == env.sequence + EXTEND_TO
        }),
{
}

/// An engine can be initialized by anyone until it has an administrator, and then
/// by nobody.
pub proof fn law_initialization(
    engine: EngineState,
    env: Call,
    admin: Address,
    vault: Address,
    loan_ledger: Address,
)
    ensures
        ({
            let r = engine.initialize(env, admin, vault, loan_ledger);
            &&& engine.admin is Some ==> fails(r, Failure::Engine(Error::AlreadyInitialized))
            &&& engine.admin is None ==> (r matches Ok(after) && after == EngineState {
                admin: Some(admin),
                vault: Some(vault),
                loan_ledger: Some(loan_ledger),
                live_until: after.live_until,
                ..engine
            })
        }),
{
}

/// The administrator, and nobody else, replaces the code and proposes a successor;
/// the successor proposed last, and nobody else, becomes administrator by
/// accepting.
pub proof fn law_administration(
    engine: EngineState,
    env: Call,
    admin: Address,
    new_wasm_hash: BytesN<32>,
    new_admin: Address,
)
    ensures
        ({
            let upgraded = engine.upgrade(env, admin, new_wasm_hash);
            let proposed = engine.propose_admin(env, admin, new_admin);
            &&& !env.auths.contains(admin) ==> fails(upgraded, Failure::Auth) && fails(
                proposed,
                Failure::Auth,
            )
            &&& env.auths.contains(admin) && engine.admin is None ==> {
                &&& fails(upgraded, Failure::Engine(Error::NotInitialized))
                &&& fails(proposed, Failure::Engine(Error::NotInitialized))
            }
            &&& env.auths.contains(admin) && engine.admin is Some && engine.admin->0 != admin ==> {
                &&& fails(upgraded, Failure::Engine(Error::NotAuthorized))
                &&& fails(proposed, Failure::Engine(Error::NotAuthorized))
            }
            &&& by_admin(engine, env, admin) ==> {
                &&& upgraded matches Ok(after) && after == EngineState {
                    wasm_hash: Some(new_wasm_hash),
                    live_until: after.live_until,
                    ..engine
                }
                &&& proposed matches Ok(after) && after == EngineState {
                    pending_admin: Some(new_admin),
                    live_until: after.live_until,
                    ..engine
                }
            }
        }),
        ({
            let r = engine.accept_admin(env, new_admin);
            &&& !env.auths.contains(new_admin) ==> fails(r, Failure::Auth)
            &&& env.auths.contains(new_admin) && engine.pending_admin != Some(new_admin) ==> fails(
                r,
                Failure::Engine(Error::NotAuthorized),
            )
            &&& env.auths.contains(new_admin) && engine.pending_admin == Some(new_admin) ==> (
            r matches Ok(after) && after == EngineState {
                admin: Some(new_admin),
                pending_admin: None,
                live_until: after.live_until,
                ..engine
            })
        }),
{
}

/// A life that had ninety days or fewer left now has a hundred and twenty, and a
/// longer one is as it was.
pub open spec fn life_renewed(before: EngineState, after: EngineState, env: Call) -> bool {
    &&& before.live_until - env.sequence <= THRESHOLD ==> after.live_until == env.sequence
        + EXTEND_TO
    &&& before.live_until - env.sequence > THRESHOLD ==> after.live_until == before.live_until
}

/// Every successful call, a crank included, extends the engine's life to a hundred
/// and twenty days where ninety or fewer were left, and leaves a longer one alone.
pub proof fn law_use_renews_the_life(
    engine: EngineState,
    ledger: LedgerState,
    vault: VaultState,
    env: Call,
    call: EngineCall,
    loan_id: u64,
)
    ensures
        engine.step(env, call) matches Ok(after) ==> life_renewed(engine, after, env),
        engine.flag_overdue(ledger, env, loan_id) matches Ok((after, _)) ==> life_renewed(
            engine,
            after,
            env,
        ),
        engine.liquidate(ledger, vault, env, loan_id).1 matches Ok((after, _, _)) ==> life_renewed(
            engine,
            after,
            env,
        ),
        engine.poke(ledger, vault, env, loan_id).1 matches Ok((after, _, _)) ==> life_renewed(
            engine,
            after,
            env,
        ),
{
}

/// Anyone can have the engine flag a loan that is active and past its due date. It
/// then is in grace for the configured time from now, and nothing else about it
/// changes. Any other loan is refused.
pub proof fn law_flagging(engine: EngineState, ledger: LedgerState, env: Call, loan_id: u64)
    requires
        ledger.wf(),
    ensures
        ({
            let r = engine.flag_overdue(ledger, env, loan_id);
            let there = ledger.loans.dom().contains(loan_id);
            let wired = engine.loan_ledger is Some;
            let late = wired && is_late(ledger, env, loan_id);
            let known = ledger.liquidation_engine == Some(env.contract);
            let grace = (ledger.config->0).grace_period_secs;
            &&& !wired ==> fails(r, Failure::Engine(Error::NotInitialized))
            &&& wired && !there ==> fails(r, Failure::Ledger(loan_ledger::Error::LoanNotFound))
            &&& wired && there && !late ==> fails(r, Failure::Engine(Error::NotOverdue))
            &&& late && ledger.liquidation_engine is None ==> fails(
                r,
                Failure::Ledger(loan_ledger::Error::NotInitialized),
            )
            &&& late && ledger.liquidation_engine is Some && !known ==> fails(
                r,
                Failure::Ledger(loan_ledger::Error::NotAuthorized),
            )
            &&& late && known && env.timestamp + grace > u64::MAX ==> fails(r, Failure::Trap)
            &&& late && known && env.timestamp + grace <= u64::MAX ==> (r matches Ok(
                (after, marked),
            ) && after == (EngineState { live_until: after.live_until, ..engine })
                && only_loan_changed(ledger, marked, loan_id) && marked.open_loans
                == ledger.open_loans && marked.loans[loan_id] == (Loan {
                status: LoanStatus::Grace,
                grace_expires_at: marked.loans[loan_id].grace_expires_at,
                ..ledger.loans[loan_id]
            }) && marked.loans[loan_id].grace_expires_at - env.timestamp == grace)
        }),
{
}

/// Which liquidations are refused before the vault is touched: on an engine that is
/// not wired, on a loan that is not there, and on one whose grace is not over.
pub proof fn law_liquidation_is_turned_away(
    engine: EngineState,
    ledger: LedgerState,
    vault: VaultState,
    env: Call,
    loan_id: u64,
)
    ensures
        ({
            let (settled, r) = engine.liquidate(ledger, vault, env, loan_id);
            let there = ledger.loans.dom().contains(loan_id);
            let wired = engine.loan_ledger is Some;
            let due = wired && is_forfeit(ledger, env, loan_id);
            &&& !due || engine.vault is None ==> settled == vault
            &&& !wired ==> fails(r, Failure::Engine(Error::NotInitialized))
            &&& wired && !there ==> fails(r, Failure::Ledger(loan_ledger::Error::LoanNotFound))
            &&& wired && there && !due ==> fails(r, Failure::Engine(Error::GraceNotExpired))
            &&& due && engine.vault is None ==> fails(r, Failure::Engine(Error::NotInitialized))
        }),
{
}

/// Anyone can have the engine liquidate a loan whose grace is over. `seized` is the
/// smaller of the principal not repaid and the collateral not released: it leaves
/// the guarantor's balance for the settlement address. The rest of the collateral
/// not released is unlocked and stays the guarantor's. The loan is closed as
/// defaulted. What the vault or the ledger refuses, the engine passes on.
pub proof fn law_liquidation(
    engine: EngineState,
    ledger: LedgerState,
    vault: VaultState,
    env: Call,
    loan_id: u64,
    seized: int,
)
    requires
        ledger.wf(),
        vault.wf(),
        engine.loan_ledger is Some,
        engine.vault is Some,
        is_forfeit(ledger, env, loan_id),
        seized <= ledger.loans[loan_id].principal_usd - ledger.loans[loan_id].total_repaid_usd,
        seized <= ledger.loans[loan_id].collateral_locked
            - ledger.loans[loan_id].collateral_released,
        seized == ledger.loans[loan_id].principal_usd - ledger.loans[loan_id].total_repaid_usd
            || seized == ledger.loans[loan_id].collateral_locked
            - ledger.loans[loan_id].collateral_released,
    ensures
        ({
            let (settled, r) = engine.liquidate(ledger, vault, env, loan_id);
            let loan = ledger.loans[loan_id];
            let g = loan.guarantor;
            let held = loan.collateral_locked - loan.collateral_released;
            let known = vault.liquidation_engine == Some(env.contract);
            let ready = vault.settlement_address is Some && vault.usdc_token is Some;
            let paid = vault.transfers.push(
                Transfer {
                    token: vault.usdc_token->0,
                    from: engine.vault->0,
                    to: vault.settlement_address->0,
                    amount: seized as i128,
                },
            );
            let covered = known && ready && held <= reserved(vault, g);
            let recognized = ledger.liquidation_engine == Some(env.contract);
            &&& 0 < seized <= held
            &&& vault.liquidation_engine is None ==> settled == vault && fails(
                r,
                Failure::Vault(guarantor_vault::Error::EngineNotSet),
            )
            &&& vault.liquidation_engine is Some && !known ==> settled == vault && fails(
                r,
                Failure::Vault(guarantor_vault::Error::NotAuthorized),
            )
            &&& known && seized > reserved(vault, g) ==> settled == vault && fails(
                r,
                Failure::Vault(guarantor_vault::Error::InsufficientLocked),
            )
            &&& known && seized <= reserved(vault, g) && !ready ==> settled == vault && fails(
                r,
                Failure::Vault(guarantor_vault::Error::NotInitialized),
            )
            &&& known && ready && seized <= reserved(vault, g) < held ==> position_moved(
                vault,
                settled,
                g,
                -seized,
                -seized,
            ) && settled.transfers == paid && fails(
                r,
                Failure::Vault(guarantor_vault::Error::InsufficientLocked),
            )
            &&& covered ==> position_moved(vault, settled, g, -seized, -held) && settled.transfers
                == paid
            &&& covered && ledger.liquidation_engine is None ==> fails(
                r,
                Failure::Ledger(loan_ledger::Error::NotInitialized),
            )
            &&& covered && ledger.liquidation_engine is Some && !recognized ==> fails(
                r,
                Failure::Ledger(loan_ledger::Error::NotAuthorized),
            )
            &&& covered && recognized ==> (r matches Ok((after, closed, returned)) && returned
                == seized && after == (EngineState { live_until: after.live_until, ..engine })
                && only_loan_changed(ledger, closed, loan_id) && closed.loans[loan_id] == (Loan {
                status: LoanStatus::Defaulted,
                collateral_released: loan.collateral_locked,
                ..loan
            }) && closed.open_loans =~= ledger.open_loans.remove(
                Pair { guarantor: loan.guarantor, beneficiary: loan.beneficiary },
            ))
        }),
{
    let loan = ledger.loans[loan_id];
    let buffer = (ledger.config->0).safety_buffer_bps as int;
    law_release_within_share(
        buffer,
        loan.collateral_locked as int,
        loan.total_repaid_usd as int,
        loan.principal_usd as int,
    );
    law_some_is_held_until_paid_off(
        buffer,
        loan.collateral_locked as int,
        loan.total_repaid_usd as int,
        loan.principal_usd as int,
    );
}

/// A poke flags a loan that is active and past its due date, liquidates one whose
/// grace is over, and says so; it leaves any other loan, and the vault, as they
/// are, and says that.
pub proof fn law_poke(
    engine: EngineState,
    ledger: LedgerState,
    vault: VaultState,
    env: Call,
    loan_id: u64,
)
    ensures
        ({
            let (settled, r) = engine.poke(ledger, vault, env, loan_id);
            let there = ledger.loans.dom().contains(loan_id);
            let wired = engine.loan_ledger is Some;
            let late = is_late(ledger, env, loan_id);
            let due = is_forfeit(ledger, env, loan_id);
            let flagged = engine.flag_overdue(ledger, env, loan_id);
            let (after_vault, liquidated) = engine.liquidate(ledger, vault, env, loan_id);
            &&& !wired ==> fails(r, Failure::Engine(Error::NotInitialized)) && settled == vault
            &&& wired && !there ==> fails(r, Failure::Ledger(loan_ledger::Error::LoanNotFound))
                && settled == vault
            &&& wired && late ==> settled == vault
            &&& wired && late && flagged is Err ==> fails(r, flagged->Err_0)
            &&& wired && late && flagged is Ok ==> (r matches Ok((after, marked, acted)) && acted
                && after == (flagged->Ok_0).0 && marked == (flagged->Ok_0).1)
            &&& wired && due ==> settled == after_vault
            &&& wired && due && liquidated is Err ==> fails(r, liquidated->Err_0)
            &&& wired && due && liquidated is Ok ==> (r matches Ok((after, closed, acted)) && acted
                && after == (liquidated->Ok_0).0 && closed == (liquidated->Ok_0).1)
            &&& wired && there && !late && !due ==> settled == vault && (r matches Ok(
                (after, same, acted),
            ) && !acted && same == ledger && after == (EngineState {
                live_until: after.live_until,
                ..engine
            }))
        }),
{
}

} // verus!
