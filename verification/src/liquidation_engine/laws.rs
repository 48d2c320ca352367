//! What holds of the liquidation engine.
use super::model::{refused, EngineState};
use super::Error;
use crate::guarantor_vault::model::VaultState;
use crate::host::{Address, BytesN, Call, Failure, Transfer, THRESHOLD};
use crate::loan_ledger::laws::{law_open_loan_is_covered, lemma_released_within_locked};
use crate::loan_ledger::model::LedgerState;
use crate::loan_ledger::BPS;
use vstd::prelude::*;

verus! {

/// A call of the engine that concerns the engine alone.
pub enum EngineCall {
    Initialize { admin: Address, vault: Address, loan_ledger: Address },
    Upgrade { admin: Address, new_wasm_hash: BytesN<32> },
    ProposeAdmin { admin: Address, new_admin: Address },
    AcceptAdmin { new_admin: Address },
}

impl EngineState {
    /// What the call makes of the state.
    pub open spec fn step(self, env: Call, call: EngineCall) -> Result<EngineState, Failure> {
        match call {
            EngineCall::Initialize { admin, vault, loan_ledger } => self.initialize(
                env,
                admin,
                vault,
                loan_ledger,
            ),
            EngineCall::Upgrade { admin, new_wasm_hash } => self.upgrade(env, admin, new_wasm_hash),
            EngineCall::ProposeAdmin { admin, new_admin } => self.propose_admin(
                env,
                admin,
                new_admin,
            ),
            EngineCall::AcceptAdmin { new_admin } => self.accept_admin(env, new_admin),
        }
    }
}

/// The engine is wired once: no call points it anywhere else afterwards. Its code
/// changes only by an upgrade that the administrator authorized, and the admin
/// role only by the acceptance of the address that the administrator proposed.
pub proof fn law_engine_is_set_up_once(engine: EngineState, env: Call, call: EngineCall)
    requires
        engine.admin is Some,
        engine.step(env, call) is Ok,
    ensures
        ({
            let after = engine.step(env, call)->Ok_0;
            &&& after.vault == engine.vault
            &&& after.loan_ledger == engine.loan_ledger
            &&& after.wasm_hash != engine.wasm_hash ==> env.auths.contains(engine.admin->0)
            &&& after.admin != engine.admin ==> after.admin == engine.pending_admin
                && env.auths.contains(after.admin->0)
        }),
{
}

/// The cranks are permissionless: who authorized the invocation makes no
/// difference to what they do.
pub proof fn law_cranks_are_permissionless(
    engine: EngineState,
    ledger: LedgerState,
    vault: VaultState,
    env: Call,
    auths: Set<Address>,
    loan_id: u64,
)
    ensures
        ({
            let other = Call { auths, ..env };
            &&& engine.flag_overdue(ledger, env, loan_id) == engine.flag_overdue(
                ledger,
                other,
                loan_id,
            )
            &&& engine.liquidate(ledger, vault, env, loan_id) == engine.liquidate(
                ledger,
                vault,
                other,
                loan_id,
            )
            &&& engine.poke(ledger, vault, env, loan_id) == engine.poke(
                ledger,
                vault,
                other,
                loan_id,
            )
        }),
{
    let other = Call { auths, ..env };
    assert forall|callee: Address| env.invoke(callee) == #[trigger] other.invoke(callee) by {}
}

/// The cranks refuse to act on a healthy loan: a loan that is not overdue is not
/// put into grace, and one whose grace has not expired is not liquidated.
pub proof fn law_healthy_loans_are_left_alone(
    engine: EngineState,
    ledger: LedgerState,
    vault: VaultState,
    env: Call,
    loan_id: u64,
)
    requires
        engine.loan_ledger is Some,
    ensures
        ledger.is_overdue(env, loan_id) == Ok::<bool, Failure>(false) ==> engine.flag_overdue(
            ledger,
            env,
            loan_id,
        ) == Err::<(EngineState, LedgerState), Failure>(refused(Error::NotOverdue)),
        ledger.is_grace_expired(env, loan_id) == Ok::<bool, Failure>(false) ==> engine.liquidate(
            ledger,
            vault,
            env,
            loan_id,
        ) == (
            vault,
            Err::<(EngineState, LedgerState, i128), Failure>(refused(Error::GraceNotExpired)),
        ),
{
}

/// A poke does what is due and nothing else: it flags a loan that is overdue,
/// liquidates one whose grace has expired, and leaves any other as it is.
pub proof fn law_poke_does_what_is_due(
    engine: EngineState,
    ledger: LedgerState,
    vault: VaultState,
    env: Call,
    loan_id: u64,
)
    requires
        engine.poke(ledger, vault, env, loan_id).1 is Ok,
    ensures
        ({
            let (settled, result) = engine.poke(ledger, vault, env, loan_id);
            let (_, after, acted) = result->Ok_0;
            let overdue = ledger.is_overdue(env, loan_id) == Ok::<bool, Failure>(true);
            let expired = ledger.is_grace_expired(env, loan_id) == Ok::<bool, Failure>(true);
            &&& acted == (overdue || expired)
            &&& !acted ==> after == ledger && settled == vault
            &&& overdue ==> settled == vault && (engine.flag_overdue(ledger, env, loan_id) matches Ok(
                (_, marked),
            ) && after == marked)
            &&& expired ==> settled == engine.liquidate(ledger, vault, env, loan_id).0 && (
            engine.liquidate(ledger, vault, env, loan_id).1 matches Ok((_, closed, _)) && after
                == closed)
        }),
{
}

/// A loan that has been flagged cannot be flagged again: it is in grace, and no
/// longer overdue.
pub proof fn law_flagging_twice_is_refused(
    engine: EngineState,
    ledger: LedgerState,
    first: Call,
    second: Call,
    loan_id: u64,
)
    requires
        ledger.wf(),
        engine.flag_overdue(ledger, first, loan_id) is Ok,
    ensures
        ({
            let (engine2, flagged) = engine.flag_overdue(ledger, first, loan_id)->Ok_0;
            &&& flagged.loans[loan_id].status is Grace
            &&& engine2.flag_overdue(flagged, second, loan_id) == Err::<
                (EngineState, LedgerState),
                Failure,
            >(refused(Error::NotOverdue))
        }),
{
}

/// A liquidation is bounded by the debt: it seizes what is owed, but no more
/// than is held, and gives the guarantor back all the rest. Exactly the amount
/// seized is sent to the settlement address, the whole of what was held against
/// the loan is unlocked, and the loan is closed.
pub proof fn law_liquidation_is_bounded_by_the_debt(
    engine: EngineState,
    ledger: LedgerState,
    vault: VaultState,
    env: Call,
    loan_id: u64,
)
    requires
        ledger.wf(),
        vault.wf(),
        engine.liquidate(ledger, vault, env, loan_id).1 is Ok,
    ensures
        ({
            let loan = ledger.loans[loan_id];
            let g = loan.guarantor;
            let (settled, result) = engine.liquidate(ledger, vault, env, loan_id);
            let (_, closed, seized) = result->Ok_0;
            &&& 0 <= seized <= loan.outstanding()
            &&& seized <= loan.remaining()
            &&& seized == loan.outstanding() || seized == loan.remaining()
            &&& settled.balance(g) == vault.balance(g) - seized
            &&& settled.locked(g) == vault.locked(g) - loan.remaining()
            &&& settled.available(g) == vault.available(g) + loan.remaining() - seized
            &&& seized > 0 ==> settled.transfers == vault.transfers.push(
                Transfer {
                    token: vault.usdc_token->0,
                    from: engine.vault->0,
                    to: vault.settlement_address->0,
                    amount: seized,
                },
            )
            &&& seized == 0 ==> settled.transfers == vault.transfers
            &&& closed.loans[loan_id].status is Defaulted
            &&& closed.loans[loan_id].remaining() == 0
        }),
{
    lemma_released_within_locked(ledger, loan_id);
}

/// A liquidation reaches nobody but the loan's guarantor.
pub proof fn law_liquidation_is_isolated(
    engine: EngineState,
    ledger: LedgerState,
    vault: VaultState,
    env: Call,
    loan_id: u64,
    other: Address,
)
    requires
        ledger.wf(),
        vault.wf(),
        other != ledger.loans[loan_id].guarantor,
    ensures
        engine.liquidate(ledger, vault, env, loan_id).0.position(other) == vault.position(other),
{
}

/// On a loan opened at a hundred percent or more, a liquidation recovers the
/// debt in full.
pub proof fn law_covered_debt_is_recovered(
    engine: EngineState,
    ledger: LedgerState,
    vault: VaultState,
    env: Call,
    loan_id: u64,
)
    requires
        ledger.wf(),
        vault.wf(),
        engine.liquidate(ledger, vault, env, loan_id).1 is Ok,
        ledger.loans[loan_id].ltv_bps >= BPS,
    ensures
        engine.liquidate(ledger, vault, env, loan_id).1->Ok_0.2
            == ledger.loans[loan_id].outstanding(),
{
    lemma_released_within_locked(ledger, loan_id);
    law_open_loan_is_covered(ledger, loan_id);
}

/// A handover of the admin role takes two steps, after which the old admin has
/// lost its powers, the new one has them, and the acceptance cannot be replayed.
pub proof fn law_handover_is_two_step(
    engine: EngineState,
    proposing: Call,
    accepting: Call,
    later: Call,
    admin: Address,
    new_admin: Address,
)
    requires
        engine.propose_admin(proposing, admin, new_admin) is Ok,
        accepting.auths.contains(new_admin),
        later.auths.contains(admin),
        later.auths.contains(new_admin),
        admin != new_admin,
    ensures
        ({
            let proposed = engine.propose_admin(proposing, admin, new_admin)->Ok_0;
            &&& proposed.admin == Some(admin)
            &&& proposed.accept_admin(accepting, new_admin) matches Ok(after)
            &&& after.admin == Some(new_admin)
            &&& after.admin_refusal(later, admin) == Some(refused(Error::NotAuthorized))
            &&& after.admin_refusal(later, new_admin) is None
            &&& after.accept_admin(later, new_admin) == Err::<EngineState, Failure>(
                refused(Error::NotAuthorized),
            )
        }),
{
}

/// Every use, a crank included, leaves the engine more than the threshold of
/// life, and shortens no life.
pub proof fn law_use_extends_lifetime(
    engine: EngineState,
    ledger: LedgerState,
    vault: VaultState,
    env: Call,
    call: EngineCall,
    loan_id: u64,
)
    ensures
        engine.step(env, call) matches Ok(after) ==> after.live_until - env.sequence > THRESHOLD
            && after.live_until >= engine.live_until,
        engine.flag_overdue(ledger, env, loan_id) matches Ok((after, _)) ==> after.live_until
            - env.sequence > THRESHOLD && after.live_until >= engine.live_until,
        engine.liquidate(ledger, vault, env, loan_id).1 matches Ok((after, _, _))
            ==> after.live_until - env.sequence > THRESHOLD && after.live_until
            >= engine.live_until,
        engine.poke(ledger, vault, env, loan_id).1 matches Ok((after, _, _)) ==> after.live_until
            - env.sequence > THRESHOLD && after.live_until >= engine.live_until,
{
}

/// An engine that has not been wired up fails closed: its cranks do nothing.
pub proof fn law_unwired_engine_fails_closed(
    engine: EngineState,
    ledger: LedgerState,
    vault: VaultState,
    env: Call,
    loan_id: u64,
)
    requires
        engine.loan_ledger is None,
    ensures
        engine.flag_overdue(ledger, env, loan_id) is Err,
        engine.liquidate(ledger, vault, env, loan_id).1 is Err,
        engine.poke(ledger, vault, env, loan_id).1 is Err,
        engine.liquidate(ledger, vault, env, loan_id).0 == vault,
        engine.poke(ledger, vault, env, loan_id).0 == vault,
{
}

} // verus!
