//! What holds of the loan ledger whatever is called.
use super::model::{refused, LedgerState};
use super::terms::{
    law_collateral_covers_principal, law_release_grows, law_release_within_share,
    law_remaining_covers_outstanding,
};
use super::{Config, Error, BPS};
use crate::guarantor_vault::model::VaultState;
use crate::host::{Address, BytesN, Call, Failure};
use vstd::prelude::*;

verus! {

/// A call of the loan ledger.
pub enum LedgerCall {
    Initialize { admin: Address, vault: Address, config: Config },
    SetOracle { admin: Address, oracle: Address },
    SetLiquidationEngine { admin: Address, engine: Address },
    SetPartner { admin: Address, partner: Address, authorized: bool },
    SetReputation { oracle: Address, beneficiary: BytesN<32>, score_bps: u32 },
    Originate {
        guarantor: Address,
        beneficiary: BytesN<32>,
        principal: i128,
        installment_count: u32,
        interval_secs: u64,
    },
    AttestRepayment { partner: Address, loan_id: u64, amount: i128 },
    MarkGrace { caller: Address, loan_id: u64 },
    MarkDefaulted { caller: Address, loan_id: u64 },
}

/// The ledger and the vault after a call that touches the ledger alone.
pub open spec fn beside(vault: VaultState, step: Result<LedgerState, Failure>) -> Result<
    (LedgerState, VaultState),
    Failure,
> {
    match step {
        Ok(after) => Ok((after, vault)),
        Err(e) => Err(e),
    }
}

impl LedgerState {
    /// What the call makes of the ledger and of the vault it works with.
    pub open spec fn step(self, vault: VaultState, env: Call, call: LedgerCall) -> Result<
        (LedgerState, VaultState),
        Failure,
    > {
        match call {
            LedgerCall::Initialize { admin, vault: address, config } => beside(
                vault,
                self.initialize(admin, address, config),
            ),
            LedgerCall::SetOracle { admin, oracle } => beside(
                vault,
                self.set_oracle(env, admin, oracle),
            ),
            LedgerCall::SetLiquidationEngine { admin, engine } => beside(
                vault,
                self.set_liquidation_engine(env, admin, engine),
            ),
            LedgerCall::SetPartner { admin, partner, authorized } => beside(
                vault,
                self.set_partner(env, admin, partner, authorized),
            ),
            LedgerCall::SetReputation { oracle, beneficiary, score_bps } => beside(
                vault,
                self.set_reputation(env, oracle, beneficiary, score_bps),
            ),
            LedgerCall::Originate {
                guarantor,
                beneficiary,
                principal,
                installment_count,
                interval_secs,
            } => match self.originate(
                vault,
                env,
                guarantor,
                beneficiary,
                principal,
                installment_count,
                interval_secs,
            ) {
                Ok((ledger, locked, id)) => Ok((ledger, locked)),
                Err(e) => Err(e),
            },
            LedgerCall::AttestRepayment { partner, loan_id, amount } => match self.attest_repayment(
                vault,
                env,
                partner,
                loan_id,
                amount,
            ) {
                Ok((ledger, released, due)) => Ok((ledger, released)),
                Err(e) => Err(e),
            },
            LedgerCall::MarkGrace { caller, loan_id } => beside(
                vault,
                self.mark_grace(env, caller, loan_id),
            ),
            LedgerCall::MarkDefaulted { caller, loan_id } => beside(
                vault,
                self.mark_defaulted(env, caller, loan_id),
            ),
        }
    }
}

/// No more is released than was locked.
pub proof fn lemma_released_within_locked(ledger: LedgerState, id: u64)
    requires
        ledger.wf(),
        ledger.loans.dom().contains(id),
    ensures
        0 <= ledger.loans[id].collateral_released <= ledger.loans[id].collateral_locked,
{
    let loan = ledger.loans[id];
    law_release_within_share(
        (ledger.config->0).safety_buffer_bps as int,
        loan.collateral_locked as int,
        loan.total_repaid_usd as int,
        loan.principal_usd as int,
    );
}

/// What a repayment frees is neither negative nor more than is still held.
pub proof fn lemma_release_due(ledger: LedgerState, id: u64, amount: i128)
    requires
        ledger.wf(),
        ledger.loans.dom().contains(id),
        ledger.loans[id].is_open(),
        0 < amount,
        ledger.loans[id].total_repaid_usd + amount <= ledger.loans[id].principal_usd,
    ensures
        0 <= ledger.release_due(ledger.loans[id], amount) <= ledger.loans[id].remaining(),
        ledger.loans[id].releasable(
            ledger.config->0,
            ledger.loans[id].total_repaid_usd + amount,
        ) <= ledger.loans[id].collateral_locked,
{
    let loan = ledger.loans[id];
    let buffer = (ledger.config->0).safety_buffer_bps as int;
    law_release_within_share(
        buffer,
        loan.collateral_locked as int,
        loan.total_repaid_usd + amount,
        loan.principal_usd as int,
    );
    law_release_grows(
        buffer,
        loan.collateral_locked as int,
        loan.total_repaid_usd as int,
        loan.total_repaid_usd + amount,
        loan.principal_usd as int,
    );
}

/// Every call keeps the records sound, one by one and together. Among other
/// things: no more than the principal is ever repaid, no more than was locked is
/// ever released, and there is never more than one open loan between a guarantor
/// and a beneficiary.
pub proof fn law_records_stay_sound(
    ledger: LedgerState,
    vault: VaultState,
    env: Call,
    call: LedgerCall,
)
    requires
        ledger.wf(),
        ledger.coherent(),
        ledger.step(vault, env, call) is Ok,
    ensures
        ledger.step(vault, env, call)->Ok_0.0.wf(),
        ledger.step(vault, env, call)->Ok_0.0.coherent(),
{
    let after = ledger.step(vault, env, call)->Ok_0.0;
    match call {
        LedgerCall::Originate {
            guarantor,
            beneficiary,
            principal,
            installment_count,
            interval_secs,
        } => {
            lemma_new_loan(
                ledger,
                vault,
                env,
                guarantor,
                beneficiary,
                principal,
                installment_count,
                interval_secs,
            );
        },
        LedgerCall::AttestRepayment { partner, loan_id, amount } => {
            lemma_release_due(ledger, loan_id, amount);
            let loan = ledger.loans[loan_id];
            assert(ledger.repaid_loan(loan, amount).wf(ledger.config->0));
        },
        _ => {},
    }
}

/// The loan that is opened is sound.
proof fn lemma_new_loan(
    ledger: LedgerState,
    vault: VaultState,
    env: Call,
    guarantor: Address,
    beneficiary: BytesN<32>,
    principal: i128,
    installment_count: u32,
    interval_secs: u64,
)
    requires
        ledger.wf(),
        ledger.originate(
            vault,
            env,
            guarantor,
            beneficiary,
            principal,
            installment_count,
            interval_secs,
        ) is Ok,
    ensures
        ledger.new_loan(
            env,
            guarantor,
            beneficiary,
            principal,
            installment_count,
            interval_secs,
        ).wf(ledger.config->0),
{
    let config = ledger.config->0;
    let loan = ledger.new_loan(
        env,
        guarantor,
        beneficiary,
        principal,
        installment_count,
        interval_secs,
    );
    super::terms::law_ltv_between_floor_and_base(config, ledger.score(beneficiary) as int);
    super::terms::lemma_collateral_in_range(principal, ledger.required_ltv(beneficiary));
    super::terms::lemma_installment_in_range(principal, installment_count);
    law_release_within_share(
        config.safety_buffer_bps as int,
        loan.collateral_locked as int,
        0,
        principal as int,
    );
}

/// Repayment advances only by the attestation of a registered partner who has
/// authorized it, and by exactly the amount attested. Nobody else, the guarantor
/// and the administrator included, can record a repayment.
pub proof fn law_only_partners_advance_repayment(
    ledger: LedgerState,
    vault: VaultState,
    env: Call,
    call: LedgerCall,
    id: u64,
)
    requires
        ledger.coherent(),
        ledger.wf(),
        ledger.loans.dom().contains(id),
        ledger.step(vault, env, call) is Ok,
        ledger.step(vault, env, call)->Ok_0.0.loans[id].total_repaid_usd
            != ledger.loans[id].total_repaid_usd,
    ensures
        call matches LedgerCall::AttestRepayment { partner, loan_id, amount } && loan_id == id
            && env.auths.contains(partner) && ledger.is_partner(partner) && ledger.step(
            vault,
            env,
            call,
        )->Ok_0.0.loans[id].total_repaid_usd == ledger.loans[id].total_repaid_usd + amount,
{
}

/// Revoking a partner takes effect immediately.
pub proof fn law_revocation_is_immediate(
    ledger: LedgerState,
    vault: VaultState,
    revoking: Call,
    attesting: Call,
    admin: Address,
    partner: Address,
    loan_id: u64,
    amount: i128,
)
    requires
        ledger.set_partner(revoking, admin, partner, false) is Ok,
        attesting.auths.contains(partner),
    ensures
        ledger.set_partner(revoking, admin, partner, false)->Ok_0.attest_repayment(
            vault,
            attesting,
            partner,
            loan_id,
            amount,
        ) == Err::<(LedgerState, VaultState, i128), Failure>(refused(Error::NotAuthorized)),
{
}

/// Repayments that would total more than the principal are refused, and change
/// nothing.
pub proof fn law_overpayment_is_refused(
    ledger: LedgerState,
    vault: VaultState,
    env: Call,
    partner: Address,
    loan_id: u64,
    amount: i128,
)
    requires
        ledger.wf(),
        ledger.loans.dom().contains(loan_id),
        ledger.loans[loan_id].total_repaid_usd + amount > ledger.loans[loan_id].principal_usd,
    ensures
        ledger.attest_repayment(vault, env, partner, loan_id, amount) is Err,
{
}

/// Closed is closed: a repaid or defaulted loan accepts no repayment and no
/// transition, and no call changes its record.
pub proof fn law_closed_loans_stay_closed(
    ledger: LedgerState,
    vault: VaultState,
    env: Call,
    call: LedgerCall,
    id: u64,
)
    requires
        ledger.wf(),
        ledger.coherent(),
        ledger.loans.dom().contains(id),
        !ledger.loans[id].is_open(),
    ensures
        call matches LedgerCall::AttestRepayment { loan_id, .. } && loan_id == id ==> ledger.step(
            vault,
            env,
            call,
        ) is Err,
        call matches LedgerCall::MarkGrace { loan_id, .. } && loan_id == id ==> ledger.step(
            vault,
            env,
            call,
        ) is Err,
        call matches LedgerCall::MarkDefaulted { loan_id, .. } && loan_id == id ==> ledger.step(
            vault,
            env,
            call,
        ) is Err,
        ledger.step(vault, env, call) matches Ok((after, _)) ==> after.loans.dom().contains(id)
            && after.loans[id] == ledger.loans[id],
{
}

/// The state machine of a loan. An active loan enters grace only past its due
/// date and by the engine; it defaults only out of grace, past its expiry and by
/// the engine; a repayment closes it or puts it back in good standing. In
/// particular grace cannot be skipped.
pub proof fn law_status_machine(
    ledger: LedgerState,
    vault: VaultState,
    env: Call,
    call: LedgerCall,
    id: u64,
)
    requires
        ledger.wf(),
        ledger.coherent(),
        ledger.loans.dom().contains(id),
        ledger.step(vault, env, call) is Ok,
    ensures
        ({
            let before = ledger.loans[id];
            let after = ledger.step(vault, env, call)->Ok_0.0.loans[id];
            &&& after.status is Grace && after != before ==> before.status is Active
                && env.timestamp > before.next_due && ledger.engine_refusal(
                env,
                ledger.liquidation_engine->0,
            ) is None && after.grace_expires_at == env.timestamp + (
            ledger.config->0).grace_period_secs
            &&& after.status is Defaulted && after != before ==> before.status is Grace
                && env.timestamp > before.grace_expires_at && ledger.engine_refusal(
                env,
                ledger.liquidation_engine->0,
            ) is None
            &&& after.status is Repaid && after != before ==> before.is_open()
                && after.total_repaid_usd == after.principal_usd
            &&& after.status is Active && after != before ==> before.is_open()
                && before.total_repaid_usd < after.total_repaid_usd < after.principal_usd
        }),
{
}

/// A repayment that does not close the loan puts it in good standing, in grace
/// or not: the grace period is cleared and the next installment is due one
/// interval later.
pub proof fn law_payment_clears_grace(
    ledger: LedgerState,
    vault: VaultState,
    env: Call,
    partner: Address,
    loan_id: u64,
    amount: i128,
)
    requires
        ledger.attest_repayment(vault, env, partner, loan_id, amount) is Ok,
        ledger.loans[loan_id].id == loan_id,
        ledger.loans[loan_id].total_repaid_usd + amount < ledger.loans[loan_id].principal_usd,
    ensures
        ({
            let before = ledger.loans[loan_id];
            let after = ledger.attest_repayment(
                vault,
                env,
                partner,
                loan_id,
                amount,
            )->Ok_0.0.loans[loan_id];
            &&& after.status is Active
            &&& after.grace_expires_at == 0
            &&& after.next_due == before.next_due + before.interval_secs
            &&& after.installments_paid == before.installments_paid + 1
        }),
{
}

/// One open loan per guarantor and beneficiary: two open loans between the same
/// two are the same loan, and while there is one, no other can be opened.
pub proof fn law_one_open_loan_per_pair(
    ledger: LedgerState,
    vault: VaultState,
    env: Call,
    a: u64,
    b: u64,
    principal: i128,
    installment_count: u32,
    interval_secs: u64,
)
    requires
        ledger.coherent(),
        ledger.loans.dom().contains(a),
        ledger.loans.dom().contains(b),
        ledger.loans[a].is_open(),
        ledger.loans[b].is_open(),
        ledger.loans[a].pair() == ledger.loans[b].pair(),
    ensures
        a == b,
        ledger.originate(
            vault,
            env,
            ledger.loans[a].guarantor,
            ledger.loans[a].beneficiary,
            principal,
            installment_count,
            interval_secs,
        ) is Err,
{
}

/// Once a loan is closed, its guarantor and beneficiary are free to borrow again.
pub proof fn law_closing_frees_the_pair(
    ledger: LedgerState,
    vault: VaultState,
    env: Call,
    call: LedgerCall,
    id: u64,
)
    requires
        ledger.wf(),
        ledger.coherent(),
        ledger.loans.dom().contains(id),
        ledger.loans[id].is_open(),
        ledger.step(vault, env, call) is Ok,
        !ledger.step(vault, env, call)->Ok_0.0.loans[id].is_open(),
    ensures
        !ledger.step(vault, env, call)->Ok_0.0.open_loans.dom().contains(ledger.loans[id].pair()),
{
}

/// Loans are numbered by a counter that starts at one and never goes back, so
/// no number is used twice and no record is ever lost.
pub proof fn law_ids_are_never_reused(
    ledger: LedgerState,
    vault: VaultState,
    env: Call,
    call: LedgerCall,
    id: u64,
)
    requires
        ledger.wf(),
        ledger.coherent(),
        ledger.step(vault, env, call) is Ok,
    ensures
        ({
            let after = ledger.step(vault, env, call)->Ok_0.0;
            &&& after.loan_count >= ledger.loan_count
            &&& ledger.loans.dom().contains(id) ==> after.loans.dom().contains(id)
                && after.loans[id].id == id && after.loans[id].guarantor
                == ledger.loans[id].guarantor && after.loans[id].beneficiary
                == ledger.loans[id].beneficiary && after.loans[id].principal_usd
                == ledger.loans[id].principal_usd && after.loans[id].collateral_locked
                == ledger.loans[id].collateral_locked
            &&& after.loans.dom().contains(id) && !ledger.loans.dom().contains(id) ==> id
                == ledger.loan_count + 1 && call is Originate
        }),
{
    if ledger.loan_count >= 1 {
        assert(ledger.loans.dom().contains(1u64));
    }
}

/// Opening a loan takes the guarantor's own authorization, locks exactly the
/// collateral it is recorded with, and releases none of it.
pub proof fn law_origination_locks_its_collateral(
    ledger: LedgerState,
    vault: VaultState,
    env: Call,
    guarantor: Address,
    beneficiary: BytesN<32>,
    principal: i128,
    installment_count: u32,
    interval_secs: u64,
)
    requires
        ledger.wf(),
        vault.wf(),
        ledger.originate(
            vault,
            env,
            guarantor,
            beneficiary,
            principal,
            installment_count,
            interval_secs,
        ) is Ok,
    ensures
        ({
            let (after, locked, id) = ledger.originate(
                vault,
                env,
                guarantor,
                beneficiary,
                principal,
                installment_count,
                interval_secs,
            )->Ok_0;
            let loan = after.loans[id];
            &&& env.auths.contains(guarantor)
            &&& loan.guarantor == guarantor
            &&& loan.remaining() == loan.collateral_locked
            &&& loan.collateral_locked == super::terms::collateral(
                principal as int,
                ledger.required_ltv(beneficiary),
            )
            &&& locked.locked(guarantor) == vault.locked(guarantor) + loan.collateral_locked
            &&& locked.balance(guarantor) == vault.balance(guarantor)
        }),
{
    lemma_new_loan(
        ledger,
        vault,
        env,
        guarantor,
        beneficiary,
        principal,
        installment_count,
        interval_secs,
    );
    super::terms::law_ltv_between_floor_and_base(
        ledger.config->0,
        ledger.score(beneficiary) as int,
    );
    super::terms::lemma_collateral_in_range(principal, ledger.required_ltv(beneficiary));
}

/// What has been released depends on how much has been repaid, not on how many
/// attestations it took: where two repayments go through, one of their sum does
/// too; it releases what they release together, and leaves the same principal
/// repaid, the same status, and every guarantor the same position in the vault.
pub proof fn law_release_ignores_splitting(
    ledger: LedgerState,
    vault: VaultState,
    first: Call,
    second: Call,
    once: Call,
    partner: Address,
    loan_id: u64,
    a: i128,
    b: i128,
)
    requires
        ledger.wf(),
        vault.wf(),
        ledger.attest_repayment(vault, first, partner, loan_id, a) is Ok,
        ({
            let (mid, mid_vault, _) = ledger.attest_repayment(
                vault,
                first,
                partner,
                loan_id,
                a,
            )->Ok_0;
            mid.attest_repayment(mid_vault, second, partner, loan_id, b) is Ok
        }),
        once.auths.contains(partner),
        first.contract == once.contract,
        second.contract == once.contract,
    ensures
        ledger.attest_repayment(vault, once, partner, loan_id, (a + b) as i128) is Ok,
        ({
            let (mid, mid_vault, due_a) = ledger.attest_repayment(
                vault,
                first,
                partner,
                loan_id,
                a,
            )->Ok_0;
            let (end, end_vault, due_b) = mid.attest_repayment(
                mid_vault,
                second,
                partner,
                loan_id,
                b,
            )->Ok_0;
            let (whole, whole_vault, due) = ledger.attest_repayment(
                vault,
                once,
                partner,
                loan_id,
                (a + b) as i128,
            )->Ok_0;
            &&& due_a + due_b == due
            &&& end.loans[loan_id].collateral_released == whole.loans[loan_id].collateral_released
            &&& end.loans[loan_id].total_repaid_usd == whole.loans[loan_id].total_repaid_usd
            &&& end.loans[loan_id].status == whole.loans[loan_id].status
            &&& end_vault.locked(ledger.loans[loan_id].guarantor) == whole_vault.locked(
                ledger.loans[loan_id].guarantor,
            )
            &&& forall|g: Address| #[trigger] end_vault.position(g) == whole_vault.position(g)
        }),
{
    let (mid, mid_vault, due_a) = ledger.attest_repayment(vault, first, partner, loan_id, a)->Ok_0;
    lemma_release_due(ledger, loan_id, a);
    lemma_release_due(ledger, loan_id, (a + b) as i128);
    assert(mid.loans[loan_id] == ledger.repaid_loan(ledger.loans[loan_id], a));
    assert(mid.loans[loan_id].wf(mid.config->0));
    let loan = mid.loans[loan_id];
    let buffer = (ledger.config->0).safety_buffer_bps as int;
    law_release_grows(
        buffer,
        loan.collateral_locked as int,
        loan.total_repaid_usd as int,
        loan.total_repaid_usd + b,
        loan.principal_usd as int,
    );
    law_release_within_share(
        buffer,
        loan.collateral_locked as int,
        loan.total_repaid_usd + b,
        loan.principal_usd as int,
    );
}

/// Closing is decided by principal repaid: short of all of it, no attestation
/// closes the loan; with all of it, everything still held is released, the
/// safety buffer included.
pub proof fn law_closing_returns_everything(
    ledger: LedgerState,
    vault: VaultState,
    env: Call,
    partner: Address,
    loan_id: u64,
    amount: i128,
)
    requires
        ledger.wf(),
        ledger.attest_repayment(vault, env, partner, loan_id, amount) is Ok,
    ensures
        ({
            let before = ledger.loans[loan_id];
            let (after, _, due) = ledger.attest_repayment(
                vault,
                env,
                partner,
                loan_id,
                amount,
            )->Ok_0;
            let loan = after.loans[loan_id];
            &&& loan.status is Repaid <==> before.total_repaid_usd + amount == before.principal_usd
            &&& loan.status is Repaid ==> due == before.remaining() && loan.remaining() == 0
            &&& due == before.remaining() - loan.remaining()
        }),
{
    lemma_release_due(ledger, loan_id, amount);
}

/// On a loan opened at a hundred percent or more, the collateral still held
/// covers the principal still owed, until the loan is closed.
pub proof fn law_open_loan_is_covered(ledger: LedgerState, id: u64)
    requires
        ledger.wf(),
        ledger.loans.dom().contains(id),
        ledger.loans[id].is_open(),
        ledger.loans[id].ltv_bps >= BPS,
    ensures
        ledger.loans[id].remaining() >= ledger.loans[id].outstanding() > 0,
{
    let loan = ledger.loans[id];
    law_collateral_covers_principal(loan.principal_usd as int, loan.ltv_bps as int);
    law_remaining_covers_outstanding(
        (ledger.config->0).safety_buffer_bps as int,
        loan.collateral_locked as int,
        loan.total_repaid_usd as int,
        loan.principal_usd as int,
    );
}

/// The rate a beneficiary qualifies for never goes below the floor nor above the
/// base, whatever score has been published.
pub proof fn law_ltv_respects_the_floor(ledger: LedgerState, beneficiary: BytesN<32>)
    requires
        ledger.wf(),
        ledger.config is Some,
    ensures
        (ledger.config->0).min_ltv_bps <= ledger.required_ltv(beneficiary) <= (
        ledger.config->0).base_ltv_bps,
{
    super::terms::law_ltv_between_floor_and_base(
        ledger.config->0,
        ledger.score(beneficiary) as int,
    );
}

/// The ledger is set up once: the administrator, the vault and the terms never
/// change afterwards.
pub proof fn law_terms_are_fixed(ledger: LedgerState, vault: VaultState, env: Call, call: LedgerCall)
    requires
        ledger.admin is Some,
        ledger.step(vault, env, call) is Ok,
    ensures
        ({
            let after = ledger.step(vault, env, call)->Ok_0.0;
            &&& after.admin == ledger.admin
            &&& after.vault == ledger.vault
            &&& after.config == ledger.config
        }),
{
}

/// A ledger that has not been wired up fails closed: without a vault no loan is
/// opened, without an engine no loan leaves good standing, without an oracle no
/// score is published, and without an administrator nothing is set.
pub proof fn law_unwired_ledger_fails_closed(
    ledger: LedgerState,
    vault: VaultState,
    env: Call,
    call: LedgerCall,
)
    ensures
        ledger.vault is None && call is Originate ==> ledger.step(vault, env, call) is Err,
        ledger.liquidation_engine is None && (call is MarkGrace || call is MarkDefaulted)
            ==> ledger.step(vault, env, call) is Err,
        ledger.oracle is None && call is SetReputation ==> ledger.step(vault, env, call) is Err,
        ledger.admin is None && (call is SetOracle || call is SetLiquidationEngine
            || call is SetPartner) ==> ledger.step(vault, env, call) is Err,
{
}

} // verus!
