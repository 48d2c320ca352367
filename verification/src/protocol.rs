//! The three contracts together.
//!
//! The vault knows what is locked but not why; the ledger knows why but holds
//! nothing; the engine holds neither. What ties them together is that the vault
//! has locked, for each guarantor, exactly what the ledger still counts as held
//! against that guarantor's loans.
use crate::guarantor_vault::laws::{law_custody_is_conserved, VaultCall};
use crate::guarantor_vault::model::VaultState;
use crate::guarantor_vault::operations::{deposited, reserved};
use crate::host::{Address, BytesN, Call, Failure, Transfer};
use crate::liquidation_engine::laws::{
    law_liquidation_is_bounded_by_the_debt, law_liquidation_is_isolated, EngineCall,
};
use crate::liquidation_engine::model::{forfeited, EngineState};
use crate::liquidation_engine::operations::law_liquidation;
use crate::loan_ledger::laws::{
    law_origination_locks_its_collateral, law_records_stay_sound, lemma_release_due,
    lemma_released_within_locked, LedgerCall,
};
use crate::loan_ledger::model::LedgerState;
use crate::loan_ledger::{Loan, LoanStatus};
use vstd::prelude::*;

verus! {

/// Where the three contracts are deployed.
pub struct Deployment {
    pub vault: Address,
    pub ledger: Address,
    pub engine: Address,
}

/// The states of the three contracts.
#[verifier::ext_equal]
pub struct Protocol {
    pub vault: VaultState,
    pub ledger: LedgerState,
    pub engine: EngineState,
}

/// What a loan still has locked of a guarantor's collateral.
pub open spec fn held_against(loan: Loan, guarantor: Address) -> int {
    if loan.guarantor == guarantor {
        loan.remaining()
    } else {
        0
    }
}

/// What the loans numbered up to `n` still have locked of a guarantor's collateral.
pub open spec fn committed(loans: Map<u64, Loan>, guarantor: Address, n: nat) -> int
    decreases n,
{
    if n == 0 {
        0
    } else {
        committed(loans, guarantor, (n - 1) as nat) + held_against(loans[n as u64], guarantor)
    }
}

impl Protocol {
    /// The contracts are wired to each other, as deployed.
    pub open spec fn wired(self, at: Deployment) -> bool {
        &&& self.vault.loan_ledger == Some(at.ledger)
        &&& self.vault.liquidation_engine == Some(at.engine)
        &&& self.vault.usdc_token is Some
        &&& self.vault.settlement_address is Some
        &&& self.vault.admin is Some
        &&& self.ledger.admin is Some
        &&& self.ledger.vault == Some(at.vault)
        &&& self.ledger.liquidation_engine == Some(at.engine)
        &&& self.engine.admin is Some
        &&& self.engine.vault == Some(at.vault)
        &&& self.engine.loan_ledger == Some(at.ledger)
    }

    /// For each guarantor, the vault has locked exactly what the ledger counts as
    /// held against that guarantor's loans.
    pub open spec fn balanced(self) -> bool {
        forall|g: Address| #[trigger]
            self.vault.locked(g) == committed(self.ledger.loans, g, self.ledger.loan_count as nat)
    }

    /// All that holds of the deployed protocol at any time.
    pub open spec fn inv(self, at: Deployment) -> bool {
        &&& self.wired(at)
        &&& self.vault.wf()
        &&& self.ledger.wf()
        &&& self.ledger.coherent()
        &&& self.balanced()
    }
}

/// A transaction: a call of one of the contracts.
pub enum Transaction {
    Vault(VaultCall),
    Ledger(LedgerCall),
    Engine(EngineCall),
    FlagOverdue { loan_id: u64 },
    Liquidate { loan_id: u64 },
    Poke { loan_id: u64 },
}

impl Transaction {
    /// Whether the transaction points the ledger at another engine.
    pub open spec fn rewires(self, at: Deployment) -> bool {
        self matches Transaction::Ledger(LedgerCall::SetLiquidationEngine { admin, engine })
            && engine != at.engine
    }
}

impl Protocol {
    /// What the transaction makes of the protocol.
    pub open spec fn step(self, at: Deployment, env: Call, t: Transaction) -> Result<
        Protocol,
        Failure,
    > {
        match t {
            Transaction::Vault(call) => match self.vault.step(
                Call { contract: at.vault, ..env },
                call,
            ) {
                Ok(vault) => Ok(Protocol { vault, ..self }),
                Err(e) => Err(e),
            },
            Transaction::Ledger(call) => match self.ledger.step(
                self.vault,
                Call { contract: at.ledger, ..env },
                call,
            ) {
                Ok((ledger, vault)) => Ok(Protocol { vault, ledger, ..self }),
                Err(e) => Err(e),
            },
            Transaction::Engine(call) => match self.engine.step(
                Call { contract: at.engine, ..env },
                call,
            ) {
                Ok(engine) => Ok(Protocol { engine, ..self }),
                Err(e) => Err(e),
            },
            Transaction::FlagOverdue { loan_id } => match self.engine.flag_overdue(
                self.ledger,
                Call { contract: at.engine, ..env },
                loan_id,
            ) {
                Ok((engine, ledger)) => Ok(Protocol { engine, ledger, ..self }),
                Err(e) => Err(e),
            },
            Transaction::Liquidate { loan_id } => {
                let (vault, result) = self.engine.liquidate(
                    self.ledger,
                    self.vault,
                    Call { contract: at.engine, ..env },
                    loan_id,
                );
                match result {
                    Ok((engine, ledger, seized)) => Ok(Protocol { vault, ledger, engine }),
                    Err(e) => Err(e),
                }
            },
            Transaction::Poke { loan_id } => {
                let (vault, result) = self.engine.poke(
                    self.ledger,
                    self.vault,
                    Call { contract: at.engine, ..env },
                    loan_id,
                );
                match result {
                    Ok((engine, ledger, acted)) => Ok(Protocol { vault, ledger, engine }),
                    Err(e) => Err(e),
                }
            },
        }
    }
}

/// Loans beyond `n` do not count.
proof fn lemma_committed_same(a: Map<u64, Loan>, b: Map<u64, Loan>, g: Address, n: nat)
    requires
        n <= u64::MAX,
        forall|id: u64|
            1 <= id <= n ==> held_against(#[trigger] a[id], g) == held_against(b[id], g),
    ensures
        committed(a, g, n) == committed(b, g, n),
    decreases n,
{
    if n > 0 {
        lemma_committed_same(a, b, g, (n - 1) as nat);
        assert(held_against(a[n as u64], g) == held_against(b[n as u64], g));
    }
}

/// Replacing one loan's record changes the sum by what it changes that loan.
proof fn lemma_committed_insert(loans: Map<u64, Loan>, g: Address, n: nat, id: u64, loan: Loan)
    requires
        1 <= id <= n <= u64::MAX,
    ensures
        committed(loans.insert(id, loan), g, n) == committed(loans, g, n) - held_against(
            loans[id],
            g,
        ) + held_against(loan, g),
    decreases n,
{
    let after = loans.insert(id, loan);
    if n == id {
        lemma_committed_same(after, loans, g, (n - 1) as nat);
    } else {
        lemma_committed_insert(loans, g, (n - 1) as nat, id, loan);
        assert(after[n as u64] == loans[n as u64]);
    }
}

/// Each loan's share is within the sum.
proof fn lemma_committed_covers(ledger: LedgerState, g: Address, n: nat, id: u64)
    requires
        ledger.wf(),
        ledger.coherent(),
        1 <= id <= n <= ledger.loan_count,
    ensures
        0 <= held_against(ledger.loans[id], g) <= committed(ledger.loans, g, n),
    decreases n,
{
    assert(ledger.loans.dom().contains(n as u64));
    assert(ledger.loans.dom().contains(id));
    lemma_released_within_locked(ledger, n as u64);
    lemma_released_within_locked(ledger, id);
    if id < n {
        lemma_committed_covers(ledger, g, (n - 1) as nat, id);
    } else {
        lemma_committed_nonnegative(ledger, g, (n - 1) as nat);
    }
}

/// The sum is not negative.
proof fn lemma_committed_nonnegative(ledger: LedgerState, g: Address, n: nat)
    requires
        ledger.wf(),
        ledger.coherent(),
        n <= ledger.loan_count,
    ensures
        0 <= committed(ledger.loans, g, n),
    decreases n,
{
    if n > 0 {
        lemma_committed_nonnegative(ledger, g, (n - 1) as nat);
        assert(ledger.loans.dom().contains(n as u64));
        lemma_released_within_locked(ledger, n as u64);
    }
}

/// The vault has at least as much locked as any one loan of the guarantor needs.
proof fn lemma_vault_covers_loan(p: Protocol, at: Deployment, id: u64)
    requires
        p.inv(at),
        p.ledger.loans.dom().contains(id),
    ensures
        0 <= p.ledger.loans[id].remaining() <= p.vault.locked(p.ledger.loans[id].guarantor),
{
    let g = p.ledger.loans[id].guarantor;
    lemma_committed_covers(p.ledger, g, p.ledger.loan_count as nat, id);
    assert(p.vault.locked(g) == committed(p.ledger.loans, g, p.ledger.loan_count as nat));
}

/// The books stay balanced when one loan's record and its guarantor's lock change
/// by the same amount.
proof fn lemma_still_balanced(
    before: Protocol,
    vault: VaultState,
    ledger: LedgerState,
    id: u64,
    loan: Loan,
)
    requires
        before.balanced(),
        before.ledger.coherent(),
        before.ledger.loans.dom().contains(id),
        ledger.loans == before.ledger.loans.insert(id, loan),
        ledger.loan_count == before.ledger.loan_count,
        loan.guarantor == before.ledger.loans[id].guarantor,
        forall|g: Address| #[trigger]
            vault.locked(g) == before.vault.locked(g) + held_against(loan, g) - held_against(
                before.ledger.loans[id],
                g,
            ),
    ensures
        forall|g: Address| #[trigger]
            vault.locked(g) == committed(ledger.loans, g, ledger.loan_count as nat),
{
    assert forall|g: Address| #[trigger] vault.locked(g) == committed(
        ledger.loans,
        g,
        ledger.loan_count as nat,
    ) by {
        lemma_committed_insert(
            before.ledger.loans,
            g,
            before.ledger.loan_count as nat,
            id,
            loan,
        );
        assert(before.vault.locked(g) == committed(
            before.ledger.loans,
            g,
            before.ledger.loan_count as nat,
        ));
    }
}

/// A repayment keeps the books balanced.
proof fn lemma_repayment_balances(
    p: Protocol,
    at: Deployment,
    env: Call,
    partner: Address,
    loan_id: u64,
    amount: i128,
)
    requires
        p.inv(at),
        env.contract == at.ledger,
        p.ledger.attest_repayment(p.vault, env, partner, loan_id, amount) is Ok,
    ensures
        ({
            let (ledger, vault, _) = p.ledger.attest_repayment(
                p.vault,
                env,
                partner,
                loan_id,
                amount,
            )->Ok_0;
            Protocol { vault, ledger, ..p }.inv(at)
        }),
{
    let loan = p.ledger.loans[loan_id];
    let due = p.ledger.release_due(loan, amount);
    let (ledger, vault, _) = p.ledger.attest_repayment(
        p.vault,
        env,
        partner,
        loan_id,
        amount,
    )->Ok_0;
    lemma_release_due(p.ledger, loan_id, amount);
    law_records_stay_sound(
        p.ledger,
        p.vault,
        env,
        LedgerCall::AttestRepayment { partner, loan_id, amount },
    );
    let after = p.ledger.repaid_loan(loan, amount);
    assert forall|g: Address| #[trigger]
        vault.locked(g) == p.vault.locked(g) + held_against(after, g) - held_against(loan, g) by {
        if due > 0 {
            law_custody_is_conserved(
                p.vault,
                env.invoke(at.vault),
                VaultCall::ReleaseCollateral {
                    caller: env.contract,
                    guarantor: loan.guarantor,
                    amount: due as i128,
                },
                g,
            );
        }
    }
    lemma_still_balanced(p, vault, ledger, loan_id, after);
}

/// Opening a loan keeps the books balanced.
proof fn lemma_origination_balances(
    p: Protocol,
    at: Deployment,
    env: Call,
    guarantor: Address,
    beneficiary: BytesN<32>,
    principal: i128,
    installment_count: u32,
    interval_secs: u64,
)
    requires
        p.inv(at),
        p.ledger.originate(
            p.vault,
            env,
            guarantor,
            beneficiary,
            principal,
            installment_count,
            interval_secs,
        ) is Ok,
    ensures
        ({
            let (ledger, vault, _) = p.ledger.originate(
                p.vault,
                env,
                guarantor,
                beneficiary,
                principal,
                installment_count,
                interval_secs,
            )->Ok_0;
            Protocol { vault, ledger, ..p }.inv(at)
        }),
{
    let (ledger, vault, id) = p.ledger.originate(
        p.vault,
        env,
        guarantor,
        beneficiary,
        principal,
        installment_count,
        interval_secs,
    )->Ok_0;
    law_records_stay_sound(
        p.ledger,
        p.vault,
        env,
        LedgerCall::Originate {
            guarantor,
            beneficiary,
            principal,
            installment_count,
            interval_secs,
        },
    );
    law_origination_locks_its_collateral(
        p.ledger,
        p.vault,
        env,
        guarantor,
        beneficiary,
        principal,
        installment_count,
        interval_secs,
    );
    let loan = ledger.loans[id];
    assert forall|g: Address| #[trigger]
        vault.locked(g) == committed(ledger.loans, g, ledger.loan_count as nat) by {
        law_custody_is_conserved(
            p.vault,
            env.invoke(at.vault),
            VaultCall::LockCollateral {
                caller: env.contract,
                guarantor,
                amount: loan.collateral_locked,
            },
            g,
        );
        lemma_committed_same(ledger.loans, p.ledger.loans, g, p.ledger.loan_count as nat);
        assert(p.vault.locked(g) == committed(p.ledger.loans, g, p.ledger.loan_count as nat));
    }
}

/// A liquidation keeps the books balanced.
proof fn lemma_liquidation_balances(p: Protocol, at: Deployment, env: Call, loan_id: u64)
    requires
        p.inv(at),
        env.contract == at.engine,
        p.engine.liquidate(p.ledger, p.vault, env, loan_id).1 is Ok,
    ensures
        ({
            let (vault, result) = p.engine.liquidate(p.ledger, p.vault, env, loan_id);
            let (engine, ledger, _) = result->Ok_0;
            Protocol { vault, ledger, engine }.inv(at)
        }),
{
    let (vault, result) = p.engine.liquidate(p.ledger, p.vault, env, loan_id);
    let (engine, ledger, seized) = result->Ok_0;
    let loan = p.ledger.loans[loan_id];
    let after = ledger.loans[loan_id];
    law_liquidation_is_bounded_by_the_debt(p.engine, p.ledger, p.vault, env, loan_id);
    law_records_stay_sound(
        p.ledger,
        p.vault,
        env.invoke(at.ledger),
        LedgerCall::MarkDefaulted { caller: env.contract, loan_id },
    );
    assert forall|g: Address| #[trigger]
        vault.locked(g) == p.vault.locked(g) + held_against(after, g) - held_against(loan, g) by {
        if g != loan.guarantor {
            law_liquidation_is_isolated(p.engine, p.ledger, p.vault, env, loan_id, g);
        }
    }
    lemma_still_balanced(p, vault, ledger, loan_id, after);
}

/// A call of the vault that is on neither the ledger's nor the engine's authority
/// keeps the books balanced.
proof fn lemma_vault_call_balances(p: Protocol, at: Deployment, env: Call, call: VaultCall)
    requires
        p.inv(at),
        p.vault.step(env, call) is Ok,
        !env.auths.contains(at.ledger),
        !env.auths.contains(at.engine),
    ensures
        ({
            let vault = p.vault.step(env, call)->Ok_0;
            Protocol { vault, ..p }.inv(at)
        }),
{
    let vault = p.vault.step(env, call)->Ok_0;
    assert forall|g: Address| #[trigger]
        vault.locked(g) == committed(p.ledger.loans, g, p.ledger.loan_count as nat) by {
        law_custody_is_conserved(p.vault, env, call, g);
        assert(p.vault.locked(g) == committed(p.ledger.loans, g, p.ledger.loan_count as nat));
    }
}

/// A call of the ledger that is not on the engine's authority, and does not point
/// the ledger at another engine, keeps the books balanced.
proof fn lemma_ledger_call_balances(p: Protocol, at: Deployment, env: Call, call: LedgerCall)
    requires
        p.inv(at),
        env.contract == at.ledger,
        p.ledger.step(p.vault, env, call) is Ok,
        !Transaction::Ledger(call).rewires(at),
        !env.auths.contains(at.engine),
    ensures
        ({
            let (ledger, vault) = p.ledger.step(p.vault, env, call)->Ok_0;
            Protocol { vault, ledger, ..p }.inv(at)
        }),
{
    match call {
        LedgerCall::Originate {
            guarantor,
            beneficiary,
            principal,
            installment_count,
            interval_secs,
        } => {
            lemma_origination_balances(
                p,
                at,
                env,
                guarantor,
                beneficiary,
                principal,
                installment_count,
                interval_secs,
            );
        },
        LedgerCall::AttestRepayment { partner, loan_id, amount } => {
            lemma_repayment_balances(p, at, env, partner, loan_id, amount);
        },
        _ => {
            law_records_stay_sound(p.ledger, p.vault, env, call);
        },
    }
}

/// The protocol as deployed keeps its books balanced whatever anyone does: for
/// each guarantor, the vault has locked exactly what the ledger counts as held
/// against that guarantor's loans, every record stays sound, and the contracts
/// stay wired. Left out are only a transaction that points the ledger at another
/// engine, and one authorized under the ledger's or the engine's own address,
/// which no one holds a key to.
pub proof fn law_books_stay_balanced(p: Protocol, at: Deployment, env: Call, t: Transaction)
    requires
        p.inv(at),
        p.step(at, env, t) is Ok,
        !t.rewires(at),
        !env.auths.contains(at.ledger),
        !env.auths.contains(at.engine),
    ensures
        p.step(at, env, t)->Ok_0.inv(at),
{
    match t {
        Transaction::Vault(call) => {
            lemma_vault_call_balances(p, at, Call { contract: at.vault, ..env }, call);
        },
        Transaction::Ledger(call) => {
            lemma_ledger_call_balances(p, at, Call { contract: at.ledger, ..env }, call);
        },
        Transaction::Engine(call) => {},
        Transaction::FlagOverdue { loan_id } => {
            lemma_flag_balances(p, at, Call { contract: at.engine, ..env }, loan_id);
        },
        Transaction::Liquidate { loan_id } => {
            lemma_liquidation_balances(p, at, Call { contract: at.engine, ..env }, loan_id);
        },
        Transaction::Poke { loan_id } => {
            let env = Call { contract: at.engine, ..env };
            if p.ledger.is_overdue(env, loan_id) == Ok::<bool, Failure>(true) {
                lemma_flag_balances(p, at, env, loan_id);
            } else if p.ledger.is_grace_expired(env, loan_id) == Ok::<bool, Failure>(true) {
                lemma_liquidation_balances(p, at, env, loan_id);
            }
        },
    }
}

/// Putting a loan into grace keeps the books balanced.
proof fn lemma_flag_balances(p: Protocol, at: Deployment, env: Call, loan_id: u64)
    requires
        p.inv(at),
        env.contract == at.engine,
        p.engine.flag_overdue(p.ledger, env, loan_id) is Ok,
    ensures
        ({
            let (engine, ledger) = p.engine.flag_overdue(p.ledger, env, loan_id)->Ok_0;
            Protocol { engine, ledger, ..p }.inv(at)
        }),
{
    let (engine, ledger) = p.engine.flag_overdue(p.ledger, env, loan_id)->Ok_0;
    law_records_stay_sound(
        p.ledger,
        p.vault,
        env.invoke(at.ledger),
        LedgerCall::MarkGrace { caller: env.contract, loan_id },
    );
    lemma_still_balanced(p, p.vault, ledger, loan_id, ledger.loans[loan_id]);
}

/// A protocol that has been wired up and has no loans yet is balanced, whatever
/// has been deposited.
pub proof fn law_new_protocol_is_balanced(p: Protocol, at: Deployment)
    requires
        p.wired(at),
        p.vault.wf(),
        p.ledger.wf(),
        p.ledger.loans == Map::<u64, Loan>::empty(),
        p.ledger.open_loans.dom().is_empty(),
        p.ledger.loan_count == 0,
        forall|g: Address| #[trigger] p.vault.locked(g) == 0,
    ensures
        p.inv(at),
{
}

/// A loan that is in grace past the end of it can always be liquidated, by anyone:
/// the vault has the collateral and recognizes the engine, and the ledger closes
/// the loan. What is seized is the smaller of the principal not repaid and the
/// collateral not released. A poke does the same.
pub proof fn law_due_liquidation_goes_through(
    p: Protocol,
    at: Deployment,
    env: Call,
    loan_id: u64,
)
    requires
        p.inv(at),
        p.ledger.loans.dom().contains(loan_id),
        p.ledger.loans[loan_id].status == LoanStatus::Grace,
        p.ledger.loans[loan_id].grace_expires_at < env.timestamp,
    ensures
        p.ledger.is_grace_expired(env, loan_id) == Ok::<bool, Failure>(true),
        p.step(at, env, Transaction::Liquidate { loan_id }) is Ok,
        p.step(at, env, Transaction::Poke { loan_id }) == p.step(
            at,
            env,
            Transaction::Liquidate { loan_id },
        ),
        ({
            let loan = p.ledger.loans[loan_id];
            let g = loan.guarantor;
            let owed = loan.principal_usd - loan.total_repaid_usd;
            let held = loan.collateral_locked - loan.collateral_released;
            let seized = if owed < held {
                owed
            } else {
                held
            };
            let after = p.step(at, env, Transaction::Liquidate { loan_id })->Ok_0;
            &&& p.engine.liquidate(
                p.ledger,
                p.vault,
                Call { contract: at.engine, ..env },
                loan_id,
            ).1->Ok_0.2 == seized
            &&& seized == forfeited(loan)
            &&& after.ledger.loans[loan_id].status == LoanStatus::Defaulted
            &&& deposited(after.vault, g) == deposited(p.vault, g) - seized
            &&& reserved(after.vault, g) == reserved(p.vault, g) - held
            &&& after.vault.transfers == p.vault.transfers.push(
                Transfer {
                    token: p.vault.usdc_token->0,
                    from: at.vault,
                    to: p.vault.settlement_address->0,
                    amount: seized as i128,
                },
            )
        }),
{
    let loan = p.ledger.loans[loan_id];
    let owed = loan.principal_usd - loan.total_repaid_usd;
    let held = loan.collateral_locked - loan.collateral_released;
    let seized = if owed < held {
        owed
    } else {
        held
    };
    lemma_vault_covers_loan(p, at, loan_id);
    law_liquidation(
        p.engine,
        p.ledger,
        p.vault,
        Call { contract: at.engine, ..env },
        loan_id,
        seized,
    );
}

/// A loan that is active past its due date can always be put into grace, by anyone,
/// as long as the end of the grace period can be written down; and so can it by a
/// poke.
pub proof fn law_overdue_loan_can_be_flagged(p: Protocol, at: Deployment, env: Call, loan_id: u64)
    requires
        p.inv(at),
        p.ledger.loans.dom().contains(loan_id),
        p.ledger.loans[loan_id].status == LoanStatus::Active,
        p.ledger.loans[loan_id].next_due < env.timestamp,
        env.timestamp + (p.ledger.config->0).grace_period_secs <= u64::MAX,
    ensures
        p.ledger.is_overdue(env, loan_id) == Ok::<bool, Failure>(true),
        p.step(at, env, Transaction::FlagOverdue { loan_id }) is Ok,
        p.step(at, env, Transaction::Poke { loan_id }) is Ok,
        ({
            let flagged = p.step(at, env, Transaction::FlagOverdue { loan_id })->Ok_0.ledger;
            let poked = p.step(at, env, Transaction::Poke { loan_id })->Ok_0.ledger;
            &&& flagged.loans[loan_id].status == LoanStatus::Grace
            &&& flagged.loans[loan_id].grace_expires_at == env.timestamp + (
            p.ledger.config->0).grace_period_secs
            &&& poked == flagged
        }),
{
}

/// The vault never stands in the way of a repayment: one that the ledger accepts
/// goes through, as long as the next due date can be written down.
pub proof fn law_accepted_repayment_goes_through(
    p: Protocol,
    at: Deployment,
    env: Call,
    partner: Address,
    loan_id: u64,
    amount: i128,
)
    requires
        p.inv(at),
        p.ledger.repayment_refusal(env, partner, loan_id, amount) is None,
        p.ledger.schedule_in_range(p.ledger.loans[loan_id], amount),
    ensures
        p.step(
            at,
            env,
            Transaction::Ledger(LedgerCall::AttestRepayment { partner, loan_id, amount }),
        ) is Ok,
{
    lemma_vault_covers_loan(p, at, loan_id);
    lemma_release_due(p.ledger, loan_id, amount);
}

/// A guarantor none of whose loans is open has nothing locked, and may withdraw
/// everything.
pub proof fn law_closed_loans_hold_nothing(p: Protocol, at: Deployment, guarantor: Address)
    requires
        p.inv(at),
        forall|id: u64| #[trigger]
            p.ledger.loans.dom().contains(id) && p.ledger.loans[id].guarantor == guarantor
                ==> !p.ledger.loans[id].is_open(),
    ensures
        p.vault.locked(guarantor) == 0,
        p.vault.available(guarantor) == p.vault.balance(guarantor),
{
    lemma_closed_commit_nothing(p.ledger, guarantor, p.ledger.loan_count as nat);
    assert(p.vault.locked(guarantor) == committed(
        p.ledger.loans,
        guarantor,
        p.ledger.loan_count as nat,
    ));
}

/// Closed loans have nothing locked.
proof fn lemma_closed_commit_nothing(ledger: LedgerState, g: Address, n: nat)
    requires
        ledger.wf(),
        ledger.coherent(),
        n <= ledger.loan_count,
        forall|id: u64| #[trigger]
            ledger.loans.dom().contains(id) && ledger.loans[id].guarantor == g
                ==> !ledger.loans[id].is_open(),
    ensures
        committed(ledger.loans, g, n) == 0,
    decreases n,
{
    if n > 0 {
        lemma_closed_commit_nothing(ledger, g, (n - 1) as nat);
        assert(ledger.loans.dom().contains(n as u64));
    }
}

} // verus!
