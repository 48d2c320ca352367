//! What each call of the loan ledger is for: who may make it, when it succeeds,
//! and what it writes into the records.
use super::laws::lemma_release_due;
use super::model::LedgerState;
use super::terms::{
    law_collateral_is_proportional, law_ltv_between_floor_and_base, law_reduction_is_proportional,
    law_release_is_proportional, law_release_within_share, lemma_collateral_in_range,
    lemma_installment_in_range, lemma_rounded_down, releasable,
};
use super::{Config, Error, Loan, LoanLedgerContract, LoanStatus, Pair};
use crate::guarantor_vault::model::VaultState;
use crate::guarantor_vault::operations::{deposited, position_moved, reserved};
use crate::host::{fails, Address, BytesN, Call, Failure};
use vstd::prelude::*;

verus! {

/// The score published for the beneficiary, and zero where none is.
pub open spec fn published_score(ledger: LedgerState, beneficiary: BytesN<32>) -> int {
    if ledger.reputations.dom().contains(beneficiary) {
        ledger.reputations[beneficiary] as int
    } else {
        0
    }
}

/// `rate` is what the published score earns: the base, less the score's share of
/// the span down to the floor, rounded down.
pub open spec fn is_rate(ledger: LedgerState, beneficiary: BytesN<32>, rate: int) -> bool {
    let config = ledger.config->0;
    let reduction = config.base_ltv_bps - rate;
    let span = config.base_ltv_bps - config.min_ltv_bps;
    reduction * 10_000 <= span * published_score(ledger, beneficiary) < (reduction + 1) * 10_000
}

/// The administrator has authorized the call.
pub open spec fn by_admin(ledger: LedgerState, env: Call, admin: Address) -> bool {
    env.auths.contains(admin) && ledger.admin == Some(admin)
}

/// The engine has authorized the call.
pub open spec fn by_engine(ledger: LedgerState, env: Call, caller: Address) -> bool {
    env.auths.contains(caller) && ledger.liquidation_engine == Some(caller)
}

/// The record of one loan, and it alone, is different.
pub open spec fn only_loan_changed(before: LedgerState, after: LedgerState, id: u64) -> bool {
    &&& after.loans.dom() =~= before.loans.dom()
    &&& forall|o: u64|
        o != id && #[trigger] before.loans.dom().contains(o) ==> after.loans[o]
            == before.loans[o]
    &&& after == LedgerState { loans: after.loans, open_loans: after.open_loans, ..before }
}

/// Every reason has the number it has always had, and no two have the same.
pub proof fn law_codes_are_stable(a: Error, b: Error)
    ensures
        Error::AlreadyInitialized.spec_code() == 1,
        Error::NotInitialized.spec_code() == 2,
        Error::NotAuthorized.spec_code() == 3,
        Error::InvalidAmount.spec_code() == 4,
        Error::InvalidSchedule.spec_code() == 5,
        Error::InvalidConfig.spec_code() == 6,
        Error::InvalidScore.spec_code() == 7,
        Error::LoanNotFound.spec_code() == 8,
        Error::LoanNotActive.spec_code() == 9,
        Error::LoanAlreadyOpen.spec_code() == 10,
        Error::NotOverdue.spec_code() == 11,
        Error::GraceNotExpired.spec_code() == 12,
        Error::Overpayment.spec_code() == 13,
        a.spec_code() == b.spec_code() ==> a == b,
{
}

/// The state of the contract is its fields, each under its own name.
pub proof fn law_state_is_the_fields(contract: LoanLedgerContract)
    ensures
        contract@.admin == contract.admin,
        contract@.oracle == contract.oracle,
        contract@.vault == contract.vault,
        contract@.liquidation_engine == contract.liquidation_engine,
        contract@.config == contract.config,
        contract@.loan_count == contract.loan_count,
        contract@.loans == contract.loans@,
        contract@.partners == contract.partners@,
        contract@.reputations == contract.reputations@,
        contract@.open_loans == contract.open_loans@,
{
}

/// A new ledger has nothing set, no loans, no partners and no scores.
pub proof fn law_new_ledger_is_blank()
    ensures
        ({
            let ledger = LedgerState::empty();
            &&& ledger.admin is None
            &&& ledger.oracle is None
            &&& ledger.vault is None
            &&& ledger.liquidation_engine is None
            &&& ledger.config is None
            &&& ledger.loan_count == 0
            &&& ledger.loans =~= Map::empty()
            &&& ledger.partners =~= Map::empty()
            &&& ledger.reputations =~= Map::empty()
            &&& ledger.open_loans =~= Map::empty()
        }),
{
}

/// What is read off a loan's record: principal not repaid is owed, collateral not
/// released is held, and a loan is open while it is active or in grace.
pub proof fn law_loan_reads_as_recorded(loan: Loan)
    ensures
        loan.outstanding() == loan.principal_usd - loan.total_repaid_usd,
        loan.remaining() == loan.collateral_locked - loan.collateral_released,
        loan.is_open() <==> loan.status == LoanStatus::Active || loan.status == LoanStatus::Grace,
        loan.pair().guarantor == loan.guarantor,
        loan.pair().beneficiary == loan.beneficiary,
{
}

/// A loan record is sound exactly when its amounts follow from its terms: the rate
/// is within the configured bounds, the collateral is the rate's share of the
/// principal, an installment is the count's share of it, and what is released is
/// what the repayments have freed. `share` and `free` are the two roundings of it.
pub proof fn law_sound_loan(loan: Loan, config: Config, share: int, free: int)
    requires
        loan.principal_usd > 0,
        loan.installment_count > 0,
        share * loan.principal_usd <= loan.collateral_locked * loan.total_repaid_usd < (share + 1)
            * loan.principal_usd,
        free * 10_000 <= share * (10_000 - config.safety_buffer_bps) < (free + 1) * 10_000,
    ensures
        loan.wf(config) <==> {
            &&& config.min_ltv_bps <= loan.ltv_bps <= config.base_ltv_bps
            &&& loan.collateral_locked > 0
            &&& loan.collateral_locked * 10_000 <= loan.principal_usd * loan.ltv_bps < (
            loan.collateral_locked + 1) * 10_000
            &&& loan.interval_secs > 0
            &&& loan.installment_amount * loan.installment_count <= loan.principal_usd < (
            loan.installment_amount + 1) * loan.installment_count
            &&& 0 <= loan.total_repaid_usd <= loan.principal_usd
            &&& match loan.status {
                LoanStatus::Active => loan.total_repaid_usd < loan.principal_usd
                    && loan.collateral_released == free && loan.grace_expires_at == 0,
                LoanStatus::Grace => loan.total_repaid_usd < loan.principal_usd
                    && loan.collateral_released == free,
                LoanStatus::Repaid => loan.total_repaid_usd == loan.principal_usd
                    && loan.collateral_released == loan.collateral_locked && loan.grace_expires_at
                    == 0,
                LoanStatus::Defaulted => loan.total_repaid_usd < loan.principal_usd
                    && loan.collateral_released == loan.collateral_locked,
            }
        },
{
    lemma_rounded_down(
        loan.principal_usd * loan.ltv_bps,
        10_000,
        loan.collateral_locked as int,
    );
    lemma_rounded_down(
        loan.principal_usd as int,
        loan.installment_count as int,
        loan.installment_amount as int,
    );
    law_release_is_proportional(
        config.safety_buffer_bps as int,
        loan.collateral_locked as int,
        loan.total_repaid_usd as int,
        loan.principal_usd as int,
        share,
        free,
    );
}

/// A sound loan has a principal and at least one installment.
pub proof fn law_sound_loan_is_a_loan(loan: Loan, config: Config)
    requires
        loan.wf(config),
    ensures
        loan.principal_usd > 0,
        loan.installment_count > 0,
{
}

/// The rate a beneficiary is quoted is what their published score earns, and no
/// other rate is.
pub proof fn law_quote(ledger: LedgerState, beneficiary: BytesN<32>, rate: int)
    requires
        ledger.wf(),
        ledger.config is Some,
    ensures
        is_rate(ledger, beneficiary, rate) <==> rate == ledger.required_ltv(beneficiary),
{
    let config = ledger.config->0;
    let score = published_score(ledger, beneficiary);
    assert(score == ledger.score(beneficiary));
    law_reduction_is_proportional(config, score);
    let span = config.base_ltv_bps - config.min_ltv_bps;
    lemma_rounded_down(span * score, 10_000, config.base_ltv_bps - rate);
    lemma_rounded_down(
        span * score,
        10_000,
        config.base_ltv_bps - ledger.required_ltv(beneficiary),
    );
}

/// The ledger is set up once, by anyone, with terms that make sense: a floor that
/// is not above the base, a buffer that is not the whole, and some grace.
pub proof fn law_initialization(
    ledger: LedgerState,
    admin: Address,
    vault: Address,
    config: Config,
)
    ensures
        ({
            let r = ledger.initialize(admin, vault, config);
            let sensible = config.min_ltv_bps <= config.base_ltv_bps && config.safety_buffer_bps
                < 10_000 && config.grace_period_secs > 0;
            &&& ledger.admin is Some ==> fails(r, Failure::Ledger(Error::AlreadyInitialized))
            &&& ledger.admin is None && !sensible ==> fails(
                r,
                Failure::Ledger(Error::InvalidConfig),
            )
            &&& ledger.admin is None && sensible ==> (r matches Ok(after) && after == LedgerState {
                admin: Some(admin),
                vault: Some(vault),
                config: Some(config),
                loan_count: 0,
                ..ledger
            })
        }),
{
}

/// The administrator, and nobody else, names the oracle and the engine and
/// registers or revokes partners; each call writes what it is given and nothing
/// else.
pub proof fn law_administration(
    ledger: LedgerState,
    env: Call,
    admin: Address,
    named: Address,
    authorized: bool,
)
    ensures
        ({
            let oracle = ledger.set_oracle(env, admin, named);
            let engine = ledger.set_liquidation_engine(env, admin, named);
            let partner = ledger.set_partner(env, admin, named, authorized);
            &&& !env.auths.contains(admin) ==> fails(oracle, Failure::Auth) && fails(
                engine,
                Failure::Auth,
            ) && fails(partner, Failure::Auth)
            &&& env.auths.contains(admin) && ledger.admin is None ==> {
                &&& fails(oracle, Failure::Ledger(Error::NotInitialized))
                &&& fails(engine, Failure::Ledger(Error::NotInitialized))
                &&& fails(partner, Failure::Ledger(Error::NotInitialized))
            }
            &&& env.auths.contains(admin) && ledger.admin is Some && ledger.admin->0 != admin ==> {
                &&& fails(oracle, Failure::Ledger(Error::NotAuthorized))
                &&& fails(engine, Failure::Ledger(Error::NotAuthorized))
                &&& fails(partner, Failure::Ledger(Error::NotAuthorized))
            }
            &&& by_admin(ledger, env, admin) ==> {
                &&& oracle matches Ok(after) && after == LedgerState {
                    oracle: Some(named),
                    ..ledger
                }
                &&& engine matches Ok(after) && after == LedgerState {
                    liquidation_engine: Some(named),
                    ..ledger
                }
                &&& partner matches Ok(after) && after == LedgerState {
                    partners: after.partners,
                    ..ledger
                } && after.partners =~= ledger.partners.insert(named, authorized)
            }
        }),
{
}

/// A partner is whoever is registered and was not revoked since.
pub proof fn law_partners_are_the_registered(ledger: LedgerState, partner: Address)
    ensures
        ledger.is_partner(partner) <==> ledger.partners.dom().contains(partner)
            && ledger.partners[partner] == true,
        ledger.partners =~= Map::empty() ==> !ledger.is_partner(partner),
{
}

/// The oracle, and nobody else, publishes scores of up to ten thousand; a score
/// replaces the beneficiary's last one and nobody else's.
pub proof fn law_publication(
    ledger: LedgerState,
    env: Call,
    oracle: Address,
    beneficiary: BytesN<32>,
    score_bps: u32,
)
    ensures
        ({
            let r = ledger.set_reputation(env, oracle, beneficiary, score_bps);
            let signed = env.auths.contains(oracle);
            &&& !signed ==> fails(r, Failure::Auth)
            &&& signed && ledger.oracle is None ==> fails(r, Failure::Ledger(Error::NotInitialized))
            &&& signed && ledger.oracle is Some && ledger.oracle->0 != oracle ==> fails(
                r,
                Failure::Ledger(Error::NotAuthorized),
            )
            &&& signed && ledger.oracle == Some(oracle) && score_bps > 10_000 ==> fails(
                r,
                Failure::Ledger(Error::InvalidScore),
            )
            &&& signed && ledger.oracle == Some(oracle) && score_bps <= 10_000 ==> (r matches Ok(
                after,
            ) && after == LedgerState { reputations: after.reputations, ..ledger }
                && after.reputations =~= ledger.reputations.insert(beneficiary, score_bps))
        }),
        ledger.score(beneficiary) == published_score(ledger, beneficiary),
{
}

/// Which loans the ledger itself turns away, and why: an unsigned request, a
/// principal or a schedule that is not positive, a second loan between the two, a
/// ledger that is not set up, a principal whose collateral cannot be computed.
pub proof fn law_origination_is_turned_away(
    ledger: LedgerState,
    vault: VaultState,
    env: Call,
    guarantor: Address,
    beneficiary: BytesN<32>,
    principal: i128,
    installment_count: u32,
    interval_secs: u64,
    rate: int,
)
    requires
        ledger.wf(),
        ledger.config is Some ==> is_rate(ledger, beneficiary, rate),
    ensures
        ({
            let r = ledger.originate(
                vault,
                env,
                guarantor,
                beneficiary,
                principal,
                installment_count,
                interval_secs,
            );
            let signed = env.auths.contains(guarantor);
            let positive = principal > 0 && installment_count > 0 && interval_secs > 0;
            let taken = ledger.open_loans.dom().contains(Pair { guarantor, beneficiary });
            let asked = signed && positive && !taken;
            &&& !signed ==> fails(r, Failure::Auth)
            &&& signed && principal <= 0 ==> fails(r, Failure::Ledger(Error::InvalidAmount))
            &&& signed && principal > 0 && (installment_count == 0 || interval_secs == 0) ==> fails(
                r,
                Failure::Ledger(Error::InvalidSchedule),
            )
            &&& signed && positive && taken ==> fails(r, Failure::Ledger(Error::LoanAlreadyOpen))
            &&& asked && ledger.config is None ==> fails(r, Failure::Ledger(Error::NotInitialized))
            &&& asked && ledger.config is Some && principal * rate > i128::MAX ==> fails(
                r,
                Failure::Trap,
            )
            &&& asked && ledger.config is Some && principal * rate <= i128::MAX && ledger.vault
                is None ==> fails(r, Failure::Ledger(Error::NotInitialized))
        }),
{
    if ledger.config is Some {
        law_quote(ledger, beneficiary, rate);
    }
}

/// Every other request opens the loan it asks for, if the vault locks its
/// collateral: the rate's share of the principal, in basis points, rounded down.
/// The vault refuses a ledger it does not know, an amount of zero, and more than
/// the guarantor has free.
pub proof fn law_origination_opens_the_loan(
    ledger: LedgerState,
    vault: VaultState,
    env: Call,
    guarantor: Address,
    beneficiary: BytesN<32>,
    principal: i128,
    installment_count: u32,
    interval_secs: u64,
    rate: int,
    locked: int,
)
    requires
        ledger.wf(),
        vault.wf(),
        env.auths.contains(guarantor),
        principal > 0,
        installment_count > 0,
        interval_secs > 0,
        !ledger.open_loans.dom().contains(Pair { guarantor, beneficiary }),
        ledger.config is Some,
        ledger.vault is Some,
        is_rate(ledger, beneficiary, rate),
        principal * rate <= i128::MAX,
        locked * 10_000 <= principal * rate < (locked + 1) * 10_000,
    ensures
        ({
            let r = ledger.originate(
                vault,
                env,
                guarantor,
                beneficiary,
                principal,
                installment_count,
                interval_secs,
            );
            let asked = ledger.lock_for_loan(
                vault,
                env,
                guarantor,
                beneficiary,
                principal,
                installment_count,
                interval_secs,
            );
            let known = vault.loan_ledger == Some(env.contract);
            let free = deposited(vault, guarantor) - reserved(vault, guarantor);
            let fits = ledger.loan_count < u64::MAX && env.timestamp + interval_secs <= u64::MAX;
            &&& vault.loan_ledger is None ==> fails(
                r,
                Failure::Vault(crate::guarantor_vault::Error::LedgerNotSet),
            )
            &&& vault.loan_ledger is Some && !known ==> fails(
                r,
                Failure::Vault(crate::guarantor_vault::Error::NotAuthorized),
            )
            &&& known && locked <= 0 ==> fails(
                r,
                Failure::Vault(crate::guarantor_vault::Error::InvalidAmount),
            )
            &&& known && locked > 0 && locked > free ==> fails(
                r,
                Failure::Vault(crate::guarantor_vault::Error::InsufficientAvailable),
            )
            &&& known && 0 < locked <= free ==> (asked matches Ok(after_lock) && position_moved(
                vault,
                after_lock,
                guarantor,
                0,
                locked,
            ) && after_lock.transfers == vault.transfers)
            &&& known && 0 < locked <= free && !fits ==> fails(r, Failure::Trap)
            &&& known && 0 < locked <= free && fits ==> (r matches Ok((after, after_lock, id))
                && asked == Ok::<VaultState, Failure>(after_lock) && id == ledger.loan_count + 1
                && after.loan_count == id && after.loans.dom() =~= ledger.loans.dom().insert(id)
                && after.loans[id].id == id && after.loans[id].guarantor == guarantor
                && after.loans[id].beneficiary == beneficiary && after.loans[id].principal_usd
                == principal && after.loans[id].ltv_bps == rate && after.loans[id].collateral_locked
                == locked && after.loans[id].collateral_released == 0
                && after.loans[id].installment_count == installment_count
                && after.loans[id].installment_amount * installment_count <= principal < (
            after.loans[id].installment_amount + 1) * installment_count
                && after.loans[id].interval_secs == interval_secs
                && after.loans[id].installments_paid == 0 && after.loans[id].total_repaid_usd == 0
                && after.loans[id].next_due - env.timestamp == interval_secs
                && after.loans[id].grace_expires_at == 0 && after.loans[id].status
                == LoanStatus::Active && (forall|o: u64|
                o != id && #[trigger] ledger.loans.dom().contains(o) ==> after.loans[o]
                    == ledger.loans[o]) && after.open_loans =~= ledger.open_loans.insert(
                Pair { guarantor, beneficiary },
                id,
            ) && after == LedgerState {
                loan_count: after.loan_count,
                loans: after.loans,
                open_loans: after.open_loans,
                ..ledger
            })
        }),
{
    law_quote(ledger, beneficiary, rate);
    law_ltv_between_floor_and_base(ledger.config->0, ledger.score(beneficiary) as int);
    lemma_collateral_in_range(principal, rate);
    law_collateral_is_proportional(principal as int, rate);
    lemma_rounded_down(principal * rate, 10_000, locked);
    lemma_installment_in_range(principal, installment_count);
    lemma_rounded_down(
        principal as int,
        installment_count as int,
        principal as int / installment_count as int,
    );
}

/// A loan that was just opened is not overdue until its first interval is over, and
/// is from then on until something is attested; its grace has not expired, for it
/// has none.
pub proof fn law_new_loan_is_not_overdue(
    ledger: LedgerState,
    vault: VaultState,
    env: Call,
    later: Call,
    guarantor: Address,
    beneficiary: BytesN<32>,
    principal: i128,
    installment_count: u32,
    interval_secs: u64,
)
    requires
        ledger.originate(
            vault,
            env,
            guarantor,
            beneficiary,
            principal,
            installment_count,
            interval_secs,
        ) is Ok,
    ensures
        ({
            let (after, _, id) = ledger.originate(
                vault,
                env,
                guarantor,
                beneficiary,
                principal,
                installment_count,
                interval_secs,
            )->Ok_0;
            &&& after.is_overdue(later, id) == Ok::<bool, Failure>(
                later.timestamp > env.timestamp + interval_secs,
            )
            &&& after.is_grace_expired(later, id) == Ok::<bool, Failure>(false)
        }),
{
}

/// Which repayments the ledger itself turns away, and why: one without the
/// signature of a registered partner, one that is not positive, one on a loan that
/// is not there or not open, and one of more than is owed.
pub proof fn law_repayment_is_turned_away(
    ledger: LedgerState,
    vault: VaultState,
    env: Call,
    partner: Address,
    loan_id: u64,
    amount: i128,
)
    ensures
        ({
            let r = ledger.attest_repayment(vault, env, partner, loan_id, amount);
            let loan = ledger.loans[loan_id];
            let signed = env.auths.contains(partner);
            let registered = ledger.partners.dom().contains(partner) && ledger.partners[partner];
            let attested = signed && registered && amount > 0;
            let there = ledger.loans.dom().contains(loan_id);
            let open = loan.status == LoanStatus::Active || loan.status == LoanStatus::Grace;
            &&& !signed ==> fails(r, Failure::Auth)
            &&& signed && !registered ==> fails(r, Failure::Ledger(Error::NotAuthorized))
            &&& signed && registered && amount <= 0 ==> fails(
                r,
                Failure::Ledger(Error::InvalidAmount),
            )
            &&& attested && !there ==> fails(r, Failure::Ledger(Error::LoanNotFound))
            &&& attested && there && !open ==> fails(r, Failure::Ledger(Error::LoanNotActive))
            &&& attested && there && open && loan.total_repaid_usd + amount > i128::MAX ==> fails(
                r,
                Failure::Trap,
            )
            &&& attested && there && open && loan.principal_usd < loan.total_repaid_usd + amount
                <= i128::MAX ==> fails(r, Failure::Ledger(Error::Overpayment))
        }),
{
}

/// Every other repayment is counted, if the vault releases what it frees. `free` is
/// what is free of the collateral with it: all of it if it pays the loan off, else
/// the share that matches the principal repaid, less the buffer, each rounded down;
/// the vault is asked for what of that has not been released before. The loan is
/// then paid off and closed, or else in good standing with its next installment due
/// one interval later.
pub proof fn law_repayment_is_counted(
    ledger: LedgerState,
    vault: VaultState,
    env: Call,
    partner: Address,
    loan_id: u64,
    amount: i128,
    share: int,
    free: int,
)
    requires
        ledger.wf(),
        vault.wf(),
        env.auths.contains(partner),
        ledger.partners.dom().contains(partner),
        ledger.partners[partner],
        amount > 0,
        ledger.loans.dom().contains(loan_id),
        ledger.loans[loan_id].status == LoanStatus::Active || ledger.loans[loan_id].status
            == LoanStatus::Grace,
        ledger.loans[loan_id].total_repaid_usd + amount <= ledger.loans[loan_id].principal_usd,
        share * ledger.loans[loan_id].principal_usd <= ledger.loans[loan_id].collateral_locked * (
        ledger.loans[loan_id].total_repaid_usd + amount) < (share + 1)
            * ledger.loans[loan_id].principal_usd,
        ledger.loans[loan_id].total_repaid_usd + amount == ledger.loans[loan_id].principal_usd
            ==> free == ledger.loans[loan_id].collateral_locked,
        ledger.loans[loan_id].total_repaid_usd + amount < ledger.loans[loan_id].principal_usd
            ==> free * 10_000 <= share * (10_000 - (ledger.config->0).safety_buffer_bps) < (free
            + 1) * 10_000,
    ensures
        ({
            let r = ledger.attest_repayment(vault, env, partner, loan_id, amount);
            let asked = ledger.release_for_repayment(vault, env, partner, loan_id, amount);
            let loan = ledger.loans[loan_id];
            let repaid = loan.total_repaid_usd + amount;
            let paid_off = repaid == loan.principal_usd;
            let due = free - loan.collateral_released;
            let computable = loan.installments_paid < u32::MAX && (paid_off
                || loan.collateral_locked * repaid <= i128::MAX && share * (10_000 - (
            ledger.config->0).safety_buffer_bps) <= i128::MAX);
            let reaches_vault = computable && ledger.vault is Some;
            let known = vault.loan_ledger == Some(env.contract) || vault.liquidation_engine == Some(
                env.contract,
            );
            let released = due == 0 || (known && due <= reserved(vault, loan.guarantor));
            let dated = paid_off || loan.next_due + loan.interval_secs <= u64::MAX;
            &&& due >= 0
            &&& !computable ==> fails(r, Failure::Trap)
            &&& computable && due > 0 && ledger.vault is None ==> fails(
                r,
                Failure::Ledger(Error::NotInitialized),
            )
            &&& reaches_vault && due > 0 && !known ==> fails(
                r,
                Failure::Vault(crate::guarantor_vault::Error::NotAuthorized),
            )
            &&& reaches_vault && due > reserved(vault, loan.guarantor) && known ==> fails(
                r,
                Failure::Vault(crate::guarantor_vault::Error::InsufficientLocked),
            )
            &&& computable && due == 0 ==> asked == Ok::<VaultState, Failure>(vault)
            &&& reaches_vault && due > 0 && released ==> (asked matches Ok(after_release)
                && position_moved(vault, after_release, loan.guarantor, 0, -due)
                && after_release.transfers == vault.transfers)
            &&& computable && (due == 0 || reaches_vault) && released && !dated ==> fails(
                r,
                Failure::Trap,
            )
            &&& computable && (due == 0 || reaches_vault) && released && dated ==> (r matches Ok(
                (after, after_release, returned),
            ) && returned == due && asked == Ok::<VaultState, Failure>(after_release)
                && only_loan_changed(ledger, after, loan_id) && after.loans[loan_id] == (Loan {
                total_repaid_usd: after.loans[loan_id].total_repaid_usd,
                installments_paid: after.loans[loan_id].installments_paid,
                collateral_released: after.loans[loan_id].collateral_released,
                grace_expires_at: 0,
                next_due: after.loans[loan_id].next_due,
                status: after.loans[loan_id].status,
                ..loan
            }) && after.loans[loan_id].total_repaid_usd - loan.total_repaid_usd == amount
                && after.loans[loan_id].installments_paid - loan.installments_paid == 1
                && after.loans[loan_id].collateral_released - loan.collateral_released == due && (
            paid_off ==> after.loans[loan_id].status == LoanStatus::Repaid
                && after.loans[loan_id].next_due == loan.next_due && after.open_loans
                =~= ledger.open_loans.remove(
                Pair { guarantor: loan.guarantor, beneficiary: loan.beneficiary },
            )) && (!paid_off ==> after.loans[loan_id].status == LoanStatus::Active
                && after.loans[loan_id].next_due - loan.next_due == loan.interval_secs
                && after.open_loans == ledger.open_loans))
        }),
{
    let loan = ledger.loans[loan_id];
    let repaid = loan.total_repaid_usd + amount;
    let buffer = (ledger.config->0).safety_buffer_bps as int;
    lemma_release_due(ledger, loan_id, amount);
    law_release_within_share(
        buffer,
        loan.collateral_locked as int,
        loan.total_repaid_usd as int,
        loan.principal_usd as int,
    );
    lemma_rounded_down(loan.collateral_locked * repaid, loan.principal_usd as int, share);
    if repaid < loan.principal_usd {
        law_release_is_proportional(
            buffer,
            loan.collateral_locked as int,
            repaid,
            loan.principal_usd as int,
            share,
            free,
        );
    }
    assert(free == releasable(
        buffer,
        loan.collateral_locked as int,
        repaid,
        loan.principal_usd as int,
    ));
}

/// A loan is overdue when it is active and its due date has passed, and its grace
/// has expired when it is in grace and the end of that has passed; a loan that is
/// not there is neither.
pub proof fn law_when_a_loan_is_late(ledger: LedgerState, env: Call, loan_id: u64)
    ensures
        ({
            let loan = ledger.loans[loan_id];
            let there = ledger.loans.dom().contains(loan_id);
            let overdue = ledger.is_overdue(env, loan_id);
            let expired = ledger.is_grace_expired(env, loan_id);
            &&& !there ==> fails(overdue, Failure::Ledger(Error::LoanNotFound)) && fails(
                expired,
                Failure::Ledger(Error::LoanNotFound),
            )
            &&& there ==> overdue is Ok && expired is Ok
            &&& there && loan.status == LoanStatus::Active && loan.next_due < env.timestamp
                ==> overdue->Ok_0
            &&& there && loan.status == LoanStatus::Grace && loan.grace_expires_at < env.timestamp
                ==> expired->Ok_0
            &&& there && overdue->Ok_0 ==> loan.status == LoanStatus::Active && loan.next_due
                < env.timestamp
            &&& there && expired->Ok_0 ==> loan.status == LoanStatus::Grace
                && loan.grace_expires_at < env.timestamp
        }),
{
}

/// The engine, and nobody else, puts an active loan whose due date has passed into
/// grace, for the configured time from now; nothing else about it changes.
pub proof fn law_entering_grace(ledger: LedgerState, env: Call, caller: Address, loan_id: u64)
    requires
        ledger.wf(),
    ensures
        ({
            let r = ledger.mark_grace(env, caller, loan_id);
            let loan = ledger.loans[loan_id];
            let signed = env.auths.contains(caller);
            let engine = by_engine(ledger, env, caller);
            let there = ledger.loans.dom().contains(loan_id);
            let active = engine && there && loan.status == LoanStatus::Active;
            let grace = (ledger.config->0).grace_period_secs;
            &&& !signed ==> fails(r, Failure::Auth)
            &&& signed && ledger.liquidation_engine is None ==> fails(
                r,
                Failure::Ledger(Error::NotInitialized),
            )
            &&& signed && ledger.liquidation_engine is Some && !engine ==> fails(
                r,
                Failure::Ledger(Error::NotAuthorized),
            )
            &&& engine && !there ==> fails(r, Failure::Ledger(Error::LoanNotFound))
            &&& engine && there && !active ==> fails(r, Failure::Ledger(Error::LoanNotActive))
            &&& active && env.timestamp <= loan.next_due ==> fails(
                r,
                Failure::Ledger(Error::NotOverdue),
            )
            &&& active && env.timestamp > loan.next_due && env.timestamp + grace > u64::MAX
                ==> fails(r, Failure::Trap)
            &&& active && env.timestamp > loan.next_due && env.timestamp + grace <= u64::MAX ==> (
            r matches Ok(after) && only_loan_changed(ledger, after, loan_id) && after.open_loans
                == ledger.open_loans && after.loans[loan_id] == (Loan {
                status: LoanStatus::Grace,
                grace_expires_at: after.loans[loan_id].grace_expires_at,
                ..loan
            }) && after.loans[loan_id].grace_expires_at - env.timestamp == grace)
        }),
{
}

/// The engine, and nobody else, closes a loan as defaulted once it is in grace and
/// that has expired: nothing is held against it any more, and its guarantor and
/// beneficiary may borrow again.
pub proof fn law_defaulting(ledger: LedgerState, env: Call, caller: Address, loan_id: u64)
    requires
        ledger.wf(),
    ensures
        ({
            let r = ledger.mark_defaulted(env, caller, loan_id);
            let loan = ledger.loans[loan_id];
            let signed = env.auths.contains(caller);
            let engine = by_engine(ledger, env, caller);
            let there = ledger.loans.dom().contains(loan_id);
            let in_grace = engine && there && loan.status == LoanStatus::Grace;
            &&& !signed ==> fails(r, Failure::Auth)
            &&& signed && ledger.liquidation_engine is None ==> fails(
                r,
                Failure::Ledger(Error::NotInitialized),
            )
            &&& signed && ledger.liquidation_engine is Some && !engine ==> fails(
                r,
                Failure::Ledger(Error::NotAuthorized),
            )
            &&& engine && !there ==> fails(r, Failure::Ledger(Error::LoanNotFound))
            &&& engine && there && !in_grace ==> fails(r, Failure::Ledger(Error::LoanNotActive))
            &&& in_grace && env.timestamp <= loan.grace_expires_at ==> fails(
                r,
                Failure::Ledger(Error::GraceNotExpired),
            )
            &&& in_grace && env.timestamp > loan.grace_expires_at ==> (r matches Ok(after)
                && only_loan_changed(ledger, after, loan_id) && after.loans[loan_id] == (Loan {
                status: LoanStatus::Defaulted,
                collateral_released: loan.collateral_locked,
                ..loan
            }) && after.open_loans =~= ledger.open_loans.remove(
                Pair { guarantor: loan.guarantor, beneficiary: loan.beneficiary },
            ))
        }),
{
}

} // verus!
