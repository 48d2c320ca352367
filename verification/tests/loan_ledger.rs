use remit_collateral::guarantor_vault;
use remit_collateral::guarantor_vault::GuarantorVaultContract;
use remit_collateral::host::{Address, BytesN, Env, Failure};
use remit_collateral::loan_ledger::{Config, Error, Loan, LoanLedgerContract, LoanStatus};

const DAY: u64 = 86_400;

fn address(n: u8) -> Address {
    Address { strkey: [n; 56] }
}

fn handle(n: u8) -> BytesN<32> {
    BytesN { bytes: [n; 32] }
}

fn everyone() -> Vec<Address> {
    (0..=255u8).map(address).collect()
}

struct Setup {
    /// An invocation of the ledger.
    env: Env,
    /// An invocation of the vault.
    vault_env: Env,
    ledger: LoanLedgerContract,
    vault: GuarantorVaultContract,
    admin: Address,
    oracle: Address,
    partner: Address,
    engine: Address,
    guarantor: Address,
    beneficiary: BytesN<32>,
}

fn setup() -> Setup {
    let admin = address(1);
    let oracle = address(2);
    let partner = address(3);
    let engine = address(4);
    let guarantor = address(5);
    let settlement = address(6);
    let usdc = address(7);
    let vault_id = address(8);
    let ledger_id = address(9);
    let beneficiary = handle(7);
    let env = Env {
        contract: ledger_id,
        timestamp: 0,
        sequence: 0,
        auths: everyone(),
    };
    let vault_env = Env {
        contract: vault_id,
        timestamp: 0,
        sequence: 0,
        auths: everyone(),
    };

    let mut vault = GuarantorVaultContract::new();
    vault
        .initialize(&vault_env, admin, usdc, settlement)
        .unwrap();

    let mut ledger = LoanLedgerContract::new();
    // base 150%, floor 110%, 5% safety buffer, 14-day grace
    ledger
        .initialize(admin, vault_id, 15_000, 11_000, 500, 14 * DAY)
        .unwrap();

    vault.set_loan_ledger(&vault_env, admin, ledger_id).unwrap();
    vault
        .set_liquidation_engine(&vault_env, admin, engine)
        .unwrap();
    ledger.set_oracle(&env, admin, oracle).unwrap();
    ledger.set_liquidation_engine(&env, admin, engine).unwrap();
    ledger.set_partner(&env, admin, partner, true).unwrap();

    vault.deposit(&vault_env, guarantor, 500_000).unwrap();

    Setup {
        env,
        vault_env,
        ledger,
        vault,
        admin,
        oracle,
        partner,
        engine,
        guarantor,
        beneficiary,
    }
}

impl Setup {
    fn originate(
        &mut self,
        beneficiary: BytesN<32>,
        principal: i128,
        count: u32,
        interval: u64,
    ) -> Result<u64, Failure> {
        self.ledger.originate(
            &self.env,
            &mut self.vault,
            self.guarantor,
            beneficiary,
            principal,
            count,
            interval,
        )
    }

    fn attest(&mut self, partner: Address, id: u64, amount: i128) -> Result<i128, Failure> {
        self.ledger
            .attest_repayment(&self.env, &mut self.vault, partner, id, amount)
    }

    fn locked(&mut self) -> i128 {
        self.vault.get_locked(&self.vault_env, self.guarantor)
    }

    fn available(&mut self) -> i128 {
        self.vault.get_available(&self.vault_env, self.guarantor)
    }

    fn loan(&self, id: u64) -> Loan {
        self.ledger.get_loan(id).unwrap()
    }
}

fn refused<T>(e: Error) -> Result<T, Failure> {
    Err(Failure::Ledger(e))
}

#[test]
fn test_ltv_follows_reputation() {
    let mut s = setup();

    // No reputation pays the base rate.
    assert_eq!(s.ledger.required_ltv_bps(s.beneficiary).unwrap(), 15_000);

    // A perfect score earns the floor, and never goes below it.
    s.ledger
        .set_reputation(&s.env, s.oracle, s.beneficiary, 10_000)
        .unwrap();
    assert_eq!(s.ledger.required_ltv_bps(s.beneficiary).unwrap(), 11_000);

    // Half a score earns half the reduction.
    s.ledger
        .set_reputation(&s.env, s.oracle, s.beneficiary, 5_000)
        .unwrap();
    assert_eq!(s.ledger.required_ltv_bps(s.beneficiary).unwrap(), 13_000);

    // Scores are bounded, and only the oracle may publish them.
    assert!(s
        .ledger
        .set_reputation(&s.env, s.oracle, s.beneficiary, 10_001)
        .is_err());
    let stranger = address(20);
    assert!(s
        .ledger
        .set_reputation(&s.env, stranger, s.beneficiary, 1_000)
        .is_err());
}

#[test]
fn test_origination_locks_collateral_at_the_required_ltv() {
    let mut s = setup();

    let id = s.originate(s.beneficiary, 10_000, 4, 30 * DAY).unwrap();
    assert_eq!(id, 1);

    let loan = s.loan(id);
    assert_eq!(loan.principal_usd, 10_000);
    assert_eq!(loan.ltv_bps, 15_000);
    assert_eq!(loan.collateral_locked, 15_000); // 10_000 * 150%
    assert_eq!(loan.installment_amount, 2_500);
    assert_eq!(loan.next_due, 30 * DAY);
    assert!(matches!(loan.status, LoanStatus::Active));

    assert_eq!(s.locked(), 15_000);
    assert_eq!(s.available(), 485_000);

    // One live loan per guarantor-beneficiary pair.
    assert!(s.originate(s.beneficiary, 1_000, 2, 30 * DAY).is_err());

    // A better reputation locks less collateral for the same principal.
    let other = BytesN { bytes: [9u8; 32] };
    s.ledger
        .set_reputation(&s.env, s.oracle, other, 10_000)
        .unwrap();
    let id2 = s.originate(other, 10_000, 4, 30 * DAY).unwrap();
    assert_eq!(s.loan(id2).collateral_locked, 11_000);
}

#[test]
fn test_repayment_releases_collateral_proportionally() {
    let mut s = setup();
    let id = s.originate(s.beneficiary, 10_000, 4, 30 * DAY).unwrap();

    // First installment: 25% repaid, so 25% of collateral earned, less the 5% buffer.
    // 15_000 * 2_500/10_000 = 3_750; 3_750 * 95% = 3_562
    let released = s.attest(s.partner, id, 2_500).unwrap();
    assert_eq!(released, 3_562);
    assert_eq!(s.locked(), 15_000 - 3_562);

    let loan = s.loan(id);
    assert_eq!(loan.total_repaid_usd, 2_500);
    assert_eq!(loan.installments_paid, 1);
    assert_eq!(loan.next_due, 60 * DAY);

    // Second and third keep releasing on the same curve.
    s.attest(s.partner, id, 2_500).unwrap();
    assert_eq!(s.loan(id).collateral_released, 7_125);
    s.attest(s.partner, id, 2_500).unwrap();
    assert_eq!(s.loan(id).collateral_released, 10_687);

    // Final installment closes the loan and returns everything, buffer included.
    s.attest(s.partner, id, 2_500).unwrap();
    let loan = s.loan(id);
    assert!(matches!(loan.status, LoanStatus::Repaid));
    assert_eq!(loan.collateral_released, 15_000);
    assert_eq!(s.locked(), 0);
    assert_eq!(s.available(), 500_000);

    // The pair is free to borrow again once the loan closes.
    assert!(s.ledger.get_open_loan(s.guarantor, s.beneficiary).is_none());
}

#[test]
fn test_only_authorized_partners_can_attest() {
    let mut s = setup();
    let id = s.originate(s.beneficiary, 10_000, 4, 30 * DAY).unwrap();

    let impostor = address(20);
    assert!(s.attest(impostor, id, 2_500).is_err());
    // Not even the guarantor may claim their own beneficiary repaid.
    assert!(s.attest(s.guarantor, id, 2_500).is_err());

    // Revoking a partner takes effect immediately.
    s.ledger
        .set_partner(&s.env, s.admin, s.partner, false)
        .unwrap();
    assert!(s.attest(s.partner, id, 2_500).is_err());
    s.ledger
        .set_partner(&s.env, s.admin, s.partner, true)
        .unwrap();
    assert!(s.attest(s.partner, id, 2_500).is_ok());

    // Repaying more than the principal is rejected.
    assert!(s.attest(s.partner, id, 99_999).is_err());
}

#[test]
fn test_grace_period_transitions() {
    let mut s = setup();
    let id = s.originate(s.beneficiary, 10_000, 4, 30 * DAY).unwrap();

    // Not yet due.
    assert!(!s.ledger.is_overdue(&s.env, id).unwrap());
    assert!(s.ledger.mark_grace(&s.env, s.engine, id).is_err());

    // Past the due date the loan is overdue and may enter grace.
    s.env.timestamp = 31 * DAY;
    assert!(s.ledger.is_overdue(&s.env, id).unwrap());
    s.ledger.mark_grace(&s.env, s.engine, id).unwrap();

    let loan = s.loan(id);
    assert!(matches!(loan.status, LoanStatus::Grace));
    assert_eq!(loan.grace_expires_at, 31 * DAY + 14 * DAY);
    assert!(!s.ledger.is_grace_expired(&s.env, id).unwrap());

    // Only the liquidation engine may drive these transitions.
    let stranger = address(20);
    assert!(s.ledger.mark_defaulted(&s.env, stranger, id).is_err());

    // Paying during grace restores the loan to good standing.
    s.attest(s.partner, id, 2_500).unwrap();
    let loan = s.loan(id);
    assert!(matches!(loan.status, LoanStatus::Active));
    assert_eq!(loan.grace_expires_at, 0);

    // Grace cannot be skipped: defaulting straight from Active is refused.
    s.env.timestamp = 200 * DAY;
    assert!(s.ledger.mark_defaulted(&s.env, s.engine, id).is_err());
}

#[test]
fn test_default_closes_the_loan() {
    let mut s = setup();
    let id = s.originate(s.beneficiary, 10_000, 4, 30 * DAY).unwrap();
    s.attest(s.partner, id, 2_500).unwrap();

    s.env.timestamp = 61 * DAY;
    s.ledger.mark_grace(&s.env, s.engine, id).unwrap();

    // The grace period must actually expire first.
    assert!(s.ledger.mark_defaulted(&s.env, s.engine, id).is_err());

    s.env.timestamp = 61 * DAY + 15 * DAY;
    assert!(s.ledger.is_grace_expired(&s.env, id).unwrap());
    assert_eq!(s.ledger.loan_outstanding(id).unwrap(), 7_500);
    assert_eq!(
        s.ledger.loan_collateral_remaining(id).unwrap(),
        15_000 - 3_562
    );

    s.ledger.mark_defaulted(&s.env, s.engine, id).unwrap();
    let loan = s.loan(id);
    assert!(matches!(loan.status, LoanStatus::Defaulted));
    assert_eq!(s.ledger.loan_collateral_remaining(id).unwrap(), 0);
    assert!(s.ledger.get_open_loan(s.guarantor, s.beneficiary).is_none());

    // A defaulted loan accepts no further repayments.
    assert!(s.attest(s.partner, id, 1_000).is_err());
}

#[test]
fn test_token_attestations_cannot_close_a_loan() {
    let mut s = setup();
    let id = s.originate(s.beneficiary, 10_000, 4, 30 * DAY).unwrap();

    // A partner submitting one attestation per scheduled installment, each for a
    // trivial amount, must not close the loan or free the collateral. Only
    // principal actually repaid does that.
    for _ in 0..4 {
        s.attest(s.partner, id, 1).unwrap();
    }

    let loan = s.loan(id);
    assert!(matches!(loan.status, LoanStatus::Active));
    assert_eq!(loan.total_repaid_usd, 4);
    assert_eq!(loan.installments_paid, 4);
    // 4 of 10_000 repaid earns essentially nothing back.
    assert_eq!(loan.collateral_released, 5);
    assert_eq!(s.locked(), 15_000 - 5);
    assert!(s.ledger.get_open_loan(s.guarantor, s.beneficiary).is_some());

    // Repaying the rest closes it properly and returns everything.
    s.attest(s.partner, id, 9_996).unwrap();
    let loan = s.loan(id);
    assert!(matches!(loan.status, LoanStatus::Repaid));
    assert_eq!(loan.collateral_released, 15_000);
    assert_eq!(s.locked(), 0);
}

#[test]
fn ledger_refuses_what_is_not_authorized() {
    let mut s = setup();
    let id = s.originate(s.beneficiary, 10_000, 4, 30 * DAY).unwrap();
    s.env.auths = Vec::new();
    let unsigned = Err(Failure::Auth);
    assert_eq!(s.ledger.set_oracle(&s.env, s.admin, s.admin), unsigned);
    assert_eq!(
        s.ledger.set_partner(&s.env, s.admin, s.admin, true),
        unsigned
    );
    assert_eq!(
        s.ledger
            .set_reputation(&s.env, s.oracle, s.beneficiary, 1),
        unsigned
    );
    assert_eq!(s.ledger.mark_grace(&s.env, s.engine, id), unsigned);
    assert_eq!(s.ledger.mark_defaulted(&s.env, s.engine, id), unsigned);
    assert_eq!(s.attest(s.partner, id, 1), Err(Failure::Auth));
    assert_eq!(
        s.originate(handle(8), 10_000, 4, 30 * DAY),
        Err(Failure::Auth)
    );
    assert_eq!(s.locked(), 15_000);
}

#[test]
fn each_ledger_error_has_its_input() {
    let mut s = setup();
    let id = s.originate(s.beneficiary, 10_000, 4, 30 * DAY).unwrap();
    let (admin, engine, partner) = (s.admin, s.engine, s.partner);

    assert_eq!(
        s.ledger
            .initialize(admin, admin, 15_000, 11_000, 500, 14 * DAY),
        refused(Error::AlreadyInitialized)
    );
    assert_eq!(
        s.ledger.set_oracle(&s.env, engine, engine),
        refused(Error::NotAuthorized)
    );
    assert_eq!(
        s.ledger
            .set_reputation(&s.env, s.oracle, s.beneficiary, 10_001),
        refused(Error::InvalidScore)
    );
    assert_eq!(
        s.originate(handle(8), 0, 4, 30 * DAY),
        refused(Error::InvalidAmount)
    );
    assert_eq!(
        s.originate(handle(8), 1_000, 0, 30 * DAY),
        refused(Error::InvalidSchedule)
    );
    assert_eq!(
        s.originate(handle(8), 1_000, 4, 0),
        refused(Error::InvalidSchedule)
    );
    assert_eq!(
        s.originate(s.beneficiary, 1_000, 4, 30 * DAY),
        refused(Error::LoanAlreadyOpen)
    );
    assert_eq!(s.attest(partner, id, 0), refused(Error::InvalidAmount));
    assert_eq!(s.attest(engine, id, 1), refused(Error::NotAuthorized));
    assert_eq!(s.attest(partner, 7, 1), refused(Error::LoanNotFound));
    assert_eq!(s.attest(partner, id, 10_001), refused(Error::Overpayment));
    assert_eq!(
        s.ledger.mark_grace(&s.env, engine, id),
        refused(Error::NotOverdue)
    );
    assert_eq!(
        s.ledger.mark_grace(&s.env, partner, id),
        refused(Error::NotAuthorized)
    );
    assert_eq!(
        s.ledger.mark_defaulted(&s.env, engine, id),
        refused(Error::LoanNotActive)
    );
    s.env.timestamp = 31 * DAY;
    s.ledger.mark_grace(&s.env, engine, id).unwrap();
    assert_eq!(
        s.ledger.mark_grace(&s.env, engine, id),
        refused(Error::LoanNotActive)
    );
    assert_eq!(
        s.ledger.mark_defaulted(&s.env, engine, id),
        refused(Error::GraceNotExpired)
    );
    assert_eq!(
        s.ledger.is_overdue(&s.env, 7),
        refused(Error::LoanNotFound)
    );
    assert_eq!(
        s.ledger.is_grace_expired(&s.env, 7),
        refused(Error::LoanNotFound)
    );
    assert_eq!(s.ledger.loan_guarantor(7), refused(Error::LoanNotFound));
    assert_eq!(s.ledger.loan_outstanding(7), refused(Error::LoanNotFound));
    assert_eq!(
        s.ledger.loan_collateral_remaining(7),
        refused(Error::LoanNotFound)
    );
    assert_eq!(s.ledger.loan_guarantor(id), Ok(s.guarantor));
    assert!(s.ledger.get_loan(7).is_none());
}

#[test]
fn unconfigured_ledger_fails_closed() {
    let mut s = setup();
    s.ledger = LoanLedgerContract::new();
    assert_eq!(
        s.ledger.set_oracle(&s.env, s.admin, s.oracle),
        refused(Error::NotInitialized)
    );
    assert_eq!(
        s.ledger
            .set_reputation(&s.env, s.oracle, s.beneficiary, 1),
        refused(Error::NotInitialized)
    );
    assert_eq!(
        s.ledger.mark_grace(&s.env, s.engine, 1),
        refused(Error::NotInitialized)
    );
    assert_eq!(
        s.ledger.required_ltv_bps(s.beneficiary),
        refused(Error::NotInitialized)
    );
    assert_eq!(s.ledger.get_config(), refused(Error::NotInitialized));
    assert_eq!(
        s.originate(s.beneficiary, 10_000, 4, 30 * DAY),
        refused(Error::NotInitialized)
    );

    // Floor above the base, a buffer of everything, no grace.
    let a = s.admin;
    assert_eq!(
        s.ledger.initialize(a, a, 11_000, 11_001, 500, 1),
        refused(Error::InvalidConfig)
    );
    assert_eq!(
        s.ledger.initialize(a, a, 15_000, 11_000, 10_000, 1),
        refused(Error::InvalidConfig)
    );
    assert_eq!(
        s.ledger.initialize(a, a, 15_000, 11_000, 500, 0),
        refused(Error::InvalidConfig)
    );
    s.ledger
        .initialize(a, address(8), 11_000, 11_000, 9_999, 1)
        .unwrap();
    assert_eq!(s.ledger.get_admin(), a);
    assert_eq!(s.ledger.get_vault(), address(8));
    assert_eq!(
        s.ledger.get_config(),
        Ok(Config {
            base_ltv_bps: 11_000,
            min_ltv_bps: 11_000,
            safety_buffer_bps: 9_999,
            grace_period_secs: 1,
        })
    );
}

#[test]
fn vault_refusal_opens_no_loan() {
    let mut s = setup();
    // 400_000 at 150% needs more than the 500_000 deposited.
    assert_eq!(
        s.originate(s.beneficiary, 400_000, 4, 30 * DAY),
        Err(Failure::Vault(
            guarantor_vault::Error::InsufficientAvailable
        ))
    );
    assert_eq!(s.ledger.get_loan_count(), 0);
    assert!(s.ledger.get_open_loan(s.guarantor, s.beneficiary).is_none());
    assert_eq!(s.locked(), 0);
    assert_eq!(s.originate(s.beneficiary, 1_000, 3, 1), Ok(1));
    assert_eq!(s.loan(1).installment_amount, 333);
}

#[test]
fn loans_are_numbered_without_reuse() {
    let mut s = setup();
    for n in 1..=3u8 {
        let id = s.originate(handle(n), 1_000, 1, DAY).unwrap();
        assert_eq!(id, n as u64);
    }
    s.attest(s.partner, 2, 1_000).unwrap();
    assert_eq!(s.ledger.get_open_loan(s.guarantor, handle(2)), None);
    assert_eq!(s.originate(handle(2), 1_000, 1, DAY), Ok(4));
    assert_eq!(s.ledger.get_open_loan(s.guarantor, handle(2)), Some(4));
    assert!(matches!(s.loan(2).status, LoanStatus::Repaid));
    assert_eq!(s.ledger.get_loan_count(), 4);
}

#[test]
fn release_ignores_how_a_repayment_is_split() {
    let mut one = setup();
    let mut many = setup();
    let a = one.originate(handle(1), 9_999, 7, DAY).unwrap();
    let b = many.originate(handle(1), 9_999, 7, DAY).unwrap();
    let whole = one.attest(one.partner, a, 777).unwrap();
    let mut parts = 0;
    for amount in [1, 76, 300, 400] {
        parts += many.attest(many.partner, b, amount).unwrap();
    }
    assert_eq!(parts, whole);
    assert_eq!(
        one.loan(a).collateral_released,
        many.loan(b).collateral_released
    );
    assert_eq!(one.locked(), many.locked());
}

#[test]
fn payment_that_frees_nothing_releases_nothing() {
    let mut s = setup();
    s.ledger = LoanLedgerContract::new();
    s.ledger
        .initialize(s.admin, address(8), 15_000, 11_000, 9_999, DAY)
        .unwrap();
    s.ledger
        .set_partner(&s.env, s.admin, s.partner, true)
        .unwrap();
    let id = s.originate(s.beneficiary, 1_000, 2, DAY).unwrap();
    assert_eq!(s.attest(s.partner, id, 1), Ok(0));
    assert_eq!(s.locked(), 1_500);
    // All but one basis point of the collateral comes back only at the end.
    assert_eq!(s.attest(s.partner, id, 998), Ok(0));
    assert_eq!(s.attest(s.partner, id, 1), Ok(1_500));
    assert_eq!(s.locked(), 0);
}

#[test]
fn open_loan_is_covered_by_its_collateral() {
    let mut s = setup();
    s.ledger
        .set_reputation(&s.env, s.oracle, s.beneficiary, 10_000)
        .unwrap();
    let id = s.originate(s.beneficiary, 9_973, 12, DAY).unwrap();
    for _ in 0..9 {
        s.attest(s.partner, id, 1_108).unwrap();
        let owed = s.ledger.loan_outstanding(id).unwrap();
        let held = s.ledger.loan_collateral_remaining(id).unwrap();
        assert!(held >= owed);
        assert_eq!(s.locked(), held);
    }
    assert_eq!(s.ledger.loan_outstanding(id), Ok(1));
}

#[test]
fn ledger_numbers_out_of_range_abort() {
    let mut s = setup();
    assert_eq!(
        s.originate(s.beneficiary, i128::MAX, 4, DAY),
        Err(Failure::Trap)
    );
    assert_eq!(s.locked(), 0);
    s.originate(s.beneficiary, 1_000, 4, DAY).unwrap();
    s.attest(s.partner, 1, 10).unwrap();
    assert_eq!(s.attest(s.partner, 1, i128::MAX), Err(Failure::Trap));
    s.env.timestamp = u64::MAX;
    assert_eq!(
        s.ledger.mark_grace(&s.env, s.engine, 1),
        Err(Failure::Trap)
    );
    assert!(matches!(s.loan(1).status, LoanStatus::Active));
}

#[test]
fn due_dates_out_of_range_abort_after_the_vault_has_answered() {
    // A due date that cannot be written down aborts the origination...
    let mut s = setup();
    s.env.timestamp = 1;
    assert_eq!(
        s.originate(s.beneficiary, 1_000, 4, u64::MAX),
        Err(Failure::Trap)
    );
    assert_eq!(s.ledger.get_loan_count(), 0);
    assert_eq!(s.ledger.get_loan(1), None);
    assert_eq!(s.ledger.get_open_loan(s.guarantor, s.beneficiary), None);

    // ...but where the vault refuses, its refusal comes first.
    let mut s = setup();
    s.env.timestamp = 1;
    assert_eq!(
        s.originate(s.beneficiary, 1_000_000, 4, u64::MAX),
        Err(Failure::Vault(guarantor_vault::Error::InsufficientAvailable))
    );
    assert_eq!(s.locked(), 0);

    // The due date after a repayment likewise; a repayment that closes the loan
    // needs none.
    let mut s = setup();
    s.originate(s.beneficiary, 1_000, 4, u64::MAX).unwrap();
    assert_eq!(s.attest(s.partner, 1, 10), Err(Failure::Trap));
    assert_eq!(s.loan(1).total_repaid_usd, 0);
    assert_eq!(s.loan(1).collateral_released, 0);
    let mut s = setup();
    s.originate(s.beneficiary, 1_000, 4, u64::MAX).unwrap();
    assert_eq!(s.attest(s.partner, 1, 1_000), Ok(1_500));
}

#[test]
fn ledger_error_codes_are_stable() {
    assert_eq!(Error::AlreadyInitialized.code(), 1);
    assert_eq!(Error::NotInitialized.code(), 2);
    assert_eq!(Error::NotAuthorized.code(), 3);
    assert_eq!(Error::InvalidAmount.code(), 4);
    assert_eq!(Error::InvalidSchedule.code(), 5);
    assert_eq!(Error::InvalidConfig.code(), 6);
    assert_eq!(Error::InvalidScore.code(), 7);
    assert_eq!(Error::LoanNotFound.code(), 8);
    assert_eq!(Error::LoanNotActive.code(), 9);
    assert_eq!(Error::LoanAlreadyOpen.code(), 10);
    assert_eq!(Error::NotOverdue.code(), 11);
    assert_eq!(Error::GraceNotExpired.code(), 12);
    assert_eq!(Error::Overpayment.code(), 13);
}

#[test]
fn stored_loans_are_checked() {
    let mut s = setup();
    let config = s.ledger.get_config().unwrap();
    assert!(config.is_sound());
    let id = s.originate(s.beneficiary, 10_000, 4, 30 * DAY).unwrap();
    s.attest(s.partner, id, 2_500).unwrap();
    let loan = s.loan(id);
    assert!(loan.is_sound(config));
    assert!(!Loan { collateral_released: 3_563, ..loan }.is_sound(config));
    assert!(!Loan { collateral_locked: 15_001, ..loan }.is_sound(config));
    assert!(!Loan { total_repaid_usd: 10_001, ..loan }.is_sound(config));
    assert!(!Loan { status: LoanStatus::Repaid, ..loan }.is_sound(config));
    assert!(!Loan { status: LoanStatus::Defaulted, ..loan }.is_sound(config));
    assert!(!Loan { installment_amount: 1, ..loan }.is_sound(config));
    assert!(!Loan { ltv_bps: 10_999, ..loan }.is_sound(config));
    assert!(!Loan { grace_expires_at: 1, ..loan }.is_sound(config));
    s.attest(s.partner, id, 7_500).unwrap();
    assert!(s.loan(id).is_sound(config));
}
