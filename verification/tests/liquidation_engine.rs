use remit_collateral::guarantor_vault::GuarantorVaultContract;
use remit_collateral::host::{renew, Address, BytesN, Env, Failure, EXTEND_TO, THRESHOLD};
use remit_collateral::liquidation_engine::{Error, LiquidationEngineContract};
use remit_collateral::loan_ledger;
use remit_collateral::loan_ledger::{LoanLedgerContract, LoanStatus};
use remit_collateral::table::Table;

const DAY: u64 = 86_400;

fn address(n: u8) -> Address {
    Address { strkey: [n; 56] }
}

fn everyone() -> Vec<Address> {
    (0..=255u8).map(address).collect()
}

fn invocation(contract: Address, timestamp: u64) -> Env {
    Env {
        contract,
        timestamp,
        sequence: 0,
        auths: everyone(),
    }
}

struct Setup {
    now: u64,
    engine_id: Address,
    ledger_id: Address,
    vault_id: Address,
    engine: LiquidationEngineContract,
    ledger: LoanLedgerContract,
    vault: GuarantorVaultContract,
    admin: Address,
    partner: Address,
    settlement: Address,
    guarantor: Address,
    beneficiary: BytesN<32>,
}

fn setup() -> Setup {
    let admin = address(1);
    let oracle = address(2);
    let partner = address(3);
    let guarantor = address(4);
    let settlement = address(5);
    let usdc = address(6);
    let vault_id = address(7);
    let ledger_id = address(8);
    let engine_id = address(9);
    let beneficiary = BytesN { bytes: [3u8; 32] };
    let vault_env = invocation(vault_id, 0);
    let ledger_env = invocation(ledger_id, 0);
    let engine_env = invocation(engine_id, 0);

    let mut vault = GuarantorVaultContract::new();
    vault
        .initialize(&vault_env, admin, usdc, settlement)
        .unwrap();

    let mut ledger = LoanLedgerContract::new();
    ledger
        .initialize(admin, vault_id, 15_000, 11_000, 500, 14 * DAY)
        .unwrap();

    let mut engine = LiquidationEngineContract::new();
    engine
        .initialize(&engine_env, admin, vault_id, ledger_id)
        .unwrap();

    vault.set_loan_ledger(&vault_env, admin, ledger_id).unwrap();
    vault
        .set_liquidation_engine(&vault_env, admin, engine_id)
        .unwrap();
    ledger.set_oracle(&ledger_env, admin, oracle).unwrap();
    ledger
        .set_liquidation_engine(&ledger_env, admin, engine_id)
        .unwrap();
    ledger
        .set_partner(&ledger_env, admin, partner, true)
        .unwrap();

    vault.deposit(&vault_env, guarantor, 500_000).unwrap();

    Setup {
        now: 0,
        engine_id,
        ledger_id,
        vault_id,
        engine,
        ledger,
        vault,
        admin,
        partner,
        settlement,
        guarantor,
        beneficiary,
    }
}

impl Setup {
    fn originate(&mut self, beneficiary: BytesN<32>, principal: i128, count: u32) -> u64 {
        let env = invocation(self.ledger_id, self.now);
        self.ledger
            .originate(
                &env,
                &mut self.vault,
                self.guarantor,
                beneficiary,
                principal,
                count,
                30 * DAY,
            )
            .unwrap()
    }

    fn attest(&mut self, id: u64, amount: i128) {
        let env = invocation(self.ledger_id, self.now);
        self.ledger
            .attest_repayment(&env, &mut self.vault, self.partner, id, amount)
            .unwrap();
    }

    fn flag_overdue(&mut self, id: u64) -> Result<(), Failure> {
        let env = invocation(self.engine_id, self.now);
        self.engine.flag_overdue(&env, &mut self.ledger, id)
    }

    fn liquidate(&mut self, id: u64) -> Result<i128, Failure> {
        let env = invocation(self.engine_id, self.now);
        self.engine
            .liquidate(&env, &mut self.ledger, &mut self.vault, id)
    }

    fn poke(&mut self, id: u64) -> Result<bool, Failure> {
        let env = invocation(self.engine_id, self.now);
        self.engine
            .poke(&env, &mut self.ledger, &mut self.vault, id)
    }

    fn status(&self, id: u64) -> LoanStatus {
        self.ledger.get_loan(id).unwrap().status
    }

    fn locked(&mut self) -> i128 {
        let env = invocation(self.vault_id, self.now);
        self.vault.get_locked(&env, self.guarantor)
    }

    fn balance(&mut self) -> i128 {
        let env = invocation(self.vault_id, self.now);
        self.vault.get_balance(&env, self.guarantor)
    }

    fn available(&mut self) -> i128 {
        let env = invocation(self.vault_id, self.now);
        self.vault.get_available(&env, self.guarantor)
    }

    /// What the ordered transfers have sent to the settlement address.
    fn settled(&self) -> i128 {
        self.vault
            .transfers
            .iter()
            .filter(|t| t.to == self.settlement)
            .map(|t| t.amount)
            .sum()
    }
}

fn refused<T>(e: Error) -> Result<T, Failure> {
    Err(Failure::Engine(e))
}

#[test]
fn test_full_default_to_liquidation() {
    let mut s = setup();
    let id = s.originate(s.beneficiary, 10_000, 4);
    // 150% LTV, so 15_000 locked. One installment paid: 3_562 released, 11_438 left.
    s.attest(id, 2_500);

    // Nothing to do while the loan is current.
    assert!(!s.poke(id).unwrap());
    assert!(s.flag_overdue(id).is_err());
    assert!(s.liquidate(id).is_err());

    // Miss the second installment.
    s.now = 61 * DAY;
    assert!(s.poke(id).unwrap());
    assert!(matches!(s.status(id), LoanStatus::Grace));

    // Still inside grace: liquidation is refused.
    s.now = 70 * DAY;
    assert!(s.liquidate(id).is_err());

    // Grace expires.
    s.now = 76 * DAY;
    let forfeited = s.liquidate(id).unwrap();

    // Outstanding was 7_500 and 11_438 was still locked, so only the
    // outstanding amount is seized and the rest goes back to the guarantor.
    assert_eq!(forfeited, 7_500);
    assert_eq!(s.settled(), 7_500);
    assert!(matches!(s.status(id), LoanStatus::Defaulted));

    // The guarantor keeps the excess collateral and can withdraw it.
    assert_eq!(s.locked(), 0);
    assert_eq!(s.balance(), 500_000 - 7_500);
    assert_eq!(s.available(), 492_500);
}

#[test]
fn test_default_with_no_repayments_seizes_only_the_principal() {
    let mut s = setup();
    let beneficiary = BytesN { bytes: [5u8; 32] };
    let id = s.originate(beneficiary, 10_000, 1);
    assert_eq!(s.ledger.get_loan(id).unwrap().collateral_locked, 15_000);

    // Default with nothing repaid: outstanding 10_000 < locked 15_000.
    s.now = 31 * DAY;
    s.flag_overdue(id).unwrap();
    s.now = 31 * DAY + 15 * DAY;
    let forfeited = s.liquidate(id).unwrap();

    assert_eq!(forfeited, 10_000);
    assert_eq!(s.settled(), 10_000);
    // The 5_000 of over-collateralisation is returned, not seized.
    assert_eq!(s.available(), 490_000);
}

#[test]
fn test_cranks_are_permissionless_but_state_driven() {
    let mut s = setup();
    let id = s.originate(s.beneficiary, 10_000, 4);

    // Anyone can call the crank; the loan's own state decides what happens.
    s.now = 31 * DAY;
    s.flag_overdue(id).unwrap();

    // Flagging twice is refused: the loan is already in grace.
    assert!(s.flag_overdue(id).is_err());

    // Paying during grace clears it, and the crank goes quiet again.
    s.attest(id, 2_500);
    assert!(!s.poke(id).unwrap());

    // Liquidating a healthy loan is refused.
    assert!(s.liquidate(id).is_err());
    assert_eq!(s.settled(), 0);
}

#[test]
fn cranks_need_nobody_s_authorization() {
    let mut s = setup();
    let id = s.originate(s.beneficiary, 10_000, 4);
    let mut env = invocation(s.engine_id, 31 * DAY);
    env.auths = Vec::new();
    assert_eq!(
        s.engine
            .poke(&env, &mut s.ledger, &mut s.vault, id),
        Ok(true)
    );
    env.timestamp = 46 * DAY;
    assert_eq!(
        s.engine
            .poke(&env, &mut s.ledger, &mut s.vault, id),
        Ok(true)
    );
    assert!(matches!(s.status(id), LoanStatus::Defaulted));
    assert_eq!(s.settled(), 10_000);
    assert_eq!(
        s.engine
            .poke(&env, &mut s.ledger, &mut s.vault, id),
        Ok(false)
    );
}

#[test]
fn each_engine_error_has_its_input() {
    let mut s = setup();
    let id = s.originate(s.beneficiary, 10_000, 4);
    let env = invocation(s.engine_id, 0);
    let hash = BytesN { bytes: [1u8; 32] };

    assert_eq!(
        s.engine
            .initialize(&env, s.partner, s.vault_id, s.ledger_id),
        refused(Error::AlreadyInitialized)
    );
    assert_eq!(s.flag_overdue(id), refused(Error::NotOverdue));
    assert_eq!(s.liquidate(id), refused(Error::GraceNotExpired));
    assert_eq!(
        s.engine.upgrade(&env, s.partner, hash),
        refused(Error::NotAuthorized)
    );
    assert_eq!(
        s.flag_overdue(9),
        Err(Failure::Ledger(loan_ledger::Error::LoanNotFound))
    );
    assert_eq!(
        s.liquidate(9),
        Err(Failure::Ledger(loan_ledger::Error::LoanNotFound))
    );
    assert_eq!(
        s.poke(9),
        Err(Failure::Ledger(loan_ledger::Error::LoanNotFound))
    );

    s.engine = LiquidationEngineContract::new();
    assert_eq!(s.flag_overdue(id), refused(Error::NotInitialized));
    assert_eq!(s.liquidate(id), refused(Error::NotInitialized));
    assert_eq!(s.poke(id), refused(Error::NotInitialized));
    assert_eq!(
        s.engine.upgrade(&env, s.admin, hash),
        refused(Error::NotInitialized)
    );
    assert_eq!(Error::AlreadyInitialized.code(), 1);
    assert_eq!(Error::NotInitialized.code(), 2);
    assert_eq!(Error::NotAuthorized.code(), 3);
    assert_eq!(Error::NotOverdue.code(), 4);
    assert_eq!(Error::GraceNotExpired.code(), 5);
}

#[test]
fn engine_the_ledger_does_not_know_is_refused() {
    let mut s = setup();
    let id = s.originate(s.beneficiary, 10_000, 4);
    let ledger_env = invocation(s.ledger_id, 0);
    s.ledger
        .set_liquidation_engine(&ledger_env, s.admin, s.admin)
        .unwrap();
    s.now = 31 * DAY;
    assert_eq!(
        s.flag_overdue(id),
        Err(Failure::Ledger(loan_ledger::Error::NotAuthorized))
    );
    assert!(matches!(s.status(id), LoanStatus::Active));
}

#[test]
fn engine_admin_handover_is_two_step() {
    let mut s = setup();
    let env = invocation(s.engine_id, 0);
    let new_admin = address(20);
    let hash = BytesN { bytes: [1u8; 32] };

    assert_eq!(
        s.engine.accept_admin(&env, new_admin),
        refused(Error::NotAuthorized)
    );
    assert_eq!(
        s.engine.propose_admin(&env, new_admin, new_admin),
        refused(Error::NotAuthorized)
    );
    s.engine.propose_admin(&env, s.admin, new_admin).unwrap();
    assert_eq!(s.engine.get_admin(), s.admin);
    assert_eq!(
        s.engine.accept_admin(&env, s.partner),
        refused(Error::NotAuthorized)
    );
    s.engine.accept_admin(&env, new_admin).unwrap();
    assert_eq!(s.engine.get_admin(), new_admin);
    assert_eq!(
        s.engine.upgrade(&env, s.admin, hash),
        refused(Error::NotAuthorized)
    );
    s.engine.upgrade(&env, new_admin, hash).unwrap();
    assert_eq!(s.engine.wasm_hash, Some(hash));
    assert_eq!(
        s.engine.accept_admin(&env, new_admin),
        refused(Error::NotAuthorized)
    );
    assert_eq!(s.engine.get_vault(), s.vault_id);
    assert_eq!(s.engine.get_loan_ledger(), s.ledger_id);
    let unsigned = Env {
        auths: Vec::new(),
        ..env
    };
    assert_eq!(
        s.engine.accept_admin(&unsigned, new_admin),
        Err(Failure::Auth)
    );
}

#[test]
fn engine_is_configured_at_deploy_and_renewed_on_use() {
    let mut s = setup();
    let id = s.originate(s.beneficiary, 10_000, 4);
    let mut env = invocation(s.engine_id, 0);
    let mut engine =
        LiquidationEngineContract::__constructor(&env, s.admin, s.vault_id, s.ledger_id);
    assert_eq!(engine.get_admin(), s.admin);
    assert_eq!(engine.live_until, EXTEND_TO as u64);
    // Even a poke that finds nothing to do is a use.
    env.sequence = EXTEND_TO - THRESHOLD;
    assert_eq!(
        engine.poke(&env, &mut s.ledger, &mut s.vault, id),
        Ok(false)
    );
    assert_eq!(engine.live_until, (env.sequence + EXTEND_TO) as u64);
}

#[test]
fn liquidation_reaches_one_guarantor_only() {
    let mut s = setup();
    let other = address(20);
    let vault_env = invocation(s.vault_id, 0);
    s.vault.deposit(&vault_env, other, 1_000).unwrap();
    let id = s.originate(s.beneficiary, 10_000, 1);
    s.now = 31 * DAY;
    s.flag_overdue(id).unwrap();
    s.now = 46 * DAY;
    s.liquidate(id).unwrap();
    assert_eq!(s.vault.get_balance(&vault_env, other), 1_000);
    assert_eq!(s.vault.get_locked(&vault_env, other), 0);
}

#[test]
fn collateral_short_of_the_debt_is_seized_whole() {
    let mut s = setup();
    let ledger_env = invocation(s.ledger_id, 0);
    s.ledger = LoanLedgerContract::new();
    // Loans at half their principal.
    s.ledger
        .initialize(s.admin, s.vault_id, 5_000, 5_000, 500, DAY)
        .unwrap();
    s.ledger
        .set_liquidation_engine(&ledger_env, s.admin, s.engine_id)
        .unwrap();
    let id = s.originate(s.beneficiary, 10_000, 1);
    s.now = 31 * DAY;
    assert_eq!(s.poke(id), Ok(true));
    s.now = 33 * DAY;
    assert_eq!(s.liquidate(id), Ok(5_000));
    assert_eq!(s.settled(), 5_000);
    assert_eq!(s.locked(), 0);
    assert_eq!(s.balance(), 495_000);
}

#[test]
fn vault_locks_what_open_loans_hold() {
    let mut s = setup();
    let ids: Vec<u64> = (1..=3u8)
        .map(|n| s.originate(BytesN { bytes: [n; 32] }, 10_000 * n as i128, 4))
        .collect();
    s.attest(ids[0], 2_500);
    s.attest(ids[1], 20_000);
    let mut held = 0;
    for id in &ids {
        held += s.ledger.loan_collateral_remaining(*id).unwrap();
    }
    assert_eq!(held, 11_438 + 45_000);
    assert_eq!(s.locked(), held);
    s.now = 61 * DAY;
    for id in [ids[0], ids[2]] {
        assert_eq!(s.poke(id), Ok(true));
    }
    s.now = 90 * DAY;
    assert_eq!(s.poke(ids[0]), Ok(true));
    assert_eq!(s.poke(ids[1]), Ok(false));
    assert_eq!(s.locked(), 45_000);
    assert_eq!(s.liquidate(ids[2]), Ok(30_000));
    assert_eq!(s.locked(), 0);
}

#[test]
fn a_use_renews_a_life_that_runs_low() {
    assert_eq!(renew(0, 10), 10 + EXTEND_TO as u64);
    assert_eq!(renew(10 + THRESHOLD as u64, 10), 10 + EXTEND_TO as u64);
    assert_eq!(renew(11 + THRESHOLD as u64, 10), 11 + THRESHOLD as u64);
    assert_eq!(renew(0, u32::MAX), u32::MAX as u64 + EXTEND_TO as u64);
}

#[test]
fn an_invocation_carries_its_maker_s_authority() {
    let env = invocation(address(1), 5);
    let call = env.invoke(address(2));
    assert_eq!(call.contract, address(2));
    assert_eq!(call.timestamp, 5);
    assert_eq!(call.require_auth(address(1)), Ok(()));
    assert_eq!(call.require_auth(address(2)), Err(Failure::Auth));
}

#[test]
fn a_table_holds_each_key_once() {
    let mut t: Table<u64, u32> = Table::new();
    assert_eq!(t.get(1), None);
    t.set(1, 10);
    t.set(2, 20);
    t.set(1, 11);
    assert_eq!(t.get(1), Some(11));
    assert_eq!(t.get(2), Some(20));
    t.remove(1);
    assert_eq!(t.get(1), None);
    t.remove(1);
    assert_eq!(t.get(2), Some(20));
}
