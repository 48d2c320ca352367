use remit_collateral::guarantor_vault::{Action, Error, GuarantorVaultContract, Vault};
use remit_collateral::host::{
    Address, BytesN, Env, Failure, Transfer, DAY_IN_LEDGERS, EXTEND_TO, THRESHOLD,
};

const TIMELOCK: u64 = 172_800;

fn address(n: u8) -> Address {
    Address { strkey: [n; 56] }
}

/// Everyone authorizes everything.
fn everyone() -> Vec<Address> {
    (0..=255u8).map(address).collect()
}

/// A token that carries out what the vault orders.
struct Usdc {
    address: Address,
    balances: Vec<(Address, i128)>,
    carried_out: usize,
}

impl Usdc {
    fn balance(&self, holder: &Address) -> i128 {
        self.balances
            .iter()
            .filter(|(h, _)| h == holder)
            .map(|(_, amount)| *amount)
            .sum()
    }

    fn mint(&mut self, to: Address, amount: i128) {
        self.balances.push((to, amount));
    }

    fn carry_out(&mut self, transfers: &[Transfer]) {
        for t in &transfers[self.carried_out..] {
            assert_eq!(t.token, self.address);
            assert!(self.balance(&t.from) >= t.amount);
            self.balances.push((t.from, -t.amount));
            self.balances.push((t.to, t.amount));
        }
        self.carried_out = transfers.len();
    }
}

struct Setup {
    env: Env,
    vault: GuarantorVaultContract,
    usdc: Usdc,
    admin: Address,
    ledger: Address,
    engine: Address,
    settlement: Address,
    guarantor: Address,
}

fn setup() -> Setup {
    let admin = address(1);
    let ledger = address(2);
    let engine = address(3);
    let settlement = address(4);
    let guarantor = address(5);
    let env = Env {
        contract: address(6),
        timestamp: 0,
        sequence: 0,
        auths: everyone(),
    };

    let mut usdc = Usdc {
        address: address(7),
        balances: Vec::new(),
        carried_out: 0,
    };
    usdc.mint(guarantor, 10_000);

    let mut vault =
        GuarantorVaultContract::__constructor(&env, admin, usdc.address, settlement, TIMELOCK);
    vault.set_loan_ledger(&env, admin, ledger).unwrap();
    vault.set_liquidation_engine(&env, admin, engine).unwrap();

    Setup {
        env,
        vault,
        usdc,
        admin,
        ledger,
        engine,
        settlement,
        guarantor,
    }
}

impl Setup {
    fn deposit(&mut self, guarantor: Address, amount: i128) {
        self.vault.deposit(&self.env, guarantor, amount).unwrap();
        self.usdc.carry_out(&self.vault.transfers);
    }

    fn withdraw(&mut self, guarantor: Address, amount: i128) {
        self.vault.withdraw(&self.env, guarantor, amount).unwrap();
        self.usdc.carry_out(&self.vault.transfers);
    }

    fn lock(&mut self, amount: i128) {
        self.vault
            .lock_collateral(&self.env, self.ledger, self.guarantor, amount)
            .unwrap();
    }

    fn balance(&mut self, guarantor: Address) -> i128 {
        self.vault.get_balance(&self.env, guarantor)
    }

    fn locked(&mut self, guarantor: Address) -> i128 {
        self.vault.get_locked(&self.env, guarantor)
    }

    fn available(&mut self, guarantor: Address) -> i128 {
        self.vault.get_available(&self.env, guarantor)
    }
}

fn refused(e: Error) -> Result<(), Failure> {
    Err(Failure::Vault(e))
}

#[test]
fn test_deposit_and_withdraw() {
    let mut s = setup();

    s.deposit(s.guarantor, 1_000);
    assert_eq!(s.balance(s.guarantor), 1_000);
    assert_eq!(s.available(s.guarantor), 1_000);
    assert_eq!(s.usdc.balance(&s.guarantor), 9_000);

    s.withdraw(s.guarantor, 400);
    assert_eq!(s.balance(s.guarantor), 600);
    assert_eq!(s.usdc.balance(&s.guarantor), 9_400);

    // Cannot withdraw more than the balance.
    assert!(s.vault.withdraw(&s.env, s.guarantor, 601).is_err());
    // Zero and negative amounts are rejected.
    assert!(s.vault.deposit(&s.env, s.guarantor, 0).is_err());
}

#[test]
fn test_vaults_are_isolated() {
    let mut s = setup();
    let other = address(20);
    s.usdc.mint(other, 5_000);

    s.deposit(s.guarantor, 1_000);
    s.deposit(other, 2_000);

    // One guarantor's locked collateral never constrains another's.
    s.lock(1_000);
    assert_eq!(s.available(s.guarantor), 0);
    assert_eq!(s.available(other), 2_000);

    s.withdraw(other, 2_000);
    assert_eq!(s.balance(other), 0);
    assert_eq!(s.balance(s.guarantor), 1_000);
}

#[test]
fn test_locked_collateral_cannot_be_withdrawn() {
    let mut s = setup();
    s.deposit(s.guarantor, 1_000);

    s.lock(750);
    assert_eq!(s.locked(s.guarantor), 750);
    assert_eq!(s.available(s.guarantor), 250);

    assert!(s.vault.withdraw(&s.env, s.guarantor, 251).is_err());
    s.withdraw(s.guarantor, 250);

    // Cannot lock what is not available.
    assert!(s
        .vault
        .lock_collateral(&s.env, s.ledger, s.guarantor, 1)
        .is_err());

    s.vault
        .release_collateral(&s.env, s.ledger, s.guarantor, 750)
        .unwrap();
    assert_eq!(s.available(s.guarantor), 750);
    s.withdraw(s.guarantor, 750);
    assert_eq!(s.balance(s.guarantor), 0);
}

#[test]
fn test_forfeit_sends_usdc_to_settlement() {
    let mut s = setup();
    s.deposit(s.guarantor, 1_000);
    s.lock(900);

    s.vault
        .forfeit_collateral(&s.env, s.engine, s.guarantor, 600)
        .unwrap();
    s.usdc.carry_out(&s.vault.transfers);

    assert_eq!(s.usdc.balance(&s.settlement), 600);
    assert_eq!(s.balance(s.guarantor), 400);
    assert_eq!(s.locked(s.guarantor), 300);
    assert_eq!(s.available(s.guarantor), 100);

    // Cannot forfeit beyond what is locked.
    assert!(s
        .vault
        .forfeit_collateral(&s.env, s.engine, s.guarantor, 301)
        .is_err());
}

#[test]
fn test_authorization_is_enforced() {
    let mut s = setup();
    let stranger = address(20);
    s.deposit(s.guarantor, 1_000);

    // Only the ledger may lock.
    assert!(s
        .vault
        .lock_collateral(&s.env, stranger, s.guarantor, 100)
        .is_err());
    assert!(s
        .vault
        .lock_collateral(&s.env, s.engine, s.guarantor, 100)
        .is_err());

    // Only the engine may forfeit.
    s.lock(100);
    assert!(s
        .vault
        .forfeit_collateral(&s.env, s.ledger, s.guarantor, 100)
        .is_err());
    assert!(s
        .vault
        .forfeit_collateral(&s.env, stranger, s.guarantor, 100)
        .is_err());

    // Only the admin may rewire the contract.
    assert!(s
        .vault
        .set_loan_ledger(&s.env, stranger, stranger)
        .is_err());
    assert!(s
        .vault
        .schedule_action(&s.env, stranger, Action::SetSettlement(stranger))
        .is_err());
}

#[test]
fn test_constructor_sets_configuration_at_deploy() {
    let s = setup();
    // Configuration comes from the deployment itself, so there is no window in
    // which an unclaimed vault could be claimed by someone else.
    assert_eq!(s.vault.get_admin(), s.admin);
    assert_eq!(s.vault.get_usdc_token(), s.usdc.address);
    assert_eq!(s.vault.get_settlement_address(), s.settlement);
}

fn vault_ttl(s: &Setup, guarantor: Address) -> u32 {
    let entry = s.vault.vaults.get(guarantor).unwrap();
    (entry.live_until - s.env.sequence as u64) as u32
}

#[test]
fn test_vault_lifetime_is_extended_on_use() {
    let mut s = setup();
    s.deposit(s.guarantor, 1_000);

    // First use extends the vault, and the contract instance, to the full window.
    assert_eq!(vault_ttl(&s, s.guarantor), EXTEND_TO);
    let instance_ttl = (s.vault.live_until - s.env.sequence as u64) as u32;
    assert_eq!(instance_ttl, EXTEND_TO);

    // Forty days on, the entry has aged below the renewal threshold...
    let aged = 40 * DAY_IN_LEDGERS;
    s.env.sequence += aged;
    assert_eq!(vault_ttl(&s, s.guarantor), EXTEND_TO - aged);
    assert!(EXTEND_TO - aged < THRESHOLD);

    // ...and its next use renews it to the full window again.
    s.lock(1);
    assert_eq!(vault_ttl(&s, s.guarantor), EXTEND_TO);
}

#[test]
fn test_wiring_is_set_once() {
    let mut s = setup();
    // Setup already wired the vault. It cannot be pointed anywhere else.
    assert!(s.vault.set_loan_ledger(&s.env, s.admin, s.engine).is_err());
    assert!(s
        .vault
        .set_liquidation_engine(&s.env, s.admin, s.ledger)
        .is_err());
    assert_eq!(s.vault.get_loan_ledger(), Some(s.ledger));
    assert_eq!(s.vault.get_liquidation_engine(), Some(s.engine));
}

#[test]
fn test_sensitive_changes_wait_out_the_timelock() {
    let mut s = setup();
    let stranger = address(20);
    let new_settlement = address(21);
    let not_authorized = Failure::Vault(Error::NotAuthorized);
    let too_early = Failure::Vault(Error::TimelockNotExpired);
    assert_eq!(s.vault.get_timelock_secs(), TIMELOCK);

    // Only the admin may schedule, and scheduling changes nothing yet.
    assert!(matches!(
        s.vault
            .schedule_action(&s.env, stranger, Action::SetSettlement(stranger)),
        Err(e) if e == not_authorized
    ));
    s.vault
        .schedule_action(&s.env, s.admin, Action::SetSettlement(new_settlement))
        .unwrap();
    assert_eq!(s.vault.get_settlement_address(), s.settlement);
    assert_eq!(s.vault.get_scheduled_action().unwrap().eta, TIMELOCK);

    // One change at a time.
    assert!(s
        .vault
        .schedule_action(&s.env, s.admin, Action::SetSettlement(stranger))
        .is_err());

    // It cannot run early...
    s.env.timestamp = TIMELOCK - 1;
    assert!(matches!(
        s.vault.execute_action(&s.env, s.admin),
        Err(e) if e == too_early
    ));
    assert_eq!(s.vault.get_settlement_address(), s.settlement);

    // ...and runs once the delay has passed.
    s.env.timestamp = TIMELOCK;
    s.vault.execute_action(&s.env, s.admin).unwrap();
    assert_eq!(s.vault.get_settlement_address(), new_settlement);
    assert!(s.vault.get_scheduled_action().is_none());

    // A scheduled upgrade can be cancelled before it runs.
    s.vault
        .schedule_action(
            &s.env,
            s.admin,
            Action::Upgrade(BytesN { bytes: [0u8; 32] }),
        )
        .unwrap();
    s.vault.cancel_action(&s.env, s.admin).unwrap();
    assert!(s.vault.get_scheduled_action().is_none());
    assert!(s.vault.execute_action(&s.env, s.admin).is_err());
}

#[test]
fn test_admin_handover_is_two_step() {
    let mut s = setup();
    let stranger = address(20);
    let new_admin = address(21);
    let not_authorized = Failure::Vault(Error::NotAuthorized);

    assert!(s
        .vault
        .propose_admin(&s.env, stranger, new_admin)
        .is_err());
    s.vault.propose_admin(&s.env, s.admin, new_admin).unwrap();
    assert_eq!(s.vault.get_admin(), s.admin);
    assert!(s.vault.accept_admin(&s.env, stranger).is_err());
    s.vault.accept_admin(&s.env, new_admin).unwrap();
    assert_eq!(s.vault.get_admin(), new_admin);

    // The old admin loses its powers; the new one has them.
    let action = Action::SetSettlement(stranger);
    assert!(matches!(
        s.vault.schedule_action(&s.env, s.admin, action),
        Err(e) if e == not_authorized
    ));
    s.vault.schedule_action(&s.env, new_admin, action).unwrap();
    // A completed handover cannot be replayed.
    assert!(s.vault.accept_admin(&s.env, new_admin).is_err());
}

#[test]
fn vault_refuses_what_is_not_authorized() {
    let mut s = setup();
    s.deposit(s.guarantor, 1_000);
    s.env.auths = vec![s.admin];

    let unsigned = Err(Failure::Auth);
    assert_eq!(s.vault.deposit(&s.env, s.guarantor, 1), unsigned);
    assert_eq!(s.vault.withdraw(&s.env, s.guarantor, 1), unsigned);
    assert_eq!(
        s.vault.lock_collateral(&s.env, s.ledger, s.guarantor, 1),
        unsigned
    );
    assert_eq!(
        s.vault.release_collateral(&s.env, s.ledger, s.guarantor, 1),
        unsigned
    );
    assert_eq!(
        s.vault.forfeit_collateral(&s.env, s.engine, s.guarantor, 1),
        unsigned
    );
    assert_eq!(s.vault.accept_admin(&s.env, address(9)), unsigned);
    s.env.auths = vec![s.guarantor];
    assert_eq!(s.vault.cancel_action(&s.env, s.admin), unsigned);
    assert_eq!(s.balance(s.guarantor), 1_000);
}

#[test]
fn each_vault_error_has_its_input() {
    let mut s = setup();
    let (admin, ledger, engine, g) = (s.admin, s.ledger, s.engine, s.guarantor);
    s.deposit(g, 100);
    s.lock(60);

    assert_eq!(
        s.vault.initialize(&s.env, g, g, g),
        refused(Error::AlreadyInitialized)
    );
    assert_eq!(
        s.vault.set_loan_ledger(&s.env, g, g),
        refused(Error::NotAuthorized)
    );
    assert_eq!(
        s.vault.set_loan_ledger(&s.env, admin, g),
        refused(Error::AlreadyWired)
    );
    assert_eq!(
        s.vault.set_settlement_address(&s.env, admin, g),
        refused(Error::TimelockNotExpired)
    );
    assert_eq!(
        s.vault.withdraw(&s.env, g, -1),
        refused(Error::InvalidAmount)
    );
    assert_eq!(
        s.vault.withdraw(&s.env, g, 41),
        refused(Error::InsufficientAvailable)
    );
    assert_eq!(
        s.vault.lock_collateral(&s.env, ledger, g, 0),
        refused(Error::InvalidAmount)
    );
    assert_eq!(
        s.vault.lock_collateral(&s.env, ledger, g, 41),
        refused(Error::InsufficientAvailable)
    );
    assert_eq!(
        s.vault.release_collateral(&s.env, g, g, 1),
        refused(Error::NotAuthorized)
    );
    assert_eq!(
        s.vault.release_collateral(&s.env, engine, g, 61),
        refused(Error::InsufficientLocked)
    );
    assert_eq!(
        s.vault.forfeit_collateral(&s.env, engine, g, 61),
        refused(Error::InsufficientLocked)
    );
    assert_eq!(
        s.vault.cancel_action(&s.env, admin),
        refused(Error::NoScheduledAction)
    );
    let action = Action::SetSettlement(g);
    s.vault.schedule_action(&s.env, admin, action).unwrap();
    assert_eq!(
        s.vault.schedule_action(&s.env, admin, action),
        refused(Error::ActionAlreadyScheduled)
    );
    // Nothing of this changed the position or moved a token.
    assert_eq!(
        s.vault.get_vault(&s.env, g),
        Vault {
            guarantor: g,
            collateral_balance: 100,
            locked_amount: 60,
        }
    );
    assert_eq!(s.vault.transfers.len(), 1);
}

#[test]
fn unconfigured_vault_fails_closed() {
    let mut s = setup();
    let g = s.guarantor;
    let mut vault = GuarantorVaultContract::new();
    assert_eq!(
        vault.set_loan_ledger(&s.env, s.admin, s.ledger),
        refused(Error::NotInitialized)
    );
    assert_eq!(
        vault.deposit(&s.env, g, 1),
        refused(Error::NotInitialized)
    );
    assert_eq!(
        vault.lock_collateral(&s.env, s.ledger, g, 1),
        refused(Error::LedgerNotSet)
    );
    assert_eq!(
        vault.forfeit_collateral(&s.env, s.engine, g, 1),
        refused(Error::EngineNotSet)
    );
    assert_eq!(
        vault.release_collateral(&s.env, s.engine, g, 1),
        refused(Error::NotAuthorized)
    );

    // Set up without a timelock, the settlement address is the admin's to change.
    vault
        .initialize(&s.env, s.admin, s.usdc.address, s.settlement)
        .unwrap();
    vault.set_settlement_address(&s.env, s.admin, g).unwrap();
    assert_eq!(vault.get_settlement_address(), g);
    assert_eq!(
        vault.schedule_action(&s.env, s.admin, Action::SetSettlement(g)),
        refused(Error::NotInitialized)
    );
    s.env.auths = Vec::new();
    assert_eq!(
        vault.set_settlement_address(&s.env, s.admin, g),
        Err(Failure::Auth)
    );
}

#[test]
fn numbers_out_of_range_abort() {
    let mut s = setup();
    let g = s.guarantor;
    s.vault.deposit(&s.env, g, i128::MAX).unwrap();
    assert_eq!(s.vault.deposit(&s.env, g, 1), Err(Failure::Trap));
    assert_eq!(s.balance(g), i128::MAX);

    s.env.timestamp = u64::MAX;
    assert_eq!(
        s.vault
            .schedule_action(&s.env, s.admin, Action::SetSettlement(g)),
        Err(Failure::Trap)
    );
}

#[test]
fn scheduled_upgrade_names_the_code() {
    let mut s = setup();
    let hash = BytesN { bytes: [9u8; 32] };
    s.vault
        .schedule_action(&s.env, s.admin, Action::Upgrade(hash))
        .unwrap();
    assert_eq!(s.vault.wasm_hash, None);
    s.env.timestamp = TIMELOCK + 5;
    s.vault.execute_action(&s.env, s.admin).unwrap();
    assert_eq!(s.vault.wasm_hash, Some(hash));
    assert_eq!(s.vault.get_settlement_address(), s.settlement);
}

#[test]
fn vault_holds_what_its_records_say() {
    let mut s = setup();
    let contract = s.env.contract;
    let other = address(20);
    s.usdc.mint(other, 5_000);
    s.deposit(s.guarantor, 3_000);
    s.deposit(other, 2_000);
    s.withdraw(other, 500);
    s.lock(1_000);
    s.vault
        .forfeit_collateral(&s.env, s.engine, s.guarantor, 700)
        .unwrap();
    s.usdc.carry_out(&s.vault.transfers);
    let balances = s.balance(s.guarantor) + s.balance(other);
    assert_eq!(balances, 3_800);
    assert_eq!(s.usdc.balance(&contract), balances);
    assert_eq!(
        s.vault.transfers[3],
        Transfer {
            token: s.usdc.address,
            from: contract,
            to: s.settlement,
            amount: 700,
        }
    );
}

#[test]
fn release_undoes_lock_and_withdrawal_undoes_deposit() {
    let mut s = setup();
    s.deposit(s.guarantor, 1_000);
    let before = s.vault.get_vault(&s.env, s.guarantor);
    s.lock(400);
    s.vault
        .release_collateral(&s.env, s.engine, s.guarantor, 400)
        .unwrap();
    assert_eq!(s.vault.get_vault(&s.env, s.guarantor), before);
    s.lock(400);
    s.vault
        .release_collateral(&s.env, s.ledger, s.guarantor, 400)
        .unwrap();
    assert_eq!(s.vault.get_vault(&s.env, s.guarantor), before);

    let contract = s.env.contract;
    let held = s.usdc.balance(&contract);
    let kept = s.usdc.balance(&s.guarantor);
    s.deposit(s.guarantor, 250);
    assert_eq!(s.usdc.balance(&contract), held + 250);
    s.withdraw(s.guarantor, 250);
    assert_eq!(s.vault.get_vault(&s.env, s.guarantor), before);
    assert_eq!(s.usdc.balance(&contract), held);
    assert_eq!(s.usdc.balance(&s.guarantor), kept);
}

#[test]
fn vault_that_settles_to_itself_holds_more_than_its_records_say() {
    let mut s = setup();
    let contract = s.env.contract;
    s.vault
        .schedule_action(&s.env, s.admin, Action::SetSettlement(contract))
        .unwrap();
    s.env.timestamp = TIMELOCK;
    s.vault.execute_action(&s.env, s.admin).unwrap();
    s.deposit(s.guarantor, 3_000);
    s.lock(1_000);
    s.vault
        .forfeit_collateral(&s.env, s.engine, s.guarantor, 700)
        .unwrap();
    s.usdc.carry_out(&s.vault.transfers);
    assert_eq!(s.balance(s.guarantor), 2_300);
    assert_eq!(s.usdc.balance(&contract), 3_000);
}

#[test]
fn reading_a_position_renews_it() {
    let mut s = setup();
    s.deposit(s.guarantor, 1_000);
    s.env.sequence = 30 * DAY_IN_LEDGERS - 1;
    // A life above the threshold is left as it is.
    assert_eq!(s.balance(s.guarantor), 1_000);
    assert_eq!(vault_ttl(&s, s.guarantor), THRESHOLD + 1);
    s.env.sequence += 1;
    assert_eq!(s.balance(s.guarantor), 1_000);
    assert_eq!(vault_ttl(&s, s.guarantor), EXTEND_TO);
    // There is nothing to renew where there is no record.
    assert_eq!(s.balance(address(33)), 0);
    assert!(s.vault.vaults.get(address(33)).is_none());
}

#[test]
fn vault_error_codes_are_stable() {
    assert_eq!(Error::AlreadyInitialized.code(), 1);
    assert_eq!(Error::NotInitialized.code(), 2);
    assert_eq!(Error::NotAuthorized.code(), 3);
    assert_eq!(Error::InvalidAmount.code(), 4);
    assert_eq!(Error::InsufficientAvailable.code(), 5);
    assert_eq!(Error::InsufficientLocked.code(), 6);
    assert_eq!(Error::LedgerNotSet.code(), 7);
    assert_eq!(Error::EngineNotSet.code(), 8);
    assert_eq!(Error::TimelockNotExpired.code(), 12);
}

#[test]
fn stored_positions_are_checked() {
    let sound = Vault {
        guarantor: address(1),
        collateral_balance: 10,
        locked_amount: 10,
    };
    assert!(sound.is_sound());
    let over = Vault {
        locked_amount: 11,
        ..sound
    };
    assert!(!over.is_sound());
    let negative = Vault {
        locked_amount: -1,
        ..sound
    };
    assert!(!negative.is_sound());
}
