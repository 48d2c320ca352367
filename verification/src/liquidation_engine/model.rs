//! The liquidation engine as a state machine: what each call makes of the
//! states of the engine, the ledger and the vault, or why it is refused.
use super::Error;
use crate::guarantor_vault::model::VaultState;
use crate::host::{renewed, Address, BytesN, Call, Failure};
use crate::loan_ledger::model::LedgerState;
use crate::loan_ledger::Loan;
use vstd::prelude::*;

verus! {

/// Everything the liquidation engine remembers: how it is wired.
#[verifier::ext_equal]
pub struct EngineState {
    pub admin: Option<Address>,
    pub pending_admin: Option<Address>,
    pub vault: Option<Address>,
    pub loan_ledger: Option<Address>,
    /// The code the host is to replace the contract's with.
    pub wasm_hash: Option<BytesN<32>>,
    /// The last ledger the contract lives through.
    pub live_until: u64,
}

/// A refusal by the engine.
pub open spec fn refused(e: Error) -> Failure {
    Failure::Engine(e)
}

/// What a default takes of the collateral held against the loan: what is owed,
/// but no more than is held.
pub open spec fn forfeited(loan: Loan) -> int {
    if loan.outstanding() < loan.remaining() {
        loan.outstanding()
    } else {
        loan.remaining()
    }
}

/// What a default gives back to the guarantor.
pub open spec fn returned(loan: Loan) -> int {
    loan.remaining() - forfeited(loan)
}

impl EngineState {
    /// An engine that nothing has been set up in.
    pub open spec fn empty() -> EngineState {
        EngineState {
            admin: None,
            pending_admin: None,
            vault: None,
            loan_ledger: None,
            wasm_hash: None,
            live_until: 0,
        }
    }

    /// The contract after a use: its life is renewed.
    pub open spec fn used(self, env: Call) -> EngineState {
        EngineState { live_until: renewed(self.live_until, env.sequence), ..self }
    }

    /// Why `admin` may not act as the administrator, if so.
    pub open spec fn admin_refusal(self, env: Call, admin: Address) -> Option<Failure> {
        if !env.auths.contains(admin) {
            Some(Failure::Auth)
        } else if self.admin is None {
            Some(refused(Error::NotInitialized))
        } else if self.admin != Some(admin) {
            Some(refused(Error::NotAuthorized))
        } else {
            None
        }
    }

    // --- Setup and administration ---

    pub open spec fn constructed(
        env: Call,
        admin: Address,
        vault: Address,
        loan_ledger: Address,
    ) -> EngineState {
        EngineState {
            admin: Some(admin),
            vault: Some(vault),
            loan_ledger: Some(loan_ledger),
            ..EngineState::empty().used(env)
        }
    }

    pub open spec fn initialize(
        self,
        env: Call,
        admin: Address,
        vault: Address,
        loan_ledger: Address,
    ) -> Result<EngineState, Failure> {
        if self.admin is Some {
            Err(refused(Error::AlreadyInitialized))
        } else {
            Ok(
                EngineState {
                    admin: Some(admin),
                    vault: Some(vault),
                    loan_ledger: Some(loan_ledger),
                    ..self.used(env)
                },
            )
        }
    }

    pub open spec fn upgrade(self, env: Call, admin: Address, new_wasm_hash: BytesN<32>) -> Result<
        EngineState,
        Failure,
    > {
        match self.admin_refusal(env, admin) {
            Some(e) => Err(e),
            None => Ok(EngineState { wasm_hash: Some(new_wasm_hash), ..self.used(env) }),
        }
    }

    pub open spec fn propose_admin(self, env: Call, admin: Address, new_admin: Address) -> Result<
        EngineState,
        Failure,
    > {
        match self.admin_refusal(env, admin) {
            Some(e) => Err(e),
            None => Ok(EngineState { pending_admin: Some(new_admin), ..self.used(env) }),
        }
    }

    pub open spec fn accept_admin(self, env: Call, new_admin: Address) -> Result<
        EngineState,
        Failure,
    > {
        if !env.auths.contains(new_admin) {
            Err(Failure::Auth)
        } else if self.pending_admin != Some(new_admin) {
            Err(refused(Error::NotAuthorized))
        } else {
            Ok(EngineState { admin: Some(new_admin), pending_admin: None, ..self.used(env) })
        }
    }

    // --- Cranks ---

    /// Starts the grace period on an overdue loan: the engine and the ledger
    /// afterwards.
    pub open spec fn flag_overdue(self, ledger: LedgerState, env: Call, loan_id: u64) -> Result<
        (EngineState, LedgerState),
        Failure,
    > {
        match self.loan_ledger {
            None => Err(refused(Error::NotInitialized)),
            Some(address) => {
                let call = env.invoke(address);
                match ledger.is_overdue(call, loan_id) {
                    Err(e) => Err(e),
                    Ok(overdue) => if !overdue {
                        Err(refused(Error::NotOverdue))
                    } else {
                        match ledger.mark_grace(call, env.contract, loan_id) {
                            Err(e) => Err(e),
                            Ok(marked) => Ok((self.used(env), marked)),
                        }
                    },
                }
            },
        }
    }

    /// Why the engine does not begin to settle the loan, if so.
    pub open spec fn liquidation_refusal(
        self,
        ledger: LedgerState,
        env: Call,
        loan_id: u64,
    ) -> Option<Failure> {
        match self.loan_ledger {
            None => Some(refused(Error::NotInitialized)),
            Some(address) => match ledger.is_grace_expired(env.invoke(address), loan_id) {
                Err(e) => Some(e),
                Ok(expired) => if !expired {
                    Some(refused(Error::GraceNotExpired))
                } else if self.vault is None {
                    Some(refused(Error::NotInitialized))
                } else {
                    None
                },
            },
        }
    }

    /// The vault after what is owed on the loan was seized.
    pub open spec fn after_forfeit(self, vault: VaultState, env: Call, loan: Loan) -> Result<
        VaultState,
        Failure,
    > {
        if forfeited(loan) > 0 {
            vault.forfeit_collateral(
                env.invoke(self.vault->0),
                env.contract,
                loan.guarantor,
                forfeited(loan) as i128,
            )
        } else {
            Ok(vault)
        }
    }

    /// The vault after the rest was given back.
    pub open spec fn after_return(self, vault: VaultState, env: Call, loan: Loan) -> Result<
        VaultState,
        Failure,
    > {
        if returned(loan) > 0 {
            vault.release_collateral(
                env.invoke(self.vault->0),
                env.contract,
                loan.guarantor,
                returned(loan) as i128,
            )
        } else {
            Ok(vault)
        }
    }

    /// Settles a loan whose grace has expired: seizes what is owed, gives back
    /// the rest and closes the loan. The result is that of the invocation. With
    /// it comes the vault as the engine leaves it: where a later step fails, the
    /// steps before it have been taken, and the host discards them.
    pub open spec fn liquidate(
        self,
        ledger: LedgerState,
        vault: VaultState,
        env: Call,
        loan_id: u64,
    ) -> (VaultState, Result<(EngineState, LedgerState, i128), Failure>) {
        let loan = ledger.loans[loan_id];
        match self.liquidation_refusal(ledger, env, loan_id) {
            Some(e) => (vault, Err(e)),
            None => match self.after_forfeit(vault, env, loan) {
                Err(e) => (vault, Err(e)),
                Ok(seized) => match self.after_return(seized, env, loan) {
                    Err(e) => (seized, Err(e)),
                    Ok(settled) => (
                        settled,
                        match ledger.mark_defaulted(
                            env.invoke(self.loan_ledger->0),
                            env.contract,
                            loan_id,
                        ) {
                            Err(e) => Err(e),
                            Ok(closed) => Ok((self.used(env), closed, forfeited(loan) as i128)),
                        },
                    ),
                },
            },
        }
    }

    /// Takes whichever transition the loan is due for, and says whether it was
    /// due for one.
    pub open spec fn poke(
        self,
        ledger: LedgerState,
        vault: VaultState,
        env: Call,
        loan_id: u64,
    ) -> (VaultState, Result<(EngineState, LedgerState, bool), Failure>) {
        match self.loan_ledger {
            None => (vault, Err(refused(Error::NotInitialized))),
            Some(address) => {
                let call = env.invoke(address);
                match ledger.is_overdue(call, loan_id) {
                    Err(e) => (vault, Err(e)),
                    Ok(true) => (
                        vault,
                        match self.flag_overdue(ledger, env, loan_id) {
                            Err(e) => Err(e),
                            Ok((engine, marked)) => Ok((engine, marked, true)),
                        },
                    ),
                    Ok(false) => if ledger.is_grace_expired(call, loan_id) == Ok::<bool, Failure>(
                        true,
                    ) {
                        let (settled, result) = self.liquidate(ledger, vault, env, loan_id);
                        (
                            settled,
                            match result {
                                Err(e) => Err(e),
                                Ok((engine, closed, _)) => Ok((engine, closed, true)),
                            },
                        )
                    } else {
                        (vault, Ok((self.used(env), ledger, false)))
                    },
                }
            },
        }
    }
}

} // verus!
