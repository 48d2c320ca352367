# RemitCollateral

Crypto-collateralized lending for beneficiaries who never touch crypto. A
guarantor locks USDC; the loan is paid out and repaid in local currency; what
happens to the collateral is settled by three contracts, written in Rust and
verified with Verus.

| Module | What it does |
| --- | --- |
| `guarantor_vault` | Holds each guarantor's collateral and tracks how much of it is locked. |
| `loan_ledger` | Keeps the loans: opening, repayment, grace, default, and the collateral each step locks or releases. |
| `liquidation_engine` | Permissionless cranks that start the grace period and settle a defaulted loan. |
| `protocol` | What holds of the three contracts together. |
| `host` | What a contract sees of the ledger it runs on: addresses, signatures, time, entry lifetimes. |
| `table` | The keyed store that records are kept in. |

## How it is stated

Every contract is a plain value. Its `model` module gives the state that value
stands for and, for each call, a function from the state before to the state
after or to the failure. Every executable method is proved to do exactly what
its model says, on every input and every sound state. A call that the host would
abort, because a signature is missing or arithmetic overflows, returns a
`Failure` and leaves the contract as it was.

On top of the models, the `laws` modules prove what the protocol promises, among
others:

- every USDC a vault accounts for is backed by a token transfer, and one
  guarantor's records never move because of another's;
- locked collateral cannot be withdrawn, and nobody but the engine can seize it;
- a sensitive change to a vault waits out its timelock, and can be cancelled
  until then;
- only partners advance a repayment, splitting a repayment does not change what
  it releases, and a loan that is paid off has all of its collateral returned;
- a liquidation seizes no more than is owed and returns the rest;
- what the vault holds locked for a guarantor is what that guarantor's open
  loans have locked and not released.

## Layout

- `src/`: the verified library.
- `tests/`: scenarios, run against the library.
- `app/`: the contracts as they are deployed with the Soroban SDK: storage,
  signatures, token transfers and calls between contracts.
