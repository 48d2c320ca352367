//! What a contract sees of the ledger it runs on.
//!
//! A contract never talks to the ledger directly: it is handed an [`Env`] that
//! says which contract is running, when, and on whose authority, and it answers
//! with a new state or a [`Failure`]. A failed invocation is discarded by the
//! host together with everything it had done up to that point.
use crate::guarantor_vault;
use crate::liquidation_engine;
use crate::loan_ledger;
use crate::table::Key;
use vstd::prelude::*;

verus! {

/// Ledgers per day at a 5-second ledger close time.
pub const DAY_IN_LEDGERS: u32 = 17_280;

/// How far ahead, in ledgers, an entry in use is extended: about 120 days.
pub const EXTEND_TO: u32 = 2_073_600;

/// An entry is extended once it has this many ledgers, about 90 days, or fewer left.
pub const THRESHOLD: u32 = 1_555_200;

/// The text form of an account or contract address: a letter that tells the two
/// apart, the 32-byte identifier and a checksum, in base 32.
#[derive(Clone, Copy, Debug, PartialEq, Eq)]
pub struct Address {
    pub strkey: [u8; 56],
}

/// A fixed number of raw bytes: a beneficiary's handle, or the hash of contract code.
#[derive(Clone, Copy, Debug, PartialEq, Eq)]
pub struct BytesN<const N: usize> {
    pub bytes: [u8; N],
}

/// Whether two byte arrays are equal.
fn same_bytes<const N: usize>(a: &[u8; N], b: &[u8; N]) -> (r: bool)
    ensures
        r == (*a == *b),
{
    let mut i: usize = 0;
    while i < N
        invariant
            i <= N,
            forall|j: int| 0 <= j < i ==> a@[j] == b@[j],
        decreases N - i,
    {
        if a[i] != b[i] {
            return false;
        }
        i += 1;
    }
    assert(a@ =~= b@);
    assert(*a =~= *b);
    true
}

impl Key for Address {
    fn same(&self, other: &Self) -> (r: bool) {
        same_bytes(&self.strkey, &other.strkey)
    }
}

impl<const N: usize> Key for BytesN<N> {
    fn same(&self, other: &Self) -> (r: bool) {
        same_bytes(&self.bytes, &other.bytes)
    }
}

/// Why an invocation failed.
#[derive(Clone, Copy, Debug, PartialEq, Eq, Structural)]
pub enum Failure {
    /// An address whose authorization is needed has not authorized the invocation.
    Auth,
    /// The invocation was aborted: a number left the range of its type.
    Trap,
    /// The vault refused.
    Vault(guarantor_vault::Error),
    /// The loan ledger refused.
    Ledger(loan_ledger::Error),
    /// The liquidation engine refused.
    Engine(liquidation_engine::Error),
}

/// A movement of tokens that a contract has ordered. The host carries it out in
/// the same transaction, and discards the whole transaction if it cannot.
#[derive(Clone, Copy, Debug, PartialEq, Eq)]
pub struct Transfer {
    pub token: Address,
    pub from: Address,
    pub to: Address,
    pub amount: i128,
}

/// The invocation a contract is running in.
#[derive(Debug)]
pub struct Env {
    /// The contract that is running.
    pub contract: Address,
    /// The ledger's closing time, in seconds.
    pub timestamp: u64,
    /// The ledger's number.
    pub sequence: u32,
    /// Who has authorized this invocation.
    pub auths: Vec<Address>,
}

/// The mathematical content of an [`Env`].
#[verifier::ext_equal]
pub struct Call {
    pub contract: Address,
    pub timestamp: u64,
    pub sequence: u32,
    pub auths: Set<Address>,
}

impl Call {
    /// The invocation that the running contract makes of `callee`: on the same
    /// ledger, and on the running contract's own authority.
    pub open spec fn invoke(self, callee: Address) -> Call {
        Call { contract: callee, auths: Set::empty().insert(self.contract), ..self }
    }
}

impl View for Env {
    type V = Call;

    open spec fn view(&self) -> Call {
        Call {
            contract: self.contract,
            timestamp: self.timestamp,
            sequence: self.sequence,
            auths: self.auths@.to_set(),
        }
    }
}

impl Env {
    /// Fails unless `address` has authorized the invocation.
    pub fn require_auth(&self, address: Address) -> (r: Result<(), Failure>)
        ensures
            self@.auths.contains(address) ==> r == Ok::<(), Failure>(()),
            !self@.auths.contains(address) ==> r == Err::<(), Failure>(Failure::Auth),
            r is Ok <==> self.auths@.contains(address),
    {
        let mut i: usize = 0;
        while i < self.auths.len()
            invariant
                i <= self.auths.len(),
                forall|j: int| 0 <= j < i ==> self.auths@[j] != address,
            decreases self.auths.len() - i,
        {
            if self.auths[i].same(&address) {
                return Ok(());
            }
            i += 1;
        }
        Err(Failure::Auth)
    }

    /// The invocation that the running contract makes of `callee`.
    pub fn invoke(&self, callee: Address) -> (r: Env)
        ensures
            r@ == self@.invoke(callee),
            r.contract == callee,
            r.timestamp == self.timestamp,
            r.sequence == self.sequence,
            r.auths@ =~= seq![self.contract],
    {
        let mut auths: Vec<Address> = Vec::new();
        auths.push(self.contract);
        assert(auths@.to_set() =~= Set::empty().insert(self.contract)) by {
            assert(auths@[0] == self.contract);
        }
        Env { contract: callee, timestamp: self.timestamp, sequence: self.sequence, auths }
    }
}

/// The last ledger an entry lives through after a use at ledger `sequence`: a
/// full window from there if little of its life was left, else as before.
pub open spec fn renewed(live_until: u64, sequence: u32) -> u64 {
    if live_until - sequence <= THRESHOLD {
        (sequence + EXTEND_TO) as u64
    } else {
        live_until
    }
}

/// Extends the life of an entry that is used at ledger `sequence`.
pub fn renew(live_until: u64, sequence: u32) -> (r: u64)
    ensures
        r == renewed(live_until, sequence),
{
    let now: u64 = sequence as u64;
    if live_until <= now || live_until - now <= THRESHOLD as u64 {
        now + EXTEND_TO as u64
    } else {
        live_until
    }
}

/// A ledger closes every five seconds; an entry in use is extended to a hundred and
/// twenty days once it has ninety or fewer left.
pub proof fn law_lifetimes_are_in_days()
    ensures
        DAY_IN_LEDGERS * 5 == 24 * 60 * 60,
        EXTEND_TO == 120 * DAY_IN_LEDGERS,
        THRESHOLD == 90 * DAY_IN_LEDGERS,
{
}

/// An invocation is what its fields say it is: the contract that runs, the time,
/// the ledger, and those who are listed as having authorized it and nobody else.
pub proof fn law_invocation_is_as_given(env: Env, a: Address)
    ensures
        env@.contract == env.contract,
        env@.timestamp == env.timestamp,
        env@.sequence == env.sequence,
        env@.auths.contains(a) <==> env.auths@.contains(a),
{
}

/// A contract calls another at the same moment, and with no authority but its own:
/// who authorized the invocation it runs in does not carry over.
pub proof fn law_calls_carry_own_authority(env: Call, callee: Address, a: Address)
    ensures
        env.invoke(callee).contract == callee,
        env.invoke(callee).timestamp == env.timestamp,
        env.invoke(callee).sequence == env.sequence,
        env.invoke(callee).auths.contains(a) <==> a == env.contract,
{
}

/// A step that succeeds leaves its new state, and one that fails leaves the state
/// it found; which of the two it was, and why, is what the call returns.
pub proof fn law_failure_changes_nothing<S>(
    pre: S,
    post: S,
    r: Result<(), Failure>,
    step: Result<S, Failure>,
)
    requires
        settles(pre, post, r, step),
    ensures
        r is Ok <==> step is Ok,
        r is Ok ==> post == step->Ok_0,
        r is Err ==> post == pre && r->Err_0 == step->Err_0,
{
}

/// A use never shortens a life, and leaves more than the threshold of it. A life
/// that has more than that left is not touched.
pub proof fn law_use_extends_life(live_until: u64, sequence: u32)
    ensures
        renewed(live_until, sequence) >= live_until,
        renewed(live_until, sequence) - sequence > THRESHOLD,
        live_until - sequence <= THRESHOLD ==> renewed(live_until, sequence) - sequence
            == EXTEND_TO,
        live_until - sequence > THRESHOLD ==> renewed(live_until, sequence) == live_until,
{
}

/// The call failed for this reason.
pub open spec fn fails<T>(r: Result<T, Failure>, e: Failure) -> bool {
    r == Err::<T, Failure>(e)
}

/// `post` and `r` are what the step prescribes: the new state on success, and
/// on failure its reason, with nothing changed.
pub open spec fn settles<S>(
    pre: S,
    post: S,
    r: Result<(), Failure>,
    step: Result<S, Failure>,
) -> bool {
    match step {
        Ok(s) => r == Ok::<(), Failure>(()) && post == s,
        Err(e) => r == Err::<(), Failure>(e) && post == pre,
    }
}

} // verus!
