use rand::Rng;
use vstd::prelude::*;
use crate::address::AccountPool;
use crate::request::{RandomTx, RandomTxView};

verus! {

/// Smallest amount a synthesized request carries.
pub const MIN_AMOUNT: u64 = 1;

/// Every synthesized amount lies below this bound.
pub const AMOUNT_LIMIT: u64 = 1_000_000_000;

/// Lower end of the per-process jitter factor, in thousandths.
pub const JITTER_MIN_PERMILLE: u64 = 900;

/// The per-process jitter factor lies below this bound, in thousandths.
pub const JITTER_LIMIT_PERMILLE: u64 = 1100;

/// Relies on rand's `Rng::random_range` over the thread-local generator: a
/// value in `low..high`, which the range's bounds guarantee (it panics only on
/// an empty range).
#[verifier::external_body]
fn draw_in_range(low: u64, high: u64) -> (r: u64)
    requires
        low < high,
    ensures
        low <= r < high,
{
    rand::rng().random_range(low..high)
}

/// Relies on rand's `seq::index::sample` over the thread-local generator: two
/// distinct positions below `length` (it panics only when asked for more
/// samples than `length`).
#[verifier::external_body]
fn draw_two_distinct(length: usize) -> (r: (usize, usize))
    requires
        2 <= length,
    ensures
        r.0 < length,
        r.1 < length,
        r.0 != r.1,
{
    let picked = rand::seq::index::sample(&mut rand::rng(), length, 2);
    (picked.index(0), picked.index(1))
}

/// Relies on uuid's `Uuid::new_v4` and `Uuid::as_u128`: a fresh random
/// identifier, of which nothing else is promised.
#[verifier::external_body]
fn fresh_id() -> (r: u128) {
    uuid::Uuid::new_v4().as_u128()
}

/// The request that moves `amount` from the account at position `sender` to
/// the one at position `receiver`, tagged `unique_id`.
pub fn build_transaction(
    pool: &AccountPool,
    sender: usize,
    receiver: usize,
    amount: u64,
    unique_id: u128,
) -> (r: RandomTx)
    requires
        sender < pool@.len(),
        receiver < pool@.len(),
    ensures
        r@ == (RandomTxView {
            unique_id,
            sender: pool@[sender as int],
            receiver: pool@[receiver as int],
            amount,
        }),
{
    RandomTx::new(
        unique_id,
        pool.addresses[sender].duplicate(),
        pool.addresses[receiver].duplicate(),
        amount,
    )
}

/// Synthesizes one transfer between two distinct accounts of the pool, picked
/// at random, with a random amount in `MIN_AMOUNT..AMOUNT_LIMIT` and a fresh
/// identifier.
pub fn generate_random_simulated_transaction(pool: &AccountPool) -> (r: RandomTx)
    requires
        pool@.len() >= 2,
    ensures
        exists|i: int, j: int|
            0 <= i < pool@.len() && 0 <= j < pool@.len() && i != j && r.sender@ == pool@[i]
                && r.receiver@ == pool@[j],
        MIN_AMOUNT <= r.amount < AMOUNT_LIMIT,
{
    let (sender, receiver) = draw_two_distinct(pool.len());
    let amount = draw_in_range(MIN_AMOUNT, AMOUNT_LIMIT);
    let r = build_transaction(pool, sender, receiver, amount, fresh_id());
    assert(r.sender@ == pool@[sender as int] && r.receiver@ == pool@[receiver as int]);
    r
}

/// The pause between two publications: `base_ms` scaled by `permille`
/// thousandths, rounded down, and capped at the largest `u64`.
pub open spec fn jittered(base_ms: u64, permille: u64) -> u64 {
    let scaled = base_ms as int * permille as int / 1000;
    if scaled > u64::MAX {
        u64::MAX
    } else {
        scaled as u64
    }
}

pub fn jittered_delay_ms(base_ms: u64, permille: u64) -> (r: u64)
    ensures
        r == jittered(base_ms, permille),
{
    let b = base_ms as u128;
    let p = permille as u128;
    assert(b * p <= 0xffff_ffff_ffff_ffffu128 * 0xffff_ffff_ffff_ffffu128) by (nonlinear_arith)
        requires
            b <= 0xffff_ffff_ffff_ffffu128,
            p <= 0xffff_ffff_ffff_ffffu128,
    ;
    let scaled: u128 = b * p / 1000;
    if scaled > u64::MAX as u128 {
        u64::MAX
    } else {
        scaled as u64
    }
}

/// Draws the jitter factor, once per process, from a band of ten percent on
/// either side of one.
pub fn draw_jitter_permille() -> (r: u64)
    ensures
        JITTER_MIN_PERMILLE <= r < JITTER_LIMIT_PERMILLE,
{
    draw_in_range(JITTER_MIN_PERMILLE, JITTER_LIMIT_PERMILLE)
}

/// Decides how many requests the producer publishes: all of them when `cap`
/// is zero, else exactly `cap`.
pub struct Generator {
    pub cap: u64,
    pub emitted: u64,
}

impl Generator {
    pub open spec fn may_emit(&self) -> bool {
        self.cap == 0 || self.emitted < self.cap
    }

    pub fn new(cap: u64) -> (r: Generator)
        ensures
            r.cap == cap,
            r.emitted == 0,
    {
        Generator { cap, emitted: 0 }
    }

    /// Whether one more request is to be published; a capped generator counts
    /// it. Once it answers `false` the producer releases the queue.
    pub fn try_emit(&mut self) -> (r: bool)
        ensures
            r == old(self).may_emit(),
            *final(self) == emit_step(*old(self)),
    {
        if self.cap == 0 {
            true
        } else if self.emitted < self.cap {
            self.emitted = self.emitted + 1;
            true
        } else {
            false
        }
    }
}

/// The generator after one call of [`Generator::try_emit`].
pub open spec fn emit_step(g: Generator) -> Generator {
    if g.cap != 0 && g.may_emit() {
        Generator { cap: g.cap, emitted: (g.emitted + 1) as u64 }
    } else {
        g
    }
}

/// How many of `n` successive calls of [`Generator::try_emit`] answer `true`.
pub open spec fn granted(g: Generator, n: nat) -> nat
    decreases n,
{
    if n == 0 {
        0
    } else {
        (if g.may_emit() {
            1nat
        } else {
            0nat
        }) + granted(emit_step(g), (n - 1) as nat)
    }
}

/// A capped generator publishes exactly its cap: of any `n` successive
/// decisions from a fresh start, `min(n, cap)` let a request through, and
/// every decision after the first `cap` refuses.
pub proof fn lemma_capped_generator_emits_cap(cap: u64, n: nat)
    requires
        cap > 0,
    ensures
        granted(Generator { cap, emitted: 0 }, n) == (if n < cap {
            n
        } else {
            cap as nat
        }),
{
    lemma_granted_from(Generator { cap, emitted: 0 }, n);
}

proof fn lemma_granted_from(g: Generator, n: nat)
    requires
        g.cap > 0,
        g.emitted <= g.cap,
    ensures
        granted(g, n) == (if n < g.cap - g.emitted {
            n
        } else {
            (g.cap - g.emitted) as nat
        }),
    decreases n,
{
    if n > 0 {
        lemma_granted_from(emit_step(g), (n - 1) as nat);
    }
}

} // verus!
