use vstd::prelude::*;
use crate::address::{index_of, AccountPool};
use crate::dedup::SeenIds;
use crate::ledger::{settled, settlement_fits, Ledger, LedgerError};
use crate::request::{RandomTx, RandomTxView};

verus! {

/// Why a worker discarded a request. Every variant is recovered from locally:
/// the request is logged and dropped, and the worker goes on.
#[derive(Clone, Copy, Debug, PartialEq, Eq, Structural)]
pub enum Rejection {
    /// The amount is not positive.
    InvalidAmount,
    /// The identifier was already accepted.
    Duplicate,
    /// The sender or the receiver is not an account of the pool.
    UnknownParticipant,
    /// The settlement service refused the transfer.
    SettlementFailed,
}

/// A screened request, ready for the settlement service: the positions of
/// sender and receiver in the account pool.
#[derive(Clone, Copy, Debug, PartialEq, Eq, Structural)]
pub struct Submission {
    pub unique_id: u128,
    pub sender: usize,
    pub receiver: usize,
    pub amount: u64,
}

/// The outcome of screening `tx` against the pool and the identifiers seen so
/// far: checks run in order, the first that fails decides.
pub open spec fn screening(tx: RandomTxView, pool: Seq<Seq<u8>>, seen: Set<u128>) -> Result<
    Submission,
    Rejection,
> {
    if tx.amount == 0 {
        Err(Rejection::InvalidAmount)
    } else if seen.contains(tx.unique_id) {
        Err(Rejection::Duplicate)
    } else {
        match (index_of(pool, tx.sender), index_of(pool, tx.receiver)) {
            (Some(s), Some(r)) => Ok(
                Submission {
                    unique_id: tx.unique_id,
                    sender: s as usize,
                    receiver: r as usize,
                    amount: tx.amount,
                },
            ),
            _ => Err(Rejection::UnknownParticipant),
        }
    }
}

/// The identifiers seen after screening `tx`: a request with a positive
/// amount has its identifier recorded, whatever the later checks decide.
pub open spec fn seen_after(tx: RandomTxView, seen: Set<u128>) -> Set<u128> {
    if tx.amount == 0 {
        seen
    } else {
        seen.insert(tx.unique_id)
    }
}

/// Validates, deduplicates and resolves one request. The identifier is
/// checked and recorded in a single step of `seen`.
pub fn screen_request(tx: &RandomTx, pool: &AccountPool, seen: &mut SeenIds) -> (r: Result<
    Submission,
    Rejection,
>)
    ensures
        r == screening(tx@, pool@, old(seen)@),
        final(seen)@ == seen_after(tx@, old(seen)@),
{
    if tx.amount == 0 {
        return Err(Rejection::InvalidAmount);
    }
    if !seen.insert_if_absent(tx.unique_id) {
        return Err(Rejection::Duplicate);
    }
    let sender = pool.position(&tx.sender);
    let receiver = pool.position(&tx.receiver);
    match (sender, receiver) {
        (Some(s), Some(r)) => Ok(
            Submission { unique_id: tx.unique_id, sender: s, receiver: r, amount: tx.amount },
        ),
        _ => Err(Rejection::UnknownParticipant),
    }
}

/// What the settlement service answered to a submission.
#[derive(Clone, Copy, Debug, PartialEq, Eq, Structural)]
pub enum TransferOutcome {
    /// The transfer was refused (for instance, for insufficient funds).
    Refused,
    /// The transfer went through; the sender's trusted balance was queried
    /// afterwards.
    Settled { sender_balance: u64 },
}

/// How a worker finished one submitted request.
#[derive(Clone, Copy, Debug, PartialEq, Eq, Structural)]
pub enum Verdict {
    /// Discarded, with the reason; the success counter stays.
    Dropped(Rejection),
    /// Settled and recorded in the ledger: the success counter grows by one.
    Settled,
    /// Settled, but the ledger refused the update: the success counter still
    /// grows by one.
    SettledUnrecorded(LedgerError),
}

/// Concludes a submission once the settlement service has answered: a
/// refusal drops the request with the ledger untouched; a settlement records
/// the queried sender balance and the receiver's gain in the ledger.
pub fn conclude_transfer(ledger: &mut Ledger, sub: &Submission, outcome: TransferOutcome) -> (r:
    Verdict)
    requires
        old(ledger).wf(),
    ensures
        final(ledger).wf(),
        final(ledger).accounts() == old(ledger).accounts(),
        outcome is Refused ==> r == Verdict::Dropped(Rejection::SettlementFailed) && final(ledger)@
            == old(ledger)@,
        outcome matches TransferOutcome::Settled { sender_balance } ==> {
            let known = (sub.sender as nat) < old(ledger).accounts() && (sub.receiver as nat)
                < old(ledger).accounts();
            let ok = known && settlement_fits(old(ledger)@, *sub, sender_balance);
            &&& (r is Settled || r is SettledUnrecorded)
            &&& (r is Settled) == ok
            &&& r matches Verdict::SettledUnrecorded(e) ==> e == (if known {
                LedgerError::BalanceOverflow
            } else {
                LedgerError::UnknownAccount
            })
            &&& final(ledger)@ == (if ok {
                settled(old(ledger)@, *sub, sender_balance)
            } else {
                old(ledger)@
            })
        },
{
    match outcome {
        TransferOutcome::Refused => Verdict::Dropped(Rejection::SettlementFailed),
        TransferOutcome::Settled { sender_balance } => {
            match ledger.record_settlement(sub, sender_balance) {
                Ok(()) => Verdict::Settled,
                Err(e) => Verdict::SettledUnrecorded(e),
            }
        },
    }
}

/// A request whose amount is not positive is discarded before anything else
/// happens: it is never submitted and leaves the seen identifiers alone.
pub proof fn lemma_nonpositive_amount_never_submitted(
    tx: RandomTxView,
    pool: Seq<Seq<u8>>,
    seen: Set<u128>,
)
    requires
        tx.amount <= 0,
    ensures
        screening(tx, pool, seen) == Err::<Submission, Rejection>(Rejection::InvalidAmount),
        seen_after(tx, seen) == seen,
{
}

/// Every submission carries a positive amount.
pub proof fn lemma_submission_amount_positive(
    tx: RandomTxView,
    pool: Seq<Seq<u8>>,
    seen: Set<u128>,
)
    requires
        screening(tx, pool, seen) is Ok,
    ensures
        screening(tx, pool, seen)->Ok_0.amount > 0,
        screening(tx, pool, seen)->Ok_0.amount == tx.amount,
{
}

/// An identifier is submitted at most once: once a request has been let
/// through, every later request with the same identifier is rejected as a
/// duplicate, however many other requests were screened in between.
pub proof fn lemma_identifier_submitted_once(
    first: RandomTxView,
    between: Seq<RandomTxView>,
    later: RandomTxView,
    pool: Seq<Seq<u8>>,
    seen: Set<u128>,
)
    requires
        screening(first, pool, seen) is Ok,
        later.unique_id == first.unique_id,
        later.amount > 0,
    ensures
        screening(later, pool, seen_through(between, seen_after(first, seen))) == Err::<
            Submission,
            Rejection,
        >(Rejection::Duplicate),
{
    lemma_seen_through_grows(between, seen_after(first, seen));
}

/// The identifiers seen after screening each request of `txs` in turn.
pub open spec fn seen_through(txs: Seq<RandomTxView>, seen: Set<u128>) -> Set<u128>
    decreases txs.len(),
{
    if txs.len() == 0 {
        seen
    } else {
        seen_through(txs.drop_first(), seen_after(txs[0], seen))
    }
}

/// The seen identifiers never shrink.
pub proof fn lemma_seen_through_grows(txs: Seq<RandomTxView>, seen: Set<u128>)
    ensures
        seen.subset_of(seen_through(txs, seen)),
    decreases txs.len(),
{
    if txs.len() > 0 {
        lemma_seen_through_grows(txs.drop_first(), seen_after(txs[0], seen));
    }
}

} // verus!
