use dashmap::DashMap;
use vstd::prelude::*;
use crate::worker::Submission;

verus! {

#[verifier::external_type_specification]
#[verifier::external_body]
#[verifier::reject_recursive_types(K)]
#[verifier::reject_recursive_types(V)]
#[verifier::reject_recursive_types(S)]
pub struct ExDashMap<K, V, S>(DashMap<K, V, S>);

/// The entries held by a balance map, keyed by account position.
pub uninterp spec fn balances_of(m: DashMap<usize, u64>) -> Map<usize, u64>;

/// Relies on dashmap's `DashMap::new`: the map starts empty.
#[verifier::external_body]
fn empty_balance_map() -> (r: DashMap<usize, u64>)
    ensures
        balances_of(r).dom() == Set::<usize>::empty(),
{
    DashMap::new()
}

/// Relies on dashmap's `DashMap::insert`: the key now maps to the value, the
/// other entries stay, and the previous value, if any, is returned.
#[verifier::external_body]
fn store_balance(m: &mut DashMap<usize, u64>, key: usize, value: u64) -> (r: Option<u64>)
    ensures
        balances_of(*final(m)) == balances_of(*old(m)).insert(key, value),
        r == (if balances_of(*old(m)).contains_key(key) {
            Some(balances_of(*old(m))[key])
        } else {
            None
        }),
{
    m.insert(key, value)
}

/// Relies on dashmap's `DashMap::get`: the value stored under the key, if any.
#[verifier::external_body]
fn read_balance(m: &DashMap<usize, u64>, key: usize) -> (r: Option<u64>)
    ensures
        r == (if balances_of(*m).contains_key(key) {
            Some(balances_of(*m)[key])
        } else {
            None
        }),
{
    m.get(&key).map(|entry| *entry)
}

/// Why a ledger update was refused. The ledger is left as it was.
#[derive(Clone, Copy, Debug, PartialEq, Eq, Structural)]
pub enum LedgerError {
    /// A position is not an account of the ledger.
    UnknownAccount,
    /// The receiver's balance would not fit in 64 bits.
    BalanceOverflow,
}

/// Last known trusted balance of each account of the pool, keyed by the
/// account's position. A cache for bookkeeping: the settlement service stays
/// the source of truth.
pub struct Ledger {
    balances: DashMap<usize, u64>,
    accounts: usize,
}

impl View for Ledger {
    type V = Map<usize, u64>;

    closed spec fn view(&self) -> Map<usize, u64> {
        balances_of(self.balances)
    }
}

/// The ledger after a successful settlement of `sub`: the sender's entry is
/// overwritten by the freshly queried balance, then the receiver's entry is
/// raised by the amount.
pub open spec fn settled(m: Map<usize, u64>, sub: Submission, sender_balance: u64) -> Map<
    usize,
    u64,
> {
    let after_sender = m.insert(sub.sender, sender_balance);
    after_sender.insert(sub.receiver, (after_sender[sub.receiver] + sub.amount) as u64)
}

/// Whether the settlement of `sub` can be recorded in `m`.
pub open spec fn settlement_fits(m: Map<usize, u64>, sub: Submission, sender_balance: u64) -> bool {
    m.insert(sub.sender, sender_balance)[sub.receiver] + sub.amount <= u64::MAX
}

/// After a settlement the sender's entry is the queried balance, whatever the
/// ledger held for the sender before: no sender-side arithmetic accumulates.
/// A distinct receiver's entry grows by exactly the amount, and every other
/// entry is untouched.
pub proof fn lemma_settlement_overwrites_sender(
    m: Map<usize, u64>,
    sub: Submission,
    sender_balance: u64,
)
    requires
        sub.sender != sub.receiver,
        m.contains_key(sub.receiver),
        settlement_fits(m, sub, sender_balance),
    ensures
        settled(m, sub, sender_balance)[sub.sender] == sender_balance,
        settled(m, sub, sender_balance)[sub.receiver] == m[sub.receiver] + sub.amount,
        forall|k: usize|
            k != sub.sender && k != sub.receiver && m.contains_key(k) ==> #[trigger] settled(
                m,
                sub,
                sender_balance,
            )[k] == m[k],
        settled(m, sub, sender_balance).dom() == m.dom().insert(sub.sender),
{
    assert(settled(m, sub, sender_balance).dom() =~= m.dom().insert(sub.sender));
}

impl Ledger {
    /// The number of accounts the ledger covers.
    pub closed spec fn accounts(&self) -> nat {
        self.accounts as nat
    }

    /// Every position below the account count, and no other, has an entry.
    pub open spec fn wf(&self) -> bool {
        forall|i: usize| #[trigger] self@.contains_key(i) <==> (i as nat) < self.accounts()
    }

    /// A ledger seeded with the authoritative balances, one per account, in
    /// pool order.
    pub fn seed(initial: &Vec<u64>) -> (r: Ledger)
        ensures
            r.wf(),
            r.accounts() == initial@.len(),
            forall|i: usize| (i as int) < initial@.len() ==> #[trigger] r@[i] == initial@[i as int],
    {
        let mut balances = empty_balance_map();
        let n = initial.len();
        let mut i: usize = 0;
        while i < n
            invariant
                n == initial@.len(),
                i <= n,
                forall|k: usize| #[trigger]
                    balances_of(balances).contains_key(k) <==> k < i,
                forall|k: usize| k < i ==> #[trigger] balances_of(balances)[k] == initial@[k as int],
            decreases n - i,
        {
            store_balance(&mut balances, i, initial[i]);
            i = i + 1;
        }
        Ledger { balances, accounts: n }
    }

    pub fn accounts_len(&self) -> (r: usize)
        ensures
            r == self.accounts(),
    {
        self.accounts
    }

    /// The balance recorded for the account at `position`.
    pub fn balance_of(&self, position: usize) -> (r: Option<u64>)
        ensures
            r == (if self@.contains_key(position) {
                Some(self@[position])
            } else {
                None
            }),
            self.wf() ==> (r is Some <==> (position as nat) < self.accounts()),
    {
        let r = read_balance(&self.balances, position);
        assert(self.wf() ==> (self@.contains_key(position) <==> (position as nat)
            < self.accounts()));
        r
    }

    /// Records a successful settlement: the sender's entry becomes
    /// `sender_balance`, the balance just queried from the settlement service,
    /// and the receiver's entry grows by the amount.
    pub fn record_settlement(&mut self, sub: &Submission, sender_balance: u64) -> (r: Result<
        (),
        LedgerError,
    >)
        requires
            old(self).wf(),
        ensures
            final(self).wf(),
            final(self).accounts() == old(self).accounts(),
            r == (if !((sub.sender as nat) < old(self).accounts() && (sub.receiver as nat)
                < old(self).accounts()) {
                Err::<(), LedgerError>(LedgerError::UnknownAccount)
            } else if !settlement_fits(old(self)@, *sub, sender_balance) {
                Err(LedgerError::BalanceOverflow)
            } else {
                Ok(())
            }),
            r is Ok ==> final(self)@ == settled(old(self)@, *sub, sender_balance),
            r is Err ==> final(self)@ == old(self)@,
    {
        if sub.sender >= self.accounts || sub.receiver >= self.accounts {
            return Err(LedgerError::UnknownAccount);
        }
        let receiver_before = if sub.receiver == sub.sender {
            sender_balance
        } else {
            match read_balance(&self.balances, sub.receiver) {
                Some(v) => v,
                None => 0,
            }
        };
        if receiver_before > u64::MAX - sub.amount {
            return Err(LedgerError::BalanceOverflow);
        }
        store_balance(&mut self.balances, sub.sender, sender_balance);
        store_balance(&mut self.balances, sub.receiver, receiver_before + sub.amount);
        proof {
            assert(self@ =~= settled(old(self)@, *sub, sender_balance));
        }
        Ok(())
    }
}

} // verus!
