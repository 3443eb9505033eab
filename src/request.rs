use vstd::prelude::*;
use crate::address::Address;

verus! {

/// A synthesized instruction to move `amount` (in the smallest currency unit)
/// from `sender` to `receiver`, tagged with a unique identifier.
pub struct RandomTx {
    pub unique_id: u128,
    pub sender: Address,
    pub receiver: Address,
    pub amount: u64,
}

/// The mathematical value of a [`RandomTx`].
pub struct RandomTxView {
    pub unique_id: u128,
    pub sender: Seq<u8>,
    pub receiver: Seq<u8>,
    pub amount: u64,
}

impl View for RandomTx {
    type V = RandomTxView;

    open spec fn view(&self) -> RandomTxView {
        RandomTxView {
            unique_id: self.unique_id,
            sender: self.sender@,
            receiver: self.receiver@,
            amount: self.amount,
        }
    }
}

impl RandomTx {
    pub fn new(unique_id: u128, sender: Address, receiver: Address, amount: u64) -> (r: RandomTx)
        ensures
            r@ == (RandomTxView { unique_id, sender: sender@, receiver: receiver@, amount }),
    {
        RandomTx { unique_id, sender, receiver, amount }
    }
}

} // verus!
