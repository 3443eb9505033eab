use vstd::prelude::*;

verus! {

/// Blocks mined to one account so that it holds a spendable balance of
/// `balance_in_btc` whole coins: coinbase outputs mature after a hundred
/// blocks, and each block pays fifty.
pub fn blocks_needed_for_balance(balance_in_btc: u32) -> (r: u32)
    ensures
        r == 100 + balance_in_btc / 50 + 1,
{
    100 + balance_in_btc / 50 + 1
}

} // verus!
