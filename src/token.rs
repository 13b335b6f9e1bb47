//! Token accounts, held as plain values, and the transfer rule between them.
use vstd::prelude::*;

use crate::address::Address;

verus! {

/// A token holding account: its address, the mint of its tokens, the identity
/// that may move them out, and its balance.
#[derive(Clone, Copy, Debug)]
pub struct TokenAccount {
    pub address: Address,
    pub mint: Address,
    pub owner: Address,
    pub amount: u64,
}

/// A transfer goes through when the authority owns the source, both accounts hold
/// the same mint, they are two accounts, the source covers the amount and the
/// destination's balance stays within `u64`.
pub open spec fn transfer_allowed(
    from: TokenAccount,
    to: TokenAccount,
    authority: Seq<u8>,
    amount: u64,
) -> bool {
    &&& from.owner@ == authority
    &&& from.mint@ == to.mint@
    &&& from.address@ != to.address@
    &&& amount <= from.amount
    &&& to.amount + amount <= u64::MAX
}

/// `acct` with its balance replaced.
pub open spec fn with_amount(acct: TokenAccount, amount: u64) -> TokenAccount {
    TokenAccount { amount, ..acct }
}

/// Moves `amount` tokens from `from` to `to` on the authority's behalf. Returns
/// whether it did; when it did not, neither account changed.
pub fn transfer(from: &mut TokenAccount, to: &mut TokenAccount, authority: &Address, amount: u64) -> (r:
    bool)
    ensures
        r == transfer_allowed(*old(from), *old(to), authority@, amount),
        r ==> *final(from) == with_amount(*old(from), (old(from).amount - amount) as u64),
        r ==> *final(to) == with_amount(*old(to), (old(to).amount + amount) as u64),
        !r ==> *final(from) == *old(from) && *final(to) == *old(to),
{
    if !from.owner.same(authority) || !from.mint.same(&to.mint) || from.address.same(&to.address)
        || amount > from.amount || to.amount > u64::MAX - amount {
        return false;
    }
    from.amount = from.amount - amount;
    to.amount = to.amount + amount;
    true
}

} // verus!
