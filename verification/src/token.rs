//! Models of the two value-moving external primitives the core relies on:
//! the native-currency balance ledger (`credit` / `debit`) and the
//! fungible-token primitive (`initialize_mint` / `mint_to` / `transfer`).
//! Each is a total function whose preconditions the callers check first, so
//! that a rejected transition mutates nothing.

use vstd::prelude::*;

verus! {

/// A native-currency balance held by one party.
#[derive(Clone, Copy, Debug, PartialEq, Eq, Structural)]
pub struct Wallet {
    pub balance: u64,
}

/// The token-primitive state of one asset identity: a zero-decimal mint
/// whose supply is fixed at one once the asset is issued.
#[derive(Clone, Copy, Debug, PartialEq, Eq, Structural)]
pub struct TokenMint {
    pub initialized: bool,
    pub decimals: u8,
    pub mint_authority: u64,
    pub supply: u64,
}

/// One party's custody slot for one asset identity.
#[derive(Clone, Copy, Debug, PartialEq, Eq, Structural)]
pub struct TokenAccount {
    pub mint: u64,
    pub owner: u64,
    pub amount: u64,
}

/// A mint slot that has never been used: not initialized and empty.
pub open spec fn mint_fresh(m: TokenMint) -> bool {
    !m.initialized && m.supply == 0
}

/// Balance-ledger primitive: credit `amount` to a balance.
pub fn credit(wallet: &mut Wallet, amount: u64)
    requires
        old(wallet).balance + amount <= u64::MAX,
    ensures
        final(wallet).balance == old(wallet).balance + amount,
{
    wallet.balance = wallet.balance + amount;
}

/// Balance-ledger primitive: debit `amount` from a balance. The caller
/// rules out underflow before calling, so the balance never goes negative.
pub fn debit(wallet: &mut Wallet, amount: u64)
    requires
        amount <= old(wallet).balance,
    ensures
        final(wallet).balance == old(wallet).balance - amount,
{
    wallet.balance = wallet.balance - amount;
}

/// Token primitive: initialize a fresh mint as zero-decimal with the given
/// mint authority and no supply.
pub fn initialize_mint(mint: &mut TokenMint, authority: u64)
    requires
        mint_fresh(*old(mint)),
    ensures
        *final(mint) == (TokenMint {
            initialized: true,
            decimals: 0,
            mint_authority: authority,
            supply: 0,
        }),
{
    mint.initialized = true;
    mint.decimals = 0;
    mint.mint_authority = authority;
    mint.supply = 0;
}

/// Token primitive: mint one unit into `destination`, authorized by the
/// mint authority.
pub fn mint_to(mint: &mut TokenMint, destination: &mut TokenAccount, authority: u64)
    requires
        old(mint).initialized,
        authority == old(mint).mint_authority,
        old(mint).supply + 1 <= u64::MAX,
        old(destination).amount + 1 <= u64::MAX,
    ensures
        *final(mint) == (TokenMint {
            initialized: old(mint).initialized,
            decimals: old(mint).decimals,
            mint_authority: old(mint).mint_authority,
            supply: (old(mint).supply + 1) as u64,
        }),
        *final(destination) == (TokenAccount {
            mint: old(destination).mint,
            owner: old(destination).owner,
            amount: (old(destination).amount + 1) as u64,
        }),
{
    mint.supply = mint.supply + 1;
    destination.amount = destination.amount + 1;
}

/// Token primitive: move one unit from `from` to `to`, authorized by the
/// owner of `from`. Both slots must belong to the same mint.
pub fn transfer(from: &mut TokenAccount, to: &mut TokenAccount, authorized_by: u64)
    requires
        authorized_by == old(from).owner,
        old(from).mint == old(to).mint,
        old(from).amount >= 1,
        old(to).amount + 1 <= u64::MAX,
    ensures
        *final(from) == (TokenAccount {
            mint: old(from).mint,
            owner: old(from).owner,
            amount: (old(from).amount - 1) as u64,
        }),
        *final(to) == (TokenAccount {
            mint: old(to).mint,
            owner: old(to).owner,
            amount: (old(to).amount + 1) as u64,
        }),
        final(from).amount + final(to).amount == old(from).amount + old(to).amount,
{
    from.amount = from.amount - 1;
    to.amount = to.amount + 1;
}

} // verus!
