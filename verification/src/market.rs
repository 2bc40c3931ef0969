//! The three marketplace operations: asset issuance (`mint_nft`), listing
//! (`list_nft`) and settlement (`buy_nft`). Each is one atomic transition:
//! every check runs before the first mutation, so a rejected transition
//! reports exactly one error kind and leaves every record unchanged.
//!
//! Two design choices are canonical here. Issuance binds one combined
//! descriptive record per asset (no separate edition record), and
//! settlement is three-party: the buyer pays the seller in full, then the
//! seller remits the fixed five-percent royalty cut to the creator. After a
//! successful sale the offer record is not deleted; it stays behind with
//! the buyer as recorded owner, which makes any replay of the old offer
//! fail its ownership check.

use vstd::prelude::*;
use crate::derivation::{derive_metadata_record_addr, metadata_addr_exists, metadata_record_addr};
use crate::error::MarketplaceError;
use crate::records::{record_wf, single_creator, CreatorShare, DescriptiveRecord};
use crate::registry::{reg_contains_addr, reg_wf, MetadataEntry, MetadataRegistry};
use crate::token::{
    credit, debit, initialize_mint, mint_fresh, mint_to, transfer, TokenAccount, TokenMint, Wallet,
};

verus! {

/// The sale-offer record for one asset: the recorded owner (the custody
/// record), the asset reference, and the advertised price. Created or
/// overwritten by listing; its owner moves to the buyer at settlement.
#[derive(Clone, Copy, Debug, PartialEq, Eq, Structural)]
pub struct NFTAccount {
    pub owner: u64,
    pub mint: u64,
    pub price: u64,
}

/// The accounts an issuance touches: the asset identity, its fresh mint
/// slot, the designated owner's custody slot, the descriptive-metadata
/// registry, and the three signing parties.
pub struct MintNFT {
    pub asset: u64,
    pub mint: TokenMint,
    pub owner_token: TokenAccount,
    pub registry: MetadataRegistry,
    pub mint_authority: u64,
    pub payer: u64,
    pub creator: u64,
}

/// The accounts a listing touches: the seller, the offer record to write,
/// the seller's custody slot, and the asset identity to list.
#[derive(Clone, Copy, Debug, PartialEq, Eq, Structural)]
pub struct ListNFT {
    pub seller: u64,
    pub nft_account: NFTAccount,
    pub seller_token: TokenAccount,
    pub mint: u64,
}

/// The accounts a settlement touches: the three parties, the offer record,
/// their native-currency balances, and the two custody slots.
#[derive(Clone, Copy, Debug, PartialEq, Eq, Structural)]
pub struct BuyNFT {
    pub buyer: u64,
    pub seller: u64,
    pub creator: u64,
    pub nft_account: NFTAccount,
    pub buyer_wallet: Wallet,
    pub seller_wallet: Wallet,
    pub creator_wallet: Wallet,
    pub seller_token_account: TokenAccount,
    pub buyer_token_account: TokenAccount,
}

// ------------------------------------------------------------------
// Issuance
// ------------------------------------------------------------------

/// Issuance is accepted exactly when the derived record address is still
/// free and the asset's mint slot has never been used.
pub open spec fn issue_ok(ctx: MintNFT, record_addr: Seq<u8>) -> bool {
    &&& !reg_contains_addr(ctx.registry.entries@, record_addr)
    &&& mint_fresh(ctx.mint)
}

/// The post-state of a successful issuance: the registry gains exactly one
/// entry binding the record to `record_addr`, the record carries the given
/// metadata with the single verified full-share creator, and exactly one
/// custody unit exists, held by the payer.
pub open spec fn issue_post(
    pre: MintNFT,
    post: MintNFT,
    record_addr: Seq<u8>,
    uri: Seq<char>,
    name: Seq<char>,
    symbol: Seq<char>,
    bps: u16,
) -> bool {
    &&& post.asset == pre.asset
    &&& post.mint_authority == pre.mint_authority
    &&& post.payer == pre.payer
    &&& post.creator == pre.creator
    &&& post.mint == (TokenMint {
        initialized: true,
        decimals: 0,
        mint_authority: pre.mint_authority,
        supply: 1,
    })
    &&& post.owner_token == (TokenAccount { mint: pre.asset, owner: pre.payer, amount: 1 })
    &&& post.registry.entries@.len() == pre.registry.entries@.len() + 1
    &&& (forall|i: int|
        0 <= i < pre.registry.entries@.len() ==> post.registry.entries@[i]
            == pre.registry.entries@[i])
    &&& post.registry.entries@.last().addr@ == record_addr
    &&& post.registry.entries@.last().asset == pre.asset
    &&& post.registry.entries@.last().record.uri@ == uri
    &&& post.registry.entries@.last().record.name@ == name
    &&& post.registry.entries@.last().record.symbol@ == symbol
    &&& post.registry.entries@.last().record.seller_fee_basis_points == bps
    &&& post.registry.entries@.last().record.creators@ =~= seq![
        (CreatorShare { address: pre.creator, verified: true, share: 100 }),
    ]
    &&& record_wf(post.registry.entries@.last().record)
}

/// Create the descriptive record at the already-derived address
/// `record_addr` and establish custody: one unit minted into the payer's
/// slot. Accepted exactly when the address is free and the mint slot fresh;
/// a rejected issuance reports `DuplicateAsset` and changes nothing.
pub fn issue_at_record_addr(
    ctx: &mut MintNFT,
    record_addr: Vec<u8>,
    uri: String,
    name: String,
    symbol: String,
    seller_fee_basis_points: u16,
) -> (r: Result<(), MarketplaceError>)
    requires
        seller_fee_basis_points <= 10000,
        old(ctx).owner_token.mint == old(ctx).asset,
        old(ctx).owner_token.owner == old(ctx).payer,
        old(ctx).owner_token.amount == 0,
    ensures
        r is Ok <==> issue_ok(*old(ctx), record_addr@),
        r is Ok ==> issue_post(
            *old(ctx),
            *final(ctx),
            record_addr@,
            uri@,
            name@,
            symbol@,
            seller_fee_basis_points,
        ),
        r is Err ==> *final(ctx) == *old(ctx) && r == Err::<(), MarketplaceError>(
            MarketplaceError::DuplicateAsset,
        ),
        reg_wf(old(ctx).registry.entries@) ==> reg_wf(final(ctx).registry.entries@),
{
    if ctx.mint.initialized || ctx.mint.supply > 0 {
        return Err(MarketplaceError::DuplicateAsset);
    }
    let record = DescriptiveRecord {
        name,
        symbol,
        uri,
        seller_fee_basis_points,
        creators: single_creator(ctx.creator),
    };
    let asset = ctx.asset;
    match ctx.registry.create(record_addr, asset, record) {
        Ok(()) => {}
        Err(e) => {
            return Err(e);
        }
    }
    let authority = ctx.mint_authority;
    initialize_mint(&mut ctx.mint, authority);
    mint_to(&mut ctx.mint, &mut ctx.owner_token, authority);
    Ok(())
}

/// Issue a new unique asset: derive the record address from the asset
/// identity, bind the descriptive record there, and mint the one custody
/// unit into the payer's slot — all or nothing.
///
/// Success is owed exactly when the derivation finds an address, the
/// derived address `metadata_record_addr(asset)` is still free, and the
/// mint slot is fresh. `DuplicateAsset` is reported exactly when the
/// identity was already used, `ExternalPrimitiveFailure` exactly in the
/// improbable event that the derivation routine finds no address, and a
/// rejected issuance changes nothing.
pub fn mint_nft(
    ctx: &mut MintNFT,
    uri: String,
    name: String,
    symbol: String,
    seller_fee_basis_points: u16,
) -> (r: Result<(), MarketplaceError>)
    requires
        seller_fee_basis_points <= 10000,
        old(ctx).owner_token.mint == old(ctx).asset,
        old(ctx).owner_token.owner == old(ctx).payer,
        old(ctx).owner_token.amount == 0,
    ensures
        r is Ok <==> issue_ok(*old(ctx), metadata_record_addr(old(ctx).asset))
            && metadata_addr_exists(old(ctx).asset),
        r is Ok ==> issue_post(
            *old(ctx),
            *final(ctx),
            metadata_record_addr(old(ctx).asset),
            uri@,
            name@,
            symbol@,
            seller_fee_basis_points,
        ),
        r is Err ==> *final(ctx) == *old(ctx),
        r == Err::<(), MarketplaceError>(MarketplaceError::ExternalPrimitiveFailure)
            <==> !metadata_addr_exists(old(ctx).asset),
        r == Err::<(), MarketplaceError>(MarketplaceError::DuplicateAsset)
            <==> metadata_addr_exists(old(ctx).asset) && !issue_ok(
            *old(ctx),
            metadata_record_addr(old(ctx).asset),
        ),
        reg_wf(old(ctx).registry.entries@) ==> reg_wf(final(ctx).registry.entries@),
{
    match derive_metadata_record_addr(ctx.asset) {
        Some(addr) => issue_at_record_addr(ctx, addr, uri, name, symbol, seller_fee_basis_points),
        None => Err(MarketplaceError::ExternalPrimitiveFailure),
    }
}

/// Law: once an asset identity's derived record address is occupied — as it
/// is after any successful issuance of that identity — a further issuance of
/// the same identity is not accepted, and by `mint_nft`'s contract it is
/// rejected with `DuplicateAsset`.
pub proof fn lemma_reissue_rejected(ctx: MintNFT)
    requires
        reg_contains_addr(ctx.registry.entries@, metadata_record_addr(ctx.asset)),
    ensures
        !issue_ok(ctx, metadata_record_addr(ctx.asset)),
{
}

/// Law: a successful issuance occupies the derived record address, so
/// issuing twice with the same asset identity fails the second time,
/// whatever fresh mint slot the second attempt brings.
pub proof fn lemma_issue_then_reissue(
    pre: MintNFT,
    post: MintNFT,
    retry: MintNFT,
    uri: Seq<char>,
    name: Seq<char>,
    symbol: Seq<char>,
    bps: u16,
)
    requires
        issue_post(pre, post, metadata_record_addr(pre.asset), uri, name, symbol, bps),
        retry.asset == pre.asset,
        retry.registry.entries@ == post.registry.entries@,
    ensures
        !issue_ok(retry, metadata_record_addr(retry.asset)),
{
    let entries = post.registry.entries@;
    assert(entries[entries.len() - 1].addr@ == metadata_record_addr(pre.asset));
    assert(reg_contains_addr(entries, metadata_record_addr(pre.asset)));
}

// ------------------------------------------------------------------
// Listing
// ------------------------------------------------------------------

/// Listing is accepted exactly when the seller's custody slot for the
/// listed asset holds the one circulating unit: the seller is the current
/// owner.
pub open spec fn list_ok(ctx: ListNFT) -> bool {
    &&& ctx.seller_token.owner == ctx.seller
    &&& ctx.seller_token.mint == ctx.mint
    &&& ctx.seller_token.amount == 1
}

/// The offer record a successful listing writes. It does not depend on the
/// offer that stood before: re-listing overwrites unconditionally.
pub open spec fn list_effect(prior: NFTAccount, seller: u64, mint: u64, price: u64) -> NFTAccount {
    NFTAccount { owner: seller, mint: mint, price: price }
}

/// Publish (or overwrite) the sale offer for the asset at the given price.
/// A zero price is accepted here and rejected only at settlement. A caller
/// who is not the current owner is rejected with `AuthorizationError` and
/// nothing is written.
pub fn list_nft(ctx: &mut ListNFT, price: u64) -> (r: Result<(), MarketplaceError>)
    ensures
        r is Ok <==> list_ok(*old(ctx)),
        r is Ok ==> *final(ctx) == (ListNFT {
            seller: old(ctx).seller,
            nft_account: list_effect(old(ctx).nft_account, old(ctx).seller, old(ctx).mint, price),
            seller_token: old(ctx).seller_token,
            mint: old(ctx).mint,
        }),
        r is Err ==> *final(ctx) == *old(ctx) && r == Err::<(), MarketplaceError>(
            MarketplaceError::AuthorizationError,
        ),
{
    if ctx.seller_token.owner != ctx.seller || ctx.seller_token.mint != ctx.mint
        || ctx.seller_token.amount != 1 {
        return Err(MarketplaceError::AuthorizationError);
    }
    ctx.nft_account.owner = ctx.seller;
    ctx.nft_account.price = price;
    ctx.nft_account.mint = ctx.mint;
    Ok(())
}

/// Law: `list` followed by re-`list` with a different price leaves exactly
/// the offer the second call wrote — last write wins, whatever stood before.
pub proof fn lemma_relist_last_write_wins(
    prior: NFTAccount,
    seller: u64,
    mint: u64,
    p1: u64,
    p2: u64,
)
    ensures
        list_effect(list_effect(prior, seller, mint, p1), seller, mint, p2) == list_effect(
            prior,
            seller,
            mint,
            p2,
        ),
        list_effect(list_effect(prior, seller, mint, p1), seller, mint, p2).price == p2,
{
}

// ------------------------------------------------------------------
// Settlement
// ------------------------------------------------------------------

/// The royalty claw-back: a fixed five percent of the sale price, floor
/// division.
pub open spec fn royalty_of(price: u64) -> int {
    (price * 5) / 100
}

/// Settlement is accepted exactly when: the offer price is positive; the
/// recorded owner matches the settling seller; both token accounts are the
/// parties' custody slots for the offered asset; the seller's slot holds
/// the circulating unit; and the buyer can pay.
pub open spec fn sale_ok(ctx: BuyNFT) -> bool {
    &&& ctx.nft_account.price > 0
    &&& ctx.nft_account.owner == ctx.seller
    &&& ctx.seller_token_account.owner == ctx.seller
    &&& ctx.buyer_token_account.owner == ctx.buyer
    &&& ctx.seller_token_account.mint == ctx.nft_account.mint
    &&& ctx.buyer_token_account.mint == ctx.nft_account.mint
    &&& ctx.seller_token_account.amount >= 1
    &&& ctx.buyer_wallet.balance >= ctx.nft_account.price
}

/// The error a rejected settlement reports: the first failing check, in
/// the order the engine tests them.
pub open spec fn sale_err(ctx: BuyNFT) -> MarketplaceError {
    if ctx.nft_account.price == 0 {
        MarketplaceError::InvalidPrice
    } else if ctx.nft_account.owner != ctx.seller {
        MarketplaceError::AuthorizationError
    } else if ctx.seller_token_account.owner != ctx.seller {
        MarketplaceError::AuthorizationError
    } else if ctx.buyer_token_account.owner != ctx.buyer {
        MarketplaceError::AuthorizationError
    } else if ctx.seller_token_account.mint != ctx.nft_account.mint {
        MarketplaceError::ExternalPrimitiveFailure
    } else if ctx.buyer_token_account.mint != ctx.nft_account.mint {
        MarketplaceError::ExternalPrimitiveFailure
    } else if ctx.seller_token_account.amount < 1 {
        MarketplaceError::ExternalPrimitiveFailure
    } else {
        MarketplaceError::InsufficientBalance
    }
}

/// The post-state of a successful settlement: the buyer paid the full
/// price to the seller, the seller remitted the royalty cut to the creator,
/// the one custody unit moved to the buyer's slot, and the offer record now
/// names the buyer as owner.
pub open spec fn sale_effect(ctx: BuyNFT) -> BuyNFT {
    let price = ctx.nft_account.price;
    let roy = royalty_of(price);
    BuyNFT {
        buyer: ctx.buyer,
        seller: ctx.seller,
        creator: ctx.creator,
        nft_account: NFTAccount { owner: ctx.buyer, mint: ctx.nft_account.mint, price: price },
        buyer_wallet: Wallet { balance: (ctx.buyer_wallet.balance - price) as u64 },
        seller_wallet: Wallet { balance: (ctx.seller_wallet.balance + price - roy) as u64 },
        creator_wallet: Wallet { balance: (ctx.creator_wallet.balance + roy) as u64 },
        seller_token_account: TokenAccount {
            mint: ctx.seller_token_account.mint,
            owner: ctx.seller_token_account.owner,
            amount: (ctx.seller_token_account.amount - 1) as u64,
        },
        buyer_token_account: TokenAccount {
            mint: ctx.buyer_token_account.mint,
            owner: ctx.buyer_token_account.owner,
            amount: (ctx.buyer_token_account.amount + 1) as u64,
        },
    }
}

/// Law: the royalty never exceeds the price it is clawed back from.
pub proof fn lemma_royalty_bounds(price: u64)
    ensures
        0 <= royalty_of(price) <= price,
{
    assert(0 <= (price * 5) / 100 <= price) by (nonlinear_arith);
}

/// floor(price * 5 / 100), computed without overflow.
pub fn compute_royalty(price: u64) -> (r: u64)
    ensures
        r == royalty_of(price),
        r <= price,
{
    proof {
        lemma_royalty_bounds(price);
    }
    (((price as u128) * 5) / 100) as u64
}

/// Settle the sale recorded in the offer: one indivisible unit of work that
/// moves the payment with its royalty split and the custody unit, then
/// names the buyer as the recorded owner. Every check runs before the
/// first mutation: a rejected settlement reports the first failing check's
/// error and leaves every balance and both custody slots unchanged.
///
/// The preconditions only rule out 64-bit balance overflow on the credited
/// accounts.
pub fn buy_nft(ctx: &mut BuyNFT) -> (r: Result<(), MarketplaceError>)
    requires
        old(ctx).seller_wallet.balance + old(ctx).nft_account.price <= u64::MAX,
        old(ctx).creator_wallet.balance + royalty_of(old(ctx).nft_account.price) <= u64::MAX,
        old(ctx).buyer_token_account.amount + 1 <= u64::MAX,
    ensures
        r is Ok <==> sale_ok(*old(ctx)),
        r is Ok ==> *final(ctx) == sale_effect(*old(ctx)),
        r is Err ==> *final(ctx) == *old(ctx) && r == Err::<(), MarketplaceError>(
            sale_err(*old(ctx)),
        ),
        old(ctx).nft_account.price == 0 ==> r == Err::<(), MarketplaceError>(
            MarketplaceError::InvalidPrice,
        ),
        r is Ok ==> final(ctx).buyer_wallet.balance + final(ctx).seller_wallet.balance
            + final(ctx).creator_wallet.balance == old(ctx).buyer_wallet.balance
            + old(ctx).seller_wallet.balance + old(ctx).creator_wallet.balance,
        r is Ok ==> final(ctx).seller_token_account.amount + final(ctx).buyer_token_account.amount
            == old(ctx).seller_token_account.amount + old(ctx).buyer_token_account.amount,
{
    if ctx.nft_account.price == 0 {
        return Err(MarketplaceError::InvalidPrice);
    }
    if ctx.nft_account.owner != ctx.seller {
        return Err(MarketplaceError::AuthorizationError);
    }
    if ctx.seller_token_account.owner != ctx.seller {
        return Err(MarketplaceError::AuthorizationError);
    }
    if ctx.buyer_token_account.owner != ctx.buyer {
        return Err(MarketplaceError::AuthorizationError);
    }
    if ctx.seller_token_account.mint != ctx.nft_account.mint {
        return Err(MarketplaceError::ExternalPrimitiveFailure);
    }
    if ctx.buyer_token_account.mint != ctx.nft_account.mint {
        return Err(MarketplaceError::ExternalPrimitiveFailure);
    }
    if ctx.seller_token_account.amount < 1 {
        return Err(MarketplaceError::ExternalPrimitiveFailure);
    }
    if ctx.buyer_wallet.balance < ctx.nft_account.price {
        return Err(MarketplaceError::InsufficientBalance);
    }
    let price = ctx.nft_account.price;
    // Gross payment: the buyer pays the seller in full.
    debit(&mut ctx.buyer_wallet, price);
    credit(&mut ctx.seller_wallet, price);
    // Royalty claw-back: the seller remits the fixed cut to the creator.
    let royalty = compute_royalty(price);
    debit(&mut ctx.seller_wallet, royalty);
    credit(&mut ctx.creator_wallet, royalty);
    // Move the one custody unit, authorized by the seller.
    let seller = ctx.seller;
    transfer(&mut ctx.seller_token_account, &mut ctx.buyer_token_account, seller);
    // Custody record: the buyer is the new recorded owner.
    ctx.nft_account.owner = ctx.buyer;
    Ok(())
}

/// Law: for every positive price, a settled sale moves exactly `price` out
/// of the buyer's balance, `price - floor(price*5/100)` into the seller's
/// and `floor(price*5/100)` into the creator's; the three deltas sum to
/// zero.
pub proof fn lemma_sale_deltas(ctx: BuyNFT)
    requires
        sale_ok(ctx),
        ctx.seller_wallet.balance + ctx.nft_account.price <= u64::MAX,
        ctx.creator_wallet.balance + royalty_of(ctx.nft_account.price) <= u64::MAX,
    ensures
        sale_effect(ctx).buyer_wallet.balance == ctx.buyer_wallet.balance
            - ctx.nft_account.price,
        sale_effect(ctx).seller_wallet.balance == ctx.seller_wallet.balance
            + ctx.nft_account.price - royalty_of(ctx.nft_account.price),
        sale_effect(ctx).creator_wallet.balance == ctx.creator_wallet.balance + royalty_of(
            ctx.nft_account.price,
        ),
        sale_effect(ctx).buyer_wallet.balance + sale_effect(ctx).seller_wallet.balance
            + sale_effect(ctx).creator_wallet.balance == ctx.buyer_wallet.balance
            + ctx.seller_wallet.balance + ctx.creator_wallet.balance,
{
    lemma_royalty_bounds(ctx.nft_account.price);
}

/// Law: custody is fully transferred and never duplicated. When the seller's
/// slot holds the one circulating unit and the buyer's is empty, a settled
/// sale leaves the unit in the buyer's slot alone.
pub proof fn lemma_custody_fully_transferred(ctx: BuyNFT)
    requires
        sale_ok(ctx),
        ctx.seller_token_account.amount == 1,
        ctx.buyer_token_account.amount == 0,
    ensures
        sale_effect(ctx).seller_token_account.amount == 0,
        sale_effect(ctx).buyer_token_account.amount == 1,
{
}

/// Law: a settled offer cannot be settled again. After a successful sale
/// the recorded owner is the buyer, so a second attempt naming the same
/// seller fails its ownership check with `AuthorizationError`, and by
/// `buy_nft`'s contract the buyer is not charged again. A self-sale
/// (`buyer == seller`) is the one input this law leaves out.
pub proof fn lemma_settled_offer_rejected(ctx: BuyNFT)
    requires
        sale_ok(ctx),
        ctx.buyer != ctx.seller,
    ensures
        !sale_ok(sale_effect(ctx)),
        sale_err(sale_effect(ctx)) == MarketplaceError::AuthorizationError,
{
}

} // verus!
