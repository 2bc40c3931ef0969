use solana_nft_marketplace::error::MarketplaceError;
use solana_nft_marketplace::market::{buy_nft, list_nft, mint_nft, BuyNFT, ListNFT, MintNFT, NFTAccount};
use solana_nft_marketplace::records::CreatorShare;
use solana_nft_marketplace::registry::MetadataRegistry;
use solana_nft_marketplace::token::{TokenAccount, TokenMint, Wallet};

const SELLER: u64 = 1;
const BUYER: u64 = 2;
const CREATOR: u64 = 3;
const AUTHORITY: u64 = 4;
const ASSET: u64 = 9;

fn fresh_mint_ctx(registry: MetadataRegistry, asset: u64) -> MintNFT {
    MintNFT {
        asset,
        mint: TokenMint { initialized: false, decimals: 0, mint_authority: 0, supply: 0 },
        owner_token: TokenAccount { mint: asset, owner: SELLER, amount: 0 },
        registry,
        mint_authority: AUTHORITY,
        payer: SELLER,
        creator: CREATOR,
    }
}

fn issue(registry: MetadataRegistry, asset: u64) -> MintNFT {
    let mut ctx = fresh_mint_ctx(registry, asset);
    let r = mint_nft(
        &mut ctx,
        String::from("https://example.test/a.json"),
        String::from("Asset A"),
        String::from("AAA"),
        500,
    );
    assert_eq!(r, Ok(()));
    ctx
}

fn sale_ctx(price: u64, buyer_funds: u64) -> BuyNFT {
    BuyNFT {
        buyer: BUYER,
        seller: SELLER,
        creator: CREATOR,
        nft_account: NFTAccount { owner: SELLER, mint: ASSET, price },
        buyer_wallet: Wallet { balance: buyer_funds },
        seller_wallet: Wallet { balance: 0 },
        creator_wallet: Wallet { balance: 0 },
        seller_token_account: TokenAccount { mint: ASSET, owner: SELLER, amount: 1 },
        buyer_token_account: TokenAccount { mint: ASSET, owner: BUYER, amount: 0 },
    }
}

#[test]
fn issue_establishes_record_and_custody() {
    let ctx = issue(MetadataRegistry::new(), ASSET);
    assert!(ctx.mint.initialized);
    assert_eq!(ctx.mint.decimals, 0);
    assert_eq!(ctx.mint.supply, 1);
    assert_eq!(ctx.mint.mint_authority, AUTHORITY);
    assert_eq!(ctx.owner_token.amount, 1);
    assert_eq!(ctx.owner_token.owner, SELLER);
    assert_eq!(ctx.registry.entries.len(), 1);
    let entry = &ctx.registry.entries[0];
    assert_eq!(entry.asset, ASSET);
    assert_eq!(entry.record.name, "Asset A");
    assert_eq!(entry.record.symbol, "AAA");
    assert_eq!(entry.record.uri, "https://example.test/a.json");
    assert_eq!(entry.record.seller_fee_basis_points, 500);
    assert_eq!(
        entry.record.creators,
        vec![CreatorShare { address: CREATOR, verified: true, share: 100 }]
    );
}

#[test]
fn issue_twice_same_asset_fails() {
    let ctx = issue(MetadataRegistry::new(), ASSET);
    // A second issuance of the same identity, even with fresh mint and
    // custody slots, collides on the derived record address.
    let mut retry = fresh_mint_ctx(ctx.registry, ASSET);
    let r = mint_nft(
        &mut retry,
        String::from("https://example.test/other.json"),
        String::from("Other"),
        String::from("OTH"),
        0,
    );
    assert_eq!(r, Err(MarketplaceError::DuplicateAsset));
    assert_eq!(retry.registry.entries.len(), 1);
    assert!(!retry.mint.initialized);
    assert_eq!(retry.owner_token.amount, 0);
}

#[test]
fn issue_used_mint_slot_fails() {
    let mut ctx = fresh_mint_ctx(MetadataRegistry::new(), ASSET);
    ctx.mint.initialized = true;
    let r = mint_nft(
        &mut ctx,
        String::from("u"),
        String::from("n"),
        String::from("s"),
        0,
    );
    assert_eq!(r, Err(MarketplaceError::DuplicateAsset));
    assert_eq!(ctx.registry.entries.len(), 0);
}

#[test]
fn record_address_is_deterministic() {
    // Two issuances of the same identity against independent registries
    // derive the same record address; a different identity derives another.
    let a1 = issue(MetadataRegistry::new(), ASSET);
    let a2 = issue(MetadataRegistry::new(), ASSET);
    let b = issue(MetadataRegistry::new(), ASSET + 1);
    assert_eq!(a1.registry.entries[0].addr, a2.registry.entries[0].addr);
    assert_ne!(a1.registry.entries[0].addr, b.registry.entries[0].addr);
    // The derived address is a 32-byte program address, not the identity's
    // own 8 seed bytes.
    assert_eq!(a1.registry.entries[0].addr.len(), 32);
}

#[test]
fn relist_overwrites_price() {
    let mut ctx = ListNFT {
        seller: SELLER,
        nft_account: NFTAccount { owner: 0, mint: 0, price: 0 },
        seller_token: TokenAccount { mint: ASSET, owner: SELLER, amount: 1 },
        mint: ASSET,
    };
    assert_eq!(list_nft(&mut ctx, 500), Ok(()));
    assert_eq!(ctx.nft_account, NFTAccount { owner: SELLER, mint: ASSET, price: 500 });
    assert_eq!(list_nft(&mut ctx, 900), Ok(()));
    assert_eq!(ctx.nft_account, NFTAccount { owner: SELLER, mint: ASSET, price: 900 });
}

#[test]
fn list_by_non_owner_fails() {
    let mut ctx = ListNFT {
        seller: BUYER,
        nft_account: NFTAccount { owner: SELLER, mint: ASSET, price: 700 },
        seller_token: TokenAccount { mint: ASSET, owner: SELLER, amount: 1 },
        mint: ASSET,
    };
    assert_eq!(list_nft(&mut ctx, 100), Err(MarketplaceError::AuthorizationError));
    assert_eq!(ctx.nft_account, NFTAccount { owner: SELLER, mint: ASSET, price: 700 });
}

#[test]
fn list_without_custody_fails() {
    let mut ctx = ListNFT {
        seller: SELLER,
        nft_account: NFTAccount { owner: 0, mint: 0, price: 0 },
        seller_token: TokenAccount { mint: ASSET, owner: SELLER, amount: 0 },
        mint: ASSET,
    };
    assert_eq!(list_nft(&mut ctx, 100), Err(MarketplaceError::AuthorizationError));
}

#[test]
fn sale_moves_payment_royalty_and_custody() {
    // Issue asset A (royalty 500 bps), list at 1000 by S, buy by B:
    // B -1000, S +950, C +50, custody moves to B.
    let mut ctx = sale_ctx(1000, 1000);
    assert_eq!(buy_nft(&mut ctx), Ok(()));
    assert_eq!(ctx.buyer_wallet.balance, 0);
    assert_eq!(ctx.seller_wallet.balance, 950);
    assert_eq!(ctx.creator_wallet.balance, 50);
    assert_eq!(ctx.seller_token_account.amount, 0);
    assert_eq!(ctx.buyer_token_account.amount, 1);
    assert_eq!(ctx.nft_account.owner, BUYER);
    assert_eq!(ctx.nft_account.price, 1000);
}

#[test]
fn sale_deltas_sum_to_zero() {
    let mut ctx = sale_ctx(777, 2000);
    assert_eq!(buy_nft(&mut ctx), Ok(()));
    // royalty = floor(777 * 5 / 100) = 38
    assert_eq!(ctx.buyer_wallet.balance, 2000 - 777);
    assert_eq!(ctx.seller_wallet.balance, 777 - 38);
    assert_eq!(ctx.creator_wallet.balance, 38);
    let before: u64 = 2000;
    let after = ctx.buyer_wallet.balance + ctx.seller_wallet.balance + ctx.creator_wallet.balance;
    assert_eq!(before, after);
}

#[test]
fn zero_price_sale_fails_with_invalid_price() {
    let mut ctx = sale_ctx(0, 500);
    assert_eq!(buy_nft(&mut ctx), Err(MarketplaceError::InvalidPrice));
    assert_eq!(ctx.buyer_wallet.balance, 500);
    assert_eq!(ctx.seller_wallet.balance, 0);
    assert_eq!(ctx.creator_wallet.balance, 0);
    assert_eq!(ctx.seller_token_account.amount, 1);
    assert_eq!(ctx.buyer_token_account.amount, 0);
    assert_eq!(ctx.nft_account.owner, SELLER);
}

#[test]
fn settle_twice_fails_and_charges_once() {
    let mut ctx = sale_ctx(1000, 5000);
    assert_eq!(buy_nft(&mut ctx), Ok(()));
    assert_eq!(ctx.buyer_wallet.balance, 4000);
    // The offer is now stale: custody has moved, the recorded owner is the
    // buyer, so the same settlement request fails its ownership check.
    let r = buy_nft(&mut ctx);
    assert_eq!(r, Err(MarketplaceError::AuthorizationError));
    assert_eq!(ctx.buyer_wallet.balance, 4000);
    assert_eq!(ctx.seller_wallet.balance, 950);
    assert_eq!(ctx.creator_wallet.balance, 50);
    assert_eq!(ctx.buyer_token_account.amount, 1);
}

#[test]
fn stale_offer_after_ownership_change_fails() {
    // The offer still names the old seller but custody already moved: the
    // seller's custody check rejects the settlement.
    let mut ctx = sale_ctx(1000, 5000);
    ctx.seller_token_account.amount = 0;
    ctx.buyer_token_account.amount = 1;
    assert_eq!(buy_nft(&mut ctx), Err(MarketplaceError::ExternalPrimitiveFailure));
    assert_eq!(ctx.buyer_wallet.balance, 5000);
}

#[test]
fn underfunded_buyer_fails_with_insufficient_balance() {
    let mut ctx = sale_ctx(1000, 999);
    assert_eq!(buy_nft(&mut ctx), Err(MarketplaceError::InsufficientBalance));
    assert_eq!(ctx.buyer_wallet.balance, 999);
    assert_eq!(ctx.seller_token_account.amount, 1);
}

#[test]
fn mismatched_token_account_fails_with_external_failure() {
    let mut ctx = sale_ctx(1000, 5000);
    ctx.buyer_token_account.mint = ASSET + 1;
    assert_eq!(buy_nft(&mut ctx), Err(MarketplaceError::ExternalPrimitiveFailure));
    assert_eq!(ctx.buyer_wallet.balance, 5000);
}

#[test]
fn wrong_seller_fails_with_authorization_error() {
    let mut ctx = sale_ctx(1000, 5000);
    ctx.nft_account.owner = CREATOR;
    assert_eq!(buy_nft(&mut ctx), Err(MarketplaceError::AuthorizationError));
    assert_eq!(ctx.buyer_wallet.balance, 5000);
}

#[test]
fn royalty_is_floor_division() {
    // floor(19 * 5 / 100) = 0: prices under 20 yield no royalty.
    let mut ctx = sale_ctx(19, 100);
    assert_eq!(buy_nft(&mut ctx), Ok(()));
    assert_eq!(ctx.seller_wallet.balance, 19);
    assert_eq!(ctx.creator_wallet.balance, 0);
}
