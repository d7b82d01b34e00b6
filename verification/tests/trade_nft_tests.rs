use trade_vault::trade_nft::AssetTransferRequest;
use trade_vault::trade_nft::TradeApproved;
use trade_vault::trade_nft::TradeCreated;
use trade_vault::trade_nft::TradeNFT;
use trade_vault::trade_nft::TradeRejected;
use trade_vault::Error;

const SELLER: u128 = 5;
const BUYER: u128 = 7;
const NFT_CONTRACT: u128 = 9;
const ENGINE_ACCOUNT: u128 = 42;
const STRANGER: u128 = 11;

#[test]
fn create_trade_ids_start_at_zero_and_increase() {
    let mut engine = TradeNFT::new();
    assert_eq!(engine.trade_counter, 0);
    let (id0, _) = engine.create_trade(SELLER, NFT_CONTRACT, BUYER);
    let (id1, _) = engine.create_trade(SELLER, NFT_CONTRACT, BUYER);
    let (id2, _) = engine.create_trade(STRANGER, NFT_CONTRACT, SELLER);
    assert_eq!(id0, 0);
    assert_eq!(id1, 1);
    assert_eq!(id2, 2);
    assert_eq!(engine.trade_counter, 3);
    assert_eq!(engine.trades.len(), 3);
}

#[test]
fn create_trade_stores_record_and_reports_event() {
    let mut engine = TradeNFT::new();
    let (id, event) = engine.create_trade(SELLER, NFT_CONTRACT, BUYER);
    assert_eq!(
        event,
        TradeCreated { trade_id: id, seller: SELLER, nft_contract: NFT_CONTRACT }
    );
    let trade = engine.trades[0];
    assert_eq!(trade.seller, SELLER);
    assert_eq!(trade.buyer, BUYER);
    assert_eq!(trade.nft_contract, NFT_CONTRACT);
    assert!(trade.is_active);
}

#[test]
fn approve_trade_moves_asset_to_buyer_and_deactivates() {
    let mut engine = TradeNFT::new();
    let (id, _) = engine.create_trade(SELLER, NFT_CONTRACT, BUYER);
    let r = engine.approve_trade(SELLER, ENGINE_ACCOUNT, id, 7);
    let (request, event) = r.expect("seller approval must succeed");
    assert_eq!(
        request,
        AssetTransferRequest {
            nft_contract: NFT_CONTRACT,
            from: ENGINE_ACCOUNT,
            to: BUYER,
            token_id: 7,
        }
    );
    assert_eq!(event, TradeApproved { trade_id: id, buyer: BUYER });
    assert!(!engine.trades[0].is_active);
    let followup = engine.reject_trade(SELLER, ENGINE_ACCOUNT, id, 7);
    assert_eq!(followup, Err(Error::InvalidState));
}

#[test]
fn reject_trade_returns_asset_to_seller() {
    let mut engine = TradeNFT::new();
    let (id, _) = engine.create_trade(SELLER, NFT_CONTRACT, BUYER);
    let r = engine.reject_trade(SELLER, ENGINE_ACCOUNT, id, 3);
    let (request, event) = r.expect("seller rejection must succeed");
    assert_eq!(
        request,
        AssetTransferRequest {
            nft_contract: NFT_CONTRACT,
            from: ENGINE_ACCOUNT,
            to: SELLER,
            token_id: 3,
        }
    );
    assert_eq!(event, TradeRejected { trade_id: id });
    assert!(!engine.trades[0].is_active);
}

#[test]
fn resolving_unknown_trade_is_not_found() {
    let mut engine = TradeNFT::new();
    assert_eq!(
        engine.approve_trade(SELLER, ENGINE_ACCOUNT, 0, 1),
        Err(Error::NotFound)
    );
    engine.create_trade(SELLER, NFT_CONTRACT, BUYER);
    assert_eq!(
        engine.reject_trade(SELLER, ENGINE_ACCOUNT, 1, 1),
        Err(Error::NotFound)
    );
}

#[test]
fn non_seller_cannot_resolve_even_the_buyer() {
    let mut engine = TradeNFT::new();
    let (id, _) = engine.create_trade(SELLER, NFT_CONTRACT, BUYER);
    assert_eq!(
        engine.approve_trade(BUYER, ENGINE_ACCOUNT, id, 1),
        Err(Error::Unauthorized)
    );
    assert_eq!(
        engine.reject_trade(BUYER, ENGINE_ACCOUNT, id, 1),
        Err(Error::Unauthorized)
    );
    assert_eq!(
        engine.reject_trade(STRANGER, ENGINE_ACCOUNT, id, 1),
        Err(Error::Unauthorized)
    );
    assert!(engine.trades[0].is_active);
}

#[test]
fn inactive_trade_fails_invalid_state_for_any_caller() {
    let mut engine = TradeNFT::new();
    let (id, _) = engine.create_trade(SELLER, NFT_CONTRACT, BUYER);
    engine
        .approve_trade(SELLER, ENGINE_ACCOUNT, id, 1)
        .expect("seller approval must succeed");
    assert_eq!(
        engine.approve_trade(SELLER, ENGINE_ACCOUNT, id, 1),
        Err(Error::InvalidState)
    );
    assert_eq!(
        engine.approve_trade(BUYER, ENGINE_ACCOUNT, id, 1),
        Err(Error::InvalidState)
    );
    assert_eq!(
        engine.reject_trade(STRANGER, ENGINE_ACCOUNT, id, 1),
        Err(Error::InvalidState)
    );
}
