use solana_programs::cpi::Cpi;
use solana_programs::key::Key;
use solana_programs::nft_auction::{
    bid, initialize_auction, resolve_auction, Auction, AuctionAccount, AuctionError, Bid,
    InitalizeAuction1, InitalizeAuction1Bumps, ResolveAuction, AUCTION_INIT_SPACE,
};
use solana_programs::seeds::SignerSeeds;

fn k(b: u8) -> Key {
    Key::new([b; 32])
}

fn blank() -> Auction {
    Auction {
        ended: false,
        authority: k(0),
        nft_mint: k(0),
        floor_price: 0,
        current_bid: 0,
        current_bidder: None,
        end_time: 0,
        bidder_vault_bump: 0,
        auction_bump: 0,
        nft_vault_bump: 0,
    }
}

fn opened() -> Auction {
    let mut ctx = InitalizeAuction1 { seller: k(1), seller_nft_mint: k(2), auction: blank() };
    let bumps = InitalizeAuction1Bumps { auction: 11, nft_vault: 12, bidder_vault: 13 };
    initialize_auction(&mut ctx, 500, 1_000, &bumps, 890_880);
    ctx.auction
}

#[test]
fn init_space_counts_the_fields() {
    assert_eq!(AUCTION_INIT_SPACE, 125);
}

#[test]
fn opening_records_terms_and_moves_nft_and_rent() {
    let mut ctx = InitalizeAuction1 { seller: k(1), seller_nft_mint: k(2), auction: blank() };
    let bumps = InitalizeAuction1Bumps { auction: 11, nft_vault: 12, bidder_vault: 13 };
    let calls = ctx.initalize_auction(500, 1_000, &bumps, 890_880);
    assert_eq!(
        ctx.auction,
        Auction {
            ended: false,
            authority: k(1),
            nft_mint: k(2),
            floor_price: 500,
            current_bid: 0,
            current_bidder: None,
            end_time: 1_000,
            bidder_vault_bump: 13,
            auction_bump: 11,
            nft_vault_bump: 12
        }
    );
    assert_eq!(
        calls,
        vec![
            Cpi::TransferChecked {
                from: AuctionAccount::SellerNftAta,
                mint: AuctionAccount::SellerNftMint,
                to: AuctionAccount::NftVault,
                authority: AuctionAccount::Seller,
                amount: 1,
                decimals: 0,
                signer: None
            },
            Cpi::SystemTransfer {
                from: AuctionAccount::Seller,
                to: AuctionAccount::BidderVault,
                lamports: 890_880,
                signer: None
            },
        ]
    );
}

#[test]
fn first_bid_takes_the_lead() {
    let mut ctx = Bid { bidder: k(3), auction_key: k(9), auction: opened(), previous_bidder: None };
    let calls = bid(&mut ctx, 10, 100).unwrap();
    assert_eq!(ctx.auction.current_bid, 10);
    assert_eq!(ctx.auction.current_bidder, Some(k(3)));
    assert_eq!(
        calls,
        vec![Cpi::SystemTransfer {
            from: AuctionAccount::Bidder,
            to: AuctionAccount::BidderVault,
            lamports: 10,
            signer: None
        }]
    );
}

#[test]
fn bid_below_floor_price_is_accepted() {
    let mut ctx = Bid { bidder: k(3), auction_key: k(9), auction: opened(), previous_bidder: None };
    assert!(ctx.bid(1, 100).is_ok());
}

#[test]
fn outbid_refunds_previous_bidder() {
    let mut a = opened();
    a.current_bid = 10;
    a.current_bidder = Some(k(3));
    let mut ctx = Bid { bidder: k(4), auction_key: k(9), auction: a, previous_bidder: Some(k(3)) };
    let calls = ctx.bid(15, 999).unwrap();
    assert_eq!(
        calls,
        vec![
            Cpi::SystemTransfer {
                from: AuctionAccount::BidderVault,
                to: AuctionAccount::PreviousBidder,
                lamports: 10,
                signer: Some(SignerSeeds::BidderVault { auction: k(9), bump: 13 })
            },
            Cpi::SystemTransfer {
                from: AuctionAccount::Bidder,
                to: AuctionAccount::BidderVault,
                lamports: 15,
                signer: None
            },
        ]
    );
    assert_eq!(ctx.auction.current_bid, 15);
    assert_eq!(ctx.auction.current_bidder, Some(k(4)));
}

#[test]
fn bid_refusals_in_order() {
    let mut a = opened();
    a.current_bid = 10;
    a.current_bidder = Some(k(3));
    // The leader cannot outbid himself, even on an ended auction.
    let mut ended = a;
    ended.ended = true;
    let mut ctx = Bid { bidder: k(3), auction_key: k(9), auction: ended, previous_bidder: None };
    assert_eq!(ctx.bid(20, 100), Err(AuctionError::SameBidderError));
    // The previous bidder's account must be the leader's.
    let mut ctx = Bid { bidder: k(4), auction_key: k(9), auction: ended, previous_bidder: Some(k(5)) };
    assert_eq!(ctx.bid(20, 100), Err(AuctionError::BiddersMatchError));
    let mut ctx = Bid { bidder: k(4), auction_key: k(9), auction: ended, previous_bidder: Some(k(3)) };
    assert_eq!(ctx.bid(20, 100), Err(AuctionError::AuctionEnded));
    let mut ctx = Bid { bidder: k(4), auction_key: k(9), auction: a, previous_bidder: Some(k(3)) };
    assert_eq!(ctx.bid(10, 100), Err(AuctionError::LowBidError));
    assert_eq!(ctx.bid(11, 1_000), Err(AuctionError::AuctionEnded));
    assert_eq!(ctx.auction, a);
    assert!(ctx.bid(11, 999).is_ok());
}

#[test]
fn resolve_before_end_is_refused() {
    let mut a = opened();
    a.current_bid = 10;
    a.current_bidder = Some(k(3));
    let mut ctx = ResolveAuction { seller: k(1), reciever: k(3), auction_key: k(9), auction: a, bidder_vault_lamports: 900_000 };
    assert!(!ctx.panics_at(999));
    assert_eq!(ctx.resolve_auction(999), Err(AuctionError::AuctionNotEnded));
    assert_eq!(ctx.auction, a);
}

#[test]
fn resolve_to_wrong_receiver_is_refused() {
    let mut a = opened();
    a.current_bid = 10;
    a.current_bidder = Some(k(3));
    let mut ctx = ResolveAuction { seller: k(1), reciever: k(4), auction_key: k(9), auction: a, bidder_vault_lamports: 900_000 };
    assert_eq!(ctx.resolve_auction(1_000), Err(AuctionError::KeysDontMatch));
}

#[test]
fn resolve_without_bidder_panics() {
    let ctx = ResolveAuction { seller: k(1), reciever: k(4), auction_key: k(9), auction: opened(), bidder_vault_lamports: 0 };
    assert!(ctx.panics_at(1_000));
    assert!(!ctx.panics_at(999));
}

#[test]
fn resolve_hands_over_nft_and_vault_then_bids_fail() {
    let mut a = opened();
    a.current_bid = 10;
    a.current_bidder = Some(k(3));
    let mut ctx = ResolveAuction { seller: k(1), reciever: k(3), auction_key: k(9), auction: a, bidder_vault_lamports: 900_000 };
    let calls = resolve_auction(&mut ctx, 1_000).unwrap();
    assert!(ctx.auction.ended);
    assert_eq!(
        calls,
        vec![
            Cpi::TransferChecked {
                from: AuctionAccount::NftVault,
                mint: AuctionAccount::NftMint,
                to: AuctionAccount::RecieverNftAta,
                authority: AuctionAccount::Auction,
                amount: 1,
                decimals: 0,
                signer: Some(SignerSeeds::Auction { nft_mint: k(2), bump: 11 })
            },
            Cpi::SystemTransfer {
                from: AuctionAccount::BidderVault,
                to: AuctionAccount::Seller,
                lamports: 900_000,
                signer: Some(SignerSeeds::BidderVault { auction: k(9), bump: 13 })
            },
        ]
    );
    let mut late = Bid { bidder: k(4), auction_key: k(9), auction: ctx.auction, previous_bidder: Some(k(3)) };
    assert_eq!(late.bid(1_000_000, 0), Err(AuctionError::AuctionEnded));
}

#[test]
fn vault_tracks_standing_bid() {
    let mut vault: i128 = 890_880;
    let mut a = opened();
    let mut leader: Option<Key> = None;
    for (who, amount) in [(3u8, 10u64), (4, 20), (3, 35), (5, 36)] {
        let mut ctx = Bid { bidder: k(who), auction_key: k(9), auction: a, previous_bidder: leader };
        let calls = ctx.bid(amount, 500).unwrap();
        for c in calls {
            if let Cpi::SystemTransfer { from, to, lamports, .. } = c {
                if to == AuctionAccount::BidderVault {
                    vault += lamports as i128;
                }
                if from == AuctionAccount::BidderVault {
                    vault -= lamports as i128;
                }
            }
        }
        a = ctx.auction;
        leader = a.current_bidder;
        assert_eq!(vault, 890_880 + a.current_bid as i128);
    }
}
