use vstd::prelude::*;

use crate::cpi::{lemma_net_lamports_push, lemma_net_lamports_single, net_lamports, Cpi};
use crate::key::Key;
use crate::seeds::SignerSeeds;

verus! {

/// Bytes an auction account takes, past the account discriminator.
pub const AUCTION_INIT_SPACE: usize = 1 + 32 + 32 + 8 + 8 + (1 + 32) + 8 + 1 + 1 + 1;

/// The state of one NFT auction.
#[derive(Clone, Copy, Debug, PartialEq, Eq)]
pub struct Auction {
    pub ended: bool,
    pub authority: Key,
    pub nft_mint: Key,
    pub floor_price: u64,
    pub current_bid: u64,
    pub current_bidder: Option<Key>,
    pub end_time: i64,
    pub bidder_vault_bump: u8,
    pub auction_bump: u8,
    pub nft_vault_bump: u8,
}

impl Auction {
    /// Someone holds the lead exactly when the standing bid is above zero.
    pub open spec fn bids_consistent(self) -> bool {
        (self.current_bidder is Some) == (self.current_bid > 0)
    }
}

/// The addresses of bidders that earn a reward.
#[derive(Clone, Debug)]
pub struct RewardPubkeys {
    pub reward_list: Vec<Key>,
    pub bump: u8,
}

/// Why an auction instruction is refused.
#[derive(Clone, Copy, Debug, PartialEq, Eq)]
pub enum AuctionError {
    /// Bid is not higher than current bid.
    LowBidError,
    /// Bidder cannot be the same as current bidder.
    SameBidderError,
    /// Bidders don't match.
    BiddersMatchError,
    /// Auction has ended.
    AuctionEnded,
    /// Auction has not ended.
    AuctionNotEnded,
    /// Keys not equal.
    KeysDontMatch,
}

/// The accounts that the auction's calls into other programs touch.
#[derive(Clone, Copy, Debug, PartialEq, Eq)]
pub enum AuctionAccount {
    Seller,
    SellerNftMint,
    SellerNftAta,
    NftVault,
    BidderVault,
    Bidder,
    PreviousBidder,
    Reciever,
    RecieverNftAta,
    NftMint,
    Auction,
}

/// The bump seeds found for the addresses an auction derives.
#[derive(Clone, Copy, Debug, PartialEq, Eq)]
pub struct InitalizeAuction1Bumps {
    pub auction: u8,
    pub nft_vault: u8,
    pub bidder_vault: u8,
}

/// What opening an auction reads: the seller, the NFT's mint and the auction account.
#[derive(Clone, Copy, Debug, PartialEq, Eq)]
pub struct InitalizeAuction1 {
    pub seller: Key,
    pub seller_nft_mint: Key,
    pub auction: Auction,
}

/// What a bid reads: the bidder, the auction's address and state, and the
/// account of the previous bidder where the caller passes one.
#[derive(Clone, Copy, Debug, PartialEq, Eq)]
pub struct Bid {
    pub bidder: Key,
    pub auction_key: Key,
    pub auction: Auction,
    pub previous_bidder: Option<Key>,
}

/// What closing an auction reads: the seller, the receiver of the NFT, the
/// auction's address and state, and the lamports held by the bidder vault.
#[derive(Clone, Copy, Debug, PartialEq, Eq)]
pub struct ResolveAuction {
    pub seller: Key,
    pub reciever: Key,
    pub auction_key: Key,
    pub auction: Auction,
    pub bidder_vault_lamports: u64,
}

/// The auction state right after it is opened.
pub open spec fn opened_auction(
    ctx: InitalizeAuction1,
    floor_price: u64,
    end_time: i64,
    bumps: InitalizeAuction1Bumps,
) -> Auction {
    Auction {
        ended: false,
        authority: ctx.seller,
        nft_mint: ctx.seller_nft_mint,
        floor_price,
        current_bid: 0,
        current_bidder: None,
        end_time,
        bidder_vault_bump: bumps.bidder_vault,
        auction_bump: bumps.auction,
        nft_vault_bump: bumps.nft_vault,
    }
}

/// The calls that opening an auction makes: the NFT goes from the seller into the
/// NFT vault, and the seller funds the bidder vault with `rent_amount` lamports.
pub open spec fn opening_calls(rent_amount: u64) -> Seq<Cpi<AuctionAccount>> {
    seq![
        Cpi::TransferChecked {
            from: AuctionAccount::SellerNftAta,
            mint: AuctionAccount::SellerNftMint,
            to: AuctionAccount::NftVault,
            authority: AuctionAccount::Seller,
            amount: 1,
            decimals: 0,
            signer: None,
        },
        Cpi::SystemTransfer {
            from: AuctionAccount::Seller,
            to: AuctionAccount::BidderVault,
            lamports: rent_amount,
            signer: None,
        },
    ]
}

/// The seeds with which the program signs for an auction's bidder vault.
pub open spec fn bidder_vault_seeds(auction_key: Key, auction: Auction) -> SignerSeeds {
    SignerSeeds::BidderVault { auction: auction_key, bump: auction.bidder_vault_bump }
}

/// The first rule that refuses a bid of `amount` at time `now`, if any.
pub open spec fn bid_refusal(ctx: Bid, amount: u64, now: i64) -> Option<AuctionError> {
    let a = ctx.auction;
    if a.current_bidder is Some && a.current_bidder->0@ == ctx.bidder@ {
        Some(AuctionError::SameBidderError)
    } else if a.current_bidder is Some && ctx.previous_bidder is Some
        && a.current_bidder->0@ != ctx.previous_bidder->0@ {
        Some(AuctionError::BiddersMatchError)
    } else if a.ended {
        Some(AuctionError::AuctionEnded)
    } else if amount <= a.current_bid {
        Some(AuctionError::LowBidError)
    } else if now >= a.end_time {
        Some(AuctionError::AuctionEnded)
    } else {
        None
    }
}

/// The calls an accepted bid makes: where a previous bidder's account is passed,
/// the vault pays the standing bid back to it; then the bidder pays `amount` into
/// the vault.
pub open spec fn bid_calls(ctx: Bid, amount: u64) -> Seq<Cpi<AuctionAccount>> {
    let pay = Cpi::SystemTransfer {
        from: AuctionAccount::Bidder,
        to: AuctionAccount::BidderVault,
        lamports: amount,
        signer: None,
    };
    if ctx.previous_bidder is Some {
        seq![
            Cpi::SystemTransfer {
                from: AuctionAccount::BidderVault,
                to: AuctionAccount::PreviousBidder,
                lamports: ctx.auction.current_bid,
                signer: Some(bidder_vault_seeds(ctx.auction_key, ctx.auction)),
            },
            pay,
        ]
    } else {
        seq![pay]
    }
}

/// What a bid of `amount` at time `now` comes to: the refusal, or the state
/// after it and the calls it makes.
pub open spec fn bid_result(ctx: Bid, amount: u64, now: i64) -> Result<
    (Bid, Seq<Cpi<AuctionAccount>>),
    AuctionError,
> {
    match bid_refusal(ctx, amount, now) {
        Some(e) => Err(e),
        None => Ok(
            (
                Bid {
                    auction: Auction {
                        current_bid: amount,
                        current_bidder: Some(ctx.bidder),
                        ..ctx.auction
                    },
                    ..ctx
                },
                bid_calls(ctx, amount),
            ),
        ),
    }
}

/// Closing panics where the auction is over and nobody has bid.
pub open spec fn resolve_panics(ctx: ResolveAuction, now: i64) -> bool {
    ctx.auction.end_time <= now && ctx.auction.current_bidder is None
}

/// The first rule that refuses to close the auction at time `now`, if any.
pub open spec fn resolve_refusal(ctx: ResolveAuction, now: i64) -> Option<AuctionError> {
    if now < ctx.auction.end_time {
        Some(AuctionError::AuctionNotEnded)
    } else if ctx.auction.current_bidder->0@ != ctx.reciever@ {
        Some(AuctionError::KeysDontMatch)
    } else {
        None
    }
}

/// The calls that closing the auction makes: the NFT goes from the vault to the
/// receiver, signed for the auction, and all the bidder vault holds goes to the seller.
pub open spec fn resolve_calls(ctx: ResolveAuction) -> Seq<Cpi<AuctionAccount>> {
    seq![
        Cpi::TransferChecked {
            from: AuctionAccount::NftVault,
            mint: AuctionAccount::NftMint,
            to: AuctionAccount::RecieverNftAta,
            authority: AuctionAccount::Auction,
            amount: 1,
            decimals: 0,
            signer: Some(
                SignerSeeds::Auction {
                    nft_mint: ctx.auction.nft_mint,
                    bump: ctx.auction.auction_bump,
                },
            ),
        },
        Cpi::SystemTransfer {
            from: AuctionAccount::BidderVault,
            to: AuctionAccount::Seller,
            lamports: ctx.bidder_vault_lamports,
            signer: Some(bidder_vault_seeds(ctx.auction_key, ctx.auction)),
        },
    ]
}

/// What closing the auction at time `now` comes to.
pub open spec fn resolve_result(ctx: ResolveAuction, now: i64) -> Result<
    (ResolveAuction, Seq<Cpi<AuctionAccount>>),
    AuctionError,
> {
    match resolve_refusal(ctx, now) {
        Some(e) => Err(e),
        None => Ok(
            (
                ResolveAuction { auction: Auction { ended: true, ..ctx.auction }, ..ctx },
                resolve_calls(ctx),
            ),
        ),
    }
}

impl InitalizeAuction1 {
    /// Opens the auction: records its terms with no bid yet, and moves the NFT and
    /// the vault's rent. `rent_amount` is the rent-exempt minimum of the bidder vault.
    pub fn initalize_auction(
        &mut self,
        floor_price: u64,
        end_time: i64,
        bumps: &InitalizeAuction1Bumps,
        rent_amount: u64,
    ) -> (r: Vec<Cpi<AuctionAccount>>)
        ensures
            final(self).seller == old(self).seller,
            final(self).seller_nft_mint == old(self).seller_nft_mint,
            final(self).auction == opened_auction(*old(self), floor_price, end_time, *bumps),
            r@ == opening_calls(rent_amount),
    {
        self.auction = Auction {
            ended: false,
            authority: self.seller,
            nft_mint: self.seller_nft_mint,
            floor_price,
            current_bid: 0,
            current_bidder: None,
            end_time,
            bidder_vault_bump: bumps.bidder_vault,
            auction_bump: bumps.auction,
            nft_vault_bump: bumps.nft_vault,
        };
        let mut calls: Vec<Cpi<AuctionAccount>> = Vec::new();
        calls.push(
            Cpi::TransferChecked {
                from: AuctionAccount::SellerNftAta,
                mint: AuctionAccount::SellerNftMint,
                to: AuctionAccount::NftVault,
                authority: AuctionAccount::Seller,
                amount: 1,
                decimals: 0,
                signer: None,
            },
        );
        calls.push(
            Cpi::SystemTransfer {
                from: AuctionAccount::Seller,
                to: AuctionAccount::BidderVault,
                lamports: rent_amount,
                signer: None,
            },
        );
        assert(calls@ =~= opening_calls(rent_amount));
        calls
    }
}

impl Bid {
    /// Places a bid of `amount` at time `current_time`.
    pub fn bid(&mut self, amount: u64, current_time: i64) -> (r: Result<
        Vec<Cpi<AuctionAccount>>,
        AuctionError,
    >)
        ensures
            match r {
                Ok(calls) => bid_result(*old(self), amount, current_time) == Ok::<
                    (Bid, Seq<Cpi<AuctionAccount>>),
                    AuctionError,
                >((*final(self), calls@)),
                Err(e) => bid_result(*old(self), amount, current_time) == Err::<
                    (Bid, Seq<Cpi<AuctionAccount>>),
                    AuctionError,
                >(e) && *final(self) == *old(self),
            },
    {
        match self.auction.current_bidder {
            Some(current) => {
                if current.equals(&self.bidder) {
                    return Err(AuctionError::SameBidderError);
                }
                match self.previous_bidder {
                    Some(previous) => {
                        if !current.equals(&previous) {
                            return Err(AuctionError::BiddersMatchError);
                        }
                    },
                    None => {},
                }
            },
            None => {},
        }
        if self.auction.ended {
            return Err(AuctionError::AuctionEnded);
        }
        if !(self.auction.current_bid < amount) {
            return Err(AuctionError::LowBidError);
        }
        if !(current_time < self.auction.end_time) {
            return Err(AuctionError::AuctionEnded);
        }
        let ghost pre = *self;
        let mut calls: Vec<Cpi<AuctionAccount>> = Vec::new();
        if self.previous_bidder.is_some() {
            calls.push(
                Cpi::SystemTransfer {
                    from: AuctionAccount::BidderVault,
                    to: AuctionAccount::PreviousBidder,
                    lamports: self.auction.current_bid,
                    signer: Some(
                        SignerSeeds::BidderVault {
                            auction: self.auction_key,
                            bump: self.auction.bidder_vault_bump,
                        },
                    ),
                },
            );
        }
        calls.push(
            Cpi::SystemTransfer {
                from: AuctionAccount::Bidder,
                to: AuctionAccount::BidderVault,
                lamports: amount,
                signer: None,
            },
        );
        self.auction.current_bid = amount;
        self.auction.current_bidder = Some(self.bidder);
        assert(calls@ =~= bid_calls(pre, amount));
        Ok(calls)
    }
}

impl ResolveAuction {
    /// Whether closing the auction at time `current_time` would panic.
    pub fn panics_at(&self, current_time: i64) -> (r: bool)
        ensures
            r == resolve_panics(*self, current_time),
    {
        self.auction.end_time <= current_time && self.auction.current_bidder.is_none()
    }

    /// Closes the auction at time `current_time`: hands the NFT to the winner and
    /// the bids to the seller.
    pub fn resolve_auction(&mut self, current_time: i64) -> (r: Result<
        Vec<Cpi<AuctionAccount>>,
        AuctionError,
    >)
        requires
            !resolve_panics(*old(self), current_time),
        ensures
            match r {
                Ok(calls) => resolve_result(*old(self), current_time) == Ok::<
                    (ResolveAuction, Seq<Cpi<AuctionAccount>>),
                    AuctionError,
                >((*final(self), calls@)),
                Err(e) => resolve_result(*old(self), current_time) == Err::<
                    (ResolveAuction, Seq<Cpi<AuctionAccount>>),
                    AuctionError,
                >(e) && *final(self) == *old(self),
            },
    {
        if !(self.auction.end_time <= current_time) {
            return Err(AuctionError::AuctionNotEnded);
        }
        let winner = self.auction.current_bidder.unwrap();
        if !winner.equals(&self.reciever) {
            return Err(AuctionError::KeysDontMatch);
        }
        let ghost pre = *self;
        self.auction.ended = true;
        let mut calls: Vec<Cpi<AuctionAccount>> = Vec::new();
        calls.push(
            Cpi::TransferChecked {
                from: AuctionAccount::NftVault,
                mint: AuctionAccount::NftMint,
                to: AuctionAccount::RecieverNftAta,
                authority: AuctionAccount::Auction,
                amount: 1,
                decimals: 0,
                signer: Some(
                    SignerSeeds::Auction {
                        nft_mint: self.auction.nft_mint,
                        bump: self.auction.auction_bump,
                    },
                ),
            },
        );
        calls.push(
            Cpi::SystemTransfer {
                from: AuctionAccount::BidderVault,
                to: AuctionAccount::Seller,
                lamports: self.bidder_vault_lamports,
                signer: Some(
                    SignerSeeds::BidderVault {
                        auction: self.auction_key,
                        bump: self.auction.bidder_vault_bump,
                    },
                ),
            },
        );
        assert(calls@ =~= resolve_calls(pre));
        Ok(calls)
    }
}

/// The instruction that opens an auction.
pub fn initialize_auction(
    ctx: &mut InitalizeAuction1,
    floor_price: u64,
    end_time: i64,
    bumps: &InitalizeAuction1Bumps,
    rent_amount: u64,
) -> (r: Vec<Cpi<AuctionAccount>>)
    ensures
        final(ctx).seller == old(ctx).seller,
        final(ctx).seller_nft_mint == old(ctx).seller_nft_mint,
        final(ctx).auction == opened_auction(*old(ctx), floor_price, end_time, *bumps),
        r@ == opening_calls(rent_amount),
{
    ctx.initalize_auction(floor_price, end_time, bumps, rent_amount)
}

/// The instruction that places a bid.
pub fn bid(ctx: &mut Bid, amount: u64, current_time: i64) -> (r: Result<
    Vec<Cpi<AuctionAccount>>,
    AuctionError,
>)
    ensures
        match r {
            Ok(calls) => bid_result(*old(ctx), amount, current_time) == Ok::<
                (Bid, Seq<Cpi<AuctionAccount>>),
                AuctionError,
            >((*final(ctx), calls@)),
            Err(e) => bid_result(*old(ctx), amount, current_time) == Err::<
                (Bid, Seq<Cpi<AuctionAccount>>),
                AuctionError,
            >(e) && *final(ctx) == *old(ctx),
        },
{
    ctx.bid(amount, current_time)
}

/// The instruction that closes an auction.
pub fn resolve_auction(ctx: &mut ResolveAuction, current_time: i64) -> (r: Result<
    Vec<Cpi<AuctionAccount>>,
    AuctionError,
>)
    requires
        !resolve_panics(*old(ctx), current_time),
    ensures
        match r {
            Ok(calls) => resolve_result(*old(ctx), current_time) == Ok::<
                (ResolveAuction, Seq<Cpi<AuctionAccount>>),
                AuctionError,
            >((*final(ctx), calls@)),
            Err(e) => resolve_result(*old(ctx), current_time) == Err::<
                (ResolveAuction, Seq<Cpi<AuctionAccount>>),
                AuctionError,
            >(e) && *final(ctx) == *old(ctx),
        },
{
    ctx.resolve_auction(current_time)
}

/// An opened auction has no bid and no bidder, so its bids are consistent.
pub proof fn lemma_opened_auction_consistent(
    ctx: InitalizeAuction1,
    floor_price: u64,
    end_time: i64,
    bumps: InitalizeAuction1Bumps,
)
    ensures
        opened_auction(ctx, floor_price, end_time, bumps).bids_consistent(),
        opened_auction(ctx, floor_price, end_time, bumps).current_bid == 0,
        !opened_auction(ctx, floor_price, end_time, bumps).ended,
{
}

/// An accepted bid raises the standing bid to exactly its amount, strictly above
/// the bid before, puts the bidder in the lead, and keeps the bids consistent.
pub proof fn lemma_bid_raises_standing_bid(ctx: Bid, amount: u64, now: i64)
    requires
        bid_result(ctx, amount, now) is Ok,
    ensures
        ({
            let post = bid_result(ctx, amount, now)->Ok_0.0;
            &&& post.auction.current_bid == amount
            &&& post.auction.current_bid > ctx.auction.current_bid
            &&& post.auction.current_bidder == Some(ctx.bidder)
            &&& post.auction.bids_consistent()
            &&& post.auction.end_time == ctx.auction.end_time
            &&& post.auction.ended == ctx.auction.ended
        }),
{
}

/// No bid is accepted once the auction has ended or its end time has come.
pub proof fn lemma_no_bid_after_end(ctx: Bid, amount: u64, now: i64)
    requires
        ctx.auction.ended || now >= ctx.auction.end_time,
    ensures
        bid_result(ctx, amount, now) is Err,
{
}

/// An accepted bid pays the standing bid back to the previous bidder's account
/// where one is passed, and that account is the bidder who held the lead.
pub proof fn lemma_bid_refunds_previous_bidder(ctx: Bid, amount: u64, now: i64)
    requires
        bid_result(ctx, amount, now) is Ok,
        ctx.previous_bidder is Some,
    ensures
        bid_result(ctx, amount, now)->Ok_0.1[0] == (Cpi::SystemTransfer {
            from: AuctionAccount::BidderVault,
            to: AuctionAccount::PreviousBidder,
            lamports: ctx.auction.current_bid,
            signer: Some(bidder_vault_seeds(ctx.auction_key, ctx.auction)),
        }),
        ctx.auction.current_bidder is Some ==> ctx.auction.current_bidder->0@
            == ctx.previous_bidder->0@,
{
}

/// The auction cannot be closed before its end time.
pub proof fn lemma_no_resolve_before_end(ctx: ResolveAuction, now: i64)
    requires
        now < ctx.auction.end_time,
    ensures
        resolve_result(ctx, now) is Err,
        resolve_result(ctx, now)->Err_0 == AuctionError::AuctionNotEnded,
{
}

/// Once an auction is closed it takes no more bids, whoever bids and whenever;
/// closing changes nothing but the ended flag, so the bids stay consistent.
pub proof fn lemma_closed_auction_takes_no_bids(
    ctx: ResolveAuction,
    now: i64,
    next: Bid,
    amount: u64,
    later: i64,
)
    requires
        resolve_result(ctx, now) is Ok,
        next.auction == resolve_result(ctx, now)->Ok_0.0.auction,
    ensures
        next.auction.ended,
        ctx.auction.bids_consistent() ==> next.auction.bids_consistent(),
        bid_result(next, amount, later) is Err,
{
}

/// The vault's lamports go to the seller under the same signature that bids are
/// refunded with.
pub proof fn lemma_vault_signed_alike(ctx: ResolveAuction, now: i64, b: Bid, amount: u64, t: i64)
    requires
        resolve_result(ctx, now) is Ok,
        bid_result(b, amount, t) is Ok,
        b.previous_bidder is Some,
        b.auction_key == ctx.auction_key,
        b.auction.bidder_vault_bump == ctx.auction.bidder_vault_bump,
    ensures
        resolve_result(ctx, now)->Ok_0.1[1]->SystemTransfer_signer == bid_result(
            b,
            amount,
            t,
        )->Ok_0.1[0]->SystemTransfer_signer,
{
}

/// The lamports that a list of calls moves into `account` by system transfers,
/// less those it moves out.
pub open spec fn lamports_into(calls: Seq<Cpi<AuctionAccount>>, account: AuctionAccount) -> int {
    net_lamports(calls, account)
}

/// The lamports that each account gains or loses by a bid's calls.
proof fn lemma_bid_calls_lamports(ctx: Bid, amount: u64, who: AuctionAccount)
    ensures
        lamports_into(bid_calls(ctx, amount), who) == (if who == AuctionAccount::BidderVault {
            amount as int
        } else {
            0
        }) - (if who == AuctionAccount::Bidder {
            amount as int
        } else {
            0
        }) + (if ctx.previous_bidder is Some {
            (if who == AuctionAccount::PreviousBidder {
                ctx.auction.current_bid as int
            } else {
                0
            }) - (if who == AuctionAccount::BidderVault {
                ctx.auction.current_bid as int
            } else {
                0
            })
        } else {
            0
        }),
{
    let calls = bid_calls(ctx, amount);
    if ctx.previous_bidder is Some {
        assert(calls =~= seq![calls[0]].push(calls[1]));
        lemma_net_lamports_push(seq![calls[0]], calls[1], who);
        lemma_net_lamports_single(calls[0], who);
        lemma_net_lamports_single(calls[1], who);
    } else {
        assert(calls =~= seq![calls[0]]);
        lemma_net_lamports_single(calls[0], who);
    }
}

/// An accepted bid moves its amount into the bidder vault, less the standing bid
/// where that is paid back; so where the vault held the standing bid over some
/// base, and the account of whoever held the lead is passed, it holds the new
/// bid over the same base after.
pub proof fn lemma_vault_holds_standing_bid(ctx: Bid, amount: u64, now: i64, vault: int, base: int)
    requires
        bid_result(ctx, amount, now) is Ok,
    ensures
        lamports_into(bid_result(ctx, amount, now)->Ok_0.1, AuctionAccount::BidderVault) == amount
            - (if ctx.previous_bidder is Some {
            ctx.auction.current_bid as int
        } else {
            0
        }),
        vault == base + ctx.auction.current_bid && ctx.auction.bids_consistent() && (
        ctx.auction.current_bidder is Some ==> ctx.previous_bidder is Some) ==> vault
            + lamports_into(bid_result(ctx, amount, now)->Ok_0.1, AuctionAccount::BidderVault)
            == base + bid_result(ctx, amount, now)->Ok_0.0.auction.current_bid,
{
    lemma_bid_calls_lamports(ctx, amount, AuctionAccount::BidderVault);
}

/// A bidder who already holds the lead is refused as the same bidder, whatever
/// previous-bidder account is passed, whatever the amount and the time.
pub proof fn lemma_leader_cannot_bid(ctx: Bid, amount: u64, now: i64)
    requires
        ctx.auction.current_bidder is Some,
        ctx.auction.current_bidder->0@ == ctx.bidder@,
    ensures
        bid_result(ctx, amount, now) is Err,
        bid_result(ctx, amount, now)->Err_0 == AuctionError::SameBidderError,
{
}

/// A newcomer's bid that passes, as the previous bidder, an account other than
/// the leader's is refused.
pub proof fn lemma_previous_bidder_must_be_leader(ctx: Bid, amount: u64, now: i64)
    requires
        ctx.auction.current_bidder is Some,
        ctx.auction.current_bidder->0@ != ctx.bidder@,
        ctx.previous_bidder is Some,
        ctx.previous_bidder->0@ != ctx.auction.current_bidder->0@,
    ensures
        bid_result(ctx, amount, now) is Err,
        bid_result(ctx, amount, now)->Err_0 == AuctionError::BiddersMatchError,
{
}

/// A bid no higher than the standing bid is refused.
pub proof fn lemma_low_bid_refused(ctx: Bid, amount: u64, now: i64)
    requires
        amount <= ctx.auction.current_bid,
    ensures
        bid_result(ctx, amount, now) is Err,
{
}

/// Every other bid is accepted: on an open auction before its end time, a bid
/// above the standing one by anyone but the leader, passing no previous-bidder
/// account or the leader's, takes the lead at its amount.
pub proof fn lemma_bid_accepted(ctx: Bid, amount: u64, now: i64)
    requires
        !ctx.auction.ended,
        now < ctx.auction.end_time,
        ctx.auction.current_bid < amount,
        ctx.auction.current_bidder is Some ==> ctx.auction.current_bidder->0@ != ctx.bidder@,
        ctx.auction.current_bidder is Some && ctx.previous_bidder is Some
            ==> ctx.previous_bidder->0@ == ctx.auction.current_bidder->0@,
    ensures
        bid_result(ctx, amount, now) is Ok,
        bid_result(ctx, amount, now)->Ok_0.0.auction.current_bid == amount,
        bid_result(ctx, amount, now)->Ok_0.0.auction.current_bidder == Some(ctx.bidder),
{
}

/// An accepted bid takes exactly its amount from the bidder, pays the passed
/// previous bidder's account exactly the standing bid (and nothing where none is
/// passed), and leaves the seller's lamports alone.
pub proof fn lemma_bid_payments(ctx: Bid, amount: u64, now: i64)
    requires
        bid_result(ctx, amount, now) is Ok,
    ensures
        lamports_into(bid_result(ctx, amount, now)->Ok_0.1, AuctionAccount::Bidder) == -(
        amount as int),
        lamports_into(bid_result(ctx, amount, now)->Ok_0.1, AuctionAccount::PreviousBidder) == (
        if ctx.previous_bidder is Some {
            ctx.auction.current_bid as int
        } else {
            0
        }),
        lamports_into(bid_result(ctx, amount, now)->Ok_0.1, AuctionAccount::Seller) == 0,
{
    lemma_bid_calls_lamports(ctx, amount, AuctionAccount::Bidder);
    lemma_bid_calls_lamports(ctx, amount, AuctionAccount::PreviousBidder);
    lemma_bid_calls_lamports(ctx, amount, AuctionAccount::Seller);
}

/// Closing empties the bidder vault: every lamport it holds, no more and no less,
/// goes to the seller; and the one NFT goes from the NFT vault to the receiver's
/// token account. The auction is then ended.
pub proof fn lemma_resolve_empties_vault(ctx: ResolveAuction, now: i64)
    requires
        resolve_result(ctx, now) is Ok,
    ensures
        lamports_into(resolve_result(ctx, now)->Ok_0.1, AuctionAccount::BidderVault) == -(
        ctx.bidder_vault_lamports as int),
        lamports_into(resolve_result(ctx, now)->Ok_0.1, AuctionAccount::Seller)
            == ctx.bidder_vault_lamports as int,
        (resolve_result(ctx, now)->Ok_0.1[0] matches Cpi::TransferChecked {
            from,
            to,
            amount,
            decimals,
            ..
        } && from == AuctionAccount::NftVault && to == AuctionAccount::RecieverNftAta && amount == 1
            && decimals == 0),
        resolve_result(ctx, now)->Ok_0.0.auction.ended,
{
    let calls = resolve_calls(ctx);
    assert(calls =~= seq![calls[0]].push(calls[1]));
    lemma_net_lamports_push(seq![calls[0]], calls[1], AuctionAccount::BidderVault);
    lemma_net_lamports_single(calls[0], AuctionAccount::BidderVault);
    lemma_net_lamports_single(calls[1], AuctionAccount::BidderVault);
    lemma_net_lamports_push(seq![calls[0]], calls[1], AuctionAccount::Seller);
    lemma_net_lamports_single(calls[0], AuctionAccount::Seller);
    lemma_net_lamports_single(calls[1], AuctionAccount::Seller);
}

/// Closing at or after the end time, to the leader, is accepted; to anyone else
/// it is refused.
pub proof fn lemma_resolve_goes_to_leader(ctx: ResolveAuction, now: i64)
    requires
        ctx.auction.end_time <= now,
        ctx.auction.current_bidder is Some,
    ensures
        ctx.auction.current_bidder->0@ == ctx.reciever@ ==> resolve_result(ctx, now) is Ok,
        ctx.auction.current_bidder->0@ != ctx.reciever@ ==> resolve_result(ctx, now) is Err
            && resolve_result(ctx, now)->Err_0 == AuctionError::KeysDontMatch,
{
}

/// Opening records the terms as given: the seller as authority, the NFT's mint,
/// the floor price, the end time and the bumps, with no bid; it moves the one NFT
/// from the seller's token account into the NFT vault, and exactly the rent
/// amount of lamports from the seller into the bidder vault.
pub proof fn lemma_opening_records_terms(
    ctx: InitalizeAuction1,
    floor_price: u64,
    end_time: i64,
    bumps: InitalizeAuction1Bumps,
    rent_amount: u64,
)
    ensures
        ({
            let a = opened_auction(ctx, floor_price, end_time, bumps);
            &&& a.authority == ctx.seller
            &&& a.nft_mint == ctx.seller_nft_mint
            &&& a.floor_price == floor_price
            &&& a.end_time == end_time
            &&& a.bidder_vault_bump == bumps.bidder_vault
            &&& a.auction_bump == bumps.auction
            &&& a.nft_vault_bump == bumps.nft_vault
            &&& a.current_bidder is None
        }),
        lamports_into(opening_calls(rent_amount), AuctionAccount::Seller) == -(rent_amount as int),
        lamports_into(opening_calls(rent_amount), AuctionAccount::BidderVault) == rent_amount as int,
        (opening_calls(rent_amount)[0] matches Cpi::TransferChecked {
            from,
            to,
            amount,
            decimals,
            ..
        } && from == AuctionAccount::SellerNftAta && to == AuctionAccount::NftVault && amount == 1
            && decimals == 0),
{
    let calls = opening_calls(rent_amount);
    assert(calls =~= seq![calls[0]].push(calls[1]));
    lemma_net_lamports_push(seq![calls[0]], calls[1], AuctionAccount::Seller);
    lemma_net_lamports_single(calls[0], AuctionAccount::Seller);
    lemma_net_lamports_single(calls[1], AuctionAccount::Seller);
    lemma_net_lamports_push(seq![calls[0]], calls[1], AuctionAccount::BidderVault);
    lemma_net_lamports_single(calls[0], AuctionAccount::BidderVault);
    lemma_net_lamports_single(calls[1], AuctionAccount::BidderVault);
}

/// Past the bidder checks, an ended auction or one past its end time refuses a
/// bid as ended, and an open one refuses a bid no higher than the standing bid
/// as too low.
pub proof fn lemma_bid_refusal_reasons(ctx: Bid, amount: u64, now: i64)
    requires
        ctx.auction.current_bidder is Some ==> ctx.auction.current_bidder->0@ != ctx.bidder@,
        ctx.auction.current_bidder is Some && ctx.previous_bidder is Some
            ==> ctx.previous_bidder->0@ == ctx.auction.current_bidder->0@,
    ensures
        ctx.auction.ended ==> bid_result(ctx, amount, now) is Err && bid_result(
            ctx,
            amount,
            now,
        )->Err_0 == AuctionError::AuctionEnded,
        !ctx.auction.ended && amount <= ctx.auction.current_bid ==> bid_result(ctx, amount, now) is Err
            && bid_result(ctx, amount, now)->Err_0 == AuctionError::LowBidError,
        !ctx.auction.ended && ctx.auction.current_bid < amount && now >= ctx.auction.end_time
            ==> bid_result(ctx, amount, now) is Err && bid_result(ctx, amount, now)->Err_0
            == AuctionError::AuctionEnded,
{
}

/// An accepted bid changes nothing but the standing bid and its bidder.
pub proof fn lemma_bid_changes_only_the_lead(ctx: Bid, amount: u64, now: i64)
    requires
        bid_result(ctx, amount, now) is Ok,
    ensures
        ({
            let post = bid_result(ctx, amount, now)->Ok_0.0;
            &&& post.bidder == ctx.bidder
            &&& post.auction_key == ctx.auction_key
            &&& post.previous_bidder == ctx.previous_bidder
            &&& post.auction.ended == ctx.auction.ended
            &&& post.auction.authority == ctx.auction.authority
            &&& post.auction.nft_mint == ctx.auction.nft_mint
            &&& post.auction.floor_price == ctx.auction.floor_price
            &&& post.auction.end_time == ctx.auction.end_time
            &&& post.auction.bidder_vault_bump == ctx.auction.bidder_vault_bump
            &&& post.auction.auction_bump == ctx.auction.auction_bump
            &&& post.auction.nft_vault_bump == ctx.auction.nft_vault_bump
        }),
{
}

/// Closing changes nothing but the ended flag, and signs for the NFT vault with
/// the auction's own seeds: its NFT mint and bump.
pub proof fn lemma_resolve_changes_only_ended(ctx: ResolveAuction, now: i64)
    requires
        resolve_result(ctx, now) is Ok,
    ensures
        ({
            let post = resolve_result(ctx, now)->Ok_0.0;
            &&& post.auction.ended
            &&& post.auction.current_bid == ctx.auction.current_bid
            &&& post.auction.current_bidder == ctx.auction.current_bidder
            &&& post.auction.end_time == ctx.auction.end_time
            &&& post.auction.nft_mint == ctx.auction.nft_mint
            &&& post.auction.authority == ctx.auction.authority
            &&& post.auction.floor_price == ctx.auction.floor_price
            &&& post.seller == ctx.seller
            &&& post.reciever == ctx.reciever
            &&& post.bidder_vault_lamports == ctx.bidder_vault_lamports
        }),
        resolve_result(ctx, now)->Ok_0.1[0]->TransferChecked_signer == Some(
            SignerSeeds::Auction { nft_mint: ctx.auction.nft_mint, bump: ctx.auction.auction_bump },
        ),
{
}

/// The bidder vault's seeds are the `bidderVault` tag, the auction's address and
/// the vault's bump.
pub proof fn lemma_bidder_vault_seeds(auction_key: Key, auction: Auction)
    ensures
        bidder_vault_seeds(auction_key, auction).words() == seq![
            crate::seeds::bidder_vault_tag(),
            auction_key@,
            seq![auction.bidder_vault_bump],
        ],
{
}

} // verus!
