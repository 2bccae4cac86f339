use vstd::prelude::*;

use crate::cpi::{lemma_net_lamports_push, lemma_net_lamports_single, net_lamports, Cpi};
use crate::key::Key;
use crate::seeds::SignerSeeds;

verus! {

/// The longest marketplace name, in UTF-8 bytes.
pub const MAX_NAME_LEN: usize = 32;

/// A marketplace's settings.
#[derive(Clone, Debug)]
pub struct Marketplace {
    pub admin: Key,
    pub fee: u16,
    pub bump: u8,
    pub rewards_bump: u8,
    pub treasury_bump: u8,
    pub name: String,
}

/// An NFT put up for sale.
#[derive(Clone, Copy, Debug, PartialEq, Eq)]
pub struct Listing {
    pub mint: Key,
    pub price: u64,
    pub bump: u8,
}

/// Why a marketplace instruction is refused.
#[derive(Clone, Copy, Debug, PartialEq, Eq)]
pub enum MarketplaceError {
    /// Name is longer than 32 bytes.
    NameTooLong,
}

/// The bump seeds found for the addresses a marketplace derives.
#[derive(Clone, Copy, Debug, PartialEq, Eq)]
pub struct InitializeBumps {
    pub marketplace: u8,
    pub rewards_mint: u8,
    pub treasury: u8,
}

/// What setting up a marketplace reads: its admin and the marketplace account.
#[derive(Clone, Debug)]
pub struct Initialize {
    pub admin: Key,
    pub marketplace: Marketplace,
}

/// The number of bytes that `name` takes in UTF-8.
pub open spec fn name_len(name: Seq<char>) -> nat {
    vstd::utf8::encode_utf8(name).len()
}

/// A name is accepted when it is not empty and fits in 32 bytes.
pub open spec fn name_accepted(name: Seq<char>) -> bool {
    0 < name_len(name) <= 32
}

/// The marketplace that setting up records.
pub open spec fn set_up_marketplace(
    admin: Key,
    name: String,
    fees: u16,
    bumps: InitializeBumps,
) -> Marketplace {
    Marketplace {
        admin,
        fee: fees,
        bump: bumps.marketplace,
        rewards_bump: bumps.rewards_mint,
        treasury_bump: bumps.treasury,
        name,
    }
}

impl Initialize {
    /// Sets up the marketplace under `name` with a fee of `fees`.
    pub fn init(&mut self, name: String, fees: u16, bumps: &InitializeBumps) -> (r: Result<
        (),
        MarketplaceError,
    >)
        ensures
            r is Ok <==> name_accepted(name@),
            r is Err ==> r->Err_0 == MarketplaceError::NameTooLong && *final(self) == *old(self),
            r is Ok ==> final(self).admin == old(self).admin && final(self).marketplace
                == set_up_marketplace(old(self).admin, name, fees, *bumps),
    {
        let len = name.as_str().as_bytes().len();
        if !(len <= MAX_NAME_LEN && len > 0) {
            return Err(MarketplaceError::NameTooLong);
        }
        self.marketplace = Marketplace {
            admin: self.admin,
            fee: fees,
            bump: bumps.marketplace,
            rewards_bump: bumps.rewards_mint,
            treasury_bump: bumps.treasury,
            name,
        };
        Ok(())
    }
}

/// The instruction that sets up a marketplace.
pub fn initialize(ctx: &mut Initialize, name: String, fees: u16, bumps: &InitializeBumps) -> (r:
    Result<(), MarketplaceError>)
    ensures
        r is Ok <==> name_accepted(name@),
        r is Err ==> r->Err_0 == MarketplaceError::NameTooLong && *final(ctx) == *old(ctx),
        r is Ok ==> final(ctx).admin == old(ctx).admin && final(ctx).marketplace
            == set_up_marketplace(old(ctx).admin, name, fees, *bumps),
{
    ctx.init(name, fees, bumps)
}

/// The accounts that a purchase's calls into other programs touch.
#[derive(Clone, Copy, Debug, PartialEq, Eq)]
pub enum MarketplaceAccount {
    Taker,
    Maker,
    TakerAta,
    Vault,
    MakerMint,
    Listing,
}

/// What a purchase reads: the marketplace's address and the listing.
#[derive(Clone, Copy, Debug, PartialEq, Eq)]
pub struct Purchase {
    pub marketplace_key: Key,
    pub listing: Listing,
}

/// The seeds with which the program signs for a listing.
pub open spec fn listing_seeds(ctx: Purchase) -> SignerSeeds {
    SignerSeeds::Listing {
        marketplace: ctx.marketplace_key,
        mint: ctx.listing.mint,
        bump: ctx.listing.bump,
    }
}

/// The taker pays the listing's price to the maker.
pub open spec fn payment(ctx: Purchase) -> Cpi<MarketplaceAccount> {
    Cpi::SystemTransfer {
        from: MarketplaceAccount::Taker,
        to: MarketplaceAccount::Maker,
        lamports: ctx.listing.price,
        signer: None,
    }
}

/// The vault hands the one NFT to the taker, signed for the listing.
pub open spec fn nft_delivery(ctx: Purchase) -> Cpi<MarketplaceAccount> {
    Cpi::TransferChecked {
        from: MarketplaceAccount::Vault,
        mint: MarketplaceAccount::MakerMint,
        to: MarketplaceAccount::TakerAta,
        authority: MarketplaceAccount::Listing,
        amount: 1,
        decimals: 0,
        signer: Some(listing_seeds(ctx)),
    }
}

/// The vault is closed, its rent going back to the maker, signed for the listing.
pub open spec fn vault_closing(ctx: Purchase) -> Cpi<MarketplaceAccount> {
    Cpi::CloseAccount {
        account: MarketplaceAccount::Vault,
        destination: MarketplaceAccount::Maker,
        authority: MarketplaceAccount::Listing,
        signer: Some(listing_seeds(ctx)),
    }
}

impl Purchase {
    /// The taker's payment for the listing.
    pub fn send_sol(&self) -> (r: Cpi<MarketplaceAccount>)
        ensures
            r == payment(*self),
    {
        Cpi::SystemTransfer {
            from: MarketplaceAccount::Taker,
            to: MarketplaceAccount::Maker,
            lamports: self.listing.price,
            signer: None,
        }
    }

    /// The delivery of the listed NFT to the taker.
    pub fn transfer_nft(&self) -> (r: Cpi<MarketplaceAccount>)
        ensures
            r == nft_delivery(*self),
    {
        Cpi::TransferChecked {
            from: MarketplaceAccount::Vault,
            mint: MarketplaceAccount::MakerMint,
            to: MarketplaceAccount::TakerAta,
            authority: MarketplaceAccount::Listing,
            amount: 1,
            decimals: 0,
            signer: Some(
                SignerSeeds::Listing {
                    marketplace: self.marketplace_key,
                    mint: self.listing.mint,
                    bump: self.listing.bump,
                },
            ),
        }
    }

    /// The closing of the emptied vault.
    pub fn close_listing(&self) -> (r: Cpi<MarketplaceAccount>)
        ensures
            r == vault_closing(*self),
    {
        Cpi::CloseAccount {
            account: MarketplaceAccount::Vault,
            destination: MarketplaceAccount::Maker,
            authority: MarketplaceAccount::Listing,
            signer: Some(
                SignerSeeds::Listing {
                    marketplace: self.marketplace_key,
                    mint: self.listing.mint,
                    bump: self.listing.bump,
                },
            ),
        }
    }
}

/// The instruction that buys a listed NFT: payment, delivery, then closing.
pub fn purchase(ctx: &Purchase) -> (r: Vec<Cpi<MarketplaceAccount>>)
    ensures
        r@ == seq![payment(*ctx), nft_delivery(*ctx), vault_closing(*ctx)],
{
    let mut calls: Vec<Cpi<MarketplaceAccount>> = Vec::new();
    calls.push(ctx.send_sol());
    calls.push(ctx.transfer_nft());
    calls.push(ctx.close_listing());
    assert(calls@ =~= seq![payment(*ctx), nft_delivery(*ctx), vault_closing(*ctx)]);
    calls
}

/// A purchase moves, in lamports, exactly the listing's price out of the taker
/// and into the maker, and nothing into or out of the vault; it hands the taker
/// exactly one whole token out of the vault, then closes the vault to the maker.
pub proof fn lemma_purchase_moves_exactly_the_price(ctx: Purchase)
    ensures
        net_lamports(
            seq![payment(ctx), nft_delivery(ctx), vault_closing(ctx)],
            MarketplaceAccount::Taker,
        ) == -(ctx.listing.price as int),
        net_lamports(
            seq![payment(ctx), nft_delivery(ctx), vault_closing(ctx)],
            MarketplaceAccount::Maker,
        ) == ctx.listing.price as int,
        net_lamports(
            seq![payment(ctx), nft_delivery(ctx), vault_closing(ctx)],
            MarketplaceAccount::Vault,
        ) == 0,
        (nft_delivery(ctx) matches Cpi::TransferChecked { from, to, amount, decimals, .. } && from
            == MarketplaceAccount::Vault && to == MarketplaceAccount::TakerAta && amount == 1
            && decimals == 0),
        (vault_closing(ctx) matches Cpi::CloseAccount { account, destination, .. } && account
            == MarketplaceAccount::Vault && destination == MarketplaceAccount::Maker),
{
    let a = payment(ctx);
    let b = nft_delivery(ctx);
    let c = vault_closing(ctx);
    assert(seq![a, b, c] =~= seq![a].push(b).push(c));
    assert forall|who: MarketplaceAccount| #![auto]
        net_lamports(seq![a, b, c], who) == net_lamports(seq![a], who) by {
        lemma_net_lamports_push(seq![a].push(b), c, who);
        lemma_net_lamports_push(seq![a], b, who);
        lemma_net_lamports_single(b, who);
        lemma_net_lamports_single(c, who);
    }
    lemma_net_lamports_single(a, MarketplaceAccount::Taker);
    lemma_net_lamports_single(a, MarketplaceAccount::Maker);
    lemma_net_lamports_single(a, MarketplaceAccount::Vault);
}

/// Names are measured in bytes: an ASCII name is accepted exactly when it has
/// one to thirty-two characters, and no name longer than thirty-two bytes, nor
/// the empty name, is accepted.
pub proof fn lemma_name_rule(name: Seq<char>)
    ensures
        vstd::utf8::is_ascii_chars(name) ==> (name_accepted(name) <==> 1 <= name.len() <= 32),
        name.len() == 0 ==> !name_accepted(name),
        name_accepted(name) ==> 1 <= name_len(name) <= 32,
{
    if vstd::utf8::is_ascii_chars(name) {
        vstd::utf8::is_ascii_chars_encode_utf8(name);
    }
    if name.len() == 0 {
        assert(vstd::utf8::encode_utf8(name) =~= Seq::<u8>::empty());
    }
}

} // verus!
