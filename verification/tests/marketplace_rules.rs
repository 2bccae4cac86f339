use solana_programs::cpi::Cpi;
use solana_programs::key::Key;
use solana_programs::marketplace::{
    initialize, Initialize, InitializeBumps, Listing, Marketplace, MarketplaceAccount,
    MarketplaceError, Purchase,
};
use solana_programs::seeds::SignerSeeds;

fn empty() -> Initialize {
    Initialize {
        admin: Key::new([1u8; 32]),
        marketplace: Marketplace {
            admin: Key::new([0u8; 32]),
            fee: 0,
            bump: 0,
            rewards_bump: 0,
            treasury_bump: 0,
            name: String::new(),
        },
    }
}

const BUMPS: InitializeBumps = InitializeBumps { marketplace: 1, rewards_mint: 2, treasury: 3 };

#[test]
fn init_records_the_marketplace() {
    let mut ctx = empty();
    assert_eq!(ctx.init("Turbine".to_string(), 250, &BUMPS), Ok(()));
    let m = &ctx.marketplace;
    assert_eq!(m.admin, Key::new([1u8; 32]));
    assert_eq!(m.fee, 250);
    assert_eq!((m.bump, m.rewards_bump, m.treasury_bump), (1, 2, 3));
    assert_eq!(m.name, "Turbine");
}

#[test]
fn init_refuses_empty_and_long_names() {
    let mut ctx = empty();
    assert_eq!(initialize(&mut ctx, String::new(), 1, &BUMPS), Err(MarketplaceError::NameTooLong));
    assert_eq!(initialize(&mut ctx, "x".repeat(33), 1, &BUMPS), Err(MarketplaceError::NameTooLong));
    assert_eq!(ctx.marketplace.name, "");
    assert_eq!(ctx.marketplace.fee, 0);
    assert_eq!(initialize(&mut ctx, "x".repeat(32), 1, &BUMPS), Ok(()));
}

#[test]
fn init_counts_bytes_not_characters() {
    let mut ctx = empty();
    // Eleven three-byte characters: 33 bytes.
    assert_eq!(initialize(&mut ctx, "€".repeat(11), 1, &BUMPS), Err(MarketplaceError::NameTooLong));
    assert_eq!(initialize(&mut ctx, "€".repeat(10), 1, &BUMPS), Ok(()));
}

#[test]
fn purchase_pays_delivers_and_closes() {
    let ctx = Purchase {
        marketplace_key: Key::new([4u8; 32]),
        listing: Listing { mint: Key::new([5u8; 32]), price: 1_500_000_000, bump: 6 },
    };
    let seeds = Some(SignerSeeds::Listing { marketplace: Key::new([4u8; 32]), mint: Key::new([5u8; 32]), bump: 6 });
    assert_eq!(
        solana_programs::marketplace::purchase(&ctx),
        vec![
            Cpi::SystemTransfer {
                from: MarketplaceAccount::Taker,
                to: MarketplaceAccount::Maker,
                lamports: 1_500_000_000,
                signer: None
            },
            Cpi::TransferChecked {
                from: MarketplaceAccount::Vault,
                mint: MarketplaceAccount::MakerMint,
                to: MarketplaceAccount::TakerAta,
                authority: MarketplaceAccount::Listing,
                amount: 1,
                decimals: 0,
                signer: seeds
            },
            Cpi::CloseAccount {
                account: MarketplaceAccount::Vault,
                destination: MarketplaceAccount::Maker,
                authority: MarketplaceAccount::Listing,
                signer: seeds
            },
        ]
    );
    assert_eq!(ctx.send_sol(), solana_programs::marketplace::purchase(&ctx)[0]);
    assert_eq!(ctx.transfer_nft(), solana_programs::marketplace::purchase(&ctx)[1]);
    assert_eq!(ctx.close_listing(), solana_programs::marketplace::purchase(&ctx)[2]);
}
