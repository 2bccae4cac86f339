use solana_programs::amm::{
    initialize, AmmAccount, AmmError, Config, DepositAndMint, Initalize, InitalizeBumps,
};
use solana_programs::cpi::Cpi;
use solana_programs::key::Key;
use solana_programs::seeds::SignerSeeds;

fn blank_config() -> Config {
    Config { mint_x: Key::new([0u8; 32]), mint_y: Key::new([0u8; 32]), fee: 0, bump: 0, seed: 0, lp_bump: 0 }
}

fn opening() -> Initalize {
    Initalize {
        mint_x: Key::new([1u8; 32]),
        mint_x_decimals: 6,
        mint_y: Key::new([2u8; 32]),
        mint_y_decimals: 9,
        config: blank_config(),
    }
}

fn pool() -> DepositAndMint {
    DepositAndMint {
        mint_x: Key::new([1u8; 32]),
        mint_x_decimals: 6,
        mint_y: Key::new([2u8; 32]),
        mint_y_decimals: 9,
        config: Config {
            mint_x: Key::new([1u8; 32]),
            mint_y: Key::new([2u8; 32]),
            fee: 30,
            bump: 250,
            seed: 42,
            lp_bump: 251,
        },
    }
}

#[test]
fn save_config_records_the_mints_and_terms() {
    let mut ctx = opening();
    assert_eq!(ctx.save_config(42, 30, 250, 251), Ok(()));
    assert_eq!(
        ctx.config,
        Config {
            mint_x: Key::new([1u8; 32]),
            mint_y: Key::new([2u8; 32]),
            fee: 30,
            bump: 250,
            seed: 42,
            lp_bump: 251
        }
    );
}

#[test]
fn deposit_picks_the_side() {
    let p = pool();
    assert_eq!(
        p.deposit(100, true),
        Cpi::TransferChecked {
            from: AmmAccount::MakerAtaX,
            mint: AmmAccount::MintX,
            to: AmmAccount::VaultX,
            authority: AmmAccount::Maker,
            amount: 100,
            decimals: 6,
            signer: None
        }
    );
    assert_eq!(
        p.deposit(7, false),
        Cpi::TransferChecked {
            from: AmmAccount::MakerAtaY,
            mint: AmmAccount::MintY,
            to: AmmAccount::VaultY,
            authority: AmmAccount::Maker,
            amount: 7,
            decimals: 9,
            signer: None
        }
    );
}

#[test]
fn mint_lp_tokens_mints_the_product() {
    let p = pool();
    assert_eq!(
        p.mint_lp_tokens(1_000, 3_000),
        Ok(Cpi::MintTo {
            mint: AmmAccount::MintLp,
            to: AmmAccount::MakerAtaLp,
            authority: AmmAccount::Config,
            amount: 3_000_000,
            signer: Some(SignerSeeds::AmmConfig {
                mint_x: Key::new([1u8; 32]),
                mint_y: Key::new([2u8; 32]),
                seed: 42,
                bump: 250
            })
        })
    );
}

#[test]
fn mint_lp_tokens_refuses_overflow() {
    let p = pool();
    assert_eq!(p.mint_lp_tokens(u64::MAX, 2), Err(AmmError::ArithmeticOverflow));
    assert_eq!(p.mint_lp_tokens(1 << 32, 1 << 32), Err(AmmError::ArithmeticOverflow));
    assert!(p.mint_lp_tokens(u64::MAX, 1).is_ok());
    assert!(p.mint_lp_tokens(0, u64::MAX).is_ok());
}

#[test]
fn initialize_saves_deposits_and_mints() {
    let mut ctx = opening();
    let bumps = InitalizeBumps { config: 250, mint_lp: 251 };
    let calls = initialize(&mut ctx, 42, 30, 1_000, 3_000, &bumps).unwrap();
    assert_eq!(ctx.config, pool().config);
    assert_eq!(calls, vec![pool().deposit(1_000, true), pool().deposit(3_000, false), pool().mint_lp_tokens(1_000, 3_000).unwrap()]);
}

#[test]
fn initialize_refused_leaves_config() {
    let mut ctx = opening();
    let bumps = InitalizeBumps { config: 250, mint_lp: 251 };
    assert_eq!(initialize(&mut ctx, 42, 30, u64::MAX, 3, &bumps), Err(AmmError::ArithmeticOverflow));
    assert_eq!(ctx, opening());
}
