use solana_programs::cpi::Cpi;
use solana_programs::key::Key;
use solana_programs::nft_staking::{
    Claim, ErrorCode, Stake, StakeAccount, StakeConfig, StakingAccount, Unstake, UserAccount,
    SECONDS_PER_DAY,
};
use solana_programs::seeds::SignerSeeds;

fn config() -> StakeConfig {
    StakeConfig { points_per_stake: 10, max_stake: 3, rewards_bump: 7, bump: 8 }
}

fn unstaking(points: u32, staked: u8, last_update: i64) -> Unstake {
    Unstake {
        user: Key::new([1u8; 32]),
        config_key: Key::new([2u8; 32]),
        config: config(),
        user_account: UserAccount { points, amount_staked: staked, bump: 4 },
        stake_account: StakeAccount { last_update, bump: 5 },
    }
}

#[test]
fn claim_mints_whole_tokens_per_point() {
    let mut ctx = Claim { rewards_mint_decimals: 6, config: config(), user_account: UserAccount { points: 5, amount_staked: 1, bump: 4 } };
    let before = ctx;
    assert!(!ctx.panics());
    assert_eq!(
        ctx.claim(),
        Cpi::MintTo {
            mint: StakingAccount::RewardsMint,
            to: StakingAccount::RewardsAta,
            authority: StakingAccount::Config,
            amount: 5_000_000,
            signer: Some(SignerSeeds::StakeConfig { bump: 8 })
        }
    );
    // Points are not spent: a second claim mints the same again.
    assert_eq!(ctx, before);
    assert_eq!(ctx.claim(), ctx.claim());
}

#[test]
fn claim_overflow_panics() {
    let ctx = Claim { rewards_mint_decimals: 20, config: config(), user_account: UserAccount { points: 1, amount_staked: 1, bump: 4 } };
    assert!(ctx.panics());
    let ctx = Claim { rewards_mint_decimals: 19, config: config(), user_account: UserAccount { points: 1, amount_staked: 1, bump: 4 } };
    assert!(!ctx.panics());
    let ctx = Claim { rewards_mint_decimals: 19, config: config(), user_account: UserAccount { points: 2, amount_staked: 1, bump: 4 } };
    assert!(ctx.panics());
}

#[test]
fn stake_respects_the_limit() {
    let mut ctx = Stake { config: config(), user_account: UserAccount { points: 0, amount_staked: 2, bump: 4 } };
    assert_eq!(
        ctx.stake(),
        Ok(Cpi::Approve {
            to: StakingAccount::SignerAta,
            delegate: StakingAccount::StakeAccount,
            authority: StakingAccount::Signer,
            amount: 1,
            signer: None
        })
    );
    assert_eq!(ctx.user_account.amount_staked, 2);
    let mut full = Stake { config: config(), user_account: UserAccount { points: 0, amount_staked: 3, bump: 4 } };
    assert_eq!(full.stake(), Err(ErrorCode::MaxAmountStaked));
}

#[test]
fn unstake_credits_whole_days() {
    let mut ctx = unstaking(5, 2, 1_000);
    let calls = ctx.unstake(1_000 + 3 * SECONDS_PER_DAY + SECONDS_PER_DAY - 1);
    assert_eq!(ctx.user_account.points, 35);
    assert_eq!(ctx.user_account.amount_staked, 1);
    assert_eq!(
        calls,
        vec![
            Cpi::ThawDelegatedAccount {
                delegate: StakingAccount::StakeAccount,
                token_account: StakingAccount::MintAta,
                edition: StakingAccount::Edition,
                mint: StakingAccount::Mint,
                token_program: StakingAccount::TokenProgram,
                signer: Some(SignerSeeds::StakeAccount {
                    user: Key::new([1u8; 32]),
                    config: Key::new([2u8; 32]),
                    bump: 5
                })
            },
            Cpi::Revoke { source: StakingAccount::MintAta, authority: StakingAccount::StakeAccount, signer: None },
        ]
    );
}

#[test]
fn unstake_within_a_day_earns_nothing() {
    let mut ctx = unstaking(5, 1, 1_000);
    ctx.unstake(1_000 + SECONDS_PER_DAY - 1);
    assert_eq!(ctx.user_account.points, 5);
    assert_eq!(ctx.user_account.amount_staked, 0);
}

#[test]
fn unstake_before_last_update_wraps_days() {
    // Minus one whole day, cut to 32 bits, is u32::MAX days: the points overflow.
    let ctx = unstaking(0, 1, 2 * SECONDS_PER_DAY);
    assert!(ctx.panics_at(SECONDS_PER_DAY - 1));
    // Less than a day back rounds toward zero: nothing accrues.
    let mut ctx = unstaking(7, 1, SECONDS_PER_DAY);
    assert!(!ctx.panics_at(1));
    ctx.unstake(1);
    assert_eq!(ctx.user_account.points, 7);
}

#[test]
fn unstake_panics_cases() {
    assert!(unstaking(5, 0, 0).panics_at(10));
    assert!(unstaking(u32::MAX, 1, 0).panics_at(SECONDS_PER_DAY));
    assert!(!unstaking(u32::MAX, 1, 0).panics_at(SECONDS_PER_DAY - 1));
    assert!(unstaking(0, 1, i64::MIN).panics_at(1));
}
