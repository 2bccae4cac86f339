use vstd::prelude::*;

use crate::cpi::Cpi;
use crate::key::Key;
use crate::seeds::SignerSeeds;

verus! {

/// Seconds in a day: points accrue per whole day staked.
pub const SECONDS_PER_DAY: i64 = 60 * 60 * 24;

/// The staking program's settings.
#[derive(Clone, Copy, Debug, PartialEq, Eq)]
pub struct StakeConfig {
    pub points_per_stake: u8,
    pub max_stake: u8,
    pub rewards_bump: u8,
    pub bump: u8,
}

/// A user's standing: points earned and NFTs staked.
#[derive(Clone, Copy, Debug, PartialEq, Eq)]
pub struct UserAccount {
    pub points: u32,
    pub amount_staked: u8,
    pub bump: u8,
}

/// One staked NFT: when its points were last counted.
#[derive(Clone, Copy, Debug, PartialEq, Eq)]
pub struct StakeAccount {
    pub last_update: i64,
    pub bump: u8,
}

/// Why a staking instruction is refused.
#[derive(Clone, Copy, Debug, PartialEq, Eq)]
pub enum ErrorCode {
    /// Max amount already staked.
    MaxAmountStaked,
}

/// The accounts that the staking program's calls into other programs touch.
#[derive(Clone, Copy, Debug, PartialEq, Eq)]
pub enum StakingAccount {
    Signer,
    SignerAta,
    StakeAccount,
    RewardsMint,
    RewardsAta,
    Config,
    MintAta,
    Edition,
    Mint,
    TokenProgram,
}

/// Ten to the power `n`.
pub open spec fn pow10(n: nat) -> nat
    decreases n,
{
    if n == 0 {
        1
    } else {
        10 * pow10((n - 1) as nat)
    }
}

/// Powers of ten grow with the exponent.
proof fn lemma_pow10_grows(a: nat, b: nat)
    requires
        a <= b,
    ensures
        1 <= pow10(a) <= pow10(b),
    decreases b,
{
    if b > a {
        lemma_pow10_grows(a, (b - 1) as nat);
    } else if a > 0 {
        lemma_pow10_grows((a - 1) as nat, (a - 1) as nat);
    }
}

/// What claiming rewards reads: the reward mint's decimals, the settings and the
/// user's standing.
#[derive(Clone, Copy, Debug, PartialEq, Eq)]
pub struct Claim {
    pub rewards_mint_decimals: u8,
    pub config: StakeConfig,
    pub user_account: UserAccount,
}

/// The reward tokens a claim mints, in the mint's smallest unit: one whole token
/// per point.
pub open spec fn claim_amount(ctx: Claim) -> nat {
    ctx.user_account.points as nat * pow10(ctx.rewards_mint_decimals as nat)
}

/// A claim panics where its amount overflows a `u64`.
pub open spec fn claim_panics(ctx: Claim) -> bool {
    pow10(ctx.rewards_mint_decimals as nat) > u64::MAX || claim_amount(ctx) > u64::MAX
}

/// The call a claim makes: the rewards mint, signed for by the settings account,
/// mints the claim's amount to the user's reward account.
pub open spec fn claim_call(ctx: Claim) -> Cpi<StakingAccount> {
    Cpi::MintTo {
        mint: StakingAccount::RewardsMint,
        to: StakingAccount::RewardsAta,
        authority: StakingAccount::Config,
        amount: claim_amount(ctx) as u64,
        signer: Some(SignerSeeds::StakeConfig { bump: ctx.config.bump }),
    }
}

/// Ten to the power `n`, as `u64::pow` computes it.
fn pow10_u64(n: u8) -> (r: u64)
    requires
        pow10(n as nat) <= u64::MAX,
    ensures
        r == pow10(n as nat),
{
    let mut r: u64 = 1;
    let mut i: u8 = 0;
    while i < n
        invariant
            i <= n,
            r == pow10(i as nat),
            pow10(n as nat) <= u64::MAX,
        decreases n - i,
    {
        proof {
            lemma_pow10_grows((i + 1) as nat, n as nat);
        }
        r = r * 10;
        i = i + 1;
    }
    r
}

/// Ten to the power `n`, or `None` where that overflows a `u64`.
fn checked_pow10(n: u8) -> (r: Option<u64>)
    ensures
        r is Some <==> pow10(n as nat) <= u64::MAX,
        r is Some ==> r->0 == pow10(n as nat),
{
    let mut r: u64 = 1;
    let mut i: u8 = 0;
    while i < n
        invariant
            i <= n,
            r == pow10(i as nat),
        decreases n - i,
    {
        match r.checked_mul(10) {
            Some(next) => {
                r = next;
            },
            None => {
                proof {
                    lemma_pow10_grows((i + 1) as nat, n as nat);
                }
                return None;
            },
        }
        i = i + 1;
    }
    Some(r)
}

impl Claim {
    /// Whether claiming now would panic on overflow.
    pub fn panics(&self) -> (r: bool)
        ensures
            r == claim_panics(*self),
    {
        match checked_pow10(self.rewards_mint_decimals) {
            None => true,
            Some(unit) => (self.user_account.points as u64).checked_mul(unit).is_none(),
        }
    }

    /// Mints the user's points as reward tokens. The points are kept.
    pub fn claim(&mut self) -> (r: Cpi<StakingAccount>)
        requires
            !claim_panics(*old(self)),
        ensures
            *final(self) == *old(self),
            r == claim_call(*old(self)),
    {
        let unit = pow10_u64(self.rewards_mint_decimals);
        proof {
            lemma_pow10_grows(0, self.rewards_mint_decimals as nat);
            assert(self.user_account.points as nat * unit as nat <= u64::MAX);
        }
        let amount_to_mint = (self.user_account.points as u64) * unit;
        Cpi::MintTo {
            mint: StakingAccount::RewardsMint,
            to: StakingAccount::RewardsAta,
            authority: StakingAccount::Config,
            amount: amount_to_mint,
            signer: Some(SignerSeeds::StakeConfig { bump: self.config.bump }),
        }
    }
}

/// What staking reads: the settings and the user's standing.
#[derive(Clone, Copy, Debug, PartialEq, Eq)]
pub struct Stake {
    pub config: StakeConfig,
    pub user_account: UserAccount,
}

/// The call that staking makes: the stake account becomes the delegate of one
/// token of the signer's NFT account.
pub open spec fn stake_call() -> Cpi<StakingAccount> {
    Cpi::Approve {
        to: StakingAccount::SignerAta,
        delegate: StakingAccount::StakeAccount,
        authority: StakingAccount::Signer,
        amount: 1,
        signer: None,
    }
}

impl Stake {
    /// Stakes an NFT, refused once the user has as many staked as the settings allow.
    pub fn stake(&mut self) -> (r: Result<Cpi<StakingAccount>, ErrorCode>)
        ensures
            *final(self) == *old(self),
            r is Err <==> old(self).user_account.amount_staked >= old(self).config.max_stake,
            r is Err ==> r->Err_0 == ErrorCode::MaxAmountStaked,
            r is Ok ==> r->Ok_0 == stake_call(),
    {
        if !(self.user_account.amount_staked < self.config.max_stake) {
            return Err(ErrorCode::MaxAmountStaked);
        }
        Ok(
            Cpi::Approve {
                to: StakingAccount::SignerAta,
                delegate: StakingAccount::StakeAccount,
                authority: StakingAccount::Signer,
                amount: 1,
                signer: None,
            },
        )
    }
}

/// What unstaking reads: the user and settings addresses, the settings, the
/// user's standing and the stake account.
#[derive(Clone, Copy, Debug, PartialEq, Eq)]
pub struct Unstake {
    pub user: Key,
    pub config_key: Key,
    pub config: StakeConfig,
    pub user_account: UserAccount,
    pub stake_account: StakeAccount,
}

/// Whole days from `last_update` to `now`, the quotient rounded toward zero.
pub open spec fn whole_days(last_update: i64, now: i64) -> int {
    let elapsed = now - last_update;
    if elapsed >= 0 {
        elapsed / 86400
    } else {
        -((-elapsed) / 86400)
    }
}

/// The points that unstaking adds: the whole days, cut to 32 bits, times the
/// points per stake.
pub open spec fn accrued_points(ctx: Unstake, now: i64) -> int {
    (whole_days(ctx.stake_account.last_update, now) as u32) as int * ctx.config.points_per_stake as int
}

/// Unstaking panics where the elapsed time overflows an `i64`, where the points
/// overflow a `u32`, or where nothing is staked.
pub open spec fn unstake_panics(ctx: Unstake, now: i64) -> bool {
    ||| now - ctx.stake_account.last_update > i64::MAX
    ||| now - ctx.stake_account.last_update < i64::MIN
    ||| accrued_points(ctx, now) > u32::MAX
    ||| ctx.user_account.points + accrued_points(ctx, now) > u32::MAX
    ||| ctx.user_account.amount_staked == 0
}

/// The calls that unstaking makes: the stake account thaws the user's NFT
/// account, signing for itself, then the delegation is taken back.
pub open spec fn unstake_calls(ctx: Unstake) -> Seq<Cpi<StakingAccount>> {
    seq![
        Cpi::ThawDelegatedAccount {
            delegate: StakingAccount::StakeAccount,
            token_account: StakingAccount::MintAta,
            edition: StakingAccount::Edition,
            mint: StakingAccount::Mint,
            token_program: StakingAccount::TokenProgram,
            signer: Some(
                SignerSeeds::StakeAccount {
                    user: ctx.user,
                    config: ctx.config_key,
                    bump: ctx.stake_account.bump,
                },
            ),
        },
        Cpi::Revoke {
            source: StakingAccount::MintAta,
            authority: StakingAccount::StakeAccount,
            signer: None,
        },
    ]
}

impl Unstake {
    /// Whether unstaking at time `current_time` would panic.
    pub fn panics_at(&self, current_time: i64) -> (r: bool)
        ensures
            r == unstake_panics(*self, current_time),
    {
        let elapsed = match current_time.checked_sub(self.stake_account.last_update) {
            Some(e) => e,
            None => {
                return true;
            },
        };
        let days: i64 = elapsed / SECONDS_PER_DAY;
        let time_passed: u32 = days as u32;
        let accrued = match time_passed.checked_mul(self.config.points_per_stake as u32) {
            Some(a) => a,
            None => {
                return true;
            },
        };
        self.user_account.points.checked_add(accrued).is_none() || self.user_account.amount_staked
            == 0
    }

    /// Unstakes an NFT at time `current_time`: credits the points of the whole days
    /// staked and counts one NFT fewer.
    pub fn unstake(&mut self, current_time: i64) -> (r: Vec<Cpi<StakingAccount>>)
        requires
            !unstake_panics(*old(self), current_time),
        ensures
            final(self).user_account.points == old(self).user_account.points + accrued_points(
                *old(self),
                current_time,
            ),
            final(self).user_account.amount_staked == old(self).user_account.amount_staked - 1,
            final(self).user_account.bump == old(self).user_account.bump,
            final(self).user == old(self).user,
            final(self).config_key == old(self).config_key,
            final(self).config == old(self).config,
            final(self).stake_account == old(self).stake_account,
            r@ == unstake_calls(*old(self)),
    {
        let ghost pre = *self;
        let last_update = self.stake_account.last_update;
        let elapsed: i64 = current_time - last_update;
        let days: i64 = elapsed / SECONDS_PER_DAY;
        let time_passed: u32 = days as u32;
        let points_per_stake: u32 = self.config.points_per_stake as u32;
        assert(time_passed as int * points_per_stake as int == accrued_points(pre, current_time));
        let accrued: u32 = time_passed * points_per_stake;
        self.user_account.points = self.user_account.points + accrued;
        let mut calls: Vec<Cpi<StakingAccount>> = Vec::new();
        calls.push(
            Cpi::ThawDelegatedAccount {
                delegate: StakingAccount::StakeAccount,
                token_account: StakingAccount::MintAta,
                edition: StakingAccount::Edition,
                mint: StakingAccount::Mint,
                token_program: StakingAccount::TokenProgram,
                signer: Some(
                    SignerSeeds::StakeAccount {
                        user: self.user,
                        config: self.config_key,
                        bump: self.stake_account.bump,
                    },
                ),
            },
        );
        self.user_account.amount_staked = self.user_account.amount_staked - 1;
        calls.push(
            Cpi::Revoke {
                source: StakingAccount::MintAta,
                authority: StakingAccount::StakeAccount,
                signer: None,
            },
        );
        assert(calls@ =~= unstake_calls(pre));
        calls
    }
}

/// Unstaking never takes points away.
pub proof fn lemma_unstake_never_lowers_points(ctx: Unstake, now: i64)
    ensures
        accrued_points(ctx, now) >= 0,
        ctx.user_account.points + accrued_points(ctx, now) >= ctx.user_account.points,
{
}

/// Points accrue per whole day: from `last_update` on, a stake earns nothing in
/// its first day, and `points_per_stake` for each whole day after, while the
/// count of days fits in 32 bits.
pub proof fn lemma_points_per_whole_day(ctx: Unstake, now: i64)
    requires
        ctx.stake_account.last_update <= now,
        (now - ctx.stake_account.last_update) / 86400 <= u32::MAX,
    ensures
        accrued_points(ctx, now) == ((now - ctx.stake_account.last_update) / 86400)
            * ctx.config.points_per_stake,
        now - ctx.stake_account.last_update < 86400 ==> accrued_points(ctx, now) == 0,
{
    let elapsed = now - ctx.stake_account.last_update;
    if elapsed < 86400 {
        assert(elapsed / 86400 == 0);
    }
}

/// A claim mints one whole reward token per point: with no decimals exactly the
/// points, every further decimal ten times as much, and every further point one
/// more whole token; it never panics for a mint without decimals, and otherwise
/// mints that amount into the user's reward account.
pub proof fn lemma_claim_whole_tokens(ctx: Claim)
    ensures
        ({
            let whole = Claim { rewards_mint_decimals: 0, ..ctx };
            claim_amount(whole) == ctx.user_account.points && !claim_panics(whole)
        }),
        ({
            let finer = Claim { rewards_mint_decimals: (ctx.rewards_mint_decimals + 1) as u8, ..ctx };
            ctx.rewards_mint_decimals < 255 ==> claim_amount(finer) == 10 * claim_amount(ctx)
        }),
        ({
            let one = Claim { user_account: UserAccount { points: 1, ..ctx.user_account }, ..ctx };
            let more = Claim {
                user_account: UserAccount {
                    points: (ctx.user_account.points + 1) as u32,
                    ..ctx.user_account
                },
                ..ctx
            };
            ctx.user_account.points < u32::MAX ==> claim_amount(more) == claim_amount(ctx)
                + claim_amount(one)
        }),
        !claim_panics(ctx) ==> (claim_call(ctx) matches Cpi::MintTo { amount, to, mint, .. }
            && amount == claim_amount(ctx) && to == StakingAccount::RewardsAta && mint
            == StakingAccount::RewardsMint),
{
    let p = ctx.user_account.points as nat;
    let d = ctx.rewards_mint_decimals as nat;
    let u = pow10(d);
    assert(pow10(0) == 1);
    assert(pow10(d + 1) == 10 * u);
    assert(p * 1 == p) by (nonlinear_arith);
    assert(p * (10 * u) == 10 * (p * u)) by (nonlinear_arith);
    assert((p + 1) * u == p * u + 1 * u) by (nonlinear_arith);
}

/// Whole days round toward zero either way: counting from `now` back to
/// `last_update` gives the same days, negated; a day's worth of seconds more
/// counts one day more, once the time is not before the last update.
pub proof fn lemma_whole_days_round_toward_zero(last_update: i64, now: i64)
    ensures
        whole_days(last_update, now) == -whole_days(now, last_update),
        last_update <= now ==> 0 <= whole_days(last_update, now) && whole_days(last_update, now)
            * 86400 <= now - last_update < (whole_days(last_update, now) + 1) * 86400,
        now < last_update ==> whole_days(last_update, now) <= 0 && (whole_days(last_update, now)
            - 1) * 86400 < now - last_update <= whole_days(last_update, now) * 86400,
{
}

/// Staking asks the token program to let the stake account move exactly one
/// token out of the signer's NFT account, on the signer's authority.
pub proof fn lemma_stake_delegates_one_token()
    ensures
        (stake_call() matches Cpi::Approve { to, delegate, authority, amount, signer } && to
            == StakingAccount::SignerAta && delegate == StakingAccount::StakeAccount && authority
            == StakingAccount::Signer && amount == 1 && signer is None),
{
}

/// Unstaking thaws the user's NFT account, the stake account signing with the
/// `stake` tag, the user's and settings' addresses and its bump, then takes the
/// delegation back from that same account.
pub proof fn lemma_unstake_thaws_then_revokes(ctx: Unstake)
    ensures
        unstake_calls(ctx).len() == 2,
        (unstake_calls(ctx)[0] matches Cpi::ThawDelegatedAccount {
            delegate,
            token_account,
            signer,
            ..
        } && delegate == StakingAccount::StakeAccount && token_account == StakingAccount::MintAta
            && signer is Some && signer->0.words() == seq![
            crate::seeds::stake_tag(),
            ctx.user@,
            ctx.config_key@,
            seq![ctx.stake_account.bump],
        ]),
        (unstake_calls(ctx)[1] matches Cpi::Revoke { source, authority, .. } && source
            == StakingAccount::MintAta && authority == StakingAccount::StakeAccount),
{
}

} // verus!
