use vstd::prelude::*;

use crate::cpi::Cpi;
use crate::key::Key;
use crate::seeds::SignerSeeds;

verus! {

/// A pool's settings. The fee is in hundredths of a percent: 10000 is all of it.
#[derive(Clone, Copy, Debug, PartialEq, Eq)]
pub struct Config {
    pub mint_x: Key,
    pub mint_y: Key,
    pub fee: u16,
    pub bump: u8,
    pub seed: u64,
    pub lp_bump: u8,
}

/// Why a pool instruction is refused.
#[derive(Clone, Copy, Debug, PartialEq, Eq)]
pub enum AmmError {
    /// The liquidity-token amount overflows a `u64`.
    ArithmeticOverflow,
}

/// The accounts that the pool's calls into other programs touch.
#[derive(Clone, Copy, Debug, PartialEq, Eq)]
pub enum AmmAccount {
    Maker,
    MintX,
    MintY,
    Config,
    MintLp,
    VaultX,
    VaultY,
    MakerAtaX,
    MakerAtaY,
    MakerAtaLp,
}

/// The bump seeds found for the addresses a pool derives.
#[derive(Clone, Copy, Debug, PartialEq, Eq)]
pub struct InitalizeBumps {
    pub config: u8,
    pub mint_lp: u8,
}

/// What opening a pool reads: the two mints, with their decimals, and the
/// pool's settings account.
#[derive(Clone, Copy, Debug, PartialEq, Eq)]
pub struct Initalize {
    pub mint_x: Key,
    pub mint_x_decimals: u8,
    pub mint_y: Key,
    pub mint_y_decimals: u8,
    pub config: Config,
}

/// What depositing and minting read: the two mints, with their decimals, and
/// the pool's settings.
#[derive(Clone, Copy, Debug, PartialEq, Eq)]
pub struct DepositAndMint {
    pub mint_x: Key,
    pub mint_x_decimals: u8,
    pub mint_y: Key,
    pub mint_y_decimals: u8,
    pub config: Config,
}

/// The settings that opening a pool records.
pub open spec fn saved_config(ctx: Initalize, seed: u64, fee: u16, bump: u8, lp_bump: u8) -> Config {
    Config { mint_x: ctx.mint_x, mint_y: ctx.mint_y, fee, bump, seed, lp_bump }
}

/// The maker's deposit of `amount` tokens of one side into that side's vault.
pub open spec fn deposit_call(ctx: DepositAndMint, amount: u64, is_x: bool) -> Cpi<AmmAccount> {
    if is_x {
        Cpi::TransferChecked {
            from: AmmAccount::MakerAtaX,
            mint: AmmAccount::MintX,
            to: AmmAccount::VaultX,
            authority: AmmAccount::Maker,
            amount,
            decimals: ctx.mint_x_decimals,
            signer: None,
        }
    } else {
        Cpi::TransferChecked {
            from: AmmAccount::MakerAtaY,
            mint: AmmAccount::MintY,
            to: AmmAccount::VaultY,
            authority: AmmAccount::Maker,
            amount,
            decimals: ctx.mint_y_decimals,
            signer: None,
        }
    }
}

/// The liquidity tokens owed for depositing `amount_x` and `amount_y`: their product.
pub open spec fn lp_amount(amount_x: u64, amount_y: u64) -> int {
    amount_x * amount_y
}

/// The minting of `amount` liquidity tokens to the maker, signed for the pool.
pub open spec fn lp_mint_call(ctx: DepositAndMint, amount: u64) -> Cpi<AmmAccount> {
    Cpi::MintTo {
        mint: AmmAccount::MintLp,
        to: AmmAccount::MakerAtaLp,
        authority: AmmAccount::Config,
        amount,
        signer: Some(
            SignerSeeds::AmmConfig {
                mint_x: ctx.mint_x,
                mint_y: ctx.mint_y,
                seed: ctx.config.seed,
                bump: ctx.config.bump,
            },
        ),
    }
}

impl Initalize {
    /// Records the pool's settings.
    pub fn save_config(&mut self, seed: u64, fee: u16, bump: u8, lp_bump: u8) -> (r: Result<
        (),
        AmmError,
    >)
        ensures
            r is Ok,
            *final(self) == (Initalize {
                config: saved_config(*old(self), seed, fee, bump, lp_bump),
                ..*old(self)
            }),
    {
        self.config = Config {
            mint_x: self.mint_x,
            mint_y: self.mint_y,
            fee,
            bump,
            seed,
            lp_bump,
        };
        Ok(())
    }
}

impl DepositAndMint {
    /// The maker's deposit of `amount` tokens into the X vault, or the Y vault
    /// where `is_x` is false.
    pub fn deposit(&self, amount: u64, is_x: bool) -> (r: Cpi<AmmAccount>)
        ensures
            r == deposit_call(*self, amount, is_x),
    {
        if is_x {
            Cpi::TransferChecked {
                from: AmmAccount::MakerAtaX,
                mint: AmmAccount::MintX,
                to: AmmAccount::VaultX,
                authority: AmmAccount::Maker,
                amount,
                decimals: self.mint_x_decimals,
                signer: None,
            }
        } else {
            Cpi::TransferChecked {
                from: AmmAccount::MakerAtaY,
                mint: AmmAccount::MintY,
                to: AmmAccount::VaultY,
                authority: AmmAccount::Maker,
                amount,
                decimals: self.mint_y_decimals,
                signer: None,
            }
        }
    }

    /// Mints the maker `amount_x * amount_y` liquidity tokens, refused where the
    /// product overflows.
    pub fn mint_lp_tokens(&self, amount_x: u64, amount_y: u64) -> (r: Result<
        Cpi<AmmAccount>,
        AmmError,
    >)
        ensures
            r is Err <==> lp_amount(amount_x, amount_y) > u64::MAX,
            r is Err ==> r->Err_0 == AmmError::ArithmeticOverflow,
            r is Ok ==> r->Ok_0 == lp_mint_call(*self, lp_amount(amount_x, amount_y) as u64),
            r is Err <==> amount_x * amount_y > u64::MAX,
            r is Ok ==> (r->Ok_0 matches Cpi::MintTo { amount, to, mint, .. } && amount
                == amount_x * amount_y && to == AmmAccount::MakerAtaLp && mint
                == AmmAccount::MintLp),
    {
        let amount = match amount_x.checked_mul(amount_y) {
            Some(a) => a,
            None => {
                return Err(AmmError::ArithmeticOverflow);
            },
        };
        Ok(
            Cpi::MintTo {
                mint: AmmAccount::MintLp,
                to: AmmAccount::MakerAtaLp,
                authority: AmmAccount::Config,
                amount,
                signer: Some(
                    SignerSeeds::AmmConfig {
                        mint_x: self.mint_x,
                        mint_y: self.mint_y,
                        seed: self.config.seed,
                        bump: self.config.bump,
                    },
                ),
            },
        )
    }
}

/// The pool as depositing and minting see it once its settings are saved.
pub open spec fn pool_of(ctx: Initalize) -> DepositAndMint {
    DepositAndMint {
        mint_x: ctx.mint_x,
        mint_x_decimals: ctx.mint_x_decimals,
        mint_y: ctx.mint_y,
        mint_y_decimals: ctx.mint_y_decimals,
        config: ctx.config,
    }
}

/// The instruction that opens a pool: records its settings, takes the maker's
/// deposits of both sides, and mints the liquidity tokens. Refused, with nothing
/// changed, where the liquidity-token amount overflows.
pub fn initialize(
    ctx: &mut Initalize,
    seed: u64,
    fee: u16,
    amount_x: u64,
    amount_y: u64,
    bumps: &InitalizeBumps,
) -> (r: Result<Vec<Cpi<AmmAccount>>, AmmError>)
    ensures
        r is Err <==> lp_amount(amount_x, amount_y) > u64::MAX,
        r is Err ==> r->Err_0 == AmmError::ArithmeticOverflow && *final(ctx) == *old(ctx),
        r is Ok ==> final(ctx).config == saved_config(
            *old(ctx),
            seed,
            fee,
            bumps.config,
            bumps.mint_lp,
        ) && final(ctx).mint_x == old(ctx).mint_x && final(ctx).mint_y == old(ctx).mint_y
            && final(ctx).mint_x_decimals == old(ctx).mint_x_decimals
            && final(ctx).mint_y_decimals == old(ctx).mint_y_decimals && r->Ok_0@ == seq![
            deposit_call(pool_of(*final(ctx)), amount_x, true),
            deposit_call(pool_of(*final(ctx)), amount_y, false),
            lp_mint_call(pool_of(*final(ctx)), lp_amount(amount_x, amount_y) as u64),
        ],
{
    let before = ctx.config;
    let _ = ctx.save_config(seed, fee, bumps.config, bumps.mint_lp);
    let pool = DepositAndMint {
        mint_x: ctx.mint_x,
        mint_x_decimals: ctx.mint_x_decimals,
        mint_y: ctx.mint_y,
        mint_y_decimals: ctx.mint_y_decimals,
        config: ctx.config,
    };
    let mut calls: Vec<Cpi<AmmAccount>> = Vec::new();
    calls.push(pool.deposit(amount_x, true));
    calls.push(pool.deposit(amount_y, false));
    match pool.mint_lp_tokens(amount_x, amount_y) {
        Ok(mint) => calls.push(mint),
        Err(e) => {
            // A refused instruction leaves every account as it found it.
            ctx.config = before;
            return Err(e);
        },
    }
    assert(calls@ =~= seq![
        deposit_call(pool, amount_x, true),
        deposit_call(pool, amount_y, false),
        lp_mint_call(pool, lp_amount(amount_x, amount_y) as u64),
    ]);
    Ok(calls)
}

/// The liquidity tokens owed are the product of the two deposits: nothing for an
/// empty side, and each further token on one side adds the other side's amount.
/// The mint call mints exactly that product into the maker's liquidity account.
pub proof fn lemma_lp_amount_is_product(ctx: DepositAndMint, amount_x: u64, amount_y: u64)
    ensures
        lp_amount(0, amount_y) == 0,
        lp_amount(amount_x, 0) == 0,
        amount_x < u64::MAX ==> lp_amount((amount_x + 1) as u64, amount_y) == lp_amount(
            amount_x,
            amount_y,
        ) + amount_y,
        amount_y < u64::MAX ==> lp_amount(amount_x, (amount_y + 1) as u64) == lp_amount(
            amount_x,
            amount_y,
        ) + amount_x,
        lp_amount(amount_x, amount_y) == lp_amount(amount_y, amount_x),
        lp_amount(amount_x, amount_y) <= u64::MAX ==> (lp_mint_call(
            ctx,
            lp_amount(amount_x, amount_y) as u64,
        ) matches Cpi::MintTo { amount, to, .. } && amount == amount_x * amount_y && to
            == AmmAccount::MakerAtaLp),
{
    assert((amount_x + 1) * amount_y == amount_x * amount_y + amount_y) by (nonlinear_arith);
    assert(amount_x * (amount_y + 1) == amount_x * amount_y + amount_x) by (nonlinear_arith);
    assert(amount_x * amount_y == amount_y * amount_x) by (nonlinear_arith);
    assert(0 * amount_y == 0 && amount_x * 0 == 0) by (nonlinear_arith);
}

/// A deposit moves exactly the amount asked, from the maker's account of that
/// side into that side's vault, checked against that side's decimals.
pub proof fn lemma_deposit_moves_the_amount(ctx: DepositAndMint, amount: u64)
    ensures
        (deposit_call(ctx, amount, true) matches Cpi::TransferChecked {
            from,
            to,
            amount: moved,
            decimals,
            ..
        } && from == AmmAccount::MakerAtaX && to == AmmAccount::VaultX && moved == amount
            && decimals == ctx.mint_x_decimals),
        (deposit_call(ctx, amount, false) matches Cpi::TransferChecked {
            from,
            to,
            amount: moved,
            decimals,
            ..
        } && from == AmmAccount::MakerAtaY && to == AmmAccount::VaultY && moved == amount
            && decimals == ctx.mint_y_decimals),
{
}

/// Opening a pool records the two mints it reads and the terms it is given.
pub proof fn lemma_saved_config_records_terms(
    ctx: Initalize,
    seed: u64,
    fee: u16,
    bump: u8,
    lp_bump: u8,
)
    ensures
        ({
            let c = saved_config(ctx, seed, fee, bump, lp_bump);
            &&& c.mint_x == ctx.mint_x
            &&& c.mint_y == ctx.mint_y
            &&& c.seed == seed
            &&& c.fee == fee
            &&& c.bump == bump
            &&& c.lp_bump == lp_bump
        }),
        (lp_mint_call(pool_of(ctx), 0) matches Cpi::MintTo { signer, authority, .. } && authority
            == AmmAccount::Config && signer == Some(
            SignerSeeds::AmmConfig {
                mint_x: ctx.mint_x,
                mint_y: ctx.mint_y,
                seed: ctx.config.seed,
                bump: ctx.config.bump,
            },
        )),
{
}

} // verus!
