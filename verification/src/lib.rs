//! The decisions of a handful of on-chain programs, verified: a constant-product
//! pool's opening, an NFT auction, a marketplace, and NFT staking. Each
//! instruction reads plain values from its accounts and returns the calls into
//! other programs it makes, with its accounts' new state; a refused instruction
//! returns the reason and changes nothing.

use vstd::prelude::*;

pub mod amm;
pub mod cpi;
pub mod key;
pub mod marketplace;
pub mod nft_auction;
pub mod nft_staking;
pub mod seeds;

verus! {

} // verus!
