# solana_programs

The decisions of four on-chain programs, written in Verus and proved against
their contracts:

- `amm`: opening a constant-product pool (settings, both deposits, the
  liquidity-token mint, refused on overflow);
- `nft_auction`: opening an auction, bidding, closing it;
- `marketplace`: setting up a marketplace, buying a listed NFT;
- `nft_staking`: staking, unstaking with points per whole day, claiming rewards.

Each instruction takes the plain values it reads from its accounts (addresses
as `key::Key`, times as `i64`) and returns the calls into other programs it
makes (`cpi::Cpi`, with accounts named by role and signer seeds as
`seeds::SignerSeeds`), updating the account state it owns. The laws of each
program are public proof functions beside it.

`app/` is the runtime side: it reads the clock and rent sysvars, converts
addresses, tests the conditions under which an instruction panics, and makes the
calls with `anchor-lang` and `anchor-spl`.
