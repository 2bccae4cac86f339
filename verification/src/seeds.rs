use vstd::prelude::*;

use crate::key::Key;

verus! {

/// The little-endian bytes of `x`, lowest byte first, `n` bytes long.
pub open spec fn le_bytes(x: nat, n: nat) -> Seq<u8>
    decreases n,
{
    if n == 0 {
        seq![]
    } else {
        seq![(x % 256) as u8] + le_bytes(x / 256, (n - 1) as nat)
    }
}

/// The number that little-endian bytes stand for, lowest byte first.
pub open spec fn le_value(bytes: Seq<u8>) -> nat
    decreases bytes.len(),
{
    if bytes.len() == 0 {
        0
    } else {
        bytes[0] as nat + 256 * le_value(bytes.drop_first())
    }
}

/// Two hundred fifty-six to the power `n`.
pub open spec fn pow256(n: nat) -> nat
    decreases n,
{
    if n == 0 {
        1
    } else {
        256 * pow256((n - 1) as nat)
    }
}

/// Little-endian bytes lose nothing: `n` bytes of a number below 256^n read back
/// as that number, and they are `n` bytes long.
pub proof fn lemma_le_bytes_round_trip(x: nat, n: nat)
    requires
        x < pow256(n),
    ensures
        le_bytes(x, n).len() == n,
        le_value(le_bytes(x, n)) == x,
    decreases n,
{
    if n > 0 {
        let rest = (n - 1) as nat;
        assert(x / 256 < pow256(rest)) by (nonlinear_arith)
            requires
                x < 256 * pow256(rest),
        ;
        lemma_le_bytes_round_trip(x / 256, rest);
        let bytes = le_bytes(x, n);
        assert(bytes.drop_first() =~= le_bytes(x / 256, rest));
        assert(bytes[0] == (x % 256) as u8);
    }
}

/// A `u64` is below 256^8, so its eight little-endian bytes read back as it.
pub proof fn lemma_u64_le_bytes_round_trip(x: u64)
    ensures
        le_bytes(x as nat, 8).len() == 8,
        le_value(le_bytes(x as nat, 8)) == x,
{
    reveal_with_fuel(pow256, 9);
    lemma_le_bytes_round_trip(x as nat, 8);
}

/// The eight little-endian bytes of a `u64`, as `u64::to_le_bytes` lays them out.
pub fn u64_le_bytes(x: u64) -> (r: Vec<u8>)
    ensures
        r@ == le_bytes(x as nat, 8),
{
    let mut out: Vec<u8> = Vec::new();
    let mut rest: u64 = x;
    let mut i: usize = 0;
    while i < 8
        invariant
            i <= 8,
            out@ + le_bytes(rest as nat, (8 - i) as nat) == le_bytes(x as nat, 8),
        decreases 8 - i,
    {
        let ghost before = out@;
        out.push((rest % 256) as u8);
        assert(le_bytes(rest as nat, (8 - i) as nat) == seq![(rest % 256) as u8] + le_bytes(
            (rest / 256) as nat,
            (8 - i - 1) as nat,
        ));
        assert(out@ + le_bytes((rest / 256) as nat, (8 - i - 1) as nat) =~= before + le_bytes(
            rest as nat,
            (8 - i) as nat,
        ));
        rest = rest / 256;
        i = i + 1;
    }
    assert(le_bytes(rest as nat, 0) =~= seq![]);
    assert(out@ =~= out@ + le_bytes(rest as nat, 0));
    out
}

} // verus!

verus! {

/// The ASCII bytes of `amm`.
pub open spec fn amm_tag() -> Seq<u8> {
    seq![0x61, 0x6d, 0x6d]
}

/// The ASCII bytes of `bidderVault`.
pub open spec fn bidder_vault_tag() -> Seq<u8> {
    seq![0x62, 0x69, 0x64, 0x64, 0x65, 0x72, 0x56, 0x61, 0x75, 0x6c, 0x74]
}

/// The ASCII bytes of `auction`.
pub open spec fn auction_tag() -> Seq<u8> {
    seq![0x61, 0x75, 0x63, 0x74, 0x69, 0x6f, 0x6e]
}

/// The ASCII bytes of `config`.
pub open spec fn config_tag() -> Seq<u8> {
    seq![0x63, 0x6f, 0x6e, 0x66, 0x69, 0x67]
}

/// The ASCII bytes of `stake`.
pub open spec fn stake_tag() -> Seq<u8> {
    seq![0x73, 0x74, 0x61, 0x6b, 0x65]
}

/// The seeds with which a program signs for one of its derived addresses.
#[derive(Clone, Copy, Debug, PartialEq, Eq)]
pub enum SignerSeeds {
    /// The pool configuration: `["amm", mint_x, mint_y, seed (little-endian), [bump]]`.
    AmmConfig { mint_x: Key, mint_y: Key, seed: u64, bump: u8 },
    /// The vault that holds the bids: `["bidderVault", auction, [bump]]`.
    BidderVault { auction: Key, bump: u8 },
    /// The auction account: `["auction", nft_mint, [bump]]`.
    Auction { nft_mint: Key, bump: u8 },
    /// A marketplace listing: `[marketplace, mint, [bump]]`.
    Listing { marketplace: Key, mint: Key, bump: u8 },
    /// The staking configuration: `["config", [bump]]`.
    StakeConfig { bump: u8 },
    /// A stake account: `["stake", user, config, [bump]]`.
    StakeAccount { user: Key, config: Key, bump: u8 },
}

/// A vector of byte strings, viewed deeply, is the sequence of their views.
proof fn lemma_byte_strings_deep_view(out: &Vec<Vec<u8>>)
    ensures
        out.deep_view() == out@.map_values(|v: Vec<u8>| v@),
{
    assert forall|i: int| 0 <= i < out@.len() implies #[trigger] out@[i].deep_view() == out@[i]@ by {
        assert(out@[i].deep_view() =~= out@[i]@);
    }
    assert(out.deep_view() =~= out@.map_values(|v: Vec<u8>| v@));
}

/// Appends one byte string to a list of them.
fn push_word(out: &mut Vec<Vec<u8>>, word: Vec<u8>)
    ensures
        final(out)@.map_values(|v: Vec<u8>| v@) == old(out)@.map_values(|v: Vec<u8>| v@).push(
            word@,
        ),
{
    let ghost before = out@;
    out.push(word);
    assert(out@.map_values(|v: Vec<u8>| v@) =~= before.map_values(|v: Vec<u8>| v@).push(word@));
}

impl SignerSeeds {
    /// The byte strings that make up the seeds, in order.
    pub open spec fn words(self) -> Seq<Seq<u8>> {
        match self {
            SignerSeeds::AmmConfig { mint_x, mint_y, seed, bump } => seq![
                amm_tag(),
                mint_x@,
                mint_y@,
                le_bytes(seed as nat, 8),
                seq![bump],
            ],
            SignerSeeds::BidderVault { auction, bump } => seq![bidder_vault_tag(), auction@, seq![bump]],
            SignerSeeds::Auction { nft_mint, bump } => seq![auction_tag(), nft_mint@, seq![bump]],
            SignerSeeds::Listing { marketplace, mint, bump } => seq![marketplace@, mint@, seq![bump]],
            SignerSeeds::StakeConfig { bump } => seq![config_tag(), seq![bump]],
            SignerSeeds::StakeAccount { user, config, bump } => seq![
                stake_tag(),
                user@,
                config@,
                seq![bump],
            ],
        }
    }

    /// Lays the seeds out as byte strings, ready to sign a cross-program call.
    pub fn to_bytes(&self) -> (r: Vec<Vec<u8>>)
        ensures
            r.deep_view() == self.words(),
    {
        let mut out: Vec<Vec<u8>> = Vec::new();
        assert(out@.map_values(|v: Vec<u8>| v@) =~= Seq::<Seq<u8>>::empty());
        match self {
            SignerSeeds::AmmConfig { mint_x, mint_y, seed, bump } => {
                push_word(&mut out, vec![0x61u8, 0x6d, 0x6d]);
                push_word(&mut out, mint_x.to_vec());
                push_word(&mut out, mint_y.to_vec());
                push_word(&mut out, u64_le_bytes(*seed));
                push_word(&mut out, vec![*bump]);
            },
            SignerSeeds::BidderVault { auction, bump } => {
                push_word(&mut out, vec![0x62u8, 0x69, 0x64, 0x64, 0x65, 0x72, 0x56, 0x61, 0x75, 0x6c, 0x74]);
                push_word(&mut out, auction.to_vec());
                push_word(&mut out, vec![*bump]);
            },
            SignerSeeds::Auction { nft_mint, bump } => {
                push_word(&mut out, vec![0x61u8, 0x75, 0x63, 0x74, 0x69, 0x6f, 0x6e]);
                push_word(&mut out, nft_mint.to_vec());
                push_word(&mut out, vec![*bump]);
            },
            SignerSeeds::Listing { marketplace, mint, bump } => {
                push_word(&mut out, marketplace.to_vec());
                push_word(&mut out, mint.to_vec());
                push_word(&mut out, vec![*bump]);
            },
            SignerSeeds::StakeConfig { bump } => {
                push_word(&mut out, vec![0x63u8, 0x6f, 0x6e, 0x66, 0x69, 0x67]);
                push_word(&mut out, vec![*bump]);
            },
            SignerSeeds::StakeAccount { user, config, bump } => {
                push_word(&mut out, vec![0x73u8, 0x74, 0x61, 0x6b, 0x65]);
                push_word(&mut out, user.to_vec());
                push_word(&mut out, config.to_vec());
                push_word(&mut out, vec![*bump]);
            },
        }
        proof {
            lemma_byte_strings_deep_view(&out);
        }
        assert(out@.map_values(|v: Vec<u8>| v@) =~~= self.words());
        out
    }
}

} // verus!
