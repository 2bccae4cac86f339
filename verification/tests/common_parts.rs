use solana_programs::key::Key;
use solana_programs::seeds::{u64_le_bytes, SignerSeeds};

#[test]
fn key_equality_compares_every_byte() {
    let a = Key::new([7u8; 32]);
    let mut bytes = [7u8; 32];
    bytes[31] = 8;
    let b = Key::new(bytes);
    assert!(a.equals(&a));
    assert!(!a.equals(&b));
    assert!(!b.equals(&a));
    assert_eq!(a.to_vec(), vec![7u8; 32]);
}

#[test]
fn le_bytes_match_std() {
    for x in [0u64, 1, 255, 256, 0x0102_0304_0506_0708, u64::MAX] {
        assert_eq!(u64_le_bytes(x), x.to_le_bytes().to_vec());
    }
}

#[test]
fn amm_config_seeds() {
    let seeds = SignerSeeds::AmmConfig {
        mint_x: Key::new([1u8; 32]),
        mint_y: Key::new([2u8; 32]),
        seed: 258,
        bump: 254,
    };
    let words = seeds.to_bytes();
    assert_eq!(
        words,
        vec![
            b"amm".to_vec(),
            vec![1u8; 32],
            vec![2u8; 32],
            vec![2, 1, 0, 0, 0, 0, 0, 0],
            vec![254],
        ]
    );
}

#[test]
fn auction_and_vault_seeds() {
    let k = Key::new([9u8; 32]);
    assert_eq!(
        SignerSeeds::BidderVault { auction: k, bump: 3 }.to_bytes(),
        vec![b"bidderVault".to_vec(), vec![9u8; 32], vec![3]]
    );
    assert_eq!(
        SignerSeeds::Auction { nft_mint: k, bump: 4 }.to_bytes(),
        vec![b"auction".to_vec(), vec![9u8; 32], vec![4]]
    );
}

#[test]
fn marketplace_and_staking_seeds() {
    let a = Key::new([5u8; 32]);
    let b = Key::new([6u8; 32]);
    assert_eq!(
        SignerSeeds::Listing { marketplace: a, mint: b, bump: 1 }.to_bytes(),
        vec![vec![5u8; 32], vec![6u8; 32], vec![1]]
    );
    assert_eq!(
        SignerSeeds::StakeConfig { bump: 2 }.to_bytes(),
        vec![b"config".to_vec(), vec![2]]
    );
    assert_eq!(
        SignerSeeds::StakeAccount { user: a, config: b, bump: 3 }.to_bytes(),
        vec![b"stake".to_vec(), vec![5u8; 32], vec![6u8; 32], vec![3]]
    );
}
