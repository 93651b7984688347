use blokoyunu_stats::state::{DISCRIMINATOR_LEN, GAME_STATS_SEED};
use blokoyunu_stats::{GameStats, Pubkey};

#[test]
fn a_key_gives_back_its_bytes() {
    let mut bytes = [0u8; 32];
    for (i, byte) in bytes.iter_mut().enumerate() {
        *byte = 200 - i as u8;
    }
    let key = Pubkey::new_from_array(bytes);
    assert_eq!(key.to_bytes(), bytes);
    assert_eq!(key.0, bytes);
}

#[test]
fn keys_with_the_same_bytes_are_equal() {
    let one = Pubkey::new_from_array([33; 32]);
    let other = Pubkey::new_from_array([33; 32]);
    assert_eq!(one, other);
    assert!(one == other);
    assert!(!(one != other));
}

#[test]
fn keys_differ_if_any_byte_differs() {
    let base = Pubkey::new_from_array([33; 32]);
    for at in 0..32 {
        let mut bytes = [33u8; 32];
        bytes[at] = 34;
        let changed = Pubkey::new_from_array(bytes);
        assert_ne!(base, changed);
        assert_ne!(changed, base);
        assert!(base != changed);
    }
}

#[test]
fn a_key_has_thirty_two_bytes() {
    assert_eq!(Pubkey::LEN, 32);
    assert_eq!(Pubkey::new_from_array([0; 32]).to_bytes().len(), Pubkey::LEN);
}

#[test]
fn the_record_takes_seventy_two_bytes() {
    assert_eq!(DISCRIMINATOR_LEN, 8);
    assert_eq!(GameStats::INIT_SPACE, 64);
    assert_eq!(GameStats::INIT_SPACE, 4 * 8 + Pubkey::LEN);
    assert_eq!(GameStats::SPACE, 72);
    assert_eq!(GameStats::SPACE, DISCRIMINATOR_LEN + GameStats::INIT_SPACE);
}

#[test]
fn the_seed_spells_the_name_of_the_ledger() {
    assert_eq!(&GAME_STATS_SEED[..], "game_stats".as_bytes());
}
