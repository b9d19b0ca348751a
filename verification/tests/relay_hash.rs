use svm_spoke::fill::hash_non_empty_message;
use svm_spoke::relay::get_v3_relay_hash;
use svm_spoke::relay::V3RelayData;

const CHAIN: u64 = 7777;

fn sample_relay() -> V3RelayData {
    V3RelayData {
        depositor: [1; 32],
        recipient: [2; 32],
        exclusive_relayer: [0; 32],
        input_token: [3; 32],
        output_token: [4; 32],
        input_amount: 1000,
        output_amount: 900,
        origin_chain_id: 10,
        deposit_id: 42,
        fill_deadline: 1000,
        exclusivity_deadline: 0,
        message: Vec::new(),
    }
}

#[test]
fn relay_hash_is_deterministic() {
    let a = get_v3_relay_hash(&sample_relay(), CHAIN);
    let b = get_v3_relay_hash(&sample_relay(), CHAIN);
    assert_eq!(a, b);
}

#[test]
fn relay_hash_changes_with_each_field() {
    let base = get_v3_relay_hash(&sample_relay(), CHAIN);

    let mut d = sample_relay();
    d.depositor = [11; 32];
    assert_ne!(get_v3_relay_hash(&d, CHAIN), base);

    let mut d = sample_relay();
    d.recipient = [12; 32];
    assert_ne!(get_v3_relay_hash(&d, CHAIN), base);

    let mut d = sample_relay();
    d.exclusive_relayer = [13; 32];
    assert_ne!(get_v3_relay_hash(&d, CHAIN), base);

    let mut d = sample_relay();
    d.input_token = [14; 32];
    assert_ne!(get_v3_relay_hash(&d, CHAIN), base);

    let mut d = sample_relay();
    d.output_token = [15; 32];
    assert_ne!(get_v3_relay_hash(&d, CHAIN), base);

    let mut d = sample_relay();
    d.input_amount += 1;
    assert_ne!(get_v3_relay_hash(&d, CHAIN), base);

    let mut d = sample_relay();
    d.output_amount += 1;
    assert_ne!(get_v3_relay_hash(&d, CHAIN), base);

    let mut d = sample_relay();
    d.origin_chain_id += 1;
    assert_ne!(get_v3_relay_hash(&d, CHAIN), base);

    let mut d = sample_relay();
    d.deposit_id += 1;
    assert_ne!(get_v3_relay_hash(&d, CHAIN), base);

    let mut d = sample_relay();
    d.fill_deadline += 1;
    assert_ne!(get_v3_relay_hash(&d, CHAIN), base);

    let mut d = sample_relay();
    d.exclusivity_deadline += 1;
    assert_ne!(get_v3_relay_hash(&d, CHAIN), base);

    let mut d = sample_relay();
    d.message = vec![0];
    assert_ne!(get_v3_relay_hash(&d, CHAIN), base);

    assert_ne!(get_v3_relay_hash(&sample_relay(), CHAIN + 1), base);
}

#[test]
fn relay_hash_swapping_same_typed_fields_changes_it() {
    let d = sample_relay();
    let mut swapped = sample_relay();
    swapped.depositor = d.recipient;
    swapped.recipient = d.depositor;
    assert_ne!(get_v3_relay_hash(&swapped, CHAIN), get_v3_relay_hash(&d, CHAIN));

    let mut amounts_swapped = sample_relay();
    amounts_swapped.input_amount = d.output_amount;
    amounts_swapped.output_amount = d.input_amount;
    assert_ne!(get_v3_relay_hash(&amounts_swapped, CHAIN), get_v3_relay_hash(&d, CHAIN));
}

#[test]
fn relay_hash_near_duplicate_messages_differ() {
    let mut a = sample_relay();
    a.message = vec![0, 1];
    let mut b = sample_relay();
    b.message = vec![0, 2];
    assert_ne!(get_v3_relay_hash(&a, CHAIN), get_v3_relay_hash(&b, CHAIN));
}

#[test]
fn empty_message_hash_is_zero_sentinel() {
    assert_eq!(hash_non_empty_message(&Vec::new()), [0u8; 32]);
}

#[test]
fn non_empty_message_hash_is_keccak() {
    let message = vec![0x61u8, 0x62, 0x63];
    let h = hash_non_empty_message(&message);
    assert_eq!(h, anchor_lang::solana_program::keccak::hash(&message).0);
    let expected: [u8; 32] = [
        0x4e, 0x03, 0x65, 0x7a, 0xea, 0x45, 0xa9, 0x4f, 0xc7, 0xd4, 0x7b, 0xa8, 0x26, 0xc8,
        0xd6, 0x67, 0xc0, 0xd1, 0xe6, 0xe3, 0x3a, 0x64, 0xa0, 0x36, 0xec, 0x44, 0xf5, 0x8f,
        0xa1, 0x2d, 0x6c, 0x45,
    ];
    assert_eq!(h, expected);
}
