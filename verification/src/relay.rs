use vstd::prelude::*;

use crate::Bytes32;
use crate::codec::lemma_concat_parts_equal_suffix;
use crate::codec::lemma_u32_le_bytes_injective;
use crate::codec::lemma_u32_le_bytes_len;
use crate::codec::lemma_u64_le_bytes_len;
use crate::codec::lemma_u64_le_bytes_injective;
use crate::codec::push_u32_le;
use crate::codec::push_u64_le;
use crate::codec::u32_le_bytes;
use crate::codec::u64_le_bytes;
use crate::codec::vec_extend;
use crate::hash::keccak256;
use crate::hash::keccak256_of;
use crate::hash::vec_extend_bytes32;

verus! {

broadcast use vstd::seq::group_seq_axioms, vstd::array::group_array_axioms;

/// The parameters of one relay, immutable once created. Together with the
/// destination chain id they identify a (relay, destination) pair.
#[derive(Clone)]
pub struct V3RelayData {
    pub depositor: Bytes32,
    pub recipient: Bytes32,
    pub exclusive_relayer: Bytes32,
    pub input_token: Bytes32,
    pub output_token: Bytes32,
    pub input_amount: u64,
    pub output_amount: u64,
    pub origin_chain_id: u64,
    pub deposit_id: u32,
    pub fill_deadline: u32,
    pub exclusivity_deadline: u32,
    pub message: Vec<u8>,
}

/// The message payload must fit the four-byte length prefix of the canonical
/// encoding; longer payloads cannot be encoded.
pub open spec fn relay_message_fits(d: V3RelayData) -> bool {
    d.message@.len() <= u32::MAX
}

/// The 200-byte fixed-width head of the canonical encoding: every fixed-width
/// field in a fixed order, integers little endian, ending with the length of
/// the message.
#[verifier::opaque]
pub open spec fn relay_fixed_prefix(d: V3RelayData) -> Seq<u8> {
    d.depositor@
    + d.recipient@
    + d.exclusive_relayer@
    + d.input_token@
    + d.output_token@
    + u64_le_bytes(d.input_amount)
    + u64_le_bytes(d.output_amount)
    + u64_le_bytes(d.origin_chain_id)
    + u32_le_bytes(d.deposit_id)
    + u32_le_bytes(d.fill_deadline)
    + u32_le_bytes(d.exclusivity_deadline)
    + u32_le_bytes(d.message@.len() as u32)
}

/// The canonical serialization of the relay parameters: the fixed-width head,
/// then the message bytes it measures — no padding, no ambiguity.
pub open spec fn relay_encoding(d: V3RelayData) -> Seq<u8> {
    relay_fixed_prefix(d) + d.message@
}

/// The byte string fed to the digest: the canonical serialization followed by
/// the destination chain id.
pub open spec fn relay_hash_input(d: V3RelayData, destination_chain_id: u64) -> Seq<u8> {
    relay_encoding(d) + u64_le_bytes(destination_chain_id)
}

/// The relay fingerprint: the digest of the canonical hash input.
pub open spec fn relay_hash_of(d: V3RelayData, destination_chain_id: u64) -> Seq<u8> {
    keccak256_of(relay_hash_input(d, destination_chain_id))
}

/// Derives the 32-byte fingerprint that keys every fill record: the digest of
/// the canonical serialization of the relay parameters and the destination
/// chain id. Pure and deterministic: identical inputs yield identical output.
pub fn get_v3_relay_hash(relay_data: &V3RelayData, chain_id: u64) -> (r: [u8; 32])
    requires
        relay_message_fits(*relay_data),
    ensures
        r@ == relay_hash_of(*relay_data, chain_id),
{
    let input = encode_relay_hash_input(relay_data, chain_id);
    keccak256(&input)
}

/// Serializes the canonical hash input of a relay.
pub(crate) fn encode_relay_hash_input(relay_data: &V3RelayData, chain_id: u64) -> (r: Vec<u8>)
    requires
        relay_message_fits(*relay_data),
    ensures
        r@ == relay_hash_input(*relay_data, chain_id),
{
    let mut input: Vec<u8> = Vec::new();
    vec_extend_bytes32(&mut input, &relay_data.depositor);
    vec_extend_bytes32(&mut input, &relay_data.recipient);
    vec_extend_bytes32(&mut input, &relay_data.exclusive_relayer);
    vec_extend_bytes32(&mut input, &relay_data.input_token);
    vec_extend_bytes32(&mut input, &relay_data.output_token);
    push_u64_le(&mut input, relay_data.input_amount);
    push_u64_le(&mut input, relay_data.output_amount);
    push_u64_le(&mut input, relay_data.origin_chain_id);
    push_u32_le(&mut input, relay_data.deposit_id);
    push_u32_le(&mut input, relay_data.fill_deadline);
    push_u32_le(&mut input, relay_data.exclusivity_deadline);
    push_u32_le(&mut input, relay_data.message.len() as u32);
    vec_extend(&mut input, &relay_data.message);
    push_u64_le(&mut input, chain_id);
    proof {
        reveal(relay_fixed_prefix);
        assert(Seq::<u8>::empty() + relay_data.depositor@ =~= relay_data.depositor@);
        assert(input@ == relay_hash_input(*relay_data, chain_id));
    }
    input
}

/// The fixed-width head of the encoding is 200 bytes long.
#[verifier::spinoff_prover]
#[verifier::rlimit(100)]
proof fn lemma_relay_fixed_prefix_len(d: V3RelayData)
    ensures
        relay_fixed_prefix(d).len() == 200,
{
    reveal(relay_fixed_prefix);
    reveal(crate::codec::u32_le_bytes);
    reveal(crate::codec::u64_le_bytes);
    assert((d.depositor@).len() == 32);
    assert((d.depositor@
        + d.recipient@).len() == 64);
    assert((d.depositor@
        + d.recipient@
        + d.exclusive_relayer@).len() == 96);
    assert((d.depositor@
        + d.recipient@
        + d.exclusive_relayer@
        + d.input_token@).len() == 128);
    assert((d.depositor@
        + d.recipient@
        + d.exclusive_relayer@
        + d.input_token@
        + d.output_token@).len() == 160);
    assert((d.depositor@
        + d.recipient@
        + d.exclusive_relayer@
        + d.input_token@
        + d.output_token@
        + u64_le_bytes(d.input_amount)).len() == 168);
    assert((d.depositor@
        + d.recipient@
        + d.exclusive_relayer@
        + d.input_token@
        + d.output_token@
        + u64_le_bytes(d.input_amount)
        + u64_le_bytes(d.output_amount)).len() == 176);
    assert((d.depositor@
        + d.recipient@
        + d.exclusive_relayer@
        + d.input_token@
        + d.output_token@
        + u64_le_bytes(d.input_amount)
        + u64_le_bytes(d.output_amount)
        + u64_le_bytes(d.origin_chain_id)).len() == 184);
    assert((d.depositor@
        + d.recipient@
        + d.exclusive_relayer@
        + d.input_token@
        + d.output_token@
        + u64_le_bytes(d.input_amount)
        + u64_le_bytes(d.output_amount)
        + u64_le_bytes(d.origin_chain_id)
        + u32_le_bytes(d.deposit_id)).len() == 188);
    assert((d.depositor@
        + d.recipient@
        + d.exclusive_relayer@
        + d.input_token@
        + d.output_token@
        + u64_le_bytes(d.input_amount)
        + u64_le_bytes(d.output_amount)
        + u64_le_bytes(d.origin_chain_id)
        + u32_le_bytes(d.deposit_id)
        + u32_le_bytes(d.fill_deadline)).len() == 192);
    assert((d.depositor@
        + d.recipient@
        + d.exclusive_relayer@
        + d.input_token@
        + d.output_token@
        + u64_le_bytes(d.input_amount)
        + u64_le_bytes(d.output_amount)
        + u64_le_bytes(d.origin_chain_id)
        + u32_le_bytes(d.deposit_id)
        + u32_le_bytes(d.fill_deadline)
        + u32_le_bytes(d.exclusivity_deadline)).len() == 196);
    assert((d.depositor@
        + d.recipient@
        + d.exclusive_relayer@
        + d.input_token@
        + d.output_token@
        + u64_le_bytes(d.input_amount)
        + u64_le_bytes(d.output_amount)
        + u64_le_bytes(d.origin_chain_id)
        + u32_le_bytes(d.deposit_id)
        + u32_le_bytes(d.fill_deadline)
        + u32_le_bytes(d.exclusivity_deadline)
        + u32_le_bytes(d.message@.len() as u32)).len() == 200);
}

/// Strips the trailing destination chain id off the hash input.
proof fn lemma_hash_input_peel_chain(a: V3RelayData, ca: u64, b: V3RelayData, cb: u64)
    requires
        relay_hash_input(a, ca) == relay_hash_input(b, cb),
    ensures
        relay_encoding(a) == relay_encoding(b),
        ca == cb,
{
    lemma_u64_le_bytes_len(ca);
    lemma_u64_le_bytes_len(cb);
    lemma_concat_parts_equal_suffix(
        relay_encoding(a),
        u64_le_bytes(ca),
        relay_encoding(b),
        u64_le_bytes(cb),
    );
    lemma_u64_le_bytes_injective(ca, cb);
}

/// Strips the message off the encoding: the head in front of it has a fixed
/// length, so equal totals force equal message lengths.
proof fn lemma_hash_input_peel_message(a: V3RelayData, b: V3RelayData)
    requires
        relay_encoding(a) == relay_encoding(b),
    ensures
        relay_fixed_prefix(a) == relay_fixed_prefix(b),
        a.message@ == b.message@,
{
    lemma_relay_fixed_prefix_len(a);
    lemma_relay_fixed_prefix_len(b);
    assert((relay_fixed_prefix(a) + a.message@).len() == 200 + a.message@.len());
    assert((relay_fixed_prefix(b) + b.message@).len() == 200 + b.message@.len());
    lemma_concat_parts_equal_suffix(
        relay_fixed_prefix(a),
        a.message@,
        relay_fixed_prefix(b),
        b.message@,
    );
}

/// The definition of the fixed-width head, spelled out.
proof fn lemma_unfold_fixed_prefix(d: V3RelayData)
    ensures
        relay_fixed_prefix(d) == d.depositor@
        + d.recipient@
        + d.exclusive_relayer@
        + d.input_token@
        + d.output_token@
        + u64_le_bytes(d.input_amount)
        + u64_le_bytes(d.output_amount)
        + u64_le_bytes(d.origin_chain_id)
        + u32_le_bytes(d.deposit_id)
        + u32_le_bytes(d.fill_deadline)
        + u32_le_bytes(d.exclusivity_deadline)
        + u32_le_bytes(d.message@.len() as u32),
{
    reveal(relay_fixed_prefix);
}

/// Peels the msg len field off the head.
#[verifier::spinoff_prover]
#[verifier::rlimit(100)]
proof fn lemma_peel_msg_len(a: V3RelayData, b: V3RelayData)
    requires
        a.depositor@
        + a.recipient@
        + a.exclusive_relayer@
        + a.input_token@
        + a.output_token@
        + u64_le_bytes(a.input_amount)
        + u64_le_bytes(a.output_amount)
        + u64_le_bytes(a.origin_chain_id)
        + u32_le_bytes(a.deposit_id)
        + u32_le_bytes(a.fill_deadline)
        + u32_le_bytes(a.exclusivity_deadline)
        + u32_le_bytes(a.message@.len() as u32)
            == b.depositor@
            + b.recipient@
            + b.exclusive_relayer@
            + b.input_token@
            + b.output_token@
            + u64_le_bytes(b.input_amount)
            + u64_le_bytes(b.output_amount)
            + u64_le_bytes(b.origin_chain_id)
            + u32_le_bytes(b.deposit_id)
            + u32_le_bytes(b.fill_deadline)
            + u32_le_bytes(b.exclusivity_deadline)
            + u32_le_bytes(b.message@.len() as u32),
    ensures
        a.depositor@
        + a.recipient@
        + a.exclusive_relayer@
        + a.input_token@
        + a.output_token@
        + u64_le_bytes(a.input_amount)
        + u64_le_bytes(a.output_amount)
        + u64_le_bytes(a.origin_chain_id)
        + u32_le_bytes(a.deposit_id)
        + u32_le_bytes(a.fill_deadline)
        + u32_le_bytes(a.exclusivity_deadline)
            == b.depositor@
            + b.recipient@
            + b.exclusive_relayer@
            + b.input_token@
            + b.output_token@
            + u64_le_bytes(b.input_amount)
            + u64_le_bytes(b.output_amount)
            + u64_le_bytes(b.origin_chain_id)
            + u32_le_bytes(b.deposit_id)
            + u32_le_bytes(b.fill_deadline)
            + u32_le_bytes(b.exclusivity_deadline),
{
    lemma_u32_le_bytes_len(a.message@.len() as u32);
    lemma_u32_le_bytes_len(b.message@.len() as u32);
    lemma_concat_parts_equal_suffix(
        a.depositor@
        + a.recipient@
        + a.exclusive_relayer@
        + a.input_token@
        + a.output_token@
        + u64_le_bytes(a.input_amount)
        + u64_le_bytes(a.output_amount)
        + u64_le_bytes(a.origin_chain_id)
        + u32_le_bytes(a.deposit_id)
        + u32_le_bytes(a.fill_deadline)
        + u32_le_bytes(a.exclusivity_deadline),
        u32_le_bytes(a.message@.len() as u32),
        b.depositor@
        + b.recipient@
        + b.exclusive_relayer@
        + b.input_token@
        + b.output_token@
        + u64_le_bytes(b.input_amount)
        + u64_le_bytes(b.output_amount)
        + u64_le_bytes(b.origin_chain_id)
        + u32_le_bytes(b.deposit_id)
        + u32_le_bytes(b.fill_deadline)
        + u32_le_bytes(b.exclusivity_deadline),
        u32_le_bytes(b.message@.len() as u32),
    );
}

/// Peels the exclusivity deadline field off the head.
#[verifier::spinoff_prover]
#[verifier::rlimit(100)]
proof fn lemma_peel_exclusivity_deadline(a: V3RelayData, b: V3RelayData)
    requires
        a.depositor@
        + a.recipient@
        + a.exclusive_relayer@
        + a.input_token@
        + a.output_token@
        + u64_le_bytes(a.input_amount)
        + u64_le_bytes(a.output_amount)
        + u64_le_bytes(a.origin_chain_id)
        + u32_le_bytes(a.deposit_id)
        + u32_le_bytes(a.fill_deadline)
        + u32_le_bytes(a.exclusivity_deadline)
            == b.depositor@
            + b.recipient@
            + b.exclusive_relayer@
            + b.input_token@
            + b.output_token@
            + u64_le_bytes(b.input_amount)
            + u64_le_bytes(b.output_amount)
            + u64_le_bytes(b.origin_chain_id)
            + u32_le_bytes(b.deposit_id)
            + u32_le_bytes(b.fill_deadline)
            + u32_le_bytes(b.exclusivity_deadline),
    ensures
        a.depositor@
        + a.recipient@
        + a.exclusive_relayer@
        + a.input_token@
        + a.output_token@
        + u64_le_bytes(a.input_amount)
        + u64_le_bytes(a.output_amount)
        + u64_le_bytes(a.origin_chain_id)
        + u32_le_bytes(a.deposit_id)
        + u32_le_bytes(a.fill_deadline)
            == b.depositor@
            + b.recipient@
            + b.exclusive_relayer@
            + b.input_token@
            + b.output_token@
            + u64_le_bytes(b.input_amount)
            + u64_le_bytes(b.output_amount)
            + u64_le_bytes(b.origin_chain_id)
            + u32_le_bytes(b.deposit_id)
            + u32_le_bytes(b.fill_deadline),
        a.exclusivity_deadline == b.exclusivity_deadline,
{
    lemma_u32_le_bytes_len(a.exclusivity_deadline);
    lemma_u32_le_bytes_len(b.exclusivity_deadline);
    lemma_concat_parts_equal_suffix(
        a.depositor@
        + a.recipient@
        + a.exclusive_relayer@
        + a.input_token@
        + a.output_token@
        + u64_le_bytes(a.input_amount)
        + u64_le_bytes(a.output_amount)
        + u64_le_bytes(a.origin_chain_id)
        + u32_le_bytes(a.deposit_id)
        + u32_le_bytes(a.fill_deadline),
        u32_le_bytes(a.exclusivity_deadline),
        b.depositor@
        + b.recipient@
        + b.exclusive_relayer@
        + b.input_token@
        + b.output_token@
        + u64_le_bytes(b.input_amount)
        + u64_le_bytes(b.output_amount)
        + u64_le_bytes(b.origin_chain_id)
        + u32_le_bytes(b.deposit_id)
        + u32_le_bytes(b.fill_deadline),
        u32_le_bytes(b.exclusivity_deadline),
    );
    lemma_u32_le_bytes_injective(a.exclusivity_deadline, b.exclusivity_deadline);
}

/// Peels the fill deadline field off the head.
#[verifier::spinoff_prover]
#[verifier::rlimit(100)]
proof fn lemma_peel_fill_deadline(a: V3RelayData, b: V3RelayData)
    requires
        a.depositor@
        + a.recipient@
        + a.exclusive_relayer@
        + a.input_token@
        + a.output_token@
        + u64_le_bytes(a.input_amount)
        + u64_le_bytes(a.output_amount)
        + u64_le_bytes(a.origin_chain_id)
        + u32_le_bytes(a.deposit_id)
        + u32_le_bytes(a.fill_deadline)
            == b.depositor@
            + b.recipient@
            + b.exclusive_relayer@
            + b.input_token@
            + b.output_token@
            + u64_le_bytes(b.input_amount)
            + u64_le_bytes(b.output_amount)
            + u64_le_bytes(b.origin_chain_id)
            + u32_le_bytes(b.deposit_id)
            + u32_le_bytes(b.fill_deadline),
    ensures
        a.depositor@
        + a.recipient@
        + a.exclusive_relayer@
        + a.input_token@
        + a.output_token@
        + u64_le_bytes(a.input_amount)
        + u64_le_bytes(a.output_amount)
        + u64_le_bytes(a.origin_chain_id)
        + u32_le_bytes(a.deposit_id)
            == b.depositor@
            + b.recipient@
            + b.exclusive_relayer@
            + b.input_token@
            + b.output_token@
            + u64_le_bytes(b.input_amount)
            + u64_le_bytes(b.output_amount)
            + u64_le_bytes(b.origin_chain_id)
            + u32_le_bytes(b.deposit_id),
        a.fill_deadline == b.fill_deadline,
{
    lemma_u32_le_bytes_len(a.fill_deadline);
    lemma_u32_le_bytes_len(b.fill_deadline);
    lemma_concat_parts_equal_suffix(
        a.depositor@
        + a.recipient@
        + a.exclusive_relayer@
        + a.input_token@
        + a.output_token@
        + u64_le_bytes(a.input_amount)
        + u64_le_bytes(a.output_amount)
        + u64_le_bytes(a.origin_chain_id)
        + u32_le_bytes(a.deposit_id),
        u32_le_bytes(a.fill_deadline),
        b.depositor@
        + b.recipient@
        + b.exclusive_relayer@
        + b.input_token@
        + b.output_token@
        + u64_le_bytes(b.input_amount)
        + u64_le_bytes(b.output_amount)
        + u64_le_bytes(b.origin_chain_id)
        + u32_le_bytes(b.deposit_id),
        u32_le_bytes(b.fill_deadline),
    );
    lemma_u32_le_bytes_injective(a.fill_deadline, b.fill_deadline);
}

/// Peels the message-length and deadline fields off the fixed-width head.
#[verifier::spinoff_prover]
#[verifier::rlimit(100)]
proof fn lemma_hash_input_peel_fixed_hi(a: V3RelayData, b: V3RelayData)
    requires
        relay_fixed_prefix(a) == relay_fixed_prefix(b),
    ensures
        a.depositor@
        + a.recipient@
        + a.exclusive_relayer@
        + a.input_token@
        + a.output_token@
        + u64_le_bytes(a.input_amount)
        + u64_le_bytes(a.output_amount)
        + u64_le_bytes(a.origin_chain_id)
        + u32_le_bytes(a.deposit_id)
            == b.depositor@
            + b.recipient@
            + b.exclusive_relayer@
            + b.input_token@
            + b.output_token@
            + u64_le_bytes(b.input_amount)
            + u64_le_bytes(b.output_amount)
            + u64_le_bytes(b.origin_chain_id)
            + u32_le_bytes(b.deposit_id),
        a.fill_deadline == b.fill_deadline,
        a.exclusivity_deadline == b.exclusivity_deadline,
{
    lemma_unfold_fixed_prefix(a);
    lemma_unfold_fixed_prefix(b);
    lemma_peel_msg_len(a, b);
    lemma_peel_exclusivity_deadline(a, b);
    lemma_peel_fill_deadline(a, b);
}

/// Peels the amount, chain and deposit counters off the head.
#[verifier::spinoff_prover]
#[verifier::rlimit(100)]
proof fn lemma_hash_input_peel_fixed_mid(a: V3RelayData, b: V3RelayData)
    requires
        a.depositor@
        + a.recipient@
        + a.exclusive_relayer@
        + a.input_token@
        + a.output_token@
        + u64_le_bytes(a.input_amount)
        + u64_le_bytes(a.output_amount)
        + u64_le_bytes(a.origin_chain_id)
        + u32_le_bytes(a.deposit_id)
            == b.depositor@
            + b.recipient@
            + b.exclusive_relayer@
            + b.input_token@
            + b.output_token@
            + u64_le_bytes(b.input_amount)
            + u64_le_bytes(b.output_amount)
            + u64_le_bytes(b.origin_chain_id)
            + u32_le_bytes(b.deposit_id),
    ensures
        a.depositor@
        + a.recipient@
        + a.exclusive_relayer@
        + a.input_token@
        + a.output_token@
        + u64_le_bytes(a.input_amount)
            == b.depositor@
            + b.recipient@
            + b.exclusive_relayer@
            + b.input_token@
            + b.output_token@
            + u64_le_bytes(b.input_amount),
        a.output_amount == b.output_amount,
        a.origin_chain_id == b.origin_chain_id,
        a.deposit_id == b.deposit_id,
{
    lemma_u32_le_bytes_len(a.deposit_id);
    lemma_u32_le_bytes_len(b.deposit_id);
    lemma_u64_le_bytes_len(a.origin_chain_id);
    lemma_u64_le_bytes_len(b.origin_chain_id);
    lemma_u64_le_bytes_len(a.output_amount);
    lemma_u64_le_bytes_len(b.output_amount);
    lemma_concat_parts_equal_suffix(
        a.depositor@
        + a.recipient@
        + a.exclusive_relayer@
        + a.input_token@
        + a.output_token@
        + u64_le_bytes(a.input_amount)
        + u64_le_bytes(a.output_amount)
        + u64_le_bytes(a.origin_chain_id),
        u32_le_bytes(a.deposit_id),
        b.depositor@
        + b.recipient@
        + b.exclusive_relayer@
        + b.input_token@
        + b.output_token@
        + u64_le_bytes(b.input_amount)
        + u64_le_bytes(b.output_amount)
        + u64_le_bytes(b.origin_chain_id),
        u32_le_bytes(b.deposit_id),
    );
    lemma_u32_le_bytes_injective(a.deposit_id, b.deposit_id);
    lemma_concat_parts_equal_suffix(
        a.depositor@
        + a.recipient@
        + a.exclusive_relayer@
        + a.input_token@
        + a.output_token@
        + u64_le_bytes(a.input_amount)
        + u64_le_bytes(a.output_amount),
        u64_le_bytes(a.origin_chain_id),
        b.depositor@
        + b.recipient@
        + b.exclusive_relayer@
        + b.input_token@
        + b.output_token@
        + u64_le_bytes(b.input_amount)
        + u64_le_bytes(b.output_amount),
        u64_le_bytes(b.origin_chain_id),
    );
    lemma_u64_le_bytes_injective(a.origin_chain_id, b.origin_chain_id);
    lemma_concat_parts_equal_suffix(
        a.depositor@
        + a.recipient@
        + a.exclusive_relayer@
        + a.input_token@
        + a.output_token@
        + u64_le_bytes(a.input_amount),
        u64_le_bytes(a.output_amount),
        b.depositor@
        + b.recipient@
        + b.exclusive_relayer@
        + b.input_token@
        + b.output_token@
        + u64_le_bytes(b.input_amount),
        u64_le_bytes(b.output_amount),
    );
    lemma_u64_le_bytes_injective(a.output_amount, b.output_amount);
}

/// Recovers the identity and token fields from the head of the encoding.
#[verifier::spinoff_prover]
#[verifier::rlimit(100)]
proof fn lemma_hash_input_peel_fixed_lo(a: V3RelayData, b: V3RelayData)
    requires
        a.depositor@
        + a.recipient@
        + a.exclusive_relayer@
        + a.input_token@
        + a.output_token@
        + u64_le_bytes(a.input_amount)
            == b.depositor@
            + b.recipient@
            + b.exclusive_relayer@
            + b.input_token@
            + b.output_token@
            + u64_le_bytes(b.input_amount),
    ensures
        a.depositor@ == b.depositor@,
        a.recipient@ == b.recipient@,
        a.exclusive_relayer@ == b.exclusive_relayer@,
        a.input_token@ == b.input_token@,
        a.output_token@ == b.output_token@,
        a.input_amount == b.input_amount,
{
    lemma_u64_le_bytes_len(a.input_amount);
    lemma_u64_le_bytes_len(b.input_amount);
    lemma_concat_parts_equal_suffix(
        a.depositor@
        + a.recipient@
        + a.exclusive_relayer@
        + a.input_token@
        + a.output_token@,
        u64_le_bytes(a.input_amount),
        b.depositor@
        + b.recipient@
        + b.exclusive_relayer@
        + b.input_token@
        + b.output_token@,
        u64_le_bytes(b.input_amount),
    );
    lemma_u64_le_bytes_injective(a.input_amount, b.input_amount);
    lemma_concat_parts_equal_suffix(
        a.depositor@
        + a.recipient@
        + a.exclusive_relayer@
        + a.input_token@,
        a.output_token@,
        b.depositor@
        + b.recipient@
        + b.exclusive_relayer@
        + b.input_token@,
        b.output_token@,
    );
    lemma_concat_parts_equal_suffix(
        a.depositor@
        + a.recipient@
        + a.exclusive_relayer@,
        a.input_token@,
        b.depositor@
        + b.recipient@
        + b.exclusive_relayer@,
        b.input_token@,
    );
    lemma_concat_parts_equal_suffix(
        a.depositor@
        + a.recipient@,
        a.exclusive_relayer@,
        b.depositor@
        + b.recipient@,
        b.exclusive_relayer@,
    );
    lemma_concat_parts_equal_suffix(
        a.depositor@,
        a.recipient@,
        b.depositor@,
        b.recipient@,
    );
}

/// Law: the canonical hash input is injective. Two relays that differ in any
/// field, or in the destination chain id, feed distinct byte strings to the
/// digest; distinct fingerprints then follow from the digest's collision
/// resistance, which is assumed of the host runtime, not proved here.
pub proof fn lemma_relay_hash_input_injective(a: V3RelayData, ca: u64, b: V3RelayData, cb: u64)
    requires
        relay_message_fits(a),
        relay_message_fits(b),
        relay_hash_input(a, ca) == relay_hash_input(b, cb),
    ensures
        a.depositor@ == b.depositor@,
        a.recipient@ == b.recipient@,
        a.exclusive_relayer@ == b.exclusive_relayer@,
        a.input_token@ == b.input_token@,
        a.output_token@ == b.output_token@,
        a.input_amount == b.input_amount,
        a.output_amount == b.output_amount,
        a.origin_chain_id == b.origin_chain_id,
        a.deposit_id == b.deposit_id,
        a.fill_deadline == b.fill_deadline,
        a.exclusivity_deadline == b.exclusivity_deadline,
        a.message@ == b.message@,
        ca == cb,
{
    lemma_hash_input_peel_chain(a, ca, b, cb);
    lemma_hash_input_peel_message(a, b);
    lemma_hash_input_peel_fixed_hi(a, b);
    lemma_hash_input_peel_fixed_mid(a, b);
    lemma_hash_input_peel_fixed_lo(a, b);
}

/// Law: the fingerprint is order-sensitive to the field encoding — exchanging
/// the depositor and recipient fields of a relay whose two identities differ
/// changes the byte string fed to the digest.
pub proof fn lemma_hash_input_order_sensitive(d: V3RelayData, destination_chain_id: u64)
    requires
        relay_message_fits(d),
        d.depositor@ != d.recipient@,
    ensures
        relay_hash_input(
            V3RelayData { depositor: d.recipient, recipient: d.depositor, ..d },
            destination_chain_id,
        ) != relay_hash_input(d, destination_chain_id),
{
    let swapped = V3RelayData { depositor: d.recipient, recipient: d.depositor, ..d };
    if relay_hash_input(swapped, destination_chain_id)
        == relay_hash_input(d, destination_chain_id) {
        lemma_relay_hash_input_injective(
            swapped, destination_chain_id, d, destination_chain_id);
        assert(false);
    }
}

} // verus!
