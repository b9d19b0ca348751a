use vstd::prelude::*;

use crate::Bytes32;
use crate::claim::ClaimLedger;
use crate::claim::credit_relayer_refund;
use crate::errors::SettlementError;
use crate::events::FillType;
use crate::events::FilledV3Relay;
use crate::events::TransferAuthorization;
use crate::events::V3RelayExecutionEventInfo;
use crate::codec::push_u32_le;
use crate::codec::push_u64_le;
use crate::codec::push_seq_bools;
use crate::codec::push_seq_bytes32;
use crate::codec::push_seq_u64_le;
use crate::codec::seq_bools_bytes;
use crate::codec::seq_bytes32_flat;
use crate::codec::seq_u64_le_bytes;
use crate::codec::u32_le_bytes;
use crate::codec::u64_le_bytes;
use crate::fill::FillLedger;
use crate::fill::FillStatus;
use crate::fill::FillStatusAccount;
use crate::fill::event_matches;
use crate::fill::fill_status_of;
use crate::fill::hash_non_empty_message;
use crate::hash::keccak256;
use crate::hash::keccak256_of;
use crate::merkle::process_proof_spec;
use crate::merkle::verify_merkle_proof;
use crate::relay::V3RelayData;
use crate::relay::encode_relay_hash_input;
use crate::relay::get_v3_relay_hash;
use crate::relay::relay_hash_input;
use crate::relay::relay_hash_of;
use crate::relay::relay_message_fits;
use crate::state::State;

verus! {

broadcast use vstd::seq::group_seq_axioms, vstd::map::group_map_axioms;

/// One published bundle: the two Merkle roots and, per leaf family, the set of
/// leaf indices already executed. A bit, once set, is never cleared.
pub struct RootBundle {
    pub relayer_refund_root: Bytes32,
    pub slow_relay_root: Bytes32,
    pub claimed_refund_leaves: Vec<u32>,
    pub claimed_slow_fill_leaves: Vec<u32>,
}

/// All published bundles, keyed by sequential bundle id.
pub struct RootBundleLedger {
    pub bundles: Vec<RootBundle>,
}

/// One refund instruction from a bundle: the net amount to return to the
/// vault and parallel arrays of per-recipient refunds, each optionally routed
/// through the recipient's escrow claim account.
pub struct RelayerRefundLeaf {
    pub amount_to_return: u64,
    pub chain_id: u64,
    pub refund_amounts: Vec<u64>,
    pub leaf_id: u32,
    pub mint_public_key: Bytes32,
    pub refund_addresses: Vec<Bytes32>,
    pub use_claim_accounts: Vec<bool>,
}

/// One slow-fill instruction from a bundle.
pub struct V3SlowFill {
    pub relay_data: V3RelayData,
    pub chain_id: u64,
    pub updated_output_amount: u64,
    pub leaf_id: u32,
}

/// The pre-staged parameters of a refund-leaf execution.
pub struct ExecuteRelayerRefundLeafParams {
    pub root_bundle_id: u32,
    pub relayer_refund_leaf: RelayerRefundLeaf,
    pub proof_elements: Vec<[u8; 32]>,
}

/// The pre-staged parameters of a slow-fill-leaf execution.
pub struct ExecuteV3SlowRelayLeafParams {
    pub slow_fill_leaf: V3SlowFill,
    pub root_bundle_id: u32,
    pub proof_elements: Vec<[u8; 32]>,
}

/// One payout a refund-leaf execution authorizes: direct to the recipient, or
/// credited to the recipient's escrow claim account.
pub struct RefundPayout {
    pub refund_address: Bytes32,
    pub amount: u64,
    pub via_claim_account: bool,
}

/// What a successful refund-leaf execution hands back.
pub struct RelayerRefundExecution {
    pub amount_to_return: u64,
    pub mint_public_key: Bytes32,
    pub payouts: Vec<RefundPayout>,
}

/// The funds movement and event of a slow fill actually applied.
pub struct SlowFillExecutionDetails {
    pub transfer: TransferAuthorization,
    pub event: FilledV3Relay,
}

/// The outcome of a slow-fill-leaf execution: either the fill was applied, or
/// the relay was already filled — the leaf is marked executed either way, but
/// an already-filled relay moves no funds and keeps its record untouched.
pub enum SlowFillOutcome {
    Executed(SlowFillExecutionDetails),
    AlreadyFilled,
}

/// Publishes a new bundle under the next sequential id.
pub fn relay_root_bundle(
    bundles: &mut RootBundleLedger,
    relayer_refund_root: Bytes32,
    slow_relay_root: Bytes32,
) -> (root_bundle_id: u32)
    requires
        old(bundles).bundles@.len() < u32::MAX,
    ensures
        root_bundle_id == old(bundles).bundles@.len(),
        final(bundles).bundles@.len() == old(bundles).bundles@.len() + 1,
        forall|j: int| 0 <= j < old(bundles).bundles@.len()
            ==> final(bundles).bundles@[j] == old(bundles).bundles@[j],
        final(bundles).bundles@.last().relayer_refund_root == relayer_refund_root,
        final(bundles).bundles@.last().slow_relay_root == slow_relay_root,
        final(bundles).bundles@.last().claimed_refund_leaves@ == Seq::<u32>::empty(),
        final(bundles).bundles@.last().claimed_slow_fill_leaves@ == Seq::<u32>::empty(),
{
    let id = bundles.bundles.len() as u32;
    bundles.bundles.push(RootBundle {
        relayer_refund_root,
        slow_relay_root,
        claimed_refund_leaves: Vec::new(),
        claimed_slow_fill_leaves: Vec::new(),
    });
    id
}

/// Whether a leaf index is already in a claimed set.
fn contains_u32(v: &Vec<u32>, x: u32) -> (r: bool)
    ensures
        r == v@.contains(x),
{
    let mut i: usize = 0;
    while i < v.len()
        invariant
            0 <= i <= v@.len(),
            forall|j: int| 0 <= j < i ==> v@[j] != x,
        decreases v@.len() - i,
    {
        if v[i] == x {
            proof {
                assert(v@[i as int] == x);
            }
            return true;
        }
        i += 1;
    }
    proof {
        assert(!v@.contains(x)) by {
            if v@.contains(x) {
                let j = choose|j: int| 0 <= j < v@.len() && v@[j] == x;
            }
        }
    }
    false
}

/// The leaf arrays must fit their four-byte length prefixes.
pub open spec fn refund_leaf_fits(leaf: RelayerRefundLeaf) -> bool {
    &&& leaf.refund_amounts@.len() <= u32::MAX
    &&& leaf.refund_addresses@.len() <= u32::MAX
    &&& leaf.use_claim_accounts@.len() <= u32::MAX
}

/// The parallel per-recipient arrays must agree in length.
pub open spec fn refund_leaf_well_formed(leaf: RelayerRefundLeaf) -> bool {
    &&& leaf.refund_addresses@.len() == leaf.refund_amounts@.len()
    &&& leaf.use_claim_accounts@.len() == leaf.refund_amounts@.len()
}

/// The canonical serialization of a refund leaf: every field in a fixed
/// order, integers little endian, each array behind a four-byte length prefix.
pub open spec fn refund_leaf_encoding(leaf: RelayerRefundLeaf) -> Seq<u8> {
    u64_le_bytes(leaf.amount_to_return)
        + u64_le_bytes(leaf.chain_id)
        + u32_le_bytes(leaf.refund_amounts@.len() as u32)
        + seq_u64_le_bytes(leaf.refund_amounts@)
        + u32_le_bytes(leaf.leaf_id)
        + leaf.mint_public_key@
        + u32_le_bytes(leaf.refund_addresses@.len() as u32)
        + seq_bytes32_flat(leaf.refund_addresses@)
        + u32_le_bytes(leaf.use_claim_accounts@.len() as u32)
        + seq_bools_bytes(leaf.use_claim_accounts@)
}

/// The refund leaf's hash, recomputed from its canonical fields.
pub open spec fn refund_leaf_hash_of(leaf: RelayerRefundLeaf) -> Seq<u8> {
    keccak256_of(refund_leaf_encoding(leaf))
}

/// Hashes a refund leaf's canonical serialization.
pub fn hash_relayer_refund_leaf(leaf: &RelayerRefundLeaf) -> (r: [u8; 32])
    requires
        refund_leaf_fits(*leaf),
    ensures
        r@ == refund_leaf_hash_of(*leaf),
{
    let mut input: Vec<u8> = Vec::new();
    push_u64_le(&mut input, leaf.amount_to_return);
    push_u64_le(&mut input, leaf.chain_id);
    push_u32_le(&mut input, leaf.refund_amounts.len() as u32);
    push_seq_u64_le(&mut input, &leaf.refund_amounts);
    push_u32_le(&mut input, leaf.leaf_id);
    crate::hash::vec_extend_bytes32(&mut input, &leaf.mint_public_key);
    push_u32_le(&mut input, leaf.refund_addresses.len() as u32);
    push_seq_bytes32(&mut input, &leaf.refund_addresses);
    push_u32_le(&mut input, leaf.use_claim_accounts.len() as u32);
    push_seq_bools(&mut input, &leaf.use_claim_accounts);
    proof {
        assert(Seq::<u8>::empty() + u64_le_bytes(leaf.amount_to_return)
            =~= u64_le_bytes(leaf.amount_to_return));
        assert(input@ == refund_leaf_encoding(*leaf));
    }
    keccak256(&input)
}

/// The canonical serialization of a slow-fill leaf: the relay's own hash
/// input, then the updated output amount and the leaf index.
pub open spec fn slow_fill_leaf_encoding(leaf: V3SlowFill) -> Seq<u8> {
    relay_hash_input(leaf.relay_data, leaf.chain_id)
        + u64_le_bytes(leaf.updated_output_amount)
        + u32_le_bytes(leaf.leaf_id)
}

/// The slow-fill leaf's hash, recomputed from its canonical fields.
pub open spec fn slow_fill_leaf_hash_of(leaf: V3SlowFill) -> Seq<u8> {
    keccak256_of(slow_fill_leaf_encoding(leaf))
}

/// Hashes a slow-fill leaf's canonical serialization.
pub fn hash_v3_slow_fill_leaf(leaf: &V3SlowFill) -> (r: [u8; 32])
    requires
        relay_message_fits(leaf.relay_data),
    ensures
        r@ == slow_fill_leaf_hash_of(*leaf),
{
    let mut input = encode_relay_hash_input(&leaf.relay_data, leaf.chain_id);
    push_u64_le(&mut input, leaf.updated_output_amount);
    push_u32_le(&mut input, leaf.leaf_id);
    proof {
        assert(input@ == slow_fill_leaf_encoding(*leaf));
    }
    keccak256(&input)
}

/// The escrow key of the `i`-th refund of a leaf.
pub open spec fn escrow_key(leaf: RelayerRefundLeaf, i: int) -> (Seq<u8>, Seq<u8>) {
    (leaf.mint_public_key@, leaf.refund_addresses@[i]@)
}

/// The total credited to key `k` by the first `upto` refunds of a leaf.
pub open spec fn credit_total(leaf: RelayerRefundLeaf, k: (Seq<u8>, Seq<u8>), upto: int) -> int
    decreases upto,
{
    if upto <= 0 {
        0
    } else {
        credit_total(leaf, k, upto - 1)
            + if leaf.use_claim_accounts@[upto - 1] && escrow_key(leaf, upto - 1) == k {
                leaf.refund_amounts@[upto - 1] as int
            } else {
                0
            }
    }
}

/// Crediting more refunds never lowers a key's total.
proof fn lemma_credit_total_monotone(leaf: RelayerRefundLeaf, k: (Seq<u8>, Seq<u8>), i: int, j: int)
    requires
        0 <= i <= j,
    ensures
        credit_total(leaf, k, i) <= credit_total(leaf, k, j),
    decreases j,
{
    if j > i {
        lemma_credit_total_monotone(leaf, k, i, j - 1);
    }
}

/// Every escrowed refund has an initialized claim account to land in.
pub open spec fn all_escrow_accounts_present(
    leaf: RelayerRefundLeaf,
    m: Map<(Seq<u8>, Seq<u8>), crate::claim::ClaimAccount>,
) -> bool {
    forall|i: int| 0 <= i < leaf.refund_amounts@.len() && leaf.use_claim_accounts@[i]
        ==> m.contains_key(#[trigger] escrow_key(leaf, i))
}

/// No escrowed claim account would overflow if the whole leaf were credited.
pub open spec fn no_escrow_overflow(
    leaf: RelayerRefundLeaf,
    m: Map<(Seq<u8>, Seq<u8>), crate::claim::ClaimAccount>,
) -> bool {
    forall|i: int| 0 <= i < leaf.refund_amounts@.len() && leaf.use_claim_accounts@[i]
        ==> m[#[trigger] escrow_key(leaf, i)].amount
            + credit_total(leaf, escrow_key(leaf, i), leaf.refund_amounts@.len() as int)
            <= u64::MAX
}

/// Marks a refund leaf index as executed in its bundle.
fn mark_refund_leaf_claimed(bundles: &mut RootBundleLedger, id: usize, leaf_id: u32)
    requires
        id < old(bundles).bundles@.len(),
    ensures
        final(bundles).bundles@.len() == old(bundles).bundles@.len(),
        forall|j: int| 0 <= j < old(bundles).bundles@.len() && j != id
            ==> final(bundles).bundles@[j] == old(bundles).bundles@[j],
        final(bundles).bundles@[id as int].relayer_refund_root
            == old(bundles).bundles@[id as int].relayer_refund_root,
        final(bundles).bundles@[id as int].slow_relay_root
            == old(bundles).bundles@[id as int].slow_relay_root,
        final(bundles).bundles@[id as int].claimed_refund_leaves@
            == old(bundles).bundles@[id as int].claimed_refund_leaves@.push(leaf_id),
        final(bundles).bundles@[id as int].claimed_slow_fill_leaves@
            == old(bundles).bundles@[id as int].claimed_slow_fill_leaves@,
{
    let b = &mut bundles.bundles[id];
    b.claimed_refund_leaves.push(leaf_id);
}

/// Marks a slow-fill leaf index as executed in its bundle.
fn mark_slow_fill_leaf_claimed(bundles: &mut RootBundleLedger, id: usize, leaf_id: u32)
    requires
        id < old(bundles).bundles@.len(),
    ensures
        final(bundles).bundles@.len() == old(bundles).bundles@.len(),
        forall|j: int| 0 <= j < old(bundles).bundles@.len() && j != id
            ==> final(bundles).bundles@[j] == old(bundles).bundles@[j],
        final(bundles).bundles@[id as int].relayer_refund_root
            == old(bundles).bundles@[id as int].relayer_refund_root,
        final(bundles).bundles@[id as int].slow_relay_root
            == old(bundles).bundles@[id as int].slow_relay_root,
        final(bundles).bundles@[id as int].claimed_slow_fill_leaves@
            == old(bundles).bundles@[id as int].claimed_slow_fill_leaves@.push(leaf_id),
        final(bundles).bundles@[id as int].claimed_refund_leaves@
            == old(bundles).bundles@[id as int].claimed_refund_leaves@,
{
    let b = &mut bundles.bundles[id];
    b.claimed_slow_fill_leaves.push(leaf_id);
}

/// Law: the executed-bit, once set, is never cleared. A successful leaf
/// execution appends the leaf index to its family's claimed set, and both
/// execution paths reject a leaf whose index the set already contains, so a
/// (bundle, leaf family, leaf index) triple is executed at most once.
pub proof fn lemma_executed_leaf_stays_executed(claimed: Seq<u32>, leaf_id: u32)
    ensures
        claimed.push(leaf_id).contains(leaf_id),
        forall|x: u32| claimed.contains(x) ==> claimed.push(leaf_id).contains(x),
{
    assert(claimed.push(leaf_id)[claimed.len() as int] == leaf_id);
    assert forall|x: u32| claimed.contains(x) implies claimed.push(leaf_id).contains(x) by {
        let j = choose|j: int| 0 <= j < claimed.len() && claimed[j] == x;
        assert(claimed.push(leaf_id)[j] == x);
    }
}


/// The first reason a refund-leaf execution is rejected, in check order;
/// `None` means every precondition holds and execution succeeds.
pub open spec fn refund_leaf_error(
    bundles: RootBundleLedger,
    m: Map<(Seq<u8>, Seq<u8>), crate::claim::ClaimAccount>,
    state: State,
    params: ExecuteRelayerRefundLeafParams,
) -> Option<SettlementError> {
    let leaf = params.relayer_refund_leaf;
    if (params.root_bundle_id as int) >= bundles.bundles@.len() {
        Some(SettlementError::AccountNotInitialized)
    } else if leaf.chain_id != state.chain_id {
        Some(SettlementError::InvalidChainId)
    } else if !refund_leaf_well_formed(leaf) {
        Some(SettlementError::InvalidRefundLeaf)
    } else if process_proof_spec(params.proof_elements@, refund_leaf_hash_of(leaf))
        != bundles.bundles@[params.root_bundle_id as int].relayer_refund_root@ {
        Some(SettlementError::InvalidMerkleProof)
    } else if bundles.bundles@[params.root_bundle_id as int]
        .claimed_refund_leaves@.contains(leaf.leaf_id) {
        Some(SettlementError::ClaimedMerkleLeaf)
    } else if !all_escrow_accounts_present(leaf, m) {
        Some(SettlementError::AccountNotInitialized)
    } else if !no_escrow_overflow(leaf, m) {
        Some(SettlementError::ArithmeticOverflow)
    } else {
        None
    }
}

/// Checks that every escrowed refund of the leaf has an initialized claim
/// account and that no account would overflow once the whole leaf is credited.
#[verifier::loop_isolation(false)]
#[verifier::spinoff_prover]
#[verifier::rlimit(100)]
fn check_escrow_accounts(claims: &ClaimLedger, leaf: &RelayerRefundLeaf) -> (r: Result<
    (),
    SettlementError,
>)
    requires
        claims.wf(),
        refund_leaf_well_formed(*leaf),
    ensures
        !all_escrow_accounts_present(*leaf, claims@) ==> r == Err::<(), SettlementError>(
            SettlementError::AccountNotInitialized,
        ),
        all_escrow_accounts_present(*leaf, claims@) && !no_escrow_overflow(*leaf, claims@)
            ==> r == Err::<(), SettlementError>(SettlementError::ArithmeticOverflow),
        all_escrow_accounts_present(*leaf, claims@) && no_escrow_overflow(*leaf, claims@)
            ==> r is Ok,
{
    let ghost gl = *leaf;
    let n = leaf.refund_amounts.len();
    let mut i: usize = 0;
    while i < n
        invariant
            0 <= i <= n,
            forall|j: int| 0 <= j < i && gl.use_claim_accounts@[j]
                ==> claims@.contains_key(#[trigger] escrow_key(gl, j)),
        decreases n - i,
    {
        if leaf.use_claim_accounts[i] {
            if !claims.contains_account(&leaf.mint_public_key, &leaf.refund_addresses[i]) {
                proof {
                    assert(!claims@.contains_key(escrow_key(gl, i as int)));
                    assert(!all_escrow_accounts_present(gl, claims@));
                }
                return Err(SettlementError::AccountNotInitialized);
            }
        }
        i += 1;
    }
    let mut i: usize = 0;
    while i < n
        invariant
            0 <= i <= n,
            forall|j: int| 0 <= j < i && gl.use_claim_accounts@[j]
                ==> claims@[#[trigger] escrow_key(gl, j)].amount
                    + credit_total(gl, escrow_key(gl, j), n as int) <= u64::MAX,
        decreases n - i,
    {
        if leaf.use_claim_accounts[i] {
            let ghost key = escrow_key(gl, i as int);
            let mut total: u128 = 0;
            let mut j: usize = 0;
            while j < n
                invariant
                    0 <= j <= n,
                    total as int == credit_total(gl, key, j as int),
                    total as int <= (j as int) * 0xffff_ffff_ffff_ffff,
                decreases n - j,
            {
                proof {
                    assert(((j as int) + 1) * 0xffff_ffff_ffff_ffff == (j as int)
                        * 0xffff_ffff_ffff_ffff + 0xffff_ffff_ffff_ffff) by (nonlinear_arith);
                    assert(((j as int) + 1) * 0xffff_ffff_ffff_ffff < u128::MAX)
                        by (nonlinear_arith)
                        requires
                            0 <= j as int <= 0xffff_ffff_ffff_ffff,
                    ;
                }
                if leaf.use_claim_accounts[j] && crate::hash::bytes32_eq(
                    &leaf.refund_addresses[j],
                    &leaf.refund_addresses[i],
                ) {
                    total = total + (leaf.refund_amounts[j] as u128);
                }
                j += 1;
            }
            let current = claims.amount_of(&leaf.mint_public_key, &leaf.refund_addresses[i]);
            if (current as u128) + total > 0xffff_ffff_ffff_ffffu128 {
                return Err(SettlementError::ArithmeticOverflow);
            }
        }
        i += 1;
    }
    Ok(())
}

/// Credits every escrowed refund of the leaf to its claim account; the checks
/// above guarantee that no step can fail.
#[verifier::loop_isolation(false)]
#[verifier::spinoff_prover]
#[verifier::rlimit(100)]
fn apply_escrow_credits(claims: &mut ClaimLedger, leaf: &RelayerRefundLeaf)
    requires
        old(claims).wf(),
        refund_leaf_well_formed(*leaf),
        all_escrow_accounts_present(*leaf, old(claims)@),
        no_escrow_overflow(*leaf, old(claims)@),
    ensures
        final(claims).wf(),
        forall|k: (Seq<u8>, Seq<u8>)| #[trigger] final(claims)@.contains_key(k)
            == old(claims)@.contains_key(k),
        forall|k: (Seq<u8>, Seq<u8>)| #[trigger] old(claims)@.contains_key(k)
            ==> final(claims)@[k].initializer == old(claims)@[k].initializer
                && final(claims)@[k].amount == old(claims)@[k].amount
                    + credit_total(*leaf, k, leaf.refund_amounts@.len() as int),
{
    let ghost gl = *leaf;
    let ghost claims0 = claims@;
    let n = leaf.refund_amounts.len();
    let mut i: usize = 0;
    while i < n
        invariant
            0 <= i <= n,
            claims.wf(),
            forall|k: (Seq<u8>, Seq<u8>)| #[trigger] claims@.contains_key(k)
                == claims0.contains_key(k),
            forall|k: (Seq<u8>, Seq<u8>)| #[trigger] claims0.contains_key(k)
                ==> claims@[k].initializer == claims0[k].initializer
                    && claims@[k].amount == claims0[k].amount + credit_total(gl, k, i as int),
        decreases n - i,
    {
        if leaf.use_claim_accounts[i] {
            proof {
                lemma_credit_total_monotone(gl, escrow_key(gl, i as int), i as int + 1, n as int);
            }
            credit_relayer_refund(
                claims,
                &leaf.mint_public_key,
                &leaf.refund_addresses[i],
                leaf.refund_amounts[i],
            );
        }
        proof {
            assert forall|k: (Seq<u8>, Seq<u8>)| #[trigger] claims0.contains_key(k)
                implies claims@[k].initializer == claims0[k].initializer && claims@[k].amount
                    == claims0[k].amount + credit_total(gl, k, i as int + 1) by {
                assert(credit_total(gl, k, i as int + 1) == credit_total(gl, k, i as int) + if gl
                    .use_claim_accounts@[i as int] && escrow_key(gl, i as int) == k {
                    gl.refund_amounts@[i as int] as int
                } else {
                    0
                });
            }
        }
        i += 1;
    }
}

/// Lists the per-recipient payouts of a leaf, direct and escrowed alike.
fn build_payouts(leaf: &RelayerRefundLeaf) -> (payouts: Vec<RefundPayout>)
    requires
        refund_leaf_well_formed(*leaf),
    ensures
        payouts@.len() == leaf.refund_amounts@.len(),
        forall|j: int| 0 <= j < payouts@.len() ==> (#[trigger] payouts@[j]).refund_address
                == leaf.refund_addresses@[j]
            && payouts@[j].amount == leaf.refund_amounts@[j]
            && payouts@[j].via_claim_account == leaf.use_claim_accounts@[j],
{
    let n = leaf.refund_amounts.len();
    let mut payouts: Vec<RefundPayout> = Vec::new();
    let mut i: usize = 0;
    while i < n
        invariant
            0 <= i <= n,
            n == leaf.refund_amounts@.len(),
            refund_leaf_well_formed(*leaf),
            payouts@.len() == i,
            forall|j: int| 0 <= j < i ==> (#[trigger] payouts@[j]).refund_address
                    == leaf.refund_addresses@[j]
                && payouts@[j].amount == leaf.refund_amounts@[j]
                && payouts@[j].via_claim_account == leaf.use_claim_accounts@[j],
        decreases n - i,
    {
        payouts.push(RefundPayout {
            refund_address: leaf.refund_addresses[i],
            amount: leaf.refund_amounts[i],
            via_claim_account: leaf.use_claim_accounts[i],
        });
        i += 1;
    }
    payouts
}

/// Executes a refund leaf against its bundle: the leaf's hash is recomputed
/// from its canonical fields and proved against the bundle's refund root, the
/// leaf's executed-bit is checked and set, the net amount and the per-recipient
/// payouts are authorized, and every escrowed refund is credited to its claim
/// account. The whole operation is atomic: on any error, no record changes.
#[verifier::spinoff_prover]
#[verifier::rlimit(100)]
pub fn execute_relayer_refund_leaf(
    bundles: &mut RootBundleLedger,
    claims: &mut ClaimLedger,
    state: &State,
    params: &ExecuteRelayerRefundLeafParams,
) -> (r: Result<RelayerRefundExecution, SettlementError>)
    requires
        old(claims).wf(),
        refund_leaf_fits(params.relayer_refund_leaf),
    ensures
        final(claims).wf(),
        r is Err ==> final(claims)@ == old(claims)@
            && final(bundles).bundles@ == old(bundles).bundles@,
        refund_leaf_error(*old(bundles), old(claims)@, *state, *params) is Some
            ==> r == Err::<RelayerRefundExecution, SettlementError>(
                refund_leaf_error(*old(bundles), old(claims)@, *state, *params)->0,
            ),
        refund_leaf_error(*old(bundles), old(claims)@, *state, *params) is None ==> {
            &&& r is Ok
            &&& final(bundles).bundles@.len() == old(bundles).bundles@.len()
            &&& forall|j: int| 0 <= j < old(bundles).bundles@.len()
                && j != params.root_bundle_id as int
                ==> final(bundles).bundles@[j] == old(bundles).bundles@[j]
            &&& final(bundles).bundles@[params.root_bundle_id as int].relayer_refund_root
                == old(bundles).bundles@[params.root_bundle_id as int].relayer_refund_root
            &&& final(bundles).bundles@[params.root_bundle_id as int].slow_relay_root
                == old(bundles).bundles@[params.root_bundle_id as int].slow_relay_root
            &&& final(bundles).bundles@[params.root_bundle_id as int].claimed_refund_leaves@
                == old(bundles).bundles@[params.root_bundle_id as int]
                    .claimed_refund_leaves@.push(params.relayer_refund_leaf.leaf_id)
            &&& final(bundles).bundles@[params.root_bundle_id as int].claimed_slow_fill_leaves@
                == old(bundles).bundles@[params.root_bundle_id as int].claimed_slow_fill_leaves@
            &&& forall|k: (Seq<u8>, Seq<u8>)| #[trigger] final(claims)@.contains_key(k)
                == old(claims)@.contains_key(k)
            &&& forall|k: (Seq<u8>, Seq<u8>)| #[trigger] old(claims)@.contains_key(k)
                ==> final(claims)@[k].initializer == old(claims)@[k].initializer
                    && final(claims)@[k].amount == old(claims)@[k].amount + credit_total(
                        params.relayer_refund_leaf,
                        k,
                        params.relayer_refund_leaf.refund_amounts@.len() as int,
                    )
            &&& r->Ok_0.amount_to_return == params.relayer_refund_leaf.amount_to_return
            &&& r->Ok_0.mint_public_key == params.relayer_refund_leaf.mint_public_key
            &&& r->Ok_0.payouts@.len() == params.relayer_refund_leaf.refund_amounts@.len()
            &&& forall|i: int| 0 <= i < params.relayer_refund_leaf.refund_amounts@.len()
                ==> (#[trigger] r->Ok_0.payouts@[i]).refund_address
                        == params.relayer_refund_leaf.refund_addresses@[i]
                    && r->Ok_0.payouts@[i].amount
                        == params.relayer_refund_leaf.refund_amounts@[i]
                    && r->Ok_0.payouts@[i].via_claim_account
                        == params.relayer_refund_leaf.use_claim_accounts@[i]
        },
{
    let leaf = &params.relayer_refund_leaf;
    let id = params.root_bundle_id as usize;
    if id >= bundles.bundles.len() {
        return Err(SettlementError::AccountNotInitialized);
    }
    if leaf.chain_id != state.chain_id {
        return Err(SettlementError::InvalidChainId);
    }
    let n = leaf.refund_amounts.len();
    if leaf.refund_addresses.len() != n || leaf.use_claim_accounts.len() != n {
        return Err(SettlementError::InvalidRefundLeaf);
    }
    let leaf_hash = hash_relayer_refund_leaf(leaf);
    let refund_root = bundles.bundles[id].relayer_refund_root;
    match verify_merkle_proof(&refund_root, &leaf_hash, &params.proof_elements) {
        Err(e) => {
            return Err(e);
        }
        Ok(()) => {}
    }
    if contains_u32(&bundles.bundles[id].claimed_refund_leaves, leaf.leaf_id) {
        return Err(SettlementError::ClaimedMerkleLeaf);
    }
    match check_escrow_accounts(claims, leaf) {
        Err(e) => {
            return Err(e);
        }
        Ok(()) => {}
    }
    apply_escrow_credits(claims, leaf);
    mark_refund_leaf_claimed(bundles, id, leaf.leaf_id);
    let payouts = build_payouts(leaf);
    Ok(RelayerRefundExecution {
        amount_to_return: leaf.amount_to_return,
        mint_public_key: leaf.mint_public_key,
        payouts,
    })
}



/// The first reason a slow-fill-leaf execution is rejected, in check order;
/// `None` means the leaf is accepted (applied, or found already filled).
pub open spec fn slow_fill_leaf_error(
    bundles: RootBundleLedger,
    fills_map: Map<Seq<u8>, FillStatusAccount>,
    state: State,
    current_time: u32,
    relay_hash: Seq<u8>,
    params: ExecuteV3SlowRelayLeafParams,
) -> Option<SettlementError> {
    let leaf = params.slow_fill_leaf;
    if (params.root_bundle_id as int) >= bundles.bundles@.len() {
        Some(SettlementError::AccountNotInitialized)
    } else if leaf.chain_id != state.chain_id {
        Some(SettlementError::InvalidChainId)
    } else if relay_hash != relay_hash_of(leaf.relay_data, state.chain_id) {
        Some(SettlementError::InvalidRelayHash)
    } else if process_proof_spec(params.proof_elements@, slow_fill_leaf_hash_of(leaf))
        != bundles.bundles@[params.root_bundle_id as int].slow_relay_root@ {
        Some(SettlementError::InvalidMerkleProof)
    } else if bundles.bundles@[params.root_bundle_id as int]
        .claimed_slow_fill_leaves@.contains(leaf.leaf_id) {
        Some(SettlementError::ClaimedMerkleLeaf)
    } else if fill_status_of(fills_map, relay_hash) == FillStatus::Unfilled
        && leaf.relay_data.fill_deadline < current_time {
        Some(SettlementError::ExpiredFillDeadline)
    } else {
        None
    }
}

/// The slow-fill leaf's executed-bit is set in its bundle and nothing else
/// in the bundle ledger changes.
pub open spec fn slow_fill_bit_set(
    old_bundles: RootBundleLedger,
    new_bundles: RootBundleLedger,
    id: int,
    leaf_id: u32,
) -> bool {
    &&& new_bundles.bundles@.len() == old_bundles.bundles@.len()
    &&& forall|j: int| 0 <= j < old_bundles.bundles@.len() && j != id
        ==> new_bundles.bundles@[j] == old_bundles.bundles@[j]
    &&& new_bundles.bundles@[id].relayer_refund_root == old_bundles.bundles@[id].relayer_refund_root
    &&& new_bundles.bundles@[id].slow_relay_root == old_bundles.bundles@[id].slow_relay_root
    &&& new_bundles.bundles@[id].claimed_slow_fill_leaves@
        == old_bundles.bundles@[id].claimed_slow_fill_leaves@.push(leaf_id)
    &&& new_bundles.bundles@[id].claimed_refund_leaves@
        == old_bundles.bundles@[id].claimed_refund_leaves@
}

/// Executes a slow-fill leaf against its bundle: the leaf's hash is proved
/// against the bundle's slow-relay root and the leaf's executed-bit is checked
/// and set. A relay in RequestedSlowFill — or still Unfilled before its
/// deadline — moves to Filled and the payout to the recipient is authorized;
/// a relay already Filled yields the explicit already-filled signal, with the
/// bit still set but no funds moved and no record touched.
#[verifier::spinoff_prover]
#[verifier::rlimit(100)]
pub fn execute_v3_slow_relay_leaf(
    bundles: &mut RootBundleLedger,
    fills: &mut FillLedger,
    state: &State,
    current_time: u32,
    signer: Bytes32,
    vault: Bytes32,
    recipient_token_account: Bytes32,
    relay_hash: &[u8; 32],
    params: &ExecuteV3SlowRelayLeafParams,
) -> (r: Result<SlowFillOutcome, SettlementError>)
    requires
        old(fills).wf(),
        relay_message_fits(params.slow_fill_leaf.relay_data),
    ensures
        final(fills).wf(),
        r is Err ==> final(fills)@ == old(fills)@
            && final(bundles).bundles@ == old(bundles).bundles@,
        slow_fill_leaf_error(
            *old(bundles), old(fills)@, *state, current_time, relay_hash@, *params,
        ) is Some ==> r == Err::<SlowFillOutcome, SettlementError>(
            slow_fill_leaf_error(
                *old(bundles), old(fills)@, *state, current_time, relay_hash@, *params,
            )->0,
        ),
        slow_fill_leaf_error(
            *old(bundles), old(fills)@, *state, current_time, relay_hash@, *params,
        ) is None && fill_status_of(old(fills)@, relay_hash@) == FillStatus::Filled ==> {
            &&& r is Ok
            &&& r->Ok_0 is AlreadyFilled
            &&& final(fills)@ == old(fills)@
            &&& slow_fill_bit_set(
                *old(bundles),
                *final(bundles),
                params.root_bundle_id as int,
                params.slow_fill_leaf.leaf_id,
            )
        },
        slow_fill_leaf_error(
            *old(bundles), old(fills)@, *state, current_time, relay_hash@, *params,
        ) is None && fill_status_of(old(fills)@, relay_hash@) != FillStatus::Filled ==> {
            &&& r is Ok
            &&& r->Ok_0 is Executed
            &&& final(fills)@ == old(fills)@.insert(
                relay_hash@,
                FillStatusAccount { status: FillStatus::Filled, relayer: signer },
            )
            &&& slow_fill_bit_set(
                *old(bundles),
                *final(bundles),
                params.root_bundle_id as int,
                params.slow_fill_leaf.leaf_id,
            )
            &&& r->Ok_0->Executed_0.transfer == (TransferAuthorization {
                from: vault,
                to: recipient_token_account,
                amount: params.slow_fill_leaf.updated_output_amount,
            })
            &&& event_matches(
                r->Ok_0->Executed_0.event,
                params.slow_fill_leaf.relay_data,
                0,
                r->Ok_0->Executed_0.event.relayer,
                params.slow_fill_leaf.updated_output_amount,
                FillType::SlowFill,
            )
            &&& r->Ok_0->Executed_0.event.relayer@ == crate::zero_bytes()
        },
{
    let leaf = &params.slow_fill_leaf;
    let id = params.root_bundle_id as usize;
    if id >= bundles.bundles.len() {
        return Err(SettlementError::AccountNotInitialized);
    }
    if leaf.chain_id != state.chain_id {
        return Err(SettlementError::InvalidChainId);
    }
    let expected = get_v3_relay_hash(&leaf.relay_data, state.chain_id);
    if !crate::hash::bytes32_eq(relay_hash, &expected) {
        return Err(SettlementError::InvalidRelayHash);
    }
    let leaf_hash = hash_v3_slow_fill_leaf(leaf);
    let slow_root = bundles.bundles[id].slow_relay_root;
    match verify_merkle_proof(&slow_root, &leaf_hash, &params.proof_elements) {
        Err(e) => {
            return Err(e);
        }
        Ok(()) => {}
    }
    if contains_u32(&bundles.bundles[id].claimed_slow_fill_leaves, leaf.leaf_id) {
        return Err(SettlementError::ClaimedMerkleLeaf);
    }
    let status = fills.fill_status(relay_hash);
    if status == FillStatus::Filled {
        mark_slow_fill_leaf_claimed(bundles, id, leaf.leaf_id);
        return Ok(SlowFillOutcome::AlreadyFilled);
    }
    if status == FillStatus::Unfilled && leaf.relay_data.fill_deadline < current_time {
        return Err(SettlementError::ExpiredFillDeadline);
    }
    fills.set_record(
        relay_hash,
        FillStatusAccount { status: FillStatus::Filled, relayer: signer },
    );
    mark_slow_fill_leaf_claimed(bundles, id, leaf.leaf_id);
    let message_hash = hash_non_empty_message(&leaf.relay_data.message);
    let zero_relayer = crate::zero_bytes32();
    Ok(SlowFillOutcome::Executed(SlowFillExecutionDetails {
        transfer: TransferAuthorization {
            from: vault,
            to: recipient_token_account,
            amount: leaf.updated_output_amount,
        },
        event: FilledV3Relay {
            input_token: leaf.relay_data.input_token,
            output_token: leaf.relay_data.output_token,
            input_amount: leaf.relay_data.input_amount,
            output_amount: leaf.relay_data.output_amount,
            repayment_chain_id: 0,
            origin_chain_id: leaf.relay_data.origin_chain_id,
            deposit_id: leaf.relay_data.deposit_id,
            fill_deadline: leaf.relay_data.fill_deadline,
            exclusivity_deadline: leaf.relay_data.exclusivity_deadline,
            exclusive_relayer: leaf.relay_data.exclusive_relayer,
            relayer: zero_relayer,
            depositor: leaf.relay_data.depositor,
            recipient: leaf.relay_data.recipient,
            message_hash,
            relay_execution_info: V3RelayExecutionEventInfo {
                updated_recipient: leaf.relay_data.recipient,
                updated_message_hash: message_hash,
                updated_output_amount: leaf.updated_output_amount,
                fill_type: FillType::SlowFill,
            },
        },
    }))
}

} // verus!
