use svm_spoke::bundle::execute_relayer_refund_leaf;
use svm_spoke::bundle::execute_v3_slow_relay_leaf;
use svm_spoke::bundle::hash_relayer_refund_leaf;
use svm_spoke::bundle::hash_v3_slow_fill_leaf;
use svm_spoke::bundle::relay_root_bundle;
use svm_spoke::bundle::ExecuteRelayerRefundLeafParams;
use svm_spoke::bundle::ExecuteV3SlowRelayLeafParams;
use svm_spoke::bundle::RelayerRefundLeaf;
use svm_spoke::bundle::RootBundleLedger;
use svm_spoke::bundle::SlowFillOutcome;
use svm_spoke::bundle::V3SlowFill;
use svm_spoke::claim::claim_relayer_refund;
use svm_spoke::claim::close_claim_account;
use svm_spoke::claim::initialize_claim_account;
use svm_spoke::claim::ClaimLedger;
use svm_spoke::errors::SettlementError;
use svm_spoke::fill::fill_v3_relay;
use svm_spoke::fill::request_v3_slow_fill;
use svm_spoke::fill::FillLedger;
use svm_spoke::fill::FillStatus;
use svm_spoke::fill::FillV3RelayParams;
use svm_spoke::fill::RequestV3SlowFillParams;
use svm_spoke::relay::get_v3_relay_hash;
use svm_spoke::relay::V3RelayData;
use svm_spoke::state::State;

const CHAIN: u64 = 7777;
const NOW: u32 = 500;
const MINT: [u8; 32] = [40; 32];

fn sample_relay() -> V3RelayData {
    V3RelayData {
        depositor: [1; 32],
        recipient: [2; 32],
        exclusive_relayer: [0; 32],
        input_token: [3; 32],
        output_token: [4; 32],
        input_amount: 1000,
        output_amount: 900,
        origin_chain_id: 10,
        deposit_id: 42,
        fill_deadline: 1000,
        exclusivity_deadline: 0,
        message: Vec::new(),
    }
}

fn refund_leaf(amounts: Vec<u64>, addresses: Vec<[u8; 32]>, escrow: Vec<bool>) -> RelayerRefundLeaf {
    RelayerRefundLeaf {
        amount_to_return: 50,
        chain_id: CHAIN,
        refund_amounts: amounts,
        leaf_id: 0,
        mint_public_key: MINT,
        refund_addresses: addresses,
        use_claim_accounts: escrow,
    }
}

/// Publishes a single-leaf bundle whose refund root is the leaf hash itself.
fn publish_refund_bundle(bundles: &mut RootBundleLedger, leaf: &RelayerRefundLeaf) -> u32 {
    let leaf_hash = hash_relayer_refund_leaf(leaf);
    relay_root_bundle(bundles, leaf_hash, [0; 32])
}

fn refund_params(bundle_id: u32, leaf: RelayerRefundLeaf) -> ExecuteRelayerRefundLeafParams {
    ExecuteRelayerRefundLeafParams {
        root_bundle_id: bundle_id,
        relayer_refund_leaf: leaf,
        proof_elements: Vec::new(),
    }
}

#[test]
fn refund_leaf_pays_directly_and_marks_the_leaf() {
    let state = State::new(CHAIN);
    let mut bundles = RootBundleLedger { bundles: Vec::new() };
    let mut claims = ClaimLedger::new();
    let leaf = refund_leaf(vec![100, 200], vec![[61; 32], [62; 32]], vec![false, false]);
    let id = publish_refund_bundle(&mut bundles, &leaf);
    let exec = match execute_relayer_refund_leaf(
        &mut bundles,
        &mut claims,
        &state,
        &refund_params(id, leaf),
    ) {
        Ok(e) => e,
        Err(_) => panic!("refund execution should succeed"),
    };
    assert_eq!(exec.amount_to_return, 50);
    assert_eq!(exec.mint_public_key, MINT);
    assert_eq!(exec.payouts.len(), 2);
    assert_eq!(exec.payouts[0].refund_address, [61; 32]);
    assert_eq!(exec.payouts[0].amount, 100);
    assert!(!exec.payouts[0].via_claim_account);
    assert_eq!(exec.payouts[1].amount, 200);
}

#[test]
fn refund_leaf_executes_at_most_once() {
    let state = State::new(CHAIN);
    let mut bundles = RootBundleLedger { bundles: Vec::new() };
    let mut claims = ClaimLedger::new();
    let leaf = refund_leaf(vec![100], vec![[61; 32]], vec![false]);
    let leaf2 = refund_leaf(vec![100], vec![[61; 32]], vec![false]);
    let leaf3 = refund_leaf(vec![100], vec![[61; 32]], vec![false]);
    let id = publish_refund_bundle(&mut bundles, &leaf);
    assert!(execute_relayer_refund_leaf(&mut bundles, &mut claims, &state, &refund_params(id, leaf2))
        .is_ok());
    assert_eq!(
        execute_relayer_refund_leaf(&mut bundles, &mut claims, &state, &refund_params(id, leaf3))
            .err(),
        Some(SettlementError::ClaimedMerkleLeaf)
    );
}

#[test]
fn refund_leaf_rejects_bad_inputs() {
    let state = State::new(CHAIN);
    let mut bundles = RootBundleLedger { bundles: Vec::new() };
    let mut claims = ClaimLedger::new();
    let leaf = refund_leaf(vec![100], vec![[61; 32]], vec![false]);
    let id = publish_refund_bundle(&mut bundles, &leaf);

    // missing bundle
    assert_eq!(
        execute_relayer_refund_leaf(
            &mut bundles,
            &mut claims,
            &state,
            &refund_params(id + 1, refund_leaf(vec![100], vec![[61; 32]], vec![false])),
        )
        .err(),
        Some(SettlementError::AccountNotInitialized)
    );

    // wrong destination chain
    let mut wrong_chain = refund_leaf(vec![100], vec![[61; 32]], vec![false]);
    wrong_chain.chain_id = CHAIN + 1;
    assert_eq!(
        execute_relayer_refund_leaf(&mut bundles, &mut claims, &state, &refund_params(id, wrong_chain))
            .err(),
        Some(SettlementError::InvalidChainId)
    );

    // parallel arrays disagree
    let malformed = refund_leaf(vec![100, 1], vec![[61; 32]], vec![false, false]);
    assert_eq!(
        execute_relayer_refund_leaf(&mut bundles, &mut claims, &state, &refund_params(id, malformed))
            .err(),
        Some(SettlementError::InvalidRefundLeaf)
    );

    // leaf not under the root
    let other = refund_leaf(vec![999], vec![[61; 32]], vec![false]);
    assert_eq!(
        execute_relayer_refund_leaf(&mut bundles, &mut claims, &state, &refund_params(id, other))
            .err(),
        Some(SettlementError::InvalidMerkleProof)
    );
}

#[test]
fn escrowed_refund_requires_an_initialized_claim_account() {
    let state = State::new(CHAIN);
    let mut bundles = RootBundleLedger { bundles: Vec::new() };
    let mut claims = ClaimLedger::new();
    let leaf = refund_leaf(vec![100], vec![[61; 32]], vec![true]);
    let id = publish_refund_bundle(&mut bundles, &leaf);
    assert_eq!(
        execute_relayer_refund_leaf(&mut bundles, &mut claims, &state, &refund_params(id, leaf))
            .err(),
        Some(SettlementError::AccountNotInitialized)
    );
}

#[test]
fn claim_lifecycle_credit_claim_and_close() {
    let state = State::new(CHAIN);
    let mut bundles = RootBundleLedger { bundles: Vec::new() };
    let mut claims = ClaimLedger::new();
    let beneficiary = [61u8; 32];
    let initializer = [77u8; 32];
    assert!(initialize_claim_account(&mut claims, MINT, beneficiary, initializer).is_ok());
    assert_eq!(
        initialize_claim_account(&mut claims, MINT, beneficiary, initializer).err(),
        Some(SettlementError::AccountAlreadyInitialized)
    );

    let leaf = refund_leaf(vec![100], vec![beneficiary], vec![true]);
    let id = publish_refund_bundle(&mut bundles, &leaf);
    assert!(
        execute_relayer_refund_leaf(&mut bundles, &mut claims, &state, &refund_params(id, leaf))
            .is_ok()
    );
    assert_eq!(claims.amount_of(&MINT, &beneficiary), 100);

    // the record holds funds, so the initializer cannot close it
    assert_eq!(
        close_claim_account(&mut claims, MINT, beneficiary, initializer).err(),
        Some(SettlementError::NonZeroRefundClaim)
    );

    let claimed = match claim_relayer_refund(&mut claims, MINT, beneficiary) {
        Ok(c) => c,
        Err(_) => panic!("claim should succeed"),
    };
    assert_eq!(claimed.claim_amount, 100);
    assert_eq!(claimed.l2_token_address, MINT);
    assert_eq!(claimed.refund_address, beneficiary);

    // the record is gone: a second claim always sees zero
    assert_eq!(
        claim_relayer_refund(&mut claims, MINT, beneficiary).err(),
        Some(SettlementError::ZeroRefundClaim)
    );
    assert_eq!(claims.amount_of(&MINT, &beneficiary), 0);

    // an empty record can be reclaimed, but only by its initializer
    assert!(initialize_claim_account(&mut claims, MINT, beneficiary, initializer).is_ok());
    assert_eq!(
        close_claim_account(&mut claims, MINT, beneficiary, [78; 32]).err(),
        Some(SettlementError::InvalidClaimInitializer)
    );
    assert!(close_claim_account(&mut claims, MINT, beneficiary, initializer).is_ok());
    assert_eq!(
        close_claim_account(&mut claims, MINT, beneficiary, initializer).err(),
        Some(SettlementError::AccountNotInitialized)
    );
}

#[test]
fn repeated_escrow_credits_to_one_key_accumulate() {
    let state = State::new(CHAIN);
    let mut bundles = RootBundleLedger { bundles: Vec::new() };
    let mut claims = ClaimLedger::new();
    let beneficiary = [61u8; 32];
    assert!(initialize_claim_account(&mut claims, MINT, beneficiary, [77; 32]).is_ok());
    let leaf = refund_leaf(vec![100, 50], vec![beneficiary, beneficiary], vec![true, true]);
    let id = publish_refund_bundle(&mut bundles, &leaf);
    assert!(
        execute_relayer_refund_leaf(&mut bundles, &mut claims, &state, &refund_params(id, leaf))
            .is_ok()
    );
    assert_eq!(claims.amount_of(&MINT, &beneficiary), 150);
}

#[test]
fn claim_for_a_beneficiary_pays_that_beneficiary() {
    let state = State::new(CHAIN);
    let mut bundles = RootBundleLedger { bundles: Vec::new() };
    let mut claims = ClaimLedger::new();
    let beneficiary = [61u8; 32];
    assert!(initialize_claim_account(&mut claims, MINT, beneficiary, [77; 32]).is_ok());
    let leaf = refund_leaf(vec![25], vec![beneficiary], vec![true]);
    let id = publish_refund_bundle(&mut bundles, &leaf);
    assert!(
        execute_relayer_refund_leaf(&mut bundles, &mut claims, &state, &refund_params(id, leaf))
            .is_ok()
    );
    let claimed = match svm_spoke::claim::claim_relayer_refund_for(&mut claims, MINT, beneficiary) {
        Ok(c) => c,
        Err(_) => panic!("claim for beneficiary should succeed"),
    };
    assert_eq!(claimed.claim_amount, 25);
    assert_eq!(claimed.refund_address, beneficiary);
    assert_eq!(
        svm_spoke::claim::claim_relayer_refund_for(&mut claims, MINT, beneficiary).err(),
        Some(SettlementError::ZeroRefundClaim)
    );
}

#[test]
fn overflowing_escrow_credit_aborts_without_any_change() {
    let state = State::new(CHAIN);
    let mut bundles = RootBundleLedger { bundles: Vec::new() };
    let mut claims = ClaimLedger::new();
    let beneficiary = [61u8; 32];
    assert!(initialize_claim_account(&mut claims, MINT, beneficiary, [77; 32]).is_ok());

    let leaf = refund_leaf(vec![u64::MAX, 1], vec![beneficiary, beneficiary], vec![true, true]);
    let retry = refund_leaf(vec![u64::MAX, 1], vec![beneficiary, beneficiary], vec![true, true]);
    let id = publish_refund_bundle(&mut bundles, &leaf);
    assert_eq!(
        execute_relayer_refund_leaf(&mut bundles, &mut claims, &state, &refund_params(id, leaf))
            .err(),
        Some(SettlementError::ArithmeticOverflow)
    );
    // nothing was credited and the leaf is still unexecuted
    assert_eq!(claims.amount_of(&MINT, &beneficiary), 0);
    assert_eq!(
        execute_relayer_refund_leaf(&mut bundles, &mut claims, &state, &refund_params(id, retry))
            .err(),
        Some(SettlementError::ArithmeticOverflow)
    );
}

#[test]
fn bundle_ids_are_sequential() {
    let mut bundles = RootBundleLedger { bundles: Vec::new() };
    assert_eq!(relay_root_bundle(&mut bundles, [1; 32], [2; 32]), 0);
    assert_eq!(relay_root_bundle(&mut bundles, [3; 32], [4; 32]), 1);
    assert_eq!(bundles.bundles.len(), 2);
}

fn slow_leaf(relay_data: V3RelayData) -> V3SlowFill {
    V3SlowFill { relay_data, chain_id: CHAIN, updated_output_amount: 950, leaf_id: 0 }
}

fn publish_slow_bundle(bundles: &mut RootBundleLedger, leaf: &V3SlowFill) -> u32 {
    let leaf_hash = hash_v3_slow_fill_leaf(leaf);
    relay_root_bundle(bundles, [0; 32], leaf_hash)
}

fn exec_slow(
    bundles: &mut RootBundleLedger,
    fills: &mut FillLedger,
    state: &State,
    leaf: V3SlowFill,
    bundle_id: u32,
) -> Result<SlowFillOutcome, SettlementError> {
    let hash = get_v3_relay_hash(&leaf.relay_data, CHAIN);
    execute_v3_slow_relay_leaf(
        bundles,
        fills,
        state,
        NOW,
        [7; 32],
        [30; 32],
        [31; 32],
        &hash,
        &ExecuteV3SlowRelayLeafParams {
            slow_fill_leaf: leaf,
            root_bundle_id: bundle_id,
            proof_elements: Vec::new(),
        },
    )
}

#[test]
fn slow_fill_leaf_pays_a_requested_relay() {
    let state = State::new(CHAIN);
    let mut bundles = RootBundleLedger { bundles: Vec::new() };
    let mut fills = FillLedger::new();
    let relay_data = sample_relay();
    let relay_hash = get_v3_relay_hash(&relay_data, CHAIN);
    let params = RequestV3SlowFillParams { relay_data: relay_data.clone() };
    assert!(request_v3_slow_fill(&mut fills, &state, NOW, &relay_hash, &params).is_ok());

    let leaf = slow_leaf(relay_data);
    let id = publish_slow_bundle(&mut bundles, &leaf);
    let outcome = match exec_slow(&mut bundles, &mut fills, &state, leaf, id) {
        Ok(o) => o,
        Err(_) => panic!("slow fill execution should succeed"),
    };
    match outcome {
        SlowFillOutcome::Executed(details) => {
            assert_eq!(details.transfer.from, [30; 32]);
            assert_eq!(details.transfer.to, [31; 32]);
            assert_eq!(details.transfer.amount, 950);
            assert_eq!(details.event.relayer, [0; 32]);
            assert_eq!(details.event.relay_execution_info.updated_output_amount, 950);
        }
        SlowFillOutcome::AlreadyFilled => panic!("expected an applied slow fill"),
    }
    assert_eq!(fills.fill_status(&relay_hash), FillStatus::Filled);
}

#[test]
fn slow_fill_after_fast_fill_signals_already_filled() {
    let state = State::new(CHAIN);
    let mut bundles = RootBundleLedger { bundles: Vec::new() };
    let mut fills = FillLedger::new();
    let relay_data = sample_relay();
    let relay_hash = get_v3_relay_hash(&relay_data, CHAIN);

    // request a slow fill, then have a relayer replace it with a fast fill
    let params = RequestV3SlowFillParams { relay_data: relay_data.clone() };
    assert!(request_v3_slow_fill(&mut fills, &state, NOW, &relay_hash, &params).is_ok());
    let fill = fill_v3_relay(
        &mut fills,
        &state,
        NOW,
        [7; 32],
        &relay_hash,
        &FillV3RelayParams {
            relay_data: relay_data.clone(),
            repayment_chain_id: 10,
            repayment_address: [9; 32],
        },
        [21; 32],
        [22; 32],
    );
    assert!(fill.is_ok());

    // the bundled slow fill now finds the relay already filled: the leaf is
    // consumed, but no funds move and the record keeps its relayer
    let leaf = slow_leaf(relay_data.clone());
    let id = publish_slow_bundle(&mut bundles, &leaf);
    match exec_slow(&mut bundles, &mut fills, &state, leaf, id) {
        Ok(SlowFillOutcome::AlreadyFilled) => {}
        _ => panic!("expected the already-filled signal"),
    }
    assert_eq!(fills.fill_status(&relay_hash), FillStatus::Filled);
    assert_eq!(
        exec_slow(&mut bundles, &mut fills, &state, slow_leaf(relay_data), id).err(),
        Some(SettlementError::ClaimedMerkleLeaf)
    );
}

#[test]
fn slow_fill_of_unfilled_relay_respects_the_deadline() {
    let state = State::new(CHAIN);
    let mut bundles = RootBundleLedger { bundles: Vec::new() };
    let mut fills = FillLedger::new();

    // expired: the relay was never requested and its deadline has passed
    let mut expired = sample_relay();
    expired.fill_deadline = NOW - 1;
    let leaf = slow_leaf(expired);
    let id = publish_slow_bundle(&mut bundles, &leaf);
    assert_eq!(
        exec_slow(&mut bundles, &mut fills, &state, leaf, id).err(),
        Some(SettlementError::ExpiredFillDeadline)
    );

    // still open: execution creates the record and fills it
    let relay_data = sample_relay();
    let relay_hash = get_v3_relay_hash(&relay_data, CHAIN);
    let leaf = slow_leaf(relay_data);
    let id = publish_slow_bundle(&mut bundles, &leaf);
    assert!(exec_slow(&mut bundles, &mut fills, &state, leaf, id).is_ok());
    assert_eq!(fills.fill_status(&relay_hash), FillStatus::Filled);
}

#[test]
fn slow_fill_leaf_rejects_a_forged_relay_hash() {
    let state = State::new(CHAIN);
    let mut bundles = RootBundleLedger { bundles: Vec::new() };
    let mut fills = FillLedger::new();
    let leaf = slow_leaf(sample_relay());
    let id = publish_slow_bundle(&mut bundles, &leaf);
    let mut wrong = get_v3_relay_hash(&leaf.relay_data, CHAIN);
    wrong[5] ^= 2;
    let r = execute_v3_slow_relay_leaf(
        &mut bundles,
        &mut fills,
        &state,
        NOW,
        [7; 32],
        [30; 32],
        [31; 32],
        &wrong,
        &ExecuteV3SlowRelayLeafParams {
            slow_fill_leaf: leaf,
            root_bundle_id: id,
            proof_elements: Vec::new(),
        },
    );
    assert_eq!(r.err(), Some(SettlementError::InvalidRelayHash));
}
