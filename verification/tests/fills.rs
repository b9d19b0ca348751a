use svm_spoke::errors::ErrorCategory;
use svm_spoke::errors::SettlementError;
use svm_spoke::events::FillType;
use svm_spoke::fill::close_fill_pda;
use svm_spoke::fill::fill_v3_relay;
use svm_spoke::fill::request_v3_slow_fill;
use svm_spoke::fill::FillLedger;
use svm_spoke::fill::FillStatus;
use svm_spoke::fill::FillV3RelayParams;
use svm_spoke::fill::RequestV3SlowFillParams;
use svm_spoke::relay::get_v3_relay_hash;
use svm_spoke::relay::V3RelayData;
use svm_spoke::state::State;

const CHAIN: u64 = 7777;
const NOW: u32 = 500;

fn sample_relay() -> V3RelayData {
    V3RelayData {
        depositor: [1; 32],
        recipient: [2; 32],
        exclusive_relayer: [0; 32],
        input_token: [3; 32],
        output_token: [4; 32],
        input_amount: 1000,
        output_amount: 900,
        origin_chain_id: 10,
        deposit_id: 42,
        fill_deadline: 1000,
        exclusivity_deadline: 0,
        message: Vec::new(),
    }
}

fn fill_params(relay_data: V3RelayData) -> FillV3RelayParams {
    FillV3RelayParams { relay_data, repayment_chain_id: 10, repayment_address: [9; 32] }
}

fn do_fill(
    fills: &mut FillLedger,
    state: &State,
    now: u32,
    signer: [u8; 32],
    relay_data: V3RelayData,
) -> Result<svm_spoke::fill::FillV3RelayOutcome, SettlementError> {
    let hash = get_v3_relay_hash(&relay_data, state.chain_id);
    fill_v3_relay(
        fills,
        state,
        now,
        signer,
        &hash,
        &fill_params(relay_data),
        [21; 32],
        [22; 32],
    )
}

#[test]
fn fill_succeeds_and_reports_fast_fill() {
    let state = State::new(CHAIN);
    let mut fills = FillLedger::new();
    let relay_data = sample_relay();
    let hash = get_v3_relay_hash(&relay_data, CHAIN);
    let outcome = match do_fill(&mut fills, &state, NOW, [7; 32], sample_relay()) {
        Ok(o) => o,
        Err(_) => panic!("fill should succeed"),
    };
    assert_eq!(outcome.event.relay_execution_info.fill_type, FillType::FastFill);
    assert_eq!(outcome.event.message_hash, [0u8; 32]);
    assert!(!outcome.invoke_message);
    let transfer = match outcome.transfer {
        Some(t) => t,
        None => panic!("transfer expected"),
    };
    assert_eq!(transfer.amount, 900);
    assert_eq!(transfer.from, [21; 32]);
    assert_eq!(transfer.to, [22; 32]);
    assert_eq!(fills.fill_status(&hash), FillStatus::Filled);
}

#[test]
fn fill_twice_fails_with_relay_filled() {
    let state = State::new(CHAIN);
    let mut fills = FillLedger::new();
    assert!(do_fill(&mut fills, &state, NOW, [7; 32], sample_relay()).is_ok());
    assert_eq!(
        do_fill(&mut fills, &state, NOW, [8; 32], sample_relay()).err(),
        Some(SettlementError::RelayFilled)
    );
    assert_eq!(
        SettlementError::RelayFilled.category(),
        ErrorCategory::State
    );
}

#[test]
fn request_after_fill_fails_with_relay_filled() {
    let state = State::new(CHAIN);
    let mut fills = FillLedger::new();
    assert!(do_fill(&mut fills, &state, NOW, [7; 32], sample_relay()).is_ok());
    let hash = get_v3_relay_hash(&sample_relay(), CHAIN);
    let params = RequestV3SlowFillParams { relay_data: sample_relay() };
    assert_eq!(
        request_v3_slow_fill(&mut fills, &state, NOW, &hash, &params).err(),
        Some(SettlementError::RelayFilled)
    );
}

#[test]
fn request_then_fill_records_replaced_slow_fill() {
    let state = State::new(CHAIN);
    let mut fills = FillLedger::new();
    let hash = get_v3_relay_hash(&sample_relay(), CHAIN);
    let params = RequestV3SlowFillParams { relay_data: sample_relay() };
    assert!(request_v3_slow_fill(&mut fills, &state, NOW, &hash, &params).is_ok());
    assert_eq!(fills.fill_status(&hash), FillStatus::RequestedSlowFill);
    let outcome = match do_fill(&mut fills, &state, NOW, [7; 32], sample_relay()) {
        Ok(o) => o,
        Err(_) => panic!("replacement fill should succeed"),
    };
    assert_eq!(
        outcome.event.relay_execution_info.fill_type,
        FillType::ReplacedSlowFill
    );
    assert_eq!(fills.fill_status(&hash), FillStatus::Filled);
}

#[test]
fn request_twice_fails_with_invalid_slow_fill_request() {
    let state = State::new(CHAIN);
    let mut fills = FillLedger::new();
    let hash = get_v3_relay_hash(&sample_relay(), CHAIN);
    let params = RequestV3SlowFillParams { relay_data: sample_relay() };
    assert!(request_v3_slow_fill(&mut fills, &state, NOW, &hash, &params).is_ok());
    assert_eq!(
        request_v3_slow_fill(&mut fills, &state, NOW, &hash, &params).err(),
        Some(SettlementError::InvalidSlowFillRequest)
    );
}

#[test]
fn request_inside_exclusivity_window_fails() {
    let state = State::new(CHAIN);
    let mut fills = FillLedger::new();
    let mut relay_data = sample_relay();
    relay_data.exclusive_relayer = [5; 32];
    relay_data.exclusivity_deadline = NOW + 10;
    let hash = get_v3_relay_hash(&relay_data, CHAIN);
    let params = RequestV3SlowFillParams { relay_data };
    assert_eq!(
        request_v3_slow_fill(&mut fills, &state, NOW, &hash, &params).err(),
        Some(SettlementError::NoSlowFillsInExclusivityWindow)
    );
}

#[test]
fn exclusivity_window_blocks_other_relayers() {
    let state = State::new(CHAIN);
    let mut fills = FillLedger::new();
    let mut relay_data = sample_relay();
    relay_data.exclusive_relayer = [5; 32];
    relay_data.exclusivity_deadline = NOW + 10;
    assert_eq!(
        do_fill(&mut fills, &state, NOW, [7; 32], relay_data.clone()).err(),
        Some(SettlementError::NotExclusiveRelayer)
    );
    assert!(do_fill(&mut fills, &state, NOW, [5; 32], relay_data).is_ok());
}

#[test]
fn exclusivity_window_expires() {
    let state = State::new(CHAIN);
    let mut fills = FillLedger::new();
    let mut relay_data = sample_relay();
    relay_data.exclusive_relayer = [5; 32];
    relay_data.exclusivity_deadline = NOW - 1;
    assert!(do_fill(&mut fills, &state, NOW, [7; 32], relay_data).is_ok());
}

#[test]
fn fill_after_deadline_fails() {
    let state = State::new(CHAIN);
    let mut fills = FillLedger::new();
    let mut relay_data = sample_relay();
    relay_data.fill_deadline = NOW - 1;
    assert_eq!(
        do_fill(&mut fills, &state, NOW, [7; 32], relay_data).err(),
        Some(SettlementError::ExpiredFillDeadline)
    );
    assert_eq!(
        SettlementError::ExpiredFillDeadline.category(),
        ErrorCategory::Deadline
    );
}

#[test]
fn paused_fills_are_rejected() {
    let mut state = State::new(CHAIN);
    svm_spoke::state::pause_fills(&mut state, true);
    let mut fills = FillLedger::new();
    assert_eq!(
        do_fill(&mut fills, &state, NOW, [7; 32], sample_relay()).err(),
        Some(SettlementError::FillsArePaused)
    );
    assert_eq!(
        SettlementError::FillsArePaused.category(),
        ErrorCategory::Paused
    );
}

#[test]
fn forged_relay_hash_is_rejected() {
    let state = State::new(CHAIN);
    let mut fills = FillLedger::new();
    let mut wrong = get_v3_relay_hash(&sample_relay(), CHAIN);
    wrong[0] ^= 1;
    let r = fill_v3_relay(
        &mut fills,
        &state,
        NOW,
        [7; 32],
        &wrong,
        &fill_params(sample_relay()),
        [21; 32],
        [22; 32],
    );
    assert_eq!(r.err(), Some(SettlementError::InvalidRelayHash));
    assert_eq!(
        SettlementError::InvalidRelayHash.category(),
        ErrorCategory::Validation
    );
}

#[test]
fn self_relay_skips_the_transfer() {
    let state = State::new(CHAIN);
    let mut fills = FillLedger::new();
    let hash = get_v3_relay_hash(&sample_relay(), CHAIN);
    let r = fill_v3_relay(
        &mut fills,
        &state,
        NOW,
        [7; 32],
        &hash,
        &fill_params(sample_relay()),
        [21; 32],
        [21; 32],
    );
    let outcome = match r {
        Ok(o) => o,
        Err(_) => panic!("self relay should succeed"),
    };
    assert!(outcome.transfer.is_none());
}

#[test]
fn message_forwarding_only_for_non_empty_messages() {
    let state = State::new(CHAIN);
    let mut fills = FillLedger::new();
    let mut relay_data = sample_relay();
    relay_data.message = vec![1, 2, 3];
    let outcome = match do_fill(&mut fills, &state, NOW, [7; 32], relay_data) {
        Ok(o) => o,
        Err(_) => panic!("fill should succeed"),
    };
    assert!(outcome.invoke_message);
    assert_ne!(outcome.event.message_hash, [0u8; 32]);
}

#[test]
fn close_fails_until_deadline_has_passed() {
    let state = State::new(CHAIN);
    let mut fills = FillLedger::new();
    let relay_data = sample_relay();
    let deadline = relay_data.fill_deadline;
    let hash = get_v3_relay_hash(&relay_data, CHAIN);
    assert!(do_fill(&mut fills, &state, NOW, [7; 32], sample_relay()).is_ok());
    assert_eq!(
        close_fill_pda(&mut fills, &state, deadline, [7; 32], &hash, &sample_relay()).err(),
        Some(SettlementError::CanOnlyCloseFillStatusPdaIfFillDeadlinePassed)
    );
    assert!(close_fill_pda(&mut fills, &state, deadline + 1, [7; 32], &hash, &sample_relay())
        .is_ok());
    assert_eq!(fills.fill_status(&hash), FillStatus::Unfilled);
}

#[test]
fn close_works_for_never_filled_records_too() {
    let state = State::new(CHAIN);
    let mut fills = FillLedger::new();
    let relay_data = sample_relay();
    let deadline = relay_data.fill_deadline;
    let hash = get_v3_relay_hash(&relay_data, CHAIN);
    let params = RequestV3SlowFillParams { relay_data };
    assert!(request_v3_slow_fill(&mut fills, &state, NOW, &hash, &params).is_ok());
    // a never-filled record carries the zero relayer
    assert_eq!(
        close_fill_pda(&mut fills, &state, deadline, [0; 32], &hash, &sample_relay()).err(),
        Some(SettlementError::CanOnlyCloseFillStatusPdaIfFillDeadlinePassed)
    );
    assert!(close_fill_pda(&mut fills, &state, deadline + 1, [0; 32], &hash, &sample_relay())
        .is_ok());
}

#[test]
fn close_requires_the_recorded_relayer() {
    let state = State::new(CHAIN);
    let mut fills = FillLedger::new();
    let hash = get_v3_relay_hash(&sample_relay(), CHAIN);
    assert!(do_fill(&mut fills, &state, NOW, [7; 32], sample_relay()).is_ok());
    assert_eq!(
        close_fill_pda(&mut fills, &state, 2000, [8; 32], &hash, &sample_relay()).err(),
        Some(SettlementError::NotRelayer)
    );
    assert_eq!(SettlementError::NotRelayer.category(), ErrorCategory::Authorization);
}

#[test]
fn close_of_missing_record_fails() {
    let state = State::new(CHAIN);
    let mut fills = FillLedger::new();
    let hash = get_v3_relay_hash(&sample_relay(), CHAIN);
    assert_eq!(
        close_fill_pda(&mut fills, &state, 2000, [7; 32], &hash, &sample_relay()).err(),
        Some(SettlementError::AccountNotInitialized)
    );
}
