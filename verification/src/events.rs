use vstd::prelude::*;

use crate::Bytes32;

verus! {

/// How a relay came to be filled.
#[derive(Clone, Copy, Debug, PartialEq, Eq, Structural)]
pub enum FillType {
    /// A relayer fronted the funds before any slow-fill request.
    FastFill,
    /// A relayer fronted the funds after a slow fill had been requested.
    ReplacedSlowFill,
    /// The recipient was paid out of a slow-fill bundle leaf.
    SlowFill,
}

/// A token movement the core has authorized; the external transfer
/// collaborator performs it. The core itself never moves funds.
#[derive(Clone, Copy)]
pub struct TransferAuthorization {
    pub from: Bytes32,
    pub to: Bytes32,
    pub amount: u64,
}

/// Execution details nested inside the fill event.
#[derive(Clone, Copy)]
pub struct V3RelayExecutionEventInfo {
    pub updated_recipient: Bytes32,
    pub updated_message_hash: Bytes32,
    pub updated_output_amount: u64,
    pub fill_type: FillType,
}

/// The observable record of a fill: the full relay parameters, the fill type,
/// and the hash of the message (a zero sentinel when the message was empty).
#[derive(Clone, Copy)]
pub struct FilledV3Relay {
    pub input_token: Bytes32,
    pub output_token: Bytes32,
    pub input_amount: u64,
    pub output_amount: u64,
    pub repayment_chain_id: u64,
    pub origin_chain_id: u64,
    pub deposit_id: u32,
    pub fill_deadline: u32,
    pub exclusivity_deadline: u32,
    pub exclusive_relayer: Bytes32,
    pub relayer: Bytes32,
    pub depositor: Bytes32,
    pub recipient: Bytes32,
    pub message_hash: Bytes32,
    pub relay_execution_info: V3RelayExecutionEventInfo,
}

/// The observable record of a refund claim being paid out.
#[derive(Clone, Copy)]
pub struct ClaimedRelayerRefund {
    pub l2_token_address: Bytes32,
    pub claim_amount: u64,
    pub refund_address: Bytes32,
}

} // verus!
