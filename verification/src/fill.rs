use vstd::prelude::*;
use vstd::pervasive::VecAdditionalExecFns;

use crate::Bytes32;
use crate::bytes32_is_zero;
use crate::zero_bytes;
use crate::errors::SettlementError;
use crate::events::FillType;
use crate::events::FilledV3Relay;
use crate::events::TransferAuthorization;
use crate::events::V3RelayExecutionEventInfo;
use crate::hash::bytes32_eq;
use crate::hash::keccak256;
use crate::hash::keccak256_of;
use crate::relay::V3RelayData;
use crate::relay::get_v3_relay_hash;
use crate::relay::relay_hash_of;
use crate::relay::relay_message_fits;
use crate::state::State;
use crate::store::kv_distinct;
use crate::store::kv_map;
use crate::store::lemma_kv_map_characterization;
use crate::store::lemma_kv_map_push;
use crate::store::lemma_kv_map_remove;
use crate::store::lemma_kv_map_update;

verus! {

broadcast use vstd::seq::group_seq_axioms, vstd::map::group_map_axioms;

/// The status of one relay fingerprint. A missing record reads as Unfilled.
#[derive(Clone, Copy, Debug, PartialEq, Eq, Structural)]
pub enum FillStatus {
    Unfilled,
    RequestedSlowFill,
    Filled,
}

/// One persisted fill record: the relay's status and, once Filled, the
/// relayer entitled to reclaim the record after the fill deadline.
#[derive(Clone, Copy)]
pub struct FillStatusAccount {
    pub status: FillStatus,
    pub relayer: Bytes32,
}

/// The pre-staged parameters of a fill call.
pub struct FillV3RelayParams {
    pub relay_data: V3RelayData,
    pub repayment_chain_id: u64,
    pub repayment_address: Bytes32,
}

/// The pre-staged parameters of a slow-fill request.
pub struct RequestV3SlowFillParams {
    pub relay_data: V3RelayData,
}

/// The per-relay fulfillment ledger, keyed by relay fingerprint.
pub struct FillLedger {
    entries: Vec<([u8; 32], FillStatusAccount)>,
}

impl View for FillLedger {
    type V = Map<Seq<u8>, FillStatusAccount>;

    closed spec fn view(&self) -> Map<Seq<u8>, FillStatusAccount> {
        kv_map(self.entries@)
    }
}

/// The status a ledger assigns to a fingerprint: that of its record, or
/// Unfilled where no record exists.
pub open spec fn fill_status_of(m: Map<Seq<u8>, FillStatusAccount>, k: Seq<u8>) -> FillStatus {
    if m.contains_key(k) {
        m[k].status
    } else {
        FillStatus::Unfilled
    }
}

/// The exclusivity window blocks a caller when an exclusive relayer is
/// declared, the window has not closed, and the caller is someone else.
pub open spec fn exclusivity_blocks(d: V3RelayData, signer: Bytes32, now: u32) -> bool {
    &&& d.exclusive_relayer@ != signer@
    &&& d.exclusivity_deadline >= now
    &&& d.exclusive_relayer@ != zero_bytes()
}

/// The hash emitted for a relay message: a zero sentinel for an empty message,
/// so that empty messages stay distinguishable from a genuine zero digest.
pub open spec fn message_hash_of(m: Seq<u8>) -> Seq<u8> {
    if m.len() == 0 {
        zero_bytes()
    } else {
        keccak256_of(m)
    }
}

/// Hashes a relay message, emitting the zero sentinel for an empty one.
pub fn hash_non_empty_message(message: &Vec<u8>) -> (r: Bytes32)
    ensures
        r@ == message_hash_of(message@),
{
    if message.len() == 0 {
        crate::zero_bytes32()
    } else {
        keccak256(message)
    }
}

/// The fill event that a successful fill of `d` must carry.
pub open spec fn event_matches(
    e: FilledV3Relay,
    d: V3RelayData,
    repayment_chain_id: u64,
    repayment_address: Bytes32,
    updated_output_amount: u64,
    fill_type: FillType,
) -> bool {
    &&& e.input_token == d.input_token
    &&& e.output_token == d.output_token
    &&& e.input_amount == d.input_amount
    &&& e.output_amount == d.output_amount
    &&& e.repayment_chain_id == repayment_chain_id
    &&& e.origin_chain_id == d.origin_chain_id
    &&& e.deposit_id == d.deposit_id
    &&& e.fill_deadline == d.fill_deadline
    &&& e.exclusivity_deadline == d.exclusivity_deadline
    &&& e.exclusive_relayer == d.exclusive_relayer
    &&& e.relayer == repayment_address
    &&& e.depositor == d.depositor
    &&& e.recipient == d.recipient
    &&& e.message_hash@ == message_hash_of(d.message@)
    &&& e.relay_execution_info.updated_recipient == d.recipient
    &&& e.relay_execution_info.updated_message_hash@ == message_hash_of(d.message@)
    &&& e.relay_execution_info.updated_output_amount == updated_output_amount
    &&& e.relay_execution_info.fill_type == fill_type
}

/// What a successful fill hands back: the token movement to perform (absent on
/// a self-relay), whether the non-empty message must be forwarded to the
/// message handler, and the observable event.
pub struct FillV3RelayOutcome {
    pub transfer: Option<TransferAuthorization>,
    pub invoke_message: bool,
    pub event: FilledV3Relay,
}

impl FillLedger {
    /// No two records share a fingerprint.
    pub closed spec fn wf(&self) -> bool {
        kv_distinct(self.entries@)
    }

    /// An empty ledger.
    pub fn new() -> (r: FillLedger)
        ensures
            r.wf(),
            r@ == Map::<Seq<u8>, FillStatusAccount>::empty(),
    {
        let r = FillLedger { entries: Vec::new() };
        proof {
            assert(r.entries@.len() == 0);
        }
        r
    }

    /// Looks a fingerprint up in the backing entry list.
    fn find_index(&self, key: &[u8; 32]) -> (r: Option<usize>)
        requires
            self.wf(),
        ensures
            match r {
                Some(i) => i < self.entries@.len() && self.entries@[i as int].0@ == key@
                    && self@.contains_key(key@) && self@[key@] == self.entries@[i as int].1,
                None => !self@.contains_key(key@)
                    && forall|j: int| 0 <= j < self.entries@.len()
                        ==> self.entries@[j].0@ != key@,
            },
    {
        let mut i: usize = 0;
        while i < self.entries.len()
            invariant
                self.wf(),
                0 <= i <= self.entries@.len(),
                forall|j: int| 0 <= j < i ==> self.entries@[j].0@ != key@,
            decreases self.entries@.len() - i,
        {
            if bytes32_eq(&self.entries[i].0, key) {
                proof {
                    lemma_kv_map_characterization(self.entries@);
                }
                return Some(i);
            }
            i += 1;
        }
        proof {
            lemma_kv_map_characterization(self.entries@);
        }
        None
    }

    /// The status the ledger assigns to a fingerprint.
    pub fn fill_status(&self, key: &[u8; 32]) -> (r: FillStatus)
        requires
            self.wf(),
        ensures
            r == fill_status_of(self@, key@),
    {
        match self.find_index(key) {
            Some(i) => self.entries[i].1.status,
            None => FillStatus::Unfilled,
        }
    }

    /// Binds a fingerprint to a record, replacing any prior record.
    pub(crate) fn set_record(&mut self, key: &[u8; 32], account: FillStatusAccount)
        requires
            old(self).wf(),
        ensures
            final(self).wf(),
            final(self)@ == old(self)@.insert(key@, account),
    {
        match self.find_index(key) {
            Some(i) => {
                proof {
                    lemma_kv_map_update(self.entries@, i as int, (*key, account));
                }
                self.entries.set(i, (*key, account));
            }
            None => {
                proof {
                    lemma_kv_map_push(self.entries@, *key, account);
                }
                self.entries.push((*key, account));
            }
        }
    }

    /// Deletes the record of a fingerprint.
    fn remove_record(&mut self, key: &[u8; 32])
        requires
            old(self).wf(),
            old(self)@.contains_key(key@),
        ensures
            final(self).wf(),
            final(self)@ == old(self)@.remove(key@),
    {
        match self.find_index(key) {
            Some(i) => {
                proof {
                    lemma_kv_map_remove(self.entries@, i as int);
                }
                self.entries.remove(i);
            }
            None => {
                proof {
                    assert(false);
                }
            }
        }
    }
}

/// Law: Filled is terminal. A successful fill binds the fingerprint to the
/// Filled status, and every operation that could move a fill record —
/// `fill_v3_relay`, `request_v3_slow_fill`, `execute_v3_slow_relay_leaf` —
/// rejects or bypasses a fingerprint that reads Filled, so no second fill,
/// request or slow-fill payout can touch the same relay again.
pub proof fn lemma_filled_is_terminal(
    m: Map<Seq<u8>, FillStatusAccount>,
    relay_hash: Seq<u8>,
    signer: Bytes32,
)
    ensures
        fill_status_of(
            m.insert(
                relay_hash,
                FillStatusAccount { status: FillStatus::Filled, relayer: signer },
            ),
            relay_hash,
        ) == FillStatus::Filled,
{
}


/// Fills a relay: after the pause, fingerprint, exclusivity, deadline and
/// status checks pass, the record moves to the terminal Filled status, the
/// token movement is authorized (skipped on a self-relay), and the fill event
/// is produced. A relay already Filled is never touched again.
pub fn fill_v3_relay(
    fills: &mut FillLedger,
    state: &State,
    current_time: u32,
    signer: Bytes32,
    relay_hash: &[u8; 32],
    params: &FillV3RelayParams,
    relayer_token_account: Bytes32,
    recipient_token_account: Bytes32,
) -> (r: Result<FillV3RelayOutcome, SettlementError>)
    requires
        old(fills).wf(),
        relay_message_fits(params.relay_data),
    ensures
        final(fills).wf(),
        r is Err ==> final(fills)@ == old(fills)@,
        state.paused_fills ==> r == Err::<FillV3RelayOutcome, SettlementError>(
            SettlementError::FillsArePaused,
        ),
        !state.paused_fills && relay_hash@ != relay_hash_of(params.relay_data, state.chain_id)
            ==> r == Err::<FillV3RelayOutcome, SettlementError>(SettlementError::InvalidRelayHash),
        !state.paused_fills && relay_hash@ == relay_hash_of(params.relay_data, state.chain_id)
            && exclusivity_blocks(params.relay_data, signer, current_time)
            ==> r == Err::<FillV3RelayOutcome, SettlementError>(
                SettlementError::NotExclusiveRelayer,
            ),
        !state.paused_fills && relay_hash@ == relay_hash_of(params.relay_data, state.chain_id)
            && !exclusivity_blocks(params.relay_data, signer, current_time)
            && params.relay_data.fill_deadline < current_time
            ==> r == Err::<FillV3RelayOutcome, SettlementError>(
                SettlementError::ExpiredFillDeadline,
            ),
        !state.paused_fills && relay_hash@ == relay_hash_of(params.relay_data, state.chain_id)
            && !exclusivity_blocks(params.relay_data, signer, current_time)
            && params.relay_data.fill_deadline >= current_time
            && fill_status_of(old(fills)@, relay_hash@) == FillStatus::Filled
            ==> r == Err::<FillV3RelayOutcome, SettlementError>(SettlementError::RelayFilled),
        !state.paused_fills && relay_hash@ == relay_hash_of(params.relay_data, state.chain_id)
            && !exclusivity_blocks(params.relay_data, signer, current_time)
            && params.relay_data.fill_deadline >= current_time
            && fill_status_of(old(fills)@, relay_hash@) != FillStatus::Filled
            ==> {
                &&& r is Ok
                &&& final(fills)@ == old(fills)@.insert(
                    relay_hash@,
                    FillStatusAccount { status: FillStatus::Filled, relayer: signer },
                )
                &&& event_matches(
                    r->Ok_0.event,
                    params.relay_data,
                    params.repayment_chain_id,
                    params.repayment_address,
                    params.relay_data.output_amount,
                    if fill_status_of(old(fills)@, relay_hash@) == FillStatus::RequestedSlowFill {
                        FillType::ReplacedSlowFill
                    } else {
                        FillType::FastFill
                    },
                )
                &&& r->Ok_0.invoke_message == (params.relay_data.message@.len() > 0)
                &&& (relayer_token_account@ == recipient_token_account@
                    ==> r->Ok_0.transfer is None)
                &&& (relayer_token_account@ != recipient_token_account@
                    ==> r->Ok_0.transfer == Some(TransferAuthorization {
                        from: relayer_token_account,
                        to: recipient_token_account,
                        amount: params.relay_data.output_amount,
                    }))
            },
{
    let relay_data = &params.relay_data;
    if state.paused_fills {
        return Err(SettlementError::FillsArePaused);
    }
    let expected = get_v3_relay_hash(relay_data, state.chain_id);
    if !bytes32_eq(relay_hash, &expected) {
        return Err(SettlementError::InvalidRelayHash);
    }
    if !bytes32_eq(&relay_data.exclusive_relayer, &signer)
        && relay_data.exclusivity_deadline >= current_time
        && !bytes32_is_zero(&relay_data.exclusive_relayer) {
        return Err(SettlementError::NotExclusiveRelayer);
    }
    if relay_data.fill_deadline < current_time {
        return Err(SettlementError::ExpiredFillDeadline);
    }
    let prior_status = fills.fill_status(relay_hash);
    let fill_type = match prior_status {
        FillStatus::Filled => {
            return Err(SettlementError::RelayFilled);
        }
        FillStatus::RequestedSlowFill => FillType::ReplacedSlowFill,
        FillStatus::Unfilled => FillType::FastFill,
    };
    fills.set_record(
        relay_hash,
        FillStatusAccount { status: FillStatus::Filled, relayer: signer },
    );
    let transfer = if !bytes32_eq(&relayer_token_account, &recipient_token_account) {
        Some(TransferAuthorization {
            from: relayer_token_account,
            to: recipient_token_account,
            amount: relay_data.output_amount,
        })
    } else {
        None
    };
    let message_hash = hash_non_empty_message(&relay_data.message);
    Ok(FillV3RelayOutcome {
        transfer,
        invoke_message: relay_data.message.len() > 0,
        event: FilledV3Relay {
            input_token: relay_data.input_token,
            output_token: relay_data.output_token,
            input_amount: relay_data.input_amount,
            output_amount: relay_data.output_amount,
            repayment_chain_id: params.repayment_chain_id,
            origin_chain_id: relay_data.origin_chain_id,
            deposit_id: relay_data.deposit_id,
            fill_deadline: relay_data.fill_deadline,
            exclusivity_deadline: relay_data.exclusivity_deadline,
            exclusive_relayer: relay_data.exclusive_relayer,
            relayer: params.repayment_address,
            depositor: relay_data.depositor,
            recipient: relay_data.recipient,
            message_hash,
            relay_execution_info: V3RelayExecutionEventInfo {
                updated_recipient: relay_data.recipient,
                updated_message_hash: message_hash,
                updated_output_amount: relay_data.output_amount,
                fill_type,
            },
        },
    })
}

/// Requests a slow fill: allowed only outside the exclusivity window, before
/// the fill deadline, and from the Unfilled status; the record then moves to
/// RequestedSlowFill.
pub fn request_v3_slow_fill(
    fills: &mut FillLedger,
    state: &State,
    current_time: u32,
    relay_hash: &[u8; 32],
    params: &RequestV3SlowFillParams,
) -> (r: Result<(), SettlementError>)
    requires
        old(fills).wf(),
        relay_message_fits(params.relay_data),
    ensures
        final(fills).wf(),
        r is Err ==> final(fills)@ == old(fills)@,
        state.paused_fills ==> r == Err::<(), SettlementError>(SettlementError::FillsArePaused),
        !state.paused_fills && relay_hash@ != relay_hash_of(params.relay_data, state.chain_id)
            ==> r == Err::<(), SettlementError>(SettlementError::InvalidRelayHash),
        !state.paused_fills && relay_hash@ == relay_hash_of(params.relay_data, state.chain_id)
            && params.relay_data.exclusivity_deadline >= current_time
            ==> r == Err::<(), SettlementError>(SettlementError::NoSlowFillsInExclusivityWindow),
        !state.paused_fills && relay_hash@ == relay_hash_of(params.relay_data, state.chain_id)
            && params.relay_data.exclusivity_deadline < current_time
            && params.relay_data.fill_deadline < current_time
            ==> r == Err::<(), SettlementError>(SettlementError::ExpiredFillDeadline),
        !state.paused_fills && relay_hash@ == relay_hash_of(params.relay_data, state.chain_id)
            && params.relay_data.exclusivity_deadline < current_time
            && params.relay_data.fill_deadline >= current_time
            && fill_status_of(old(fills)@, relay_hash@) == FillStatus::Filled
            ==> r == Err::<(), SettlementError>(SettlementError::RelayFilled),
        !state.paused_fills && relay_hash@ == relay_hash_of(params.relay_data, state.chain_id)
            && params.relay_data.exclusivity_deadline < current_time
            && params.relay_data.fill_deadline >= current_time
            && fill_status_of(old(fills)@, relay_hash@) == FillStatus::RequestedSlowFill
            ==> r == Err::<(), SettlementError>(SettlementError::InvalidSlowFillRequest),
        !state.paused_fills && relay_hash@ == relay_hash_of(params.relay_data, state.chain_id)
            && params.relay_data.exclusivity_deadline < current_time
            && params.relay_data.fill_deadline >= current_time
            && fill_status_of(old(fills)@, relay_hash@) == FillStatus::Unfilled
            ==> {
                &&& r is Ok
                &&& final(fills)@.contains_key(relay_hash@)
                &&& final(fills)@[relay_hash@].status == FillStatus::RequestedSlowFill
                &&& final(fills)@[relay_hash@].relayer@ == zero_bytes()
                &&& final(fills)@ == old(fills)@.insert(
                    relay_hash@,
                    final(fills)@[relay_hash@],
                )
            },
{
    if state.paused_fills {
        return Err(SettlementError::FillsArePaused);
    }
    let expected = get_v3_relay_hash(&params.relay_data, state.chain_id);
    if !bytes32_eq(relay_hash, &expected) {
        return Err(SettlementError::InvalidRelayHash);
    }
    if params.relay_data.exclusivity_deadline >= current_time {
        return Err(SettlementError::NoSlowFillsInExclusivityWindow);
    }
    if params.relay_data.fill_deadline < current_time {
        return Err(SettlementError::ExpiredFillDeadline);
    }
    match fills.fill_status(relay_hash) {
        FillStatus::Filled => Err(SettlementError::RelayFilled),
        FillStatus::RequestedSlowFill => Err(SettlementError::InvalidSlowFillRequest),
        FillStatus::Unfilled => {
            fills.set_record(
                relay_hash,
                FillStatusAccount {
                    status: FillStatus::RequestedSlowFill,
                    relayer: crate::zero_bytes32(),
                },
            );
            Ok(())
        }
    }
}

/// Reclaims a fill record's storage: permitted only to the recorded relayer,
/// and only strictly after the fill deadline has passed, whatever the
/// terminal status; the record is then deleted.
pub fn close_fill_pda(
    fills: &mut FillLedger,
    state: &State,
    current_time: u32,
    signer: Bytes32,
    relay_hash: &[u8; 32],
    relay_data: &V3RelayData,
) -> (r: Result<(), SettlementError>)
    requires
        old(fills).wf(),
        relay_message_fits(*relay_data),
    ensures
        final(fills).wf(),
        r is Err ==> final(fills)@ == old(fills)@,
        relay_hash@ != relay_hash_of(*relay_data, state.chain_id)
            ==> r == Err::<(), SettlementError>(SettlementError::InvalidRelayHash),
        relay_hash@ == relay_hash_of(*relay_data, state.chain_id)
            && !old(fills)@.contains_key(relay_hash@)
            ==> r == Err::<(), SettlementError>(SettlementError::AccountNotInitialized),
        relay_hash@ == relay_hash_of(*relay_data, state.chain_id)
            && old(fills)@.contains_key(relay_hash@)
            && old(fills)@[relay_hash@].relayer@ != signer@
            ==> r == Err::<(), SettlementError>(SettlementError::NotRelayer),
        relay_hash@ == relay_hash_of(*relay_data, state.chain_id)
            && old(fills)@.contains_key(relay_hash@)
            && old(fills)@[relay_hash@].relayer@ == signer@
            && current_time <= relay_data.fill_deadline
            ==> r == Err::<(), SettlementError>(
                SettlementError::CanOnlyCloseFillStatusPdaIfFillDeadlinePassed,
            ),
        relay_hash@ == relay_hash_of(*relay_data, state.chain_id)
            && old(fills)@.contains_key(relay_hash@)
            && old(fills)@[relay_hash@].relayer@ == signer@
            && current_time > relay_data.fill_deadline
            ==> r is Ok && final(fills)@ == old(fills)@.remove(relay_hash@),
{
    let expected = get_v3_relay_hash(relay_data, state.chain_id);
    if !bytes32_eq(relay_hash, &expected) {
        return Err(SettlementError::InvalidRelayHash);
    }
    let i = match fills.find_index(relay_hash) {
        Some(i) => i,
        None => {
            return Err(SettlementError::AccountNotInitialized);
        }
    };
    let recorded_relayer = fills.entries[i].1.relayer;
    if !bytes32_eq(&recorded_relayer, &signer) {
        return Err(SettlementError::NotRelayer);
    }
    if current_time <= relay_data.fill_deadline {
        return Err(SettlementError::CanOnlyCloseFillStatusPdaIfFillDeadlinePassed);
    }
    fills.remove_record(relay_hash);
    Ok(())
}

} // verus!
