use vstd::prelude::*;
use vstd::pervasive::VecAdditionalExecFns;

use crate::Bytes32;
use crate::errors::SettlementError;
use crate::events::ClaimedRelayerRefund;
use crate::hash::bytes32_eq;
use crate::store::kv_distinct;
use crate::store::kv_map;
use crate::store::lemma_kv_map_characterization;
use crate::store::lemma_kv_map_push;
use crate::store::lemma_kv_map_remove;
use crate::store::lemma_kv_map_update;

verus! {

broadcast use vstd::seq::group_seq_axioms, vstd::map::group_map_axioms;

/// A claim record's key: the refunded token and the beneficiary.
#[derive(Clone, Copy)]
pub struct ClaimKey {
    pub mint: Bytes32,
    pub refund_address: Bytes32,
}

impl View for ClaimKey {
    type V = (Seq<u8>, Seq<u8>);

    open spec fn view(&self) -> (Seq<u8>, Seq<u8>) {
        (self.mint@, self.refund_address@)
    }
}

/// One escrow record: the refund amount accumulated so far and the party that
/// initialized the record (entitled to reclaim its backing storage).
#[derive(Clone, Copy)]
pub struct ClaimAccount {
    pub amount: u64,
    pub initializer: Bytes32,
}

/// The escrow ledger for refunds that could not be delivered directly,
/// keyed by (token mint, beneficiary).
pub struct ClaimLedger {
    entries: Vec<(ClaimKey, ClaimAccount)>,
}

impl View for ClaimLedger {
    type V = Map<(Seq<u8>, Seq<u8>), ClaimAccount>;

    closed spec fn view(&self) -> Map<(Seq<u8>, Seq<u8>), ClaimAccount> {
        kv_map(self.entries@)
    }
}

impl ClaimLedger {
    /// No two records share a key.
    pub closed spec fn wf(&self) -> bool {
        kv_distinct(self.entries@)
    }

    /// An empty ledger.
    pub fn new() -> (r: ClaimLedger)
        ensures
            r.wf(),
            r@ == Map::<(Seq<u8>, Seq<u8>), ClaimAccount>::empty(),
    {
        let r = ClaimLedger { entries: Vec::new() };
        proof {
            assert(r.entries@.len() == 0);
        }
        r
    }

    /// Looks a key up in the backing entry list.
    fn find_index(&self, mint: &Bytes32, refund_address: &Bytes32) -> (r: Option<usize>)
        requires
            self.wf(),
        ensures
            match r {
                Some(i) => i < self.entries@.len()
                    && self.entries@[i as int].0@ == (mint@, refund_address@)
                    && self@.contains_key((mint@, refund_address@))
                    && self@[(mint@, refund_address@)] == self.entries@[i as int].1,
                None => !self@.contains_key((mint@, refund_address@))
                    && forall|j: int| 0 <= j < self.entries@.len()
                        ==> self.entries@[j].0@ != (mint@, refund_address@),
            },
    {
        let mut i: usize = 0;
        while i < self.entries.len()
            invariant
                self.wf(),
                0 <= i <= self.entries@.len(),
                forall|j: int| 0 <= j < i ==> self.entries@[j].0@ != (mint@, refund_address@),
            decreases self.entries@.len() - i,
        {
            if bytes32_eq(&self.entries[i].0.mint, mint)
                && bytes32_eq(&self.entries[i].0.refund_address, refund_address) {
                proof {
                    lemma_kv_map_characterization(self.entries@);
                }
                return Some(i);
            }
            i += 1;
        }
        proof {
            lemma_kv_map_characterization(self.entries@);
        }
        None
    }

    /// Whether a record exists under a key.
    pub fn contains_account(&self, mint: &Bytes32, refund_address: &Bytes32) -> (r: bool)
        requires
            self.wf(),
        ensures
            r == self@.contains_key((mint@, refund_address@)),
    {
        match self.find_index(mint, refund_address) {
            Some(_) => true,
            None => false,
        }
    }

    /// The amount currently escrowed under a key; zero where no record exists.
    pub fn amount_of(&self, mint: &Bytes32, refund_address: &Bytes32) -> (r: u64)
        requires
            self.wf(),
        ensures
            r == claim_amount_of(self@, (mint@, refund_address@)),
    {
        match self.find_index(mint, refund_address) {
            Some(i) => self.entries[i].1.amount,
            None => 0,
        }
    }
}

/// The amount a ledger holds under a key: that of its record, or zero where
/// no record exists — a claimed-and-deleted record always reads as zero.
pub open spec fn claim_amount_of(
    m: Map<(Seq<u8>, Seq<u8>), ClaimAccount>,
    k: (Seq<u8>, Seq<u8>),
) -> u64 {
    if m.contains_key(k) {
        m[k].amount
    } else {
        0
    }
}

/// Law: a claim deletes its record atomically, so the key reads zero from
/// that point on — a second claim of the same key must fail with the
/// zero-claim error.
pub proof fn lemma_claimed_record_reads_zero(
    m: Map<(Seq<u8>, Seq<u8>), ClaimAccount>,
    k: (Seq<u8>, Seq<u8>),
)
    ensures
        claim_amount_of(m.remove(k), k) == 0,
{
}


/// Creates an empty claim record, remembering its initializer; fails if a
/// record with the same key already exists.
pub fn initialize_claim_account(
    claims: &mut ClaimLedger,
    mint: Bytes32,
    refund_address: Bytes32,
    signer: Bytes32,
) -> (r: Result<(), SettlementError>)
    requires
        old(claims).wf(),
    ensures
        final(claims).wf(),
        r is Err ==> final(claims)@ == old(claims)@,
        old(claims)@.contains_key((mint@, refund_address@))
            ==> r == Err::<(), SettlementError>(SettlementError::AccountAlreadyInitialized),
        !old(claims)@.contains_key((mint@, refund_address@)) ==> r is Ok
            && final(claims)@ == old(claims)@.insert(
                (mint@, refund_address@),
                ClaimAccount { amount: 0, initializer: signer },
            ),
{
    let key = ClaimKey { mint, refund_address };
    match claims.find_index(&mint, &refund_address) {
        Some(_) => Err(SettlementError::AccountAlreadyInitialized),
        None => {
            proof {
                lemma_kv_map_push(
                    claims.entries@,
                    key,
                    ClaimAccount { amount: 0, initializer: signer },
                );
            }
            claims.entries.push((key, ClaimAccount { amount: 0, initializer: signer }));
            Ok(())
        }
    }
}

/// Credits a refund to an existing claim record; called only from refund-leaf
/// execution, which has already ruled out overflow.
pub(crate) fn credit_relayer_refund(
    claims: &mut ClaimLedger,
    mint: &Bytes32,
    refund_address: &Bytes32,
    amount: u64,
)
    requires
        old(claims).wf(),
        old(claims)@.contains_key((mint@, refund_address@)),
        old(claims)@[(mint@, refund_address@)].amount + amount <= u64::MAX,
    ensures
        final(claims).wf(),
        final(claims)@ == old(claims)@.insert(
            (mint@, refund_address@),
            ClaimAccount {
                amount: (old(claims)@[(mint@, refund_address@)].amount + amount) as u64,
                initializer: old(claims)@[(mint@, refund_address@)].initializer,
            },
        ),
{
    match claims.find_index(mint, refund_address) {
        Some(i) => {
            let key = claims.entries[i].0;
            let account = ClaimAccount {
                amount: claims.entries[i].1.amount + amount,
                initializer: claims.entries[i].1.initializer,
            };
            proof {
                lemma_kv_map_update(claims.entries@, i as int, (key, account));
            }
            claims.entries.set(i, (key, account));
        }
        None => {
            proof {
                assert(false);
            }
        }
    }
}

/// Pays out a relayer's own refund: the record is read, deleted, and the
/// transfer of the full amount delegated — atomically, so a second claim
/// always sees zero. Fails with a zero-claim error when nothing is escrowed.
pub fn claim_relayer_refund(
    claims: &mut ClaimLedger,
    mint: Bytes32,
    signer: Bytes32,
) -> (r: Result<ClaimedRelayerRefund, SettlementError>)
    requires
        old(claims).wf(),
    ensures
        final(claims).wf(),
        r is Err ==> final(claims)@ == old(claims)@,
        claim_amount_of(old(claims)@, (mint@, signer@)) == 0
            ==> r == Err::<ClaimedRelayerRefund, SettlementError>(
                SettlementError::ZeroRefundClaim,
            ),
        claim_amount_of(old(claims)@, (mint@, signer@)) != 0 ==> {
            &&& r is Ok
            &&& final(claims)@ == old(claims)@.remove((mint@, signer@))
            &&& r->Ok_0.claim_amount == old(claims)@[(mint@, signer@)].amount
            &&& r->Ok_0.l2_token_address == mint
            &&& r->Ok_0.refund_address == signer
        },
{
    claim_relayer_refund_for(claims, mint, signer)
}

/// Pays out a refund to its beneficiary, whoever calls: the record is read,
/// deleted, and the transfer delegated — atomically, so a second claim always
/// sees zero. Fails with a zero-claim error when nothing is escrowed.
pub fn claim_relayer_refund_for(
    claims: &mut ClaimLedger,
    mint: Bytes32,
    refund_address: Bytes32,
) -> (r: Result<ClaimedRelayerRefund, SettlementError>)
    requires
        old(claims).wf(),
    ensures
        final(claims).wf(),
        r is Err ==> final(claims)@ == old(claims)@,
        claim_amount_of(old(claims)@, (mint@, refund_address@)) == 0
            ==> r == Err::<ClaimedRelayerRefund, SettlementError>(
                SettlementError::ZeroRefundClaim,
            ),
        claim_amount_of(old(claims)@, (mint@, refund_address@)) != 0 ==> {
            &&& r is Ok
            &&& final(claims)@ == old(claims)@.remove((mint@, refund_address@))
            &&& r->Ok_0.claim_amount == old(claims)@[(mint@, refund_address@)].amount
            &&& r->Ok_0.l2_token_address == mint
            &&& r->Ok_0.refund_address == refund_address
        },
{
    match claims.find_index(&mint, &refund_address) {
        Some(i) => {
            let claim_amount = claims.entries[i].1.amount;
            if claim_amount == 0 {
                return Err(SettlementError::ZeroRefundClaim);
            }
            proof {
                lemma_kv_map_remove(claims.entries@, i as int);
            }
            claims.entries.remove(i);
            Ok(ClaimedRelayerRefund {
                l2_token_address: mint,
                claim_amount,
                refund_address,
            })
        }
        None => Err(SettlementError::ZeroRefundClaim),
    }
}

/// Reclaims an empty claim record's storage: only the recorded initializer
/// may do so, and only while nothing is escrowed, preventing silent fund loss.
pub fn close_claim_account(
    claims: &mut ClaimLedger,
    mint: Bytes32,
    refund_address: Bytes32,
    signer: Bytes32,
) -> (r: Result<(), SettlementError>)
    requires
        old(claims).wf(),
    ensures
        final(claims).wf(),
        r is Err ==> final(claims)@ == old(claims)@,
        !old(claims)@.contains_key((mint@, refund_address@))
            ==> r == Err::<(), SettlementError>(SettlementError::AccountNotInitialized),
        old(claims)@.contains_key((mint@, refund_address@))
            && old(claims)@[(mint@, refund_address@)].initializer@ != signer@
            ==> r == Err::<(), SettlementError>(SettlementError::InvalidClaimInitializer),
        old(claims)@.contains_key((mint@, refund_address@))
            && old(claims)@[(mint@, refund_address@)].initializer@ == signer@
            && old(claims)@[(mint@, refund_address@)].amount > 0
            ==> r == Err::<(), SettlementError>(SettlementError::NonZeroRefundClaim),
        old(claims)@.contains_key((mint@, refund_address@))
            && old(claims)@[(mint@, refund_address@)].initializer@ == signer@
            && old(claims)@[(mint@, refund_address@)].amount == 0
            ==> r is Ok && final(claims)@ == old(claims)@.remove((mint@, refund_address@)),
{
    match claims.find_index(&mint, &refund_address) {
        Some(i) => {
            if !bytes32_eq(&claims.entries[i].1.initializer, &signer) {
                return Err(SettlementError::InvalidClaimInitializer);
            }
            if claims.entries[i].1.amount > 0 {
                return Err(SettlementError::NonZeroRefundClaim);
            }
            proof {
                lemma_kv_map_remove(claims.entries@, i as int);
            }
            claims.entries.remove(i);
            Ok(())
        }
        None => Err(SettlementError::AccountNotInitialized),
    }
}

} // verus!
