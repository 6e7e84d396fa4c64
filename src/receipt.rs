//! Receipts, aggregate vouchers and the signed envelope that carries them.
use crate::address::Address;
use vstd::prelude::*;

verus! {

/// Length of a recoverable ECDSA signature: `r`, `s` and the recovery byte.
pub const SIGNATURE_LEN: usize = 65;

/// A per-query payment voucher.
#[derive(Clone, Copy, Debug)]
pub struct Receipt {
    pub allocation_id: Address,
    pub nonce: u64,
    pub timestamp_ns: u64,
    pub value: u128,
}

/// A payload with the signature that its sender made over it.
#[derive(Clone, Copy, Debug)]
pub struct SignedMessage<T> {
    pub message: T,
    pub signature: [u8; 65],
}

pub type SignedReceipt = SignedMessage<Receipt>;

/// The admissibility checks a receipt can pass.
#[derive(Clone, Copy, Debug, PartialEq, Eq, Structural)]
pub enum CheckKind {
    Unique,
    AllocationId,
    GatewayId,
    Value,
}

/// The set of checks that a receipt has passed so far.
#[derive(Clone, Copy, Debug, PartialEq, Eq, Structural)]
pub struct ChecksPassed {
    pub unique: bool,
    pub allocation_id: bool,
    pub gateway_id: bool,
    pub value: bool,
}

impl ChecksPassed {
    pub open spec fn has(self, kind: CheckKind) -> bool {
        match kind {
            CheckKind::Unique => self.unique,
            CheckKind::AllocationId => self.allocation_id,
            CheckKind::GatewayId => self.gateway_id,
            CheckKind::Value => self.value,
        }
    }

    pub open spec fn to_set(self) -> Set<CheckKind> {
        Set::new(|k: CheckKind| self.has(k))
    }

    pub fn none() -> (r: ChecksPassed)
        ensures
            r.to_set() == Set::<CheckKind>::empty(),
    {
        let r = ChecksPassed { unique: false, allocation_id: false, gateway_id: false, value: false };
        assert(r.to_set() =~= Set::<CheckKind>::empty());
        r
    }

    pub fn contains(&self, kind: CheckKind) -> (r: bool)
        ensures
            r == self.has(kind),
    {
        match kind {
            CheckKind::Unique => self.unique,
            CheckKind::AllocationId => self.allocation_id,
            CheckKind::GatewayId => self.gateway_id,
            CheckKind::Value => self.value,
        }
    }

    /// Adds `kind` to the set.
    pub fn insert(&mut self, kind: CheckKind)
        ensures
            final(self).to_set() == old(self).to_set().insert(kind),
    {
        match kind {
            CheckKind::Unique => self.unique = true,
            CheckKind::AllocationId => self.allocation_id = true,
            CheckKind::GatewayId => self.gateway_id = true,
            CheckKind::Value => self.value = true,
        }
        assert(self.to_set() =~= old(self).to_set().insert(kind));
    }
}

/// A signed receipt as the indexer holds it: the query it paid for and the
/// checks it has passed.
#[derive(Clone, Copy, Debug)]
pub struct ReceivedReceipt {
    pub signed_receipt: SignedReceipt,
    pub query_id: u64,
    pub checks_passed: ChecksPassed,
}

impl ReceivedReceipt {
    pub fn new(signed_receipt: SignedReceipt, query_id: u64) -> (r: ReceivedReceipt)
        ensures
            r.signed_receipt == signed_receipt,
            r.query_id == query_id,
            r.checks_passed.to_set() == Set::<CheckKind>::empty(),
    {
        ReceivedReceipt { signed_receipt, query_id, checks_passed: ChecksPassed::none() }
    }

    pub fn signed_receipt(&self) -> (r: SignedReceipt)
        ensures
            r == self.signed_receipt,
    {
        self.signed_receipt
    }

    pub open spec fn timestamp(self) -> u64 {
        self.signed_receipt.message.timestamp_ns
    }

    pub open spec fn signature(self) -> Seq<u8> {
        self.signed_receipt.signature@
    }
}

/// Attests that, as of `timestamp_ns`, `value_aggregate` is owed for the allocation.
#[derive(Clone, Copy, Debug)]
pub struct ReceiptAggregateVoucher {
    pub allocation_id: Address,
    pub timestamp_ns: u64,
    pub value_aggregate: u128,
}

pub type SignedRav = SignedMessage<ReceiptAggregateVoucher>;

/// Byte-wise comparison of two signatures.
pub fn same_signature(a: &[u8; 65], b: &[u8; 65]) -> (r: bool)
    ensures
        r == (a@ == b@),
{
    let mut i: usize = 0;
    while i < SIGNATURE_LEN
        invariant
            0 <= i <= SIGNATURE_LEN,
            forall|j: int| 0 <= j < i ==> a@[j] == b@[j],
        decreases SIGNATURE_LEN - i,
    {
        if a[i] != b[i] {
            assert(a@[i as int] != b@[i as int]);
            return false;
        }
        i = i + 1;
    }
    assert(a@ =~= b@);
    true
}

} // verus!
