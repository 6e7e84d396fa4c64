//! Admissibility of incoming receipts: signature uniqueness, allocation and
//! gateway whitelists, and agreement with the query's appraised value.
use crate::address::Address;
use crate::receipt::{ReceivedReceipt, SignedReceipt};
use crate::receipt_storage::ReceiptStorageAdapter;
use std::collections::HashMap;
use vstd::prelude::*;

verus! {

broadcast use vstd::std_specs::hash::group_hash_axioms;

/// Some address of `ids` is `a`.
pub open spec fn listed(ids: Seq<Address>, a: Seq<u8>) -> bool {
    exists|i: int| 0 <= i < ids.len() && #[trigger] ids[i]@ == a
}

/// The set of addresses that `ids` holds.
pub open spec fn address_set(ids: Seq<Address>) -> Set<Seq<u8>> {
    Set::new(|a: Seq<u8>| listed(ids, a))
}

/// Whether `a` is one of `ids`.
pub fn is_listed(ids: &Vec<Address>, a: &Address) -> (r: bool)
    ensures
        r == listed(ids@, a@),
{
    let mut i: usize = 0;
    while i < ids.len()
        invariant
            i <= ids@.len(),
            forall|j: int| 0 <= j < i ==> #[trigger] ids@[j]@ != a@,
        decreases ids@.len() - i,
    {
        if ids[i].same_as(a) {
            return true;
        }
        i = i + 1;
    }
    false
}

/// Why a receipt is not admissible.
#[derive(Clone, Copy, Debug, PartialEq, Eq, Structural)]
pub enum ValidationFailure {
    /// Another stored receipt carries the same signature.
    DuplicateSignature,
    /// The allocation is not on the allocation whitelist.
    UnknownAllocation,
    /// The signer is not on the gateway whitelist.
    UnknownGateway,
    /// The receipt's value differs from the query's appraisal.
    ValueMismatch,
    /// No appraisal was recorded for the query.
    MissingAppraisal,
}

/// An appraisal was already recorded for this query; appraisals are written once.
#[derive(Clone, Copy, Debug, PartialEq, Eq, Structural)]
pub struct AppraisalExists {
    pub query_id: u64,
    pub recorded: u128,
}

/// The shared state that receipts are checked against.
pub struct ReceiptChecksAdapter {
    query_appraisals: HashMap<u64, u128>,
    allocation_ids: Vec<Address>,
    gateway_ids: Vec<Address>,
}

impl ReceiptChecksAdapter {
    /// The appraised value of each query.
    pub closed spec fn appraisals(&self) -> Map<u64, u128> {
        self.query_appraisals@
    }

    pub closed spec fn allocation_list(&self) -> Seq<Address> {
        self.allocation_ids@
    }

    pub closed spec fn gateway_list(&self) -> Seq<Address> {
        self.gateway_ids@
    }

    pub open spec fn allocations(&self) -> Set<Seq<u8>> {
        address_set(self.allocation_list())
    }

    pub open spec fn gateways(&self) -> Set<Seq<u8>> {
        address_set(self.gateway_list())
    }

    /// What checking `value` against the appraisal of `query_id` gives.
    pub open spec fn value_check(&self, value: u128, query_id: u64) -> Result<bool, ValidationFailure> {
        if self.appraisals().contains_key(query_id) {
            Ok(value == self.appraisals()[query_id])
        } else {
            Err(ValidationFailure::MissingAppraisal)
        }
    }

    pub fn new(
        query_appraisals: HashMap<u64, u128>,
        allocation_ids: Vec<Address>,
        gateway_ids: Vec<Address>,
    ) -> (r: ReceiptChecksAdapter)
        ensures
            r.appraisals() == query_appraisals@,
            r.allocation_list() == allocation_ids@,
            r.gateway_list() == gateway_ids@,
    {
        ReceiptChecksAdapter { query_appraisals, allocation_ids, gateway_ids }
    }

    /// Records the appraised value of `query_id`, unless one is recorded already.
    pub fn record_appraisal(&mut self, query_id: u64, value: u128) -> (r: Result<(), AppraisalExists>)
        ensures
            final(self).allocation_list() == old(self).allocation_list(),
            final(self).gateway_list() == old(self).gateway_list(),
            r is Ok <==> !old(self).appraisals().contains_key(query_id),
            r is Ok ==> final(self).appraisals() == old(self).appraisals().insert(query_id, value),
            r is Err ==> r == Err::<(), AppraisalExists>(
                AppraisalExists { query_id, recorded: old(self).appraisals()[query_id] },
            ) && final(self).appraisals() == old(self).appraisals(),
    {
        match self.query_appraisals.get(&query_id) {
            Some(recorded) => Err(AppraisalExists { query_id, recorded: *recorded }),
            None => {
                self.query_appraisals.insert(query_id, value);
                Ok(())
            },
        }
    }

    /// The appraised value of `query_id`, if one was recorded.
    pub fn get_appraisal(&self, query_id: u64) -> (r: Option<u128>)
        ensures
            r == self.appraisals().get(query_id),
    {
        match self.query_appraisals.get(&query_id) {
            Some(v) => Some(*v),
            None => None,
        }
    }

    /// Replaces the allocation whitelist with a fresh one.
    pub fn set_allocation_ids(&mut self, allocation_ids: Vec<Address>)
        ensures
            final(self).allocation_list() == allocation_ids@,
            final(self).gateway_list() == old(self).gateway_list(),
            final(self).appraisals() == old(self).appraisals(),
    {
        self.allocation_ids = allocation_ids;
    }

    /// Replaces the gateway whitelist with a fresh one.
    pub fn set_gateway_ids(&mut self, gateway_ids: Vec<Address>)
        ensures
            final(self).gateway_list() == gateway_ids@,
            final(self).allocation_list() == old(self).allocation_list(),
            final(self).appraisals() == old(self).appraisals(),
    {
        self.gateway_ids = gateway_ids;
    }

    /// No stored receipt but the one under `receipt_id` carries this receipt's signature.
    pub fn is_unique(
        &self,
        storage: &ReceiptStorageAdapter,
        receipt: &SignedReceipt,
        receipt_id: u64,
    ) -> (r: bool)
        ensures
            r == storage.signature_unique(receipt.signature@, receipt_id),
    {
        storage.is_signature_unique(&receipt.signature, receipt_id)
    }

    pub fn is_valid_allocation_id(&self, allocation_id: &Address) -> (r: bool)
        ensures
            r == self.allocations().contains(allocation_id@),
    {
        is_listed(&self.allocation_ids, allocation_id)
    }

    pub fn is_valid_gateway_id(&self, gateway_id: &Address) -> (r: bool)
        ensures
            r == self.gateways().contains(gateway_id@),
    {
        is_listed(&self.gateway_ids, gateway_id)
    }

    /// Whether `value` is the appraisal of `query_id`; a missing appraisal is
    /// an error, not a mismatch.
    pub fn is_valid_value(&self, value: u128, query_id: u64) -> (r: Result<bool, ValidationFailure>)
        ensures
            r == self.value_check(value, query_id),
    {
        match self.query_appraisals.get(&query_id) {
            Some(appraised) => Ok(value == *appraised),
            None => Err(ValidationFailure::MissingAppraisal),
        }
    }

    /// The outcome of all four checks on a stored receipt, the first failure
    /// in the order uniqueness, allocation, gateway, value.
    pub open spec fn admissibility(
        &self,
        storage: &ReceiptStorageAdapter,
        receipt: ReceivedReceipt,
        receipt_id: u64,
        gateway_id: Address,
    ) -> Result<(), ValidationFailure> {
        let message = receipt.signed_receipt.message;
        if !storage.signature_unique(receipt.signature(), receipt_id) {
            Err(ValidationFailure::DuplicateSignature)
        } else if !self.allocations().contains(message.allocation_id@) {
            Err(ValidationFailure::UnknownAllocation)
        } else if !self.gateways().contains(gateway_id@) {
            Err(ValidationFailure::UnknownGateway)
        } else {
            match self.value_check(message.value, receipt.query_id) {
                Ok(true) => Ok(()),
                Ok(false) => Err(ValidationFailure::ValueMismatch),
                Err(e) => Err(e),
            }
        }
    }

    /// Runs the four checks on the receipt stored under `receipt_id`, whose
    /// recovered signer is `gateway_id`.
    pub fn check_receipt(
        &self,
        storage: &ReceiptStorageAdapter,
        receipt: &ReceivedReceipt,
        receipt_id: u64,
        gateway_id: &Address,
    ) -> (r: Result<(), ValidationFailure>)
        ensures
            r == self.admissibility(storage, *receipt, receipt_id, *gateway_id),
    {
        let message = receipt.signed_receipt.message;
        if !self.is_unique(storage, &receipt.signed_receipt, receipt_id) {
            return Err(ValidationFailure::DuplicateSignature);
        }
        if !self.is_valid_allocation_id(&message.allocation_id) {
            return Err(ValidationFailure::UnknownAllocation);
        }
        if !self.is_valid_gateway_id(gateway_id) {
            return Err(ValidationFailure::UnknownGateway);
        }
        match self.is_valid_value(message.value, receipt.query_id) {
            Ok(true) => Ok(()),
            Ok(false) => Err(ValidationFailure::ValueMismatch),
            Err(e) => Err(e),
        }
    }
}

/// Two distinct stored receipts that share a signature are each judged not unique.
pub proof fn lemma_shared_signature_not_unique(storage: &ReceiptStorageAdapter, i: int, j: int)
    requires
        storage.wf(),
        0 <= i < storage.spec_rows().len(),
        0 <= j < storage.spec_rows().len(),
        i != j,
        storage.spec_rows()[i].1.signature() == storage.spec_rows()[j].1.signature(),
    ensures
        !storage.signature_unique(storage.spec_rows()[i].1.signature(), storage.spec_rows()[i].0),
        !storage.signature_unique(storage.spec_rows()[j].1.signature(), storage.spec_rows()[j].0),
{
    let rows = storage.spec_rows();
    assert(rows[i].0 != rows[j].0);
    assert(rows[j].0 != rows[i].0 && rows[j].1.signature() == rows[i].1.signature());
    assert(rows[i].0 != rows[j].0 && rows[i].1.signature() == rows[j].1.signature());
}

/// A stored receipt whose signature no other row carries is judged unique
/// against its own identifier.
pub proof fn lemma_lone_signature_unique(storage: &ReceiptStorageAdapter, i: int)
    requires
        storage.wf(),
        0 <= i < storage.spec_rows().len(),
        forall|k: int|
            0 <= k < storage.spec_rows().len() && k != i ==> storage.spec_rows()[k].1.signature()
                != storage.spec_rows()[i].1.signature(),
    ensures
        storage.signature_unique(storage.spec_rows()[i].1.signature(), storage.spec_rows()[i].0),
{
}

} // verus!
