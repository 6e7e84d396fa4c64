//! The table of received receipts: identifier assignment, range queries,
//! updates by identifier and purges by time window.
use crate::address::Address;
use crate::range::TimestampRange;
use crate::receipt::{same_signature, ReceivedReceipt};
use vstd::prelude::*;

verus! {

/// A stored row: the receipt's store-local identifier and the receipt.
pub type StoredReceipt = (u64, ReceivedReceipt);

/// The rows of `rows` whose timestamp lies inside `range` (`inside`) or
/// outside it (`!inside`), in their order.
pub open spec fn filter_by_range(
    rows: Seq<StoredReceipt>,
    range: TimestampRange,
    inside: bool,
) -> Seq<StoredReceipt>
    decreases rows.len(),
{
    if rows.len() == 0 {
        Seq::<StoredReceipt>::empty()
    } else {
        let rest = filter_by_range(rows.drop_last(), range, inside);
        if range.includes(rows.last().1.timestamp()) == inside {
            rest.push(rows.last())
        } else {
            rest
        }
    }
}

/// Identifiers strictly increase along the rows and stay below `bound`.
pub open spec fn ids_ordered_below(rows: Seq<StoredReceipt>, bound: u64) -> bool {
    &&& forall|i: int, j: int| 0 <= i < j < rows.len() ==> rows[i].0 < rows[j].0
    &&& forall|i: int| 0 <= i < rows.len() ==> rows[i].0 < bound
}

/// A row is selected iff it is a row and its timestamp falls on the asked side.
pub proof fn lemma_filter_membership(rows: Seq<StoredReceipt>, range: TimestampRange, inside: bool)
    ensures
        forall|x: StoredReceipt|
            #[trigger] filter_by_range(rows, range, inside).contains(x) <==> (rows.contains(x)
                && range.includes(x.1.timestamp()) == inside),
    decreases rows.len(),
{
    if rows.len() > 0 {
        let init = rows.drop_last();
        let last = rows.last();
        lemma_filter_membership(init, range, inside);
        let rest = filter_by_range(init, range, inside);
        assert forall|x: StoredReceipt|
            #[trigger] filter_by_range(rows, range, inside).contains(x) <==> (rows.contains(x)
                && range.includes(x.1.timestamp()) == inside) by {
            assert(rest.contains(x) <==> (init.contains(x) && range.includes(x.1.timestamp())
                == inside));
            if rows.contains(x) {
                let k = choose|k: int| 0 <= k < rows.len() && rows[k] == x;
                if k < rows.len() - 1 {
                    assert(init[k] == x);
                }
            }
            if init.contains(x) {
                let k = choose|k: int| 0 <= k < init.len() && init[k] == x;
                assert(rows[k] == x);
            }
            assert(rows[rows.len() - 1] == last);
            if range.includes(last.1.timestamp()) == inside {
                let p = rest.push(last);
                assert(filter_by_range(rows, range, inside) == p);
                if p.contains(x) {
                    let k = choose|k: int| 0 <= k < p.len() && p[k] == x;
                    if k < rest.len() {
                        assert(rest[k] == x);
                    }
                }
                if rest.contains(x) {
                    let k = choose|k: int| 0 <= k < rest.len() && rest[k] == x;
                    assert(p[k] == x);
                }
                assert(p[rest.len() as int] == last);
            } else {
                assert(filter_by_range(rows, range, inside) == rest);
            }
        }
    }
}

/// Selecting rows keeps identifiers ordered and below the same bound.
pub proof fn lemma_filter_keeps_order(
    rows: Seq<StoredReceipt>,
    bound: u64,
    range: TimestampRange,
    inside: bool,
)
    requires
        ids_ordered_below(rows, bound),
    ensures
        ids_ordered_below(filter_by_range(rows, range, inside), bound),
    decreases rows.len(),
{
    if rows.len() > 0 {
        let init = rows.drop_last();
        let last = rows.last();
        assert(ids_ordered_below(init, bound));
        lemma_filter_keeps_order(init, bound, range, inside);
        lemma_filter_membership(init, range, inside);
        let rest = filter_by_range(init, range, inside);
        if range.includes(last.1.timestamp()) == inside {
            let p = rest.push(last);
            assert forall|i: int| 0 <= i < rest.len() implies #[trigger] rest[i].0 < last.0 by {
                assert(rest.contains(rest[i]));
                let k = choose|k: int| 0 <= k < init.len() && init[k] == rest[i];
                assert(rows[k] == rest[i]);
                assert(rows[rows.len() - 1] == last);
            }
            assert forall|i: int, j: int| 0 <= i < j < p.len() implies p[i].0 < p[j].0 by {
                assert(p[i] == rest[i]);
                if j < rest.len() {
                    assert(p[j] == rest[j]);
                }
            }
            assert(rows[rows.len() - 1] == last);
            assert forall|i: int| 0 <= i < p.len() implies p[i].0 < bound by {
                if i < rest.len() {
                    assert(p[i] == rest[i]);
                }
            }
        }
    }
}

/// Why a storage operation could not be carried out.
#[derive(Clone, Copy, Debug, PartialEq, Eq, Structural)]
pub enum AdapterError {
    /// No stored receipt has this identifier.
    NotFound { receipt_id: u64 },
    /// Every identifier has been handed out.
    IdsExhausted,
}

/// The receipts received for one allocation, each under an identifier that
/// is never reused.
pub struct ReceiptStorageAdapter {
    allocation_id: Address,
    rows: Vec<StoredReceipt>,
    next_id: u64,
}

impl ReceiptStorageAdapter {
    pub closed spec fn spec_allocation_id(&self) -> Address {
        self.allocation_id
    }

    /// The stored rows, in increasing order of identifier.
    pub closed spec fn spec_rows(&self) -> Seq<StoredReceipt> {
        self.rows@
    }

    /// The identifier that the next stored receipt will get.
    pub closed spec fn spec_next_id(&self) -> u64 {
        self.next_id
    }

    pub open spec fn wf(&self) -> bool {
        &&& 0 < self.spec_next_id()
        &&& ids_ordered_below(self.spec_rows(), self.spec_next_id())
    }

    /// Whether some row has identifier `id`.
    pub open spec fn has_id(&self, id: u64) -> bool {
        exists|i: int| 0 <= i < self.spec_rows().len() && self.spec_rows()[i].0 == id
    }

    /// No row other than the one under `receipt_id` carries `signature`.
    pub open spec fn signature_unique(&self, signature: Seq<u8>, receipt_id: u64) -> bool {
        !exists|i: int|
            0 <= i < self.spec_rows().len() && self.spec_rows()[i].0 != receipt_id
                && #[trigger] self.spec_rows()[i].1.signature() == signature
    }

    pub fn new(allocation_id: Address) -> (r: ReceiptStorageAdapter)
        ensures
            r.wf(),
            r.spec_allocation_id() == allocation_id,
            r.spec_rows() == Seq::<StoredReceipt>::empty(),
            r.spec_next_id() == 1,
    {
        ReceiptStorageAdapter { allocation_id, rows: Vec::new(), next_id: 1 }
    }

    pub fn allocation_id(&self) -> (r: Address)
        ensures
            r == self.spec_allocation_id(),
    {
        self.allocation_id
    }

    pub fn len(&self) -> (r: usize)
        ensures
            r == self.spec_rows().len(),
    {
        self.rows.len()
    }

    /// Whether no row other than the one under `receipt_id` carries `signature`.
    pub fn is_signature_unique(&self, signature: &[u8; 65], receipt_id: u64) -> (r: bool)
        ensures
            r == self.signature_unique(signature@, receipt_id),
    {
        let mut i: usize = 0;
        while i < self.rows.len()
            invariant
                i <= self.rows@.len(),
                forall|j: int|
                    0 <= j < i ==> !(self.rows@[j].0 != receipt_id
                        && #[trigger] self.rows@[j].1.signature() == signature@),
            decreases self.rows@.len() - i,
        {
            let row = &self.rows[i];
            if row.0 != receipt_id && same_signature(&row.1.signed_receipt.signature, signature) {
                assert(self.spec_rows()[i as int].1.signature() == signature@);
                assert(self.spec_rows()[i as int].0 != receipt_id);
                return false;
            }
            i = i + 1;
        }
        true
    }

    /// Stores `receipt` under the next identifier and returns that identifier.
    pub fn store_receipt(&mut self, receipt: ReceivedReceipt) -> (r: Result<u64, AdapterError>)
        requires
            old(self).wf(),
        ensures
            final(self).wf(),
            final(self).spec_allocation_id() == old(self).spec_allocation_id(),
            r is Err <==> old(self).spec_next_id() == u64::MAX,
            r is Err ==> r == Err::<u64, AdapterError>(AdapterError::IdsExhausted) && *final(self)
                == *old(self),
            r is Ok ==> {
                &&& r->Ok_0 == old(self).spec_next_id()
                &&& !old(self).has_id(r->Ok_0)
                &&& final(self).spec_rows() == old(self).spec_rows().push((r->Ok_0, receipt))
                &&& final(self).spec_next_id() == old(self).spec_next_id() + 1
            },
    {
        if self.next_id == u64::MAX {
            return Err(AdapterError::IdsExhausted);
        }
        let id = self.next_id;
        self.rows.push((id, receipt));
        self.next_id = id + 1;
        proof {
            let rows = self.rows@;
            assert forall|i: int, j: int| 0 <= i < j < rows.len() implies rows[i].0 < rows[j].0 by {
                if j == rows.len() - 1 {
                    assert(old(self).rows@[i].0 < id);
                }
            }
        }
        Ok(id)
    }

    /// The rows whose timestamp lies in `range`, in increasing order of identifier.
    pub fn retrieve_receipts_in_timestamp_range(&self, range: TimestampRange) -> (r: Vec<
        StoredReceipt,
    >)
        requires
            self.wf(),
        ensures
            r@ == filter_by_range(self.spec_rows(), range, true),
            forall|x: StoredReceipt|
                #[trigger] r@.contains(x) <==> (self.spec_rows().contains(x) && range.includes(
                    x.1.timestamp(),
                )),
            ids_ordered_below(r@, self.spec_next_id()),
    {
        proof {
            lemma_filter_membership(self.rows@, range, true);
            lemma_filter_keeps_order(self.rows@, self.next_id, range, true);
        }
        self.select(range, true)
    }

    fn select(&self, range: TimestampRange, inside: bool) -> (r: Vec<StoredReceipt>)
        ensures
            r@ == filter_by_range(self.rows@, range, inside),
    {
        let mut out: Vec<StoredReceipt> = Vec::new();
        let mut i: usize = 0;
        while i < self.rows.len()
            invariant
                i <= self.rows@.len(),
                out@ == filter_by_range(self.rows@.subrange(0, i as int), range, inside),
            decreases self.rows@.len() - i,
        {
            let row = self.rows[i];
            proof {
                assert(self.rows@.subrange(0, i + 1).drop_last() =~= self.rows@.subrange(0, i as int));
            }
            if range.contains(row.1.signed_receipt.message.timestamp_ns) == inside {
                out.push(row);
            }
            i = i + 1;
        }
        assert(self.rows@.subrange(0, self.rows@.len() as int) =~= self.rows@);
        out
    }

    /// Replaces the receipt stored under `receipt_id`.
    pub fn update_receipt_by_id(&mut self, receipt_id: u64, receipt: ReceivedReceipt) -> (r: Result<
        (),
        AdapterError,
    >)
        requires
            old(self).wf(),
        ensures
            final(self).wf(),
            r is Err <==> !old(self).has_id(receipt_id),
            r is Err ==> r == Err::<(), AdapterError>(AdapterError::NotFound { receipt_id })
                && *final(self) == *old(self),
            final(self).spec_allocation_id() == old(self).spec_allocation_id(),
            final(self).spec_next_id() == old(self).spec_next_id(),
            final(self).spec_rows().len() == old(self).spec_rows().len(),
            forall|i: int|
                0 <= i < old(self).spec_rows().len() ==> #[trigger] final(self).spec_rows()[i] == if old(
                    self,
                ).spec_rows()[i].0 == receipt_id {
                    (receipt_id, receipt)
                } else {
                    old(self).spec_rows()[i]
                },
    {
        let mut i: usize = 0;
        while i < self.rows.len()
            invariant
                *self == *old(self),
                self.wf(),
                i <= self.rows@.len(),
                forall|j: int| 0 <= j < i ==> self.rows@[j].0 != receipt_id,
            decreases self.rows@.len() - i,
        {
            if self.rows[i].0 == receipt_id {
                let ghost before = self.rows@;
                self.rows.set(i, (receipt_id, receipt));
                proof {
                    assert forall|j: int| 0 <= j < before.len() && j != i implies before[j].0
                        != receipt_id by {
                        if j > i {
                            assert(before[i as int].0 < before[j].0);
                        }
                    }
                    assert(self.rows@ == before.update(i as int, (receipt_id, receipt)));
                }
                return Ok(());
            }
            i = i + 1;
        }
        Err(AdapterError::NotFound { receipt_id })
    }

    /// Deletes every row whose timestamp lies in `range`.
    pub fn remove_receipts_in_timestamp_range(&mut self, range: TimestampRange)
        requires
            old(self).wf(),
        ensures
            final(self).wf(),
            final(self).spec_allocation_id() == old(self).spec_allocation_id(),
            final(self).spec_next_id() == old(self).spec_next_id(),
            final(self).spec_rows() == filter_by_range(old(self).spec_rows(), range, false),
            forall|x: StoredReceipt|
                #[trigger] final(self).spec_rows().contains(x) <==> (old(self).spec_rows().contains(x)
                    && !range.includes(x.1.timestamp())),
    {
        proof {
            lemma_filter_membership(self.rows@, range, false);
        }
        let kept = self.select(range, false);
        proof {
            lemma_filter_keeps_order(self.rows@, self.next_id, range, false);
        }
        self.rows = kept;
    }
}

} // verus!
