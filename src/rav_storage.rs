//! The latest receipt aggregate voucher of each allocation: the shared table
//! that holds one row per allocation, and the per-allocation cache over it.
use crate::address::Address;
use crate::address_map::AddressMap;
use crate::receipt::SignedRav;
use vstd::prelude::*;

verus! {

/// What a sequence of upserts of `ravs` under `key` makes of the table `table`.
pub open spec fn upsert_all(table: Map<Seq<u8>, SignedRav>, key: Seq<u8>, ravs: Seq<SignedRav>) -> Map<
    Seq<u8>,
    SignedRav,
>
    decreases ravs.len(),
{
    if ravs.len() == 0 {
        table
    } else {
        upsert_all(table, key, ravs.drop_last()).insert(key, ravs.last())
    }
}

/// After any nonempty run of upserts for one allocation, the table holds for
/// that allocation the last voucher upserted, and nothing else has changed.
pub proof fn lemma_last_upsert_wins(
    table: Map<Seq<u8>, SignedRav>,
    key: Seq<u8>,
    ravs: Seq<SignedRav>,
)
    requires
        ravs.len() > 0,
    ensures
        upsert_all(table, key, ravs).contains_key(key),
        upsert_all(table, key, ravs)[key] == ravs.last(),
        upsert_all(table, key, ravs) == table.insert(key, ravs.last()),
    decreases ravs.len(),
{
    if ravs.len() > 1 {
        lemma_last_upsert_wins(table, key, ravs.drop_last());
        assert(upsert_all(table, key, ravs) =~= table.insert(key, ravs.last()));
    } else {
        assert(upsert_all(table, key, ravs.drop_last()) == table);
    }
}

/// The shared, durable table of latest vouchers: exactly one row per allocation.
pub type RavTable = AddressMap<SignedRav>;

/// What the cache holds after a re-read of the table brought `fetched`: the
/// fetched voucher when there is one, the cached one otherwise.
pub open spec fn refreshed(cached: Option<SignedRav>, fetched: Option<SignedRav>) -> Option<
    SignedRav,
> {
    match fetched {
        Some(rav) => Some(rav),
        None => cached,
    }
}

/// Once a voucher has been upserted for an allocation, any cache of that
/// allocation that re-reads the table on notification holds that voucher,
/// whatever it held before.
pub proof fn lemma_cache_converges(
    table: Map<Seq<u8>, SignedRav>,
    allocation_id: Seq<u8>,
    rav: SignedRav,
    cached: Option<SignedRav>,
)
    ensures
        refreshed(cached, table.insert(allocation_id, rav).get(allocation_id)) == Some(rav),
{
}

/// The latest voucher of one allocation, cached in memory so that reads never
/// wait on the table.
pub struct RAVStorageAdapter {
    allocation_id: Address,
    local_rav: Option<SignedRav>,
}

impl RAVStorageAdapter {
    pub closed spec fn spec_allocation_id(&self) -> Address {
        self.allocation_id
    }

    /// The cached voucher: `None` while none is known.
    pub closed spec fn cached(&self) -> Option<SignedRav> {
        self.local_rav
    }

    /// A cache for `allocation_id`, filled from the table's row if it has one.
    pub fn new(allocation_id: Address, table: &RavTable) -> (r: RAVStorageAdapter)
        requires
            table.wf(),
        ensures
            r.spec_allocation_id() == allocation_id,
            r.cached() == table.view().get(allocation_id@),
    {
        let local_rav = table.get(&allocation_id);
        RAVStorageAdapter { allocation_id, local_rav }
    }

    /// A cache for `allocation_id` that starts from `fetched`, as read from the table.
    pub fn with_fetched(allocation_id: Address, fetched: Option<SignedRav>) -> (r: RAVStorageAdapter)
        ensures
            r.spec_allocation_id() == allocation_id,
            r.cached() == fetched,
    {
        RAVStorageAdapter { allocation_id, local_rav: fetched }
    }

    pub fn allocation_id(&self) -> (r: Address)
        ensures
            r == self.spec_allocation_id(),
    {
        self.allocation_id
    }

    /// The cached voucher.
    pub fn last_rav(&self) -> (r: Option<SignedRav>)
        ensures
            r == self.cached(),
    {
        self.local_rav
    }

    /// Writes `rav` as this allocation's row of the table and caches it.
    pub fn update_last_rav(&mut self, table: &mut RavTable, rav: SignedRav)
        requires
            old(table).wf(),
        ensures
            final(table).wf(),
            final(table).view() == old(table).view().insert(old(self).spec_allocation_id()@, rav),
            final(self).spec_allocation_id() == old(self).spec_allocation_id(),
            final(self).cached() == Some(rav),
    {
        table.upsert(&self.allocation_id, rav);
        self.local_rav = Some(rav);
    }

    /// Takes in what a re-read of this allocation's row brought.
    pub fn apply_fetched(&mut self, fetched: Option<SignedRav>)
        ensures
            final(self).spec_allocation_id() == old(self).spec_allocation_id(),
            final(self).cached() == refreshed(old(self).cached(), fetched),
    {
        if let Some(rav) = fetched {
            self.local_rav = Some(rav);
        }
    }

    /// Re-reads this allocation's row of the table, as on a change notification.
    pub fn retrieve_last_rav(&mut self, table: &RavTable)
        requires
            table.wf(),
        ensures
            final(self).spec_allocation_id() == old(self).spec_allocation_id(),
            final(self).cached() == refreshed(
                old(self).cached(),
                table.view().get(old(self).spec_allocation_id()@),
            ),
    {
        let fetched = table.get(&self.allocation_id);
        self.apply_fetched(fetched);
    }
}

} // verus!
