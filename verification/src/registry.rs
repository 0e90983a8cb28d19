//! The registry: a durable counter and a durable record store composed into
//! the three-operation service.

use vstd::prelude::*;
use ic_stable_structures::btreemap::BTreeMap;
use ic_stable_structures::cell::Cell;
use ic_stable_structures::memory_manager::{MemoryId, MemoryManager};
use ic_stable_structures::DefaultMemoryImpl;
use crate::model::{
    delete_not_found_msg, get_not_found_msg, make_delete_not_found_msg, make_get_not_found_msg,
    metadata_required_msg, owner_required_msg, payload_valid, validate_payload, Error, ErrorView,
    NFTCertificate, NFTPayload, PayloadView, RecordView,
};
use crate::text::is_blank;
use crate::stable::{cell_value, str_table, u64_table, CounterCell, StrTable, U64Table};

verus! {

/// The durable registry: one counter cell and the maps that hold each
/// record's fields, keyed by id.
pub struct Registry {
    counter: CounterCell,
    owners: StrTable,
    metadata: StrTable,
    created: U64Table,
}

/// The mathematical content of a registry: the next id the counter will
/// mint, and the records currently stored.
pub ghost struct RegistryView {
    pub next_id: u64,
    pub records: Map<u64, RecordView>,
}

/// The record store of a registry that holds nothing.
pub open spec fn empty_records() -> Map<u64, RecordView> {
    Map::empty()
}

/// A successful create: the record carries the caller's fields, the id the
/// counter held and the instant handed in; the counter advances by one and
/// the record is stored under its id.
pub open spec fn create_ok(
    pre: RegistryView,
    p: PayloadView,
    now: u64,
    rec: RecordView,
    post: RegistryView,
) -> bool {
    &&& rec.id == pre.next_id
    &&& rec.owner == p.owner
    &&& rec.metadata == p.metadata
    &&& rec.created_at == now
    &&& post.next_id == pre.next_id + 1
    &&& post.records == pre.records.insert(rec.id, rec)
}

/// A rejected create: the payload fails validation and nothing changes — in
/// particular no id is consumed.
pub open spec fn create_rejected(pre: RegistryView, p: PayloadView, post: RegistryView) -> bool {
    &&& !payload_valid(p)
    &&& post.next_id == pre.next_id
    &&& post.records == pre.records
}

/// A successful fetch: the id is present and the returned record is the
/// stored one.
pub open spec fn get_found(s: RegistryView, id: u64, rec: RecordView) -> bool {
    &&& s.records.contains_key(id)
    &&& rec == s.records[id]
}

/// A successful delete: the id was present, the returned record is the one
/// that was stored, the entry is gone, and the counter is untouched.
pub open spec fn delete_ok(pre: RegistryView, id: u64, rec: RecordView, post: RegistryView) -> bool {
    &&& pre.records.contains_key(id)
    &&& rec == pre.records[id]
    &&& post.records == pre.records.remove(id)
    &&& post.next_id == pre.next_id
}

/// A delete of an absent id: it fails and changes nothing.
pub open spec fn delete_absent(pre: RegistryView, id: u64, post: RegistryView) -> bool {
    &&& !pre.records.contains_key(id)
    &&& post.records == pre.records
    &&& post.next_id == pre.next_id
}

/// Every stored id lies strictly below the counter: ids are issued by the
/// counter before insertion, and a consumed id is never reissued.
pub open spec fn ids_below_counter(s: RegistryView) -> bool {
    forall|k: u64| #[trigger] s.records.contains_key(k) ==> k < s.next_id
}

impl View for Registry {
    type V = RegistryView;

    closed spec fn view(&self) -> RegistryView {
        RegistryView {
            next_id: cell_value(self.counter),
            records: Map::new(
                |id: u64| str_table(self.owners).contains_key(id),
                |id: u64|
                    RecordView {
                        id,
                        owner: str_table(self.owners)[id],
                        metadata: str_table(self.metadata)[id],
                        created_at: u64_table(self.created)[id],
                    },
            ),
        }
    }
}

impl Registry {
    /// The three field maps hold exactly the same, finitely many ids, all of
    /// them strictly below the counter.
    pub closed spec fn wf(self) -> bool {
        &&& str_table(self.metadata).dom() == str_table(self.owners).dom()
        &&& u64_table(self.created).dom() == str_table(self.owners).dom()
        &&& str_table(self.owners).dom().finite()
        &&& forall|k: u64| #[trigger]
            str_table(self.owners).dom().contains(k) ==> k < cell_value(self.counter)
    }

    /// Relies on `MemoryManager::init`, `Cell::init` and `BTreeMap::init` of
    /// `ic-stable-structures`: each attaches to the structure persisted in
    /// its memory region, or initializes it (counter 0, empty maps) where
    /// the region starts empty. What comes back is therefore either a fresh
    /// registry or one whose regions were last written by this type's own
    /// operations, which establish and preserve `wf`; nothing more is
    /// promised — read the counter through `next_id`.
    #[verifier::external_body]
    pub fn new() -> (r: Registry)
        ensures
            r.wf(),
    {
        let mm = MemoryManager::init(DefaultMemoryImpl::default());
        Registry {
            counter: CounterCell { inner: Cell::init(mm.get(MemoryId::new(0)), 0) },
            owners: StrTable { inner: BTreeMap::init(mm.get(MemoryId::new(1))) },
            metadata: StrTable { inner: BTreeMap::init(mm.get(MemoryId::new(2))) },
            created: U64Table { inner: BTreeMap::init(mm.get(MemoryId::new(3))) },
        }
    }

    /// A registry over a memory that is known to start empty, so the counter
    /// stands at 0 and the store holds nothing. Relies on the same `init`
    /// functions as `new`; use it only where the default memory is fresh —
    /// off-canister `DefaultMemoryImpl::default()` yields a new empty
    /// vector-backed region, and a canister's stable memory is empty at
    /// first install.
    #[verifier::external_body]
    pub fn fresh() -> (r: Registry)
        ensures
            r.wf(),
            r@.next_id == 0,
            r@.records == empty_records(),
    {
        let mm = MemoryManager::init(DefaultMemoryImpl::default());
        Registry {
            counter: CounterCell { inner: Cell::init(mm.get(MemoryId::new(0)), 0) },
            owners: StrTable { inner: BTreeMap::init(mm.get(MemoryId::new(1))) },
            metadata: StrTable { inner: BTreeMap::init(mm.get(MemoryId::new(2))) },
            created: U64Table { inner: BTreeMap::init(mm.get(MemoryId::new(3))) },
        }
    }

    /// The id the next successful create will assign.
    pub fn next_id(&self) -> (r: u64)
        ensures
            r == self@.next_id,
    {
        crate::stable::cell_get(&self.counter)
    }

    /// How many records the store currently holds.
    pub fn record_count(&self) -> (r: u64)
        requires
            self.wf(),
        ensures
            r as nat == self@.records.dom().len(),
    {
        proof {
            assert(self@.records.dom() =~= str_table(self.owners).dom());
        }
        crate::stable::str_table_len(&self.owners)
    }

    /// Unconditional upsert: stores the record under its id, overwriting any
    /// record already there. The id must have been issued by the counter —
    /// that is, lie below it — so that the store invariant survives.
    pub fn do_insert(&mut self, nft: &NFTCertificate)
        requires
            old(self).wf(),
            nft.id < old(self)@.next_id,
        ensures
            final(self).wf(),
            final(self)@.next_id == old(self)@.next_id,
            final(self)@.records == old(self)@.records.insert(nft.id, nft@),
    {
        crate::stable::str_table_insert(&mut self.owners, nft.id, nft.owner.clone());
        crate::stable::str_table_insert(&mut self.metadata, nft.id, nft.metadata.clone());
        crate::stable::u64_table_insert(&mut self.created, nft.id, nft.created_at);
        proof {
            assert(str_table(self.owners).dom() =~= str_table(old(self).owners).dom().insert(
                nft.id,
            ));
            assert(str_table(self.metadata).dom() =~= str_table(self.owners).dom());
            assert(u64_table(self.created).dom() =~= str_table(self.owners).dom());
            assert(self@.records =~= old(self)@.records.insert(nft.id, nft@));
        }
    }

    /// Point lookup: a copy of the record under `id`, if one is present.
    pub fn _get_nft(&self, id: &u64) -> (r: Option<NFTCertificate>)
        requires
            self.wf(),
        ensures
            match r {
                Some(rec) => self@.records.contains_key(*id) && rec@ == self@.records[*id],
                None => !self@.records.contains_key(*id),
            },
    {
        match crate::stable::str_table_get(&self.owners, *id) {
            None => None,
            Some(owner) => {
                proof {
                    assert(str_table(self.metadata).dom().contains(*id));
                    assert(u64_table(self.created).dom().contains(*id));
                }
                let metadata = crate::stable::str_table_get(&self.metadata, *id);
                let created = crate::stable::u64_table_get(&self.created, *id);
                match (metadata, created) {
                    (Some(metadata), Some(created_at)) => Some(
                        NFTCertificate { id: *id, owner, metadata, created_at },
                    ),
                    _ => {
                        proof {
                            assert(false);
                        }
                        None
                    },
                }
            },
        }
    }

    /// Fetches the record under `id`, or reports that none is present.
    pub fn get_nft(&self, id: u64) -> (r: Result<NFTCertificate, Error>)
        requires
            self.wf(),
        ensures
            r is Ok <==> self@.records.contains_key(id),
            match r {
                Ok(rec) => get_found(self@, id, rec@),
                Err(e) => e@ == (ErrorView::NotFound { msg: get_not_found_msg(id) }),
            },
    {
        match self._get_nft(&id) {
            Some(nft) => Ok(nft),
            None => Err(Error::NotFound { msg: make_get_not_found_msg(id) }),
        }
    }

    /// Deletes the record under `id` and returns the removed copy, or
    /// reports that none is present and leaves the store untouched.
    pub fn delete_nft(&mut self, id: u64) -> (r: Result<NFTCertificate, Error>)
        requires
            old(self).wf(),
        ensures
            final(self).wf(),
            r is Ok <==> old(self)@.records.contains_key(id),
            match r {
                Ok(rec) => delete_ok(old(self)@, id, rec@, final(self)@),
                Err(e) => delete_absent(old(self)@, id, final(self)@) && e@ == (ErrorView::NotFound {
                    msg: delete_not_found_msg(id),
                }),
            },
    {
        match crate::stable::str_table_remove(&mut self.owners, id) {
            None => {
                proof {
                    assert(str_table(self.owners) =~= str_table(old(self).owners));
                    assert(self@.records =~= old(self)@.records);
                }
                Err(Error::NotFound { msg: make_delete_not_found_msg(id) })
            },
            Some(owner) => {
                proof {
                    assert(str_table(old(self).metadata).dom().contains(id));
                    assert(u64_table(old(self).created).dom().contains(id));
                }
                let metadata = crate::stable::str_table_remove(&mut self.metadata, id);
                let created = crate::stable::u64_table_remove(&mut self.created, id);
                match (metadata, created) {
                    (Some(metadata), Some(created_at)) => {
                        proof {
                            assert(str_table(self.metadata).dom() =~= str_table(
                                self.owners,
                            ).dom());
                            assert(u64_table(self.created).dom() =~= str_table(
                                self.owners,
                            ).dom());
                            assert(self@.records =~= old(self)@.records.remove(id));
                        }
                        Ok(NFTCertificate { id, owner, metadata, created_at })
                    },
                    _ => {
                        proof {
                            assert(false);
                        }
                        Err(Error::NotFound { msg: make_delete_not_found_msg(id) })
                    },
                }
            },
        }
    }

    /// Validates the payload, mints the next id, stamps the record with the
    /// creation instant `now` handed in by the caller, stores it and returns
    /// it. A rejected payload consumes no id and changes nothing.
    pub fn create_nft(&mut self, payload: NFTPayload, now: u64) -> (r: Result<NFTCertificate, Error>)
        requires
            old(self).wf(),
            old(self)@.next_id < u64::MAX,
        ensures
            final(self).wf(),
            r is Ok <==> payload_valid(payload@),
            match r {
                Ok(rec) => create_ok(old(self)@, payload@, now, rec@, final(self)@),
                Err(e) => create_rejected(old(self)@, payload@, final(self)@) && {
                    &&& is_blank(payload@.owner) ==> e@ == (ErrorView::InvalidInput {
                        msg: owner_required_msg(),
                    })
                    &&& !is_blank(payload@.owner) ==> e@ == (ErrorView::InvalidInput {
                        msg: metadata_required_msg(),
                    })
                },
            },
    {
        match validate_payload(&payload) {
            Err(e) => Err(e),
            Ok(_) => {
                let id = crate::stable::cell_get(&self.counter);
                crate::stable::cell_set(&mut self.counter, id + 1);
                let nft = NFTCertificate {
                    id,
                    owner: payload.owner,
                    metadata: payload.metadata,
                    created_at: now,
                };
                self.do_insert(&nft);
                Ok(nft)
            },
        }
    }
}

/// Every stored record carries the id it is keyed under, so ids in the
/// store are unique.
pub proof fn lemma_stored_ids_consistent(r: &Registry)
    ensures
        forall|k: u64| #[trigger] r@.records.contains_key(k) ==> r@.records[k].id == k,
{
}

/// What well-formedness guarantees of the view: the store holds finitely
/// many records, every one keyed strictly below the counter.
pub proof fn lemma_wf_view(r: &Registry)
    requires
        r.wf(),
    ensures
        ids_below_counter(r@),
        r@.records.dom().finite(),
{
    assert(r@.records.dom() =~= str_table(r.owners).dom());
}

/// A create never overwrites: the id it mints is absent beforehand, every
/// record already stored is left untouched, and the store grows by exactly
/// one entry.
pub proof fn lemma_create_never_overwrites(
    s0: RegistryView,
    p: PayloadView,
    now: u64,
    rec: RecordView,
    s1: RegistryView,
)
    requires
        ids_below_counter(s0),
        s0.records.dom().finite(),
        create_ok(s0, p, now, rec, s1),
    ensures
        !s0.records.contains_key(rec.id),
        s1.records.dom().len() == s0.records.dom().len() + 1,
        forall|k: u64| #[trigger] s0.records.contains_key(k) ==> s1.records[k] == s0.records[k],
        ids_below_counter(s1),
{
    assert(s1.records.dom() =~= s0.records.dom().insert(rec.id));
}

/// A deleted id never comes back: the create that follows a successful
/// delete mints a different — strictly larger — id, so the deleted id stays
/// absent.
pub proof fn lemma_deleted_id_stays_absent(
    s0: RegistryView,
    id: u64,
    rec: RecordView,
    s1: RegistryView,
    p: PayloadView,
    t: u64,
    r2: RecordView,
    s2: RegistryView,
)
    requires
        ids_below_counter(s0),
        delete_ok(s0, id, rec, s1),
        create_ok(s1, p, t, r2, s2),
    ensures
        ids_below_counter(s1),
        r2.id > id,
        !s1.records.contains_key(id),
        !s2.records.contains_key(id),
{
}

/// Ids are minted in order: two successful creates in a row return
/// consecutive ids, and a registry whose counter stands at zero hands out
/// zero first.
pub proof fn lemma_ids_consecutive(
    s0: RegistryView,
    p1: PayloadView,
    t1: u64,
    r1: RecordView,
    s1: RegistryView,
    p2: PayloadView,
    t2: u64,
    r2: RecordView,
    s2: RegistryView,
)
    requires
        create_ok(s0, p1, t1, r1, s1),
        create_ok(s1, p2, t2, r2, s2),
    ensures
        r2.id == r1.id + 1,
        s0.next_id == 0 ==> r1.id == 0,
{
}

/// An intervening delete — hit or miss — does not disturb the id sequence:
/// the create after it still returns the id one past the create before it.
pub proof fn lemma_ids_survive_delete(
    s0: RegistryView,
    p1: PayloadView,
    t1: u64,
    r1: RecordView,
    s1: RegistryView,
    id: u64,
    s2: RegistryView,
    p2: PayloadView,
    t2: u64,
    r2: RecordView,
    s3: RegistryView,
)
    requires
        create_ok(s0, p1, t1, r1, s1),
        (exists|rec: RecordView| delete_ok(s1, id, rec, s2)) || delete_absent(s1, id, s2),
        create_ok(s2, p2, t2, r2, s3),
    ensures
        r2.id == r1.id + 1,
{
}

/// Round trip: the record a successful create returns is exactly what a
/// fetch of its id finds immediately afterwards.
pub proof fn lemma_create_then_get(
    s0: RegistryView,
    p: PayloadView,
    now: u64,
    rec: RecordView,
    s1: RegistryView,
)
    requires
        create_ok(s0, p, now, rec, s1),
    ensures
        get_found(s1, rec.id, rec),
{
}

/// After a successful delete the id is absent, so a fetch of it fails.
pub proof fn lemma_delete_then_get_misses(
    s0: RegistryView,
    id: u64,
    rec: RecordView,
    s1: RegistryView,
)
    requires
        delete_ok(s0, id, rec, s1),
    ensures
        !s1.records.contains_key(id),
        forall|r: RecordView| !get_found(s1, id, r),
{
}

/// Deleting an id that is absent — never created, or already deleted —
/// leaves the store exactly as it was, its size included.
pub proof fn lemma_delete_absent_changes_nothing(s0: RegistryView, id: u64, s1: RegistryView)
    requires
        delete_absent(s0, id, s1),
    ensures
        s1.records == s0.records,
        s1.records.dom().len() == s0.records.dom().len(),
        s1.next_id == s0.next_id,
{
}

/// A rejected create consumes no id: the next successful create still
/// returns the id the rejected one would have been given.
pub proof fn lemma_rejected_create_consumes_no_id(
    s0: RegistryView,
    p1: PayloadView,
    s1: RegistryView,
    p2: PayloadView,
    t2: u64,
    r2: RecordView,
    s2: RegistryView,
)
    requires
        create_rejected(s0, p1, s1),
        create_ok(s1, p2, t2, r2, s2),
    ensures
        r2.id == s0.next_id,
{
}

} // verus!
