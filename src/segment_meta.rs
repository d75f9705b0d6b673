//! Versions of a segment's metadata, each tracked in a live inventory while
//! any handle to it is held.
use vstd::prelude::*;

use census::{Inventory, TrackedObject};

use crate::component::{all_components, lemma_all_components_complete, SegmentComponent, NUM_COMPONENTS};
use crate::segment_id::SegmentId;
use crate::text::{decimal, push_decimal};

verus! {

#[verifier::external_type_specification]
#[verifier::external_body]
#[verifier::reject_recursive_types(T)]
pub struct ExInventory<T>(Inventory<T>);

#[verifier::external_type_specification]
#[verifier::external_body]
#[verifier::reject_recursive_types(T)]
pub struct ExTrackedObject<T>(TrackedObject<T>);

/// Relies on census::Inventory::new: an inventory with nothing tracked yet.
pub assume_specification<T>[ Inventory::<T>::new ]() -> Inventory<T>;

/// The record that a tracked object holds; it is fixed when the object is made.
pub uninterp spec fn tracked_meta(t: TrackedObject<InnerSegmentMeta>) -> InnerSegmentMeta;

/// The inventory that a tracked object is counted in; it is fixed when the object is made.
pub uninterp spec fn tracked_in(t: TrackedObject<InnerSegmentMeta>) -> Inventory<InnerSegmentMeta>;

/// Relies on census::Inventory::list: strong handles to items alive at the call, each
/// one that `track` (or `map` on an object of it) counted in this inventory.
#[verifier::external_body]
fn list_metas(inventory: &Inventory<InnerSegmentMeta>) -> (r: Vec<TrackedObject<InnerSegmentMeta>>)
    ensures
        forall|i: int| 0 <= i < r@.len() ==> tracked_in(#[trigger] r@[i]) == *inventory,
{
    inventory.list()
}

/// Relies on census::Inventory::track: the new object holds `meta` and is counted in
/// `inventory`.
#[verifier::external_body]
fn track_meta(inventory: &Inventory<InnerSegmentMeta>, meta: InnerSegmentMeta) -> (r: TrackedObject<InnerSegmentMeta>)
    ensures
        tracked_meta(r) == meta,
        tracked_in(r) == *inventory,
{
    inventory.track(meta)
}

/// Relies on the Deref of census::TrackedObject: it yields the item the object was made with.
#[verifier::external_body]
fn read_meta(t: &TrackedObject<InnerSegmentMeta>) -> (r: InnerSegmentMeta)
    ensures
        r == tracked_meta(*t),
{
    **t
}

/// Relies on the Clone of census::TrackedObject: the clone shares the same item and
/// inventory.
#[verifier::external_body]
fn share_meta(t: &TrackedObject<InnerSegmentMeta>) -> (r: TrackedObject<InnerSegmentMeta>)
    ensures
        tracked_meta(r) == tracked_meta(*t),
        tracked_in(r) == tracked_in(*t),
{
    t.clone()
}

/// Relies on census::TrackedObject::map: it tracks, in the same inventory, what the
/// closure makes of the item.
#[verifier::external_body]
fn map_counts(
    t: &TrackedObject<InnerSegmentMeta>,
    max_doc: u32,
    deletes: Option<DeleteMeta>,
) -> (r: TrackedObject<InnerSegmentMeta>)
    ensures
        tracked_meta(r) == tracked_meta(*t).spec_with_counts(max_doc, deletes),
        tracked_in(r) == tracked_in(*t),
{
    t.map(move |inner| inner.with_counts(max_doc, deletes))
}

/// Delete state of a segment as of the delete operation stamped `opstamp`.
#[derive(Clone, Copy, Debug, PartialEq, Eq, Structural)]
pub struct DeleteMeta {
    pub num_deleted_docs: u32,
    pub opstamp: u64,
}

/// The persisted fields of one version of a segment's metadata.
#[derive(Clone, Copy, Debug, PartialEq, Eq, Structural)]
pub struct InnerSegmentMeta {
    pub segment_id: SegmentId,
    pub max_doc: u32,
    pub deletes: Option<DeleteMeta>,
}

impl InnerSegmentMeta {
    /// A segment with no documents and no deletes.
    pub open spec fn spec_new(segment_id: SegmentId) -> InnerSegmentMeta {
        InnerSegmentMeta { segment_id, max_doc: 0, deletes: None }
    }

    /// The same segment with `max_doc` and `deletes` replaced.
    pub open spec fn spec_with_counts(self, max_doc: u32, deletes: Option<DeleteMeta>) -> InnerSegmentMeta {
        InnerSegmentMeta { segment_id: self.segment_id, max_doc, deletes }
    }

    pub open spec fn spec_num_deleted_docs(self) -> u32 {
        match self.deletes {
            Some(d) => d.num_deleted_docs,
            None => 0,
        }
    }

    pub open spec fn spec_delete_opstamp(self) -> Option<u64> {
        match self.deletes {
            Some(d) => Some(d.opstamp),
            None => None,
        }
    }

    /// The delete opstamp, 0 without one.
    pub open spec fn spec_opstamp_or_zero(self) -> u64 {
        match self.spec_delete_opstamp() {
            Some(o) => o,
            None => 0,
        }
    }

    pub open spec fn spec_has_deletes(self) -> bool {
        self.spec_num_deleted_docs() > 0
    }

    /// The documents not deleted; meaningful when no more are deleted than exist.
    pub open spec fn spec_num_docs(self) -> int {
        self.max_doc - self.spec_num_deleted_docs()
    }

    /// The suffix of the file that holds `component`.
    pub open spec fn spec_suffix(self, component: SegmentComponent) -> Seq<char> {
        match component {
            SegmentComponent::POSITIONS => ".pos"@,
            SegmentComponent::POSTINGS => ".idx"@,
            SegmentComponent::TERMS => ".term"@,
            SegmentComponent::STORE => ".store"@,
            SegmentComponent::FASTFIELDS => ".fast"@,
            SegmentComponent::FIELDNORMS => ".fieldnorm"@,
            SegmentComponent::DELETE => "."@ + decimal(self.spec_opstamp_or_zero() as nat) + ".del"@,
        }
    }

    /// The path, relative to the index directory, of the file that holds `component`.
    pub open spec fn spec_relative_path(self, component: SegmentComponent) -> Seq<char> {
        self.segment_id.spec_uuid_string() + self.spec_suffix(component)
    }

    /// A fresh segment has no documents, no deletes and no delete opstamp.
    pub proof fn lemma_new_is_empty(segment_id: SegmentId)
        ensures
            InnerSegmentMeta::spec_new(segment_id).segment_id == segment_id,
            InnerSegmentMeta::spec_new(segment_id).max_doc == 0,
            InnerSegmentMeta::spec_new(segment_id).spec_num_deleted_docs() == 0,
            InnerSegmentMeta::spec_new(segment_id).spec_num_docs() == 0,
            !InnerSegmentMeta::spec_new(segment_id).spec_has_deletes(),
            InnerSegmentMeta::spec_new(segment_id).spec_delete_opstamp() is None,
    {
    }

    /// Changing `max_doc` keeps the segment id and the delete state, and the new
    /// version has the `max_doc` asked for.
    pub proof fn lemma_with_max_doc(self, max_doc: u32)
        ensures
            self.spec_with_counts(max_doc, self.deletes).segment_id == self.segment_id,
            self.spec_with_counts(max_doc, self.deletes).deletes == self.deletes,
            self.spec_with_counts(max_doc, self.deletes).spec_num_deleted_docs()
                == self.spec_num_deleted_docs(),
            self.spec_with_counts(max_doc, self.deletes).spec_delete_opstamp()
                == self.spec_delete_opstamp(),
            self.spec_with_counts(max_doc, self.deletes).max_doc == max_doc,
    {
    }

    /// Replacing the delete state keeps the segment id and `max_doc`, and the new
    /// version counts exactly the deletes given, as of the opstamp given.
    pub proof fn lemma_with_delete_meta(self, num_deleted_docs: u32, opstamp: u64)
        ensures
            ({
                let r = self.spec_with_counts(self.max_doc, Some(DeleteMeta { num_deleted_docs, opstamp }));
                &&& r.segment_id == self.segment_id
                &&& r.max_doc == self.max_doc
                &&& r.spec_num_deleted_docs() == num_deleted_docs
                &&& r.spec_delete_opstamp() == Some(opstamp)
                &&& r.spec_has_deletes() == (num_deleted_docs > 0)
            }),
    {
    }

    /// A file name depends on the segment id and the delete opstamp (0 without
    /// one) alone.
    pub proof fn lemma_relative_path_determined(self, other: InnerSegmentMeta, component: SegmentComponent)
        requires
            self.segment_id == other.segment_id,
            self.spec_opstamp_or_zero() == other.spec_opstamp_or_zero(),
        ensures
            self.spec_relative_path(component) == other.spec_relative_path(component),
    {
    }

    /// Files of two different components never share a name.
    pub proof fn lemma_relative_paths_distinct(self, a: SegmentComponent, b: SegmentComponent)
        requires
            a != b,
        ensures
            self.spec_relative_path(a) != self.spec_relative_path(b),
    {
        reveal_strlit(".pos");
        reveal_strlit(".idx");
        reveal_strlit(".term");
        reveal_strlit(".store");
        reveal_strlit(".fast");
        reveal_strlit(".fieldnorm");
        reveal_strlit(".");
        reveal_strlit(".del");
        let p = self.segment_id.spec_uuid_string();
        let sa = self.spec_suffix(a);
        let sb = self.spec_suffix(b);
        if p + sa == p + sb {
            assert(sa =~= (p + sa).subrange(p.len() as int, (p + sa).len() as int));
            assert(sb =~= (p + sb).subrange(p.len() as int, (p + sb).len() as int));
            assert(sa.len() == sb.len());
            assert(sa[sa.len() - 1] == sb[sb.len() - 1]);
        }
    }

    /// A segment with no documents and no deletes.
    pub fn new(segment_id: SegmentId) -> (r: InnerSegmentMeta)
        ensures
            r == InnerSegmentMeta::spec_new(segment_id),
    {
        InnerSegmentMeta { segment_id, max_doc: 0, deletes: None }
    }

    /// The same segment with `max_doc` and `deletes` replaced.
    pub fn with_counts(&self, max_doc: u32, deletes: Option<DeleteMeta>) -> (r: InnerSegmentMeta)
        ensures
            r == self.spec_with_counts(max_doc, deletes),
    {
        InnerSegmentMeta { segment_id: self.segment_id, max_doc, deletes }
    }
}

/// The inventory in which every live version of segment metadata is tracked.
pub struct SegmentMetaInventory {
    inventory: Inventory<InnerSegmentMeta>,
}

impl SegmentMetaInventory {
    /// The census inventory behind this one.
    pub closed spec fn spec_inventory(&self) -> Inventory<InnerSegmentMeta> {
        self.inventory
    }

    /// An inventory that tracks nothing yet.
    pub fn new() -> (r: SegmentMetaInventory) {
        SegmentMetaInventory { inventory: Inventory::new() }
    }

    /// Tracks `record` as a new live version and returns a handle to it.
    pub fn track(&self, record: InnerSegmentMeta) -> (r: SegmentMeta)
        ensures
            r@ == record,
            r.spec_inventory() == self.spec_inventory(),
    {
        SegmentMeta { inner: track_meta(&self.inventory, record) }
    }
}

/// A shared handle to one version of a segment's metadata. The version stays
/// listed in its inventory while any clone of a handle to it is alive.
pub struct SegmentMeta {
    inner: TrackedObject<InnerSegmentMeta>,
}

impl View for SegmentMeta {
    type V = InnerSegmentMeta;

    closed spec fn view(&self) -> InnerSegmentMeta {
        tracked_meta(self.inner)
    }
}

impl SegmentMeta {
    /// The census inventory in which this version is tracked.
    pub closed spec fn spec_inventory(&self) -> Inventory<InnerSegmentMeta> {
        tracked_in(self.inner)
    }

    /// Taking the persisted record of `m` (as `record` gives it) and tracking it
    /// again (as `SegmentMetaInventory::track` does) yields a handle with the same
    /// id, `max_doc`, deleted count and delete opstamp; absent deletes stay absent.
    pub proof fn lemma_record_round_trip(m: SegmentMeta, record: InnerSegmentMeta, back: SegmentMeta)
        requires
            record == m@,
            back@ == record,
        ensures
            back@.segment_id == m@.segment_id,
            back@.max_doc == m@.max_doc,
            back@.spec_num_deleted_docs() == m@.spec_num_deleted_docs(),
            back@.spec_delete_opstamp() == m@.spec_delete_opstamp(),
            back@.deletes is None <==> m@.deletes is None,
    {
    }
}

impl Clone for SegmentMeta {
    /// Another handle to the same version, keeping it live as long as either is.
    fn clone(&self) -> (r: SegmentMeta)
        ensures
            r@ == self@,
            r.spec_inventory() == self.spec_inventory(),
    {
        SegmentMeta { inner: share_meta(&self.inner) }
    }
}

impl SegmentMeta {
    /// A snapshot of every version alive in `inventory`, each as a new handle.
    pub fn all(inventory: &SegmentMetaInventory) -> (r: Vec<SegmentMeta>)
        ensures
            forall|i: int| 0 <= i < r@.len() ==>
                (#[trigger] r@[i]).spec_inventory() == inventory.spec_inventory(),
    {
        SegmentMeta::from_listed(list_metas(&inventory.inventory))
    }

    /// One handle for each listed object, in the same order.
    pub fn from_listed(live: Vec<TrackedObject<InnerSegmentMeta>>) -> (r: Vec<SegmentMeta>)
        ensures
            r@.len() == live@.len(),
            forall|i: int| 0 <= i < live@.len() ==> (#[trigger] r@[i])@ == tracked_meta(live@[i]),
            forall|i: int| 0 <= i < live@.len() ==>
                (#[trigger] r@[i]).spec_inventory() == tracked_in(live@[i]),
    {
        let mut metas: Vec<SegmentMeta> = Vec::new();
        let mut i: usize = 0;
        while i < live.len()
            invariant
                i <= live@.len(),
                metas@.len() == i,
                forall|j: int| 0 <= j < i ==> (#[trigger] metas@[j])@ == tracked_meta(live@[j]),
                forall|j: int| 0 <= j < i ==>
                    (#[trigger] metas@[j]).spec_inventory() == tracked_in(live@[j]),
            decreases live@.len() - i,
        {
            metas.push(SegmentMeta { inner: share_meta(&live[i]) });
            i += 1;
        }
        metas
    }

    /// Metadata, tracked in `inventory`, for a segment with no documents and no deletes.
    pub fn new(inventory: &SegmentMetaInventory, segment_id: SegmentId) -> (r: SegmentMeta)
        ensures
            r@ == InnerSegmentMeta::spec_new(segment_id),
            r.spec_inventory() == inventory.spec_inventory(),
    {
        inventory.track(InnerSegmentMeta::new(segment_id))
    }

    /// The persisted fields of this version.
    pub fn record(&self) -> (r: InnerSegmentMeta)
        ensures
            r == self@,
    {
        read_meta(&self.inner)
    }

    /// The segment id.
    pub fn id(&self) -> (r: SegmentId)
        ensures
            r == self@.segment_id,
    {
        read_meta(&self.inner).segment_id
    }

    /// The number of deleted documents, 0 without delete metadata.
    pub fn num_deleted_docs(&self) -> (r: u32)
        ensures
            r == self@.spec_num_deleted_docs(),
    {
        match read_meta(&self.inner).deletes {
            Some(d) => d.num_deleted_docs,
            None => 0,
        }
    }

    /// The path, relative to the index directory, of every file the segment needs,
    /// one per component in the order of `SegmentComponent::all`.
    pub fn list_files(&self) -> (r: Vec<String>)
        ensures
            r@.len() == NUM_COMPONENTS,
            forall|i: int| 0 <= i < NUM_COMPONENTS ==>
                #[trigger] r@[i]@ == self@.spec_relative_path(all_components()[i]),
            forall|i: int, j: int| 0 <= i < NUM_COMPONENTS && 0 <= j < NUM_COMPONENTS && i != j
                ==> #[trigger] r@[i]@ != #[trigger] r@[j]@,
    {
        let components = SegmentComponent::all();
        let mut files: Vec<String> = Vec::new();
        let mut i: usize = 0;
        while i < components.len()
            invariant
                components@ == all_components(),
                i <= NUM_COMPONENTS,
                files@.len() == i,
                forall|j: int| 0 <= j < i ==>
                    #[trigger] files@[j]@ == self@.spec_relative_path(all_components()[j]),
            decreases NUM_COMPONENTS - i,
        {
            files.push(self.relative_path(components[i]));
            i += 1;
        }
        proof {
            lemma_all_components_complete(SegmentComponent::DELETE);
            assert forall|i: int, j: int|
                0 <= i < NUM_COMPONENTS && 0 <= j < NUM_COMPONENTS && i != j
                implies #[trigger] files@[i]@ != #[trigger] files@[j]@ by {
                self@.lemma_relative_paths_distinct(all_components()[i], all_components()[j]);
            }
        }
        files
    }

    /// The path, relative to the index directory, of the file that holds `component`:
    /// the segment id followed by the component's suffix. The delete file's suffix
    /// carries the delete opstamp, 0 without one.
    pub fn relative_path(&self, component: SegmentComponent) -> (r: String)
        ensures
            r@ == self@.spec_relative_path(component),
    {
        let mut path = self.id().uuid_string();
        match component {
            SegmentComponent::POSITIONS => path.append(".pos"),
            SegmentComponent::POSTINGS => path.append(".idx"),
            SegmentComponent::TERMS => path.append(".term"),
            SegmentComponent::STORE => path.append(".store"),
            SegmentComponent::FASTFIELDS => path.append(".fast"),
            SegmentComponent::FIELDNORMS => path.append(".fieldnorm"),
            SegmentComponent::DELETE => {
                let opstamp = match self.delete_opstamp() {
                    Some(o) => o,
                    None => 0,
                };
                path.append(".");
                push_decimal(&mut path, opstamp);
                path.append(".del");
            },
        }
        assert(path@ =~= self@.spec_relative_path(component));
        path
    }

    /// The highest document id plus one.
    pub fn max_doc(&self) -> (r: u32)
        ensures
            r == self@.max_doc,
    {
        read_meta(&self.inner).max_doc
    }

    /// The number of documents not deleted.
    pub fn num_docs(&self) -> (r: u32)
        requires
            self@.spec_num_deleted_docs() <= self@.max_doc,
        ensures
            r == self@.spec_num_docs(),
    {
        self.max_doc() - self.num_deleted_docs()
    }

    /// The opstamp of the last delete operation taken into account, if any.
    pub fn delete_opstamp(&self) -> (r: Option<u64>)
        ensures
            r == self@.spec_delete_opstamp(),
    {
        match read_meta(&self.inner).deletes {
            Some(d) => Some(d.opstamp),
            None => None,
        }
    }

    /// Whether any document of the segment is deleted.
    pub fn has_deletes(&self) -> (r: bool)
        ensures
            r == self@.spec_has_deletes(),
    {
        self.num_deleted_docs() > 0
    }

    /// A new version, tracked in the same inventory, with `max_doc` replaced.
    pub fn with_max_doc(self, max_doc: u32) -> (r: SegmentMeta)
        ensures
            r@ == self@.spec_with_counts(max_doc, self@.deletes),
            r.spec_inventory() == self.spec_inventory(),
    {
        let deletes = read_meta(&self.inner).deletes;
        SegmentMeta { inner: map_counts(&self.inner, max_doc, deletes) }
    }

    /// A new version, tracked in the same inventory, whose delete state is replaced
    /// by `num_deleted_docs` deletes as of `opstamp`.
    pub fn with_delete_meta(self, num_deleted_docs: u32, opstamp: u64) -> (r: SegmentMeta)
        ensures
            r@ == self@.spec_with_counts(self@.max_doc, Some(DeleteMeta { num_deleted_docs, opstamp })),
            r.spec_inventory() == self.spec_inventory(),
    {
        let delete_meta = DeleteMeta { num_deleted_docs, opstamp };
        let max_doc = read_meta(&self.inner).max_doc;
        SegmentMeta { inner: map_counts(&self.inner, max_doc, Some(delete_meta)) }
    }
}

} // verus!
