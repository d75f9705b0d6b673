use segment_meta::component::SegmentComponent;
use segment_meta::segment_id::SegmentId;
use segment_meta::segment_meta::{DeleteMeta, InnerSegmentMeta, SegmentMeta, SegmentMetaInventory};
use segment_meta::text::{push_decimal, push_hex};

const UUID: u128 = 0x0123_4567_89ab_cdef_fedc_ba98_7654_3210;
const UUID_TEXT: &str = "0123456789abcdeffedcba9876543210";

fn id() -> SegmentId {
    SegmentId::from_uuid_u128(UUID)
}

fn count_with_id(metas: &[SegmentMeta], segment_id: SegmentId) -> usize {
    metas.iter().filter(|m| m.id() == segment_id).count()
}

#[test]
fn fresh_meta_is_empty() {
    let inventory = SegmentMetaInventory::new();
    let meta = SegmentMeta::new(&inventory, id());
    assert_eq!(meta.id(), id());
    assert_eq!(meta.max_doc(), 0);
    assert_eq!(meta.num_deleted_docs(), 0);
    assert_eq!(meta.num_docs(), 0);
    assert!(!meta.has_deletes());
    assert_eq!(meta.delete_opstamp(), None);
}

#[test]
fn num_docs_is_max_doc_minus_deleted() {
    let inventory = SegmentMetaInventory::new();
    let meta = SegmentMeta::new(&inventory, id()).with_max_doc(7).with_delete_meta(3, 1);
    assert_eq!(meta.num_docs(), 4);
    let full = SegmentMeta::new(&inventory, id()).with_max_doc(9).with_delete_meta(9, 2);
    assert_eq!(full.num_docs(), 0);
    let largest = SegmentMeta::new(&inventory, id()).with_max_doc(u32::MAX);
    assert_eq!(largest.num_docs(), u32::MAX);
}

#[test]
fn with_max_doc_keeps_id_and_deletes() {
    let inventory = SegmentMetaInventory::new();
    let meta = SegmentMeta::new(&inventory, id()).with_delete_meta(2, 11);
    let next = meta.with_max_doc(50);
    assert_eq!(next.id(), id());
    assert_eq!(next.max_doc(), 50);
    assert_eq!(next.num_deleted_docs(), 2);
    assert_eq!(next.delete_opstamp(), Some(11));
}

#[test]
fn with_delete_meta_keeps_id_and_max_doc() {
    let inventory = SegmentMetaInventory::new();
    let meta = SegmentMeta::new(&inventory, id()).with_max_doc(40);
    let next = meta.with_delete_meta(6, 21).with_delete_meta(8, 30);
    assert_eq!(next.id(), id());
    assert_eq!(next.max_doc(), 40);
    assert_eq!(next.num_deleted_docs(), 8);
    assert_eq!(next.delete_opstamp(), Some(30));
    assert!(next.has_deletes());
}

#[test]
fn zero_deletes_are_no_deletes() {
    let inventory = SegmentMetaInventory::new();
    let meta = SegmentMeta::new(&inventory, id()).with_max_doc(5).with_delete_meta(0, 3);
    assert!(!meta.has_deletes());
    assert_eq!(meta.delete_opstamp(), Some(3));
    assert_eq!(meta.num_docs(), 5);
}

#[test]
fn record_round_trip() {
    let inventory = SegmentMetaInventory::new();
    let meta = SegmentMeta::new(&inventory, id()).with_max_doc(12).with_delete_meta(4, 9);
    let record = meta.record();
    assert_eq!(
        record,
        InnerSegmentMeta {
            segment_id: id(),
            max_doc: 12,
            deletes: Some(DeleteMeta { num_deleted_docs: 4, opstamp: 9 }),
        }
    );
    let other = SegmentMetaInventory::new();
    let back = other.track(record);
    assert_eq!(back.id(), meta.id());
    assert_eq!(back.max_doc(), meta.max_doc());
    assert_eq!(back.num_deleted_docs(), meta.num_deleted_docs());
    assert_eq!(back.delete_opstamp(), meta.delete_opstamp());
    assert_eq!(SegmentMeta::all(&other).len(), 1);
}

#[test]
fn uuid_string_is_32_hex_digits() {
    assert_eq!(id().uuid_string(), UUID_TEXT);
    assert_eq!(SegmentId::from_uuid_u128(255).uuid_string(), format!("{}ff", "0".repeat(30)));
    assert_eq!(SegmentId::from_uuid_u128(u128::MAX).uuid_string(), "f".repeat(32));
    assert_eq!(id().uuid_u128(), UUID);
}

#[test]
fn digits_are_appended() {
    let mut s = String::from("x");
    push_decimal(&mut s, 0);
    push_decimal(&mut s, 4096);
    push_decimal(&mut s, u64::MAX);
    assert_eq!(s, "x0409618446744073709551615");
    let mut h = String::new();
    push_hex(&mut h, 0xbeef, 6);
    assert_eq!(h, "00beef");
}

#[test]
fn relative_path_per_component() {
    let inventory = SegmentMetaInventory::new();
    let meta = SegmentMeta::new(&inventory, id());
    let expect = |suffix: &str| format!("{}{}", UUID_TEXT, suffix);
    assert_eq!(meta.relative_path(SegmentComponent::POSITIONS), expect(".pos"));
    assert_eq!(meta.relative_path(SegmentComponent::POSTINGS), expect(".idx"));
    assert_eq!(meta.relative_path(SegmentComponent::TERMS), expect(".term"));
    assert_eq!(meta.relative_path(SegmentComponent::STORE), expect(".store"));
    assert_eq!(meta.relative_path(SegmentComponent::FASTFIELDS), expect(".fast"));
    assert_eq!(meta.relative_path(SegmentComponent::FIELDNORMS), expect(".fieldnorm"));
    assert_eq!(meta.relative_path(SegmentComponent::DELETE), expect(".0.del"));
    let deleted = meta.with_delete_meta(1, 1234);
    assert_eq!(deleted.relative_path(SegmentComponent::DELETE), expect(".1234.del"));
}

#[test]
fn list_files_has_one_path_per_component() {
    let inventory = SegmentMetaInventory::new();
    let meta = SegmentMeta::new(&inventory, id()).with_delete_meta(0, 77);
    let files = meta.list_files();
    assert_eq!(files.len(), 7);
    let components = SegmentComponent::all();
    assert_eq!(components.len(), 7);
    for (file, component) in files.iter().zip(components.iter()) {
        assert_eq!(*file, meta.relative_path(*component));
    }
    let distinct: std::collections::HashSet<&String> = files.iter().collect();
    assert_eq!(distinct.len(), 7);
    assert!(files.contains(&format!("{}.77.del", UUID_TEXT)));
}

#[test]
fn all_counts_live_handles() {
    let inventory = SegmentMetaInventory::new();
    let mut metas: Vec<SegmentMeta> =
        (0..5u128).map(|i| SegmentMeta::new(&inventory, SegmentId::from_uuid_u128(i))).collect();
    assert_eq!(SegmentMeta::all(&inventory).len(), 5);
    metas.truncate(3);
    assert_eq!(SegmentMeta::all(&inventory).len(), 3);
    metas.clear();
    assert!(SegmentMeta::all(&inventory).is_empty());
}

#[test]
fn clone_shares_one_version() {
    let inventory = SegmentMetaInventory::new();
    let meta = SegmentMeta::new(&inventory, id()).with_max_doc(3);
    let copy = meta.clone();
    assert_eq!(copy.max_doc(), 3);
    assert_eq!(copy.id(), id());
    drop(meta);
    let all = SegmentMeta::all(&inventory);
    assert_eq!(all.len(), 1);
    assert_eq!(all[0].max_doc(), 3);
}

#[test]
fn evolution_scenario() {
    let inventory = SegmentMetaInventory::new();
    let s = SegmentMeta::new(&inventory, id());
    let s1 = s.clone().with_max_doc(100);
    drop(s);
    let s2 = s1.clone().with_delete_meta(10, 5);
    drop(s1);
    assert_eq!(s2.num_docs(), 90);
    assert_eq!(s2.delete_opstamp(), Some(5));
    let all = SegmentMeta::all(&inventory);
    assert_eq!(count_with_id(&all, id()), 1);
    assert_eq!(all[0].max_doc(), 100);
    assert_eq!(all[0].num_deleted_docs(), 10);
    assert!(s2.relative_path(SegmentComponent::DELETE).ends_with(".5.del"));
}

#[test]
fn evolved_clones_both_live() {
    let inventory = SegmentMetaInventory::new();
    let original = SegmentMeta::new(&inventory, id());
    let a = original.clone().with_max_doc(10);
    let b = original.clone().with_max_doc(20);
    drop(original);
    let all = SegmentMeta::all(&inventory);
    assert_eq!(count_with_id(&all, id()), 2);
    let mut max_docs: Vec<u32> = all.iter().map(|m| m.max_doc()).collect();
    max_docs.sort();
    assert_eq!(max_docs, vec![10, 20]);
    assert_eq!(a.max_doc(), 10);
    assert_eq!(b.max_doc(), 20);
}

#[test]
fn from_listed_keeps_each_record() {
    let inventory = census::Inventory::new();
    let first = InnerSegmentMeta { segment_id: id(), max_doc: 4, deletes: None };
    let second = InnerSegmentMeta {
        segment_id: SegmentId::from_uuid_u128(9),
        max_doc: 6,
        deletes: Some(DeleteMeta { num_deleted_docs: 1, opstamp: 2 }),
    };
    let live = vec![inventory.track(first), inventory.track(second)];
    let metas = SegmentMeta::from_listed(live);
    assert_eq!(metas.len(), 2);
    assert_eq!(metas[0].record(), first);
    assert_eq!(metas[1].record(), second);
    assert_eq!(inventory.len(), 2);
}

#[test]
fn evolved_versions_share_the_inventory() {
    let inventory = SegmentMetaInventory::new();
    let other = SegmentMetaInventory::new();
    let _elsewhere = SegmentMeta::new(&other, id());
    let meta = SegmentMeta::new(&inventory, id());
    let evolved = meta.clone().with_max_doc(3).with_delete_meta(1, 4);
    let all = SegmentMeta::all(&inventory);
    assert_eq!(all.len(), 2);
    assert!(all.iter().any(|m| m.record() == evolved.record()));
    assert_eq!(SegmentMeta::all(&other).len(), 1);
}
