use rsdu::hardlink::HardlinkMap;
use rsdu::model::{
    generate_entry_id, Entry, EntryIdGenerator, EntryType, ExtendedInfo, HardlinkKey, ScanStats, SerializableEntry,
    SortColumn, SortOrder,
};

fn leaf(id: u64, name: &str, size: u64, blocks: u64) -> Entry {
    Entry::new(id, EntryType::File, name.as_bytes().to_vec(), size, blocks, 1, id, 1)
}

#[test]
fn test_entry_creation() {
    let entry = Entry::new(1, EntryType::File, "test.txt".as_bytes().to_vec(), 1024, 2, 1, 12345, 1);

    assert_eq!(entry.id, 1);
    assert_eq!(entry.entry_type, EntryType::File);
    assert_eq!(entry.name_str(), "test.txt");
    assert_eq!(entry.size, 1024);
    assert_eq!(entry.blocks, 2);
}

#[test]
fn test_entry_type_directory_check() {
    assert!(EntryType::Directory.is_directory());
    assert!(EntryType::OtherFs.is_directory());
    assert!(!EntryType::File.is_directory());
}

#[test]
fn test_error_entry() {
    let entry = Entry::error(1, "bad_file".as_bytes().to_vec(), "Permission denied".to_string());
    assert_eq!(entry.entry_type, EntryType::Error);
    assert!(entry.has_error());
    assert_eq!(entry.error.as_ref().unwrap(), "Permission denied");
}

#[test]
fn test_hardlink_key() {
    let key1 = HardlinkKey::new(1, 12345);
    let key2 = HardlinkKey::new(1, 12345);
    let key3 = HardlinkKey::new(2, 12345);

    assert_eq!(key1, key2);
    assert_ne!(key1, key3);
}

#[test]
fn test_scan_stats() {
    let mut stats = ScanStats::new();
    stats.increment_entries();
    stats.increment_files();
    stats.add_size(1024);

    assert_eq!(stats.get_total_entries(), 1);
    assert_eq!(stats.get_files(), 1);
    assert_eq!(stats.get_total_size(), 1024);
}

#[test]
fn test_extended_info() {
    let mut ext = ExtendedInfo::new();
    assert!(ext.is_empty());

    ext.mtime = Some(chrono::Utc::now().timestamp());
    assert!(!ext.is_empty());
}

#[test]
fn entry_type_labels_and_countability() {
    assert_eq!(EntryType::Directory.label(), "DIR");
    assert_eq!(EntryType::KernelFs.label(), "KERN");
    assert!(EntryType::File.is_countable());
    assert!(!EntryType::Excluded.is_countable());
    assert!(!EntryType::Error.is_countable());
}

#[test]
fn aggregates_sum_over_the_subtree() {
    let mut root = Entry::new(1, EntryType::Directory, b"root".to_vec(), 100, 8, 1, 1, 2);
    let mut sub = Entry::new(2, EntryType::Directory, b"sub".to_vec(), 10, 1, 1, 2, 2);
    sub.add_child(leaf(3, "a", 5, 1));
    root.add_child(sub);
    root.add_child(leaf(4, "b", 7, 2));
    assert_eq!(root.total_size(), 122);
    assert_eq!(root.total_blocks(), 12);
    assert_eq!(root.total_items(), 4);
    assert_eq!(root.children[0].parent, Some(1));
    let lone = leaf(9, "x", 3, 1);
    assert_eq!(lone.total_items(), 1);
}

#[test]
fn aggregates_saturate_instead_of_overflowing() {
    let mut root = Entry::new(1, EntryType::Directory, b"r".to_vec(), u64::MAX, 0, 1, 1, 2);
    root.add_child(leaf(2, "a", 5, 0));
    assert_eq!(root.total_size(), u64::MAX);
}

#[test]
fn sub_errors_are_found_below_the_entry() {
    let mut root = Entry::new(1, EntryType::Directory, b"root".to_vec(), 0, 0, 1, 1, 2);
    let mut sub = Entry::new(2, EntryType::Directory, b"sub".to_vec(), 0, 0, 1, 2, 2);
    assert!(!root.has_sub_error());
    sub.add_child(Entry::error(3, b"bad".to_vec(), "denied".to_string()));
    root.add_child(sub);
    assert!(root.has_sub_error());
    assert!(!root.has_error());
}

#[test]
fn shared_size_counts_inodes_linked_outside_the_tree() {
    let mut links = HardlinkMap::new();
    let key = HardlinkKey::new(1, 50);
    assert!(links.resolve(key, 3, 400, 8, 10));
    assert!(!links.resolve(key, 3, 400, 8, 11));
    let mut root = Entry::new(1, EntryType::Directory, b"root".to_vec(), 0, 0, 1, 1, 2);
    root.add_child(Entry::new(10, EntryType::File, b"a".to_vec(), 400, 8, 1, 50, 3));
    root.add_child(Entry::new(11, EntryType::Hardlink, b"b".to_vec(), 400, 8, 1, 50, 3));
    root.add_child(leaf(12, "c", 9, 1));
    assert_eq!(links.get(&key).unwrap().links_in_tree, 2);
    assert_eq!(root.shared_size(&links), 800);
    assert_eq!(root.shared_blocks(&links), 16);
    let mut all = HardlinkMap::new();
    all.resolve(key, 2, 400, 8, 10);
    all.resolve(key, 2, 400, 8, 11);
    assert_eq!(root.shared_size(&all), 0);
}

#[test]
fn hardlink_registry_marks_later_sightings() {
    let mut links = HardlinkMap::new();
    let a = HardlinkKey::new(1, 7);
    let b = HardlinkKey::new(2, 7);
    assert!(links.get(&a).is_none());
    assert!(links.resolve(a, 2, 10, 1, 1));
    assert!(links.resolve(b, 2, 10, 1, 2));
    assert!(!links.resolve(a, 2, 10, 1, 3));
    let info = links.get(&a).unwrap();
    assert_eq!(info.links_in_tree, 2);
    assert_eq!(info.total_links, 2);
    assert_eq!(info.first_entry, 1);
    assert_eq!(links.get(&b).unwrap().links_in_tree, 1);
}

#[test]
fn entry_ids_increase_from_one() {
    let mut ids = EntryIdGenerator::new();
    assert_eq!(generate_entry_id(&mut ids), 1);
    assert_eq!(generate_entry_id(&mut ids), 2);
    assert_eq!(generate_entry_id(&mut ids), 3);
}

fn same_tree(a: &Entry, b: &Entry) -> bool {
    a.entry_type == b.entry_type
        && a.name == b.name
        && a.size == b.size
        && a.blocks == b.blocks
        && a.device == b.device
        && a.inode == b.inode
        && a.nlink == b.nlink
        && a.children.len() == b.children.len()
        && a.children.iter().zip(b.children.iter()).all(|(x, y)| same_tree(x, y))
}

#[test]
fn round_trip_of_an_empty_directory() {
    let root = Entry::new(1, EntryType::Directory, b"empty".to_vec(), 4096, 8, 3, 9, 2);
    let back = Entry::from_serializable(root.to_serializable());
    assert!(same_tree(&root, &back));
}

#[test]
fn round_trip_of_a_file_and_a_nested_directory() {
    let mut root = Entry::new(1, EntryType::Directory, b"top".to_vec(), 4096, 8, 3, 9, 3);
    let mut sub = Entry::new(2, EntryType::Directory, b"nested".to_vec(), 4096, 8, 3, 10, 2);
    sub.add_child(leaf(3, "deep.txt", 12, 8));
    root.add_child(leaf(4, "file.txt", 5, 8));
    root.add_child(sub);
    let s: SerializableEntry = root.to_serializable();
    assert_eq!(s.children[1].name, "nested");
    let back = Entry::from_serializable(s);
    assert!(same_tree(&root, &back));
    assert_eq!(back.children[1].children[0].parent, Some(2));
}

#[test]
fn round_trip_of_a_hardlinked_pair() {
    let mut root = Entry::new(1, EntryType::Directory, b"pair".to_vec(), 0, 0, 3, 9, 2);
    root.add_child(Entry::new(2, EntryType::File, b"one".to_vec(), 100, 8, 3, 77, 2));
    root.add_child(Entry::new(3, EntryType::Hardlink, b"two".to_vec(), 100, 8, 3, 77, 2));
    let back = Entry::from_serializable(root.to_serializable());
    assert!(same_tree(&root, &back));
    assert_eq!(back.children[1].entry_type, EntryType::Hardlink);
}

#[test]
fn export_replaces_names_that_are_not_text() {
    let e = Entry::new(1, EntryType::File, vec![b'a', 0xff, b'b'], 1, 1, 1, 1, 1);
    assert_eq!(e.name_str(), "a\u{fffd}b");
}

#[test]
fn sort_children_by_size_descending_with_directories_first() {
    let mut root = Entry::new(1, EntryType::Directory, b"root".to_vec(), 0, 0, 1, 1, 2);
    root.add_child(leaf(2, "small", 1, 1));
    root.add_child(leaf(3, "big", 50, 1));
    root.add_child(Entry::new(4, EntryType::Directory, b"dir".to_vec(), 0, 0, 1, 4, 2));
    root.sort_children(SortColumn::Size, SortOrder::Desc, true);
    let names: Vec<&[u8]> = root.children.iter().map(|c| c.name.as_slice()).collect();
    assert_eq!(names, vec![&b"dir"[..], &b"big"[..], &b"small"[..]]);
    root.sort_children(SortColumn::Name, SortOrder::Asc, false);
    let names: Vec<&[u8]> = root.children.iter().map(|c| c.name.as_slice()).collect();
    assert_eq!(names, vec![&b"big"[..], &b"dir"[..], &b"small"[..]]);
}
