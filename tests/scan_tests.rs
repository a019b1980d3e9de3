use rsdu::config::{Config, SortColumn as ConfigSortColumn, SortOrder as ConfigSortOrder};
use rsdu::error::RsduError;
use rsdu::model::{Entry, EntryType};
use rsdu::natural::natural_compare;
use rsdu::scanner::{get_entry_type, matches_glob_pattern, FileFacts, FileKind, ScanContext};
use rsdu::sorting::{sort_entries, SortPolicy};
use std::cmp::Ordering;

fn facts(kind: FileKind, len: u64, ino: u64) -> FileFacts {
    FileFacts {
        kind,
        len,
        blocks: (len + 511) / 512,
        dev: 1,
        ino,
        nlink: 1,
        mtime: Some(1_700_000_000),
        uid: 1000,
        gid: 1000,
        mode: 0o644,
    }
}

fn context(config: Config) -> ScanContext {
    ScanContext::new(config).ok().unwrap()
}

#[test]
fn test_natural_sort() {
    assert_eq!(natural_compare("file1", "file2"), Ordering::Less);
    assert_eq!(natural_compare("file10", "file2"), Ordering::Greater);
    assert_eq!(natural_compare("file01", "file1"), Ordering::Equal);
}

#[test]
fn natural_order_differs_from_plain_order() {
    assert_eq!(natural_compare("file2", "file10"), Ordering::Less);
    assert!("file10" < "file2");
    assert_eq!(natural_compare("a", "a"), Ordering::Equal);
    assert_eq!(natural_compare("", "a"), Ordering::Less);
    assert_eq!(natural_compare("a1b", "a1a"), Ordering::Greater);
    assert_eq!(natural_compare("x99999999999999999999999", "x99999999999999999999998"), Ordering::Equal);
}

#[test]
fn test_matches_glob_pattern() {
    assert!(matches_glob_pattern("test.txt", "*.txt"));
    assert!(matches_glob_pattern("test.log", "test.*"));
    assert!(!matches_glob_pattern("test.txt", "*.log"));
}

#[test]
fn invalid_glob_pattern_matches_nothing() {
    assert!(!matches_glob_pattern("a", "***"));
}

#[test]
fn test_should_include_entry() {
    let mut config = Config::default();
    let ctx = context(Config::default());
    assert!(ctx.should_include_entry(b"visible.txt"));
    assert!(ctx.should_include_entry(b".hidden.txt"));
    assert!(!ctx.should_include_entry(b"."));
    assert!(!ctx.should_include_entry(b".."));
    config.show_hidden = false;
    let ctx = context(config);
    assert!(ctx.should_include_entry(b"visible.txt"));
    assert!(!ctx.should_include_entry(b".hidden.txt"));
}

#[test]
fn invalid_exclude_pattern_is_a_configuration_error() {
    let mut config = Config::default();
    config.exclude_patterns.push("a/***".to_string());
    match ScanContext::new(config) {
        Err(RsduError::ConfigError(msg)) => assert!(msg.starts_with("Invalid exclude pattern 'a/***'")),
        _ => panic!("expected a configuration error"),
    }
}

#[test]
fn entry_types_follow_file_kinds() {
    assert_eq!(get_entry_type(&facts(FileKind::Directory, 0, 1)), EntryType::Directory);
    assert_eq!(get_entry_type(&facts(FileKind::Fifo, 0, 1)), EntryType::Special);
    assert_eq!(get_entry_type(&facts(FileKind::Socket, 0, 1)), EntryType::Special);
    assert_eq!(get_entry_type(&facts(FileKind::Symlink, 0, 1)), EntryType::Symlink);
    assert_eq!(get_entry_type(&facts(FileKind::Unknown, 0, 1)), EntryType::File);
}

/// Scans a directory of the given children, all of which are leaves.
fn scan_dir(ctx: &mut ScanContext, path: &str, name: &str, kids: Vec<(&str, Result<FileFacts, String>)>) -> Entry {
    let dir = ctx.begin_entry(path, name.as_bytes().to_vec(), Ok(facts(FileKind::Directory, 0, 1)));
    let mut children = Vec::new();
    for (n, m) in kids {
        let p = format!("{}/{}", path, n);
        children.push(ctx.begin_entry(&p, n.as_bytes().to_vec(), m));
    }
    ctx.finish_directory(dir, Ok(children))
}

#[test]
fn end_to_end_scan_of_two_files_and_an_empty_directory() {
    let mut ctx = context(Config::default());
    let root = ctx.begin_entry("/t", b"t".to_vec(), Ok(facts(FileKind::Directory, 0, 1)));
    let f1 = ctx.begin_entry("/t/file1.txt", b"file1.txt".to_vec(), Ok(facts(FileKind::File, 5, 2)));
    let f2 = ctx.begin_entry("/t/file2.txt", b"file2.txt".to_vec(), Ok(facts(FileKind::File, 5, 3)));
    let sub = ctx.begin_entry("/t/subdir", b"subdir".to_vec(), Ok(facts(FileKind::Directory, 0, 4)));
    let sub = ctx.finish_directory(sub, Ok(Vec::new()));
    let root = ctx.finish_directory(root, Ok(vec![f1, f2, sub]));
    assert_eq!(root.entry_type, EntryType::Directory);
    assert_eq!(root.children.len(), 3);
    assert_eq!(root.total_items(), 4);
    assert_eq!(root.total_size(), 10);
    assert_eq!(ctx.stats.get_errors(), 0);
    assert_eq!(ctx.stats.get_files(), 2);
    assert_eq!(ctx.stats.get_directories(), 2);
    assert_eq!(ctx.stats.get_total_entries(), 4);
    assert!(root.children.iter().all(|c| c.parent == Some(root.id)));
}

#[test]
fn one_unreadable_entry_is_contained() {
    let mut ctx = context(Config::default());
    let root = scan_dir(
        &mut ctx,
        "/d",
        "d",
        vec![
            ("a", Ok(facts(FileKind::File, 1, 2))),
            ("b", Err("Permission denied".to_string())),
            ("c", Ok(facts(FileKind::File, 2, 3))),
            ("e", Ok(facts(FileKind::File, 3, 4))),
        ],
    );
    assert_eq!(root.entry_type, EntryType::Directory);
    assert_eq!(root.children.len(), 4);
    let errors: Vec<&Entry> = root.children.iter().filter(|c| c.entry_type == EntryType::Error).collect();
    assert_eq!(errors.len(), 1);
    assert_eq!(errors[0].error.as_deref(), Some("Cannot read metadata: Permission denied"));
    assert_eq!(root.children.iter().filter(|c| c.entry_type == EntryType::File).count(), 3);
    assert_eq!(ctx.stats.get_errors(), 1);
}

#[test]
fn unlistable_directory_becomes_an_error_without_children() {
    let mut ctx = context(Config::default());
    let dir = ctx.begin_entry("/x", b"x".to_vec(), Ok(facts(FileKind::Directory, 4096, 1)));
    let dir = ctx.finish_directory(dir, Err("Cannot read directory: denied".to_string()));
    assert_eq!(dir.entry_type, EntryType::Error);
    assert_eq!(dir.size, 0);
    assert_eq!(dir.blocks, 0);
    assert!(dir.children.is_empty());
    assert_eq!(dir.error.as_deref(), Some("Error scanning directory: Cannot read directory: denied"));
    assert_eq!(ctx.stats.get_errors(), 1);
}

#[test]
fn placeholders_have_no_weight() {
    let mut config = Config::default();
    config.same_fs = true;
    config.exclude_kernfs = true;
    config.exclude_caches = true;
    config.exclude_patterns.push("*.tmp".to_string());
    let mut ctx = context(config);
    ctx.root_device = Some(1);
    let mut other = facts(FileKind::Directory, 4096, 9);
    other.dev = 2;
    let e = ctx.begin_entry("/mnt/usb", b"usb".to_vec(), Ok(other));
    assert_eq!((e.entry_type, e.size, e.blocks), (EntryType::OtherFs, 0, 0));
    let e = ctx.begin_entry("/proc", b"proc".to_vec(), Ok(facts(FileKind::Directory, 4096, 10)));
    assert_eq!((e.entry_type, e.size, e.blocks), (EntryType::KernelFs, 0, 0));
    let e = ctx.begin_entry("/proc/1/status", b"status".to_vec(), Ok(facts(FileKind::File, 10, 11)));
    assert_eq!(e.entry_type, EntryType::KernelFs);
    let e = ctx.begin_entry("/processes", b"processes".to_vec(), Ok(facts(FileKind::File, 10, 12)));
    assert_eq!(e.entry_type, EntryType::File);
    let e = ctx.begin_entry("/a/b.tmp", b"b.tmp".to_vec(), Ok(facts(FileKind::File, 1000, 13)));
    assert_eq!((e.entry_type, e.size, e.blocks), (EntryType::Excluded, 0, 0));
    assert!(e.children.is_empty());
    let dir = ctx.begin_entry("/cache", b"cache".to_vec(), Ok(facts(FileKind::Directory, 4096, 14)));
    let dir = ctx.exclude_cached_directory(dir, true);
    assert_eq!((dir.entry_type, dir.size, dir.blocks), (EntryType::Excluded, 0, 0));
}

#[test]
fn hardlinked_files_are_counted_once() {
    let mut ctx = context(Config::default());
    let mut m = facts(FileKind::File, 100, 42);
    m.nlink = 2;
    let first = ctx.begin_entry("/h/one", b"one".to_vec(), Ok(m));
    let second = ctx.begin_entry("/h/two", b"two".to_vec(), Ok(m));
    assert_eq!(first.entry_type, EntryType::File);
    assert_eq!(second.entry_type, EntryType::Hardlink);
    let info = ctx.hardlinks.get(&rsdu::model::HardlinkKey::new(1, 42)).unwrap();
    assert_eq!(info.links_in_tree, 2);
    assert_eq!(info.first_entry, first.id);
}

#[test]
fn extended_metadata_is_kept_when_asked() {
    let mut config = Config::default();
    config.extended = true;
    let mut ctx = context(config);
    let e = ctx.begin_entry("/f", b"f".to_vec(), Ok(facts(FileKind::File, 1, 5)));
    let ext = e.extended.unwrap();
    assert_eq!(ext.mtime, Some(1_700_000_000));
    assert_eq!(ext.mode, Some(0o644));
    let mut ctx = context(Config::default());
    let e = ctx.begin_entry("/f", b"f".to_vec(), Ok(facts(FileKind::File, 1, 5)));
    assert!(e.extended.is_none());
}

#[test]
fn children_are_sorted_naturally_by_name_when_configured() {
    let mut config = Config::default();
    config.sort_col = ConfigSortColumn::Name;
    config.sort_order = ConfigSortOrder::Asc;
    let mut ctx = context(config);
    let root = scan_dir(
        &mut ctx,
        "/n",
        "n",
        vec![
            ("file10", Ok(facts(FileKind::File, 1, 2))),
            ("file2", Ok(facts(FileKind::File, 1, 3))),
            ("file1", Ok(facts(FileKind::File, 1, 4))),
        ],
    );
    let names: Vec<String> = root.children.iter().map(|c| c.name_str()).collect();
    assert_eq!(names, vec!["file1", "file2", "file10"]);
}

#[test]
fn mtime_order_puts_missing_times_first() {
    let mut a = Entry::new(1, EntryType::File, b"a".to_vec(), 0, 0, 1, 1, 1);
    let mut b = Entry::new(2, EntryType::File, b"b".to_vec(), 0, 0, 1, 2, 1);
    let c = Entry::new(3, EntryType::File, b"c".to_vec(), 0, 0, 1, 3, 1);
    let mut ea = rsdu::model::ExtendedInfo::new();
    ea.mtime = Some(20);
    a.extended = Some(ea);
    let mut eb = rsdu::model::ExtendedInfo::new();
    eb.mtime = Some(10);
    b.extended = Some(eb);
    let mut v = vec![a, b, c];
    let policy = SortPolicy {
        column: rsdu::model::SortColumn::Mtime,
        order: rsdu::model::SortOrder::Asc,
        dirs_first: false,
        natural: false,
    };
    sort_entries(&mut v, &policy);
    let ids: Vec<u64> = v.iter().map(|e| e.id).collect();
    assert_eq!(ids, vec![3, 2, 1]);
}

#[test]
fn test_scan_empty_directory() {
    let config = Config::default();
    let mut ctx = context(config);

    let root = ctx.begin_entry("/tmp/empty", b"empty".to_vec(), Ok(facts(FileKind::Directory, 4096, 1)));
    let result: Result<Entry, RsduError> = Ok(ctx.finish_directory(root, Ok(Vec::new())));
    assert!(result.is_ok());

    let entry = result.ok().unwrap();
    assert_eq!(entry.entry_type, EntryType::Directory);
    assert_eq!(entry.children.len(), 0);
}

#[test]
fn test_scan_directory_with_files() {
    let config = Config::default();
    let mut ctx = context(config);
    let result: Result<Entry, RsduError> = Ok(scan_dir(
        &mut ctx,
        "/tmp/files",
        "files",
        vec![
            ("file1.txt", Ok(facts(FileKind::File, 5, 2))),
            ("file2.txt", Ok(facts(FileKind::File, 5, 3))),
            ("subdir", Ok(facts(FileKind::Directory, 0, 4))),
        ],
    ));
    assert!(result.is_ok());

    let entry = result.ok().unwrap();
    assert_eq!(entry.entry_type, EntryType::Directory);
    assert_eq!(entry.children.len(), 3);
}
