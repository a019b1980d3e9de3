//! The decisions of a scan: how each filesystem object is classified,
//! measured and counted, which directory entries are visited, and how a
//! directory's children are attached. The walk itself, which reads the
//! filesystem, hands each object's metadata to these functions.
use vstd::prelude::*;
use vstd::string::StringExecFns;

use crate::config::{self, Config};
use crate::error::RsduError;
use crate::hardlink::{after_sighting, HardlinkMap};
use crate::model::{
    generate_entry_id, sat_add, Entry, EntryIdGenerator, EntryType, ExtendedInfo, HardlinkKey,
    ScanStats, SortColumn, SortOrder,
};
use crate::sorting::{is_sorted, sort_entries, SortPolicy};
use crate::text::chars_of;

verus! {

broadcast use vstd::seq_lib::group_to_multiset_ensures;

/// Name of the file that marks a directory as cache content.
pub const CACHEDIR_TAG: &'static str = "CACHEDIR.TAG";

/// Type of a filesystem object as its metadata reports it.
#[derive(Debug, Clone, Copy, PartialEq, Eq, Structural)]
pub enum FileKind {
    Directory,
    File,
    Symlink,
    BlockDevice,
    CharDevice,
    Fifo,
    Socket,
    Unknown,
}

/// The metadata of one filesystem object, as plain values.
#[derive(Debug, Clone, Copy, PartialEq, Eq, Structural)]
pub struct FileFacts {
    pub kind: FileKind,
    /// Apparent size in bytes
    pub len: u64,
    /// Disk usage in 512-byte blocks
    pub blocks: u64,
    pub dev: u64,
    pub ino: u64,
    pub nlink: u64,
    /// Modification time in seconds since the Unix epoch, if known
    pub mtime: Option<i64>,
    pub uid: u32,
    pub gid: u32,
    pub mode: u32,
}

/// Whether `pattern` is a valid glob pattern for `glob::Pattern::new`.
pub uninterp spec fn glob_valid(pattern: Seq<char>) -> bool;

/// Whether `glob::Pattern::matches` accepts `path` for the valid pattern `pattern`.
pub uninterp spec fn glob_match(pattern: Seq<char>, path: Seq<char>) -> bool;

#[verifier::external_type_specification]
#[verifier::external_body]
pub struct ExPatternError(glob::PatternError);

/// Relies on `glob::Pattern::new`: it compiles exactly the valid patterns.
#[verifier::external_body]
fn check_glob(pattern: &str) -> (r: core::result::Result<(), glob::PatternError>)
    ensures
        r is Ok <==> glob_valid(pattern@),
{
    glob::Pattern::new(pattern).map(|_| ())
}

/// Relies on the `Display` impl of `glob::PatternError`: its description.
#[verifier::external_body]
fn glob_error_text(e: &glob::PatternError) -> (r: String) {
    e.to_string()
}

/// Relies on `glob::Pattern::new` and `glob::Pattern::matches`: whether the
/// path matches the compiled pattern.
#[verifier::external_body]
fn glob_matches(pattern: &str, path: &str) -> (r: bool)
    requires
        glob_valid(pattern@),
    ensures
        r == glob_match(pattern@, path@),
{
    glob::Pattern::new(pattern).map(|p| p.matches(path)).unwrap_or(false)
}

/// Whether a path matches a glob pattern; an invalid pattern matches nothing.
pub fn matches_glob_pattern(path: &str, pattern: &str) -> (r: bool)
    ensures
        r == (glob_valid(pattern@) && glob_match(pattern@, path@)),
{
    match check_glob(pattern) {
        Ok(()) => glob_matches(pattern, path),
        Err(_) => false,
    }
}

/// The mount points of the kernel pseudo-filesystems.
pub open spec fn pseudo_fs_paths() -> Seq<Seq<char>> {
    seq![
        "/proc"@,
        "/sys"@,
        "/dev"@,
        "/run"@,
        "/tmp"@,
        "/var/run"@,
        "/var/lock"@,
        "/var/tmp"@,
    ]
}

fn pseudo_fs_path(i: usize) -> (r: &'static str)
    requires
        i < 8,
    ensures
        r@ == pseudo_fs_paths()[i as int],
{
    match i {
        0 => "/proc",
        1 => "/sys",
        2 => "/dev",
        3 => "/run",
        4 => "/tmp",
        5 => "/var/run",
        6 => "/var/lock",
        _ => "/var/tmp",
    }
}

/// `path` is `mount` or lies below it: a prefix ending on a path boundary.
pub open spec fn under_mount(path: Seq<char>, mount: Seq<char>) -> bool {
    &&& mount.len() <= path.len()
    &&& path.subrange(0, mount.len() as int) == mount
    &&& (path.len() == mount.len() || path[mount.len() as int] == '/')
}

pub open spec fn is_pseudo_fs_path(path: Seq<char>) -> bool {
    exists|i: int| 0 <= i < 8 && under_mount(path, #[trigger] pseudo_fs_paths()[i])
}

fn is_under_mount(path: &Vec<char>, mount: &str) -> (r: bool)
    ensures
        r == under_mount(path@, mount@),
{
    let m = chars_of(mount);
    if m.len() > path.len() {
        return false;
    }
    let mut i: usize = 0;
    while i < m.len()
        invariant
            m@ == mount@,
            m@.len() <= path@.len(),
            i <= m@.len(),
            forall|k: int| 0 <= k < i ==> path@[k] == m@[k],
        decreases m@.len() - i,
    {
        if path[i] != m[i] {
            assert(path@.subrange(0, m@.len() as int)[i as int] != m@[i as int]);
            return false;
        }
        i += 1;
    }
    assert(path@.subrange(0, m@.len() as int) =~= m@);
    path.len() == m.len() || path[m.len()] == '/'
}

/// The classification that an object's type gives it.
pub open spec fn natural_type(kind: FileKind) -> EntryType {
    match kind {
        FileKind::Directory => EntryType::Directory,
        FileKind::File => EntryType::File,
        FileKind::Symlink => EntryType::Symlink,
        FileKind::BlockDevice | FileKind::CharDevice | FileKind::Fifo | FileKind::Socket => EntryType::Special,
        FileKind::Unknown => EntryType::File,
    }
}

/// Classification by the object's type: devices, pipes and sockets are
/// special; an unknown type counts as a file.
pub fn get_entry_type(metadata: &FileFacts) -> (r: EntryType)
    ensures
        r == natural_type(metadata.kind),
{
    match metadata.kind {
        FileKind::Directory => EntryType::Directory,
        FileKind::File => EntryType::File,
        FileKind::Symlink => EntryType::Symlink,
        FileKind::BlockDevice | FileKind::CharDevice | FileKind::Fifo | FileKind::Socket => EntryType::Special,
        FileKind::Unknown => EntryType::File,
    }
}

/// The sort policy of a configuration.
pub open spec fn policy_of(c: Config) -> SortPolicy {
    SortPolicy {
        column: match c.sort_col {
            config::SortColumn::Name => SortColumn::Name,
            config::SortColumn::Blocks => SortColumn::Blocks,
            config::SortColumn::Size => SortColumn::Size,
            config::SortColumn::Items => SortColumn::Items,
            config::SortColumn::Mtime => SortColumn::Mtime,
        },
        order: match c.sort_order {
            config::SortOrder::Asc => SortOrder::Asc,
            config::SortOrder::Desc => SortOrder::Desc,
        },
        dirs_first: c.sort_dirs_first,
        natural: c.sort_natural,
    }
}

pub fn sort_policy(c: &Config) -> (r: SortPolicy)
    ensures
        r == policy_of(*c),
{
    SortPolicy {
        column: match c.sort_col {
            config::SortColumn::Name => SortColumn::Name,
            config::SortColumn::Blocks => SortColumn::Blocks,
            config::SortColumn::Size => SortColumn::Size,
            config::SortColumn::Items => SortColumn::Items,
            config::SortColumn::Mtime => SortColumn::Mtime,
        },
        order: match c.sort_order {
            config::SortOrder::Asc => SortOrder::Asc,
            config::SortOrder::Desc => SortOrder::Desc,
        },
        dirs_first: c.sort_dirs_first,
        natural: c.sort_natural,
    }
}

/// The state of one scan: its configuration, counters, hardlink registry
/// and id source.
pub struct ScanContext {
    pub config: Config,
    pub stats: ScanStats,
    pub hardlinks: HardlinkMap,
    pub ids: EntryIdGenerator,
    /// Device of the scan root, when the scan stays on one filesystem.
    pub root_device: Option<u64>,
}

pub open spec fn patterns_valid(c: Config) -> bool {
    forall|i: int| 0 <= i < c.exclude_patterns@.len() ==> glob_valid(#[trigger] c.exclude_patterns@[i]@)
}

impl ScanContext {
    pub open spec fn wf(&self) -> bool {
        &&& self.hardlinks.wf()
        &&& patterns_valid(self.config)
    }

    /// A context for a fresh scan. Fails with a configuration error when an
    /// exclude pattern is not a valid glob pattern.
    pub fn new(config: Config) -> (r: core::result::Result<ScanContext, RsduError>)
        ensures
            r is Ok <==> patterns_valid(config),
            r matches Ok(c) ==> {
                &&& c.wf()
                &&& c.config == config
                &&& c.stats == ScanStats::new_spec()
                &&& c.hardlinks@ == Map::<HardlinkKey, crate::model::HardlinkInfo>::empty()
                &&& c.ids.next == 1
                &&& c.root_device is None
            },
            r matches Err(e) ==> e is ConfigError,
    {
        let mut i: usize = 0;
        while i < config.exclude_patterns.len()
            invariant
                i <= config.exclude_patterns@.len(),
                forall|k: int| 0 <= k < i ==> glob_valid(#[trigger] config.exclude_patterns@[k]@),
            decreases config.exclude_patterns@.len() - i,
        {
            match check_glob(config.exclude_patterns[i].as_str()) {
                Ok(()) => {},
                Err(e) => {
                    let msg = <String as StringExecFns>::from_str("Invalid exclude pattern '").concat(
                        config.exclude_patterns[i].as_str(),
                    ).concat("': ").concat(glob_error_text(&e).as_str());
                    return Err(RsduError::ConfigError(msg));
                },
            }
            i += 1;
        }
        Ok(ScanContext {
            config,
            stats: ScanStats::new(),
            hardlinks: HardlinkMap::new(),
            ids: EntryIdGenerator::new(),
            root_device: None,
        })
    }

    pub open spec fn spec_excluded_by_pattern(&self, path: Seq<char>) -> bool {
        exists|i: int|
            0 <= i < self.config.exclude_patterns@.len() && glob_match(
                #[trigger] self.config.exclude_patterns@[i]@,
                path,
            )
    }

    /// Whether the path matches one of the exclude patterns.
    pub fn is_excluded_by_pattern(&self, path: &str) -> (r: bool)
        requires
            self.wf(),
        ensures
            r == self.spec_excluded_by_pattern(path@),
    {
        let mut i: usize = 0;
        while i < self.config.exclude_patterns.len()
            invariant
                self.wf(),
                i <= self.config.exclude_patterns@.len(),
                forall|k: int| 0 <= k < i ==> !glob_match(#[trigger] self.config.exclude_patterns@[k]@, path@),
            decreases self.config.exclude_patterns@.len() - i,
        {
            if glob_matches(self.config.exclude_patterns[i].as_str(), path) {
                return true;
            }
            i += 1;
        }
        false
    }

    pub open spec fn spec_different_filesystem(&self, device: u64) -> bool {
        self.config.same_fs && self.root_device is Some && device != self.root_device->Some_0
    }

    /// Whether a device lies outside the filesystem of the root, when the
    /// scan stays on one filesystem.
    pub fn is_different_filesystem(&self, device: u64) -> (r: bool)
        ensures
            r == self.spec_different_filesystem(device),
    {
        if !self.config.same_fs {
            return false;
        }
        match self.root_device {
            Some(root) => device != root,
            None => false,
        }
    }

    pub open spec fn spec_kernel_filesystem(&self, path: Seq<char>) -> bool {
        self.config.exclude_kernfs && is_pseudo_fs_path(path)
    }

    /// Whether a path lies at or below a kernel pseudo-filesystem mount
    /// point, when those are excluded.
    pub fn is_kernel_filesystem(&self, path: &str) -> (r: bool)
        ensures
            r == self.spec_kernel_filesystem(path@),
    {
        if !self.config.exclude_kernfs {
            return false;
        }
        let p = chars_of(path);
        let mut i: usize = 0;
        while i < 8
            invariant
                self.config.exclude_kernfs,
                p@ == path@,
                i <= 8,
                forall|k: int| 0 <= k < i ==> !under_mount(path@, #[trigger] pseudo_fs_paths()[k]),
            decreases 8 - i,
        {
            let mount = pseudo_fs_path(i);
            if is_under_mount(&p, mount) {
                assert(under_mount(path@, pseudo_fs_paths()[i as int]));
                assert(is_pseudo_fs_path(path@));
                return true;
            }
            i += 1;
        }
        false
    }

    /// Whether a directory entry with this name is visited: never `.` or
    /// `..`, and names that start with a dot only when hidden files are shown.
    pub fn should_include_entry(&self, name: &[u8]) -> (r: bool)
        ensures
            r == !(name@ == seq![46u8] || name@ == seq![46u8, 46u8] || (!self.config.show_hidden
                && name@.len() > 0 && name@[0] == 46u8)),
    {
        if !self.config.show_hidden && name.len() > 0 && name[0] == 46u8 {
            return false;
        }
        if name.len() == 1 && name[0] == 46u8 {
            assert(name@ =~= seq![46u8]);
            return false;
        }
        if name.len() == 2 && name[0] == 46u8 && name[1] == 46u8 {
            assert(name@ =~= seq![46u8, 46u8]);
            return false;
        }
        true
    }
}

/// Whether the object's inode goes through the hardlink registry: a file
/// with more than one link.
pub open spec fn tracks_hardlink(m: FileFacts) -> bool {
    m.nlink > 1 && natural_type(m.kind) is File
}

pub open spec fn hardlink_key_of(m: FileFacts) -> HardlinkKey {
    HardlinkKey { device: m.dev as u32, inode: m.ino }
}

pub open spec fn extended_of(m: FileFacts) -> ExtendedInfo {
    ExtendedInfo { mtime: m.mtime, uid: Some(m.uid), gid: Some(m.gid), mode: Some(m.mode) }
}

/// The counters after an object has been classified and measured.
pub open spec fn counted(s: ScanStats, m: FileFacts) -> ScanStats {
    let s1 = ScanStats {
        total_entries: sat_add(s.total_entries, 1),
        total_size: sat_add(s.total_size, m.len),
        total_blocks: sat_add(s.total_blocks, m.blocks),
        ..s
    };
    if natural_type(m.kind) is Directory {
        ScanStats { directories: sat_add(s1.directories, 1), ..s1 }
    } else {
        ScanStats { files: sat_add(s1.files, 1), ..s1 }
    }
}

pub open spec fn with_error(s: ScanStats) -> ScanStats {
    ScanStats { errors: sat_add(s.errors, 1), ..s }
}

/// A child entry that records its parent.
pub open spec fn adopted(e: Entry, parent: u64) -> Entry {
    Entry { parent: Some(parent), ..e }
}

/// Each entry of a sequence, recording `parent` as its parent.
pub open spec fn adopt_all(s: Seq<Entry>, parent: u64) -> Seq<Entry> {
    s.map_values(|c: Entry| adopted(c, parent))
}

/// The children, each recording `parent` as its parent, in some order.
fn adopt_children(children: Vec<Entry>, parent: u64) -> (r: Vec<Entry>)
    ensures
        r@.to_multiset() == adopt_all(children@, parent).to_multiset(),
{
    let ghost orig = children@;
    let mut rest = children;
    let mut kids: Vec<Entry> = Vec::new();
    proof {
        assert(kids@ =~= Seq::<Entry>::empty());
        assert(kids@.to_multiset() =~= vstd::multiset::Multiset::empty());
        assert(rest@ == orig);
        assert(kids@.to_multiset().add(adopt_all(rest@, parent).to_multiset()) =~= adopt_all(orig, parent).to_multiset());
    }
    while rest.len() > 0
        invariant
            kids@.to_multiset().add(adopt_all(rest@, parent).to_multiset()) == adopt_all(orig, parent).to_multiset(),
        decreases rest@.len(),
    {
        let ghost before = rest@;
        let mut c = rest.pop().unwrap();
        let ghost old_kids = kids@;
        proof {
            assert(before =~= rest@.push(c));
            assert(adopt_all(before, parent) =~= adopt_all(rest@, parent).push(adopted(c, parent)));
            vstd::seq_lib::to_multiset_build(adopt_all(rest@, parent), adopted(c, parent));
        }
        c.parent = Some(parent);
        kids.push(c);
        proof {
            assert(kids@ == old_kids.push(c));
            vstd::seq_lib::to_multiset_build(old_kids, c);
            assert(kids@.to_multiset().add(adopt_all(rest@, parent).to_multiset()) =~= adopt_all(orig, parent).to_multiset());
        }
    }
    proof {
        assert(adopt_all(rest@, parent) =~= Seq::<Entry>::empty());
        assert(kids@.to_multiset() =~= adopt_all(orig, parent).to_multiset());
    }
    kids
}

impl ScanContext {
    /// The zero-weight classification that filtering gives an object, if any.
    pub open spec fn placeholder(&self, path: Seq<char>, m: FileFacts) -> Option<EntryType> {
        if self.spec_different_filesystem(m.dev) {
            Some(EntryType::OtherFs)
        } else if self.spec_kernel_filesystem(path) {
            Some(EntryType::KernelFs)
        } else if self.spec_excluded_by_pattern(path) {
            Some(EntryType::Excluded)
        } else {
            None
        }
    }

    /// Classifies and measures one object from its metadata, or from the
    /// failure to read it, and counts it. The entry has no children yet.
    pub fn begin_entry(&mut self, path: &str, name: Vec<u8>, metadata: core::result::Result<FileFacts, String>) -> (r: Entry)
        requires
            old(self).wf(),
        ensures
            final(self).wf(),
            final(self).config == old(self).config,
            final(self).root_device == old(self).root_device,
            final(self).ids.next == sat_add(old(self).ids.next, 1),
            r.id == old(self).ids.next,
            r.name@ == name@,
            r.children@.len() == 0,
            r.parent is None,
            r.entry_type.is_placeholder() ==> r.size == 0 && r.blocks == 0,
            metadata matches Err(msg) ==> {
                &&& r.entry_type is Error
                &&& r.size == 0 && r.blocks == 0
                &&& r.error matches Some(t) && t@ == "Cannot read metadata: "@ + msg@
                &&& final(self).stats == with_error(old(self).stats)
                &&& final(self).hardlinks@ == old(self).hardlinks@
            },
            metadata matches Ok(m) ==> {
                &&& r.device == m.dev as u32
                &&& r.inode == m.ino
                &&& r.nlink == m.nlink as u32
                &&& r.error is None
                &&& old(self).placeholder(path@, m) matches Some(t) ==> {
                    &&& r.entry_type == t
                    &&& r.size == 0 && r.blocks == 0
                    &&& r.extended is None
                    &&& final(self).stats == old(self).stats
                    &&& final(self).hardlinks@ == old(self).hardlinks@
                }
                &&& old(self).placeholder(path@, m) is None ==> {
                    &&& r.size == m.len && r.blocks == m.blocks
                    &&& final(self).stats == counted(old(self).stats, m)
                    &&& r.extended == (if old(self).config.extended { Some(extended_of(m)) } else { None::<ExtendedInfo> })
                    &&& tracks_hardlink(m) ==> {
                        &&& final(self).hardlinks@ == after_sighting(
                            old(self).hardlinks@,
                            hardlink_key_of(m),
                            m.nlink as u32,
                            m.len,
                            m.blocks,
                            r.id,
                        )
                        &&& r.entry_type == (if old(self).hardlinks@.contains_key(hardlink_key_of(m)) {
                            EntryType::Hardlink
                        } else {
                            EntryType::File
                        })
                    }
                    &&& !tracks_hardlink(m) ==> {
                        &&& final(self).hardlinks@ == old(self).hardlinks@
                        &&& r.entry_type == natural_type(m.kind)
                    }
                }
            },
    {
        let id = generate_entry_id(&mut self.ids);
        let m = match metadata {
            Ok(m) => m,
            Err(msg) => {
                self.stats.increment_errors();
                let text = <String as StringExecFns>::from_str("Cannot read metadata: ").concat(msg.as_str());
                return Entry::error(id, name, text);
            },
        };
        let device = m.dev as u32;
        let nlink = m.nlink as u32;
        if self.is_different_filesystem(m.dev) {
            return Entry::new(id, EntryType::OtherFs, name, 0, 0, device, m.ino, nlink);
        }
        if self.is_kernel_filesystem(path) {
            return Entry::new(id, EntryType::KernelFs, name, 0, 0, device, m.ino, nlink);
        }
        if self.is_excluded_by_pattern(path) {
            return Entry::new(id, EntryType::Excluded, name, 0, 0, device, m.ino, nlink);
        }
        let file_type = get_entry_type(&m);
        self.stats.increment_entries();
        self.stats.add_size(m.len);
        self.stats.add_blocks(m.blocks);
        let mut entry = Entry::new(id, file_type, name, m.len, m.blocks, device, m.ino, nlink);
        if m.nlink > 1 && file_type == EntryType::File {
            let key = HardlinkKey::new(device, m.ino);
            let first = self.hardlinks.resolve(key, nlink, m.len, m.blocks, id);
            if !first {
                entry.entry_type = EntryType::Hardlink;
            }
        }
        if self.config.extended {
            entry.extended = Some(ExtendedInfo {
                mtime: m.mtime,
                uid: Some(m.uid),
                gid: Some(m.gid),
                mode: Some(m.mode),
            });
        }
        if file_type == EntryType::Directory {
            self.stats.increment_directories();
        } else {
            self.stats.increment_files();
        }
        entry
    }

    /// A directory that holds the cache marker file is excluded whole when
    /// cache directories are excluded: it becomes a zero-weight placeholder.
    pub fn exclude_cached_directory(&self, entry: Entry, has_cachedir_tag: bool) -> (r: Entry)
        ensures
            self.config.exclude_caches && has_cachedir_tag ==> r == (Entry {
                entry_type: EntryType::Excluded,
                size: 0,
                blocks: 0,
                ..entry
            }),
            !(self.config.exclude_caches && has_cachedir_tag) ==> r == entry,
    {
        if self.config.exclude_caches && has_cachedir_tag {
            let mut entry = entry;
            entry.entry_type = EntryType::Excluded;
            entry.size = 0;
            entry.blocks = 0;
            entry
        } else {
            entry
        }
    }

    /// Completes a directory with the outcome of listing and scanning its
    /// contents. On success the children are attached, each recording the
    /// directory as its parent, in the configured sort order. On failure the
    /// directory becomes an `Error` entry with no size and no children, and
    /// the error is counted.
    pub fn finish_directory(&mut self, entry: Entry, listing: core::result::Result<Vec<Entry>, String>) -> (r: Entry)
        requires
            old(self).wf(),
        ensures
            final(self).wf(),
            final(self).config == old(self).config,
            final(self).root_device == old(self).root_device,
            final(self).ids == old(self).ids,
            final(self).hardlinks@ == old(self).hardlinks@,
            r.id == entry.id && r.name == entry.name && r.device == entry.device
                && r.inode == entry.inode && r.nlink == entry.nlink && r.parent == entry.parent
                && r.extended == entry.extended,
            listing matches Ok(children) ==> {
                &&& final(self).stats == old(self).stats
                &&& r.entry_type == entry.entry_type && r.size == entry.size && r.blocks == entry.blocks
                &&& r.error == entry.error
                &&& r.children@.to_multiset() == adopt_all(children@, entry.id).to_multiset()
                &&& is_sorted(r.children@, policy_of(old(self).config))
            },
            listing matches Err(msg) ==> {
                &&& final(self).stats == with_error(old(self).stats)
                &&& r.entry_type is Error
                &&& r.size == 0 && r.blocks == 0
                &&& r.error matches Some(t) && t@ == "Error scanning directory: "@ + msg@
                &&& r.children@.len() == 0
            },
    {
        let mut entry = entry;
        match listing {
            Ok(children) => {
                let mut kids = adopt_children(children, entry.id);
                let policy = sort_policy(&self.config);
                sort_entries(&mut kids, &policy);
                entry.children = kids;
                entry
            },
            Err(msg) => {
                self.stats.increment_errors();
                entry.error = Some(<String as StringExecFns>::from_str("Error scanning directory: ").concat(msg.as_str()));
                entry.entry_type = EntryType::Error;
                entry.size = 0;
                entry.blocks = 0;
                entry.children = Vec::new();
                entry
            },
        }
    }
}

} // verus!
