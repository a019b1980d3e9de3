//! The entry tree: one node per filesystem object, with its classification,
//! metrics, optional extended metadata and owned children.
use vstd::prelude::*;

use crate::hardlink::HardlinkMap;
use crate::text::{bytes_to_text, lossy_text, text_bytes};
use vstd::utf8::{decode_utf8, encode_utf8, valid_utf8};

verus! {

/// Unique identifier of an entry.
pub type EntryId = u64;

/// Device identifier.
pub type DeviceId = u32;

/// Inode number.
pub type InodeId = u64;

/// Size in bytes of one disk-usage block unit.
pub const BLOCK_SIZE: u64 = 512;

/// Classification of one filesystem object.
#[derive(Debug, Clone, Copy, PartialEq, Eq, Structural)]
pub enum EntryType {
    /// Regular directory
    Directory,
    /// Regular file
    File,
    /// Symbolic link
    Symlink,
    /// A file whose inode has already been counted elsewhere in the tree
    Hardlink,
    /// Device, pipe, socket
    Special,
    /// The object could not be read
    Error,
    /// Excluded by a pattern or as a cache directory
    Excluded,
    /// On another filesystem than the scan root
    OtherFs,
    /// Below a kernel pseudo-filesystem mount point
    KernelFs,
}

impl EntryType {
    pub open spec fn spec_is_directory(self) -> bool {
        self is Directory || self is OtherFs || self is KernelFs
    }

    pub open spec fn spec_is_countable(self) -> bool {
        !(self is Error || self is Excluded)
    }

    /// Zero-weight placeholder classifications.
    pub open spec fn is_placeholder(self) -> bool {
        self is Excluded || self is OtherFs || self is KernelFs
    }

    /// Whether this entry type represents a directory-like object.
    pub fn is_directory(&self) -> (r: bool)
        ensures
            r == self.spec_is_directory(),
    {
        matches!(self, EntryType::Directory | EntryType::OtherFs | EntryType::KernelFs)
    }

    /// Whether this entry should be counted in statistics.
    pub fn is_countable(&self) -> (r: bool)
        ensures
            r == self.spec_is_countable(),
    {
        !matches!(self, EntryType::Error | EntryType::Excluded)
    }

    /// The four-letter label of the classification.
    pub fn label(&self) -> (r: &'static str)
        ensures
            r@ == self.spec_label(),
    {
        match self {
            EntryType::Directory => "DIR",
            EntryType::File => "FILE",
            EntryType::Symlink => "LINK",
            EntryType::Hardlink => "HARD",
            EntryType::Special => "SPEC",
            EntryType::Error => "ERR",
            EntryType::Excluded => "EXCL",
            EntryType::OtherFs => "OTFS",
            EntryType::KernelFs => "KERN",
        }
    }

    pub open spec fn spec_label(self) -> Seq<char> {
        match self {
            EntryType::Directory => "DIR"@,
            EntryType::File => "FILE"@,
            EntryType::Symlink => "LINK"@,
            EntryType::Hardlink => "HARD"@,
            EntryType::Special => "SPEC"@,
            EntryType::Error => "ERR"@,
            EntryType::Excluded => "EXCL"@,
            EntryType::OtherFs => "OTFS"@,
            EntryType::KernelFs => "KERN"@,
        }
    }
}

/// Extended metadata, collected only in extended mode.
/// The modification time is in whole seconds since the Unix epoch.
#[derive(Debug, Clone, Copy, PartialEq, Eq, Structural)]
pub struct ExtendedInfo {
    pub mtime: Option<i64>,
    pub uid: Option<u32>,
    pub gid: Option<u32>,
    pub mode: Option<u32>,
}

impl ExtendedInfo {
    pub fn new() -> (r: Self)
        ensures
            r.mtime is None && r.uid is None && r.gid is None && r.mode is None,
    {
        ExtendedInfo { mtime: None, uid: None, gid: None, mode: None }
    }

    pub fn is_empty(&self) -> (r: bool)
        ensures
            r == (self.mtime is None && self.uid is None && self.gid is None && self.mode is None),
    {
        self.mtime.is_none() && self.uid.is_none() && self.gid.is_none() && self.mode.is_none()
    }
}

impl Default for ExtendedInfo {
    fn default() -> (r: Self)
        ensures
            r.mtime is None && r.uid is None && r.gid is None && r.mode is None,
    {
        Self::new()
    }
}

/// One filesystem object and the subtree it owns.
#[derive(Debug)]
pub struct Entry {
    pub id: EntryId,
    pub entry_type: EntryType,
    /// Base name, as raw bytes.
    pub name: Vec<u8>,
    /// Apparent size in bytes.
    pub size: u64,
    /// Disk usage in 512-byte blocks.
    pub blocks: u64,
    pub device: DeviceId,
    pub inode: InodeId,
    pub nlink: u32,
    pub extended: Option<ExtendedInfo>,
    /// Reason of the failure, for an `Error` entry.
    pub error: Option<String>,
    pub children: Vec<Entry>,
    /// Id of the parent entry: a lookup relation, never ownership.
    pub parent: Option<EntryId>,
}

/// The quantity that an aggregate sums over a subtree.
#[derive(Debug, Clone, Copy, PartialEq, Eq, Structural)]
pub enum Metric {
    /// Apparent size in bytes
    Size,
    /// Disk usage in blocks
    Blocks,
    /// Number of entries
    Items,
    /// Apparent size of the entries whose inode also has links outside the tree
    SharedSize,
    /// Disk usage of the entries whose inode also has links outside the tree
    SharedBlocks,
}

/// Whether the inode of `e` is a hard link with links outside the scanned tree,
/// according to the final state of the hardlink registry.
pub open spec fn is_shared(e: Entry, links: Map<HardlinkKey, HardlinkInfo>) -> bool {
    let k = HardlinkKey { device: e.device, inode: e.inode };
    &&& e.nlink > 1
    &&& links.contains_key(k)
    &&& links[k].total_links > links[k].links_in_tree
}

/// What one entry contributes to an aggregate of its subtree.
pub open spec fn own_metric(e: Entry, m: Metric, links: Map<HardlinkKey, HardlinkInfo>) -> nat {
    match m {
        Metric::Size => e.size as nat,
        Metric::Blocks => e.blocks as nat,
        Metric::Items => 1,
        Metric::SharedSize => if is_shared(e, links) { e.size as nat } else { 0 },
        Metric::SharedBlocks => if is_shared(e, links) { e.blocks as nat } else { 0 },
    }
}

/// The aggregate of `m` over the subtree rooted at `e`.
pub open spec fn aggregate(e: Entry, m: Metric, links: Map<HardlinkKey, HardlinkInfo>) -> nat
    decreases e, 1nat,
{
    own_metric(e, m, links) + aggregate_seq(e.children@, m, links)
}

/// The sum of the aggregates of a sequence of sibling subtrees.
pub open spec fn aggregate_seq(s: Seq<Entry>, m: Metric, links: Map<HardlinkKey, HardlinkInfo>) -> nat
    decreases s, 0nat,
{
    if s.len() == 0 {
        0
    } else {
        aggregate_seq(s.drop_last(), m, links) + aggregate(s.last(), m, links)
    }
}

/// An aggregate that does not depend on the hardlink registry.
pub open spec fn total(e: Entry, m: Metric) -> nat {
    aggregate(e, m, Map::empty())
}

/// A count, or the largest `u64` if it does not fit.
pub open spec fn capped(n: nat) -> u64 {
    if n > u64::MAX { u64::MAX } else { n as u64 }
}

/// Stepping a prefix of siblings by one.
pub proof fn lemma_aggregate_prefix(s: Seq<Entry>, i: int, m: Metric, links: Map<HardlinkKey, HardlinkInfo>)
    requires
        0 <= i < s.len(),
    ensures
        aggregate_seq(s.subrange(0, i + 1), m, links) == aggregate_seq(s.subrange(0, i), m, links)
            + aggregate(s[i], m, links),
{
    assert(s.subrange(0, i + 1).drop_last() =~= s.subrange(0, i));
}

/// Aggregate correctness: the total of an entry is its own size (or blocks,
/// or one item) plus the totals of its children; a leaf counts one item.
pub proof fn lemma_total_is_own_plus_children(e: Entry, m: Metric)
    requires
        m is Size || m is Blocks || m is Items,
    ensures
        total(e, m) == own_metric(e, m, Map::empty()) + aggregate_seq(e.children@, m, Map::empty()),
        m is Size ==> total(e, m) == e.size + aggregate_seq(e.children@, m, Map::empty()),
        m is Blocks ==> total(e, m) == e.blocks + aggregate_seq(e.children@, m, Map::empty()),
        m is Items ==> total(e, m) == 1 + aggregate_seq(e.children@, m, Map::empty()),
        e.children@.len() == 0 ==> total(e, Metric::Items) == 1,
{
}

/// The aggregate of a sequence of siblings is the sum of their aggregates:
/// adding one more sibling adds its aggregate.
pub proof fn lemma_aggregate_seq_push(s: Seq<Entry>, e: Entry, m: Metric, links: Map<HardlinkKey, HardlinkInfo>)
    ensures
        aggregate_seq(s.push(e), m, links) == aggregate_seq(s, m, links) + aggregate(e, m, links),
{
    assert(s.push(e).drop_last() =~= s);
}

/// Shared aggregates never exceed the plain ones.
pub proof fn lemma_shared_le_total(e: Entry, links: Map<HardlinkKey, HardlinkInfo>)
    ensures
        aggregate(e, Metric::SharedSize, links) <= total(e, Metric::Size),
        aggregate(e, Metric::SharedBlocks, links) <= total(e, Metric::Blocks),
    decreases e, 1nat,
{
    lemma_shared_le_total_seq(e.children@, links);
}

proof fn lemma_shared_le_total_seq(s: Seq<Entry>, links: Map<HardlinkKey, HardlinkInfo>)
    ensures
        aggregate_seq(s, Metric::SharedSize, links) <= aggregate_seq(s, Metric::Size, Map::empty()),
        aggregate_seq(s, Metric::SharedBlocks, links) <= aggregate_seq(s, Metric::Blocks, Map::empty()),
    decreases s, 0nat,
{
    if s.len() > 0 {
        lemma_shared_le_total_seq(s.drop_last(), links);
        lemma_shared_le_total(s.last(), links);
    }
}

/// Whether some entry strictly below `e` is classified `Error`.
pub open spec fn has_error_below(e: Entry) -> bool
    decreases e, 1nat,
{
    error_in_seq(e.children@)
}

pub open spec fn error_in_seq(s: Seq<Entry>) -> bool
    decreases s, 0nat,
{
    s.len() > 0 && (error_in_seq(s.drop_last()) || s.last().entry_type is Error || has_error_below(
        s.last(),
    ))
}

impl Entry {
    /// A fresh entry with no extended information, no error and no children.
    pub fn new(
        id: EntryId,
        entry_type: EntryType,
        name: Vec<u8>,
        size: u64,
        blocks: u64,
        device: DeviceId,
        inode: InodeId,
        nlink: u32,
    ) -> (r: Self)
        ensures
            r.id == id,
            r.entry_type == entry_type,
            r.name@ == name@,
            r.size == size,
            r.blocks == blocks,
            r.device == device,
            r.inode == inode,
            r.nlink == nlink,
            r.extended is None,
            r.error is None,
            r.children@.len() == 0,
            r.parent is None,
    {
        Entry {
            id,
            entry_type,
            name,
            size,
            blocks,
            device,
            inode,
            nlink,
            extended: None,
            error: None,
            children: Vec::new(),
            parent: None,
        }
    }

    /// An `Error` entry: zero size and blocks, and the reason of the failure.
    pub fn error(id: EntryId, name: Vec<u8>, error: String) -> (r: Self)
        ensures
            r.id == id,
            r.entry_type == EntryType::Error,
            r.name@ == name@,
            r.size == 0 && r.blocks == 0,
            r.device == 0 && r.inode == 0 && r.nlink == 0,
            r.extended is None,
            r.error == Some(error),
            r.children@.len() == 0,
            r.parent is None,
    {
        Entry {
            id,
            entry_type: EntryType::Error,
            name,
            size: 0,
            blocks: 0,
            device: 0,
            inode: 0,
            nlink: 0,
            extended: None,
            error: Some(error),
            children: Vec::new(),
            parent: None,
        }
    }

    /// The name as text; bytes that are not valid UTF-8 are replaced.
    pub fn name_str(&self) -> (r: String)
        ensures
            r@ == lossy_text(self.name@),
            vstd::utf8::valid_utf8(self.name@) ==> r@ == vstd::utf8::decode_utf8(self.name@),
    {
        bytes_to_text(self.name.as_slice())
    }

    pub fn has_error(&self) -> (r: bool)
        ensures
            r == (self.entry_type is Error),
    {
        self.entry_type == EntryType::Error
    }

    /// Whether some entry strictly below this one is classified `Error`.
    pub fn has_sub_error(&self) -> (r: bool)
        ensures
            r == has_error_below(*self),
        decreases self,
    {
        let mut i: usize = 0;
        while i < self.children.len()
            invariant
                i <= self.children@.len(),
                !error_in_seq(self.children@.subrange(0, i as int)),
            decreases self.children@.len() - i,
        {
            assert(self.children@.subrange(0, i + 1).drop_last() =~= self.children@.subrange(0, i as int));
            let child = &self.children[i];
            if child.has_error() || child.has_sub_error() {
                proof {
                    lemma_error_in_prefix(self.children@, i as int + 1);
                }
                return true;
            }
            i += 1;
        }
        assert(self.children@.subrange(0, i as int) =~= self.children@);
        false
    }

    /// Appends a child, which records this entry as its parent.
    pub fn add_child(&mut self, child: Entry)
        ensures
            final(self).children@.len() == old(self).children@.len() + 1,
            final(self).children@.drop_last() == old(self).children@,
            ({
                let c = final(self).children@.last();
                &&& c.parent == Some(old(self).id)
                &&& c.id == child.id && c.entry_type == child.entry_type && c.name == child.name
                &&& c.size == child.size && c.blocks == child.blocks && c.device == child.device
                &&& c.inode == child.inode && c.nlink == child.nlink && c.extended == child.extended
                &&& c.error == child.error && c.children == child.children
            }),
            final(self).id == old(self).id,
            final(self).entry_type == old(self).entry_type,
            final(self).name == old(self).name,
            final(self).size == old(self).size,
            final(self).blocks == old(self).blocks,
            final(self).device == old(self).device,
            final(self).inode == old(self).inode,
            final(self).nlink == old(self).nlink,
            final(self).extended == old(self).extended,
            final(self).error == old(self).error,
            final(self).parent == old(self).parent,
    {
        let mut child = child;
        child.parent = Some(self.id);
        self.children.push(child);
        assert(self.children@.drop_last() =~= old(self).children@);
    }

    /// The aggregate of `m` over this subtree, capped at the largest `u64`.
    fn aggregate_of(&self, m: Metric, links: &HardlinkMap) -> (r: u64)
        requires
            links.wf(),
        ensures
            r == capped(aggregate(*self, m, links@)),
        decreases self,
    {
        let own: u64 = match m {
            Metric::Size => self.size,
            Metric::Blocks => self.blocks,
            Metric::Items => 1,
            Metric::SharedSize | Metric::SharedBlocks => {
                let mut shared = false;
                if self.nlink > 1 {
                    let key = HardlinkKey::new(self.device, self.inode);
                    match links.get(&key) {
                        Some(info) => {
                            shared = info.total_links > info.links_in_tree;
                        },
                        None => {},
                    }
                }
                if !shared {
                    0
                } else if m == Metric::SharedSize {
                    self.size
                } else {
                    self.blocks
                }
            },
        };
        let mut sum: u64 = own;
        let mut i: usize = 0;
        while i < self.children.len()
            invariant
                links.wf(),
                i <= self.children@.len(),
                own == own_metric(*self, m, links@),
                sum == capped((own + aggregate_seq(self.children@.subrange(0, i as int), m, links@)) as nat),
            decreases self.children@.len() - i,
        {
            proof {
                lemma_aggregate_prefix(self.children@, i as int, m, links@);
            }
            let t = self.children[i].aggregate_of(m, links);
            if sum > u64::MAX - t {
                sum = u64::MAX;
            } else {
                sum = sum + t;
            }
            i += 1;
        }
        assert(self.children@.subrange(0, i as int) =~= self.children@);
        sum
    }

    /// Apparent size of the whole subtree (capped at the largest `u64`).
    pub fn total_size(&self) -> (r: u64)
        ensures
            r == capped(total(*self, Metric::Size)),
    {
        let none = HardlinkMap::new();
        self.aggregate_of(Metric::Size, &none)
    }

    /// Disk usage, in blocks, of the whole subtree (capped at the largest `u64`).
    pub fn total_blocks(&self) -> (r: u64)
        ensures
            r == capped(total(*self, Metric::Blocks)),
    {
        let none = HardlinkMap::new();
        self.aggregate_of(Metric::Blocks, &none)
    }

    /// Number of entries in the whole subtree, this one included (capped at
    /// the largest `u64`).
    pub fn total_items(&self) -> (r: u64)
        ensures
            r == capped(total(*self, Metric::Items)),
    {
        let none = HardlinkMap::new();
        self.aggregate_of(Metric::Items, &none)
    }

    /// Apparent size of the entries of this subtree whose inode has links
    /// outside the scanned tree (capped at the largest `u64`).
    pub fn shared_size(&self, hardlink_map: &HardlinkMap) -> (r: u64)
        requires
            hardlink_map.wf(),
        ensures
            r == capped(aggregate(*self, Metric::SharedSize, hardlink_map@)),
    {
        self.aggregate_of(Metric::SharedSize, hardlink_map)
    }

    /// Disk usage of the entries of this subtree whose inode has links
    /// outside the scanned tree (capped at the largest `u64`).
    pub fn shared_blocks(&self, hardlink_map: &HardlinkMap) -> (r: u64)
        requires
            hardlink_map.wf(),
        ensures
            r == capped(aggregate(*self, Metric::SharedBlocks, hardlink_map@)),
    {
        self.aggregate_of(Metric::SharedBlocks, hardlink_map)
    }

    /// Orders the children by a column, without natural name order.
    pub fn sort_children(&mut self, sort_col: SortColumn, sort_order: SortOrder, dirs_first: bool)
        ensures
            final(self).children@.to_multiset() == old(self).children@.to_multiset(),
            crate::sorting::is_sorted(
                final(self).children@,
                crate::sorting::SortPolicy { column: sort_col, order: sort_order, dirs_first, natural: false },
            ),
            final(self).id == old(self).id && final(self).entry_type == old(self).entry_type
                && final(self).name == old(self).name && final(self).size == old(self).size
                && final(self).blocks == old(self).blocks && final(self).device == old(self).device
                && final(self).inode == old(self).inode && final(self).nlink == old(self).nlink
                && final(self).extended == old(self).extended && final(self).error == old(self).error
                && final(self).parent == old(self).parent,
    {
        let policy = crate::sorting::SortPolicy { column: sort_col, order: sort_order, dirs_first, natural: false };
        crate::sorting::sort_entries(&mut self.children, &policy);
    }
}

proof fn lemma_error_in_prefix(s: Seq<Entry>, i: int)
    requires
        0 < i <= s.len(),
        s[i - 1].entry_type is Error || has_error_below(s[i - 1]),
    ensures
        error_in_seq(s),
    decreases s.len() - i,
{
    if i == s.len() {
    } else {
        lemma_error_in_prefix(s.drop_last(), i);
    }
}

/// Sorting criteria.
#[derive(Debug, Clone, Copy, PartialEq, Eq, Structural)]
pub enum SortColumn {
    Name,
    Size,
    Blocks,
    Items,
    Mtime,
}

/// Direction of a sort.
#[derive(Debug, Clone, Copy, PartialEq, Eq, Structural)]
pub enum SortOrder {
    Asc,
    Desc,
}

/// Identity of an on-disk object for hardlink purposes.
#[derive(Debug, Clone, Copy, PartialEq, Eq, Hash, Structural)]
pub struct HardlinkKey {
    pub device: DeviceId,
    pub inode: InodeId,
}

impl HardlinkKey {
    pub fn new(device: DeviceId, inode: InodeId) -> (r: Self)
        ensures
            r.device == device && r.inode == inode,
    {
        HardlinkKey { device, inode }
    }
}

/// Tracking state of one hardlinked inode.
#[derive(Debug, Clone, Copy, PartialEq, Eq, Structural)]
pub struct HardlinkInfo {
    /// Number of links that the filesystem reports for the inode
    pub total_links: u32,
    /// Number of links seen so far in the scanned tree
    pub links_in_tree: u32,
    pub size: u64,
    pub blocks: u64,
    /// Id of the first entry seen with this inode
    pub first_entry: EntryId,
}

/// Plain-value projection of an entry for export and import: the name is text.
#[derive(Debug)]
pub struct SerializableEntry {
    pub id: EntryId,
    pub entry_type: EntryType,
    pub name: String,
    pub size: u64,
    pub blocks: u64,
    pub device: DeviceId,
    pub inode: InodeId,
    pub nlink: u32,
    pub extended: Option<ExtendedInfo>,
    pub error: Option<String>,
    pub children: Vec<SerializableEntry>,
}

/// `s` is the export projection of `e`, node for node.
pub open spec fn is_projection(e: Entry, s: SerializableEntry) -> bool
    decreases e,
{
    &&& s.id == e.id
    &&& s.entry_type == e.entry_type
    &&& s.name@ == lossy_text(e.name@)
    &&& (valid_utf8(e.name@) ==> s.name@ == decode_utf8(e.name@))
    &&& s.size == e.size
    &&& s.blocks == e.blocks
    &&& s.device == e.device
    &&& s.inode == e.inode
    &&& s.nlink == e.nlink
    &&& s.extended == e.extended
    &&& s.error == e.error
    &&& s.children@.len() == e.children@.len()
    &&& forall|i: int|
        0 <= i < e.children@.len() ==> is_projection(#[trigger] e.children@[i], s.children@[i])
}

/// `e` is the tree imported from the projection `s`, node for node; each child
/// records its parent.
pub open spec fn is_import(s: SerializableEntry, e: Entry) -> bool
    decreases s,
{
    &&& e.id == s.id
    &&& e.entry_type == s.entry_type
    &&& e.name@ == encode_utf8(s.name@)
    &&& e.size == s.size
    &&& e.blocks == s.blocks
    &&& e.device == s.device
    &&& e.inode == s.inode
    &&& e.nlink == s.nlink
    &&& e.extended == s.extended
    &&& e.error == s.error
    &&& e.children@.len() == s.children@.len()
    &&& forall|i: int|
        0 <= i < s.children@.len() ==> is_import(#[trigger] s.children@[i], e.children@[i])
    &&& forall|i: int| 0 <= i < e.children@.len() ==> (#[trigger] e.children@[i]).parent == Some(s.id)
}

/// Every name in the subtree is valid UTF-8.
pub open spec fn names_are_text(e: Entry) -> bool
    decreases e,
{
    &&& valid_utf8(e.name@)
    &&& forall|i: int| 0 <= i < e.children@.len() ==> names_are_text(#[trigger] e.children@[i])
}

/// Two trees agree in classification, name, metrics and shape, node for node.
pub open spec fn same_tree(a: Entry, b: Entry) -> bool
    decreases a,
{
    &&& a.entry_type == b.entry_type
    &&& a.name@ == b.name@
    &&& a.size == b.size
    &&& a.blocks == b.blocks
    &&& a.device == b.device
    &&& a.inode == b.inode
    &&& a.nlink == b.nlink
    &&& a.children@.len() == b.children@.len()
    &&& forall|i: int|
        0 <= i < a.children@.len() ==> same_tree(#[trigger] a.children@[i], b.children@[i])
}

/// Exporting a tree whose names are text and importing it again gives back the
/// same classification, name, size, blocks, device, inode, link count and
/// children structure at every node.
pub proof fn lemma_round_trip(e: Entry, s: SerializableEntry, back: Entry)
    requires
        names_are_text(e),
        is_projection(e, s),
        is_import(s, back),
    ensures
        same_tree(e, back),
    decreases e,
{
    vstd::utf8::decode_utf8_encode_utf8(e.name@);
    assert forall|i: int| 0 <= i < e.children@.len() implies #[trigger] same_tree(
        e.children@[i],
        back.children@[i],
    ) by {
        assert(is_projection(e.children@[i], s.children@[i]));
        assert(is_import(s.children@[i], back.children@[i]));
        assert(names_are_text(e.children@[i]));
        lemma_round_trip(e.children@[i], s.children@[i], back.children@[i]);
    }
    assert(forall|i: int| 0 <= i < e.children@.len() ==> same_tree(#[trigger] e.children@[i], back.children@[i]));
}

impl Entry {
    /// The export projection of this subtree.
    pub fn to_serializable(&self) -> (r: SerializableEntry)
        ensures
            is_projection(*self, r),
        decreases self,
    {
        let mut children: Vec<SerializableEntry> = Vec::new();
        let mut i: usize = 0;
        while i < self.children.len()
            invariant
                i <= self.children@.len(),
                children@.len() == i,
                forall|j: int| 0 <= j < i ==> #[trigger] is_projection(self.children@[j], children@[j]),
            decreases self.children@.len() - i,
        {
            let c = self.children[i].to_serializable();
            children.push(c);
            i += 1;
        }
        let r = SerializableEntry {
            id: self.id,
            entry_type: self.entry_type,
            name: self.name_str(),
            size: self.size,
            blocks: self.blocks,
            device: self.device,
            inode: self.inode,
            nlink: self.nlink,
            extended: self.extended,
            error: clone_error(&self.error),
            children,
        };
        assert(forall|i: int| 0 <= i < self.children@.len() ==> is_projection(#[trigger] self.children@[i], r.children@[i]));
        r
    }

    /// The tree described by an export projection.
    pub fn from_serializable(serializable: SerializableEntry) -> (r: Entry)
        ensures
            is_import(serializable, r),
        decreases serializable,
    {
        let ghost orig = serializable;
        let id = serializable.id;
        let entry_type = serializable.entry_type;
        let size = serializable.size;
        let blocks = serializable.blocks;
        let device = serializable.device;
        let inode = serializable.inode;
        let nlink = serializable.nlink;
        let extended = serializable.extended;
        let name = serializable.name;
        let error = serializable.error;
        let children = serializable.children;
        let mut entry = Entry::new(
            id,
            entry_type,
            text_bytes(name.as_str()),
            size,
            blocks,
            device,
            inode,
            nlink,
        );
        entry.extended = extended;
        entry.error = error;
        let mut rest = children;
        let ghost n = orig.children@.len();
        while rest.len() > 0
            invariant
                entry.id == id,
                rest@.len() + entry.children@.len() == n,
                forall|j: int|
                    0 <= j < rest@.len() ==> #[trigger] rest@[j] == orig.children@[entry.children@.len() + j],
                forall|j: int|
                    0 <= j < entry.children@.len() ==> is_import(
                        #[trigger] orig.children@[j],
                        entry.children@[j],
                    ),
                forall|j: int|
                    0 <= j < entry.children@.len() ==> (#[trigger] entry.children@[j]).parent == Some(id),
                entry.entry_type == entry_type && entry.name@ == encode_utf8(name@) && entry.size
                    == size && entry.blocks == blocks && entry.device == device && entry.inode
                    == inode && entry.nlink == nlink && entry.extended == extended && entry.error
                    == error,
                orig.id == id && orig.entry_type == entry_type && orig.name == name && orig.size
                    == size && orig.blocks == blocks && orig.device == device && orig.inode
                    == inode && orig.nlink == nlink && orig.extended == extended && orig.error
                    == error && orig.children@.len() == n && orig == serializable,
            decreases rest@.len(),
        {
            let ghost k = entry.children@.len();
            let ghost before = rest@;
            let next = rest.remove(0);
            assert(next == orig.children@[k as int]);
            assert(decreases_to!(orig => next)) by {
                assert(decreases_to!(orig => orig.children));
                assert(decreases_to!(orig.children => orig.children@));
                assert(decreases_to!(orig.children@ => orig.children@[k as int]));
            }
            assert(forall|j: int| 0 <= j < rest@.len() ==> #[trigger] rest@[j] == before[j + 1]);
            let child = Entry::from_serializable(next);
            entry.add_child(child);
            assert forall|j: int|
                0 <= j < entry.children@.len() implies is_import(
                #[trigger] orig.children@[j],
                entry.children@[j],
            ) && entry.children@[j].parent == Some(id) by {
                if j < k {
                    assert(entry.children@[j] == entry.children@.drop_last()[j]);
                }
            }
            assert forall|j: int| 0 <= j < entry.children@.len() implies (#[trigger] entry.children@[j]).parent == Some(id) by {
                if j < k {
                    assert(entry.children@[j] == entry.children@.drop_last()[j]);
                }
            }
        }
        assert(forall|i: int| 0 <= i < orig.children@.len() ==> is_import(#[trigger] orig.children@[i], entry.children@[i]));
        assert(forall|i: int| 0 <= i < entry.children@.len() ==> (#[trigger] entry.children@[i]).parent == Some(orig.id));
        entry
    }
}

fn clone_error(e: &Option<String>) -> (r: Option<String>)
    ensures
        r == *e,
{
    match e {
        Some(s) => Some(s.clone()),
        None => None,
    }
}

/// Counters of one scan.
#[derive(Debug, Default)]
pub struct ScanStats {
    pub total_entries: u64,
    pub directories: u64,
    pub files: u64,
    pub errors: u64,
    pub total_size: u64,
    pub total_blocks: u64,
}

/// A counter after adding `n`; counters saturate at the largest value.
pub open spec fn sat_add(a: u64, n: u64) -> u64 {
    if a + n <= u64::MAX { (a + n) as u64 } else { u64::MAX }
}

impl ScanStats {
    pub open spec fn new_spec() -> ScanStats {
        ScanStats { total_entries: 0, directories: 0, files: 0, errors: 0, total_size: 0, total_blocks: 0 }
    }

    pub fn new() -> (r: Self)
        ensures
            r.total_entries == 0 && r.directories == 0 && r.files == 0 && r.errors == 0
                && r.total_size == 0 && r.total_blocks == 0,
    {
        ScanStats {
            total_entries: 0,
            directories: 0,
            files: 0,
            errors: 0,
            total_size: 0,
            total_blocks: 0,
        }
    }

    pub fn increment_entries(&mut self)
        ensures
            *final(self) == (ScanStats { total_entries: sat_add(old(self).total_entries, 1), ..*old(self) }),
    {
        self.total_entries = self.total_entries.saturating_add(1);
    }

    pub fn increment_directories(&mut self)
        ensures
            *final(self) == (ScanStats { directories: sat_add(old(self).directories, 1), ..*old(self) }),
    {
        self.directories = self.directories.saturating_add(1);
    }

    pub fn increment_files(&mut self)
        ensures
            *final(self) == (ScanStats { files: sat_add(old(self).files, 1), ..*old(self) }),
    {
        self.files = self.files.saturating_add(1);
    }

    pub fn increment_errors(&mut self)
        ensures
            *final(self) == (ScanStats { errors: sat_add(old(self).errors, 1), ..*old(self) }),
    {
        self.errors = self.errors.saturating_add(1);
    }

    pub fn add_size(&mut self, size: u64)
        ensures
            *final(self) == (ScanStats { total_size: sat_add(old(self).total_size, size), ..*old(self) }),
    {
        self.total_size = self.total_size.saturating_add(size);
    }

    pub fn add_blocks(&mut self, blocks: u64)
        ensures
            *final(self) == (ScanStats { total_blocks: sat_add(old(self).total_blocks, blocks), ..*old(self) }),
    {
        self.total_blocks = self.total_blocks.saturating_add(blocks);
    }

    pub fn get_total_entries(&self) -> (r: u64)
        ensures
            r == self.total_entries,
    {
        self.total_entries
    }

    pub fn get_directories(&self) -> (r: u64)
        ensures
            r == self.directories,
    {
        self.directories
    }

    pub fn get_files(&self) -> (r: u64)
        ensures
            r == self.files,
    {
        self.files
    }

    pub fn get_errors(&self) -> (r: u64)
        ensures
            r == self.errors,
    {
        self.errors
    }

    pub fn get_total_size(&self) -> (r: u64)
        ensures
            r == self.total_size,
    {
        self.total_size
    }

    pub fn get_total_blocks(&self) -> (r: u64)
        ensures
            r == self.total_blocks,
    {
        self.total_blocks
    }
}

/// Source of entry ids for one scan: ids start at 1 and increase.
#[derive(Debug)]
pub struct EntryIdGenerator {
    pub next: EntryId,
}

impl EntryIdGenerator {
    pub fn new() -> (r: Self)
        ensures
            r.next == 1,
    {
        EntryIdGenerator { next: 1 }
    }
}

/// A new entry id: the generator's next value, which then moves on by one
/// (it stays at the largest value once reached).
pub fn generate_entry_id(ids: &mut EntryIdGenerator) -> (r: EntryId)
    ensures
        r == old(ids).next,
        final(ids).next == sat_add(old(ids).next, 1),
{
    let r = ids.next;
    ids.next = ids.next.saturating_add(1);
    r
}

} // verus!
