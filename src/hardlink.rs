//! The hardlink registry: which inodes have been seen during one scan, and
//! how many of their links the scanned tree holds.
use vstd::prelude::*;

use crate::model::{EntryId, HardlinkInfo, HardlinkKey};

verus! {

/// Registry of the hardlinked inodes seen during one scan.
/// Each key occurs at most once.
pub struct HardlinkMap {
    entries: Vec<(HardlinkKey, HardlinkInfo)>,
}

pub open spec fn keys_unique(s: Seq<(HardlinkKey, HardlinkInfo)>) -> bool {
    forall|i: int, j: int| 0 <= i < s.len() && 0 <= j < s.len() && #[trigger] s[i].0 == #[trigger] s[j].0 ==> i == j
}

pub open spec fn seq_map(s: Seq<(HardlinkKey, HardlinkInfo)>) -> Map<HardlinkKey, HardlinkInfo> {
    Map::new(
        |k: HardlinkKey| exists|i: int| 0 <= i < s.len() && s[i].0 == k,
        |k: HardlinkKey| s[choose|i: int| 0 <= i < s.len() && s[i].0 == k].1,
    )
}

proof fn lemma_seq_map_at(s: Seq<(HardlinkKey, HardlinkInfo)>, i: int)
    requires
        keys_unique(s),
        0 <= i < s.len(),
    ensures
        seq_map(s).contains_key(s[i].0),
        seq_map(s)[s[i].0] == s[i].1,
{
    let k = s[i].0;
    assert(exists|j: int| 0 <= j < s.len() && s[j].0 == k);
    let j = choose|j: int| 0 <= j < s.len() && s[j].0 == k;
    assert(s[j].0 == s[i].0);
}

/// One more link seen, saturating at the largest count.
pub open spec fn bump(n: u32) -> u32 {
    if n < u32::MAX { (n + 1) as u32 } else { n }
}

/// The state of the registry after an inode has been seen once more.
pub open spec fn after_sighting(
    m: Map<HardlinkKey, HardlinkInfo>,
    key: HardlinkKey,
    nlink: u32,
    size: u64,
    blocks: u64,
    entry: EntryId,
) -> Map<HardlinkKey, HardlinkInfo> {
    if m.contains_key(key) {
        m.insert(key, HardlinkInfo { links_in_tree: bump(m[key].links_in_tree), ..m[key] })
    } else {
        m.insert(
            key,
            HardlinkInfo { total_links: nlink, links_in_tree: 1, size, blocks, first_entry: entry },
        )
    }
}

/// One sighting of a hardlinked file during a scan.
pub struct Sighting {
    pub key: HardlinkKey,
    pub nlink: u32,
    pub size: u64,
    pub blocks: u64,
    pub entry: EntryId,
}

/// The registry after a sequence of sightings, in order.
pub open spec fn replay(m: Map<HardlinkKey, HardlinkInfo>, s: Seq<Sighting>) -> Map<HardlinkKey, HardlinkInfo>
    decreases s.len(),
{
    if s.len() == 0 {
        m
    } else {
        let x = s.last();
        after_sighting(replay(m, s.drop_last()), x.key, x.nlink, x.size, x.blocks, x.entry)
    }
}

/// Whether the `i`-th sighting of a sequence is the first of its inode,
/// which keeps its entry's classification as a file.
pub open spec fn is_first_sighting(m: Map<HardlinkKey, HardlinkInfo>, s: Seq<Sighting>, i: int) -> bool {
    !replay(m, s.subrange(0, i)).contains_key(s[i].key)
}

/// Number of sightings of `k` in `s`.
pub open spec fn count_key(s: Seq<Sighting>, k: HardlinkKey) -> nat
    decreases s.len(),
{
    if s.len() == 0 {
        0
    } else {
        count_key(s.drop_last(), k) + if s.last().key == k { 1nat } else { 0nat }
    }
}

proof fn lemma_replay_contains(m: Map<HardlinkKey, HardlinkInfo>, s: Seq<Sighting>, k: HardlinkKey)
    ensures
        replay(m, s).contains_key(k) <==> (m.contains_key(k) || exists|j: int| 0 <= j < s.len() && s[j].key == k),
    decreases s.len(),
{
    if s.len() > 0 {
        lemma_replay_contains(m, s.drop_last(), k);
        if exists|j: int| 0 <= j < s.len() && s[j].key == k {
            let j = choose|j: int| 0 <= j < s.len() && s[j].key == k;
            if j < s.len() - 1 {
                assert(s.drop_last()[j].key == k);
            }
        }
        if exists|j: int| 0 <= j < s.len() - 1 && s.drop_last()[j].key == k {
            let j = choose|j: int| 0 <= j < s.len() - 1 && s.drop_last()[j].key == k;
            assert(s[j].key == k);
        }
    }
}

/// De-duplication: within one scan, a sighting is the first of its inode
/// exactly when the registry did not know the inode beforehand and no earlier
/// sighting had the same key. So of all the entries that share a key, exactly
/// one, the first, keeps the classification of a file; the others are hard
/// links.
pub proof fn lemma_first_sighting_is_unique(m: Map<HardlinkKey, HardlinkInfo>, s: Seq<Sighting>, i: int)
    requires
        0 <= i < s.len(),
    ensures
        is_first_sighting(m, s, i) <==> (!m.contains_key(s[i].key) && forall|j: int|
            0 <= j < i ==> (#[trigger] s[j]).key != s[i].key),
{
    lemma_replay_contains(m, s.subrange(0, i), s[i].key);
    if exists|j: int| 0 <= j < i && (#[trigger] s[j]).key == s[i].key {
        let j = choose|j: int| 0 <= j < i && (#[trigger] s[j]).key == s[i].key;
        assert(s.subrange(0, i)[j].key == s[i].key);
    }
    if exists|j: int| 0 <= j < i && s.subrange(0, i)[j].key == s[i].key {
        let j = choose|j: int| 0 <= j < i && s.subrange(0, i)[j].key == s[i].key;
        assert(s[j].key == s[i].key);
    }
}

/// For an inode that the registry did not know before the scan and that was
/// seen at least once, the registry counts as many links in the tree as there
/// were sightings (saturating at the largest count).
pub proof fn lemma_links_in_tree_counts_sightings(m: Map<HardlinkKey, HardlinkInfo>, s: Seq<Sighting>, k: HardlinkKey)
    requires
        !m.contains_key(k),
        count_key(s, k) > 0,
    ensures
        replay(m, s).contains_key(k),
        replay(m, s)[k].links_in_tree == (if count_key(s, k) <= u32::MAX { count_key(s, k) } else { u32::MAX as nat }),
    decreases s.len(),
{
    if count_key(s.drop_last(), k) > 0 {
        lemma_links_in_tree_counts_sightings(m, s.drop_last(), k);
    } else {
        lemma_count_zero_absent(m, s.drop_last(), k);
    }
}

proof fn lemma_count_zero_absent(m: Map<HardlinkKey, HardlinkInfo>, s: Seq<Sighting>, k: HardlinkKey)
    requires
        !m.contains_key(k),
        count_key(s, k) == 0,
    ensures
        !replay(m, s).contains_key(k),
    decreases s.len(),
{
    if s.len() > 0 {
        lemma_count_zero_absent(m, s.drop_last(), k);
    }
}

impl View for HardlinkMap {
    type V = Map<HardlinkKey, HardlinkInfo>;

    closed spec fn view(&self) -> Map<HardlinkKey, HardlinkInfo> {
        seq_map(self.entries@)
    }
}

impl HardlinkMap {
    pub closed spec fn wf(&self) -> bool {
        keys_unique(self.entries@)
    }

    pub fn new() -> (r: Self)
        ensures
            r.wf(),
            r@ == Map::<HardlinkKey, HardlinkInfo>::empty(),
    {
        let r = HardlinkMap { entries: Vec::new() };
        assert(r@ =~= Map::<HardlinkKey, HardlinkInfo>::empty());
        r
    }

    fn find(&self, key: &HardlinkKey) -> (r: Option<usize>)
        requires
            self.wf(),
        ensures
            r is None ==> !self@.contains_key(*key),
            r matches Some(i) ==> i < self.entries@.len() && self.entries@[i as int].0 == *key,
    {
        let mut i: usize = 0;
        while i < self.entries.len()
            invariant
                i <= self.entries@.len(),
                forall|j: int| 0 <= j < i ==> self.entries@[j].0 != *key,
            decreases self.entries@.len() - i,
        {
            if self.entries[i].0 == *key {
                return Some(i);
            }
            i += 1;
        }
        None
    }

    /// The tracking state of `key`, if it has been seen.
    pub fn get(&self, key: &HardlinkKey) -> (r: Option<HardlinkInfo>)
        requires
            self.wf(),
        ensures
            r == (if self@.contains_key(*key) { Some(self@[*key]) } else { None::<HardlinkInfo> }),
    {
        match self.find(key) {
            Some(i) => {
                proof {
                    lemma_seq_map_at(self.entries@, i as int);
                }
                Some(self.entries[i].1)
            },
            None => None,
        }
    }

    /// Records one sighting of an inode. Returns whether it is the first one:
    /// then the registry starts tracking it with one link in the tree;
    /// otherwise its count of links in the tree goes up by one.
    pub fn resolve(
        &mut self,
        key: HardlinkKey,
        nlink: u32,
        size: u64,
        blocks: u64,
        entry: EntryId,
    ) -> (first: bool)
        requires
            old(self).wf(),
        ensures
            final(self).wf(),
            first == !old(self)@.contains_key(key),
            final(self)@ == after_sighting(old(self)@, key, nlink, size, blocks, entry),
    {
        let ghost old_s = self.entries@;
        match self.find(&key) {
            Some(i) => {
                let (k, info) = self.entries[i];
                proof {
                    lemma_seq_map_at(old_s, i as int);
                }
                let bumped = if info.links_in_tree < u32::MAX {
                    info.links_in_tree + 1
                } else {
                    info.links_in_tree
                };
                let new_info = HardlinkInfo { links_in_tree: bumped, ..info };
                self.entries.set(i, (k, new_info));
                proof {
                    let s = self.entries@;
                    assert(s =~= old_s.update(i as int, (key, new_info)));
                    assert(keys_unique(s));
                    assert forall|k2: HardlinkKey|
                        #![auto]
                        seq_map(s).contains_key(k2) == seq_map(old_s).insert(key, new_info).contains_key(k2)
                    by {
                        if seq_map(old_s).contains_key(k2) {
                            let j = choose|j: int| 0 <= j < old_s.len() && old_s[j].0 == k2;
                            assert(s[j].0 == k2);
                        }
                        if seq_map(s).contains_key(k2) {
                            let j = choose|j: int| 0 <= j < s.len() && s[j].0 == k2;
                            assert(old_s[j].0 == k2);
                        }
                    }
                    assert forall|k2: HardlinkKey|
                        #![auto]
                        seq_map(s).contains_key(k2) ==> seq_map(s)[k2] == seq_map(old_s).insert(key, new_info)[k2]
                    by {
                        if seq_map(s).contains_key(k2) {
                            let j = choose|j: int| 0 <= j < s.len() && s[j].0 == k2;
                            lemma_seq_map_at(s, j);
                            lemma_seq_map_at(old_s, j);
                        }
                    }
                    assert(seq_map(s) =~= seq_map(old_s).insert(key, new_info));
                }
                false
            },
            None => {
                let new_info = HardlinkInfo {
                    total_links: nlink,
                    links_in_tree: 1,
                    size,
                    blocks,
                    first_entry: entry,
                };
                self.entries.push((key, new_info));
                proof {
                    let s = self.entries@;
                    assert(s =~= old_s.push((key, new_info)));
                    assert(keys_unique(s)) by {
                        assert forall|i: int, j: int|
                            0 <= i < s.len() && 0 <= j < s.len() && #[trigger] s[i].0 == #[trigger] s[j].0 implies i == j
                        by {
                            if i < old_s.len() && j == old_s.len() {
                                assert(seq_map(old_s).contains_key(s[i].0));
                            }
                            if j < old_s.len() && i == old_s.len() {
                                assert(seq_map(old_s).contains_key(s[j].0));
                            }
                        }
                    }
                    assert forall|k2: HardlinkKey|
                        #![auto]
                        seq_map(s).contains_key(k2) == seq_map(old_s).insert(key, new_info).contains_key(k2)
                    by {
                        if seq_map(old_s).contains_key(k2) {
                            let j = choose|j: int| 0 <= j < old_s.len() && old_s[j].0 == k2;
                            assert(s[j].0 == k2);
                        }
                        if k2 == key {
                            assert(s[old_s.len() as int].0 == k2);
                        }
                        if seq_map(s).contains_key(k2) && k2 != key {
                            let j = choose|j: int| 0 <= j < s.len() && s[j].0 == k2;
                            assert(old_s[j].0 == k2);
                        }
                    }
                    assert forall|k2: HardlinkKey|
                        #![auto]
                        seq_map(s).contains_key(k2) ==> seq_map(s)[k2] == seq_map(old_s).insert(key, new_info)[k2]
                    by {
                        if seq_map(s).contains_key(k2) {
                            let j = choose|j: int| 0 <= j < s.len() && s[j].0 == k2;
                            lemma_seq_map_at(s, j);
                            if j < old_s.len() {
                                lemma_seq_map_at(old_s, j);
                            }
                        }
                    }
                    assert(seq_map(s) =~= seq_map(old_s).insert(key, new_info));
                }
                true
            },
        }
    }
}

} // verus!
