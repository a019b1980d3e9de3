//! Ordering of sibling entries by a composite key.
use vstd::prelude::*;

use crate::model::{capped, total, Entry, Metric, SortColumn, SortOrder};
use crate::natural::{natural_cmp, natural_compare_chars};
use crate::text::{bytes_to_text, chars_of, lossy_text};
use core::cmp::Ordering;

verus! {

broadcast use vstd::seq_lib::group_to_multiset_ensures;

/// How siblings are ordered.
#[derive(Debug, Clone, Copy, PartialEq, Eq, Structural)]
pub struct SortPolicy {
    pub column: SortColumn,
    pub order: SortOrder,
    /// Directory-like entries come before all others.
    pub dirs_first: bool,
    /// Names compare in natural order rather than byte by byte.
    pub natural: bool,
}

pub open spec fn reverse(o: Ordering) -> Ordering {
    match o {
        Ordering::Less => Ordering::Greater,
        Ordering::Equal => Ordering::Equal,
        Ordering::Greater => Ordering::Less,
    }
}

pub open spec fn int_cmp(a: int, b: int) -> Ordering {
    if a < b {
        Ordering::Less
    } else if a > b {
        Ordering::Greater
    } else {
        Ordering::Equal
    }
}

/// Lexicographic order of byte strings.
pub open spec fn bytes_cmp(a: Seq<u8>, b: Seq<u8>) -> Ordering
    decreases a.len(),
{
    if a.len() == 0 {
        if b.len() == 0 { Ordering::Equal } else { Ordering::Less }
    } else if b.len() == 0 {
        Ordering::Greater
    } else if a[0] < b[0] {
        Ordering::Less
    } else if a[0] > b[0] {
        Ordering::Greater
    } else {
        bytes_cmp(a.drop_first(), b.drop_first())
    }
}

/// Absent times sort before present ones; present ones by value.
pub open spec fn mtime_cmp(a: Option<i64>, b: Option<i64>) -> Ordering {
    match (a, b) {
        (None, None) => Ordering::Equal,
        (None, Some(_)) => Ordering::Less,
        (Some(_), None) => Ordering::Greater,
        (Some(x), Some(y)) => int_cmp(x as int, y as int),
    }
}

pub open spec fn mtime_of(e: Entry) -> Option<i64> {
    match e.extended {
        Some(x) => x.mtime,
        None => None,
    }
}

/// Comparison by the chosen column alone, ascending.
pub open spec fn column_cmp(a: Entry, b: Entry, p: SortPolicy) -> Ordering {
    match p.column {
        SortColumn::Name => if p.natural {
            natural_cmp(lossy_text(a.name@), lossy_text(b.name@))
        } else {
            bytes_cmp(a.name@, b.name@)
        },
        SortColumn::Size => int_cmp(
            capped(total(a, Metric::Size)) as int,
            capped(total(b, Metric::Size)) as int,
        ),
        SortColumn::Blocks => int_cmp(
            capped(total(a, Metric::Blocks)) as int,
            capped(total(b, Metric::Blocks)) as int,
        ),
        SortColumn::Items => int_cmp(
            capped(total(a, Metric::Items)) as int,
            capped(total(b, Metric::Items)) as int,
        ),
        SortColumn::Mtime => mtime_cmp(mtime_of(a), mtime_of(b)),
    }
}

/// The order of two siblings under a policy.
#[verifier::opaque]
pub open spec fn entry_cmp(a: Entry, b: Entry, p: SortPolicy) -> Ordering {
    let ad = a.entry_type.spec_is_directory();
    let bd = b.entry_type.spec_is_directory();
    if p.dirs_first && ad != bd {
        if ad { Ordering::Less } else { Ordering::Greater }
    } else {
        match p.order {
            SortOrder::Asc => column_cmp(a, b, p),
            SortOrder::Desc => reverse(column_cmp(a, b, p)),
        }
    }
}

/// Each pair of neighbours is in order.
pub open spec fn is_sorted(s: Seq<Entry>, p: SortPolicy) -> bool {
    forall|i: int| 0 <= i < s.len() - 1 ==> entry_cmp(#[trigger] s[i], s[i + 1], p) != Ordering::Greater
}

pub proof fn lemma_bytes_cmp_antisymmetric(a: Seq<u8>, b: Seq<u8>)
    ensures
        bytes_cmp(b, a) == reverse(bytes_cmp(a, b)),
    decreases a.len(),
{
    if a.len() > 0 && b.len() > 0 && a[0] == b[0] {
        lemma_bytes_cmp_antisymmetric(a.drop_first(), b.drop_first());
    }
}

pub proof fn lemma_natural_cmp_antisymmetric(a: Seq<char>, b: Seq<char>)
    ensures
        natural_cmp(b, a) == reverse(natural_cmp(a, b)),
    decreases a.len() + b.len(),
{
    crate::natural::lemma_digit_run_bounds(a);
    crate::natural::lemma_digit_run_bounds(b);
    if a.len() > 0 && b.len() > 0 {
        if crate::natural::is_digit(a[0]) && crate::natural::is_digit(b[0]) {
            let na = crate::natural::digit_run(a);
            let nb = crate::natural::digit_run(b);
            lemma_natural_cmp_antisymmetric(a.skip(na as int), b.skip(nb as int));
        } else if a[0] == b[0] {
            lemma_natural_cmp_antisymmetric(a.drop_first(), b.drop_first());
        }
    }
}

/// Swapping the operands of the sibling comparator reverses its result.
pub proof fn lemma_entry_cmp_antisymmetric(a: Entry, b: Entry, p: SortPolicy)
    ensures
        entry_cmp(b, a, p) == reverse(entry_cmp(a, b, p)),
{
    reveal(entry_cmp);
    lemma_bytes_cmp_antisymmetric(a.name@, b.name@);
    lemma_natural_cmp_antisymmetric(lossy_text(a.name@), lossy_text(b.name@));
}

pub proof fn lemma_bytes_cmp_transitive(a: Seq<u8>, b: Seq<u8>, c: Seq<u8>)
    ensures
        bytes_cmp(a, b) != Ordering::Greater && bytes_cmp(b, c) != Ordering::Greater ==> bytes_cmp(a, c)
            != Ordering::Greater,
        bytes_cmp(a, b) == Ordering::Less && bytes_cmp(b, c) != Ordering::Greater ==> bytes_cmp(a, c)
            == Ordering::Less,
        bytes_cmp(a, b) != Ordering::Greater && bytes_cmp(b, c) == Ordering::Less ==> bytes_cmp(a, c)
            == Ordering::Less,
    decreases a.len(),
{
    if a.len() > 0 && b.len() > 0 && c.len() > 0 && a[0] == b[0] && b[0] == c[0] {
        lemma_bytes_cmp_transitive(a.drop_first(), b.drop_first(), c.drop_first());
    }
}

pub proof fn lemma_bytes_cmp_reflexive(a: Seq<u8>)
    ensures
        bytes_cmp(a, a) == Ordering::Equal,
    decreases a.len(),
{
    if a.len() > 0 {
        lemma_bytes_cmp_reflexive(a.drop_first());
    }
}

/// The sibling comparator is a total preorder: every entry is equal to
/// itself, swapping the operands reverses the result, and it is transitive.
pub proof fn lemma_entry_cmp_total_preorder(a: Entry, b: Entry, c: Entry, p: SortPolicy)
    ensures
        entry_cmp(a, a, p) == Ordering::Equal,
        entry_cmp(b, a, p) == reverse(entry_cmp(a, b, p)),
        entry_cmp(a, b, p) != Ordering::Greater && entry_cmp(b, c, p) != Ordering::Greater ==> entry_cmp(a, c, p)
            != Ordering::Greater,
{
    reveal(entry_cmp);
    lemma_entry_cmp_antisymmetric(a, b, p);
    lemma_bytes_cmp_reflexive(a.name@);
    crate::natural::lemma_natural_cmp_reflexive(lossy_text(a.name@));
    lemma_bytes_cmp_transitive(a.name@, b.name@, c.name@);
    lemma_bytes_cmp_transitive(c.name@, b.name@, a.name@);
    crate::natural::lemma_natural_cmp_transitive(lossy_text(a.name@), lossy_text(b.name@), lossy_text(c.name@));
    crate::natural::lemma_natural_cmp_transitive(lossy_text(c.name@), lossy_text(b.name@), lossy_text(a.name@));
    lemma_bytes_cmp_antisymmetric(a.name@, c.name@);
    lemma_bytes_cmp_antisymmetric(b.name@, c.name@);
    lemma_bytes_cmp_antisymmetric(a.name@, b.name@);
    lemma_natural_cmp_antisymmetric(lossy_text(a.name@), lossy_text(c.name@));
    lemma_natural_cmp_antisymmetric(lossy_text(b.name@), lossy_text(c.name@));
    lemma_natural_cmp_antisymmetric(lossy_text(a.name@), lossy_text(b.name@));
}

/// `a` sorts no later than `b`.
pub open spec fn sorts_no_later(a: Entry, b: Entry, p: SortPolicy) -> bool {
    entry_cmp(a, b, p) != Ordering::Greater
}

proof fn lemma_no_later_transitive(a: Entry, b: Entry, c: Entry, p: SortPolicy)
    requires
        sorts_no_later(a, b, p),
        sorts_no_later(b, c, p),
    ensures
        sorts_no_later(a, c, p),
{
    lemma_entry_cmp_total_preorder(a, b, c, p);
}

/// In a sorted sequence every earlier entry sorts no later than every later one.
pub proof fn lemma_sorted_is_ordered(s: Seq<Entry>, p: SortPolicy, i: int, j: int)
    requires
        is_sorted(s, p),
        0 <= i < j < s.len(),
    ensures
        sorts_no_later(s[i], s[j], p),
    decreases j - i,
{
    if j > i + 1 {
        lemma_sorted_is_ordered(s, p, i, j - 1);
        assert(sorts_no_later(s[j - 1], s[j], p)) by {
            assert(entry_cmp(s[j - 1], s[(j - 1) + 1], p) != Ordering::Greater);
        }
        lemma_no_later_transitive(s[i], s[j - 1], s[j], p);
    }
}

/// What the sort compares of one entry, computed once.
struct SortKey {
    is_dir: bool,
    number: u64,
    mtime: Option<i64>,
    text: Vec<char>,
}

spec fn key_of(k: SortKey, e: Entry, p: SortPolicy) -> bool {
    &&& k.is_dir == e.entry_type.spec_is_directory()
    &&& (p.column is Size ==> k.number == capped(total(e, Metric::Size)))
    &&& (p.column is Blocks ==> k.number == capped(total(e, Metric::Blocks)))
    &&& (p.column is Items ==> k.number == capped(total(e, Metric::Items)))
    &&& (p.column is Mtime ==> k.mtime == mtime_of(e))
    &&& (p.column is Name && p.natural ==> k.text@ == lossy_text(e.name@))
}

fn make_key(e: &Entry, p: &SortPolicy) -> (k: SortKey)
    ensures
        key_of(k, *e, *p),
{
    let number: u64 = match p.column {
        SortColumn::Size => e.total_size(),
        SortColumn::Blocks => e.total_blocks(),
        SortColumn::Items => e.total_items(),
        _ => 0,
    };
    let mtime: Option<i64> = match &e.extended {
        Some(x) => x.mtime,
        None => None,
    };
    let text: Vec<char> = if p.column == SortColumn::Name && p.natural {
        let t = bytes_to_text(e.name.as_slice());
        chars_of(t.as_str())
    } else {
        Vec::new()
    };
    SortKey { is_dir: e.entry_type.is_directory(), number, mtime, text }
}

fn compare_bytes(a: &Vec<u8>, b: &Vec<u8>) -> (r: Ordering)
    ensures
        r == bytes_cmp(a@, b@),
{
    let mut i: usize = 0;
    assert(a@.skip(0) =~= a@ && b@.skip(0) =~= b@);
    loop
        invariant
            i <= a@.len() && i <= b@.len(),
            bytes_cmp(a@, b@) == bytes_cmp(a@.skip(i as int), b@.skip(i as int)),
        decreases a@.len() - i,
    {
        let ghost sa = a@.skip(i as int);
        let ghost sb = b@.skip(i as int);
        if i == a.len() {
            return if i == b.len() { Ordering::Equal } else { Ordering::Less };
        } else if i == b.len() {
            return Ordering::Greater;
        }
        assert(sa[0] == a@[i as int] && sb[0] == b@[i as int]);
        if a[i] < b[i] {
            return Ordering::Less;
        } else if a[i] > b[i] {
            return Ordering::Greater;
        }
        assert(a@.skip(i + 1) =~= sa.drop_first());
        assert(b@.skip(i + 1) =~= sb.drop_first());
        i += 1;
    }
}

fn compare_numbers(a: u64, b: u64) -> (r: Ordering)
    ensures
        r == int_cmp(a as int, b as int),
{
    if a < b {
        Ordering::Less
    } else if a > b {
        Ordering::Greater
    } else {
        Ordering::Equal
    }
}

fn compare_mtimes(a: Option<i64>, b: Option<i64>) -> (r: Ordering)
    ensures
        r == mtime_cmp(a, b),
{
    match (a, b) {
        (None, None) => Ordering::Equal,
        (None, Some(_)) => Ordering::Less,
        (Some(_), None) => Ordering::Greater,
        (Some(x), Some(y)) => if x < y {
            Ordering::Less
        } else if x > y {
            Ordering::Greater
        } else {
            Ordering::Equal
        },
    }
}

fn compare_keyed(ka: &SortKey, a: &Entry, kb: &SortKey, b: &Entry, p: &SortPolicy) -> (r: Ordering)
    requires
        key_of(*ka, *a, *p),
        key_of(*kb, *b, *p),
    ensures
        r == entry_cmp(*a, *b, *p),
{
    reveal(entry_cmp);
    if p.dirs_first && ka.is_dir != kb.is_dir {
        return if ka.is_dir { Ordering::Less } else { Ordering::Greater };
    }
    let c = match p.column {
        SortColumn::Name => if p.natural {
            natural_compare_chars(&ka.text, &kb.text)
        } else {
            compare_bytes(&a.name, &b.name)
        },
        SortColumn::Mtime => compare_mtimes(ka.mtime, kb.mtime),
        _ => compare_numbers(ka.number, kb.number),
    };
    match p.order {
        SortOrder::Asc => c,
        SortOrder::Desc => match c {
            Ordering::Less => Ordering::Greater,
            Ordering::Equal => Ordering::Equal,
            Ordering::Greater => Ordering::Less,
        },
    }
}

/// The reverse of sorted order: each entry is at least as late as the next.
spec fn is_sorted_rev(s: Seq<Entry>, p: SortPolicy) -> bool {
    forall|i: int| 0 <= i < s.len() - 1 ==> entry_cmp(#[trigger] s[i + 1], s[i], p) != Ordering::Greater
}

spec fn keys_match(keys: Seq<SortKey>, s: Seq<Entry>, p: SortPolicy) -> bool {
    &&& keys.len() == s.len()
    &&& forall|i: int| 0 <= i < s.len() ==> key_of(#[trigger] keys[i], s[i], p)
}

/// Puts `e` into `rev`, kept in reverse sorted order, after every entry that
/// does not sort before it.
fn insert_rev(keys: &mut Vec<SortKey>, rev: &mut Vec<Entry>, k: SortKey, e: Entry, policy: &SortPolicy)
    requires
        keys_match(old(keys)@, old(rev)@, *policy),
        is_sorted_rev(old(rev)@, *policy),
        key_of(k, e, *policy),
    ensures
        keys_match(final(keys)@, final(rev)@, *policy),
        is_sorted_rev(final(rev)@, *policy),
        exists|j: int| 0 <= j <= old(rev)@.len() && final(rev)@ == old(rev)@.insert(j, e),
{
    let mut j: usize = 0;
    loop
        invariant
            j <= rev@.len(),
            keys_match(keys@, rev@, *policy),
            key_of(k, e, *policy),
            forall|i: int| 0 <= i < j ==> entry_cmp(e, #[trigger] rev@[i], *policy) != Ordering::Greater,
        ensures
            j <= rev@.len(),
            keys_match(keys@, rev@, *policy),
            forall|i: int| 0 <= i < j ==> entry_cmp(e, #[trigger] rev@[i], *policy) != Ordering::Greater,
            j < rev@.len() ==> entry_cmp(e, rev@[j as int], *policy) == Ordering::Greater,
        decreases rev@.len() - j,
    {
        if j >= rev.len() {
            break;
        }
        let c = compare_keyed(&k, &e, &keys[j], &rev[j], policy);
        if matches!(c, Ordering::Greater) {
            break;
        }
        j += 1;
    }
    proof {
        if j < rev@.len() {
            lemma_entry_cmp_antisymmetric(e, rev@[j as int], *policy);
        }
    }
    let ghost old_rev = rev@;
    let ghost old_keys = keys@;
    keys.insert(j, k);
    rev.insert(j, e);
    proof {
        old_rev.insert_ensures(j as int, e);
        old_keys.insert_ensures(j as int, k);
        assert(forall|i: int| j <= i < old_rev.len() ==> rev@[i + 1] == #[trigger] old_rev[i]);
        assert(forall|i: int| j <= i < old_rev.len() ==> keys@[i + 1] == #[trigger] old_keys[i]);
        assert forall|i: int| 0 <= i < rev@.len() - 1 implies entry_cmp(#[trigger] rev@[i + 1], rev@[i], *policy) != Ordering::Greater by {
            if i + 1 < j {
                assert(rev@[i + 1] == old_rev[i + 1] && rev@[i] == old_rev[i]);
            } else if i + 1 == j {
                assert(rev@[i + 1] == e && rev@[i] == old_rev[i]);
                lemma_entry_cmp_antisymmetric(e, old_rev[i], *policy);
            } else if i == j {
                assert(rev@[i + 1] == old_rev[i] && rev@[i] == e);
            } else {
                assert(rev@[i + 1] == old_rev[i] && rev@[i] == old_rev[i - 1]);
            }
        }
        assert forall|i: int| 0 <= i < rev@.len() implies key_of(#[trigger] keys@[i], rev@[i], *policy) by {
            if i < j {
                assert(keys@[i] == old_keys[i] && rev@[i] == old_rev[i]);
            } else if i > j {
                assert(keys@[i] == old_keys[i - 1] && rev@[i] == old_rev[i - 1]);
            }
        }
    }
}

/// Sorts siblings under a policy. The result holds the same entries, each pair
/// of neighbours in order; entries that compare equal keep their relative order.
pub fn sort_entries(entries: &mut Vec<Entry>, policy: &SortPolicy)
    ensures
        final(entries)@.to_multiset() == old(entries)@.to_multiset(),
        is_sorted(final(entries)@, *policy),
{
    let ghost orig = entries@;
    let mut keys: Vec<SortKey> = Vec::new();
    // The reverse of the final order.
    let mut rev: Vec<Entry> = Vec::new();
    while entries.len() > 0
        invariant
            rev@.to_multiset().add(entries@.to_multiset()) == orig.to_multiset(),
            keys_match(keys@, rev@, *policy),
            is_sorted_rev(rev@, *policy),
        decreases entries@.len(),
    {
        let ghost before = entries@;
        let ghost before_rev = rev@;
        let e = entries.pop().unwrap();
        proof {
            assert(before =~= entries@.push(e));
        }
        let k = make_key(&e, policy);
        insert_rev(&mut keys, &mut rev, k, e, policy);
        proof {
            let j = choose|j: int| 0 <= j <= before_rev.len() && rev@ == before_rev.insert(j, e);
            assert(rev@.to_multiset() == before_rev.to_multiset().insert(e));
            assert(before.to_multiset() == entries@.to_multiset().insert(e));
            assert(rev@.to_multiset().add(entries@.to_multiset()) =~= orig.to_multiset());
        }
    }
    reverse_into(&mut rev, entries, policy);
}

/// Moves the entries of `rev` into the empty `out`, last first.
#[verifier::rlimit(40)]
fn reverse_into(rev: &mut Vec<Entry>, out: &mut Vec<Entry>, policy: &SortPolicy)
    requires
        old(out)@.len() == 0,
        is_sorted_rev(old(rev)@, *policy),
    ensures
        final(out)@.to_multiset() == old(rev)@.to_multiset(),
        is_sorted(final(out)@, *policy),
{
    let ghost all = rev@;
    while rev.len() > 0
        invariant
            rev@.len() + out@.len() == all.len(),
            forall|i: int| 0 <= i < rev@.len() ==> #[trigger] rev@[i] == all[i],
            forall|i: int| 0 <= i < out@.len() ==> #[trigger] out@[i] == all[all.len() - 1 - i],
            rev@.to_multiset().add(out@.to_multiset()) == all.to_multiset(),
        decreases rev@.len(),
    {
        let ghost before = rev@;
        let ghost before_out = out@;
        let e = rev.pop().unwrap();
        proof {
            assert(before =~= rev@.push(e));
            assert(e == all[rev@.len() as int]);
        }
        out.push(e);
        proof {
            assert(out@ == before_out.push(e));
            assert(before.to_multiset() == rev@.to_multiset().insert(e));
            assert(out@.to_multiset() == before_out.to_multiset().insert(e));
            assert(rev@.to_multiset().add(out@.to_multiset()) =~= all.to_multiset());
        }
    }
    proof {
        assert forall|i: int| 0 <= i < out@.len() - 1 implies entry_cmp(#[trigger] out@[i], out@[i + 1], *policy) != Ordering::Greater by {
            let k = all.len() - 2 - i;
            assert(out@[i] == all[k + 1]);
            assert(out@[i + 1] == all[k]);
        }
        assert(rev@ =~= Seq::<Entry>::empty());
        assert(rev@.to_multiset() =~= vstd::multiset::Multiset::empty());
        assert(out@.to_multiset() =~= all.to_multiset());
    }
}

} // verus!
