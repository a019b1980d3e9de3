//! Natural ordering of names: runs of ASCII digits compare by their numeric
//! value, everything else character by character.
use vstd::prelude::*;

use crate::text::chars_of;
use core::cmp::Ordering;

verus! {

pub open spec fn is_digit(c: char) -> bool {
    '0' <= c && c <= '9'
}

/// Length of the run of digits at the start of `s`.
pub open spec fn digit_run(s: Seq<char>) -> nat
    decreases s.len(),
{
    if s.len() > 0 && is_digit(s[0]) {
        1 + digit_run(s.drop_first())
    } else {
        0
    }
}

pub open spec fn digit_value(c: char) -> nat {
    (c as nat - '0' as nat) as nat
}

/// Value of the first `n` characters of `s` read as decimal digits,
/// saturating at the largest `u64`.
pub open spec fn number_value(s: Seq<char>, n: nat) -> nat
    decreases n,
{
    if n == 0 {
        0
    } else {
        let v = 10 * number_value(s, (n - 1) as nat) + digit_value(s[n - 1]);
        if v > u64::MAX { u64::MAX as nat } else { v }
    }
}

pub proof fn lemma_digit_run_bounds(s: Seq<char>)
    ensures
        digit_run(s) <= s.len(),
        s.len() > 0 && is_digit(s[0]) ==> digit_run(s) >= 1,
        forall|i: int| 0 <= i < digit_run(s) ==> is_digit(#[trigger] s[i]),
        digit_run(s) < s.len() ==> !is_digit(s[digit_run(s) as int]),
    decreases s.len(),
{
    if s.len() > 0 && is_digit(s[0]) {
        lemma_digit_run_bounds(s.drop_first());
        assert forall|i: int| 0 <= i < digit_run(s) implies is_digit(#[trigger] s[i]) by {
            if i > 0 {
                assert(s[i] == s.drop_first()[i - 1]);
            }
        }
    }
}

/// Natural comparison of two character sequences.
pub open spec fn natural_cmp(a: Seq<char>, b: Seq<char>) -> Ordering
    decreases a.len() + b.len(),
    via natural_cmp_decreases
{
    if a.len() == 0 {
        if b.len() == 0 { Ordering::Equal } else { Ordering::Less }
    } else if b.len() == 0 {
        Ordering::Greater
    } else if is_digit(a[0]) && is_digit(b[0]) {
        let na = digit_run(a);
        let nb = digit_run(b);
        let va = number_value(a, na);
        let vb = number_value(b, nb);
        if va < vb {
            Ordering::Less
        } else if va > vb {
            Ordering::Greater
        } else {
            natural_cmp(a.skip(na as int), b.skip(nb as int))
        }
    } else if a[0] < b[0] {
        Ordering::Less
    } else if a[0] > b[0] {
        Ordering::Greater
    } else {
        natural_cmp(a.drop_first(), b.drop_first())
    }
}

/// Every name is naturally equal to itself.
pub proof fn lemma_natural_cmp_reflexive(a: Seq<char>)
    ensures
        natural_cmp(a, a) == Ordering::Equal,
    decreases a.len(),
{
    lemma_digit_run_bounds(a);
    if a.len() > 0 {
        if is_digit(a[0]) {
            lemma_natural_cmp_reflexive(a.skip(digit_run(a) as int));
        } else {
            lemma_natural_cmp_reflexive(a.drop_first());
        }
    }
}

/// Natural order is transitive: names in order (or equal) followed by names
/// in order (or equal) are in order, strictly so when either step is strict.
pub proof fn lemma_natural_cmp_transitive(a: Seq<char>, b: Seq<char>, c: Seq<char>)
    ensures
        natural_cmp(a, b) != Ordering::Greater && natural_cmp(b, c) != Ordering::Greater ==> natural_cmp(
            a,
            c,
        ) != Ordering::Greater,
        natural_cmp(a, b) == Ordering::Less && natural_cmp(b, c) != Ordering::Greater ==> natural_cmp(a, c)
            == Ordering::Less,
        natural_cmp(a, b) != Ordering::Greater && natural_cmp(b, c) == Ordering::Less ==> natural_cmp(a, c)
            == Ordering::Less,
    decreases a.len() + b.len() + c.len(),
{
    lemma_digit_run_bounds(a);
    lemma_digit_run_bounds(b);
    lemma_digit_run_bounds(c);
    if a.len() > 0 && b.len() > 0 && c.len() > 0 {
        if is_digit(a[0]) && is_digit(b[0]) && is_digit(c[0]) {
            lemma_natural_cmp_transitive(
                a.skip(digit_run(a) as int),
                b.skip(digit_run(b) as int),
                c.skip(digit_run(c) as int),
            );
        } else if a[0] == b[0] && b[0] == c[0] {
            lemma_natural_cmp_transitive(a.drop_first(), b.drop_first(), c.drop_first());
        }
    }
}

#[via_fn]
proof fn natural_cmp_decreases(a: Seq<char>, b: Seq<char>) {
    lemma_digit_run_bounds(a);
    lemma_digit_run_bounds(b);
}

/// Reads the run of digits that starts at `pos`; returns its saturated value
/// and the position after it.
fn extract_number(s: &Vec<char>, pos: usize) -> (r: (u64, usize))
    requires
        pos <= s@.len(),
    ensures
        r.0 == number_value(s@.skip(pos as int), digit_run(s@.skip(pos as int))),
        r.1 == pos + digit_run(s@.skip(pos as int)),
{
    let ghost t = s@.skip(pos as int);
    proof {
        lemma_digit_run_bounds(t);
    }
    let mut num: u64 = 0;
    let mut i: usize = pos;
    while i < s.len() && '0' <= s[i] && s[i] <= '9'
        invariant
            pos <= i <= s@.len(),
            i - pos <= digit_run(t),
            t == s@.skip(pos as int),
            digit_run(t) <= t.len(),
            forall|k: int| 0 <= k < digit_run(t) ==> is_digit(#[trigger] t[k]),
            digit_run(t) < t.len() ==> !is_digit(t[digit_run(t) as int]),
            num == number_value(t, (i - pos) as nat),
        decreases s@.len() - i,
    {
        let ch = s[i];
        assert(t[(i - pos) as int] == ch);
        let d = (ch as u32 - '0' as u32) as u64;
        assert(d <= 9);
        let limit: u64 = (u64::MAX - d) / 10;
        if num <= limit {
            assert(10 * num + d <= u64::MAX) by (nonlinear_arith)
                requires
                    num <= limit,
                    limit == (u64::MAX - d) / 10,
                    d <= 9,
            ;
            num = num * 10 + d;
        } else {
            assert(10 * num + d > u64::MAX) by (nonlinear_arith)
                requires
                    num > limit,
                    limit == (u64::MAX - d) / 10,
                    d <= 9,
            ;
            num = u64::MAX;
        }
        i += 1;
    }
    proof {
        if i - pos < digit_run(t) {
            assert(is_digit(t[(i - pos) as int]));
            assert(t[(i - pos) as int] == s@[i as int]);
        }
    }
    (num, i)
}

/// Natural comparison of two names: `"file2"` sorts before `"file10"`, and
/// `"file01"` equals `"file1"`.
pub fn natural_compare(a: &str, b: &str) -> (r: Ordering)
    ensures
        r == natural_cmp(a@, b@),
{
    let av = chars_of(a);
    let bv = chars_of(b);
    natural_compare_chars(&av, &bv)
}

/// Natural comparison of two character sequences.
pub fn natural_compare_chars(a: &Vec<char>, b: &Vec<char>) -> (r: Ordering)
    ensures
        r == natural_cmp(a@, b@),
{
    let mut i: usize = 0;
    let mut j: usize = 0;
    assert(a@.skip(0) =~= a@ && b@.skip(0) =~= b@);
    loop
        invariant
            i <= a@.len(),
            j <= b@.len(),
            natural_cmp(a@, b@) == natural_cmp(a@.skip(i as int), b@.skip(j as int)),
        decreases a@.len() - i + b@.len() - j,
    {
        let ghost sa = a@.skip(i as int);
        let ghost sb = b@.skip(j as int);
        if i >= a.len() {
            if j >= b.len() {
                return Ordering::Equal;
            } else {
                return Ordering::Less;
            }
        } else if j >= b.len() {
            return Ordering::Greater;
        }
        let ca = a[i];
        let cb = b[j];
        assert(sa[0] == ca && sb[0] == cb);
        if '0' <= ca && ca <= '9' && '0' <= cb && cb <= '9' {
            proof {
                lemma_digit_run_bounds(sa);
                lemma_digit_run_bounds(sb);
            }
            let (na, ni) = extract_number(a, i);
            let (nb, nj) = extract_number(b, j);
            if na < nb {
                return Ordering::Less;
            } else if na > nb {
                return Ordering::Greater;
            }
            assert(a@.skip(ni as int) =~= sa.skip(digit_run(sa) as int));
            assert(b@.skip(nj as int) =~= sb.skip(digit_run(sb) as int));
            i = ni;
            j = nj;
        } else {
            if ca < cb {
                return Ordering::Less;
            } else if ca > cb {
                return Ordering::Greater;
            }
            assert(a@.skip(i + 1) =~= sa.drop_first());
            assert(b@.skip(j + 1) =~= sb.drop_first());
            i += 1;
            j += 1;
        }
    }
}

} // verus!
