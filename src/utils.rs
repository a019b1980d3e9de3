//! Formatting and path helpers for the interface.
use vstd::prelude::*;

use crate::text::{chars_of, text_of};

verus! {

/// The text that `humansize::format_size` gives for `size` bytes, with
/// decimal (SI) units when `si` holds and binary (IEC) units otherwise.
pub uninterp spec fn human_size(size: u64, si: bool) -> Seq<char>;

/// Relies on `humansize::format_size`: the size with the unit set picked.
#[verifier::external_body]
fn format_size_with(size: u64, si: bool) -> (r: String)
    ensures
        r@ == human_size(size, si),
{
    humansize::format_size(size, if si { humansize::DECIMAL } else { humansize::BINARY })
}

/// A size in bytes in human-readable form.
pub fn format_file_size(size: u64, use_si: bool) -> (r: String)
    ensures
        r@ == human_size(size, use_si),
{
    format_size_with(size, use_si)
}

/// A count of 512-byte blocks in human-readable form.
pub fn format_blocks(blocks: u64, use_si: bool) -> (r: String)
    requires
        blocks * 512 <= u64::MAX,
    ensures
        r@ == human_size((blocks * 512) as u64, use_si),
{
    format_file_size(blocks * 512, use_si)
}

/// Decimal representation of a number, without leading zeros.
pub open spec fn decimal(n: nat) -> Seq<char>
    decreases n,
{
    if n < 10 {
        seq![digit_char(n)]
    } else {
        decimal(n / 10).push(digit_char(n % 10))
    }
}

pub open spec fn digit_char(d: nat) -> char {
    if d == 0 { '0' } else if d == 1 { '1' } else if d == 2 { '2' } else if d == 3 { '3' } else if d == 4 {
        '4'
    } else if d == 5 { '5' } else if d == 6 { '6' } else if d == 7 { '7' } else if d == 8 { '8' } else { '9' }
}

fn digit(d: u8) -> (c: char)
    requires
        d < 10,
    ensures
        c == digit_char(d as nat),
{
    if d == 0 { '0' } else if d == 1 { '1' } else if d == 2 { '2' } else if d == 3 { '3' } else if d == 4 {
        '4'
    } else if d == 5 { '5' } else if d == 6 { '6' } else if d == 7 { '7' } else if d == 8 { '8' } else { '9' }
}

/// The decimal digits of `n`.
fn decimal_chars(n: u128) -> (r: Vec<char>)
    ensures
        r@ == decimal(n as nat),
    decreases n,
{
    if n < 10 {
        let mut v = Vec::new();
        v.push(digit(n as u8));
        v
    } else {
        let mut v = decimal_chars(n / 10);
        v.push(digit((n % 10) as u8));
        v
    }
}

/// The digits `d` with `sep` put before each group of three counted from the
/// right, as far as the first `k` digits.
pub open spec fn grouped(d: Seq<char>, sep: Seq<char>, k: nat) -> Seq<char>
    decreases k,
{
    if k == 0 {
        seq![]
    } else {
        let i = (k - 1) as int;
        let before = grouped(d, sep, (k - 1) as nat);
        let mark = if i > 0 && (d.len() - i) % 3 == 0 { sep } else { seq![] };
        before + mark + seq![d[i]]
    }
}

/// A number with a separator between groups of three digits: `1,234,567`.
pub fn format_number_with_separator(num: u64, separator: &str) -> (r: String)
    ensures
        r@ == grouped(decimal(num as nat), separator@, decimal(num as nat).len()),
{
    let chars = decimal_chars(num as u128);
    let sep = chars_of(separator);
    let mut out: Vec<char> = Vec::new();
    let mut i: usize = 0;
    while i < chars.len()
        invariant
            i <= chars@.len(),
            sep@ == separator@,
            out@ == grouped(chars@, sep@, i as nat),
        decreases chars@.len() - i,
    {
        let ghost before = out@;
        if i > 0 && (chars.len() - i) % 3 == 0 {
            let mut k: usize = 0;
            while k < sep.len()
                invariant
                    k <= sep@.len(),
                    out@ == before + sep@.subrange(0, k as int),
                decreases sep@.len() - k,
            {
                out.push(sep[k]);
                k += 1;
                assert(out@ =~= before + sep@.subrange(0, k as int));
            }
            assert(sep@.subrange(0, sep@.len() as int) =~= sep@);
        } else {
            assert(out@ =~= before + Seq::<char>::empty());
        }
        out.push(chars[i]);
        i += 1;
        assert(out@ =~= grouped(chars@, sep@, i as nat));
    }
    text_of(out.as_slice())
}

/// The share of `part` in `total` in tenths of a percent, rounded half up.
pub open spec fn tenths_of_percent(part: nat, total: nat) -> nat
    recommends
        total > 0,
{
    (part * 2000 + total) / (2 * total)
}

/// The share of `part` in `total` as a percentage with one decimal,
/// rounded half up: `33.3%`; `0.0%` when the total is zero.
pub fn format_percentage(part: u64, total: u64) -> (r: String)
    ensures
        total == 0 ==> r@ == seq!['0', '.', '0', '%'],
        total > 0 ==> r@ == decimal(tenths_of_percent(part as nat, total as nat) / 10) + seq![
            '.',
            digit_char(tenths_of_percent(part as nat, total as nat) % 10),
            '%',
        ],
{
    let mut out: Vec<char>;
    if total == 0 {
        out = Vec::new();
        out.push('0');
        out.push('.');
        out.push('0');
        out.push('%');
        assert(out@ =~= seq!['0', '.', '0', '%']);
    } else {
        let p = part as u128;
        let t = total as u128;
        assert(p * 2000 + t <= 0xffff_ffff_ffff_ffff_ffff_ffff_ffff_ffffu128) by (nonlinear_arith)
            requires
                p <= u64::MAX,
                t <= u64::MAX,
        ;
        let tenths = (p * 2000 + t) / (2 * t);
        out = decimal_chars(tenths / 10);
        let ghost head = out@;
        out.push('.');
        out.push(digit((tenths % 10) as u8));
        out.push('%');
        assert(out@ =~= head + seq!['.', digit_char((tenths % 10) as nat), '%']);
    }
    text_of(out.as_slice())
}

/// Seconds since the Unix epoch of a time given in whole seconds relative
/// to it; times before the epoch give zero.
pub fn system_time_to_timestamp(time: i64) -> (r: u64)
    ensures
        r == (if time < 0 { 0 } else { time as u64 }),
{
    if time < 0 { 0 } else { time as u64 }
}

/// The last component of a path, as `std::path::Path::file_name` gives it.
pub uninterp spec fn file_name_of(path: Seq<char>) -> Option<Seq<char>>;

/// The extension of a path, as `std::path::Path::extension` gives it.
pub uninterp spec fn extension_of(path: Seq<char>) -> Option<Seq<char>>;

/// Relies on `std::path::Path::file_name`: the last normal component.
#[verifier::external_body]
fn file_name_part(path: &str) -> (r: Option<String>)
    ensures
        r matches Some(s) ==> file_name_of(path@) == Some(s@),
        r is None ==> file_name_of(path@) is None,
{
    std::path::Path::new(path).file_name().and_then(|n| n.to_str()).map(|n| n.to_string())
}

/// Relies on `std::path::Path::extension`: the part of the file name after
/// its last dot.
#[verifier::external_body]
fn extension_part(path: &str) -> (r: Option<String>)
    ensures
        r matches Some(s) ==> extension_of(path@) == Some(s@),
        r is None ==> extension_of(path@) is None,
{
    std::path::Path::new(path).extension().and_then(|n| n.to_str()).map(|n| n.to_string())
}

/// Whether the file name of the path starts with a dot.
pub fn is_hidden_file(path: &str) -> (r: bool)
    ensures
        r == (file_name_of(path@) matches Some(n) && n.len() > 0 && n[0] == '.'),
{
    match file_name_part(path) {
        Some(n) => {
            let c = chars_of(n.as_str());
            c.len() > 0 && c[0] == '.'
        },
        None => false,
    }
}

/// The file name of a path, or the empty text when it has none.
pub fn path_file_name(path: &str) -> (r: String)
    ensures
        file_name_of(path@) matches Some(n) ==> r@ == n,
        file_name_of(path@) is None ==> r@.len() == 0,
{
    match file_name_part(path) {
        Some(n) => n,
        None => String::new(),
    }
}

/// The extension of a path, if it has one.
pub fn path_extension(path: &str) -> (r: Option<String>)
    ensures
        r matches Some(s) ==> extension_of(path@) == Some(s@),
        r is None ==> extension_of(path@) is None,
{
    extension_part(path)
}

/// How one character is shown: tab, newline and carriage return as their
/// escapes, other control characters as `\xNN`, the rest as they are.
pub open spec fn escape_char(c: char) -> Seq<char> {
    if c == '\t' {
        seq!['\\', 't']
    } else if c == '\n' {
        seq!['\\', 'n']
    } else if c == '\r' {
        seq!['\\', 'r']
    } else if is_control(c) {
        seq!['\\', 'x', hex_char(((c as u32) / 16) as nat), hex_char(((c as u32) % 16) as nat)]
    } else {
        seq![c]
    }
}

/// Control characters: the general category Cc.
pub open spec fn is_control(c: char) -> bool {
    (c as u32) < 0x20 || (0x7f <= (c as u32) && (c as u32) < 0xa0)
}

pub open spec fn hex_char(d: nat) -> char {
    if d < 10 { digit_char(d) } else if d == 10 { 'a' } else if d == 11 { 'b' } else if d == 12 { 'c' } else if d
        == 13 { 'd' } else if d == 14 { 'e' } else { 'f' }
}

fn hex(d: u32) -> (c: char)
    requires
        d < 16,
    ensures
        c == hex_char(d as nat),
{
    if d < 10 { digit(d as u8) } else if d == 10 { 'a' } else if d == 11 { 'b' } else if d == 12 { 'c' } else if d
        == 13 { 'd' } else if d == 14 { 'e' } else { 'f' }
}

/// The escaped form of the first `k` characters of `s`.
pub open spec fn escaped(s: Seq<char>, k: nat) -> Seq<char>
    decreases k,
{
    if k == 0 { seq![] } else { escaped(s, (k - 1) as nat) + escape_char(s[k - 1]) }
}

/// A text with its control characters escaped, for the terminal.
pub fn escape_for_display(s: &str) -> (r: String)
    ensures
        r@ == escaped(s@, s@.len()),
{
    let chars = chars_of(s);
    let mut out: Vec<char> = Vec::new();
    let mut i: usize = 0;
    while i < chars.len()
        invariant
            chars@ == s@,
            i <= chars@.len(),
            out@ == escaped(chars@, i as nat),
        decreases chars@.len() - i,
    {
        let c = chars[i];
        let ghost before = out@;
        let code = c as u32;
        if c == '\t' {
            out.push('\\');
            out.push('t');
        } else if c == '\n' {
            out.push('\\');
            out.push('n');
        } else if c == '\r' {
            out.push('\\');
            out.push('r');
        } else if code < 0x20 || (0x7f <= code && code < 0xa0) {
            out.push('\\');
            out.push('x');
            out.push(hex(code / 16));
            out.push(hex(code % 16));
            assert(out@ =~= before + escape_char(c));
        } else {
            out.push(c);
        }
        assert(out@ =~= before + escape_char(c));
        i += 1;
    }
    text_of(out.as_slice())
}

/// A text cut to `max_width` characters: when it is longer, its first
/// `max_width - 3` characters followed by `...`.
pub fn truncate_string(s: &str, max_width: usize) -> (r: String)
    ensures
        s@.len() <= max_width ==> r@ == s@,
        s@.len() > max_width ==> r@ == s@.take(if max_width >= 3 { max_width - 3 } else { 0 }) + seq![
            '.',
            '.',
            '.',
        ],
{
    let chars = chars_of(s);
    if chars.len() <= max_width {
        return text_of(chars.as_slice());
    }
    let keep: usize = if max_width >= 3 { max_width - 3 } else { 0 };
    let mut out: Vec<char> = Vec::new();
    let mut i: usize = 0;
    while i < keep
        invariant
            keep <= chars@.len(),
            i <= keep,
            out@ == chars@.take(i as int),
        decreases keep - i,
    {
        out.push(chars[i]);
        i += 1;
        assert(out@ =~= chars@.take(i as int));
    }
    let ghost head = out@;
    out.push('.');
    out.push('.');
    out.push('.');
    assert(out@ =~= head + seq!['.', '.', '.']);
    text_of(out.as_slice())
}

/// A text padded with spaces to `width` characters, on the left when
/// right-aligned; a text that is long enough is kept as it is.
pub fn pad_string(s: &str, width: usize, right_align: bool) -> (r: String)
    ensures
        s@.len() >= width ==> r@ == s@,
        s@.len() < width && right_align ==> r@ == Seq::new((width - s@.len()) as nat, |_i: int| ' ') + s@,
        s@.len() < width && !right_align ==> r@ == s@ + Seq::new((width - s@.len()) as nat, |_i: int| ' '),
{
    let chars = chars_of(s);
    let len = chars.len();
    if len >= width {
        return text_of(chars.as_slice());
    }
    let mut pad: Vec<char> = Vec::new();
    let mut i: usize = 0;
    while i < width - len
        invariant
            len < width,
            i <= width - len,
            pad@ =~= Seq::new(i as nat, |_i: int| ' '),
        decreases width - len - i,
    {
        pad.push(' ');
        i += 1;
        assert(pad@ =~= Seq::new(i as nat, |_i: int| ' '));
    }
    let mut out: Vec<char> = Vec::new();
    if right_align {
        out.append(&mut pad);
        let mut c = chars;
        out.append(&mut c);
    } else {
        let mut c = chars;
        out.append(&mut c);
        out.append(&mut pad);
    }
    text_of(out.as_slice())
}

} // verus!
