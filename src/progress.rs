//! What the scan reports to the interface while it runs.
use vstd::prelude::*;

use crate::model::{Entry, EntryType, ScanStats};
use crate::text::text_of;

verus! {

/// Live progress of a scan, as the interface shows it.
#[derive(Debug)]
pub struct ScanProgress {
    pub current_path: String,
    pub total_entries: usize,
    pub directories: usize,
    pub files: usize,
    pub errors: usize,
    pub total_size: usize,
    pub is_complete: bool,
}

impl Default for ScanProgress {
    fn default() -> (r: Self)
        ensures
            r.current_path@.len() == 0 && r.total_entries == 0 && r.directories == 0 && r.files == 0
                && r.errors == 0 && r.total_size == 0 && !r.is_complete,
    {
        ScanProgress {
            current_path: String::new(),
            total_entries: 0,
            directories: 0,
            files: 0,
            errors: 0,
            total_size: 0,
            is_complete: false,
        }
    }
}

/// A snapshot of the counters of a scan.
#[derive(Debug, Clone, Copy, PartialEq, Eq, Structural)]
pub struct ProgressStats {
    pub total_entries: u64,
    pub directories: u64,
    pub files: u64,
    pub errors: u64,
    pub total_size: u64,
}

impl ProgressStats {
    pub fn from_scan_stats(stats: &ScanStats) -> (r: Self)
        ensures
            r.total_entries == stats.total_entries,
            r.directories == stats.directories,
            r.files == stats.files,
            r.errors == stats.errors,
            r.total_size == stats.total_size,
    {
        ProgressStats {
            total_entries: stats.get_total_entries(),
            directories: stats.get_directories(),
            files: stats.get_files(),
            errors: stats.get_errors(),
            total_size: stats.get_total_size(),
        }
    }
}

/// What the scan tells its consumer.
#[derive(Debug)]
pub enum ScanMessage {
    Progress { current_path: String, stats: ProgressStats },
    Complete { root: Entry },
    Error { message: String },
}

/// Number of filled cells of a bar of `width` cells at `percentage` percent.
pub open spec fn filled_cells(percentage: nat, width: nat) -> nat {
    let f = percentage * width / 100;
    if f > width { width } else { f }
}

/// A bar of `width` cells, the first ones filled in proportion to the
/// percentage (rounded down, at most the whole bar).
pub fn create_percentage_bar(percentage: u8, width: usize) -> (r: String)
    ensures
        r@.len() == width,
        forall|i: int|
            0 <= i < width ==> #[trigger] r@[i] == (if i < filled_cells(percentage as nat, width as nat) {
                '\u{2588}'
            } else {
                ' '
            }),
{
    let mut bar: Vec<char> = Vec::new();
    if width == 0 {
        return text_of(bar.as_slice());
    }
    let p = percentage as u128;
    let w = width as u128;
    assert(p * w <= 255 * 0xffff_ffff_ffff_ffffu128) by (nonlinear_arith)
        requires
            p <= 255,
            w <= 0xffff_ffff_ffff_ffffu128,
    ;
    let f: u128 = p * w / 100;
    let filled: usize = if f > width as u128 { width } else { f as usize };
    let mut i: usize = 0;
    while i < width
        invariant
            i <= width,
            filled as nat == filled_cells(percentage as nat, width as nat),
            bar@.len() == i,
            forall|k: int| 0 <= k < i ==> #[trigger] bar@[k] == (if k < filled { '\u{2588}' } else { ' ' }),
        decreases width - i,
    {
        if i < filled {
            bar.push('\u{2588}');
        } else {
            bar.push(' ');
        }
        i += 1;
    }
    text_of(bar.as_slice())
}

/// The one-character marker of a classification in the listing.
pub fn type_indicator(t: EntryType) -> (r: char)
    ensures
        r == (match t {
            EntryType::Directory => '/',
            EntryType::File => ' ',
            EntryType::Symlink => '@',
            EntryType::Hardlink => '>',
            EntryType::Special => '=',
            EntryType::Error => '!',
            EntryType::Excluded => 'x',
            EntryType::OtherFs => '~',
            EntryType::KernelFs => '#',
        }),
{
    match t {
        EntryType::Directory => '/',
        EntryType::File => ' ',
        EntryType::Symlink => '@',
        EntryType::Hardlink => '>',
        EntryType::Special => '=',
        EntryType::Error => '!',
        EntryType::Excluded => 'x',
        EntryType::OtherFs => '~',
        EntryType::KernelFs => '#',
    }
}

} // verus!
