//! Command-line arguments as plain values, and their consistency rules.
use vstd::prelude::*;
use vstd::string::StringExecFns;

use crate::text::{chars_of, find_last, is_lit, last_index_of, slice_chars};

verus! {

/// Style of the usage bars.
#[derive(Debug, Clone, Copy, PartialEq, Eq, Structural)]
pub enum GraphStyle {
    Hash,
    HalfBlock,
    EighthBlock,
}

/// What the shared column shows.
#[derive(Debug, Clone, Copy, PartialEq, Eq, Structural)]
pub enum SharedColumn {
    Off,
    Shared,
    Unique,
}

/// Color scheme of the interface.
#[derive(Debug, Clone, Copy, PartialEq, Eq, Structural)]
pub enum ColorScheme {
    Off,
    Dark,
    DarkBg,
}

/// The options given on the command line.
#[derive(Debug)]
pub struct Args {
    pub directory: Option<String>,
    pub import_file: Option<String>,
    pub export_json: Option<String>,
    pub export_binary: Option<String>,
    pub same_fs: bool,
    pub cross_fs: bool,
    pub extended: bool,
    pub no_extended: bool,
    pub follow_symlinks: bool,
    pub no_follow_symlinks: bool,
    pub exclude: Vec<String>,
    pub exclude_from: Option<String>,
    pub exclude_caches: bool,
    pub include_caches: bool,
    pub exclude_kernfs: bool,
    pub include_kernfs: bool,
    pub threads: Option<usize>,
    pub compress: bool,
    pub no_compress: bool,
    pub compress_level: Option<u8>,
    pub export_block_size: Option<u16>,
    pub ui_none: bool,
    pub ui_line: bool,
    pub ui_full: bool,
    pub slow_updates: bool,
    pub fast_updates: bool,
    pub enable_shell: bool,
    pub disable_shell: bool,
    pub enable_delete: bool,
    pub disable_delete: bool,
    pub enable_refresh: bool,
    pub disable_refresh: bool,
    pub read_only: bool,
    pub si: bool,
    pub no_si: bool,
    pub apparent_size: bool,
    pub disk_usage: bool,
    pub show_hidden: bool,
    pub hide_hidden: bool,
    pub show_itemcount: bool,
    pub hide_itemcount: bool,
    pub show_mtime: bool,
    pub hide_mtime: bool,
    pub show_graph: bool,
    pub hide_graph: bool,
    pub show_percent: bool,
    pub hide_percent: bool,
    pub graph_style: Option<GraphStyle>,
    pub shared_column: Option<SharedColumn>,
    pub sort: Option<String>,
    pub enable_natsort: bool,
    pub disable_natsort: bool,
    pub group_directories_first: bool,
    pub no_group_directories_first: bool,
    pub confirm_quit: bool,
    pub no_confirm_quit: bool,
    pub confirm_delete: bool,
    pub no_confirm_delete: bool,
    pub delete_command: Option<String>,
    pub color: Option<ColorScheme>,
    pub ignore_config: bool,
}

pub open spec fn is_sort_column_name(s: Seq<char>) -> bool {
    s == "name"@ || s == "disk-usage"@ || s == "apparent-size"@ || s == "itemcount"@ || s == "mtime"@
}

pub open spec fn is_sort_order_name(s: Seq<char>) -> bool {
    s == "asc"@ || s == "desc"@
}

/// A sort option is a column name, or a column name and an order joined by
/// the last `-` of the text.
pub open spec fn valid_sort_option(s: Seq<char>) -> bool {
    let k = last_index_of(s, '-');
    if k >= 0 {
        is_sort_column_name(s.take(k)) && is_sort_order_name(s.skip(k + 1))
    } else {
        is_sort_column_name(s)
    }
}

fn column_name(s: &Vec<char>) -> (r: bool)
    ensures
        r == is_sort_column_name(s@),
{
    is_lit(s, "name") || is_lit(s, "disk-usage") || is_lit(s, "apparent-size") || is_lit(s, "itemcount")
        || is_lit(s, "mtime")
}

/// Whether a sort option names a known column, and a known order if any.
pub fn is_valid_sort_option(sort: &str) -> (r: bool)
    ensures
        r == valid_sort_option(sort@),
{
    let s = chars_of(sort);
    proof {
        crate::text::lemma_last_index_bounds(s@, '-');
    }
    match find_last(&s, '-') {
        Some(k) => {
            let column = slice_chars(&s, 0, k);
            let order = slice_chars(&s, k + 1, s.len());
            assert(column@ =~= s@.take(k as int));
            assert(order@ =~= s@.skip(k + 1));
            column_name(&column) && (is_lit(&order, "asc") || is_lit(&order, "desc"))
        },
        None => column_name(&s),
    }
}

/// The first inconsistency of a set of arguments, as its message.
pub open spec fn validation_error(a: Args) -> Option<Seq<char>> {
    if (a.ui_none as int) + (a.ui_line as int) + (a.ui_full as int) > 1 {
        Some("Only one UI mode can be specified"@)
    } else if a.same_fs && a.cross_fs {
        Some("--one-file-system and --cross-file-system are mutually exclusive"@)
    } else if a.extended && a.no_extended {
        Some("--extended and --no-extended are mutually exclusive"@)
    } else if a.follow_symlinks && a.no_follow_symlinks {
        Some("--follow-symlinks and --no-follow-symlinks are mutually exclusive"@)
    } else if a.exclude_caches && a.include_caches {
        Some("--exclude-caches and --include-caches are mutually exclusive"@)
    } else if a.exclude_kernfs && a.include_kernfs {
        Some("--exclude-kernfs and --include-kernfs are mutually exclusive"@)
    } else if a.compress && a.no_compress {
        Some("--compress and --no-compress are mutually exclusive"@)
    } else if a.si && a.no_si {
        Some("--si and --no-si are mutually exclusive"@)
    } else if a.apparent_size && a.disk_usage {
        Some("--apparent-size and --disk-usage are mutually exclusive"@)
    } else if a.show_hidden && a.hide_hidden {
        Some("--show-hidden and --hide-hidden are mutually exclusive"@)
    } else if a.enable_natsort && a.disable_natsort {
        Some("--enable-natsort and --disable-natsort are mutually exclusive"@)
    } else if a.group_directories_first && a.no_group_directories_first {
        Some("--group-directories-first and --no-group-directories-first are mutually exclusive"@)
    } else if a.confirm_quit && a.no_confirm_quit {
        Some("--confirm-quit and --no-confirm-quit are mutually exclusive"@)
    } else if a.confirm_delete && a.no_confirm_delete {
        Some("--confirm-delete and --no-confirm-delete are mutually exclusive"@)
    } else if a.threads == Some(0usize) {
        Some("Number of threads must be greater than 0"@)
    } else if a.compress_level matches Some(l) && !(1 <= l && l <= 22) {
        Some("Compression level must be between 1 and 22"@)
    } else if a.export_block_size matches Some(b) && !(4 <= b && b <= 16000) {
        Some("Export block size must be between 4 and 16000 KiB"@)
    } else if a.sort matches Some(s) && !valid_sort_option(s@) {
        Some("Invalid sort option: "@ + a.sort->Some_0@)
    } else {
        None
    }
}

fn fail(msg: &str) -> (r: core::result::Result<(), String>)
    ensures
        r matches Err(m) && m@ == msg@,
{
    Err(<String as StringExecFns>::from_str(msg))
}

impl Args {
    /// Checks that no two options contradict each other and that numbers and
    /// the sort option are in range; the error is the first problem found.
    pub fn validate(&self) -> (r: core::result::Result<(), String>)
        ensures
            r is Ok <==> validation_error(*self) is None,
            r matches Err(m) ==> validation_error(*self) == Some(m@),
    {
        if (self.ui_none as u8) + (self.ui_line as u8) + (self.ui_full as u8) > 1 {
            return fail("Only one UI mode can be specified");
        }
        if self.same_fs && self.cross_fs {
            return fail("--one-file-system and --cross-file-system are mutually exclusive");
        }
        if self.extended && self.no_extended {
            return fail("--extended and --no-extended are mutually exclusive");
        }
        if self.follow_symlinks && self.no_follow_symlinks {
            return fail("--follow-symlinks and --no-follow-symlinks are mutually exclusive");
        }
        if self.exclude_caches && self.include_caches {
            return fail("--exclude-caches and --include-caches are mutually exclusive");
        }
        if self.exclude_kernfs && self.include_kernfs {
            return fail("--exclude-kernfs and --include-kernfs are mutually exclusive");
        }
        if self.compress && self.no_compress {
            return fail("--compress and --no-compress are mutually exclusive");
        }
        if self.si && self.no_si {
            return fail("--si and --no-si are mutually exclusive");
        }
        if self.apparent_size && self.disk_usage {
            return fail("--apparent-size and --disk-usage are mutually exclusive");
        }
        if self.show_hidden && self.hide_hidden {
            return fail("--show-hidden and --hide-hidden are mutually exclusive");
        }
        if self.enable_natsort && self.disable_natsort {
            return fail("--enable-natsort and --disable-natsort are mutually exclusive");
        }
        if self.group_directories_first && self.no_group_directories_first {
            return fail("--group-directories-first and --no-group-directories-first are mutually exclusive");
        }
        if self.confirm_quit && self.no_confirm_quit {
            return fail("--confirm-quit and --no-confirm-quit are mutually exclusive");
        }
        if self.confirm_delete && self.no_confirm_delete {
            return fail("--confirm-delete and --no-confirm-delete are mutually exclusive");
        }
        if let Some(threads) = self.threads {
            if threads == 0 {
                return fail("Number of threads must be greater than 0");
            }
        }
        if let Some(level) = self.compress_level {
            if !(1 <= level && level <= 22) {
                return fail("Compression level must be between 1 and 22");
            }
        }
        if let Some(block_size) = self.export_block_size {
            if !(4 <= block_size && block_size <= 16000) {
                return fail("Export block size must be between 4 and 16000 KiB");
            }
        }
        if let Some(sort) = &self.sort {
            if !is_valid_sort_option(sort.as_str()) {
                return Err(<String as StringExecFns>::from_str("Invalid sort option: ").concat(sort.as_str()));
            }
        }
        Ok(())
    }
}

} // verus!
