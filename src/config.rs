//! Configuration of a scan and of the interface.
use vstd::prelude::*;

use vstd::string::StringExecFns;

use crate::cli::{Args, ColorScheme, GraphStyle, SharedColumn};
use crate::error::RsduError;
use crate::text::{
    chars_of, find_first, find_last, first_index_of, is_lit, last_index_of, parse_number, parse_unsigned,
    slice_chars,
    text_of, trim_chars, trimmed,
};

verus! {

/// Interface shown during a scan.
#[derive(Debug, Clone, Copy, PartialEq, Eq, Structural)]
pub enum ScanUi {
    NoUi,
    Line,
    Full,
}

/// Column that orders a directory listing.
#[derive(Debug, Clone, Copy, PartialEq, Eq, Structural)]
pub enum SortColumn {
    Name,
    Blocks,
    Size,
    Items,
    Mtime,
}

/// Direction of the listing order.
#[derive(Debug, Clone, Copy, PartialEq, Eq, Structural)]
pub enum SortOrder {
    Asc,
    Desc,
}

/// Every option of a scan and of the interface.
#[derive(Debug)]
pub struct Config {
    pub same_fs: bool,
    pub extended: bool,
    pub follow_symlinks: bool,
    pub exclude_caches: bool,
    pub exclude_kernfs: bool,
    pub threads: usize,
    pub exclude_patterns: Vec<String>,
    pub compress: bool,
    pub compress_level: u8,
    pub export_block_size: Option<usize>,
    pub export_json: Option<String>,
    pub export_binary: Option<String>,
    pub scan_ui: Option<ScanUi>,
    /// Delay between interface updates, in milliseconds.
    pub update_delay_ms: u64,
    pub si: bool,
    pub color: ColorScheme,
    pub show_hidden: bool,
    /// Disk usage rather than apparent size.
    pub show_blocks: bool,
    pub show_shared: SharedColumn,
    pub show_items: bool,
    pub show_mtime: bool,
    pub show_graph: bool,
    pub show_percent: bool,
    pub graph_style: GraphStyle,
    pub sort_col: SortColumn,
    pub sort_order: SortOrder,
    pub sort_dirs_first: bool,
    pub sort_natural: bool,
    pub can_delete: Option<bool>,
    pub can_shell: Option<bool>,
    pub can_refresh: Option<bool>,
    pub confirm_quit: bool,
    pub confirm_delete: bool,
    pub delete_command: String,
    pub imported: bool,
}

/// Relies on `num_cpus::get`: the number of logical CPUs available.
#[verifier::external_body]
fn cpu_count() -> (r: usize) {
    num_cpus::get()
}

/// The default number of scan threads: the CPU count, at least one.
pub fn default_threads() -> (r: usize)
    ensures
        r >= 1,
{
    let n = cpu_count();
    if n < 1 { 1 } else { n }
}

/// The default configuration, with `threads` as the number of scan threads.
pub open spec fn is_default_with(c: Config, threads: usize) -> bool {
    &&& !c.same_fs && !c.extended && !c.follow_symlinks && !c.exclude_caches && !c.exclude_kernfs
    &&& c.threads == threads
    &&& c.exclude_patterns@.len() == 0
    &&& !c.compress && c.compress_level == 4
    &&& c.export_block_size is None && c.export_json is None && c.export_binary is None
    &&& c.scan_ui is None && c.update_delay_ms == 100 && !c.si && c.color == ColorScheme::Off
    &&& c.show_hidden && c.show_blocks && c.show_shared == SharedColumn::Shared
    &&& !c.show_items && !c.show_mtime && c.show_graph && !c.show_percent
    &&& c.graph_style == GraphStyle::Hash
    &&& c.sort_col == SortColumn::Size && c.sort_order == SortOrder::Desc
    &&& !c.sort_dirs_first && c.sort_natural
    &&& c.can_delete is None && c.can_shell is None && c.can_refresh is None
    &&& !c.confirm_quit && c.confirm_delete && c.delete_command@.len() == 0
    &&& !c.imported
}

impl Config {
    /// The default configuration with a given number of scan threads.
    pub fn with_threads(threads: usize) -> (r: Self)
        ensures
            is_default_with(r, threads),
    {
        Config {
            same_fs: false,
            extended: false,
            follow_symlinks: false,
            exclude_caches: false,
            exclude_kernfs: false,
            threads,
            exclude_patterns: Vec::new(),
            compress: false,
            compress_level: 4,
            export_block_size: None,
            export_json: None,
            export_binary: None,
            scan_ui: None,
            update_delay_ms: 100,
            si: false,
            color: ColorScheme::Off,
            show_hidden: true,
            show_blocks: true,
            show_shared: SharedColumn::Shared,
            show_items: false,
            show_mtime: false,
            show_graph: true,
            show_percent: false,
            graph_style: GraphStyle::Hash,
            sort_col: SortColumn::Size,
            sort_order: SortOrder::Desc,
            sort_dirs_first: false,
            sort_natural: true,
            can_delete: None,
            can_shell: None,
            can_refresh: None,
            confirm_quit: false,
            confirm_delete: true,
            delete_command: String::new(),
            imported: false,
        }
    }
}

/// A setting that a boolean flag of a configuration file switches.
#[derive(Debug, Clone, Copy, PartialEq, Eq, Structural)]
pub enum FlagSetting {
    SameFs,
    Extended,
    FollowSymlinks,
    ExcludeCaches,
    ExcludeKernfs,
    Compress,
    Si,
    ShowHidden,
    ShowBlocks,
    ShowItems,
    ShowMtime,
    ShowGraph,
    ShowPercent,
    DirsFirst,
    Natural,
    ConfirmQuit,
    ConfirmDelete,
    CanShell,
    CanDelete,
    CanRefresh,
}

/// The setting that a flag switches, and to which value.
#[verifier::opaque]
pub open spec fn flag_target(f: Seq<char>) -> Option<(FlagSetting, bool)> {
    if f == "same-fs"@ {
        Some((FlagSetting::SameFs, true))
    } else if f == "one-file-system"@ {
        Some((FlagSetting::SameFs, true))
    } else if f == "cross-file-system"@ {
        Some((FlagSetting::SameFs, false))
    } else if f == "extended"@ {
        Some((FlagSetting::Extended, true))
    } else if f == "no-extended"@ {
        Some((FlagSetting::Extended, false))
    } else if f == "follow-symlinks"@ {
        Some((FlagSetting::FollowSymlinks, true))
    } else if f == "no-follow-symlinks"@ {
        Some((FlagSetting::FollowSymlinks, false))
    } else if f == "exclude-caches"@ {
        Some((FlagSetting::ExcludeCaches, true))
    } else if f == "include-caches"@ {
        Some((FlagSetting::ExcludeCaches, false))
    } else if f == "exclude-kernfs"@ {
        Some((FlagSetting::ExcludeKernfs, true))
    } else if f == "include-kernfs"@ {
        Some((FlagSetting::ExcludeKernfs, false))
    } else if f == "compress"@ {
        Some((FlagSetting::Compress, true))
    } else if f == "no-compress"@ {
        Some((FlagSetting::Compress, false))
    } else if f == "si"@ {
        Some((FlagSetting::Si, true))
    } else if f == "no-si"@ {
        Some((FlagSetting::Si, false))
    } else if f == "show-hidden"@ {
        Some((FlagSetting::ShowHidden, true))
    } else if f == "hide-hidden"@ {
        Some((FlagSetting::ShowHidden, false))
    } else if f == "apparent-size"@ {
        Some((FlagSetting::ShowBlocks, false))
    } else if f == "disk-usage"@ {
        Some((FlagSetting::ShowBlocks, true))
    } else if f == "show-itemcount"@ {
        Some((FlagSetting::ShowItems, true))
    } else if f == "hide-itemcount"@ {
        Some((FlagSetting::ShowItems, false))
    } else if f == "show-mtime"@ {
        Some((FlagSetting::ShowMtime, true))
    } else if f == "hide-mtime"@ {
        Some((FlagSetting::ShowMtime, false))
    } else if f == "show-graph"@ {
        Some((FlagSetting::ShowGraph, true))
    } else if f == "hide-graph"@ {
        Some((FlagSetting::ShowGraph, false))
    } else if f == "show-percent"@ {
        Some((FlagSetting::ShowPercent, true))
    } else if f == "hide-percent"@ {
        Some((FlagSetting::ShowPercent, false))
    } else if f == "group-directories-first"@ {
        Some((FlagSetting::DirsFirst, true))
    } else if f == "no-group-directories-first"@ {
        Some((FlagSetting::DirsFirst, false))
    } else if f == "enable-natsort"@ {
        Some((FlagSetting::Natural, true))
    } else if f == "disable-natsort"@ {
        Some((FlagSetting::Natural, false))
    } else if f == "confirm-quit"@ {
        Some((FlagSetting::ConfirmQuit, true))
    } else if f == "no-confirm-quit"@ {
        Some((FlagSetting::ConfirmQuit, false))
    } else if f == "confirm-delete"@ {
        Some((FlagSetting::ConfirmDelete, true))
    } else if f == "no-confirm-delete"@ {
        Some((FlagSetting::ConfirmDelete, false))
    } else if f == "enable-shell"@ {
        Some((FlagSetting::CanShell, true))
    } else if f == "disable-shell"@ {
        Some((FlagSetting::CanShell, false))
    } else if f == "enable-delete"@ {
        Some((FlagSetting::CanDelete, true))
    } else if f == "disable-delete"@ {
        Some((FlagSetting::CanDelete, false))
    } else if f == "enable-refresh"@ {
        Some((FlagSetting::CanRefresh, true))
    } else if f == "disable-refresh"@ {
        Some((FlagSetting::CanRefresh, false))
    } else {
        None
    }
}

/// The value that setting `s` has in `c`, as a flag value (unset counts as false).
pub open spec fn setting_of(c: Config, s: FlagSetting) -> Option<bool> {
    match s {
        FlagSetting::SameFs => Some(c.same_fs),
        FlagSetting::Extended => Some(c.extended),
        FlagSetting::FollowSymlinks => Some(c.follow_symlinks),
        FlagSetting::ExcludeCaches => Some(c.exclude_caches),
        FlagSetting::ExcludeKernfs => Some(c.exclude_kernfs),
        FlagSetting::Compress => Some(c.compress),
        FlagSetting::Si => Some(c.si),
        FlagSetting::ShowHidden => Some(c.show_hidden),
        FlagSetting::ShowBlocks => Some(c.show_blocks),
        FlagSetting::ShowItems => Some(c.show_items),
        FlagSetting::ShowMtime => Some(c.show_mtime),
        FlagSetting::ShowGraph => Some(c.show_graph),
        FlagSetting::ShowPercent => Some(c.show_percent),
        FlagSetting::DirsFirst => Some(c.sort_dirs_first),
        FlagSetting::Natural => Some(c.sort_natural),
        FlagSetting::ConfirmQuit => Some(c.confirm_quit),
        FlagSetting::ConfirmDelete => Some(c.confirm_delete),
        FlagSetting::CanShell => c.can_shell,
        FlagSetting::CanDelete => c.can_delete,
        FlagSetting::CanRefresh => c.can_refresh,
    }
}

fn find_flag(f: &Vec<char>) -> (r: Option<(FlagSetting, bool)>)
    ensures
        r == flag_target(f@),
{
    reveal(flag_target);
    if is_lit(f, "same-fs") {
        Some((FlagSetting::SameFs, true))
    } else if is_lit(f, "one-file-system") {
        Some((FlagSetting::SameFs, true))
    } else if is_lit(f, "cross-file-system") {
        Some((FlagSetting::SameFs, false))
    } else if is_lit(f, "extended") {
        Some((FlagSetting::Extended, true))
    } else if is_lit(f, "no-extended") {
        Some((FlagSetting::Extended, false))
    } else if is_lit(f, "follow-symlinks") {
        Some((FlagSetting::FollowSymlinks, true))
    } else if is_lit(f, "no-follow-symlinks") {
        Some((FlagSetting::FollowSymlinks, false))
    } else if is_lit(f, "exclude-caches") {
        Some((FlagSetting::ExcludeCaches, true))
    } else if is_lit(f, "include-caches") {
        Some((FlagSetting::ExcludeCaches, false))
    } else if is_lit(f, "exclude-kernfs") {
        Some((FlagSetting::ExcludeKernfs, true))
    } else if is_lit(f, "include-kernfs") {
        Some((FlagSetting::ExcludeKernfs, false))
    } else if is_lit(f, "compress") {
        Some((FlagSetting::Compress, true))
    } else if is_lit(f, "no-compress") {
        Some((FlagSetting::Compress, false))
    } else if is_lit(f, "si") {
        Some((FlagSetting::Si, true))
    } else if is_lit(f, "no-si") {
        Some((FlagSetting::Si, false))
    } else if is_lit(f, "show-hidden") {
        Some((FlagSetting::ShowHidden, true))
    } else if is_lit(f, "hide-hidden") {
        Some((FlagSetting::ShowHidden, false))
    } else if is_lit(f, "apparent-size") {
        Some((FlagSetting::ShowBlocks, false))
    } else if is_lit(f, "disk-usage") {
        Some((FlagSetting::ShowBlocks, true))
    } else if is_lit(f, "show-itemcount") {
        Some((FlagSetting::ShowItems, true))
    } else if is_lit(f, "hide-itemcount") {
        Some((FlagSetting::ShowItems, false))
    } else if is_lit(f, "show-mtime") {
        Some((FlagSetting::ShowMtime, true))
    } else if is_lit(f, "hide-mtime") {
        Some((FlagSetting::ShowMtime, false))
    } else if is_lit(f, "show-graph") {
        Some((FlagSetting::ShowGraph, true))
    } else if is_lit(f, "hide-graph") {
        Some((FlagSetting::ShowGraph, false))
    } else if is_lit(f, "show-percent") {
        Some((FlagSetting::ShowPercent, true))
    } else if is_lit(f, "hide-percent") {
        Some((FlagSetting::ShowPercent, false))
    } else if is_lit(f, "group-directories-first") {
        Some((FlagSetting::DirsFirst, true))
    } else if is_lit(f, "no-group-directories-first") {
        Some((FlagSetting::DirsFirst, false))
    } else if is_lit(f, "enable-natsort") {
        Some((FlagSetting::Natural, true))
    } else if is_lit(f, "disable-natsort") {
        Some((FlagSetting::Natural, false))
    } else if is_lit(f, "confirm-quit") {
        Some((FlagSetting::ConfirmQuit, true))
    } else if is_lit(f, "no-confirm-quit") {
        Some((FlagSetting::ConfirmQuit, false))
    } else if is_lit(f, "confirm-delete") {
        Some((FlagSetting::ConfirmDelete, true))
    } else if is_lit(f, "no-confirm-delete") {
        Some((FlagSetting::ConfirmDelete, false))
    } else if is_lit(f, "enable-shell") {
        Some((FlagSetting::CanShell, true))
    } else if is_lit(f, "disable-shell") {
        Some((FlagSetting::CanShell, false))
    } else if is_lit(f, "enable-delete") {
        Some((FlagSetting::CanDelete, true))
    } else if is_lit(f, "disable-delete") {
        Some((FlagSetting::CanDelete, false))
    } else if is_lit(f, "enable-refresh") {
        Some((FlagSetting::CanRefresh, true))
    } else if is_lit(f, "disable-refresh") {
        Some((FlagSetting::CanRefresh, false))
    } else {
        None
    }
}

/// The column that a sort option names.
#[verifier::opaque]
pub open spec fn sort_column_of(s: Seq<char>) -> Option<SortColumn> {
    if s == "name"@ {
        Some(SortColumn::Name)
    } else if s == "disk-usage"@ || s == "blocks"@ {
        Some(SortColumn::Blocks)
    } else if s == "apparent-size"@ {
        Some(SortColumn::Size)
    } else if s == "itemcount"@ {
        Some(SortColumn::Items)
    } else if s == "mtime"@ {
        Some(SortColumn::Mtime)
    } else {
        None
    }
}

/// Names sort ascending by default, sizes and counts descending.
pub open spec fn default_order(c: SortColumn) -> SortOrder {
    match c {
        SortColumn::Name | SortColumn::Mtime => SortOrder::Asc,
        _ => SortOrder::Desc,
    }
}

/// The order that a sort option's suffix names.
#[verifier::opaque]
pub open spec fn order_named(s: Seq<char>) -> Option<SortOrder> {
    if s == "asc"@ {
        Some(SortOrder::Asc)
    } else if s == "desc"@ {
        Some(SortOrder::Desc)
    } else {
        None
    }
}

/// The column part of a sort option: the text before its last `-`, or all of it.
pub open spec fn sort_column_part(s: Seq<char>) -> Seq<char> {
    let k = last_index_of(s, '-');
    if k >= 0 { s.take(k) } else { s }
}

/// What a sort option chooses: a column and an order, or `None` when it is
/// rejected. Without a `-` the column's default order applies.
pub open spec fn sort_choice(s: Seq<char>) -> Option<(SortColumn, SortOrder)> {
    let k = last_index_of(s, '-');
    match sort_column_of(sort_column_part(s)) {
        None => None,
        Some(c) => if k < 0 {
            Some((c, default_order(c)))
        } else {
            match order_named(s.skip(k + 1)) {
                Some(o) => Some((c, o)),
                None => None,
            }
        },
    }
}

/// The keys of a configuration file's `key=value` options.
#[derive(Debug, Clone, Copy, PartialEq, Eq, Structural)]
pub enum OptionKey {
    Threads,
    CompressLevel,
    ExportBlockSize,
    Exclude,
    DeleteCommand,
    Extended,
    Color,
    GraphStyle,
    SharedColumn,
    Sort,
}

#[verifier::opaque]
pub open spec fn option_key(k: Seq<char>) -> Option<OptionKey> {
    if k == "threads"@ {
        Some(OptionKey::Threads)
    } else if k == "compress-level"@ {
        Some(OptionKey::CompressLevel)
    } else if k == "export-block-size"@ {
        Some(OptionKey::ExportBlockSize)
    } else if k == "exclude"@ {
        Some(OptionKey::Exclude)
    } else if k == "delete-command"@ {
        Some(OptionKey::DeleteCommand)
    } else if k == "extended"@ {
        Some(OptionKey::Extended)
    } else if k == "color"@ {
        Some(OptionKey::Color)
    } else if k == "graph-style"@ {
        Some(OptionKey::GraphStyle)
    } else if k == "shared-column"@ {
        Some(OptionKey::SharedColumn)
    } else if k == "sort"@ {
        Some(OptionKey::Sort)
    } else {
        None
    }
}

#[verifier::opaque]
pub open spec fn bool_named(v: Seq<char>) -> Option<bool> {
    if v == "true"@ { Some(true) } else if v == "false"@ { Some(false) } else { None }
}

#[verifier::opaque]
pub open spec fn color_named(v: Seq<char>) -> Option<ColorScheme> {
    if v == "off"@ {
        Some(ColorScheme::Off)
    } else if v == "dark"@ {
        Some(ColorScheme::Dark)
    } else if v == "dark-bg"@ {
        Some(ColorScheme::DarkBg)
    } else {
        None
    }
}

#[verifier::opaque]
pub open spec fn graph_style_named(v: Seq<char>) -> Option<GraphStyle> {
    if v == "hash"@ {
        Some(GraphStyle::Hash)
    } else if v == "half-block"@ {
        Some(GraphStyle::HalfBlock)
    } else if v == "eighth-block"@ {
        Some(GraphStyle::EighthBlock)
    } else {
        None
    }
}

#[verifier::opaque]
pub open spec fn shared_column_named(v: Seq<char>) -> Option<SharedColumn> {
    if v == "off"@ {
        Some(SharedColumn::Off)
    } else if v == "shared"@ {
        Some(SharedColumn::Shared)
    } else if v == "unique"@ {
        Some(SharedColumn::Unique)
    } else {
        None
    }
}

/// Whether a `key=value` option of a configuration file is accepted.
pub open spec fn option_accepted(key: Seq<char>, value: Seq<char>) -> bool {
    match option_key(key) {
        None => false,
        Some(OptionKey::Threads) => parse_unsigned(value, usize::MAX as nat) is Some,
        Some(OptionKey::CompressLevel) => parse_unsigned(value, u8::MAX as nat) is Some,
        Some(OptionKey::ExportBlockSize) => parse_unsigned(value, u16::MAX as nat) is Some,
        Some(OptionKey::Exclude) | Some(OptionKey::DeleteCommand) => true,
        Some(OptionKey::Extended) => bool_named(value) is Some,
        Some(OptionKey::Color) => color_named(value) is Some,
        Some(OptionKey::GraphStyle) => graph_style_named(value) is Some,
        Some(OptionKey::SharedColumn) => shared_column_named(value) is Some,
        Some(OptionKey::Sort) => sort_choice(value) is Some,
    }
}

/// Whether one line of a configuration file is accepted: blank lines,
/// comments and lines marked with `@` always are; `key=value` lines when the
/// option is, other lines when they name a flag.
pub open spec fn line_accepted(line: Seq<char>) -> bool {
    let t = trimmed(line);
    if t.len() == 0 || t[0] == '#' || t[0] == '@' {
        true
    } else {
        let i = first_index_of(t, '=');
        if i >= 0 {
            option_accepted(trimmed(t.take(i)), trimmed(t.skip(i + 1)))
        } else {
            flag_target(t) is Some
        }
    }
}

/// Whether every line of a text is accepted.
pub open spec fn lines_accepted(s: Seq<char>) -> bool
    decreases s.len(),
    via lines_accepted_decreases
{
    let i = first_index_of(s, '\n');
    if i < 0 {
        line_accepted(s)
    } else {
        line_accepted(s.take(i)) && lines_accepted(s.skip(i + 1))
    }
}

#[via_fn]
proof fn lines_accepted_decreases(s: Seq<char>) {
    lemma_first_index_bounds(s, '\n');
}

proof fn lemma_first_index_bounds(s: Seq<char>, c: char)
    ensures
        -1 <= first_index_of(s, c) < s.len(),
        first_index_of(s, c) >= 0 ==> s[first_index_of(s, c)] == c,
    decreases s.len(),
{
    if s.len() > 0 && s[0] != c {
        lemma_first_index_bounds(s.drop_first(), c);
    }
}

fn find_option_key(k: &Vec<char>) -> (r: Option<OptionKey>)
    ensures
        r == option_key(k@),
{
    reveal(option_key);
    if is_lit(k, "threads") {
        Some(OptionKey::Threads)
    } else if is_lit(k, "compress-level") {
        Some(OptionKey::CompressLevel)
    } else if is_lit(k, "export-block-size") {
        Some(OptionKey::ExportBlockSize)
    } else if is_lit(k, "exclude") {
        Some(OptionKey::Exclude)
    } else if is_lit(k, "delete-command") {
        Some(OptionKey::DeleteCommand)
    } else if is_lit(k, "extended") {
        Some(OptionKey::Extended)
    } else if is_lit(k, "color") {
        Some(OptionKey::Color)
    } else if is_lit(k, "graph-style") {
        Some(OptionKey::GraphStyle)
    } else if is_lit(k, "shared-column") {
        Some(OptionKey::SharedColumn)
    } else if is_lit(k, "sort") {
        Some(OptionKey::Sort)
    } else {
        None
    }
}

fn find_order(v: &Vec<char>) -> (r: Option<SortOrder>)
    ensures
        r == order_named(v@),
{
    reveal(order_named);
    if is_lit(v, "asc") {
        Some(SortOrder::Asc)
    } else if is_lit(v, "desc") {
        Some(SortOrder::Desc)
    } else {
        None
    }
}

fn find_bool(v: &Vec<char>) -> (r: Option<bool>)
    ensures
        r == bool_named(v@),
{
    reveal(bool_named);
    if is_lit(v, "true") {
        Some(true)
    } else if is_lit(v, "false") {
        Some(false)
    } else {
        None
    }
}

fn find_color(v: &Vec<char>) -> (r: Option<ColorScheme>)
    ensures
        r == color_named(v@),
{
    reveal(color_named);
    if is_lit(v, "off") {
        Some(ColorScheme::Off)
    } else if is_lit(v, "dark") {
        Some(ColorScheme::Dark)
    } else if is_lit(v, "dark-bg") {
        Some(ColorScheme::DarkBg)
    } else {
        None
    }
}

fn find_graph_style(v: &Vec<char>) -> (r: Option<GraphStyle>)
    ensures
        r == graph_style_named(v@),
{
    reveal(graph_style_named);
    if is_lit(v, "hash") {
        Some(GraphStyle::Hash)
    } else if is_lit(v, "half-block") {
        Some(GraphStyle::HalfBlock)
    } else if is_lit(v, "eighth-block") {
        Some(GraphStyle::EighthBlock)
    } else {
        None
    }
}

fn find_shared_column(v: &Vec<char>) -> (r: Option<SharedColumn>)
    ensures
        r == shared_column_named(v@),
{
    reveal(shared_column_named);
    if is_lit(v, "off") {
        Some(SharedColumn::Off)
    } else if is_lit(v, "shared") {
        Some(SharedColumn::Shared)
    } else if is_lit(v, "unique") {
        Some(SharedColumn::Unique)
    } else {
        None
    }
}

fn find_sort_column(s: &Vec<char>) -> (r: Option<SortColumn>)
    ensures
        r == sort_column_of(s@),
{
    reveal(sort_column_of);
    if is_lit(s, "name") {
        Some(SortColumn::Name)
    } else if is_lit(s, "disk-usage") || is_lit(s, "blocks") {
        Some(SortColumn::Blocks)
    } else if is_lit(s, "apparent-size") {
        Some(SortColumn::Size)
    } else if is_lit(s, "itemcount") {
        Some(SortColumn::Items)
    } else if is_lit(s, "mtime") {
        Some(SortColumn::Mtime)
    } else {
        None
    }
}

fn clone_text(t: &Option<String>) -> (r: Option<String>)
    ensures
        r == *t,
{
    match t {
        Some(s) => Some(s.clone()),
        None => None,
    }
}

/// The column that a sort option names, and what it chooses if accepted.
fn read_sort_option(sort: &str) -> (r: (Option<SortColumn>, Option<(SortColumn, SortOrder)>))
    ensures
        r.0 == sort_column_of(sort_column_part(sort@)),
        r.1 == sort_choice(sort@),
{
    let s = chars_of(sort);
    proof {
        crate::text::lemma_last_index_bounds(s@, '-');
    }
    let split = find_last(&s, '-');
    let column = match split {
        Some(k) => slice_chars(&s, 0, k),
        None => slice_chars(&s, 0, s.len()),
    };
    assert(split matches Some(k) ==> column@ =~= s@.take(k as int));
    assert(split is None ==> column@ =~= s@);
    let col = match find_sort_column(&column) {
        Some(c) => c,
        None => {
            return (None, None);
        },
    };
    match split {
        Some(k) => {
            assert(k < s@.len());
            let order = slice_chars(&s, k + 1, s.len());
            assert(order@ =~= s@.skip(k + 1));
            match find_order(&order) {
                Some(o) => (Some(col), Some((col, o))),
                None => (Some(col), None),
            }
        },
        None => {
            let o = match col {
                SortColumn::Name | SortColumn::Mtime => SortOrder::Asc,
                _ => SortOrder::Desc,
            };
            (Some(col), Some((col, o)))
        },
    }
}

/// The patterns of an exclude file's text: each line trimmed, without blank
/// lines and lines that start with `#`.
fn exclude_lines(content: &str) -> (r: Vec<String>)
    ensures
        forall|i: int| 0 <= i < r@.len() ==> {
            let p = (#[trigger] r@[i])@;
            p.len() > 0 && p[0] != '#'
        },
{
    let mut out: Vec<String> = Vec::new();
    let s = chars_of(content);
    let mut pos: usize = 0;
    let mut line_start: usize = 0;
    while pos <= s.len()
        invariant
            line_start <= pos,
            pos <= s@.len(),
            forall|i: int| 0 <= i < out@.len() ==> {
                let p = (#[trigger] out@[i])@;
                p.len() > 0 && p[0] != '#'
            },
        decreases s@.len() + 1 - pos,
    {
        if pos == s.len() || s[pos] == '\n' {
            let line = trim_chars(&slice_chars(&s, line_start, pos));
            if line.len() > 0 && line[0] != '#' {
                out.push(text_of(line.as_slice()));
            }
            if pos == s.len() {
                break;
            }
            line_start = pos + 1;
        }
        pos += 1;
    }
    out
}

/// A copy of each text.
fn clone_all(v: &Vec<String>) -> (r: Vec<String>)
    ensures
        r@ == v@,
{
    let mut out: Vec<String> = Vec::new();
    let mut i: usize = 0;
    while i < v.len()
        invariant
            i <= v@.len(),
            out@ == v@.take(i as int),
        decreases v@.len() - i,
    {
        out.push(v[i].clone());
        i += 1;
        assert(out@ =~= v@.take(i as int));
    }
    assert(v@.take(i as int) =~= v@);
    out
}

fn config_error(prefix: &str, detail: &str) -> (r: RsduError)
    ensures
        r is ConfigError,
{
    RsduError::ConfigError(<String as StringExecFns>::from_str(prefix).concat(detail))
}

impl Config {
    /// Applies a boolean flag of a configuration file.
    pub fn apply_config_flag(&mut self, flag: &str) -> (r: core::result::Result<(), RsduError>)
        ensures
            flag_target(flag@) matches Some((s, v)) ==> r is Ok && setting_of(*final(self), s) == Some(v),
            flag_target(flag@) is None ==> (r matches Err(e) && e is ConfigError),
            flag_target(flag@) is None ==> *final(self) == *old(self),
    {
        let f = chars_of(flag);
        match find_flag(&f) {
            Some((setting, v)) => {
                self.set_setting(setting, v);
                Ok(())
            },
            None => {
                let msg = <String as StringExecFns>::from_str("Unknown config flag: ").concat(flag);
                Err(RsduError::ConfigError(msg))
            },
        }
    }

    /// Switches one setting.
    fn set_setting(&mut self, s: FlagSetting, v: bool)
        ensures
            s == FlagSetting::SameFs ==> final(self).same_fs == v,
            s == FlagSetting::Extended ==> final(self).extended == v,
            s == FlagSetting::FollowSymlinks ==> final(self).follow_symlinks == v,
            s == FlagSetting::ExcludeCaches ==> final(self).exclude_caches == v,
            s == FlagSetting::ExcludeKernfs ==> final(self).exclude_kernfs == v,
            s == FlagSetting::Compress ==> final(self).compress == v,
            s == FlagSetting::Si ==> final(self).si == v,
            s == FlagSetting::ShowHidden ==> final(self).show_hidden == v,
            s == FlagSetting::ShowBlocks ==> final(self).show_blocks == v,
            s == FlagSetting::ShowItems ==> final(self).show_items == v,
            s == FlagSetting::ShowMtime ==> final(self).show_mtime == v,
            s == FlagSetting::ShowGraph ==> final(self).show_graph == v,
            s == FlagSetting::ShowPercent ==> final(self).show_percent == v,
            s == FlagSetting::DirsFirst ==> final(self).sort_dirs_first == v,
            s == FlagSetting::Natural ==> final(self).sort_natural == v,
            s == FlagSetting::ConfirmQuit ==> final(self).confirm_quit == v,
            s == FlagSetting::ConfirmDelete ==> final(self).confirm_delete == v,
            s == FlagSetting::CanShell ==> final(self).can_shell == Some(v),
            s == FlagSetting::CanDelete ==> final(self).can_delete == Some(v),
            s == FlagSetting::CanRefresh ==> final(self).can_refresh == Some(v),
    {
        if s == FlagSetting::SameFs {
            self.same_fs = v;
        } else if s == FlagSetting::Extended {
            self.extended = v;
        } else if s == FlagSetting::FollowSymlinks {
            self.follow_symlinks = v;
        } else if s == FlagSetting::ExcludeCaches {
            self.exclude_caches = v;
        } else if s == FlagSetting::ExcludeKernfs {
            self.exclude_kernfs = v;
        } else if s == FlagSetting::Compress {
            self.compress = v;
        } else if s == FlagSetting::Si {
            self.si = v;
        } else if s == FlagSetting::ShowHidden {
            self.show_hidden = v;
        } else if s == FlagSetting::ShowBlocks {
            self.show_blocks = v;
        } else if s == FlagSetting::ShowItems {
            self.show_items = v;
        } else if s == FlagSetting::ShowMtime {
            self.show_mtime = v;
        } else if s == FlagSetting::ShowGraph {
            self.show_graph = v;
        } else if s == FlagSetting::ShowPercent {
            self.show_percent = v;
        } else if s == FlagSetting::DirsFirst {
            self.sort_dirs_first = v;
        } else if s == FlagSetting::Natural {
            self.sort_natural = v;
        } else if s == FlagSetting::ConfirmQuit {
            self.confirm_quit = v;
        } else if s == FlagSetting::ConfirmDelete {
            self.confirm_delete = v;
        } else if s == FlagSetting::CanShell {
            self.can_shell = Some(v);
        } else if s == FlagSetting::CanDelete {
            self.can_delete = Some(v);
        } else {
            self.can_refresh = Some(v);
        }
    }


    /// Applies one line of a configuration file. Errors on a line marked with
    /// `@` are ignored.
    fn apply_line(&mut self, line: &Vec<char>) -> (r: core::result::Result<(), RsduError>)
        ensures
            r is Ok <==> line_accepted(line@),
            r matches Err(e) ==> e is ConfigError,
    {
        let t = trim_chars(line);
        if t.len() == 0 || t[0] == '#' {
            return Ok(());
        }
        let ignore = t[0] == '@';
        let body = if ignore { slice_chars(&t, 1, t.len()) } else { slice_chars(&t, 0, t.len()) };
        assert(!ignore ==> body@ =~= t@);
        proof {
            lemma_first_index_bounds(body@, '=');
        }
        let result = match find_first(&body, '=') {
            Some(i) => {
                let key = trim_chars(&slice_chars(&body, 0, i));
                let value = trim_chars(&slice_chars(&body, i + 1, body.len()));
                proof {
                    assert(body@.take(i as int) =~= body@.subrange(0, i as int));
                    assert(body@.skip(i + 1) =~= body@.subrange(i + 1, body@.len() as int));
                }
                self.apply_config_option(text_of(key.as_slice()).as_str(), text_of(value.as_slice()).as_str())
            },
            None => self.apply_config_flag(text_of(body.as_slice()).as_str()),
        };
        if ignore {
            return Ok(());
        }
        match result {
            Ok(()) => Ok(()),
            Err(e) => {
                let msg = <String as StringExecFns>::from_str("Error in config line: ").concat(
                    text_of(t.as_slice()).as_str(),
                ).concat(": ").concat(e.message().as_str());
                Err(RsduError::ConfigError(msg))
            },
        }
    }

    /// Reads a configuration file's text over the default configuration:
    /// one flag or `key=value` option per line; blank lines and lines that
    /// start with `#` are skipped; errors on lines that start with `@` are
    /// ignored. Fails on the first other line that is not accepted.
    pub fn parse_config_content(content: &str) -> (r: core::result::Result<Config, RsduError>)
        ensures
            r is Ok <==> lines_accepted(content@),
            r matches Err(e) ==> e is ConfigError,
    {
        let mut config = Config::default();
        let s = chars_of(content);
        let mut rest = slice_chars(&s, 0, s.len());
        assert(rest@ =~= content@);
        loop
            invariant
                lines_accepted(content@) == lines_accepted(rest@),
            decreases rest@.len(),
        {
            proof {
                lemma_first_index_bounds(rest@, '\n');
            }
            match find_first(&rest, '\n') {
                Some(i) => {
                    assert(i < rest@.len());
                    let line = slice_chars(&rest, 0, i);
                    assert(line@ =~= rest@.take(i as int));
                    match config.apply_line(&line) {
                        Ok(()) => {},
                        Err(e) => {
                            return Err(e);
                        },
                    }
                    let n = rest.len();
                    let next = slice_chars(&rest, i + 1, n);
                    assert(next@ =~= rest@.skip(i + 1));
                    rest = next;
                },
                None => {
                    return match config.apply_line(&rest) {
                        Ok(()) => Ok(config),
                        Err(e) => Err(e),
                    };
                },
            }
        }
    }

    /// Adds the patterns of an exclude file's text: one per line, trimmed;
    /// blank lines and lines that start with `#` are skipped.
    pub fn load_exclude_lines(&mut self, content: &str)
        ensures
            final(self).exclude_patterns@.len() >= old(self).exclude_patterns@.len(),
            final(self).exclude_patterns@.take(old(self).exclude_patterns@.len() as int)
                == old(self).exclude_patterns@,
            forall|i: int|
                old(self).exclude_patterns@.len() <= i < final(self).exclude_patterns@.len() ==> {
                    let p = (#[trigger] final(self).exclude_patterns@[i])@;
                    p.len() > 0 && p[0] != '#'
                },
    {
        let ghost before = self.exclude_patterns@;
        let mut extra = exclude_lines(content);
        let ghost added = extra@;
        self.exclude_patterns.append(&mut extra);
        assert(self.exclude_patterns@.take(before.len() as int) =~= before);
        assert(forall|i: int| before.len() <= i < self.exclude_patterns@.len() ==> #[trigger] self.exclude_patterns@[i] == added[i - before.len()]);
    }

    /// Applies the command-line arguments over this configuration; the
    /// text of the exclude file named by the arguments, if any, is given
    /// alongside. Of two contrary options the negative one wins. Fails only
    /// when the sort option is rejected.
    pub fn apply_args(&mut self, args: &Args, exclude_file: Option<&str>) -> (r: core::result::Result<(), RsduError>)
        ensures
            r is Ok <==> (args.sort matches Some(s) ==> sort_choice(s@) is Some),
            r matches Err(e) ==> e is ConfigError,
            r is Ok ==> (args.sort matches Some(s) ==> sort_choice(s@) == Some((final(self).sort_col, final(self).sort_order))),
    {
        self.apply_scan_args(args, exclude_file);
        let (column, choice) = match &args.sort {
            Some(sort) => read_sort_option(sort.as_str()),
            None => (None, Some((self.sort_col, self.sort_order))),
        };
        if choice.is_none() {
            return Err(config_error("Invalid sort option: ", args.sort.as_ref().unwrap().as_str()));
        }
        self.apply_view_args(args);
        match choice {
            Some((c, o)) => {
                self.sort_col = c;
                self.sort_order = o;
            },
            None => {},
        }
        Ok(())
    }

    /// Takes over the settings that another configuration (read from a
    /// configuration file) sets away from their defaults; its exclude
    /// patterns are added after these.
    pub fn merge(&mut self, other: Config)
        ensures
            final(self).exclude_patterns@ == old(self).exclude_patterns@ + other.exclude_patterns@,
    {
        let default_threads = default_threads();
        let mut other = other;
        let mut mine = Vec::new();
        core::mem::swap(&mut mine, &mut self.exclude_patterns);
        self.merge_settings(&other, default_threads);
        mine.append(&mut other.exclude_patterns);
        self.exclude_patterns = mine;
    }

    fn merge_settings(&mut self, other: &Config, default_threads: usize) {
        if other.same_fs {
            self.same_fs = true;
        }
        if other.extended {
            self.extended = true;
        }
        if other.follow_symlinks {
            self.follow_symlinks = true;
        }
        if other.exclude_caches {
            self.exclude_caches = true;
        }
        if other.exclude_kernfs {
            self.exclude_kernfs = true;
        }
        if other.threads != default_threads {
            self.threads = other.threads;
        }
        if other.compress {
            self.compress = true;
        }
        if other.compress_level != 4 {
            self.compress_level = other.compress_level;
        }
        if other.export_block_size.is_some() {
            self.export_block_size = other.export_block_size;
        }
        if other.scan_ui.is_some() {
            self.scan_ui = other.scan_ui;
        }
        if other.update_delay_ms != 100 {
            self.update_delay_ms = other.update_delay_ms;
        }
        if other.si {
            self.si = true;
        }
        if !other.show_hidden {
            self.show_hidden = false;
        }
        if !other.show_blocks {
            self.show_blocks = false;
        }
        if other.show_items {
            self.show_items = true;
        }
        if other.show_mtime {
            self.show_mtime = true;
        }
        if !other.show_graph {
            self.show_graph = false;
        }
        if other.show_percent {
            self.show_percent = true;
        }
        if other.can_delete.is_some() {
            self.can_delete = other.can_delete;
        }
        if other.can_shell.is_some() {
            self.can_shell = other.can_shell;
        }
        if other.can_refresh.is_some() {
            self.can_refresh = other.can_refresh;
        }
        if other.confirm_quit {
            self.confirm_quit = true;
        }
        if !other.confirm_delete {
            self.confirm_delete = false;
        }
        if !other.delete_command.as_str().is_empty() {
            self.delete_command = other.delete_command.clone();
        }
    }

    /// The scan, export and scan-interface options of the arguments.
    fn apply_scan_args(&mut self, args: &Args, exclude_file: Option<&str>)
    {
        if args.same_fs {
            self.same_fs = true;
        }
        if args.cross_fs {
            self.same_fs = false;
        }
        if args.extended {
            self.extended = true;
        }
        if args.no_extended {
            self.extended = false;
        }
        if args.follow_symlinks {
            self.follow_symlinks = true;
        }
        if args.no_follow_symlinks {
            self.follow_symlinks = false;
        }
        if args.exclude_caches {
            self.exclude_caches = true;
        }
        if args.include_caches {
            self.exclude_caches = false;
        }
        if args.exclude_kernfs {
            self.exclude_kernfs = true;
        }
        if args.include_kernfs {
            self.exclude_kernfs = false;
        }
        if args.compress {
            self.compress = true;
        }
        if args.no_compress {
            self.compress = false;
        }
        if args.si {
            self.si = true;
        }
        if args.no_si {
            self.si = false;
        }
        if let Some(threads) = args.threads {
            self.threads = threads;
        }
        let ghost base = self.exclude_patterns@;
        let mut given = clone_all(&args.exclude);
        self.exclude_patterns.append(&mut given);
        let ghost after_args = self.exclude_patterns@;
        match exclude_file {
            Some(content) => {
                let mut extra = exclude_lines(content);
                self.exclude_patterns.append(&mut extra);
                assert(forall|k: int| 0 <= k < args.exclude@.len() ==> #[trigger] self.exclude_patterns@[base.len() + k]
                    == after_args[base.len() + k]);
            },
            None => {},
        }
        self.export_json = clone_text(&args.export_json);
        self.export_binary = clone_text(&args.export_binary);
        if let Some(level) = args.compress_level {
            self.compress_level = level;
        }
        if let Some(block_size) = args.export_block_size {
            self.export_block_size = Some(block_size as usize * 1024);
        }
        if args.ui_none {
            self.scan_ui = Some(ScanUi::NoUi);
        }
        if args.ui_line {
            self.scan_ui = Some(ScanUi::Line);
        }
        if args.ui_full {
            self.scan_ui = Some(ScanUi::Full);
        }
        if args.slow_updates {
            self.update_delay_ms = 2000;
        }
        if args.fast_updates {
            self.update_delay_ms = 100;
        }
    }

    /// The display and feature options of the arguments.
    fn apply_view_args(&mut self, args: &Args)
    {
        if args.apparent_size {
            self.show_blocks = false;
        }
        if args.disk_usage {
            self.show_blocks = true;
        }
        if args.show_hidden {
            self.show_hidden = true;
        }
        if args.hide_hidden {
            self.show_hidden = false;
        }
        if args.show_itemcount {
            self.show_items = true;
        }
        if args.hide_itemcount {
            self.show_items = false;
        }
        if args.show_mtime {
            self.show_mtime = true;
        }
        if args.hide_mtime {
            self.show_mtime = false;
        }
        if args.show_graph {
            self.show_graph = true;
        }
        if args.hide_graph {
            self.show_graph = false;
        }
        if args.show_percent {
            self.show_percent = true;
        }
        if args.hide_percent {
            self.show_percent = false;
        }
        if args.enable_natsort {
            self.sort_natural = true;
        }
        if args.disable_natsort {
            self.sort_natural = false;
        }
        if args.group_directories_first {
            self.sort_dirs_first = true;
        }
        if args.no_group_directories_first {
            self.sort_dirs_first = false;
        }
        if args.confirm_quit {
            self.confirm_quit = true;
        }
        if args.no_confirm_quit {
            self.confirm_quit = false;
        }
        if args.confirm_delete {
            self.confirm_delete = true;
        }
        if args.no_confirm_delete {
            self.confirm_delete = false;
        }
        if let Some(style) = args.graph_style {
            self.graph_style = style;
        }
        if let Some(shared) = args.shared_column {
            self.show_shared = shared;
        }
        if args.enable_shell {
            self.can_shell = Some(true);
        }
        if args.disable_shell {
            self.can_shell = Some(false);
        }
        if args.enable_delete {
            self.can_delete = Some(true);
        }
        if args.disable_delete {
            self.can_delete = Some(false);
        }
        if args.enable_refresh {
            self.can_refresh = Some(true);
        }
        if args.disable_refresh {
            self.can_refresh = Some(false);
        }
        if args.read_only {
            self.can_delete = Some(false);
            self.can_shell = Some(false);
        }
        if let Some(cmd) = &args.delete_command {
            self.delete_command = cmd.clone();
        }
        if let Some(color) = args.color {
            self.color = color;
        }
    }

    /// Applies a sort option such as `name-asc` or `blocks`. A known column
    /// is taken even when the order after it is then rejected.
    pub fn parse_sort_option(&mut self, sort: &str) -> (r: core::result::Result<(), RsduError>)
        ensures
            r is Ok <==> sort_choice(sort@) is Some,
            r matches Err(e) ==> e is ConfigError,
            sort_choice(sort@) matches Some((c, o)) ==> final(self).sort_col == c && final(self).sort_order == o,
            sort_choice(sort@) is None ==> final(self).sort_order == old(self).sort_order,
            sort_choice(sort@) is None ==> final(self).sort_col == (match sort_column_of(sort_column_part(sort@)) {
                Some(c) => c,
                None => old(self).sort_col,
            }),
    {
        let (column, choice) = read_sort_option(sort);
        match column {
            Some(c) => {
                self.sort_col = c;
            },
            None => {},
        }
        match choice {
            Some((c, o)) => {
                self.sort_order = o;
                Ok(())
            },
            None => Err(config_error("Invalid sort option: ", sort)),
        }
    }

    /// Applies a `key=value` option of a configuration file.
    pub fn apply_config_option(&mut self, key: &str, value: &str) -> (r: core::result::Result<(), RsduError>)
        ensures
            r is Ok <==> option_accepted(key@, value@),
            r matches Err(e) ==> e is ConfigError,
            r is Ok && option_key(key@) == Some(OptionKey::Threads) ==> final(self).threads as nat
                == parse_unsigned(value@, usize::MAX as nat)->Some_0,
            r is Ok && option_key(key@) == Some(OptionKey::CompressLevel) ==> final(self).compress_level as nat
                == parse_unsigned(value@, u8::MAX as nat)->Some_0,
            r is Ok && option_key(key@) == Some(OptionKey::ExportBlockSize) ==> final(self).export_block_size
                == Some((parse_unsigned(value@, u16::MAX as nat)->Some_0 * 1024) as usize),
            r is Ok && option_key(key@) == Some(OptionKey::Exclude) ==> final(self).exclude_patterns@.len()
                == old(self).exclude_patterns@.len() + 1 && final(self).exclude_patterns@.drop_last()
                == old(self).exclude_patterns@ && final(self).exclude_patterns@.last()@ == value@,
            r is Ok && option_key(key@) == Some(OptionKey::DeleteCommand) ==> final(self).delete_command@ == value@,
            r is Ok && option_key(key@) == Some(OptionKey::Extended) ==> Some(final(self).extended) == bool_named(value@),
            r is Ok && option_key(key@) == Some(OptionKey::Color) ==> Some(final(self).color) == color_named(value@),
            r is Ok && option_key(key@) == Some(OptionKey::GraphStyle) ==> Some(final(self).graph_style)
                == graph_style_named(value@),
            r is Ok && option_key(key@) == Some(OptionKey::SharedColumn) ==> Some(final(self).show_shared)
                == shared_column_named(value@),
            r is Ok && option_key(key@) == Some(OptionKey::Sort) ==> sort_choice(value@) == Some(
                (final(self).sort_col, final(self).sort_order),
            ),
    {
        let k = chars_of(key);
        let v = chars_of(value);
        match find_option_key(&k) {
            Some(OptionKey::Threads) => match parse_number(&v, usize::MAX as u64) {
                Some(n) => {
                    self.threads = n as usize;
                    Ok(())
                },
                None => Err(config_error("Invalid number for threads: ", value)),
            },
            Some(OptionKey::CompressLevel) => match parse_number(&v, 255) {
                Some(n) => {
                    self.compress_level = n as u8;
                    Ok(())
                },
                None => Err(config_error("Invalid number for compress-level: ", value)),
            },
            Some(OptionKey::ExportBlockSize) => match parse_number(&v, 65535) {
                Some(n) => {
                    self.export_block_size = Some((n * 1024) as usize);
                    Ok(())
                },
                None => Err(config_error("Invalid number for export-block-size: ", value)),
            },
            Some(OptionKey::Exclude) => {
                let ghost before = self.exclude_patterns@;
                self.exclude_patterns.push(<String as StringExecFns>::from_str(value));
                assert(self.exclude_patterns@.drop_last() =~= before);
                Ok(())
            },
            Some(OptionKey::DeleteCommand) => {
                self.delete_command = <String as StringExecFns>::from_str(value);
                Ok(())
            },
            Some(OptionKey::Extended) => match find_bool(&v) {
                Some(b) => {
                    self.extended = b;
                    Ok(())
                },
                None => Err(config_error("Invalid boolean value for extended: ", value)),
            },
            Some(OptionKey::Color) => match find_color(&v) {
                Some(c) => {
                    self.color = c;
                    Ok(())
                },
                None => Err(config_error("Invalid color scheme: ", value)),
            },
            Some(OptionKey::GraphStyle) => match find_graph_style(&v) {
                Some(g) => {
                    self.graph_style = g;
                    Ok(())
                },
                None => Err(config_error("Invalid graph style: ", value)),
            },
            Some(OptionKey::SharedColumn) => match find_shared_column(&v) {
                Some(c) => {
                    self.show_shared = c;
                    Ok(())
                },
                None => Err(config_error("Invalid shared column mode: ", value)),
            },
            Some(OptionKey::Sort) => self.parse_sort_option(value),
            None => Err(config_error("Unknown config option: ", key)),
        }
    }
}

impl Default for Config {
    /// The default configuration: as many scan threads as CPUs.
    fn default() -> (r: Self)
        ensures
            r.threads >= 1,
            is_default_with(r, r.threads),
    {
        Config::with_threads(default_threads())
    }
}

} // verus!
