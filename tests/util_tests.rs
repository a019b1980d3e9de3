use rsdu::cli::{is_valid_sort_option, Args};
use rsdu::config::Config;
use rsdu::error::{io_error_with_path, IoErrorKind, IoFailure, RsduError};
use rsdu::natural::natural_compare;
use rsdu::export::{ExportFormat, ExportHandler};
use rsdu::progress::{create_percentage_bar, ProgressStats};
use rsdu::ui::UI;
use rsdu::utils::{
    escape_for_display, format_blocks, format_file_size, format_number_with_separator, format_percentage,
    is_hidden_file, pad_string, path_extension, path_file_name, system_time_to_timestamp, truncate_string,
};
use std::cmp::Ordering;

#[test]
fn test_basic_functionality() {
    assert!(true);
}

#[test]
fn test_format_file_size() {
    assert_eq!(format_file_size(1024, false), "1 KiB");
    assert_eq!(format_file_size(1000, true), "1 kB");
}

#[test]
fn blocks_are_512_bytes() {
    assert_eq!(format_blocks(2, false), "1 KiB");
}

#[test]
fn test_format_percentage() {
    assert_eq!(format_percentage(25, 100), "25.0%");
    assert_eq!(format_percentage(1, 3), "33.3%");
    assert_eq!(format_percentage(0, 0), "0.0%");
}

#[test]
fn percentage_rounds_and_goes_past_one_hundred() {
    assert_eq!(format_percentage(2, 3), "66.7%");
    assert_eq!(format_percentage(3, 2), "150.0%");
    assert_eq!(format_percentage(1, 2000), "0.1%");
}

#[test]
fn test_is_hidden_file() {
    assert!(is_hidden_file(".hidden"));
    assert!(is_hidden_file("/path/to/.hidden"));
    assert!(!is_hidden_file("visible"));
    assert!(!is_hidden_file("/path/to/visible"));
}

#[test]
fn test_natural_compare() {
    assert_eq!(natural_compare("file1.txt", "file2.txt"), Ordering::Less);
    assert_eq!(natural_compare("file10.txt", "file2.txt"), Ordering::Greater);
    assert_eq!(natural_compare("file1.txt", "file1.txt"), Ordering::Equal);
}

#[test]
fn test_format_number_with_separator() {
    assert_eq!(format_number_with_separator(1000, ","), "1,000");
    assert_eq!(format_number_with_separator(1234567, ","), "1,234,567");
    assert_eq!(format_number_with_separator(123, ","), "123");
}

#[test]
fn separator_edge_cases() {
    assert_eq!(format_number_with_separator(0, ","), "0");
    assert_eq!(format_number_with_separator(18446744073709551615, "."), "18.446.744.073.709.551.615");
}

#[test]
fn test_truncate_string() {
    assert_eq!(truncate_string("hello", 10), "hello");
    assert_eq!(truncate_string("hello world", 8), "hello...");
    assert_eq!(truncate_string("hi", 5), "hi");
}

#[test]
fn truncate_to_less_than_the_ellipsis() {
    assert_eq!(truncate_string("hello", 2), "...");
}

#[test]
fn test_pad_string() {
    assert_eq!(pad_string("hello", 10, false), "hello     ");
    assert_eq!(pad_string("hello", 10, true), "     hello");
    assert_eq!(pad_string("hello world", 5, false), "hello world");
}

#[test]
fn test_escape_for_display() {
    assert_eq!(escape_for_display("hello\tworld\n"), "hello\\tworld\\n");
    assert_eq!(escape_for_display("normal"), "normal");
}

#[test]
fn escape_other_control_characters() {
    assert_eq!(escape_for_display("a\u{1}b\r"), "a\\x01b\\r");
    assert_eq!(escape_for_display("\u{7f}"), "\\x7f");
}

#[test]
fn path_parts() {
    assert_eq!(path_file_name("/a/b/c.txt"), "c.txt");
    assert_eq!(path_file_name("/"), "");
    assert_eq!(path_extension("/a/b/c.txt"), Some("txt".to_string()));
    assert_eq!(path_extension("/a/b/c"), None);
}

#[test]
fn timestamps_before_the_epoch_are_zero() {
    assert_eq!(system_time_to_timestamp(-5), 0);
    assert_eq!(system_time_to_timestamp(1234), 1234);
}

#[test]
fn test_sort_validation() {
    assert!(is_valid_sort_option("name"));
    assert!(is_valid_sort_option("name-asc"));
    assert!(is_valid_sort_option("disk-usage-desc"));
    assert!(!is_valid_sort_option("invalid"));
    assert!(!is_valid_sort_option("name-invalid"));
}

fn empty_args() -> Args {
    Args {
        directory: None,
        import_file: None,
        export_json: None,
        export_binary: None,
        same_fs: false,
        cross_fs: false,
        extended: false,
        no_extended: false,
        follow_symlinks: false,
        no_follow_symlinks: false,
        exclude: Vec::new(),
        exclude_from: None,
        exclude_caches: false,
        include_caches: false,
        exclude_kernfs: false,
        include_kernfs: false,
        threads: None,
        compress: false,
        no_compress: false,
        compress_level: None,
        export_block_size: None,
        ui_none: false,
        ui_line: false,
        ui_full: false,
        slow_updates: false,
        fast_updates: false,
        enable_shell: false,
        disable_shell: false,
        enable_delete: false,
        disable_delete: false,
        enable_refresh: false,
        disable_refresh: false,
        read_only: false,
        si: false,
        no_si: false,
        apparent_size: false,
        disk_usage: false,
        show_hidden: false,
        hide_hidden: false,
        show_itemcount: false,
        hide_itemcount: false,
        show_mtime: false,
        hide_mtime: false,
        show_graph: false,
        hide_graph: false,
        show_percent: false,
        hide_percent: false,
        graph_style: None,
        shared_column: None,
        sort: None,
        enable_natsort: false,
        disable_natsort: false,
        group_directories_first: false,
        no_group_directories_first: false,
        confirm_quit: false,
        no_confirm_quit: false,
        confirm_delete: false,
        no_confirm_delete: false,
        delete_command: None,
        color: None,
        ignore_config: false,
    }
}

#[test]
fn test_args_validation() {
    let mut args = empty_args();

    assert!(args.validate().is_ok());

    args.same_fs = true;
    args.cross_fs = true;
    assert!(args.validate().is_err());
}

#[test]
fn args_validation_messages() {
    let mut args = empty_args();
    args.threads = Some(0);
    assert_eq!(args.validate(), Err("Number of threads must be greater than 0".to_string()));
    let mut args = empty_args();
    args.ui_line = true;
    args.ui_full = true;
    assert_eq!(args.validate(), Err("Only one UI mode can be specified".to_string()));
    let mut args = empty_args();
    args.compress_level = Some(23);
    assert!(args.validate().is_err());
    let mut args = empty_args();
    args.sort = Some("size".to_string());
    assert_eq!(args.validate(), Err("Invalid sort option: size".to_string()));
}

#[test]
fn test_default_config() {
    let config = Config::default();
    assert!(!config.same_fs);
    assert!(!config.extended);
    assert!(config.threads > 0);
}

#[test]
fn test_error_creation() {
    let path = "/test/path".to_string();
    let error = RsduError::path_not_found(path.clone());
    assert_eq!(error.path(), Some(&path));
    assert!(error.is_recoverable());
}

#[test]
fn test_permission_error() {
    let path = "/restricted".to_string();
    let io_err = IoFailure::new(IoErrorKind::PermissionDenied, "Access denied".to_string());
    let error = RsduError::permission_denied(path.clone(), io_err);

    match error {
        RsduError::PermissionDenied { path: p, .. } => assert_eq!(p, path),
        _ => panic!("Wrong error type"),
    }
}

#[test]
fn test_io_error_conversion() {
    let path = "/test".to_string();
    let io_err = IoFailure::new(IoErrorKind::NotFound, "File not found".to_string());
    let error = io_error_with_path(io_err, path.clone());

    match error {
        RsduError::PathNotFound { path: p } => assert_eq!(p, path),
        _ => panic!("Wrong error type"),
    }
}

#[test]
fn error_messages() {
    let e = RsduError::scan_error("/a".to_string(), "boom".to_string());
    assert_eq!(e.message(), "Scan error in '/a': boom");
    assert!(!RsduError::ConfigError("x".to_string()).is_recoverable());
    let other = io_error_with_path(IoFailure::new(IoErrorKind::Other, "bad".to_string()), "/b".to_string());
    assert_eq!(other.message(), "IO error: bad");
    assert_eq!(other.path(), None);
}

#[test]
fn test_export_handler_creation() {
    let buffer: Vec<u8> = Vec::new();
    let handler = ExportHandler::json(buffer, false);
    assert!(matches!(handler.format, ExportFormat::Json));
}

#[test]
fn test_ui_creation() {
    let ui = UI::new();
    assert!(!ui.initialized);
}

#[test]
fn percentage_bar_fills_in_proportion() {
    assert_eq!(create_percentage_bar(50, 10), "\u{2588}\u{2588}\u{2588}\u{2588}\u{2588}     ");
    assert_eq!(create_percentage_bar(100, 3), "\u{2588}\u{2588}\u{2588}");
    assert_eq!(create_percentage_bar(0, 0), "");
}

#[test]
fn progress_snapshot_copies_counters() {
    let mut stats = rsdu::model::ScanStats::new();
    stats.increment_errors();
    stats.add_size(7);
    let p = ProgressStats::from_scan_stats(&stats);
    assert_eq!(p.errors, 1);
    assert_eq!(p.total_size, 7);
    assert_eq!(p.files, 0);
}
