use rsdu::cli::Args;
use rsdu::config::{Config, SortColumn, SortOrder};

#[test]
fn test_config_parsing() {
    let content = r#"
# This is a comment
same-fs
threads=8
exclude=*.tmp
"#;

    let config = Config::parse_config_content(content).ok().unwrap();
    assert!(config.same_fs);
    assert_eq!(config.threads, 8);
    assert_eq!(config.exclude_patterns, vec!["*.tmp"]);
}

#[test]
fn test_sort_parsing() {
    let mut config = Config::default();

    config.parse_sort_option("name-asc").ok().unwrap();
    assert_eq!(config.sort_col, SortColumn::Name);
    assert_eq!(config.sort_order, SortOrder::Asc);

    config.parse_sort_option("blocks").ok().unwrap();
    assert_eq!(config.sort_col, SortColumn::Blocks);
    assert_eq!(config.sort_order, SortOrder::Desc);
}

#[test]
fn config_errors_and_tolerated_lines() {
    assert!(Config::parse_config_content("no-such-flag\n").is_err());
    assert!(Config::parse_config_content("threads=lots\n").is_err());
    let c = Config::parse_config_content("@no-such-flag\n  hide-hidden  \ncolor = dark-bg\nsort=name\n").ok().unwrap();
    assert!(!c.show_hidden);
    assert_eq!(c.color, rsdu::cli::ColorScheme::DarkBg);
    assert_eq!(c.sort_col, SortColumn::Name);
    assert_eq!(c.sort_order, SortOrder::Asc);
    let mut c = Config::default();
    assert!(c.parse_sort_option("mtime-sideways").is_err());
    assert_eq!(c.sort_col, SortColumn::Mtime);
    assert!(c.parse_sort_option("disk-usage").is_err());
    assert!(c.apply_config_option("export-block-size", "64").is_ok());
    assert_eq!(c.export_block_size, Some(65536));
    assert!(c.apply_config_option("compress-level", "300").is_err());
}

#[test]
fn exclude_file_lines_are_added() {
    let mut c = Config::default();
    c.load_exclude_lines("*.o\n\n# comment\n  target  \n");
    assert_eq!(c.exclude_patterns, vec!["*.o".to_string(), "target".to_string()]);
}

#[test]
fn arguments_override_the_configuration() {
    let mut c = Config::default();
    let mut args = blank();
    args.same_fs = true;
    args.hide_hidden = true;
    args.read_only = true;
    args.threads = Some(3);
    args.exclude = vec!["*.log".to_string()];
    args.sort = Some("itemcount-asc".to_string());
    c.apply_args(&args, Some("*.bak\n")).ok().unwrap();
    assert!(c.same_fs);
    assert!(!c.show_hidden);
    assert_eq!(c.can_delete, Some(false));
    assert_eq!(c.can_shell, Some(false));
    assert_eq!(c.threads, 3);
    assert_eq!(c.exclude_patterns, vec!["*.log".to_string(), "*.bak".to_string()]);
    assert_eq!(c.sort_col, SortColumn::Items);
    assert_eq!(c.sort_order, SortOrder::Asc);
    args.sort = Some("weird".to_string());
    assert!(c.apply_args(&args, None).is_err());
}

#[test]
fn merging_takes_non_default_settings() {
    let mut base = Config::default();
    let mut other = Config::with_threads(base.threads);
    other.same_fs = true;
    other.show_hidden = false;
    other.exclude_patterns.push("x".to_string());
    base.merge(other);
    assert!(base.same_fs);
    assert!(!base.show_hidden);
    assert_eq!(base.exclude_patterns, vec!["x".to_string()]);
}

fn blank() -> Args {
    Args {
        directory: None,
        import_file: None,
        export_json: None,
        export_binary: None,
        same_fs: false,
        cross_fs: false,
        extended: false,
        no_extended: false,
        follow_symlinks: false,
        no_follow_symlinks: false,
        exclude: Vec::new(),
        exclude_from: None,
        exclude_caches: false,
        include_caches: false,
        exclude_kernfs: false,
        include_kernfs: false,
        threads: None,
        compress: false,
        no_compress: false,
        compress_level: None,
        export_block_size: None,
        ui_none: false,
        ui_line: false,
        ui_full: false,
        slow_updates: false,
        fast_updates: false,
        enable_shell: false,
        disable_shell: false,
        enable_delete: false,
        disable_delete: false,
        enable_refresh: false,
        disable_refresh: false,
        read_only: false,
        si: false,
        no_si: false,
        apparent_size: false,
        disk_usage: false,
        show_hidden: false,
        hide_hidden: false,
        show_itemcount: false,
        hide_itemcount: false,
        show_mtime: false,
        hide_mtime: false,
        show_graph: false,
        hide_graph: false,
        show_percent: false,
        hide_percent: false,
        graph_style: None,
        shared_column: None,
        sort: None,
        enable_natsort: false,
        disable_natsort: false,
        group_directories_first: false,
        no_group_directories_first: false,
        confirm_quit: false,
        no_confirm_quit: false,
        confirm_delete: false,
        no_confirm_delete: false,
        delete_command: None,
        color: None,
        ignore_config: false,
    }
}
