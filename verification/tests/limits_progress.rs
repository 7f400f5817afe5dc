use f11esync::config::{
    merge_server_config, parse_max_server_side_file_size, select_run_mode, CliOverrides, RunMode,
    ServerConfig, UiConfig,
};
use f11esync::limits::{kb, validate_file_size};
use f11esync::messages::{format_chunk_progress, format_ts_warning_line};
use f11esync::proto::{merge_client_config, ClientConfig};

fn cfg(enable: bool, max: u64) -> ServerConfig {
    ServerConfig {
        host: "127.0.0.1".to_string(),
        port: 10080,
        dir: "/srv/root".to_string(),
        server_side_path_regex: Vec::new(),
        enable_server_side_file_size_limit: enable,
        max_server_side_file_size: max,
    }
}

fn client(enable: Option<bool>, max: Option<u64>) -> ClientConfig {
    ClientConfig { enableFileSizeLimit: enable, maxFileSize: max, pathRegex: None }
}

#[test]
fn kilobytes_have_one_decimal() {
    assert_eq!(kb(1024), "1.0KB");
    assert_eq!(kb(5000), "4.9KB");
    assert_eq!(kb(0), "0.0KB");
    assert_eq!(kb(288), "0.3KB");
    // Ties round to the even tenth.
    assert_eq!(kb(256), "0.2KB");
    assert_eq!(kb(768), "0.8KB");
}

#[test]
fn no_caps_accepts_everything() {
    assert_eq!(validate_file_size(u64::MAX, &client(None, None), &cfg(false, 0)), None);
    assert_eq!(validate_file_size(0, &client(Some(false), Some(1)), &cfg(false, 0)), None);
}

#[test]
fn server_cap_alone() {
    let c = client(None, None);
    let s = cfg(true, 1024);
    assert_eq!(validate_file_size(1024, &c, &s), None);
    let reason = validate_file_size(5000, &c, &s).unwrap();
    assert_eq!(reason, "文件过大 (4.9KB)，已跳过（服务端限制：1.0KB）");
    assert!(reason.contains("过大"));
    assert!(reason.contains("1.0KB"));
}

#[test]
fn client_cap_alone() {
    let c = client(Some(true), Some(2048));
    let s = cfg(false, 0);
    assert_eq!(validate_file_size(2048, &c, &s), None);
    let reason = validate_file_size(4096, &c, &s).unwrap();
    assert_eq!(reason, "文件过大 (4.0KB)，已跳过（客户端限制：2.0KB）");
}

#[test]
fn both_caps_use_the_minimum() {
    let c = client(Some(true), Some(2048));
    let s = cfg(true, 1024);
    assert_eq!(validate_file_size(1024, &c, &s), None);
    let reason = validate_file_size(1500, &c, &s).unwrap();
    assert_eq!(
        reason,
        "文件过大 (1.5KB)，已跳过（服务端限制：1.0KB，客户端限制：2.0KB，生效：1.0KB）"
    );
    // The client cap may also be the smaller one.
    let c2 = client(Some(true), Some(512));
    assert!(validate_file_size(600, &c2, &s).is_some());
    assert_eq!(validate_file_size(512, &c2, &s), None);
}

#[test]
fn client_cap_needs_enable_and_value() {
    let s = cfg(false, 0);
    assert_eq!(validate_file_size(u64::MAX, &client(Some(true), None), &s), None);
    assert_eq!(validate_file_size(u64::MAX, &client(None, Some(1)), &s), None);
}

#[test]
fn warning_line_shape() {
    assert_eq!(format_ts_warning_line("原因", "update -> a.txt"), "原因: update -> a.txt");
}

#[test]
fn progress_emits_each_of_five_chunks() {
    let mut lines: Vec<String> = Vec::new();
    for current in 0..5u32 {
        if let Some(line) = format_chunk_progress(current, 5, "send", true) {
            lines.push(line);
        }
    }
    assert_eq!(
        lines,
        vec![
            "send: 1/5 (20%)".to_string(),
            "send: 2/5 (40%)".to_string(),
            "send: 3/5 (60%)".to_string(),
            "send: 4/5 (80%)".to_string(),
            "send: 5/5 (100%)".to_string(),
        ]
    );
}

#[test]
fn progress_three_chunks_rounds_percentages() {
    let mut lines: Vec<String> = Vec::new();
    for current in 0..3u32 {
        if let Some(line) = format_chunk_progress(current, 3, "send", true) {
            lines.push(line);
        }
    }
    assert_eq!(
        lines,
        vec![
            "send: 1/3 (33%)".to_string(),
            "send: 2/3 (67%)".to_string(),
            "send: 3/3 (100%)".to_string(),
        ]
    );
}

#[test]
fn progress_single_chunk_reports_full() {
    assert_eq!(format_chunk_progress(0, 1, "send", true), Some("send: 1/1 (100%)".to_string()));
    assert_eq!(format_chunk_progress(0, 0, "send", true), None);
}

#[test]
fn progress_receiver_counts_are_one_based() {
    assert_eq!(format_chunk_progress(1, 2, "recv", false), Some("recv: 1/2 (50%)".to_string()));
    assert_eq!(format_chunk_progress(2, 2, "recv", false), Some("recv: 2/2 (100%)".to_string()));
}

#[test]
fn progress_large_total_is_quiet_between_quintiles() {
    // 100 chunks: a line only when a fifth of the transfer completes.
    let mut count = 0;
    for current in 0..100u32 {
        if format_chunk_progress(current, 100, "send", true).is_some() {
            count += 1;
        }
    }
    assert_eq!(count, 6);
}

#[test]
fn max_size_setting_parses_with_default() {
    assert_eq!(parse_max_server_side_file_size("1024"), 1024);
    assert_eq!(parse_max_server_side_file_size("garbage"), 256000);
    assert_eq!(parse_max_server_side_file_size(""), 256000);
}

#[test]
fn run_mode_priorities() {
    assert_eq!(select_run_mode(true, true, true, true), RunMode::CheckUpdate);
    assert_eq!(select_run_mode(false, true, true, true), RunMode::DownloadUpdate);
    assert_eq!(select_run_mode(false, false, true, true), RunMode::CliServer);
    assert_eq!(select_run_mode(false, false, false, true), RunMode::Gui);
    assert_eq!(select_run_mode(false, false, false, false), RunMode::CliServer);
}

#[test]
fn ui_config_defaults() {
    let ui = UiConfig::default();
    assert!(ui.follow_system_theme);
    assert!(!ui.dark_mode);
    assert!(!ui.show_advanced);
    assert!(ui.follow_logs);
}

#[test]
fn cli_overrides_replace_only_present_fields() {
    let base = cfg(false, 250 * 1024);
    let merged = merge_server_config(
        base,
        CliOverrides {
            host: None,
            port: Some(9000),
            dir: None,
            path_regex: Some(Vec::new()),
            enable_file_size_limit: Some(true),
            max_file_size: None,
        },
    );
    assert_eq!(merged.host, "127.0.0.1");
    assert_eq!(merged.port, 9000);
    assert!(merged.enable_server_side_file_size_limit);
    assert_eq!(merged.max_server_side_file_size, 250 * 1024);
    // An empty regex list on the command line keeps the stored list.
    assert!(merged.server_side_path_regex.is_empty());
}

#[test]
fn client_config_merges_field_wise() {
    let mut base = ClientConfig::default();
    merge_client_config(
        &mut base,
        ClientConfig {
            enableFileSizeLimit: Some(true),
            maxFileSize: None,
            pathRegex: Some(vec!["a".to_string()]),
        },
    );
    assert_eq!(base.enableFileSizeLimit, Some(true));
    assert_eq!(base.maxFileSize, None);
    assert_eq!(base.pathRegex, Some(vec!["a".to_string()]));
    merge_client_config(
        &mut base,
        ClientConfig { enableFileSizeLimit: None, maxFileSize: Some(7), pathRegex: None },
    );
    assert_eq!(base.enableFileSizeLimit, Some(true));
    assert_eq!(base.maxFileSize, Some(7));
    assert_eq!(base.pathRegex, Some(vec!["a".to_string()]));
}
