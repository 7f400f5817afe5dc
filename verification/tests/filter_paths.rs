use f11esync::filter::{should_filter_path, FilterSet};
use f11esync::logview::{
    classify_log_line, display_path, normalize_log_line, normalize_windows_path_prefixes_in_text,
    LogLevel,
};
use f11esync::paths::{normalize_rel_path, should_ignore_rel};
use f11esync::pump::{walk_entry_action, WalkStep};
use f11esync::strutil::{parse_u64, u64_to_string};

#[test]
fn filter_matches_any_rule_in_order() {
    let filters = FilterSet::from_patterns(&vec![
        "\\.DS_Store$".to_string(),
        "__MACOSX$".to_string(),
    ]);
    assert!(should_filter_path("sub/.DS_Store", &filters));
    assert!(should_filter_path("zip/__MACOSX", &filters));
    assert!(!should_filter_path("sub/readme.txt", &filters));
}

#[test]
fn filter_decision_invariant_under_backslashes() {
    let filters = FilterSet::from_patterns(&vec!["^build/".to_string()]);
    assert_eq!(
        should_filter_path("build\\out.o", &filters),
        should_filter_path("build/out.o", &filters)
    );
    assert!(should_filter_path("build\\out.o", &filters));
}

#[test]
fn invalid_patterns_are_dropped() {
    let filters = FilterSet::from_patterns(&vec![
        "[".to_string(),
        "\\.tmp$".to_string(),
        "(".to_string(),
    ]);
    assert_eq!(filters.rule_count(), 1);
    assert!(should_filter_path("a.tmp", &filters));
}

#[test]
fn client_rules_extend_server_rules() {
    let server = FilterSet::from_patterns(&vec!["\\.log$".to_string()]);
    let merged = server.with_extra_patterns(&vec!["\\.bak$".to_string(), "[".to_string()]);
    assert_eq!(merged.rule_count(), 2);
    assert!(should_filter_path("x.log", &merged));
    assert!(should_filter_path("x.bak", &merged));
    assert!(!should_filter_path("x.txt", &merged));
}

#[test]
fn ds_store_is_universally_ignored_before_filters() {
    // The ignore rule short-circuits: no warning, no event at all.
    let filters = FilterSet::from_patterns(&vec!["\\.DS_Store$".to_string()]);
    let step = walk_entry_action(&filters, "sub/.DS_Store", false);
    assert!(matches!(step, WalkStep::SkipIgnored));
}

#[test]
fn filtered_file_gets_update_warning() {
    let filters = FilterSet::from_patterns(&vec!["\\.tmp$".to_string()]);
    match walk_entry_action(&filters, "a.tmp", false) {
        WalkStep::FilterSkip { notice, skip_subtree } => {
            assert!(!skip_subtree);
            assert_eq!(notice.warning.action, "server_log");
            assert_eq!(notice.warning.path, "update -> a.tmp");
            assert_eq!(notice.warning.status, "warning");
            assert_eq!(notice.warning.message.as_deref(), Some("匹配过滤规则，已跳过"));
            assert!(notice.warning.content.is_none());
            assert_eq!(notice.log_line, "匹配过滤规则，已跳过: update -> a.tmp");
        },
        _ => panic!("expected a filter skip"),
    }
}

#[test]
fn filtered_directory_skips_its_subtree() {
    let filters = FilterSet::from_patterns(&vec!["^build$".to_string()]);
    match walk_entry_action(&filters, "build", true) {
        WalkStep::FilterSkip { notice, skip_subtree } => {
            assert!(skip_subtree);
            assert_eq!(notice.warning.path, "create_dir -> build");
        },
        _ => panic!("expected a filter skip"),
    }
}

#[test]
fn clean_entries_are_sent() {
    let filters = FilterSet::empty();
    assert!(matches!(walk_entry_action(&filters, "docs", true), WalkStep::SendDir));
    assert!(matches!(walk_entry_action(&filters, "docs/a.md", false), WalkStep::SendFile));
}

#[test]
fn ignore_rule_matches_suffix() {
    assert!(should_ignore_rel(".DS_Store"));
    assert!(should_ignore_rel("sub/.DS_Store"));
    assert!(should_ignore_rel("a.DS_Store"));
    assert!(!should_ignore_rel("DS_Store"));
    assert!(!should_ignore_rel("x.txt"));
}

#[test]
fn normalize_rel_path_strips_root() {
    assert_eq!(
        normalize_rel_path("/srv/root", "/srv/root/a/b.txt"),
        Some("a/b.txt".to_string())
    );
    assert_eq!(normalize_rel_path("/srv/root", "/srv/root"), None);
    assert_eq!(normalize_rel_path("/srv/root", "/srv/rootless/x"), None);
    assert_eq!(normalize_rel_path("/srv/root", "/elsewhere/x"), None);
    assert_eq!(
        normalize_rel_path("C:\\sync", "C:\\sync\\sub\\f.txt"),
        Some("sub/f.txt".to_string())
    );
}

#[test]
fn classify_log_lines_by_tag() {
    assert_eq!(classify_log_line("[error] boom"), LogLevel::Error);
    assert_eq!(classify_log_line("  [fatal] boom"), LogLevel::Error);
    assert_eq!(classify_log_line("[warn] careful"), LogLevel::Warn);
    assert_eq!(classify_log_line("[warning] careful"), LogLevel::Warn);
    assert_eq!(classify_log_line("[info] fyi"), LogLevel::Info);
    assert_eq!(classify_log_line("[debug] detail"), LogLevel::Debug);
    assert_eq!(classify_log_line("[trace] detail"), LogLevel::Debug);
    assert_eq!(classify_log_line("plain text"), LogLevel::Other);
}

#[test]
fn normalize_log_line_drops_blank_and_caps_length() {
    assert_eq!(normalize_log_line(""), None);
    assert_eq!(normalize_log_line("   \t  "), None);
    assert_eq!(normalize_log_line("hello"), Some("hello".to_string()));
    let long: String = "x".repeat(2500);
    let capped = normalize_log_line(&long).unwrap();
    assert_eq!(capped.chars().count(), 2001);
    assert!(capped.ends_with('\u{2026}'));
}

#[test]
fn windows_prefixes_are_cleaned() {
    assert_eq!(
        normalize_windows_path_prefixes_in_text("saw \\\\?\\C:\\a and \\\\?\\UNC\\srv\\share"),
        "saw C:\\a and \\\\srv\\share"
    );
    assert_eq!(display_path("\\\\?\\C:\\sync\\dir"), "C:\\sync\\dir");
    assert_eq!(display_path("\\\\?\\UNC\\srv\\share"), "\\\\srv\\share");
    assert_eq!(display_path("/plain/path"), "/plain/path");
}

#[test]
fn decimal_round_trip() {
    assert_eq!(u64_to_string(0), "0");
    assert_eq!(u64_to_string(10080), "10080");
    assert_eq!(u64_to_string(u64::MAX), u64::MAX.to_string());
    assert_eq!(parse_u64("0"), Some(0));
    assert_eq!(parse_u64("+42"), Some(42));
    assert_eq!(parse_u64(""), None);
    assert_eq!(parse_u64("12a"), None);
    assert_eq!(parse_u64("18446744073709551615"), Some(u64::MAX));
    assert_eq!(parse_u64("18446744073709551616"), None);
}

#[test]
fn normalize_log_line_keeps_lines_at_the_cap() {
    let exact: String = "y".repeat(2000);
    assert_eq!(normalize_log_line(&exact), Some(exact.clone()));
}
