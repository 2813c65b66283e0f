use browser_kit::registry::{display_name, find_by_name, merge_checked};
use browser_kit::paths::{clean_path, extract_path_from_cmd, settle_path};
use browser_kit::registry::{
    check_candidate, dedup_browsers, executable_verdict, installed_browsers, is_browser_name,
    CheckedBrowser, RawBrowser,
};
use browser_kit::text::{find_str, trim, u16_to_decimal};

fn checked(key: &str, name: &str, path: Option<&str>, valid: bool) -> CheckedBrowser {
    CheckedBrowser {
        key: key.to_string(),
        browser: RawBrowser { name: name.to_string(), path: path.map(|p| p.to_string()) },
        valid,
    }
}

fn summary(reg: &[CheckedBrowser]) -> Vec<(String, String, Option<String>, bool)> {
    reg.iter()
        .map(|c| (c.key.clone(), c.browser.name.clone(), c.browser.path.clone(), c.valid))
        .collect()
}

#[test]
fn command_with_quoted_program_yields_the_quoted_path() {
    let cmd = "\"C:\\Program Files\\Vendor\\app.exe\" --flag";
    assert_eq!(extract_path_from_cmd(cmd), Some("C:\\Program Files\\Vendor\\app.exe".to_string()));
}

#[test]
fn command_without_quotes_yields_the_first_token() {
    assert_eq!(extract_path_from_cmd("  app.exe --new-window %1"), Some("app.exe".to_string()));
}

#[test]
fn command_with_a_single_quote_mark_runs_to_the_end() {
    assert_eq!(extract_path_from_cmd("\"C:\\b\\c.exe"), Some("C:\\b\\c.exe".to_string()));
}

#[test]
fn blank_command_yields_nothing() {
    assert_eq!(extract_path_from_cmd("   "), None);
    assert_eq!(extract_path_from_cmd(""), None);
    assert_eq!(extract_path_from_cmd("\"\" x"), None);
}

#[test]
fn clean_path_strips_whitespace_and_quotes() {
    assert_eq!(clean_path("  \"C:\\x\\y.exe\"  "), Some("C:\\x\\y.exe".to_string()));
    assert_eq!(clean_path("'C:\\q.exe'"), Some("C:\\q.exe".to_string()));
    assert_eq!(clean_path(" \t "), None);
}

#[test]
fn settle_path_prefers_an_existing_expansion() {
    let e = Some("/opt/b".to_string());
    assert_eq!(settle_path("$X/b".to_string(), e.clone(), true), e);
    assert_eq!(settle_path("$X/b".to_string(), e, false), Some("$X/b".to_string()));
    assert_eq!(settle_path("$X/b".to_string(), None, true), None);
}

#[test]
fn text_helpers() {
    assert_eq!(u16_to_decimal(9222), "9222");
    assert_eq!(u16_to_decimal(0), "0");
    assert_eq!(u16_to_decimal(65535), "65535");
    assert_eq!(trim("\u{a0} a b \n"), "a b");
    assert_eq!(find_str("abcabc", "ca"), Some(2));
    assert_eq!(find_str("abc", "x"), None);
    assert_eq!(find_str("héllo", "l"), Some(2));
}

#[test]
fn browser_names_match_keywords_in_any_case() {
    assert!(is_browser_name("Google Chrome"));
    assert!(is_browser_name("MOZILLA FIREFOX"));
    assert!(is_browser_name("Tor Browser"));
    assert!(!is_browser_name("Notepad"));
    assert!(!is_browser_name(""));
}

#[test]
fn executable_verdict_needs_a_file_with_exe_suffix() {
    assert!(executable_verdict(true, true, "c:\\a\\chrome.exe"));
    assert!(!executable_verdict(true, true, "c:\\a\\chrome.exec"));
    assert!(!executable_verdict(true, false, "c:\\a\\chrome.exe"));
    assert!(!executable_verdict(false, true, "c:\\a\\chrome.exe"));
}

#[test]
fn valid_candidate_wins_over_invalid_one() {
    let a = checked("chrome", "Chrome", None, false);
    let b = checked("chrome", "Chrome", Some("C:\\c\\chrome.exe"), true);
    let r = dedup_browsers(vec![a, b]);
    assert_eq!(summary(&r), vec![("chrome".to_string(), "Chrome".to_string(), Some("C:\\c\\chrome.exe".to_string()), true)]);

    let a = checked("chrome", "Chrome", Some("C:\\c\\chrome.exe"), true);
    let b = checked("chrome", "Chrome 2", Some("C:\\much\\longer\\path\\chrome.exe"), false);
    let r = dedup_browsers(vec![a, b]);
    assert_eq!(r.len(), 1);
    assert_eq!(r[0].browser.path, Some("C:\\c\\chrome.exe".to_string()));
}

#[test]
fn longer_path_wins_between_equally_valid_candidates() {
    let a = checked("firefox.exe", "A", Some("C:\\f.exe"), true);
    let b = checked("firefox.exe", "B", Some("C:\\Program Files\\f.exe"), true);
    let r = dedup_browsers(vec![a, b]);
    assert_eq!(r.len(), 1);
    assert_eq!(r[0].browser.name, "B");
}

#[test]
fn equal_length_or_pathless_ties_keep_the_first() {
    let a = checked("k", "A", Some("C:\\a.exe"), true);
    let b = checked("k", "B", Some("C:\\b.exe"), true);
    let r = dedup_browsers(vec![a, b]);
    assert_eq!(r[0].browser.name, "A");

    let a = checked("opera", "A", None, false);
    let b = checked("opera", "B", None, false);
    let r = dedup_browsers(vec![a, b]);
    assert_eq!(r.len(), 1);
    assert_eq!(r[0].browser.name, "A");
}

#[test]
fn dedup_twice_gives_the_same_registry() {
    let cs = || {
        vec![
            checked("a", "A1", None, false),
            checked("b", "B1", Some("C:\\b.exe"), true),
            checked("a", "A2", Some("C:\\a.exe"), true),
            checked("b", "B2", Some("C:\\longer\\b.exe"), true),
            checked("c", "C1", None, false),
        ]
    };
    let once = dedup_browsers(cs());
    let twice = dedup_browsers(dedup_browsers(cs()));
    assert_eq!(summary(&once), summary(&twice));
    assert_eq!(summary(&once), summary(&dedup_browsers(cs())));
    let names: Vec<String> = once.iter().map(|c| c.browser.name.clone()).collect();
    assert_eq!(names, vec!["A2", "B2", "C1"]);
}

#[test]
fn pathless_candidate_is_kept_by_name_and_keyed_by_lowercase_name() {
    let raw = RawBrowser { name: "  Brave Browser ".to_string(), path: None };
    let c = check_candidate(raw).expect("kept");
    assert_eq!(c.key, "brave browser");
    assert_eq!(c.browser.name, "  Brave Browser ");
    assert!(!c.valid);
    assert!(check_candidate(RawBrowser { name: "Notes".to_string(), path: None }).is_none());
}

#[test]
fn candidate_with_missing_executable_is_dropped() {
    let raw = RawBrowser {
        name: "Google Chrome".to_string(),
        path: Some("\"/no/such/dir/chrome.exe\"".to_string()),
    };
    assert!(check_candidate(raw).is_none());
}

#[test]
fn installed_browsers_merges_pathless_duplicates() {
    let raw = vec![
        RawBrowser { name: "Vivaldi".to_string(), path: None },
        RawBrowser { name: "vivaldi ".to_string(), path: None },
        RawBrowser { name: "Paint".to_string(), path: None },
        RawBrowser { name: "Yandex".to_string(), path: None },
    ];
    let r = installed_browsers(raw);
    let names: Vec<String> = r.iter().map(|b| b.name.clone()).collect();
    assert_eq!(names, vec!["Vivaldi", "Yandex"]);
}

#[test]
fn browsers_are_found_by_exact_name() {
    let bs = vec![
        RawBrowser { name: "Firefox".to_string(), path: None },
        RawBrowser { name: "Chrome".to_string(), path: None },
        RawBrowser { name: "Chrome".to_string(), path: Some("x".to_string()) },
    ];
    assert_eq!(find_by_name(&bs, &"Chrome".to_string()), Some(1));
    assert_eq!(find_by_name(&bs, &"chrome".to_string()), None);
}

#[test]
fn only_one_layer_of_matching_quotes_is_stripped() {
    assert_eq!(clean_path("\"'q.exe'\""), Some("'q.exe'".to_string()));
    assert_eq!(clean_path("\"q.exe'"), Some("\"q.exe'".to_string()));
    assert_eq!(clean_path("\"\"q.exe\"\""), Some("\"q.exe\"".to_string()));
    assert_eq!(clean_path("\""), Some("\"".to_string()));
}

#[test]
fn merged_browsers_follow_the_precedence() {
    let r = merge_checked(vec![
        checked("k", "First", Some("C:\\a.exe"), true),
        checked("k", "Longer", Some("C:\\dir\\a.exe"), true),
        checked("m", "M", None, false),
    ]);
    let names: Vec<String> = r.iter().map(|b| b.name.clone()).collect();
    assert_eq!(names, vec!["Longer", "M"]);
}

#[test]
fn display_name_falls_back_in_order() {
    let s = |x: &str| Some(x.to_string());
    assert_eq!(display_name(s("App"), s("Default"), "Key".to_string()), "App");
    assert_eq!(display_name(None, s("Default"), "Key".to_string()), "Default");
    assert_eq!(display_name(None, None, "Key".to_string()), "Key");
}

#[test]
fn blank_path_falls_back_to_the_name_check() {
    let raw = RawBrowser { name: "Opera".to_string(), path: Some("   ".to_string()) };
    let c = check_candidate(raw).expect("kept by name");
    assert_eq!(c.key, "opera");
    assert_eq!(c.browser.path, None);
}
