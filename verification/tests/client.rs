use corgea::authorize::{
    authorization_url, base_domain, find_available_port, get_param, handle_callback,
    parse_query_params, CallbackReply, DEFAULT_PORT,
};
use corgea::cicd::{get_github_env_vars, running_in_ci, which_ci, EnvVar};
use corgea::cli::{OptionsError, ScanOptions, Scanner};
use corgea::config::Config;
use corgea::list::{format_repo, shorten_path};
use corgea::setup_hooks::{hook_scan_types, setup_pre_commit_hook, HookAnswers};
use corgea::text::{decimal, signed_decimal, strip_first};
use corgea::utils::generic::{
    create_zip_from_list_of_files, default_exclude_globs, get_status,
    get_untracked_and_modified_files, ZipEntry,
};
use corgea::utils::github::get_latest_release_version;
use corgea::utils::terminal::{
    ask_yes_no, column_widths, decorate, format_code, format_diff, format_diff_line,
    set_text_color, show_matches, stitch, Found, TerminalColor,
};

#[test]
fn text_is_wrapped_in_colour() {
    assert_eq!(set_text_color("ok", TerminalColor::Green), "\x1b[32mok\x1b[0m");
    assert_eq!(set_text_color("no", TerminalColor::Red), "\x1b[31mno\x1b[0m");
    assert_eq!(set_text_color("hm", TerminalColor::Blue), "\x1b[34mhm\x1b[0m");
    assert_eq!(set_text_color("", TerminalColor::Reset), "\x1b[0m\x1b[0m");
}

fn found(whole: &str, group: Option<&str>) -> Found {
    Found { whole: whole.to_string(), group: group.map(|g| g.to_string()) }
}

fn texts(values: &[&str]) -> Vec<String> {
    values.iter().map(|v| v.to_string()).collect()
}

#[test]
fn a_text_is_put_together_from_its_parts_and_matches() {
    assert_eq!(stitch(&texts(&["only"]), &Vec::new(), true), "only");
    assert_eq!(stitch(&Vec::new(), &Vec::new(), true), "");
    assert_eq!(
        stitch(&texts(&["a ", " b ", ""]), &vec![found("<x>", Some("x")), found("<y>", Some("y"))], true),
        "a `\x1b[32mx\x1b[0m` b `\x1b[32my\x1b[0m`"
    );
    assert_eq!(
        stitch(&texts(&["a ", " b"]), &vec![found("@@ 1 @@", Some("@@ 1 @@"))], false),
        "a \x1b[34m@@ 1 @@\x1b[0m b"
    );
    // A match whose group took no part in it stays as it stands.
    assert_eq!(stitch(&texts(&["a", "b"]), &vec![found("--", None)], true), "a--b");
}

#[test]
fn matches_are_shown_where_they_stand() {
    assert_eq!(show_matches("(", "a(b", 0, false), "a(b");
    assert_eq!(show_matches("b+", "abba", 0, false), "a\x1b[34mbb\x1b[0ma");
    assert_eq!(show_matches("b", "bb", 0, false), "\x1b[34mb\x1b[0m\x1b[34mb\x1b[0m");
    assert_eq!(show_matches("a(x)?", "ab", 1, true), "ab");
    assert_eq!(show_matches("é(.)", "1éñ2", 1, true), "1`\x1b[32mñ\x1b[0m`2");
    assert_eq!(format_code("<code>a</code><code>b</code>"), "`\x1b[32ma\x1b[0m``\x1b[32mb\x1b[0m`");
}

#[test]
fn inline_code_is_shown_as_code() {
    assert_eq!(decorate(true, "x"), "`\x1b[32mx\x1b[0m`");
    assert_eq!(decorate(false, "x"), "\x1b[34mx\x1b[0m");
    assert_eq!(format_code("plain"), "plain");
    assert_eq!(
        format_code("Use <code>a()</code> not <code>b()</code>."),
        "Use `\x1b[32ma()\x1b[0m` not `\x1b[32mb()\x1b[0m`."
    );
    assert_eq!(format_code("<code></code>"), "`\x1b[32m\x1b[0m`");
}

#[test]
fn a_diff_is_shown_in_colour() {
    let diff = "diff --git a/x b/x\nindex 1..2\n--- a/x\n+++ b/x\n@@ -1,2 +1,2 @@ fn main\n-old\n+new\n same\n";
    assert_eq!(
        format_diff(diff),
        "diff --git a/x b/x\n\x1b[34mindex 1..2\x1b[0m\n\x1b[31m--- a/x\x1b[0m\n\x1b[32m+++ b/x\x1b[0m\n\x1b[34m@@ -1,2 +1,2 @@\x1b[0m fn main\n\x1b[31m-old\x1b[0m\n\x1b[32m+new\x1b[0m\n same\n"
    );
    assert_eq!(format_diff(""), "");
    assert_eq!(format_diff("a\r\nb"), "a\nb\n");
    assert_eq!(format_diff("a\r\n\r\nb\r"), "a\n\nb\r\n");
    assert_eq!(format_diff("a\n\n"), "a\n\n");
    assert_eq!(format_diff_line("@@ lonely"), "@@ lonely");
    assert_eq!(format_diff_line("--"), "\x1b[31m--\x1b[0m");
}

#[test]
fn an_answer_means_yes_no_or_nothing() {
    assert_eq!(ask_yes_no("y\n", false), Some(true));
    assert_eq!(ask_yes_no(" YES ", false), Some(true));
    assert_eq!(ask_yes_no("n", true), Some(false));
    assert_eq!(ask_yes_no("No\n", true), Some(false));
    assert_eq!(ask_yes_no("\n", true), Some(true));
    assert_eq!(ask_yes_no("maybe", true), Some(true));
    assert_eq!(ask_yes_no("maybe", false), None);
    assert_eq!(ask_yes_no("", false), None);
}

#[test]
fn columns_are_as_wide_as_their_longest_cell() {
    let row = |cells: &[&str]| -> Vec<String> { cells.iter().map(|c| c.to_string()).collect() };
    let table = vec![row(&["Scan ID", "Status", "é"]), row(&["1", "complete"]), row(&["12345678", "", "abc"])];
    assert_eq!(column_widths(&table), vec![8, 8, 3]);
    assert_eq!(column_widths(&vec![row(&["a", "", "ééé"])]), vec![1, 0, 6]);
    assert_eq!(column_widths(&vec![row(&[])]), Vec::<usize>::new());
}

#[test]
fn a_status_is_shown_by_its_label() {
    assert_eq!(get_status("fix available"), "Fix Available");
    assert_eq!(get_status("FIX_AVAILABLE"), "Fix Available");
    assert_eq!(get_status("Processing"), "Processing");
    assert_eq!(get_status("false positive"), "False Positive");
    assert_eq!(get_status("false_positive"), "False Positive");
    assert_eq!(get_status("on hold"), "On Hold");
    assert_eq!(get_status("ON_HOLD"), "On Hold");
    assert_eq!(get_status("unsupported"), "Unsupported");
    assert_eq!(get_status("plan"), "Plan");
    assert_eq!(get_status("complete"), "Complete");
    assert_eq!(get_status("scanning"), "Scanning");
    assert_eq!(get_status("failed"), "Failed");
    assert_eq!(get_status("Weird One"), "Weird One");
    assert_eq!(get_status(""), "");
}

#[test]
fn packaging_leaves_out_what_is_excluded() {
    let globs = default_exclude_globs();
    assert_eq!(globs.len(), 17);
    assert_eq!(globs[0], "**/tests/**");
    assert_eq!(globs[8], "**/python*/site-packages/**");
    assert_eq!(globs[16], "**/*.sh");
    assert_eq!(create_zip_from_list_of_files(true, false, false), ZipEntry::File);
    assert_eq!(create_zip_from_list_of_files(false, true, false), ZipEntry::Directory);
    assert_eq!(create_zip_from_list_of_files(true, false, true), ZipEntry::Skip);
    assert_eq!(create_zip_from_list_of_files(false, true, true), ZipEntry::Skip);
    assert_eq!(create_zip_from_list_of_files(false, false, false), ZipEntry::Skip);
}

#[test]
fn uncommitted_files_are_new_modified_or_deleted() {
    assert!(get_untracked_and_modified_files(128));
    assert!(get_untracked_and_modified_files(256));
    assert!(get_untracked_and_modified_files(512));
    assert!(get_untracked_and_modified_files(128 | 1));
    assert!(!get_untracked_and_modified_files(0));
    assert!(!get_untracked_and_modified_files(1 | 2 | 4));
    assert!(!get_untracked_and_modified_files(1024));
    assert!(!get_untracked_and_modified_files(16384));
}

#[test]
fn settings_can_be_overridden_for_one_run() {
    let mut config = Config::initial();
    assert_eq!(config.url, "https://www.corgea.app");
    assert_eq!(config.debug, 0);
    assert_eq!(config.token, "");
    config.set_token("secret".to_string());
    config.set_url("https://corgea.example/".to_string());
    assert_eq!(config.token, "secret");
    assert_eq!(config.url, "https://corgea.example/");
    assert_eq!(config.get_url(None), "https://corgea.example");
    assert_eq!(config.get_url(Some("http://local:8000///".to_string())), "http://local:8000");
    assert_eq!(config.get_url(Some("http://local".to_string())), "http://local");
    assert_eq!(config.get_token(None), "secret");
    assert_eq!(config.get_token(Some("other".to_string())), "other");
    assert_eq!(config.get_debug(None), 0);
    assert_eq!(config.get_debug(Some("1".to_string())), 1);
    assert_eq!(config.get_debug(Some("-3".to_string())), -3);
    assert_eq!(config.get_debug(Some("300".to_string())), 0);
    assert_eq!(config.get_debug(Some("yes".to_string())), 0);
    assert_eq!(Config::debug_from(Some(7)), 7);
    assert_eq!(Config::debug_from(None), 0);
}

#[test]
fn continuous_integration_is_recognised() {
    assert!(running_in_ci(true, true));
    assert!(!running_in_ci(true, false));
    assert!(!running_in_ci(false, true));
    assert_eq!(which_ci(true), "github");
    assert_eq!(which_ci(false), "unknown");
    let var = |k: &str, v: &str| EnvVar { key: k.to_string(), value: v.to_string() };
    let vars = vec![var("HOME", "/root"), var("GITHUB_REPOSITORY", "o/r"), var("XGITHUB_", "x"), var("GITHUB_PR", "7")];
    let github: Vec<(String, String)> =
        get_github_env_vars(&vars).into_iter().map(|v| (v.key, v.value)).collect();
    assert_eq!(
        github,
        vec![("GITHUB_REPOSITORY".to_string(), "o/r".to_string()), ("GITHUB_PR".to_string(), "7".to_string())]
    );
}

fn options(scanner: Scanner) -> ScanOptions {
    ScanOptions { scanner, fail_on: None, fail: false, only_uncommitted: false, scan_type: None, policy: None }
}

#[test]
fn scanners_are_known_by_name() {
    assert_eq!(Scanner::from_str("snyk"), Ok(Scanner::Snyk));
    assert_eq!(Scanner::from_str("semgrep"), Ok(Scanner::Semgrep));
    assert_eq!(Scanner::from_str("blast"), Ok(Scanner::Blast));
    assert_eq!(Scanner::from_str("Blast"), Err("Only snyk, semgrep and blast are valid scanners."));
}

#[test]
fn options_that_pass() {
    assert_eq!(options(Scanner::Semgrep).check().ok(), Some(false));
    let mut all = options(Scanner::Blast);
    all.fail_on = Some("HI".to_string());
    all.only_uncommitted = true;
    all.scan_type = Some("policy, secrets ,pii".to_string());
    all.policy = Some("1, 2".to_string());
    assert_eq!(all.check().ok(), Some(false));
    let mut policies = options(Scanner::Blast);
    policies.fail = true;
    policies.policy = Some("7".to_string());
    assert_eq!(policies.check().ok(), Some(true));
}

#[test]
fn options_that_are_refused() {
    let refused = |change: &dyn Fn(&mut ScanOptions), scanner: Scanner| -> OptionsError {
        let mut o = options(scanner);
        change(&mut o);
        o.check().err().unwrap()
    };
    let e = refused(&|o| o.fail_on = Some("HI".to_string()), Scanner::Snyk);
    assert!(matches!(e, OptionsError::FailOnNeedsBlast));
    assert_eq!(e.message(), "fail_on is only supported with blast scanner.");
    let e = refused(&|o| o.fail_on = Some("hi".to_string()), Scanner::Blast);
    assert!(matches!(e, OptionsError::InvalidFailOn));
    assert_eq!(e.message(), "Invalid fail_on option. Expected one of 'CR', 'HI', 'ME', 'LO'.");
    let e = refused(&|o| o.fail = true, Scanner::Semgrep);
    assert!(matches!(e, OptionsError::FailNeedsBlast));
    assert_eq!(e.message(), "fail is only supported with blast scanner.");
    let e = refused(&|o| o.only_uncommitted = true, Scanner::Snyk);
    assert!(matches!(e, OptionsError::OnlyUncommittedNeedsBlast));
    assert_eq!(e.message(), "only_uncommitted is only supported with blast scanner.");
    let e = refused(
        &|o| {
            o.fail = true;
            o.fail_on = Some("LO".to_string());
        },
        Scanner::Blast,
    );
    assert!(matches!(e, OptionsError::FailAndFailOn));
    assert_eq!(e.message(), "fail and fail_on cannot be used together.");
    let e = refused(&|o| o.scan_type = Some(String::new()), Scanner::Blast);
    assert!(matches!(e, OptionsError::EmptyScanType));
    assert_eq!(e.message(), "scan_type cannot be empty.");
    let e = refused(&|o| o.scan_type = Some("pii, sast,nope".to_string()), Scanner::Blast);
    assert!(matches!(&e, OptionsError::InvalidScanType(kind) if kind == "sast"));
    assert_eq!(
        e.message(),
        "Invalid scan_type: sast. Supported types are: blast, malicious, policy, secrets, pii."
    );
    let e = refused(&|o| o.scan_type = Some("pii,".to_string()), Scanner::Blast);
    assert!(matches!(&e, OptionsError::InvalidScanType(kind) if kind.is_empty()));
    let e = refused(&|o| o.policy = Some(String::new()), Scanner::Blast);
    assert!(matches!(e, OptionsError::EmptyPolicy));
    assert_eq!(e.message(), "policy cannot be empty.");
    let e = refused(&|o| o.policy = Some("1, ,3".to_string()), Scanner::Blast);
    assert!(matches!(e, OptionsError::EmptyPolicyId));
    assert_eq!(e.message(), "One of the policy ids passed is empty.");
}

#[test]
fn paths_and_repositories_are_shortened_for_tables() {
    let parts = |p: &[&str]| -> Vec<String> { p.iter().map(|s| s.to_string()).collect() };
    assert_eq!(shorten_path(&parts(&["src", "app", "views", "a.py"]), "src/app/views/a.py"), "src/../a.py");
    assert_eq!(shorten_path(&parts(&["/", "srv", "a.py"]), "/srv/a.py"), "srv/../a.py");
    assert_eq!(shorten_path(&parts(&["src", "a.py"]), "src/a.py"), "src/a.py");
    assert_eq!(shorten_path(&parts(&[]), ""), "");
    assert_eq!(format_repo(None), "N/A");
    assert_eq!(format_repo(Some("N/A")), "N/A");
    assert_eq!(format_repo(Some("https://github.com/owner/repo.git")), "owner/repo");
    assert_eq!(format_repo(Some("https://github.com/owner/repo")), "owner/repo");
    assert_eq!(format_repo(Some("git@github.com:owner/repo.git")), "unknown/repo");
    assert_eq!(format_repo(Some("")), "unknown/");
}

#[test]
fn the_hook_scans_what_was_chosen() {
    let all = HookAnswers { base: true, policy: true, pii: true, secrets: true, malicious: true };
    let some = HookAnswers { base: false, policy: true, pii: false, secrets: false, malicious: true };
    let none = HookAnswers { base: false, policy: false, pii: false, secrets: false, malicious: false };
    assert_eq!(hook_scan_types(true, &none), vec!["pii", "secrets"]);
    assert_eq!(hook_scan_types(false, &all), vec!["base", "policy", "pii", "secrets", "malicious"]);
    assert_eq!(hook_scan_types(false, &some), vec!["policy", "malicious"]);
    assert!(hook_scan_types(false, &none).is_empty());
    assert_eq!(
        setup_pre_commit_hook(&vec!["pii", "secrets"]),
        "#!/bin/sh\n# Corgea pre-commit hook\ncorgea scan blast --only-uncommitted --fail-on LO --scan-type pii,secrets\n"
    );
    assert_eq!(
        setup_pre_commit_hook(&vec!["base"]),
        "#!/bin/sh\n# Corgea pre-commit hook\ncorgea scan blast --only-uncommitted --fail-on LO --scan-type base\n"
    );
    assert_eq!(
        setup_pre_commit_hook(&Vec::new()),
        "#!/bin/sh\n# Corgea pre-commit hook\ncorgea scan blast --only-uncommitted --fail-on LO --scan-type \n"
    );
}

#[test]
fn the_user_is_sent_to_the_right_server() {
    assert_eq!(base_domain(Some("acme"), Some("https://x.io")), "https://acme.corgea.app");
    assert_eq!(base_domain(Some(""), Some("https://x.io")), "https://x.io");
    assert_eq!(base_domain(None, Some("https://x.io")), "https://x.io");
    assert_eq!(base_domain(None, Some("")), "https://www.corgea.app");
    assert_eq!(base_domain(None, None), "https://www.corgea.app");
    assert_eq!(
        authorization_url("https://www.corgea.app", 9876),
        "https://www.corgea.app/authorize?callback=http%3A%2F%2Flocalhost%3A9876"
    );
}

#[test]
fn a_free_port_is_searched_in_order() {
    assert_eq!(DEFAULT_PORT, 9876);
    assert_eq!(find_available_port(9876, |_| true), Some(9876));
    assert_eq!(find_available_port(9876, |p| p != 9876), Some(9877));
    assert_eq!(find_available_port(9876, |p| p < 9000), Some(8000));
    assert_eq!(find_available_port(9876, |p| p == 9926 || p == 7099), Some(7099));
    assert_eq!(find_available_port(9876, |p| p == 9925 || p == 7099), Some(9925));
    assert_eq!(find_available_port(9876, |p| p == 9100 || p == 7100 || p == 9875), None);
    assert_eq!(find_available_port(9050, |p| p >= 9001), Some(9050));
    assert_eq!(find_available_port(65485, |p| p == 65534), Some(65534));
    assert_eq!(find_available_port(9876, |_| false), None);
}

#[test]
fn a_query_is_read_into_keys_and_values() {
    let pairs = parse_query_params("code=a%20b&state=x%3Dy=z&flag&=empty&bad=%ff&code=last");
    let read: Vec<(String, String)> = pairs.iter().map(|p| (p.key.clone(), p.value.clone())).collect();
    assert_eq!(
        read,
        vec![
            ("code".to_string(), "a b".to_string()),
            ("state".to_string(), "x=y=z".to_string()),
            ("".to_string(), "empty".to_string()),
            ("code".to_string(), "last".to_string()),
        ]
    );
    assert_eq!(get_param(&pairs, "code"), Some("last"));
    assert_eq!(get_param(&pairs, "state"), Some("x=y=z"));
    assert_eq!(get_param(&pairs, "flag"), None);
    assert!(parse_query_params("").is_empty());
}

#[test]
fn a_callback_authorises_refuses_or_says_nothing() {
    assert!(matches!(handle_callback(Some("code=abc&error=x")), CallbackReply::Authorized(c) if c == "abc"));
    assert!(matches!(
        handle_callback(Some("error=denied&error_description=User%20said%20no")),
        CallbackReply::Refused(e, d) if e == "denied" && d == "User said no"
    ));
    assert!(matches!(
        handle_callback(Some("error=denied")),
        CallbackReply::Refused(e, d) if e == "denied" && d == "Unknown error occurred"
    ));
    assert!(matches!(handle_callback(Some("favicon")), CallbackReply::Waiting));
    assert!(matches!(handle_callback(None), CallbackReply::Waiting));
}

#[test]
fn a_release_tag_names_its_version() {
    assert_eq!(get_latest_release_version(Some(Some("v1.2.3"))), Ok("1.2.3".to_string()));
    assert_eq!(get_latest_release_version(Some(Some("v.1.2.3"))), Ok("1.2.3".to_string()));
    assert_eq!(get_latest_release_version(Some(Some("v.v.vv1"))), Ok("1".to_string()));
    assert_eq!(get_latest_release_version(Some(Some("1.0"))), Ok("1.0".to_string()));
    assert_eq!(get_latest_release_version(Some(None)), Ok(String::new()));
    assert_eq!(
        get_latest_release_version(None),
        Err("No tag_name found in release info".to_string())
    );
}

#[test]
fn numbers_are_written_in_decimal() {
    assert_eq!(decimal(0), "0");
    assert_eq!(decimal(7), "7");
    assert_eq!(decimal(10), "10");
    assert_eq!(decimal(52428800), "52428800");
    assert_eq!(decimal(u64::MAX), "18446744073709551615");
    assert_eq!(signed_decimal(0), "0");
    assert_eq!(signed_decimal(-1), "-1");
    assert_eq!(signed_decimal(i64::MAX), "9223372036854775807");
    assert_eq!(signed_decimal(i64::MIN), "-9223372036854775808");
}

#[test]
fn the_first_character_is_stripped() {
    assert_eq!(strip_first("/src/app.py"), "src/app.py");
    assert_eq!(strip_first("a"), "");
    assert_eq!(strip_first(""), "");
    assert_eq!(strip_first("éa"), "a");
}
