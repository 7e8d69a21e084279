use sort_downloads::log::{get_yn, yes_no, LogLevel};
use sort_downloads::matcher::{first_match, is_extension_key, matches_any, same_text, starts_with};
use sort_downloads::rules::{fill_command_opts, table_is_wf, CliArgs, CommandOpts, ConfigOpts, SortRule};
use sort_downloads::sort::{
    after_confirmation, after_selection, plan, resolve, select_location, Action, Disposition,
    FileRecord,
};
use sort_downloads::tally::RunTally;

fn strings(v: &[&str]) -> Vec<String> {
    v.iter().map(|s| s.to_string()).collect()
}

fn rule(pattern: &str, dests: &[&str]) -> SortRule {
    SortRule { pattern: pattern.to_string(), destinations: strings(dests) }
}

fn opts() -> CommandOpts {
    CommandOpts {
        dir: "/downloads".to_string(),
        keep_extensions: vec![],
        del_extensions: vec![],
        keep_prefixes: vec![],
        del_prefixes: vec![],
        safe_mode: false,
        remove_unknown: false,
        no_del: false,
        no_sort: false,
        sort_table: vec![],
    }
}

fn file(name: &str) -> FileRecord {
    FileRecord { name: name.to_string(), size: 100 }
}

#[test]
fn extension_match_is_exact_and_case_sensitive() {
    assert!(matches_any("image.png", &strings(&[".png"])));
    assert!(!matches_any("image.PNG", &strings(&[".png"])));
    assert!(!matches_any("image.png", &strings(&[".pn"])));
    assert!(!matches_any("image.png", &strings(&[".PNG", "png"])));
    assert!(matches_any("archive.tar.gz", &strings(&[".gz"])));
    assert!(!matches_any("archive.tar.gz", &strings(&[".tar.gz"])));
}

#[test]
fn name_without_dot_never_matches_extension() {
    assert!(!matches_any("README", &strings(&[".README", ".txt", "."])));
    assert!(!matches_any(".bashrc", &strings(&[".bashrc2"])));
    assert!(!is_extension_key(".bashrc", ".bashrc"));
    assert!(is_extension_key(".[NO EXT]", "README"));
    assert!(is_extension_key(".[NO EXT]", ".."));
    assert!(is_extension_key(".", "file."));
}

#[test]
fn prefix_match_is_case_sensitive() {
    assert!(starts_with("d-text.txt", "d-"));
    assert!(!starts_with("D-text.txt", "d-"));
    assert!(!starts_with("text-d-.txt", "d-"));
    assert!(matches_any("d-text.txt", &strings(&["d-"])));
    assert!(!matches_any("D-text.txt", &strings(&["d-"])));
    assert!(!matches_any("text-d-.txt", &strings(&["d-"])));
    assert!(starts_with("anything", ""));
    assert!(same_text("abc", "abc"));
    assert!(!same_text("abc", "abd"));
}

#[test]
fn empty_pattern_list_matches_nothing() {
    assert!(!matches_any("image.png", &vec![]));
}

#[test]
fn longest_prefix_wins_then_extension() {
    let table = vec![
        rule("d-", &["/a"]),
        rule(".txt", &["/t"]),
        rule("d-te", &["/b"]),
        rule("d-t", &["/c"]),
    ];
    assert_eq!(first_match("d-text.txt", &table), Some(2));
    assert_eq!(first_match("d-x.txt", &table), Some(0));
    assert_eq!(first_match("notes.txt", &table), Some(1));
    assert_eq!(first_match("notes.md", &table), None);
    let dup = vec![rule("ab", &["/1"]), rule("ab", &["/2"])];
    assert_eq!(first_match("abc", &dup), Some(0));
}

#[test]
fn keep_protects_over_delete_and_sort() {
    let mut o = opts();
    o.keep_extensions = strings(&[".pdf"]);
    o.del_extensions = strings(&[".pdf"]);
    o.sort_table = vec![rule(".pdf", &["/docs"])];
    let d = resolve(&file("report.pdf"), &o);
    assert_eq!(d, Disposition::Protected);
    assert_eq!(plan(d, &o), Action::Protected);
    o.keep_extensions = vec![];
    o.keep_prefixes = strings(&["report"]);
    assert_eq!(resolve(&file("report.pdf"), &o), Disposition::Protected);
}

#[test]
fn delete_wins_over_sort() {
    let mut o = opts();
    o.del_prefixes = strings(&["tmp"]);
    o.sort_table = vec![rule(".zip", &["/archives"])];
    assert_eq!(resolve(&file("tmp.zip"), &o), Disposition::Delete);
    assert_eq!(plan(Disposition::Delete, &o), Action::Remove);
    o.no_del = true;
    assert_eq!(resolve(&file("tmp.zip"), &o), Disposition::Sort(0));
    o.no_sort = true;
    assert_eq!(resolve(&file("tmp.zip"), &o), Disposition::Untouched);
}

#[test]
fn single_destination_moves_and_counts() {
    let mut o = opts();
    o.sort_table = vec![rule(".png", &["/pictures"])];
    let f = file("image.png");
    let d = resolve(&f, &o);
    assert_eq!(d, Disposition::Sort(0));
    let a = plan(d, &o);
    assert_eq!(a, Action::MoveTo(0, 0));
    let mut t = RunTally::new();
    assert!(t.can_record(a, true, f.size));
    t.record(a, true, f.size);
    assert_eq!(t.sorted_count, 1);
    assert_eq!(t.sorted_bytes, 100);
    assert_eq!(t.deleted_count, 0);
}

#[test]
fn key_without_dot_is_a_prefix_pattern() {
    let mut o = opts();
    o.sort_table = vec![rule("png", &["/pictures"])];
    assert_eq!(resolve(&file("image.png"), &o), Disposition::Untouched);
    assert_eq!(resolve(&file("png-shot.jpg"), &o), Disposition::Sort(0));
}

#[test]
fn operator_picks_second_destination() {
    let mut o = opts();
    o.sort_table = vec![rule(".png", &["/first", "/second"])];
    let d = resolve(&file("image.png"), &o);
    assert_eq!(plan(d, &o), Action::AskLocation(0));
    assert_eq!(after_selection(0, "1", &o), Action::MoveTo(0, 1));
    assert_eq!(after_selection(0, "+0", &o), Action::MoveTo(0, 0));
    assert_eq!(after_selection(0, "2", &o), Action::AskLocation(0));
    assert_eq!(after_selection(0, "one", &o), Action::AskLocation(0));
    assert_eq!(after_selection(0, "-1", &o), Action::AskLocation(0));
    assert_eq!(after_selection(0, "", &o), Action::AskLocation(0));
}

#[test]
fn selection_parsing() {
    assert_eq!(select_location("3", 4), Some(3));
    assert_eq!(select_location("4", 4), None);
    assert_eq!(select_location("007", 10), Some(7));
    assert_eq!(select_location("99999999999999999999999", 10), None);
    assert_eq!(select_location("+", 10), None);
}

#[test]
fn safe_mode_no_keeps_file() {
    let mut o = opts();
    o.safe_mode = true;
    o.del_extensions = strings(&[".tmp"]);
    let f = file("junk.tmp");
    let d = resolve(&f, &o);
    assert_eq!(d, Disposition::Delete);
    assert_eq!(plan(d, &o), Action::AskYesNo);
    let a = after_confirmation(get_yn("n"));
    assert_eq!(a, Action::Declined);
    let mut t = RunTally::new();
    t.record(a, false, f.size);
    assert_eq!(t, RunTally::new());
    assert_eq!(after_confirmation(get_yn(" YES ")), Action::Remove);
    assert_eq!(after_confirmation(get_yn("maybe")), Action::AskYesNo);
}

#[test]
fn failed_delete_is_not_counted() {
    let mut t = RunTally::new();
    t.record(Action::Remove, false, 500);
    assert_eq!(t.deleted_count, 0);
    assert_eq!(t.deleted_bytes, 0);
    t.record(Action::Remove, true, 500);
    assert_eq!(t.deleted_count, 1);
    assert_eq!(t.deleted_bytes, 500);
    t.record(Action::MoveTo(0, 0), false, 7);
    assert_eq!(t.sorted_count, 0);
}

#[test]
fn second_run_is_idle() {
    let mut o = opts();
    o.keep_prefixes = strings(&["keep"]);
    o.del_extensions = strings(&[".tmp"]);
    o.sort_table = vec![rule(".png", &["/pictures"])];
    for name in ["keep.tmp", "notes.md", "README", "keep-image.png"] {
        let d = resolve(&file(name), &o);
        let a = plan(d, &o);
        assert!(a == Action::Protected || a == Action::Untouched);
    }
}

#[test]
fn tally_overflow_is_refused() {
    let t = RunTally { sorted_count: 0, sorted_bytes: u64::MAX, deleted_count: u64::MAX, deleted_bytes: 0 };
    assert!(!t.can_record(Action::MoveTo(0, 0), true, 1));
    assert!(t.can_record(Action::MoveTo(0, 0), true, 0));
    assert!(!t.can_record(Action::Remove, true, 0));
    assert!(t.can_record(Action::Remove, false, 0));
}

#[test]
fn summary_lines_follow_flags() {
    let t = RunTally { sorted_count: 2, sorted_bytes: 10240, deleted_count: 3, deleted_bytes: 10000 };
    let all = t.summary(false, false);
    assert_eq!(all.len(), 2);
    assert!(!all[0].removed);
    assert_eq!(all[0].count, 2);
    assert_eq!(all[0].size, "10 KiB");
    assert!(all[1].removed);
    assert_eq!(all[1].count, 3);
    assert_eq!(all[1].size, "10 KB");
    let del_only = t.summary(true, false);
    assert_eq!(del_only.len(), 1);
    assert!(del_only[0].removed);
    assert_eq!(t.summary(true, true).len(), 0);
}

#[test]
fn yes_no_answers() {
    assert_eq!(yes_no("y"), Some(true));
    assert_eq!(yes_no("yes"), Some(true));
    assert_eq!(yes_no("n"), Some(false));
    assert_eq!(yes_no("no"), Some(false));
    assert_eq!(yes_no("Y"), None);
    assert_eq!(get_yn("  Y\n"), Some(true));
    assert_eq!(get_yn("No"), Some(false));
    assert_eq!(get_yn(""), None);
}

#[test]
fn log_levels() {
    assert_eq!(LogLevel::variants(), vec!["error", "log", "warning", "debug"]);
    assert_eq!(LogLevel::from_name("DEBUG"), LogLevel::Debug);
    assert_eq!(LogLevel::from_name("Info"), LogLevel::Info);
    assert_eq!(LogLevel::from_name("warning"), LogLevel::Warning);
    assert_eq!(LogLevel::from_name("log"), LogLevel::Error);
    assert!(LogLevel::Info.shows(LogLevel::Error));
    assert!(LogLevel::Info.shows(LogLevel::Info));
    assert!(!LogLevel::Info.shows(LogLevel::Warning));
    assert!(LogLevel::Debug.shows(LogLevel::Warning));
    assert!(!LogLevel::Error.shows(LogLevel::Debug));
}

#[test]
fn command_options_are_partitioned() {
    let args = CliArgs {
        directory: None,
        keep: Some(strings(&[".iso", "keep-"])),
        remove: Some(strings(&["tmp", ".part"])),
        dont_sort: true,
        dont_remove: false,
        remove_unknown: true,
        log_level: Some(LogLevel::Debug),
    };
    let cfg = ConfigOpts {
        sorting_locations: vec![rule(".png", &["/pictures"])],
        keep: strings(&["important", ".key"]),
        remove: strings(&[".log", "old-"]),
        safe_mode: true,
    };
    assert!(table_is_wf(&cfg.sorting_locations));
    let cmd = fill_command_opts(args, cfg, "/home/u/Downloads".to_string());
    assert_eq!(cmd.dir, "/home/u/Downloads");
    assert_eq!(cmd.keep_extensions, strings(&[".iso", ".key"]));
    assert_eq!(cmd.keep_prefixes, strings(&["keep-", "important"]));
    assert_eq!(cmd.del_extensions, strings(&[".log", ".part"]));
    assert_eq!(cmd.del_prefixes, strings(&["old-", "tmp"]));
    assert!(cmd.safe_mode);
    assert!(cmd.remove_unknown);
    assert!(cmd.no_sort);
    assert!(!cmd.no_del);
    assert_eq!(cmd.sort_table.len(), 1);
    assert_eq!(cmd.sort_table[0].pattern, ".png");
}

#[test]
fn given_directory_is_kept_and_empty_table_is_wf() {
    let args = CliArgs {
        directory: Some("/tmp/x".to_string()),
        keep: None,
        remove: None,
        dont_sort: false,
        dont_remove: false,
        remove_unknown: false,
        log_level: None,
    };
    let cfg = ConfigOpts { sorting_locations: vec![], keep: vec![], remove: vec![], safe_mode: false };
    let cmd = fill_command_opts(args, cfg, "/unused".to_string());
    assert_eq!(cmd.dir, "/tmp/x");
    assert!(cmd.keep_extensions.is_empty() && cmd.del_prefixes.is_empty());
    assert!(!table_is_wf(&vec![rule(".a", &[])]));
}
