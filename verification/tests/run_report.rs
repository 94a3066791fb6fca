use grep_directory::config::Config;
use grep_directory::fstree::{enumerate, FsTree};
use grep_directory::report::run;

fn config(query: &str, path: &str, case_sensitive: bool, verbose: bool, help: bool) -> Config {
    Config {
        query: query.to_string(),
        path: path.to_string(),
        case_sensitive,
        filter: false,
        filter_for: Vec::new(),
        recurse: false,
        verbose,
        help,
    }
}

fn two_file_reads() -> (Vec<String>, Vec<Result<String, String>>) {
    let paths = vec!["d/a.txt".to_string(), "d/b.txt".to_string()];
    let reads = vec![Ok("hello world".to_string()), Ok("goodbye".to_string())];
    (paths, reads)
}

#[test]
fn case_sensitive_query_matches_only_the_file_holding_it() {
    let c = config("hello", "d", true, false, false);
    let (paths, reads) = two_file_reads();
    let report = run(&c, &paths, &reads);
    assert_eq!(report.matches, vec!["d/a.txt".to_string()]);
    assert!(report.errors.is_empty());
    assert!(!report.help);
}

#[test]
fn upper_case_query_matches_case_insensitively() {
    let c = config("HELLO", "d", false, false, false);
    let (paths, reads) = two_file_reads();
    let report = run(&c, &paths, &reads);
    assert_eq!(report.matches, vec!["d/a.txt".to_string()]);
}

#[test]
fn upper_case_query_misses_case_sensitively() {
    let c = config("HELLO", "d", true, false, false);
    let (paths, reads) = two_file_reads();
    let report = run(&c, &paths, &reads);
    assert!(report.matches.is_empty());
}

#[test]
fn single_file_root_is_searched_regardless_of_recursion() {
    let root = FsTree::File { path: "x.txt".to_string() };
    for recurse in [false, true] {
        let paths = enumerate(&root, recurse);
        let reads = vec![Ok("some needle here".to_string())];
        let c = config("needle", "x.txt", true, false, false);
        let report = run(&c, &paths, &reads);
        assert_eq!(report.matches, vec!["x.txt".to_string()]);
    }
}

#[test]
fn one_unreadable_file_does_not_abort_the_run() {
    let c = config("hello", "d", true, false, false);
    let paths = vec![
        "d/a.txt".to_string(),
        "d/locked.txt".to_string(),
        "d/c.txt".to_string(),
    ];
    let reads = vec![
        Ok("hello world".to_string()),
        Err("permission denied".to_string()),
        Ok("hello again".to_string()),
    ];
    let report = run(&c, &paths, &reads);
    assert_eq!(
        report.matches,
        vec!["d/a.txt".to_string(), "d/c.txt".to_string()]
    );
    assert!(report.errors.is_empty());
}

#[test]
fn verbose_mode_reports_exactly_the_unreadable_file() {
    let c = config("hello", "d", true, true, false);
    let paths = vec![
        "d/a.txt".to_string(),
        "d/locked.txt".to_string(),
        "d/c.txt".to_string(),
    ];
    let reads = vec![
        Ok("hello world".to_string()),
        Err("permission denied".to_string()),
        Ok("hello again".to_string()),
    ];
    let report = run(&c, &paths, &reads);
    assert_eq!(
        report.matches,
        vec!["d/a.txt".to_string(), "d/c.txt".to_string()]
    );
    assert_eq!(
        report.errors,
        vec!["Error searching d/locked.txt: permission denied".to_string()]
    );
}

#[test]
fn enumeration_feeds_the_run_in_order() {
    let root = FsTree::Dir {
        path: "d".to_string(),
        entries: vec![
            FsTree::File { path: "d/a.txt".to_string() },
            FsTree::File { path: "d/b.txt".to_string() },
        ],
    };
    let paths = enumerate(&root, false);
    assert_eq!(paths, vec!["d/a.txt".to_string(), "d/b.txt".to_string()]);
    let reads = vec![Ok("hello world".to_string()), Ok("goodbye".to_string())];
    let c = config("hello", "d", true, false, false);
    let report = run(&c, &paths, &reads);
    assert_eq!(report.matches, vec!["d/a.txt".to_string()]);
}

#[test]
fn help_short_circuits_the_search() {
    let c = config("hello", "d", true, true, true);
    let (paths, reads) = two_file_reads();
    let report = run(&c, &paths, &reads);
    assert!(report.help);
    assert!(report.matches.is_empty());
    assert!(report.errors.is_empty());
}

#[test]
fn identical_runs_produce_identical_reports() {
    let c = config("hello", "d", true, true, false);
    let paths = vec!["d/a.txt".to_string(), "d/b.txt".to_string()];
    let reads = vec![Ok("hello world".to_string()), Err("gone".to_string())];
    let first = run(&c, &paths, &reads);
    let second = run(&c, &paths, &reads);
    assert_eq!(first.matches, second.matches);
    assert_eq!(first.errors, second.errors);
    assert_eq!(first.help, second.help);
}
