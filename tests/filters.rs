use findr::config::{Config, ConfigError};
use findr::kind::{kind_passes, EntryType};
use findr::pattern::{name_passes, Pattern};
use findr::pipeline::{decide, run_filters, step_action, Action, Entry, WalkStep};

fn strings(v: &[&str]) -> Vec<String> {
    v.iter().map(|s| s.to_string()).collect()
}

fn found(path: &str, name: &str, kind: EntryType) -> WalkStep {
    WalkStep::Found(Entry {
        path: path.to_string(),
        name: Some(name.to_string()),
        kind: Some(kind),
    })
}

/// The walk of `root/{a.txt, b.log, sub/, sub/c.txt}`.
fn sample_tree() -> Vec<WalkStep> {
    vec![
        found("root", "root", EntryType::Dir),
        found("root/a.txt", "a.txt", EntryType::File),
        found("root/b.log", "b.log", EntryType::File),
        found("root/sub", "sub", EntryType::Dir),
        found("root/sub/c.txt", "c.txt", EntryType::File),
    ]
}

fn config(names: &[&str], types: &[&str]) -> Config {
    Config::new(strings(&["root"]), strings(names), strings(types)).unwrap()
}

#[test]
fn files_only_in_sample_tree() {
    let out = run_filters(&config(&[], &["f"]), &sample_tree());
    assert_eq!(out.printed, strings(&["root/a.txt", "root/b.log", "root/sub/c.txt"]));
    assert!(out.diagnostics.is_empty());
}

#[test]
fn txt_names_in_sample_tree() {
    let out = run_filters(&config(&["\\.txt$"], &[]), &sample_tree());
    assert_eq!(out.printed, strings(&["root/a.txt", "root/sub/c.txt"]));
}

#[test]
fn directory_named_sub_in_sample_tree() {
    let out = run_filters(&config(&["sub"], &["d"]), &sample_tree());
    assert_eq!(out.printed, strings(&["root/sub"]));
}

#[test]
fn no_filters_lists_everything() {
    let out = run_filters(&config(&[], &[]), &sample_tree());
    assert_eq!(
        out.printed,
        strings(&["root", "root/a.txt", "root/b.log", "root/sub", "root/sub/c.txt"])
    );
}

#[test]
fn patterns_combine_by_or_and_kinds_by_and() {
    let steps = sample_tree();
    let out = run_filters(&config(&["^a", "log$"], &[]), &steps);
    assert_eq!(out.printed, strings(&["root/a.txt", "root/b.log"]));
    let out = run_filters(&config(&["^a", "sub"], &["f"]), &steps);
    assert_eq!(out.printed, strings(&["root/a.txt"]));
}

#[test]
fn several_kinds_keep_each() {
    let out = run_filters(&config(&[], &["d", "f"]), &sample_tree());
    assert_eq!(out.printed.len(), 5);
    let out = run_filters(&config(&[], &["l"]), &sample_tree());
    assert!(out.printed.is_empty());
}

#[test]
fn invalid_pattern_is_rejected() {
    match Config::new(strings(&[]), strings(&["("]), strings(&[])) {
        Err(e) => {
            assert!(matches!(&e, ConfigError::InvalidName(n) if n == "("));
            assert_eq!(e.message(), "Invalid --name \"(\"");
        }
        Ok(_) => panic!("the pattern ( must not compile"),
    }
}

#[test]
fn first_invalid_pattern_is_named() {
    match Config::new(strings(&[]), strings(&["ok", "[", "("]), strings(&[])) {
        Err(ConfigError::InvalidName(n)) => assert_eq!(n, "["),
        _ => panic!("expected an invalid name"),
    }
}

#[test]
fn invalid_type_is_rejected() {
    match Config::new(strings(&[]), strings(&["("]), strings(&["f", "x"])) {
        Err(e) => {
            assert!(matches!(&e, ConfigError::InvalidType(t) if t == "x"));
            assert_eq!(e.message(), "Invalid --type \"x\"");
        }
        Ok(_) => panic!("x is no kind"),
    }
}

#[test]
fn paths_default_to_current_directory() {
    let c = Config::new(vec![], vec![], vec![]).unwrap();
    assert_eq!(c.paths(), &strings(&["."]));
    assert!(c.names().is_empty());
    assert!(c.entry_types().is_empty());
    let c = Config::new(strings(&["a", "b"]), strings(&["x"]), strings(&["l"])).unwrap();
    assert_eq!(c.paths(), &strings(&["a", "b"]));
    assert_eq!(c.names()[0].as_str(), "x");
    assert_eq!(c.entry_types(), &vec![EntryType::Link]);
}

#[test]
fn missing_root_reports_once() {
    let mut steps = Vec::new();
    for item in walkdir::WalkDir::new("/this/path/does/not/exist/anywhere") {
        match item {
            Ok(_) => panic!("the root does not exist"),
            Err(e) => steps.push(WalkStep::Failed(e.to_string())),
        }
    }
    let out = run_filters(&config(&[], &[]), &steps);
    assert!(out.printed.is_empty());
    assert_eq!(out.diagnostics.len(), 1);
}

#[test]
fn walk_errors_are_reported_and_walk_goes_on() {
    let steps = vec![
        found("r", "r", EntryType::Dir),
        WalkStep::Failed("permission denied".to_string()),
        found("r/x", "x", EntryType::File),
    ];
    let out = run_filters(&config(&[], &[]), &steps);
    assert_eq!(out.printed, strings(&["r", "r/x"]));
    assert_eq!(out.diagnostics, strings(&["permission denied"]));
}

#[test]
fn unreadable_name_is_skipped_with_a_warning() {
    let steps = vec![WalkStep::Found(Entry {
        path: "r/bad".to_string(),
        name: None,
        kind: Some(EntryType::File),
    })];
    let out = run_filters(&config(&["bad"], &[]), &steps);
    assert!(out.printed.is_empty());
    assert_eq!(
        out.diagnostics,
        strings(&["skipping an entry whose name is not valid UTF-8: r/bad"])
    );
    let out = run_filters(&config(&[], &[]), &steps);
    assert_eq!(out.printed, strings(&["r/bad"]));
    assert!(out.diagnostics.is_empty());
}

#[test]
fn unknown_kind_is_never_printed() {
    let steps = vec![WalkStep::Found(Entry {
        path: "r/fifo".to_string(),
        name: Some("fifo".to_string()),
        kind: None,
    })];
    let out = run_filters(&config(&[], &[]), &steps);
    assert!(out.printed.is_empty());
}

#[test]
fn tokens_name_kinds() {
    assert_eq!(EntryType::from_token("d"), Some(EntryType::Dir));
    assert_eq!(EntryType::from_token("f"), Some(EntryType::File));
    assert_eq!(EntryType::from_token("l"), Some(EntryType::Link));
    assert_eq!(EntryType::from_token("ff"), None);
    assert_eq!(EntryType::from_token(""), None);
    assert_eq!(EntryType::from_token("x"), None);
}

#[test]
fn kind_filter_membership() {
    assert!(kind_passes(&vec![], Some(EntryType::Link)));
    assert!(!kind_passes(&vec![], None));
    assert!(kind_passes(&vec![EntryType::File, EntryType::Dir], Some(EntryType::Dir)));
    assert!(!kind_passes(&vec![EntryType::File], Some(EntryType::Dir)));
}

#[test]
fn name_filter_uses_regex_search() {
    let ps = vec![Pattern::new("^c").unwrap(), Pattern::new("x{2}").unwrap()];
    assert!(name_passes(&ps, "cat"));
    assert!(name_passes(&ps, "axxb"));
    assert!(!name_passes(&ps, "dog"));
    assert!(name_passes(&vec![], "anything"));
    match Pattern::new("a(b") {
        Err(ConfigError::InvalidName(n)) => assert_eq!(n, "a(b"),
        _ => panic!("a(b must not compile"),
    }
}

#[test]
fn step_action_from_given_match() {
    let kinds = vec![EntryType::File];
    let step = found("r/a", "a", EntryType::File);
    assert!(matches!(step_action(&kinds, true, true, &step), Action::Print(p) if p == "r/a"));
    assert!(matches!(step_action(&kinds, true, false, &step), Action::Skip));
    assert!(matches!(step_action(&kinds, false, false, &step), Action::Print(_)));
    let dir = found("r", "r", EntryType::Dir);
    assert!(matches!(step_action(&kinds, false, true, &dir), Action::Skip));
}

#[test]
fn decide_one_step() {
    let c = config(&["\\.log$"], &[]);
    assert!(matches!(decide(&c, &found("root/b.log", "b.log", EntryType::File)), Action::Print(p) if p == "root/b.log"));
    assert!(matches!(decide(&c, &found("root/a.txt", "a.txt", EntryType::File)), Action::Skip));
    let failed = WalkStep::Failed("boom".to_string());
    assert!(matches!(decide(&c, &failed), Action::Report(m) if m == "boom"));
}
