use codeclip::rules::IgnorePatterns;
use codeclip::rules::default_ignore_names;
use codeclip::rules::has_glob_char;
use codeclip::rules::join_segments;
use codeclip::rules::should_ignore_file;
use codeclip::rules::str_eq;

fn segs(parts: &[&str]) -> Vec<String> {
    parts.iter().map(|s| s.to_string()).collect()
}

#[test]
fn str_eq_basic() {
    assert!(str_eq("", ""));
    assert!(str_eq("abc", "abc"));
    assert!(!str_eq("abc", "abd"));
    assert!(!str_eq("abc", "ab"));
    assert!(str_eq("naïve", "naïve"));
}

#[test]
fn glob_char_detection() {
    assert!(has_glob_char("*.log"));
    assert!(has_glob_char("file?.txt"));
    assert!(has_glob_char("[ab]"));
    assert!(!has_glob_char("yarn.lock"));
    assert!(!has_glob_char(".env"));
}

#[test]
fn add_pattern_classifies_exact() {
    let mut rules = IgnorePatterns::new();
    let warning = rules.add_pattern(".env");
    assert!(warning.is_none());
    assert_eq!(rules.exact_matches.len(), 1);
    assert_eq!(rules.glob_patterns.len(), 0);
    assert_eq!(rules.exact_matches[0], ".env");
}

#[test]
fn add_pattern_classifies_glob() {
    let mut rules = IgnorePatterns::new();
    let warning = rules.add_pattern("*.log");
    assert!(warning.is_none());
    assert_eq!(rules.exact_matches.len(), 0);
    assert_eq!(rules.glob_patterns.len(), 1);
    assert_eq!(rules.glob_patterns[0], "*.log");
}

#[test]
fn invalid_glob_is_dropped_with_warning() {
    let mut rules = IgnorePatterns::new();
    let warning = rules.add_pattern("a[");
    assert!(warning.is_some());
    assert_eq!(rules.exact_matches.len(), 0);
    assert_eq!(rules.glob_patterns.len(), 0);
    // The dropped pattern contributes no matches.
    assert!(!rules.should_ignore("a["));
    assert!(!rules.should_ignore("ab"));
}

#[test]
fn should_ignore_exact_and_glob() {
    let mut rules = IgnorePatterns::new();
    rules.add_pattern(".env");
    rules.add_pattern("*.log");
    assert!(rules.should_ignore(".env"));
    assert!(rules.should_ignore("app.log"));
    assert!(!rules.should_ignore("app.txt"));
    assert!(!rules.should_ignore(".environment"));
}

#[test]
fn add_patterns_reports_each_rejected_glob() {
    let mut rules = IgnorePatterns::new();
    let names = segs(&[".env", "*.log", "a[", "b["]);
    let warnings = rules.add_patterns(&names);
    assert_eq!(warnings.len(), 2);
    assert_eq!(rules.exact_matches.len(), 1);
    assert_eq!(rules.glob_patterns.len(), 1);
}

#[test]
fn default_names_match_builtin_list() {
    let names = default_ignore_names();
    assert_eq!(names.len(), 16);
    assert_eq!(names[0], "yarn.lock");
    assert!(names.iter().any(|n| n == "node_modules"));
    assert!(names.iter().any(|n| n == ".env"));
    assert!(names.iter().any(|n| n == "LICENSE"));
    assert!(names.iter().all(|n| !has_glob_char(n)));
}

#[test]
fn join_segments_uses_forward_slashes() {
    assert_eq!(join_segments(&segs(&[])), "");
    assert_eq!(join_segments(&segs(&["a"])), "a");
    assert_eq!(join_segments(&segs(&["a", "b", "c"])), "a/b/c");
}

#[test]
fn ignore_file_by_leaf_name() {
    let mut rules = IgnorePatterns::new();
    rules.add_pattern(".env");
    assert!(should_ignore_file(&rules, &segs(&[".env"])));
    assert!(should_ignore_file(&rules, &segs(&["deep", "dir", ".env"])));
    assert!(!should_ignore_file(&rules, &segs(&["README.md"])));
}

#[test]
fn ignore_file_by_ancestor_name() {
    let mut rules = IgnorePatterns::new();
    rules.add_pattern("node_modules");
    assert!(should_ignore_file(&rules, &segs(&["node_modules", "pkg.js"])));
    assert!(should_ignore_file(&rules, &segs(&["a", "node_modules", "b", "pkg.js"])));
    assert!(!should_ignore_file(&rules, &segs(&["src", "main.rs"])));
}

#[test]
fn ignore_file_by_relative_path() {
    let mut rules = IgnorePatterns::new();
    rules.add_pattern("docs/internal.md");
    assert!(should_ignore_file(&rules, &segs(&["docs", "internal.md"])));
    assert!(!should_ignore_file(&rules, &segs(&["docs", "public.md"])));
}

#[test]
fn ignore_file_by_path_prefix_glob() {
    let mut rules = IgnorePatterns::new();
    rules.add_pattern("src/*.rs");
    assert!(should_ignore_file(&rules, &segs(&["src", "main.rs"])));
    // Neither a segment nor any `/`-joined prefix of this path matches.
    assert!(!should_ignore_file(&rules, &segs(&["src", "gen", "out.txt"])));
}

#[test]
fn ignore_file_by_leaf_glob() {
    let mut rules = IgnorePatterns::new();
    rules.add_pattern("*.log");
    assert!(should_ignore_file(&rules, &segs(&["app.log"])));
    assert!(should_ignore_file(&rules, &segs(&["logs", "app.log"])));
    assert!(!should_ignore_file(&rules, &segs(&["app.txt"])));
}
