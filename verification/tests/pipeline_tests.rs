use codeclip::pipeline::Candidate;
use codeclip::pipeline::run;
use codeclip::rules::IgnorePatterns;
use codeclip::rules::default_ignore_names;

fn candidate(parts: &[&str], content: &[u8]) -> Candidate {
    Candidate {
        segments: parts.iter().map(|s| s.to_string()).collect(),
        content: content.to_vec(),
    }
}

fn default_rules() -> IgnorePatterns {
    let mut rules = IgnorePatterns::new();
    let warnings = rules.add_patterns(&default_ignore_names());
    assert!(warnings.is_empty());
    rules
}

#[test]
fn readme_kept_node_modules_and_env_excluded() {
    // `node_modules/pkg.js` falls to the ancestor-directory match and
    // `.env` to the exact match; only `README.md` is recorded.
    let rules = default_rules();
    let candidates = vec![
        candidate(&["README.md"], b"hello"),
        candidate(&["node_modules", "pkg.js"], b"module.exports = 1;"),
        candidate(&[".env"], b"KEY=VALUE"),
    ];
    let doc = run(&rules, &candidates);
    assert_eq!(doc.output, "---\nfile: README.md\n---\n\nhello\n\n");
    assert_eq!(doc.accepted_paths, vec!["README.md".to_string()]);
}

#[test]
fn user_glob_excludes_matching_files() {
    let mut rules = default_rules();
    let user = vec!["*.log".to_string()];
    let warnings = rules.add_patterns(&user);
    assert!(warnings.is_empty());
    let candidates = vec![
        candidate(&["app.log"], b"log line"),
        candidate(&["app.txt"], b"text line"),
    ];
    let doc = run(&rules, &candidates);
    assert_eq!(doc.output, "---\nfile: app.txt\n---\n\ntext line\n\n");
    assert_eq!(doc.accepted_paths, vec!["app.txt".to_string()]);
}

#[test]
fn invalid_user_glob_warns_and_run_completes() {
    // An unbalanced `[` draws a warning, is dropped, and contributes no
    // matches: every candidate survives the rules.
    let mut rules = default_rules();
    let user = vec!["app[".to_string()];
    let warnings = rules.add_patterns(&user);
    assert_eq!(warnings.len(), 1);
    let candidates = vec![
        candidate(&["app["], b"odd name"),
        candidate(&["app.txt"], b"text"),
    ];
    let doc = run(&rules, &candidates);
    assert_eq!(
        doc.accepted_paths,
        vec!["app[".to_string(), "app.txt".to_string()]
    );
}

#[test]
fn run_is_deterministic_on_unchanged_input() {
    let rules = default_rules();
    let candidates = vec![
        candidate(&["src", "main.rs"], b"fn main() {}"),
        candidate(&["data.bin"], &[0x00, 0x01, 0x02]),
        candidate(&["docs", "guide.md"], b"# Guide"),
    ];
    let first = run(&rules, &candidates);
    let second = run(&rules, &candidates);
    assert_eq!(first.output, second.output);
    assert_eq!(first.accepted_paths, second.accepted_paths);
}

#[test]
fn binary_candidate_leaves_no_trace() {
    let rules = default_rules();
    let candidates = vec![candidate(&["image.png"], &[0x00, 0x50, 0x4E, 0x47])];
    let doc = run(&rules, &candidates);
    assert_eq!(doc.output, "");
    assert!(doc.accepted_paths.is_empty());
}

#[test]
fn nested_paths_use_forward_slashes_in_records() {
    let rules = default_rules();
    let candidates = vec![candidate(&["a", "b", "c.txt"], b"deep")];
    let doc = run(&rules, &candidates);
    assert_eq!(doc.output, "---\nfile: a/b/c.txt\n---\n\ndeep\n\n");
    assert_eq!(doc.accepted_paths, vec!["a/b/c.txt".to_string()]);
}
