//! The ignore-rule set and its layered path matching.
//!
//! A rule is either an exact name (no glob metacharacters) or a glob
//! pattern (it contains `*`, `?` or `[`).  A path is ignored when its leaf
//! name, any ancestor segment, the full relative path or any prefix of the
//! relative path matches a rule.

use vstd::prelude::*;

verus! {

/// Whether a glob pattern's text compiles; a pattern that does not is
/// dropped from the rule set with a warning.
pub uninterp spec fn glob_valid(pattern: Seq<char>) -> bool;

/// Whether a compiled glob pattern matches a candidate string; the answer
/// depends on the pattern's and the candidate's characters alone.
pub uninterp spec fn glob_matches(pattern: Seq<char>, text: Seq<char>) -> bool;

/// Relies on glob::Pattern::new: whether a pattern compiles is a function
/// of its characters alone; on failure the compiler's message is returned
/// so the caller can report it.
#[verifier::external_body]
fn check_glob(pattern: &str) -> (r: Option<String>)
    ensures
        r is None <==> glob_valid(pattern@),
{
    match glob::Pattern::new(pattern) {
        Ok(_) => None,
        Err(e) => Some(format!("{}", e)),
    }
}

/// Relies on glob::Pattern::new and glob::Pattern::matches: compilation is
/// deterministic over the pattern's characters, and matching (with default
/// options) over the pattern's and the candidate's characters.
#[verifier::external_body]
fn match_glob(pattern: &str, text: &str) -> (r: bool)
    ensures
        r == (glob_valid(pattern@) && glob_matches(pattern@, text@)),
{
    match glob::Pattern::new(pattern) {
        Ok(p) => p.matches(text),
        Err(_) => false,
    }
}

/// The characters that make a rule a glob pattern rather than an exact name.
pub open spec fn is_glob_meta(c: char) -> bool {
    c == '*' || c == '?' || c == '['
}

/// Whether the string holds a glob metacharacter.
pub open spec fn has_glob_meta(s: Seq<char>) -> bool {
    exists|i: int| 0 <= i < s.len() && is_glob_meta(s[i])
}

/// Decides whether the two strings hold the same characters.
pub fn str_eq(a: &str, b: &str) -> (r: bool)
    ensures
        r == (a@ == b@),
{
    let a_len = a.unicode_len();
    let b_len = b.unicode_len();
    if a_len != b_len {
        return false;
    }
    let mut i: usize = 0;
    while i < a_len
        invariant
            0 <= i <= a_len,
            a_len == a@.len(),
            a_len == b@.len(),
            forall|j: int| 0 <= j < i ==> a@[j] == b@[j],
        decreases a_len - i,
    {
        if a.get_char(i) != b.get_char(i) {
            return false;
        }
        i = i + 1;
    }
    proof {
        assert(a@ =~= b@);
    }
    true
}

/// Decides whether the string holds a glob metacharacter.
pub fn has_glob_char(s: &str) -> (r: bool)
    ensures
        r == has_glob_meta(s@),
{
    let len = s.unicode_len();
    let mut i: usize = 0;
    while i < len
        invariant
            0 <= i <= len,
            len == s@.len(),
            forall|j: int| 0 <= j < i ==> !is_glob_meta(s@[j]),
        decreases len - i,
    {
        let c = s.get_char(i);
        if c == '*' || c == '?' || c == '[' {
            return true;
        }
        i = i + 1;
    }
    false
}

/// The combined exclusion rules: exact names and glob patterns, each rule
/// classified into exactly one bucket when it is added.
pub struct IgnorePatterns {
    pub exact_matches: Vec<String>,
    pub glob_patterns: Vec<String>,
}

impl IgnorePatterns {
    /// The exact-match names, as character sequences.
    pub open spec fn exacts(self) -> Seq<Seq<char>> {
        self.exact_matches.deep_view()
    }

    /// The registered glob patterns, as character sequences.
    pub open spec fn globs(self) -> Seq<Seq<char>> {
        self.glob_patterns.deep_view()
    }

    /// Every rule sits in the bucket its characters put it in, and every
    /// registered glob pattern compiles.
    pub open spec fn wf(self) -> bool {
        (forall|i: int| 0 <= i < self.exacts().len() ==> !has_glob_meta(self.exacts()[i]))
            && (forall|i: int|
            0 <= i < self.globs().len() ==> has_glob_meta(self.globs()[i]) && glob_valid(
                self.globs()[i],
            ))
    }

    /// Whether the string matches some rule: it equals an exact name, or a
    /// registered glob pattern matches it.
    pub open spec fn spec_matches(self, s: Seq<char>) -> bool {
        (exists|i: int| 0 <= i < self.exacts().len() && self.exacts()[i] == s) || (exists|i: int|
            0 <= i < self.globs().len() && glob_valid(self.globs()[i]) && glob_matches(
                self.globs()[i],
                s,
            ))
    }

    /// An empty rule set.
    pub fn new() -> (r: Self)
        ensures
            r.wf(),
            r.exacts() == Seq::<Seq<char>>::empty(),
            r.globs() == Seq::<Seq<char>>::empty(),
    {
        let r = IgnorePatterns { exact_matches: Vec::new(), glob_patterns: Vec::new() };
        proof {
            assert(r.exacts() =~= Seq::<Seq<char>>::empty());
            assert(r.globs() =~= Seq::<Seq<char>>::empty());
        }
        r
    }

    /// Adds one rule.  A string with a glob metacharacter is compiled as a
    /// glob pattern; one that does not compile is dropped and its warning
    /// returned.  Any other string becomes an exact name.
    pub fn add_pattern(&mut self, pattern: &str) -> (warning: Option<String>)
        ensures
            old(self).wf() ==> final(self).wf(),
            !has_glob_meta(pattern@) ==> {
                &&& final(self).exacts() == old(self).exacts().push(pattern@)
                &&& final(self).globs() == old(self).globs()
                &&& warning is None
            },
            has_glob_meta(pattern@) && glob_valid(pattern@) ==> {
                &&& final(self).exacts() == old(self).exacts()
                &&& final(self).globs() == old(self).globs().push(pattern@)
                &&& warning is None
            },
            has_glob_meta(pattern@) && !glob_valid(pattern@) ==> {
                &&& *final(self) == *old(self)
                &&& warning is Some
            },
    {
        if has_glob_char(pattern) {
            match check_glob(pattern) {
                None => {
                    self.glob_patterns.push(pattern.to_owned());
                    proof {
                        assert(self.globs() =~= old(self).globs().push(pattern@));
                        if old(self).wf() {
                            assert forall|i: int| 0 <= i < self.globs().len() implies has_glob_meta(
                                self.globs()[i],
                            ) && glob_valid(self.globs()[i]) by {
                                if i < old(self).globs().len() {
                                    assert(self.globs()[i] == old(self).globs()[i]);
                                } else {
                                    assert(self.globs()[i] == pattern@);
                                }
                            }
                        }
                    }
                    None
                },
                Some(msg) => Some(msg),
            }
        } else {
            self.exact_matches.push(pattern.to_owned());
            proof {
                assert(self.exacts() =~= old(self).exacts().push(pattern@));
                if old(self).wf() {
                    assert forall|i: int| 0 <= i < self.exacts().len() implies !has_glob_meta(
                        self.exacts()[i],
                    ) by {
                        if i < old(self).exacts().len() {
                            assert(self.exacts()[i] == old(self).exacts()[i]);
                        } else {
                            assert(self.exacts()[i] == pattern@);
                        }
                    }
                }
            }
            None
        }
    }

    /// Decides whether the single string matches any rule.
    pub fn should_ignore(&self, path_str: &str) -> (r: bool)
        ensures
            r == self.spec_matches(path_str@),
    {
        let mut i: usize = 0;
        while i < self.exact_matches.len()
            invariant
                0 <= i <= self.exact_matches.len(),
                forall|j: int| 0 <= j < i ==> self.exacts()[j] != path_str@,
            decreases self.exact_matches.len() - i,
        {
            if str_eq(self.exact_matches[i].as_str(), path_str) {
                proof {
                    assert(self.exacts()[i as int] == self.exact_matches@[i as int]@);
                }
                return true;
            }
            i = i + 1;
        }
        let mut i: usize = 0;
        while i < self.glob_patterns.len()
            invariant
                0 <= i <= self.glob_patterns.len(),
                forall|j: int|
                    0 <= j < self.exacts().len() ==> self.exacts()[j] != path_str@,
                forall|j: int|
                    0 <= j < i ==> !(glob_valid(self.globs()[j]) && glob_matches(
                        self.globs()[j],
                        path_str@,
                    )),
            decreases self.glob_patterns.len() - i,
        {
            if match_glob(self.glob_patterns[i].as_str(), path_str) {
                proof {
                    assert(self.globs()[i as int] == self.glob_patterns@[i as int]@);
                }
                return true;
            }
            i = i + 1;
        }
        false
    }
}

/// The exact-match bucket after the names are added in order: a name
/// without glob metacharacters lands here, every other name does not.
pub open spec fn exacts_after(exacts: Seq<Seq<char>>, names: Seq<Seq<char>>) -> Seq<Seq<char>>
    decreases names.len(),
{
    if names.len() == 0 {
        exacts
    } else if !has_glob_meta(names.first()) {
        exacts_after(exacts.push(names.first()), names.drop_first())
    } else {
        exacts_after(exacts, names.drop_first())
    }
}

/// The glob bucket after the names are added in order: a name with a glob
/// metacharacter lands here when it compiles, and is dropped when it does
/// not.
pub open spec fn globs_after(globs: Seq<Seq<char>>, names: Seq<Seq<char>>) -> Seq<Seq<char>>
    decreases names.len(),
{
    if names.len() == 0 {
        globs
    } else if has_glob_meta(names.first()) && glob_valid(names.first()) {
        globs_after(globs.push(names.first()), names.drop_first())
    } else {
        globs_after(globs, names.drop_first())
    }
}

/// How many of the names are glob patterns that do not compile; each one
/// draws a warning.
pub open spec fn num_rejected(names: Seq<Seq<char>>) -> nat
    decreases names.len(),
{
    if names.len() == 0 {
        0
    } else if has_glob_meta(names.first()) && !glob_valid(names.first()) {
        1 + num_rejected(names.drop_first())
    } else {
        num_rejected(names.drop_first())
    }
}

impl IgnorePatterns {
    /// Adds each name in order, classifying it as [`Self::add_pattern`]
    /// does, and returns the warnings for the glob patterns that were
    /// dropped.
    pub fn add_patterns(&mut self, names: &Vec<String>) -> (warnings: Vec<String>)
        ensures
            old(self).wf() ==> final(self).wf(),
            final(self).exacts() == exacts_after(old(self).exacts(), names.deep_view()),
            final(self).globs() == globs_after(old(self).globs(), names.deep_view()),
            warnings@.len() == num_rejected(names.deep_view()),
    {
        let ghost ns = names.deep_view();
        let mut warnings: Vec<String> = Vec::new();
        let mut i: usize = 0;
        proof {
            assert(ns.skip(0) =~= ns);
        }
        while i < names.len()
            invariant
                0 <= i <= names.len(),
                ns == names.deep_view(),
                ns.len() == names.len(),
                old(self).wf() ==> self.wf(),
                exacts_after(self.exacts(), ns.skip(i as int)) == exacts_after(
                    old(self).exacts(),
                    ns,
                ),
                globs_after(self.globs(), ns.skip(i as int)) == globs_after(old(self).globs(), ns),
                warnings@.len() + num_rejected(ns.skip(i as int)) == num_rejected(ns),
            decreases names.len() - i,
        {
            let ghost pre = *self;
            let ghost rest = ns.skip(i as int);
            proof {
                assert(ns[i as int] == names@[i as int]@);
                assert(rest.first() == ns[i as int]);
                assert(rest.drop_first() =~= ns.skip(i + 1));
            }
            let w = self.add_pattern(names[i].as_str());
            if let Some(msg) = w {
                warnings.push(msg);
            }
            proof {
                assert(exacts_after(self.exacts(), ns.skip(i + 1)) == exacts_after(
                    pre.exacts(),
                    rest,
                ));
                assert(globs_after(self.globs(), ns.skip(i + 1)) == globs_after(
                    pre.globs(),
                    rest,
                ));
                assert(warnings@.len() + num_rejected(ns.skip(i + 1)) == num_rejected(ns));
            }
            i = i + 1;
        }
        proof {
            assert(ns.skip(names.len() as int) =~= Seq::<Seq<char>>::empty());
        }
        warnings
    }
}

/// The built-in names that are never collected: lock files, OS metadata,
/// environment files, build output directories and license files.
pub open spec fn spec_default_names() -> Seq<Seq<char>> {
    seq![
        ("yarn.lock")@,
        ("Cargo.lock")@,
        ("pnpm-lock.yaml")@,
        ("package-lock.json")@,
        (".DS_Store")@,
        ("thumbs.db")@,
        (".env")@,
        (".env.local")@,
        (".env.development")@,
        (".env.production")@,
        ("node_modules")@,
        ("target")@,
        ("dist")@,
        ("build")@,
        ("LICENSE.md")@,
        ("LICENSE")@,
    ]
}

/// The built-in ignore list, in the order the rules are seeded.
pub fn default_ignore_names() -> (r: Vec<String>)
    ensures
        r.deep_view() == spec_default_names(),
{
    let mut r: Vec<String> = Vec::new();
    r.push(String::from_str("yarn.lock"));
    r.push(String::from_str("Cargo.lock"));
    r.push(String::from_str("pnpm-lock.yaml"));
    r.push(String::from_str("package-lock.json"));
    r.push(String::from_str(".DS_Store"));
    r.push(String::from_str("thumbs.db"));
    r.push(String::from_str(".env"));
    r.push(String::from_str(".env.local"));
    r.push(String::from_str(".env.development"));
    r.push(String::from_str(".env.production"));
    r.push(String::from_str("node_modules"));
    r.push(String::from_str("target"));
    r.push(String::from_str("dist"));
    r.push(String::from_str("build"));
    r.push(String::from_str("LICENSE.md"));
    r.push(String::from_str("LICENSE"));
    proof {
        assert(r.deep_view() =~= spec_default_names());
    }
    r
}

/// The relative path written by the segments so far, `/`-separated.
pub open spec fn join_path(segs: Seq<Seq<char>>) -> Seq<char>
    decreases segs.len(),
{
    if segs.len() == 0 {
        Seq::empty()
    } else if segs.len() == 1 {
        segs[0]
    } else {
        join_path(segs.drop_last()) + seq!['/'] + segs.last()
    }
}

/// Joins path segments with `/`, the platform-neutral separator the
/// assembled records display.
pub fn join_segments(segments: &Vec<String>) -> (r: String)
    ensures
        r@ == join_path(segments.deep_view()),
{
    let ghost segs = segments.deep_view();
    let mut r = String::new();
    let mut i: usize = 0;
    proof {
        assert(segs.take(0) =~= Seq::<Seq<char>>::empty());
    }
    while i < segments.len()
        invariant
            0 <= i <= segments.len(),
            segs == segments.deep_view(),
            segs.len() == segments.len(),
            r@ == join_path(segs.take(i as int)),
        decreases segments.len() - i,
    {
        if i > 0 {
            r.append("/");
            proof {
                reveal_strlit("/");
                assert(("/")@ =~= seq!['/']);
            }
        }
        r.append(segments[i].as_str());
        proof {
            let t = segs.take(i + 1);
            assert(t.last() == segs[i as int]);
            if i == 0 {
                assert(t.len() == 1);
                assert(r@ =~= join_path(t));
            } else {
                assert(t.drop_last() =~= segs.take(i as int));
                assert(r@ =~= join_path(t));
            }
        }
        i = i + 1;
    }
    proof {
        assert(segs.take(segments.len() as int) =~= segs);
    }
    r
}

/// Whether the path written by the segments is ignored: some segment
/// (leaf or ancestor) matches a rule, or some `/`-joined prefix of the
/// relative path (the full path included) does.
pub open spec fn spec_should_ignore_file(rules: IgnorePatterns, segs: Seq<Seq<char>>) -> bool {
    (exists|i: int| 0 <= i < segs.len() && rules.spec_matches(segs[i])) || (exists|k: int|
        1 <= k <= segs.len() && rules.spec_matches(join_path(segs.take(k))))
}

/// The original's four-level check: the leaf name, every ancestor segment,
/// the full relative path, and every relative-path prefix are each held
/// against the rules.
pub fn should_ignore_file(rules: &IgnorePatterns, segments: &Vec<String>) -> (r: bool)
    ensures
        r == spec_should_ignore_file(*rules, segments.deep_view()),
{
    let ghost segs = segments.deep_view();
    let mut i: usize = 0;
    while i < segments.len()
        invariant
            0 <= i <= segments.len(),
            segs == segments.deep_view(),
            segs.len() == segments.len(),
            forall|j: int| 0 <= j < i ==> !rules.spec_matches(segs[j]),
        decreases segments.len() - i,
    {
        if rules.should_ignore(segments[i].as_str()) {
            proof {
                assert(segs[i as int] == segments@[i as int]@);
            }
            return true;
        }
        i = i + 1;
    }
    let mut prefix = String::new();
    let mut k: usize = 0;
    proof {
        assert(segs.take(0) =~= Seq::<Seq<char>>::empty());
    }
    while k < segments.len()
        invariant
            0 <= k <= segments.len(),
            segs == segments.deep_view(),
            segs.len() == segments.len(),
            forall|j: int| 0 <= j < segs.len() ==> !rules.spec_matches(segs[j]),
            prefix@ == join_path(segs.take(k as int)),
            forall|j: int| 1 <= j <= k ==> !rules.spec_matches(join_path(segs.take(j))),
        decreases segments.len() - k,
    {
        if k > 0 {
            prefix.append("/");
            proof {
                reveal_strlit("/");
                assert(("/")@ =~= seq!['/']);
            }
        }
        prefix.append(segments[k].as_str());
        proof {
            let t = segs.take(k + 1);
            assert(t.last() == segs[k as int]);
            if k == 0 {
                assert(t.len() == 1);
                assert(prefix@ =~= join_path(t));
            } else {
                assert(t.drop_last() =~= segs.take(k as int));
                assert(prefix@ =~= join_path(t));
            }
        }
        if rules.should_ignore(prefix.as_str()) {
            proof {
                assert(1 <= k + 1 <= segs.len() && rules.spec_matches(join_path(segs.take(k + 1))));
            }
            return true;
        }
        k = k + 1;
    }
    false
}

/// An exact rule anywhere in the path excludes it: a path whose leaf, whose
/// ancestor segment, or whose full relative path equals a registered exact
/// name is ignored.
pub proof fn lemma_exact_match_ignored(rules: IgnorePatterns, segs: Seq<Seq<char>>)
    ensures
        (exists|i: int, j: int|
            0 <= i < segs.len() && 0 <= j < rules.exacts().len() && rules.exacts()[j] == segs[i])
            ==> spec_should_ignore_file(rules, segs),
        (segs.len() > 0 && exists|j: int|
            0 <= j < rules.exacts().len() && rules.exacts()[j] == join_path(segs))
            ==> spec_should_ignore_file(rules, segs),
{
    if exists|i: int, j: int|
        0 <= i < segs.len() && 0 <= j < rules.exacts().len() && rules.exacts()[j] == segs[i] {
        let (i, j) = choose|i: int, j: int|
            0 <= i < segs.len() && 0 <= j < rules.exacts().len() && rules.exacts()[j] == segs[i];
        assert(rules.spec_matches(segs[i]));
    }
    if segs.len() > 0 && exists|j: int|
        0 <= j < rules.exacts().len() && rules.exacts()[j] == join_path(segs) {
        assert(segs.take(segs.len() as int) =~= segs);
        assert(rules.spec_matches(join_path(segs.take(segs.len() as int))));
    }
}

/// A registered glob pattern that matches the leaf, an ancestor segment or
/// any `/`-joined prefix of the relative path (the full path included)
/// excludes it; and a path that no rule matches at any of those levels is
/// kept.
pub proof fn lemma_glob_match_ignored(rules: IgnorePatterns, segs: Seq<Seq<char>>)
    ensures
        (exists|i: int, j: int|
            0 <= i < segs.len() && 0 <= j < rules.globs().len() && glob_valid(rules.globs()[j])
                && glob_matches(rules.globs()[j], segs[i])) ==> spec_should_ignore_file(
            rules,
            segs,
        ),
        (exists|k: int, j: int|
            1 <= k <= segs.len() && 0 <= j < rules.globs().len() && glob_valid(rules.globs()[j])
                && glob_matches(rules.globs()[j], join_path(segs.take(k))))
            ==> spec_should_ignore_file(rules, segs),
        ((forall|i: int| 0 <= i < segs.len() ==> !rules.spec_matches(segs[i])) && (forall|k: int|
            1 <= k <= segs.len() ==> !rules.spec_matches(join_path(segs.take(k)))))
            ==> !spec_should_ignore_file(rules, segs),
{
    if exists|i: int, j: int|
        0 <= i < segs.len() && 0 <= j < rules.globs().len() && glob_valid(rules.globs()[j])
            && glob_matches(rules.globs()[j], segs[i]) {
        let (i, j) = choose|i: int, j: int|
            0 <= i < segs.len() && 0 <= j < rules.globs().len() && glob_valid(rules.globs()[j])
                && glob_matches(rules.globs()[j], segs[i]);
        assert(rules.spec_matches(segs[i]));
    }
    if exists|k: int, j: int|
        1 <= k <= segs.len() && 0 <= j < rules.globs().len() && glob_valid(rules.globs()[j])
            && glob_matches(rules.globs()[j], join_path(segs.take(k))) {
        let (k, j) = choose|k: int, j: int|
            1 <= k <= segs.len() && 0 <= j < rules.globs().len() && glob_valid(rules.globs()[j])
                && glob_matches(rules.globs()[j], join_path(segs.take(k)));
        assert(rules.spec_matches(join_path(segs.take(k))));
    }
}

} // verus!
