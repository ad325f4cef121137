//! The traversal driver's decision logic, folded over candidate files.
//!
//! The walk itself is outside work: whatever enumerates the tree hands
//! each regular file in as a candidate (its relative-path segments and its
//! raw bytes), and the pipeline filters, gates and assembles exactly as
//! the incremental pieces do.

use vstd::prelude::*;
use crate::assemble::Assembler;
use crate::assemble::spec_record;
use crate::content::decoded_text;
use crate::content::inspected;
use crate::content::is_text_kind;
use crate::rules::IgnorePatterns;
use crate::rules::join_path;
use crate::rules::join_segments;
use crate::rules::should_ignore_file;
use crate::rules::spec_should_ignore_file;

verus! {

/// One regular file handed in by the directory walk: its path segments
/// relative to the scan root, and its raw bytes.
pub struct Candidate {
    pub segments: Vec<String>,
    pub content: Vec<u8>,
}

impl Candidate {
    /// The relative-path segments, as character sequences.
    pub open spec fn segs(self) -> Seq<Seq<char>> {
        self.segments.deep_view()
    }
}

/// Whether one candidate is taken into the document: it survives the
/// ignore rules and its bytes classify as text.
pub open spec fn spec_accepts(rules: IgnorePatterns, c: Candidate) -> bool {
    !spec_should_ignore_file(rules, c.segs()) && is_text_kind(inspected(c.content@))
}

/// The document text after the candidates are processed in order.
pub open spec fn spec_run(rules: IgnorePatterns, cands: Seq<Candidate>) -> Seq<char>
    decreases cands.len(),
{
    if cands.len() == 0 {
        Seq::empty()
    } else if spec_accepts(rules, cands.last()) {
        spec_run(rules, cands.drop_last()) + spec_record(
            join_path(cands.last().segs()),
            decoded_text(cands.last().content@),
        )
    } else {
        spec_run(rules, cands.drop_last())
    }
}

/// The accepted relative paths after the candidates are processed in order.
pub open spec fn spec_run_paths(rules: IgnorePatterns, cands: Seq<Candidate>) -> Seq<Seq<char>>
    decreases cands.len(),
{
    if cands.len() == 0 {
        Seq::empty()
    } else if spec_accepts(rules, cands.last()) {
        spec_run_paths(rules, cands.drop_last()).push(join_path(cands.last().segs()))
    } else {
        spec_run_paths(rules, cands.drop_last())
    }
}

/// Runs the whole pipeline over candidates already in memory: each file is
/// dropped if the rules ignore its path, dropped if its bytes do not
/// classify as text, and otherwise appended to the document as one record.
pub fn run(rules: &IgnorePatterns, candidates: &Vec<Candidate>) -> (r: Assembler)
    ensures
        r.doc() == spec_run(*rules, candidates@),
        r.paths() == spec_run_paths(*rules, candidates@),
{
    let mut doc = Assembler::new();
    let mut i: usize = 0;
    proof {
        assert(candidates@.take(0) =~= Seq::<Candidate>::empty());
    }
    while i < candidates.len()
        invariant
            0 <= i <= candidates.len(),
            doc.doc() == spec_run(*rules, candidates@.take(i as int)),
            doc.paths() == spec_run_paths(*rules, candidates@.take(i as int)),
        decreases candidates.len() - i,
    {
        let c = &candidates[i];
        proof {
            let t = candidates@.take(i + 1);
            assert(t.drop_last() =~= candidates@.take(i as int));
            assert(t.last() == candidates@[i as int]);
        }
        if !should_ignore_file(rules, &c.segments) {
            let rel = join_segments(&c.segments);
            doc.add_file(rel.as_str(), c.content.as_slice());
        }
        i = i + 1;
    }
    proof {
        assert(candidates@.take(candidates.len() as int) =~= candidates@);
    }
    doc
}

/// Idempotence of the pipeline: the document is a function of the rules
/// and the candidate list alone, so two runs over an unchanged tree,
/// enumerated in the same order, produce identical output.
pub proof fn lemma_run_deterministic(
    rules: IgnorePatterns,
    cands: Seq<Candidate>,
    first: Seq<char>,
    second: Seq<char>,
)
    requires
        first == spec_run(rules, cands),
        second == spec_run(rules, cands),
    ensures
        first == second,
{
}

} // verus!
