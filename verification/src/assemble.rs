//! Assembly of accepted files into the single output document.
//!
//! Each accepted file contributes one record: a three-dash delimiter line,
//! a `file:` header with the relative path, a second delimiter line, a
//! blank line, the decoded text, and two trailing newlines.

use vstd::prelude::*;
use crate::content::decode_lossy;
use crate::content::decoded_text;
use crate::content::inspected;
use crate::content::is_text_file;
use crate::content::is_text_kind;

verus! {

/// The record a single accepted file adds to the document.
pub open spec fn spec_record(rel: Seq<char>, text: Seq<char>) -> Seq<char> {
    ("---\nfile: ")@ + rel + ("\n---\n\n")@ + text + ("\n\n")@
}

/// The growing output document and the relative paths accepted so far.
pub struct Assembler {
    pub output: String,
    pub accepted_paths: Vec<String>,
}

impl Assembler {
    /// The document text assembled so far.
    pub open spec fn doc(self) -> Seq<char> {
        self.output@
    }

    /// The accepted relative paths, in the order they were accepted.
    pub open spec fn paths(self) -> Seq<Seq<char>> {
        self.accepted_paths.deep_view()
    }

    /// An empty document.
    pub fn new() -> (r: Self)
        ensures
            r.doc() == Seq::<char>::empty(),
            r.paths() == Seq::<Seq<char>>::empty(),
    {
        let r = Assembler { output: String::new(), accepted_paths: Vec::new() };
        proof {
            assert(r.paths() =~= Seq::<Seq<char>>::empty());
        }
        r
    }

    /// Appends the record for one candidate file if its bytes classify as
    /// text, and otherwise leaves the document unchanged.  Returns whether
    /// the file was accepted.
    ///
    /// A non-empty file that opens with a zero byte is never accepted, and
    /// its path is not added to the accepted set.
    pub fn add_file(&mut self, rel_path: &str, content: &[u8]) -> (accepted: bool)
        ensures
            accepted == is_text_kind(inspected(content@)),
            accepted ==> final(self).doc() == old(self).doc() + spec_record(
                rel_path@,
                decoded_text(content@),
            ),
            accepted ==> final(self).paths() == old(self).paths().push(rel_path@),
            !accepted ==> *final(self) == *old(self),
            content@.len() > 0 && content@[0] == 0u8 ==> !accepted,
    {
        if !is_text_file(content) {
            return false;
        }
        let text = decode_lossy(content);
        self.output.append("---\nfile: ");
        self.output.append(rel_path);
        self.output.append("\n---\n\n");
        self.output.append(text.as_str());
        self.output.append("\n\n");
        self.accepted_paths.push(rel_path.to_owned());
        proof {
            assert(self.doc() =~= old(self).doc() + spec_record(
                rel_path@,
                decoded_text(content@),
            ));
            assert(self.paths() =~= old(self).paths().push(rel_path@));
        }
        true
    }
}

} // verus!
