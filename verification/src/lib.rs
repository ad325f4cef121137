//! Collects the text files of a directory tree into one delimited document.
//!
//! The library holds the verified core of the tool: the layered ignore-rule
//! matcher, the text/binary gate over a content classifier, lossy UTF-8
//! decoding, and the assembly of per-file records into a single output
//! document.  Walking the real filesystem and handing the document to the
//! clipboard stay outside, in the binary around this crate.

pub mod assemble;
pub mod content;
pub mod pipeline;
pub mod rules;
