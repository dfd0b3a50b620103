//! What follows a compilation: the exported pages or PDF handed on
//! unchanged, or the error text of a failed run.

use vstd::prelude::*;
use crate::text::{join_with, joined, views};

verus! {

/// Separates the messages of a failed compilation.
pub const LINE_SEP: &'static str = "\n";

/// The message for a document that compiled but could not be exported.
pub const EXPORT_FAILED: &'static str = "The document could not be exported";

/// The error text of a failed compilation: its messages, one per line.
pub open spec fn error_message(msgs: Seq<Seq<char>>) -> Seq<char> {
    joined(msgs, LINE_SEP@)
}

/// Joins the messages of a failed compilation into one text, one per line.
pub fn diagnostics_text(msgs: &Vec<String>) -> (r: String)
    ensures
        r@ == error_message(views(msgs@)),
{
    join_with(msgs, LINE_SEP)
}

/// The SVG pages of a run that ended with `exported` (the pages in order,
/// or the messages that stopped it), or its error text.
pub fn svg_outcome(exported: Result<Vec<String>, Vec<String>>) -> (r: Result<Vec<String>, String>)
    ensures
        exported is Ok ==> r is Ok && views(r->Ok_0@) == views(exported->Ok_0@),
        exported is Ok ==> r->Ok_0@.len() == exported->Ok_0@.len(),
        exported is Err ==> r is Err && r->Err_0@ == error_message(views(exported->Err_0@)),
{
    match exported {
        Ok(pages) => Ok(pages),
        Err(msgs) => Err(diagnostics_text(&msgs)),
    }
}

/// The PDF file of a run that ended with `exported`, or its error text.
pub fn pdf_outcome(exported: Result<Vec<u8>, Vec<String>>) -> (r: Result<Vec<u8>, String>)
    ensures
        exported is Ok ==> r is Ok && r->Ok_0@ == exported->Ok_0@,
        exported is Err ==> r is Err && r->Err_0@ == error_message(views(exported->Err_0@)),
{
    match exported {
        Ok(bytes) => Ok(bytes),
        Err(msgs) => Err(diagnostics_text(&msgs)),
    }
}

} // verus!
