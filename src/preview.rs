//! The live preview: what the editor shows for a piece of markup.

use vstd::prelude::*;
use crate::export::{frame_all, frame_each, DIV_CLOSE};
use crate::render::{error_message, LINE_SEP};
use crate::text::{blank, is_blank, join_with, joined, views};

verus! {

/// The outcome of a preview compilation as the editor receives it.
#[derive(Debug)]
pub struct CompileResult {
    pub success: bool,
    pub html: Option<String>,
    pub error: Option<String>,
}

/// Shown instead of a preview while the document is blank.
pub const PLACEHOLDER: &'static str = "<div style=\"color: #71717A; padding: 40px; text-align: center;\">Start typing Typst markup to see preview...</div>";

/// Opens the column that holds the preview's pages.
pub const PREVIEW_OPEN: &'static str = "<div style=\"display: flex; flex-direction: column; gap: 20px; padding: 20px; background: white;\">";

/// Opens the card that holds one page of the preview.
pub const PREVIEW_PAGE_OPEN: &'static str = "<div style=\"box-shadow: 0 2px 8px rgba(0,0,0,0.1); padding: 10px; background: white;\">";

/// Opens the error block, up to the diagnostic text.
pub const ERROR_OPEN: &'static str = "<div style=\"padding: 20px; background: #FEF2F2; border: 1px solid #FECACA; border-radius: 4px; margin: 20px;\">
                    <div style=\"color: #DC2626; font-weight: 600; margin-bottom: 8px;\">Compilation Error</div>
                    <pre style=\"color: #991B1B; font-size: 13px; white-space: pre-wrap; margin: 0; font-family: monospace;\">";

/// Closes the error block after the diagnostic text.
pub const ERROR_CLOSE: &'static str = "</pre>
                </div>";

/// Nothing between neighbouring preview cards.
pub const NO_SEP: &'static str = "";

/// The preview markup for the pages `svgs`, one card per page in order.
pub open spec fn preview_text(svgs: Seq<Seq<char>>) -> Seq<char> {
    PREVIEW_OPEN@ + joined(frame_all(svgs, PREVIEW_PAGE_OPEN@, DIV_CLOSE@), NO_SEP@) + DIV_CLOSE@
}

/// The preview markup for a failed compilation with message `e`.
pub open spec fn error_text(e: Seq<char>) -> Seq<char> {
    ERROR_OPEN@ + e + ERROR_CLOSE@
}

/// Whether `r` is the placeholder result shown for a blank document.
pub open spec fn is_placeholder(r: CompileResult) -> bool {
    &&& r.success
    &&& r.html is Some
    &&& r.html->Some_0@ == PLACEHOLDER@
    &&& r.error is None
}

/// The result of a preview whose compilation ended with `outcome`: the
/// rendered pages or the joined diagnostics.
pub open spec fn preview_of(outcome: Result<Seq<Seq<char>>, Seq<char>>, r: CompileResult) -> bool {
    match outcome {
        Ok(svgs) => {
            &&& r.success
            &&& r.html is Some
            &&& r.html->Some_0@ == preview_text(svgs)
            &&& r.error is None
        },
        Err(e) => {
            &&& !r.success
            &&& r.html is Some
            &&& r.html->Some_0@ == error_text(e)
            &&& r.error is Some
            &&& r.error->Some_0@ == e
        },
    }
}

/// A compilation that failed with the messages `msgs` gives a failed preview
/// whose error is those messages joined one per line, shown verbatim in the
/// error block.
pub proof fn failed_preview_reports_messages(msgs: Seq<Seq<char>>, r: CompileResult)
    requires
        preview_of(Err(error_message(msgs)), r),
    ensures
        !r.success,
        r.error is Some,
        r.error->Some_0@ == joined(msgs, LINE_SEP@),
        r.html is Some,
        r.html->Some_0@ == ERROR_OPEN@ + joined(msgs, LINE_SEP@) + ERROR_CLOSE@,
{
}

/// The preview of a blank document, which is never compiled; `None` when
/// `content` has something to compile.
pub fn blank_preview(content: &str) -> (r: Option<CompileResult>)
    ensures
        r is Some <==> blank(content@),
        r is Some ==> is_placeholder(r->Some_0),
{
    if is_blank(content) {
        Some(CompileResult { success: true, html: Some(String::from_str(PLACEHOLDER)), error: None })
    } else {
        None
    }
}

/// The preview markup that shows the pages `svgs` in order.
pub fn preview_markup(svgs: &Vec<String>) -> (r: String)
    ensures
        r@ == preview_text(views(svgs@)),
{
    let cards = frame_each(svgs, PREVIEW_PAGE_OPEN, DIV_CLOSE);
    let body = join_with(&cards, NO_SEP);
    let mut out = String::from_str(PREVIEW_OPEN);
    out.append(body.as_str());
    out.append(DIV_CLOSE);
    out
}

/// The preview markup that reports the compilation error `e`.
pub fn error_markup(e: &str) -> (r: String)
    ensures
        r@ == error_text(e@),
{
    let mut out = String::from_str(ERROR_OPEN);
    out.append(e);
    out.append(ERROR_CLOSE);
    out
}

/// The preview for a compilation that ended with `outcome`.
pub fn preview_result(outcome: Result<Vec<String>, String>) -> (r: CompileResult)
    ensures
        preview_of(
            match outcome {
                Ok(svgs) => Ok(views(svgs@)),
                Err(e) => Err(e@),
            },
            r,
        ),
{
    match outcome {
        Ok(svgs) => CompileResult { success: true, html: Some(preview_markup(&svgs)), error: None },
        Err(e) => {
            let html = error_markup(e.as_str());
            CompileResult { success: false, html: Some(html), error: Some(e) }
        },
    }
}

} // verus!
