//! Framing of rendered pages: the standalone HTML document and the
//! single-page SVG export.

use vstd::prelude::*;
use crate::text::{join_with, joined, joined_start, lemma_joined_part, views};

verus! {

/// Everything of the HTML document before the first page block.
pub const HTML_HEAD: &'static str = "<!DOCTYPE html>
<html lang=\"en\">
<head>
    <meta charset=\"UTF-8\">
    <meta name=\"viewport\" content=\"width=device-width, initial-scale=1.0\">
    <title>Typst Document</title>
    <style>
        body { margin: 0; padding: 20px; background: #f5f5f5; font-family: system-ui, sans-serif; }
        .page { background: white; box-shadow: 0 2px 8px rgba(0,0,0,0.1); margin: 0 auto 20px; max-width: 800px; padding: 20px; }
    </style>
</head>
<body>
";

/// Everything of the HTML document after the last page block.
pub const HTML_TAIL: &'static str = "
</body>
</html>";

/// Opens the block that holds one page.
pub const PAGE_OPEN: &'static str = "<div class=\"page\">";

/// Closes a block.
pub const DIV_CLOSE: &'static str = "</div>";

/// Separates neighbouring page blocks.
pub const PAGE_SEP: &'static str = "\n";

/// The error when a document has no page to export.
pub const NO_OUTPUT: &'static str = "No output generated";

/// `open`, then `s`, then `close`.
pub open spec fn framed(open: Seq<char>, s: Seq<char>, close: Seq<char>) -> Seq<char> {
    open + s + close
}

/// Each of `parts` framed by `open` and `close`.
pub open spec fn frame_all(parts: Seq<Seq<char>>, open: Seq<char>, close: Seq<char>) -> Seq<Seq<char>> {
    parts.map_values(|s: Seq<char>| framed(open, s, close))
}

/// The standalone HTML document for the pages `svgs`, one block per page in order.
pub open spec fn html_text(svgs: Seq<Seq<char>>) -> Seq<char> {
    HTML_HEAD@ + joined(frame_all(svgs, PAGE_OPEN@, DIV_CLOSE@), PAGE_SEP@) + HTML_TAIL@
}

/// Where the markup of page `i` starts in `html_text(svgs)`.
pub open spec fn page_offset(svgs: Seq<Seq<char>>, i: int) -> int {
    HTML_HEAD@.len() + joined_start(frame_all(svgs, PAGE_OPEN@, DIV_CLOSE@), PAGE_SEP@, i)
        + PAGE_OPEN@.len()
}

/// The HTML document holds the markup of every page verbatim: cut out at
/// `page_offset`, page `i` of the document is exactly `svgs[i]`, so the SVG
/// export and the HTML export carry the same rendering of each page.
pub proof fn html_keeps_each_page(svgs: Seq<Seq<char>>, i: int)
    requires
        0 <= i < svgs.len(),
    ensures
        page_offset(svgs, i) + svgs[i].len() <= html_text(svgs).len(),
        html_text(svgs).subrange(page_offset(svgs, i), page_offset(svgs, i) + svgs[i].len())
            == svgs[i],
{
    let blocks = frame_all(svgs, PAGE_OPEN@, DIV_CLOSE@);
    let body = joined(blocks, PAGE_SEP@);
    lemma_joined_part(blocks, PAGE_SEP@, i);
    let start = joined_start(blocks, PAGE_SEP@, i);
    let h = HTML_HEAD@.len() as int;
    let o = PAGE_OPEN@.len() as int;
    assert(blocks[i] == PAGE_OPEN@ + svgs[i] + DIV_CLOSE@);
    assert(html_text(svgs) == HTML_HEAD@ + body + HTML_TAIL@);
    assert(html_text(svgs).subrange(h + start, h + start + blocks[i].len()) =~= blocks[i]);
    assert(blocks[i].subrange(o, o + svgs[i].len()) =~= svgs[i]);
    assert(html_text(svgs).subrange(h + start + o, h + start + o + svgs[i].len())
        =~= blocks[i].subrange(o, o + svgs[i].len()));
}

/// Frames each string of `parts` by `open` and `close`.
pub fn frame_each(parts: &Vec<String>, open: &str, close: &str) -> (r: Vec<String>)
    ensures
        views(r@) == frame_all(views(parts@), open@, close@),
{
    let mut out: Vec<String> = Vec::new();
    let mut i: usize = 0;
    while i < parts.len()
        invariant
            i <= parts.len(),
            views(out@) == frame_all(views(parts@).take(i as int), open@, close@),
        decreases parts.len() - i,
    {
        let mut block = String::from_str(open);
        block.append(parts[i].as_str());
        block.append(close);
        let ghost before = out@;
        out.push(block);
        proof {
            assert(out@ =~= before.push(block));
            assert(views(out@) =~= views(before).push(block@));
            assert(frame_all(views(parts@).take(i + 1), open@, close@) =~= frame_all(
                views(parts@).take(i as int),
                open@,
                close@,
            ).push(framed(open@, parts@[i as int]@, close@)));
        }
        i = i + 1;
    }
    proof {
        assert(views(parts@).take(parts.len() as int) =~= views(parts@));
    }
    out
}

/// The standalone HTML document that shows the pages `svgs` in order.
pub fn html_document(svgs: &Vec<String>) -> (r: String)
    ensures
        r@ == html_text(views(svgs@)),
{
    let blocks = frame_each(svgs, PAGE_OPEN, DIV_CLOSE);
    let body = join_with(&blocks, PAGE_SEP);
    let mut out = String::from_str(HTML_HEAD);
    out.append(body.as_str());
    out.append(HTML_TAIL);
    out
}

/// The SVG export of a document: its first page, or an error when it has none.
pub fn first_page_svg(svgs: &Vec<String>) -> (r: Result<String, String>)
    ensures
        svgs@.len() > 0 ==> r is Ok && r->Ok_0@ == svgs@[0]@,
        svgs@.len() == 0 ==> r is Err && r->Err_0@ == NO_OUTPUT@,
{
    if svgs.len() > 0 {
        Ok(svgs[0].clone())
    } else {
        Err(String::from_str(NO_OUTPUT))
    }
}

} // verus!
