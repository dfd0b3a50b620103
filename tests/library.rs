use typst_desk::export::{first_page_svg, html_document, HTML_HEAD, HTML_TAIL};
use typst_desk::fonts::{entry_action, font_dirs, is_font_extension, EntryAction, Platform, MAX_FONT_DEPTH};
use typst_desk::preview::{blank_preview, error_markup, preview_markup, preview_result, PLACEHOLDER};
use typst_desk::recent::{push_recent, RecentFile, MAX_RECENT};
use typst_desk::render::diagnostics_text;
use typst_desk::templates::{get_template_content, get_templates, TEMPLATE_NOT_FOUND};
use typst_desk::text::{is_blank, join_with};

fn strings(v: &[&str]) -> Vec<String> {
    v.iter().map(|s| s.to_string()).collect()
}

#[test]
fn blank_texts() {
    assert!(is_blank(""));
    assert!(is_blank(" \n\t\r "));
    assert!(is_blank("\u{3000}\u{00A0}"));
    assert!(!is_blank("  = Hello  "));
}

#[test]
fn blank_input_gets_placeholder() {
    for input in ["", "   ", "\n\n\t"] {
        let r = blank_preview(input).expect("placeholder");
        assert!(r.success);
        assert_eq!(r.html.as_deref(), Some(PLACEHOLDER));
        assert_eq!(r.error, None);
    }
    assert!(blank_preview("= Hello").is_none());
}

#[test]
fn placeholder_text() {
    assert_eq!(
        PLACEHOLDER,
        "<div style=\"color: #71717A; padding: 40px; text-align: center;\">Start typing Typst markup to see preview...</div>"
    );
}

#[test]
fn join_lines() {
    assert_eq!(join_with(&strings(&["a", "b", "c"]), "\n"), "a\nb\nc");
    assert_eq!(join_with(&strings(&["only"]), "\n"), "only");
    assert_eq!(join_with(&Vec::new(), "\n"), "");
    assert_eq!(join_with(&strings(&["x", "y"]), ""), "xy");
}

#[test]
fn diagnostics_joined_by_newline() {
    assert_eq!(diagnostics_text(&strings(&["first", "second"])), "first\nsecond");
}

#[test]
fn html_document_layout() {
    let svgs = strings(&["<svg>1</svg>", "<svg>2</svg>"]);
    let html = html_document(&svgs);
    let expected = format!(
        "{}<div class=\"page\"><svg>1</svg></div>\n<div class=\"page\"><svg>2</svg></div>{}",
        HTML_HEAD, HTML_TAIL
    );
    assert_eq!(html, expected);
    assert!(html.starts_with("<!DOCTYPE html>"));
    assert!(html.ends_with("</body>\n</html>"));
    assert!(html.contains(".page { background: white;"));
}

#[test]
fn html_embeds_svg_unchanged() {
    let svgs = strings(&["<svg a=\"1\">x</svg>", "<svg>y &amp; z</svg>"]);
    let html = html_document(&svgs);
    let body = &html[HTML_HEAD.len()..html.len() - HTML_TAIL.len()];
    let pages: Vec<&str> = body
        .split('\n')
        .map(|b| b.strip_prefix("<div class=\"page\">").unwrap().strip_suffix("</div>").unwrap())
        .collect();
    assert_eq!(pages, vec![svgs[0].as_str(), svgs[1].as_str()]);
    assert_eq!(first_page_svg(&svgs), Ok(svgs[0].clone()));
}

#[test]
fn html_of_no_pages() {
    assert_eq!(html_document(&Vec::new()), format!("{}{}", HTML_HEAD, HTML_TAIL));
}

#[test]
fn svg_export_without_pages() {
    assert_eq!(first_page_svg(&Vec::new()), Err("No output generated".to_string()));
}

#[test]
fn preview_of_pages() {
    let r = preview_result(Ok(strings(&["<svg>1</svg>", "<svg>2</svg>"])));
    assert!(r.success);
    assert_eq!(r.error, None);
    let card = "<div style=\"box-shadow: 0 2px 8px rgba(0,0,0,0.1); padding: 10px; background: white;\">";
    let expected = format!(
        "<div style=\"display: flex; flex-direction: column; gap: 20px; padding: 20px; background: white;\">{card}<svg>1</svg></div>{card}<svg>2</svg></div></div>"
    );
    assert_eq!(r.html, Some(expected.clone()));
    assert_eq!(preview_markup(&strings(&["<svg>1</svg>", "<svg>2</svg>"])), expected);
}

#[test]
fn preview_of_error() {
    let r = preview_result(Err("bad\nworse".to_string()));
    assert!(!r.success);
    assert_eq!(r.error.as_deref(), Some("bad\nworse"));
    let html = r.html.unwrap();
    assert_eq!(html, error_markup("bad\nworse"));
    assert!(html.contains("Compilation Error"));
    assert!(html.contains("font-family: monospace;\">bad\nworse</pre>"));
}

#[test]
fn templates_listed_in_order() {
    let t = get_templates();
    let ids: Vec<&str> = t.iter().map(|m| m.id.as_str()).collect();
    assert_eq!(ids, vec!["blank", "basic", "resume", "academic", "letter", "report", "math", "code-docs"]);
    assert_eq!(t[2].name, "Resume / CV");
    assert_eq!(t[2].icon, "Briefcase");
    assert_eq!(t[2].category, "Professional");
    assert_eq!(t[7].description, "Technical documentation for code projects");
}

#[test]
fn template_content_by_id() {
    for m in get_templates() {
        let c = get_template_content(m.id.clone()).expect("known");
        assert_eq!(c.id, m.id);
        assert_eq!(c.name, m.name);
        assert_eq!(c.description, m.description);
        assert_eq!(c.icon, m.icon);
        assert_eq!(c.category, m.category);
    }
    let blank = get_template_content("blank".to_string()).unwrap();
    assert_eq!(blank.content, "");
    let math = get_template_content("math".to_string()).unwrap();
    assert!(math.content.starts_with("#set page(margin: 2cm)"));
    assert_eq!(math.content, typst_desk::templates::MATH_TYP);
}

#[test]
fn unknown_template_not_found() {
    assert_eq!(get_template_content("nope".to_string()).err().as_deref(), Some(TEMPLATE_NOT_FOUND));
    assert_eq!(get_template_content("Blank".to_string()).err().as_deref(), Some("Template not found"));
    assert!(get_template_content(String::new()).is_err());
}

fn entry(path: &str) -> RecentFile {
    RecentFile { path: path.to_string(), name: format!("name of {path}"), accessed_at: "t0".to_string() }
}

fn paths(files: &[RecentFile]) -> Vec<&str> {
    files.iter().map(|f| f.path.as_str()).collect()
}

#[test]
fn recent_first_entry() {
    let r = push_recent(&Vec::new(), "/a.typ".to_string(), "a.typ".to_string(), "t1".to_string());
    assert_eq!(r.len(), 1);
    assert_eq!(r[0].path, "/a.typ");
    assert_eq!(r[0].name, "a.typ");
    assert_eq!(r[0].accessed_at, "t1");
}

#[test]
fn recent_reopen_moves_to_front() {
    let files = vec![entry("/a"), entry("/b"), entry("/c")];
    let r = push_recent(&files, "/c".to_string(), "c".to_string(), "t9".to_string());
    assert_eq!(paths(&r), vec!["/c", "/a", "/b"]);
    assert_eq!(r[0].accessed_at, "t9");
    assert_eq!(r[0].name, "c");
    assert_eq!(r.len(), files.len());
}

#[test]
fn recent_new_path_drops_oldest() {
    let files: Vec<RecentFile> = (0..MAX_RECENT).map(|i| entry(&format!("/f{i}"))).collect();
    let r = push_recent(&files, "/new".to_string(), "new".to_string(), "t".to_string());
    assert_eq!(r.len(), 10);
    assert_eq!(r[0].path, "/new");
    assert_eq!(paths(&r[1..]), paths(&files[..9]));
}

#[test]
fn recent_reopen_when_full() {
    let files: Vec<RecentFile> = (0..MAX_RECENT).map(|i| entry(&format!("/f{i}"))).collect();
    let r = push_recent(&files, "/f9".to_string(), "f9".to_string(), "t".to_string());
    assert_eq!(r.len(), 10);
    assert_eq!(r[0].path, "/f9");
    assert_eq!(paths(&r[1..]), paths(&files[..9]));
}

#[test]
fn font_extensions() {
    assert!(is_font_extension("ttf"));
    assert!(is_font_extension("otf"));
    assert!(is_font_extension("ttc"));
    assert!(!is_font_extension("TTF"));
    assert!(!is_font_extension("woff"));
    assert!(!is_font_extension(""));
}

#[test]
fn entry_actions() {
    assert_eq!(entry_action(true, None, true, 0), EntryAction::Descend);
    assert_eq!(entry_action(true, None, false, 0), EntryAction::Skip);
    assert_eq!(entry_action(true, None, true, MAX_FONT_DEPTH), EntryAction::Skip);
    assert_eq!(entry_action(false, Some("otf"), false, 3), EntryAction::Collect);
    assert_eq!(entry_action(false, Some("txt"), true, 0), EntryAction::Skip);
    assert_eq!(entry_action(false, None, true, 0), EntryAction::Skip);
}

fn dirs(platform: Platform, home: Option<&str>, windir: Option<&str>) -> Vec<(String, bool)> {
    font_dirs(platform, home.map(String::from), windir.map(String::from))
        .into_iter()
        .map(|d| (d.path, d.recursive))
        .collect()
}

#[test]
fn font_directories() {
    assert_eq!(
        dirs(Platform::Linux, Some("/home/u"), None),
        vec![
            ("/usr/share/fonts".to_string(), true),
            ("/usr/local/share/fonts".to_string(), true),
            ("/home/u/.local/share/fonts".to_string(), true),
        ]
    );
    assert_eq!(
        dirs(Platform::MacOs, None, None),
        vec![("/System/Library/Fonts".to_string(), false), ("/Library/Fonts".to_string(), false)]
    );
    assert_eq!(dirs(Platform::MacOs, Some("/Users/u"), None)[2], ("/Users/u/Library/Fonts".to_string(), false));
    assert_eq!(dirs(Platform::Windows, None, Some("C:\\Windows")), vec![("C:\\Windows\\Fonts".to_string(), false)]);
    assert!(dirs(Platform::Windows, Some("/h"), None).is_empty());
    assert!(dirs(Platform::Other, Some("/h"), None).is_empty());
}

#[test]
fn outcomes_pass_exports_through() {
    let pages = strings(&["<svg>a</svg>", "<svg>b</svg>"]);
    assert_eq!(typst_desk::render::svg_outcome(Ok(pages.clone())), Ok(pages));
    assert_eq!(typst_desk::render::pdf_outcome(Ok(vec![1u8, 2])), Ok(vec![1u8, 2]));
    assert_eq!(
        typst_desk::render::pdf_outcome(Err(strings(&["a", "b"]))),
        Err("a\nb".to_string())
    );
}

#[test]
fn whitespace_code_points() {
    for c in ['\t', '\n', '\u{b}', '\u{c}', '\r', ' ', '\u{85}', '\u{a0}', '\u{1680}', '\u{2000}', '\u{200a}', '\u{2028}', '\u{2029}', '\u{202f}', '\u{205f}', '\u{3000}'] {
        assert!(typst_desk::text::is_white(c));
        assert_eq!(typst_desk::text::is_white(c), c.is_whitespace());
    }
    for c in ['a', '\u{8}', '\u{200b}', '\u{feff}', '\u{180e}', '#'] {
        assert_eq!(typst_desk::text::is_white(c), c.is_whitespace());
    }
}
