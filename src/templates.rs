//! The built-in document templates.

use vstd::prelude::*;

verus! {

/// What the template gallery lists of a template.
#[derive(Debug)]
pub struct TemplateMetadata {
    pub id: String,
    pub name: String,
    pub description: String,
    pub icon: String,
    pub category: String,
}

/// A template with its markup.
#[derive(Debug)]
pub struct TemplateContent {
    pub id: String,
    pub name: String,
    pub description: String,
    pub icon: String,
    pub category: String,
    pub content: String,
}

/// The error for an id that names no template.
pub const TEMPLATE_NOT_FOUND: &'static str = "Template not found";

/// The number of built-in templates.
pub const TEMPLATE_COUNT: usize = 8;

/// The markup of the blank template.
pub const BLANK_TYP: &'static str = "";

/// The markup of the basic document template.
pub const BASIC_TYP: &'static str = "#set page(paper: \"a4\", margin: 2cm)
#set text(size: 11pt)

= Document Title

== Introduction

Write your introduction here. Text can be *bold*, _emphasized_ or `monospaced`.

== Lists

- A bullet point
- Another bullet point
  - A nested point

+ A numbered item
+ Another numbered item
";

/// The markup of the resume template.
pub const RESUME_TYP: &'static str = "#set page(margin: 1.5cm)
#set text(size: 10pt)

#align(center)[
  #text(size: 20pt, weight: \"bold\")[Your Name] \\
  email\\@example.com | +1 555 0100 | City, Country
]

== Experience

*Job Title* #h(1fr) 2020 -- Present \\
_Company_
- Describe an achievement.
- Describe another achievement.

== Education

*Degree* #h(1fr) 2016 -- 2020 \\
_University_

== Skills

Skill one, skill two, skill three.
";

/// The markup of the academic paper template.
pub const ACADEMIC_TYP: &'static str = "#set page(paper: \"a4\", margin: 2.5cm, numbering: \"1\")
#set text(size: 11pt)
#set par(justify: true)
#set heading(numbering: \"1.\")

#align(center)[
  #text(size: 16pt, weight: \"bold\")[Paper Title] \\
  Author Name \\
  Institution
]

*Abstract.* Summarize the question, the method and the findings.

= Introduction

State the problem and its context.

= Method

Describe how the work was done.

= Results

Present the findings.

= Conclusion

Summarize what was learned.
";

/// The markup of the formal letter template.
pub const LETTER_TYP: &'static str = "#set page(margin: 2.5cm)
#set text(size: 11pt)

Your Name \\
Street Address \\
City, Postal Code

#v(1em)

Recipient Name \\
Company \\
Street Address \\
City, Postal Code

#v(1em)

#datetime.today().display()

#v(1em)

Dear Recipient,

Write the body of the letter here.

Sincerely,

#v(2em)

Your Name
";

/// The markup of the business report template.
pub const REPORT_TYP: &'static str = "#set page(paper: \"a4\", margin: 2cm, numbering: \"1\")
#set text(size: 11pt)
#set heading(numbering: \"1.1\")

#align(center)[
  #text(size: 22pt, weight: \"bold\")[Business Report] \\
  Department -- Quarter
]

#outline()

= Executive Summary

Give the key points in a few sentences.

= Findings

#table(
  columns: 3,
  [*Metric*], [*Target*], [*Actual*],
  [Revenue], [100], [110],
  [Costs], [80], [75],
)

= Recommendations

- First recommendation.
- Second recommendation.
";

/// The markup of the math notes template.
pub const MATH_TYP: &'static str = "#set page(margin: 2cm)
#set text(size: 11pt)
#set math.equation(numbering: \"(1)\")

= Math Notes

== Algebra

The roots of $a x^2 + b x + c = 0$ are
$ x = (-b plus.minus sqrt(b^2 - 4 a c)) / (2 a) $

== Calculus

$ integral_0^1 x^2 dif x = 1 / 3 $

$ sum_(k=1)^n k = (n (n + 1)) / 2 $
";

/// The markup of the code documentation template.
pub const CODE_DOCS_TYP: &'static str = "#set page(margin: 2cm)
#set text(size: 11pt)
#show raw.where(block: true): block.with(fill: luma(240), inset: 8pt, radius: 4pt)

= Project Name

A short description of what the project does.

== Installation

```sh
cargo install project-name
```

== Usage

```rust
fn main() {
    println!(\"Hello, world!\");
}
```

== API

/ `run(config)`: Runs the project with the given configuration.
";

/// One template: id, name, description, icon, category and markup.
pub type TemplateRow = (Seq<char>, Seq<char>, Seq<char>, Seq<char>, Seq<char>, Seq<char>);

/// The built-in templates in gallery order.
pub open spec fn template_table() -> Seq<TemplateRow> {
    seq![
        ("blank"@, "Blank Document"@, "Start with a clean slate"@, "FileText"@, "Basic"@, BLANK_TYP@),
        ("basic"@, "Basic Document"@, "Simple document with headings, lists, and text formatting"@, "BookOpen"@, "Basic"@, BASIC_TYP@),
        ("resume"@, "Resume / CV"@, "Professional resume template"@, "Briefcase"@, "Professional"@, RESUME_TYP@),
        ("academic"@, "Academic Paper"@, "Research paper format"@, "GraduationCap"@, "Academic"@, ACADEMIC_TYP@),
        ("letter"@, "Formal Letter"@, "Business or formal letter template"@, "Mail"@, "Professional"@, LETTER_TYP@),
        ("report"@, "Business Report"@, "Professional report with executive summary"@, "FileBarChart"@, "Professional"@, REPORT_TYP@),
        ("math"@, "Math Notes"@, "Mathematics document with equations"@, "Calculator"@, "Academic"@, MATH_TYP@),
        ("code-docs"@, "Code Documentation"@, "Technical documentation for code projects"@, "Code"@, "Technical"@, CODE_DOCS_TYP@),
    ]
}

/// Whether `m` lists the template `t`.
pub open spec fn lists(m: TemplateMetadata, t: TemplateRow) -> bool {
    &&& m.id@ == t.0
    &&& m.name@ == t.1
    &&& m.description@ == t.2
    &&& m.icon@ == t.3
    &&& m.category@ == t.4
}

/// Whether `c` is the template `t` with its markup.
pub open spec fn holds(c: TemplateContent, t: TemplateRow) -> bool {
    &&& c.id@ == t.0
    &&& c.name@ == t.1
    &&& c.description@ == t.2
    &&& c.icon@ == t.3
    &&& c.category@ == t.4
    &&& c.content@ == t.5
}

/// Whether some template has the id `id`.
pub open spec fn known_template(id: Seq<char>) -> bool {
    exists|i: int| 0 <= i < template_table().len() && (#[trigger] template_table()[i]).0 == id
}

/// No two templates share an id.
pub proof fn template_ids_distinct()
    ensures
        forall|i: int, j: int|
            0 <= i < j < template_table().len() ==> (#[trigger] template_table()[i]).0
                != (#[trigger] template_table()[j]).0,
{
    reveal_strlit("blank");
    reveal_strlit("basic");
    reveal_strlit("resume");
    reveal_strlit("academic");
    reveal_strlit("letter");
    reveal_strlit("report");
    reveal_strlit("math");
    reveal_strlit("code-docs");
    let t = template_table();
    assert(t[0].0.len() == 5 && t[1].0.len() == 5 && t[2].0.len() == 6 && t[3].0.len() == 8);
    assert(t[4].0.len() == 6 && t[5].0.len() == 6 && t[6].0.len() == 4 && t[7].0.len() == 9);
    assert(t[0].0[1] != t[1].0[1]);
    assert(t[2].0[2] != t[5].0[2]);
    assert(t[2].0[0] != t[4].0[0]);
    assert(t[4].0[0] != t[5].0[0]);
    assert forall|i: int, j: int| 0 <= i < j < t.len() implies (#[trigger] t[i]).0
        != (#[trigger] t[j]).0 by {
        if i == 0 && j == 1 {
        } else if i == 2 && j == 4 {
        } else if i == 2 && j == 5 {
        } else if i == 4 && j == 5 {
        } else {
            assert(t[i].0.len() != t[j].0.len());
        }
    }
}

/// Template `i` of the table.
fn template_row(i: usize) -> (r: (&'static str, &'static str, &'static str, &'static str, &'static str, &'static str))
    requires
        i < TEMPLATE_COUNT,
    ensures
        (r.0@, r.1@, r.2@, r.3@, r.4@, r.5@) == template_table()[i as int],
{
    match i {
        0 => ("blank", "Blank Document", "Start with a clean slate", "FileText", "Basic", BLANK_TYP),
        1 => ("basic", "Basic Document", "Simple document with headings, lists, and text formatting", "BookOpen", "Basic", BASIC_TYP),
        2 => ("resume", "Resume / CV", "Professional resume template", "Briefcase", "Professional", RESUME_TYP),
        3 => ("academic", "Academic Paper", "Research paper format", "GraduationCap", "Academic", ACADEMIC_TYP),
        4 => ("letter", "Formal Letter", "Business or formal letter template", "Mail", "Professional", LETTER_TYP),
        5 => ("report", "Business Report", "Professional report with executive summary", "FileBarChart", "Professional", REPORT_TYP),
        6 => ("math", "Math Notes", "Mathematics document with equations", "Calculator", "Academic", MATH_TYP),
        _ => ("code-docs", "Code Documentation", "Technical documentation for code projects", "Code", "Technical", CODE_DOCS_TYP),
    }
}

/// The gallery: every built-in template, in table order.
pub fn get_templates() -> (r: Vec<TemplateMetadata>)
    ensures
        r@.len() == template_table().len(),
        forall|i: int| 0 <= i < r@.len() ==> lists(#[trigger] r@[i], template_table()[i]),
{
    let mut out: Vec<TemplateMetadata> = Vec::new();
    let mut i: usize = 0;
    while i < TEMPLATE_COUNT
        invariant
            i <= TEMPLATE_COUNT,
            out@.len() == i,
            forall|j: int| 0 <= j < i ==> lists(#[trigger] out@[j], template_table()[j]),
        decreases TEMPLATE_COUNT - i,
    {
        let (id, name, description, icon, category, _) = template_row(i);
        out.push(
            TemplateMetadata {
                id: String::from_str(id),
                name: String::from_str(name),
                description: String::from_str(description),
                icon: String::from_str(icon),
                category: String::from_str(category),
            },
        );
        i = i + 1;
    }
    out
}

/// The template with id `template_id`, with its markup, or "not found".
pub fn get_template_content(template_id: String) -> (r: Result<TemplateContent, String>)
    ensures
        r is Ok <==> known_template(template_id@),
        r is Ok ==> forall|i: int|
            0 <= i < template_table().len() && (#[trigger] template_table()[i]).0 == template_id@
                ==> holds(r->Ok_0, template_table()[i]),
        r is Err ==> r->Err_0@ == TEMPLATE_NOT_FOUND@,
{
    let mut i: usize = 0;
    while i < TEMPLATE_COUNT
        invariant
            i <= TEMPLATE_COUNT,
            forall|j: int| 0 <= j < i ==> (#[trigger] template_table()[j]).0 != template_id@,
        decreases TEMPLATE_COUNT - i,
    {
        let (id, name, description, icon, category, content) = template_row(i);
        let id = String::from_str(id);
        if id == template_id {
            let t = TemplateContent {
                id,
                name: String::from_str(name),
                description: String::from_str(description),
                icon: String::from_str(icon),
                category: String::from_str(category),
                content: String::from_str(content),
            };
            proof {
                template_ids_distinct();
            }
            return Ok(t);
        }
        i = i + 1;
    }
    Err(String::from_str(TEMPLATE_NOT_FOUND))
}

} // verus!
