//! Turns retrieved documents into narrative context blocks, one style for
//! projects and one for certificates. A document without its anchor field
//! (`title` for projects, `name` for certificates) is skipped entirely, and
//! an empty document set yields a fixed placeholder sentence instead.

use vstd::prelude::*;
use crate::record::{text_field, list_field, group_text_field, DocRecord};
use crate::text::{concat2, concat3, join_sep, join_strings};

verus! {

/// The sentence returned in place of project context when nothing was
/// retrieved.
pub open spec fn projects_empty_note() -> Seq<char> {
    "No specific projects to reference right now. If asked about projects, share that you have various projects on your GitHub and invite them to explore."@
}

/// The sentence returned in place of certificate context when nothing was
/// retrieved.
pub open spec fn certificates_empty_note() -> Seq<char> {
    "No specific certifications to reference right now. If asked about learning, share your commitment to continuous growth and self-directed learning."@
}

/// A project document is rendered only if it has a title.
pub open spec fn has_title(d: DocRecord) -> bool {
    text_field(d, "title"@) is Some
}

/// A certificate document is rendered only if it has a name.
pub open spec fn has_name(d: DocRecord) -> bool {
    text_field(d, "name"@) is Some
}

/// The link lines of a project document, in fixed order.
pub open spec fn project_links(d: DocRecord) -> Seq<Seq<char>> {
    (match text_field(d, "githubUrl"@) {
        Some(u) => seq!["GitHub: "@ + u],
        None => Seq::empty(),
    }) + (match text_field(d, "demoUrl"@) {
        Some(u) => seq!["Live demo: "@ + u],
        None => Seq::empty(),
    }) + (match text_field(d, "ReportUrl"@) {
        Some(u) => seq!["Report: "@ + u],
        None => Seq::empty(),
    })
}

/// The narrative block for one project document that has a title: title,
/// build date, technology list, story elements, links, and a closing rule,
/// each on its own line, lines present only where the field is.
pub open spec fn project_block(d: DocRecord) -> Seq<char> {
    "**"@ + text_field(d, "title"@)->Some_0 + "**"@ + (match text_field(d, "date"@) {
        Some(t) => "\n*Built: "@ + t + "*"@,
        None => Seq::empty(),
    }) + (match list_field(d, "technologies"@) {
        Some(ts) => if ts.len() > 0 {
            "\nTech used: "@ + join_sep(ts, ", "@)
        } else {
            Seq::empty()
        },
        None => Seq::empty(),
    }) + (match group_text_field(d, "description"@, "problem"@) {
        Some(t) => "\nThe problem I wanted to solve: "@ + t,
        None => Seq::empty(),
    }) + (match group_text_field(d, "description"@, "overview"@) {
        Some(t) => "\nWhat it does: "@ + t,
        None => Seq::empty(),
    }) + (match group_text_field(d, "description"@, "solution"@) {
        Some(t) => "\nHow I solved it: "@ + t,
        None => Seq::empty(),
    }) + (if project_links(d).len() > 0 {
        "\nLinks: "@ + join_sep(project_links(d), " | "@)
    } else {
        Seq::empty()
    }) + "\n---"@
}

/// The narrative block for one certificate document that has a name: name,
/// issuer, completion date, verification link, and a closing rule.
pub open spec fn certificate_block(d: DocRecord) -> Seq<char> {
    "**"@ + text_field(d, "name"@)->Some_0 + "**"@ + (match text_field(d, "issuer"@) {
        Some(t) => "\nFrom: "@ + t,
        None => Seq::empty(),
    }) + (match text_field(d, "issue_date"@) {
        Some(t) => "\nCompleted: "@ + t,
        None => Seq::empty(),
    }) + (match text_field(d, "link"@) {
        Some(t) => "\nVerify: "@ + t,
        None => Seq::empty(),
    }) + "\n---"@
}

/// The blocks of the titled documents, in order; untitled ones are dropped.
pub open spec fn project_blocks(docs: Seq<DocRecord>) -> Seq<Seq<char>>
    decreases docs.len(),
{
    if docs.len() == 0 {
        Seq::empty()
    } else if has_title(docs[0]) {
        seq![project_block(docs[0])] + project_blocks(docs.drop_first())
    } else {
        project_blocks(docs.drop_first())
    }
}

/// The blocks of the named documents, in order; nameless ones are dropped.
pub open spec fn certificate_blocks(docs: Seq<DocRecord>) -> Seq<Seq<char>>
    decreases docs.len(),
{
    if docs.len() == 0 {
        Seq::empty()
    } else if has_name(docs[0]) {
        seq![certificate_block(docs[0])] + certificate_blocks(docs.drop_first())
    } else {
        certificate_blocks(docs.drop_first())
    }
}

/// What `format_projects` returns: the placeholder on an empty set, else the
/// blocks of the titled documents joined by blank lines.
pub open spec fn spec_format_projects(docs: Seq<DocRecord>) -> Seq<char> {
    if docs.len() == 0 {
        projects_empty_note()
    } else {
        join_sep(project_blocks(docs), "\n\n"@)
    }
}

/// What `format_certificates` returns, in the same shape.
pub open spec fn spec_format_certificates(docs: Seq<DocRecord>) -> Seq<char> {
    if docs.len() == 0 {
        certificates_empty_note()
    } else {
        join_sep(certificate_blocks(docs), "\n\n"@)
    }
}

/// A document without a title contributes nothing to the project context:
/// wherever it stands, the rendered blocks are those of the other documents,
/// and so is the formatted output whenever any other document is present.
pub proof fn lemma_untitled_contributes_nothing(
    xs: Seq<DocRecord>,
    d: DocRecord,
    ys: Seq<DocRecord>,
)
    requires
        !has_title(d),
    ensures
        project_blocks(xs + seq![d] + ys) == project_blocks(xs + ys),
        (xs + ys).len() > 0 ==> spec_format_projects(xs + seq![d] + ys) == spec_format_projects(
            xs + ys,
        ),
    decreases xs.len(),
{
    if xs.len() == 0 {
        let whole = xs + seq![d] + ys;
        assert(whole =~= seq![d] + ys);
        assert(whole[0] == d);
        assert(whole.drop_first() =~= ys);
        assert(xs + ys =~= ys);
    } else {
        let rest = xs.drop_first();
        lemma_untitled_contributes_nothing(rest, d, ys);
        let whole = xs + seq![d] + ys;
        let combined = xs + ys;
        assert(whole[0] == xs[0]);
        assert(whole.drop_first() =~= rest + seq![d] + ys);
        assert(combined[0] == xs[0]);
        assert(combined.drop_first() =~= rest + ys);
    }
}

/// A document without a name contributes nothing to the certificate context,
/// in the same way.
pub proof fn lemma_nameless_contributes_nothing(
    xs: Seq<DocRecord>,
    d: DocRecord,
    ys: Seq<DocRecord>,
)
    requires
        !has_name(d),
    ensures
        certificate_blocks(xs + seq![d] + ys) == certificate_blocks(xs + ys),
        (xs + ys).len() > 0 ==> spec_format_certificates(xs + seq![d] + ys)
            == spec_format_certificates(xs + ys),
    decreases xs.len(),
{
    if xs.len() == 0 {
        let whole = xs + seq![d] + ys;
        assert(whole =~= seq![d] + ys);
        assert(whole[0] == d);
        assert(whole.drop_first() =~= ys);
        assert(xs + ys =~= ys);
    } else {
        let rest = xs.drop_first();
        lemma_nameless_contributes_nothing(rest, d, ys);
        let whole = xs + seq![d] + ys;
        let combined = xs + ys;
        assert(whole[0] == xs[0]);
        assert(whole.drop_first() =~= rest + seq![d] + ys);
        assert(combined[0] == xs[0]);
        assert(combined.drop_first() =~= rest + ys);
    }
}

fn render_project(d: &DocRecord) -> (r: String)
    requires
        has_title(*d),
    ensures
        r@ == project_block(*d),
{
    let title = match d.get_text("title") {
        Some(t) => t,
        None => { return String::new() },
    };
    let mut block = concat3("**", title.as_str(), "**");
    if let Some(t) = d.get_text("date") {
        block = concat2(block.as_str(), concat3("\n*Built: ", t.as_str(), "*").as_str());
    }
    if let Some(ts) = d.get_list("technologies") {
        if ts.len() > 0 {
            let joined = join_strings(&ts, ", ");
            block = concat2(block.as_str(), concat2("\nTech used: ", joined.as_str()).as_str());
        }
    }
    if let Some(t) = d.get_group_text("description", "problem") {
        block = concat2(
            block.as_str(),
            concat2("\nThe problem I wanted to solve: ", t.as_str()).as_str(),
        );
    }
    if let Some(t) = d.get_group_text("description", "overview") {
        block = concat2(block.as_str(), concat2("\nWhat it does: ", t.as_str()).as_str());
    }
    if let Some(t) = d.get_group_text("description", "solution") {
        block = concat2(block.as_str(), concat2("\nHow I solved it: ", t.as_str()).as_str());
    }
    let mut links: Vec<String> = Vec::new();
    if let Some(u) = d.get_text("githubUrl") {
        links.push(concat2("GitHub: ", u.as_str()));
    }
    if let Some(u) = d.get_text("demoUrl") {
        links.push(concat2("Live demo: ", u.as_str()));
    }
    if let Some(u) = d.get_text("ReportUrl") {
        links.push(concat2("Report: ", u.as_str()));
    }
    proof {
        assert(links@.map_values(|p: String| p@) =~= project_links(*d));
    }
    if links.len() > 0 {
        let joined = join_strings(&links, " | ");
        block = concat2(block.as_str(), concat2("\nLinks: ", joined.as_str()).as_str());
    }
    block = concat2(block.as_str(), "\n---");
    proof {
        assert(block@ =~= project_block(*d));
    }
    block
}

fn render_certificate(d: &DocRecord) -> (r: String)
    requires
        has_name(*d),
    ensures
        r@ == certificate_block(*d),
{
    let name = match d.get_text("name") {
        Some(t) => t,
        None => { return String::new() },
    };
    let mut block = concat3("**", name.as_str(), "**");
    if let Some(t) = d.get_text("issuer") {
        block = concat2(block.as_str(), concat2("\nFrom: ", t.as_str()).as_str());
    }
    if let Some(t) = d.get_text("issue_date") {
        block = concat2(block.as_str(), concat2("\nCompleted: ", t.as_str()).as_str());
    }
    if let Some(t) = d.get_text("link") {
        block = concat2(block.as_str(), concat2("\nVerify: ", t.as_str()).as_str());
    }
    block = concat2(block.as_str(), "\n---");
    proof {
        assert(block@ =~= certificate_block(*d));
    }
    block
}

/// Formats retrieved project documents into storytelling context; an empty
/// set yields the fixed placeholder sentence, a document without a title
/// contributes nothing.
pub fn format_projects(docs: Vec<DocRecord>) -> (r: String)
    ensures
        r@ == spec_format_projects(docs@),
{
    if docs.len() == 0 {
        return "No specific projects to reference right now. If asked about projects, share that you have various projects on your GitHub and invite them to explore.".to_owned();
    }
    let mut blocks: Vec<String> = Vec::new();
    let mut i: usize = 0;
    proof {
        assert(docs@.skip(0) =~= docs@);
        assert(blocks@.map_values(|p: String| p@) + project_blocks(docs@) =~= project_blocks(
            docs@,
        ));
    }
    while i < docs.len()
        invariant
            i <= docs@.len(),
            project_blocks(docs@) == blocks@.map_values(|p: String| p@) + project_blocks(
                docs@.skip(i as int),
            ),
        decreases docs@.len() - i,
    {
        proof {
            let tail = docs@.skip(i as int);
            assert(tail[0] == docs@[i as int]);
            assert(tail.drop_first() =~= docs@.skip(i + 1));
        }
        let ghost prev = blocks@;
        if docs[i].get_text("title").is_some() {
            let b = render_project(&docs[i]);
            blocks.push(b);
            proof {
                assert(blocks@.map_values(|p: String| p@) =~= prev.map_values(|p: String| p@)
                    + seq![project_block(docs@[i as int])]);
                assert(blocks@.map_values(|p: String| p@) + project_blocks(docs@.skip(i + 1))
                    =~= prev.map_values(|p: String| p@) + (seq![project_block(docs@[i as int])]
                    + project_blocks(docs@.skip(i + 1))));
            }
        }
        i = i + 1;
    }
    proof {
        assert(docs@.skip(docs@.len() as int) =~= Seq::<DocRecord>::empty());
        assert(blocks@.map_values(|p: String| p@) + project_blocks(Seq::empty())
            =~= blocks@.map_values(|p: String| p@));
    }
    join_strings(&blocks, "\n\n")
}

/// Formats retrieved certificate documents into growth-journey context; an
/// empty set yields the fixed placeholder sentence, a document without a
/// name contributes nothing.
pub fn format_certificates(docs: Vec<DocRecord>) -> (r: String)
    ensures
        r@ == spec_format_certificates(docs@),
{
    if docs.len() == 0 {
        return "No specific certifications to reference right now. If asked about learning, share your commitment to continuous growth and self-directed learning.".to_owned();
    }
    let mut blocks: Vec<String> = Vec::new();
    let mut i: usize = 0;
    proof {
        assert(docs@.skip(0) =~= docs@);
        assert(blocks@.map_values(|p: String| p@) + certificate_blocks(docs@)
            =~= certificate_blocks(docs@));
    }
    while i < docs.len()
        invariant
            i <= docs@.len(),
            certificate_blocks(docs@) == blocks@.map_values(|p: String| p@) + certificate_blocks(
                docs@.skip(i as int),
            ),
        decreases docs@.len() - i,
    {
        proof {
            let tail = docs@.skip(i as int);
            assert(tail[0] == docs@[i as int]);
            assert(tail.drop_first() =~= docs@.skip(i + 1));
        }
        let ghost prev = blocks@;
        if docs[i].get_text("name").is_some() {
            let b = render_certificate(&docs[i]);
            blocks.push(b);
            proof {
                assert(blocks@.map_values(|p: String| p@) =~= prev.map_values(|p: String| p@)
                    + seq![certificate_block(docs@[i as int])]);
                assert(blocks@.map_values(|p: String| p@) + certificate_blocks(docs@.skip(i + 1))
                    =~= prev.map_values(|p: String| p@) + (seq![certificate_block(
                    docs@[i as int],
                )] + certificate_blocks(docs@.skip(i + 1))));
            }
        }
        i = i + 1;
    }
    proof {
        assert(docs@.skip(docs@.len() as int) =~= Seq::<DocRecord>::empty());
        assert(blocks@.map_values(|p: String| p@) + certificate_blocks(Seq::empty())
            =~= blocks@.map_values(|p: String| p@));
    }
    join_strings(&blocks, "\n\n")
}

} // verus!
