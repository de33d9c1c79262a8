//! The portfolio document: statistics, then one section per project.
use vstd::prelude::*;
use vstd::string::*;
use vstd::seq_lib::lemma_concat_associative;
use crate::domain::models::enums::{
    Status, architecture_display, language_display, status_display, status_symbol,
};
use crate::domain::models::portfolio::{Portfolio, count_status, project_views};
use crate::domain::models::project::{Project, ProjectView};
use crate::domain::models::timestamp::chrono_date_text;
use crate::text::{occurs_in, lemma_occurs_after, lemma_occurs_first, decimal, decimal_text, owned, string_views};

verus! {

/// The texts of `items` joined by `sep`.
pub open spec fn join_texts(items: Seq<Seq<char>>, sep: Seq<char>) -> Seq<char>
    decreases items.len(),
{
    if items.len() == 0 {
        Seq::empty()
    } else if items.len() == 1 {
        items[0]
    } else {
        join_texts(items.drop_last(), sep) + sep + items.last()
    }
}

/// The opening of the document: totals, completion rate (already written
/// as text) and counts per status.
pub open spec fn document_header(s: Seq<ProjectView>, completion_rate: Seq<char>) -> Seq<char> {
    "# Architecture Portfolio\n\n## Projects Overview\n\n**Total Projects**: "@ + decimal(s.len())
        + "\n**Completion Rate**: "@ + completion_rate + "%\n\n### Projects by Status\n\n- Planned: "@
        + decimal(count_status(s, Status::Planned)) + "\n- In Progress: "@ + decimal(
        count_status(s, Status::InProgress),
    ) + "\n- Completed: "@ + decimal(count_status(s, Status::Completed)) + "\n- Archived: "@
        + decimal(count_status(s, Status::Archived)) + "\n\n---\n\n"@
}

/// The details of a project in a detailed document.
pub open spec fn project_details(p: ProjectView) -> Seq<char> {
    (if p.description.len() > 0 {
        "\n"@ + p.description + "\n"@
    } else {
        Seq::empty()
    }) + (if p.frameworks.len() > 0 {
        "\n**Frameworks**: "@ + join_texts(p.frameworks, ", "@) + "\n"@
    } else {
        Seq::empty()
    }) + (match p.gitlab_url {
        Some(u) => "\n**Repository**: "@ + u + "\n"@,
        None => Seq::empty(),
    }) + "\n**Created**: "@ + chrono_date_text(p.created_at.0, p.created_at.1)
        + "\n**Last Updated**: "@ + chrono_date_text(p.updated_at.0, p.updated_at.1) + "\n"@
}

/// The section of a project.
pub open spec fn project_section_text(p: ProjectView, detailed: bool) -> Seq<char> {
    "### "@ + p.name + "\n\n- **ID**: `"@ + p.id + "`\n- **Language**: "@ + language_display(
        p.language,
    ) + "\n- **Architecture**: "@ + architecture_display(p.architecture) + "\n- **Status**: "@
        + status_symbol(p.status) + " "@ + status_display(p.status) + "\n"@ + (if detailed {
        project_details(p)
    } else {
        Seq::empty()
    }) + "\n---\n\n"@
}

/// The sections of the projects, in order.
pub open spec fn project_sections(s: Seq<ProjectView>, detailed: bool) -> Seq<char>
    decreases s.len(),
{
    if s.len() == 0 {
        Seq::empty()
    } else {
        project_sections(s.drop_last(), detailed) + project_section_text(s.last(), detailed)
    }
}

/// The whole document.
pub open spec fn portfolio_document(s: Seq<ProjectView>, detailed: bool, completion_rate: Seq<char>) -> Seq<
    char,
> {
    document_header(s, completion_rate) + project_sections(s, detailed)
}

/// The line of the document that counts the projects in a status: a dash,
/// the status's name, a colon, the number, a line end.
pub open spec fn status_count_line(s: Seq<ProjectView>, st: Status) -> Seq<char> {
    "- "@ + status_display(st) + ": "@ + decimal(count_status(s, st)) + "\n"@
}

/// Regrouping a concatenation: the pieces are the same, in the same order.
proof fn lemma_regroup_counts(
    a: Seq<char>,
    q: Seq<char>,
    kp: Seq<char>,
    dp: Seq<char>,
    ki: Seq<char>,
    di: Seq<char>,
    kc: Seq<char>,
    dc: Seq<char>,
    ka: Seq<char>,
    da: Seq<char>,
    nl: Seq<char>,
    e: Seq<char>,
)
    ensures
        a + (q + kp) + dp + (nl + ki) + di + (nl + kc) + dc + (nl + ka) + da + (nl + e) == (a + q)
            + ((kp + dp + nl) + ((ki + di + nl) + ((kc + dc + nl) + ((ka + da + nl) + e)))),
{
    assert(a + (q + kp) + dp + (nl + ki) + di + (nl + kc) + dc + (nl + ka) + da + (nl + e) =~= (a + q)
        + ((kp + dp + nl) + ((ki + di + nl) + ((kc + dc + nl) + ((ka + da + nl) + e)))));
}

/// The document counts every status on the line that names it: for each
/// status, the line "- <status>: <number of projects in it>" occurs in the
/// document.
pub proof fn lemma_document_counts_each_status(
    s: Seq<ProjectView>,
    detailed: bool,
    completion_rate: Seq<char>,
    st: Status,
)
    ensures
        occurs_in(status_count_line(s, st), portfolio_document(s, detailed, completion_rate)),
{
    reveal_strlit("%\n\n### Projects by Status\n\n- Planned: ");
    reveal_strlit("%\n\n### Projects by Status\n\n");
    reveal_strlit("\n- In Progress: ");
    reveal_strlit("\n- Completed: ");
    reveal_strlit("\n- Archived: ");
    reveal_strlit("\n\n---\n\n");
    reveal_strlit("\n---\n\n");
    reveal_strlit("\n");
    reveal_strlit("- ");
    reveal_strlit(": ");
    reveal_strlit("Planned");
    reveal_strlit("In Progress");
    reveal_strlit("Completed");
    reveal_strlit("Archived");
    let a = "# Architecture Portfolio\n\n## Projects Overview\n\n**Total Projects**: "@ + decimal(s.len())
        + "\n**Completion Rate**: "@ + completion_rate;
    let q = "%\n\n### Projects by Status\n\n"@;
    let nl = "\n"@;
    let e = "\n---\n\n"@;
    let kp = "- "@ + status_display(Status::Planned) + ": "@;
    let ki = "- "@ + status_display(Status::InProgress) + ": "@;
    let kc = "- "@ + status_display(Status::Completed) + ": "@;
    let ka = "- "@ + status_display(Status::Archived) + ": "@;
    let dp = decimal(count_status(s, Status::Planned));
    let di = decimal(count_status(s, Status::InProgress));
    let dc = decimal(count_status(s, Status::Completed));
    let da = decimal(count_status(s, Status::Archived));
    assert("%\n\n### Projects by Status\n\n- Planned: "@ =~= q + kp);
    assert("\n- In Progress: "@ =~= nl + ki);
    assert("\n- Completed: "@ =~= nl + kc);
    assert("\n- Archived: "@ =~= nl + ka);
    assert("\n\n---\n\n"@ =~= nl + e);
    lemma_regroup_counts(a, q, kp, dp, ki, di, kc, dc, ka, da, nl, e);
    let lp = status_count_line(s, Status::Planned);
    let li = status_count_line(s, Status::InProgress);
    let lc = status_count_line(s, Status::Completed);
    let la = status_count_line(s, Status::Archived);
    assert(document_header(s, completion_rate) == (a + q) + (lp + (li + (lc + (la + e)))));
    let rest = project_sections(s, detailed);
    let doc = portfolio_document(s, detailed, completion_rate);
    lemma_concat_associative(a + q, lp + (li + (lc + (la + e))), rest);
    lemma_concat_associative(lp, li + (lc + (la + e)), rest);
    lemma_concat_associative(li, lc + (la + e), rest);
    lemma_concat_associative(lc, la + e, rest);
    lemma_concat_associative(la, e, rest);
    assert(doc == (a + q) + (lp + (li + (lc + (la + (e + rest))))));
    match st {
        Status::Planned => {
            lemma_occurs_first(lp, li + (lc + (la + (e + rest))));
            lemma_occurs_after(lp, a + q, lp + (li + (lc + (la + (e + rest)))));
        },
        Status::InProgress => {
            lemma_occurs_first(li, lc + (la + (e + rest)));
            lemma_occurs_after(li, lp, li + (lc + (la + (e + rest))));
            lemma_occurs_after(li, a + q, lp + (li + (lc + (la + (e + rest)))));
        },
        Status::Completed => {
            lemma_occurs_first(lc, la + (e + rest));
            lemma_occurs_after(lc, li, lc + (la + (e + rest)));
            lemma_occurs_after(lc, lp, li + (lc + (la + (e + rest))));
            lemma_occurs_after(lc, a + q, lp + (li + (lc + (la + (e + rest)))));
        },
        Status::Archived => {
            lemma_occurs_first(la, e + rest);
            lemma_occurs_after(la, lc, la + (e + rest));
            lemma_occurs_after(la, li, lc + (la + (e + rest)));
            lemma_occurs_after(la, lp, li + (lc + (la + (e + rest))));
            lemma_occurs_after(la, a + q, lp + (li + (lc + (la + (e + rest)))));
        },
    }
}

/// The texts joined by `sep`.
pub fn join_strings(items: &[String], sep: &str) -> (r: String)
    ensures
        r@ == join_texts(string_views(items@), sep@),
{
    let ghost all = string_views(items@);
    let mut r = String::new();
    let mut i: usize = 0;
    while i < items.len()
        invariant
            i <= items@.len(),
            all == string_views(items@),
            r@ == join_texts(all.take(i as int), sep@),
        decreases items@.len() - i,
    {
        proof {
            assert(all.take(i + 1).drop_last() =~= all.take(i as int));
            assert(all.take(i + 1).last() == items@[i as int]@);
            assert(all.take(i + 1)[0] == all[0]);
        }
        if i > 0 {
            r.append(sep);
        }
        r.append(items[i].as_str());
        proof {
            if i == 0 {
                assert(r@ =~= join_texts(all.take(1), sep@));
            }
        }
        i = i + 1;
    }
    proof {
        assert(all.take(all.len() as int) =~= all);
    }
    r
}

/// Writes the portfolio document.
pub struct DocumentationService;

impl DocumentationService {
    pub fn new() -> (r: DocumentationService) {
        DocumentationService
    }

    /// The section of one project.
    #[verifier::rlimit(40)]
    pub fn project_section(&self, p: &Project, detailed: bool) -> (r: String)
        ensures
            r@ == project_section_text(p@, detailed),
    {
        let mut t = owned("### ");
        t.append(p.name().as_str());
        t.append("\n\n- **ID**: `");
        t.append(p.id().as_str());
        t.append("`\n- **Language**: ");
        t.append(p.language().display_name());
        t.append("\n- **Architecture**: ");
        t.append(p.architecture().display_name());
        t.append("\n- **Status**: ");
        t.append(p.status().symbol());
        t.append(" ");
        t.append(p.status().display_name());
        t.append("\n");
        let ghost head = t@;
        if detailed {
            let ghost start = t@;
            if p.description().unicode_len() > 0 {
                t.append("\n");
                t.append(p.description());
                t.append("\n");
            }
            if p.frameworks().len() > 0 {
                t.append("\n**Frameworks**: ");
                let joined = join_strings(p.frameworks(), ", ");
                t.append(joined.as_str());
                t.append("\n");
            }
            match p.gitlab_url() {
                Some(u) => {
                    t.append("\n**Repository**: ");
                    t.append(u);
                    t.append("\n");
                },
                None => {},
            }
            t.append("\n**Created**: ");
            let created = p.created_at().date_text();
            t.append(created.as_str());
            t.append("\n**Last Updated**: ");
            let updated = p.updated_at().date_text();
            t.append(updated.as_str());
            t.append("\n");
            proof {
                assert(t@ =~= start + project_details(p@));
            }
        }
        t.append("\n---\n\n");
        proof {
            assert(t@ =~= project_section_text(p@, detailed));
        }
        t
    }

    /// The portfolio document, given the completion rate already written as
    /// text.
    pub fn render(&self, portfolio: &Portfolio, detailed: bool, completion_rate: &str) -> (r: String)
        ensures
            r@ == portfolio_document(portfolio@, detailed, completion_rate@),
    {
        let stats = portfolio.statistics();
        let mut t = owned("# Architecture Portfolio\n\n## Projects Overview\n\n**Total Projects**: ");
        t.append(decimal_text(stats.total_projects).as_str());
        t.append("\n**Completion Rate**: ");
        t.append(completion_rate);
        t.append("%\n\n### Projects by Status\n\n- Planned: ");
        t.append(decimal_text(stats.planned_count).as_str());
        t.append("\n- In Progress: ");
        t.append(decimal_text(stats.in_progress_count).as_str());
        t.append("\n- Completed: ");
        t.append(decimal_text(stats.completed_count).as_str());
        t.append("\n- Archived: ");
        t.append(decimal_text(stats.archived_count).as_str());
        t.append("\n\n---\n\n");
        proof {
            assert(t@ =~= document_header(portfolio@, completion_rate@));
        }
        let ghost header = t@;
        let projects = portfolio.projects();
        let ghost s = portfolio@;
        let mut i: usize = 0;
        while i < projects.len()
            invariant
                i <= projects@.len(),
                project_views(projects@) == s,
                t@ == header + project_sections(s.take(i as int), detailed),
            decreases projects@.len() - i,
        {
            let section = self.project_section(&projects[i], detailed);
            t.append(section.as_str());
            proof {
                assert(s.take(i + 1).drop_last() =~= s.take(i as int));
                assert(s.take(i + 1).last() == projects@[i as int]@);
                assert(t@ =~= header + project_sections(s.take(i + 1), detailed));
            }
            i = i + 1;
        }
        proof {
            assert(s.take(s.len() as int) =~= s);
        }
        t
    }
}

impl Default for DocumentationService {
    fn default() -> (r: DocumentationService) {
        DocumentationService::new()
    }
}

} // verus!
