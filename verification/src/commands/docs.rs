//! The portfolio document over plain project records: one section per
//! project.
use vstd::prelude::*;
use vstd::string::*;
use crate::application::services::documentation_service::{join_strings, join_texts};
use crate::models::{
    Portfolio, Project, architecture_display, language_display, status_display,
};
use crate::text::{join_path, owned, path_join, string_views};

verus! {

/// The section of a project; a detailed one adds its description and, when
/// it has any, its frameworks.
pub open spec fn section_text(p: Project, detailed: bool) -> Seq<char> {
    "### "@ + p.name@ + "\n\n- **Language**: "@ + language_display(p.language)
        + "\n- **Architecture**: "@ + architecture_display(p.architecture) + "\n- **Status**: "@
        + status_display(p.status) + "\n"@ + (if detailed {
        "\n"@ + p.description@ + "\n"@ + if p.frameworks@.len() > 0 {
            "\n**Frameworks**: "@ + join_texts(string_views(p.frameworks@), ", "@) + "\n"@
        } else {
            Seq::<char>::empty()
        }
    } else {
        Seq::<char>::empty()
    }) + "\n---\n\n"@
}

/// The sections of the projects, in order.
pub open spec fn sections_text(s: Seq<Project>, detailed: bool) -> Seq<char>
    decreases s.len(),
{
    if s.len() == 0 {
        Seq::empty()
    } else {
        sections_text(s.drop_last(), detailed) + section_text(s.last(), detailed)
    }
}

/// The whole document.
pub open spec fn document_text(s: Seq<Project>, detailed: bool) -> Seq<char> {
    "# Architecture Portfolio\n\n## Projects Overview\n\n"@ + sections_text(s, detailed)
}

/// The section of one project.
pub fn project_section(p: &Project, detailed: bool) -> (r: String)
    ensures
        r@ == section_text(*p, detailed),
{
    let mut text = owned("### ");
    text.append(p.name.as_str());
    text.append("\n\n- **Language**: ");
    text.append(p.language.display_name());
    text.append("\n- **Architecture**: ");
    text.append(p.architecture.display_name());
    text.append("\n- **Status**: ");
    text.append(p.status.display_name());
    text.append("\n");
    if detailed {
        text.append("\n");
        text.append(p.description.as_str());
        text.append("\n");
        if p.frameworks.len() > 0 {
            let joined = join_strings(p.frameworks.as_slice(), ", ");
            text.append("\n**Frameworks**: ");
            text.append(joined.as_str());
            text.append("\n");
        }
    }
    text.append("\n---\n\n");
    proof {
        reveal_strlit("\n");
        assert(text@ =~= section_text(*p, detailed));
    }
    text
}

/// The portfolio document.
pub fn portfolio_markdown(portfolio: &Portfolio, detailed: bool) -> (r: String)
    ensures
        r@ == document_text(portfolio.projects@, detailed),
{
    let ghost s = portfolio.projects@;
    let mut text = owned("# Architecture Portfolio\n\n## Projects Overview\n\n");
    let mut i: usize = 0;
    while i < portfolio.projects.len()
        invariant
            i <= s.len(),
            s == portfolio.projects@,
            text@ == "# Architecture Portfolio\n\n## Projects Overview\n\n"@ + sections_text(
                s.take(i as int),
                detailed,
            ),
        decreases s.len() - i,
    {
        let section = project_section(&portfolio.projects[i], detailed);
        text.append(section.as_str());
        proof {
            assert(s.take(i + 1).drop_last() =~= s.take(i as int));
            assert(s.take(i + 1).last() == s[i as int]);
        }
        i = i + 1;
    }
    proof {
        assert(s.take(s.len() as int) =~= s);
    }
    text
}

/// Where the document is written: `portfolio.md` in the output directory.
pub fn output_file(output: &str) -> (r: String)
    ensures
        r@ == path_join(output@, "portfolio.md"@),
{
    join_path(output, "portfolio.md")
}

} // verus!
