//! What the tool decides from its command line before and between the
//! outside work: whether it only writes the configuration, how much it
//! logs, the update a command asks for, whether a deletion is confirmed,
//! and the statistics it shows.
use vstd::prelude::*;
use vstd::string::*;
use crate::application::dto::commands::UpdateProjectCommand;
use crate::domain::models::enums::{architecture_display, language_display};
use crate::domain::models::enums::{Architecture, Language};
use crate::domain::models::enums::Status;
use crate::domain::models::portfolio::{
    PortfolioStatistics, count_status, most_used_architecture_of, most_used_language_of, statistics_of,
};
use crate::domain::models::project::ProjectView;
use crate::presentation::cli::{Cli, Commands};
use crate::text::{chars_of, decimal, decimal_text, is_white_space, owned, char_is_whitespace};

verus! {

/// The tool, given its command line.
pub struct CliApplication {
    cli: Cli,
}

/// Whether an answer confirms: once the white space around it is trimmed,
/// it is `y` or `Y`.
pub open spec fn confirms(answer: Seq<char>) -> bool {
    exists|i: int|
        0 <= i < answer.len() && (answer[i] == 'y' || answer[i] == 'Y') && forall|j: int|
            0 <= j < answer.len() && j != i ==> is_white_space(#[trigger] answer[j])
}

impl CliApplication {
    /// The tool for a command line.
    pub fn from_cli(cli: Cli) -> (r: CliApplication)
        ensures
            r.cli() == cli,
    {
        CliApplication { cli }
    }

    pub closed spec fn cli(&self) -> Cli {
        self.cli
    }

    /// The command line.
    pub fn command_line(&self) -> (r: &Cli)
        ensures
            *r == self.cli(),
    {
        &self.cli
    }

    /// The command line, given back.
    pub fn into_cli(self) -> (r: Cli)
        ensures
            r == self.cli(),
    {
        self.cli
    }

    /// When the command writes the configuration file, whether it may
    /// overwrite one; `None` for every other command.
    pub fn init_request(&self) -> (r: Option<bool>)
        ensures
            r == match self.cli().command {
                Commands::Init { force } => Some(force),
                _ => None,
            },
    {
        match &self.cli.command {
            Commands::Init { force } => Some(*force),
            _ => None,
        }
    }

    /// What is logged: debug messages of the tool and information of the
    /// rest when verbose, else only the tool's warnings.
    pub fn tracing_filter(&self) -> (r: &'static str)
        ensures
            r@ == if self.cli().verbose {
                "portfolio_cli=debug,info"@
            } else {
                "portfolio_cli=warn"@
            },
    {
        if self.cli.verbose {
            "portfolio_cli=debug,info"
        } else {
            "portfolio_cli=warn"
        }
    }
}

/// The update that an `update` command asks for.
pub fn update_command(
    project: String,
    description: Option<String>,
    status: Option<String>,
    add_framework: Vec<String>,
    remove_framework: Vec<String>,
    gitlab_url: Option<String>,
) -> (r: UpdateProjectCommand)
    ensures
        r.project_id == project,
        r.description == description,
        r.status == status,
        r.add_frameworks == add_framework,
        r.remove_frameworks == remove_framework,
        r.gitlab_url == gitlab_url,
{
    UpdateProjectCommand {
        project_id: project,
        description,
        status,
        add_frameworks: add_framework,
        remove_frameworks: remove_framework,
        gitlab_url,
    }
}

/// Whether an answer to the deletion question confirms it (see [`confirms`]).
pub fn deletion_confirmed(answer: &str) -> (r: bool)
    ensures
        r == confirms(answer@),
{
    let cs = chars_of(answer);
    let mut found: Option<usize> = None;
    let mut i: usize = 0;
    while i < cs.len()
        invariant
            i <= cs.len(),
            cs@ == answer@,
            match found {
                None => forall|j: int| 0 <= j < i ==> is_white_space(#[trigger] cs@[j]),
                Some(k) => k < i && (cs@[k as int] == 'y' || cs@[k as int] == 'Y') && forall|j: int|
                    0 <= j < i && j != k ==> is_white_space(#[trigger] cs@[j]),
            },
        decreases cs.len() - i,
    {
        let c = cs[i];
        if !char_is_whitespace(c) {
            match found {
                None => {
                    if c == 'y' || c == 'Y' {
                        found = Some(i);
                    } else {
                        proof {
                            assert forall|k: int| 0 <= k < cs@.len() && (cs@[k] == 'y' || cs@[k] == 'Y')
                                implies !(forall|j: int| 0 <= j < cs@.len() && j != k ==> is_white_space(#[trigger] cs@[j])) by {
                                assert(k != i);
                                assert(!is_white_space(cs@[i as int]));
                            }
                        }
                        return false;
                    }
                },
                Some(k) => {
                    proof {
                        assert forall|m: int| 0 <= m < cs@.len() && (cs@[m] == 'y' || cs@[m] == 'Y')
                            implies !(forall|j: int| 0 <= j < cs@.len() && j != m ==> is_white_space(#[trigger] cs@[j])) by {
                            if m == i {
                                assert(!is_white_space(cs@[k as int]) || true);
                                assert(cs@[k as int] == 'y' || cs@[k as int] == 'Y');
                                assert(!is_white_space(cs@[k as int]));
                            } else {
                                assert(!is_white_space(cs@[i as int]));
                            }
                        }
                    }
                    return false;
                },
            }
        }
        i = i + 1;
    }
    match found {
        None => {
            proof {
                assert forall|k: int| 0 <= k < cs@.len() implies !(cs@[k] == 'y' || cs@[k] == 'Y') by {
                    assert(is_white_space(cs@[k]));
                }
            }
            false
        },
        Some(k) => true,
    }
}

pub open spec fn display_of_language(l: Option<Language>) -> Option<Seq<char>> {
    match l {
        Some(x) => Some(language_display(x)),
        None => None,
    }
}

pub open spec fn display_of_architecture(a: Option<Architecture>) -> Option<Seq<char>> {
    match a {
        Some(x) => Some(architecture_display(x)),
        None => None,
    }
}

/// The statistics the `stats` command shows, under its title: the total,
/// the counts per status (the completed ones with their rate, written as
/// text, and the archived ones only when there are any), then the most used
/// language and architecture when there are any.
pub open spec fn stats_body_text(
    total: nat,
    completed: nat,
    in_progress: nat,
    planned: nat,
    archived: nat,
    completion_rate: Seq<char>,
    language: Option<Seq<char>>,
    architecture: Option<Seq<char>>,
) -> Seq<char> {
    "Total Projects: "@ + decimal(total) + "\n\nBy Status:\n  Completed: "@ + decimal(completed)
        + " ("@ + completion_rate + "%)\n  In Progress: "@ + decimal(in_progress)
        + "\n  Planned: "@ + decimal(planned) + "\n"@ + (if archived > 0 {
        "  Archived: "@ + decimal(archived) + "\n"@
    } else {
        Seq::<char>::empty()
    }) + (match language {
        Some(l) => "\nMost Used Language: "@ + l + "\n"@,
        None => Seq::<char>::empty(),
    }) + (match architecture {
        Some(a) => "Most Used Architecture: "@ + a + "\n"@,
        None => Seq::<char>::empty(),
    })
}

/// The statistics shown carry the portfolio's counts, each on the line of
/// its status: the total is the number of projects, the number written after
/// "Completed: " is the number of completed projects (followed by the rate),
/// after "In Progress: " the number in progress, after "Planned: " the number
/// planned; when some project is archived, the next line gives their number.
pub proof fn lemma_stats_body_counts(
    s: Seq<ProjectView>,
    stats: PortfolioStatistics,
    completion_rate: Seq<char>,
    language: Option<Seq<char>>,
    architecture: Option<Seq<char>>,
)
    requires
        statistics_of(stats, s),
    ensures
        ({
            let text = stats_body_text(
                stats.total_projects as nat,
                stats.completed_count as nat,
                stats.in_progress_count as nat,
                stats.planned_count as nat,
                stats.archived_count as nat,
                completion_rate,
                language,
                architecture,
            );
            let head = "Total Projects: "@ + decimal(s.len()) + "\n\nBy Status:\n  Completed: "@
                + decimal(count_status(s, Status::Completed)) + " ("@ + completion_rate
                + "%)\n  In Progress: "@ + decimal(count_status(s, Status::InProgress))
                + "\n  Planned: "@ + decimal(count_status(s, Status::Planned)) + "\n"@;
            let archived_line = "  Archived: "@ + decimal(count_status(s, Status::Archived)) + "\n"@;
            &&& text.take(head.len() as int) == head
            &&& count_status(s, Status::Archived) > 0 ==> text.subrange(
                head.len() as int,
                (head.len() + archived_line.len()) as int,
            ) == archived_line
        }),
{
    let text = stats_body_text(
        stats.total_projects as nat,
        stats.completed_count as nat,
        stats.in_progress_count as nat,
        stats.planned_count as nat,
        stats.archived_count as nat,
        completion_rate,
        language,
        architecture,
    );
    let head = "Total Projects: "@ + decimal(s.len()) + "\n\nBy Status:\n  Completed: "@
        + decimal(count_status(s, Status::Completed)) + " ("@ + completion_rate
        + "%)\n  In Progress: "@ + decimal(count_status(s, Status::InProgress))
        + "\n  Planned: "@ + decimal(count_status(s, Status::Planned)) + "\n"@;
    let archived_line = "  Archived: "@ + decimal(count_status(s, Status::Archived)) + "\n"@;
    let archived_part = if stats.archived_count > 0 {
        archived_line
    } else {
        Seq::<char>::empty()
    };
    let tail = (match language {
        Some(l) => "\nMost Used Language: "@ + l + "\n"@,
        None => Seq::<char>::empty(),
    }) + (match architecture {
        Some(a) => "Most Used Architecture: "@ + a + "\n"@,
        None => Seq::<char>::empty(),
    });
    assert(text =~= head + (archived_part + tail));
    assert((head + (archived_part + tail)).take(head.len() as int) =~= head);
    if count_status(s, Status::Archived) > 0 {
        assert((head + (archived_line + tail)).subrange(
            head.len() as int,
            (head.len() + archived_line.len()) as int,
        ) =~= archived_line);
    }
}

/// The statistics the `stats` command shows under its title (see
/// [`stats_body_text`]), with a most used language and architecture as
/// [`PortfolioStatistics::most_used_language`] and
/// [`PortfolioStatistics::most_used_architecture`] choose them; the
/// completion rate comes already written.
pub fn stats_body(stats: &PortfolioStatistics, completion_rate: &str) -> (r: String)
    ensures
        exists|l: Option<Language>, a: Option<Architecture>|
            most_used_language_of(stats.language_counts@, l) && most_used_architecture_of(
                stats.architecture_counts@,
                a,
            ) && r@ == stats_body_text(
                stats.total_projects as nat,
                stats.completed_count as nat,
                stats.in_progress_count as nat,
                stats.planned_count as nat,
                stats.archived_count as nat,
                completion_rate@,
                display_of_language(l),
                display_of_architecture(a),
            ),
{
    let mut text = owned("Total Projects: ");
    text.append(decimal_text(stats.total_projects).as_str());
    text.append("\n\nBy Status:\n  Completed: ");
    text.append(decimal_text(stats.completed_count).as_str());
    text.append(" (");
    text.append(completion_rate);
    text.append("%)\n  In Progress: ");
    text.append(decimal_text(stats.in_progress_count).as_str());
    text.append("\n  Planned: ");
    text.append(decimal_text(stats.planned_count).as_str());
    text.append("\n");
    if stats.archived_count > 0 {
        text.append("  Archived: ");
        text.append(decimal_text(stats.archived_count).as_str());
        text.append("\n");
    }
    let l = stats.most_used_language();
    if let Some(lang) = l {
        text.append("\nMost Used Language: ");
        text.append(lang.display_name());
        text.append("\n");
    }
    let a = stats.most_used_architecture();
    if let Some(arch) = a {
        text.append("Most Used Architecture: ");
        text.append(arch.display_name());
        text.append("\n");
    }
    proof {
        assert(text@ =~= stats_body_text(
            stats.total_projects as nat,
            stats.completed_count as nat,
            stats.in_progress_count as nat,
            stats.planned_count as nat,
            stats.archived_count as nat,
            completion_rate@,
            display_of_language(l),
            display_of_architecture(a),
        ));
    }
    text
}

} // verus!
