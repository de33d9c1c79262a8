//! The `list` command: its query, and the statistics shown above a listing.
use vstd::prelude::*;
use vstd::string::*;
use crate::application::dto::queries::ListProjectsQuery;
use crate::domain::models::enums::Status;
use crate::domain::models::portfolio::{PortfolioStatistics, count_status, statistics_of};
use crate::domain::models::project::ProjectView;
use crate::text::{decimal, decimal_text, owned};

verus! {

/// The query of a listing, with the filters as the user wrote them.
pub fn list_query(language: Option<String>, architecture: Option<String>, status: Option<String>) -> (r:
    ListProjectsQuery)
    ensures
        r.language == language,
        r.architecture == architecture,
        r.status == status,
{
    ListProjectsQuery { language, architecture, status }
}

/// The statistics shown above a listing, under their title: the total, then
/// the counts per status (the completed ones with their rate, written as
/// text, the archived ones only when there are any), then an empty line.
pub open spec fn stats_summary_text(
    total: nat,
    completed: nat,
    in_progress: nat,
    planned: nat,
    archived: nat,
    completion_rate: Seq<char>,
) -> Seq<char> {
    "Total Projects: "@ + decimal(total) + "\nCompleted: "@ + decimal(completed) + " ("@
        + completion_rate + "%)\nIn Progress: "@ + decimal(in_progress) + "\nPlanned: "@
        + decimal(planned) + "\n"@ + (if archived > 0 {
        "Archived: "@ + decimal(archived) + "\n"@
    } else {
        Seq::<char>::empty()
    }) + "\n"@
}

/// The statistics shown above a listing carry the portfolio's counts, each
/// on the line of its status: the total is the number of projects, the
/// number after "Completed: " the number of completed projects (followed by
/// the rate), after "In Progress: " the number in progress, after
/// "Planned: " the number planned; when some project is archived, the next
/// line gives their number.
pub proof fn lemma_stats_summary_counts(
    s: Seq<ProjectView>,
    stats: PortfolioStatistics,
    completion_rate: Seq<char>,
)
    requires
        statistics_of(stats, s),
    ensures
        ({
            let text = stats_summary_text(
                stats.total_projects as nat,
                stats.completed_count as nat,
                stats.in_progress_count as nat,
                stats.planned_count as nat,
                stats.archived_count as nat,
                completion_rate,
            );
            let head = "Total Projects: "@ + decimal(s.len()) + "\nCompleted: "@ + decimal(
                count_status(s, Status::Completed),
            ) + " ("@ + completion_rate + "%)\nIn Progress: "@ + decimal(
                count_status(s, Status::InProgress),
            ) + "\nPlanned: "@ + decimal(count_status(s, Status::Planned)) + "\n"@;
            let archived_line = "Archived: "@ + decimal(count_status(s, Status::Archived)) + "\n"@;
            &&& text.take(head.len() as int) == head
            &&& count_status(s, Status::Archived) > 0 ==> text.subrange(
                head.len() as int,
                (head.len() + archived_line.len()) as int,
            ) == archived_line
        }),
{
    let text = stats_summary_text(
        stats.total_projects as nat,
        stats.completed_count as nat,
        stats.in_progress_count as nat,
        stats.planned_count as nat,
        stats.archived_count as nat,
        completion_rate,
    );
    let head = "Total Projects: "@ + decimal(s.len()) + "\nCompleted: "@ + decimal(
        count_status(s, Status::Completed),
    ) + " ("@ + completion_rate + "%)\nIn Progress: "@ + decimal(
        count_status(s, Status::InProgress),
    ) + "\nPlanned: "@ + decimal(count_status(s, Status::Planned)) + "\n"@;
    let archived_line = "Archived: "@ + decimal(count_status(s, Status::Archived)) + "\n"@;
    let archived_part = if stats.archived_count > 0 {
        archived_line
    } else {
        Seq::<char>::empty()
    };
    assert(text =~= head + (archived_part + "\n"@));
    assert((head + (archived_part + "\n"@)).take(head.len() as int) =~= head);
    if count_status(s, Status::Archived) > 0 {
        assert((head + (archived_line + "\n"@)).subrange(
            head.len() as int,
            (head.len() + archived_line.len()) as int,
        ) =~= archived_line);
    }
}

/// The statistics shown above a listing (see [`stats_summary_text`]).
pub fn stats_summary(stats: &PortfolioStatistics, completion_rate: &str) -> (r: String)
    ensures
        r@ == stats_summary_text(
            stats.total_projects as nat,
            stats.completed_count as nat,
            stats.in_progress_count as nat,
            stats.planned_count as nat,
            stats.archived_count as nat,
            completion_rate@,
        ),
{
    let mut text = owned("Total Projects: ");
    text.append(decimal_text(stats.total_projects).as_str());
    text.append("\nCompleted: ");
    text.append(decimal_text(stats.completed_count).as_str());
    text.append(" (");
    text.append(completion_rate);
    text.append("%)\nIn Progress: ");
    text.append(decimal_text(stats.in_progress_count).as_str());
    text.append("\nPlanned: ");
    text.append(decimal_text(stats.planned_count).as_str());
    text.append("\n");
    if stats.archived_count > 0 {
        text.append("Archived: ");
        text.append(decimal_text(stats.archived_count).as_str());
        text.append("\n");
    }
    text.append("\n");
    text
}

} // verus!
