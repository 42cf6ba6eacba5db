//! Composing the prompt that asks a language model for the day's report.
use crate::model::{commit_views, note_contents, AppConfig, CommitView, GitCommit, LogItem};
use crate::text::same_text;
use vstd::prelude::*;

verus! {

/// `parts` joined by line feeds.
pub open spec fn join_lines(parts: Seq<Seq<char>>) -> Seq<char>
    decreases parts.len(),
{
    if parts.len() == 0 {
        Seq::empty()
    } else if parts.len() == 1 {
        parts[0]
    } else {
        join_lines(parts.drop_last()) + "\n"@ + parts.last()
    }
}

/// A note as a bullet.
pub open spec fn note_line(content: Seq<char>) -> Seq<char> {
    "- "@ + content
}

/// A commit as a bullet, `[repo] message`, followed by its diff in a fenced
/// block when it has one.
pub open spec fn commit_line(c: CommitView) -> Seq<char> {
    let repo = match c.repo_name {
        Some(r) => r,
        None => "?"@,
    };
    let head = "- ["@ + repo + "] "@ + c.message;
    match c.diff {
        Some(d) => head + "\n  Code Diff Summary:\n```\n"@ + d + "\n```"@,
        None => head,
    }
}

/// What the model is asked to do: analyse the day, or fill in the template.
pub open spec fn instruction(analysis: bool, template: Seq<char>) -> Seq<char> {
    if analysis {
        "Provide a comprehensive summary, 3 improvements, and 1 key knowledge point. If code diffs are provided, use them to explain technical details."@
    } else {
        "Strictly follow the format below:\n\nFormat Template:\n"@ + template
    }
}

/// The whole prompt: the notes, the commits, the instruction and the user's
/// own rules, in that order.
pub open spec fn prompt_text(
    notes: Seq<Seq<char>>,
    commits: Seq<CommitView>,
    template: Seq<char>,
    rules: Seq<char>,
    analysis: bool,
) -> Seq<char> {
    "\n        Context:\n        Manual Logs:\n        "@ + join_lines(
        notes.map_values(|n: Seq<char>| note_line(n)),
    ) + "\n        \n        Git Commits:\n        "@ + join_lines(
        commits.map_values(|c: CommitView| commit_line(c)),
    ) + "\n        \n        System Instruction:\n        "@ + instruction(analysis, template)
        + "\n        \n        Additional User Rules:\n        "@ + rules + "\n    "@
}

fn commit_line_of(c: &GitCommit) -> (r: String)
    ensures
        r@ == commit_line(c@),
{
    let mut t = String::from_str("- [");
    match &c.repo_name {
        Some(n) => t.append(n.as_str()),
        None => t.append("?"),
    }
    t.append("] ");
    t.append(c.message.as_str());
    match &c.diff {
        Some(d) => {
            t.append("\n  Code Diff Summary:\n```\n");
            t.append(d.as_str());
            t.append("\n```");
        },
        None => {},
    }
    t
}

fn notes_text(logs: &[LogItem]) -> (r: String)
    ensures
        r@ == join_lines(note_contents(logs@).map_values(|n: Seq<char>| note_line(n))),
{
    let ghost parts = note_contents(logs@).map_values(|n: Seq<char>| note_line(n));
    let mut t = String::new();
    let mut i: usize = 0;
    while i < logs.len()
        invariant
            i <= logs.len(),
            parts == note_contents(logs@).map_values(|n: Seq<char>| note_line(n)),
            t@ == join_lines(parts.take(i as int)),
        decreases logs.len() - i,
    {
        proof {
            assert(parts.take(i + 1).drop_last() =~= parts.take(i as int));
        }
        let ghost before = t@;
        if i > 0 {
            t.append("\n");
        } else {
            assert(before =~= Seq::<char>::empty());
        }
        t.append("- ");
        t.append(logs[i].content.as_str());
        proof {
            assert(parts.take(i + 1).last() == note_line(logs@[i as int].content@));
            if i == 0 {
                assert(t@ =~= note_line(logs@[0].content@));
            } else {
                assert(t@ =~= before + "\n"@ + note_line(logs@[i as int].content@));
            }
        }
        i += 1;
    }
    proof {
        assert(parts.take(logs.len() as int) =~= parts);
    }
    t
}

fn commits_text(commits: &[GitCommit]) -> (r: String)
    ensures
        r@ == join_lines(commit_views(commits@).map_values(|c: CommitView| commit_line(c))),
{
    let ghost parts = commit_views(commits@).map_values(|c: CommitView| commit_line(c));
    let mut t = String::new();
    let mut i: usize = 0;
    while i < commits.len()
        invariant
            i <= commits.len(),
            parts == commit_views(commits@).map_values(|c: CommitView| commit_line(c)),
            t@ == join_lines(parts.take(i as int)),
        decreases commits.len() - i,
    {
        proof {
            assert(parts.take(i + 1).drop_last() =~= parts.take(i as int));
        }
        let ghost before = t@;
        if i > 0 {
            t.append("\n");
        } else {
            assert(before =~= Seq::<char>::empty());
        }
        let line = commit_line_of(&commits[i]);
        t.append(line.as_str());
        proof {
            assert(parts.take(i + 1).last() == commit_line(commits@[i as int]@));
            if i == 0 {
                assert(t@ =~= line@);
            } else {
                assert(t@ =~= before + "\n"@ + line@);
            }
        }
        i += 1;
    }
    proof {
        assert(parts.take(commits.len() as int) =~= parts);
    }
    t
}

/// Composes the prompt for the day's notes and commits. The mode `analysis`
/// asks for an analysis of the day; any other mode asks for the report in the
/// configured template.
pub fn generate_prompt_logic(
    logs: &[LogItem],
    commits: &[GitCommit],
    config: &AppConfig,
    mode: &str,
) -> (r: String)
    ensures
        r@ == prompt_text(
            note_contents(logs@),
            commit_views(commits@),
            config.report_template@,
            config.custom_rules@,
            mode@ == "analysis"@,
        ),
{
    let notes = notes_text(logs);
    let git = commits_text(commits);
    let analysis = same_text(mode, "analysis");
    let mut t = String::from_str("\n        Context:\n        Manual Logs:\n        ");
    t.append(notes.as_str());
    t.append("\n        \n        Git Commits:\n        ");
    t.append(git.as_str());
    t.append("\n        \n        System Instruction:\n        ");
    if analysis {
        t.append(
            "Provide a comprehensive summary, 3 improvements, and 1 key knowledge point. If code diffs are provided, use them to explain technical details.",
        );
    } else {
        t.append("Strictly follow the format below:\n\nFormat Template:\n");
        t.append(config.report_template.as_str());
    }
    t.append("\n        \n        Additional User Rules:\n        ");
    t.append(config.custom_rules.as_str());
    t.append("\n    ");
    proof {
        let ghost want = prompt_text(
            note_contents(logs@),
            commit_views(commits@),
            config.report_template@,
            config.custom_rules@,
            mode@ == "analysis"@,
        );
        assert(t@ =~= want);
    }
    t
}

/// Composing is deterministic: two calls whose notes say the same, whose
/// commits are the same, with the same template, rules and mode, give the same
/// prompt, character for character.
pub proof fn lemma_prompt_deterministic(
    logs1: Seq<LogItem>,
    commits1: Seq<GitCommit>,
    config1: AppConfig,
    mode1: Seq<char>,
    logs2: Seq<LogItem>,
    commits2: Seq<GitCommit>,
    config2: AppConfig,
    mode2: Seq<char>,
)
    requires
        note_contents(logs1) == note_contents(logs2),
        commit_views(commits1) == commit_views(commits2),
        config1.report_template@ == config2.report_template@,
        config1.custom_rules@ == config2.custom_rules@,
        mode1 == mode2,
    ensures
        prompt_text(
            note_contents(logs1),
            commit_views(commits1),
            config1.report_template@,
            config1.custom_rules@,
            mode1 == "analysis"@,
        ) == prompt_text(
            note_contents(logs2),
            commit_views(commits2),
            config2.report_template@,
            config2.custom_rules@,
            mode2 == "analysis"@,
        ),
{
}

} // verus!
