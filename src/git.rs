//! Reading what the version-control tool prints about the day's commits.
use crate::model::{commit_views, opt_view, CommitView, GitCommit};
use crate::text::{i64_of, lines, parse_i64, pieces, split_lines, split_on, views};
use vstd::prelude::*;

verus! {

/// The most characters of a diff that a commit record keeps.
pub const DIFF_CHAR_LIMIT: usize = 3000;

/// A diff as a commit record keeps it: verbatim up to the limit, else its
/// first `DIFF_CHAR_LIMIT` characters followed by a marker.
pub open spec fn truncated(raw: Seq<char>) -> Seq<char> {
    if raw.len() <= DIFF_CHAR_LIMIT {
        raw
    } else {
        raw.take(DIFF_CHAR_LIMIT as int) + "... (truncated)"@
    }
}

/// Caps a diff at `DIFF_CHAR_LIMIT` characters, marking the cut.
pub fn truncate_diff(raw: &str) -> (r: String)
    ensures
        r@ == truncated(raw@),
{
    let n = raw.unicode_len();
    if n <= DIFF_CHAR_LIMIT {
        String::from_str(raw)
    } else {
        let mut r = String::from_str(raw.substring_char(0, DIFF_CHAR_LIMIT));
        r.append("... (truncated)");
        r
    }
}

/// The final component of a path, as `std::path::Path::file_name` finds it.
pub uninterp spec fn file_name_of(path: Seq<char>) -> Option<Seq<char>>;

/// Relies on `std::path::Path::file_name`: the final component of the path,
/// if it has one; a component read from a `&str` is valid UTF-8.
#[verifier::external_body]
fn path_file_name(path: &str) -> (r: Option<String>)
    ensures
        opt_view(r) == file_name_of(path@),
{
    std::path::Path::new(path).file_name().and_then(|n| n.to_str()).map(|n| n.to_string())
}

/// The name under which a repository's commits are shown.
pub open spec fn repo_label(path: Seq<char>) -> Seq<char> {
    match file_name_of(path) {
        Some(n) => n,
        None => "Unknown"@,
    }
}

/// The display name of the repository at `path`: its last path component.
pub fn repo_name_of(path: &str) -> (r: String)
    ensures
        r@ == repo_label(path@),
{
    match path_file_name(path) {
        Some(n) => n,
        None => String::from_str("Unknown"),
    }
}

/// The commit that one line of the log listing describes, if the line has at
/// least four `|`-separated fields: hash, subject, author and epoch seconds.
/// A time that is not a decimal `i64` reads as zero.
pub open spec fn commit_of_line(line: Seq<char>, repo: Seq<char>) -> Option<CommitView> {
    let f = pieces(line, '|');
    if f.len() >= 4 {
        Some(
            CommitView {
                hash: f[0],
                message: f[1],
                author: f[2],
                time: match i64_of(f[3]) {
                    Some(t) => t,
                    None => 0,
                },
                repo_name: Some(repo),
                diff: None,
            },
        )
    } else {
        None
    }
}

/// The commits of the lines that describe one, in order.
pub open spec fn commits_of_lines(ls: Seq<Seq<char>>, repo: Seq<char>) -> Seq<CommitView>
    decreases ls.len(),
{
    if ls.len() == 0 {
        Seq::empty()
    } else {
        let init = commits_of_lines(ls.drop_last(), repo);
        match commit_of_line(ls.last(), repo) {
            Some(c) => init.push(c),
            None => init,
        }
    }
}

/// The commits that a log listing describes.
pub open spec fn commits_of_output(out: Seq<char>, repo: Seq<char>) -> Seq<CommitView> {
    commits_of_lines(lines(out), repo)
}

/// Reads one line of the log listing.
pub fn parse_log_line(line: &str, repo: &str) -> (r: Option<GitCommit>)
    ensures
        match r {
            Some(c) => commit_of_line(line@, repo@) == Some(c@),
            None => commit_of_line(line@, repo@).is_none(),
        },
{
    let f = split_on(line, '|');
    if f.len() >= 4 {
        let time = match parse_i64(f[3].as_str()) {
            Some(t) => t,
            None => 0,
        };
        let c = GitCommit {
            hash: String::from_str(f[0].as_str()),
            message: String::from_str(f[1].as_str()),
            author: String::from_str(f[2].as_str()),
            time,
            repo_name: Some(String::from_str(repo)),
            diff: None,
        };
        proof {
            assert(views(f@)[0] == f@[0]@);
            assert(views(f@)[1] == f@[1]@);
            assert(views(f@)[2] == f@[2]@);
            assert(views(f@)[3] == f@[3]@);
        }
        Some(c)
    } else {
        None
    }
}

/// Reads a whole log listing; lines with too few fields are passed over.
pub fn parse_log_output(out: &str, repo: &str) -> (r: Vec<GitCommit>)
    ensures
        commit_views(r@) == commits_of_output(out@, repo@),
{
    let ls = split_lines(out);
    let ghost lv = views(ls@);
    let mut r: Vec<GitCommit> = Vec::new();
    let mut i: usize = 0;
    while i < ls.len()
        invariant
            lv == views(ls@),
            lv == lines(out@),
            i <= ls.len(),
            commit_views(r@) == commits_of_lines(lv.take(i as int), repo@),
        decreases ls.len() - i,
    {
        let ghost before = commit_views(r@);
        proof {
            assert(lv.take(i + 1).drop_last() =~= lv.take(i as int));
            assert(lv.take(i + 1).last() == ls@[i as int]@);
        }
        match parse_log_line(ls[i].as_str(), repo) {
            Some(c) => {
                r.push(c);
                assert(commit_views(r@) =~= before.push(c@));
            },
            None => {},
        }
        i += 1;
    }
    proof {
        assert(lv.take(ls.len() as int) =~= lv);
    }
    r
}

/// The commits that a scan of one repository yields: none where the tool
/// failed to list it, else those that its listing describes.
pub open spec fn listing_commits(path: Seq<char>, output: Option<Seq<char>>) -> Seq<CommitView> {
    match output {
        Some(out) => commits_of_output(out, repo_label(path)),
        None => Seq::empty(),
    }
}

/// The commits of one repository, from the listing that the tool printed for
/// it, or `None` where the tool could not list it.
pub fn repo_commits(path: &str, output: Option<&str>) -> (r: Vec<GitCommit>)
    ensures
        commit_views(r@) == listing_commits(path@, match output {
            Some(o) => Some(o@),
            None => None,
        }),
{
    match output {
        Some(out) => {
            let name = repo_name_of(path);
            parse_log_output(out, name.as_str())
        },
        None => Vec::new(),
    }
}

/// The arguments that list a repository's commits since midnight, one line
/// each: hash, subject, author and epoch seconds, separated by `|`.
pub fn log_args(path: &str) -> (r: Vec<String>)
    ensures
        views(r@) == seq![
            "-C"@,
            path@,
            "log"@,
            "--since=midnight"@,
            "--pretty=format:%H|%s|%an|%at"@,
        ],
{
    let r = vec![
        String::from_str("-C"),
        String::from_str(path),
        String::from_str("log"),
        String::from_str("--since=midnight"),
        String::from_str("--pretty=format:%H|%s|%an|%at"),
    ];
    assert(views(r@) =~= seq![
        "-C"@,
        path@,
        "log"@,
        "--since=midnight"@,
        "--pretty=format:%H|%s|%an|%at"@,
    ]);
    r
}

/// The arguments that print the patch of one commit.
pub fn show_args(path: &str, hash: &str) -> (r: Vec<String>)
    ensures
        views(r@) == seq![
            "-C"@,
            path@,
            "show"@,
            hash@,
            "--pretty="@,
            "--patch"@,
            "--max-count=1"@,
        ],
{
    let r = vec![
        String::from_str("-C"),
        String::from_str(path),
        String::from_str("show"),
        String::from_str(hash),
        String::from_str("--pretty="),
        String::from_str("--patch"),
        String::from_str("--max-count=1"),
    ];
    assert(views(r@) =~= seq![
        "-C"@,
        path@,
        "show"@,
        hash@,
        "--pretty="@,
        "--patch"@,
        "--max-count=1"@,
    ]);
    r
}

impl GitCommit {
    /// Records the patch text that the tool printed for this commit, capped.
    pub fn attach_diff(&mut self, raw: &str)
        ensures
            final(self)@ == (CommitView { diff: Some(truncated(raw@)), ..old(self)@ }),
    {
        self.diff = Some(truncate_diff(raw));
    }
}

/// The patch requests that a scan of the repository at `path` makes for its
/// commits: one `show` per commit, in order, under deep analysis; none else.
pub fn patch_requests(path: &str, commits: &Vec<GitCommit>, deep: bool) -> (r: Vec<Vec<String>>)
    ensures
        deep ==> r@.len() == commits@.len(),
        !deep ==> r@.len() == 0,
        forall|k: int|
            0 <= k < r@.len() ==> views(#[trigger] r@[k]@) == seq![
                "-C"@,
                path@,
                "show"@,
                commits@[k].hash@,
                "--pretty="@,
                "--patch"@,
                "--max-count=1"@,
            ],
{
    let mut r: Vec<Vec<String>> = Vec::new();
    if !deep {
        return r;
    }
    let mut i: usize = 0;
    while i < commits.len()
        invariant
            i <= commits.len(),
            r@.len() == i,
            forall|k: int|
                0 <= k < r@.len() ==> views(#[trigger] r@[k]@) == seq![
                    "-C"@,
                    path@,
                    "show"@,
                    commits@[k].hash@,
                    "--pretty="@,
                    "--patch"@,
                    "--max-count=1"@,
                ],
        decreases commits.len() - i,
    {
        r.push(show_args(path, commits[i].hash.as_str()));
        i += 1;
    }
    r
}

fn copy_text(o: &Option<String>) -> (r: Option<String>)
    ensures
        opt_view(r) == opt_view(*o),
{
    match o {
        Some(s) => Some(String::from_str(s.as_str())),
        None => None,
    }
}

/// A copy of `c` that records `raw` as its patch, capped.
fn with_diff(c: &GitCommit, raw: &str) -> (r: GitCommit)
    ensures
        r@ == (CommitView { diff: Some(truncated(raw@)), ..c@ }),
{
    GitCommit {
        hash: String::from_str(c.hash.as_str()),
        message: String::from_str(c.message.as_str()),
        author: String::from_str(c.author.as_str()),
        time: c.time,
        repo_name: copy_text(&c.repo_name),
        diff: Some(truncate_diff(raw)),
    }
}

/// Records the patches that the tool printed, one for each commit in order;
/// `None` where the tool could not run, which leaves that commit as it was.
pub fn attach_diffs(commits: &mut Vec<GitCommit>, patches: Vec<Option<String>>)
    ensures
        final(commits)@.len() == old(commits)@.len(),
        forall|k: int|
            0 <= k < old(commits)@.len() ==> #[trigger] final(commits)@[k]@ == if k
                < patches@.len() && patches@[k] is Some {
                CommitView { diff: Some(truncated(patches@[k]->0@)), ..old(commits)@[k]@ }
            } else {
                old(commits)@[k]@
            },
{
    let ghost before = commits@;
    let mut i: usize = 0;
    while i < commits.len() && i < patches.len()
        invariant
            i <= commits@.len(),
            commits@.len() == before.len(),
            forall|k: int|
                0 <= k < before.len() ==> #[trigger] commits@[k]@ == if k < i && k < patches@.len()
                    && patches@[k] is Some {
                    CommitView { diff: Some(truncated(patches@[k]->0@)), ..before[k]@ }
                } else {
                    before[k]@
                },
        decreases commits.len() - i,
    {
        match &patches[i] {
            Some(raw) => {
                let c = with_diff(&commits[i], raw.as_str());
                commits.set(i, c);
            },
            None => {},
        }
        i += 1;
    }
}

/// All the sequences of `s`, one after another.
pub open spec fn concat_all(s: Seq<Seq<CommitView>>) -> Seq<CommitView>
    decreases s.len(),
{
    if s.len() == 0 {
        Seq::empty()
    } else {
        concat_all(s.drop_last()) + s.last()
    }
}

/// The commit views of each repository's scan.
pub open spec fn scan_views(scans: Seq<Vec<GitCommit>>) -> Seq<Seq<CommitView>> {
    scans.map_values(|v: Vec<GitCommit>| commit_views(v@))
}

/// Puts the repositories' commits together, in the order of the repositories.
pub fn merge_scans(scans: Vec<Vec<GitCommit>>) -> (r: Vec<GitCommit>)
    ensures
        commit_views(r@) == concat_all(scan_views(scans@)),
{
    let ghost sv = scan_views(scans@);
    let mut r: Vec<GitCommit> = Vec::new();
    for batch in it: scans.into_iter()
        invariant
            sv == scan_views(scans@),
            it.seq() == scans@,
            commit_views(r@) == concat_all(sv.take(it.index())),
    {
        let ghost before = commit_views(r@);
        let ghost k = it.index();
        let mut b = batch;
        r.append(&mut b);
        proof {
            assert(sv.take(k + 1).drop_last() =~= sv.take(k));
            assert(commit_views(r@) =~= before + sv[k]);
        }
    }
    proof {
        assert(sv.take(scans@.len() as int) =~= sv);
    }
    r
}

proof fn lemma_concat_all_block(s: Seq<Seq<CommitView>>, i: int)
    requires
        0 <= i < s.len(),
    ensures
        concat_all(s.take(i)).len() + s[i].len() <= concat_all(s).len(),
        concat_all(s).subrange(
            concat_all(s.take(i)).len() as int,
            (concat_all(s.take(i)).len() + s[i].len()) as int,
        ) == s[i],
    decreases s.len(),
{
    let init = s.drop_last();
    if i == s.len() - 1 {
        assert(s.take(i) =~= init);
        assert(concat_all(s).subrange(
            concat_all(init).len() as int,
            (concat_all(init).len() + s[i].len()) as int,
        ) =~= s[i]);
    } else {
        lemma_concat_all_block(init, i);
        assert(init.take(i) =~= s.take(i));
        let off = concat_all(s.take(i)).len() as int;
        let block = concat_all(init).subrange(off, off + s[i].len());
        assert(concat_all(s).subrange(off, off + s[i].len()) =~= block);
    }
}

/// The scans of several repositories, one for each path, with the listing
/// that the tool printed for it, if it could list it.
pub open spec fn scans_of(paths: Seq<Seq<char>>, outputs: Seq<Option<Seq<char>>>) -> Seq<
    Seq<CommitView>,
> {
    Seq::new(paths.len(), |k: int| listing_commits(paths[k], outputs[k]))
}

/// Scans made one repository at a time, each as `repo_commits` gives it, are
/// the scans that `scans_of` describes; `merge_scans` then gives their
/// concatenation.
pub proof fn lemma_scans_are_listings(
    scans: Seq<Vec<GitCommit>>,
    paths: Seq<Seq<char>>,
    outputs: Seq<Option<Seq<char>>>,
)
    requires
        scans.len() == paths.len() == outputs.len(),
        forall|k: int|
            0 <= k < scans.len() ==> commit_views(#[trigger] scans[k]@) == listing_commits(
                paths[k],
                outputs[k],
            ),
    ensures
        scan_views(scans) == scans_of(paths, outputs),
{
    assert(scan_views(scans) =~= scans_of(paths, outputs));
}

/// Scanning is best-effort per repository: every commit of a repository that
/// the tool could list stands, in order and as one block, in the merged result,
/// whatever became of the other repositories.
pub proof fn lemma_scan_keeps_listed_repos(
    paths: Seq<Seq<char>>,
    outputs: Seq<Option<Seq<char>>>,
    i: int,
)
    requires
        paths.len() == outputs.len(),
        0 <= i < paths.len(),
        outputs[i] is Some,
    ensures
        ({
            let merged = concat_all(scans_of(paths, outputs));
            let off = concat_all(scans_of(paths, outputs).take(i)).len() as int;
            let own = commits_of_output(outputs[i]->0, repo_label(paths[i]));
            merged.subrange(off, off + own.len()) == own
        }),
{
    lemma_concat_all_block(scans_of(paths, outputs), i);
}

/// Every commit of a repository that the tool could list is in the merged
/// result, with that repository's name.
pub proof fn lemma_scan_lists_every_commit(
    paths: Seq<Seq<char>>,
    outputs: Seq<Option<Seq<char>>>,
    i: int,
    k: int,
)
    requires
        paths.len() == outputs.len(),
        0 <= i < paths.len(),
        outputs[i] is Some,
        0 <= k < commits_of_output(outputs[i]->0, repo_label(paths[i])).len(),
    ensures
        concat_all(scans_of(paths, outputs)).contains(
            commits_of_output(outputs[i]->0, repo_label(paths[i]))[k],
        ),
{
    lemma_scan_keeps_listed_repos(paths, outputs, i);
    let merged = concat_all(scans_of(paths, outputs));
    let off = concat_all(scans_of(paths, outputs).take(i)).len() as int;
    let own = commits_of_output(outputs[i]->0, repo_label(paths[i]));
    lemma_concat_all_block(scans_of(paths, outputs), i);
    assert(merged.subrange(off, off + own.len())[k] == own[k]);
    assert(merged[off + k] == own[k]);
}

proof fn lemma_concat_all_skip_empty(s: Seq<Seq<CommitView>>, i: int)
    requires
        0 <= i < s.len(),
        s[i].len() == 0,
    ensures
        concat_all(s) == concat_all(s.remove(i)),
    decreases s.len(),
{
    if i == s.len() - 1 {
        assert(s.remove(i) =~= s.drop_last());
        assert(concat_all(s) =~= concat_all(s.drop_last()));
    } else {
        lemma_concat_all_skip_empty(s.drop_last(), i);
        assert(s.remove(i).drop_last() =~= s.drop_last().remove(i));
        assert(s.remove(i).last() == s.last());
    }
}

/// A repository that the tool could not list adds nothing: the merged result
/// is the one that the other repositories give without it.
pub proof fn lemma_unlisted_repo_adds_nothing(
    paths: Seq<Seq<char>>,
    outputs: Seq<Option<Seq<char>>>,
    i: int,
)
    requires
        paths.len() == outputs.len(),
        0 <= i < paths.len(),
        outputs[i] is None,
    ensures
        concat_all(scans_of(paths, outputs)) == concat_all(
            scans_of(paths.remove(i), outputs.remove(i)),
        ),
{
    let s = scans_of(paths, outputs);
    lemma_concat_all_skip_empty(s, i);
    assert(s.remove(i) =~= scans_of(paths.remove(i), outputs.remove(i)));
}

} // verus!
