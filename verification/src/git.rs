//! Repository reports: the status overview with its three buckets of changed
//! paths, and the short log.

use std::fmt::Write;
use vstd::prelude::*;
use vstd::string::*;
use crate::catalog::{registry_of, tool_descriptors, Tool};
use crate::dispatch::{concluded, dispatch, planned, result_text, unknown_tool, PlanView, ToolOutcome};
use crate::registry::{has_tool, tool_names_distinct, Registry, ToolDescriptor};
use crate::schema::{optional_field, text_argument, Arguments, FieldSpec, FieldView, Primitive, Schema, RawArguments};
use crate::text::{concat_all, decimal, lemma_concat_all_push, option_text, push_decimal, texts};

verus! {

/// Arguments of the repository tools.
#[derive(Clone, Debug, PartialEq, Eq)]
pub struct RepoPathParams {
    /// Where to look for the repository; the working directory when absent.
    pub path: Option<String>,
}

/// The schema of [`RepoPathParams`].
pub open spec fn repo_path_schema() -> Seq<FieldView> {
    seq![
        optional_field(
            "path"@,
            Primitive::Text,
            "Path to the git repository (defaults to current directory)"@,
        ),
    ]
}

impl RepoPathParams {
    /// The fields that the repository tools take.
    pub fn schema() -> (schema: Schema)
        ensures
            schema@ == repo_path_schema(),
    {
        Schema::single(
            FieldSpec::optional(
                "path",
                Primitive::Text,
                "Path to the git repository (defaults to current directory)",
            ),
        )
    }

    /// Reads the parameters from typed arguments: the path if one is given
    /// as text.
    pub fn from_arguments(args: &Arguments) -> (params: RepoPathParams)
        ensures
            option_text(params.path) == text_argument(args@, "path"@),
    {
        match args.text("path") {
            Some(p) => RepoPathParams { path: Some(p.clone()) },
            None => RepoPathParams { path: None },
        }
    }
}

/// What a report needs to know of one commit.
#[derive(Clone, Debug, PartialEq, Eq)]
pub struct CommitInfo {
    /// The full hexadecimal object id.
    pub id: String,
    /// First line of the message, when it is valid text.
    pub summary: Option<String>,
    /// Name of the author, when it is valid text.
    pub author: Option<String>,
    /// Commit time in seconds since the Unix epoch.
    pub seconds: i64,
}

/// Where `HEAD` points.
#[derive(Clone, Debug, PartialEq, Eq)]
pub enum HeadState {
    /// `HEAD` cannot be resolved: a repository without commits.
    Unborn,
    /// `HEAD` resolves to a reference.
    Attached { branch: Option<String>, commit: Option<CommitInfo> },
}

/// The status flags of one path.
#[derive(Clone, Debug, PartialEq, Eq)]
pub struct StatusEntry {
    pub path: Option<String>,
    pub index_new: bool,
    pub index_modified: bool,
    pub index_deleted: bool,
    pub wt_new: bool,
    pub wt_modified: bool,
    pub wt_deleted: bool,
}

/// The outcome of listing the working tree.
#[derive(Clone, Debug, PartialEq, Eq)]
pub enum WorkingTree {
    Listed(Vec<StatusEntry>),
    Unavailable(String),
}

/// Everything the status report is built from.
#[derive(Clone, Debug, PartialEq, Eq)]
pub struct RepoSnapshot {
    pub workdir: Option<String>,
    pub head: HeadState,
    pub tree: WorkingTree,
}

/// The three kinds of change the status report distinguishes.
#[derive(Clone, Copy, PartialEq, Eq, Debug, Structural)]
pub enum Bucket {
    Staged,
    Modified,
    Untracked,
}

/// The changed paths, by bucket, each in the order of the listing.
#[derive(Clone, Debug, PartialEq, Eq)]
pub struct ChangeBuckets {
    pub staged: Vec<String>,
    pub modified: Vec<String>,
    pub untracked: Vec<String>,
}

/// How many paths of a bucket are shown one by one.
pub const SHOWN_PER_BUCKET: usize = 5;

/// How many commits the log shows.
pub const LOG_LENGTH: usize = 10;

/// How many characters of an object id are shown.
pub const SHORT_ID_LENGTH: usize = 7;

/// The bucket of an entry: a change in the index makes it staged; failing
/// that, a modification or deletion in the working tree makes it modified;
/// failing that, a new file in the working tree makes it untracked. Entries
/// with none of these belong to no bucket.
pub open spec fn bucket_of(e: StatusEntry) -> Option<Bucket> {
    if e.index_new || e.index_modified || e.index_deleted {
        Some(Bucket::Staged)
    } else if e.wt_modified || e.wt_deleted {
        Some(Bucket::Modified)
    } else if e.wt_new {
        Some(Bucket::Untracked)
    } else {
        None
    }
}

/// The path under which an entry is shown.
pub open spec fn path_text(e: StatusEntry) -> Seq<char> {
    match e.path {
        Some(p) => p@,
        None => "?"@,
    }
}

/// The shown paths of the entries that fall into bucket `b`, in order.
pub open spec fn bucket_paths(entries: Seq<StatusEntry>, b: Bucket) -> Seq<Seq<char>> {
    entries.filter(|e: StatusEntry| bucket_of(e) == Some(b)).map_values(
        |e: StatusEntry| path_text(e),
    )
}

/// Computes [`bucket_of`].
pub fn classify(e: &StatusEntry) -> (b: Option<Bucket>)
    ensures
        b == bucket_of(*e),
{
    if e.index_new || e.index_modified || e.index_deleted {
        Some(Bucket::Staged)
    } else if e.wt_modified || e.wt_deleted {
        Some(Bucket::Modified)
    } else if e.wt_new {
        Some(Bucket::Untracked)
    } else {
        None
    }
}

/// The shown path of an entry as a fresh string.
pub fn shown_path(e: &StatusEntry) -> (p: String)
    ensures
        p@ == path_text(*e),
{
    match &e.path {
        Some(p) => p.clone(),
        None => String::from_str("?"),
    }
}

proof fn lemma_bucket_paths_push(entries: Seq<StatusEntry>, e: StatusEntry, b: Bucket)
    ensures
        bucket_paths(entries.push(e), b) == if bucket_of(e) == Some(b) {
            bucket_paths(entries, b).push(path_text(e))
        } else {
            bucket_paths(entries, b)
        },
{
    let pred = |x: StatusEntry| bucket_of(x) == Some(b);
    let shown = |x: StatusEntry| path_text(x);
    Seq::lemma_filter_push(entries, e, pred);
    let kept = entries.filter(pred);
    if bucket_of(e) == Some(b) {
        assert(kept.push(e).map_values(shown) =~= kept.map_values(shown).push(path_text(e)));
    }
}

/// Sorts every changed path into its bucket.
pub fn bucket_changes(entries: &Vec<StatusEntry>) -> (buckets: ChangeBuckets)
    ensures
        texts(buckets.staged@) == bucket_paths(entries@, Bucket::Staged),
        texts(buckets.modified@) == bucket_paths(entries@, Bucket::Modified),
        texts(buckets.untracked@) == bucket_paths(entries@, Bucket::Untracked),
{
    let mut staged: Vec<String> = Vec::new();
    let mut modified: Vec<String> = Vec::new();
    let mut untracked: Vec<String> = Vec::new();
    let mut i: usize = 0;
    assert(entries@.take(0) =~= Seq::<StatusEntry>::empty());
    assert(texts(staged@) =~= bucket_paths(entries@.take(0), Bucket::Staged));
    assert(texts(modified@) =~= bucket_paths(entries@.take(0), Bucket::Modified));
    assert(texts(untracked@) =~= bucket_paths(entries@.take(0), Bucket::Untracked));
    while i < entries.len()
        invariant
            i <= entries.len(),
            texts(staged@) == bucket_paths(entries@.take(i as int), Bucket::Staged),
            texts(modified@) == bucket_paths(entries@.take(i as int), Bucket::Modified),
            texts(untracked@) == bucket_paths(entries@.take(i as int), Bucket::Untracked),
        decreases entries.len() - i,
    {
        let e = &entries[i];
        proof {
            assert(entries@.take(i + 1) =~= entries@.take(i as int).push(*e));
            lemma_bucket_paths_push(entries@.take(i as int), *e, Bucket::Staged);
            lemma_bucket_paths_push(entries@.take(i as int), *e, Bucket::Modified);
            lemma_bucket_paths_push(entries@.take(i as int), *e, Bucket::Untracked);
        }
        let ghost staged_before = staged@;
        let ghost modified_before = modified@;
        let ghost untracked_before = untracked@;
        match classify(e) {
            Some(Bucket::Staged) => {
                let p = shown_path(e);
                staged.push(p);
                assert(texts(staged@) =~= texts(staged_before).push(path_text(*e)));
            },
            Some(Bucket::Modified) => {
                let p = shown_path(e);
                modified.push(p);
                assert(texts(modified@) =~= texts(modified_before).push(path_text(*e)));
            },
            Some(Bucket::Untracked) => {
                let p = shown_path(e);
                untracked.push(p);
                assert(texts(untracked@) =~= texts(untracked_before).push(path_text(*e)));
            },
            None => {},
        }
        i += 1;
    }
    assert(entries@.take(entries.len() as int) =~= entries@);
    ChangeBuckets { staged, modified, untracked }
}

/// The result of formatting a moment, given in whole seconds since the Unix
/// epoch and taken in UTC, by a `strftime`-like pattern: `None` where the
/// moment cannot be represented or the pattern cannot be rendered.
pub uninterp spec fn utc_formatted(seconds: int, pattern: Seq<char>) -> Option<Seq<char>>;

/// Calls `chrono::DateTime::from_timestamp(seconds, 0)` and renders the
/// outcome with `DateTime::format(pattern)`. Nothing is claimed of the text
/// beyond its being the one that these two calls determine; a moment out of
/// chrono's range and a pattern that its formatter rejects both give `None`.
#[verifier::external_body]
fn format_utc(seconds: i64, pattern: &str) -> (out: Option<String>)
    ensures
        option_text(out) == utc_formatted(seconds as int, pattern@),
{
    let mut rendered = String::new();
    match chrono::DateTime::from_timestamp(seconds, 0) {
        Some(moment) => match write!(rendered, "{}", moment.format(pattern)) {
            Ok(()) => Some(rendered),
            Err(_) => None,
        },
        None => None,
    }
}

/// The pattern by which commit times are shown.
pub open spec fn date_pattern() -> Seq<char> {
    "%Y-%m-%d %H:%M"@
}

/// The first characters of an object id, as many as are shown.
pub open spec fn short_id(id: Seq<char>) -> Seq<char> {
    if id.len() > SHORT_ID_LENGTH {
        id.take(SHORT_ID_LENGTH as int)
    } else {
        id
    }
}

/// The summary as shown: a placeholder when there is none.
pub open spec fn summary_text(c: CommitInfo) -> Seq<char> {
    match c.summary {
        Some(s) => s@,
        None => "(no message)"@,
    }
}

/// The author as shown: a placeholder when there is none.
pub open spec fn author_text(c: CommitInfo) -> Seq<char> {
    match c.author {
        Some(a) => a@,
        None => "unknown"@,
    }
}

/// The commit date as shown: a placeholder when it could not be rendered.
pub open spec fn date_text(rendered: Option<Seq<char>>) -> Seq<char> {
    match rendered {
        Some(d) => d,
        None => "unknown"@,
    }
}

/// The block that describes the last commit, given its rendered date.
pub open spec fn commit_section(c: CommitInfo, rendered: Option<Seq<char>>) -> Seq<char> {
    "\nLast Commit:\n  "@ + short_id(c.id@) + " - "@ + summary_text(c) + "\n  Author: "@
        + author_text(c) + "\n  Date: "@ + date_text(rendered) + "\n"@
}

/// The lines about the branch and the last commit.
pub open spec fn head_section(head: HeadState) -> Seq<char> {
    match head {
        HeadState::Unborn => "Branch: (no commits yet)\n"@,
        HeadState::Attached { branch, commit } => (match branch {
            Some(b) => "Branch: "@ + b@ + "\n"@,
            None => Seq::empty(),
        }) + (match commit {
            Some(c) => commit_section(c, utc_formatted(c.seconds as int, date_pattern())),
            None => Seq::empty(),
        }),
    }
}

/// One line per path: the prefix, the path, a line break.
pub open spec fn bucket_lines(prefix: Seq<char>, paths: Seq<Seq<char>>) -> Seq<char> {
    concat_all(paths.map_values(|p: Seq<char>| prefix + p + "\n"@))
}

/// The block of one bucket: nothing when it is empty; else the heading with
/// the count, the first paths, and a note of how many more there are.
pub open spec fn bucket_section(heading: Seq<char>, prefix: Seq<char>, paths: Seq<Seq<char>>) -> Seq<
    char,
> {
    if paths.len() == 0 {
        Seq::empty()
    } else if paths.len() <= SHOWN_PER_BUCKET {
        heading + decimal(paths.len()) + " file(s)\n"@ + bucket_lines(prefix, paths)
    } else {
        heading + decimal(paths.len()) + " file(s)\n"@ + bucket_lines(
            prefix,
            paths.take(SHOWN_PER_BUCKET as int),
        ) + "    ... and "@ + decimal((paths.len() - SHOWN_PER_BUCKET) as nat) + " more\n"@
    }
}

/// The block about the working tree.
pub open spec fn tree_section(tree: WorkingTree) -> Seq<char> {
    match tree {
        WorkingTree::Listed(entries) => {
            let staged = bucket_paths(entries@, Bucket::Staged);
            let modified = bucket_paths(entries@, Bucket::Modified);
            let untracked = bucket_paths(entries@, Bucket::Untracked);
            if staged.len() == 0 && modified.len() == 0 && untracked.len() == 0 {
                "\nWorking Tree:\n  Clean - nothing to commit\n"@
            } else {
                "\nWorking Tree:\n"@ + bucket_section("  Staged: "@, "    + "@, staged)
                    + bucket_section("  Modified: "@, "    M "@, modified) + bucket_section(
                    "  Untracked: "@,
                    "    ? "@,
                    untracked,
                )
            }
        },
        WorkingTree::Unavailable(reason) => "\nCould not get status: "@ + reason@ + "\n"@,
    }
}

/// The whole status report.
pub open spec fn status_report(repo: RepoSnapshot) -> Seq<char> {
    "Git Repository Status:\n\n"@ + (match repo.workdir {
        Some(dir) => "Repository: "@ + dir@ + "\n"@,
        None => Seq::empty(),
    }) + head_section(repo.head) + tree_section(repo.tree)
}

/// One line of the log.
pub open spec fn log_line(c: CommitInfo) -> Seq<char> {
    short_id(c.id@) + " "@ + author_text(c) + " - "@ + summary_text(c) + "\n"@
}

/// The log: the first commits, one line each, or a note that there are none.
pub open spec fn log_report(commits: Seq<CommitInfo>) -> Seq<char> {
    let shown = if commits.len() > LOG_LENGTH {
        commits.take(LOG_LENGTH as int)
    } else {
        commits
    };
    "Recent Commits:\n\n"@ + concat_all(shown.map_values(|c: CommitInfo| log_line(c))) + (
    if commits.len() == 0 {
        "No commits found.\n"@
    } else {
        Seq::empty()
    })
}

/// Appends the shown prefix of an object id.
pub fn push_short_id(out: &mut String, id: &String)
    ensures
        final(out)@ == old(out)@ + short_id(id@),
{
    let n = id.as_str().unicode_len();
    if n > SHORT_ID_LENGTH {
        out.append(id.as_str().substring_char(0, SHORT_ID_LENGTH));
    } else {
        out.append(id.as_str());
    }
}

/// Appends the rendered date, or the placeholder where there is none.
pub fn push_date(out: &mut String, rendered: &Option<String>)
    ensures
        final(out)@ == old(out)@ + date_text(option_text(*rendered)),
{
    match rendered {
        Some(d) => out.append(d.as_str()),
        None => out.append("unknown"),
    }
}

fn push_summary(out: &mut String, c: &CommitInfo)
    ensures
        final(out)@ == old(out)@ + summary_text(*c),
{
    match &c.summary {
        Some(s) => out.append(s.as_str()),
        None => out.append("(no message)"),
    }
}

fn push_author(out: &mut String, c: &CommitInfo)
    ensures
        final(out)@ == old(out)@ + author_text(*c),
{
    match &c.author {
        Some(a) => out.append(a.as_str()),
        None => out.append("unknown"),
    }
}

/// Appends the block about the last commit, given its rendered date.
pub fn push_commit_section(out: &mut String, c: &CommitInfo, rendered: &Option<String>)
    ensures
        final(out)@ == old(out)@ + commit_section(*c, option_text(*rendered)),
{
    let ghost before = out@;
    out.append("\nLast Commit:\n  ");
    push_short_id(out, &c.id);
    out.append(" - ");
    push_summary(out, c);
    out.append("\n  Author: ");
    push_author(out, c);
    out.append("\n  Date: ");
    push_date(out, rendered);
    out.append("\n");
    assert(out@ =~= before + commit_section(*c, option_text(*rendered)));
}

fn push_head_section(out: &mut String, head: &HeadState)
    ensures
        final(out)@ == old(out)@ + head_section(*head),
{
    let ghost before = out@;
    match head {
        HeadState::Unborn => {
            out.append("Branch: (no commits yet)\n");
        },
        HeadState::Attached { branch, commit } => {
            match branch {
                Some(b) => {
                    out.append("Branch: ");
                    out.append(b.as_str());
                    out.append("\n");
                },
                None => {},
            }
            match commit {
                Some(c) => {
                    let rendered = format_utc(c.seconds, "%Y-%m-%d %H:%M");
                    push_commit_section(out, c, &rendered);
                },
                None => {},
            }
            assert(out@ =~= before + head_section(*head));
        },
    }
}

fn push_bucket_lines(out: &mut String, prefix: &str, paths: &Vec<String>, shown: usize)
    requires
        shown <= paths.len(),
    ensures
        final(out)@ == old(out)@ + bucket_lines(prefix@, texts(paths@).take(shown as int)),
{
    let ghost before = out@;
    let ghost line = |p: Seq<char>| prefix@ + p + "\n"@;
    let mut i: usize = 0;
    assert(texts(paths@).take(0).map_values(line) =~= Seq::<Seq<char>>::empty());
    assert(out@ =~= before + bucket_lines(prefix@, texts(paths@).take(0)));
    while i < shown
        invariant
            i <= shown <= paths.len(),
            line == |p: Seq<char>| prefix@ + p + "\n"@,
            out@ == before + bucket_lines(prefix@, texts(paths@).take(i as int)),
        decreases shown - i,
    {
        let ghost sofar = out@;
        out.append(prefix);
        out.append(paths[i].as_str());
        out.append("\n");
        proof {
            let done = texts(paths@).take(i as int).map_values(line);
            assert(texts(paths@).take(i + 1).map_values(line) =~= done.push(line(paths@[i as int]@)));
            lemma_concat_all_push(done, line(paths@[i as int]@));
            assert(out@ =~= sofar + line(paths@[i as int]@));
            assert(out@ =~= before + bucket_lines(prefix@, texts(paths@).take(i + 1)));
        }
        i += 1;
    }
}

fn push_bucket_section(out: &mut String, heading: &str, prefix: &str, paths: &Vec<String>)
    ensures
        final(out)@ == old(out)@ + bucket_section(heading@, prefix@, texts(paths@)),
{
    let ghost before = out@;
    let n = paths.len();
    if n == 0 {
        assert(out@ =~= before + bucket_section(heading@, prefix@, texts(paths@)));
    } else if n <= SHOWN_PER_BUCKET {
        out.append(heading);
        push_decimal(out, n as u64);
        out.append(" file(s)\n");
        push_bucket_lines(out, prefix, paths, n);
        assert(texts(paths@).take(n as int) =~= texts(paths@));
        assert(out@ =~= before + bucket_section(heading@, prefix@, texts(paths@)));
    } else {
        out.append(heading);
        push_decimal(out, n as u64);
        out.append(" file(s)\n");
        push_bucket_lines(out, prefix, paths, SHOWN_PER_BUCKET);
        out.append("    ... and ");
        push_decimal(out, (n - SHOWN_PER_BUCKET) as u64);
        out.append(" more\n");
        assert(out@ =~= before + bucket_section(heading@, prefix@, texts(paths@)));
    }
}

fn push_tree_section(out: &mut String, tree: &WorkingTree)
    ensures
        final(out)@ == old(out)@ + tree_section(*tree),
{
    let ghost before = out@;
    match tree {
        WorkingTree::Listed(entries) => {
            let buckets = bucket_changes(entries);
            if buckets.staged.len() == 0 && buckets.modified.len() == 0 && buckets.untracked.len()
                == 0 {
                out.append("\nWorking Tree:\n  Clean - nothing to commit\n");
            } else {
                out.append("\nWorking Tree:\n");
                push_bucket_section(out, "  Staged: ", "    + ", &buckets.staged);
                push_bucket_section(out, "  Modified: ", "    M ", &buckets.modified);
                push_bucket_section(out, "  Untracked: ", "    ? ", &buckets.untracked);
                assert(out@ =~= before + tree_section(*tree));
            }
        },
        WorkingTree::Unavailable(reason) => {
            out.append("\nCould not get status: ");
            out.append(reason.as_str());
            out.append("\n");
            assert(out@ =~= before + tree_section(*tree));
        },
    }
}

/// The status report of a repository: where it is, the branch and last
/// commit, and the changed paths by bucket.
pub fn build_status_report(repo: &RepoSnapshot) -> (report: String)
    ensures
        report@ == status_report(*repo),
{
    let mut out = String::from_str("Git Repository Status:\n\n");
    match &repo.workdir {
        Some(dir) => {
            out.append("Repository: ");
            out.append(dir.as_str());
            out.append("\n");
        },
        None => {},
    }
    push_head_section(&mut out, &repo.head);
    push_tree_section(&mut out, &repo.tree);
    assert(out@ =~= status_report(*repo));
    out
}

/// The short log of the given commits, newest first as handed in.
pub fn build_log_report(commits: &Vec<CommitInfo>) -> (report: String)
    ensures
        report@ == log_report(commits@),
{
    let mut out = String::from_str("Recent Commits:\n\n");
    let ghost before = out@;
    let shown: usize = if commits.len() > LOG_LENGTH {
        LOG_LENGTH
    } else {
        commits.len()
    };
    let ghost line = |c: CommitInfo| log_line(c);
    let mut i: usize = 0;
    assert(commits@.take(0).map_values(line) =~= Seq::<Seq<char>>::empty());
    assert(out@ =~= before + concat_all(commits@.take(0).map_values(line)));
    while i < shown
        invariant
            i <= shown <= commits.len(),
            line == |c: CommitInfo| log_line(c),
            out@ == before + concat_all(commits@.take(i as int).map_values(line)),
        decreases shown - i,
    {
        let c = &commits[i];
        let ghost sofar = out@;
        push_short_id(&mut out, &c.id);
        out.append(" ");
        push_author(&mut out, c);
        out.append(" - ");
        push_summary(&mut out, c);
        out.append("\n");
        proof {
            let done = commits@.take(i as int).map_values(line);
            assert(commits@.take(i + 1).map_values(line) =~= done.push(log_line(*c)));
            lemma_concat_all_push(done, log_line(*c));
            assert(out@ =~= sofar + log_line(*c));
        }
        i += 1;
    }
    assert(commits@.len() <= LOG_LENGTH ==> commits@.take(shown as int) =~= commits@);
    if commits.len() == 0 {
        out.append("No commits found.\n");
    }
    assert(out@ =~= log_report(commits@));
    out
}

/// The tools of the repository server, in the order in which it lists them.
pub open spec fn git_tools() -> Seq<Tool> {
    seq![Tool::GitStatus, Tool::GitLog]
}

/// The server of the repository tools.
#[derive(Debug)]
pub struct GitServer {
    /// The tools of this server.
    pub tool_router: Registry<Tool>,
}

impl Default for GitServer {
    fn default() -> (server: GitServer)
        ensures
            server.tool_router.handlers() == git_tools(),
            server.tool_router.descriptors() == tool_descriptors(git_tools()),
    {
        GitServer::new()
    }
}

impl GitServer {
    /// The server with its tools registered.
    pub fn new() -> (server: GitServer)
        ensures
            server.tool_router.handlers() == git_tools(),
            server.tool_router.descriptors() == tool_descriptors(git_tools()),
    {
        let tools = vec![Tool::GitStatus, Tool::GitLog];
        assert(tools@ =~= git_tools());
        GitServer { tool_router: registry_of(&tools).unwrap() }
    }

    /// What the server says of itself.
    pub fn instructions(&self) -> (text: &'static str)
        ensures
            text@ == "Cross-platform Git repository information server"@,
    {
        "Cross-platform Git repository information server"
    }

    /// The descriptors of the server's tools, in order.
    pub fn list_tools(&self) -> (listed: Vec<&ToolDescriptor>)
        ensures
            listed@.len() == self.tool_router.descriptors().len(),
            forall|i: int|
                0 <= i < listed@.len() ==> (#[trigger] listed@[i])@
                    == self.tool_router.descriptors()[i],
            tool_names_distinct(self.tool_router.descriptors()),
    {
        self.tool_router.list()
    }

    /// Handles a call of one of the server's tools by name, running the
    /// tool through `run`.
    pub fn call_tool<F>(&self, run: &F, name: &str, raw: &RawArguments) -> (outcome: ToolOutcome) where
        F: Fn(&Tool, &Arguments) -> Result<String, String>,

        requires
            forall|tool: &Tool, args: &Arguments|
                self.tool_router.handlers().contains(*tool) ==> call_requires(run, (tool, args)),
        ensures
            match planned(self.tool_router.descriptors(), name@, raw@) {
                PlanView::Reject(rejection) => outcome@ == rejection,
                PlanView::Invoke(at, typed) => exists|args: Arguments, result: Result<String, String>|
                    args@ == typed && call_ensures(
                        run,
                        (&self.tool_router.handlers()[at], &args),
                        result,
                    ) && outcome@ == concluded(result_text(result)),
            },
            !has_tool(self.tool_router.descriptors(), name@) ==> outcome@ == unknown_tool(name@),
    {
        dispatch(&self.tool_router, run, name, raw)
    }
}

impl GitServer {
    /// The status report of a repository: where it is, the branch and last
    /// commit, and the changed paths by bucket.
    pub fn get_status(&self, repo: &RepoSnapshot) -> (report: String)
        ensures
            report@ == status_report(*repo),
    {
        build_status_report(repo)
    }

    /// The short log of the given commits, newest first as handed in.
    pub fn get_log(&self, commits: &Vec<CommitInfo>) -> (report: String)
        ensures
            report@ == log_report(commits@),
    {
        build_log_report(commits)
    }
}

} // verus!
