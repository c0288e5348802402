use vstd::prelude::*;
use crate::text::{
    decode_utf8_lossy, option_string_view, parse_u32, parsed_u32, trim_whitespace, trimmed,
    utf8_lossy,
};

verus! {

/// How many references are tried, in order, when counting commits.
pub const COMMIT_REF_CANDIDATES: usize = 3;

pub open spec fn not_a_repository_message() -> Seq<char> {
    "Not a git repository"@
}

pub open spec fn candidates_exhausted_message() -> Seq<char> {
    "Could not get commit count for main, master, or HEAD"@
}

/// The reference tried at each position: `main`, then `master`, then `HEAD`.
pub open spec fn candidate_ref(index: nat) -> Seq<char> {
    if index == 0 {
        "main"@
    } else if index == 1 {
        "master"@
    } else {
        "HEAD"@
    }
}

/// The working directory that was asked for: the given path, trimmed, unless
/// nothing is left of it, in which case the process's current directory is used
/// (`None`).
pub open spec fn requested_directory(repo_path: Option<Seq<char>>) -> Option<Seq<char>> {
    match repo_path {
        Some(p) => if trimmed(p).len() > 0 {
            Some(trimmed(p))
        } else {
            None
        },
        None => None,
    }
}

/// Resolves the directory in which commits are counted; `None` stands for the
/// current directory.
pub fn repo_directory(repo_path: &Option<String>) -> (r: Option<String>)
    ensures
        option_string_view(r) == requested_directory(option_string_view(*repo_path)),
{
    match repo_path {
        Some(p) => {
            let t = trim_whitespace(p.as_str());
            if t.is_empty() {
                None
            } else {
                Some(t.to_owned())
            }
        },
        None => None,
    }
}

/// The reference tried at a position of the candidate order.
pub fn commit_ref(index: usize) -> (r: &'static str)
    requires
        index < COMMIT_REF_CANDIDATES,
    ensures
        r@ == candidate_ref(index as nat),
{
    if index == 0 {
        "main"
    } else if index == 1 {
        "master"
    } else {
        "HEAD"
    }
}

/// The arguments given to `git` to count the commits reachable from a reference.
pub fn rev_list_args(reference: &str) -> (r: Vec<String>)
    ensures
        r@.len() == 3,
        r@[0]@ == "rev-list"@,
        r@[1]@ == "--count"@,
        r@[2]@ == reference@,
{
    let mut args: Vec<String> = Vec::new();
    args.push("rev-list".to_owned());
    args.push("--count".to_owned());
    args.push(reference.to_owned());
    args
}

/// The count that `git rev-list --count` printed: its standard output decoded,
/// trimmed and read as a `u32`.
pub open spec fn printed_count(stdout: Seq<u8>) -> Option<u32> {
    parsed_u32(trimmed(utf8_lossy(stdout)))
}

/// Reads the count from the standard output of `git rev-list --count`.
pub fn count_from_stdout(stdout: &[u8]) -> (r: Option<u32>)
    ensures
        r == printed_count(stdout@),
{
    let text = decode_utf8_lossy(stdout);
    let t = trim_whitespace(text.as_str());
    parse_u32(t)
}

/// What came of one run of `git` for a candidate reference.
pub enum GitRun {
    /// The process could not be started.
    SpawnFailed { message: String },
    /// The process ran to its end.
    Exited { success: bool, stdout: Vec<u8> },
}

/// The next thing to do while counting commits.
pub enum CountStep {
    /// Run `git` for the candidate reference at this position.
    Run { candidate: usize },
    /// Counting is over, with this result.
    Finished { result: Result<u32, String> },
}

/// The meaning of a [`CountStep`].
pub enum CountStepView {
    Run(nat),
    Finished(Result<u32, Seq<char>>),
}

impl View for CountStep {
    type V = CountStepView;

    open spec fn view(&self) -> CountStepView {
        match self {
            CountStep::Run { candidate } => CountStepView::Run(*candidate as nat),
            CountStep::Finished { result } => CountStepView::Finished(
                match result {
                    Ok(n) => Ok(*n),
                    Err(e) => Err(e@),
                },
            ),
        }
    }
}

/// The first step: a directory without version-control metadata is refused before
/// anything is run; otherwise the first candidate is tried.
pub open spec fn start_step(has_git_metadata: bool) -> CountStepView {
    if has_git_metadata {
        CountStepView::Run(0)
    } else {
        CountStepView::Finished(Err(not_a_repository_message()))
    }
}

/// The step after the run for the candidate at `candidate`: a process that could
/// not start ends the count with its message; a successful run whose output reads
/// as a count ends it with that count; anything else moves on to the next
/// candidate, and past the last one the count fails.
pub open spec fn step_after(candidate: nat, run: GitRun) -> CountStepView {
    match run {
        GitRun::SpawnFailed { message } => CountStepView::Finished(Err(message@)),
        GitRun::Exited { success, stdout } => if success && printed_count(stdout@) is Some {
            CountStepView::Finished(Ok(printed_count(stdout@)->0))
        } else if candidate + 1 < COMMIT_REF_CANDIDATES {
            CountStepView::Run(candidate + 1)
        } else {
            CountStepView::Finished(Err(candidates_exhausted_message()))
        },
    }
}

/// Where counting stands when the runs `runs` are fed in order, starting at `step`.
pub open spec fn count_after(step: CountStepView, runs: Seq<GitRun>) -> CountStepView
    decreases runs.len(),
{
    match step {
        CountStepView::Run(candidate) => if runs.len() == 0 {
            step
        } else {
            count_after(step_after(candidate, runs[0]), runs.drop_first())
        },
        CountStepView::Finished(_) => step,
    }
}

/// Where counting a directory's commits stands after the runs `runs`.
pub open spec fn commit_count_outcome(has_git_metadata: bool, runs: Seq<GitRun>) -> CountStepView {
    count_after(start_step(has_git_metadata), runs)
}

/// Begins counting commits, given whether the directory holds version-control
/// metadata.
pub fn commit_count_start(has_git_metadata: bool) -> (r: CountStep)
    ensures
        r@ == start_step(has_git_metadata),
{
    if has_git_metadata {
        CountStep::Run { candidate: 0 }
    } else {
        CountStep::Finished { result: Err("Not a git repository".to_owned()) }
    }
}

/// Goes on counting commits after the run for the candidate at `candidate`.
pub fn commit_count_next(candidate: usize, run: &GitRun) -> (r: CountStep)
    requires
        candidate < COMMIT_REF_CANDIDATES,
    ensures
        r@ == step_after(candidate as nat, *run),
{
    match run {
        GitRun::SpawnFailed { message } => CountStep::Finished { result: Err(message.clone()) },
        GitRun::Exited { success, stdout } => {
            let counted = if *success {
                count_from_stdout(stdout.as_slice())
            } else {
                None
            };
            match counted {
                Some(n) => CountStep::Finished { result: Ok(n) },
                None => if candidate + 1 < COMMIT_REF_CANDIDATES {
                    CountStep::Run { candidate: candidate + 1 }
                } else {
                    CountStep::Finished {
                        result: Err(
                            "Could not get commit count for main, master, or HEAD".to_owned(),
                        ),
                    }
                },
            }
        },
    }
}

/// A directory without version-control metadata gives the "Not a git repository"
/// failure whatever `git` would have printed, and never a count.
pub proof fn lemma_not_a_repository_never_counts(runs: Seq<GitRun>)
    ensures
        commit_count_outcome(false, runs) == CountStepView::Finished(
            Err::<u32, Seq<char>>(not_a_repository_message()),
        ),
{
    assert(start_step(false) == CountStepView::Finished(
        Err::<u32, Seq<char>>(not_a_repository_message()),
    ));
}

/// In a repository whose `main` reference does not resolve, the count of `master`
/// is returned: a run for `main` that exits without a readable count falls back to
/// the next candidate.
pub proof fn lemma_falls_back_to_master(main_run: GitRun, master_run: GitRun, n: u32)
    requires
        main_run matches GitRun::Exited { success, stdout } && (!success || printed_count(stdout@) is None),
        master_run matches GitRun::Exited { success, stdout } && success && printed_count(stdout@) == Some(n),
    ensures
        commit_count_outcome(true, seq![main_run, master_run]) == CountStepView::Finished(
            Ok::<u32, Seq<char>>(n),
        ),
{
    let runs = seq![main_run, master_run];
    assert(step_after(0, main_run) == CountStepView::Run(1));
    assert(runs.drop_first() =~= seq![master_run]);
    assert(seq![master_run].drop_first() =~= Seq::<GitRun>::empty());
    assert(runs[0] == main_run);
    assert(seq![master_run][0] == master_run);
    assert(step_after(1, master_run) == CountStepView::Finished(Ok::<u32, Seq<char>>(n)));
    assert(count_after(CountStepView::Run(1), seq![master_run]) == count_after(
        step_after(1, master_run),
        Seq::<GitRun>::empty(),
    ));
    assert(count_after(CountStepView::Run(0), runs) == count_after(
        CountStepView::Run(1),
        seq![master_run],
    ));
}

} // verus!
