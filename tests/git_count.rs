use meeps::git::{
    commit_count_next, commit_count_start, commit_ref, count_from_stdout, repo_directory,
    rev_list_args, CountStep, GitRun, COMMIT_REF_CANDIDATES,
};

fn exited(success: bool, stdout: &[u8]) -> GitRun {
    GitRun::Exited { success, stdout: stdout.to_vec() }
}

/// Drives the count over the given runs, one per candidate tried.
fn drive(has_git_metadata: bool, runs: Vec<GitRun>) -> (Result<u32, String>, Vec<String>) {
    let mut tried = Vec::new();
    let mut runs = runs.into_iter();
    let mut step = commit_count_start(has_git_metadata);
    loop {
        match step {
            CountStep::Finished { result } => return (result, tried),
            CountStep::Run { candidate } => {
                tried.push(commit_ref(candidate).to_string());
                let run = runs.next().expect("a run for each candidate");
                step = commit_count_next(candidate, &run);
            }
        }
    }
}

#[test]
fn not_a_repository_is_refused_before_running_git() {
    let (result, tried) = drive(false, vec![exited(true, b"12\n")]);
    assert_eq!(result, Err("Not a git repository".to_string()));
    assert!(tried.is_empty());
}

#[test]
fn main_branch_is_counted_first() {
    let (result, tried) = drive(true, vec![exited(true, b"17\n")]);
    assert_eq!(result, Ok(17));
    assert_eq!(tried, vec!["main".to_string()]);
}

#[test]
fn master_is_counted_when_main_is_missing() {
    let (result, tried) = drive(
        true,
        vec![exited(false, b"fatal: ambiguous argument 'main'\n"), exited(true, b"42\n")],
    );
    assert_eq!(result, Ok(42));
    assert_eq!(tried, vec!["main".to_string(), "master".to_string()]);
}

#[test]
fn head_is_the_last_candidate() {
    let (result, tried) = drive(
        true,
        vec![exited(false, b""), exited(true, b"not a number"), exited(true, b"  7\r\n")],
    );
    assert_eq!(result, Ok(7));
    assert_eq!(tried, vec!["main".to_string(), "master".to_string(), "HEAD".to_string()]);
}

#[test]
fn all_candidates_failing_is_an_error() {
    let (result, tried) = drive(true, vec![exited(false, b""), exited(false, b""), exited(false, b"")]);
    assert_eq!(result, Err("Could not get commit count for main, master, or HEAD".to_string()));
    assert_eq!(tried.len(), COMMIT_REF_CANDIDATES);
}

#[test]
fn a_git_that_cannot_start_ends_the_count() {
    let (result, _) = drive(
        true,
        vec![GitRun::SpawnFailed { message: "program not found".to_string() }],
    );
    assert_eq!(result, Err("program not found".to_string()));
}

#[test]
fn stdout_is_decoded_and_trimmed() {
    assert_eq!(count_from_stdout(b"42\n"), Some(42));
    assert_eq!(count_from_stdout(b" \t1234 \n"), Some(1234));
    assert_eq!(count_from_stdout(b"0"), Some(0));
    assert_eq!(count_from_stdout(b""), None);
    assert_eq!(count_from_stdout(b"4\xff2"), None);
    assert_eq!(count_from_stdout(b"4294967295"), Some(u32::MAX));
    assert_eq!(count_from_stdout(b"4294967296"), None);
}

#[test]
fn repo_directory_is_trimmed() {
    assert_eq!(repo_directory(&Some("  /home/me/repo \n".to_string())), Some("/home/me/repo".to_string()));
    assert_eq!(repo_directory(&Some("   ".to_string())), None);
    assert_eq!(repo_directory(&Some(String::new())), None);
    assert_eq!(repo_directory(&None), None);
}

#[test]
fn rev_list_arguments() {
    assert_eq!(rev_list_args("master"), vec!["rev-list".to_string(), "--count".to_string(), "master".to_string()]);
}
