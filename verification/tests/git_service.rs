use git_cli::errors::GitCliError;
use git_cli::git::ChangeKind;
use git_cli::git::GitService;
use git_cli::git::ProcessOutcome;

fn exited(success: bool, stdout: &str, stderr: &str) -> ProcessOutcome {
    ProcessOutcome::Exited {
        success,
        stdout: stdout.to_string(),
        stderr: stderr.to_string(),
    }
}

fn spawn_failed() -> ProcessOutcome {
    ProcessOutcome::SpawnFailed("No such file or directory".to_string())
}

fn command_failure<T: std::fmt::Debug>(result: Result<T, GitCliError>) -> String {
    match result {
        Err(GitCliError::GitCommandFailed(text)) => text,
        other => panic!("expected a failed command, got {:?}", other),
    }
}

#[test]
fn test_git_service_new_keeps_the_flag() {
    assert!(!GitService::new(false).debug);
    assert!(GitService::new(true).debug);
}

#[test]
fn words_of_the_fixed_commands() {
    let git = GitService::new(false);
    assert_eq!(git.verify_git_initialized_args(), vec!["rev-parse", "--is-inside-work-tree"]);
    assert_eq!(git.get_status_args(), vec!["status", "--porcelain"]);
    assert_eq!(git.get_current_branch_args(), vec!["rev-parse", "--abbrev-ref", "HEAD"]);
    assert_eq!(git.local_head_args(), vec!["rev-parse", "HEAD"]);
    assert_eq!(git.stash_args(), vec!["stash"]);
    assert_eq!(git.stash_pop_args(), vec!["stash", "pop"]);
}

#[test]
fn words_of_the_add_command() {
    let git = GitService::new(false);
    assert_eq!(git.add_files_args(&vec![]), vec!["add", "."]);
    assert_eq!(
        git.add_files_args(&vec!["a.rs".to_string(), "dir/b c.rs".to_string()]),
        vec!["add", "a.rs", "dir/b c.rs"]
    );
}

#[test]
fn words_of_the_commit_command() {
    let git = GitService::new(false);
    assert_eq!(git.commit_args("\u{2728} feat: x", None), vec!["commit", "-m", "\u{2728} feat: x"]);
    assert_eq!(
        git.commit_args("t", Some("why\nso")),
        vec!["commit", "-m", "t", "-m", "why\nso"]
    );
    assert_eq!(git.commit_args("", None), vec!["commit", "-m"]);
    assert_eq!(git.commit_args("t", Some("")), vec!["commit", "-m", "t", "-m"]);
}

#[test]
fn words_of_the_commands_that_name_a_branch() {
    let git = GitService::new(false);
    assert_eq!(git.fetch_origin_args("main"), vec!["fetch", "origin", "main"]);
    assert_eq!(git.fetch_origin_args(""), vec!["fetch", "origin", ""]);
    assert_eq!(git.remote_head_args("main"), vec!["rev-parse", "origin/main"]);
    assert_eq!(git.pull_args("main", true), vec!["pull", "--rebase", "origin", "main"]);
    assert_eq!(git.pull_args("main", false), vec!["pull", "origin", "main"]);
    assert_eq!(git.pull_args("", true), vec!["pull", "--rebase", "origin"]);
    assert_eq!(git.push_args("feature/x"), vec!["push", "origin", "feature/x"]);
    assert_eq!(git.push_args(""), vec!["push", "origin"]);
}

#[test]
fn words_of_the_log_command() {
    let git = GitService::new(false);
    assert_eq!(git.get_recent_commits_args(5), vec!["log", "--oneline", "-5"]);
    assert_eq!(git.get_recent_commits_args(12), vec!["log", "--oneline", "-12"]);
    assert_eq!(git.get_recent_commits_args(0), vec!["log", "--oneline", "-0"]);
}

#[test]
fn repository_is_found_by_the_word_true() {
    let git = GitService::new(false);
    assert!(git.verify_git_initialized(&exited(true, "true\n", "")).is_ok());
    assert!(git.verify_git_initialized(&exited(false, "true", "")).is_ok());
    assert!(matches!(
        git.verify_git_initialized(&exited(true, "false\n", "")),
        Err(GitCliError::NotGitRepo)
    ));
    assert!(matches!(
        git.verify_git_initialized(&exited(false, "", "fatal: not a git repository")),
        Err(GitCliError::NotGitRepo)
    ));
    assert!(matches!(
        git.verify_git_initialized(&exited(true, " true", "")),
        Err(GitCliError::NotGitRepo)
    ));
    assert_eq!(
        command_failure(git.verify_git_initialized(&spawn_failed())),
        "Failed to execute git command: No such file or directory"
    );
}

#[test]
fn status_is_read_whatever_the_exit() {
    let git = GitService::new(false);
    let changes = git.get_status(&exited(false, "M  a\n?? b\n", "")).unwrap();
    assert_eq!(changes.len(), 2);
    assert_eq!(changes[0].kind, ChangeKind::Modified);
    assert_eq!(changes[1].path, "b");
    assert!(git.get_status(&exited(true, "", "")).unwrap().is_empty());
    assert_eq!(
        command_failure(git.get_status(&spawn_failed())),
        "Failed to get git status: No such file or directory"
    );
}

#[test]
fn staging_fails_with_what_the_program_said() {
    let git = GitService::new(false);
    assert!(git.add_files(&exited(true, "", "warning")).is_ok());
    assert_eq!(
        command_failure(git.add_files(&exited(false, "out", "fatal: pathspec"))),
        "Git add failed: fatal: pathspec"
    );
    assert_eq!(
        command_failure(git.add_files(&spawn_failed())),
        "Failed to stage files: No such file or directory"
    );
}

#[test]
fn refused_commit_is_no_failure() {
    let git = GitService::new(false);
    assert_eq!(git.commit(&exited(true, "", "")).unwrap(), true);
    assert_eq!(git.commit(&exited(false, "", "hook failed")).unwrap(), false);
    assert_eq!(
        command_failure(git.commit(&spawn_failed())),
        "Failed to commit changes: No such file or directory"
    );
    assert_eq!(
        command_failure(git.commit(&ProcessOutcome::WaitFailed("interrupted".to_string()))),
        "Failed to wait on child: interrupted"
    );
}

#[test]
fn branch_name_is_trimmed() {
    let git = GitService::new(false);
    assert_eq!(git.get_current_branch(&exited(true, "main\n", "")).unwrap(), "main");
    assert_eq!(git.get_current_branch(&exited(true, "  feature/x \r\n", "")).unwrap(), "feature/x");
    assert_eq!(
        command_failure(git.get_current_branch(&exited(false, "HEAD", "fatal: bad"))),
        "Failed to get branch: fatal: bad"
    );
    assert_eq!(
        command_failure(git.get_current_branch(&spawn_failed())),
        "Failed to get current branch: No such file or directory"
    );
}

#[test]
fn fetch_and_stash_report_the_error_stream() {
    let git = GitService::new(false);
    assert!(git.fetch_origin(&exited(true, "", "")).is_ok());
    assert_eq!(
        command_failure(git.fetch_origin(&exited(false, "o", "no remote"))),
        "Fetch failed: no remote"
    );
    assert_eq!(
        command_failure(git.fetch_origin(&spawn_failed())),
        "Failed to fetch: No such file or directory"
    );
    assert!(git.stash(&exited(true, "", "")).is_ok());
    assert_eq!(command_failure(git.stash(&exited(false, "o", "e"))), "Stash failed: e");
    assert_eq!(
        command_failure(git.stash(&spawn_failed())),
        "Failed to stash: No such file or directory"
    );
    assert!(git.stash_pop(&exited(true, "", "")).is_ok());
    assert_eq!(command_failure(git.stash_pop(&exited(false, "o", "e"))), "Stash pop failed: e");
    assert_eq!(
        command_failure(git.stash_pop(&spawn_failed())),
        "Failed to pop stash: No such file or directory"
    );
}

#[test]
fn pull_and_push_report_both_streams() {
    let git = GitService::new(false);
    assert!(git.pull(&exited(true, "", "")).is_ok());
    assert_eq!(
        command_failure(git.pull(&exited(false, "out\n", "err\n"))),
        "Pull failed: out\n\nerr\n"
    );
    assert_eq!(
        command_failure(git.pull(&spawn_failed())),
        "Failed to pull changes: No such file or directory"
    );
    assert!(git.push(&exited(true, "", "")).is_ok());
    assert_eq!(command_failure(git.push(&exited(false, "", "rejected"))), "Push failed: \nrejected");
    assert_eq!(
        command_failure(git.push(&spawn_failed())),
        "Failed to push commits: No such file or directory"
    );
    assert_eq!(
        command_failure(git.push(&ProcessOutcome::WaitFailed("gone".to_string()))),
        "Failed to wait on child: gone"
    );
}

#[test]
fn heads_are_compared_as_written() {
    let git = GitService::new(false);
    let local = git.local_head(&exited(true, "abc123\n", "")).unwrap();
    assert_eq!(local, "abc123\n");
    assert_eq!(git.has_remote_changes(&local, &exited(true, "abc123\n", "")).unwrap(), false);
    assert_eq!(git.has_remote_changes(&local, &exited(true, "def456\n", "")).unwrap(), true);
    assert_eq!(git.has_remote_changes(&local, &exited(false, "", "unknown")).unwrap(), true);
    assert_eq!(
        command_failure(git.local_head(&spawn_failed())),
        "Failed to get local commit: No such file or directory"
    );
    assert_eq!(
        command_failure(git.has_remote_changes(&local, &spawn_failed())),
        "Failed to get remote commit: No such file or directory"
    );
}

#[test]
fn recent_commits_come_one_per_line() {
    let git = GitService::new(false);
    assert_eq!(
        git.get_recent_commits(&exited(true, "abc one\ndef two\n", "")).unwrap(),
        vec!["abc one", "def two"]
    );
    assert!(git.get_recent_commits(&exited(true, "", "")).unwrap().is_empty());
    assert_eq!(
        command_failure(git.get_recent_commits(&exited(false, "", "bad revision"))),
        "Get commits failed: bad revision"
    );
    assert_eq!(
        command_failure(git.get_recent_commits(&spawn_failed())),
        "Failed to get commits: No such file or directory"
    );
}

#[test]
fn failures_of_the_process_itself() {
    let outcome = ProcessOutcome::SpawnFailed("why".to_string());
    assert!(matches!(
        outcome.launch_failure("Trying"),
        Some(GitCliError::GitCommandFailed(text)) if text == "Trying: why"
    ));
    assert!(exited(false, "", "").launch_failure("Trying").is_none());
    assert!(exited(true, "", "").failure("Trying", "Refused: ", false).is_none());
    assert!(matches!(
        exited(false, "o", "e").failure("Trying", "Refused: ", false),
        Some(GitCliError::GitCommandFailed(text)) if text == "Refused: e"
    ));
    assert!(matches!(
        exited(false, "o", "e").failure("Trying", "Refused: ", true),
        Some(GitCliError::GitCommandFailed(text)) if text == "Refused: o\ne"
    ));
}
