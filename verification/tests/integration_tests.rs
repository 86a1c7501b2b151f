use git_cli::config::Config;
use git_cli::errors::GitCliError;
use git_cli::git::GitService;
use git_cli::validation::ValidationService;

#[test]
fn test_config_load_default() {
    let config = Config::default();
    assert_eq!(config.general.default_emoji, "✨");
    assert_eq!(config.commit.max_title_length, 50);
    assert!(config.hooks.run_pre_commit);
}

#[test]
fn test_validation_service_emoji_suggestions() {
    let files = vec![
        "README.md".to_string(),
        "test_file.rs".to_string(),
        "style.css".to_string(),
    ];

    let suggestions = ValidationService::suggest_emoji_by_files(&files);

    assert!(suggestions.contains(&"📝")); // docs
    assert!(suggestions.contains(&"💄")); // style
}

#[test]
fn test_git_service_get_status_empty() {
    let git_service = GitService::new(true);

    // Test that debug mode is set correctly
    assert!(git_service.debug);
}

#[test]
fn test_git_cli_error_display() {
    let error = GitCliError::NotGitRepo;
    assert_eq!(error.message(), "Git repository not found");

    let error = GitCliError::InvalidEmoji;
    assert_eq!(error.message(), "Invalid emoji selected");
}

#[test]
fn test_git_cli_error_conversion() {
    let io_error = std::io::Error::new(std::io::ErrorKind::NotFound, "File not found");
    let cli_error: GitCliError = io_error.into();

    match cli_error {
        GitCliError::IoError(_) => (),
        _ => panic!("Expected IoError variant"),
    }
}
