use git_cli::config::Config;
use git_cli::errors::GitCliError;
use git_cli::errors::ValidationError;
use git_cli::git::Change;
use git_cli::git::ChangeKind;
use git_cli::ui::file_topic;
use git_cli::ui::survey;
use git_cli::ui::FileTopic;
use git_cli::ui::Suggestion;
use git_cli::ui::UIService;
use git_cli::validation::file_hint;
use git_cli::validation::Hint;
use git_cli::validation::ValidationService;

fn service(enforce_conventional: bool, max_title_length: usize) -> UIService {
    let mut config = Config::default();
    config.commit.enforce_conventional = enforce_conventional;
    config.commit.max_title_length = max_title_length;
    UIService::new(config)
}

fn validation_text(result: Result<(), GitCliError>) -> String {
    match result {
        Err(GitCliError::ValidationError(text)) => text,
        other => panic!("expected a validation failure, got {:?}", other),
    }
}

const NOT_CONVENTIONAL: &str = "Must follow conventional commit format: type(scope): description\nValid types: feat, fix, docs, style, refactor, test, chore, perf, ci, build, revert\nExamples:\n\u{2022} feat: add user authentication\n\u{2022} fix(ui): resolve button alignment\n\u{2022} docs: update installation guide";

#[test]
fn conventional_title_within_limit_is_valid() {
    let ui = service(true, 50);
    assert!(ui.validate_commit_title("fix: correct null check").is_ok());
    assert!(ui.title_violations("fix: correct null check").is_empty());
}

#[test]
fn title_of_sixty_characters_is_too_long_only() {
    let ui = service(false, 50);
    let title = "a".repeat(60);
    assert_eq!(ui.title_violations(&title), vec![ValidationError::TitleTooLong]);
    assert_eq!(
        validation_text(ui.validate_commit_title(&title)),
        "Title is 60 characters (max 50)"
    );
}

#[test]
fn validating_twice_gives_the_same_verdict() {
    let ui = service(true, 50);
    for title in ["fix: correct null check", "feat(ui): x", "docs: d"] {
        assert!(ui.validate_commit_title(title).is_ok());
        assert!(ui.validate_commit_title(title).is_ok());
        assert!(ui.title_violations(title).is_empty());
    }
    let bad = "Fix stuff";
    let first = validation_text(ui.validate_commit_title(bad));
    let second = validation_text(ui.validate_commit_title(bad));
    assert_eq!(first, second);
}

#[test]
fn title_length_is_counted_in_bytes_and_the_limit_is_inclusive() {
    let ui = service(false, 5);
    assert!(ui.validate_commit_title("abcde").is_ok());
    assert!(ui.validate_commit_title("").is_ok());
    assert_eq!(
        validation_text(ui.validate_commit_title("abcdef")),
        "Title is 6 characters (max 5)"
    );
    assert_eq!(
        validation_text(ui.validate_commit_title("\u{e9}\u{e9}\u{e9}")),
        "Title is 6 characters (max 5)"
    );
}

#[test]
fn unconventional_title_is_told_the_format() {
    let ui = service(true, 50);
    assert_eq!(
        ui.title_violations("Fix stuff"),
        vec![ValidationError::NotConventionalCommit]
    );
    assert_eq!(validation_text(ui.validate_commit_title("Fix stuff")), NOT_CONVENTIONAL);
}

#[test]
fn both_violations_are_reported_together() {
    let ui = service(true, 10);
    let title = "this is not conventional";
    assert_eq!(
        ui.title_violations(title),
        vec![ValidationError::TitleTooLong, ValidationError::NotConventionalCommit]
    );
    assert_eq!(
        validation_text(ui.validate_commit_title(title)),
        format!("Title is 24 characters (max 10)\n\n{}", NOT_CONVENTIONAL)
    );
}

#[test]
fn every_conventional_type_is_known_in_both_forms() {
    let ui = service(true, 50);
    for kind in [
        "feat", "fix", "docs", "style", "refactor", "test", "chore", "perf", "ci", "build",
        "revert",
    ] {
        assert!(ui.is_conventional_commit(&format!("{}: x", kind)), "{}", kind);
        assert!(ui.is_conventional_commit(&format!("{}(scope): x", kind)), "{}", kind);
        assert!(!ui.is_conventional_commit(&format!("{}:x", kind)), "{}", kind);
        assert!(!ui.is_conventional_commit(&format!("{} : x", kind)), "{}", kind);
        assert!(!ui.is_conventional_commit(kind), "{}", kind);
    }
    assert!(!ui.is_conventional_commit(""));
    assert!(!ui.is_conventional_commit("Feat: x"));
    assert!(!ui.is_conventional_commit("feature: x"));
    assert!(!ui.is_conventional_commit(" feat: x"));
    assert!(ui.is_conventional_commit("feat: "));
    assert!(ui.is_conventional_commit("fix("));
}

#[test]
fn format_is_not_asked_for_unless_enforced() {
    let ui = service(false, 50);
    assert!(ui.validate_commit_title("Fix stuff").is_ok());
}

#[test]
fn empty_title_is_turned_away_before_the_commit() {
    let ui = service(false, 50);
    assert!(ui.validate_commit_title("").is_ok());
    assert_eq!(validation_text(ui.check_title("")), "Title cannot be empty");
    assert!(ui.check_title("x").is_ok());
    let strict = service(true, 50);
    assert_eq!(validation_text(strict.check_title("x")), NOT_CONVENTIONAL);
}

#[test]
fn body_lines_are_measured_one_by_one() {
    let mut config = Config::default();
    config.commit.max_body_length = 10;
    let ui = UIService::new(config);
    assert!(ui.validate_commit_body("").is_ok());
    assert!(ui.validate_commit_body("0123456789").is_ok());
    assert!(ui.validate_commit_body("0123456789\n0123456789\n").is_ok());
    assert!(ui.validate_commit_body("0123456789\r\nshort").is_ok());
    assert_eq!(
        validation_text(ui.validate_commit_body("0123456789a")),
        "Body lines should be 72 characters or less"
    );
    assert_eq!(
        validation_text(ui.validate_commit_body("ok\n0123456789a\nok")),
        "Body lines should be 72 characters or less"
    );
    assert!(ui.validate_commit_body("\u{e9}\u{e9}\u{e9}\u{e9}\u{e9}").is_ok());
    assert!(ui.validate_commit_body("\u{e9}\u{e9}\u{e9}\u{e9}\u{e9}x").is_err());
}

#[test]
fn first_character_is_put_in_upper_case() {
    let ui = service(false, 50);
    assert_eq!(ui.format_string_to_title("fix the bug".to_string()), "Fix the bug");
    assert_eq!(ui.format_string_to_title("Fix".to_string()), "Fix");
    assert_eq!(ui.format_string_to_title("".to_string()), "");
    assert_eq!(ui.format_string_to_title("1st".to_string()), "1st");
    assert_eq!(ui.format_string_to_title("\u{e9}t\u{e9}".to_string()), "\u{c9}t\u{e9}");
    assert_eq!(ui.format_string_to_title("\u{df}a".to_string()), "SSa");
}

#[test]
fn entered_title_is_formatted_then_validated() {
    let ui = service(false, 10);
    assert_eq!(ui.get_commit_title("fix it".to_string()).unwrap(), "Fix it");
    assert_eq!(
        validation_text(ui.get_commit_title("".to_string()).map(|_| ())),
        "Title cannot be empty"
    );
    assert_eq!(
        validation_text(ui.get_commit_title("this is too long".to_string()).map(|_| ())),
        "Title is 16 characters (max 10)"
    );
    let mut config = Config::default();
    config.commit.auto_capitalize_title = false;
    config.commit.enforce_conventional = true;
    let plain = UIService::new(config);
    assert_eq!(plain.get_commit_title("fix: it".to_string()).unwrap(), "fix: it");
    assert_eq!(plain.format_entry("fix: it".to_string()), "fix: it");
}

#[test]
fn entered_body_may_be_blank() {
    let mut config = Config::default();
    config.commit.max_body_length = 10;
    let ui = UIService::new(config);
    assert_eq!(ui.get_commit_message("".to_string()).unwrap(), None);
    assert_eq!(ui.get_commit_message("  \n\t ".to_string()).unwrap(), None);
    assert_eq!(
        ui.get_commit_message("why\nnot".to_string()).unwrap(),
        Some("Why\nnot".to_string())
    );
    assert_eq!(
        validation_text(ui.get_commit_message("far too long a line".to_string()).map(|_| ())),
        "Body lines should be 72 characters or less"
    );
}

fn change(kind: ChangeKind, path: &str) -> Change {
    Change { kind, path: path.to_string() }
}

fn placeholder(enforce: bool, changes: &[Change]) -> String {
    service(enforce, 50).generate_smart_placeholder(changes)
}

#[test]
fn placeholder_by_category() {
    let m = ChangeKind::Modified;
    let a = ChangeKind::Added;
    assert_eq!(placeholder(true, &[change(m, "Cargo.toml")]), "chore: update dependencies");
    assert_eq!(
        placeholder(true, &[change(m, "README.md"), change(a, "web/package.json")]),
        "chore: update dependencies"
    );
    assert_eq!(placeholder(true, &[change(m, "README.md")]), "docs: update documentation");
    assert_eq!(placeholder(true, &[change(m, "docs/guide.rst")]), "docs: update documentation");
    assert_eq!(
        placeholder(true, &[change(m, "README.md"), change(m, "src/parser_test.rs")]),
        "test: add unit tests"
    );
    assert_eq!(placeholder(true, &[change(m, "src/spec_helper.rb")]), "test: add unit tests");
    assert_eq!(placeholder(true, &[change(m, "config.yml")]), "chore: update configuration");
    assert_eq!(
        placeholder(true, &[change(a, "settings.json")]),
        "chore: update configuration"
    );
    assert_eq!(placeholder(true, &[change(m, "site.css")]), "style: improve UI components");
    assert_eq!(placeholder(true, &[change(m, "src/gui.rs")]), "style: improve UI components");
    assert_eq!(placeholder(true, &[change(a, "src/lib.rs")]), "feat: add new feature");
    assert_eq!(
        placeholder(true, &[change(a, "README.md")]),
        "feat: add new feature"
    );
    assert_eq!(
        placeholder(true, &[change(a, "src/parser_test.rs")]),
        "feat: add new feature"
    );
    assert_eq!(placeholder(true, &[change(m, "src/lib.rs")]), "fix: resolve issue");
    assert_eq!(placeholder(true, &[]), "fix: resolve issue");
}

#[test]
fn placeholder_without_the_type() {
    let m = ChangeKind::Modified;
    let a = ChangeKind::Added;
    assert_eq!(placeholder(false, &[change(m, "Cargo.toml")]), "update dependencies");
    assert_eq!(placeholder(false, &[change(m, "README.md")]), "update documentation");
    assert_eq!(placeholder(false, &[change(m, "a_test.rs")]), "add unit tests");
    assert_eq!(placeholder(false, &[change(m, "config.yml")]), "update configuration");
    assert_eq!(placeholder(false, &[change(m, "site.css")]), "improve UI components");
    assert_eq!(placeholder(false, &[change(a, "src/lib.rs")]), "add new feature");
    assert_eq!(placeholder(false, &[change(m, "src/lib.rs")]), "resolve issue");
}

#[test]
fn placeholder_looks_at_names_in_lower_case() {
    let m = ChangeKind::Modified;
    assert_eq!(placeholder(true, &[change(m, "README.MD")]), "docs: update documentation");
    assert_eq!(placeholder(true, &[change(m, "Docs/ReadMe")]), "docs: update documentation");
    assert_eq!(placeholder(true, &[change(m, "SITE.CSS")]), "style: improve UI components");
}

#[test]
fn topics_of_lower_case_names() {
    assert_eq!(file_topic("cargo.toml"), FileTopic::Dependencies);
    assert_eq!(file_topic("web/package.json.bak"), FileTopic::Dependencies);
    assert_eq!(file_topic("readme"), FileTopic::Docs);
    assert_eq!(file_topic("a.md"), FileTopic::Docs);
    assert_eq!(file_topic("test.md"), FileTopic::Docs);
    assert_eq!(file_topic("test.json"), FileTopic::Tests);
    assert_eq!(file_topic("inspector.rs"), FileTopic::Tests);
    assert_eq!(file_topic("a.toml"), FileTopic::Config);
    assert_eq!(file_topic("a.yaml"), FileTopic::Other);
    assert_eq!(file_topic("build.rs"), FileTopic::Ui);
    assert_eq!(file_topic("a.scss"), FileTopic::Ui);
    assert_eq!(file_topic("main.rs"), FileTopic::Other);
    assert_eq!(file_topic("README.md"), FileTopic::Docs);
    assert_eq!(file_topic("README"), FileTopic::Other);
    assert_eq!(file_topic(""), FileTopic::Other);
}

#[test]
fn findings_lead_to_the_suggestion() {
    let m = ChangeKind::Modified;
    let found = survey(&[change(m, "a.md"), change(ChangeKind::Added, "b_test.rs")]);
    assert!(found.docs);
    assert!(found.tests);
    assert!(found.added);
    assert!(!found.dependencies);
    assert!(!found.config);
    assert!(!found.ui);
    assert_eq!(found.suggest(), Suggestion::Feature);
    assert_eq!(Suggestion::Tests.render(true), "test: add unit tests");
    assert_eq!(Suggestion::Tests.render(false), "add unit tests");
}

fn names(files: &[&str]) -> Vec<String> {
    files.iter().map(|f| f.to_string()).collect()
}

#[test]
fn emoji_suggestions_are_sorted_and_distinct() {
    let files = names(&[
        "README.md",
        "notes.txt",
        "test_file.rs",
        "style.css",
        "theme.sass",
        "config.yaml",
        "Dockerfile",
        "auth.rs",
        "perf.rs",
        "other.rs",
    ]);
    let suggestions = ValidationService::suggest_emoji_by_files(&files);
    assert_eq!(
        suggestions,
        vec![
            "\u{26A1}",
            "\u{2705}",
            "\u{1F433}",
            "\u{1F484}",
            "\u{1F4DD}",
            "\u{1F512}",
            "\u{1F527}"
        ]
    );
    let mut sorted = suggestions.clone();
    sorted.sort();
    sorted.dedup();
    assert_eq!(suggestions, sorted);
}

#[test]
fn emoji_suggestions_for_nothing_known() {
    assert!(ValidationService::suggest_emoji_by_files(&[]).is_empty());
    assert!(ValidationService::suggest_emoji_by_files(&names(&["main.rs", "lib.rs"])).is_empty());
}

#[test]
fn emoji_suggestions_look_at_names_in_lower_case() {
    assert_eq!(
        ValidationService::suggest_emoji_by_files(&names(&["README.MD", "Readme.md"])),
        vec!["\u{1F4DD}"]
    );
    assert_eq!(
        ValidationService::suggest_emoji_by_files(&names(&["DOCKERFILE.prod"])),
        vec!["\u{1F433}"]
    );
}

#[test]
fn hints_of_lower_case_names() {
    assert_eq!(file_hint("a.md"), Some(Hint::Docs));
    assert_eq!(file_hint("a.rst"), Some(Hint::Docs));
    assert_eq!(file_hint("test.txt"), Some(Hint::Docs));
    assert_eq!(file_hint("spec.css"), Some(Hint::Test));
    assert_eq!(file_hint("a.scss"), Some(Hint::Style));
    assert_eq!(file_hint("a.json"), Some(Hint::Config));
    assert_eq!(file_hint("a.toml"), Some(Hint::Config));
    assert_eq!(file_hint("a.yml"), Some(Hint::Config));
    assert_eq!(file_hint("dockerfile"), Some(Hint::Docker));
    assert_eq!(file_hint("app.dockerfile"), Some(Hint::Docker));
    assert_eq!(file_hint("dir/dockerfile"), None);
    assert_eq!(file_hint("security.rs"), Some(Hint::Security));
    assert_eq!(file_hint("oauth.rs"), Some(Hint::Security));
    assert_eq!(file_hint("performance.rs"), Some(Hint::Performance));
    assert_eq!(file_hint("perf.rs"), Some(Hint::Performance));
    assert_eq!(file_hint("README.md"), Some(Hint::Docs));
    assert_eq!(file_hint("README.MD"), None);
    assert_eq!(file_hint("main.rs"), None);
    assert_eq!(Hint::Docs.emoji(), "\u{1F4DD}");
    assert_eq!(Hint::Performance.emoji(), "\u{26A1}");
}

#[test]
fn change_set_is_shown_line_by_line() {
    let ui = service(false, 50);
    assert_eq!(ui.show_changes(&[]), vec!["No changes found."]);
    assert_eq!(
        ui.show_changes(&[change(ChangeKind::Added, "a.rs"), change(ChangeKind::Deleted, "b.rs")]),
        vec![
            "",
            "Changes to commit:",
            "  \x1b[0;32mAdded: a.rs\x1b[0m",
            "  \x1b[0;31mDeleted: b.rs\x1b[0m",
            "",
        ]
    );
    assert_eq!(
        ui.file_choices(&[change(ChangeKind::Added, "a.rs")]),
        vec!["\x1b[0;32mAdded: a.rs\x1b[0m"]
    );
}

#[test]
fn recent_commits_are_shown_line_by_line() {
    let ui = service(false, 50);
    assert!(ui.show_recent_commits(&[]).is_empty());
    assert_eq!(
        ui.show_recent_commits(&["abc one".to_string(), "def two".to_string()]),
        vec!["Recent commits:", "  abc one", "  def two", ""]
    );
}

#[test]
fn picked_files_come_in_the_order_of_the_changes() {
    let ui = service(false, 50);
    let changes = [
        change(ChangeKind::Modified, "a"),
        change(ChangeKind::Modified, "b"),
        change(ChangeKind::Modified, "c"),
    ];
    assert_eq!(ui.select_files_to_commit(&changes, &[2, 0]), vec!["a", "c"]);
    assert_eq!(ui.select_files_to_commit(&changes, &[1, 1]), vec!["b"]);
    assert!(ui.select_files_to_commit(&changes, &[]).is_empty());
    assert!(ui.select_files_to_commit(&changes, &[3]).is_empty());
    assert!(ui.select_files_to_commit(&[], &[0]).is_empty());
}

#[test]
fn push_is_settled_by_the_configuration_where_nobody_is_asked() {
    let mut config = Config::default();
    assert_eq!(UIService::new(config.clone()).confirm_push(false), None);
    assert_eq!(UIService::new(config.clone()).confirm_push(true), Some(false));
    config.general.auto_push = true;
    assert_eq!(UIService::new(config.clone()).confirm_push(true), Some(true));
    assert_eq!(UIService::new(config.clone()).confirm_push(false), None);
    config.general.confirm_before_push = false;
    assert_eq!(UIService::new(config.clone()).confirm_push(false), Some(true));
    config.general.auto_push = false;
    assert_eq!(UIService::new(config).confirm_push(false), Some(false));
}

#[test]
fn help_for_the_title_names_the_limit() {
    assert_eq!(service(false, 50).title_help(), "Max length: 50 characters");
    assert_eq!(
        service(true, 72).title_help(),
        "Use conventional commit format: type(scope): description\nTypes: feat, fix, docs, style, refactor, test, chore, perf, ci, build, revert\nExample: feat: add user authentication\nMax length: 72 characters"
    );
}
