use git_cli::config::Config;
use git_cli::emojis::Emoji;
use git_cli::emojis::EmojisObject;
use git_cli::errors::GitCliError;
use git_cli::ui::UIService;

fn entry(code: &str, glyph: &str, description: &str) -> Emoji {
    Emoji {
        code: code.to_string(),
        name: code.trim_matches(':').to_string(),
        emoji: glyph.to_string(),
        entity: String::new(),
        description: description.to_string(),
    }
}

fn catalogue() -> EmojisObject {
    EmojisObject {
        emojis: vec![
            entry(":art:", "\u{1F3A8}", "Improve structure / format of the code."),
            entry(":bug:", "\u{1F41B}", "Fix a bug."),
            entry(":sparkles:", "\u{2728}", "Introduce new features."),
            entry(":bug:", "\u{1FAB2}", "Another bug."),
        ],
    }
}

#[test]
fn emoji_is_found_by_glyph_or_code() {
    let all = catalogue();
    assert_eq!(all.position(&"\u{2728}".to_string()), Some(2));
    assert_eq!(all.position(&":sparkles:".to_string()), Some(2));
    assert_eq!(all.position(&":art:".to_string()), Some(0));
    assert_eq!(all.position(&":bug:".to_string()), Some(1));
    assert_eq!(all.position(&"\u{1FAB2}".to_string()), Some(3));
    assert_eq!(all.position(&"sparkles".to_string()), None);
    assert_eq!(all.position(&"".to_string()), None);
    assert_eq!(EmojisObject { emojis: vec![] }.position(&":art:".to_string()), None);
    assert!(all.emojis[1].answers_to(&":bug:".to_string()));
    assert!(!all.emojis[1].answers_to(&"bug".to_string()));
}

#[test]
fn emoji_label_and_copy() {
    let bug = entry(":bug:", "\u{1F41B}", "Fix a bug.");
    assert_eq!(bug.label(), "\u{1F41B} - Fix a bug.");
    let copy = bug.clone();
    assert_eq!(copy.code, ":bug:");
    assert_eq!(copy.name, "bug");
    assert_eq!(copy.emoji, "\u{1F41B}");
    assert_eq!(copy.entity, "");
    assert_eq!(copy.description, "Fix a bug.");
}

#[test]
fn emoji_is_picked_by_its_place() {
    let ui = UIService::new(Config::default());
    let all = catalogue();
    assert_eq!(ui.select_emoji(&all, &[2]).unwrap().code, ":sparkles:");
    assert_eq!(ui.select_emoji(&all, &[0, 3]).unwrap().code, ":art:");
    assert!(matches!(ui.select_emoji(&all, &[]), Err(GitCliError::InvalidEmoji)));
    assert!(matches!(ui.select_emoji(&all, &[4]), Err(GitCliError::InvalidEmoji)));
    assert_eq!(
        ui.emoji_choices(&all),
        vec![
            "\u{1F3A8} - Improve structure / format of the code.",
            "\u{1F41B} - Fix a bug.",
            "\u{2728} - Introduce new features.",
            "\u{1FAB2} - Another bug."
        ]
    );
}
