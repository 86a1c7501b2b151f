//! What the user is shown and asked, and the rules that a commit message has
//! to meet. Nothing here prompts or prints: the caller does, with the texts
//! made here, and hands back what was answered.

use crate::config::CommitConfig;
use crate::config::Config;
use crate::emojis::Emoji;
use crate::emojis::EmojiView;
use crate::emojis::EmojisObject;
use crate::errors::GitCliError;
use crate::errors::GitCliErrorView;
use crate::errors::ValidationError;
use crate::git::Change;
use crate::git::ChangeKind;
use crate::git::ChangeView;
use crate::text::byte_len;
use crate::text::chars_of;
use crate::text::decimal;
use crate::text::decimal_string;
use crate::text::has_infix;
use crate::text::has_prefix;
use crate::text::has_suffix;
use crate::text::lines;
use crate::text::lowercase;
use crate::text::occurs_in;
use crate::text::replace_head;
use crate::text::split_lines;
use crate::text::to_lowercase;
use crate::text::to_uppercase;
use crate::text::trim;
use crate::text::trimmed;
use crate::text::uppercase;
use crate::text::with_head;
use vstd::prelude::*;
use vstd::string::StrSliceExecFns;
use vstd::string::StringExecFns;

verus! {

/// The types that a conventional commit title may open with.
pub open spec fn conventional_types() -> Seq<Seq<char>> {
    seq![
        "feat"@,
        "fix"@,
        "docs"@,
        "style"@,
        "refactor"@,
        "test"@,
        "chore"@,
        "perf"@,
        "ci"@,
        "build"@,
        "revert"@,
    ]
}

/// `title` opens with `kind` and a colon and space, or with `kind` and a bracket.
pub open spec fn opens_with(title: Seq<char>, kind: Seq<char>) -> bool {
    (kind + ": "@).is_prefix_of(title) || (kind + "("@).is_prefix_of(title)
}

/// `title` opens as a conventional commit title does, with one of the types.
pub open spec fn is_conventional(title: Seq<char>) -> bool {
    exists|i: int|
        0 <= i < conventional_types().len() && opens_with(title, #[trigger] conventional_types()[i])
}

/// The rules that `title` breaks, the one on length first.
pub open spec fn title_violations(title: Seq<char>, rules: CommitConfig) -> Seq<ValidationError> {
    let length = if byte_len(title) > rules.max_title_length {
        seq![ValidationError::TitleTooLong]
    } else {
        Seq::empty()
    };
    let format = if rules.enforce_conventional && !is_conventional(title) {
        seq![ValidationError::NotConventionalCommit]
    } else {
        Seq::empty()
    };
    length + format
}

/// What the user is told of a title that is too long.
pub open spec fn too_long_text(title: Seq<char>, rules: CommitConfig) -> Seq<char> {
    "Title is "@ + decimal(byte_len(title)) + " characters (max "@ + decimal(
        rules.max_title_length as nat,
    ) + ")"@
}

/// What the user is told of a title that is not conventional.
pub open spec fn not_conventional_text() -> Seq<char> {
    "Must follow conventional commit format: type(scope): description\nValid types: feat, fix, docs, style, refactor, test, chore, perf, ci, build, revert\nExamples:\n\u{2022} feat: add user authentication\n\u{2022} fix(ui): resolve button alignment\n\u{2022} docs: update installation guide"@
}

/// What the user is told of the rules that `title` breaks: one paragraph for each.
pub open spec fn title_complaint(title: Seq<char>, rules: CommitConfig) -> Seq<char> {
    let long = byte_len(title) > rules.max_title_length;
    let odd = rules.enforce_conventional && !is_conventional(title);
    if long && odd {
        too_long_text(title, rules) + "\n\n"@ + not_conventional_text()
    } else if long {
        too_long_text(title, rules)
    } else if odd {
        not_conventional_text()
    } else {
        Seq::empty()
    }
}

/// The verdict on `title`.
pub open spec fn title_verdict(title: Seq<char>, rules: CommitConfig) -> Result<
    (),
    GitCliErrorView,
> {
    if title_violations(title, rules).len() == 0 {
        Ok(())
    } else {
        Err(GitCliErrorView::ValidationError(title_complaint(title, rules)))
    }
}

/// One line of `body` is longer than the rules allow.
pub open spec fn has_long_line(body: Seq<char>, rules: CommitConfig) -> bool {
    exists|i: int|
        0 <= i < lines(body).len() && byte_len(#[trigger] lines(body)[i]) > rules.max_body_length
}

/// The verdict on `body`.
pub open spec fn body_verdict(body: Seq<char>, rules: CommitConfig) -> Result<(), GitCliErrorView> {
    if has_long_line(body, rules) {
        Err(GitCliErrorView::ValidationError(ValidationError::BodyTooLong.text()))
    } else {
        Ok(())
    }
}

/// `text` with its first character in upper case.
pub open spec fn capitalized(text: Seq<char>) -> Seq<char> {
    if text.len() == 0 {
        Seq::empty()
    } else {
        with_head(uppercase(text.first()), text)
    }
}

/// `text` as it is taken over: capitalized where the rules say so.
pub open spec fn formatted(text: Seq<char>, rules: CommitConfig) -> Seq<char> {
    if rules.auto_capitalize_title {
        capitalized(text)
    } else {
        text
    }
}

/// What the user is told of a title that is empty.
pub open spec fn empty_title_text() -> Seq<char> {
    "Title cannot be empty"@
}

/// The verdict on a title that is about to be committed: it must not be
/// empty, and it must keep the rules.
pub open spec fn title_admission(title: Seq<char>, rules: CommitConfig) -> Result<(), GitCliErrorView> {
    if title.len() == 0 {
        Err(GitCliErrorView::ValidationError(empty_title_text()))
    } else {
        title_verdict(title, rules)
    }
}

/// The title that an entered text gives, or why it gives none.
pub open spec fn entered_title(text: Seq<char>, rules: CommitConfig) -> Result<
    Seq<char>,
    GitCliErrorView,
> {
    match title_admission(formatted(text, rules), rules) {
        Ok(_) => Ok(formatted(text, rules)),
        Err(e) => Err(e),
    }
}

/// The body that an entered text gives: none if the text is blank.
pub open spec fn entered_body(text: Seq<char>, rules: CommitConfig) -> Result<
    Option<Seq<char>>,
    GitCliErrorView,
> {
    if trimmed(text).len() == 0 {
        Ok(None)
    } else {
        match body_verdict(formatted(text, rules), rules) {
            Ok(_) => Ok(Some(formatted(text, rules))),
            Err(e) => Err(e),
        }
    }
}

/// The paths of the changes whose places are among `picked`, in the order of
/// the changes.
pub open spec fn picked_paths(changes: Seq<ChangeView>, picked: Seq<usize>) -> Seq<Seq<char>>
    decreases changes.len(),
{
    if changes.len() == 0 {
        Seq::empty()
    } else {
        let before = picked_paths(changes.drop_last(), picked);
        if picked.contains((changes.len() - 1) as usize) {
            before.push(changes.last().path)
        } else {
            before
        }
    }
}

/// The lines that show a change set: a heading, one line for each change,
/// and an empty line before and after; one line that says so if there is
/// no change.
pub open spec fn shown_changes(changes: Seq<ChangeView>) -> Seq<Seq<char>> {
    if changes.len() == 0 {
        seq!["No changes found."@]
    } else {
        seq![Seq::empty(), "Changes to commit:"@] + Seq::new(
            changes.len(),
            |i: int| "  "@ + changes[i].label(),
        ) + seq![Seq::empty()]
    }
}

/// The lines that show the recent commits: a heading, one line for each
/// commit, and an empty line after; nothing if there is no commit.
pub open spec fn shown_commits(commits: Seq<Seq<char>>) -> Seq<Seq<char>> {
    if commits.len() == 0 {
        Seq::empty()
    } else {
        seq!["Recent commits:"@] + Seq::new(commits.len(), |i: int| "  "@ + commits[i]) + seq![
            Seq::empty(),
        ]
    }
}

/// The entry that the user picked: the one at the first of the places, if
/// the catalogue has it.
pub open spec fn picked_emoji(emojis: Seq<EmojiView>, picked: Seq<usize>) -> Option<EmojiView> {
    if picked.len() > 0 && picked[0] < emojis.len() {
        Some(emojis[picked[0] as int])
    } else {
        None
    }
}

/// Whether to push, where that is settled without a question: nobody can
/// be asked, or nobody is to be asked. Then the configuration decides.
pub open spec fn push_without_asking(config: Config, non_interactive: bool) -> Option<bool> {
    if non_interactive || !config.general.confirm_before_push {
        Some(config.general.auto_push)
    } else {
        None
    }
}

/// The help that goes with the question for the title.
pub open spec fn title_help_text(rules: CommitConfig) -> Seq<char> {
    let limit = "Max length: "@ + decimal(rules.max_title_length as nat) + " characters"@;
    if rules.enforce_conventional {
        "Use conventional commit format: type(scope): description\nTypes: feat, fix, docs, style, refactor, test, chore, perf, ci, build, revert\nExample: feat: add user authentication\n"@
            + limit
    } else {
        limit
    }
}

/// Validating a title that is valid finds nothing new, however often it is
/// done: the verdict depends on the title and the rules alone, and a title
/// that breaks no rule is passed without a complaint.
pub proof fn lemma_valid_title_stays_valid(title: Seq<char>, rules: CommitConfig)
    requires
        title_violations(title, rules).len() == 0,
    ensures
        title_verdict(title, rules) == Ok::<(), GitCliErrorView>(()),
        title_complaint(title, rules) =~= Seq::empty(),
        byte_len(title) <= rules.max_title_length,
        rules.enforce_conventional ==> is_conventional(title),
{
}

/// A title that an entered text gives is fit to be committed, and a body
/// that an entered text gives keeps the rules.
pub proof fn lemma_entries_are_checked(text: Seq<char>, rules: CommitConfig)
    ensures
        entered_title(text, rules) matches Ok(title) ==> title_admission(title, rules) is Ok,
        entered_body(text, rules) matches Ok(Some(body)) ==> body_verdict(body, rules) is Ok,
        title_admission(text, rules) is Ok ==> text.len() > 0 && title_verdict(text, rules) is Ok,
{
}

/// What a path is about, judged by its name.
#[derive(Debug, Clone, Copy, PartialEq, Eq, Structural)]
pub enum FileTopic {
    Dependencies,
    Docs,
    Tests,
    Config,
    Ui,
    Other,
}

/// What the path with the lower-case name `name` is about. The first that
/// fits decides: a list of dependencies, documentation, tests, configuration,
/// the user interface.
pub open spec fn topic_of(name: Seq<char>) -> FileTopic {
    if occurs_in("cargo.toml"@, name) || occurs_in("package.json"@, name) {
        FileTopic::Dependencies
    } else if ".md"@.is_suffix_of(name) || ".rst"@.is_suffix_of(name) || occurs_in(
        "readme"@,
        name,
    ) {
        FileTopic::Docs
    } else if occurs_in("test"@, name) || occurs_in("spec"@, name) {
        FileTopic::Tests
    } else if ".toml"@.is_suffix_of(name) || ".json"@.is_suffix_of(name) || ".yml"@.is_suffix_of(
        name,
    ) {
        FileTopic::Config
    } else if ".css"@.is_suffix_of(name) || ".scss"@.is_suffix_of(name) || occurs_in("ui"@, name) {
        FileTopic::Ui
    } else {
        FileTopic::Other
    }
}

/// What the path with the lower-case name `name` is about.
pub fn file_topic(name: &str) -> (topic: FileTopic)
    ensures
        topic == topic_of(name@),
{
    let v: Vec<char> = chars_of(name);
    let s: &[char] = v.as_slice();
    if has_infix(s, "cargo.toml") || has_infix(s, "package.json") {
        FileTopic::Dependencies
    } else if has_suffix(s, ".md") || has_suffix(s, ".rst") || has_infix(s, "readme") {
        FileTopic::Docs
    } else if has_infix(s, "test") || has_infix(s, "spec") {
        FileTopic::Tests
    } else if has_suffix(s, ".toml") || has_suffix(s, ".json") || has_suffix(s, ".yml") {
        FileTopic::Config
    } else if has_suffix(s, ".css") || has_suffix(s, ".scss") || has_infix(s, "ui") {
        FileTopic::Ui
    } else {
        FileTopic::Other
    }
}

/// What a change set is about, as far as a title can be guessed from it.
#[derive(Debug, Clone, Copy, PartialEq, Eq, Structural)]
pub enum Suggestion {
    Dependencies,
    Documentation,
    Tests,
    Configuration,
    Style,
    Feature,
    Fix,
}

impl Suggestion {
    /// The commit type that goes with the suggestion.
    pub open spec fn kind(self) -> Seq<char> {
        match self {
            Suggestion::Dependencies => "chore"@,
            Suggestion::Documentation => "docs"@,
            Suggestion::Tests => "test"@,
            Suggestion::Configuration => "chore"@,
            Suggestion::Style => "style"@,
            Suggestion::Feature => "feat"@,
            Suggestion::Fix => "fix"@,
        }
    }

    /// The suggested description.
    pub open spec fn summary(self) -> Seq<char> {
        match self {
            Suggestion::Dependencies => "update dependencies"@,
            Suggestion::Documentation => "update documentation"@,
            Suggestion::Tests => "add unit tests"@,
            Suggestion::Configuration => "update configuration"@,
            Suggestion::Style => "improve UI components"@,
            Suggestion::Feature => "add new feature"@,
            Suggestion::Fix => "resolve issue"@,
        }
    }

    /// The suggested title: with its type in front where titles have to be conventional.
    pub open spec fn title(self, conventional: bool) -> Seq<char> {
        if conventional {
            self.kind() + ": "@ + self.summary()
        } else {
            self.summary()
        }
    }

    /// The suggested title.
    pub fn render(&self, conventional: bool) -> (out: String)
        ensures
            out@ == self.title(conventional),
    {
        let kind: &str = match self {
            Suggestion::Dependencies => "chore",
            Suggestion::Documentation => "docs",
            Suggestion::Tests => "test",
            Suggestion::Configuration => "chore",
            Suggestion::Style => "style",
            Suggestion::Feature => "feat",
            Suggestion::Fix => "fix",
        };
        let summary: &str = match self {
            Suggestion::Dependencies => "update dependencies",
            Suggestion::Documentation => "update documentation",
            Suggestion::Tests => "add unit tests",
            Suggestion::Configuration => "update configuration",
            Suggestion::Style => "improve UI components",
            Suggestion::Feature => "add new feature",
            Suggestion::Fix => "resolve issue",
        };
        if conventional {
            String::from_str(kind).concat(": ").concat(summary)
        } else {
            String::from_str(summary)
        }
    }
}

/// Some change of the set is about `topic`.
pub open spec fn touches(changes: Seq<ChangeView>, topic: FileTopic) -> bool {
    exists|i: int| 0 <= i < changes.len() && topic_of(lowercase(#[trigger] changes[i].path)) == topic
}

/// Some change of the set adds a file.
pub open spec fn adds_file(changes: Seq<ChangeView>) -> bool {
    exists|i: int| 0 <= i < changes.len() && (#[trigger] changes[i]).kind == ChangeKind::Added
}

/// What a title for `changes` is best guessed to be about. A list of
/// dependencies decides before all else. Documentation decides if no test and no
/// new file comes with it, tests if no new file does; then configuration,
/// the user interface, and a new file; what is left is a fix.
pub open spec fn suggestion_for(changes: Seq<ChangeView>) -> Suggestion {
    if touches(changes, FileTopic::Dependencies) {
        Suggestion::Dependencies
    } else if touches(changes, FileTopic::Docs) && !touches(changes, FileTopic::Tests)
        && !adds_file(changes) {
        Suggestion::Documentation
    } else if touches(changes, FileTopic::Tests) && !adds_file(changes) {
        Suggestion::Tests
    } else if touches(changes, FileTopic::Config) {
        Suggestion::Configuration
    } else if touches(changes, FileTopic::Ui) {
        Suggestion::Style
    } else if adds_file(changes) {
        Suggestion::Feature
    } else {
        Suggestion::Fix
    }
}

/// What is known of a change set once each path has been looked at.
pub struct Findings {
    pub dependencies: bool,
    pub docs: bool,
    pub tests: bool,
    pub config: bool,
    pub ui: bool,
    pub added: bool,
}

impl Findings {
    /// The findings say of `changes` what holds of them.
    pub open spec fn describe(self, changes: Seq<ChangeView>) -> bool {
        &&& self.dependencies == touches(changes, FileTopic::Dependencies)
        &&& self.docs == touches(changes, FileTopic::Docs)
        &&& self.tests == touches(changes, FileTopic::Tests)
        &&& self.config == touches(changes, FileTopic::Config)
        &&& self.ui == touches(changes, FileTopic::Ui)
        &&& self.added == adds_file(changes)
    }

    /// The suggestion that follows from the findings.
    pub open spec fn verdict(self) -> Suggestion {
        if self.dependencies {
            Suggestion::Dependencies
        } else if self.docs && !self.tests && !self.added {
            Suggestion::Documentation
        } else if self.tests && !self.added {
            Suggestion::Tests
        } else if self.config {
            Suggestion::Configuration
        } else if self.ui {
            Suggestion::Style
        } else if self.added {
            Suggestion::Feature
        } else {
            Suggestion::Fix
        }
    }

    /// The suggestion that follows from the findings.
    pub fn suggest(&self) -> (out: Suggestion)
        ensures
            out == self.verdict(),
    {
        if self.dependencies {
            Suggestion::Dependencies
        } else if self.docs && !self.tests && !self.added {
            Suggestion::Documentation
        } else if self.tests && !self.added {
            Suggestion::Tests
        } else if self.config {
            Suggestion::Configuration
        } else if self.ui {
            Suggestion::Style
        } else if self.added {
            Suggestion::Feature
        } else {
            Suggestion::Fix
        }
    }
}

/// Looks at each change of the set once.
pub fn survey(changes: &[Change]) -> (found: Findings)
    ensures
        found.describe(changes.deep_view()),
        found.verdict() == suggestion_for(changes.deep_view()),
{
    let mut found = Findings {
        dependencies: false,
        docs: false,
        tests: false,
        config: false,
        ui: false,
        added: false,
    };
    let ghost all = changes.deep_view();
    let n: usize = changes.len();
    let mut i: usize = 0;
    while i < n
        invariant
            i <= n,
            n == changes.len(),
            all == changes.deep_view(),
            found.describe(all.take(i as int)),
        decreases n - i,
    {
        let ghost seen = all.take(i as int);
        let ghost next = all.take(i + 1);
        let lower: String = to_lowercase(changes[i].path.as_str());
        let topic: FileTopic = file_topic(lower.as_str());
        let added: bool = changes[i].kind == ChangeKind::Added;
        proof {
            assert(next.drop_last() =~= seen);
            assert(next.last() == changes[i as int]@);
            assert forall|t: FileTopic| touches(next, t) == (touches(seen, t) || topic == t) by {
                if touches(seen, t) {
                    let j = choose|j: int|
                        0 <= j < seen.len() && topic_of(lowercase(#[trigger] seen[j].path)) == t;
                    assert(next[j] == seen[j]);
                }
                if topic == t {
                    assert(topic_of(lowercase(next[i as int].path)) == t);
                }
                if touches(next, t) {
                    let j = choose|j: int|
                        0 <= j < next.len() && topic_of(lowercase(#[trigger] next[j].path)) == t;
                    if j < i {
                        assert(seen[j] == next[j]);
                    }
                }
            }
            assert(adds_file(next) == (adds_file(seen) || added)) by {
                if adds_file(seen) {
                    let j = choose|j: int|
                        0 <= j < seen.len() && (#[trigger] seen[j]).kind == ChangeKind::Added;
                    assert(next[j] == seen[j]);
                }
                if added {
                    assert(next[i as int].kind == ChangeKind::Added);
                }
                if adds_file(next) {
                    let j = choose|j: int|
                        0 <= j < next.len() && (#[trigger] next[j]).kind == ChangeKind::Added;
                    if j < i {
                        assert(seen[j] == next[j]);
                    }
                }
            }
        }
        match topic {
            FileTopic::Dependencies => {
                found.dependencies = true;
            },
            FileTopic::Docs => {
                found.docs = true;
            },
            FileTopic::Tests => {
                found.tests = true;
            },
            FileTopic::Config => {
                found.config = true;
            },
            FileTopic::Ui => {
                found.ui = true;
            },
            FileTopic::Other => {},
        }
        if added {
            found.added = true;
        }
        i += 1;
    }
    assert(all.take(n as int) =~= all);
    found
}

/// Whether `place` is among `picked`.
fn holds_place(picked: &[usize], place: usize) -> (r: bool)
    ensures
        r == picked@.contains(place),
{
    let n: usize = picked.len();
    let mut i: usize = 0;
    while i < n
        invariant
            i <= n,
            n == picked.len(),
            forall|j: int| 0 <= j < i ==> picked@[j] != place,
        decreases n - i,
    {
        if picked[i] == place {
            return true;
        }
        i += 1;
    }
    false
}

/// The conventional type at place `i`.
fn conventional_type(i: usize) -> (out: &'static str)
    requires
        i < 11,
    ensures
        conventional_types().len() == 11,
        out@ == conventional_types()[i as int],
{
    if i == 0 {
        "feat"
    } else if i == 1 {
        "fix"
    } else if i == 2 {
        "docs"
    } else if i == 3 {
        "style"
    } else if i == 4 {
        "refactor"
    } else if i == 5 {
        "test"
    } else if i == 6 {
        "chore"
    } else if i == 7 {
        "perf"
    } else if i == 8 {
        "ci"
    } else if i == 9 {
        "build"
    } else {
        "revert"
    }
}

/// What the user is shown and asked, under one configuration.
pub struct UIService {
    pub config: Config,
}

impl UIService {
    pub fn new(config: Config) -> (service: UIService)
        ensures
            service.config == config,
    {
        UIService { config }
    }

    /// `input` with its first character in upper case.
    pub fn format_string_to_title(&self, input: String) -> (out: String)
        ensures
            out@ == capitalized(input@),
    {
        if input.as_str().unicode_len() == 0 {
            return String::new();
        }
        let upper: String = to_uppercase(input.as_str().get_char(0));
        replace_head(input.as_str(), upper.as_str())
    }

    /// Whether `title` opens as a conventional commit title does.
    pub fn is_conventional_commit(&self, title: &str) -> (out: bool)
        ensures
            out == is_conventional(title@),
    {
        let v: Vec<char> = chars_of(title);
        let mut i: usize = 0;
        while i < 11
            invariant
                i <= 11,
                v@ == title@,
                conventional_types().len() == 11,
                forall|j: int| 0 <= j < i ==> !opens_with(title@, #[trigger] conventional_types()[j]),
            decreases 11 - i,
        {
            let kind: &str = conventional_type(i);
            let with_colon: String = String::from_str(kind).concat(": ");
            let with_bracket: String = String::from_str(kind).concat("(");
            if has_prefix(v.as_slice(), with_colon.as_str()) || has_prefix(
                v.as_slice(),
                with_bracket.as_str(),
            ) {
                return true;
            }
            i += 1;
        }
        false
    }

    /// The rules that `title` breaks, the one on length first.
    pub fn title_violations(&self, title: &str) -> (out: Vec<ValidationError>)
        ensures
            out@ == title_violations(title@, self.config.commit),
    {
        let mut out: Vec<ValidationError> = Vec::new();
        if title.as_bytes().len() > self.config.commit.max_title_length {
            out.push(ValidationError::TitleTooLong);
        }
        if self.config.commit.enforce_conventional && !self.is_conventional_commit(title) {
            out.push(ValidationError::NotConventionalCommit);
        }
        out
    }

    /// Holds `title` against the rules on length and on format. Both are
    /// tried, and the failure tells of each that is broken.
    pub fn validate_commit_title(&self, title: &str) -> (out: Result<(), GitCliError>)
        ensures
            match out {
                Ok(_) => title_verdict(title@, self.config.commit) is Ok,
                Err(e) => title_verdict(title@, self.config.commit) == Err::<(), GitCliErrorView>(
                    e@,
                ),
            },
    {
        let size: usize = title.as_bytes().len();
        let long: bool = size > self.config.commit.max_title_length;
        let odd: bool = self.config.commit.enforce_conventional && !self.is_conventional_commit(
            title,
        );
        if !long && !odd {
            return Ok(());
        }
        let mut text: String = String::new();
        if long {
            text = String::from_str("Title is ").concat(decimal_string(size).as_str()).concat(
                " characters (max ",
            ).concat(decimal_string(self.config.commit.max_title_length).as_str()).concat(")");
        }
        if long && odd {
            text = text.concat("\n\n");
        }
        if odd {
            text = text.concat(
                "Must follow conventional commit format: type(scope): description\nValid types: feat, fix, docs, style, refactor, test, chore, perf, ci, build, revert\nExamples:\n\u{2022} feat: add user authentication\n\u{2022} fix(ui): resolve button alignment\n\u{2022} docs: update installation guide",
            );
        }
        Err(GitCliError::ValidationError(text))
    }

    /// Holds each line of `body` against the rule on length.
    pub fn validate_commit_body(&self, body: &str) -> (out: Result<(), GitCliError>)
        ensures
            match out {
                Ok(_) => body_verdict(body@, self.config.commit) is Ok,
                Err(e) => body_verdict(body@, self.config.commit) == Err::<(), GitCliErrorView>(e@),
            },
    {
        let body_lines: Vec<String> = split_lines(body);
        let n: usize = body_lines.len();
        let mut i: usize = 0;
        while i < n
            invariant
                i <= n,
                n == body_lines.len(),
                body_lines.deep_view() == lines(body@),
                forall|j: int|
                    0 <= j < i ==> byte_len(#[trigger] lines(body@)[j])
                        <= self.config.commit.max_body_length,
            decreases n - i,
        {
            assert(body_lines.deep_view()[i as int] == body_lines[i as int]@);
            if body_lines[i].as_str().as_bytes().len() > self.config.commit.max_body_length {
                return Err(GitCliError::ValidationError(ValidationError::BodyTooLong.message()));
            }
            i += 1;
        }
        Ok(())
    }

    /// Holds a title that is about to be committed against the rules; an
    /// empty one is turned away before them.
    pub fn check_title(&self, title: &str) -> (out: Result<(), GitCliError>)
        ensures
            match out {
                Ok(_) => title_admission(title@, self.config.commit) is Ok,
                Err(e) => title_admission(title@, self.config.commit) == Err::<(), GitCliErrorView>(e@),
            },
    {
        if title.unicode_len() == 0 {
            return Err(GitCliError::ValidationError(String::from_str("Title cannot be empty")));
        }
        self.validate_commit_title(title)
    }

    /// `text` as it is taken over: capitalized where the rules say so.
    pub fn format_entry(&self, text: String) -> (out: String)
        ensures
            out@ == formatted(text@, self.config.commit),
    {
        if self.config.commit.auto_capitalize_title {
            self.format_string_to_title(text)
        } else {
            text
        }
    }

    /// Takes the text that the user entered as a title: formats it and holds
    /// it against the rules. On failure the caller shows why and asks again.
    pub fn get_commit_title(&self, entered: String) -> (out: Result<String, GitCliError>)
        ensures
            match out {
                Ok(title) => entered_title(entered@, self.config.commit) == Ok::<
                    Seq<char>,
                    GitCliErrorView,
                >(title@),
                Err(e) => entered_title(entered@, self.config.commit) == Err::<
                    Seq<char>,
                    GitCliErrorView,
                >(e@),
            },
    {
        let title: String = self.format_entry(entered);
        match self.check_title(title.as_str()) {
            Ok(_) => Ok(title),
            Err(e) => Err(e),
        }
    }

    /// Takes the text that the user entered as a body: a blank text means no
    /// body; any other is formatted and held against the rules.
    pub fn get_commit_message(&self, entered: String) -> (out: Result<Option<String>, GitCliError>)
        ensures
            match out {
                Ok(Some(body)) => entered_body(entered@, self.config.commit) == Ok::<
                    Option<Seq<char>>,
                    GitCliErrorView,
                >(Some(body@)),
                Ok(None) => entered_body(entered@, self.config.commit) == Ok::<
                    Option<Seq<char>>,
                    GitCliErrorView,
                >(None),
                Err(e) => entered_body(entered@, self.config.commit) == Err::<
                    Option<Seq<char>>,
                    GitCliErrorView,
                >(e@),
            },
    {
        if trim(entered.as_str()).unicode_len() == 0 {
            return Ok(None);
        }
        let body: String = self.format_entry(entered);
        match self.validate_commit_body(body.as_str()) {
            Ok(_) => Ok(Some(body)),
            Err(e) => Err(e),
        }
    }

    /// The lines that show the change set.
    pub fn show_changes(&self, changes: &[Change]) -> (out: Vec<String>)
        ensures
            out.deep_view() == shown_changes(changes.deep_view()),
    {
        let mut out: Vec<String> = Vec::new();
        let n: usize = changes.len();
        if n == 0 {
            out.push(String::from_str("No changes found."));
            return out;
        }
        out.push(String::new());
        out.push(String::from_str("Changes to commit:"));
        let mut i: usize = 0;
        while i < n
            invariant
                i <= n,
                n == changes.len(),
                out.len() == i + 2,
                out[0]@ == Seq::<char>::empty(),
                out[1]@ == "Changes to commit:"@,
                forall|j: int| 0 <= j < i ==> out[j + 2]@ == "  "@ + changes[j]@.label(),
            decreases n - i,
        {
            out.push(String::from_str("  ").concat(changes[i].label().as_str()));
            i += 1;
        }
        out.push(String::new());
        out
    }

    /// The lines that show the recent commits.
    pub fn show_recent_commits(&self, commits: &[String]) -> (out: Vec<String>)
        ensures
            out.deep_view() == shown_commits(commits.deep_view()),
    {
        let mut out: Vec<String> = Vec::new();
        let n: usize = commits.len();
        if n == 0 {
            return out;
        }
        out.push(String::from_str("Recent commits:"));
        let mut i: usize = 0;
        while i < n
            invariant
                i <= n,
                n == commits.len(),
                out.len() == i + 1,
                out[0]@ == "Recent commits:"@,
                forall|j: int| 0 <= j < i ==> out[j + 1]@ == "  "@ + commits[j]@,
            decreases n - i,
        {
            out.push(String::from_str("  ").concat(commits[i].as_str()));
            i += 1;
        }
        out.push(String::new());
        out
    }

    /// The choices of the question which changes to stage: one label for each change.
    pub fn file_choices(&self, changes: &[Change]) -> (out: Vec<String>)
        ensures
            out.deep_view() == Seq::new(
                changes.deep_view().len(),
                |i: int| changes.deep_view()[i].label(),
            ),
    {
        let mut out: Vec<String> = Vec::new();
        let n: usize = changes.len();
        let mut i: usize = 0;
        while i < n
            invariant
                i <= n,
                n == changes.len(),
                out.len() == i,
                forall|j: int| 0 <= j < i ==> out[j]@ == changes[j]@.label(),
            decreases n - i,
        {
            out.push(changes[i].label());
            i += 1;
        }
        out
    }

    /// The paths of the changes that the user picked, by their places among
    /// the choices, in the order of the changes.
    pub fn select_files_to_commit(&self, changes: &[Change], picked: &[usize]) -> (out: Vec<String>)
        ensures
            out.deep_view() == picked_paths(changes.deep_view(), picked@),
    {
        let mut out: Vec<String> = Vec::new();
        let n: usize = changes.len();
        let mut i: usize = 0;
        while i < n
            invariant
                i <= n,
                n == changes.len(),
                out.deep_view() == picked_paths(changes.deep_view().take(i as int), picked@),
            decreases n - i,
        {
            assert(changes.deep_view().take(i + 1).drop_last() =~= changes.deep_view().take(
                i as int,
            ));
            if holds_place(picked, i) {
                out.push(changes[i].path.clone());
            }
            i += 1;
        }
        assert(changes.deep_view().take(n as int) =~= changes.deep_view());
        out
    }

    /// The choices of the question for the emoji: one label for each entry.
    pub fn emoji_choices(&self, emojis_object: &EmojisObject) -> (out: Vec<String>)
        ensures
            out.deep_view() == Seq::new(emojis_object@.len(), |i: int| emojis_object@[i].label()),
    {
        let mut out: Vec<String> = Vec::new();
        let n: usize = emojis_object.emojis.len();
        let mut i: usize = 0;
        while i < n
            invariant
                i <= n,
                n == emojis_object.emojis.len(),
                out.len() == i,
                forall|j: int| 0 <= j < i ==> out[j]@ == emojis_object.emojis[j]@.label(),
            decreases n - i,
        {
            out.push(emojis_object.emojis[i].label());
            i += 1;
        }
        out
    }

    /// The entry that the user picked, by its place among the choices.
    pub fn select_emoji(&self, emojis_object: &EmojisObject, picked: &[usize]) -> (out: Result<
        Emoji,
        GitCliError,
    >)
        ensures
            match out {
                Ok(emoji) => picked_emoji(emojis_object@, picked@) == Some(emoji@),
                Err(e) => picked_emoji(emojis_object@, picked@) is None && e@
                    == GitCliErrorView::InvalidEmoji,
            },
    {
        if picked.len() > 0 && picked[0] < emojis_object.emojis.len() {
            Ok(emojis_object.emojis[picked[0]].clone())
        } else {
            Err(GitCliError::InvalidEmoji)
        }
    }

    /// Whether to push, where that is settled without a question; `None`
    /// where the user has to be asked.
    pub fn confirm_push(&self, non_interactive: bool) -> (out: Option<bool>)
        ensures
            out == push_without_asking(self.config, non_interactive),
    {
        if non_interactive || !self.config.general.confirm_before_push {
            Some(self.config.general.auto_push)
        } else {
            None
        }
    }

    /// The help that goes with the question for the title.
    pub fn title_help(&self) -> (out: String)
        ensures
            out@ == title_help_text(self.config.commit),
    {
        let limit: String = String::from_str("Max length: ").concat(
            decimal_string(self.config.commit.max_title_length).as_str(),
        ).concat(" characters");
        if self.config.commit.enforce_conventional {
            String::from_str(
                "Use conventional commit format: type(scope): description\nTypes: feat, fix, docs, style, refactor, test, chore, perf, ci, build, revert\nExample: feat: add user authentication\n",
            ).concat(limit.as_str())
        } else {
            limit
        }
    }

    /// A title to show while none is entered yet, guessed from the change set.
    pub fn generate_smart_placeholder(&self, changes: &[Change]) -> (out: String)
        ensures
            out@ == suggestion_for(changes.deep_view()).title(
                self.config.commit.enforce_conventional,
            ),
    {
        let found: Findings = survey(changes);
        found.suggest().render(self.config.commit.enforce_conventional)
    }
}

} // verus!
