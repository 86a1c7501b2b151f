//! What can go wrong in a run, and how it is worded.

use vstd::prelude::*;
use vstd::std_specs::convert::FromSpecImpl;
use vstd::string::StringExecFns;

verus! {

/// `std::io::Error`: a value of it is carried through as it is.
#[verifier::external_type_specification]
#[verifier::external_body]
pub struct ExIoError(std::io::Error);

/// `serde_json::Error`: a value of it is carried through as it is.
#[verifier::external_type_specification]
#[verifier::external_body]
pub struct ExJsonError(serde_json::Error);

/// `inquire::InquireError`: a value of it is carried through as it is.
#[verifier::external_type_specification]
#[verifier::external_body]
pub struct ExInquireError(inquire::InquireError);

/// The failures of a run.
#[derive(Debug)]
pub enum GitCliError {
    NotGitRepo,
    GitCommandFailed(String),
    UserCancelled,
    ConfigError(String),
    IoError(std::io::Error),
    JsonError(serde_json::Error),
    InquireError(inquire::InquireError),
    InvalidEmoji,
    NoChanges,
    ValidationError(String),
}

/// A failure as contracts see it: the kind, and the text where it carries one.
/// An error value of another library counts for its kind alone.
pub enum GitCliErrorView {
    NotGitRepo,
    GitCommandFailed(Seq<char>),
    UserCancelled,
    ConfigError(Seq<char>),
    IoError,
    JsonError,
    InquireError,
    InvalidEmoji,
    NoChanges,
    ValidationError(Seq<char>),
}

impl View for GitCliError {
    type V = GitCliErrorView;

    open spec fn view(&self) -> GitCliErrorView {
        match self {
            GitCliError::NotGitRepo => GitCliErrorView::NotGitRepo,
            GitCliError::GitCommandFailed(m) => GitCliErrorView::GitCommandFailed(m@),
            GitCliError::UserCancelled => GitCliErrorView::UserCancelled,
            GitCliError::ConfigError(m) => GitCliErrorView::ConfigError(m@),
            GitCliError::IoError(_) => GitCliErrorView::IoError,
            GitCliError::JsonError(_) => GitCliErrorView::JsonError,
            GitCliError::InquireError(_) => GitCliErrorView::InquireError,
            GitCliError::InvalidEmoji => GitCliErrorView::InvalidEmoji,
            GitCliError::NoChanges => GitCliErrorView::NoChanges,
            GitCliError::ValidationError(m) => GitCliErrorView::ValidationError(m@),
        }
    }
}

impl GitCliErrorView {
    /// How the message of this failure begins.
    pub open spec fn heading(self) -> Seq<char> {
        match self {
            GitCliErrorView::NotGitRepo => "Git repository not found"@,
            GitCliErrorView::GitCommandFailed(_) => "Git command failed: "@,
            GitCliErrorView::UserCancelled => "User cancelled operation"@,
            GitCliErrorView::ConfigError(_) => "Configuration error: "@,
            GitCliErrorView::IoError => "IO error: "@,
            GitCliErrorView::JsonError => "JSON error: "@,
            GitCliErrorView::InquireError => "Inquire error: "@,
            GitCliErrorView::InvalidEmoji => "Invalid emoji selected"@,
            GitCliErrorView::NoChanges => "No changes to commit"@,
            GitCliErrorView::ValidationError(_) => "Validation error: "@,
        }
    }

    /// What follows the heading, where the failure itself holds it.
    pub open spec fn detail(self) -> Option<Seq<char>> {
        match self {
            GitCliErrorView::GitCommandFailed(m) => Some(m),
            GitCliErrorView::ConfigError(m) => Some(m),
            GitCliErrorView::ValidationError(m) => Some(m),
            GitCliErrorView::IoError => None,
            GitCliErrorView::JsonError => None,
            GitCliErrorView::InquireError => None,
            _ => Some(Seq::empty()),
        }
    }

    /// The whole message of a failure that holds its own detail.
    pub open spec fn message(self) -> Seq<char>
        recommends
            self.detail() is Some,
    {
        self.heading() + self.detail().unwrap()
    }
}

/// Calls `Display` of `std::io::Error` through `to_string`. The text comes
/// from the operating system, so nothing is claimed of it.
#[verifier::external_body]
fn io_error_text(e: &std::io::Error) -> (out: String) {
    e.to_string()
}

/// Calls `Display` of `serde_json::Error` through `to_string`. Nothing is
/// claimed of the text.
#[verifier::external_body]
fn json_error_text(e: &serde_json::Error) -> (out: String) {
    e.to_string()
}

/// Calls `Display` of `inquire::InquireError` through `to_string`. Nothing is
/// claimed of the text.
#[verifier::external_body]
fn inquire_error_text(e: &inquire::InquireError) -> (out: String) {
    e.to_string()
}

impl GitCliError {
    /// The message of this failure: its heading, then its detail. The detail
    /// of an error value of another library is that library's own wording.
    pub fn message(&self) -> (out: String)
        ensures
            self@.heading().is_prefix_of(out@),
            self@.detail() is Some ==> out@ == self@.message(),
    {
        let out: String = match self {
            GitCliError::NotGitRepo => String::from_str("Git repository not found"),
            GitCliError::GitCommandFailed(m) => String::from_str("Git command failed: ").concat(
                m.as_str(),
            ),
            GitCliError::UserCancelled => String::from_str("User cancelled operation"),
            GitCliError::ConfigError(m) => String::from_str("Configuration error: ").concat(
                m.as_str(),
            ),
            GitCliError::IoError(e) => String::from_str("IO error: ").concat(
                io_error_text(e).as_str(),
            ),
            GitCliError::JsonError(e) => String::from_str("JSON error: ").concat(
                json_error_text(e).as_str(),
            ),
            GitCliError::InquireError(e) => String::from_str("Inquire error: ").concat(
                inquire_error_text(e).as_str(),
            ),
            GitCliError::InvalidEmoji => String::from_str("Invalid emoji selected"),
            GitCliError::NoChanges => String::from_str("No changes to commit"),
            GitCliError::ValidationError(m) => String::from_str("Validation error: ").concat(
                m.as_str(),
            ),
        };
        assert(self@.heading().is_prefix_of(out@)) by {
            assert(out@.subrange(0, self@.heading().len() as int) =~= self@.heading());
        }
        assert(self@.detail() is Some ==> out@ =~= self@.message());
        out
    }
}

impl From<std::io::Error> for GitCliError {
    fn from(e: std::io::Error) -> (out: GitCliError) {
        GitCliError::IoError(e)
    }
}

impl FromSpecImpl<std::io::Error> for GitCliError {
    open spec fn obeys_from_spec() -> bool {
        true
    }

    open spec fn from_spec(e: std::io::Error) -> GitCliError {
        GitCliError::IoError(e)
    }
}

impl From<serde_json::Error> for GitCliError {
    fn from(e: serde_json::Error) -> (out: GitCliError) {
        GitCliError::JsonError(e)
    }
}

impl FromSpecImpl<serde_json::Error> for GitCliError {
    open spec fn obeys_from_spec() -> bool {
        true
    }

    open spec fn from_spec(e: serde_json::Error) -> GitCliError {
        GitCliError::JsonError(e)
    }
}

impl From<inquire::InquireError> for GitCliError {
    fn from(e: inquire::InquireError) -> (out: GitCliError) {
        GitCliError::InquireError(e)
    }
}

impl FromSpecImpl<inquire::InquireError> for GitCliError {
    open spec fn obeys_from_spec() -> bool {
        true
    }

    open spec fn from_spec(e: inquire::InquireError) -> GitCliError {
        GitCliError::InquireError(e)
    }
}

/// The ways in which a commit message can break the rules.
#[derive(Debug, Clone, Copy, PartialEq, Eq, Structural)]
pub enum ValidationError {
    TitleTooLong,
    TitleShouldStartLowercase,
    NotConventionalCommit,
    BodyTooLong,
}

impl ValidationError {
    /// The wording of this violation.
    pub open spec fn text(self) -> Seq<char> {
        match self {
            ValidationError::TitleTooLong => "Commit title is too long (max 50 characters)"@,
            ValidationError::TitleShouldStartLowercase => "Title should start with lowercase letter"@,
            ValidationError::NotConventionalCommit => "Title should follow the conventional commit format"@,
            ValidationError::BodyTooLong => "Body lines should be 72 characters or less"@,
        }
    }

    /// The wording of this violation.
    pub fn message(&self) -> (out: String)
        ensures
            out@ == self.text(),
    {
        match self {
            ValidationError::TitleTooLong => String::from_str(
                "Commit title is too long (max 50 characters)",
            ),
            ValidationError::TitleShouldStartLowercase => String::from_str(
                "Title should start with lowercase letter",
            ),
            ValidationError::NotConventionalCommit => String::from_str(
                "Title should follow the conventional commit format",
            ),
            ValidationError::BodyTooLong => String::from_str(
                "Body lines should be 72 characters or less",
            ),
        }
    }
}

} // verus!
