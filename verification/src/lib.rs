//! A guide through one commit: staging, an emoji and a conventional title,
//! the commit itself with one retry, and the exchange with the remote.
//!
//! The library decides and words; it runs no program and asks no question.
//! `workflow::GitWorkflow` is the run, `git::GitService` the wording of the
//! commands and the reading of their output, `ui::UIService` the rules for
//! the message and the texts of the questions.

pub mod config;
pub mod emojis;
pub mod errors;
pub mod git;
pub mod text;
pub mod ui;
pub mod utils;
pub mod validation;
pub mod workflow;

pub use config::Config;
pub use errors::GitCliError;
pub use git::GitService;
pub use ui::UIService;
pub use validation::ValidationService;
pub use workflow::GitWorkflow;
