//! The settings of one run.

use vstd::prelude::*;
use vstd::string::StringExecFns;

verus! {

/// All settings, by concern.
#[derive(Debug)]
pub struct Config {
    pub general: GeneralConfig,
    pub commit: CommitConfig,
    pub hooks: HooksConfig,
}

/// General behaviour.
#[derive(Debug)]
pub struct GeneralConfig {
    pub default_emoji: String,
    pub auto_push: bool,
    pub confirm_before_push: bool,
    pub debug: bool,
}

/// The rules that a commit message has to meet.
#[derive(Debug)]
pub struct CommitConfig {
    pub max_title_length: usize,
    pub max_body_length: usize,
    pub auto_capitalize_title: bool,
    pub enforce_conventional: bool,
}

/// How commit hooks are dealt with.
#[derive(Debug)]
pub struct HooksConfig {
    pub run_pre_commit: bool,
    pub auto_fix_lint: bool,
    pub retry_on_failure: bool,
}

impl Config {
    /// The settings of a run that was given none.
    pub open spec fn is_default(&self) -> bool {
        &&& self.general.default_emoji@ == seq!['\u{2728}']
        &&& !self.general.auto_push
        &&& self.general.confirm_before_push
        &&& !self.general.debug
        &&& self.commit.max_title_length == 50
        &&& self.commit.max_body_length == 72
        &&& self.commit.auto_capitalize_title
        &&& !self.commit.enforce_conventional
        &&& self.hooks.run_pre_commit
        &&& self.hooks.auto_fix_lint
        &&& self.hooks.retry_on_failure
    }
}

impl Clone for GeneralConfig {
    fn clone(&self) -> (out: GeneralConfig)
        ensures
            out == *self,
    {
        GeneralConfig {
            default_emoji: self.default_emoji.clone(),
            auto_push: self.auto_push,
            confirm_before_push: self.confirm_before_push,
            debug: self.debug,
        }
    }
}

impl Clone for CommitConfig {
    fn clone(&self) -> (out: CommitConfig)
        ensures
            out == *self,
    {
        CommitConfig {
            max_title_length: self.max_title_length,
            max_body_length: self.max_body_length,
            auto_capitalize_title: self.auto_capitalize_title,
            enforce_conventional: self.enforce_conventional,
        }
    }
}

impl Clone for HooksConfig {
    fn clone(&self) -> (out: HooksConfig)
        ensures
            out == *self,
    {
        HooksConfig {
            run_pre_commit: self.run_pre_commit,
            auto_fix_lint: self.auto_fix_lint,
            retry_on_failure: self.retry_on_failure,
        }
    }
}

impl Clone for Config {
    fn clone(&self) -> (out: Config)
        ensures
            out == *self,
    {
        Config {
            general: self.general.clone(),
            commit: self.commit.clone(),
            hooks: self.hooks.clone(),
        }
    }
}

impl Default for Config {
    fn default() -> (config: Config)
        ensures
            config.is_default(),
    {
        proof {
            reveal_strlit("\u{2728}");
        }
        let default_emoji: String = String::from_str("\u{2728}");
        assert(default_emoji@ =~= seq!['\u{2728}']);
        Config {
            general: GeneralConfig {
                default_emoji,
                auto_push: false,
                confirm_before_push: true,
                debug: false,
            },
            commit: CommitConfig {
                max_title_length: 50,
                max_body_length: 72,
                auto_capitalize_title: true,
                enforce_conventional: false,
            },
            hooks: HooksConfig { run_pre_commit: true, auto_fix_lint: true, retry_on_failure: true },
        }
    }
}

} // verus!
