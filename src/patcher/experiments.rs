//! Turning on the developer-only experiments.
use crate::patcher::Patch;
use crate::text::{chars_of, contains, holds, replace_text, replaced, string_of};
use vstd::prelude::*;

verus! {

pub const DEV_STORE_MARKER: &'static str = "DeveloperExperimentStore";

pub const DEV_FLAG_OFF: &'static str = "DeveloperExperimentStore\";isDeveloper=!1";

pub const DEV_FLAG_ON: &'static str = "DeveloperExperimentStore\";isDeveloper=!0";

/// Marks the current user as a developer in the experiment store.
pub struct EnableDevExperiments;

pub open spec fn dev_experiments_enabled(content: Seq<char>) -> Seq<char> {
    if !contains(content, DEV_STORE_MARKER@) {
        content
    } else {
        replaced(content, DEV_FLAG_OFF@, DEV_FLAG_ON@)
    }
}

impl Patch for EnableDevExperiments {
    open spec fn transform(&self, content: Seq<char>) -> Seq<char> {
        dev_experiments_enabled(content)
    }

    fn name(&self) -> &'static str {
        "enable_dev_experiments"
    }

    fn apply(&self, content: &str) -> (r: String) {
        let c = chars_of(content);
        if !holds(&c, DEV_STORE_MARKER) {
            return string_of(&c);
        }
        let r = replace_text(&c, DEV_FLAG_OFF, DEV_FLAG_ON);
        string_of(&r)
    }
}

} // verus!
