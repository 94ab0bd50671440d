//! Pointing the client's error reporting and status page at the instance's own services.
use crate::patcher::Patch;
use crate::text::{chars_of, contains, holds, replace_chars, replaced, string_of};
use vstd::prelude::*;

verus! {

pub const SENTRY_MARKER: &'static str = "fa97a90475514c03";

pub const SENTRY_DSN: &'static str = "https://fa97a90475514c03a42f80cd36d147c4@sentry.io/140984";

pub const STATUS_HOST: &'static str = "status.discord.com";

pub const STATUS_HOST_ALT: &'static str = "discordstatus.com";

/// Sends error reports to the instance's own collector.
pub struct SentryRedirect {
    pub target_url: String,
}

impl SentryRedirect {
    pub fn new(target_url: &str) -> (r: Self)
        ensures
            r.target_url@ == target_url@,
    {
        SentryRedirect { target_url: target_url.to_owned() }
    }
}

pub open spec fn sentry_redirected(target: Seq<char>, content: Seq<char>) -> Seq<char> {
    if !contains(content, SENTRY_MARKER@) {
        content
    } else {
        replaced(content, SENTRY_DSN@, target)
    }
}

impl Patch for SentryRedirect {
    open spec fn transform(&self, content: Seq<char>) -> Seq<char> {
        sentry_redirected(self.target_url@, content)
    }

    fn name(&self) -> &'static str {
        "sentry_redirect"
    }

    fn apply(&self, content: &str) -> (r: String) {
        let c = chars_of(content);
        if !holds(&c, SENTRY_MARKER) {
            return string_of(&c);
        }
        let from = chars_of(SENTRY_DSN);
        let to = chars_of(self.target_url.as_str());
        let r = replace_chars(&c, &from, &to);
        string_of(&r)
    }
}

/// Sends the status-page links to the instance's own status page.
pub struct StatusPageRedirect {
    pub target_url: String,
}

impl StatusPageRedirect {
    pub fn new(target_url: &str) -> (r: Self)
        ensures
            r.target_url@ == target_url@,
    {
        StatusPageRedirect { target_url: target_url.to_owned() }
    }
}

pub open spec fn status_redirected(target: Seq<char>, content: Seq<char>) -> Seq<char> {
    if !contains(content, STATUS_HOST@) && !contains(content, STATUS_HOST_ALT@) {
        content
    } else {
        replaced(replaced(content, STATUS_HOST@, target), STATUS_HOST_ALT@, target)
    }
}

impl Patch for StatusPageRedirect {
    open spec fn transform(&self, content: Seq<char>) -> Seq<char> {
        status_redirected(self.target_url@, content)
    }

    fn name(&self) -> &'static str {
        "status_page_redirect"
    }

    fn apply(&self, content: &str) -> (r: String) {
        let c = chars_of(content);
        if !holds(&c, STATUS_HOST) && !holds(&c, STATUS_HOST_ALT) {
            return string_of(&c);
        }
        let to = chars_of(self.target_url.as_str());
        let from = chars_of(STATUS_HOST);
        let r = replace_chars(&c, &from, &to);
        let from = chars_of(STATUS_HOST_ALT);
        let r = replace_chars(&r, &from, &to);
        string_of(&r)
    }
}

} // verus!
