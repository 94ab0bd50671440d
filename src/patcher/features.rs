//! Patches that change how the client behaves.
use crate::pattern::{regex_replaced, replace_matches};
use crate::patcher::Patch;
use crate::text::{chars_of, replace_text, replaced, string_of};
use vstd::prelude::*;

verus! {

/// A deletion of the page's local storage.
pub const LS_DELETE_PATTERN: &'static str = r#"delete\s+(window|globalThis)\.localStorage"#;

/// The gateway's fast-connect flag being cleared.
pub const RECONNECT_PATTERN: &'static str = r#"(this\.)isFastConnect\s*=\s*!1"#;

/// The QR-code login element of the login form.
pub const QR_CODE_PATTERN: &'static str =
    r#"\w\?\(\d,\w\.jsx\)\(\w*,\{authTokenCallback:this\.handleAuthToken\}\):null"#;

/// The test that shows the self-XSS warning in the console.
pub const SELF_XSS_PATTERN: &'static str = r#"null\s*!=\s*\w+\.\w+\.Messages\.SELF_XSS_HEADER"#;

pub const FAST_IDENTIFY_FROM: &'static str =
    "?this._doFastConnectIdentify():this._doResumeOrIdentify()";

pub const FAST_IDENTIFY_TO: &'static str = "?this._doResumeOrIdentify():this._doResumeOrIdentify()";

/// Keeps the client from deleting its local storage.
pub struct PreventLocalStorageDeletion;

impl Patch for PreventLocalStorageDeletion {
    open spec fn transform(&self, content: Seq<char>) -> Seq<char> {
        regex_replaced(LS_DELETE_PATTERN@, content, "void 0"@)
    }

    fn name(&self) -> &'static str {
        "prevent_localstorage_deletion"
    }

    fn apply(&self, content: &str) -> (r: String) {
        replace_matches(LS_DELETE_PATTERN, content, "void 0")
    }
}

/// Always resumes or identifies, never the fast-connect identify.
pub struct FastIdentifyFix;

impl Patch for FastIdentifyFix {
    open spec fn transform(&self, content: Seq<char>) -> Seq<char> {
        replaced(content, FAST_IDENTIFY_FROM@, FAST_IDENTIFY_TO@)
    }

    fn name(&self) -> &'static str {
        "fast_identify"
    }

    fn apply(&self, content: &str) -> (r: String) {
        let c = chars_of(content);
        let r = replace_text(&c, FAST_IDENTIFY_FROM, FAST_IDENTIFY_TO);
        string_of(&r)
    }
}

/// Keeps the gateway's fast-connect flag set on reconnects.
pub struct GatewayReconnectPatch;

impl Patch for GatewayReconnectPatch {
    open spec fn transform(&self, content: Seq<char>) -> Seq<char> {
        regex_replaced(RECONNECT_PATTERN@, content, "${1}isFastConnect=!0"@)
    }

    fn name(&self) -> &'static str {
        "gateway_reconnect"
    }

    fn apply(&self, content: &str) -> (r: String) {
        replace_matches(RECONNECT_PATTERN, content, "${1}isFastConnect=!0")
    }
}

/// Removes the QR-code login from the login form.
pub struct RemoveQrCodeLogin;

impl Patch for RemoveQrCodeLogin {
    open spec fn transform(&self, content: Seq<char>) -> Seq<char> {
        regex_replaced(QR_CODE_PATTERN@, content, "null"@)
    }

    fn name(&self) -> &'static str {
        "remove_qr_login"
    }

    fn apply(&self, content: &str) -> (r: String) {
        replace_matches(QR_CODE_PATTERN, content, "null")
    }
}

/// Never shows the self-XSS warning.
pub struct NoXssWarning;

impl Patch for NoXssWarning {
    open spec fn transform(&self, content: Seq<char>) -> Seq<char> {
        regex_replaced(SELF_XSS_PATTERN@, content, "false"@)
    }

    fn name(&self) -> &'static str {
        "no_xss_warning"
    }

    fn apply(&self, content: &str) -> (r: String) {
        replace_matches(SELF_XSS_PATTERN, content, "false")
    }
}

} // verus!
