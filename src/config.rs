//! Settings of an instance: which content patches run, its branding, its server options.
use vstd::prelude::*;

verus! {

/// The settings of a running instance.
#[derive(Debug, Clone)]
pub struct AppConfig {
    pub database_url: String,
    pub redis_url: String,
    pub bind_addr: String,
    pub discord_base_url: String,
    pub github_builds_repo: String,
    pub cache_path: String,
    pub patch_config: PatchConfig,
}

/// Which patches run, with what branding, and the server's options.
#[derive(Debug, Clone)]
pub struct PatchConfig {
    pub patches: PatchToggles,
    pub branding: BrandingConfig,
    pub server: ServerConfig,
}

#[derive(Debug, Clone)]
pub struct ServerConfig {
    pub trust_proxy_headers: bool,
    pub rate_limit_enabled: bool,
    pub rate_limit_requests: u32,
    pub rate_limit_window_secs: u32,
}

impl Default for ServerConfig {
    /// No proxy headers trusted, no rate limit, and 60 requests per 60 seconds once enabled.
    fn default() -> (r: Self)
        ensures
            !r.trust_proxy_headers,
            !r.rate_limit_enabled,
            r.rate_limit_requests == 60,
            r.rate_limit_window_secs == 60,
    {
        ServerConfig {
            trust_proxy_headers: false,
            rate_limit_enabled: false,
            rate_limit_requests: 60,
            rate_limit_window_secs: 60,
        }
    }
}

/// One switch per patch.
#[derive(Debug, Clone)]
pub struct PatchToggles {
    pub nitro_rebranding: bool,
    pub discord_rebranding: bool,
    pub title_rebranding: bool,
    pub server_to_guild: bool,
    pub sentry_redirect: bool,
    pub status_page_redirect: bool,
    pub prevent_localstorage_deletion: bool,
    pub fast_identify: bool,
    pub gateway_reconnect: bool,
    pub remove_qr_login: bool,
    pub enable_dev_experiments: bool,
    pub remove_modals: bool,
    pub no_xss_warning: bool,
    pub vencord: bool,
    pub api_proxy: bool,
}

/// The names and addresses that the patched client shows and uses.
#[derive(Debug, Clone)]
pub struct BrandingConfig {
    pub instance_name: String,
    pub instance_url: String,
    pub sentry_url: String,
    pub status_url: String,
    pub gateway_url: Option<String>,
    pub cdn_url: Option<String>,
}

} // verus!
