use ug2_client::config::{BrandingConfig, PatchConfig, PatchToggles, ServerConfig};
use ug2_client::patcher::PatchPipeline;

fn toggles(on: bool) -> PatchToggles {
    PatchToggles {
        nitro_rebranding: on,
        discord_rebranding: on,
        title_rebranding: on,
        server_to_guild: on,
        sentry_redirect: on,
        status_page_redirect: on,
        prevent_localstorage_deletion: on,
        fast_identify: on,
        gateway_reconnect: on,
        remove_qr_login: on,
        enable_dev_experiments: on,
        remove_modals: on,
        no_xss_warning: on,
        vencord: on,
        api_proxy: on,
    }
}

fn config(on: bool) -> PatchConfig {
    PatchConfig {
        patches: toggles(on),
        branding: BrandingConfig {
            instance_name: "Underground".to_string(),
            instance_url: "https://u.example".to_string(),
            sentry_url: "https://sentry.u.example".to_string(),
            status_url: "status.u.example".to_string(),
            gateway_url: None,
            cdn_url: None,
        },
        server: ServerConfig::default(),
    }
}

#[test]
fn pipeline_runs_enabled_patches_in_order() {
    let pipeline = PatchPipeline::new(&config(true));
    assert_eq!(pipeline.len(), 12);
    assert_eq!(
        pipeline.patch_content("Get Discord Nitro on status.discord.com"),
        "Get Underground Premium on status.u.example"
    );
}

#[test]
fn pipeline_without_patches_keeps_text() {
    let pipeline = PatchPipeline::new(&config(false));
    assert_eq!(pipeline.len(), 0);
    assert_eq!(pipeline.patch_content("Discord Nitro"), "Discord Nitro");
}

#[test]
fn server_config_defaults() {
    let s = ServerConfig::default();
    assert!(!s.trust_proxy_headers);
    assert!(!s.rate_limit_enabled);
    assert_eq!(s.rate_limit_requests, 60);
    assert_eq!(s.rate_limit_window_secs, 60);
}
