use ug2_client::config::{BrandingConfig, PatchToggles};
use ug2_client::index_page::{
    generate_global_env, generate_index, guess_content_type, html_escape, DEV_EXPERIMENTS_SCRIPT,
    FAST_IDENTIFY_SCRIPT,
};

fn branding(gateway: Option<&str>) -> BrandingConfig {
    BrandingConfig {
        instance_name: "Underground".to_string(),
        instance_url: String::new(),
        sentry_url: String::new(),
        status_url: String::new(),
        gateway_url: gateway.map(|g| g.to_string()),
        cdn_url: None,
    }
}

fn toggles(fast: bool, dev: bool) -> PatchToggles {
    PatchToggles {
        nitro_rebranding: false,
        discord_rebranding: false,
        title_rebranding: false,
        server_to_guild: false,
        sentry_redirect: false,
        status_page_redirect: false,
        prevent_localstorage_deletion: false,
        fast_identify: fast,
        gateway_reconnect: false,
        remove_qr_login: false,
        enable_dev_experiments: dev,
        remove_modals: false,
        no_xss_warning: false,
        vencord: false,
        api_proxy: false,
    }
}

#[test]
fn content_types_by_extension() {
    assert_eq!(guess_content_type("a.js"), "application/javascript");
    assert_eq!(guess_content_type("a.css"), "text/css");
    assert_eq!(guess_content_type("a.svg"), "image/svg+xml");
    assert_eq!(guess_content_type("a.png"), "image/png");
    assert_eq!(guess_content_type("a.woff2"), "font/woff2");
    assert_eq!(guess_content_type("a.woff"), "font/woff");
    assert_eq!(guess_content_type("a.wasm"), "application/wasm");
    assert_eq!(guess_content_type("a.js.map"), "application/json");
    assert_eq!(guess_content_type("a.bin"), "application/octet-stream");
}

#[test]
fn escapes_html_specials() {
    assert_eq!(html_escape(r#"a&b"<c>"#), "a&amp;b&quot;&lt;c&gt;");
    assert_eq!(html_escape("web.js"), "web.js");
}

#[test]
fn global_env_gateway() {
    let env = generate_global_env(&branding(Some("wss://gw.example")), "abc123");
    assert!(env.contains(r#"GATEWAY_ENDPOINT: "wss://gw.example","#));
    assert!(env.contains(r#"SENTRY_TAGS: { buildId: "abc123", buildType: "normal" },"#));
    let env = generate_global_env(&branding(None), "abc123");
    assert!(env.contains("GATEWAY_ENDPOINT: `${location.protocol"));
}

#[test]
fn index_lists_styles_then_scripts() {
    let scripts = vec![
        "/assets/web.1.js".to_string(),
        "web.2.css".to_string(),
        "a\"b.js".to_string(),
    ];
    let page = generate_index("abc123", &scripts, &branding(None), &toggles(false, false));
    assert!(page.contains("<title>Underground</title>"));
    assert!(page.contains("    <link rel=\"stylesheet\" href=\"/assets/web.2.css\">\n"));
    assert!(page.contains(
        "    <script src=\"/assets/web.1.js\" defer></script>\n    <script src=\"/assets/a&quot;b.js\" defer></script>"
    ));
    assert!(!page.contains("fast identify"));
    let with_extras = generate_index("abc123", &scripts, &branding(None), &toggles(true, true));
    assert!(with_extras.contains(FAST_IDENTIFY_SCRIPT));
    assert!(with_extras.contains(DEV_EXPERIMENTS_SCRIPT));
}
