//! The page that loads a build, and the content types under which its assets are served.
use crate::config::{BrandingConfig, PatchToggles};
use crate::text::{
    chars_of, ends_with, ends_with_exec, joined, push_all, replace_text, replaced, starts_with, starts_with_exec,
    string_of, views,
};
use vstd::prelude::*;
use vstd::slice::slice_subrange;

verus! {

/// The prefix under which assets are named in script lists.
pub const ASSETS_PREFIX: &'static str = "/assets/";

pub const CSS_TAG_HEAD: &'static str = "    <link rel=\"stylesheet\" href=\"/assets/";

pub const CSS_TAG_TAIL: &'static str = "\">";

pub const SCRIPT_TAG_HEAD: &'static str = "    <script src=\"/assets/";

pub const SCRIPT_TAG_TAIL: &'static str = "\" defer></script>";

/// The gateway address when none is configured: the page's own host, over `ws` or `wss`.
pub const LOCAL_GATEWAY: &'static str =
    r#"`${location.protocol === "https:" ? "wss://" : "ws://"}${location.host}`"#;

pub const PAGE_PART_0: &'static str = r#"<!DOCTYPE html>
<html lang="en">

<head>
    <meta charset="UTF-8" />
    <meta name="viewport" content="width=device-width, initial-scale=1.0" />
    <title>"#;

pub const PAGE_PART_1: &'static str = r#"</title>

    <script>
        // Intercept XHR & fetch: Discord forces https: on API endpoints,
        // but our server runs on HTTP. Rewrite same-host https -> http.
        (function() {
            if (location.protocol !== "http:") return;
            var hs = "https://" + location.host;
            var hp = "http://" + location.host;
            function rw(u) {
                return (typeof u === "string" && u.indexOf(hs) === 0)
                    ? hp + u.slice(hs.length) : u;
            }
            var xOpen = XMLHttpRequest.prototype.open;
            XMLHttpRequest.prototype.open = function(m, u) {
                arguments[1] = rw(u);
                return xOpen.apply(this, arguments);
            };
            var oFetch = window.fetch;
            window.fetch = function(i, o) {
                return oFetch.call(this, rw(i), o);
            };
        })();

        window.__OVERLAY__ = /overlay/.test(location.pathname);
        window.__BILLING_STANDALONE__ = /^\/billing/.test(location.pathname);
"#;

pub const PAGE_PART_2: &'static str = r#"
        window.localStorage.setItem("gatewayURL", window.GLOBAL_ENV.GATEWAY_ENDPOINT);
        window.localStorage.setItem(
            "DeveloperOptionsStore",
            '{"trace":false,"canary":true,"logGatewayEvents":false,"logOverlayEvents":false,"logAnalyticsEvents":false,"sourceMapsEnabled":false,"axeEnabled":false}'
        );
    </script>
"#;

pub const PAGE_PART_3: &'static str = r#"
"#;

pub const PAGE_PART_4: &'static str = r#"
</head>

<body>
    <div id="app-mount"></div>
"#;

pub const PAGE_PART_5: &'static str = r#"
"#;

pub const PAGE_PART_6: &'static str = r#"
</body>

</html>"#;

pub const ENV_PART_0: &'static str = r#"        window.GLOBAL_ENV = {
            API_ENDPOINT: `//${location.host}/api`,
            API_VERSION: 9,
            GATEWAY_ENDPOINT: "#;

pub const ENV_PART_1: &'static str = r#",
            WEBAPP_ENDPOINT: `//${location.host}`,
            CDN_HOST: "cdn.discordapp.com",
            ASSET_ENDPOINT: `//${location.host}`,
            PUBLIC_PATH: "/assets/",
            MEDIA_PROXY_ENDPOINT: "https://media.discordapp.net",
            WIDGET_ENDPOINT: `//${location.host}/widget`,
            INVITE_HOST: `${location.host}/invite`,
            GUILD_TEMPLATE_HOST: `${location.host}/template`,
            GIFT_CODE_HOST: `${location.host}/gift`,
            RELEASE_CHANNEL: "canary",
            MARKETING_ENDPOINT: "//discord.com",
            BRAINTREE_KEY: "production_5st77rrc_49pp2rp4phym7387",
            STRIPE_KEY: "pk_live_CUQtlpQUF0vufWpnpUmQvcdi",
            NETWORKING_ENDPOINT: "//router.discordapp.net",
            RTC_LATENCY_ENDPOINT: `//${location.host}/rtc`,
            ACTIVITY_APPLICATION_HOST: "discordsays.com",
            PROJECT_ENV: "production",
            REMOTE_AUTH_ENDPOINT: "//localhost:3020",
            SENTRY_TAGS: { buildId: ""#;

pub const ENV_PART_2: &'static str = r#"", buildType: "normal" },
            MIGRATION_SOURCE_ORIGIN: `https://${location.host}`,
            MIGRATION_DESTINATION_ORIGIN: `https://${location.host}`,
            HTML_TIMESTAMP: Date.now(),
            ALGOLIA_KEY: "aca0d7082e4e63af5ba5917d5e96bed0"
        };"#;

/// Opens the gateway connection before the client loads, to save a round trip.
pub const FAST_IDENTIFY_SCRIPT: &'static str = r#"
    <!-- fast identify -->
    <script>
        (() => {
            if (window.WebSocket == null) return;
            if (window.__OVERLAY__) return;

            const getStorage = (key) => {
                try {
                    return JSON.parse(localStorage.getItem(key));
                } catch (e) {
                    return undefined;
                }
            };

            const token = getStorage("token");
            if (!token) return;

            const encoding = window.DiscordNative != null || window.require != null ? "etf" : "json";
            const url = window.GLOBAL_ENV.GATEWAY_ENDPOINT +
                "/?encoding=" + encoding +
                "&v=" + window.GLOBAL_ENV.API_VERSION +
                "&compress=zlib-stream";

            console.log("[FAST IDENTIFY] connecting to:", url);

            const socket = new WebSocket(url);
            socket.binaryType = "arraybuffer";
            const start = Date.now();
            const state = { open: false, identity: false, gateway: url, messages: [] };

            socket.onopen = function () {
                console.log(`[FAST IDENTIFY] connected in ${Date.now() - start}ms`);
                state.open = true;
                console.log("[FAST IDENTIFY] Sending payload");
                state.identity = true;
                const payload = {
                    op: 2,
                    d: {
                        token: token,
                        capabilities: 509,
                        properties: {
                            ...(getStorage("deviceProperties") || {}),
                            browser_user_agent: navigator.userAgent,
                        },
                        compress: false,
                        presence: {
                            status: getStorage("UserSettingsStore")?.status || "online",
                            since: 0,
                            activities: [],
                            afk: false,
                        },
                    }
                };
                socket.send(JSON.stringify(payload));
            };

            socket.onclose = socket.onerror = (e) => {
                console.log("[FAST IDENTIFY] Failed", e);
                window._ws = null;
            };

            socket.onmessage = (message) => {
                state.messages.push(message);
            };

            window._ws = { ws: socket, state };
        })();
    </script>
"#;

/// Turns on the developer experiments once the client has loaded.
pub const DEV_EXPERIMENTS_SCRIPT: &'static str = r#"    <script>
        window.webpackChunkdiscord_app.push([[ Math.random() ], {}, (req) => { wpRequire = req; }]);
        mod = Object.values(wpRequire.c).find(x => typeof x?.exports?.Z?.isDeveloper !== "undefined");
        usermod = Object.values(wpRequire.c).find(x => x?.exports?.default?.getUsers)
        nodes = Object.values(mod.exports.Z._dispatcher._actionHandlers._dependencyGraph.nodes)
        try {
            nodes.find(x => x.name == "ExperimentStore").actionHandler["OVERLAY_INITIALIZE"]({user: {flags: 1}})
        } catch (e) {}
        oldGetUser = usermod.exports.default.__proto__.getCurrentUser;
        usermod.exports.default.__proto__.getCurrentUser = () => ({isStaff: () => true})
        nodes.find(x => x.name == "DeveloperExperimentStore").actionHandler["CONNECTION_OPEN"]()
        usermod.exports.default.__proto__.getCurrentUser = oldGetUser
    </script>"#;

/// The content type under which an asset is served, by the end of its name.
pub open spec fn content_type(name: Seq<char>) -> Seq<char> {
    if ends_with(name, ".js"@) {
        "application/javascript"@
    } else if ends_with(name, ".css"@) {
        "text/css"@
    } else if ends_with(name, ".svg"@) {
        "image/svg+xml"@
    } else if ends_with(name, ".png"@) {
        "image/png"@
    } else if ends_with(name, ".woff2"@) {
        "font/woff2"@
    } else if ends_with(name, ".woff"@) {
        "font/woff"@
    } else if ends_with(name, ".wasm"@) {
        "application/wasm"@
    } else if ends_with(name, ".map"@) {
        "application/json"@
    } else {
        "application/octet-stream"@
    }
}

fn name_ends_with(name: &Vec<char>, suffix: &str) -> (r: bool)
    ensures
        r == ends_with(name@, suffix@),
{
    let s = chars_of(suffix);
    ends_with_exec(name, &s)
}

pub fn guess_content_type(name: &str) -> (r: &'static str)
    ensures
        r@ == content_type(name@),
{
    let n = chars_of(name);
    if name_ends_with(&n, ".js") {
        "application/javascript"
    } else if name_ends_with(&n, ".css") {
        "text/css"
    } else if name_ends_with(&n, ".svg") {
        "image/svg+xml"
    } else if name_ends_with(&n, ".png") {
        "image/png"
    } else if name_ends_with(&n, ".woff2") {
        "font/woff2"
    } else if name_ends_with(&n, ".woff") {
        "font/woff"
    } else if name_ends_with(&n, ".wasm") {
        "application/wasm"
    } else if name_ends_with(&n, ".map") {
        "application/json"
    } else {
        "application/octet-stream"
    }
}

/// `s` with `&`, `"`, `<` and `>` written as HTML entities.
pub open spec fn html_escaped(s: Seq<char>) -> Seq<char> {
    replaced(
        replaced(replaced(replaced(s, "&"@, "&amp;"@), "\""@, "&quot;"@), "<"@, "&lt;"@),
        ">"@,
        "&gt;"@,
    )
}

fn escape_chars(s: &Vec<char>) -> (r: Vec<char>)
    ensures
        r@ == html_escaped(s@),
{
    let a = replace_text(s, "&", "&amp;");
    let b = replace_text(&a, "\"", "&quot;");
    let c = replace_text(&b, "<", "&lt;");
    replace_text(&c, ">", "&gt;")
}

pub fn html_escape(s: &str) -> (r: String)
    ensures
        r@ == html_escaped(s@),
{
    let c = chars_of(s);
    let e = escape_chars(&c);
    string_of(&e)
}

/// `s` without every leading `/assets/`.
pub open spec fn asset_path(s: Seq<char>) -> Seq<char>
    decreases s.len(),
{
    if ASSETS_PREFIX@.len() > 0 && starts_with(s, ASSETS_PREFIX@) {
        asset_path(s.skip(ASSETS_PREFIX@.len() as int))
    } else {
        s
    }
}

fn asset_path_of(s: &Vec<char>) -> (r: Vec<char>)
    ensures
        r@ == asset_path(s@),
{
    let prefix = chars_of(ASSETS_PREFIX);
    let mut rest: &[char] = s.as_slice();
    while prefix.len() > 0 && starts_with_exec(rest, &prefix)
        invariant
            prefix@ == ASSETS_PREFIX@,
            asset_path(rest@) == asset_path(s@),
        decreases rest.len(),
    {
        assert(rest@.skip(prefix@.len() as int) =~= rest@.subrange(
            prefix@.len() as int,
            rest@.len() as int,
        ));
        rest = slice_subrange(rest, prefix.len(), rest.len());
    }
    let mut r: Vec<char> = Vec::new();
    push_all(&mut r, rest);
    r
}

/// The tag line of each script that is (`css`) or is not a stylesheet, in order.
pub open spec fn tag_lines(scripts: Seq<Seq<char>>, css: bool) -> Seq<Seq<char>>
    decreases scripts.len(),
{
    if scripts.len() == 0 {
        Seq::empty()
    } else {
        let prev = tag_lines(scripts.drop_last(), css);
        let asset = asset_path(scripts.last());
        if ends_with(asset, ".css"@) != css {
            prev
        } else if css {
            prev.push(CSS_TAG_HEAD@ + html_escaped(asset) + CSS_TAG_TAIL@)
        } else {
            prev.push(SCRIPT_TAG_HEAD@ + html_escaped(asset) + SCRIPT_TAG_TAIL@)
        }
    }
}

fn push_str(out: &mut Vec<char>, s: &str)
    ensures
        final(out)@ == old(out)@ + s@,
{
    let mut c = chars_of(s);
    out.append(&mut c);
}

fn push_chars(out: &mut Vec<char>, c: &Vec<char>)
    ensures
        final(out)@ == old(out)@ + c@,
{
    let mut d = c.clone();
    out.append(&mut d);
}

fn tags(scripts: &Vec<String>, css: bool) -> (r: Vec<char>)
    ensures
        r@ == joined(tag_lines(views(scripts@), css), "\n"@),
{
    let mut out: Vec<char> = Vec::new();
    let mut i: usize = 0;
    let mut count: usize = 0;
    assert(views(scripts@).take(0) =~= Seq::<Seq<char>>::empty());
    while i < scripts.len()
        invariant
            i <= scripts.len(),
            count == tag_lines(views(scripts@).take(i as int), css).len(),
            count <= i,
            out@ == joined(tag_lines(views(scripts@).take(i as int), css), "\n"@),
        decreases scripts.len() - i,
    {
        let ghost before = tag_lines(views(scripts@).take(i as int), css);
        assert(views(scripts@).take(i + 1).drop_last() =~= views(scripts@).take(i as int));
        assert(views(scripts@).take(i + 1).last() == scripts@[i as int]@);
        let name = chars_of(scripts[i].as_str());
        let asset = asset_path_of(&name);
        if name_ends_with(&asset, ".css") == css {
            let mut line: Vec<char> = Vec::new();
            if css {
                push_str(&mut line, CSS_TAG_HEAD);
            } else {
                push_str(&mut line, SCRIPT_TAG_HEAD);
            }
            let escaped = escape_chars(&asset);
            push_chars(&mut line, &escaped);
            if css {
                push_str(&mut line, CSS_TAG_TAIL);
            } else {
                push_str(&mut line, SCRIPT_TAG_TAIL);
            }
            let ghost after = tag_lines(views(scripts@).take(i + 1), css);
            assert(after == before.push(line@));
            assert(after.drop_last() =~= before);
            if count > 0 {
                push_str(&mut out, "\n");
            } else {
                assert(out@ =~= Seq::<char>::empty());
            }
            push_chars(&mut out, &line);
            assert(after.last() == line@);
            if count == 0 {
                assert(out@ =~= line@);
            }
            count = count + 1;
        }
        i = i + 1;
    }
    assert(views(scripts@).take(i as int) =~= views(scripts@));
    out
}

/// The script that sets up the page's environment for build `build_hash`.
pub open spec fn global_env(gateway_url: Option<Seq<char>>, build_hash: Seq<char>) -> Seq<char> {
    let gateway = match gateway_url {
        Some(gw) => "\""@ + gw + "\""@,
        None => LOCAL_GATEWAY@,
    };
    ENV_PART_0@ + gateway + ENV_PART_1@ + build_hash + ENV_PART_2@
}

pub open spec fn gateway_view(url: Option<String>) -> Option<Seq<char>> {
    match url {
        Some(s) => Some(s@),
        None => None,
    }
}

pub fn generate_global_env(branding: &BrandingConfig, build_hash: &str) -> (r: String)
    ensures
        r@ == global_env(gateway_view(branding.gateway_url), build_hash@),
{
    let mut out = chars_of(ENV_PART_0);
    match &branding.gateway_url {
        Some(gw) => {
            push_str(&mut out, "\"");
            push_str(&mut out, gw.as_str());
            push_str(&mut out, "\"");
        },
        None => push_str(&mut out, LOCAL_GATEWAY),
    }
    push_str(&mut out, ENV_PART_1);
    push_str(&mut out, build_hash);
    push_str(&mut out, ENV_PART_2);
    assert(out@ =~= global_env(gateway_view(branding.gateway_url), build_hash@));
    string_of(&out)
}

/// The page that loads build `build_hash`: its environment, a stylesheet link for each
/// stylesheet of `scripts` and a script tag for each other script, in order, and the optional
/// scripts that the patches ask for.
pub open spec fn index_page(
    build_hash: Seq<char>,
    scripts: Seq<Seq<char>>,
    branding: BrandingConfig,
    patches: PatchToggles,
) -> Seq<char> {
    let fast = if patches.fast_identify {
        FAST_IDENTIFY_SCRIPT@
    } else {
        Seq::empty()
    };
    let dev = if patches.enable_dev_experiments {
        DEV_EXPERIMENTS_SCRIPT@
    } else {
        Seq::empty()
    };
    PAGE_PART_0@ + branding.instance_name@ + PAGE_PART_1@ + global_env(
        gateway_view(branding.gateway_url),
        build_hash,
    ) + PAGE_PART_2@ + joined(tag_lines(scripts, true), "\n"@) + PAGE_PART_3@ + fast
        + PAGE_PART_4@ + joined(tag_lines(scripts, false), "\n"@) + PAGE_PART_5@ + dev
        + PAGE_PART_6@
}

pub fn generate_index(
    build_hash: &str,
    scripts: &Vec<String>,
    branding: &BrandingConfig,
    patches: &PatchToggles,
) -> (r: String)
    ensures
        r@ == index_page(build_hash@, views(scripts@), *branding, *patches),
{
    let env = generate_global_env(branding, build_hash);
    let css = tags(scripts, true);
    let js = tags(scripts, false);
    let mut out = chars_of(PAGE_PART_0);
    push_str(&mut out, branding.instance_name.as_str());
    push_str(&mut out, PAGE_PART_1);
    push_str(&mut out, env.as_str());
    push_str(&mut out, PAGE_PART_2);
    push_chars(&mut out, &css);
    push_str(&mut out, PAGE_PART_3);
    if patches.fast_identify {
        push_str(&mut out, FAST_IDENTIFY_SCRIPT);
    }
    push_str(&mut out, PAGE_PART_4);
    push_chars(&mut out, &js);
    push_str(&mut out, PAGE_PART_5);
    if patches.enable_dev_experiments {
        push_str(&mut out, DEV_EXPERIMENTS_SCRIPT);
    }
    push_str(&mut out, PAGE_PART_6);
    assert(out@ =~= index_page(build_hash@, views(scripts@), *branding, *patches));
    string_of(&out)
}

} // verus!
