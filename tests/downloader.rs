use ug2_client::asset_downloader::downloader::{
    is_text_asset_name, next_fetch_step, normalize_asset_name, refs_of_cached, refs_of_fetched,
    start_task, FetchStep, Frontier, TaskStart,
};
use ug2_client::cache::{asset_key, builds_list_key};

fn names(v: &[&str]) -> Vec<String> {
    v.iter().map(|s| s.to_string()).collect()
}

#[test]
fn bare_names_get_the_script_extension() {
    assert_eq!(normalize_asset_name("1234"), "1234.js");
    assert_eq!(normalize_asset_name("web.65877e3d81a538c8.js"), "web.65877e3d81a538c8.js");
    assert_eq!(normalize_asset_name("a.svg"), "a.svg");
    assert_eq!(normalize_asset_name(""), ".js");
}

#[test]
fn wave_normalizes_and_dedups() {
    let mut f = Frontier::new(&names(&["1234", "1234.js", "b.css", "1234"]));
    let wave = f.take_wave();
    assert_eq!(wave, names(&["1234.js", "b.css"]));
    assert!(f.is_done());
}

#[test]
fn shared_reference_is_fetched_once() {
    let mut f = Frontier::new(&names(&["a.js", "b.js"]));
    let wave = f.take_wave();
    assert_eq!(wave, names(&["a.js", "b.js"]));
    f.record("a.js".to_string(), Some(names(&["c"])));
    f.record("b.js".to_string(), Some(names(&["c"])));
    let wave = f.take_wave();
    assert_eq!(wave, names(&["c.js"]));
    f.record("c.js".to_string(), Some(Vec::new()));
    assert!(f.is_done());
    assert_eq!(f.downloaded_names(), names(&["a.js", "b.js", "c.js"]));
}

#[test]
fn reference_cycle_terminates() {
    let mut f = Frontier::new(&names(&["a.js"]));
    let mut waves = 0;
    while !f.is_done() {
        waves += 1;
        assert!(waves < 10);
        let wave = f.take_wave();
        for name in wave {
            let refs = if name == "a.js" { names(&["b.js"]) } else { names(&["a.js"]) };
            f.record(name, Some(refs));
        }
    }
    assert_eq!(f.downloaded_names(), names(&["a.js", "b.js"]));
    assert_eq!(waves, 2);
}

#[test]
fn failed_task_is_dropped() {
    let mut f = Frontier::new(&names(&["a.js"]));
    let wave = f.take_wave();
    f.record(wave[0].clone(), None);
    assert!(f.is_done());
    assert!(f.downloaded_names().is_empty());
}

#[test]
fn retry_policy() {
    assert!(matches!(next_fetch_step(0, Some(200)), FetchStep::Accept));
    assert!(matches!(next_fetch_step(3, Some(204)), FetchStep::Accept));
    assert!(matches!(next_fetch_step(0, Some(404)), FetchStep::Abandon));
    assert!(matches!(next_fetch_step(0, None), FetchStep::RetryAfter(500)));
    assert!(matches!(next_fetch_step(1, Some(500)), FetchStep::RetryAfter(1000)));
    assert!(matches!(next_fetch_step(2, Some(302)), FetchStep::RetryAfter(2000)));
    assert!(matches!(next_fetch_step(3, None), FetchStep::Abandon));
}

#[test]
fn text_assets_are_scanned() {
    assert!(is_text_asset_name("a.js"));
    assert!(is_text_asset_name("a.css"));
    assert!(!is_text_asset_name("a.svg"));
    let body = br#"x("b456855ec667950dcf68")"#;
    assert_eq!(refs_of_fetched("a.js", body), names(&["b456855ec667950dcf68"]));
    assert!(refs_of_fetched("a.png", body).is_empty());
    assert_eq!(
        refs_of_cached("a.css", r#"url(/assets/f.woff2)"#),
        names(&["f.woff2"])
    );
}

#[test]
fn cached_and_fetched_copies_agree() {
    let text = r#"{1:"2681623fb3f7aa56"} n.exports=a.p+"9.abc.css""#;
    let mut cached = refs_of_cached("a.js", text);
    let mut fetched = refs_of_fetched("a.js", text.as_bytes());
    cached.sort();
    fetched.sort();
    assert_eq!(cached, fetched);
}

#[test]
fn fetched_bytes_are_read_lossily() {
    let mut body = b"\xff\xfe".to_vec();
    body.extend_from_slice(br#"("b456855ec667950dcf68")"#);
    assert_eq!(refs_of_fetched("a.js", &body), names(&["b456855ec667950dcf68"]));
}

#[test]
fn cache_keys() {
    assert_eq!(asset_key("abc", "web.js"), "asset:abc:web.js");
    assert_eq!(builds_list_key(), "cache:builds_list");
}

#[test]
fn cached_assets_skip_the_network() {
    assert!(start_task("a.js", true) == TaskStart::ReadBack);
    assert!(start_task("a.css", true) == TaskStart::ReadBack);
    assert!(start_task("a.png", true) == TaskStart::NothingToScan);
    assert!(start_task("a.js", false) == TaskStart::Fetch);
    assert!(start_task("a.png", false) == TaskStart::Fetch);
}
