use ug2_client::asset_downloader::entry_detector::{
    deferred_dep_ids, deferred_dep_lists, detect_entry_scripts, extract_chunk_ids,
    has_entry_factory, is_webpack_chunk,
};

#[test]
fn test_chunk_detection_self() {
    let chunk = r#"(self["webpackChunkdiscord_app"]=self["webpackChunkdiscord_app"]||[]).push([[1234],{5678:function(e,t,n){"use strict";}}]);"#;
    assert!(is_webpack_chunk(chunk));
}

#[test]
fn test_chunk_detection_this() {
    let chunk = r#"(this.webpackChunkdiscord_app=this.webpackChunkdiscord_app||[]).push([[40532],{517364:()=>{}}]);"#;
    assert!(is_webpack_chunk(chunk));
}

#[test]
fn test_chunk_with_use_strict() {
    let chunk = r#""use strict";(this.webpackChunkdiscord_app=this.webpackChunkdiscord_app||[]).push([[465],{700465:(s,e,a)=>{}}]);"#;
    assert!(is_webpack_chunk(chunk));
}

#[test]
fn test_chunk_with_license_comment() {
    let chunk = r#"/*! For license information please see abc.js.LICENSE.txt */
(this.webpackChunkdiscord_app=this.webpackChunkdiscord_app||[]).push([[81819],{}]);"#;
    assert!(is_webpack_chunk(chunk));
}

#[test]
fn test_entry_webpack_runtime() {
    let entry = r#"(()=>{"use strict";var e,d,c,a,f,b,t,r,n,o,i={},s={};function l(e){var d=s[e];if(void 0!==d)return d.exports;var c=s[e]={id:e,loaded:!1,exports:{}};i[e].call(c.exports,c,c.exports,l);c.loaded=!0;return c.exports}l.m=i;l.c=s;"#;
    assert!(!is_webpack_chunk(entry));
}

#[test]
fn test_entry_function_style() {
    let entry = r#"!function(){"use strict";var e={12345:function(e){e.exports={}}};"#;
    assert!(!is_webpack_chunk(entry));
}

#[test]
fn test_extract_single_chunk_id() {
    let content = r#"(this.webpackChunkdiscord_app=this.webpackChunkdiscord_app||[]).push([[40532],{517364:()=>{}}]);"#;
    assert_eq!(extract_chunk_ids(content), vec![40532]);
}

#[test]
fn test_extract_multiple_chunk_ids() {
    let content = r#"(this.webpackChunkdiscord_app=this.webpackChunkdiscord_app||[]).push([[81819,32162,99322],{517364:()=>{}}]);"#;
    assert_eq!(extract_chunk_ids(content), vec![81819, 32162, 99322]);
}

#[test]
fn test_has_entry_factory_deferred() {
    let tail = r#"[40532,56054,97621,41446,54313,38634].map(e.E)}),5);var t=t=>e(e.s=t);e.O(0,[40532],(()=>(t(128594),t(535666),t(784633),t(289364))));e.O()}]);
//# sourceMappingURL=07e5e273fbca67f2a275.js.map"#;
    assert!(has_entry_factory(tail));
}

#[test]
fn test_has_entry_factory_simple() {
    let tail = r#"},t=>{var e=e=>t(t.s=e);e(128594),e(535666),e(784633),e(127124)}]);
//# sourceMappingURL=e0d02106cf52f3b8851e.js.map"#;
    assert!(has_entry_factory(tail));
}

#[test]
fn test_regular_chunk_no_entry() {
    let tail = r#"r=(this.height_-1)/(this.labels_.length-1),n=1;n<this.labels_.length;++n)e.fillText(this.labels_[n],t,r*n)}}};return e}();return e}();e.exports=t}}]);
//# sourceMappingURL=b62c62429a41fb1f5911.js.map"#;
    assert!(!has_entry_factory(tail));
}

#[test]
fn test_regular_chunk_jsx() {
    let tail = r#"(0,i.jsx)(t.zxk,{onClick:e,children:r.Z.Messages.OKAY})})]})}}}]);
//# sourceMappingURL=36a7e76e72fc807c0457.js.map"#;
    assert!(!has_entry_factory(tail));
}

#[test]
fn test_deferred_deps_extraction() {
    let tail = r#"e.O(0,[40532],(()=>(t(128594),t(535666))));e.O()}]);"#;
    let caps = deferred_dep_lists(tail);
    assert_eq!(caps, vec!["40532"]);
}

#[test]
fn test_deferred_deps_multiple() {
    let tail = r#"e.O(0,[40532,56054],(()=>(t(128594))));e.O()}]);"#;
    let deps = deferred_dep_ids(tail);
    assert_eq!(deps, vec![40532, 56054]);
}

#[test]
fn deferred_ids_with_spaces_and_void() {
    let tail = r#"e.O(void 0, [12, 34 ,56],(()=>t(1)));e.O()}]);"#;
    assert_eq!(deferred_dep_ids(tail), vec![12, 34, 56]);
}

#[test]
fn entry_factory_needs_closing_call() {
    assert!(!has_entry_factory("var t=t=>e(e.s=t);"));
    assert!(has_entry_factory("var t=t=>e(e.s=t);}]);   \n  "));
    assert!(!has_entry_factory(""));
}

#[test]
fn chunk_markers_only_count_in_the_head() {
    let mut text = "x".repeat(600);
    text.push_str("webpackChunk.push(");
    assert!(!is_webpack_chunk(&text));
    let short = "webpackChunk x .push(";
    assert!(is_webpack_chunk(short));
}

#[test]
fn chunk_ids_absent_without_head_pattern() {
    assert_eq!(extract_chunk_ids("no registration here"), Vec::<u64>::new());
    assert_eq!(extract_chunk_ids(".push([[7,8]"), vec![7, 8]);
}

fn names(v: &[&str]) -> Vec<String> {
    v.iter().map(|s| s.to_string()).collect()
}

#[test]
fn entry_detection_scenario() {
    let scripts = names(&["runtime.js", "chunkA.js", "chunkB.js"]);
    let runtime = r#"(()=>{"use strict";var e={};})();"#.to_string();
    let chunk_a = r#"(this.webpackChunkdiscord_app=this.webpackChunkdiscord_app||[]).push([[111],{1:()=>{}},e=>{var t=t=>e(e.s=t);e.O(0,[40532],(()=>t(1)));e.O()}]);"#.to_string();
    let chunk_b = r#"(this.webpackChunkdiscord_app=this.webpackChunkdiscord_app||[]).push([[40532],{2:()=>{}}]);"#.to_string();
    assert!(!has_entry_factory(&chunk_b));
    let contents = vec![Some(runtime), Some(chunk_a), Some(chunk_b)];
    let result = detect_entry_scripts(&scripts, &contents);
    assert_eq!(result, scripts);
}

#[test]
fn entry_detection_falls_back_to_first() {
    let scripts = names(&["a.js", "b.js", "c.js"]);
    let plain_chunk = r#"(this.webpackChunkdiscord_app=this.webpackChunkdiscord_app||[]).push([[5],{}]);"#.to_string();
    let contents = vec![None, Some(plain_chunk.clone()), Some(plain_chunk)];
    assert_eq!(detect_entry_scripts(&scripts, &contents), names(&["a.js"]));
}

#[test]
fn entry_detection_skips_unreadable_and_empty() {
    assert_eq!(detect_entry_scripts(&Vec::new(), &Vec::new()), Vec::<String>::new());
    let scripts = names(&["a.js", "b.js"]);
    assert_eq!(detect_entry_scripts(&scripts, &vec![None, None]), names(&["a.js"]));
}

#[test]
fn entry_detection_scans_only_the_first_scripts() {
    let mut scripts = Vec::new();
    let mut contents = Vec::new();
    for i in 0..32 {
        scripts.push(format!("s{}.js", i));
        contents.push(Some("plain()".to_string()));
    }
    let result = detect_entry_scripts(&scripts, &contents);
    assert_eq!(result.len(), 30);
    assert_eq!(result[29], "s29.js");
}
