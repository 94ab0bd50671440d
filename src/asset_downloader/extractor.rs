//! Names of the assets that a text refers to.
use crate::pattern::{captures_group1, regex_captures};
use crate::text::views;
use vstd::hash_set::StringHashSet;
use vstd::prelude::*;

verus! {

/// A quoted content hash of 20 hexadecimal digits.
pub const HEX_HASH_PATTERN: &'static str = r#""([A-Fa-f0-9]{20})""#;

/// An entry `<id>:"<16 hex digits>"` of a chunk-hash table.
pub const CHUNK_HASH_PATTERN: &'static str = r#"\d[\w]*:"([a-f0-9]{16})""#;

/// An export of an asset path: `.exports=<x>.<y>+"<path>.<ext>"`.
pub const EXPORT_PATTERN: &'static str = r#"\.exports=.\..\+"(.*?\..{0,5})""#;

/// A literal `/assets/<name>.<ext>` URL.
pub const ASSET_URL_PATTERN: &'static str = r#"/assets/([a-zA-Z0-9]+\.[a-z0-9]{2,5})"#;

/// Every name that one of the four rules captures in `content`.
pub open spec fn asset_refs(content: Seq<char>) -> Set<Seq<char>> {
    regex_captures(HEX_HASH_PATTERN@, content).to_set() + regex_captures(
        CHUNK_HASH_PATTERN@,
        content,
    ).to_set() + regex_captures(EXPORT_PATTERN@, content).to_set() + regex_captures(
        ASSET_URL_PATTERN@,
        content,
    ).to_set()
}

/// Appends to `out` those of `items` that `seen` does not hold yet, once each.
fn add_new(seen: &mut StringHashSet, out: &mut Vec<String>, items: &Vec<String>)
    requires
        old(seen)@ == views(old(out)@).to_set(),
        views(old(out)@).no_duplicates(),
    ensures
        final(seen)@ == views(final(out)@).to_set(),
        views(final(out)@).no_duplicates(),
        views(final(out)@).to_set() == views(old(out)@).to_set() + views(items@).to_set(),
{
    let mut i: usize = 0;
    while i < items.len()
        invariant
            i <= items.len(),
            seen@ == views(out@).to_set(),
            views(out@).no_duplicates(),
            views(out@).to_set() == views(old(out)@).to_set() + views(items@.take(i as int)).to_set(),
        decreases items.len() - i,
    {
        let item = &items[i];
        let ghost before = views(out@);
        assert(views(items@.take(i + 1)) =~= views(items@.take(i as int)).push(item@));
        if !seen.contains(item.as_str()) {
            seen.insert(item.clone());
            out.push(item.clone());
            assert(views(out@) =~= before.push(item@));
            proof {
                before.lemma_push_to_set_commute(item@);
            }
        }
        proof {
            views(items@.take(i as int)).lemma_push_to_set_commute(item@);
        }
        i = i + 1;
    }
    assert(items@.take(items.len() as int) =~= items@);
}

/// The names of the assets that `content` refers to, each once, in no particular order.
pub fn extract_asset_refs(content: &str) -> (r: Vec<String>)
    ensures
        views(r@).to_set() == asset_refs(content@),
        views(r@).no_duplicates(),
{
    let mut seen = StringHashSet::new();
    let mut out: Vec<String> = Vec::new();
    assert(views(out@).to_set() =~= Set::empty());
    let hex = captures_group1(HEX_HASH_PATTERN, content);
    add_new(&mut seen, &mut out, &hex);
    let chunk = captures_group1(CHUNK_HASH_PATTERN, content);
    add_new(&mut seen, &mut out, &chunk);
    let export = captures_group1(EXPORT_PATTERN, content);
    add_new(&mut seen, &mut out, &export);
    let url = captures_group1(ASSET_URL_PATTERN, content);
    add_new(&mut seen, &mut out, &url);
    assert(views(out@).to_set() =~= asset_refs(content@));
    out
}

} // verus!
