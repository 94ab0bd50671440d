//! Which of a build's scripts the page must load itself, found from their first and last bytes.
use crate::pattern::{captures_group1, regex_captures};
use crate::text::{
    chars_of, contains, contains_exec, ends_with, ends_with_exec, head_slice, head_window, id_list,
    occurs_at, parse_id_list, rfind_exec, string_of, tail_slice, tail_window, trim_end,
    trim_end_slice, views,
};
use vstd::prelude::*;
use vstd::slice::slice_subrange;

verus! {

/// Bytes at the start of a script that are searched for the chunk markers.
pub const HEAD_SCAN_BYTES: usize = 500;

/// Bytes at the start of a chunk that are searched for the ids it provides.
pub const ID_SCAN_BYTES: usize = 2000;

/// Bytes at the end of a chunk that are searched for an entry factory.
pub const TAIL_SCAN_BYTES: usize = 3000;

/// Bytes at the end of the trimmed tail in which the factory's signature must stand.
pub const CHECK_REGION_BYTES: usize = 500;

/// How many scripts, counted from the first, are scanned.
pub const SCAN_LIMIT: usize = 30;

pub const CHUNK_MARKER: &'static str = "webpackChunk";

pub const PUSH_MARKER: &'static str = ".push(";

pub const SOURCE_MAP_MARKER: &'static str = "//# sourceMappingURL=";

pub const ENTRY_TAIL_END: &'static str = "]);";

pub const ACTIVE_MODULE_MARKER: &'static str = ".s=";

pub const ARROW_MARKER: &'static str = "=>(";

/// The head of a chunk: `.push([[id,id,...]`.
pub const CHUNK_IDS_PATTERN: &'static str = r"\.push\(\[\[(\d+(?:,\d+)*)\]";

/// A deferred-dependency call: `.O(0, [id, id, ...]` or `.O(void 0, [id, ...]`.
pub const DEFERRED_DEPS_PATTERN: &'static str =
    r"\.O\(\s*(?:0|void 0)\s*,\s*\[(\d+(?:\s*,\s*\d+)*)\]";

/// Both chunk markers stand in the first bytes of `content`.
pub open spec fn is_chunk_text(content: Seq<char>) -> bool {
    let head = head_window(content, HEAD_SCAN_BYTES as int);
    contains(head, CHUNK_MARKER@) && contains(head, PUSH_MARKER@)
}

/// The ids that a chunk's head says it provides: the list of the first match of the head
/// pattern in its first bytes, or none.
pub open spec fn chunk_ids(content: Seq<char>) -> Seq<u64> {
    let caps = regex_captures(CHUNK_IDS_PATTERN@, head_window(content, ID_SCAN_BYTES as int));
    if caps.len() > 0 {
        id_list(caps[0])
    } else {
        Seq::empty()
    }
}

/// The start of the last occurrence of `needle` in `hay`.
pub open spec fn last_occurrence(hay: Seq<char>, needle: Seq<char>) -> int {
    choose|p: int| occurs_at(hay, needle, p) && forall|j: int| p < j ==> !occurs_at(hay, needle, j)
}

/// `tail` cut before its last source-map comment, if it has one.
pub open spec fn code_of(tail: Seq<char>) -> Seq<char> {
    if contains(tail, SOURCE_MAP_MARKER@) {
        tail.take(last_occurrence(tail, SOURCE_MAP_MARKER@))
    } else {
        tail
    }
}

/// Where an entry factory's signature is looked for: the last bytes of the tail's code,
/// trimmed, provided that it ends with `]);`.
pub open spec fn check_region(tail: Seq<char>) -> Option<Seq<char>> {
    let trimmed = trim_end(code_of(tail));
    if ends_with(trimmed, ENTRY_TAIL_END@) {
        Some(tail_window(trimmed, CHECK_REGION_BYTES as int))
    } else {
        None
    }
}

/// The signature of an entry factory stands in `region`.
pub open spec fn factory_signature(region: Seq<char>) -> bool {
    regex_captures(DEFERRED_DEPS_PATTERN@, region).len() > 0 || (contains(
        region,
        ACTIVE_MODULE_MARKER@,
    ) && contains(region, ARROW_MARKER@)) || contains(region, ACTIVE_MODULE_MARKER@)
}

pub open spec fn entry_factory(tail: Seq<char>) -> bool {
    match check_region(tail) {
        Some(region) => factory_signature(region),
        None => false,
    }
}

/// The ids of each captured list, in order.
pub open spec fn ids_of_lists(lists: Seq<Seq<char>>) -> Seq<u64>
    decreases lists.len(),
{
    if lists.len() == 0 {
        Seq::empty()
    } else {
        ids_of_lists(lists.drop_last()) + id_list(lists.last())
    }
}

/// Every id named in a deferred-dependency call in `region`.
pub open spec fn deferred_ids(region: Seq<char>) -> Seq<u64> {
    ids_of_lists(regex_captures(DEFERRED_DEPS_PATTERN@, region))
}

fn has_chunk_marks(content: &[char]) -> (r: bool)
    ensures
        r == is_chunk_text(content@),
{
    let head = head_slice(content, HEAD_SCAN_BYTES);
    let chunk = chars_of(CHUNK_MARKER);
    let push = chars_of(PUSH_MARKER);
    contains_exec(head, &chunk) && contains_exec(head, &push)
}

/// Whether the first bytes of `content` carry the chunk markers.
pub fn is_webpack_chunk(content: &str) -> (r: bool)
    ensures
        r == is_chunk_text(content@),
{
    let c = chars_of(content);
    has_chunk_marks(&c)
}

fn chunk_ids_in(content: &[char]) -> (r: Vec<u64>)
    ensures
        r@ == chunk_ids(content@),
{
    let head = head_slice(content, ID_SCAN_BYTES);
    let head_text = string_of(head);
    let caps = captures_group1(CHUNK_IDS_PATTERN, head_text.as_str());
    if caps.len() > 0 {
        assert(views(caps@)[0] == caps@[0]@);
        let list = chars_of(caps[0].as_str());
        parse_id_list(&list)
    } else {
        Vec::new()
    }
}

/// The ids that a chunk provides, read from the head of `content`.
pub fn extract_chunk_ids(content: &str) -> (r: Vec<u64>)
    ensures
        r@ == chunk_ids(content@),
{
    let c = chars_of(content);
    chunk_ids_in(&c)
}

fn check_region_in(tail: &[char]) -> (r: Option<&[char]>)
    ensures
        match r {
            Some(region) => check_region(tail@) == Some(region@),
            None => check_region(tail@) is None,
        },
{
    let marker = chars_of(SOURCE_MAP_MARKER);
    let code: &[char] = match rfind_exec(tail, &marker) {
        Some(p) => {
            proof {
                let q = last_occurrence(tail@, SOURCE_MAP_MARKER@);
                assert(occurs_at(tail@, marker@, p as int));
                assert(q == p);
            }
            assert(tail@.take(p as int) =~= tail@.subrange(0, p as int));
            slice_subrange(tail, 0, p)
        },
        None => tail,
    };
    assert(code@ == code_of(tail@));
    let trimmed = trim_end_slice(code);
    let close = chars_of(ENTRY_TAIL_END);
    if !ends_with_exec(trimmed, &close) {
        return None;
    }
    Some(tail_slice(trimmed, CHECK_REGION_BYTES))
}

fn signature_in(region: &[char]) -> (r: bool)
    ensures
        r == factory_signature(region@),
{
    let text = string_of(region);
    let deferred = captures_group1(DEFERRED_DEPS_PATTERN, text.as_str());
    if deferred.len() > 0 {
        return true;
    }
    let active = chars_of(ACTIVE_MODULE_MARKER);
    let arrow = chars_of(ARROW_MARKER);
    if contains_exec(region, &active) && contains_exec(region, &arrow) {
        return true;
    }
    contains_exec(region, &active)
}

/// Whether the tail of a chunk holds the startup code of an entry chunk.
pub fn has_entry_factory(tail: &str) -> (r: bool)
    ensures
        r == entry_factory(tail@),
{
    let t = chars_of(tail);
    match check_region_in(&t) {
        Some(region) => signature_in(region),
        None => false,
    }
}

fn ids_in_lists(lists: &Vec<String>) -> (r: Vec<u64>)
    ensures
        r@ == ids_of_lists(views(lists@)),
{
    let mut out: Vec<u64> = Vec::new();
    let mut i: usize = 0;
    assert(views(lists@).take(0) =~= Seq::<Seq<char>>::empty());
    while i < lists.len()
        invariant
            i <= lists.len(),
            out@ == ids_of_lists(views(lists@).take(i as int)),
        decreases lists.len() - i,
    {
        let list = chars_of(lists[i].as_str());
        let mut ids = parse_id_list(&list);
        assert(views(lists@).take(i + 1).drop_last() =~= views(lists@).take(i as int));
        out.append(&mut ids);
        i = i + 1;
    }
    assert(views(lists@).take(lists.len() as int) =~= views(lists@));
    out
}

/// The text of each deferred-dependency id list in `region`, in order.
pub fn deferred_dep_lists(region: &str) -> (r: Vec<String>)
    ensures
        views(r@) == regex_captures(DEFERRED_DEPS_PATTERN@, region@),
{
    captures_group1(DEFERRED_DEPS_PATTERN, region)
}

/// Every id that a deferred-dependency call in `region` names, in order.
pub fn deferred_dep_ids(region: &str) -> (r: Vec<u64>)
    ensures
        r@ == deferred_ids(region@),
{
    let lists = captures_group1(DEFERRED_DEPS_PATTERN, region);
    ids_in_lists(&lists)
}

/// The text of each script that could be read.
pub open spec fn texts(contents: Seq<Option<String>>) -> Seq<Option<Seq<char>>> {
    contents.map_values(
        |o: Option<String>|
            match o {
                Some(s) => Some(s@),
                None => None,
            },
    )
}

/// Script `i` of `n` is among those scanned: not the first, and within the scan limit.
pub open spec fn scanned(n: int, i: int) -> bool {
    1 <= i < n && i < SCAN_LIMIT
}

/// A chunk whose tail holds an entry factory.
pub open spec fn is_entry_text(content: Seq<char>) -> bool {
    is_chunk_text(content) && entry_factory(tail_window(content, TAIL_SCAN_BYTES as int))
}

/// The ids that an entry chunk needs before it starts.
pub open spec fn required_by(content: Seq<char>) -> Seq<u64> {
    if is_entry_text(content) {
        deferred_ids(check_region(tail_window(content, TAIL_SCAN_BYTES as int))->0)
    } else {
        Seq::empty()
    }
}

/// The ids needed by the entry chunks among the scanned scripts below `upto`.
pub open spec fn required_ids(cs: Seq<Option<Seq<char>>>, upto: int) -> Set<u64> {
    Set::new(
        |id: u64|
            exists|j: int|
                scanned(cs.len() as int, j) && j < upto && #[trigger] cs[j] is Some
                    && required_by(cs[j]->0).contains(id),
    )
}

/// Some id of `ids` is in `set`.
pub open spec fn shares(ids: Seq<u64>, set: Set<u64>) -> bool {
    exists|k: int| 0 <= k < ids.len() && set.contains(#[trigger] ids[k])
}

/// A scanned script that the scan itself includes: one without chunk markers, or an entry.
pub open spec fn included_by_scan(cs: Seq<Option<Seq<char>>>, i: int) -> bool {
    scanned(cs.len() as int, i) && cs[i] is Some && (!is_chunk_text(cs[i]->0) || is_entry_text(
        cs[i]->0,
    ))
}

/// Whether script `i` belongs to the page's bootstrap set: the first script; a scanned
/// script without chunk markers; an entry chunk; or a scanned chunk that provides an id
/// that an entry chunk needs.
pub open spec fn included(cs: Seq<Option<Seq<char>>>, i: int) -> bool {
    i == 0 || included_by_scan(cs, i) || (scanned(cs.len() as int, i) && cs[i] is Some
        && is_chunk_text(cs[i]->0) && shares(chunk_ids(cs[i]->0), required_ids(cs, cs.len() as int)))
}

/// The names of the included scripts among the first `k`, in their order.
pub open spec fn detected(names: Seq<Seq<char>>, cs: Seq<Option<Seq<char>>>, k: int) -> Seq<
    Seq<char>,
>
    decreases k,
{
    if k <= 0 {
        Seq::empty()
    } else if included(cs, k - 1) {
        detected(names, cs, k - 1).push(names[k - 1])
    } else {
        detected(names, cs, k - 1)
    }
}

fn shares_exec(ids: &Vec<u64>, set: &Vec<u64>) -> (r: bool)
    ensures
        r == shares(ids@, set@.to_set()),
{
    let mut k: usize = 0;
    while k < ids.len()
        invariant
            k <= ids.len(),
            forall|m: int| 0 <= m < k ==> !set@.to_set().contains(#[trigger] ids@[m]),
        decreases ids.len() - k,
    {
        let mut m: usize = 0;
        while m < set.len()
            invariant
                k < ids.len(),
                m <= set.len(),
                forall|q: int| 0 <= q < m ==> set@[q] != ids@[k as int],
            decreases set.len() - m,
        {
            if set[m] == ids[k] {
                assert(set@.to_set().contains(set@[m as int]));
                return true;
            }
            m = m + 1;
        }
        assert(!set@.to_set().contains(ids@[k as int]));
        k = k + 1;
    }
    false
}

/// The scripts that the page must load itself, in the order given: the first script,
/// then each of the first scanned scripts that has no chunk markers or ends in an entry
/// factory, and each scanned chunk that provides an id that such an entry needs.
/// `contents[i]` holds the text of script `i` where it could be read.
pub fn detect_entry_scripts(ordered_scripts: &Vec<String>, contents: &Vec<Option<String>>) -> (r:
    Vec<String>)
    requires
        contents.len() == ordered_scripts.len(),
    ensures
        views(r@) == detected(views(ordered_scripts@), texts(contents@), ordered_scripts.len() as int),
{
    let n = ordered_scripts.len();
    let ghost cs = texts(contents@);
    let limit: usize = if n < SCAN_LIMIT {
        n
    } else {
        SCAN_LIMIT
    };
    let mut flags: Vec<bool> = Vec::new();
    let mut chunk_at: Vec<bool> = Vec::new();
    let mut ids_at: Vec<Vec<u64>> = Vec::new();
    let mut f: usize = 0;
    while f < n
        invariant
            f <= n,
            flags.len() == f,
            chunk_at.len() == f,
            ids_at.len() == f,
            forall|j: int| 0 <= j < f ==> flags@[j] == (j == 0),
            forall|j: int| 0 <= j < f ==> !chunk_at@[j],
        decreases n - f,
    {
        flags.push(f == 0);
        chunk_at.push(false);
        ids_at.push(Vec::new());
        f = f + 1;
    }
    let mut required: Vec<u64> = Vec::new();
    let mut i: usize = 1;
    while i < limit
        invariant
            n == ordered_scripts.len(),
            cs == texts(contents@),
            cs.len() == n,
            limit <= n,
            limit <= SCAN_LIMIT,
            limit == n || limit == SCAN_LIMIT,
            1 <= i,
            i <= limit || limit == 0,
            flags.len() == n,
            chunk_at.len() == n,
            ids_at.len() == n,
            forall|j: int|
                0 <= j < n ==> #[trigger] flags@[j] == (j == 0 || (j < i && included_by_scan(cs, j))),
            forall|j: int|
                0 <= j < n ==> #[trigger] chunk_at@[j] == (scanned(n as int, j) && j < i && cs[j] is Some
                    && is_chunk_text(cs[j]->0)),
            forall|j: int| 0 <= j < n && #[trigger] chunk_at@[j] ==> ids_at@[j]@ == chunk_ids(cs[j]->0),
            required@.to_set() == required_ids(cs, i as int),
        decreases limit - i,
    {
        assert(cs[i as int] == match contents@[i as int] {
            Some(s) => Some(s@),
            None => None::<Seq<char>>,
        });
        match &contents[i] {
            None => {
                assert(required_ids(cs, i + 1) =~= required_ids(cs, i as int));
            },
            Some(text) => {
                let c = chars_of(text.as_str());
                assert(cs[i as int] == Some(c@));
                if !has_chunk_marks(&c) {
                    flags.set(i, true);
                    assert(required_by(c@) =~= Seq::<u64>::empty());
                    assert(required_ids(cs, i + 1) =~= required_ids(cs, i as int));
                } else {
                    let ids = chunk_ids_in(&c);
                    chunk_at.set(i, true);
                    ids_at.set(i, ids);
                    let tail = tail_slice(&c, TAIL_SCAN_BYTES);
                    let mut entry = false;
                    match check_region_in(tail) {
                        Some(region) => {
                            if signature_in(region) {
                                entry = true;
                                flags.set(i, true);
                                let region_text = string_of(region);
                                let mut needed = deferred_dep_ids(region_text.as_str());
                                let ghost before = required@;
                                required.append(&mut needed);
                                proof {
                                    vstd::seq_lib::seq_to_set_distributes_over_add(
                                        before,
                                        required_by(c@),
                                    );
                                    assert(required_ids(cs, i + 1) =~= required_ids(cs, i as int)
                                        + required_by(c@).to_set());
                                }
                            }
                        },
                        None => {},
                    }
                    assert(entry == is_entry_text(c@));
                    if !entry {
                        assert(required_by(c@) =~= Seq::<u64>::empty());
                        assert(required_ids(cs, i + 1) =~= required_ids(cs, i as int));
                    }
                }
            },
        }
        i = i + 1;
    }
    let ghost req = required_ids(cs, n as int);
    assert(required@.to_set() == req) by {
        assert(required_ids(cs, n as int) =~= required_ids(cs, i as int));
    }
    let mut j: usize = 1;
    while j < limit
        invariant
            n == ordered_scripts.len(),
            cs == texts(contents@),
            cs.len() == n,
            limit <= n,
            limit <= SCAN_LIMIT,
            limit == n || limit == SCAN_LIMIT,
            1 <= j,
            flags.len() == n,
            chunk_at.len() == n,
            ids_at.len() == n,
            required@.to_set() == req,
            req == required_ids(cs, n as int),
            forall|q: int|
                0 <= q < n ==> #[trigger] chunk_at@[q] == (scanned(n as int, q) && cs[q] is Some
                    && is_chunk_text(cs[q]->0)),
            forall|q: int| 0 <= q < n && #[trigger] chunk_at@[q] ==> ids_at@[q]@ == chunk_ids(cs[q]->0),
            forall|q: int|
                0 <= q < n ==> #[trigger] flags@[q] == (q == 0 || included_by_scan(cs, q) || (q < j
                    && chunk_at@[q] && shares(ids_at@[q]@, req))),
        decreases limit - j,
    {
        if chunk_at[j] && !flags[j] && shares_exec(&ids_at[j], &required) {
            flags.set(j, true);
        }
        j = j + 1;
    }
    assert forall|q: int| 0 <= q < n implies flags@[q] == included(cs, q) by {
        if chunk_at@[q] {
            assert(ids_at@[q]@ == chunk_ids(cs[q]->0));
        }
    }
    let mut out: Vec<String> = Vec::new();
    let mut m: usize = 0;
    while m < n
        invariant
            n == ordered_scripts.len(),
            cs == texts(contents@),
            flags.len() == n,
            m <= n,
            forall|j: int| 0 <= j < n ==> flags@[j] == included(cs, j),
            views(out@) == detected(views(ordered_scripts@), cs, m as int),
        decreases n - m,
    {
        if flags[m] {
            let name = ordered_scripts[m].clone();
            out.push(name);
            assert(views(out@) =~= detected(views(ordered_scripts@), cs, m as int).push(
                views(ordered_scripts@)[m as int],
            ));
        }
        m = m + 1;
    }
    out
}

/// The first script always heads the result, so a non-empty script list never gives an empty
/// one.
pub proof fn lemma_first_script_leads(names: Seq<Seq<char>>, cs: Seq<Option<Seq<char>>>, k: int)
    requires
        1 <= k,
    ensures
        detected(names, cs, k).len() >= 1,
        detected(names, cs, k)[0] == names[0],
    decreases k,
{
    if k > 1 {
        lemma_first_script_leads(names, cs, k - 1);
    } else {
        assert(detected(names, cs, 0) =~= Seq::<Seq<char>>::empty());
        assert(detected(names, cs, 1) =~= seq![names[0]]);
    }
}

/// Where detection includes none of the scripts after the first, the result is the first
/// script alone.
pub proof fn lemma_fallback_to_first(names: Seq<Seq<char>>, cs: Seq<Option<Seq<char>>>)
    requires
        names.len() > 0,
        forall|i: int| 1 <= i < names.len() ==> !included(cs, i),
    ensures
        detected(names, cs, names.len() as int) == seq![names[0]],
{
    lemma_only_first_upto(names, cs, names.len() as int);
}

proof fn lemma_only_first_upto(names: Seq<Seq<char>>, cs: Seq<Option<Seq<char>>>, k: int)
    requires
        1 <= k <= names.len(),
        forall|i: int| 1 <= i < names.len() ==> !included(cs, i),
    ensures
        detected(names, cs, k) == seq![names[0]],
    decreases k,
{
    if k == 1 {
        assert(detected(names, cs, 0) =~= Seq::<Seq<char>>::empty());
        assert(detected(names, cs, 1) =~= seq![names[0]]);
    } else {
        lemma_only_first_upto(names, cs, k - 1);
    }
}

} // verus!
