//! The decisions of a wave-by-wave crawl over the assets of a build.
//!
//! The crawl's I/O (fetches, cache reads and writes, sleeps) is done by the caller; this module
//! holds the crawl's state and decides what is fetched, what is retried and what comes next.
use crate::asset_downloader::extractor::{asset_refs, extract_asset_refs};
use crate::text::{chars_of, ends_with, ends_with_exec, string_of, views};
use vstd::hash_set::StringHashSet;
use vstd::prelude::*;
use vstd::utf8::{decode_utf8, valid_utf8};

verus! {

/// The most fetches in flight at once, over a whole crawl.
pub const MAX_CONCURRENT: usize = 100;

/// Attempts after the first that a failing fetch gets.
pub const MAX_RETRIES: u32 = 3;

/// Wait before the first retry, in milliseconds; each later retry waits twice as long.
pub const BACKOFF_BASE_MS: u64 = 500;

/// Extension given to a name that has none.
pub const DEFAULT_EXTENSION: &'static str = ".js";

/// `name`, with `.js` appended where it holds no `.`.
pub open spec fn normalized(name: Seq<char>) -> Seq<char> {
    if name.contains('.') {
        name
    } else {
        name + DEFAULT_EXTENSION@
    }
}

/// The name under which a referenced asset is looked up and fetched.
pub fn normalize_asset_name(name: &str) -> (r: String)
    ensures
        r@ == normalized(name@),
{
    let mut c = chars_of(name);
    let mut i: usize = 0;
    while i < c.len()
        invariant
            c@ == name@,
            i <= c.len(),
            forall|j: int| 0 <= j < i ==> c@[j] != '.',
        decreases c.len() - i,
    {
        if c[i] == '.' {
            assert(name@.contains('.')) by {
                assert(name@[i as int] == '.');
            }
            return string_of(&c);
        }
        i = i + 1;
    }
    let mut ext = chars_of(DEFAULT_EXTENSION);
    c.append(&mut ext);
    string_of(&c)
}

/// A script or a stylesheet, whose text may name other assets.
pub open spec fn is_text_asset(name: Seq<char>) -> bool {
    ends_with(name, ".js"@) || ends_with(name, ".css"@)
}

pub fn is_text_asset_name(name: &str) -> (r: bool)
    ensures
        r == is_text_asset(name@),
{
    let c = chars_of(name);
    let js = chars_of(".js");
    let css = chars_of(".css");
    ends_with_exec(&c, &js) || ends_with_exec(&c, &css)
}

/// The names that the asset `name` with text `text` refers to: those of its text for a
/// script or stylesheet, none for any other asset.
pub open spec fn text_refs(name: Seq<char>, text: Seq<char>) -> Set<Seq<char>> {
    if is_text_asset(name) {
        asset_refs(text)
    } else {
        Set::empty()
    }
}

/// The text that `String::from_utf8_lossy` makes of `bytes`.
pub uninterp spec fn lossy_text(bytes: Seq<u8>) -> Seq<char>;

/// Relies on `String::from_utf8_lossy`: invalid sequences become U+FFFD, and valid UTF-8
/// is decoded as it stands.
#[verifier::external_body]
fn decode_lossy(bytes: &[u8]) -> (r: String)
    ensures
        r@ == lossy_text(bytes@),
        valid_utf8(bytes@) ==> r@ == decode_utf8(bytes@),
{
    String::from_utf8_lossy(bytes).into_owned()
}

/// The names that an asset read back from the cache refers to.
pub fn refs_of_cached(name: &str, text: &str) -> (r: Vec<String>)
    ensures
        views(r@).to_set() == text_refs(name@, text@),
        views(r@).no_duplicates(),
{
    if is_text_asset_name(name) {
        extract_asset_refs(text)
    } else {
        Vec::new()
    }
}

/// The names that a freshly fetched asset refers to; its bytes are read as UTF-8, lossily.
/// On valid UTF-8 these are the names that the same text read back from the cache gives.
pub fn refs_of_fetched(name: &str, body: &[u8]) -> (r: Vec<String>)
    ensures
        views(r@).to_set() == text_refs(name@, lossy_text(body@)),
        valid_utf8(body@) ==> views(r@).to_set() == text_refs(name@, decode_utf8(body@)),
        views(r@).no_duplicates(),
{
    if is_text_asset_name(name) {
        let text = decode_lossy(body);
        extract_asset_refs(text.as_str())
    } else {
        Vec::new()
    }
}

/// How a task of a wave starts.
#[derive(PartialEq, Eq, Structural)]
pub enum TaskStart {
    /// The asset is cached and is a script or stylesheet: read it back and scan it.
    ReadBack,
    /// The asset is cached and refers to nothing: the task is done.
    NothingToScan,
    /// The asset is not cached: fetch it.
    Fetch,
}

/// A cached asset never goes to the network; only a cached text is read back.
pub open spec fn task_start(name: Seq<char>, cached: bool) -> TaskStart {
    if !cached {
        TaskStart::Fetch
    } else if is_text_asset(name) {
        TaskStart::ReadBack
    } else {
        TaskStart::NothingToScan
    }
}

/// Decides how the task for asset `name` starts, given whether the build's cache holds it.
pub fn start_task(name: &str, cached: bool) -> (r: TaskStart)
    ensures
        r == task_start(name@, cached),
        cached ==> r != TaskStart::Fetch,
{
    if !cached {
        TaskStart::Fetch
    } else if is_text_asset_name(name) {
        TaskStart::ReadBack
    } else {
        TaskStart::NothingToScan
    }
}

/// What to do after an attempt at a fetch.
pub enum FetchStep {
    /// The body came: keep it.
    Accept,
    /// The asset is dropped from the crawl.
    Abandon,
    /// Wait this many milliseconds, then try again.
    RetryAfter(u64),
}

/// The wait before the retry that follows failed attempt `attempt` (counted from 0).
pub open spec fn backoff_ms(attempt: nat) -> nat
    decreases attempt,
{
    if attempt == 0 {
        BACKOFF_BASE_MS as nat
    } else {
        2 * backoff_ms((attempt - 1) as nat)
    }
}

/// The retry policy: `status` is the response's status code, or `None` where no response came.
/// A 2xx status is accepted; a 404 is final; any other failure is retried, after a doubling
/// wait, until `MAX_RETRIES` retries have been made.
pub open spec fn fetch_step(attempt: nat, status: Option<u16>) -> FetchStep {
    match status {
        Some(code) if 200 <= code && code < 300 => FetchStep::Accept,
        Some(code) if code == 404 => FetchStep::Abandon,
        _ => if attempt < MAX_RETRIES {
            FetchStep::RetryAfter(backoff_ms(attempt) as u64)
        } else {
            FetchStep::Abandon
        },
    }
}

/// Decides what follows attempt `attempt` of a fetch that ended with `status`.
pub fn next_fetch_step(attempt: u32, status: Option<u16>) -> (r: FetchStep)
    requires
        attempt <= MAX_RETRIES,
    ensures
        r == fetch_step(attempt as nat, status),
{
    match status {
        Some(code) if 200 <= code && code < 300 => {
            return FetchStep::Accept;
        },
        Some(code) if code == 404 => {
            return FetchStep::Abandon;
        },
        _ => {},
    }
    if attempt < MAX_RETRIES {
        let mut delay: u64 = BACKOFF_BASE_MS;
        let mut k: u32 = 0;
        while k < attempt
            invariant
                k <= attempt,
                attempt < MAX_RETRIES,
                delay == backoff_ms(k as nat),
            decreases attempt - k,
        {
            assert(backoff_ms(1) == 1000 && backoff_ms(2) == 2000) by {
                reveal_with_fuel(backoff_ms, 3);
            }
            delay = delay * 2;
            k = k + 1;
        }
        FetchStep::RetryAfter(delay)
    } else {
        FetchStep::Abandon
    }
}

/// The names of the next wave: each queued name normalized, in queue order, once, and only
/// where it is not already known.
pub open spec fn wave_of(known: Set<Seq<char>>, queue: Seq<Seq<char>>) -> Seq<Seq<char>>
    decreases queue.len(),
{
    if queue.len() == 0 {
        Seq::empty()
    } else {
        let prev = wave_of(known, queue.drop_last());
        let name = normalized(queue.last());
        if known.contains(name) || prev.contains(name) {
            prev
        } else {
            prev.push(name)
        }
    }
}

/// Those of `refs` that are not in `known`, in order.
pub open spec fn unseen(known: Set<Seq<char>>, refs: Seq<Seq<char>>) -> Seq<Seq<char>>
    decreases refs.len(),
{
    if refs.len() == 0 {
        Seq::empty()
    } else if known.contains(refs.last()) {
        unseen(known, refs.drop_last())
    } else {
        unseen(known, refs.drop_last()).push(refs.last())
    }
}

/// The state of one crawl: the names ever handed out for fetching, the names waiting for the
/// next wave, and the names fetched or read back successfully.
pub struct Frontier {
    known: StringHashSet,
    queue: Vec<String>,
    downloaded: Vec<String>,
    handed_out: Ghost<Seq<Seq<char>>>,
}

impl Frontier {
    /// Every name ever handed out for fetching.
    pub closed spec fn known(&self) -> Set<Seq<char>> {
        self.known@
    }

    /// The names waiting for the next wave, as they were found.
    pub closed spec fn queue(&self) -> Seq<Seq<char>> {
        views(self.queue@)
    }

    /// The names fetched or read back successfully, in the order their tasks were recorded.
    pub closed spec fn downloaded(&self) -> Seq<Seq<char>> {
        views(self.downloaded@)
    }

    /// Every name handed out for fetching, in the order it was handed out.
    pub closed spec fn handed_out(&self) -> Seq<Seq<char>> {
        self.handed_out@
    }

    /// No name was handed out twice, and `known` is what was handed out.
    pub closed spec fn wf(&self) -> bool {
        self.handed_out@.no_duplicates() && self.handed_out@.to_set() == self.known@
    }

    /// A crawl that starts from the bootstrap names `initial`.
    pub fn new(initial: &Vec<String>) -> (r: Frontier)
        ensures
            r.wf(),
            r.known() == Set::<Seq<char>>::empty(),
            r.queue() == views(initial@),
            r.downloaded() == Seq::<Seq<char>>::empty(),
            r.handed_out() == Seq::<Seq<char>>::empty(),
    {
        let r = Frontier {
            known: StringHashSet::new(),
            queue: initial.clone(),
            downloaded: Vec::new(),
            handed_out: Ghost(Seq::empty()),
        };
        assert(views(r.downloaded@) =~= Seq::<Seq<char>>::empty());
        assert(Seq::<Seq<char>>::empty().to_set() =~= Set::<Seq<char>>::empty());
        assert(views(r.queue@) =~= views(initial@)) by {
            assert(r.queue@ =~= initial@);
        }
        r
    }

    /// Whether the crawl is over: no name waits for another wave.
    pub fn is_done(&self) -> (r: bool)
        ensures
            r == (self.queue().len() == 0),
    {
        self.queue.len() == 0
    }

    /// The names fetched or read back successfully.
    pub fn downloaded_names(&self) -> (r: Vec<String>)
        ensures
            views(r@) == self.downloaded(),
    {
        self.downloaded.clone()
    }

    /// Takes the whole queue as the next wave: each name normalized, and handed out for
    /// fetching only where it was never handed out before, once. All of it happens before any
    /// fetch of the wave starts, so no two fetches of a crawl are for one name.
    pub fn take_wave(&mut self) -> (wave: Vec<String>)
        requires
            old(self).wf(),
        ensures
            final(self).wf(),
            views(wave@) == wave_of(old(self).known(), old(self).queue()),
            views(wave@).no_duplicates(),
            forall|k: int|
                0 <= k < wave@.len() ==> !old(self).known().contains(#[trigger] views(wave@)[k]),
            final(self).known() == old(self).known() + views(wave@).to_set(),
            final(self).handed_out() == old(self).handed_out() + views(wave@),
            final(self).queue() == Seq::<Seq<char>>::empty(),
            final(self).downloaded() == old(self).downloaded(),
    {
        let ghost known0 = self.known@;
        let ghost queue0 = views(self.queue@);
        let ghost handed0 = self.handed_out@;
        let mut wave: Vec<String> = Vec::new();
        let mut i: usize = 0;
        assert(queue0.take(0) =~= Seq::<Seq<char>>::empty());
        assert(views(wave@) =~= Seq::<Seq<char>>::empty());
        assert(handed0 + views(wave@) =~= handed0);
        assert(known0 + views(wave@).to_set() =~= known0);
        while i < self.queue.len()
            invariant
                i <= self.queue.len(),
                views(self.queue@) == queue0,
                views(wave@) == wave_of(known0, queue0.take(i as int)),
                views(wave@).no_duplicates(),
                forall|k: int| 0 <= k < wave@.len() ==> !known0.contains(#[trigger] views(wave@)[k]),
                self.known@ == known0 + views(wave@).to_set(),
                self.handed_out@ == handed0 + views(wave@),
                self.handed_out@.no_duplicates(),
                self.handed_out@.to_set() == self.known@,
                handed0.to_set() == known0,
                self.downloaded@ == old(self).downloaded@,
            decreases self.queue.len() - i,
        {
            let name = normalize_asset_name(self.queue[i].as_str());
            let ghost before = views(wave@);
            assert(queue0.take(i + 1).drop_last() =~= queue0.take(i as int));
            assert(queue0.take(i + 1).last() == self.queue@[i as int]@);
            if !self.known.contains(name.as_str()) {
                assert(!before.contains(name@));
                self.known.insert(name.clone());
                wave.push(name);
                proof {
                    assert(views(wave@) =~= before.push(name@));
                    before.lemma_push_to_set_commute(name@);
                    assert(self.handed_out@ + Seq::empty().push(name@) =~= handed0 + views(wave@));
                    let h = self.handed_out@;
                    self.handed_out = Ghost(h.push(name@));
                    assert(h.push(name@) =~= handed0 + views(wave@));
                    h.lemma_push_to_set_commute(name@);
                }
            } else {
                assert(known0.contains(name@) || before.contains(name@)) by {
                    if !known0.contains(name@) {
                        assert(before.to_set().contains(name@));
                    }
                }
            }
            i = i + 1;
        }
        assert(queue0.take(i as int) =~= queue0);
        self.queue = Vec::new();
        assert(views(self.queue@) =~= Seq::<Seq<char>>::empty());
        wave
    }

    /// Records how the task for `name` ended: `Some` with the names its asset refers to, or
    /// `None` where it failed. A success adds `name` to the downloaded names and queues each
    /// referred name that was never handed out; a failure changes nothing.
    pub fn record(&mut self, name: String, outcome: Option<Vec<String>>)
        requires
            old(self).wf(),
        ensures
            final(self).wf(),
            final(self).known() == old(self).known(),
            final(self).handed_out() == old(self).handed_out(),
            match outcome {
                Some(refs) => {
                    &&& final(self).downloaded() == old(self).downloaded().push(name@)
                    &&& final(self).queue() == old(self).queue() + unseen(
                        old(self).known(),
                        views(refs@),
                    )
                },
                None => {
                    &&& final(self).downloaded() == old(self).downloaded()
                    &&& final(self).queue() == old(self).queue()
                },
            },
    {
        match outcome {
            Some(refs) => {
                let ghost q0 = views(self.queue@);
                self.downloaded.push(name);
                proof {
                    assert(views(self.downloaded@) =~= views(old(self).downloaded@).push(name@));
                }
                let mut i: usize = 0;
                assert(views(refs@).take(0) =~= Seq::<Seq<char>>::empty());
                assert(q0 + Seq::<Seq<char>>::empty() =~= q0);
                while i < refs.len()
                    invariant
                        i <= refs.len(),
                        views(self.queue@) == q0 + unseen(self.known@, views(refs@).take(i as int)),
                        self.known@ == old(self).known@,
                        self.handed_out@ == old(self).handed_out@,
                        views(self.downloaded@) == views(old(self).downloaded@).push(name@),
                    decreases refs.len() - i,
                {
                    assert(views(refs@).take(i + 1).drop_last() =~= views(refs@).take(i as int));
                    assert(views(refs@).take(i + 1).last() == refs@[i as int]@);
                    let ghost before = views(self.queue@);
                    if !self.known.contains(refs[i].as_str()) {
                        self.queue.push(refs[i].clone());
                        assert(views(self.queue@) =~= before.push(refs@[i as int]@));
                    }
                    i = i + 1;
                }
                assert(views(refs@).take(i as int) =~= views(refs@));
            },
            None => {},
        }
    }
}

/// A wave holds each name once, none already known, and each the normalized form of a
/// queued name.
pub proof fn lemma_wave_shape(known: Set<Seq<char>>, queue: Seq<Seq<char>>)
    ensures
        wave_of(known, queue).no_duplicates(),
        forall|k: int|
            0 <= k < wave_of(known, queue).len() ==> !known.contains(
                #[trigger] wave_of(known, queue)[k],
            ),
        forall|x: Seq<char>|
            wave_of(known, queue).contains(x) ==> exists|j: int|
                0 <= j < queue.len() && x == normalized(#[trigger] queue[j]),
    decreases queue.len(),
{
    if queue.len() > 0 {
        let rest = queue.drop_last();
        lemma_wave_shape(known, rest);
        let prev = wave_of(known, rest);
        let w = wave_of(known, queue);
        assert forall|x: Seq<char>| w.contains(x) implies exists|j: int|
            0 <= j < queue.len() && x == normalized(#[trigger] queue[j]) by {
            if prev.contains(x) {
                let j = choose|j: int| 0 <= j < rest.len() && x == normalized(#[trigger] rest[j]);
                assert(queue[j] == rest[j]);
            } else {
                assert(queue[queue.len() - 1] == queue.last());
            }
        }
    }
}

/// Where every queued name lies, once normalized, in a finite set `universe`, a wave shrinks
/// the names of `universe` never handed out by exactly its own length. So a crawl among
/// finitely many names, reference cycles included, makes finitely many non-empty waves; and
/// a wave that hands out nothing leaves the queue empty, which ends the crawl.
pub proof fn lemma_wave_shrinks_unvisited(
    known: Set<Seq<char>>,
    queue: Seq<Seq<char>>,
    universe: Set<Seq<char>>,
)
    requires
        universe.finite(),
        forall|k: int| 0 <= k < queue.len() ==> universe.contains(normalized(#[trigger] queue[k])),
    ensures
        universe.difference(known + wave_of(known, queue).to_set()).len() + wave_of(
            known,
            queue,
        ).len() == universe.difference(known).len(),
{
    let w = wave_of(known, queue);
    lemma_wave_shape(known, queue);
    let d = universe.difference(known);
    let ws = w.to_set();
    assert(d.subset_of(universe));
    vstd::set_lib::lemma_len_subset(d, universe);
    assert(ws.subset_of(d)) by {
        assert forall|x: Seq<char>| ws.contains(x) implies d.contains(x) by {
            assert(w.contains(x));
            let k = choose|k: int| 0 <= k < w.len() && w[k] == x;
            let j = choose|j: int| 0 <= j < queue.len() && x == normalized(#[trigger] queue[j]);
        }
    }
    vstd::set_lib::lemma_len_subset(ws, d);
    let rest = d.difference(ws);
    assert(rest =~= universe.difference(known + ws));
    assert(rest.subset_of(d));
    vstd::set_lib::lemma_len_subset(rest, d);
    assert(rest.disjoint(ws));
    assert(rest + ws =~= d);
    vstd::set_lib::lemma_set_disjoint_lens(rest, ws);
    w.unique_seq_to_set();
}

/// A queued name without a `.` is looked up and fetched under that name with `.js` appended.
pub proof fn lemma_bare_name_gets_extension(known: Set<Seq<char>>, name: Seq<char>)
    requires
        !name.contains('.'),
        !known.contains(name + DEFAULT_EXTENSION@),
    ensures
        wave_of(known, seq![name]) == seq![name + DEFAULT_EXTENSION@],
{
    let q = seq![name];
    assert(q.drop_last() =~= Seq::<Seq<char>>::empty());
    assert(q.last() == name);
    assert(normalized(name) == name + DEFAULT_EXTENSION@);
    assert(wave_of(known, Seq::<Seq<char>>::empty()) == Seq::<Seq<char>>::empty());
    assert(!Seq::<Seq<char>>::empty().contains(name + DEFAULT_EXTENSION@));
    assert(Seq::<Seq<char>>::empty().push(name + DEFAULT_EXTENSION@) =~= seq![
        name + DEFAULT_EXTENSION@,
    ]);
}

/// Within a crawl no name is handed out for fetching twice, however often it is referred to.
pub proof fn lemma_fetched_at_most_once(f: &Frontier)
    requires
        f.wf(),
    ensures
        f.handed_out().no_duplicates(),
        f.handed_out().to_set() == f.known(),
{
}

} // verus!
