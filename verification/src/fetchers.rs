//! Image fetchers: the local-directory source and the remote cached source.
//!
//! The fetchers own every decision of a tick — which entry a cursor selects,
//! when the remote cache is stale, what a refresh cycle writes and under what
//! name, and which error reports a failure.  The embedding program supplies
//! the outside world as plain values in a [`TickInput`]: the current directory
//! listing, a clock reading, and the outcome of a refresh cycle when one was
//! due.

use vstd::prelude::*;

verus! {

use vstd::string::StringExecFns;
use crate::cycle::{
    advance_spec,
    cursor_after,
    index_at,
    lemma_no_repeat_within_revolution,
    lemma_revolution_covers,
    lemma_round_robin,
    select_and_advance,
    select_spec,
};
use crate::errors::WallsplashError;
use crate::text::{
    decimal_digits,
    is_jpeg_content_type,
    is_jpeg_content_type_spec,
    lemma_decimal_digits_injective,
    push_decimal,
};

/// What the embedding program observed outside during one tick.
#[derive(Debug)]
pub struct TickInput {
    /// Full paths of the regular files directly under the local directory,
    /// in enumeration order.  Only the local source reads it.
    pub listing: Vec<String>,
    /// A reading of a monotone clock, in seconds.  Only the remote source
    /// reads it.
    pub now: u64,
    /// The outcome of a refresh cycle, present exactly when the remote
    /// source demanded one for this tick.  Only the remote source reads it.
    pub refresh: Option<RefreshOutcome>,
}

/// How a refresh cycle ended.
#[derive(Debug)]
pub enum RefreshOutcome {
    /// The cycle completed and wrote this many cache files.
    Fetched(usize),
    /// The cycle aborted with this error.
    Failed(WallsplashError),
}

/// An image source: something that can produce the file path of the next
/// image to display, or a typed failure.
pub trait Fetch: Sized {
    /// Which tick inputs this source accepts.
    spec fn tick_req(&self, tick: TickInput) -> bool;

    /// What one tick does: how the new state and the result relate to the
    /// old state and the tick input.
    spec fn tick_ens(&self, post: Self, tick: TickInput, r: Result<String, WallsplashError>) -> bool;

    /// Produce the file path of the next image to display.
    fn next_image_path(&mut self, tick: TickInput) -> (r: Result<String, WallsplashError>)
        requires
            old(self).tick_req(tick),
        ensures
            old(self).tick_ens(*final(self), tick, r),
    ;
}

// ---------------------------------------------------------------------------
// The local source.
// ---------------------------------------------------------------------------
/// Fetcher for local images: cycles through a directory listing.
#[derive(Debug)]
pub struct LocalFetcher {
    /// Local directory to search for images.
    pub dir: String,
    /// Cursor: which entry to use next.
    pub next: usize,
}

/// What one tick of the local source does: an empty listing fails with
/// `LocalNoImage` and leaves the cursor alone; otherwise the entry at
/// `cursor mod count` is returned and the cursor advances past it.
pub open spec fn local_tick_ens(
    pre: LocalFetcher,
    post: LocalFetcher,
    listing: Seq<String>,
    r: Result<String, WallsplashError>,
) -> bool {
    &&& post.dir == pre.dir
    &&& if listing.len() == 0 {
        &&& r == Err::<String, WallsplashError>(WallsplashError::LocalNoImage)
        &&& post.next == pre.next
    } else {
        &&& post.next == advance_spec(pre.next as nat, listing.len())
        &&& r == Ok::<String, WallsplashError>(
            listing[select_spec(pre.next as nat, listing.len()) as int],
        )
    }
}

impl LocalFetcher {
    /// A local source over `dir`, starting at the first entry.
    pub fn new(dir: &str) -> (r: Self)
        ensures
            r.dir@ == dir@,
            r.next == 0,
    {
        LocalFetcher { dir: dir.to_owned(), next: 0 }
    }
}

impl Fetch for LocalFetcher {
    open spec fn tick_req(&self, tick: TickInput) -> bool {
        true
    }

    open spec fn tick_ens(
        &self,
        post: Self,
        tick: TickInput,
        r: Result<String, WallsplashError>,
    ) -> bool {
        local_tick_ens(*self, post, tick.listing@, r)
    }

    fn next_image_path(&mut self, tick: TickInput) -> (r: Result<String, WallsplashError>) {
        let count: usize = tick.listing.len();
        if count == 0 {
            return Err(WallsplashError::LocalNoImage);
        }
        let i: usize = select_and_advance(&mut self.next, count);
        Ok(tick.listing[i].clone())
    }
}

// ---------------------------------------------------------------------------
// The remote source.
// ---------------------------------------------------------------------------
/// One photo descriptor from the remote list endpoint.
#[derive(Debug)]
pub struct Photo {
    /// The photo's identifier.
    pub id: String,
    /// Its links.
    pub links: Links,
}

/// The links of one photo descriptor.
#[derive(Debug)]
pub struct Links {
    /// Where the photo's binary can be downloaded.
    pub download: String,
}

/// The download URLs of a batch of photo descriptors, in list order.
pub fn download_urls(photos: &Vec<Photo>) -> (urls: Vec<String>)
    ensures
        urls@.len() == photos@.len(),
        forall|i: int| 0 <= i < photos@.len() ==> urls@[i] == photos@[i].links.download,
{
    let mut urls: Vec<String> = Vec::new();
    let mut i: usize = 0;
    while i < photos.len()
        invariant
            i <= photos@.len(),
            urls@.len() == i,
            forall|j: int| 0 <= j < i ==> urls@[j] == photos@[j].links.download,
        decreases photos@.len() - i,
    {
        urls.push(photos[i].links.download.clone());
        i = i + 1;
    }
    urls
}

/// Accept the response to the list request only when its HTTP status is a
/// success code.
pub fn check_list_status(status: u16) -> (r: Result<(), WallsplashError>)
    ensures
        r == if 200 <= status && status < 300 {
            Ok::<(), WallsplashError>(())
        } else {
            Err::<(), WallsplashError>(WallsplashError::UnsplashAPIFail)
        },
{
    if 200 <= status && status < 300 {
        Ok(())
    } else {
        Err(WallsplashError::UnsplashAPIFail)
    }
}

/// The name of the cache file for index `i`: the decimal numeral of `i` with
/// extension `.jpg`.
pub open spec fn file_name_spec(i: nat) -> Seq<char> {
    decimal_digits(i) + ".jpg"@
}

/// The path of cache file `i` inside cache directory `dir`.
pub open spec fn cache_path_spec(dir: Seq<char>, i: nat) -> Seq<char> {
    dir + "/"@ + file_name_spec(i)
}

/// The name of the cache file for index `i`.
pub fn cache_file_name(i: usize) -> (r: String)
    ensures
        r@ == file_name_spec(i as nat),
{
    let mut s = String::new();
    push_decimal(&mut s, i as u64);
    s.append(".jpg");
    proof {
        assert((Seq::<char>::empty() + decimal_digits(i as nat)) + ".jpg"@ =~= file_name_spec(
            i as nat,
        ));
    }
    s
}

/// Seconds that passed from a clock reading `ts` to a later reading `now`;
/// zero if the readings are out of order.
pub open spec fn elapsed_secs(ts: u64, now: u64) -> nat {
    if now >= ts {
        (now - ts) as nat
    } else {
        0
    }
}

/// Fetcher for images provided by the remote photo service, cached on disk.
#[derive(Debug)]
pub struct UnsplashFetcher {
    /// Remote API token.
    pub token: String,
    /// Max number of images to request from the service.
    pub limit: u32,
    /// Directory the cache files live in.
    pub dir: String,
    /// Cursor: which cache file to use next.
    pub next: usize,
    /// Total number of images cached.
    pub total: usize,
    /// Whether a successful download batch currently exists.
    pub cached: bool,
    /// Seconds before the cache goes stale.
    pub refresh: u64,
    /// Clock reading when the cache was last filled successfully.
    pub timestamp: u64,
}

/// The remote state once the refresh outcome of a tick, if any, is applied:
/// a completed cycle records its count and the tick's clock reading, an
/// aborted one clears the cached flag and nothing else.
pub open spec fn after_refresh(pre: UnsplashFetcher, tick: TickInput) -> UnsplashFetcher {
    match tick.refresh {
        Option::None => pre,
        Option::Some(RefreshOutcome::Fetched(n)) => UnsplashFetcher {
            token: pre.token,
            limit: pre.limit,
            dir: pre.dir,
            next: pre.next,
            total: n,
            cached: true,
            refresh: pre.refresh,
            timestamp: tick.now,
        },
        Option::Some(RefreshOutcome::Failed(_)) => UnsplashFetcher {
            token: pre.token,
            limit: pre.limit,
            dir: pre.dir,
            next: pre.next,
            total: pre.total,
            cached: false,
            refresh: pre.refresh,
            timestamp: pre.timestamp,
        },
    }
}

/// What one tick of the remote source does.  An aborted refresh propagates
/// its error and only clears the cached flag.  Otherwise the source serves
/// from the (possibly just refilled) cache: with nothing cached it fails with
/// `UnsplashNoImage`, else it returns the path of cache file
/// `cursor mod total` and advances the cursor past it.
pub open spec fn remote_tick_ens(
    pre: UnsplashFetcher,
    post: UnsplashFetcher,
    tick: TickInput,
    r: Result<String, WallsplashError>,
) -> bool {
    let mid = after_refresh(pre, tick);
    match tick.refresh {
        Option::Some(RefreshOutcome::Failed(e)) => {
            &&& post == mid
            &&& r == Err::<String, WallsplashError>(e)
        },
        _ => {
            &&& post.token == mid.token
            &&& post.limit == mid.limit
            &&& post.dir == mid.dir
            &&& post.total == mid.total
            &&& post.cached == mid.cached
            &&& post.refresh == mid.refresh
            &&& post.timestamp == mid.timestamp
            &&& if mid.total == 0 {
                &&& r == Err::<String, WallsplashError>(WallsplashError::UnsplashNoImage)
                &&& post.next == mid.next
            } else {
                &&& post.next == advance_spec(mid.next as nat, mid.total as nat)
                &&& (r matches Ok(p) && p@ == cache_path_spec(
                    mid.dir@,
                    select_spec(mid.next as nat, mid.total as nat),
                ))
            }
        },
    }
}

impl UnsplashFetcher {
    /// A remote source caching into `dir`, with nothing cached yet.
    pub fn new(token: &str, limit: u32, refresh: u64, dir: &str) -> (r: Self)
        ensures
            r.token@ == token@,
            r.limit == limit,
            r.refresh == refresh,
            r.dir@ == dir@,
            r.next == 0,
            r.total == 0,
            r.cached == false,
            r.timestamp == 0,
    {
        UnsplashFetcher {
            token: token.to_owned(),
            limit,
            dir: dir.to_owned(),
            next: 0,
            total: 0,
            cached: false,
            refresh,
            timestamp: 0,
        }
    }

    /// Whether the next tick must run a refresh cycle: no successful batch is
    /// held, or the last one is at least the refresh interval old.
    pub open spec fn needs_refresh_spec(&self, now: u64) -> bool {
        !self.cached || elapsed_secs(self.timestamp, now) >= self.refresh
    }

    /// Decide whether a refresh cycle is due at clock reading `now`.
    pub fn needs_refresh(&self, now: u64) -> (r: bool)
        ensures
            r == self.needs_refresh_spec(now),
    {
        if !self.cached {
            true
        } else {
            let e: u64 = if now >= self.timestamp {
                now - self.timestamp
            } else {
                0
            };
            e >= self.refresh
        }
    }

    /// The list-endpoint URL for this source's batch limit, requesting the
    /// most recent photos.
    pub fn photos_url(&self) -> (r: String)
        ensures
            r@ == photos_url_spec(self.limit as nat),
    {
        let mut s = String::from_str("https://api.unsplash.com/photos?per_page=");
        push_decimal(&mut s, self.limit as u64);
        s.append("&order_by=latest");
        proof {
            assert(("https://api.unsplash.com/photos?per_page="@ + decimal_digits(
                self.limit as nat,
            )) + "&order_by=latest"@ =~= photos_url_spec(self.limit as nat));
        }
        s
    }

    /// The authorization header value carrying this source's token.
    pub fn auth_header(&self) -> (r: String)
        ensures
            r@ == "Client-ID "@ + self.token@,
    {
        let mut s = String::from_str("Client-ID ");
        s.append(self.token.as_str());
        s
    }

    /// The path of cache file `i` inside this source's cache directory.
    pub fn cache_path(&self, i: usize) -> (r: String)
        ensures
            r@ == cache_path_spec(self.dir@, i as nat),
    {
        let mut s = self.dir.clone();
        s.append("/");
        push_decimal(&mut s, i as u64);
        s.append(".jpg");
        proof {
            assert(((self.dir@ + "/"@) + decimal_digits(i as nat)) + ".jpg"@ =~= cache_path_spec(
                self.dir@,
                i as nat,
            ));
        }
        s
    }
}

/// The list-endpoint URL for a batch limit.
pub open spec fn photos_url_spec(limit: nat) -> Seq<char> {
    "https://api.unsplash.com/photos?per_page="@ + decimal_digits(limit) + "&order_by=latest"@
}

impl Fetch for UnsplashFetcher {
    /// A refresh outcome must be supplied exactly when a refresh is due:
    /// the embedding program runs one refresh cycle per tick at most, and
    /// never when the cache is fresh.
    open spec fn tick_req(&self, tick: TickInput) -> bool {
        tick.refresh is Some <==> self.needs_refresh_spec(tick.now)
    }

    open spec fn tick_ens(
        &self,
        post: Self,
        tick: TickInput,
        r: Result<String, WallsplashError>,
    ) -> bool {
        remote_tick_ens(*self, post, tick, r)
    }

    fn next_image_path(&mut self, tick: TickInput) -> (r: Result<String, WallsplashError>) {
        match tick.refresh {
            Option::Some(RefreshOutcome::Fetched(n)) => {
                self.cached = true;
                self.total = n;
                self.timestamp = tick.now;
            },
            Option::Some(RefreshOutcome::Failed(e)) => {
                self.cached = false;
                return Err(e);
            },
            Option::None => {},
        }
        if self.total > 0 {
            let i: usize = select_and_advance(&mut self.next, self.total);
            Ok(self.cache_path(i))
        } else {
            Err(WallsplashError::UnsplashNoImage)
        }
    }
}

// ---------------------------------------------------------------------------
// One refresh cycle: downloading and caching a batch.
// ---------------------------------------------------------------------------
/// The accounting of one refresh cycle.  The embedding program downloads the
/// photos of a batch in list order and offers each download's declared
/// content type; the cycle decides which downloads are written, under which
/// names, and how many cache slots they consume.
#[derive(Debug)]
pub struct RefreshCycle {
    /// How many cache files the cycle has written so far.
    pub written: usize,
}

/// Whether a download with this declared content type is cached: the header
/// must be present and declare a JPEG image.
pub open spec fn cached_download(content_type: Option<Seq<u8>>) -> bool {
    content_type matches Some(ct) && is_jpeg_content_type_spec(ct)
}

/// The view of an optional content-type header.
pub open spec fn content_type_view(content_type: Option<&[u8]>) -> Option<Seq<u8>> {
    match content_type {
        Option::Some(ct) => Option::Some(ct@),
        Option::None => Option::None,
    }
}

impl RefreshCycle {
    /// A refresh cycle that has written nothing yet.
    pub fn new() -> (r: RefreshCycle)
        ensures
            r.written == 0,
    {
        RefreshCycle { written: 0 }
    }

    /// Account for one downloaded photo.  A download that declares a JPEG
    /// image occupies the next cache slot: its file name is returned and the
    /// running write index moves on.  Any other download is skipped silently:
    /// no name, no slot, no error.
    pub fn offer(&mut self, content_type: Option<&[u8]>) -> (r: Option<String>)
        requires
            old(self).written < usize::MAX,
        ensures
            if cached_download(content_type_view(content_type)) {
                &&& final(self).written == old(self).written + 1
                &&& (r matches Some(name) && name@ == file_name_spec(old(self).written as nat))
            } else {
                &&& final(self).written == old(self).written
                &&& r is None
            },
    {
        match content_type {
            Option::Some(ct) => {
                if is_jpeg_content_type(ct) {
                    let name = cache_file_name(self.written);
                    self.written = self.written + 1;
                    Some(name)
                } else {
                    None
                }
            },
            Option::None => None,
        }
    }
}

/// How many downloads of a batch, by declared content type, are cached.
pub open spec fn jpeg_count(cts: Seq<Option<Seq<u8>>>) -> nat
    decreases cts.len(),
{
    if cts.len() == 0 {
        0
    } else {
        jpeg_count(cts.drop_last()) + if cached_download(cts.last()) {
            1nat
        } else {
            0nat
        }
    }
}

/// The file names a refresh cycle writes for a batch, in writing order.
pub open spec fn refresh_file_names(cts: Seq<Option<Seq<u8>>>) -> Seq<Seq<char>>
    decreases cts.len(),
{
    if cts.len() == 0 {
        Seq::empty()
    } else {
        let rest = refresh_file_names(cts.drop_last());
        if cached_download(cts.last()) {
            rest + seq![file_name_spec(jpeg_count(cts.drop_last()))]
        } else {
            rest
        }
    }
}

/// A refresh cycle writes one file per download that declares a JPEG image
/// and nothing else, and names the files by consecutive indices from zero:
/// a batch with `M` such downloads ends with exactly the files `0.jpg`
/// through `M-1.jpg` written.
pub proof fn lemma_refresh_writes_by_index(cts: Seq<Option<Seq<u8>>>)
    ensures
        refresh_file_names(cts).len() == jpeg_count(cts),
        forall|i: int|
            0 <= i < jpeg_count(cts) ==> refresh_file_names(cts)[i] == file_name_spec(i as nat),
    decreases cts.len(),
{
    if cts.len() > 0 {
        lemma_refresh_writes_by_index(cts.drop_last());
    }
}

/// Different cache indices name different paths inside one directory.
pub proof fn lemma_cache_path_injective(dir: Seq<char>, i: nat, j: nat)
    requires
        cache_path_spec(dir, i) == cache_path_spec(dir, j),
    ensures
        i == j,
{
    reveal_strlit("/");
    reveal_strlit(".jpg");
    let di = decimal_digits(i);
    let dj = decimal_digits(j);
    let pi = cache_path_spec(dir, i);
    let pj = cache_path_spec(dir, j);
    assert(pi.len() == dir.len() + 1 + di.len() + 4);
    assert(pj.len() == dir.len() + 1 + dj.len() + 4);
    assert forall|t: int| 0 <= t < di.len() implies di[t] == dj[t] by {
        assert(pi[dir.len() + 1 + t] == di[t]);
        assert(pj[dir.len() + 1 + t] == dj[t]);
    };
    assert(di =~= dj);
    lemma_decimal_digits_injective(i, j);
}

// ---------------------------------------------------------------------------
// Runs of ticks: the round-robin laws.
// ---------------------------------------------------------------------------
/// A run of local ticks over one constant listing: `states` holds the
/// fetcher's state before and after each call, `results[i]` the `i`-th
/// call's result.
pub open spec fn local_run(
    states: Seq<LocalFetcher>,
    results: Seq<Result<String, WallsplashError>>,
    listing: Seq<String>,
) -> bool {
    &&& states.len() == results.len() + 1
    &&& forall|i: int|
        0 <= i < results.len() ==> local_tick_ens(
            states[i],
            states[i + 1],
            listing,
            #[trigger] results[i],
        )
}

proof fn lemma_local_run_cursor(
    states: Seq<LocalFetcher>,
    results: Seq<Result<String, WallsplashError>>,
    listing: Seq<String>,
    k: int,
)
    requires
        local_run(states, results, listing),
        listing.len() > 0,
        0 <= k <= results.len(),
    ensures
        states[k].next as nat == cursor_after(states[0].next as nat, listing.len(), k as nat),
    decreases k,
{
    if k > 0 {
        lemma_local_run_cursor(states, results, listing, k - 1);
        assert(local_tick_ens(states[k - 1], states[k - 1 + 1], listing, results[k - 1]));
        assert(states[k].next == advance_spec(states[k - 1].next as nat, listing.len()));
    }
}

/// Round robin over the directory listing: with a constant non-empty listing
/// of size `N`, the `(N+1)`-th call returns the same entry as the first call
/// — for a fresh fetcher, the entry at index 0 again.
pub proof fn lemma_local_round_robin(
    states: Seq<LocalFetcher>,
    results: Seq<Result<String, WallsplashError>>,
    listing: Seq<String>,
)
    requires
        local_run(states, results, listing),
        listing.len() > 0,
        results.len() > listing.len(),
    ensures
        results[listing.len() as int] == results[0],
{
    let n = listing.len();
    let c0 = states[0].next as nat;
    lemma_local_run_cursor(states, results, listing, n as int);
    lemma_round_robin(c0, n, 0);
    assert(local_tick_ens(states[0], states[1], listing, results[0]));
    assert(local_tick_ens(states[n as int], states[n as int + 1], listing, results[n as int]));
    assert(index_at(c0, n, 0) == select_spec(c0, n));
    assert(index_at(c0, n, n) == select_spec(states[n as int].next as nat, n));
}

/// A run of remote ticks on which no refresh was due: each tick only serves
/// from the cache.
pub open spec fn remote_serve_run(
    states: Seq<UnsplashFetcher>,
    ticks: Seq<TickInput>,
    results: Seq<Result<String, WallsplashError>>,
) -> bool {
    &&& states.len() == results.len() + 1
    &&& ticks.len() == results.len()
    &&& forall|i: int| 0 <= i < results.len() ==> (#[trigger] ticks[i]).refresh is None
    &&& forall|i: int|
        0 <= i < results.len() ==> remote_tick_ens(
            states[i],
            states[i + 1],
            ticks[i],
            #[trigger] results[i],
        )
}

proof fn lemma_remote_serve_run_state(
    states: Seq<UnsplashFetcher>,
    ticks: Seq<TickInput>,
    results: Seq<Result<String, WallsplashError>>,
    k: int,
)
    requires
        remote_serve_run(states, ticks, results),
        states[0].total > 0,
        0 <= k <= results.len(),
    ensures
        states[k].total == states[0].total,
        states[k].dir == states[0].dir,
        states[k].next as nat == cursor_after(
            states[0].next as nat,
            states[0].total as nat,
            k as nat,
        ),
    decreases k,
{
    if k > 0 {
        lemma_remote_serve_run_state(states, ticks, results, k - 1);
        assert(remote_tick_ens(states[k - 1], states[k - 1 + 1], ticks[k - 1], results[k - 1]));
        assert(states[k].next == advance_spec(
            states[k - 1].next as nat,
            states[0].total as nat,
        ));
    }
}

/// The path a successful tick returned; empty for a failure.
pub open spec fn served_path(r: Result<String, WallsplashError>) -> Seq<char> {
    match r {
        Ok(p) => p@,
        Err(_) => Seq::empty(),
    }
}

proof fn lemma_remote_serve_at(
    states: Seq<UnsplashFetcher>,
    ticks: Seq<TickInput>,
    results: Seq<Result<String, WallsplashError>>,
    k: int,
)
    requires
        remote_serve_run(states, ticks, results),
        states[0].total > 0,
        0 <= k < results.len(),
    ensures
        results[k] is Ok,
        served_path(results[k]) == cache_path_spec(
            states[0].dir@,
            index_at(states[0].next as nat, states[0].total as nat, k as nat),
        ),
{
    lemma_remote_serve_run_state(states, ticks, results, k);
    assert(remote_tick_ens(states[k], states[k + 1], ticks[k], results[k]));
    assert(after_refresh(states[k], ticks[k]) == states[k]);
}

/// Serving a cache of `M` files for `M` consecutive ticks visits no file
/// twice: every tick succeeds, and the returned paths are pairwise distinct.
pub proof fn lemma_remote_visits_each_file_once(
    states: Seq<UnsplashFetcher>,
    ticks: Seq<TickInput>,
    results: Seq<Result<String, WallsplashError>>,
)
    requires
        remote_serve_run(states, ticks, results),
        states[0].total > 0,
        results.len() == states[0].total,
    ensures
        forall|k: int| 0 <= k < results.len() ==> (#[trigger] results[k]) is Ok,
        forall|j: int, k: int|
            0 <= j < k < results.len() ==> served_path(results[j]) != served_path(results[k]),
{
    let n = states[0].total as nat;
    let c0 = states[0].next as nat;
    let dir0 = states[0].dir@;
    assert forall|k: int| 0 <= k < results.len() implies (#[trigger] results[k]) is Ok by {
        lemma_remote_serve_at(states, ticks, results, k);
    };
    assert forall|j: int, k: int|
        0 <= j < k < results.len() implies served_path(results[j]) != served_path(results[k]) by {
        lemma_remote_serve_at(states, ticks, results, j);
        lemma_remote_serve_at(states, ticks, results, k);
        lemma_no_repeat_within_revolution(c0, n, j as nat, k as nat);
        if served_path(results[j]) == served_path(results[k]) {
            lemma_cache_path_injective(dir0, index_at(c0, n, j as nat), index_at(c0, n, k as nat));
        }
    };
}

/// And it visits every file: each cache index below the total is served by
/// one of the `M` consecutive ticks.  Together with the distinctness above,
/// the run visits each written file exactly once before repeating.
pub proof fn lemma_remote_covers_every_file(
    states: Seq<UnsplashFetcher>,
    ticks: Seq<TickInput>,
    results: Seq<Result<String, WallsplashError>>,
    r: nat,
)
    requires
        remote_serve_run(states, ticks, results),
        states[0].total > 0,
        results.len() == states[0].total,
        r < states[0].total,
    ensures
        exists|k: int|
            0 <= k < results.len() && served_path(#[trigger] results[k]) == cache_path_spec(
                states[0].dir@,
                r,
            ),
{
    let n = states[0].total as nat;
    let c0 = states[0].next as nat;
    let dir0 = states[0].dir@;
    lemma_revolution_covers(c0, n, r);
    let k = choose|k: nat| k < n && index_at(c0, n, k) == r;
    lemma_remote_serve_at(states, ticks, results, k as int);
    assert(0 <= (k as int) && (k as int) < results.len() && served_path(results[k as int])
        == cache_path_spec(dir0, r));
}

/// While the cache is fresh — the last successful fetch is younger than the
/// refresh interval and a batch is held — a tick supplies no refresh
/// outcome, so the source performs no network call and serves from the
/// cache alone.
pub proof fn lemma_fresh_cache_serves_without_refresh(f: UnsplashFetcher, tick: TickInput)
    requires
        f.cached,
        elapsed_secs(f.timestamp, tick.now) < f.refresh,
        f.tick_req(tick),
    ensures
        tick.refresh is None,
{
}

/// One completed refresh cycle makes the source fresh again, no matter how
/// long it had been stale and how many ticks were skipped meanwhile: no
/// further refresh is due until the interval has elapsed anew.
pub proof fn lemma_refresh_recovers_freshness(
    pre: UnsplashFetcher,
    post: UnsplashFetcher,
    tick: TickInput,
    r: Result<String, WallsplashError>,
    later: u64,
)
    requires
        tick.refresh matches Some(RefreshOutcome::Fetched(_)),
        remote_tick_ens(pre, post, tick, r),
        elapsed_secs(tick.now, later) < pre.refresh,
    ensures
        !post.needs_refresh_spec(later),
{
}

/// An aborted refresh cycle propagates its error, leaves the cursor, the
/// count and the timestamp alone, and clears the cached flag, so the very
/// next tick retries the refresh instead of serving any partial cache.
pub proof fn lemma_failed_refresh_retries(
    pre: UnsplashFetcher,
    post: UnsplashFetcher,
    tick: TickInput,
    r: Result<String, WallsplashError>,
)
    requires
        tick.refresh matches Some(RefreshOutcome::Failed(_)),
        remote_tick_ens(pre, post, tick, r),
    ensures
        forall|now: u64| post.needs_refresh_spec(now),
        !post.cached,
        post.next == pre.next,
        post.total == pre.total,
        post.timestamp == pre.timestamp,
        r is Err,
{
}

} // verus!
