//! Fetching a result page by page.
//!
//! A search that asks for a scrollable context is answered with its first
//! page and a token. The token stands for the place behind that page in a
//! snapshot of the result, which the engine keeps for a while: the
//! keep-alive window. A cursor holds the token together with the time at
//! which it came. Each page comes with a token of its own, and the next
//! page is fetched with that one and no other. The page without hits is
//! the sign that the result is exhausted.

use vstd::prelude::*;
use crate::distant_client::{EngineCall, EngineCallView};
use crate::errors::{modelled, DistantError};
use crate::json::{member, members_model, Json, JsonValue};
use crate::responses::search_result::{
    normalize, normalized, DistantElasticSearchResult, HitView, SearchResultView,
};
use crate::text::owned;

verus! {

/// The keep-alive window, as the engine is told it with each request for a
/// page: five minutes.
pub const SCROLL_KEEP_ALIVE: &'static str = "5m";

/// The length of the keep-alive window, in seconds: the five minutes of
/// [`SCROLL_KEEP_ALIVE`].
pub const KEEP_ALIVE_SECONDS: u64 = 300;

/// The status with which the engine answers a request for a page whose
/// token it no longer knows: not found.
pub const CONTEXT_NOT_FOUND: u16 = 404;

/// The body of a request for the next page of a scroll: the keep-alive
/// window, and nothing else.
pub open spec fn scroll_payload() -> Json {
    Json::Object(seq![("scroll"@, Json::Str(SCROLL_KEEP_ALIVE@))])
}

/// The place behind one page of a result.
#[derive(Debug, PartialEq, Eq)]
pub struct ScrollCursor {
    /// The token that came with the page.
    pub token: String,
    /// When the page came, in seconds of the caller's clock.
    pub issued_at: u64,
    /// How long the engine keeps the snapshot from then on, in seconds:
    /// the window of the request that the page answered. A cursor is opened
    /// with the window of a request for a page; where the first page
    /// answered a search that asked for another window, that one is to be
    /// set here.
    pub keep_alive: u64,
}

/// The model of a [`ScrollCursor`].
pub struct ScrollCursorView {
    pub token: Seq<char>,
    pub issued_at: u64,
    pub keep_alive: u64,
}

impl View for ScrollCursor {
    type V = ScrollCursorView;

    open spec fn view(&self) -> ScrollCursorView {
        ScrollCursorView {
            token: self.token@,
            issued_at: self.issued_at,
            keep_alive: self.keep_alive,
        }
    }
}

impl ScrollCursorView {
    /// The keep-alive window has elapsed at the time `now`.
    pub open spec fn expired(self, now: u64) -> bool {
        now > self.issued_at + self.keep_alive
    }
}

/// Where the retrieval of a result stands.
#[derive(Debug, PartialEq, Eq)]
pub enum ScrollState {
    /// No page has come yet.
    Unopened,
    /// A page with hits has come; the cursor fetches the next one.
    Open(ScrollCursor),
    /// The page without hits has come: there is nothing more to fetch, and
    /// no page that comes later changes that.
    Exhausted,
    /// The token is missing or has expired. Only a new search leads on,
    /// and what it finds need not agree with the pages that came before;
    /// no page and no failure that comes later changes that.
    Invalid,
}

/// The model of a [`ScrollState`].
pub enum ScrollStateView {
    Unopened,
    Open(ScrollCursorView),
    Exhausted,
    Invalid,
}

impl View for ScrollState {
    type V = ScrollStateView;

    open spec fn view(&self) -> ScrollStateView {
        match *self {
            ScrollState::Unopened => ScrollStateView::Unopened,
            ScrollState::Open(cursor) => ScrollStateView::Open(cursor@),
            ScrollState::Exhausted => ScrollStateView::Exhausted,
            ScrollState::Invalid => ScrollStateView::Invalid,
        }
    }
}

/// The cursor behind a page that came at the time `now` with the token
/// `token`.
pub open spec fn cursor_at(token: Seq<char>, now: u64) -> ScrollCursorView {
    ScrollCursorView { token, issued_at: now, keep_alive: KEEP_ALIVE_SECONDS }
}

/// The cursor behind the page `page`, which came at the time `now`: there is
/// one where the page carries a token.
pub open spec fn opened(page: SearchResultView, now: u64) -> Result<ScrollCursorView, DistantError> {
    match page.scroll_id {
        Some(token) => Ok(cursor_at(token, now)),
        None => Err(DistantError::MalformedResponse),
    }
}

/// Where a retrieval that stood at `state` stands once the page `page` has
/// come at the time `now`. One that is exhausted or invalid stays so. Any
/// other is exhausted by a page without hits; a page with hits leaves it
/// open, with the cursor behind that page, or invalid where the page
/// carries no token.
pub open spec fn state_after_page(
    state: ScrollStateView,
    page: SearchResultView,
    now: u64,
) -> ScrollStateView {
    match state {
        ScrollStateView::Exhausted => ScrollStateView::Exhausted,
        ScrollStateView::Invalid => ScrollStateView::Invalid,
        _ => if page.hits.hits.len() == 0 {
            ScrollStateView::Exhausted
        } else {
            match page.scroll_id {
                Some(token) => ScrollStateView::Open(cursor_at(token, now)),
                None => ScrollStateView::Invalid,
            }
        },
    }
}

/// Where the retrieval stands once a request for a page has failed with
/// `error`: a token that has expired, or an answer without the shape of a
/// page, ends it; any other failure leaves it where it stood.
pub open spec fn state_after_failure(state: ScrollStateView, error: DistantError) -> ScrollStateView {
    match error {
        DistantError::CursorExpired => ScrollStateView::Invalid,
        DistantError::MalformedResponse => ScrollStateView::Invalid,
        _ => state,
    }
}

/// What is to be done to fetch the page behind `cursor` at the time `now`:
/// nothing once the keep-alive window has elapsed, and else the request that
/// names the cursor's token.
pub open spec fn next_call(cursor: ScrollCursorView, now: u64) -> Result<EngineCallView, DistantError> {
    if cursor.expired(now) {
        Err(DistantError::CursorExpired)
    } else {
        Ok(EngineCallView::Scroll { scroll_id: cursor.token, body: scroll_payload() })
    }
}

/// What an answer to a request for a page amounts to. Where the engine no
/// longer knows the token, the cursor has expired, whatever the caller's
/// clock says; any other answer is read as that to a search.
pub open spec fn page_read(status: u16, body: Json) -> Result<SearchResultView, DistantError> {
    if status == CONTEXT_NOT_FOUND {
        Err(DistantError::CursorExpired)
    } else {
        normalized(status, body)
    }
}

/// The cursor behind the first page of a result, which came at the time
/// `now`.
///
/// The page must carry a token: the search has to ask for a scrollable
/// context, and an answer without a token is not that of such a search.
pub fn open_with(first_result: &DistantElasticSearchResult, now: u64) -> (r: Result<
    ScrollCursor,
    DistantError,
>)
    ensures
        modelled(r) == opened(first_result@, now),
{
    match &first_result.scroll_id {
        Some(token) => Ok(
            ScrollCursor { token: token.clone(), issued_at: now, keep_alive: KEEP_ALIVE_SECONDS },
        ),
        None => Err(DistantError::MalformedResponse),
    }
}

/// The request for the page that follows the one that came with
/// `scroll_id`.
pub fn scroll_call(scroll_id: &str) -> (call: EngineCall)
    ensures
        call@ == (EngineCallView::Scroll { scroll_id: scroll_id@, body: scroll_payload() }),
{
    let mut members: Vec<(String, JsonValue)> = Vec::new();
    members.push(member("scroll", JsonValue::text(SCROLL_KEEP_ALIVE)));
    assert(members_model(members@) =~= scroll_payload()->Object_0);
    EngineCall::Scroll { scroll_id: owned(scroll_id), body: JsonValue::object(members) }
}

/// Turns the engine's answer to a request for a page into that page.
///
/// An expired cursor is told as such, and never as a page without hits or
/// as a failure of the transport.
pub fn read_page(status: u16, body: &JsonValue) -> (r: Result<DistantElasticSearchResult, DistantError>)
    ensures
        modelled(r) == page_read(status, body@),
        r matches Ok(page) ==> page@.well_formed(),
{
    if status == CONTEXT_NOT_FOUND {
        Err(DistantError::CursorExpired)
    } else {
        normalize(status, body)
    }
}

impl ScrollCursor {
    /// Whether the keep-alive window has elapsed at the time `now`.
    pub fn is_expired(&self, now: u64) -> (r: bool)
        ensures
            r == self@.expired(now),
    {
        now > self.issued_at && now - self.issued_at > self.keep_alive
    }

    /// The request for the next page, at the time `now`.
    ///
    /// Once the keep-alive window has elapsed there is none: the cursor has
    /// expired, and no request is to be made with its token. The request
    /// names the token and the window, and nothing of the search itself.
    pub fn advance(&self, now: u64) -> (r: Result<EngineCall, DistantError>)
        ensures
            modelled(r) == next_call(self@, now),
    {
        if self.is_expired(now) {
            Err(DistantError::CursorExpired)
        } else {
            Ok(scroll_call(self.token.as_str()))
        }
    }
}

impl ScrollState {
    /// Where the retrieval stands once the page `page` has come at the time
    /// `now`. An exhausted or invalid retrieval stays what it is: only a
    /// new search, with a state of its own, leads on. Any other is
    /// exhausted if the page holds no hit; else it is open, with the cursor
    /// behind this page, or invalid if the page carries no token.
    pub fn after_page(self, page: &DistantElasticSearchResult, now: u64) -> (state: ScrollState)
        ensures
            state@ == state_after_page(self@, page@, now),
    {
        match self {
            ScrollState::Exhausted => ScrollState::Exhausted,
            ScrollState::Invalid => ScrollState::Invalid,
            _ => if page.is_empty() {
                ScrollState::Exhausted
            } else {
                match open_with(page, now) {
                    Ok(cursor) => ScrollState::Open(cursor),
                    Err(_) => ScrollState::Invalid,
                }
            },
        }
    }

    /// Where the retrieval stands once a request for a page has failed with
    /// `error`.
    pub fn after_failure(self, error: &DistantError) -> (state: ScrollState)
        ensures
            state@ == state_after_failure(self@, *error),
    {
        match error {
            DistantError::CursorExpired => ScrollState::Invalid,
            DistantError::MalformedResponse => ScrollState::Invalid,
            _ => self,
        }
    }
}

/// The number of hits on the page `k` of `pages`.
pub open spec fn page_size(pages: Seq<SearchResultView>, k: int) -> nat {
    pages[k].hits.hits.len()
}

/// The number of hits on the first `k` pages of `pages`.
pub open spec fn hits_before(pages: Seq<SearchResultView>, k: int) -> int
    decreases k,
{
    if k <= 0 {
        0
    } else {
        hits_before(pages, k - 1) + page_size(pages, k - 1)
    }
}

/// The hits of the first `k` pages of `pages`, in the order in which they
/// came.
pub open spec fn hits_through(pages: Seq<SearchResultView>, k: int) -> Seq<HitView>
    decreases k,
{
    if k <= 0 {
        Seq::empty()
    } else {
        hits_through(pages, k - 1) + pages[k - 1].hits.hits
    }
}

/// What tells one hit from another: the index that holds the document and
/// the identifier of the document in it.
pub open spec fn hit_identity(hit: HitView) -> (Seq<char>, Seq<char>) {
    (hit.index, hit.id)
}

/// No two of `hits` are the same document.
pub open spec fn distinct_hits(hits: Seq<HitView>) -> bool {
    forall|i: int, j: int|
        0 <= i < j < hits.len() ==> hit_identity(#[trigger] hits[i]) != hit_identity(
            #[trigger] hits[j],
        )
}

/// `pages` are what comes, one after the other, when the result `snapshot`
/// is fetched page by page and does not change meanwhile: each page holds
/// the hits of the result that follow those of the pages before it, in
/// their order, and at least one as long as any is left.
pub open spec fn pages_of(snapshot: Seq<HitView>, pages: Seq<SearchResultView>) -> bool {
    forall|k: int|
        0 <= k < pages.len() ==> {
            &&& hits_before(pages, k) + #[trigger] page_size(pages, k) <= snapshot.len()
            &&& pages[k].hits.hits == snapshot.subrange(
                hits_before(pages, k),
                hits_before(pages, k) + page_size(pages, k),
            )
            &&& hits_before(pages, k) < snapshot.len() ==> page_size(pages, k) > 0
        }
}

/// Where the retrieval stands once the first `k` of `pages` have come, the
/// page `i` at the time `times[i]`, to a retrieval that began unopened.
pub open spec fn state_after_pages(
    pages: Seq<SearchResultView>,
    times: Seq<u64>,
    k: int,
) -> ScrollStateView
    decreases k,
{
    if k <= 0 {
        ScrollStateView::Unopened
    } else {
        state_after_page(state_after_pages(pages, times, k - 1), pages[k - 1], times[k - 1])
    }
}

/// The pages that came first hold the hits with which the result begins.
proof fn lemma_pages_are_a_prefix(snapshot: Seq<HitView>, pages: Seq<SearchResultView>, k: int)
    requires
        pages_of(snapshot, pages),
        0 <= k <= pages.len(),
    ensures
        0 <= hits_before(pages, k) <= snapshot.len(),
        hits_through(pages, k) == snapshot.subrange(0, hits_before(pages, k)),
    decreases k,
{
    if k == 0 {
        assert(hits_through(pages, 0) =~= snapshot.subrange(0, 0));
    } else {
        lemma_pages_are_a_prefix(snapshot, pages, k - 1);
        let start = hits_before(pages, k - 1);
        let size = page_size(pages, k - 1);
        assert(start + size <= snapshot.len());
        assert(hits_through(pages, k) =~= snapshot.subrange(0, start + size));
    }
}

/// A later page begins where the pages before it end, or behind.
proof fn lemma_pages_follow(pages: Seq<SearchResultView>, i: int, j: int)
    requires
        0 <= i < j,
    ensures
        hits_before(pages, i) + page_size(pages, i) <= hits_before(pages, j),
    decreases j,
{
    if i + 1 < j {
        lemma_pages_follow(pages, i, j - 1);
    }
}

/// The first page without hits among the first `k`, if there is one.
proof fn lemma_first_empty_page(snapshot: Seq<HitView>, pages: Seq<SearchResultView>, k: int) -> (found:
    Option<int>)
    requires
        pages_of(snapshot, pages),
        0 <= k <= pages.len(),
    ensures
        match found {
            Some(j) => {
                &&& 0 <= j < k
                &&& page_size(pages, j) == 0
                &&& hits_before(pages, j) == snapshot.len()
                &&& forall|i: int| 0 <= i < j ==> page_size(pages, i) > 0
            },
            None => {
                &&& k <= hits_before(pages, k) <= snapshot.len()
                &&& forall|i: int| 0 <= i < k ==> page_size(pages, i) > 0
            },
        },
    decreases k,
{
    if k == 0 {
        None
    } else {
        match lemma_first_empty_page(snapshot, pages, k - 1) {
            Some(j) => Some(j),
            None => {
                assert(hits_before(pages, k - 1) + page_size(pages, k - 1) <= snapshot.len());
                if page_size(pages, k - 1) == 0 {
                    Some(k - 1)
                } else {
                    None
                }
            },
        }
    }
}

/// The round trip of a scroll. Let a result be opened and then advanced
/// again and again, let it not change meanwhile, and let `pages` be what
/// comes, the first page included. Then one of the first pages, at most as
/// many as the result has hits and one more, is without hits, and `last` is
/// the first such page. The pages before it all hold hits; together they
/// hold the hits of the result, each once and in their order, so that no
/// hit comes on two pages; and where the first page tells the number of
/// hits, they are that many.
pub proof fn lemma_scroll_round_trip(snapshot: Seq<HitView>, pages: Seq<SearchResultView>) -> (last:
    int)
    requires
        pages_of(snapshot, pages),
        distinct_hits(snapshot),
        pages.len() > snapshot.len(),
    ensures
        0 <= last <= snapshot.len(),
        page_size(pages, last) == 0,
        forall|i: int| 0 <= i < last ==> page_size(pages, i) > 0,
        hits_through(pages, last) == snapshot,
        hits_before(pages, last) == snapshot.len(),
        pages[0].hits.total.value == snapshot.len() ==> hits_before(pages, last)
            == pages[0].hits.total.value,
        forall|i: int, a: int, j: int, b: int|
            0 <= i < j < pages.len() && 0 <= a < page_size(pages, i) && 0 <= b < page_size(pages, j)
                ==> hit_identity(#[trigger] pages[i].hits.hits[a]) != hit_identity(
                #[trigger] pages[j].hits.hits[b],
            ),
{
    let found = lemma_first_empty_page(snapshot, pages, snapshot.len() as int + 1);
    let last = found->Some_0;
    lemma_pages_are_a_prefix(snapshot, pages, last);
    assert(snapshot.subrange(0, snapshot.len() as int) =~= snapshot);
    assert forall|i: int, a: int, j: int, b: int|
        0 <= i < j < pages.len() && 0 <= a < page_size(pages, i) && 0 <= b < page_size(
            pages,
            j,
        ) implies hit_identity(#[trigger] pages[i].hits.hits[a]) != hit_identity(
        #[trigger] pages[j].hits.hits[b],
    ) by {
        lemma_pages_follow(pages, i, j);
        let from_i = hits_before(pages, i);
        let from_j = hits_before(pages, j);
        assert(from_i + page_size(pages, i) <= snapshot.len());
        assert(from_j + page_size(pages, j) <= snapshot.len());
        lemma_pages_are_a_prefix(snapshot, pages, i);
        assert(pages[i].hits.hits[a] == snapshot[from_i + a]);
        assert(pages[j].hits.hits[b] == snapshot[from_j + b]);
        assert(from_i + a < from_j + b);
    }
    last
}

/// The states of a retrieval that is fed page by page. Let `last` be the
/// first of `pages` without hits, and let every page before it carry the
/// token with which the next one is fetched. Then each of those pages
/// leaves the retrieval open, with the cursor behind that page; the page
/// `last` leaves it exhausted; and exhausted it stays, whatever comes.
pub proof fn lemma_run_ends_exhausted(pages: Seq<SearchResultView>, times: Seq<u64>, last: int)
    requires
        0 <= last < pages.len(),
        times.len() == pages.len(),
        page_size(pages, last) == 0,
        forall|i: int| 0 <= i < last ==> page_size(pages, i) > 0 && pages[i].scroll_id is Some,
    ensures
        forall|i: int|
            0 <= i < last ==> #[trigger] state_after_pages(pages, times, i + 1) == ScrollStateView::Open(
                cursor_at(pages[i].scroll_id->Some_0, times[i]),
            ),
        forall|k: int|
            last < k <= pages.len() ==> #[trigger] state_after_pages(pages, times, k)
                == ScrollStateView::Exhausted,
{
    assert forall|i: int| 0 <= i < last implies #[trigger] state_after_pages(pages, times, i + 1)
        == ScrollStateView::Open(cursor_at(pages[i].scroll_id->Some_0, times[i])) by {
        lemma_run_stays_open(pages, times, i);
    }
    if last > 0 {
        lemma_run_stays_open(pages, times, last - 1);
    }
    assert forall|k: int| last < k <= pages.len() implies #[trigger] state_after_pages(
        pages,
        times,
        k,
    ) == ScrollStateView::Exhausted by {
        lemma_run_stays_exhausted(pages, times, last + 1, k);
    }
}

/// A page with hits and a token leaves the retrieval open, where every page
/// before it did so too.
proof fn lemma_run_stays_open(pages: Seq<SearchResultView>, times: Seq<u64>, i: int)
    requires
        0 <= i < pages.len(),
        times.len() == pages.len(),
        forall|k: int| 0 <= k <= i ==> page_size(pages, k) > 0 && pages[k].scroll_id is Some,
    ensures
        state_after_pages(pages, times, i + 1) == ScrollStateView::Open(
            cursor_at(pages[i].scroll_id->Some_0, times[i]),
        ),
    decreases i,
{
    if i > 0 {
        lemma_run_stays_open(pages, times, i - 1);
    }
    assert(page_size(pages, i) > 0 && pages[i].scroll_id is Some);
    assert(state_after_pages(pages, times, i + 1) == state_after_page(
        state_after_pages(pages, times, i),
        pages[i],
        times[i],
    ));
}

/// Once exhausted, the retrieval stays exhausted.
proof fn lemma_run_stays_exhausted(pages: Seq<SearchResultView>, times: Seq<u64>, from: int, k: int)
    requires
        0 < from <= k <= pages.len(),
        times.len() == pages.len(),
        state_after_pages(pages, times, from) == ScrollStateView::Exhausted,
    ensures
        state_after_pages(pages, times, k) == ScrollStateView::Exhausted,
    decreases k - from,
{
    if from < k {
        lemma_run_stays_exhausted(pages, times, from, k - 1);
    }
}

} // verus!
