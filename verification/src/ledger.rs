//! The request ledger: the authoritative record of every media request and
//! of the metadata fetched for it, and the only writer of status changes.
//!
//! The ledger keeps three promises, stated by [`LedgerView::wf`]: request
//! identifiers grow with every insertion, no two requests name the same
//! catalog item, and no request owns more than one metadata row.

use crate::models::media_request_status::{
    allowed_transition, is_terminal, may_transition, ARCHIVED, SUBMITTED,
};
use crate::models::{
    copy_text, lemma_views_push, text_view, views, Media, MediaRequest, MediaRequestView,
    MediaView, NewMedia, NewMediaRequest, NewMediaRequestView, NewMediaView,
};
use crate::text::str_eq;
use vstd::prelude::*;
use vstd::string::*;

verus! {

/// Why an adjudication was refused.
#[derive(Clone, Copy, Debug, PartialEq, Eq, Structural)]
pub enum AdjudicationError {
    /// No request has the given identifier.
    NotFound,
    /// The request is no longer submitted, or the new status is not terminal.
    InvalidTransition,
}

/// Why a row could not be added.
#[derive(Clone, Copy, Debug, PartialEq, Eq, Structural)]
pub enum LedgerError {
    /// A request for the same catalog item is already on record.
    Duplicate,
    /// The identifiers of the table are used up.
    Exhausted,
}

pub const DUPLICATE: &'static str = "Duplicate";

pub const EXHAUSTED: &'static str = "Exhausted";

impl LedgerError {
    /// The name of this refusal.
    pub open spec fn text(self) -> Seq<char> {
        match self {
            LedgerError::Duplicate => DUPLICATE@,
            LedgerError::Exhausted => EXHAUSTED@,
        }
    }

    /// Names this refusal.
    pub fn describe(self) -> (r: &'static str)
        ensures
            r@ == self.text(),
    {
        match self {
            LedgerError::Duplicate => DUPLICATE,
            LedgerError::Exhausted => EXHAUSTED,
        }
    }
}

/// A media request together with the title and poster fetched for it, if any.
#[derive(Clone, Debug, PartialEq, Eq)]
pub struct MediaRequestWithMedia {
    pub id: i32,
    pub source: String,
    pub media_id: String,
    pub status: i32,
    pub created_at: String,
    pub title: Option<String>,
    pub poster: Option<String>,
}

pub struct MediaRequestWithMediaView {
    pub id: i32,
    pub source: Seq<char>,
    pub media_id: Seq<char>,
    pub status: i32,
    pub created_at: Seq<char>,
    pub title: Option<Seq<char>>,
    pub poster: Option<Seq<char>>,
}

impl View for MediaRequestWithMedia {
    type V = MediaRequestWithMediaView;

    open spec fn view(&self) -> MediaRequestWithMediaView {
        MediaRequestWithMediaView {
            id: self.id,
            source: self.source@,
            media_id: self.media_id@,
            status: self.status,
            created_at: self.created_at@,
            title: text_view(self.title),
            poster: text_view(self.poster),
        }
    }
}

/// One line of the metadata listing.
#[derive(Clone, Debug, PartialEq, Eq)]
pub struct MediaListResponse {
    pub id: i32,
    pub title: String,
    pub poster: Option<String>,
}

pub struct MediaListResponseView {
    pub id: i32,
    pub title: Seq<char>,
    pub poster: Option<Seq<char>>,
}

impl View for MediaListResponse {
    type V = MediaListResponseView;

    open spec fn view(&self) -> MediaListResponseView {
        MediaListResponseView { id: self.id, title: self.title@, poster: text_view(self.poster) }
    }
}

/// A request that has no metadata yet: its identifier, source tag and item id.
#[derive(Clone, Debug, PartialEq, Eq)]
pub struct Unscraped {
    pub request_id: i32,
    pub source: String,
    pub media_id: String,
}

pub struct UnscrapedView {
    pub request_id: i32,
    pub source: Seq<char>,
    pub media_id: Seq<char>,
}

impl View for Unscraped {
    type V = UnscrapedView;

    open spec fn view(&self) -> UnscrapedView {
        UnscrapedView { request_id: self.request_id, source: self.source@, media_id: self.media_id@ }
    }
}

/// Those elements of `items` that `keep` accepts, each passed through `f`.
pub open spec fn select<A, B>(items: Seq<A>, keep: spec_fn(A) -> bool, f: spec_fn(A) -> B) -> Seq<B> {
    items.filter(keep).map_values(f)
}

/// Selecting from one more element appends its image when it is kept.
pub proof fn lemma_select_step<A, B>(
    items: Seq<A>,
    keep: spec_fn(A) -> bool,
    f: spec_fn(A) -> B,
    i: int,
)
    requires
        0 <= i < items.len(),
    ensures
        select(items.take(i + 1), keep, f) == if keep(items[i]) {
            select(items.take(i), keep, f).push(f(items[i]))
        } else {
            select(items.take(i), keep, f)
        },
{
    reveal(Seq::filter);
    let longer = items.take(i + 1);
    assert(longer.drop_last() == items.take(i));
    assert(longer.last() == items[i]);
    if keep(items[i]) {
        assert(longer.filter(keep) == items.take(i).filter(keep).push(items[i]));
        assert(select(longer, keep, f) =~= select(items.take(i), keep, f).push(f(items[i])));
    } else {
        assert(longer.filter(keep) == items.take(i).filter(keep));
    }
}

/// Nothing is selected from nothing.
pub proof fn lemma_select_none<A, B>(items: Seq<A>, keep: spec_fn(A) -> bool, f: spec_fn(A) -> B)
    ensures
        select(items.take(0), keep, f) == Seq::<B>::empty(),
{
    reveal(Seq::filter);
    assert(items.take(0).filter(keep) =~= Seq::<A>::empty());
    assert(select(items.take(0), keep, f) =~= Seq::<B>::empty());
}

/// The requests and metadata rows of a ledger, in insertion order.
pub struct LedgerView {
    pub requests: Seq<MediaRequestView>,
    pub media: Seq<MediaView>,
}

/// The view of the outcome of an adjudication.
pub open spec fn adjudication_view(
    outcome: Result<MediaRequest, AdjudicationError>,
) -> Result<MediaRequestView, AdjudicationError> {
    match outcome {
        Ok(row) => Ok(row@),
        Err(e) => Err(e),
    }
}

impl LedgerView {
    /// The ledger's invariant.
    pub open spec fn wf(self) -> bool {
        Self::requests_wf(self.requests) && Self::media_wf(self.media)
    }

    /// Request identifiers are positive and grow, and no two requests name
    /// the same catalog item.
    pub open spec fn requests_wf(requests: Seq<MediaRequestView>) -> bool {
        &&& forall|i: int| 0 <= i < requests.len() ==> (#[trigger] requests[i]).id > 0
        &&& forall|i: int, j: int|
            0 <= i < j < requests.len() ==> (#[trigger] requests[i]).id < (#[trigger] requests[j]).id
        &&& forall|i: int, j: int|
            0 <= i < j < requests.len() ==> !Self::same_item(
                #[trigger] requests[i],
                #[trigger] requests[j],
            )
    }

    /// Metadata identifiers are positive and grow, and no two metadata rows
    /// belong to the same request.
    pub open spec fn media_wf(media: Seq<MediaView>) -> bool {
        &&& forall|i: int| 0 <= i < media.len() ==> (#[trigger] media[i]).id > 0
        &&& forall|i: int, j: int|
            0 <= i < j < media.len() ==> (#[trigger] media[i]).id < (#[trigger] media[j]).id
        &&& forall|i: int, j: int|
            0 <= i < j < media.len() ==> (#[trigger] media[i]).media_request_id != (
            #[trigger] media[j]).media_request_id
    }

    /// Two requests name the same catalog item.
    pub open spec fn same_item(a: MediaRequestView, b: MediaRequestView) -> bool {
        a.source == b.source && a.media_id == b.media_id
    }

    /// Some request has this identifier.
    pub open spec fn has_request(self, id: i32) -> bool {
        exists|i: int| 0 <= i < self.requests.len() && (#[trigger] self.requests[i]).id == id
    }

    /// The position of the request with this identifier.
    pub open spec fn request_index(self, id: i32) -> int {
        choose|i: int| 0 <= i < self.requests.len() && (#[trigger] self.requests[i]).id == id
    }

    /// Some request names this catalog item.
    pub open spec fn has_item(self, source: Seq<char>, media_id: Seq<char>) -> bool {
        exists|i: int|
            0 <= i < self.requests.len() && (#[trigger] self.requests[i]).source == source
                && self.requests[i].media_id == media_id
    }

    /// Some metadata row belongs to this request.
    pub open spec fn has_media(self, request_id: i32) -> bool {
        exists|i: int|
            0 <= i < self.media.len() && (#[trigger] self.media[i]).media_request_id == request_id
    }

    /// The position of the metadata row of this request.
    pub open spec fn media_index(self, request_id: i32) -> int {
        choose|i: int|
            0 <= i < self.media.len() && (#[trigger] self.media[i]).media_request_id == request_id
    }

    /// The identifier that the next request will get.
    pub open spec fn next_request_id(self) -> int {
        if self.requests.len() == 0 {
            1
        } else {
            self.requests.last().id + 1
        }
    }

    /// The identifier that the next metadata row will get.
    pub open spec fn next_media_id(self) -> int {
        if self.media.len() == 0 {
            1
        } else {
            self.media.last().id + 1
        }
    }

    /// Files a new request at time `now`: refused when the catalog item is
    /// already on record, otherwise appended under the next identifier.
    pub open spec fn submit(self, new: NewMediaRequestView, now: Seq<char>) -> (
        LedgerView,
        Result<i32, LedgerError>,
    ) {
        if self.has_item(new.source, new.media_id) {
            (self, Err(LedgerError::Duplicate))
        } else if self.next_request_id() > i32::MAX {
            (self, Err(LedgerError::Exhausted))
        } else {
            let row = MediaRequestView {
                id: self.next_request_id() as i32,
                source: new.source,
                media_id: new.media_id,
                request_user: new.request_user,
                status: new.status,
                created_at: now,
                updated_at: now,
            };
            (LedgerView { requests: self.requests.push(row), media: self.media }, Ok(row.id))
        }
    }

    /// Moves the request `id` to `new_status` at time `now`. Only a submitted
    /// request can move, and only to a terminal status; every refusal leaves
    /// the ledger as it was.
    pub open spec fn adjudicate(self, id: i32, new_status: i32, now: Seq<char>) -> (
        LedgerView,
        Result<MediaRequestView, AdjudicationError>,
    ) {
        if !self.has_request(id) {
            (self, Err(AdjudicationError::NotFound))
        } else {
            let i = self.request_index(id);
            let row = self.requests[i];
            if !allowed_transition(row.status as int, new_status as int) {
                (self, Err(AdjudicationError::InvalidTransition))
            } else {
                let updated = MediaRequestView { status: new_status, updated_at: now, ..row };
                (
                    LedgerView { requests: self.requests.update(i, updated), media: self.media },
                    Ok(updated),
                )
            }
        }
    }

    /// Stores metadata for a request at time `now`: the request's existing
    /// row is refreshed, or a new row is appended.
    pub open spec fn save_media(self, new: NewMediaView, now: Seq<char>) -> (
        LedgerView,
        Result<(), LedgerError>,
    ) {
        if self.has_media(new.media_request_id) {
            let i = self.media_index(new.media_request_id);
            let updated = MediaView {
                title: new.title,
                summary: new.summary,
                poster: new.poster,
                updated_at: now,
                ..self.media[i]
            };
            (LedgerView { requests: self.requests, media: self.media.update(i, updated) }, Ok(()))
        } else if self.next_media_id() > i32::MAX {
            (self, Err(LedgerError::Exhausted))
        } else {
            let row = MediaView {
                id: self.next_media_id() as i32,
                media_request_id: new.media_request_id,
                title: new.title,
                summary: new.summary,
                poster: new.poster,
                created_at: now,
                updated_at: now,
            };
            (LedgerView { requests: self.requests, media: self.media.push(row) }, Ok(()))
        }
    }

    /// The metadata row of a request, if it has one.
    pub open spec fn media_of(self, request_id: i32) -> Option<MediaView> {
        if self.has_media(request_id) {
            Some(self.media[self.media_index(request_id)])
        } else {
            None
        }
    }

    /// A request joined with the title and poster of its metadata row.
    pub open spec fn joined(self, row: MediaRequestView) -> MediaRequestWithMediaView {
        MediaRequestWithMediaView {
            id: row.id,
            source: row.source,
            media_id: row.media_id,
            status: row.status,
            created_at: row.created_at,
            title: match self.media_of(row.id) {
                Some(m) => Some(m.title),
                None => None,
            },
            poster: match self.media_of(row.id) {
                Some(m) => m.poster,
                None => None,
            },
        }
    }

    pub open spec fn join(self) -> spec_fn(MediaRequestView) -> MediaRequestWithMediaView {
        |row: MediaRequestView| self.joined(row)
    }

    pub open spec fn is_pending() -> spec_fn(MediaRequestView) -> bool {
        |row: MediaRequestView| row.status == SUBMITTED
    }

    pub open spec fn is_archived_with_media(self) -> spec_fn(MediaRequestView) -> bool {
        |row: MediaRequestView| row.status == ARCHIVED && self.has_media(row.id)
    }

    pub open spec fn lacks_media(self) -> spec_fn(MediaRequestView) -> bool {
        |row: MediaRequestView| !self.has_media(row.id)
    }

    pub open spec fn as_unscraped() -> spec_fn(MediaRequestView) -> UnscrapedView {
        |row: MediaRequestView|
            UnscrapedView { request_id: row.id, source: row.source, media_id: row.media_id }
    }

    pub open spec fn as_listing() -> spec_fn(MediaView) -> MediaListResponseView {
        |m: MediaView| MediaListResponseView { id: m.id, title: m.title, poster: m.poster }
    }

    /// The submitted requests, each with its metadata where there is any.
    pub open spec fn pending(self) -> Seq<MediaRequestWithMediaView> {
        select(self.requests, Self::is_pending(), self.join())
    }

    /// The archived requests that have metadata, each with it.
    pub open spec fn archived(self) -> Seq<MediaRequestWithMediaView> {
        select(self.requests, self.is_archived_with_media(), self.join())
    }

    /// The requests that have no metadata.
    pub open spec fn unscraped(self) -> Seq<UnscrapedView> {
        select(self.requests, self.lacks_media(), Self::as_unscraped())
    }

    /// Every metadata row, reduced to identifier, title and poster.
    pub open spec fn listing(self) -> Seq<MediaListResponseView> {
        self.media.map_values(Self::as_listing())
    }

    /// In a well-formed ledger an identifier is found at one position only.
    pub proof fn lemma_request_index(self, id: i32, i: int)
        requires
            self.wf(),
            0 <= i < self.requests.len(),
            self.requests[i].id == id,
        ensures
            self.has_request(id),
            self.request_index(id) == i,
    {
        let j = self.request_index(id);
        assert(0 <= j < self.requests.len() && self.requests[j].id == id);
        if i < j {
            assert(self.requests[i].id < self.requests[j].id);
        } else if j < i {
            assert(self.requests[j].id < self.requests[i].id);
        }
    }

    /// In a well-formed ledger a request's metadata is found at one position only.
    pub proof fn lemma_media_index(self, request_id: i32, i: int)
        requires
            self.wf(),
            0 <= i < self.media.len(),
            self.media[i].media_request_id == request_id,
        ensures
            self.has_media(request_id),
            self.media_index(request_id) == i,
    {
        let j = self.media_index(request_id);
        assert(0 <= j < self.media.len() && self.media[j].media_request_id == request_id);
        if i < j {
            assert(self.media[i].media_request_id != self.media[j].media_request_id);
        } else if j < i {
            assert(self.media[j].media_request_id != self.media[i].media_request_id);
        }
    }
}

/// Filing a request keeps the ledger well formed, so no two rows ever name
/// the same catalog item; and once an item is on record, every further
/// submission of it is refused and changes nothing, whoever asks.
pub proof fn law_one_request_per_item(
    ledger: LedgerView,
    first: NewMediaRequestView,
    second: NewMediaRequestView,
    now: Seq<char>,
    later: Seq<char>,
)
    requires
        ledger.wf(),
        first.source == second.source,
        first.media_id == second.media_id,
    ensures
        ledger.submit(first, now).0.wf(),
        forall|i: int, j: int|
            #![trigger ledger.submit(first, now).0.requests[i], ledger.submit(first, now).0.requests[j]]
            0 <= i < ledger.submit(first, now).0.requests.len() && 0 <= j < ledger.submit(
                first,
                now,
            ).0.requests.len() && LedgerView::same_item(
                ledger.submit(first, now).0.requests[i],
                ledger.submit(first, now).0.requests[j],
            ) ==> i == j,
        ledger.has_item(first.source, first.media_id) ==> ledger.submit(first, now) == (
            ledger,
            Err::<i32, LedgerError>(LedgerError::Duplicate),
        ),
        ledger.submit(first, now).1 is Ok ==> ledger.submit(first, now).0.submit(second, later) == (
            ledger.submit(first, now).0,
            Err::<i32, LedgerError>(LedgerError::Duplicate),
        ),
{
    let after = ledger.submit(first, now).0;
    lemma_submit_wf(ledger, first, now);
    assert forall|i: int, j: int|
        0 <= i < after.requests.len() && 0 <= j < after.requests.len() && LedgerView::same_item(
            after.requests[i],
            after.requests[j],
        ) implies i == j by {
        if i < j {
            assert(!LedgerView::same_item(after.requests[i], after.requests[j]));
        } else if j < i {
            assert(!LedgerView::same_item(after.requests[j], after.requests[i]));
        }
    }
    if ledger.submit(first, now).1 is Ok {
        let k = ledger.requests.len() as int;
        assert(after.requests[k].source == second.source);
        assert(after.has_item(second.source, second.media_id));
    }
}

/// Filing a request keeps the invariant.
pub proof fn lemma_submit_wf(ledger: LedgerView, new: NewMediaRequestView, now: Seq<char>)
    requires
        ledger.wf(),
    ensures
        ledger.submit(new, now).0.wf(),
{
    let after = ledger.submit(new, now).0;
    if ledger.submit(new, now).1 is Ok {
        let n = ledger.requests.len() as int;
        assert forall|i: int, j: int| 0 <= i < j < after.requests.len() implies (
        #[trigger] after.requests[i]).id < (#[trigger] after.requests[j]).id by {
            if j == n {
                if i < n - 1 {
                    assert(ledger.requests[i].id < ledger.requests[n - 1].id);
                }
            } else {
                assert(ledger.requests[i].id < ledger.requests[j].id);
            }
        }
        assert forall|i: int, j: int| 0 <= i < j < after.requests.len() implies !LedgerView::same_item(
            #[trigger] after.requests[i],
            #[trigger] after.requests[j],
        ) by {
            if j == n {
                assert(ledger.requests[i].source == after.requests[i].source);
            } else {
                assert(!LedgerView::same_item(ledger.requests[i], ledger.requests[j]));
            }
        }
        assert forall|i: int| 0 <= i < after.requests.len() implies (
        #[trigger] after.requests[i]).id > 0 by {
            if i < n {
                assert(ledger.requests[i].id > 0);
            } else if n > 0 {
                assert(ledger.requests[n - 1].id > 0);
            }
        }
    }
}

/// Filing a request leaves every request on record at its position, and a
/// request that is filed stands last.
pub proof fn lemma_submit_keeps_positions(ledger: LedgerView, new: NewMediaRequestView, now: Seq<char>)
    requires
        ledger.wf(),
    ensures
        forall|id: i32| #[trigger]
            ledger.has_request(id) ==> ledger.submit(new, now).0.has_request(id) && ledger.submit(
                new,
                now,
            ).0.request_index(id) == ledger.request_index(id),
        ledger.submit(new, now).1 matches Ok(id) ==> ledger.submit(new, now).0.has_request(id)
            && ledger.submit(new, now).0.request_index(id) == ledger.requests.len(),
{
    let after = ledger.submit(new, now).0;
    lemma_submit_wf(ledger, new, now);
    assert forall|id: i32| #[trigger] ledger.has_request(id) implies after.has_request(id)
        && after.request_index(id) == ledger.request_index(id) by {
        let k = ledger.request_index(id);
        assert(0 <= k < ledger.requests.len() && ledger.requests[k].id == id);
        assert(after.requests[k] == ledger.requests[k]);
        after.lemma_request_index(id, k);
    }
    match ledger.submit(new, now).1 {
        Ok(id) => {
            let n = ledger.requests.len() as int;
            assert(after.requests[n].id == id);
            after.lemma_request_index(id, n);
        },
        Err(_) => {},
    }
}

/// An adjudication leaves every request at its position.
pub proof fn lemma_adjudicate_keeps_positions(
    ledger: LedgerView,
    request_id: i32,
    new_status: i32,
    now: Seq<char>,
)
    requires
        ledger.wf(),
    ensures
        forall|id: i32| #[trigger]
            ledger.has_request(id) ==> ledger.adjudicate(request_id, new_status, now).0.has_request(
                id,
            ) && ledger.adjudicate(request_id, new_status, now).0.request_index(id)
                == ledger.request_index(id),
{
    let after = ledger.adjudicate(request_id, new_status, now).0;
    law_status_follows_transitions(ledger, request_id, new_status, now);
    assert forall|id: i32| #[trigger] ledger.has_request(id) implies after.has_request(id)
        && after.request_index(id) == ledger.request_index(id) by {
        let k = ledger.request_index(id);
        assert(0 <= k < ledger.requests.len() && ledger.requests[k].id == id);
        assert(after.requests[k].id == id);
        after.lemma_request_index(id, k);
    }
}

/// Storing metadata keeps the invariant.
pub proof fn lemma_save_media_wf(ledger: LedgerView, new: NewMediaView, now: Seq<char>)
    requires
        ledger.wf(),
    ensures
        ledger.save_media(new, now).0.wf(),
{
    let after = ledger.save_media(new, now).0;
    let n = ledger.media.len() as int;
    if ledger.has_media(new.media_request_id) {
        let k = ledger.media_index(new.media_request_id);
        assert(0 <= k < n && ledger.media[k].media_request_id == new.media_request_id);
        assert forall|a: int, b: int| 0 <= a < b < after.media.len() implies (
        #[trigger] after.media[a]).id < (#[trigger] after.media[b]).id by {
            assert(ledger.media[a].id < ledger.media[b].id);
        }
        assert forall|a: int, b: int| 0 <= a < b < after.media.len() implies (
        #[trigger] after.media[a]).media_request_id != (
        #[trigger] after.media[b]).media_request_id by {
            assert(ledger.media[a].media_request_id != ledger.media[b].media_request_id);
        }
        assert forall|a: int| 0 <= a < after.media.len() implies (#[trigger] after.media[a]).id
            > 0 by {
            assert(ledger.media[a].id > 0);
        }
    } else if ledger.save_media(new, now).1 is Ok {
        assert forall|a: int, b: int| 0 <= a < b < after.media.len() implies (
        #[trigger] after.media[a]).id < (#[trigger] after.media[b]).id by {
            if b == n {
                if a < n - 1 {
                    assert(ledger.media[a].id < ledger.media[n - 1].id);
                }
            } else {
                assert(ledger.media[a].id < ledger.media[b].id);
            }
        }
        assert forall|a: int, b: int| 0 <= a < b < after.media.len() implies (
        #[trigger] after.media[a]).media_request_id != (
        #[trigger] after.media[b]).media_request_id by {
            if b == n {
                assert(ledger.media[a].media_request_id != new.media_request_id);
            } else {
                assert(ledger.media[a].media_request_id != ledger.media[b].media_request_id);
            }
        }
        assert forall|a: int| 0 <= a < after.media.len() implies (#[trigger] after.media[a]).id
            > 0 by {
            if a < n {
                assert(ledger.media[a].id > 0);
            } else if n > 0 {
                assert(ledger.media[n - 1].id > 0);
            }
        }
    }
}

/// An adjudication either is refused and leaves every row as it was, or
/// moves exactly the named request from submitted to a terminal status. It
/// succeeds exactly when the request exists, is submitted, and the new
/// status is terminal.
pub proof fn law_status_follows_transitions(
    ledger: LedgerView,
    id: i32,
    new_status: i32,
    now: Seq<char>,
)
    requires
        ledger.wf(),
    ensures
        ledger.adjudicate(id, new_status, now).0.wf(),
        ledger.adjudicate(id, new_status, now).0.requests.len() == ledger.requests.len(),
        ledger.adjudicate(id, new_status, now).0.media == ledger.media,
        ledger.adjudicate(id, new_status, now).1 is Err ==> ledger.adjudicate(
            id,
            new_status,
            now,
        ).0 == ledger,
        ledger.adjudicate(id, new_status, now).1 is Ok <==> ledger.has_request(id)
            && ledger.requests[ledger.request_index(id)].status == SUBMITTED && is_terminal(
            new_status as int,
        ),
        forall|i: int|
            0 <= i < ledger.requests.len() ==> {
                let before = #[trigger] ledger.requests[i];
                let after = ledger.adjudicate(id, new_status, now).0.requests[i];
                if before.id == id && ledger.adjudicate(id, new_status, now).1 is Ok {
                    &&& allowed_transition(before.status as int, after.status as int)
                    &&& after.status == new_status
                    &&& after == MediaRequestView { status: new_status, updated_at: now, ..before }
                } else {
                    after == before
                }
            },
{
    let after = ledger.adjudicate(id, new_status, now).0;
    if ledger.adjudicate(id, new_status, now).1 is Ok {
        let k = ledger.request_index(id);
        assert(0 <= k < ledger.requests.len() && ledger.requests[k].id == id);
        assert forall|a: int, b: int| 0 <= a < b < after.requests.len() implies (
        #[trigger] after.requests[a]).id < (#[trigger] after.requests[b]).id by {
            assert(ledger.requests[a].id < ledger.requests[b].id);
        }
        assert forall|a: int, b: int| 0 <= a < b < after.requests.len() implies !LedgerView::same_item(
            #[trigger] after.requests[a],
            #[trigger] after.requests[b],
        ) by {
            assert(!LedgerView::same_item(ledger.requests[a], ledger.requests[b]));
        }
        assert forall|a: int| 0 <= a < after.requests.len() implies (
        #[trigger] after.requests[a]).id > 0 by {
            assert(ledger.requests[a].id > 0);
        }
        assert forall|i: int| 0 <= i < ledger.requests.len() && (
        #[trigger] ledger.requests[i]).id == id implies i == k by {
            ledger.lemma_request_index(id, i);
        }
    }
}

/// Of two adjudications of one request, made one after the other, at most
/// one succeeds: if the first succeeds, the second is refused as an invalid
/// transition and changes nothing. The first does succeed whenever the
/// request is submitted and the status asked for is terminal.
pub proof fn law_adjudication_succeeds_once(
    ledger: LedgerView,
    id: i32,
    first: i32,
    second: i32,
    now: Seq<char>,
    later: Seq<char>,
)
    requires
        ledger.wf(),
    ensures
        ledger.adjudicate(id, first, now).1 is Ok ==> ledger.adjudicate(id, first, now).0.adjudicate(
            id,
            second,
            later,
        ) == (
            ledger.adjudicate(id, first, now).0,
            Err::<MediaRequestView, AdjudicationError>(AdjudicationError::InvalidTransition),
        ),
        ledger.has_request(id) && ledger.requests[ledger.request_index(id)].status == SUBMITTED
            && is_terminal(first as int) ==> ledger.adjudicate(id, first, now).1 is Ok,
{
    if ledger.adjudicate(id, first, now).1 is Ok {
        law_status_follows_transitions(ledger, id, first, now);
        let after = ledger.adjudicate(id, first, now).0;
        let k = ledger.request_index(id);
        assert(0 <= k < ledger.requests.len() && ledger.requests[k].id == id);
        assert(after.requests[k].id == id);
        after.lemma_request_index(id, k);
        assert(after.requests[k].status == first);
        assert(!allowed_transition(first as int, second as int));
    }
}

/// The listings show what they are named after: every pending row is
/// submitted, every archived row is archived and has its title, and the
/// requests reported as lacking metadata are exactly those that have none.
pub proof fn law_listings_are_sound(ledger: LedgerView)
    requires
        ledger.wf(),
    ensures
        forall|i: int|
            0 <= i < ledger.pending().len() ==> (#[trigger] ledger.pending()[i]).status
                == SUBMITTED,
        forall|i: int|
            0 <= i < ledger.archived().len() ==> (#[trigger] ledger.archived()[i]).status
                == ARCHIVED && ledger.archived()[i].title is Some,
        forall|i: int|
            0 <= i < ledger.unscraped().len() ==> !ledger.has_media(
                (#[trigger] ledger.unscraped()[i]).request_id,
            ),
        forall|k: int|
            0 <= k < ledger.requests.len() && !ledger.has_media(
                (#[trigger] ledger.requests[k]).id,
            ) ==> exists|i: int|
                0 <= i < ledger.unscraped().len() && (#[trigger] ledger.unscraped()[i]).request_id
                    == ledger.requests[k].id,
{
    let submitted = ledger.requests.filter(LedgerView::is_pending());
    let archived = ledger.requests.filter(ledger.is_archived_with_media());
    let lacking = ledger.requests.filter(ledger.lacks_media());
    assert forall|i: int| 0 <= i < ledger.pending().len() implies (
    #[trigger] ledger.pending()[i]).status == SUBMITTED by {
        ledger.requests.lemma_filter_pred(LedgerView::is_pending(), i);
        assert(ledger.pending()[i] == ledger.joined(submitted[i]));
    }
    assert forall|i: int| 0 <= i < ledger.archived().len() implies (
    #[trigger] ledger.archived()[i]).status == ARCHIVED && ledger.archived()[i].title
        is Some by {
        ledger.requests.lemma_filter_pred(ledger.is_archived_with_media(), i);
        assert(ledger.archived()[i] == ledger.joined(archived[i]));
    }
    assert forall|i: int| 0 <= i < ledger.unscraped().len() implies !ledger.has_media(
        (#[trigger] ledger.unscraped()[i]).request_id,
    ) by {
        ledger.requests.lemma_filter_pred(ledger.lacks_media(), i);
        assert(ledger.unscraped()[i].request_id == lacking[i].id);
    }
    assert forall|k: int|
        0 <= k < ledger.requests.len() && !ledger.has_media(
            (#[trigger] ledger.requests[k]).id,
        ) implies exists|i: int|
        0 <= i < ledger.unscraped().len() && (#[trigger] ledger.unscraped()[i]).request_id
            == ledger.requests[k].id by {
        ledger.requests.lemma_filter_contains(ledger.lacks_media(), k);
        let i = choose|i: int| 0 <= i < lacking.len() && lacking[i] == ledger.requests[k];
        assert(ledger.unscraped()[i].request_id == ledger.requests[k].id);
    }
}

/// Requests are never removed, and neither filing a request nor storing
/// metadata touches a request already on record: only an adjudication
/// changes a row, and it changes status and time of change alone.
pub proof fn law_only_adjudication_changes_status(
    ledger: LedgerView,
    request: NewMediaRequestView,
    media: NewMediaView,
    id: i32,
    new_status: i32,
    now: Seq<char>,
)
    requires
        ledger.wf(),
    ensures
        ledger.submit(request, now).0.requests.len() >= ledger.requests.len(),
        forall|i: int|
            0 <= i < ledger.requests.len() ==> ledger.submit(request, now).0.requests[i]
                == #[trigger] ledger.requests[i],
        ledger.save_media(media, now).0.requests == ledger.requests,
        ledger.adjudicate(id, new_status, now).0.requests.len() == ledger.requests.len(),
        forall|i: int|
            0 <= i < ledger.requests.len() ==> {
                let before = #[trigger] ledger.requests[i];
                let after = ledger.adjudicate(id, new_status, now).0.requests[i];
                after == MediaRequestView {
                    status: after.status,
                    updated_at: after.updated_at,
                    ..before
                }
            },
{
}

/// The in-memory request ledger.
pub struct RequestLedger {
    requests: Vec<MediaRequest>,
    media: Vec<Media>,
}

impl View for RequestLedger {
    type V = LedgerView;

    closed spec fn view(&self) -> LedgerView {
        LedgerView { requests: views(self.requests@), media: views(self.media@) }
    }
}

impl RequestLedger {
    /// The invariant that every operation expects and keeps.
    pub open spec fn wf(&self) -> bool {
        self@.wf()
    }

    /// A ledger without rows.
    pub fn new() -> (ledger: RequestLedger)
        ensures
            ledger.wf(),
            ledger@.requests.len() == 0,
            ledger@.media.len() == 0,
    {
        RequestLedger { requests: Vec::new(), media: Vec::new() }
    }

    /// A ledger holding the given rows, if they satisfy the invariant.
    pub fn from_rows(requests: Vec<MediaRequest>, media: Vec<Media>) -> (r: Option<RequestLedger>)
        ensures
            match r {
                Some(ledger) => ledger.wf() && ledger@.requests == views(requests@) && ledger@.media
                    == views(media@),
                None => !(LedgerView { requests: views(requests@), media: views(media@) }).wf(),
            },
    {
        if Self::valid_requests(&requests) && Self::valid_media(&media) {
            Some(RequestLedger { requests, media })
        } else {
            None
        }
    }

    /// Checks the invariant on a list of requests.
    fn valid_requests(requests: &Vec<MediaRequest>) -> (r: bool)
        ensures
            r == LedgerView::requests_wf(views(requests@)),
    {
        let ghost all = views(requests@);
        let mut j: usize = 0;
        while j < requests.len()
            invariant
                j <= requests.len(),
                all == views(requests@),
                LedgerView::requests_wf(all.take(j as int)),
            decreases requests.len() - j,
        {
            if requests[j].id <= 0 {
                assert(!(all[j as int].id > 0));
                return false;
            }
            if j > 0 && requests[j - 1].id >= requests[j].id {
                assert(!(all[j - 1].id < all[j as int].id));
                return false;
            }
            let mut i: usize = 0;
            while i < j
                invariant
                    i <= j < requests.len(),
                    all == views(requests@),
                    forall|k: int|
                        0 <= k < i ==> !LedgerView::same_item(#[trigger] all[k], all[j as int]),
                decreases j - i,
            {
                if str_eq(requests[i].source.as_str(), requests[j].source.as_str()) && str_eq(
                    requests[i].media_id.as_str(),
                    requests[j].media_id.as_str(),
                ) {
                    assert(LedgerView::same_item(all[i as int], all[j as int]));
                    return false;
                }
                i += 1;
            }
            proof {
                let shorter = all.take(j as int);
                let longer = all.take(j + 1);
                assert forall|a: int, b: int| 0 <= a < b < longer.len() implies (
                #[trigger] longer[a]).id < (#[trigger] longer[b]).id by {
                    if b == j {
                        if a < j - 1 {
                            assert(shorter[a].id < shorter[j - 1].id);
                        }
                    } else {
                        assert(shorter[a].id < shorter[b].id);
                    }
                }
                assert forall|a: int, b: int| 0 <= a < b < longer.len() implies !LedgerView::same_item(
                    #[trigger] longer[a],
                    #[trigger] longer[b],
                ) by {
                    if b == j {
                        assert(!LedgerView::same_item(all[a], all[j as int]));
                    } else {
                        assert(!LedgerView::same_item(shorter[a], shorter[b]));
                    }
                }
                assert forall|a: int| 0 <= a < longer.len() implies (#[trigger] longer[a]).id
                    > 0 by {
                    if a < j {
                        assert(shorter[a].id > 0);
                    }
                }
            }
            j += 1;
        }
        assert(all.take(j as int) == all);
        true
    }

    /// Checks the invariant on a list of metadata rows.
    fn valid_media(media: &Vec<Media>) -> (r: bool)
        ensures
            r == LedgerView::media_wf(views(media@)),
    {
        let ghost all = views(media@);
        let mut n: usize = 0;
        while n < media.len()
            invariant
                n <= media.len(),
                all == views(media@),
                LedgerView::media_wf(all.take(n as int)),
            decreases media.len() - n,
        {
            if media[n].id <= 0 {
                assert(!(all[n as int].id > 0));
                return false;
            }
            if n > 0 && media[n - 1].id >= media[n].id {
                assert(!(all[n - 1].id < all[n as int].id));
                return false;
            }
            let mut i: usize = 0;
            while i < n
                invariant
                    i <= n < media.len(),
                    all == views(media@),
                    forall|k: int|
                        0 <= k < i ==> (#[trigger] all[k]).media_request_id
                            != all[n as int].media_request_id,
                decreases n - i,
            {
                if media[i].media_request_id == media[n].media_request_id {
                    assert(!(all[i as int].media_request_id != all[n as int].media_request_id));
                    return false;
                }
                i += 1;
            }
            proof {
                let shorter = all.take(n as int);
                let longer = all.take(n + 1);
                assert forall|a: int, b: int| 0 <= a < b < longer.len() implies (
                #[trigger] longer[a]).id < (#[trigger] longer[b]).id by {
                    if b == n {
                        if a < n - 1 {
                            assert(shorter[a].id < shorter[n - 1].id);
                        }
                    } else {
                        assert(shorter[a].id < shorter[b].id);
                    }
                }
                assert forall|a: int, b: int| 0 <= a < b < longer.len() implies (
                #[trigger] longer[a]).media_request_id != (
                #[trigger] longer[b]).media_request_id by {
                    if b == n {
                        assert(all[a].media_request_id != all[n as int].media_request_id);
                    } else {
                        assert(shorter[a].media_request_id != shorter[b].media_request_id);
                    }
                }
                assert forall|a: int| 0 <= a < longer.len() implies (#[trigger] longer[a]).id
                    > 0 by {
                    if a < n {
                        assert(shorter[a].id > 0);
                    }
                }
            }
            n += 1;
        }
        assert(all.take(n as int) == all);
        true
    }

    /// A copy of the request with this identifier, if there is one.
    pub fn request(&self, request_id: i32) -> (r: Option<MediaRequest>)
        requires
            self.wf(),
        ensures
            match r {
                Some(row) => self@.has_request(request_id) && row@
                    == self@.requests[self@.request_index(request_id)],
                None => !self@.has_request(request_id),
            },
    {
        match self.position(request_id) {
            Some(i) => Some(self.requests[i].duplicate()),
            None => None,
        }
    }

    /// A copy of the metadata row of a request, if it has one.
    pub fn media_of(&self, request_id: i32) -> (r: Option<Media>)
        requires
            self.wf(),
        ensures
            match r {
                Some(row) => self@.media_of(request_id) == Some(row@),
                None => self@.media_of(request_id) is None,
            },
    {
        match self.media_position(request_id) {
            Some(i) => Some(self.media[i].duplicate()),
            None => None,
        }
    }

    /// The number of requests on record.
    pub fn len(&self) -> (n: usize)
        ensures
            n == self@.requests.len(),
    {
        self.requests.len()
    }

    /// A copy of every request, in insertion order.
    pub fn requests(&self) -> (rows: Vec<MediaRequest>)
        ensures
            views(rows@) == self@.requests,
    {
        let mut out: Vec<MediaRequest> = Vec::new();
        let mut i: usize = 0;
        while i < self.requests.len()
            invariant
                i <= self.requests.len(),
                views(out@) == views(self.requests@).take(i as int),
            decreases self.requests.len() - i,
        {
            let row = self.requests[i].duplicate();
            proof {
                lemma_views_push(out@, row);
                assert(views(self.requests@).take(i + 1) == views(self.requests@).take(
                    i as int,
                ).push(row@));
            }
            out.push(row);
            i += 1;
        }
        assert(views(self.requests@).take(i as int) == views(self.requests@));
        out
    }

    /// Where the request with this identifier stands.
    fn position(&self, request_id: i32) -> (r: Option<usize>)
        requires
            self.wf(),
        ensures
            match r {
                Some(i) => i < self@.requests.len() && self@.requests[i as int].id == request_id
                    && self@.has_request(request_id) && self@.request_index(request_id) == i,
                None => !self@.has_request(request_id),
            },
    {
        let mut i: usize = 0;
        while i < self.requests.len()
            invariant
                i <= self.requests.len(),
                self.wf(),
                forall|j: int| 0 <= j < i ==> (#[trigger] self@.requests[j]).id != request_id,
            decreases self.requests.len() - i,
        {
            if self.requests[i].id == request_id {
                proof {
                    self@.lemma_request_index(request_id, i as int);
                }
                return Some(i);
            }
            i += 1;
        }
        None
    }

    /// Where the metadata of this request stands.
    fn media_position(&self, request_id: i32) -> (r: Option<usize>)
        requires
            self.wf(),
        ensures
            match r {
                Some(i) => i < self@.media.len() && self@.media[i as int].media_request_id
                    == request_id && self@.has_media(request_id) && self@.media_index(request_id)
                    == i,
                None => !self@.has_media(request_id),
            },
    {
        let mut i: usize = 0;
        while i < self.media.len()
            invariant
                i <= self.media.len(),
                self.wf(),
                forall|j: int|
                    0 <= j < i ==> (#[trigger] self@.media[j]).media_request_id != request_id,
            decreases self.media.len() - i,
        {
            if self.media[i].media_request_id == request_id {
                proof {
                    self@.lemma_media_index(request_id, i as int);
                }
                return Some(i);
            }
            i += 1;
        }
        None
    }

    /// Whether a request for this catalog item is on record.
    pub fn has_item(&self, source: &str, media_id: &str) -> (r: bool)
        ensures
            r == self@.has_item(source@, media_id@),
    {
        let mut i: usize = 0;
        while i < self.requests.len()
            invariant
                i <= self.requests.len(),
                forall|j: int|
                    0 <= j < i ==> !((#[trigger] self@.requests[j]).source == source@
                        && self@.requests[j].media_id == media_id@),
            decreases self.requests.len() - i,
        {
            let row = &self.requests[i];
            if str_eq(row.source.as_str(), source) && str_eq(row.media_id.as_str(), media_id) {
                assert(self@.requests[i as int].source == source@);
                return true;
            }
            i += 1;
        }
        false
    }

    /// Files a new request; see [`LedgerView::submit`].
    pub fn submit(&mut self, request: NewMediaRequest, now: &str) -> (r: Result<i32, LedgerError>)
        requires
            old(self).wf(),
        ensures
            final(self).wf(),
            final(self)@ == old(self)@.submit(request@, now@).0,
            r == old(self)@.submit(request@, now@).1,
            r matches Ok(id) ==> final(self)@.has_request(id) && final(self)@.request_index(id)
                == old(self)@.requests.len(),
            forall|id: i32| #[trigger]
                old(self)@.has_request(id) ==> final(self)@.has_request(id)
                    && final(self)@.request_index(id) == old(self)@.request_index(id),
    {
        proof {
            lemma_submit_keeps_positions(self@, request@, now@);
        }
        if self.has_item(request.source.as_str(), request.media_id.as_str()) {
            return Err(LedgerError::Duplicate);
        }
        let n = self.requests.len();
        let id: i32 = if n == 0 {
            1
        } else {
            let last = self.requests[n - 1].id;
            assert(self@.requests.last().id == last);
            if last == i32::MAX {
                return Err(LedgerError::Exhausted);
            }
            last + 1
        };
        let row = MediaRequest {
            id,
            source: request.source,
            media_id: request.media_id,
            request_user: request.request_user,
            status: request.status,
            created_at: String::from_str(now),
            updated_at: String::from_str(now),
        };
        proof {
            lemma_views_push(self.requests@, row);
            lemma_submit_wf(self@, request@, now@);
        }
        self.requests.push(row);
        Ok(id)
    }

    /// Moves a request to a terminal status; see [`LedgerView::adjudicate`].
    /// On success the updated row is returned.
    pub fn adjudicate(&mut self, request_id: i32, new_status: i32, now: &str) -> (r: Result<
        MediaRequest,
        AdjudicationError,
    >)
        requires
            old(self).wf(),
        ensures
            final(self).wf(),
            final(self)@ == old(self)@.adjudicate(request_id, new_status, now@).0,
            adjudication_view(r) == old(self)@.adjudicate(request_id, new_status, now@).1,
            forall|id: i32| #[trigger]
                old(self)@.has_request(id) ==> final(self)@.has_request(id)
                    && final(self)@.request_index(id) == old(self)@.request_index(id),
    {
        proof {
            lemma_adjudicate_keeps_positions(self@, request_id, new_status, now@);
        }
        match self.position(request_id) {
            None => Err(AdjudicationError::NotFound),
            Some(i) => {
                if !may_transition(self.requests[i].status, new_status) {
                    return Err(AdjudicationError::InvalidTransition);
                }
                let row = &self.requests[i];
                let updated = MediaRequest {
                    id: row.id,
                    source: row.source.clone(),
                    media_id: row.media_id.clone(),
                    request_user: row.request_user,
                    status: new_status,
                    created_at: row.created_at.clone(),
                    updated_at: String::from_str(now),
                };
                let stored = updated.duplicate();
                proof {
                    law_status_follows_transitions(self@, request_id, new_status, now@);
                    assert(views(self.requests@.update(i as int, stored))
                        =~= self@.requests.update(i as int, stored@));
                }
                self.requests.set(i, stored);
                Ok(updated)
            },
        }
    }

    /// Stores metadata for a request; see [`LedgerView::save_media`].
    pub fn save_media(&mut self, new_media: NewMedia, now: &str) -> (r: Result<(), LedgerError>)
        requires
            old(self).wf(),
        ensures
            final(self).wf(),
            final(self)@ == old(self)@.save_media(new_media@, now@).0,
            r == old(self)@.save_media(new_media@, now@).1,
    {
        match self.media_position(new_media.media_request_id) {
            Some(i) => {
                let row = &self.media[i];
                let updated = Media {
                    id: row.id,
                    media_request_id: row.media_request_id,
                    title: new_media.title,
                    summary: new_media.summary,
                    poster: new_media.poster,
                    created_at: row.created_at.clone(),
                    updated_at: String::from_str(now),
                };
                proof {
                    lemma_save_media_wf(self@, new_media@, now@);
                    assert(views(self.media@.update(i as int, updated)) =~= self@.media.update(
                        i as int,
                        updated@,
                    ));
                }
                self.media.set(i, updated);
                Ok(())
            },
            None => {
                let n = self.media.len();
                let id: i32 = if n == 0 {
                    1
                } else {
                    let last = self.media[n - 1].id;
                    assert(self@.media.last().id == last);
                    if last == i32::MAX {
                        return Err(LedgerError::Exhausted);
                    }
                    last + 1
                };
                let row = Media {
                    id,
                    media_request_id: new_media.media_request_id,
                    title: new_media.title,
                    summary: new_media.summary,
                    poster: new_media.poster,
                    created_at: String::from_str(now),
                    updated_at: String::from_str(now),
                };
                proof {
                    lemma_views_push(self.media@, row);
                    lemma_save_media_wf(self@, new_media@, now@);
                }
                self.media.push(row);
                Ok(())
            },
        }
    }

    /// A request joined with its metadata.
    fn join(&self, row: &MediaRequest) -> (r: MediaRequestWithMedia)
        requires
            self.wf(),
        ensures
            r@ == self@.joined(row@),
    {
        let (title, poster) = match self.media_position(row.id) {
            Some(i) => (Some(self.media[i].title.clone()), copy_text(&self.media[i].poster)),
            None => (None, None),
        };
        MediaRequestWithMedia {
            id: row.id,
            source: row.source.clone(),
            media_id: row.media_id.clone(),
            status: row.status,
            created_at: row.created_at.clone(),
            title,
            poster,
        }
    }

    /// The submitted requests, each with the title and poster of its
    /// metadata where there is any.
    pub fn get_pending_requests(&self) -> (rows: Vec<MediaRequestWithMedia>)
        requires
            self.wf(),
        ensures
            views(rows@) == self@.pending(),
    {
        let mut out: Vec<MediaRequestWithMedia> = Vec::new();
        let mut i: usize = 0;
        proof {
            lemma_select_none(self@.requests, LedgerView::is_pending(), self@.join());
        }
        while i < self.requests.len()
            invariant
                i <= self.requests.len(),
                self.wf(),
                views(out@) == select(
                    self@.requests.take(i as int),
                    LedgerView::is_pending(),
                    self@.join(),
                ),
            decreases self.requests.len() - i,
        {
            let row = &self.requests[i];
            proof {
                lemma_select_step(self@.requests, LedgerView::is_pending(), self@.join(), i as int);
            }
            if row.status == SUBMITTED {
                let entry = self.join(row);
                proof {
                    lemma_views_push(out@, entry);
                }
                out.push(entry);
            }
            i += 1;
        }
        assert(self@.requests.take(i as int) == self@.requests);
        out
    }

    /// The archived requests that have metadata, each with its title and poster.
    pub fn get_archived_requests(&self) -> (rows: Vec<MediaRequestWithMedia>)
        requires
            self.wf(),
        ensures
            views(rows@) == self@.archived(),
    {
        let mut out: Vec<MediaRequestWithMedia> = Vec::new();
        let mut i: usize = 0;
        proof {
            lemma_select_none(self@.requests, self@.is_archived_with_media(), self@.join());
        }
        while i < self.requests.len()
            invariant
                i <= self.requests.len(),
                self.wf(),
                views(out@) == select(
                    self@.requests.take(i as int),
                    self@.is_archived_with_media(),
                    self@.join(),
                ),
            decreases self.requests.len() - i,
        {
            let row = &self.requests[i];
            proof {
                lemma_select_step(
                    self@.requests,
                    self@.is_archived_with_media(),
                    self@.join(),
                    i as int,
                );
            }
            if row.status == ARCHIVED && self.media_position(row.id).is_some() {
                let entry = self.join(row);
                proof {
                    lemma_views_push(out@, entry);
                }
                out.push(entry);
            }
            i += 1;
        }
        assert(self@.requests.take(i as int) == self@.requests);
        out
    }

    /// The requests for which no metadata has been stored.
    pub fn unscraped_requests(&self) -> (rows: Vec<Unscraped>)
        requires
            self.wf(),
        ensures
            views(rows@) == self@.unscraped(),
    {
        let mut out: Vec<Unscraped> = Vec::new();
        let mut i: usize = 0;
        proof {
            lemma_select_none(self@.requests, self@.lacks_media(), LedgerView::as_unscraped());
        }
        while i < self.requests.len()
            invariant
                i <= self.requests.len(),
                self.wf(),
                views(out@) == select(
                    self@.requests.take(i as int),
                    self@.lacks_media(),
                    LedgerView::as_unscraped(),
                ),
            decreases self.requests.len() - i,
        {
            let row = &self.requests[i];
            proof {
                lemma_select_step(
                    self@.requests,
                    self@.lacks_media(),
                    LedgerView::as_unscraped(),
                    i as int,
                );
            }
            if self.media_position(row.id).is_none() {
                let entry = Unscraped {
                    request_id: row.id,
                    source: row.source.clone(),
                    media_id: row.media_id.clone(),
                };
                proof {
                    lemma_views_push(out@, entry);
                }
                out.push(entry);
            }
            i += 1;
        }
        assert(self@.requests.take(i as int) == self@.requests);
        out
    }

    /// Every metadata row, reduced to identifier, title and poster.
    pub fn get_media_list(&self) -> (rows: Vec<MediaListResponse>)
        ensures
            views(rows@) == self@.listing(),
    {
        let mut out: Vec<MediaListResponse> = Vec::new();
        let mut i: usize = 0;
        while i < self.media.len()
            invariant
                i <= self.media.len(),
                views(out@) == self@.listing().take(i as int),
            decreases self.media.len() - i,
        {
            let m = &self.media[i];
            let entry = MediaListResponse {
                id: m.id,
                title: m.title.clone(),
                poster: copy_text(&m.poster),
            };
            proof {
                lemma_views_push(out@, entry);
                assert(self@.listing().take(i + 1) == self@.listing().take(i as int).push(entry@));
            }
            out.push(entry);
            i += 1;
        }
        assert(self@.listing().take(i as int) == self@.listing());
        out
    }
}

} // verus!
