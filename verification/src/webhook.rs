//! The notification dispatcher and the administrators' surface: arrival
//! events of the media server, each series announced once; the adjudication
//! of requests, with the notice sent to the requester; and the registration
//! check.

use crate::auth::{check_admin, check_registered, get_username, DirectoryView, UserDirectory};
use crate::clock::{utc_now, ROW_STAMP};
use crate::ledger::{AdjudicationError, LedgerView, RequestLedger};
use crate::messages::{
    ARRIVAL_EPISODE_CLOSE, ARRIVAL_EPISODE_OPEN, ARRIVAL_PREFIX, ARRIVAL_YEAR_CLOSE,
    ARRIVAL_YEAR_OPEN, NOTICE_ARCHIVED, NOTICE_BREAK, NOTICE_CANCELLED, NOTICE_INVALID,
    NOTICE_MEDIA_ID, NOTICE_SOURCE, NOTICE_STATUS, REQUEST_NOT_FOUND, REQUEST_NOT_SUBMITTED,
    STATUS_ARCHIVED, STATUS_CANCELLED, STATUS_INVALID, STATUS_SUBMITTED, STATUS_UNKNOWN,
    STATUS_UPDATED_PREFIX,
};
use crate::models::media_request_status::{ARCHIVED, CANCELLED, INVALID, SUBMITTED};
use crate::models::{lemma_views_push, text_view, views};
use crate::text::{decimal, str_eq, u64_to_string};
use vstd::prelude::*;
use vstd::string::*;

pub mod batch;

verus! {

/// The event tag of a library arrival.
pub const LIBRARY_NEW: &'static str = "library.new";

/// The HTTP status of an accepted call.
pub const OK: u16 = 200;

/// The HTTP status of a refused call.
pub const BAD_REQUEST: u16 = 400;

/// The library item that an event speaks of.
#[derive(Clone, Debug, PartialEq, Eq)]
pub struct Item {
    pub name: String,
    pub index_number: u16,
    pub production_year: u16,
    pub series_name: String,
    pub series_id: String,
    pub season_name: String,
}

pub struct ItemView {
    pub name: Seq<char>,
    pub index_number: u16,
    pub production_year: u16,
    pub series_name: Seq<char>,
    pub series_id: Seq<char>,
    pub season_name: Seq<char>,
}

impl View for Item {
    type V = ItemView;

    open spec fn view(&self) -> ItemView {
        ItemView {
            name: self.name@,
            index_number: self.index_number,
            production_year: self.production_year,
            series_name: self.series_name@,
            series_id: self.series_id@,
            season_name: self.season_name@,
        }
    }
}

/// An event of the media server.
#[derive(Clone, Debug, PartialEq, Eq)]
pub struct WebhookPayload {
    pub title: String,
    pub description: String,
    pub date: String,
    pub event: String,
    pub item: Option<Item>,
}

pub struct WebhookPayloadView {
    pub title: Seq<char>,
    pub description: Seq<char>,
    pub date: Seq<char>,
    pub event: Seq<char>,
    pub item: Option<ItemView>,
}

impl View for WebhookPayload {
    type V = WebhookPayloadView;

    open spec fn view(&self) -> WebhookPayloadView {
        WebhookPayloadView {
            title: self.title@,
            description: self.description@,
            date: self.date@,
            event: self.event@,
            item: match self.item {
                Some(item) => Some(item@),
                None => None,
            },
        }
    }
}

/// A text to deliver to a chat.
#[derive(Clone, Debug, PartialEq, Eq)]
pub struct Notification {
    pub chat_id: i64,
    pub text: String,
}

pub struct NotificationView {
    pub chat_id: i64,
    pub text: Seq<char>,
}

impl View for Notification {
    type V = NotificationView;

    open spec fn view(&self) -> NotificationView {
        NotificationView { chat_id: self.chat_id, text: self.text@ }
    }
}

/// The series already announced since the process started.
pub struct DedupSet {
    seen: Vec<String>,
}

impl View for DedupSet {
    type V = Set<Seq<char>>;

    closed spec fn view(&self) -> Set<Seq<char>> {
        Set::new(|id: Seq<char>| exists|i: int| 0 <= i < self.seen@.len() && self.seen@[i]@ == id)
    }
}

impl DedupSet {
    /// A set that has seen nothing.
    pub fn new() -> (set: DedupSet)
        ensures
            set@ == Set::<Seq<char>>::empty(),
    {
        let set = DedupSet { seen: Vec::new() };
        assert(set@ =~= Set::<Seq<char>>::empty());
        set
    }

    /// Whether the series was announced before.
    pub fn contains(&self, series_id: &str) -> (r: bool)
        ensures
            r == self@.contains(series_id@),
    {
        let mut i: usize = 0;
        while i < self.seen.len()
            invariant
                i <= self.seen.len(),
                forall|j: int| 0 <= j < i ==> self.seen@[j]@ != series_id@,
            decreases self.seen.len() - i,
        {
            if str_eq(self.seen[i].as_str(), series_id) {
                return true;
            }
            i += 1;
        }
        false
    }

    /// Checks and records in one step: tells whether the series is seen for
    /// the first time, and remembers it.
    pub fn first_sighting(&mut self, series_id: &str) -> (fresh: bool)
        ensures
            fresh == !old(self)@.contains(series_id@),
            final(self)@ == old(self)@.insert(series_id@),
    {
        if self.contains(series_id) {
            assert(self@ =~= self@.insert(series_id@));
            false
        } else {
            let ghost before = self.seen@;
            let entry = String::from_str(series_id);
            self.seen.push(entry);
            proof {
                assert forall|id: Seq<char>| self@.contains(id) <==> old(self)@.insert(
                    series_id@,
                ).contains(id) by {
                    if self@.contains(id) {
                        let i = choose|i: int| 0 <= i < self.seen@.len() && self.seen@[i]@ == id;
                        if i < before.len() {
                            assert(before[i]@ == id);
                        }
                    }
                    if old(self)@.contains(id) {
                        let i = choose|i: int| 0 <= i < before.len() && before[i]@ == id;
                        assert(self.seen@[i]@ == id);
                    }
                    if id == series_id@ {
                        assert(self.seen@[before.len() as int]@ == id);
                    }
                }
                assert(self@ =~= old(self)@.insert(series_id@));
            }
            true
        }
    }
}

/// The announcement of a new episode.
pub open spec fn arrival_text(item: ItemView) -> Seq<char> {
    ARRIVAL_PREFIX@ + item.series_name + ARRIVAL_YEAR_OPEN@ + decimal(item.production_year as int)
        + ARRIVAL_YEAR_CLOSE@ + item.season_name + ARRIVAL_EPISODE_OPEN@ + decimal(
        item.index_number as int,
    ) + ARRIVAL_EPISODE_CLOSE@ + item.name
}

/// Words the announcement of a new episode.
pub fn announcement(item: &Item) -> (r: String)
    ensures
        r@ == arrival_text(item@),
{
    let mut out = String::from_str(ARRIVAL_PREFIX);
    out.append(item.series_name.as_str());
    out.append(ARRIVAL_YEAR_OPEN);
    let year = u64_to_string(item.production_year as u64);
    out.append(year.as_str());
    out.append(ARRIVAL_YEAR_CLOSE);
    out.append(item.season_name.as_str());
    out.append(ARRIVAL_EPISODE_OPEN);
    let index = u64_to_string(item.index_number as u64);
    out.append(index.as_str());
    out.append(ARRIVAL_EPISODE_CLOSE);
    out.append(item.name.as_str());
    out
}

/// One text for every chat of the audience, in the audience's order.
pub open spec fn fan_out(chat_list: Seq<i64>, text: Seq<char>) -> Seq<NotificationView> {
    chat_list.map_values(|chat_id: i64| NotificationView { chat_id, text })
}

/// Whether an event is announced: it is a library arrival, it names an item,
/// and the item's series has not been announced before.
pub open spec fn announces(seen: Set<Seq<char>>, payload: WebhookPayloadView) -> bool {
    payload.event == LIBRARY_NEW@ && payload.item is Some && !seen.contains(
        payload.item->0.series_id,
    )
}

/// The series known after an event: an arrival that names an item adds its series.
pub open spec fn seen_after(seen: Set<Seq<char>>, payload: WebhookPayloadView) -> Set<Seq<char>> {
    if payload.event == LIBRARY_NEW@ && payload.item is Some {
        seen.insert(payload.item->0.series_id)
    } else {
        seen
    }
}

/// What an event sends out: the announcement to the whole audience when
/// the event is announced, nothing otherwise.
pub open spec fn batch_of(
    seen: Set<Seq<char>>,
    chat_list: Seq<i64>,
    payload: WebhookPayloadView,
) -> Seq<NotificationView> {
    if announces(seen, payload) {
        fan_out(chat_list, arrival_text(payload.item->0))
    } else {
        Seq::empty()
    }
}

/// Takes an event of the media server. An arrival of a series not seen
/// before is announced to every chat of the audience, and the series is
/// remembered in the same step; every other event is accepted and ignored.
pub fn handle_webhook(payload: &WebhookPayload, chat_list: &Vec<i64>, seen: &mut DedupSet) -> (batch:
    Vec<Notification>)
    ensures
        final(seen)@ == seen_after(old(seen)@, payload@),
        views(batch@) == batch_of(old(seen)@, chat_list@, payload@),
{
    let mut batch: Vec<Notification> = Vec::new();
    assert(views(batch@) =~= Seq::<NotificationView>::empty());
    if !str_eq(payload.event.as_str(), LIBRARY_NEW) {
        return batch;
    }
    match &payload.item {
        None => batch,
        Some(item) => {
            if !seen.first_sighting(item.series_id.as_str()) {
                return batch;
            }
            let text = announcement(item);
            let ghost wanted = fan_out(chat_list@, text@);
            let mut i: usize = 0;
            while i < chat_list.len()
                invariant
                    i <= chat_list.len(),
                    wanted == fan_out(chat_list@, text@),
                    views(batch@) == wanted.take(i as int),
                decreases chat_list.len() - i,
            {
                let note = Notification { chat_id: chat_list[i], text: text.clone() };
                proof {
                    lemma_views_push(batch@, note);
                    assert(wanted.take(i + 1) == wanted.take(i as int).push(note@));
                }
                batch.push(note);
                i += 1;
            }
            assert(wanted.take(i as int) == wanted);
            batch
        },
    }
}

/// How often a series is announced while a sequence of events is taken,
/// one after the other, starting from the series in `seen`.
pub open spec fn announcements(
    seen: Set<Seq<char>>,
    payloads: Seq<WebhookPayloadView>,
    series_id: Seq<char>,
) -> nat
    decreases payloads.len(),
{
    if payloads.len() == 0 {
        0
    } else {
        let first = payloads[0];
        let now: nat = if announces(seen, first) && first.item->0.series_id == series_id {
            1
        } else {
            0
        };
        now + announcements(seen_after(seen, first), payloads.skip(1), series_id)
    }
}

/// An event is an arrival of the given series.
pub open spec fn arrival_of(payload: WebhookPayloadView, series_id: Seq<char>) -> bool {
    payload.event == LIBRARY_NEW@ && payload.item is Some && payload.item->0.series_id == series_id
}

/// However many arrivals of a series come in, the series is announced
/// once: never if it was announced before, exactly once if it was not and
/// at least one arrival of it comes, and not at all if none comes.
pub proof fn law_series_announced_once(
    seen: Set<Seq<char>>,
    payloads: Seq<WebhookPayloadView>,
    series_id: Seq<char>,
)
    ensures
        seen.contains(series_id) ==> announcements(seen, payloads, series_id) == 0,
        !seen.contains(series_id) && (exists|i: int|
            0 <= i < payloads.len() && arrival_of(#[trigger] payloads[i], series_id))
            ==> announcements(seen, payloads, series_id) == 1,
        !(exists|i: int| 0 <= i < payloads.len() && arrival_of(#[trigger] payloads[i], series_id))
            ==> announcements(seen, payloads, series_id) == 0,
    decreases payloads.len(),
{
    if payloads.len() > 0 {
        let first = payloads[0];
        let rest = payloads.skip(1);
        law_series_announced_once(seen_after(seen, first), rest, series_id);
        if exists|i: int| 0 <= i < payloads.len() && arrival_of(#[trigger] payloads[i], series_id) {
            let i = choose|i: int|
                0 <= i < payloads.len() && arrival_of(#[trigger] payloads[i], series_id);
            if !arrival_of(first, series_id) {
                assert(i > 0);
                assert(rest[i - 1] == payloads[i]);
                assert(arrival_of(rest[i - 1], series_id));
            }
        } else {
            assert forall|i: int| 0 <= i < rest.len() implies !arrival_of(
                #[trigger] rest[i],
                series_id,
            ) by {
                assert(rest[i] == payloads[i + 1]);
            }
        }
    }
}

/// The word for a status.
pub open spec fn status_word(status: i32) -> Seq<char> {
    if status == SUBMITTED {
        STATUS_SUBMITTED@
    } else if status == ARCHIVED {
        STATUS_ARCHIVED@
    } else if status == CANCELLED {
        STATUS_CANCELLED@
    } else if status == INVALID {
        STATUS_INVALID@
    } else {
        STATUS_UNKNOWN@
    }
}

/// Words a status.
pub fn status_text(status: i32) -> (r: &'static str)
    ensures
        r@ == status_word(status),
{
    if status == SUBMITTED {
        STATUS_SUBMITTED
    } else if status == ARCHIVED {
        STATUS_ARCHIVED
    } else if status == CANCELLED {
        STATUS_CANCELLED
    } else if status == INVALID {
        STATUS_INVALID
    } else {
        STATUS_UNKNOWN
    }
}

/// The sentence that closes a notice, by status.
pub open spec fn notice_closing(status: i32) -> Seq<char> {
    if status == ARCHIVED {
        NOTICE_ARCHIVED@
    } else if status == INVALID {
        NOTICE_INVALID@
    } else if status == CANCELLED {
        NOTICE_CANCELLED@
    } else {
        Seq::empty()
    }
}

/// The notice sent to the requester when a request changes status.
pub open spec fn notice_text(source: Seq<char>, media_id: Seq<char>, status: i32) -> Seq<char> {
    NOTICE_SOURCE@ + source + NOTICE_MEDIA_ID@ + media_id + NOTICE_STATUS@ + status_word(status)
        + NOTICE_BREAK@ + notice_closing(status)
}

/// Words the notice sent to the requester when a request changes status.
pub fn notice(source: &str, media_id: &str, status: i32) -> (r: String)
    ensures
        r@ == notice_text(source@, media_id@, status),
{
    let mut out = String::from_str(NOTICE_SOURCE);
    out.append(source);
    out.append(NOTICE_MEDIA_ID);
    out.append(media_id);
    out.append(NOTICE_STATUS);
    out.append(status_text(status));
    out.append(NOTICE_BREAK);
    if status == ARCHIVED {
        out.append(NOTICE_ARCHIVED);
    } else if status == INVALID {
        out.append(NOTICE_INVALID);
    } else if status == CANCELLED {
        out.append(NOTICE_CANCELLED);
    } else {
        assert(out@ + Seq::<char>::empty() =~= out@);
    }
    out
}

/// A status change asked for by an administrator.
#[derive(Clone, Copy, Debug, PartialEq, Eq, Structural)]
pub struct UpdateRequestPayload {
    pub request_id: i32,
    pub new_status: i32,
}

/// The answer to a call of the administrators' surface.
#[derive(Clone, Debug, PartialEq, Eq)]
pub struct ApiResponse {
    pub success: bool,
    pub message: String,
}

pub struct ApiResponseView {
    pub success: bool,
    pub message: Seq<char>,
}

impl View for ApiResponse {
    type V = ApiResponseView;

    open spec fn view(&self) -> ApiResponseView {
        ApiResponseView { success: self.success, message: self.message@ }
    }
}

/// What an adjudication leads to: the answer to the caller with its HTTP
/// status, and the notice to deliver to the requester, if any. Delivery is
/// best effort: whether it succeeds has no bearing on the ledger.
#[derive(Clone, Debug, PartialEq, Eq)]
pub struct Adjudication {
    pub code: u16,
    pub response: ApiResponse,
    pub notification: Option<Notification>,
}

pub struct AdjudicationView {
    pub code: u16,
    pub response: ApiResponseView,
    pub notification: Option<NotificationView>,
}

impl View for Adjudication {
    type V = AdjudicationView;

    open spec fn view(&self) -> AdjudicationView {
        AdjudicationView {
            code: self.code,
            response: self.response@,
            notification: match self.notification {
                Some(n) => Some(n@),
                None => None,
            },
        }
    }
}

/// What an adjudication at time `now` answers and sends. A request that is
/// unknown, or not submitted, or asked to move to a status that is not
/// terminal, is refused and nothing is sent; otherwise the caller learns the
/// new status and the requester gets the notice.
pub open spec fn update_outcome(ledger: LedgerView, payload: UpdateRequestPayload, now: Seq<char>) -> (
    LedgerView,
    AdjudicationView,
) {
    match ledger.adjudicate(payload.request_id, payload.new_status, now).1 {
        Err(AdjudicationError::NotFound) => (
            ledger,
            AdjudicationView {
                code: BAD_REQUEST,
                response: ApiResponseView { success: false, message: REQUEST_NOT_FOUND@ },
                notification: None,
            },
        ),
        Err(AdjudicationError::InvalidTransition) => (
            ledger,
            AdjudicationView {
                code: BAD_REQUEST,
                response: ApiResponseView { success: false, message: REQUEST_NOT_SUBMITTED@ },
                notification: None,
            },
        ),
        Ok(row) => (
            ledger.adjudicate(payload.request_id, payload.new_status, now).0,
            AdjudicationView {
                code: OK,
                response: ApiResponseView {
                    success: true,
                    message: STATUS_UPDATED_PREFIX@ + status_word(payload.new_status),
                },
                notification: Some(
                    NotificationView {
                        chat_id: row.request_user,
                        text: notice_text(row.source, row.media_id, payload.new_status),
                    },
                ),
            },
        ),
    }
}

/// Adjudicates a request at time `now`.
pub fn update_request_at(ledger: &mut RequestLedger, payload: UpdateRequestPayload, now: &str) -> (r:
    Adjudication)
    requires
        old(ledger).wf(),
    ensures
        final(ledger).wf(),
        (final(ledger)@, r@) == update_outcome(old(ledger)@, payload, now@),
{
    match ledger.adjudicate(payload.request_id, payload.new_status, now) {
        Err(AdjudicationError::NotFound) => Adjudication {
            code: BAD_REQUEST,
            response: ApiResponse { success: false, message: String::from_str(REQUEST_NOT_FOUND) },
            notification: None,
        },
        Err(AdjudicationError::InvalidTransition) => Adjudication {
            code: BAD_REQUEST,
            response: ApiResponse {
                success: false,
                message: String::from_str(REQUEST_NOT_SUBMITTED),
            },
            notification: None,
        },
        Ok(row) => {
            let mut message = String::from_str(STATUS_UPDATED_PREFIX);
            message.append(status_text(payload.new_status));
            let text = notice(row.source.as_str(), row.media_id.as_str(), payload.new_status);
            Adjudication {
                code: OK,
                response: ApiResponse { success: true, message },
                notification: Some(Notification { chat_id: row.request_user, text }),
            }
        },
    }
}

/// Adjudicates a request; the change is stamped with the current time.
pub fn update_request(ledger: &mut RequestLedger, payload: UpdateRequestPayload) -> (r: Adjudication)
    requires
        old(ledger).wf(),
    ensures
        final(ledger).wf(),
        exists|now: Seq<char>|
            (final(ledger)@, r@) == #[trigger] update_outcome(old(ledger)@, payload, now),
{
    let now = utc_now(ROW_STAMP);
    update_request_at(ledger, payload, now.as_str())
}

/// What is known of a chat identity.
#[derive(Clone, Debug, PartialEq, Eq)]
pub struct UserCheckResponse {
    pub registered: bool,
    pub telegram_username: Option<String>,
    pub database_username: Option<String>,
    pub admin: Option<bool>,
}

pub struct UserCheckResponseView {
    pub registered: bool,
    pub telegram_username: Option<Seq<char>>,
    pub database_username: Option<Seq<char>>,
    pub admin: Option<bool>,
}

impl View for UserCheckResponse {
    type V = UserCheckResponseView;

    open spec fn view(&self) -> UserCheckResponseView {
        UserCheckResponseView {
            registered: self.registered,
            telegram_username: text_view(self.telegram_username),
            database_username: text_view(self.database_username),
            admin: self.admin,
        }
    }
}

/// What the registration check reports: for a registered chat its display
/// name and administrator flag, for any other chat nothing but that it is
/// not registered. The name in the chat service is never known here.
pub open spec fn registration_report(directory: DirectoryView, telegram_id: i64) -> UserCheckResponseView {
    if directory.is_registered(telegram_id) {
        UserCheckResponseView {
            registered: true,
            telegram_username: None,
            database_username: Some(directory.user(telegram_id).username),
            admin: Some(directory.user(telegram_id).admin),
        }
    } else {
        UserCheckResponseView {
            registered: false,
            telegram_username: None,
            database_username: None,
            admin: None,
        }
    }
}

/// Reports whether a chat identity is registered.
pub fn check_user_registration(directory: &UserDirectory, telegram_id: i64) -> (r: UserCheckResponse)
    requires
        directory.wf(),
    ensures
        r@ == registration_report(directory@, telegram_id),
{
    if check_registered(directory, telegram_id) {
        UserCheckResponse {
            registered: true,
            telegram_username: None,
            database_username: Some(get_username(directory, telegram_id)),
            admin: Some(check_admin(directory, telegram_id)),
        }
    } else {
        UserCheckResponse {
            registered: false,
            telegram_username: None,
            database_username: None,
            admin: None,
        }
    }
}

} // verus!
