//! The rows of the three tables (registrations, media requests, fetched
//! metadata) and the values from which new rows are made. Each has a view in
//! which text is a `Seq<char>`.

use vstd::prelude::*;
use vstd::string::*;

pub mod media_request_status;

verus! {

/// The views of the elements of a sequence.
pub open spec fn views<T: View>(items: Seq<T>) -> Seq<T::V> {
    items.map_values(|item: T| item@)
}

/// The view of an optional string.
pub open spec fn text_view(text: Option<String>) -> Option<Seq<char>> {
    match text {
        Some(s) => Some(s@),
        None => None,
    }
}

/// Appending an element appends its view.
pub proof fn lemma_views_push<T: View>(items: Seq<T>, item: T)
    ensures
        views(items.push(item)) == views(items).push(item@),
{
    assert(views(items.push(item)) =~= views(items).push(item@));
}

/// A copy of an optional string.
pub fn copy_text(text: &Option<String>) -> (r: Option<String>)
    ensures
        r == *text,
        text_view(r) == text_view(*text),
{
    match text {
        Some(s) => Some(s.clone()),
        None => None,
    }
}

/// A registration: the link between a chat identity and a provisioned account.
#[derive(Clone, Debug, PartialEq, Eq)]
pub struct TelegramUser {
    pub id: i32,
    pub telegram_id: i64,
    pub username: String,
    pub admin: bool,
    pub emby_user_id: Option<String>,
}

pub struct TelegramUserView {
    pub id: i32,
    pub telegram_id: i64,
    pub username: Seq<char>,
    pub admin: bool,
    pub emby_user_id: Option<Seq<char>>,
}

impl View for TelegramUser {
    type V = TelegramUserView;

    open spec fn view(&self) -> TelegramUserView {
        TelegramUserView {
            id: self.id,
            telegram_id: self.telegram_id,
            username: self.username@,
            admin: self.admin,
            emby_user_id: text_view(self.emby_user_id),
        }
    }
}

impl TelegramUser {
    /// A copy of this row.
    pub fn duplicate(&self) -> (r: TelegramUser)
        ensures
            r == *self,
            r@ == self@,
    {
        TelegramUser {
            id: self.id,
            telegram_id: self.telegram_id,
            username: self.username.clone(),
            admin: self.admin,
            emby_user_id: copy_text(&self.emby_user_id),
        }
    }
}

/// What is known of a registration before it is stored.
#[derive(Clone, Debug, PartialEq, Eq)]
pub struct NewTelegramUser {
    pub telegram_id: i64,
    pub username: String,
    pub emby_user_id: String,
}

pub struct NewTelegramUserView {
    pub telegram_id: i64,
    pub username: Seq<char>,
    pub emby_user_id: Seq<char>,
}

impl View for NewTelegramUser {
    type V = NewTelegramUserView;

    open spec fn view(&self) -> NewTelegramUserView {
        NewTelegramUserView {
            telegram_id: self.telegram_id,
            username: self.username@,
            emby_user_id: self.emby_user_id@,
        }
    }
}

/// One user's request for one catalog item.
#[derive(Clone, Debug, PartialEq, Eq)]
pub struct MediaRequest {
    pub id: i32,
    pub source: String,
    pub media_id: String,
    pub request_user: i64,
    pub status: i32,
    pub created_at: String,
    pub updated_at: String,
}

pub struct MediaRequestView {
    pub id: i32,
    pub source: Seq<char>,
    pub media_id: Seq<char>,
    pub request_user: i64,
    pub status: i32,
    pub created_at: Seq<char>,
    pub updated_at: Seq<char>,
}

impl View for MediaRequest {
    type V = MediaRequestView;

    open spec fn view(&self) -> MediaRequestView {
        MediaRequestView {
            id: self.id,
            source: self.source@,
            media_id: self.media_id@,
            request_user: self.request_user,
            status: self.status,
            created_at: self.created_at@,
            updated_at: self.updated_at@,
        }
    }
}

impl MediaRequest {
    /// A copy of this row.
    pub fn duplicate(&self) -> (r: MediaRequest)
        ensures
            r == *self,
            r@ == self@,
    {
        MediaRequest {
            id: self.id,
            source: self.source.clone(),
            media_id: self.media_id.clone(),
            request_user: self.request_user,
            status: self.status,
            created_at: self.created_at.clone(),
            updated_at: self.updated_at.clone(),
        }
    }
}

/// What is known of a media request before it is stored.
#[derive(Clone, Debug, PartialEq, Eq)]
pub struct NewMediaRequest {
    pub source: String,
    pub media_id: String,
    pub request_user: i64,
    pub status: i32,
}

pub struct NewMediaRequestView {
    pub source: Seq<char>,
    pub media_id: Seq<char>,
    pub request_user: i64,
    pub status: i32,
}

impl View for NewMediaRequest {
    type V = NewMediaRequestView;

    open spec fn view(&self) -> NewMediaRequestView {
        NewMediaRequestView {
            source: self.source@,
            media_id: self.media_id@,
            request_user: self.request_user,
            status: self.status,
        }
    }
}

/// The fetched title, summary and poster of a media request.
#[derive(Clone, Debug, PartialEq, Eq)]
pub struct Media {
    pub id: i32,
    pub media_request_id: i32,
    pub title: String,
    pub summary: Option<String>,
    pub poster: Option<String>,
    pub created_at: String,
    pub updated_at: String,
}

pub struct MediaView {
    pub id: i32,
    pub media_request_id: i32,
    pub title: Seq<char>,
    pub summary: Option<Seq<char>>,
    pub poster: Option<Seq<char>>,
    pub created_at: Seq<char>,
    pub updated_at: Seq<char>,
}

impl View for Media {
    type V = MediaView;

    open spec fn view(&self) -> MediaView {
        MediaView {
            id: self.id,
            media_request_id: self.media_request_id,
            title: self.title@,
            summary: text_view(self.summary),
            poster: text_view(self.poster),
            created_at: self.created_at@,
            updated_at: self.updated_at@,
        }
    }
}

impl Media {
    /// A copy of this row.
    pub fn duplicate(&self) -> (r: Media)
        ensures
            r == *self,
            r@ == self@,
    {
        Media {
            id: self.id,
            media_request_id: self.media_request_id,
            title: self.title.clone(),
            summary: copy_text(&self.summary),
            poster: copy_text(&self.poster),
            created_at: self.created_at.clone(),
            updated_at: self.updated_at.clone(),
        }
    }
}

/// What is known of fetched metadata before it is stored.
#[derive(Clone, Debug, PartialEq, Eq)]
pub struct NewMedia {
    pub media_request_id: i32,
    pub title: String,
    pub summary: Option<String>,
    pub poster: Option<String>,
}

pub struct NewMediaView {
    pub media_request_id: i32,
    pub title: Seq<char>,
    pub summary: Option<Seq<char>>,
    pub poster: Option<Seq<char>>,
}

impl View for NewMedia {
    type V = NewMediaView;

    open spec fn view(&self) -> NewMediaView {
        NewMediaView {
            media_request_id: self.media_request_id,
            title: self.title@,
            summary: text_view(self.summary),
            poster: text_view(self.poster),
        }
    }
}

} // verus!
