//! Catalog lookups: which request to send to which metadata provider, and
//! what the provider's answer means.
//!
//! The transport is not here. A lookup is planned by [`scrape_media_info`],
//! carried out by the caller, and its answer is read by [`scrape_tmdb`] or
//! [`scrape_bgm`].

use crate::clock::{utc_now, ROW_STAMP};
use crate::ledger::{LedgerError, RequestLedger};
use crate::models::{text_view, NewMedia, NewMediaView};
use crate::text::{lowercased, str_eq, to_lowercase};
use vstd::prelude::*;
use vstd::string::*;

verus! {

pub const TMDB: &'static str = "tmdb";

pub const BGM: &'static str = "bgm";

pub const UNSUPPORTED_SOURCE: &'static str = "Unsupported media source";

pub const TMDB_TOKEN_MISSING: &'static str = "TMDB_ACCESS_TOKEN not found in environment";

pub const BGM_TOKEN_MISSING: &'static str = "BGM_ACCESS_TOKEN not found in environment";

pub const TMDB_API: &'static str = "https://api.themoviedb.org/3/";

pub const TMDB_LANGUAGE: &'static str = "?language=zh-CN";

pub const TMDB_POSTERS: &'static str = "https://image.tmdb.org/t/p/w500";

pub const BGM_API: &'static str = "https://api.bgm.tv/v0/subjects/";

pub const BGM_USER_AGENT: &'static str = "sun00108/nyamedia-bot";

pub const BEARER: &'static str = "Bearer ";

pub const SLASH: &'static str = "/";

pub const UNKNOWN_TITLE: &'static str = "Unknown Title";

pub const TMDB_UNREACHABLE: &'static str = "Failed to fetch from TMDB: ";

pub const TMDB_STATUS: &'static str = "TMDB API returned status: ";

pub const TMDB_UNREADABLE: &'static str = "Failed to parse TMDB response: ";

pub const BGM_UNREACHABLE: &'static str = "Failed to fetch from BGM: ";

pub const BGM_STATUS: &'static str = "BGM API returned status: ";

pub const BGM_UNREADABLE: &'static str = "Failed to parse BGM response: ";

/// The title, summary and poster of a catalog item.
#[derive(Clone, Debug, PartialEq, Eq)]
pub struct MediaInfo {
    pub title: String,
    pub summary: String,
    pub poster: String,
}

pub struct MediaInfoView {
    pub title: Seq<char>,
    pub summary: Seq<char>,
    pub poster: Seq<char>,
}

impl View for MediaInfo {
    type V = MediaInfoView;

    open spec fn view(&self) -> MediaInfoView {
        MediaInfoView { title: self.title@, summary: self.summary@, poster: self.poster@ }
    }
}

/// A metadata provider.
#[derive(Clone, Copy, Debug, PartialEq, Eq, Structural)]
pub enum Provider {
    Tmdb,
    Bgm,
}

/// The access tokens of the providers, where configured.
#[derive(Clone, Debug, PartialEq, Eq)]
pub struct Tokens {
    pub tmdb: Option<String>,
    pub bgm: Option<String>,
}

pub struct TokensView {
    pub tmdb: Option<Seq<char>>,
    pub bgm: Option<Seq<char>>,
}

impl View for Tokens {
    type V = TokensView;

    open spec fn view(&self) -> TokensView {
        TokensView { tmdb: text_view(self.tmdb), bgm: text_view(self.bgm) }
    }
}

/// An HTTP GET to be sent to a provider.
#[derive(Clone, Debug, PartialEq, Eq)]
pub struct Lookup {
    pub provider: Provider,
    pub url: String,
    pub authorization: String,
    pub user_agent: Option<String>,
}

pub struct LookupView {
    pub provider: Provider,
    pub url: Seq<char>,
    pub authorization: Seq<char>,
    pub user_agent: Option<Seq<char>>,
}

impl View for Lookup {
    type V = LookupView;

    open spec fn view(&self) -> LookupView {
        LookupView {
            provider: self.provider,
            url: self.url@,
            authorization: self.authorization@,
            user_agent: text_view(self.user_agent),
        }
    }
}

/// How a lookup went wrong before an answer could be read.
#[derive(Clone, Debug, PartialEq, Eq)]
pub enum FetchError {
    /// The request could not be sent or no answer came; the transport's words.
    Unreachable(String),
    /// The provider answered with a status other than success; the status line.
    Status(String),
    /// The answer was not the expected document; the parser's words.
    Unreadable(String),
}

pub enum FetchErrorView {
    Unreachable(Seq<char>),
    Status(Seq<char>),
    Unreadable(Seq<char>),
}

impl View for FetchError {
    type V = FetchErrorView;

    open spec fn view(&self) -> FetchErrorView {
        match self {
            FetchError::Unreachable(s) => FetchErrorView::Unreachable(s@),
            FetchError::Status(s) => FetchErrorView::Status(s@),
            FetchError::Unreadable(s) => FetchErrorView::Unreadable(s@),
        }
    }
}

/// The fields read from the answer of the movie and television catalog.
#[derive(Clone, Debug, PartialEq, Eq)]
pub struct TmdbResponse {
    pub title: Option<String>,
    pub name: Option<String>,
    pub overview: String,
    pub poster_path: Option<String>,
}

pub struct TmdbResponseView {
    pub title: Option<Seq<char>>,
    pub name: Option<Seq<char>>,
    pub overview: Seq<char>,
    pub poster_path: Option<Seq<char>>,
}

impl View for TmdbResponse {
    type V = TmdbResponseView;

    open spec fn view(&self) -> TmdbResponseView {
        TmdbResponseView {
            title: text_view(self.title),
            name: text_view(self.name),
            overview: self.overview@,
            poster_path: text_view(self.poster_path),
        }
    }
}

/// The fields read from the answer of the community catalog.
#[derive(Clone, Debug, PartialEq, Eq)]
pub struct BgmResponse {
    pub name_cn: String,
    pub summary: String,
    pub image: String,
}

pub struct BgmResponseView {
    pub name_cn: Seq<char>,
    pub summary: Seq<char>,
    pub image: Seq<char>,
}

impl View for BgmResponse {
    type V = BgmResponseView;

    open spec fn view(&self) -> BgmResponseView {
        BgmResponseView { name_cn: self.name_cn@, summary: self.summary@, image: self.image@ }
    }
}

/// The view of a planned lookup or the reason there is none.
pub open spec fn lookup_view(r: Result<Lookup, String>) -> Result<LookupView, Seq<char>> {
    match r {
        Ok(l) => Ok(l@),
        Err(e) => Err(e@),
    }
}

/// The view of fetched metadata or the reason there is none.
pub open spec fn info_view(r: Result<MediaInfo, String>) -> Result<MediaInfoView, Seq<char>> {
    match r {
        Ok(i) => Ok(i@),
        Err(e) => Err(e@),
    }
}

/// The address of an item in the movie and television catalog.
pub open spec fn tmdb_url(media_type: Seq<char>, media_id: Seq<char>) -> Seq<char> {
    TMDB_API@ + media_type + SLASH@ + media_id + TMDB_LANGUAGE@
}

/// The address of an item in the community catalog.
pub open spec fn bgm_url(media_id: Seq<char>) -> Seq<char> {
    BGM_API@ + media_id
}

/// The lookup for an item, given the source tag in lower case: `tmdb` and
/// `bgm` are served, each only with its access token; anything else is not.
pub open spec fn planned(
    lowered_source: Seq<char>,
    media_type: Seq<char>,
    media_id: Seq<char>,
    tokens: TokensView,
) -> Result<LookupView, Seq<char>> {
    if lowered_source == TMDB@ {
        match tokens.tmdb {
            Some(token) => Ok(
                LookupView {
                    provider: Provider::Tmdb,
                    url: tmdb_url(media_type, media_id),
                    authorization: BEARER@ + token,
                    user_agent: None,
                },
            ),
            None => Err(TMDB_TOKEN_MISSING@),
        }
    } else if lowered_source == BGM@ {
        match tokens.bgm {
            Some(token) => Ok(
                LookupView {
                    provider: Provider::Bgm,
                    url: bgm_url(media_id),
                    authorization: BEARER@ + token,
                    user_agent: Some(BGM_USER_AGENT@),
                },
            ),
            None => Err(BGM_TOKEN_MISSING@),
        }
    } else {
        Err(UNSUPPORTED_SOURCE@)
    }
}

/// What a failed lookup is reported as.
pub open spec fn failure_text(provider: Provider, error: FetchErrorView) -> Seq<char> {
    match (provider, error) {
        (Provider::Tmdb, FetchErrorView::Unreachable(e)) => TMDB_UNREACHABLE@ + e,
        (Provider::Tmdb, FetchErrorView::Status(e)) => TMDB_STATUS@ + e,
        (Provider::Tmdb, FetchErrorView::Unreadable(e)) => TMDB_UNREADABLE@ + e,
        (Provider::Bgm, FetchErrorView::Unreachable(e)) => BGM_UNREACHABLE@ + e,
        (Provider::Bgm, FetchErrorView::Status(e)) => BGM_STATUS@ + e,
        (Provider::Bgm, FetchErrorView::Unreadable(e)) => BGM_UNREADABLE@ + e,
    }
}

/// What the movie and television catalog's answer says: the title, else the
/// name, else a placeholder; the overview; the poster's address, or nothing.
pub open spec fn tmdb_info(answer: TmdbResponseView) -> MediaInfoView {
    MediaInfoView {
        title: match answer.title {
            Some(t) => t,
            None => match answer.name {
                Some(n) => n,
                None => UNKNOWN_TITLE@,
            },
        },
        summary: answer.overview,
        poster: match answer.poster_path {
            Some(p) => TMDB_POSTERS@ + p,
            None => Seq::empty(),
        },
    }
}

/// What the community catalog's answer says.
pub open spec fn bgm_info(answer: BgmResponseView) -> MediaInfoView {
    MediaInfoView { title: answer.name_cn, summary: answer.summary, poster: answer.image }
}

/// The outcome of a lookup in the movie and television catalog.
pub open spec fn tmdb_outcome(answer: Result<TmdbResponse, FetchError>) -> Result<
    MediaInfoView,
    Seq<char>,
> {
    match answer {
        Ok(a) => Ok(tmdb_info(a@)),
        Err(e) => Err(failure_text(Provider::Tmdb, e@)),
    }
}

/// The outcome of a lookup in the community catalog.
pub open spec fn bgm_outcome(answer: Result<BgmResponse, FetchError>) -> Result<
    MediaInfoView,
    Seq<char>,
> {
    match answer {
        Ok(a) => Ok(bgm_info(a@)),
        Err(e) => Err(failure_text(Provider::Bgm, e@)),
    }
}

/// The metadata row made of fetched metadata: an empty summary or poster is
/// stored as absent.
pub open spec fn new_media(media_request_id: i32, info: MediaInfoView) -> NewMediaView {
    NewMediaView {
        media_request_id,
        title: info.title,
        summary: if info.summary.len() == 0 {
            None
        } else {
            Some(info.summary)
        },
        poster: if info.poster.len() == 0 {
            None
        } else {
            Some(info.poster)
        },
    }
}

/// The bearer credential of a token.
fn bearer(token: &str) -> (r: String)
    ensures
        r@ == BEARER@ + token@,
{
    let mut out = String::from_str(BEARER);
    out.append(token);
    out
}

/// Plans the lookup of an item from a source tag that is already in lower case.
pub fn plan_lookup(lowered_source: &str, media_type: &str, media_id: &str, tokens: &Tokens) -> (r:
    Result<Lookup, String>)
    ensures
        lookup_view(r) == planned(lowered_source@, media_type@, media_id@, tokens@),
{
    if str_eq(lowered_source, TMDB) {
        match &tokens.tmdb {
            Some(token) => {
                let mut url = String::from_str(TMDB_API);
                url.append(media_type);
                url.append(SLASH);
                url.append(media_id);
                url.append(TMDB_LANGUAGE);
                Ok(
                    Lookup {
                        provider: Provider::Tmdb,
                        url,
                        authorization: bearer(token.as_str()),
                        user_agent: None,
                    },
                )
            },
            None => Err(String::from_str(TMDB_TOKEN_MISSING)),
        }
    } else if str_eq(lowered_source, BGM) {
        match &tokens.bgm {
            Some(token) => {
                let mut url = String::from_str(BGM_API);
                url.append(media_id);
                Ok(
                    Lookup {
                        provider: Provider::Bgm,
                        url,
                        authorization: bearer(token.as_str()),
                        user_agent: Some(String::from_str(BGM_USER_AGENT)),
                    },
                )
            },
            None => Err(String::from_str(BGM_TOKEN_MISSING)),
        }
    } else {
        Err(String::from_str(UNSUPPORTED_SOURCE))
    }
}

/// Plans the lookup of an item: the source tag is matched without regard to
/// case, as [`plan_lookup`] matches its lower-case form.
pub fn scrape_media_info(source: &str, media_type: &str, media_id: &str, tokens: &Tokens) -> (r:
    Result<Lookup, String>)
    ensures
        lookup_view(r) == planned(lowercased(source@), media_type@, media_id@, tokens@),
{
    let lowered = to_lowercase(source);
    plan_lookup(lowered.as_str(), media_type, media_id, tokens)
}

/// Words a failed lookup for the requester.
pub fn describe_failure(provider: Provider, error: &FetchError) -> (r: String)
    ensures
        r@ == failure_text(provider, error@),
{
    let (prefix, detail) = match (provider, error) {
        (Provider::Tmdb, FetchError::Unreachable(e)) => (TMDB_UNREACHABLE, e),
        (Provider::Tmdb, FetchError::Status(e)) => (TMDB_STATUS, e),
        (Provider::Tmdb, FetchError::Unreadable(e)) => (TMDB_UNREADABLE, e),
        (Provider::Bgm, FetchError::Unreachable(e)) => (BGM_UNREACHABLE, e),
        (Provider::Bgm, FetchError::Status(e)) => (BGM_STATUS, e),
        (Provider::Bgm, FetchError::Unreadable(e)) => (BGM_UNREADABLE, e),
    };
    let mut out = String::from_str(prefix);
    out.append(detail.as_str());
    out
}

/// Reads the answer of the movie and television catalog.
pub fn scrape_tmdb(answer: Result<TmdbResponse, FetchError>) -> (r: Result<MediaInfo, String>)
    ensures
        info_view(r) == tmdb_outcome(answer),
{
    match answer {
        Err(e) => Err(describe_failure(Provider::Tmdb, &e)),
        Ok(a) => {
            let title = match a.title {
                Some(t) => t,
                None => match a.name {
                    Some(n) => n,
                    None => String::from_str(UNKNOWN_TITLE),
                },
            };
            let poster = match a.poster_path {
                Some(p) => {
                    let mut out = String::from_str(TMDB_POSTERS);
                    out.append(p.as_str());
                    out
                },
                None => String::new(),
            };
            Ok(MediaInfo { title, summary: a.overview, poster })
        },
    }
}

/// Reads the answer of the community catalog.
pub fn scrape_bgm(answer: Result<BgmResponse, FetchError>) -> (r: Result<MediaInfo, String>)
    ensures
        info_view(r) == bgm_outcome(answer),
{
    match answer {
        Err(e) => Err(describe_failure(Provider::Bgm, &e)),
        Ok(a) => Ok(MediaInfo { title: a.name_cn, summary: a.summary, poster: a.image }),
    }
}

/// The metadata row to store for a request.
pub fn media_row(media_request_id: i32, media_info: &MediaInfo) -> (r: NewMedia)
    ensures
        r@ == new_media(media_request_id, media_info@),
{
    NewMedia {
        media_request_id,
        title: media_info.title.clone(),
        summary: if media_info.summary.as_str().is_empty() {
            None
        } else {
            Some(media_info.summary.clone())
        },
        poster: if media_info.poster.as_str().is_empty() {
            None
        } else {
            Some(media_info.poster.clone())
        },
    }
}

/// Stores fetched metadata for a request at time `now`, replacing what was
/// stored for it before.
pub fn save_media_at(
    ledger: &mut RequestLedger,
    media_request_id: i32,
    media_info: &MediaInfo,
    now: &str,
) -> (r: Result<(), LedgerError>)
    requires
        old(ledger).wf(),
    ensures
        final(ledger).wf(),
        final(ledger)@ == old(ledger)@.save_media(new_media(media_request_id, media_info@), now@).0,
        r == old(ledger)@.save_media(new_media(media_request_id, media_info@), now@).1,
{
    let row = media_row(media_request_id, media_info);
    ledger.save_media(row, now)
}

/// Stores fetched metadata for a request, stamped with the current time.
pub fn save_media_to_db(ledger: &mut RequestLedger, media_request_id: i32, media_info: &MediaInfo) -> (r:
    Result<(), LedgerError>)
    requires
        old(ledger).wf(),
    ensures
        final(ledger).wf(),
        exists|now: Seq<char>|
            {
                &&& final(ledger)@ == (#[trigger] old(ledger)@.save_media(
                    new_media(media_request_id, media_info@),
                    now,
                )).0
                &&& r == old(ledger)@.save_media(new_media(media_request_id, media_info@), now).1
            },
{
    let now = utc_now(ROW_STAMP);
    save_media_at(ledger, media_request_id, media_info, now.as_str())
}

} // verus!
