//! The request flow: choose a catalog, choose a media kind, name the item,
//! look at what was found, and confirm.

use crate::bot::{
    both, brief_reply, nothing, only, reply, say, say_briefly, ChatKind, Content, ContentView,
    Effect, EffectView, Keyboard, State, StateView, Turn, TurnView,
};
use crate::clock::{utc_now, ROW_STAMP};
use crate::ledger::{LedgerError, LedgerView, RequestLedger};
use crate::messages::{
    ask_media_id, ask_media_id_text, confirmation_card, confirmation_card_text,
    fetch_failed_text, framed, ALREADY_REQUESTED, CHOOSE_MEDIA_TYPE, CHOOSE_SOURCE,
    FETCHING, FETCH_FAILED_PREFIX, FETCH_FAILED_SUFFIX, INVALID_ID, INVALID_MEDIA_TYPE,
    INVALID_SOURCE, MEDIA_ID_NOT_NUMERIC, PRIVATE_ONLY, REQUEST_CANCELLED, REQUEST_SUBMITTED,
    UNKNOWN_CHOICE, UNKNOWN_MEDIA_TYPE, UNKNOWN_SOURCE,
};
use crate::models::media_request_status::SUBMITTED;
use crate::models::{text_view, NewMediaRequest, NewMediaRequestView};
use crate::scraper::{info_view, new_media, save_media_at, MediaInfo, MediaInfoView};
use crate::text::{all_digits, is_numeric, str_eq};
use vstd::prelude::*;
use vstd::string::*;

verus! {

pub const SOURCE_TMDB: &'static str = "TMDB";

pub const SOURCE_BGM: &'static str = "BGM.TV";

pub const KIND_MOVIE: &'static str = "电影";

pub const KIND_SERIES: &'static str = "电视剧";

pub const LABEL_CONFIRM: &'static str = "确认";

pub const LABEL_CANCEL: &'static str = "取消";

pub const CONFIRM: &'static str = "confirm";

pub const CANCEL: &'static str = "cancel";

pub const SLASH: &'static str = "/";

pub const API_TMDB: &'static str = "tmdb";

pub const API_BGM: &'static str = "bgm";

pub const API_MOVIE: &'static str = "movie";

pub const API_TV: &'static str = "tv";

pub const API_SUBJECT: &'static str = "subject";

pub const API_UNKNOWN: &'static str = "unknown";

pub const STORED_TMDB_MOVIE: &'static str = "TMDB/MV";

pub const STORED_TMDB_TV: &'static str = "TMDB/TV";

pub const LINK_TMDB_MOVIE: &'static str = "https://www.themoviedb.org/movie/";

pub const LINK_TMDB_TV: &'static str = "https://www.themoviedb.org/tv/";

pub const LINK_BGM: &'static str = "https://bgm.tv/subject/";

pub const REQUEST_NOT_STORED: &'static str = "请求提交失败，请联系管理员。[Error: Database]";

/// How the request command is answered: refused in groups, otherwise the
/// catalogs are offered.
pub open spec fn request_start_turn(chat: ChatKind, state: StateView) -> TurnView {
    match chat {
        ChatKind::Public => TurnView { state, effects: say_briefly(PRIVATE_ONLY@) },
        ChatKind::Private => TurnView {
            state: StateView::WaitingRequestDatasource,
            effects: seq![
                EffectView::SendChoices { text: CHOOSE_SOURCE@, keyboard: Keyboard::DataSources },
            ],
        },
    }
}

/// Answers the request command.
pub fn request_start(chat: ChatKind, state: State) -> (turn: Turn)
    ensures
        turn@ == request_start_turn(chat, state@),
{
    match chat {
        ChatKind::Public => Turn { state, effects: brief_reply(PRIVATE_ONLY) },
        ChatKind::Private => Turn {
            state: State::WaitingRequestDatasource,
            effects: only(
                Effect::SendChoices {
                    text: String::from_str(CHOOSE_SOURCE),
                    keyboard: Keyboard::DataSources,
                },
            ),
        },
    }
}

/// How a button press is taken while a request waits for the catalog: one
/// of the two catalogs moves on to the media kinds, anything else is
/// refused with a notice that is taken back, and a press without data is
/// ignored.
pub open spec fn request_media_type_turn(data: Option<Seq<char>>) -> TurnView {
    match data {
        Some(choice) => if choice == SOURCE_TMDB@ || choice == SOURCE_BGM@ {
            TurnView {
                state: StateView::WaitingRequestMediaType { data_source: choice },
                effects: seq![
                    EffectView::SendChoices {
                        text: CHOOSE_MEDIA_TYPE@,
                        keyboard: Keyboard::MediaTypes,
                    },
                ],
            }
        } else {
            TurnView {
                state: StateView::WaitingRequestDatasource,
                effects: seq![EffectView::SendRetracted { text: INVALID_SOURCE@ }],
            }
        },
        None => TurnView { state: StateView::WaitingRequestDatasource, effects: Seq::empty() },
    }
}

/// Takes a button press while a request waits for the catalog.
pub fn request_media_type(data: &Option<String>) -> (turn: Turn)
    ensures
        turn@ == request_media_type_turn(text_view(*data)),
{
    match data {
        Some(choice) => if str_eq(choice.as_str(), SOURCE_TMDB) || str_eq(
            choice.as_str(),
            SOURCE_BGM,
        ) {
            Turn {
                state: State::WaitingRequestMediaType { data_source: choice.clone() },
                effects: only(
                    Effect::SendChoices {
                        text: String::from_str(CHOOSE_MEDIA_TYPE),
                        keyboard: Keyboard::MediaTypes,
                    },
                ),
            }
        } else {
            Turn {
                state: State::WaitingRequestDatasource,
                effects: only(Effect::SendRetracted { text: String::from_str(INVALID_SOURCE) }),
            }
        },
        None => Turn { state: State::WaitingRequestDatasource, effects: nothing() },
    }
}

/// How a button press is taken while a request waits for the media kind:
/// one of the two kinds moves on to asking for the item id, anything else
/// is refused, and a press without data is ignored.
pub open spec fn request_media_id_turn(data_source: Seq<char>, data: Option<Seq<char>>) -> TurnView {
    match data {
        Some(choice) => if choice == KIND_MOVIE@ || choice == KIND_SERIES@ {
            TurnView {
                state: StateView::WaitingRequestMediaID { data_source, media_type: choice },
                effects: say(ask_media_id_text(data_source, choice)),
            }
        } else {
            TurnView {
                state: StateView::WaitingRequestMediaType { data_source },
                effects: say(INVALID_MEDIA_TYPE@),
            }
        },
        None => TurnView {
            state: StateView::WaitingRequestMediaType { data_source },
            effects: Seq::empty(),
        },
    }
}

/// Takes a button press while a request waits for the media kind.
pub fn request_media_id(data_source: String, data: &Option<String>) -> (turn: Turn)
    ensures
        turn@ == request_media_id_turn(data_source@, text_view(*data)),
{
    match data {
        Some(choice) => if str_eq(choice.as_str(), KIND_MOVIE) || str_eq(
            choice.as_str(),
            KIND_SERIES,
        ) {
            let text = ask_media_id(data_source.as_str(), choice.as_str());
            Turn {
                state: State::WaitingRequestMediaID { data_source, media_type: choice.clone() },
                effects: reply(text.as_str()),
            }
        } else {
            Turn {
                state: State::WaitingRequestMediaType { data_source },
                effects: reply(INVALID_MEDIA_TYPE),
            }
        },
        None => Turn { state: State::WaitingRequestMediaType { data_source }, effects: nothing() },
    }
}

/// The provider and the kind to look an item up under, or the notice that
/// the choices made earlier in the flow are not known.
pub open spec fn lookup_params(data_source: Seq<char>, media_type: Seq<char>) -> Result<
    (Seq<char>, Seq<char>),
    Seq<char>,
> {
    if data_source == SOURCE_TMDB@ {
        if media_type == KIND_MOVIE@ {
            Ok((API_TMDB@, API_MOVIE@))
        } else if media_type == KIND_SERIES@ {
            Ok((API_TMDB@, API_TV@))
        } else {
            Err(UNKNOWN_MEDIA_TYPE@)
        }
    } else if data_source == SOURCE_BGM@ {
        Ok((API_BGM@, API_SUBJECT@))
    } else {
        Err(UNKNOWN_SOURCE@)
    }
}

/// Works out under which provider and kind to look an item up.
pub fn api_params(data_source: &str, media_type: &str) -> (r: Result<
    (&'static str, &'static str),
    &'static str,
>)
    ensures
        match r {
            Ok((source, kind)) => lookup_params(data_source@, media_type@) == Ok::<
                (Seq<char>, Seq<char>),
                Seq<char>,
            >((source@, kind@)),
            Err(notice) => lookup_params(data_source@, media_type@) == Err::<
                (Seq<char>, Seq<char>),
                Seq<char>,
            >(notice@),
        },
{
    if str_eq(data_source, SOURCE_TMDB) {
        if str_eq(media_type, KIND_MOVIE) {
            Ok((API_TMDB, API_MOVIE))
        } else if str_eq(media_type, KIND_SERIES) {
            Ok((API_TMDB, API_TV))
        } else {
            Err(UNKNOWN_MEDIA_TYPE)
        }
    } else if str_eq(data_source, SOURCE_BGM) {
        Ok((API_BGM, API_SUBJECT))
    } else {
        Err(UNKNOWN_SOURCE)
    }
}

/// How a message is taken while a request waits for the item id. A text
/// with anything but digits in it is refused; a numeric text starts the
/// lookup behind a progress message, unless the earlier choices are not
/// known; anything else is refused. The conversation keeps waiting in
/// every case.
pub open spec fn request_confirmation_turn(
    content: ContentView,
    data_source: Seq<char>,
    media_type: Seq<char>,
) -> TurnView {
    let state = StateView::WaitingRequestMediaID { data_source, media_type };
    match content {
        ContentView::Text(id) => if !all_digits(id) {
            TurnView { state, effects: say(MEDIA_ID_NOT_NUMERIC@) }
        } else {
            match lookup_params(data_source, media_type) {
                Ok((source, kind)) => TurnView {
                    state,
                    effects: seq![
                        EffectView::Progress { text: FETCHING@ },
                        EffectView::Fetch { source, media_type: kind, media_id: id },
                    ],
                },
                Err(notice) => TurnView {
                    state,
                    effects: seq![
                        EffectView::Progress { text: FETCHING@ },
                        EffectView::ReplaceProgress { text: notice },
                    ],
                },
            }
        },
        ContentView::NonText => TurnView { state, effects: say(INVALID_ID@) },
        ContentView::Other => TurnView { state, effects: Seq::empty() },
    }
}

/// Takes a message while a request waits for the item id.
pub fn request_confirmation(content: &Content, data_source: String, media_type: String) -> (turn: Turn)
    ensures
        turn@ == request_confirmation_turn(content@, data_source@, media_type@),
{
    match content {
        Content::Text(id) => if !is_numeric(id.as_str()) {
            Turn {
                state: State::WaitingRequestMediaID { data_source, media_type },
                effects: reply(MEDIA_ID_NOT_NUMERIC),
            }
        } else {
            let progress = Effect::Progress { text: String::from_str(FETCHING) };
            let next = match api_params(data_source.as_str(), media_type.as_str()) {
                Ok((source, kind)) => Effect::Fetch {
                    source: String::from_str(source),
                    media_type: String::from_str(kind),
                    media_id: id.clone(),
                },
                Err(notice) => Effect::ReplaceProgress { text: String::from_str(notice) },
            };
            Turn {
                state: State::WaitingRequestMediaID { data_source, media_type },
                effects: both(progress, next),
            }
        },
        Content::NonText => Turn {
            state: State::WaitingRequestMediaID { data_source, media_type },
            effects: reply(INVALID_ID),
        },
        Content::Other => Turn {
            state: State::WaitingRequestMediaID { data_source, media_type },
            effects: nothing(),
        },
    }
}

/// The page of an item in its catalog.
pub open spec fn media_link(data_source: Seq<char>, media_type: Seq<char>, media_id: Seq<char>) -> Seq<
    char,
> {
    if data_source == SOURCE_TMDB@ {
        if media_type == KIND_MOVIE@ {
            LINK_TMDB_MOVIE@ + media_id
        } else {
            LINK_TMDB_TV@ + media_id
        }
    } else {
        LINK_BGM@ + media_id
    }
}

/// How the flow goes on once the lookup has answered. What was found is
/// shown on a card with the confirm and cancel buttons, and the request
/// waits for the choice; a failed lookup is reported in place of the
/// progress message and ends the flow.
pub open spec fn fetched_turn(
    data_source: Seq<char>,
    media_type: Seq<char>,
    media_id: Seq<char>,
    outcome: Result<MediaInfoView, Seq<char>>,
) -> TurnView {
    match lookup_params(data_source, media_type) {
        Err(notice) => TurnView {
            state: StateView::WaitingRequestMediaID { data_source, media_type },
            effects: seq![EffectView::ReplaceProgress { text: notice }],
        },
        Ok(_) => match outcome {
            Ok(info) => TurnView {
                state: StateView::WaitingRequestConfirmation { data_source, media_type, media_id },
                effects: seq![
                    EffectView::RemoveProgress,
                    EffectView::SendChoices {
                        text: confirmation_card_text(
                            info.title,
                            media_link(data_source, media_type, media_id),
                            info.summary,
                        ),
                        keyboard: Keyboard::Confirmation,
                    },
                ],
            },
            Err(reason) => TurnView {
                state: StateView::Start,
                effects: seq![EffectView::ReplaceProgress { text: fetch_failed_text(reason) }],
            },
        },
    }
}

/// Goes on with the flow once the lookup has answered.
pub fn request_confirmation_fetched(
    data_source: String,
    media_type: String,
    media_id: String,
    outcome: &Result<MediaInfo, String>,
) -> (turn: Turn)
    ensures
        turn@ == fetched_turn(data_source@, media_type@, media_id@, info_view(*outcome)),
{
    match api_params(data_source.as_str(), media_type.as_str()) {
        Err(notice) => Turn {
            state: State::WaitingRequestMediaID { data_source, media_type },
            effects: only(Effect::ReplaceProgress { text: String::from_str(notice) }),
        },
        Ok(_) => match outcome {
            Ok(info) => {
                let prefix = if str_eq(data_source.as_str(), SOURCE_TMDB) {
                    if str_eq(media_type.as_str(), KIND_MOVIE) {
                        LINK_TMDB_MOVIE
                    } else {
                        LINK_TMDB_TV
                    }
                } else {
                    LINK_BGM
                };
                let mut link = String::from_str(prefix);
                link.append(media_id.as_str());
                let card = confirmation_card(
                    info.title.as_str(),
                    link.as_str(),
                    info.summary.as_str(),
                );
                Turn {
                    state: State::WaitingRequestConfirmation { data_source, media_type, media_id },
                    effects: both(
                        Effect::RemoveProgress,
                        Effect::SendChoices { text: card, keyboard: Keyboard::Confirmation },
                    ),
                }
            },
            Err(reason) => {
                let text = framed(FETCH_FAILED_PREFIX, reason.as_str(), FETCH_FAILED_SUFFIX);
                Turn {
                    state: State::Start,
                    effects: only(Effect::ReplaceProgress { text }),
                }
            },
        },
    }
}

/// The source tag under which a request is stored: the movie and television
/// catalog is split by media kind, any other source keeps its name.
pub open spec fn stored_source(data_source: Seq<char>, media_type: Seq<char>) -> Seq<char> {
    if data_source == SOURCE_TMDB@ {
        if media_type == KIND_MOVIE@ {
            STORED_TMDB_MOVIE@
        } else if media_type == KIND_SERIES@ {
            STORED_TMDB_TV@
        } else {
            data_source
        }
    } else {
        data_source
    }
}

/// The provider and kind under which the metadata of a filed request is fetched.
pub open spec fn commit_params(data_source: Seq<char>, media_type: Seq<char>) -> (
    Seq<char>,
    Seq<char>,
) {
    if data_source == SOURCE_TMDB@ {
        if media_type == KIND_SERIES@ {
            (API_TMDB@, API_TV@)
        } else {
            (API_TMDB@, API_MOVIE@)
        }
    } else if data_source == SOURCE_BGM@ {
        (API_BGM@, API_SUBJECT@)
    } else {
        (API_UNKNOWN@, API_UNKNOWN@)
    }
}

/// The request that a confirmation files.
pub open spec fn confirmed_request(
    chat_id: i64,
    data_source: Seq<char>,
    media_type: Seq<char>,
    media_id: Seq<char>,
) -> NewMediaRequestView {
    NewMediaRequestView {
        source: stored_source(data_source, media_type),
        media_id,
        request_user: chat_id,
        status: SUBMITTED,
    }
}

/// What a button press on the confirmation card leads to.
pub struct CommitView {
    pub ledger: LedgerView,
    pub turn: TurnView,
    /// The identifier of the request that was filed, if one was.
    pub request_id: Option<i32>,
}

/// How a button press is taken while a request waits for confirmation, at
/// time `now`. Confirming files the request, unless the item is on record
/// already, and calls for its metadata while the conversation still waits;
/// cancelling, or any other choice, ends the flow; a press without data is
/// ignored. Only a successful confirmation changes the ledger.
pub open spec fn confirmation_outcome(
    ledger: LedgerView,
    chat_id: i64,
    data: Option<Seq<char>>,
    data_source: Seq<char>,
    media_type: Seq<char>,
    media_id: Seq<char>,
    now: Seq<char>,
) -> CommitView {
    let waiting = StateView::WaitingRequestConfirmation { data_source, media_type, media_id };
    match data {
        None => CommitView {
            ledger,
            turn: TurnView { state: waiting, effects: Seq::empty() },
            request_id: None,
        },
        Some(choice) => if choice == CONFIRM@ {
            let request = confirmed_request(chat_id, data_source, media_type, media_id);
            match ledger.submit(request, now).1 {
                Ok(id) => CommitView {
                    ledger: ledger.submit(request, now).0,
                    turn: TurnView {
                        state: waiting,
                        effects: seq![
                            EffectView::Fetch {
                                source: commit_params(data_source, media_type).0,
                                media_type: commit_params(data_source, media_type).1,
                                media_id,
                            },
                        ],
                    },
                    request_id: Some(id),
                },
                Err(LedgerError::Duplicate) => CommitView {
                    ledger,
                    turn: TurnView { state: StateView::Start, effects: say(ALREADY_REQUESTED@) },
                    request_id: None,
                },
                Err(LedgerError::Exhausted) => CommitView {
                    ledger,
                    turn: TurnView { state: StateView::Start, effects: say(REQUEST_NOT_STORED@) },
                    request_id: None,
                },
            }
        } else if choice == CANCEL@ {
            CommitView {
                ledger,
                turn: TurnView { state: StateView::Start, effects: say(REQUEST_CANCELLED@) },
                request_id: None,
            }
        } else {
            CommitView {
                ledger,
                turn: TurnView { state: StateView::Start, effects: say(UNKNOWN_CHOICE@) },
                request_id: None,
            }
        },
    }
}

/// The result of a button press on the confirmation card.
#[derive(Clone, Debug, PartialEq, Eq)]
pub struct Commit {
    pub turn: Turn,
    /// The identifier of the request that was filed, if one was.
    pub request_id: Option<i32>,
}

/// Works out the source tag under which a request is stored.
pub fn actual_source(data_source: &str, media_type: &str) -> (r: String)
    ensures
        r@ == stored_source(data_source@, media_type@),
{
    if str_eq(data_source, SOURCE_TMDB) {
        if str_eq(media_type, KIND_MOVIE) {
            String::from_str(STORED_TMDB_MOVIE)
        } else if str_eq(media_type, KIND_SERIES) {
            String::from_str(STORED_TMDB_TV)
        } else {
            String::from_str(data_source)
        }
    } else {
        String::from_str(data_source)
    }
}

/// Takes a button press while a request waits for confirmation, at time `now`.
pub fn handle_request_confirmation_at(
    ledger: &mut RequestLedger,
    chat_id: i64,
    data: &Option<String>,
    data_source: String,
    media_type: String,
    media_id: String,
    now: &str,
) -> (commit: Commit)
    requires
        old(ledger).wf(),
    ensures
        final(ledger).wf(),
        (CommitView { ledger: final(ledger)@, turn: commit.turn@, request_id: commit.request_id })
            == confirmation_outcome(
            old(ledger)@,
            chat_id,
            text_view(*data),
            data_source@,
            media_type@,
            media_id@,
            now@,
        ),
{
    match data {
        None => Commit {
            turn: Turn {
                state: State::WaitingRequestConfirmation { data_source, media_type, media_id },
                effects: nothing(),
            },
            request_id: None,
        },
        Some(choice) => if str_eq(choice.as_str(), CONFIRM) {
            let request = NewMediaRequest {
                source: actual_source(data_source.as_str(), media_type.as_str()),
                media_id: media_id.clone(),
                request_user: chat_id,
                status: SUBMITTED,
            };
            match ledger.submit(request, now) {
                Ok(id) => {
                    let (source, kind) = if str_eq(data_source.as_str(), SOURCE_TMDB) {
                        if str_eq(media_type.as_str(), KIND_SERIES) {
                            (API_TMDB, API_TV)
                        } else {
                            (API_TMDB, API_MOVIE)
                        }
                    } else if str_eq(data_source.as_str(), SOURCE_BGM) {
                        (API_BGM, API_SUBJECT)
                    } else {
                        (API_UNKNOWN, API_UNKNOWN)
                    };
                    let fetch = Effect::Fetch {
                        source: String::from_str(source),
                        media_type: String::from_str(kind),
                        media_id: media_id.clone(),
                    };
                    Commit {
                        turn: Turn {
                            state: State::WaitingRequestConfirmation {
                                data_source,
                                media_type,
                                media_id,
                            },
                            effects: only(fetch),
                        },
                        request_id: Some(id),
                    }
                },
                Err(LedgerError::Duplicate) => Commit {
                    turn: Turn { state: State::Start, effects: reply(ALREADY_REQUESTED) },
                    request_id: None,
                },
                Err(LedgerError::Exhausted) => Commit {
                    turn: Turn { state: State::Start, effects: reply(REQUEST_NOT_STORED) },
                    request_id: None,
                },
            }
        } else if str_eq(choice.as_str(), CANCEL) {
            Commit {
                turn: Turn { state: State::Start, effects: reply(REQUEST_CANCELLED) },
                request_id: None,
            }
        } else {
            Commit {
                turn: Turn { state: State::Start, effects: reply(UNKNOWN_CHOICE) },
                request_id: None,
            }
        },
    }
}

/// Takes a button press while a request waits for confirmation; a request
/// that is filed is stamped with the current time.
pub fn handle_request_confirmation(
    ledger: &mut RequestLedger,
    chat_id: i64,
    data: &Option<String>,
    data_source: String,
    media_type: String,
    media_id: String,
) -> (commit: Commit)
    requires
        old(ledger).wf(),
    ensures
        final(ledger).wf(),
        exists|now: Seq<char>|
            (CommitView {
                ledger: final(ledger)@,
                turn: commit.turn@,
                request_id: commit.request_id,
            }) == #[trigger] confirmation_outcome(
                old(ledger)@,
                chat_id,
                text_view(*data),
                data_source@,
                media_type@,
                media_id@,
                now,
            ),
{
    let now = utc_now(ROW_STAMP);
    handle_request_confirmation_at(
        ledger,
        chat_id,
        data,
        data_source,
        media_type,
        media_id,
        now.as_str(),
    )
}

/// How the flow ends once the metadata of the filed request has been
/// looked up, at time `now`: what was found is stored with the request, a
/// failed lookup stores nothing, and the requester is thanked either way.
pub open spec fn committed_outcome(
    ledger: LedgerView,
    request_id: i32,
    outcome: Result<MediaInfoView, Seq<char>>,
    now: Seq<char>,
) -> (LedgerView, TurnView) {
    (
        match outcome {
            Ok(info) => ledger.save_media(new_media(request_id, info), now).0,
            Err(_) => ledger,
        },
        TurnView { state: StateView::Start, effects: say(REQUEST_SUBMITTED@) },
    )
}

/// Ends the flow once the metadata of the filed request has been looked up,
/// at time `now`.
pub fn request_committed_at(
    ledger: &mut RequestLedger,
    request_id: i32,
    outcome: &Result<MediaInfo, String>,
    now: &str,
) -> (turn: Turn)
    requires
        old(ledger).wf(),
    ensures
        final(ledger).wf(),
        (final(ledger)@, turn@) == committed_outcome(
            old(ledger)@,
            request_id,
            info_view(*outcome),
            now@,
        ),
{
    match outcome {
        Ok(info) => {
            let _ = save_media_at(ledger, request_id, info, now);
        },
        Err(_) => {},
    }
    Turn { state: State::Start, effects: reply(REQUEST_SUBMITTED) }
}

/// Ends the flow once the metadata of the filed request has been looked up;
/// what is stored is stamped with the current time.
pub fn request_committed(
    ledger: &mut RequestLedger,
    request_id: i32,
    outcome: &Result<MediaInfo, String>,
) -> (turn: Turn)
    requires
        old(ledger).wf(),
    ensures
        final(ledger).wf(),
        exists|now: Seq<char>|
            (final(ledger)@, turn@) == #[trigger] committed_outcome(
                old(ledger)@,
                request_id,
                info_view(*outcome),
                now,
            ),
{
    let now = utc_now(ROW_STAMP);
    request_committed_at(ledger, request_id, outcome, now.as_str())
}

} // verus!
