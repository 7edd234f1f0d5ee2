//! The engine: the directory, the ledger and the conversations, moved
//! together by every update.
//!
//! An update is routed by the conversation's state, handled, and the
//! conversation is moved, all in one call on the engine. Whoever holds the
//! engine exclusively for the length of a call gets the updates of one chat
//! applied one after the other, and no update of one chat touches the
//! conversation of another.

use crate::auth::{DirectoryView, UserDirectory};
use crate::bot::account::{
    delete_user_confirm, delete_user_confirm_turn, delete_user_revoked, delete_user_start,
    delete_user_start_turn, lowered_text, password_reset, password_reset_effects, register_start,
    register_start_turn, register_username, register_username_provisioned,
    register_username_turn, registration_outcome, revocation_outcome,
};
use crate::bot::admin::{chat_id, chat_id_effects, request_list_at, request_list_effects};
use crate::bot::request::{
    committed_outcome, confirmation_outcome, fetched_turn, handle_request_confirmation_at,
    request_committed_at, request_confirmation, request_confirmation_fetched,
    request_confirmation_turn, request_media_id, request_media_id_turn, request_media_type,
    request_media_type_turn, request_start, request_start_turn,
};
use crate::bot::{
    cancel, check_in_at, check_in_effects, check_out, help, help_effects, invalid_state,
    invalid_state_effects, moved, nothing, route, say, schema, standing, ChatKind, Command,
    Content, ContentView, DialogueStore, Effect, EffectView, Handler, Sender, State, StateView,
    Turn, TurnView, UpdateKind, FRONT_DESK_SECONDS_WEST, TRANSIENT_DELAY_SECS,
};
use crate::clock::{hour_west_of_greenwich, utc_now, FILE_STAMP, ROW_STAMP};
use crate::ledger::{LedgerView, RequestLedger};
use crate::messages::OPERATION_CANCELLED;
use crate::models::{text_view, views};
use crate::provisioning::{done_view, id_view};
use crate::scraper::{info_view, MediaInfo, MediaInfoView};
use vstd::prelude::*;
use vstd::string::*;

verus! {

/// One reading of the clock: the hour at the front desk and the stamps for
/// rows and for file names.
#[derive(Clone, Debug, PartialEq, Eq)]
pub struct Clock {
    pub hour: u32,
    pub row_stamp: String,
    pub file_stamp: String,
}

pub struct ClockView {
    pub hour: u32,
    pub row_stamp: Seq<char>,
    pub file_stamp: Seq<char>,
}

impl View for Clock {
    type V = ClockView;

    open spec fn view(&self) -> ClockView {
        ClockView { hour: self.hour, row_stamp: self.row_stamp@, file_stamp: self.file_stamp@ }
    }
}

impl Clock {
    /// Reads the clock.
    pub fn read() -> (clock: Clock)
        ensures
            clock.hour < 24,
    {
        Clock {
            hour: hour_west_of_greenwich(FRONT_DESK_SECONDS_WEST),
            row_stamp: utc_now(ROW_STAMP),
            file_stamp: utc_now(FILE_STAMP),
        }
    }
}

/// What a message carries.
#[derive(Clone, Debug, PartialEq, Eq)]
pub struct Incoming {
    pub chat: ChatKind,
    pub chat_id: i64,
    pub sender: Sender,
    pub content: Content,
    /// The command that the text spells, if it spells one.
    pub command: Option<Command>,
}

pub struct IncomingView {
    pub chat: ChatKind,
    pub chat_id: i64,
    pub sender: Sender,
    pub content: ContentView,
    pub command: Option<Command>,
}

impl View for Incoming {
    type V = IncomingView;

    open spec fn view(&self) -> IncomingView {
        IncomingView {
            chat: self.chat,
            chat_id: self.chat_id,
            sender: self.sender,
            content: self.content@,
            command: self.command,
        }
    }
}

/// The state of the engine.
pub struct EngineView {
    pub directory: DirectoryView,
    pub ledger: LedgerView,
    pub dialogues: Map<i64, StateView>,
}

/// What a button press leads to.
#[derive(Clone, Debug, PartialEq, Eq)]
pub struct Pressed {
    pub effects: Vec<Effect>,
    /// The identifier of the request that the press filed, if it filed one.
    pub request_id: Option<i32>,
}

pub struct PressedView {
    pub effects: Seq<EffectView>,
    pub request_id: Option<i32>,
}

impl View for Pressed {
    type V = PressedView;

    open spec fn view(&self) -> PressedView {
        PressedView { effects: views(self.effects@), request_id: self.request_id }
    }
}

impl EngineView {
    /// The engine's invariant: that of the directory and that of the ledger.
    pub open spec fn wf(self) -> bool {
        self.directory.wf() && self.ledger.wf()
    }

    /// The engine after a turn of the conversation of a chat, and what the
    /// turn has to say.
    pub open spec fn turned(self, chat_id: i64, turn: TurnView) -> (EngineView, Seq<EffectView>) {
        (EngineView { dialogues: moved(self.dialogues, chat_id, turn.state), ..self }, turn.effects)
    }

    /// What a message leads to, with the clock as read: commands go to
    /// their handlers whatever the conversation's state, any other message
    /// to the handler of the state; the handler's turn moves the
    /// conversation of the message's chat and of no other.
    pub open spec fn message_outcome(
        self,
        message: IncomingView,
        disabled: Seq<u64>,
        clock: ClockView,
    ) -> (EngineView, Seq<EffectView>) {
        let state = standing(self.dialogues, message.chat_id);
        match route(UpdateKind::Message(message.command), state) {
            Handler::Help => (self, help_effects(message.chat, message.sender, disabled)),
            Handler::CheckIn => (
                self,
                check_in_effects(message.chat, message.sender, disabled, clock.hour),
            ),
            Handler::CheckOut => (
                self,
                seq![EffectView::DeleteTrigger { delay_secs: TRANSIENT_DELAY_SECS }],
            ),
            Handler::ChatId => (
                self,
                chat_id_effects(message.sender, self.directory, message.chat_id),
            ),
            Handler::RegisterStart => self.turned(
                message.chat_id,
                register_start_turn(message.chat, message.chat_id, self.directory, state),
            ),
            Handler::PasswordReset => (
                self,
                password_reset_effects(message.chat, message.chat_id, self.directory),
            ),
            Handler::RequestStart => self.turned(
                message.chat_id,
                request_start_turn(message.chat, state),
            ),
            Handler::DeleteUserStart => self.turned(
                message.chat_id,
                delete_user_start_turn(message.chat, message.chat_id, self.directory, state),
            ),
            Handler::Cancel => self.turned(
                message.chat_id,
                TurnView { state: StateView::Start, effects: say(OPERATION_CANCELLED@) },
            ),
            Handler::RequestList => (
                self,
                request_list_effects(message.sender, self.directory, self.ledger, clock.file_stamp),
            ),
            Handler::RegisterUsername => self.turned(
                message.chat_id,
                register_username_turn(message.content),
            ),
            Handler::RequestConfirmation => match state {
                StateView::WaitingRequestMediaID { data_source, media_type } => self.turned(
                    message.chat_id,
                    request_confirmation_turn(message.content, data_source, media_type),
                ),
                _ => (self, Seq::empty()),
            },
            Handler::DeleteUserConfirm => self.turned(
                message.chat_id,
                delete_user_confirm_turn(
                    message.content,
                    lowered_text(message.content),
                    self.directory.emby_id(message.chat_id),
                ),
            ),
            Handler::InvalidState => (self, invalid_state_effects(message.chat)),
            _ => (self, Seq::empty()),
        }
    }

    /// What a button press leads to at time `now`: it goes to the handler
    /// of the conversation's state; outside the request flow it is ignored.
    pub open spec fn callback_outcome(self, chat_id: i64, data: Option<Seq<char>>, now: Seq<char>) -> (
        EngineView,
        PressedView,
    ) {
        let state = standing(self.dialogues, chat_id);
        match state {
            StateView::WaitingRequestDatasource => {
                let (engine, effects) = self.turned(chat_id, request_media_type_turn(data));
                (engine, PressedView { effects, request_id: None })
            },
            StateView::WaitingRequestMediaType { data_source } => {
                let (engine, effects) = self.turned(
                    chat_id,
                    request_media_id_turn(data_source, data),
                );
                (engine, PressedView { effects, request_id: None })
            },
            StateView::WaitingRequestConfirmation { data_source, media_type, media_id } => {
                let commit = confirmation_outcome(
                    self.ledger,
                    chat_id,
                    data,
                    data_source,
                    media_type,
                    media_id,
                    now,
                );
                (
                    EngineView {
                        ledger: commit.ledger,
                        dialogues: moved(self.dialogues, chat_id, commit.turn.state),
                        ..self
                    },
                    PressedView { effects: commit.turn.effects, request_id: commit.request_id },
                )
            },
            _ => (self, PressedView { effects: Seq::empty(), request_id: None }),
        }
    }

    /// What the answer of the provisioning service to an account creation
    /// leads to.
    pub open spec fn provisioned_outcome(
        self,
        chat_id: i64,
        username: Seq<char>,
        outcome: Result<Seq<char>, Seq<char>>,
    ) -> (EngineView, Seq<EffectView>) {
        let (directory, turn) = registration_outcome(self.directory, chat_id, username, outcome);
        (EngineView { directory, ..self }).turned(chat_id, turn)
    }

    /// What the answer of the provisioning service to a revocation leads to.
    pub open spec fn revoked_outcome(self, chat_id: i64, outcome: Result<(), Seq<char>>) -> (
        EngineView,
        Seq<EffectView>,
    ) {
        let (directory, turn) = revocation_outcome(self.directory, chat_id, outcome);
        (EngineView { directory, ..self }).turned(chat_id, turn)
    }

    /// What the answer of a catalog to the lookup of an item leads to,
    /// while the request waits for the item. If the conversation has moved
    /// on in the meantime, the answer is dropped.
    pub open spec fn fetched_outcome(
        self,
        chat_id: i64,
        media_id: Seq<char>,
        outcome: Result<MediaInfoView, Seq<char>>,
    ) -> (EngineView, Seq<EffectView>) {
        match standing(self.dialogues, chat_id) {
            StateView::WaitingRequestMediaID { data_source, media_type } => self.turned(
                chat_id,
                fetched_turn(data_source, media_type, media_id, outcome),
            ),
            _ => (self, Seq::empty()),
        }
    }

    /// What the answer of a catalog to the lookup for a filed request leads
    /// to, at time `now`.
    pub open spec fn filed_outcome(
        self,
        chat_id: i64,
        request_id: i32,
        outcome: Result<MediaInfoView, Seq<char>>,
        now: Seq<char>,
    ) -> (EngineView, Seq<EffectView>) {
        let (ledger, turn) = committed_outcome(self.ledger, request_id, outcome, now);
        (EngineView { ledger, ..self }).turned(chat_id, turn)
    }
}

/// Whatever a chat sends, presses or is answered, the conversation of
/// every other chat stays where it stood, and the engine stays well formed.
pub proof fn law_chats_do_not_interfere(
    engine: EngineView,
    message: IncomingView,
    disabled: Seq<u64>,
    clock: ClockView,
    data: Option<Seq<char>>,
    username: Seq<char>,
    provisioned: Result<Seq<char>, Seq<char>>,
    revoked: Result<(), Seq<char>>,
    media_id: Seq<char>,
    fetched: Result<MediaInfoView, Seq<char>>,
    request_id: i32,
    other: i64,
)
    requires
        engine.wf(),
        other != message.chat_id,
    ensures
        engine.message_outcome(message, disabled, clock).0.wf(),
        engine.callback_outcome(message.chat_id, data, clock.row_stamp).0.wf(),
        engine.provisioned_outcome(message.chat_id, username, provisioned).0.wf(),
        engine.revoked_outcome(message.chat_id, revoked).0.wf(),
        engine.fetched_outcome(message.chat_id, media_id, fetched).0.wf(),
        engine.filed_outcome(message.chat_id, request_id, fetched, clock.row_stamp).0.wf(),
        standing(engine.message_outcome(message, disabled, clock).0.dialogues, other) == standing(
            engine.dialogues,
            other,
        ),
        standing(
            engine.callback_outcome(message.chat_id, data, clock.row_stamp).0.dialogues,
            other,
        ) == standing(engine.dialogues, other),
        standing(
            engine.provisioned_outcome(message.chat_id, username, provisioned).0.dialogues,
            other,
        ) == standing(engine.dialogues, other),
        standing(engine.revoked_outcome(message.chat_id, revoked).0.dialogues, other) == standing(
            engine.dialogues,
            other,
        ),
        standing(engine.fetched_outcome(message.chat_id, media_id, fetched).0.dialogues, other)
            == standing(engine.dialogues, other),
        standing(
            engine.filed_outcome(message.chat_id, request_id, fetched, clock.row_stamp).0.dialogues,
            other,
        ) == standing(engine.dialogues, other),
{
    let chat = message.chat_id;
    let state = standing(engine.dialogues, chat);
    engine.directory.lemma_delete_wf(chat);
    match provisioned {
        Ok(id) => {
            engine.directory.lemma_register_wf(chat, username, id);
        },
        Err(_) => {},
    }
    match state {
        StateView::WaitingRequestConfirmation { data_source, media_type, media_id } => {
            crate::ledger::lemma_submit_wf(
                engine.ledger,
                crate::bot::request::confirmed_request(chat, data_source, media_type, media_id),
                clock.row_stamp,
            );
        },
        _ => {},
    }
    match fetched {
        Ok(info) => {
            crate::ledger::lemma_save_media_wf(
                engine.ledger,
                crate::scraper::new_media(request_id, info),
                clock.row_stamp,
            );
        },
        Err(_) => {},
    }
}

/// The engine: the user directory, the request ledger and the conversations.
pub struct Engine {
    pub directory: UserDirectory,
    pub ledger: RequestLedger,
    pub dialogues: DialogueStore,
}

impl View for Engine {
    type V = EngineView;

    open spec fn view(&self) -> EngineView {
        EngineView { directory: self.directory@, ledger: self.ledger@, dialogues: self.dialogues@ }
    }
}

impl Engine {
    /// The invariant that every call expects and keeps.
    pub open spec fn wf(&self) -> bool {
        self@.wf()
    }

    /// An engine over a directory and a ledger, with every conversation idle.
    pub fn new(directory: UserDirectory, ledger: RequestLedger) -> (engine: Engine)
        requires
            directory.wf(),
            ledger.wf(),
        ensures
            engine.wf(),
            engine@ == (EngineView {
                directory: directory@,
                ledger: ledger@,
                dialogues: Map::<i64, StateView>::empty(),
            }),
    {
        Engine { directory, ledger, dialogues: DialogueStore::new() }
    }

    /// Moves the conversation of a chat as a turn says; returns what the
    /// turn has to say.
    fn turn(&mut self, chat_id: i64, turn: Turn) -> (effects: Vec<Effect>)
        ensures
            (final(self)@, views(effects@)) == old(self)@.turned(chat_id, turn@),
    {
        self.dialogues.update(chat_id, turn.state);
        turn.effects
    }

    /// Takes a message, with the clock as read.
    pub fn on_message_at(&mut self, message: &Incoming, disabled_users: &Vec<u64>, clock: &Clock) -> (effects:
        Vec<Effect>)
        requires
            old(self).wf(),
        ensures
            final(self).wf(),
            (final(self)@, views(effects@)) == old(self)@.message_outcome(
                message@,
                disabled_users@,
                clock@,
            ),
    {
        let chat = message.chat_id;
        let state = self.dialogues.get(chat);
        match schema(UpdateKind::Message(message.command), &state) {
            Handler::Help => help(message.chat, message.sender, disabled_users),
            Handler::CheckIn => check_in_at(
                message.chat,
                message.sender,
                disabled_users,
                clock.hour,
            ),
            Handler::CheckOut => check_out(),
            Handler::ChatId => chat_id(message.sender, &self.directory, chat),
            Handler::RegisterStart => {
                let turn = register_start(message.chat, chat, &self.directory, state);
                self.turn(chat, turn)
            },
            Handler::PasswordReset => password_reset(message.chat, chat, &self.directory),
            Handler::RequestStart => {
                let turn = request_start(message.chat, state);
                self.turn(chat, turn)
            },
            Handler::DeleteUserStart => {
                let turn = delete_user_start(message.chat, chat, &self.directory, state);
                self.turn(chat, turn)
            },
            Handler::Cancel => {
                let turn = cancel();
                self.turn(chat, turn)
            },
            Handler::RequestList => request_list_at(
                message.sender,
                &self.directory,
                &self.ledger,
                clock.file_stamp.as_str(),
            ),
            Handler::RegisterUsername => {
                let turn = register_username(&message.content);
                self.turn(chat, turn)
            },
            Handler::RequestConfirmation => match state {
                State::WaitingRequestMediaID { data_source, media_type } => {
                    let turn = request_confirmation(&message.content, data_source, media_type);
                    self.turn(chat, turn)
                },
                _ => nothing(),
            },
            Handler::DeleteUserConfirm => {
                let turn = delete_user_confirm(&message.content, chat, &self.directory);
                self.turn(chat, turn)
            },
            Handler::InvalidState => invalid_state(message.chat),
            _ => nothing(),
        }
    }

    /// Takes a message.
    pub fn on_message(&mut self, message: &Incoming, disabled_users: &Vec<u64>) -> (effects: Vec<Effect>)
        requires
            old(self).wf(),
        ensures
            final(self).wf(),
            exists|clock: ClockView|
                clock.hour < 24 && (final(self)@, views(effects@)) == #[trigger] old(
                    self,
                )@.message_outcome(message@, disabled_users@, clock),
    {
        let clock = Clock::read();
        self.on_message_at(message, disabled_users, &clock)
    }

    /// Takes a button press at time `now`.
    pub fn on_callback_at(&mut self, chat_id: i64, data: &Option<String>, now: &str) -> (pressed:
        Pressed)
        requires
            old(self).wf(),
        ensures
            final(self).wf(),
            (final(self)@, pressed@) == old(self)@.callback_outcome(chat_id, text_view(*data), now@),
    {
        let state = self.dialogues.get(chat_id);
        match state {
            State::WaitingRequestDatasource => {
                let turn = request_media_type(data);
                Pressed { effects: self.turn(chat_id, turn), request_id: None }
            },
            State::WaitingRequestMediaType { data_source } => {
                let turn = request_media_id(data_source, data);
                Pressed { effects: self.turn(chat_id, turn), request_id: None }
            },
            State::WaitingRequestConfirmation { data_source, media_type, media_id } => {
                let commit = handle_request_confirmation_at(
                    &mut self.ledger,
                    chat_id,
                    data,
                    data_source,
                    media_type,
                    media_id,
                    now,
                );
                let request_id = commit.request_id;
                Pressed { effects: self.turn(chat_id, commit.turn), request_id }
            },
            _ => Pressed { effects: nothing(), request_id: None },
        }
    }

    /// Takes a button press; a request that it files is stamped with the
    /// current time.
    pub fn on_callback(&mut self, chat_id: i64, data: &Option<String>) -> (pressed: Pressed)
        requires
            old(self).wf(),
        ensures
            final(self).wf(),
            exists|now: Seq<char>|
                (final(self)@, pressed@) == #[trigger] old(self)@.callback_outcome(
                    chat_id,
                    text_view(*data),
                    now,
                ),
    {
        let now = utc_now(ROW_STAMP);
        self.on_callback_at(chat_id, data, now.as_str())
    }

    /// Takes the answer of the provisioning service to an account creation.
    pub fn on_provisioned(&mut self, chat_id: i64, username: String, outcome: Result<String, String>) -> (effects:
        Vec<Effect>)
        requires
            old(self).wf(),
        ensures
            final(self).wf(),
            (final(self)@, views(effects@)) == old(self)@.provisioned_outcome(
                chat_id,
                username@,
                id_view(outcome),
            ),
            forall|other: i64|
                other != chat_id ==> (#[trigger] final(self)@.directory.is_registered(other))
                    == old(self)@.directory.is_registered(other),
            final(self)@.directory.is_registered(chat_id) == (old(self)@.directory.is_registered(
                chat_id,
            ) || (outcome is Ok && old(self)@.directory.next_id() <= i32::MAX)),
    {
        let turn = register_username_provisioned(&mut self.directory, chat_id, username, outcome);
        self.turn(chat_id, turn)
    }

    /// Takes the answer of the provisioning service to a revocation.
    pub fn on_revoked(&mut self, chat_id: i64, outcome: Result<(), String>) -> (effects: Vec<Effect>)
        requires
            old(self).wf(),
        ensures
            final(self).wf(),
            (final(self)@, views(effects@)) == old(self)@.revoked_outcome(chat_id, done_view(outcome)),
            forall|other: i64|
                other != chat_id ==> (#[trigger] final(self)@.directory.is_registered(other))
                    == old(self)@.directory.is_registered(other),
            final(self)@.directory.is_registered(chat_id) == (old(self)@.directory.is_registered(
                chat_id,
            ) && outcome is Err),
    {
        let turn = delete_user_revoked(&mut self.directory, chat_id, outcome);
        self.turn(chat_id, turn)
    }

    /// Takes the answer of a catalog to the lookup of the item `media_id`.
    pub fn on_fetched(&mut self, chat_id: i64, media_id: String, outcome: &Result<MediaInfo, String>) -> (effects:
        Vec<Effect>)
        requires
            old(self).wf(),
        ensures
            final(self).wf(),
            (final(self)@, views(effects@)) == old(self)@.fetched_outcome(
                chat_id,
                media_id@,
                info_view(*outcome),
            ),
    {
        match self.dialogues.get(chat_id) {
            State::WaitingRequestMediaID { data_source, media_type } => {
                let turn = request_confirmation_fetched(data_source, media_type, media_id, outcome);
                self.turn(chat_id, turn)
            },
            _ => nothing(),
        }
    }

    /// Takes the answer of a catalog to the lookup for a filed request, at
    /// time `now`.
    pub fn on_filed_at(
        &mut self,
        chat_id: i64,
        request_id: i32,
        outcome: &Result<MediaInfo, String>,
        now: &str,
    ) -> (effects: Vec<Effect>)
        requires
            old(self).wf(),
        ensures
            final(self).wf(),
            (final(self)@, views(effects@)) == old(self)@.filed_outcome(
                chat_id,
                request_id,
                info_view(*outcome),
                now@,
            ),
    {
        let turn = request_committed_at(&mut self.ledger, request_id, outcome, now);
        self.turn(chat_id, turn)
    }

    /// Takes the answer of a catalog to the lookup for a filed request;
    /// what is stored is stamped with the current time.
    pub fn on_filed(&mut self, chat_id: i64, request_id: i32, outcome: &Result<MediaInfo, String>) -> (effects:
        Vec<Effect>)
        requires
            old(self).wf(),
        ensures
            final(self).wf(),
            exists|now: Seq<char>|
                (final(self)@, views(effects@)) == #[trigger] old(self)@.filed_outcome(
                    chat_id,
                    request_id,
                    info_view(*outcome),
                    now,
                ),
    {
        let now = utc_now(ROW_STAMP);
        self.on_filed_at(chat_id, request_id, outcome, now.as_str())
    }
}

} // verus!
