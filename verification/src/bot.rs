//! The dialogue engine: one conversation per chat, driven by commands,
//! button presses and free text.
//!
//! The engine decides; it does not talk to the chat transport. Every handler
//! takes what an update carries as plain values and returns the effects to
//! carry out, as a list of [`Effect`]s, and where the conversation moves, the
//! next [`State`]. A handler whose flow waits for an outside service ends its
//! list with the call to make; the handler named after it takes the outcome.
//! [`engine::Engine`] puts routing, handlers and the conversations together.

use crate::clock::hour_west_of_greenwich;
use crate::messages::{
    CHECK_IN_ERROR, CHECK_IN_FULL, CHECK_IN_NOT_NEEDED, CHECK_IN_TOO_EARLY, HELP_ERROR, HELP_TEXT,
    INVALID_COMMAND, NO_PERMISSION, OPERATION_CANCELLED, SEE_GROUP_INTRO,
};
use crate::models::views;
use std::collections::HashMap;
use vstd::prelude::*;
use vstd::string::*;

pub mod account;
pub mod admin;
pub mod engine;
pub mod request;

verus! {

/// Seconds after which a transient reply and the message that caused it are removed.
pub const TRANSIENT_DELAY_SECS: u64 = 5;

/// The number of seconds that the front desk's clock is behind Greenwich.
pub const FRONT_DESK_SECONDS_WEST: i32 = 18_000;

/// The hour from which the front desk checks guests in.
pub const CHECK_IN_OPENS: u32 = 16;

pub const GROUP_ERROR: &'static str = "未知错误，请联系管理员。";

/// Where a conversation stands.
#[derive(Clone, Debug, PartialEq, Eq)]
pub enum State {
    /// Idle: no flow is under way.
    Start,
    /// Registration waits for the display name.
    WaitingRegistrationUsername,
    /// A request waits for the choice of catalog.
    WaitingRequestDatasource,
    /// A request waits for the choice of media kind.
    WaitingRequestMediaType { data_source: String },
    /// A request waits for the catalog item id.
    WaitingRequestMediaID { data_source: String, media_type: String },
    /// A request waits for the requester to confirm the item found.
    WaitingRequestConfirmation { data_source: String, media_type: String, media_id: String },
    /// Account deletion waits for the confirmation word.
    WaitingDeleteConfirmation,
}

pub enum StateView {
    Start,
    WaitingRegistrationUsername,
    WaitingRequestDatasource,
    WaitingRequestMediaType { data_source: Seq<char> },
    WaitingRequestMediaID { data_source: Seq<char>, media_type: Seq<char> },
    WaitingRequestConfirmation { data_source: Seq<char>, media_type: Seq<char>, media_id: Seq<char> },
    WaitingDeleteConfirmation,
}

impl View for State {
    type V = StateView;

    open spec fn view(&self) -> StateView {
        match self {
            State::Start => StateView::Start,
            State::WaitingRegistrationUsername => StateView::WaitingRegistrationUsername,
            State::WaitingRequestDatasource => StateView::WaitingRequestDatasource,
            State::WaitingRequestMediaType { data_source } => StateView::WaitingRequestMediaType {
                data_source: data_source@,
            },
            State::WaitingRequestMediaID {
                data_source,
                media_type,
            } => StateView::WaitingRequestMediaID {
                data_source: data_source@,
                media_type: media_type@,
            },
            State::WaitingRequestConfirmation {
                data_source,
                media_type,
                media_id,
            } => StateView::WaitingRequestConfirmation {
                data_source: data_source@,
                media_type: media_type@,
                media_id: media_id@,
            },
            State::WaitingDeleteConfirmation => StateView::WaitingDeleteConfirmation,
        }
    }
}

impl Default for State {
    fn default() -> (state: State)
        ensures
            state@ == StateView::Start,
    {
        State::Start
    }
}

impl State {
    /// A copy of this state.
    pub fn duplicate(&self) -> (r: State)
        ensures
            r@ == self@,
    {
        match self {
            State::Start => State::Start,
            State::WaitingRegistrationUsername => State::WaitingRegistrationUsername,
            State::WaitingRequestDatasource => State::WaitingRequestDatasource,
            State::WaitingRequestMediaType { data_source } => State::WaitingRequestMediaType {
                data_source: data_source.clone(),
            },
            State::WaitingRequestMediaID { data_source, media_type } => State::WaitingRequestMediaID {
                data_source: data_source.clone(),
                media_type: media_type.clone(),
            },
            State::WaitingRequestConfirmation {
                data_source,
                media_type,
                media_id,
            } => State::WaitingRequestConfirmation {
                data_source: data_source.clone(),
                media_type: media_type.clone(),
                media_id: media_id.clone(),
            },
            State::WaitingDeleteConfirmation => State::WaitingDeleteConfirmation,
        }
    }
}

/// Where the conversation of a chat stands; a chat without a record is idle.
pub open spec fn standing(dialogues: Map<i64, StateView>, chat_id: i64) -> StateView {
    if dialogues.contains_key(chat_id) {
        dialogues[chat_id]
    } else {
        StateView::Start
    }
}

/// The records after the conversation of a chat has moved; an idle
/// conversation leaves no record.
pub open spec fn moved(dialogues: Map<i64, StateView>, chat_id: i64, state: StateView) -> Map<
    i64,
    StateView,
> {
    if state is Start {
        dialogues.remove(chat_id)
    } else {
        dialogues.insert(chat_id, state)
    }
}

/// A conversation stands where it was moved to last, and moving one
/// conversation leaves every other where it stood.
pub proof fn law_conversations_are_independent(
    dialogues: Map<i64, StateView>,
    chat_id: i64,
    state: StateView,
    other: i64,
)
    ensures
        standing(moved(dialogues, chat_id, state), chat_id) == state,
        other != chat_id ==> standing(moved(dialogues, chat_id, state), other) == standing(
            dialogues,
            other,
        ),
{
}

/// The conversations under way, by chat. They live as long as the process.
pub struct DialogueStore {
    entries: HashMap<i64, State>,
}

impl View for DialogueStore {
    type V = Map<i64, StateView>;

    closed spec fn view(&self) -> Map<i64, StateView> {
        self.entries@.map_values(|state: State| state@)
    }
}

impl DialogueStore {
    /// A store in which every conversation is idle.
    pub fn new() -> (store: DialogueStore)
        ensures
            store@ == Map::<i64, StateView>::empty(),
    {
        let store = DialogueStore { entries: HashMap::new() };
        assert(store@ =~= Map::<i64, StateView>::empty());
        store
    }

    /// Where the conversation of a chat stands.
    pub fn get(&self, chat_id: i64) -> (state: State)
        ensures
            state@ == standing(self@, chat_id),
    {
        broadcast use vstd::std_specs::hash::group_hash_axioms;

        match self.entries.get(&chat_id) {
            Some(state) => state.duplicate(),
            None => State::Start,
        }
    }

    /// Moves the conversation of a chat.
    pub fn update(&mut self, chat_id: i64, state: State)
        ensures
            final(self)@ == moved(old(self)@, chat_id, state@),
    {
        broadcast use vstd::std_specs::hash::group_hash_axioms;

        match state {
            State::Start => {
                self.entries.remove(&chat_id);
                assert(self@ =~= old(self)@.remove(chat_id));
            },
            _ => {
                let ghost wanted = old(self)@.insert(chat_id, state@);
                self.entries.insert(chat_id, state);
                assert(self@ =~= wanted);
            },
        }
    }
}

/// The commands the service understands.
#[derive(Clone, Copy, Debug, PartialEq, Eq, Structural)]
pub enum Command {
    Help,
    CheckIn,
    CheckOut,
    Start,
    ChatID,
    Register,
    PasswordReset,
    DeleteUser,
    Request,
    Cancel,
    RequestList,
}

/// The kind of chat an update comes from.
#[derive(Clone, Copy, Debug, PartialEq, Eq, Structural)]
pub enum ChatKind {
    /// A one-to-one conversation.
    Private,
    /// A group, supergroup or channel.
    Public,
}

/// Who sent a message.
#[derive(Clone, Copy, Debug, PartialEq, Eq, Structural)]
pub enum Sender {
    /// The message is a service message, not one a user wrote.
    Unknown,
    /// A written message that names no sender.
    Anonymous,
    /// The user with this identifier.
    User(u64),
}

/// What a message holds.
#[derive(Clone, Debug, PartialEq, Eq)]
pub enum Content {
    /// A service message.
    Other,
    /// A written message without text: a photo, a sticker and the like.
    NonText,
    /// A text message.
    Text(String),
}

pub enum ContentView {
    Other,
    NonText,
    Text(Seq<char>),
}

impl View for Content {
    type V = ContentView;

    open spec fn view(&self) -> ContentView {
        match self {
            Content::Other => ContentView::Other,
            Content::NonText => ContentView::NonText,
            Content::Text(t) => ContentView::Text(t@),
        }
    }
}

/// The fixed sets of buttons.
#[derive(Clone, Copy, Debug, PartialEq, Eq, Structural)]
pub enum Keyboard {
    /// The two catalogs, side by side.
    DataSources,
    /// The two media kinds, side by side.
    MediaTypes,
    /// Confirm above cancel.
    Confirmation,
}

/// A button: what it shows and what pressing it sends back.
#[derive(Clone, Debug, PartialEq, Eq)]
pub struct Button {
    pub label: String,
    pub data: String,
}

pub struct ButtonView {
    pub label: Seq<char>,
    pub data: Seq<char>,
}

impl View for Button {
    type V = ButtonView;

    open spec fn view(&self) -> ButtonView {
        ButtonView { label: self.label@, data: self.data@ }
    }
}

/// One thing for the transport, or an outside service, to do.
#[derive(Clone, Debug, PartialEq, Eq)]
pub enum Effect {
    /// Send a text message to the chat.
    Send { text: String },
    /// Send a text message; [`TRANSIENT_DELAY_SECS`] later delete both the
    /// message that caused it and the reply.
    SendTransient { text: String },
    /// Send a text message; [`TRANSIENT_DELAY_SECS`] later delete the reply.
    SendRetracted { text: String },
    /// Send a text message with buttons.
    SendChoices { text: String, keyboard: Keyboard },
    /// Delete the message that caused the update, after this many seconds.
    DeleteTrigger { delay_secs: u64 },
    /// Send a progress message, to be replaced or removed later in the flow.
    Progress { text: String },
    /// Replace the text of the progress message.
    ReplaceProgress { text: String },
    /// Remove the progress message; a failure to do so is ignored.
    RemoveProgress,
    /// Create an account under this display name.
    Provision { username: String },
    /// Revoke this account.
    Revoke { emby_user_id: String },
    /// Reset the password of this account.
    ResetPassword { emby_user_id: String },
    /// Look a catalog item up.
    Fetch { source: String, media_type: String, media_id: String },
    /// Send a file to the chat.
    Document { file_name: String, content: String, caption: String },
}

pub enum EffectView {
    Send { text: Seq<char> },
    SendTransient { text: Seq<char> },
    SendRetracted { text: Seq<char> },
    SendChoices { text: Seq<char>, keyboard: Keyboard },
    DeleteTrigger { delay_secs: u64 },
    Progress { text: Seq<char> },
    ReplaceProgress { text: Seq<char> },
    RemoveProgress,
    Provision { username: Seq<char> },
    Revoke { emby_user_id: Seq<char> },
    ResetPassword { emby_user_id: Seq<char> },
    Fetch { source: Seq<char>, media_type: Seq<char>, media_id: Seq<char> },
    Document { file_name: Seq<char>, content: Seq<char>, caption: Seq<char> },
}

impl View for Effect {
    type V = EffectView;

    open spec fn view(&self) -> EffectView {
        match self {
            Effect::Send { text } => EffectView::Send { text: text@ },
            Effect::SendTransient { text } => EffectView::SendTransient { text: text@ },
            Effect::SendRetracted { text } => EffectView::SendRetracted { text: text@ },
            Effect::SendChoices { text, keyboard } => EffectView::SendChoices {
                text: text@,
                keyboard: *keyboard,
            },
            Effect::DeleteTrigger { delay_secs } => EffectView::DeleteTrigger {
                delay_secs: *delay_secs,
            },
            Effect::Progress { text } => EffectView::Progress { text: text@ },
            Effect::ReplaceProgress { text } => EffectView::ReplaceProgress { text: text@ },
            Effect::RemoveProgress => EffectView::RemoveProgress,
            Effect::Provision { username } => EffectView::Provision { username: username@ },
            Effect::Revoke { emby_user_id } => EffectView::Revoke { emby_user_id: emby_user_id@ },
            Effect::ResetPassword { emby_user_id } => EffectView::ResetPassword {
                emby_user_id: emby_user_id@,
            },
            Effect::Fetch { source, media_type, media_id } => EffectView::Fetch {
                source: source@,
                media_type: media_type@,
                media_id: media_id@,
            },
            Effect::Document { file_name, content, caption } => EffectView::Document {
                file_name: file_name@,
                content: content@,
                caption: caption@,
            },
        }
    }
}

/// The result of a handler that may move the conversation.
#[derive(Clone, Debug, PartialEq, Eq)]
pub struct Turn {
    pub state: State,
    pub effects: Vec<Effect>,
}

pub struct TurnView {
    pub state: StateView,
    pub effects: Seq<EffectView>,
}

impl View for Turn {
    type V = TurnView;

    open spec fn view(&self) -> TurnView {
        TurnView { state: self.state@, effects: views(self.effects@) }
    }
}

/// A plain reply.
pub open spec fn say(text: Seq<char>) -> Seq<EffectView> {
    seq![EffectView::Send { text }]
}

/// A reply that disappears together with the message that caused it.
pub open spec fn say_briefly(text: Seq<char>) -> Seq<EffectView> {
    seq![EffectView::SendTransient { text }]
}

/// No effect.
pub fn nothing() -> (r: Vec<Effect>)
    ensures
        views(r@) == Seq::<EffectView>::empty(),
{
    let r: Vec<Effect> = Vec::new();
    assert(views(r@) =~= Seq::<EffectView>::empty());
    r
}

/// A single effect.
pub fn only(effect: Effect) -> (r: Vec<Effect>)
    ensures
        views(r@) == seq![effect@],
{
    let mut r: Vec<Effect> = Vec::new();
    r.push(effect);
    assert(views(r@) =~= seq![effect@]);
    r
}

/// Two effects, in order.
pub fn both(first: Effect, second: Effect) -> (r: Vec<Effect>)
    ensures
        views(r@) == seq![first@, second@],
{
    let mut r: Vec<Effect> = Vec::new();
    r.push(first);
    r.push(second);
    assert(views(r@) =~= seq![first@, second@]);
    r
}

/// The effect of a plain reply.
pub fn reply(text: &str) -> (r: Vec<Effect>)
    ensures
        views(r@) == say(text@),
{
    only(Effect::Send { text: String::from_str(text) })
}

/// The effect of a transient reply.
pub fn brief_reply(text: &str) -> (r: Vec<Effect>)
    ensures
        views(r@) == say_briefly(text@),
{
    only(Effect::SendTransient { text: String::from_str(text) })
}

/// The rows of a keyboard.
pub open spec fn keyboard_rows(keyboard: Keyboard) -> Seq<Seq<ButtonView>> {
    match keyboard {
        Keyboard::DataSources => seq![
            seq![
                ButtonView { label: request::SOURCE_TMDB@, data: request::SOURCE_TMDB@ },
                ButtonView { label: request::SOURCE_BGM@, data: request::SOURCE_BGM@ },
            ],
        ],
        Keyboard::MediaTypes => seq![
            seq![
                ButtonView { label: request::KIND_MOVIE@, data: request::KIND_MOVIE@ },
                ButtonView { label: request::KIND_SERIES@, data: request::KIND_SERIES@ },
            ],
        ],
        Keyboard::Confirmation => seq![
            seq![ButtonView { label: request::LABEL_CONFIRM@, data: request::CONFIRM@ }],
            seq![ButtonView { label: request::LABEL_CANCEL@, data: request::CANCEL@ }],
        ],
    }
}

fn button(label: &str, data: &str) -> (r: Button)
    ensures
        r@ == (ButtonView { label: label@, data: data@ }),
{
    Button { label: String::from_str(label), data: String::from_str(data) }
}

impl Keyboard {
    /// The buttons of this keyboard, row by row.
    pub fn rows(self) -> (r: Vec<Vec<Button>>)
        ensures
            r@.len() == keyboard_rows(self).len(),
            forall|i: int| 0 <= i < r@.len() ==> views((#[trigger] r@[i])@) == keyboard_rows(self)[i],
    {
        match self {
            Keyboard::DataSources => {
                let mut row: Vec<Button> = Vec::new();
                row.push(button(request::SOURCE_TMDB, request::SOURCE_TMDB));
                row.push(button(request::SOURCE_BGM, request::SOURCE_BGM));
                assert(views(row@) =~= keyboard_rows(self)[0]);
                let mut rows: Vec<Vec<Button>> = Vec::new();
                rows.push(row);
                rows
            },
            Keyboard::MediaTypes => {
                let mut row: Vec<Button> = Vec::new();
                row.push(button(request::KIND_MOVIE, request::KIND_MOVIE));
                row.push(button(request::KIND_SERIES, request::KIND_SERIES));
                assert(views(row@) =~= keyboard_rows(self)[0]);
                let mut rows: Vec<Vec<Button>> = Vec::new();
                rows.push(row);
                rows
            },
            Keyboard::Confirmation => {
                let mut top: Vec<Button> = Vec::new();
                top.push(button(request::LABEL_CONFIRM, request::CONFIRM));
                assert(views(top@) =~= keyboard_rows(self)[0]);
                let mut bottom: Vec<Button> = Vec::new();
                bottom.push(button(request::LABEL_CANCEL, request::CANCEL));
                assert(views(bottom@) =~= keyboard_rows(self)[1]);
                let mut rows: Vec<Vec<Button>> = Vec::new();
                rows.push(top);
                rows.push(bottom);
                rows
            },
        }
    }
}

/// Whether `id` is on the list.
pub fn listed(list: &Vec<u64>, id: u64) -> (r: bool)
    ensures
        r == list@.contains(id),
{
    let mut i: usize = 0;
    while i < list.len()
        invariant
            i <= list.len(),
            forall|j: int| 0 <= j < i ==> list@[j] != id,
        decreases list.len() - i,
    {
        if list[i] == id {
            return true;
        }
        i += 1;
    }
    false
}

/// The kind of an update.
#[derive(Clone, Copy, Debug, PartialEq, Eq, Structural)]
pub enum UpdateKind {
    /// A message; with the command it spells, if it spells one.
    Message(Option<Command>),
    /// A button press.
    CallbackQuery,
}

/// The handlers an update can be routed to.
#[derive(Clone, Copy, Debug, PartialEq, Eq, Structural)]
pub enum Handler {
    Help,
    CheckIn,
    CheckOut,
    ChatId,
    RegisterStart,
    PasswordReset,
    RequestStart,
    DeleteUserStart,
    Cancel,
    RequestList,
    RegisterUsername,
    RequestConfirmation,
    DeleteUserConfirm,
    InvalidState,
    RequestMediaType,
    RequestMediaId,
    HandleRequestConfirmation,
    /// No handler takes the update.
    Unhandled,
}

/// Where a message that spells no handled command goes in a given state.
pub open spec fn message_route(state: StateView) -> Handler {
    match state {
        StateView::WaitingRegistrationUsername => Handler::RegisterUsername,
        StateView::WaitingRequestMediaID { .. } => Handler::RequestConfirmation,
        StateView::WaitingDeleteConfirmation => Handler::DeleteUserConfirm,
        _ => Handler::InvalidState,
    }
}

/// The routing table: commands first, whatever the state; then, for other
/// messages and for button presses, the handler of the state.
pub open spec fn route(update: UpdateKind, state: StateView) -> Handler {
    match update {
        UpdateKind::Message(Some(Command::Help)) => Handler::Help,
        UpdateKind::Message(Some(Command::CheckIn)) => Handler::CheckIn,
        UpdateKind::Message(Some(Command::CheckOut)) => Handler::CheckOut,
        UpdateKind::Message(Some(Command::ChatID)) => Handler::ChatId,
        UpdateKind::Message(Some(Command::Register)) => Handler::RegisterStart,
        UpdateKind::Message(Some(Command::PasswordReset)) => Handler::PasswordReset,
        UpdateKind::Message(Some(Command::Request)) => Handler::RequestStart,
        UpdateKind::Message(Some(Command::DeleteUser)) => Handler::DeleteUserStart,
        UpdateKind::Message(Some(Command::Cancel)) => Handler::Cancel,
        UpdateKind::Message(Some(Command::RequestList)) => Handler::RequestList,
        UpdateKind::Message(Some(Command::Start)) => message_route(state),
        UpdateKind::Message(None) => message_route(state),
        UpdateKind::CallbackQuery => match state {
            StateView::WaitingRequestDatasource => Handler::RequestMediaType,
            StateView::WaitingRequestMediaType { .. } => Handler::RequestMediaId,
            StateView::WaitingRequestConfirmation { .. } => Handler::HandleRequestConfirmation,
            _ => Handler::Unhandled,
        },
    }
}

/// Picks the handler of an update.
pub fn schema(update: UpdateKind, state: &State) -> (handler: Handler)
    ensures
        handler == route(update, state@),
{
    match update {
        UpdateKind::Message(Some(Command::Help)) => Handler::Help,
        UpdateKind::Message(Some(Command::CheckIn)) => Handler::CheckIn,
        UpdateKind::Message(Some(Command::CheckOut)) => Handler::CheckOut,
        UpdateKind::Message(Some(Command::ChatID)) => Handler::ChatId,
        UpdateKind::Message(Some(Command::Register)) => Handler::RegisterStart,
        UpdateKind::Message(Some(Command::PasswordReset)) => Handler::PasswordReset,
        UpdateKind::Message(Some(Command::Request)) => Handler::RequestStart,
        UpdateKind::Message(Some(Command::DeleteUser)) => Handler::DeleteUserStart,
        UpdateKind::Message(Some(Command::Cancel)) => Handler::Cancel,
        UpdateKind::Message(Some(Command::RequestList)) => Handler::RequestList,
        UpdateKind::Message(_) => match state {
            State::WaitingRegistrationUsername => Handler::RegisterUsername,
            State::WaitingRequestMediaID { .. } => Handler::RequestConfirmation,
            State::WaitingDeleteConfirmation => Handler::DeleteUserConfirm,
            _ => Handler::InvalidState,
        },
        UpdateKind::CallbackQuery => match state {
            State::WaitingRequestDatasource => Handler::RequestMediaType,
            State::WaitingRequestMediaType { .. } => Handler::RequestMediaId,
            State::WaitingRequestConfirmation { .. } => Handler::HandleRequestConfirmation,
            _ => Handler::Unhandled,
        },
    }
}

/// What the help command answers: in a group, a pointer to the group's
/// description that is removed again, or a refusal for a muted user; in a
/// private chat, the list of commands.
pub open spec fn help_effects(chat: ChatKind, sender: Sender, disabled: Seq<u64>) -> Seq<EffectView> {
    match chat {
        ChatKind::Public => match sender {
            Sender::User(id) => if disabled.contains(id) {
                say(NO_PERMISSION@)
            } else {
                say_briefly(SEE_GROUP_INTRO@)
            },
            Sender::Anonymous => Seq::empty(),
            Sender::Unknown => say(HELP_ERROR@),
        },
        ChatKind::Private => say(HELP_TEXT@),
    }
}

/// Answers the help command.
pub fn help(chat: ChatKind, sender: Sender, disabled_users: &Vec<u64>) -> (effects: Vec<Effect>)
    ensures
        views(effects@) == help_effects(chat, sender, disabled_users@),
{
    match chat {
        ChatKind::Public => match sender {
            Sender::User(id) => if listed(disabled_users, id) {
                reply(NO_PERMISSION)
            } else {
                brief_reply(SEE_GROUP_INTRO)
            },
            Sender::Anonymous => nothing(),
            Sender::Unknown => reply(HELP_ERROR),
        },
        ChatKind::Private => reply(HELP_TEXT),
    }
}

/// What the group assistant answers to its help command, in any chat.
pub open spec fn answer_effects(sender: Sender, disabled: Seq<u64>) -> Seq<EffectView> {
    match sender {
        Sender::User(id) => if disabled.contains(id) {
            say(NO_PERMISSION@)
        } else {
            say_briefly(SEE_GROUP_INTRO@)
        },
        Sender::Anonymous => Seq::empty(),
        Sender::Unknown => say(GROUP_ERROR@),
    }
}

/// Answers the help command of the group assistant.
pub fn answer(sender: Sender, disabled_users: &Vec<u64>) -> (effects: Vec<Effect>)
    ensures
        views(effects@) == answer_effects(sender, disabled_users@),
{
    match sender {
        Sender::User(id) => if listed(disabled_users, id) {
            reply(NO_PERMISSION)
        } else {
            brief_reply(SEE_GROUP_INTRO)
        },
        Sender::Anonymous => nothing(),
        Sender::Unknown => reply(GROUP_ERROR),
    }
}

/// What checking in answers at a given hour of the front desk's clock. In a
/// group a muted user is turned away, before opening time with one excuse
/// and after it with another; anyone else has the command removed at once.
/// In a private chat the command is declined and removed.
pub open spec fn check_in_effects(chat: ChatKind, sender: Sender, disabled: Seq<u64>, hour: u32) -> Seq<
    EffectView,
> {
    match chat {
        ChatKind::Public => match sender {
            Sender::User(id) => if disabled.contains(id) {
                if hour < CHECK_IN_OPENS {
                    say_briefly(CHECK_IN_TOO_EARLY@)
                } else {
                    say_briefly(CHECK_IN_FULL@)
                }
            } else {
                seq![EffectView::DeleteTrigger { delay_secs: 0 }]
            },
            Sender::Anonymous => Seq::empty(),
            Sender::Unknown => say(CHECK_IN_ERROR@),
        },
        ChatKind::Private => say_briefly(CHECK_IN_NOT_NEEDED@),
    }
}

/// Answers the check-in command at a given hour.
pub fn check_in_at(chat: ChatKind, sender: Sender, disabled_users: &Vec<u64>, hour: u32) -> (effects:
    Vec<Effect>)
    ensures
        views(effects@) == check_in_effects(chat, sender, disabled_users@, hour),
{
    match chat {
        ChatKind::Public => match sender {
            Sender::User(id) => if listed(disabled_users, id) {
                if hour < CHECK_IN_OPENS {
                    brief_reply(CHECK_IN_TOO_EARLY)
                } else {
                    brief_reply(CHECK_IN_FULL)
                }
            } else {
                only(Effect::DeleteTrigger { delay_secs: 0 })
            },
            Sender::Anonymous => nothing(),
            Sender::Unknown => reply(CHECK_IN_ERROR),
        },
        ChatKind::Private => brief_reply(CHECK_IN_NOT_NEEDED),
    }
}

/// Answers the check-in command at the current hour of the front desk's clock.
pub fn check_in(chat: ChatKind, sender: Sender, disabled_users: &Vec<u64>) -> (effects: Vec<Effect>)
    ensures
        exists|hour: u32|
            hour < 24 && views(effects@) == #[trigger] check_in_effects(
                chat,
                sender,
                disabled_users@,
                hour,
            ),
{
    let hour = hour_west_of_greenwich(FRONT_DESK_SECONDS_WEST);
    check_in_at(chat, sender, disabled_users, hour)
}

/// Checking out removes the command after the usual delay and says nothing.
pub fn check_out() -> (effects: Vec<Effect>)
    ensures
        views(effects@) == seq![EffectView::DeleteTrigger { delay_secs: TRANSIENT_DELAY_SECS }],
{
    only(Effect::DeleteTrigger { delay_secs: TRANSIENT_DELAY_SECS })
}

/// Cancelling ends whatever flow is under way.
pub fn cancel() -> (turn: Turn)
    ensures
        turn@ == (TurnView { state: StateView::Start, effects: say(OPERATION_CANCELLED@) }),
{
    Turn { state: State::Start, effects: reply(OPERATION_CANCELLED) }
}

/// A message that no flow expects is answered in private chats only.
pub open spec fn invalid_state_effects(chat: ChatKind) -> Seq<EffectView> {
    match chat {
        ChatKind::Private => say(INVALID_COMMAND@),
        ChatKind::Public => Seq::empty(),
    }
}

/// Answers a message that no flow expects.
pub fn invalid_state(chat: ChatKind) -> (effects: Vec<Effect>)
    ensures
        views(effects@) == invalid_state_effects(chat),
{
    match chat {
        ChatKind::Private => reply(INVALID_COMMAND),
        ChatKind::Public => nothing(),
    }
}

/// A turn is accounted for when it leaves the conversation idle, or where
/// it stood, or tells the user something.
pub open spec fn accounted(before: StateView, turn: TurnView) -> bool {
    turn.state == StateView::Start || turn.state == before || turn.effects.len() > 0
}

/// No step of the account flows moves a conversation without a word: every
/// turn is accounted for, and the steps that end a flow, whether it went
/// well or not, leave the conversation idle.
pub proof fn law_account_flows_end_idle(
    chat: ChatKind,
    chat_id: i64,
    directory: crate::auth::DirectoryView,
    state: StateView,
    content: ContentView,
    lowered: Seq<char>,
    username: Seq<char>,
    provisioned: Result<Seq<char>, Seq<char>>,
    revoked: Result<(), Seq<char>>,
)
    ensures
        accounted(state, account::register_start_turn(chat, chat_id, directory, state)),
        accounted(StateView::WaitingRegistrationUsername, account::register_username_turn(content)),
        account::registration_outcome(directory, chat_id, username, provisioned).1.state
            == StateView::Start,
        accounted(state, account::delete_user_start_turn(chat, chat_id, directory, state)),
        accounted(
            StateView::WaitingDeleteConfirmation,
            account::delete_user_confirm_turn(content, lowered, directory.emby_id(chat_id)),
        ),
        account::revocation_outcome(directory, chat_id, revoked).1.state == StateView::Start,
{
}

/// No step of the request flow moves a conversation without a word: every
/// turn is accounted for; a refused input leaves the conversation where it
/// stood; and a failed lookup, a duplicate, a cancellation and a filed
/// request all leave it idle.
pub proof fn law_request_flow_ends_idle(
    chat: ChatKind,
    chat_id: i64,
    ledger: crate::ledger::LedgerView,
    state: StateView,
    content: ContentView,
    data: Option<Seq<char>>,
    data_source: Seq<char>,
    media_type: Seq<char>,
    media_id: Seq<char>,
    fetched: Result<crate::scraper::MediaInfoView, Seq<char>>,
    request_id: i32,
    now: Seq<char>,
)
    ensures
        accounted(state, request::request_start_turn(chat, state)),
        accounted(StateView::WaitingRequestDatasource, request::request_media_type_turn(data)),
        accounted(
            StateView::WaitingRequestMediaType { data_source },
            request::request_media_id_turn(data_source, data),
        ),
        request::request_confirmation_turn(content, data_source, media_type).state
            == (StateView::WaitingRequestMediaID { data_source, media_type }),
        accounted(
            StateView::WaitingRequestMediaID { data_source, media_type },
            request::fetched_turn(data_source, media_type, media_id, fetched),
        ),
        fetched is Err && request::lookup_params(data_source, media_type) is Ok
            ==> request::fetched_turn(data_source, media_type, media_id, fetched).state
            == StateView::Start,
        accounted(
            StateView::WaitingRequestConfirmation { data_source, media_type, media_id },
            request::confirmation_outcome(
                ledger,
                chat_id,
                data,
                data_source,
                media_type,
                media_id,
                now,
            ).turn,
        ),
        request::confirmation_outcome(
            ledger,
            chat_id,
            data,
            data_source,
            media_type,
            media_id,
            now,
        ).request_id is None ==> request::confirmation_outcome(
            ledger,
            chat_id,
            data,
            data_source,
            media_type,
            media_id,
            now,
        ).ledger == ledger,
        request::committed_outcome(ledger, request_id, fetched, now).1.state == StateView::Start,
{
}

} // verus!
