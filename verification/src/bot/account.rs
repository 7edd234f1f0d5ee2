//! The account flows: registration, password reset and account deletion.

use crate::auth::{
    check_registered, delete_user, get_emby_id, get_username, register, DirectoryView,
    UserDirectory,
};
use crate::bot::request::{CONFIRM, SLASH};
use crate::bot::{
    brief_reply, nothing, only, reply, say, say_briefly, ChatKind, Content, ContentView, Effect,
    EffectView, State, StateView, Turn, TurnView,
};
use crate::messages::{
    already_registered, already_registered_text, deletion_failed_text, framed,
    record_not_deleted_text, registration_failed_text, reset_failed_text, ACCOUNT_DELETED,
    ASK_USERNAME, DELETE_NOT_REGISTERED, DELETE_WARNING, DELETION_CANCELLED,
    DELETION_FAILED_PREFIX, DELETION_FAILED_SUFFIX, DELETION_INVALID_INPUT, DIRECTORY_FAILURE,
    INVALID_USERNAME, PASSWORD_RESET, PRIVATE_ONLY, RECORD_NOT_DELETED_PREFIX,
    RECORD_NOT_DELETED_SUFFIX, REGISTERED, REGISTRATION_FAILED_PREFIX, REGISTRATION_FAILED_SUFFIX,
    RESET_FAILED_PREFIX, RESET_FAILED_SUFFIX, RESET_NOT_REGISTERED, USERNAME_STARTS_WITH_SLASH,
};
use crate::models::views;
use crate::provisioning::{done_view, id_view};
use crate::text::{lowercased, starts_with, str_eq, to_lowercase};
use vstd::prelude::*;
use vstd::string::*;

verus! {

/// How the registration command is answered: refused in groups, pointless
/// for a registered user, otherwise the flow begins by asking for a name.
pub open spec fn register_start_turn(
    chat: ChatKind,
    chat_id: i64,
    directory: DirectoryView,
    state: StateView,
) -> TurnView {
    match chat {
        ChatKind::Public => TurnView { state, effects: say_briefly(PRIVATE_ONLY@) },
        ChatKind::Private => if directory.is_registered(chat_id) {
            TurnView { state, effects: say(already_registered_text(directory.username(chat_id))) }
        } else {
            TurnView { state: StateView::WaitingRegistrationUsername, effects: say(ASK_USERNAME@) }
        },
    }
}

/// Answers the registration command.
pub fn register_start(chat: ChatKind, chat_id: i64, directory: &UserDirectory, state: State) -> (turn:
    Turn)
    requires
        directory.wf(),
    ensures
        turn@ == register_start_turn(chat, chat_id, directory@, state@),
{
    match chat {
        ChatKind::Public => Turn { state, effects: brief_reply(PRIVATE_ONLY) },
        ChatKind::Private => if check_registered(directory, chat_id) {
            let username = get_username(directory, chat_id);
            let text = already_registered(username.as_str());
            Turn { state, effects: reply(text.as_str()) }
        } else {
            Turn { state: State::WaitingRegistrationUsername, effects: reply(ASK_USERNAME) }
        },
    }
}

/// How a message is taken while registration waits for a name. A text that
/// begins with the command prefix is refused and asked for again; any other
/// text is the name to provision; anything else is asked for again. The
/// conversation keeps waiting in every case.
pub open spec fn register_username_turn(content: ContentView) -> TurnView {
    let state = StateView::WaitingRegistrationUsername;
    match content {
        ContentView::Text(name) => if SLASH@.is_prefix_of(name) {
            TurnView { state, effects: say(USERNAME_STARTS_WITH_SLASH@) }
        } else {
            TurnView { state, effects: seq![EffectView::Provision { username: name }] }
        },
        ContentView::NonText => TurnView { state, effects: say(INVALID_USERNAME@) },
        ContentView::Other => TurnView { state, effects: Seq::empty() },
    }
}

/// Takes a message while registration waits for a name.
pub fn register_username(content: &Content) -> (turn: Turn)
    ensures
        turn@ == register_username_turn(content@),
{
    let state = State::WaitingRegistrationUsername;
    match content {
        Content::Text(name) => if starts_with(name.as_str(), SLASH) {
            Turn { state, effects: reply(USERNAME_STARTS_WITH_SLASH) }
        } else {
            Turn { state, effects: only(Effect::Provision { username: name.clone() }) }
        },
        Content::NonText => Turn { state, effects: reply(INVALID_USERNAME) },
        Content::Other => Turn { state, effects: nothing() },
    }
}

/// How registration ends once provisioning has answered. On success the
/// registration is recorded; on any failure nothing is recorded and the
/// user is told why. Either way the conversation returns to idle.
pub open spec fn registration_outcome(
    directory: DirectoryView,
    chat_id: i64,
    username: Seq<char>,
    outcome: Result<Seq<char>, Seq<char>>,
) -> (DirectoryView, TurnView) {
    match outcome {
        Ok(emby_user_id) => match directory.register(chat_id, username, emby_user_id).1 {
            Ok(_) => (
                directory.register(chat_id, username, emby_user_id).0,
                TurnView { state: StateView::Start, effects: say(REGISTERED@) },
            ),
            Err(_) => (
                directory,
                TurnView {
                    state: StateView::Start,
                    effects: say(registration_failed_text(DIRECTORY_FAILURE@)),
                },
            ),
        },
        Err(reason) => (
            directory,
            TurnView { state: StateView::Start, effects: say(registration_failed_text(reason)) },
        ),
    }
}

/// Ends registration with the answer of the provisioning service.
pub fn register_username_provisioned(
    directory: &mut UserDirectory,
    chat_id: i64,
    username: String,
    outcome: Result<String, String>,
) -> (turn: Turn)
    requires
        old(directory).wf(),
    ensures
        final(directory).wf(),
        (final(directory)@, turn@) == registration_outcome(
            old(directory)@,
            chat_id,
            username@,
            id_view(outcome),
        ),
        forall|other: i64|
            other != chat_id ==> (#[trigger] final(directory)@.is_registered(other)) == old(
                directory,
            )@.is_registered(other),
        final(directory)@.is_registered(chat_id) == (old(directory)@.is_registered(chat_id) || (
        outcome is Ok && old(directory)@.next_id() <= i32::MAX)),
{
    proof {
        if let Ok(id) = id_view(outcome) {
            directory@.lemma_register_membership(chat_id, username@, id);
        }
    }
    match outcome {
        Ok(emby_user_id) => match register(directory, chat_id, username, emby_user_id) {
            Ok(_) => Turn { state: State::Start, effects: reply(REGISTERED) },
            Err(_) => {
                let text = framed(
                    REGISTRATION_FAILED_PREFIX,
                    DIRECTORY_FAILURE,
                    REGISTRATION_FAILED_SUFFIX,
                );
                Turn { state: State::Start, effects: reply(text.as_str()) }
            },
        },
        Err(reason) => {
            let text = framed(
                REGISTRATION_FAILED_PREFIX,
                reason.as_str(),
                REGISTRATION_FAILED_SUFFIX,
            );
            Turn { state: State::Start, effects: reply(text.as_str()) }
        },
    }
}

/// How the deletion command is answered: refused in groups and for
/// unregistered users, otherwise a warning that asks for the confirmation word.
pub open spec fn delete_user_start_turn(
    chat: ChatKind,
    chat_id: i64,
    directory: DirectoryView,
    state: StateView,
) -> TurnView {
    match chat {
        ChatKind::Public => TurnView { state, effects: say_briefly(PRIVATE_ONLY@) },
        ChatKind::Private => if !directory.is_registered(chat_id) {
            TurnView { state, effects: say(DELETE_NOT_REGISTERED@) }
        } else {
            TurnView { state: StateView::WaitingDeleteConfirmation, effects: say(DELETE_WARNING@) }
        },
    }
}

/// Answers the deletion command.
pub fn delete_user_start(chat: ChatKind, chat_id: i64, directory: &UserDirectory, state: State) -> (turn:
    Turn)
    requires
        directory.wf(),
    ensures
        turn@ == delete_user_start_turn(chat, chat_id, directory@, state@),
{
    match chat {
        ChatKind::Public => Turn { state, effects: brief_reply(PRIVATE_ONLY) },
        ChatKind::Private => if !check_registered(directory, chat_id) {
            Turn { state, effects: reply(DELETE_NOT_REGISTERED) }
        } else {
            Turn { state: State::WaitingDeleteConfirmation, effects: reply(DELETE_WARNING) }
        },
    }
}

/// How a message is taken while deletion waits for the confirmation word,
/// given the text in lower case. Only the word itself leads to revoking the
/// account `emby_user_id`; any other text, and anything that is not text,
/// cancels.
pub open spec fn delete_user_confirm_turn(
    content: ContentView,
    lowered: Seq<char>,
    emby_user_id: Seq<char>,
) -> TurnView {
    match content {
        ContentView::Text(_) => if lowered == CONFIRM@ {
            TurnView {
                state: StateView::WaitingDeleteConfirmation,
                effects: seq![EffectView::Revoke { emby_user_id }],
            }
        } else {
            TurnView { state: StateView::Start, effects: say(DELETION_CANCELLED@) }
        },
        ContentView::NonText => TurnView {
            state: StateView::Start,
            effects: say(DELETION_INVALID_INPUT@),
        },
        ContentView::Other => TurnView {
            state: StateView::WaitingDeleteConfirmation,
            effects: Seq::empty(),
        },
    }
}

/// The lower-case form of the text of a message; empty where there is no text.
pub open spec fn lowered_text(content: ContentView) -> Seq<char> {
    match content {
        ContentView::Text(t) => lowercased(t),
        _ => Seq::empty(),
    }
}

/// Takes a message while deletion waits for the confirmation word, given
/// the message's text in lower case.
pub fn delete_user_decided(content: &Content, lowered: &str, emby_user_id: String) -> (turn: Turn)
    ensures
        turn@ == delete_user_confirm_turn(content@, lowered@, emby_user_id@),
{
    match content {
        Content::Text(_) => if str_eq(lowered, CONFIRM) {
            Turn {
                state: State::WaitingDeleteConfirmation,
                effects: only(Effect::Revoke { emby_user_id }),
            }
        } else {
            Turn { state: State::Start, effects: reply(DELETION_CANCELLED) }
        },
        Content::NonText => Turn { state: State::Start, effects: reply(DELETION_INVALID_INPUT) },
        Content::Other => Turn { state: State::WaitingDeleteConfirmation, effects: nothing() },
    }
}

/// Takes a message while deletion waits for the confirmation word, which
/// is recognised whatever its case.
pub fn delete_user_confirm(content: &Content, chat_id: i64, directory: &UserDirectory) -> (turn: Turn)
    requires
        directory.wf(),
    ensures
        turn@ == delete_user_confirm_turn(
            content@,
            lowered_text(content@),
            directory@.emby_id(chat_id),
        ),
{
    let lowered = match content {
        Content::Text(t) => to_lowercase(t.as_str()),
        _ => String::new(),
    };
    delete_user_decided(content, lowered.as_str(), get_emby_id(directory, chat_id))
}

/// How deletion ends once the revocation has answered. The registration is
/// removed only after the account was revoked; a failed revocation leaves
/// the directory as it was. Either way the conversation returns to idle.
pub open spec fn revocation_outcome(
    directory: DirectoryView,
    chat_id: i64,
    outcome: Result<(), Seq<char>>,
) -> (DirectoryView, TurnView) {
    match outcome {
        Ok(_) => match directory.delete(chat_id).1 {
            Ok(_) => (
                directory.delete(chat_id).0,
                TurnView { state: StateView::Start, effects: say(ACCOUNT_DELETED@) },
            ),
            Err(e) => (
                directory,
                TurnView {
                    state: StateView::Start,
                    effects: say(record_not_deleted_text(e.text())),
                },
            ),
        },
        Err(reason) => (
            directory,
            TurnView { state: StateView::Start, effects: say(deletion_failed_text(reason)) },
        ),
    }
}

/// Ends deletion with the answer of the provisioning service.
pub fn delete_user_revoked(directory: &mut UserDirectory, chat_id: i64, outcome: Result<(), String>) -> (turn:
    Turn)
    requires
        old(directory).wf(),
    ensures
        final(directory).wf(),
        (final(directory)@, turn@) == revocation_outcome(old(directory)@, chat_id, done_view(outcome)),
        forall|other: i64|
            other != chat_id ==> (#[trigger] final(directory)@.is_registered(other)) == old(
                directory,
            )@.is_registered(other),
        final(directory)@.is_registered(chat_id) == (old(directory)@.is_registered(chat_id)
            && outcome is Err),
{
    match outcome {
        Ok(_) => match delete_user(directory, chat_id) {
            Ok(_) => Turn { state: State::Start, effects: reply(ACCOUNT_DELETED) },
            Err(e) => {
                let text = framed(RECORD_NOT_DELETED_PREFIX, e.describe(), RECORD_NOT_DELETED_SUFFIX);
                Turn { state: State::Start, effects: reply(text.as_str()) }
            },
        },
        Err(reason) => {
            let text = framed(DELETION_FAILED_PREFIX, reason.as_str(), DELETION_FAILED_SUFFIX);
            Turn { state: State::Start, effects: reply(text.as_str()) }
        },
    }
}

/// A registration is removed only after its account was revoked: when the
/// revocation fails, the directory is left exactly as it was, so a
/// registered chat stays registered; when it succeeds, the chat is
/// registered no longer; and no other chat's registration is touched
/// either way.
pub proof fn law_registration_outlives_failed_revocation(
    directory: DirectoryView,
    chat_id: i64,
    outcome: Result<(), Seq<char>>,
)
    requires
        directory.wf(),
    ensures
        revocation_outcome(directory, chat_id, outcome).0.wf(),
        outcome is Err ==> revocation_outcome(directory, chat_id, outcome).0 == directory,
        outcome is Ok ==> !revocation_outcome(directory, chat_id, outcome).0.is_registered(chat_id),
        forall|other: i64|
            other != chat_id ==> (#[trigger] revocation_outcome(
                directory,
                chat_id,
                outcome,
            ).0.is_registered(other)) == directory.is_registered(other),
        revocation_outcome(directory, chat_id, outcome).1.state == StateView::Start,
{
    directory.lemma_delete_wf(chat_id);
}

/// How the password reset command is answered: refused in groups and for
/// unregistered users, otherwise the reset of the user's account is called for.
pub open spec fn password_reset_effects(chat: ChatKind, chat_id: i64, directory: DirectoryView) -> Seq<
    EffectView,
> {
    match chat {
        ChatKind::Public => say_briefly(PRIVATE_ONLY@),
        ChatKind::Private => if !directory.is_registered(chat_id) {
            say(RESET_NOT_REGISTERED@)
        } else {
            seq![EffectView::ResetPassword { emby_user_id: directory.emby_id(chat_id) }]
        },
    }
}

/// Answers the password reset command.
pub fn password_reset(chat: ChatKind, chat_id: i64, directory: &UserDirectory) -> (effects: Vec<Effect>)
    requires
        directory.wf(),
    ensures
        views(effects@) == password_reset_effects(chat, chat_id, directory@),
{
    match chat {
        ChatKind::Public => brief_reply(PRIVATE_ONLY),
        ChatKind::Private => if !check_registered(directory, chat_id) {
            reply(RESET_NOT_REGISTERED)
        } else {
            only(Effect::ResetPassword { emby_user_id: get_emby_id(directory, chat_id) })
        },
    }
}

/// What the user is told once the reset has answered.
pub open spec fn password_reset_result(outcome: Result<(), Seq<char>>) -> Seq<EffectView> {
    match outcome {
        Ok(_) => say(PASSWORD_RESET@),
        Err(reason) => say(reset_failed_text(reason)),
    }
}

/// Reports the answer of the provisioning service to a password reset.
pub fn password_reset_done(outcome: Result<(), String>) -> (effects: Vec<Effect>)
    ensures
        views(effects@) == password_reset_result(done_view(outcome)),
{
    match outcome {
        Ok(_) => reply(PASSWORD_RESET),
        Err(reason) => {
            let text = framed(RESET_FAILED_PREFIX, reason.as_str(), RESET_FAILED_SUFFIX);
            reply(text.as_str())
        },
    }
}

} // verus!
