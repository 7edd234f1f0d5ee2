//! The account provisioning client: the calls to make to the media server's
//! user management, and what its answers mean. Sending is the caller's.

use crate::messages::{PROVISIONING_NO_TEXT, PROVISIONING_UNREACHABLE, PROVISIONING_UNREADABLE};
use crate::models::{text_view, views};
use vstd::prelude::*;
use vstd::string::*;

verus! {

pub const NEW_USER_PATH: &'static str = "/Users/New";

pub const USERS_PATH: &'static str = "/Users/";

pub const PASSWORD_PATH: &'static str = "/Password";

pub const TOKEN_HEADER: &'static str = "X-Emby-Token";

pub const COPY_USER_POLICY: &'static str = "UserPolicy";

/// The HTTP method of a call.
#[derive(Clone, Copy, Debug, PartialEq, Eq, Structural)]
pub enum Method {
    Post,
    Delete,
}

/// The document sent with a call.
#[derive(Clone, Debug, PartialEq, Eq)]
pub enum Body {
    /// Nothing is sent.
    Empty,
    /// A new account named `name`, with the settings in `user_copy_options`
    /// copied from the account `copy_from_user_id`.
    NewUser { name: String, copy_from_user_id: String, user_copy_options: Vec<String> },
    /// The instruction to reset the password.
    ResetPassword,
}

pub enum BodyView {
    Empty,
    NewUser { name: Seq<char>, copy_from_user_id: Seq<char>, user_copy_options: Seq<Seq<char>> },
    ResetPassword,
}

impl View for Body {
    type V = BodyView;

    open spec fn view(&self) -> BodyView {
        match self {
            Body::Empty => BodyView::Empty,
            Body::NewUser { name, copy_from_user_id, user_copy_options } => BodyView::NewUser {
                name: name@,
                copy_from_user_id: copy_from_user_id@,
                user_copy_options: views(user_copy_options@),
            },
            Body::ResetPassword => BodyView::ResetPassword,
        }
    }
}

/// A call to the media server. The access token travels in the header
/// [`TOKEN_HEADER`].
#[derive(Clone, Debug, PartialEq, Eq)]
pub struct Call {
    pub method: Method,
    pub url: String,
    pub body: Body,
}

pub struct CallView {
    pub method: Method,
    pub url: Seq<char>,
    pub body: BodyView,
}

impl View for Call {
    type V = CallView;

    open spec fn view(&self) -> CallView {
        CallView { method: self.method, url: self.url@, body: self.body@ }
    }
}

/// What came back from a call.
#[derive(Clone, Debug, PartialEq, Eq)]
pub enum Answer {
    /// The call could not be sent, or no answer came.
    Unreachable,
    /// The server reported success; with the account identifier found in
    /// the answer, if one could be read.
    Accepted(Option<String>),
    /// The server reported failure; with the text of its answer, if it
    /// could be read.
    Rejected(Option<String>),
}

pub enum AnswerView {
    Unreachable,
    Accepted(Option<Seq<char>>),
    Rejected(Option<Seq<char>>),
}

impl View for Answer {
    type V = AnswerView;

    open spec fn view(&self) -> AnswerView {
        match self {
            Answer::Unreachable => AnswerView::Unreachable,
            Answer::Accepted(id) => AnswerView::Accepted(text_view(*id)),
            Answer::Rejected(body) => AnswerView::Rejected(text_view(*body)),
        }
    }
}

/// The view of an account identifier or a reason.
pub open spec fn id_view(r: Result<String, String>) -> Result<Seq<char>, Seq<char>> {
    match r {
        Ok(id) => Ok(id@),
        Err(e) => Err(e@),
    }
}

/// The view of a bare success or a reason.
pub open spec fn done_view(r: Result<(), String>) -> Result<(), Seq<char>> {
    match r {
        Ok(_) => Ok(()),
        Err(e) => Err(e@),
    }
}

/// The call that creates an account.
pub open spec fn new_user_call(
    emby_url: Seq<char>,
    username: Seq<char>,
    copy_from_user_id: Seq<char>,
) -> CallView {
    CallView {
        method: Method::Post,
        url: emby_url + NEW_USER_PATH@,
        body: BodyView::NewUser {
            name: username,
            copy_from_user_id,
            user_copy_options: seq![COPY_USER_POLICY@],
        },
    }
}

/// The call that resets the password of an account.
pub open spec fn password_call(emby_url: Seq<char>, user_id: Seq<char>) -> CallView {
    CallView {
        method: Method::Post,
        url: emby_url + USERS_PATH@ + user_id + PASSWORD_PATH@,
        body: BodyView::ResetPassword,
    }
}

/// The call that revokes an account.
pub open spec fn revoke_call(emby_url: Seq<char>, user_id: Seq<char>) -> CallView {
    CallView { method: Method::Delete, url: emby_url + USERS_PATH@ + user_id, body: BodyView::Empty }
}

/// What an answer means for a call that yields an account identifier:
/// the server's own words on a failure it explained, a fixed notice with a
/// short tag otherwise.
pub open spec fn registered_id(answer: AnswerView) -> Result<Seq<char>, Seq<char>> {
    match answer {
        AnswerView::Unreachable => Err(PROVISIONING_UNREACHABLE@),
        AnswerView::Accepted(Some(id)) => Ok(id),
        AnswerView::Accepted(None) => Err(PROVISIONING_UNREADABLE@),
        AnswerView::Rejected(Some(body)) => Err(body),
        AnswerView::Rejected(None) => Err(PROVISIONING_NO_TEXT@),
    }
}

/// What an answer means for a call that yields nothing.
pub open spec fn acknowledged(answer: AnswerView) -> Result<(), Seq<char>> {
    match answer {
        AnswerView::Unreachable => Err(PROVISIONING_UNREACHABLE@),
        AnswerView::Accepted(_) => Ok(()),
        AnswerView::Rejected(Some(body)) => Err(body),
        AnswerView::Rejected(None) => Err(PROVISIONING_NO_TEXT@),
    }
}

/// Builds the call that creates an account named `username` after the
/// template account.
pub fn new_user(emby_url: &str, username: &str, copy_from_user_id: &str) -> (call: Call)
    ensures
        call@ == new_user_call(emby_url@, username@, copy_from_user_id@),
{
    let mut url = String::from_str(emby_url);
    url.append(NEW_USER_PATH);
    let mut options: Vec<String> = Vec::new();
    options.push(String::from_str(COPY_USER_POLICY));
    assert(views(options@) =~= seq![COPY_USER_POLICY@]);
    Call {
        method: Method::Post,
        url,
        body: Body::NewUser {
            name: String::from_str(username),
            copy_from_user_id: String::from_str(copy_from_user_id),
            user_copy_options: options,
        },
    }
}

/// Builds the call that resets the password of an account.
pub fn password_update(emby_url: &str, user_id: &str) -> (call: Call)
    ensures
        call@ == password_call(emby_url@, user_id@),
{
    let mut url = String::from_str(emby_url);
    url.append(USERS_PATH);
    url.append(user_id);
    url.append(PASSWORD_PATH);
    Call { method: Method::Post, url, body: Body::ResetPassword }
}

/// Builds the call that revokes an account.
pub fn revocation(emby_url: &str, user_id: &str) -> (call: Call)
    ensures
        call@ == revoke_call(emby_url@, user_id@),
{
    let mut url = String::from_str(emby_url);
    url.append(USERS_PATH);
    url.append(user_id);
    Call { method: Method::Delete, url, body: Body::Empty }
}

/// The reason reported for a refusal.
fn refusal(body: Option<String>) -> (r: String)
    ensures
        r@ == match text_view(body) {
            Some(b) => b,
            None => PROVISIONING_NO_TEXT@,
        },
{
    match body {
        Some(b) => b,
        None => String::from_str(PROVISIONING_NO_TEXT),
    }
}

/// Reads the answer to an account creation.
pub fn submit_emby_register(answer: Answer) -> (r: Result<String, String>)
    ensures
        id_view(r) == registered_id(answer@),
{
    match answer {
        Answer::Unreachable => Err(String::from_str(PROVISIONING_UNREACHABLE)),
        Answer::Accepted(Some(id)) => Ok(id),
        Answer::Accepted(None) => Err(String::from_str(PROVISIONING_UNREADABLE)),
        Answer::Rejected(body) => Err(refusal(body)),
    }
}

/// Reads the answer to a password reset.
pub fn submit_emby_password_update(answer: Answer) -> (r: Result<(), String>)
    ensures
        done_view(r) == acknowledged(answer@),
{
    match answer {
        Answer::Unreachable => Err(String::from_str(PROVISIONING_UNREACHABLE)),
        Answer::Accepted(_) => Ok(()),
        Answer::Rejected(body) => Err(refusal(body)),
    }
}

/// Reads the answer to a revocation.
pub fn delete_emby_user(answer: Answer) -> (r: Result<(), String>)
    ensures
        done_view(r) == acknowledged(answer@),
{
    match answer {
        Answer::Unreachable => Err(String::from_str(PROVISIONING_UNREACHABLE)),
        Answer::Accepted(_) => Ok(()),
        Answer::Rejected(body) => Err(refusal(body)),
    }
}

} // verus!
