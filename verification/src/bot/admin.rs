//! The commands reserved to administrators: the chat's identifier and the
//! export of the request list.

use crate::auth::{check_admin, DirectoryView, UserDirectory};
use crate::bot::{
    brief_reply, nothing, only, reply, say, say_briefly, Effect, EffectView, Sender,
};
use crate::clock::{utc_now, FILE_STAMP};
use crate::ledger::{LedgerView, RequestLedger};
use crate::messages::{
    caption, caption_text, chat_id_reply, chat_id_text, framed, CHAT_ID_ERROR, NO_PERMISSION,
    NO_REQUESTS, STATUS_ARCHIVED, STATUS_INVALID, STATUS_SUBMITTED, STATUS_UNKNOWN,
    STATUS_WITHDRAWN,
};
use crate::models::media_request_status::{ARCHIVED, CANCELLED, INVALID, SUBMITTED};
use crate::models::{views, MediaRequest, MediaRequestView};
use crate::text::{decimal, i64_to_string};
use vstd::prelude::*;
use vstd::string::*;

verus! {

pub const CSV_HEADER: &'static str =
    "ID,Source,Media ID,Request User,Status,Created At,Updated At\n";

pub const COMMA: &'static str = ",";

pub const NEWLINE: &'static str = "\n";

pub const FILE_PREFIX: &'static str = "media_requests_";

pub const FILE_SUFFIX: &'static str = ".csv";

/// Whether the sender of a message administers the service.
pub open spec fn sender_is_admin(directory: DirectoryView, id: u64) -> bool {
    id <= i64::MAX && directory.is_admin(id as i64)
}

/// Checks whether the sender of a message administers the service.
pub fn is_admin(directory: &UserDirectory, id: u64) -> (r: bool)
    requires
        directory.wf(),
    ensures
        r == sender_is_admin(directory@, id),
{
    id <= i64::MAX as u64 && check_admin(directory, id as i64)
}

/// How the chat-id command is answered: an administrator is told the
/// identifier of the chat, anyone else is refused in passing.
pub open spec fn chat_id_effects(sender: Sender, directory: DirectoryView, chat_id: i64) -> Seq<
    EffectView,
> {
    match sender {
        Sender::User(id) => if sender_is_admin(directory, id) {
            say(chat_id_text(chat_id))
        } else {
            say_briefly(NO_PERMISSION@)
        },
        Sender::Anonymous => Seq::empty(),
        Sender::Unknown => say(CHAT_ID_ERROR@),
    }
}

/// Answers the chat-id command.
pub fn chat_id(sender: Sender, directory: &UserDirectory, chat: i64) -> (effects: Vec<Effect>)
    requires
        directory.wf(),
    ensures
        views(effects@) == chat_id_effects(sender, directory@, chat),
{
    match sender {
        Sender::User(id) => if is_admin(directory, id) {
            let text = chat_id_reply(chat);
            reply(text.as_str())
        } else {
            brief_reply(NO_PERMISSION)
        },
        Sender::Anonymous => nothing(),
        Sender::Unknown => reply(CHAT_ID_ERROR),
    }
}

/// The word for a status in the exported list.
pub open spec fn status_label(status: i32) -> Seq<char> {
    if status == SUBMITTED {
        STATUS_SUBMITTED@
    } else if status == ARCHIVED {
        STATUS_ARCHIVED@
    } else if status == CANCELLED {
        STATUS_WITHDRAWN@
    } else if status == INVALID {
        STATUS_INVALID@
    } else {
        STATUS_UNKNOWN@
    }
}

/// One line of the exported list: the seven fields of a request, separated
/// by commas and ended by a line feed.
pub open spec fn csv_line(row: MediaRequestView) -> Seq<char> {
    decimal(row.id as int) + COMMA@ + row.source + COMMA@ + row.media_id + COMMA@ + decimal(
        row.request_user as int,
    ) + COMMA@ + status_label(row.status) + COMMA@ + row.created_at + COMMA@ + row.updated_at
        + NEWLINE@
}

/// The lines of the exported list, one per request, in order.
pub open spec fn csv_lines(rows: Seq<MediaRequestView>) -> Seq<char>
    decreases rows.len(),
{
    if rows.len() == 0 {
        Seq::empty()
    } else {
        csv_lines(rows.drop_last()) + csv_line(rows.last())
    }
}

/// The exported list: the header line, then one line per request.
pub open spec fn csv(rows: Seq<MediaRequestView>) -> Seq<char> {
    CSV_HEADER@ + csv_lines(rows)
}

/// The name of the exported file.
pub open spec fn file_name(stamp: Seq<char>) -> Seq<char> {
    FILE_PREFIX@ + stamp + FILE_SUFFIX@
}

/// Words a status for the exported list.
fn label(status: i32) -> (r: &'static str)
    ensures
        r@ == status_label(status),
{
    if status == SUBMITTED {
        STATUS_SUBMITTED
    } else if status == ARCHIVED {
        STATUS_ARCHIVED
    } else if status == CANCELLED {
        STATUS_WITHDRAWN
    } else if status == INVALID {
        STATUS_INVALID
    } else {
        STATUS_UNKNOWN
    }
}

/// Writes one line of the exported list.
fn line(row: &MediaRequest) -> (r: String)
    ensures
        r@ == csv_line(row@),
{
    let mut out = i64_to_string(row.id as i64);
    out.append(COMMA);
    out.append(row.source.as_str());
    out.append(COMMA);
    out.append(row.media_id.as_str());
    out.append(COMMA);
    let user = i64_to_string(row.request_user);
    out.append(user.as_str());
    out.append(COMMA);
    out.append(label(row.status));
    out.append(COMMA);
    out.append(row.created_at.as_str());
    out.append(COMMA);
    out.append(row.updated_at.as_str());
    out.append(NEWLINE);
    out
}

/// Writes the exported list.
pub fn export(rows: &Vec<MediaRequest>) -> (r: String)
    ensures
        r@ == csv(views(rows@)),
{
    let mut out = String::from_str(CSV_HEADER);
    let mut i: usize = 0;
    assert(views(rows@).take(0) =~= Seq::<MediaRequestView>::empty());
    assert(CSV_HEADER@ + csv_lines(Seq::<MediaRequestView>::empty()) =~= CSV_HEADER@);
    while i < rows.len()
        invariant
            i <= rows.len(),
            out@ == csv(views(rows@).take(i as int)),
        decreases rows.len() - i,
    {
        let text = line(&rows[i]);
        proof {
            let all = views(rows@);
            assert(all.take(i + 1).drop_last() == all.take(i as int));
            assert(all.take(i + 1).last() == rows@[i as int]@);
            assert(out@ + text@ =~= CSV_HEADER@ + (csv_lines(all.take(i as int)) + text@));
        }
        out.append(text.as_str());
        i += 1;
    }
    assert(views(rows@).take(i as int) == views(rows@));
    out
}

/// How the request-list command is answered, with `stamp` as the time in
/// the file's name: only an administrator gets an answer other than a
/// refusal; an empty ledger is reported as such; otherwise every request is
/// exported to a file, captioned with the number of requests.
pub open spec fn request_list_effects(
    sender: Sender,
    directory: DirectoryView,
    ledger: LedgerView,
    stamp: Seq<char>,
) -> Seq<EffectView> {
    match sender {
        Sender::User(id) => if !sender_is_admin(directory, id) {
            say(NO_PERMISSION@)
        } else if ledger.requests.len() == 0 {
            say(NO_REQUESTS@)
        } else {
            seq![
                EffectView::Document {
                    file_name: file_name(stamp),
                    content: csv(ledger.requests),
                    caption: caption_text(ledger.requests.len()),
                },
            ]
        },
        _ => Seq::empty(),
    }
}

/// Answers the request-list command, with `stamp` as the time in the file's name.
pub fn request_list_at(
    sender: Sender,
    directory: &UserDirectory,
    ledger: &RequestLedger,
    stamp: &str,
) -> (effects: Vec<Effect>)
    requires
        directory.wf(),
    ensures
        views(effects@) == request_list_effects(sender, directory@, ledger@, stamp@),
{
    match sender {
        Sender::User(id) => if !is_admin(directory, id) {
            reply(NO_PERMISSION)
        } else {
            let rows = ledger.requests();
            if rows.len() == 0 {
                reply(NO_REQUESTS)
            } else {
                only(
                    Effect::Document {
                        file_name: framed(FILE_PREFIX, stamp, FILE_SUFFIX),
                        content: export(&rows),
                        caption: caption(rows.len()),
                    },
                )
            }
        },
        _ => nothing(),
    }
}

/// Answers the request-list command; the file is named after the current time.
pub fn request_list(sender: Sender, directory: &UserDirectory, ledger: &RequestLedger) -> (effects: Vec<
    Effect,
>)
    requires
        directory.wf(),
    ensures
        exists|stamp: Seq<char>|
            views(effects@) == #[trigger] request_list_effects(
                sender,
                directory@,
                ledger@,
                stamp,
            ),
{
    let stamp = utc_now(FILE_STAMP);
    request_list_at(sender, directory, ledger, stamp.as_str())
}

} // verus!
