//! Every text the service shows to a user or an operator, and the builders
//! of the texts that have variable parts.

use crate::text::{decimal, i64_to_string, u64_to_string};
use vstd::prelude::*;
use vstd::string::*;

verus! {

pub const NO_PERMISSION: &'static str = "抱歉，您没有权限使用这个命令。";

pub const SEE_GROUP_INTRO: &'static str = "请查看群简介。";

pub const HELP_ERROR: &'static str = "未知错误，请联系管理员。[Command::Help]";

pub const HELP_TEXT: &'static str =
    "可用命令：\n/help - 显示此帮助\n/register - 注册新用户\n/passwordreset - 将密码重置为空\n/request - 请求新媒体资源";

pub const CHECK_IN_TOO_EARLY: &'static str =
    "抱歉，您不是我们的常旅客会员，我们无法在当地时间16:00之前为您办理登记入住。";

pub const CHECK_IN_FULL: &'static str = "抱歉，本酒店今日房满。";

pub const CHECK_IN_ERROR: &'static str = "未知错误，请联系管理员。[Command::CheckIn]";

pub const CHECK_IN_NOT_NEEDED: &'static str = "本站无需每日签到。";

pub const CHAT_ID_PREFIX: &'static str = "Chat ID: ";

pub const CHAT_ID_ERROR: &'static str = "未知错误，请联系管理员。[Command::ChatId]";

pub const PRIVATE_ONLY: &'static str = "请在私聊中使用此命令。";

pub const ALREADY_REGISTERED_PREFIX: &'static str = "您已经注册过了。用户名：";

pub const ASK_USERNAME: &'static str = "请输入您的用户名：";

pub const USERNAME_STARTS_WITH_SLASH: &'static str = "用户名不能以 / 开头，请重新输入。";

pub const REGISTERED: &'static str = "注册成功。默认密码为空，请登录后自行修改。";

pub const REGISTRATION_FAILED_PREFIX: &'static str = "注册失败。\n";

pub const REGISTRATION_FAILED_SUFFIX: &'static str = "\n请重新使用 /register 开始注册流程。";

pub const INVALID_USERNAME: &'static str = "无效的用户名，请重新输入。";

pub const DELETE_NOT_REGISTERED: &'static str = "您还没有注册，无法删除账户。";

pub const DELETE_WARNING: &'static str =
    "⚠️ 警告：此操作将永久删除您的账户，所有数据将被清除且无法恢复。\n\n如果您确定要删除账户，请回复 \"confirm\" 确认。回复其他任何内容将取消此操作。";

pub const ACCOUNT_DELETED: &'static str = "您的账户已成功删除。";

pub const RECORD_NOT_DELETED_PREFIX: &'static str = "数据库删除失败: ";

pub const RECORD_NOT_DELETED_SUFFIX: &'static str = "。但您的Emby账户已删除。";

pub const DELETION_FAILED_PREFIX: &'static str = "删除失败: ";

pub const DELETION_FAILED_SUFFIX: &'static str = "。请联系管理员。";

pub const DELETION_CANCELLED: &'static str = "操作已取消。您的账户未被删除。";

pub const DELETION_INVALID_INPUT: &'static str = "无效的输入，操作已取消。";

pub const CHOOSE_SOURCE: &'static str = "请选择您的数据来源";

pub const RESET_NOT_REGISTERED: &'static str = "您还没有注册，无法使用该命令。";

pub const PASSWORD_RESET: &'static str = "密码重置成功，现在密码为空。";

pub const RESET_FAILED_PREFIX: &'static str = "密码重置失败。\n";

pub const RESET_FAILED_SUFFIX: &'static str = "\n请联系管理员。";

pub const CHOOSE_MEDIA_TYPE: &'static str = "请选择您要请求的媒体类型";

pub const INVALID_SOURCE: &'static str = "无效的数据来源，请重新选择。";

pub const ASK_MEDIA_ID_PREFIX: &'static str = "请输入您要从 ";

pub const ASK_MEDIA_ID_MIDDLE: &'static str = " 请求的 ";

pub const ASK_MEDIA_ID_SUFFIX: &'static str = " ID: ";

pub const INVALID_MEDIA_TYPE: &'static str = "无效的媒体类型，请重新选择。";

pub const MEDIA_ID_NOT_NUMERIC: &'static str = "媒体ID应为纯数字，请重新输入。";

pub const FETCHING: &'static str = "正在获取媒体信息...";

pub const UNKNOWN_MEDIA_TYPE: &'static str = "未知的媒体类型，请重新开始。";

pub const UNKNOWN_SOURCE: &'static str = "未知的数据源，请重新开始。";

pub const CARD_TITLE: &'static str = "您要请求的媒体信息：\n\n📺 标题：";

pub const CARD_LINK: &'static str = "\n🔗 链接：";

pub const CARD_SUMMARY: &'static str = "\n📝 简介：";

pub const CARD_QUESTION: &'static str = "\n\n请确认是否提交请求：";

pub const NO_SUMMARY: &'static str = "暂无简介";

pub const FETCH_FAILED_PREFIX: &'static str = "获取媒体信息失败：";

pub const FETCH_FAILED_SUFFIX: &'static str = "\n\n请检查媒体ID是否正确，或稍后重试。";

pub const INVALID_ID: &'static str = "无效的ID，ID应为纯数字，请重新输入。";

pub const ALREADY_REQUESTED: &'static str = "该媒体资源已经有人提交过请求了，请勿重复提交。";

pub const REQUEST_SUBMITTED: &'static str = "请求已提交成功！我们会尽快处理您的请求。";

pub const REQUEST_CANCELLED: &'static str = "请求已取消。请重新开始请求流程。";

pub const UNKNOWN_CHOICE: &'static str = "未知的选择，请重新开始请求流程。";

pub const OPERATION_CANCELLED: &'static str = "操作已取消。";

pub const NO_REQUESTS: &'static str = "当前没有任何媒体请求。";

pub const CAPTION_PREFIX: &'static str = "所有媒体请求列表 (共 ";

pub const CAPTION_SUFFIX: &'static str = " 条记录)";

pub const INVALID_COMMAND: &'static str = "无效的bot命令，请使用 /help 查看可用命令。";

pub const PROVISIONING_UNREACHABLE: &'static str = "请联系管理员。[Error: Emby API]";

pub const PROVISIONING_UNREADABLE: &'static str = "请联系管理员。[Error: Parsing JSON]";

pub const PROVISIONING_NO_TEXT: &'static str = "请联系管理员。[Error: res.text]";

pub const DIRECTORY_FAILURE: &'static str = "请联系管理员。[Error: Database]";

pub const STATUS_SUBMITTED: &'static str = "已提交";

pub const STATUS_ARCHIVED: &'static str = "已入库";

pub const STATUS_CANCELLED: &'static str = "已取消";

pub const STATUS_WITHDRAWN: &'static str = "被取消";

pub const STATUS_INVALID: &'static str = "不符合规范";

pub const STATUS_UNKNOWN: &'static str = "未知状态";

pub const REQUEST_NOT_FOUND: &'static str = "请求不存在";

pub const REQUEST_NOT_SUBMITTED: &'static str = "只能操作已提交状态的请求";

pub const STATUS_UPDATED_PREFIX: &'static str = "请求状态已更新为：";

pub const NOTICE_SOURCE: &'static str = "您的媒体请求状态已更新：\n\n📁 来源：";

pub const NOTICE_MEDIA_ID: &'static str = "\n🎬 媒体ID：";

pub const NOTICE_STATUS: &'static str = "\n📊 状态：";

pub const NOTICE_BREAK: &'static str = "\n\n";

pub const NOTICE_ARCHIVED: &'static str =
    "恭喜！您的请求已成功入库，现在可以在媒体库中找到相关内容。";

pub const NOTICE_INVALID: &'static str = "抱歉，您的请求不符合我们的规范要求，请检查后重新提交。";

pub const NOTICE_CANCELLED: &'static str = "您的请求已被取消。如有疑问，请联系管理员。";

pub const ARRIVAL_PREFIX: &'static str = "新剧集入库: ";

pub const ARRIVAL_YEAR_OPEN: &'static str = " (";

pub const ARRIVAL_YEAR_CLOSE: &'static str = ")\n";

pub const ARRIVAL_EPISODE_OPEN: &'static str = " - 第 ";

pub const ARRIVAL_EPISODE_CLOSE: &'static str = " 集 - ";

pub const BATCH_REQUEST: &'static str = "请求ID ";

pub const BATCH_UNSUPPORTED: &'static str = ": 不支持的媒体源: ";

pub const BATCH_SAVE_FAILED: &'static str = ": 保存失败: ";

pub const BATCH_FETCH_FAILED: &'static str = ": 刮削失败: ";

/// `prefix`, then `middle`, then `suffix`.
pub fn framed(prefix: &str, middle: &str, suffix: &str) -> (r: String)
    ensures
        r@ == prefix@ + middle@ + suffix@,
{
    let mut out = String::from_str(prefix);
    out.append(middle);
    out.append(suffix);
    out
}

/// The reply to a registration attempt by a registered user.
pub open spec fn already_registered_text(username: Seq<char>) -> Seq<char> {
    ALREADY_REGISTERED_PREFIX@ + username
}

pub fn already_registered(username: &str) -> (r: String)
    ensures
        r@ == already_registered_text(username@),
{
    let mut out = String::from_str(ALREADY_REGISTERED_PREFIX);
    out.append(username);
    out
}

/// The reply that tells an administrator the identifier of the chat.
pub open spec fn chat_id_text(chat_id: i64) -> Seq<char> {
    CHAT_ID_PREFIX@ + decimal(chat_id as int)
}

pub fn chat_id_reply(chat_id: i64) -> (r: String)
    ensures
        r@ == chat_id_text(chat_id),
{
    let mut out = String::from_str(CHAT_ID_PREFIX);
    let number = i64_to_string(chat_id);
    out.append(number.as_str());
    out
}

/// The reply to a failed registration, quoting the provider's words.
pub open spec fn registration_failed_text(reason: Seq<char>) -> Seq<char> {
    REGISTRATION_FAILED_PREFIX@ + reason + REGISTRATION_FAILED_SUFFIX@
}

/// The reply when the account was revoked but its record could not be removed.
pub open spec fn record_not_deleted_text(reason: Seq<char>) -> Seq<char> {
    RECORD_NOT_DELETED_PREFIX@ + reason + RECORD_NOT_DELETED_SUFFIX@
}

/// The reply when the account could not be revoked.
pub open spec fn deletion_failed_text(reason: Seq<char>) -> Seq<char> {
    DELETION_FAILED_PREFIX@ + reason + DELETION_FAILED_SUFFIX@
}

/// The reply to a failed password reset.
pub open spec fn reset_failed_text(reason: Seq<char>) -> Seq<char> {
    RESET_FAILED_PREFIX@ + reason + RESET_FAILED_SUFFIX@
}

/// The reply to a failed metadata lookup.
pub open spec fn fetch_failed_text(reason: Seq<char>) -> Seq<char> {
    FETCH_FAILED_PREFIX@ + reason + FETCH_FAILED_SUFFIX@
}

/// The prompt for the catalog item id.
pub open spec fn ask_media_id_text(data_source: Seq<char>, media_type: Seq<char>) -> Seq<char> {
    ASK_MEDIA_ID_PREFIX@ + data_source + ASK_MEDIA_ID_MIDDLE@ + media_type + ASK_MEDIA_ID_SUFFIX@
}

pub fn ask_media_id(data_source: &str, media_type: &str) -> (r: String)
    ensures
        r@ == ask_media_id_text(data_source@, media_type@),
{
    let mut out = String::from_str(ASK_MEDIA_ID_PREFIX);
    out.append(data_source);
    out.append(ASK_MEDIA_ID_MIDDLE);
    out.append(media_type);
    out.append(ASK_MEDIA_ID_SUFFIX);
    out
}

/// The confirmation card shown before a request is filed. An empty summary
/// is replaced by a placeholder.
pub open spec fn confirmation_card_text(title: Seq<char>, link: Seq<char>, summary: Seq<char>) -> Seq<
    char,
> {
    CARD_TITLE@ + title + CARD_LINK@ + link + CARD_SUMMARY@ + (if summary.len() == 0 {
        NO_SUMMARY@
    } else {
        summary
    }) + CARD_QUESTION@
}

pub fn confirmation_card(title: &str, link: &str, summary: &str) -> (r: String)
    ensures
        r@ == confirmation_card_text(title@, link@, summary@),
{
    let mut out = String::from_str(CARD_TITLE);
    out.append(title);
    out.append(CARD_LINK);
    out.append(link);
    out.append(CARD_SUMMARY);
    if summary.is_empty() {
        out.append(NO_SUMMARY);
    } else {
        out.append(summary);
    }
    out.append(CARD_QUESTION);
    out
}

/// The caption of the exported request list.
pub open spec fn caption_text(count: nat) -> Seq<char> {
    CAPTION_PREFIX@ + decimal(count as int) + CAPTION_SUFFIX@
}

pub fn caption(count: usize) -> (r: String)
    ensures
        r@ == caption_text(count as nat),
{
    let number = u64_to_string(count as u64);
    framed(CAPTION_PREFIX, number.as_str(), CAPTION_SUFFIX)
}

} // verus!
