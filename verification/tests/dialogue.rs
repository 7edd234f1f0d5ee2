use chrono::Timelike;
use nyamedia_bot::auth::{check_registered, get_emby_id, register, UserDirectory};
use nyamedia_bot::bot::account::{
    delete_user_confirm, delete_user_decided, delete_user_revoked, delete_user_start,
    password_reset, password_reset_done, register_start, register_username,
    register_username_provisioned,
};
use nyamedia_bot::bot::admin::{chat_id, export, is_admin, request_list_at};
use nyamedia_bot::bot::request::{
    actual_source, api_params, handle_request_confirmation, handle_request_confirmation_at,
    request_committed_at, request_confirmation, request_confirmation_fetched, request_media_id,
    request_media_type, request_start,
};
use nyamedia_bot::bot::{
    answer, cancel, check_in, check_in_at, check_out, help, invalid_state, listed, schema, Button,
    ChatKind, Command, Content, DialogueStore, Effect, Handler, Keyboard, Sender, State, Turn,
    UpdateKind,
};
use nyamedia_bot::ledger::RequestLedger;
use nyamedia_bot::models::{MediaRequest, TelegramUser};
use nyamedia_bot::scraper::MediaInfo;

fn send(text: &str) -> Effect {
    Effect::Send { text: text.to_string() }
}

fn transient(text: &str) -> Effect {
    Effect::SendTransient { text: text.to_string() }
}

fn text(s: &str) -> Content {
    Content::Text(s.to_string())
}

fn user(id: i32, telegram_id: i64, name: &str, admin: bool, emby: Option<&str>) -> TelegramUser {
    TelegramUser {
        id,
        telegram_id,
        username: name.to_string(),
        admin,
        emby_user_id: emby.map(|e| e.to_string()),
    }
}

fn directory_with_bob() -> UserDirectory {
    UserDirectory::from_rows(vec![
        user(1, 100, "bob", false, Some("42")),
        user(2, 200, "root", true, Some("1")),
    ])
    .unwrap()
}

fn waiting_id() -> State {
    State::WaitingRequestMediaID {
        data_source: "TMDB".to_string(),
        media_type: "电视剧".to_string(),
    }
}

fn waiting_confirmation() -> State {
    State::WaitingRequestConfirmation {
        data_source: "TMDB".to_string(),
        media_type: "电视剧".to_string(),
        media_id: "12345".to_string(),
    }
}

fn found() -> Result<MediaInfo, String> {
    Ok(MediaInfo {
        title: "示例剧集".to_string(),
        summary: "一部示例".to_string(),
        poster: "https://image.tmdb.org/t/p/w500/p.jpg".to_string(),
    })
}

#[test]
fn a_conversation_starts_idle() {
    assert_eq!(State::default(), State::Start);
    let store = DialogueStore::new();
    assert_eq!(store.get(7), State::Start);
}

#[test]
fn conversations_are_kept_by_chat() {
    let mut store = DialogueStore::new();
    store.update(1, State::WaitingRegistrationUsername);
    store.update(2, waiting_id());
    assert_eq!(store.get(1), State::WaitingRegistrationUsername);
    assert_eq!(store.get(2), waiting_id());
    assert_eq!(store.get(3), State::Start);
    store.update(1, State::Start);
    assert_eq!(store.get(1), State::Start);
    assert_eq!(store.get(2), waiting_id());
    store.update(2, waiting_confirmation());
    assert_eq!(store.get(2), waiting_confirmation());
}

#[test]
fn commands_are_routed_whatever_the_state() {
    let table = [
        (Command::Help, Handler::Help),
        (Command::CheckIn, Handler::CheckIn),
        (Command::CheckOut, Handler::CheckOut),
        (Command::ChatID, Handler::ChatId),
        (Command::Register, Handler::RegisterStart),
        (Command::PasswordReset, Handler::PasswordReset),
        (Command::Request, Handler::RequestStart),
        (Command::DeleteUser, Handler::DeleteUserStart),
        (Command::Cancel, Handler::Cancel),
        (Command::RequestList, Handler::RequestList),
    ];
    for state in [State::Start, State::WaitingRegistrationUsername, waiting_id()] {
        for (command, handler) in table {
            assert_eq!(schema(UpdateKind::Message(Some(command)), &state), handler);
        }
    }
}

#[test]
fn messages_are_routed_by_state() {
    let plain = UpdateKind::Message(None);
    assert_eq!(schema(plain, &State::Start), Handler::InvalidState);
    assert_eq!(schema(plain, &State::WaitingRegistrationUsername), Handler::RegisterUsername);
    assert_eq!(schema(plain, &waiting_id()), Handler::RequestConfirmation);
    assert_eq!(schema(plain, &State::WaitingDeleteConfirmation), Handler::DeleteUserConfirm);
    assert_eq!(schema(plain, &State::WaitingRequestDatasource), Handler::InvalidState);
    assert_eq!(schema(plain, &waiting_confirmation()), Handler::InvalidState);
    // the start command has no handler of its own
    let start = UpdateKind::Message(Some(Command::Start));
    assert_eq!(schema(start, &State::Start), Handler::InvalidState);
    assert_eq!(schema(start, &State::WaitingRegistrationUsername), Handler::RegisterUsername);
}

#[test]
fn button_presses_are_routed_by_state() {
    let press = UpdateKind::CallbackQuery;
    assert_eq!(schema(press, &State::WaitingRequestDatasource), Handler::RequestMediaType);
    assert_eq!(
        schema(press, &State::WaitingRequestMediaType { data_source: "TMDB".to_string() }),
        Handler::RequestMediaId
    );
    assert_eq!(schema(press, &waiting_confirmation()), Handler::HandleRequestConfirmation);
    assert_eq!(schema(press, &State::Start), Handler::Unhandled);
    assert_eq!(schema(press, &waiting_id()), Handler::Unhandled);
    assert_eq!(schema(press, &State::WaitingDeleteConfirmation), Handler::Unhandled);
}

#[test]
fn keyboards_have_their_buttons() {
    let button = |label: &str, data: &str| Button { label: label.to_string(), data: data.to_string() };
    assert_eq!(
        Keyboard::DataSources.rows(),
        vec![vec![button("TMDB", "TMDB"), button("BGM.TV", "BGM.TV")]]
    );
    assert_eq!(
        Keyboard::MediaTypes.rows(),
        vec![vec![button("电影", "电影"), button("电视剧", "电视剧")]]
    );
    assert_eq!(
        Keyboard::Confirmation.rows(),
        vec![vec![button("确认", "confirm")], vec![button("取消", "cancel")]]
    );
}

#[test]
fn help_depends_on_the_chat_and_the_sender() {
    let muted = vec![5, 6];
    assert!(listed(&muted, 6));
    assert!(!listed(&muted, 7));
    assert_eq!(
        help(ChatKind::Private, Sender::User(5), &muted),
        vec![send(
            "可用命令：\n/help - 显示此帮助\n/register - 注册新用户\n/passwordreset - 将密码重置为空\n/request - 请求新媒体资源"
        )]
    );
    assert_eq!(
        help(ChatKind::Public, Sender::User(5), &muted),
        vec![send("抱歉，您没有权限使用这个命令。")]
    );
    assert_eq!(help(ChatKind::Public, Sender::User(7), &muted), vec![transient("请查看群简介。")]);
    assert_eq!(help(ChatKind::Public, Sender::Anonymous, &muted), vec![]);
    assert_eq!(
        help(ChatKind::Public, Sender::Unknown, &muted),
        vec![send("未知错误，请联系管理员。[Command::Help]")]
    );
}

#[test]
fn the_group_assistant_answers_alike_in_every_chat() {
    let muted = vec![5];
    assert_eq!(answer(Sender::User(5), &muted), vec![send("抱歉，您没有权限使用这个命令。")]);
    assert_eq!(answer(Sender::User(7), &muted), vec![transient("请查看群简介。")]);
    assert_eq!(answer(Sender::Anonymous, &muted), vec![]);
    assert_eq!(answer(Sender::Unknown, &muted), vec![send("未知错误，请联系管理员。")]);
}

#[test]
fn check_in_turns_muted_users_away() {
    let muted = vec![5];
    let early = "抱歉，您不是我们的常旅客会员，我们无法在当地时间16:00之前为您办理登记入住。";
    let full = "抱歉，本酒店今日房满。";
    assert_eq!(check_in_at(ChatKind::Public, Sender::User(5), &muted, 0), vec![transient(early)]);
    assert_eq!(check_in_at(ChatKind::Public, Sender::User(5), &muted, 15), vec![transient(early)]);
    assert_eq!(check_in_at(ChatKind::Public, Sender::User(5), &muted, 16), vec![transient(full)]);
    assert_eq!(check_in_at(ChatKind::Public, Sender::User(5), &muted, 23), vec![transient(full)]);
    assert_eq!(
        check_in_at(ChatKind::Public, Sender::User(9), &muted, 3),
        vec![Effect::DeleteTrigger { delay_secs: 0 }]
    );
    assert_eq!(check_in_at(ChatKind::Public, Sender::Anonymous, &muted, 3), vec![]);
    assert_eq!(
        check_in_at(ChatKind::Public, Sender::Unknown, &muted, 3),
        vec![send("未知错误，请联系管理员。[Command::CheckIn]")]
    );
    assert_eq!(
        check_in_at(ChatKind::Private, Sender::User(5), &muted, 3),
        vec![transient("本站无需每日签到。")]
    );
}

#[test]
fn check_in_reads_the_front_desk_clock() {
    let muted = vec![5];
    let before = chrono::Utc::now().with_timezone(&chrono::FixedOffset::west_opt(18_000).unwrap());
    let effects = check_in(ChatKind::Public, Sender::User(5), &muted);
    let after = chrono::Utc::now().with_timezone(&chrono::FixedOffset::west_opt(18_000).unwrap());
    let early = check_in_at(ChatKind::Public, Sender::User(5), &muted, 0);
    let late = check_in_at(ChatKind::Public, Sender::User(5), &muted, 23);
    if before.hour() < 16 && after.hour() < 16 {
        assert_eq!(effects, early);
    } else if before.hour() >= 16 && after.hour() >= 16 {
        assert_eq!(effects, late);
    } else {
        assert!(effects == early || effects == late);
    }
}

#[test]
fn check_out_removes_the_command_after_a_delay() {
    assert_eq!(check_out(), vec![Effect::DeleteTrigger { delay_secs: 5 }]);
}

#[test]
fn cancel_returns_to_idle() {
    assert_eq!(cancel(), Turn { state: State::Start, effects: vec![send("操作已取消。")] });
}

#[test]
fn stray_messages_are_answered_in_private_only() {
    assert_eq!(
        invalid_state(ChatKind::Private),
        vec![send("无效的bot命令，请使用 /help 查看可用命令。")]
    );
    assert_eq!(invalid_state(ChatKind::Public), vec![]);
}

#[test]
fn the_chat_id_is_for_administrators() {
    let directory = directory_with_bob();
    assert!(is_admin(&directory, 200));
    assert!(!is_admin(&directory, 100));
    assert!(!is_admin(&directory, 300));
    assert!(!is_admin(&directory, u64::MAX));
    assert_eq!(chat_id(Sender::User(200), &directory, -1001234), vec![send("Chat ID: -1001234")]);
    assert_eq!(
        chat_id(Sender::User(100), &directory, 100),
        vec![transient("抱歉，您没有权限使用这个命令。")]
    );
    assert_eq!(chat_id(Sender::Anonymous, &directory, 100), vec![]);
    assert_eq!(
        chat_id(Sender::Unknown, &directory, 100),
        vec![send("未知错误，请联系管理员。[Command::ChatId]")]
    );
}

#[test]
fn registration_is_refused_in_groups() {
    let directory = UserDirectory::new();
    assert_eq!(
        register_start(ChatKind::Public, -5, &directory, State::Start),
        Turn { state: State::Start, effects: vec![transient("请在私聊中使用此命令。")] }
    );
    // the state the conversation is in is left alone
    assert_eq!(
        register_start(ChatKind::Public, -5, &directory, waiting_id()),
        Turn { state: waiting_id(), effects: vec![transient("请在私聊中使用此命令。")] }
    );
}

#[test]
fn a_registered_user_is_told_the_name() {
    let directory = directory_with_bob();
    assert_eq!(
        register_start(ChatKind::Private, 100, &directory, State::Start),
        Turn { state: State::Start, effects: vec![send("您已经注册过了。用户名：bob")] }
    );
}

#[test]
fn registration_walks_from_command_to_record() {
    // the user sends /register, then bob; provisioning answers with account 42
    let mut directory = UserDirectory::new();
    let mut store = DialogueStore::new();
    let chat = 100;

    assert_eq!(
        schema(UpdateKind::Message(Some(Command::Register)), &store.get(chat)),
        Handler::RegisterStart
    );
    let turn = register_start(ChatKind::Private, chat, &directory, store.get(chat));
    assert_eq!(turn.effects, vec![send("请输入您的用户名：")]);
    store.update(chat, turn.state);
    assert_eq!(store.get(chat), State::WaitingRegistrationUsername);

    assert_eq!(schema(UpdateKind::Message(None), &store.get(chat)), Handler::RegisterUsername);
    let turn = register_username(&text("bob"));
    assert_eq!(turn.state, State::WaitingRegistrationUsername);
    assert_eq!(turn.effects, vec![Effect::Provision { username: "bob".to_string() }]);

    let turn =
        register_username_provisioned(&mut directory, chat, "bob".to_string(), Ok("42".to_string()));
    assert_eq!(turn.effects, vec![send("注册成功。默认密码为空，请登录后自行修改。")]);
    store.update(chat, turn.state);
    assert_eq!(store.get(chat), State::Start);

    let row = directory.user(chat).unwrap();
    assert_eq!(row.username, "bob");
    assert_eq!(row.emby_user_id, Some("42".to_string()));
    assert_eq!(row.telegram_id, chat);
    assert!(!row.admin);
    assert_eq!(directory.rows().len(), 1);
}

#[test]
fn a_name_with_the_command_prefix_is_asked_for_again() {
    for name in ["/bob", "/", "/register now"] {
        assert_eq!(
            register_username(&text(name)),
            Turn {
                state: State::WaitingRegistrationUsername,
                effects: vec![send("用户名不能以 / 开头，请重新输入。")],
            }
        );
    }
    // a slash elsewhere is fine
    assert_eq!(
        register_username(&text("b/ob")).effects,
        vec![Effect::Provision { username: "b/ob".to_string() }]
    );
    assert_eq!(
        register_username(&Content::NonText),
        Turn {
            state: State::WaitingRegistrationUsername,
            effects: vec![send("无效的用户名，请重新输入。")],
        }
    );
    assert_eq!(
        register_username(&Content::Other),
        Turn { state: State::WaitingRegistrationUsername, effects: vec![] }
    );
}

#[test]
fn failed_provisioning_ends_registration_without_a_record() {
    let mut directory = UserDirectory::new();
    let turn = register_username_provisioned(
        &mut directory,
        100,
        "bob".to_string(),
        Err("name taken".to_string()),
    );
    assert_eq!(
        turn,
        Turn {
            state: State::Start,
            effects: vec![send("注册失败。\nname taken\n请重新使用 /register 开始注册流程。")],
        }
    );
    assert!(!check_registered(&directory, 100));
}

#[test]
fn a_second_registration_of_a_chat_is_not_recorded() {
    let mut directory = directory_with_bob();
    let turn = register_username_provisioned(
        &mut directory,
        100,
        "robert".to_string(),
        Ok("77".to_string()),
    );
    assert_eq!(turn.state, State::Start);
    assert_eq!(
        turn.effects,
        vec![send(
            "注册失败。\n请联系管理员。[Error: Database]\n请重新使用 /register 开始注册流程。"
        )]
    );
    assert_eq!(get_emby_id(&directory, 100), "42");
    assert_eq!(directory.rows().len(), 2);
}

#[test]
fn deletion_asks_for_confirmation_first() {
    let directory = directory_with_bob();
    assert_eq!(
        delete_user_start(ChatKind::Public, 100, &directory, State::Start),
        Turn { state: State::Start, effects: vec![transient("请在私聊中使用此命令。")] }
    );
    assert_eq!(
        delete_user_start(ChatKind::Private, 300, &directory, State::Start),
        Turn { state: State::Start, effects: vec![send("您还没有注册，无法删除账户。")] }
    );
    assert_eq!(
        delete_user_start(ChatKind::Private, 100, &directory, State::Start),
        Turn {
            state: State::WaitingDeleteConfirmation,
            effects: vec![send(
                "⚠️ 警告：此操作将永久删除您的账户，所有数据将被清除且无法恢复。\n\n如果您确定要删除账户，请回复 \"confirm\" 确认。回复其他任何内容将取消此操作。"
            )],
        }
    );
}

#[test]
fn only_the_confirmation_word_revokes() {
    let directory = directory_with_bob();
    for word in ["confirm", "CONFIRM", "Confirm", "cOnFiRm"] {
        assert_eq!(
            delete_user_confirm(&text(word), 100, &directory),
            Turn {
                state: State::WaitingDeleteConfirmation,
                effects: vec![Effect::Revoke { emby_user_id: "42".to_string() }],
            }
        );
    }
    for word in ["confirm ", " confirm", "yes", "", "confirmed", "conﬁrm"] {
        assert_eq!(
            delete_user_confirm(&text(word), 100, &directory),
            Turn { state: State::Start, effects: vec![send("操作已取消。您的账户未被删除。")] }
        );
    }
    assert_eq!(
        delete_user_confirm(&Content::NonText, 100, &directory),
        Turn { state: State::Start, effects: vec![send("无效的输入，操作已取消。")] }
    );
    assert_eq!(
        delete_user_confirm(&Content::Other, 100, &directory),
        Turn { state: State::WaitingDeleteConfirmation, effects: vec![] }
    );
}

#[test]
fn the_decision_is_taken_on_the_lowered_text() {
    assert_eq!(
        delete_user_decided(&text("anything"), "confirm", "9".to_string()).effects,
        vec![Effect::Revoke { emby_user_id: "9".to_string() }]
    );
    assert_eq!(
        delete_user_decided(&text("confirm"), "CONFIRM", "9".to_string()).effects,
        vec![send("操作已取消。您的账户未被删除。")]
    );
}

#[test]
fn a_failed_revocation_keeps_the_registration() {
    let mut directory = directory_with_bob();
    let before = directory.rows();
    let turn = delete_user_revoked(&mut directory, 100, Err("server down".to_string()));
    assert_eq!(
        turn,
        Turn { state: State::Start, effects: vec![send("删除失败: server down。请联系管理员。")] }
    );
    assert_eq!(directory.rows(), before);
    assert!(check_registered(&directory, 100));
    assert_eq!(get_emby_id(&directory, 100), "42");
}

#[test]
fn a_successful_revocation_removes_the_registration() {
    let mut directory = directory_with_bob();
    let turn = delete_user_revoked(&mut directory, 100, Ok(()));
    assert_eq!(turn, Turn { state: State::Start, effects: vec![send("您的账户已成功删除。")] });
    assert!(!check_registered(&directory, 100));
    assert!(check_registered(&directory, 200));
    // the account is gone and the record was gone already
    let turn = delete_user_revoked(&mut directory, 100, Ok(()));
    assert_eq!(
        turn.effects,
        vec![send("数据库删除失败: the chat is not registered。但您的Emby账户已删除。")]
    );
    assert_eq!(turn.state, State::Start);
}

#[test]
fn password_reset_needs_a_registration() {
    let directory = directory_with_bob();
    assert_eq!(
        password_reset(ChatKind::Public, 100, &directory),
        vec![transient("请在私聊中使用此命令。")]
    );
    assert_eq!(
        password_reset(ChatKind::Private, 300, &directory),
        vec![send("您还没有注册，无法使用该命令。")]
    );
    assert_eq!(
        password_reset(ChatKind::Private, 100, &directory),
        vec![Effect::ResetPassword { emby_user_id: "42".to_string() }]
    );
    assert_eq!(password_reset_done(Ok(())), vec![send("密码重置成功，现在密码为空。")]);
    assert_eq!(
        password_reset_done(Err("nope".to_string())),
        vec![send("密码重置失败。\nnope\n请联系管理员。")]
    );
}

#[test]
fn a_request_begins_with_the_catalogs() {
    assert_eq!(
        request_start(ChatKind::Public, State::Start),
        Turn { state: State::Start, effects: vec![transient("请在私聊中使用此命令。")] }
    );
    assert_eq!(
        request_start(ChatKind::Private, State::Start),
        Turn {
            state: State::WaitingRequestDatasource,
            effects: vec![Effect::SendChoices {
                text: "请选择您的数据来源".to_string(),
                keyboard: Keyboard::DataSources,
            }],
        }
    );
}

#[test]
fn the_catalog_must_be_one_of_the_two() {
    for source in ["TMDB", "BGM.TV"] {
        assert_eq!(
            request_media_type(&Some(source.to_string())),
            Turn {
                state: State::WaitingRequestMediaType { data_source: source.to_string() },
                effects: vec![Effect::SendChoices {
                    text: "请选择您要请求的媒体类型".to_string(),
                    keyboard: Keyboard::MediaTypes,
                }],
            }
        );
    }
    for source in ["tmdb", "IMDB", ""] {
        assert_eq!(
            request_media_type(&Some(source.to_string())),
            Turn {
                state: State::WaitingRequestDatasource,
                effects: vec![Effect::SendRetracted {
                    text: "无效的数据来源，请重新选择。".to_string()
                }],
            }
        );
    }
    assert_eq!(
        request_media_type(&None),
        Turn { state: State::WaitingRequestDatasource, effects: vec![] }
    );
}

#[test]
fn the_media_kind_must_be_one_of_the_two() {
    assert_eq!(
        request_media_id("TMDB".to_string(), &Some("电视剧".to_string())),
        Turn { state: waiting_id(), effects: vec![send("请输入您要从 TMDB 请求的 电视剧 ID: ")] }
    );
    assert_eq!(
        request_media_id("BGM.TV".to_string(), &Some("电影".to_string())),
        Turn {
            state: State::WaitingRequestMediaID {
                data_source: "BGM.TV".to_string(),
                media_type: "电影".to_string(),
            },
            effects: vec![send("请输入您要从 BGM.TV 请求的 电影 ID: ")],
        }
    );
    assert_eq!(
        request_media_id("TMDB".to_string(), &Some("tv".to_string())),
        Turn {
            state: State::WaitingRequestMediaType { data_source: "TMDB".to_string() },
            effects: vec![send("无效的媒体类型，请重新选择。")],
        }
    );
    assert_eq!(
        request_media_id("TMDB".to_string(), &None),
        Turn {
            state: State::WaitingRequestMediaType { data_source: "TMDB".to_string() },
            effects: vec![],
        }
    );
}

#[test]
fn lookups_go_to_the_provider_of_the_choices() {
    assert_eq!(api_params("TMDB", "电影"), Ok(("tmdb", "movie")));
    assert_eq!(api_params("TMDB", "电视剧"), Ok(("tmdb", "tv")));
    assert_eq!(api_params("TMDB", "综艺"), Err("未知的媒体类型，请重新开始。"));
    assert_eq!(api_params("BGM.TV", "电影"), Ok(("bgm", "subject")));
    assert_eq!(api_params("BGM.TV", "anything"), Ok(("bgm", "subject")));
    assert_eq!(api_params("IMDB", "电影"), Err("未知的数据源，请重新开始。"));
}

#[test]
fn an_item_id_with_a_non_digit_is_refused_in_place() {
    for id in ["12a45", "12 45", "-1", "1.5", "１２３", " 123"] {
        assert_eq!(
            request_confirmation(&text(id), "TMDB".to_string(), "电视剧".to_string()),
            Turn { state: waiting_id(), effects: vec![send("媒体ID应为纯数字，请重新输入。")] }
        );
    }
    assert_eq!(
        request_confirmation(&Content::NonText, "TMDB".to_string(), "电视剧".to_string()),
        Turn { state: waiting_id(), effects: vec![send("无效的ID，ID应为纯数字，请重新输入。")] }
    );
    assert_eq!(
        request_confirmation(&Content::Other, "TMDB".to_string(), "电视剧".to_string()),
        Turn { state: waiting_id(), effects: vec![] }
    );
}

#[test]
fn a_numeric_item_id_starts_the_lookup() {
    assert_eq!(
        request_confirmation(&text("12345"), "TMDB".to_string(), "电视剧".to_string()),
        Turn {
            state: waiting_id(),
            effects: vec![
                Effect::Progress { text: "正在获取媒体信息...".to_string() },
                Effect::Fetch {
                    source: "tmdb".to_string(),
                    media_type: "tv".to_string(),
                    media_id: "12345".to_string(),
                },
            ],
        }
    );
    let bgm = request_confirmation(&text("007"), "BGM.TV".to_string(), "电影".to_string());
    assert_eq!(
        bgm.effects[1],
        Effect::Fetch {
            source: "bgm".to_string(),
            media_type: "subject".to_string(),
            media_id: "007".to_string(),
        }
    );
    let odd = request_confirmation(&text("1"), "TMDB".to_string(), "综艺".to_string());
    assert_eq!(
        odd.effects,
        vec![
            Effect::Progress { text: "正在获取媒体信息...".to_string() },
            Effect::ReplaceProgress { text: "未知的媒体类型，请重新开始。".to_string() },
        ]
    );
    let lost = request_confirmation(&text("1"), "IMDB".to_string(), "电影".to_string());
    assert_eq!(
        lost.effects[1],
        Effect::ReplaceProgress { text: "未知的数据源，请重新开始。".to_string() }
    );
    assert_eq!(
        lost.state,
        State::WaitingRequestMediaID {
            data_source: "IMDB".to_string(),
            media_type: "电影".to_string()
        }
    );
}

#[test]
fn what_was_found_is_shown_for_confirmation() {
    let turn = request_confirmation_fetched(
        "TMDB".to_string(),
        "电视剧".to_string(),
        "12345".to_string(),
        &found(),
    );
    assert_eq!(turn.state, waiting_confirmation());
    assert_eq!(
        turn.effects,
        vec![
            Effect::RemoveProgress,
            Effect::SendChoices {
                text: "您要请求的媒体信息：\n\n📺 标题：示例剧集\n🔗 链接：https://www.themoviedb.org/tv/12345\n📝 简介：一部示例\n\n请确认是否提交请求：".to_string(),
                keyboard: Keyboard::Confirmation,
            },
        ]
    );
}

#[test]
fn the_card_links_to_the_catalog_page() {
    let bare =
        Ok(MediaInfo { title: "T".to_string(), summary: String::new(), poster: String::new() });
    let movie =
        request_confirmation_fetched("TMDB".to_string(), "电影".to_string(), "9".to_string(), &bare);
    assert_eq!(
        movie.effects[1],
        Effect::SendChoices {
            text: "您要请求的媒体信息：\n\n📺 标题：T\n🔗 链接：https://www.themoviedb.org/movie/9\n📝 简介：暂无简介\n\n请确认是否提交请求：".to_string(),
            keyboard: Keyboard::Confirmation,
        }
    );
    let subject = request_confirmation_fetched(
        "BGM.TV".to_string(),
        "电视剧".to_string(),
        "9".to_string(),
        &bare,
    );
    assert_eq!(
        subject.effects[1],
        Effect::SendChoices {
            text: "您要请求的媒体信息：\n\n📺 标题：T\n🔗 链接：https://bgm.tv/subject/9\n📝 简介：暂无简介\n\n请确认是否提交请求：".to_string(),
            keyboard: Keyboard::Confirmation,
        }
    );
}

#[test]
fn a_failed_lookup_ends_the_request() {
    let turn = request_confirmation_fetched(
        "TMDB".to_string(),
        "电视剧".to_string(),
        "12345".to_string(),
        &Err("TMDB API returned status: 404 Not Found".to_string()),
    );
    assert_eq!(
        turn,
        Turn {
            state: State::Start,
            effects: vec![Effect::ReplaceProgress {
                text: "获取媒体信息失败：TMDB API returned status: 404 Not Found\n\n请检查媒体ID是否正确，或稍后重试。".to_string(),
            }],
        }
    );
}

#[test]
fn requests_are_stored_under_the_split_source_tag() {
    assert_eq!(actual_source("TMDB", "电影"), "TMDB/MV");
    assert_eq!(actual_source("TMDB", "电视剧"), "TMDB/TV");
    assert_eq!(actual_source("TMDB", "综艺"), "TMDB");
    assert_eq!(actual_source("BGM.TV", "电影"), "BGM.TV");
    assert_eq!(actual_source("other", "电视剧"), "other");
}

#[test]
fn a_request_walks_from_command_to_record() {
    // /request, TMDB, 电视剧, 12345, confirm; then confirm again for the same item
    let mut ledger = RequestLedger::new();
    let mut store = DialogueStore::new();
    let chat = 100;

    let turn = request_start(ChatKind::Private, store.get(chat));
    store.update(chat, turn.state);
    assert_eq!(schema(UpdateKind::CallbackQuery, &store.get(chat)), Handler::RequestMediaType);

    let turn = request_media_type(&Some("TMDB".to_string()));
    store.update(chat, turn.state);
    assert_eq!(schema(UpdateKind::CallbackQuery, &store.get(chat)), Handler::RequestMediaId);

    let turn = request_media_id("TMDB".to_string(), &Some("电视剧".to_string()));
    store.update(chat, turn.state);
    assert_eq!(store.get(chat), waiting_id());
    assert_eq!(schema(UpdateKind::Message(None), &store.get(chat)), Handler::RequestConfirmation);

    let turn = request_confirmation(&text("12345"), "TMDB".to_string(), "电视剧".to_string());
    assert_eq!(turn.state, waiting_id());
    let turn = request_confirmation_fetched(
        "TMDB".to_string(),
        "电视剧".to_string(),
        "12345".to_string(),
        &found(),
    );
    store.update(chat, turn.state);
    assert_eq!(store.get(chat), waiting_confirmation());
    assert_eq!(
        schema(UpdateKind::CallbackQuery, &store.get(chat)),
        Handler::HandleRequestConfirmation
    );

    let commit = handle_request_confirmation_at(
        &mut ledger,
        chat,
        &Some("confirm".to_string()),
        "TMDB".to_string(),
        "电视剧".to_string(),
        "12345".to_string(),
        "2024-03-03 08:00:00",
    );
    assert_eq!(commit.request_id, Some(1));
    assert_eq!(commit.turn.state, waiting_confirmation());
    assert_eq!(
        commit.turn.effects,
        vec![Effect::Fetch {
            source: "tmdb".to_string(),
            media_type: "tv".to_string(),
            media_id: "12345".to_string(),
        }]
    );
    let turn = request_committed_at(&mut ledger, 1, &found(), "2024-03-03 08:00:01");
    assert_eq!(
        turn,
        Turn {
            state: State::Start,
            effects: vec![send("请求已提交成功！我们会尽快处理您的请求。")],
        }
    );
    store.update(chat, turn.state);
    assert_eq!(store.get(chat), State::Start);

    assert_eq!(
        ledger.requests(),
        vec![MediaRequest {
            id: 1,
            source: "TMDB/TV".to_string(),
            media_id: "12345".to_string(),
            request_user: chat,
            status: 0,
            created_at: "2024-03-03 08:00:00".to_string(),
            updated_at: "2024-03-03 08:00:00".to_string(),
        }]
    );
    let media = ledger.media_of(1).unwrap();
    assert_eq!(media.title, "示例剧集");
    assert_eq!(media.summary, Some("一部示例".to_string()));
    assert_eq!(media.poster, Some("https://image.tmdb.org/t/p/w500/p.jpg".to_string()));

    // another user confirms the same item
    let again = handle_request_confirmation_at(
        &mut ledger,
        200,
        &Some("confirm".to_string()),
        "TMDB".to_string(),
        "电视剧".to_string(),
        "12345".to_string(),
        "2024-03-04 08:00:00",
    );
    assert_eq!(again.request_id, None);
    assert_eq!(
        again.turn,
        Turn {
            state: State::Start,
            effects: vec![send("该媒体资源已经有人提交过请求了，请勿重复提交。")],
        }
    );
    assert_eq!(ledger.len(), 1);
}

#[test]
fn a_failed_lookup_after_filing_stores_no_metadata() {
    let mut ledger = RequestLedger::new();
    let commit = handle_request_confirmation_at(
        &mut ledger,
        5,
        &Some("confirm".to_string()),
        "BGM.TV".to_string(),
        "电影".to_string(),
        "8".to_string(),
        "t",
    );
    assert_eq!(commit.request_id, Some(1));
    assert_eq!(
        commit.turn.effects,
        vec![Effect::Fetch {
            source: "bgm".to_string(),
            media_type: "subject".to_string(),
            media_id: "8".to_string(),
        }]
    );
    let turn = request_committed_at(&mut ledger, 1, &Err("down".to_string()), "t");
    assert_eq!(turn.state, State::Start);
    assert_eq!(turn.effects, vec![send("请求已提交成功！我们会尽快处理您的请求。")]);
    assert_eq!(ledger.media_of(1), None);
    assert_eq!(ledger.requests()[0].source, "BGM.TV");
}

#[test]
fn cancelling_on_the_card_files_nothing() {
    let mut ledger = RequestLedger::new();
    let press = |ledger: &mut RequestLedger, data: Option<&str>| {
        handle_request_confirmation_at(
            ledger,
            5,
            &data.map(|d| d.to_string()),
            "TMDB".to_string(),
            "电视剧".to_string(),
            "12345".to_string(),
            "t",
        )
    };
    let cancelled = press(&mut ledger, Some("cancel"));
    assert_eq!(
        cancelled.turn,
        Turn { state: State::Start, effects: vec![send("请求已取消。请重新开始请求流程。")] }
    );
    assert_eq!(cancelled.request_id, None);
    let odd = press(&mut ledger, Some("maybe"));
    assert_eq!(
        odd.turn,
        Turn { state: State::Start, effects: vec![send("未知的选择，请重新开始请求流程。")] }
    );
    let empty = press(&mut ledger, None);
    assert_eq!(empty.turn, Turn { state: waiting_confirmation(), effects: vec![] });
    assert_eq!(ledger.len(), 0);
}

#[test]
fn a_confirmation_is_stamped_by_the_clock() {
    let mut ledger = RequestLedger::new();
    let commit = handle_request_confirmation(
        &mut ledger,
        5,
        &Some("confirm".to_string()),
        "TMDB".to_string(),
        "电影".to_string(),
        "1".to_string(),
    );
    assert_eq!(commit.request_id, Some(1));
    let row = &ledger.requests()[0];
    assert_eq!(row.source, "TMDB/MV");
    let stamp: Vec<char> = row.created_at.chars().collect();
    assert_eq!(stamp.len(), 19);
    for (i, c) in stamp.iter().enumerate() {
        match i {
            4 | 7 => assert_eq!(*c, '-'),
            10 => assert_eq!(*c, ' '),
            13 | 16 => assert_eq!(*c, ':'),
            _ => assert!(c.is_ascii_digit()),
        }
    }
    assert_eq!(row.created_at, row.updated_at);
}

#[test]
fn the_request_list_is_exported_for_administrators() {
    let directory = directory_with_bob();
    let rows = vec![
        MediaRequest {
            id: 1,
            source: "TMDB/TV".to_string(),
            media_id: "12345".to_string(),
            request_user: 100,
            status: 0,
            created_at: "2024-01-01 00:00:00".to_string(),
            updated_at: "2024-01-01 00:00:00".to_string(),
        },
        MediaRequest {
            id: 12,
            source: "BGM.TV".to_string(),
            media_id: "7".to_string(),
            request_user: -9,
            status: 2,
            created_at: "2024-01-02 00:00:00".to_string(),
            updated_at: "2024-01-03 00:00:00".to_string(),
        },
    ];
    let ledger = RequestLedger::from_rows(rows, vec![]).unwrap();
    assert_eq!(
        request_list_at(Sender::User(100), &directory, &ledger, "20240104_010203"),
        vec![send("抱歉，您没有权限使用这个命令。")]
    );
    assert_eq!(request_list_at(Sender::Anonymous, &directory, &ledger, "s"), vec![]);
    assert_eq!(request_list_at(Sender::Unknown, &directory, &ledger, "s"), vec![]);
    assert_eq!(
        request_list_at(Sender::User(200), &directory, &RequestLedger::new(), "s"),
        vec![send("当前没有任何媒体请求。")]
    );
    assert_eq!(
        request_list_at(Sender::User(200), &directory, &ledger, "20240104_010203"),
        vec![Effect::Document {
            file_name: "media_requests_20240104_010203.csv".to_string(),
            content: "ID,Source,Media ID,Request User,Status,Created At,Updated At\n1,TMDB/TV,12345,100,已提交,2024-01-01 00:00:00,2024-01-01 00:00:00\n12,BGM.TV,7,-9,被取消,2024-01-02 00:00:00,2024-01-03 00:00:00\n".to_string(),
            caption: "所有媒体请求列表 (共 2 条记录)".to_string(),
        }]
    );
}

#[test]
fn every_status_has_a_word_in_the_export() {
    let row = |id: i32, status: i32| MediaRequest {
        id,
        source: "s".to_string(),
        media_id: id.to_string(),
        request_user: 1,
        status,
        created_at: "c".to_string(),
        updated_at: "u".to_string(),
    };
    assert_eq!(
        export(&vec![row(1, 0), row(2, 1), row(3, 2), row(4, 3), row(5, 4)]),
        "ID,Source,Media ID,Request User,Status,Created At,Updated At\n1,s,1,1,已提交,c,u\n2,s,2,1,已入库,c,u\n3,s,3,1,被取消,c,u\n4,s,4,1,不符合规范,c,u\n5,s,5,1,未知状态,c,u\n"
    );
    assert_eq!(
        export(&vec![]),
        "ID,Source,Media ID,Request User,Status,Created At,Updated At\n"
    );
}

#[test]
fn registering_through_the_directory() {
    let mut directory = UserDirectory::new();
    assert_eq!(register(&mut directory, 1, "a".to_string(), "x".to_string()), Ok(()));
    assert_eq!(register(&mut directory, 2, "b".to_string(), "y".to_string()), Ok(()));
    assert_eq!(directory.rows()[1].id, 2);
}
