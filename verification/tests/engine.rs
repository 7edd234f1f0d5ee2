use nyamedia_bot::auth::{check_registered, UserDirectory};
use nyamedia_bot::bot::engine::{Clock, Engine, Incoming, Pressed};
use nyamedia_bot::bot::{ChatKind, Command, Content, Effect, Keyboard, Sender, State};
use nyamedia_bot::ledger::RequestLedger;
use nyamedia_bot::models::TelegramUser;
use nyamedia_bot::scraper::MediaInfo;

fn engine() -> Engine {
    let directory = UserDirectory::from_rows(vec![TelegramUser {
        id: 1,
        telegram_id: 900,
        username: "root".to_string(),
        admin: true,
        emby_user_id: Some("1".to_string()),
    }])
    .unwrap();
    Engine::new(directory, RequestLedger::new())
}

fn clock() -> Clock {
    Clock {
        hour: 9,
        row_stamp: "2024-03-03 08:00:00".to_string(),
        file_stamp: "20240303_080000".to_string(),
    }
}

fn private(chat_id: i64, text: &str, command: Option<Command>) -> Incoming {
    Incoming {
        chat: ChatKind::Private,
        chat_id,
        sender: Sender::User(chat_id as u64),
        content: Content::Text(text.to_string()),
        command,
    }
}

fn send(text: &str) -> Effect {
    Effect::Send { text: text.to_string() }
}

fn found() -> Result<MediaInfo, String> {
    Ok(MediaInfo { title: "示例剧集".to_string(), summary: String::new(), poster: String::new() })
}

#[test]
fn a_new_engine_is_idle() {
    let engine = engine();
    assert_eq!(engine.dialogues.get(1), State::Start);
    assert_eq!(engine.ledger.len(), 0);
    assert!(check_registered(&engine.directory, 900));
}

#[test]
fn registration_runs_through_the_engine() {
    let mut engine = engine();
    let muted = vec![];
    let chat = 100;
    assert_eq!(
        engine.on_message_at(&private(chat, "/register", Some(Command::Register)), &muted, &clock()),
        vec![send("请输入您的用户名：")]
    );
    assert_eq!(engine.dialogues.get(chat), State::WaitingRegistrationUsername);
    assert_eq!(
        engine.on_message_at(&private(chat, "bob", None), &muted, &clock()),
        vec![Effect::Provision { username: "bob".to_string() }]
    );
    assert_eq!(engine.dialogues.get(chat), State::WaitingRegistrationUsername);
    assert_eq!(
        engine.on_provisioned(chat, "bob".to_string(), Ok("42".to_string())),
        vec![send("注册成功。默认密码为空，请登录后自行修改。")]
    );
    assert_eq!(engine.dialogues.get(chat), State::Start);
    let row = engine.directory.user(chat).unwrap();
    assert_eq!((row.username.as_str(), row.emby_user_id), ("bob", Some("42".to_string())));
    // a second attempt is told the name
    assert_eq!(
        engine.on_message_at(&private(chat, "/register", Some(Command::Register)), &muted, &clock()),
        vec![send("您已经注册过了。用户名：bob")]
    );
    assert_eq!(engine.dialogues.get(chat), State::Start);
}

#[test]
fn a_request_runs_through_the_engine() {
    let mut engine = engine();
    let muted = vec![];
    let chat = 100;
    let now = "2024-03-03 08:00:00";
    engine.on_message_at(&private(chat, "/request", Some(Command::Request)), &muted, &clock());
    assert_eq!(engine.dialogues.get(chat), State::WaitingRequestDatasource);
    engine.on_callback_at(chat, &Some("TMDB".to_string()), now);
    engine.on_callback_at(chat, &Some("电视剧".to_string()), now);
    assert_eq!(
        engine.on_message_at(&private(chat, "12345", None), &muted, &clock()),
        vec![
            Effect::Progress { text: "正在获取媒体信息...".to_string() },
            Effect::Fetch {
                source: "tmdb".to_string(),
                media_type: "tv".to_string(),
                media_id: "12345".to_string(),
            },
        ]
    );
    assert_eq!(
        engine.on_fetched(chat, "12345".to_string(), &found()),
        vec![
            Effect::RemoveProgress,
            Effect::SendChoices {
                text: "您要请求的媒体信息：\n\n📺 标题：示例剧集\n🔗 链接：https://www.themoviedb.org/tv/12345\n📝 简介：暂无简介\n\n请确认是否提交请求：".to_string(),
                keyboard: Keyboard::Confirmation,
            },
        ]
    );
    let pressed = engine.on_callback_at(chat, &Some("confirm".to_string()), now);
    assert_eq!(
        pressed,
        Pressed {
            effects: vec![Effect::Fetch {
                source: "tmdb".to_string(),
                media_type: "tv".to_string(),
                media_id: "12345".to_string(),
            }],
            request_id: Some(1),
        }
    );
    assert_eq!(
        engine.on_filed_at(chat, 1, &found(), now),
        vec![send("请求已提交成功！我们会尽快处理您的请求。")]
    );
    assert_eq!(engine.dialogues.get(chat), State::Start);
    let rows = engine.ledger.requests();
    assert_eq!(rows.len(), 1);
    assert_eq!(
        (rows[0].source.as_str(), rows[0].media_id.as_str(), rows[0].status, rows[0].request_user),
        ("TMDB/TV", "12345", 0, chat)
    );
    assert_eq!(engine.ledger.media_of(1).unwrap().title, "示例剧集");

    // another chat walks the same way and is told that the item is taken
    let other = 200;
    engine.on_message_at(&private(other, "/request", Some(Command::Request)), &muted, &clock());
    engine.on_callback_at(other, &Some("TMDB".to_string()), now);
    engine.on_callback_at(other, &Some("电视剧".to_string()), now);
    engine.on_message_at(&private(other, "12345", None), &muted, &clock());
    engine.on_fetched(other, "12345".to_string(), &found());
    assert_eq!(
        engine.on_callback_at(other, &Some("confirm".to_string()), now),
        Pressed {
            effects: vec![send("该媒体资源已经有人提交过请求了，请勿重复提交。")],
            request_id: None,
        }
    );
    assert_eq!(engine.dialogues.get(other), State::Start);
    assert_eq!(engine.ledger.len(), 1);
}

#[test]
fn chats_do_not_interfere() {
    let mut engine = engine();
    let muted = vec![];
    engine.on_message_at(&private(1, "/register", Some(Command::Register)), &muted, &clock());
    engine.on_message_at(&private(2, "/request", Some(Command::Request)), &muted, &clock());
    engine.on_message_at(&private(900, "/deleteuser", Some(Command::DeleteUser)), &muted, &clock());
    assert_eq!(engine.dialogues.get(1), State::WaitingRegistrationUsername);
    assert_eq!(engine.dialogues.get(2), State::WaitingRequestDatasource);
    assert_eq!(engine.dialogues.get(900), State::WaitingDeleteConfirmation);
    engine.on_message_at(&private(2, "/cancel", Some(Command::Cancel)), &muted, &clock());
    assert_eq!(engine.dialogues.get(1), State::WaitingRegistrationUsername);
    assert_eq!(engine.dialogues.get(2), State::Start);
    assert_eq!(engine.dialogues.get(900), State::WaitingDeleteConfirmation);
    // a button press in a chat that waits for text is ignored
    assert_eq!(
        engine.on_callback_at(1, &Some("TMDB".to_string()), "t"),
        Pressed { effects: vec![], request_id: None }
    );
    assert_eq!(engine.dialogues.get(1), State::WaitingRegistrationUsername);
}

#[test]
fn deletion_runs_through_the_engine() {
    let mut engine = engine();
    let muted = vec![];
    engine.on_message_at(&private(900, "/deleteuser", Some(Command::DeleteUser)), &muted, &clock());
    assert_eq!(
        engine.on_message_at(&private(900, "Confirm", None), &muted, &clock()),
        vec![Effect::Revoke { emby_user_id: "1".to_string() }]
    );
    // the server refuses: the registration stays
    assert_eq!(
        engine.on_revoked(900, Err("busy".to_string())),
        vec![send("删除失败: busy。请联系管理员。")]
    );
    assert!(check_registered(&engine.directory, 900));
    assert_eq!(engine.dialogues.get(900), State::Start);
    // once more, and the server agrees
    engine.on_message_at(&private(900, "/deleteuser", Some(Command::DeleteUser)), &muted, &clock());
    engine.on_message_at(&private(900, "confirm", None), &muted, &clock());
    assert_eq!(engine.on_revoked(900, Ok(())), vec![send("您的账户已成功删除。")]);
    assert!(!check_registered(&engine.directory, 900));
}

#[test]
fn an_answer_that_comes_too_late_is_dropped() {
    let mut engine = engine();
    let muted = vec![];
    let chat = 5;
    engine.on_message_at(&private(chat, "/request", Some(Command::Request)), &muted, &clock());
    engine.on_callback_at(chat, &Some("BGM.TV".to_string()), "t");
    engine.on_callback_at(chat, &Some("电影".to_string()), "t");
    engine.on_message_at(&private(chat, "77", None), &muted, &clock());
    // the user cancels while the lookup is under way
    engine.on_message_at(&private(chat, "/cancel", Some(Command::Cancel)), &muted, &clock());
    assert_eq!(engine.on_fetched(chat, "77".to_string(), &found()), vec![]);
    assert_eq!(engine.dialogues.get(chat), State::Start);
}

#[test]
fn commands_that_need_the_clock_get_it_from_the_engine() {
    let mut engine = engine();
    let muted = vec![7];
    let group = |sender: u64| Incoming {
        chat: ChatKind::Public,
        chat_id: -100,
        sender: Sender::User(sender),
        content: Content::Text("/checkin".to_string()),
        command: Some(Command::CheckIn),
    };
    assert_eq!(
        engine.on_message_at(&group(7), &muted, &clock()),
        vec![Effect::SendTransient {
            text: "抱歉，您不是我们的常旅客会员，我们无法在当地时间16:00之前为您办理登记入住。"
                .to_string()
        }]
    );
    let late = Clock { hour: 20, ..clock() };
    assert_eq!(
        engine.on_message_at(&group(7), &muted, &late),
        vec![Effect::SendTransient { text: "抱歉，本酒店今日房满。".to_string() }]
    );
    assert_eq!(
        engine.on_message_at(&group(8), &muted, &late),
        vec![Effect::DeleteTrigger { delay_secs: 0 }]
    );
    // the clock that the engine reads is a clock
    let read = Clock::read();
    assert!(read.hour < 24);
    assert_eq!(read.row_stamp.chars().count(), 19);
    assert_eq!(read.file_stamp.chars().count(), 15);
    let answered = engine.on_message(&group(8), &muted);
    assert_eq!(answered, vec![Effect::DeleteTrigger { delay_secs: 0 }]);
    // an empty ledger is reported to the administrator under any stamp
    let list = Incoming {
        chat: ChatKind::Private,
        chat_id: 900,
        sender: Sender::User(900),
        content: Content::Text("/requestlist".to_string()),
        command: Some(Command::RequestList),
    };
    assert_eq!(engine.on_message(&list, &muted), vec![send("当前没有任何媒体请求。")]);
}

#[test]
fn a_press_is_stamped_by_the_clock() {
    let mut engine = engine();
    let muted = vec![];
    let chat = 5;
    engine.on_message_at(&private(chat, "/request", Some(Command::Request)), &muted, &clock());
    engine.on_callback(chat, &Some("BGM.TV".to_string()));
    engine.on_callback(chat, &Some("电影".to_string()));
    engine.on_message(&private(chat, "77", None), &muted);
    engine.on_fetched(chat, "77".to_string(), &found());
    let pressed = engine.on_callback(chat, &Some("confirm".to_string()));
    assert_eq!(pressed.request_id, Some(1));
    engine.on_filed(chat, 1, &found());
    let row = &engine.ledger.requests()[0];
    assert_eq!(row.source, "BGM.TV");
    assert_eq!(row.created_at.chars().count(), 19);
    assert_eq!(engine.ledger.media_of(1).unwrap().created_at.chars().count(), 19);
}
