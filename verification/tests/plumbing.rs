use nyamedia_bot::database::{
    backup_database, backup_database_at, establish_connection, get_migration_status,
    run_migrations, run_migrations_with_backup, Backup, DatabaseError, Migration, Progress,
    StatusQuery,
};
use nyamedia_bot::messages::{
    already_registered, ask_media_id, caption, chat_id_reply, confirmation_card, framed,
};
use nyamedia_bot::settings::{bind_address, disabled_users, notify_chats};
use nyamedia_bot::static_files::{
    asset_path, get_content_type, serve_asset_direct, serve_embedded_file, Embedded,
};
use nyamedia_bot::text::{
    chars_of, ends_with, i64_to_string, is_numeric, parse_i64, parse_u64, split_chars,
    starts_with, str_eq, u64_to_string,
};

fn pieces(s: &str, sep: char) -> Vec<String> {
    split_chars(s, sep).into_iter().map(|p| p.into_iter().collect()).collect()
}

#[test]
fn texts_compare_by_their_characters() {
    assert!(str_eq("", ""));
    assert!(str_eq("电视剧", "电视剧"));
    assert!(!str_eq("电视剧", "电视"));
    assert!(!str_eq("电视", "电视剧"));
    assert!(!str_eq("abc", "abd"));
    assert!(!str_eq("", "a"));
    assert_eq!(chars_of("a电b"), vec!['a', '电', 'b']);
    assert_eq!(chars_of(""), Vec::<char>::new());
}

#[test]
fn prefixes_and_suffixes_are_found() {
    assert!(starts_with("/register", "/"));
    assert!(starts_with("/", "/"));
    assert!(starts_with("abc", ""));
    assert!(!starts_with("", "/"));
    assert!(!starts_with("a/", "/"));
    assert!(starts_with("电视剧集", "电视"));
    assert!(ends_with("app.js", ".js"));
    assert!(ends_with(".js", ".js"));
    assert!(ends_with("x", ""));
    assert!(!ends_with("js", ".js"));
    assert!(!ends_with("app.js.map", ".js"));
    assert!(ends_with("图.png", ".png"));
}

#[test]
fn numeric_means_ascii_digits_only() {
    assert!(is_numeric("0"));
    assert!(is_numeric("0123456789"));
    assert!(is_numeric(""));
    assert!(!is_numeric("12a"));
    assert!(!is_numeric("-1"));
    assert!(!is_numeric("+1"));
    assert!(!is_numeric("１"));
    assert!(!is_numeric("1 "));
}

#[test]
fn numbers_are_rendered_in_decimal() {
    assert_eq!(u64_to_string(0), "0");
    assert_eq!(u64_to_string(7), "7");
    assert_eq!(u64_to_string(10), "10");
    assert_eq!(u64_to_string(2024), "2024");
    assert_eq!(u64_to_string(u64::MAX), "18446744073709551615");
    assert_eq!(i64_to_string(0), "0");
    assert_eq!(i64_to_string(-1), "-1");
    assert_eq!(i64_to_string(-1001234567890), "-1001234567890");
    assert_eq!(i64_to_string(i64::MAX), "9223372036854775807");
    assert_eq!(i64_to_string(i64::MIN), "-9223372036854775808");
    for n in [1u64, 9, 99, 100, 101, 65535, 1_000_000] {
        assert_eq!(u64_to_string(n), n.to_string());
    }
}

#[test]
fn unsigned_numbers_are_parsed() {
    assert_eq!(parse_u64("0"), Some(0));
    assert_eq!(parse_u64("00042"), Some(42));
    assert_eq!(parse_u64("+42"), Some(42));
    assert_eq!(parse_u64("18446744073709551615"), Some(u64::MAX));
    assert_eq!(parse_u64("18446744073709551616"), None);
    assert_eq!(parse_u64("99999999999999999999999"), None);
    assert_eq!(parse_u64(""), None);
    assert_eq!(parse_u64("+"), None);
    assert_eq!(parse_u64("-1"), None);
    assert_eq!(parse_u64("-0"), None);
    assert_eq!(parse_u64("4 2"), None);
    assert_eq!(parse_u64(" 42"), None);
    assert_eq!(parse_u64("++1"), None);
    assert_eq!(parse_u64("４２"), None);
    for s in ["0", "+7", "007", "", "+", "-3", "1x", "18446744073709551615", "18446744073709551616"] {
        assert_eq!(parse_u64(s), s.parse::<u64>().ok());
    }
}

#[test]
fn signed_numbers_are_parsed() {
    assert_eq!(parse_i64("0"), Some(0));
    assert_eq!(parse_i64("-0"), Some(0));
    assert_eq!(parse_i64("+5"), Some(5));
    assert_eq!(parse_i64("-1001234"), Some(-1001234));
    assert_eq!(parse_i64("9223372036854775807"), Some(i64::MAX));
    assert_eq!(parse_i64("9223372036854775808"), None);
    assert_eq!(parse_i64("-9223372036854775808"), Some(i64::MIN));
    assert_eq!(parse_i64("-9223372036854775809"), None);
    assert_eq!(parse_i64("-"), None);
    assert_eq!(parse_i64(""), None);
    assert_eq!(parse_i64("--1"), None);
    assert_eq!(parse_i64("+-1"), None);
    assert_eq!(parse_i64("1-"), None);
    for s in ["-", "+", "-7", "+7", "7", "-007", "9223372036854775808", "-9223372036854775809", "a"] {
        assert_eq!(parse_i64(s), s.parse::<i64>().ok());
    }
}

#[test]
fn texts_are_cut_at_every_separator() {
    assert_eq!(pieces("a,b,c", ','), vec!["a", "b", "c"]);
    assert_eq!(pieces("", ','), vec![""]);
    assert_eq!(pieces(",", ','), vec!["", ""]);
    assert_eq!(pieces("a,", ','), vec!["a", ""]);
    assert_eq!(pieces(",a", ','), vec!["", "a"]);
    assert_eq!(pieces("a,,b", ','), vec!["a", "", "b"]);
    assert_eq!(pieces("no separators", ','), vec!["no separators"]);
    for s in ["1,2,3", "", ",", ",,", "x", "1,,2,"] {
        let expected: Vec<String> = s.split(',').map(|p| p.to_string()).collect();
        assert_eq!(pieces(s, ','), expected);
    }
}

#[test]
fn the_muted_list_is_read_from_the_setting() {
    assert_eq!(disabled_users(&None), Some(vec![]));
    assert_eq!(disabled_users(&Some("5".to_string())), Some(vec![5]));
    assert_eq!(disabled_users(&Some("5,6,18446744073709551615".to_string())), Some(vec![5, 6, u64::MAX]));
    assert_eq!(disabled_users(&Some("".to_string())), None);
    assert_eq!(disabled_users(&Some("5,".to_string())), None);
    assert_eq!(disabled_users(&Some("5, 6".to_string())), None);
    assert_eq!(disabled_users(&Some("5,-6".to_string())), None);
    assert_eq!(disabled_users(&Some("a".to_string())), None);
}

#[test]
fn the_audience_is_read_from_the_setting() {
    assert_eq!(notify_chats(&None), Some(vec![]));
    assert_eq!(notify_chats(&Some("-1001234,55".to_string())), Some(vec![-1001234, 55]));
    assert_eq!(notify_chats(&Some("7".to_string())), Some(vec![7]));
    assert_eq!(notify_chats(&Some("".to_string())), None);
    assert_eq!(notify_chats(&Some("7;8".to_string())), None);
    assert_eq!(notify_chats(&Some("7,,8".to_string())), None);
}

#[test]
fn the_bind_address_joins_host_and_port() {
    assert_eq!(bind_address("0.0.0.0", "8080"), "0.0.0.0:8080");
    assert_eq!(bind_address("", ""), ":");
}

#[test]
fn messages_with_variable_parts() {
    assert_eq!(framed("<", "x", ">"), "<x>");
    assert_eq!(already_registered("bob"), "您已经注册过了。用户名：bob");
    assert_eq!(chat_id_reply(-42), "Chat ID: -42");
    assert_eq!(ask_media_id("BGM.TV", "电影"), "请输入您要从 BGM.TV 请求的 电影 ID: ");
    assert_eq!(caption(0), "所有媒体请求列表 (共 0 条记录)");
    assert_eq!(caption(1234), "所有媒体请求列表 (共 1234 条记录)");
    assert_eq!(
        confirmation_card("T", "L", ""),
        "您要请求的媒体信息：\n\n📺 标题：T\n🔗 链接：L\n📝 简介：暂无简介\n\n请确认是否提交请求："
    );
    assert_eq!(
        confirmation_card("T", "L", "S"),
        "您要请求的媒体信息：\n\n📺 标题：T\n🔗 链接：L\n📝 简介：S\n\n请确认是否提交请求："
    );
}

#[test]
fn content_types_follow_the_ending_of_the_path() {
    assert_eq!(get_content_type("assets/app.js"), "application/javascript");
    assert_eq!(get_content_type("assets/app.css"), "text/css");
    assert_eq!(get_content_type("index.html"), "text/html; charset=utf-8");
    assert_eq!(get_content_type("a.png"), "image/png");
    assert_eq!(get_content_type("a.jpg"), "image/jpeg");
    assert_eq!(get_content_type("a.jpeg"), "image/jpeg");
    assert_eq!(get_content_type("a.svg"), "image/svg+xml");
    assert_eq!(get_content_type("favicon.ico"), "image/x-icon");
    assert_eq!(get_content_type("a.wasm"), "application/octet-stream");
    assert_eq!(get_content_type("a.JS"), "application/octet-stream");
    assert_eq!(get_content_type("js"), "application/octet-stream");
    assert_eq!(get_content_type(""), "application/octet-stream");
    assert_eq!(get_content_type(".css.js"), "application/javascript");
}

#[test]
fn assets_are_served_or_reported_missing() {
    assert_eq!(asset_path("app.js"), "assets/app.js");
    let found = serve_asset_direct("css/site.css", Some(vec![1, 2, 3]));
    assert_eq!(found.status, 200);
    assert_eq!(found.content_type, Some("text/css".to_string()));
    assert_eq!(found.cache_control, Some("public, max-age=31536000".to_string()));
    assert_eq!(found.body, vec![1, 2, 3]);
    let missing = serve_asset_direct("nope.js", None);
    assert_eq!(missing.status, 404);
    assert_eq!(missing.content_type, None);
    assert_eq!(missing.cache_control, None);
    assert_eq!(missing.body, b"File not found".to_vec());
}

#[test]
fn pages_are_served_with_a_stand_in_when_missing() {
    let page = serve_embedded_file(Embedded::Text("<html></html>".to_string()));
    assert_eq!(page.status, 200);
    assert_eq!(page.content_type, Some("text/html; charset=utf-8".to_string()));
    assert_eq!(page.body, "<html></html>");
    let broken = serve_embedded_file(Embedded::NotText);
    assert_eq!(broken.status, 500);
    assert_eq!(broken.body, "Invalid UTF-8");
    let stand_in = serve_embedded_file(Embedded::Missing);
    assert_eq!(stand_in.status, 200);
    assert_eq!(stand_in.content_type, Some("text/html; charset=utf-8".to_string()));
    assert!(stand_in.body.contains("<h1>Nyamedia Bot</h1>"));
    assert!(stand_in.body.contains("前端文件未嵌入到二进制中。请确保编译时静态文件存在。"));
    assert!(stand_in.body.contains("<a href=\"/requests\">查看媒体请求</a>"));
}

#[test]
fn database_errors_are_worded_by_kind() {
    assert_eq!(DatabaseError::IoError("disk".to_string()).message(), "IO错误: disk");
    assert_eq!(DatabaseError::DieselError("locked".to_string()).message(), "数据库错误: locked");
    assert_eq!(DatabaseError::MigrationError("v2".to_string()).message(), "迁移错误: v2");
    assert_eq!(
        DatabaseError::EnvironmentError("DATABASE_URL must be set".to_string()).message(),
        "环境变量错误: DATABASE_URL must be set"
    );
}

#[test]
fn the_database_url_must_be_set() {
    assert_eq!(establish_connection(Some("db.sqlite3".to_string())), Ok("db.sqlite3".to_string()));
    assert_eq!(
        establish_connection(None),
        Err(DatabaseError::EnvironmentError("DATABASE_URL must be set".to_string()))
    );
}

#[test]
fn backups_are_named_after_file_and_time() {
    assert_eq!(
        backup_database_at(true, &Some("nyamedia".to_string()), "20240101_020304"),
        Backup::Copy { file_name: "nyamedia.backup.20240101_020304.sqlite3".to_string() }
    );
    assert_eq!(
        backup_database_at(true, &None, "20240101_020304"),
        Backup::Copy { file_name: "database.backup.20240101_020304.sqlite3".to_string() }
    );
    assert_eq!(
        backup_database_at(false, &Some("nyamedia".to_string()), "20240101_020304"),
        Backup::Skip { message: "数据库文件不存在，跳过备份".to_string() }
    );
    match backup_database(true, &Some("db".to_string())) {
        Backup::Copy { file_name } => {
            assert!(file_name.starts_with("db.backup."));
            assert!(file_name.ends_with(".sqlite3"));
            let stamp = &file_name["db.backup.".len()..file_name.len() - ".sqlite3".len()];
            assert_eq!(stamp.len(), 15);
            assert_eq!(stamp.chars().filter(|c| c.is_ascii_digit()).count(), 14);
            assert_eq!(stamp.chars().nth(8), Some('_'));
        }
        Backup::Skip { .. } => panic!("a database that exists is backed up"),
    }
}

#[test]
fn a_migration_run_connects_then_applies() {
    assert_eq!(run_migrations(&Progress::Begin), Migration::Connect);
    assert_eq!(run_migrations(&Progress::Connected(Ok(()))), Migration::RunPending);
    assert_eq!(run_migrations(&Progress::Migrated(Ok(()))), Migration::Done(Ok(())));
    assert_eq!(
        run_migrations(&Progress::Connected(Err(DatabaseError::DieselError("x".to_string())))),
        Migration::Done(Err(DatabaseError::DieselError("x".to_string())))
    );
    assert_eq!(
        run_migrations(&Progress::Migrated(Err("bad sql".to_string()))),
        Migration::Done(Err(DatabaseError::MigrationError("bad sql".to_string())))
    );
}

#[test]
fn a_failed_backup_does_not_stop_the_migration() {
    assert_eq!(run_migrations_with_backup(&Progress::Begin), Migration::BackUp);
    assert_eq!(
        run_migrations_with_backup(&Progress::BackedUp(Ok("db.backup".to_string()))),
        Migration::Connect
    );
    assert_eq!(
        run_migrations_with_backup(&Progress::BackedUp(Err(DatabaseError::IoError(
            "denied".to_string()
        )))),
        Migration::Connect
    );
    assert_eq!(run_migrations_with_backup(&Progress::Connected(Ok(()))), Migration::RunPending);
    assert_eq!(
        run_migrations_with_backup(&Progress::Connected(Err(DatabaseError::EnvironmentError(
            "DATABASE_URL must be set".to_string()
        )))),
        Migration::Done(Err(DatabaseError::EnvironmentError(
            "DATABASE_URL must be set".to_string()
        )))
    );
    assert_eq!(run_migrations_with_backup(&Progress::Migrated(Ok(()))), Migration::Done(Ok(())));
    assert_eq!(
        run_migrations_with_backup(&Progress::Migrated(Err("v3".to_string()))),
        Migration::Done(Err(DatabaseError::MigrationError("v3".to_string())))
    );
}

#[test]
fn a_status_query_connects_then_lists() {
    assert_eq!(get_migration_status(&Progress::Begin), StatusQuery::Connect);
    assert_eq!(get_migration_status(&Progress::Connected(Ok(()))), StatusQuery::ListApplied);
    assert_eq!(
        get_migration_status(&Progress::Listed(Ok(vec!["001".to_string(), "002".to_string()]))),
        StatusQuery::Done(Ok(vec!["001".to_string(), "002".to_string()]))
    );
    assert_eq!(
        get_migration_status(&Progress::Listed(Err("no table".to_string()))),
        StatusQuery::Done(Err(DatabaseError::MigrationError("no table".to_string())))
    );
    assert_eq!(
        get_migration_status(&Progress::Connected(Err(DatabaseError::DieselError(
            "x".to_string()
        )))),
        StatusQuery::Done(Err(DatabaseError::DieselError("x".to_string())))
    );
}
