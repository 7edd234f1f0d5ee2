use nyamedia_bot::auth::{
    check_admin, check_registered, delete_user, get_emby_id, get_username, register,
    DirectoryError, UserDirectory,
};
use nyamedia_bot::ledger::{LedgerError, RequestLedger};
use nyamedia_bot::models::{NewMedia, NewMediaRequest, TelegramUser};
use nyamedia_bot::provisioning::{
    delete_emby_user, new_user, password_update, revocation, submit_emby_password_update,
    submit_emby_register, Answer, Body, Call, Method,
};
use nyamedia_bot::scraper::{
    describe_failure, media_row, plan_lookup, save_media_at, save_media_to_db, scrape_bgm,
    scrape_media_info, scrape_tmdb, BgmResponse, FetchError, Lookup, MediaInfo, Provider, Tokens,
    TmdbResponse,
};

fn tokens() -> Tokens {
    Tokens { tmdb: Some("tmdb-token".to_string()), bgm: Some("bgm-token".to_string()) }
}

fn user(id: i32, telegram_id: i64, name: &str, admin: bool, emby: Option<&str>) -> TelegramUser {
    TelegramUser {
        id,
        telegram_id,
        username: name.to_string(),
        admin,
        emby_user_id: emby.map(|e| e.to_string()),
    }
}

#[test]
fn the_directory_answers_for_registered_chats() {
    let directory = UserDirectory::from_rows(vec![
        user(1, 100, "bob", false, Some("42")),
        user(4, 200, "root", true, None),
    ])
    .unwrap();
    assert!(check_registered(&directory, 100));
    assert!(check_registered(&directory, 200));
    assert!(!check_registered(&directory, 300));
    assert!(!check_admin(&directory, 100));
    assert!(check_admin(&directory, 200));
    assert!(!check_admin(&directory, 300));
    assert_eq!(get_username(&directory, 100), "bob");
    assert_eq!(get_username(&directory, 300), "");
    assert_eq!(get_emby_id(&directory, 100), "42");
    assert_eq!(get_emby_id(&directory, 200), "");
    assert_eq!(get_emby_id(&directory, 300), "");
    assert_eq!(directory.user(200), Some(user(4, 200, "root", true, None)));
    assert_eq!(directory.user(300), None);
}

#[test]
fn a_chat_registers_once() {
    let mut directory = UserDirectory::new();
    assert_eq!(register(&mut directory, 100, "bob".to_string(), "42".to_string()), Ok(()));
    assert_eq!(directory.rows(), vec![user(1, 100, "bob", false, Some("42"))]);
    assert_eq!(
        register(&mut directory, 100, "bobby".to_string(), "43".to_string()),
        Err(DirectoryError::AlreadyRegistered)
    );
    assert_eq!(directory.rows(), vec![user(1, 100, "bob", false, Some("42"))]);
    assert_eq!(register(&mut directory, 101, "bob".to_string(), "44".to_string()), Ok(()));
    assert_eq!(directory.rows()[1], user(2, 101, "bob", false, Some("44")));
}

#[test]
fn registrations_run_out_of_identifiers() {
    let mut directory =
        UserDirectory::from_rows(vec![user(i32::MAX, 100, "bob", false, None)]).unwrap();
    assert_eq!(
        register(&mut directory, 101, "al".to_string(), "1".to_string()),
        Err(DirectoryError::Exhausted)
    );
    assert_eq!(directory.rows().len(), 1);
}

#[test]
fn deleting_removes_one_registration() {
    let mut directory = UserDirectory::from_rows(vec![
        user(1, 100, "a", false, None),
        user(2, 200, "b", false, None),
        user(3, 300, "c", true, None),
    ])
    .unwrap();
    assert_eq!(delete_user(&mut directory, 200), Ok(()));
    assert_eq!(
        directory.rows(),
        vec![user(1, 100, "a", false, None), user(3, 300, "c", true, None)]
    );
    assert_eq!(delete_user(&mut directory, 200), Err(DirectoryError::NotRegistered));
    assert_eq!(directory.rows().len(), 2);
    // the next registration does not reuse a live identifier
    assert_eq!(register(&mut directory, 200, "b".to_string(), "9".to_string()), Ok(()));
    assert_eq!(directory.rows()[2].id, 4);
}

#[test]
fn registrations_that_break_the_invariant_are_not_loaded() {
    assert!(UserDirectory::from_rows(vec![
        user(1, 100, "a", false, None),
        user(2, 100, "b", false, None)
    ])
    .is_none());
    assert!(UserDirectory::from_rows(vec![
        user(2, 100, "a", false, None),
        user(1, 200, "b", false, None)
    ])
    .is_none());
    assert!(UserDirectory::from_rows(vec![user(0, 100, "a", false, None)]).is_none());
    assert!(UserDirectory::from_rows(vec![]).is_some());
}

#[test]
fn directory_refusals_have_words() {
    assert_eq!(DirectoryError::AlreadyRegistered.describe(), "the chat is already registered");
    assert_eq!(DirectoryError::NotRegistered.describe(), "the chat is not registered");
    assert_eq!(DirectoryError::Exhausted.describe(), "no identifier is left");
}

#[test]
fn provisioning_calls_are_addressed_to_the_server() {
    assert_eq!(
        new_user("http://emby:8096", "bob", "template-1"),
        Call {
            method: Method::Post,
            url: "http://emby:8096/Users/New".to_string(),
            body: Body::NewUser {
                name: "bob".to_string(),
                copy_from_user_id: "template-1".to_string(),
                user_copy_options: vec!["UserPolicy".to_string()],
            },
        }
    );
    assert_eq!(
        password_update("http://emby:8096", "42"),
        Call {
            method: Method::Post,
            url: "http://emby:8096/Users/42/Password".to_string(),
            body: Body::ResetPassword,
        }
    );
    assert_eq!(
        revocation("http://emby:8096", "42"),
        Call {
            method: Method::Delete,
            url: "http://emby:8096/Users/42".to_string(),
            body: Body::Empty,
        }
    );
}

#[test]
fn provisioning_answers_are_read() {
    assert_eq!(submit_emby_register(Answer::Accepted(Some("42".to_string()))), Ok("42".to_string()));
    assert_eq!(
        submit_emby_register(Answer::Accepted(None)),
        Err("请联系管理员。[Error: Parsing JSON]".to_string())
    );
    assert_eq!(
        submit_emby_register(Answer::Unreachable),
        Err("请联系管理员。[Error: Emby API]".to_string())
    );
    assert_eq!(
        submit_emby_register(Answer::Rejected(Some("User name exists".to_string()))),
        Err("User name exists".to_string())
    );
    assert_eq!(
        submit_emby_register(Answer::Rejected(None)),
        Err("请联系管理员。[Error: res.text]".to_string())
    );
    for read in [submit_emby_password_update, delete_emby_user] {
        assert_eq!(read(Answer::Accepted(None)), Ok(()));
        assert_eq!(read(Answer::Accepted(Some("x".to_string()))), Ok(()));
        assert_eq!(read(Answer::Unreachable), Err("请联系管理员。[Error: Emby API]".to_string()));
        assert_eq!(read(Answer::Rejected(Some("no".to_string()))), Err("no".to_string()));
        assert_eq!(read(Answer::Rejected(None)), Err("请联系管理员。[Error: res.text]".to_string()));
    }
}

#[test]
fn lookups_are_planned_by_source() {
    assert_eq!(
        plan_lookup("tmdb", "tv", "12345", &tokens()),
        Ok(Lookup {
            provider: Provider::Tmdb,
            url: "https://api.themoviedb.org/3/tv/12345?language=zh-CN".to_string(),
            authorization: "Bearer tmdb-token".to_string(),
            user_agent: None,
        })
    );
    assert_eq!(
        plan_lookup("bgm", "subject", "8", &tokens()),
        Ok(Lookup {
            provider: Provider::Bgm,
            url: "https://api.bgm.tv/v0/subjects/8".to_string(),
            authorization: "Bearer bgm-token".to_string(),
            user_agent: Some("sun00108/nyamedia-bot".to_string()),
        })
    );
    assert_eq!(
        plan_lookup("unknown", "unknown", "8", &tokens()),
        Err("Unsupported media source".to_string())
    );
    assert_eq!(plan_lookup("TMDB", "tv", "8", &tokens()), Err("Unsupported media source".to_string()));
    let none = Tokens { tmdb: None, bgm: None };
    assert_eq!(
        plan_lookup("tmdb", "tv", "8", &none),
        Err("TMDB_ACCESS_TOKEN not found in environment".to_string())
    );
    assert_eq!(
        plan_lookup("bgm", "subject", "8", &none),
        Err("BGM_ACCESS_TOKEN not found in environment".to_string())
    );
}

#[test]
fn the_source_of_a_lookup_is_matched_without_regard_to_case() {
    for source in ["tmdb", "TMDB", "Tmdb", "tMdB"] {
        let lookup = scrape_media_info(source, "movie", "1", &tokens()).unwrap();
        assert_eq!(lookup.provider, Provider::Tmdb);
        assert_eq!(lookup.url, "https://api.themoviedb.org/3/movie/1?language=zh-CN");
    }
    for source in ["bgm", "BGM", "Bgm"] {
        assert_eq!(
            scrape_media_info(source, "subject", "1", &tokens()).unwrap().provider,
            Provider::Bgm
        );
    }
    for source in ["bgm.tv", "BGM.TV", "", "tmdb ", "imdb"] {
        assert_eq!(
            scrape_media_info(source, "subject", "1", &tokens()),
            Err("Unsupported media source".to_string())
        );
    }
}

#[test]
fn the_movie_catalog_answer_is_read() {
    let answer = |title: Option<&str>, name: Option<&str>, poster: Option<&str>| TmdbResponse {
        title: title.map(|s| s.to_string()),
        name: name.map(|s| s.to_string()),
        overview: "o".to_string(),
        poster_path: poster.map(|s| s.to_string()),
    };
    let info = |title: &str, poster: &str| MediaInfo {
        title: title.to_string(),
        summary: "o".to_string(),
        poster: poster.to_string(),
    };
    assert_eq!(
        scrape_tmdb(Ok(answer(Some("片名"), Some("剧名"), Some("/p.jpg")))),
        Ok(info("片名", "https://image.tmdb.org/t/p/w500/p.jpg"))
    );
    assert_eq!(scrape_tmdb(Ok(answer(None, Some("示例剧集"), None))), Ok(info("示例剧集", "")));
    assert_eq!(scrape_tmdb(Ok(answer(None, None, None))), Ok(info("Unknown Title", "")));
    assert_eq!(
        scrape_tmdb(Err(FetchError::Unreachable("dns".to_string()))),
        Err("Failed to fetch from TMDB: dns".to_string())
    );
    assert_eq!(
        scrape_tmdb(Err(FetchError::Status("404 Not Found".to_string()))),
        Err("TMDB API returned status: 404 Not Found".to_string())
    );
    assert_eq!(
        scrape_tmdb(Err(FetchError::Unreadable("eof".to_string()))),
        Err("Failed to parse TMDB response: eof".to_string())
    );
}

#[test]
fn the_community_catalog_answer_is_read() {
    assert_eq!(
        scrape_bgm(Ok(BgmResponse {
            name_cn: "名".to_string(),
            summary: "简介".to_string(),
            image: "http://img".to_string(),
        })),
        Ok(MediaInfo {
            title: "名".to_string(),
            summary: "简介".to_string(),
            poster: "http://img".to_string(),
        })
    );
    assert_eq!(
        scrape_bgm(Err(FetchError::Unreachable("dns".to_string()))),
        Err("Failed to fetch from BGM: dns".to_string())
    );
    assert_eq!(
        scrape_bgm(Err(FetchError::Status("500".to_string()))),
        Err("BGM API returned status: 500".to_string())
    );
    assert_eq!(
        describe_failure(Provider::Bgm, &FetchError::Unreadable("eof".to_string())),
        "Failed to parse BGM response: eof"
    );
}

#[test]
fn empty_summary_and_poster_are_stored_as_absent() {
    let info = |summary: &str, poster: &str| MediaInfo {
        title: "t".to_string(),
        summary: summary.to_string(),
        poster: poster.to_string(),
    };
    assert_eq!(
        media_row(3, &info("", "")),
        NewMedia { media_request_id: 3, title: "t".to_string(), summary: None, poster: None }
    );
    assert_eq!(
        media_row(3, &info("s", "p")),
        NewMedia {
            media_request_id: 3,
            title: "t".to_string(),
            summary: Some("s".to_string()),
            poster: Some("p".to_string()),
        }
    );
    assert_eq!(media_row(3, &info(" ", "")).summary, Some(" ".to_string()));
}

#[test]
fn saving_metadata_inserts_or_refreshes() {
    let mut ledger = RequestLedger::new();
    ledger
        .submit(
            NewMediaRequest {
                source: "TMDB/TV".to_string(),
                media_id: "1".to_string(),
                request_user: 1,
                status: 0,
            },
            "t0",
        )
        .unwrap();
    let first = MediaInfo { title: "a".to_string(), summary: String::new(), poster: "p".to_string() };
    assert_eq!(save_media_at(&mut ledger, 1, &first, "t1"), Ok(()));
    let row = ledger.media_of(1).unwrap();
    assert_eq!((row.id, row.title.as_str(), row.summary.clone()), (1, "a", None));
    assert_eq!(row.poster, Some("p".to_string()));
    let second = MediaInfo { title: "b".to_string(), summary: "s".to_string(), poster: String::new() };
    assert_eq!(save_media_to_db(&mut ledger, 1, &second), Ok(()));
    let row = ledger.media_of(1).unwrap();
    assert_eq!((row.id, row.title.as_str(), row.poster.clone()), (1, "b", None));
    assert_eq!(row.summary, Some("s".to_string()));
    assert_eq!(row.created_at, "t1");
    assert_eq!(row.updated_at.chars().count(), 19);
    assert_eq!(ledger.get_media_list().len(), 1);
    let _: Result<(), LedgerError> = save_media_at(&mut ledger, 9, &first, "t2");
    assert_eq!(ledger.media_of(9).unwrap().id, 2);
}
