use nyamedia_bot::archive::{
    extract_name, file_episode, find_rule, first_result, is_active, load_config, monitor_folder,
    needs_name, process_files, query_tmdb, raw_name, rule_pattern, update_rules, ArchiveError,
    ArchiveRule, ConfigEntry, Folder, Move,
};

fn rule(folder: &str, name: &str) -> ArchiveRule {
    ArchiveRule {
        folder_name: folder.to_string(),
        chinese_name: name.to_string(),
        target_dir: "/data/anime".to_string(),
        pattern: r"S(\d+)E(\d+)".to_string(),
    }
}

fn fresh(folder: &str, name: &str) -> ArchiveRule {
    ArchiveRule {
        folder_name: folder.to_string(),
        chinese_name: name.to_string(),
        target_dir: "/data/animenew".to_string(),
        pattern: r"S(\d+)E(\d+)".to_string(),
    }
}

fn folder(name: &str, chinese: &str) -> Folder {
    Folder { name: name.to_string(), chinese_name: chinese.to_string() }
}

fn groups(list: &[Option<&str>]) -> Option<Vec<Option<String>>> {
    Some(list.iter().map(|g| g.map(|s| s.to_string())).collect())
}

fn entry(source: &str, destination: &str) -> ConfigEntry {
    ConfigEntry {
        source: source.to_string(),
        destination: destination.to_string(),
        regex: "S(\\d+)E(\\d+)".to_string(),
    }
}

#[test]
fn the_series_name_is_what_stands_before_the_season_marker() {
    assert_eq!(extract_name("Some.Show.S01.1080p"), Ok(Some("Some Show ".to_string())));
    assert_eq!(extract_name("Frieren S02E03"), Ok(Some("Frieren ".to_string())));
    assert_eq!(extract_name("S01"), Ok(Some(String::new())));
    assert_eq!(extract_name("Show.Season.One.S1"), Ok(Some("Show Season One ".to_string())));
    assert_eq!(extract_name("A.S1.B.S2"), Ok(Some("A ".to_string())));
    assert_eq!(extract_name("SxS3"), Ok(Some("Sx".to_string())));
    assert_eq!(extract_name("No season here"), Ok(None));
    assert_eq!(extract_name("Show.s01"), Ok(None));
    assert_eq!(extract_name(""), Ok(None));
}

#[test]
fn dots_in_the_captured_name_are_read_as_spaces() {
    assert_eq!(raw_name(&groups(&[Some("a.b.S1"), Some("a.b.")])), Some("a b ".to_string()));
    assert_eq!(raw_name(&groups(&[Some("x"), Some("..")])), Some("  ".to_string()));
    assert_eq!(raw_name(&groups(&[Some("x"), Some("电.视")])), Some("电 视".to_string()));
    assert_eq!(raw_name(&groups(&[Some("x"), None])), Some(String::new()));
    assert_eq!(raw_name(&groups(&[Some("x")])), Some(String::new()));
    assert_eq!(raw_name(&None), None);
}

#[test]
fn the_search_is_addressed_with_key_and_name() {
    assert_eq!(
        query_tmdb("Some Show ", "k3y"),
        "https://api.themoviedb.org/3/search/tv?language=zh-CN&api_key=k3y&query=Some Show "
    );
}

#[test]
fn the_first_result_names_the_series() {
    assert_eq!(first_result(&groups(&[Some("葬送的芙莉莲"), Some("other")])), Ok("葬送的芙莉莲".to_string()));
    assert_eq!(first_result(&groups(&[None, Some("other")])), Err("TMDB query failed".to_string()));
    assert_eq!(first_result(&groups(&[])), Err("TMDB query failed".to_string()));
    assert_eq!(first_result(&None), Err("TMDB query failed".to_string()));
}

#[test]
fn a_configuration_needs_a_source_directory() {
    assert_eq!(load_config("/downloads"), Ok(()));
    assert_eq!(load_config(""), Err("source_dir cannot be empty".to_string()));
}

#[test]
fn the_rule_in_force_is_the_last_for_its_folder() {
    let rules = vec![rule("a", "1"), rule("b", "2"), rule("a", "3")];
    assert_eq!(find_rule(&rules, "a"), Some(2));
    assert_eq!(find_rule(&rules, "b"), Some(1));
    assert_eq!(find_rule(&rules, "c"), None);
    assert!(needs_name(&rules, "c"));
    assert!(!needs_name(&rules, "a"));
    assert!(needs_name(&vec![], "a"));
}

#[test]
fn rules_follow_the_folders_found() {
    let rules = vec![rule("old", "旧"), rule("kept", "留"), rule("gone", "去")];
    let folders = vec![folder("new", "新"), folder("kept", "ignored"), folder("old", "")];
    assert_eq!(
        update_rules(&rules, &folders),
        vec![fresh("new", "新"), rule("kept", "留"), rule("old", "旧"), rule("gone", "去")]
    );
    // nothing found: every rule in force is kept
    assert_eq!(update_rules(&rules, &vec![]), rules);
    // no rules: every folder gets a fresh one
    assert_eq!(
        update_rules(&vec![], &vec![folder("a", ""), folder("b", "乙")]),
        vec![fresh("a", ""), fresh("b", "乙")]
    );
}

#[test]
fn a_rule_is_used_once_and_only_the_one_in_force() {
    let rules = vec![rule("a", "first"), rule("b", "乙"), rule("a", "second")];
    // the later rule for a folder is the one in force; the earlier is dropped
    assert_eq!(update_rules(&rules, &vec![]), vec![rule("b", "乙"), rule("a", "second")]);
    // a folder listed twice gets the rule the first time and a fresh one the second
    assert_eq!(
        update_rules(&rules, &vec![folder("a", "x"), folder("a", "y")]),
        vec![rule("a", "second"), fresh("a", "y"), rule("b", "乙")]
    );
}

#[test]
fn episodes_are_filed_by_season() {
    assert_eq!(
        file_episode("葬送的芙莉莲", &groups(&[Some("S01E05"), Some("01"), Some("05")]), &Some("mkv".to_string())),
        Ok(Some(Move {
            series: "葬送的芙莉莲".to_string(),
            season: "Season 01".to_string(),
            file_name: "葬送的芙莉莲 - S01E05.mkv".to_string(),
        }))
    );
    assert_eq!(
        file_episode("X", &groups(&[Some("S2E5"), Some("2"), Some("5")]), &None),
        Ok(Some(Move {
            series: "X".to_string(),
            season: "Season 02".to_string(),
            file_name: "X - S2E5".to_string(),
        }))
    );
    assert_eq!(
        file_episode("X", &groups(&[Some("S012E100"), Some("012"), Some("100")]), &Some("".to_string())),
        Ok(Some(Move {
            series: "X".to_string(),
            season: "Season 12".to_string(),
            file_name: "X - S012E100.".to_string(),
        }))
    );
    assert_eq!(
        file_episode("X", &groups(&[Some("S123E1"), Some("123"), Some("1")]), &Some("mp4".to_string()))
            .unwrap()
            .unwrap()
            .season,
        "Season 123"
    );
    assert_eq!(file_episode("X", &None, &Some("mkv".to_string())), Ok(None));
}

#[test]
fn absent_groups_count_as_the_first() {
    assert_eq!(
        file_episode("X", &groups(&[Some("whole")]), &Some("mkv".to_string())),
        Ok(Some(Move {
            series: "X".to_string(),
            season: "Season 01".to_string(),
            file_name: "X - S01E01.mkv".to_string(),
        }))
    );
    assert_eq!(
        file_episode("X", &groups(&[Some("whole"), None, Some("7")]), &None).unwrap().unwrap().file_name,
        "X - S01E7"
    );
}

#[test]
fn a_season_that_is_no_number_is_an_error() {
    assert_eq!(
        file_episode("X", &groups(&[Some("SxE1"), Some("x"), Some("1")]), &None),
        Err(ArchiveError::BadSeason("x".to_string()))
    );
    assert_eq!(
        file_episode("X", &groups(&[Some("w"), Some(""), Some("1")]), &None),
        Err(ArchiveError::BadSeason(String::new()))
    );
    assert_eq!(
        file_episode("X", &groups(&[Some("w"), Some("4294967296"), Some("1")]), &None),
        Err(ArchiveError::BadSeason("4294967296".to_string()))
    );
    assert_eq!(
        file_episode("X", &groups(&[Some("w"), Some("4294967295"), Some("1")]), &None)
            .unwrap()
            .unwrap()
            .season,
        "Season 4294967295"
    );
}

#[test]
fn files_are_matched_by_the_pattern_of_the_rule() {
    let rule = rule("Some.Show.S01", "某剧");
    assert!(is_active(&rule));
    assert!(!is_active(&fresh("x", "")));
    let pattern = rule_pattern(&rule).unwrap();
    assert_eq!(
        process_files(&rule, &pattern, "Some.Show.S01E07.1080p.mkv", &Some("mkv".to_string())),
        Ok(Some(Move {
            series: "某剧".to_string(),
            season: "Season 01".to_string(),
            file_name: "某剧 - S01E07.mkv".to_string(),
        }))
    );
    assert_eq!(process_files(&rule, &pattern, "notes.txt", &Some("txt".to_string())), Ok(None));
    assert_eq!(process_files(&rule, &pattern, "s01e07.mkv", &Some("mkv".to_string())), Ok(None));
    // a pattern of one's own, with the groups the other way round
    let odd = ArchiveRule { pattern: r"E(\d+)\.S(\d+)".to_string(), ..rule.clone() };
    let pattern = rule_pattern(&odd).unwrap();
    assert_eq!(
        process_files(&odd, &pattern, "E03.S10.mkv", &None).unwrap().unwrap(),
        Move {
            series: "某剧".to_string(),
            season: "Season 03".to_string(),
            file_name: "某剧 - S03E10".to_string(),
        }
    );
}

#[test]
fn a_pattern_that_does_not_compile_is_reported() {
    let broken = ArchiveRule { pattern: "S(\\d+".to_string(), ..rule("a", "b") };
    match rule_pattern(&broken) {
        Err(ArchiveError::BadPattern(reason)) => assert!(!reason.is_empty()),
        _ => panic!("an unclosed group does not compile"),
    }
}

#[test]
fn the_watcher_proposes_entries_for_new_folders() {
    let config = vec![entry("configured", "/dst")];
    let pending = vec![entry("waiting", "")];
    let folders = vec![
        "configured".to_string(),
        "new".to_string(),
        "waiting".to_string(),
        "newer".to_string(),
        "new".to_string(),
    ];
    assert_eq!(
        monitor_folder(&config, pending.clone(), &folders),
        vec![entry("waiting", ""), entry("new", ""), entry("newer", "")]
    );
    assert_eq!(monitor_folder(&config, pending.clone(), &vec![]), pending);
    assert_eq!(monitor_folder(&vec![], vec![], &vec!["a".to_string()]), vec![entry("a", "")]);
}
