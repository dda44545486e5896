use bili_downloader::naming::{bv_info, derive_name, episode_title, log_line, remove_punctuation, Episode, SeasonInfo};

fn season() -> SeasonInfo {
    SeasonInfo {
        episodes: Some(vec![
            Episode { ep_id: Some(100), share_copy: Some("First: <Pilot>".to_string()) },
            Episode { ep_id: Some(200), share_copy: Some("Second/Part*2?".to_string()) },
            Episode { ep_id: None, share_copy: None },
        ]),
    }
}

#[test]
fn forbidden_characters_are_stripped() {
    assert_eq!(remove_punctuation("A:B/C*D"), "ABCD");
    assert_eq!(remove_punctuation("<>:\"/\\|?*"), "");
    assert_eq!(remove_punctuation("plain title, ok!"), "plain title, ok!");
    assert_eq!(remove_punctuation(""), "");
    assert_eq!(remove_punctuation("番剧：第1话"), "番剧：第1话");
}

#[test]
fn title_is_found_by_id() {
    assert_eq!(episode_title(&season(), "200").unwrap(), "Second/Part*2?");
    assert_eq!(derive_name(&season(), "200").unwrap(), "SecondPart2");
}

#[test]
fn unknown_id_falls_back_to_first_episode() {
    assert_eq!(derive_name(&season(), "999").unwrap(), "First Pilot");
    assert_eq!(derive_name(&season(), "not a number").unwrap(), "First Pilot");
}

#[test]
fn missing_title_gives_no_name() {
    let s = SeasonInfo {
        episodes: Some(vec![
            Episode { ep_id: Some(1), share_copy: Some("One".to_string()) },
            Episode { ep_id: Some(2), share_copy: None },
        ]),
    };
    assert!(derive_name(&s, "2").is_none());
    assert!(derive_name(&SeasonInfo { episodes: None }, "1").is_none());
    assert!(derive_name(&SeasonInfo { episodes: Some(vec![]) }, "1").is_none());
}

#[test]
fn missing_id_matches_nothing() {
    let s = SeasonInfo {
        episodes: Some(vec![
            Episode { ep_id: Some(5), share_copy: Some("Five".to_string()) },
            Episode { ep_id: None, share_copy: Some("Zero".to_string()) },
        ]),
    };
    assert_eq!(derive_name(&s, "0").unwrap(), "Five");
    assert_eq!(derive_name(&s, "+5").unwrap(), "Five");
    let s = SeasonInfo {
        episodes: Some(vec![
            Episode { ep_id: None, share_copy: Some("A".to_string()) },
            Episode { ep_id: Some(0), share_copy: Some("B".to_string()) },
        ]),
    };
    assert_eq!(episode_title(&s, "0").unwrap(), "B");
    assert_eq!(derive_name(&s, "7").unwrap(), "A");
}

#[test]
fn log_line_is_tab_separated() {
    assert_eq!(log_line("2024-01-02 03:04:05", "BV1xx", "Title"), "2024-01-02 03:04:05\tBV1xx\tTitle\t\n");
}

#[test]
fn bv_title_is_sanitised() {
    let b = bv_info("BV1xx", Some(42), Some("a|b".to_string()));
    assert_eq!(b.bv_id, "BV1xx");
    assert_eq!(b.cid, Some(42));
    assert_eq!(b.title, "ab");
    let b = bv_info("BV1yy", None, None);
    assert_eq!(b.title, "no title");
    assert_eq!(b.cid, None);
}
