use bili_downloader::manifest::{select, Manifest, Metric, NoStreamFound, Representation, Track};

fn rep(size: Option<i64>, bandwidth: Option<i64>, url: &str) -> Representation {
    Representation { size, bandwidth, urls: vec![url.to_string(), format!("{}-backup", url)] }
}

#[test]
fn largest_size_is_chosen() {
    let m = Manifest {
        video: Some(vec![rep(Some(10), Some(900), "v0"), rep(Some(30), Some(1), "v1"), rep(Some(20), None, "v2")]),
        audio: Some(vec![rep(None, Some(5), "a0"), rep(Some(7), Some(1), "a1")]),
    };
    let p = select(&m, Metric::Size).unwrap();
    assert_eq!(p.video_url, "v1");
    assert_eq!(p.audio_url, "a1");
    let p = select(&m, Metric::Bandwidth).unwrap();
    assert_eq!(p.video_url, "v0");
    assert_eq!(p.audio_url, "a0");
}

#[test]
fn tie_goes_to_lowest_index() {
    let m = Manifest {
        video: Some(vec![rep(Some(5), None, "v0"), rep(Some(9), None, "v1"), rep(Some(9), None, "v2")]),
        audio: Some(vec![rep(None, None, "a0"), rep(None, None, "a1")]),
    };
    let p = select(&m, Metric::Size).unwrap();
    assert_eq!(p.video_url, "v1");
    assert_eq!(p.audio_url, "a0");
}

#[test]
fn single_representations_are_chosen() {
    let m = Manifest { video: Some(vec![rep(Some(-3), None, "v")]), audio: Some(vec![rep(None, None, "a")]) };
    let p = select(&m, Metric::Size).unwrap();
    assert_eq!(p.video_url, "v");
    assert_eq!(p.audio_url, "a");
}

#[test]
fn empty_or_missing_lists_find_no_stream() {
    let full = Some(vec![rep(Some(1), Some(1), "x")]);
    let m = Manifest { video: None, audio: full.clone() };
    assert_eq!(select(&m, Metric::Size).unwrap_err(), NoStreamFound { track: Track::Video });
    let m = Manifest { video: Some(vec![]), audio: full.clone() };
    assert_eq!(select(&m, Metric::Size).unwrap_err(), NoStreamFound { track: Track::Video });
    let m = Manifest { video: full.clone(), audio: None };
    assert_eq!(select(&m, Metric::Bandwidth).unwrap_err(), NoStreamFound { track: Track::Audio });
    let m = Manifest { video: full, audio: Some(vec![]) };
    assert_eq!(select(&m, Metric::Size).unwrap_err(), NoStreamFound { track: Track::Audio });
}

#[test]
fn chosen_representation_without_url_finds_no_stream() {
    let m = Manifest {
        video: Some(vec![rep(Some(1), None, "v0"), Representation { size: Some(2), bandwidth: None, urls: vec![] }]),
        audio: Some(vec![rep(Some(1), None, "a0")]),
    };
    assert_eq!(select(&m, Metric::Size).unwrap_err(), NoStreamFound { track: Track::Video });
    let m = Manifest {
        video: Some(vec![rep(Some(1), None, "v0")]),
        audio: Some(vec![Representation { size: Some(1), bandwidth: None, urls: vec![String::new()] }]),
    };
    assert_eq!(select(&m, Metric::Size).unwrap_err(), NoStreamFound { track: Track::Audio });
}
