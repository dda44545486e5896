use bili_downloader::resolve::{get_epid_season, resolve_item, ContentKind};

#[test]
fn test_down_main() {
    let (x, y) = get_epid_season("https://www.bilibili.com/bangumi/play/ep249944?spm_id_from=333.1387.0.0&from_spmid=666.25.episode.0");
    println!("{:?}", x);
    println!("{:?}", y);
    assert_eq!(x, "249944");
    assert_eq!(y, "");
}

#[test]
fn season_url_gives_season_id() {
    let (x, y) = get_epid_season("https://www.bilibili.com/bangumi/play/ss28747");
    assert_eq!(x, "");
    assert_eq!(y, "28747");
}

#[test]
fn url_without_ids_gives_nothing() {
    let (x, y) = get_epid_season("https://www.bilibili.com/video/BV1yaBKYfE2D/?p=1");
    assert_eq!(x, "");
    assert_eq!(y, "");
}

#[test]
fn repeated_prefix_is_trimmed() {
    let (x, _) = get_epid_season("https://host/play/epep12?a=b/c");
    assert_eq!(x, "12");
}

#[test]
fn bare_id_is_resolved() {
    let item = resolve_item("https://www.bilibili.com/video/BV1yaBKYfE2D?spm=1").unwrap();
    assert_eq!(item.kind, ContentKind::BareId);
    assert_eq!(item.id, "BV1yaBKYfE2D");
    let item = resolve_item("https://www.bilibili.com/bangumi/play/ep249944").unwrap();
    assert_eq!(item.kind, ContentKind::Episode);
    assert_eq!(item.id, "249944");
    let item = resolve_item("https://www.bilibili.com/bangumi/play/ss100").unwrap();
    assert_eq!(item.kind, ContentKind::Season);
    assert_eq!(item.id, "100");
    assert!(resolve_item("https://www.bilibili.com/").is_none());
}
