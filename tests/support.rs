use bili_downloader::auth::{create_headers, session_is_current, Cookies};
use bili_downloader::progress::ProgressState;

#[test]
fn headers_carry_session_cookie() {
    let c = Cookies { sessdata: "abc%2C123".to_string(), bili_jct: "j".to_string(), refresh_token: "r".to_string() };
    let h = create_headers(&c);
    assert_eq!(h.len(), 3);
    assert_eq!(h[0].0, "User-Agent");
    assert!(h[0].1.starts_with("Mozilla/5.0"));
    assert_eq!(h[1], ("Referer".to_string(), "https://www.bilibili.com".to_string()));
    assert_eq!(h[2], ("Cookie".to_string(), "SESSDATA=abc%2C123".to_string()));
    let e = create_headers(&Cookies::empty());
    assert_eq!(e[2].1, "SESSDATA=");
}

#[test]
fn session_check_needs_code_zero_and_no_refresh() {
    assert!(session_is_current(Some(0), Some(false)));
    assert!(!session_is_current(Some(0), Some(true)));
    assert!(!session_is_current(Some(-101), Some(false)));
    assert!(!session_is_current(None, Some(false)));
    assert!(!session_is_current(Some(0), None));
}

#[test]
fn progress_counts_bytes_and_percent() {
    let mut p = ProgressState::new(Some(200));
    assert_eq!(p.percent(), Some(0));
    p.add_chunk(50);
    assert_eq!(p.downloaded, 50);
    assert_eq!(p.percent(), Some(25));
    p.add_chunk(300);
    assert_eq!(p.percent(), Some(100));
    let mut q = ProgressState::new(None);
    q.add_chunk(10);
    assert_eq!(q.total, 0);
    assert_eq!(q.percent(), None);
    let mut r = ProgressState { downloaded: u64::MAX - 1, total: u64::MAX };
    r.add_chunk(5);
    assert_eq!(r.downloaded, u64::MAX);
    assert_eq!(r.percent(), Some(100));
}
