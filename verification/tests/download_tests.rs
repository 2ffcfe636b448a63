use uploader::download::{
    browser_headers, check_payload, check_response_head, cookies_setting, headers_for_origin,
    is_success, origin_from_url, probe_size, DownloadError, HeaderField,
};

#[test]
fn origin_of_urls() {
    assert_eq!(
        origin_from_url("https://jilhub.org/contents/videos/11000/11058/11058.mp4"),
        "https://jilhub.org/"
    );
    assert_eq!(origin_from_url("HTTP://Example.COM:8080/a?b"), "http://example.com/");
    assert_eq!(origin_from_url("not a url"), "not a url");
    assert_eq!(origin_from_url("mailto:someone@example.com"), "mailto:someone@example.com");
}

#[test]
fn headers_without_cookies() {
    let h = browser_headers("https://jilhub.org/v/1.mp4", &None);
    assert_eq!(
        h,
        vec![
            (HeaderField::Accept, "*/*".to_string()),
            (HeaderField::AcceptLanguage, "en-US,en;q=0.9".to_string()),
            (HeaderField::Referer, "https://jilhub.org/".to_string()),
            (HeaderField::Origin, "https://jilhub.org/".to_string()),
        ]
    );
}

#[test]
fn headers_with_cookies() {
    let h = browser_headers("https://a.com/x.mp4", &Some("sid=1".to_string()));
    assert_eq!(h.len(), 5);
    assert_eq!(h[4], (HeaderField::Cookie, "sid=1".to_string()));
}

#[test]
fn invalid_header_values_are_left_out() {
    let h = headers_for_origin("bad\norigin", &Some("a\u{7f}b".to_string()));
    assert_eq!(
        h,
        vec![
            (HeaderField::Accept, "*/*".to_string()),
            (HeaderField::AcceptLanguage, "en-US,en;q=0.9".to_string()),
        ]
    );
    let h = headers_for_origin("tab\tand ünïcode", &None);
    assert_eq!(h.len(), 4);
}

#[test]
fn cookie_setting() {
    assert_eq!(cookies_setting(None), None);
    assert_eq!(cookies_setting(Some("   ".to_string())), None);
    assert_eq!(cookies_setting(Some(" a=1; b=2 \n".to_string())), Some("a=1; b=2".to_string()));
}

#[test]
fn success_statuses() {
    assert!(is_success(200));
    assert!(is_success(299));
    assert!(!is_success(199));
    assert!(!is_success(300));
    assert!(!is_success(404));
}

#[test]
fn probe() {
    assert_eq!(probe_size(200, Some(10)), Some(10));
    assert_eq!(probe_size(200, None), None);
    assert_eq!(probe_size(403, Some(10)), None);
}

#[test]
fn response_head() {
    assert!(check_response_head(200, "200 OK".into(), None, 100).is_ok());
    assert!(check_response_head(200, "200 OK".into(), Some(100), 100).is_ok());
    assert!(matches!(
        check_response_head(200, "200 OK".into(), Some(101), 100),
        Err(DownloadError::DeclaredTooLarge(101))
    ));
    match check_response_head(404, "404 Not Found".into(), Some(1), 100) {
        Err(DownloadError::Status(t)) => assert_eq!(t, "404 Not Found"),
        other => panic!("unexpected {:?}", other),
    }
}

#[test]
fn payload() {
    assert!(check_payload(1, 100, false).is_ok());
    assert!(check_payload(100, 100, true).is_ok());
    assert!(matches!(check_payload(101, 100, false), Err(DownloadError::TooLarge(101))));
    assert!(matches!(check_payload(0, 100, false), Err(DownloadError::Empty)));
    assert!(matches!(check_payload(0, 100, true), Err(DownloadError::ToolEmpty)));
}

#[test]
fn origin_of_an_origin_is_itself() {
    for u in [
        "https://jilhub.org/contents/videos/1.mp4",
        "HTTP://Example.COM:8080/a?b",
        "http://[::1]:9/x",
        "https://bücher.de/v.mp4",
        "foo://host/path",
        "not a url",
        "mailto:a@b.c",
    ] {
        let o = origin_from_url(u);
        assert_eq!(origin_from_url(&o), o);
    }
}
