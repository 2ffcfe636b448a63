use uploader::tikwm::{
    check_api_status, tikwm_form, video_info_from_response, FetchError, TikWmData, TikWmResponse,
};

fn data(hdplay: Option<&str>, play: Option<&str>, title: Option<&str>, size: Option<u64>) -> TikWmData {
    TikWmData {
        id: Some("1".to_string()),
        title: title.map(|s| s.to_string()),
        play: play.map(|s| s.to_string()),
        hdplay: hdplay.map(|s| s.to_string()),
        size,
    }
}

#[test]
fn hd_link_is_preferred() {
    let r = TikWmResponse {
        code: 0,
        msg: None,
        data: Some(data(Some("https://v/hd.mp4"), Some("https://v/sd.mp4"), Some("Cats"), Some(42))),
    };
    let info = video_info_from_response(r).unwrap();
    assert_eq!(info.download_url, "https://v/hd.mp4");
    assert_eq!(info.title, "Cats");
    assert_eq!(info.size_bytes, Some(42));
}

#[test]
fn empty_hd_link_falls_back_and_relative_links_resolve() {
    let r = TikWmResponse {
        code: 0,
        msg: Some("success".to_string()),
        data: Some(data(Some(""), Some("/video/media/play/1.mp4"), None, None)),
    };
    let info = video_info_from_response(r).unwrap();
    assert_eq!(info.download_url, "https://www.tikwm.com/video/media/play/1.mp4");
    assert_eq!(info.title, "TikTok Video");
    assert_eq!(info.size_bytes, None);
}

#[test]
fn api_errors() {
    let r = TikWmResponse { code: -1, msg: Some("Url parsing is failed!".to_string()), data: None };
    match video_info_from_response(r) {
        Err(FetchError::Api { code, msg }) => {
            assert_eq!(code, -1);
            assert_eq!(msg, "Url parsing is failed!");
        },
        other => panic!("unexpected {:?}", other),
    }
    let r = TikWmResponse { code: 5, msg: None, data: None };
    match video_info_from_response(r) {
        Err(FetchError::Api { msg, .. }) => assert_eq!(msg, "Unknown API error"),
        other => panic!("unexpected {:?}", other),
    }
    let r = TikWmResponse { code: 0, msg: None, data: None };
    assert!(matches!(video_info_from_response(r), Err(FetchError::NoData)));
    let r = TikWmResponse { code: 0, msg: None, data: Some(data(Some(""), None, None, None)) };
    assert!(matches!(video_info_from_response(r), Err(FetchError::NoVideoUrl)));
}

#[test]
fn form_and_status() {
    let f = tikwm_form("https://www.tiktok.com/@a/video/1");
    assert_eq!(
        f,
        vec![
            ("url".to_string(), "https://www.tiktok.com/@a/video/1".to_string()),
            ("hd".to_string(), "1".to_string())
        ]
    );
    assert!(check_api_status(200, "200 OK".into()).is_ok());
    assert!(matches!(check_api_status(500, "500 Internal Server Error".into()), Err(FetchError::Status(_))));
}
