use uploader::links::{extract_filename_from_url, is_direct_video_url, route_message, Route};

#[test]
fn readme_example_is_direct() {
    assert!(is_direct_video_url("https://jilhub.org/contents/videos/11000/11058/11058.mp4"));
}

#[test]
fn direct_url_variants() {
    assert!(is_direct_video_url("http://example.com/clip.webm"));
    assert!(is_direct_video_url("  HTTPS://EXAMPLE.COM/CLIP.MKV  "));
    assert!(is_direct_video_url("https://example.com/videos/123"));
    assert!(is_direct_video_url("https://example.com/movie.MOV"));
    assert!(is_direct_video_url("https://example.com/movie.m4v"));
}

#[test]
fn non_direct_texts() {
    assert!(!is_direct_video_url("ftp://example.com/clip.mp4"));
    assert!(!is_direct_video_url("https://example.com/page.html"));
    assert!(!is_direct_video_url("example.com/clip.mp4"));
    assert!(!is_direct_video_url(""));
    assert!(!is_direct_video_url("hello"));
}

#[test]
fn only_extensions_and_videos_paths_count() {
    assert!(!is_direct_video_url("http://a/video/"));
    assert!(!is_direct_video_url("https://cdn.example.com/a.mp4?token=1"));
    assert!(!is_direct_video_url("https://example.com/x/contents/videos"));
    assert!(is_direct_video_url("https://example.com/x/contents/videos/1"));
}

#[test]
fn classification_ignores_case_and_surrounding_space() {
    for s in ["https://a.com/x.mp4", "https://a.com/page", "http://a/videos/1", "ftp://a.mkv"].iter() {
        let expected = is_direct_video_url(s);
        assert_eq!(is_direct_video_url(&s.to_ascii_uppercase()), expected);
        assert_eq!(is_direct_video_url(&format!(" \t\n{}\r\n ", s)), expected);
    }
}

#[test]
fn filename_from_readme_example() {
    assert_eq!(
        extract_filename_from_url("https://jilhub.org/contents/videos/11000/11058/11058.mp4"),
        "11058.mp4"
    );
}

#[test]
fn filename_edge_cases() {
    assert_eq!(extract_filename_from_url("https://a.com/b/c.mp4?x=1&y=2"), "c.mp4");
    assert_eq!(extract_filename_from_url("https://a.com/b/"), "video.mp4");
    assert_eq!(extract_filename_from_url("https://a.com/b/noext"), "video.mp4");
    assert_eq!(extract_filename_from_url("https://a.com/b/?q=1.2"), "video.mp4");
    assert_eq!(extract_filename_from_url("clip.webm"), "clip.webm");
    assert_eq!(extract_filename_from_url(""), "video.mp4");
    assert_eq!(extract_filename_from_url("https://a.com/x.y.z?a?b"), "x.y.z");
}

#[test]
fn routing() {
    assert_eq!(
        route_message("  https://www.tiktok.com/@u/video/1  "),
        Route::TikTok("https://www.tiktok.com/@u/video/1".to_string())
    );
    assert_eq!(
        route_message("https://vm.tiktok.com/abc.mp4"),
        Route::TikTok("https://vm.tiktok.com/abc.mp4".to_string())
    );
    assert_eq!(
        route_message(" https://x.com/a.mp4\n"),
        Route::Direct("https://x.com/a.mp4".to_string())
    );
    assert_eq!(route_message("/start"), Route::Welcome);
    assert_eq!(route_message("  /start@bot"), Route::Welcome);
    assert_eq!(route_message("hi there"), Route::Ignore);
    assert_eq!(route_message("HTTPS://TIKTOK.COM/x"), Route::Ignore);
}

#[test]
fn filenames_are_plain() {
    for u in ["https://a.com/", "?", "a/b?c/d", "https://x.com/p/q.r?s=t/u", "///", "a.b/"].iter() {
        let f = extract_filename_from_url(u);
        assert!(!f.is_empty());
        assert!(f.contains('.'));
        assert!(!f.contains('/') && !f.contains('?'));
    }
}

#[test]
fn ascii_case_ignored_with_non_ascii_text() {
    for s in ["https://bücher.de/clip.mp4", "https://ä.com/page", "https://x.com/Ö/videos/1"].iter() {
        assert_eq!(is_direct_video_url(&s.to_ascii_uppercase()), is_direct_video_url(s));
    }
}
