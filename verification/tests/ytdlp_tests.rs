use uploader::download::DownloadError;
use uploader::ytdlp::{check_tool_exit, locate_output, matching_outputs, new_output_names, output_stem, output_template, tool_args};

#[test]
fn names() {
    assert_eq!(output_stem("abc"), "ytdlp_abc");
    assert_eq!(output_template("abc"), "ytdlp_abc.%(ext)s");
    let (stem, template) = new_output_names();
    assert_eq!(stem.len(), 42);
    assert!(stem.starts_with("ytdlp_"));
    assert_eq!(template, format!("{}.%(ext)s", stem));
    let (stem2, _) = new_output_names();
    assert_ne!(stem, stem2);
}

#[test]
fn args_plain() {
    let a = tool_args("/tmp/ytdlp_x.%(ext)s", "https://a.com/v.mp4", 50 * 1024 * 1024, None, None);
    let expected: Vec<String> = [
        "--no-playlist",
        "--no-warnings",
        "--no-progress",
        "-f",
        "best[ext=mp4]/best[ext=webm]/best",
        "--max-filesize",
        "50M",
        "--extractor-args",
        "generic:impersonate",
        "-o",
        "/tmp/ytdlp_x.%(ext)s",
        "https://a.com/v.mp4",
    ]
    .iter()
    .map(|s| s.to_string())
    .collect();
    assert_eq!(a, expected);
}

#[test]
fn args_with_settings() {
    let a = tool_args("t", "u", 3 * 1024 * 1024 + 5, Some("/c.txt".into()), Some("  --retries 3\t-v ".into()));
    assert_eq!(a[6], "3M");
    assert_eq!(&a[12..], &["--cookies", "/c.txt", "--retries", "3", "-v"]);
    let b = tool_args("t", "u", 0, Some(String::new()), Some("   ".into()));
    assert_eq!(b.len(), 12);
    assert_eq!(b[6], "0M");
}

#[test]
fn output_lookup() {
    let names = vec!["other.mp4".to_string(), "ytdlp_ab.webm".to_string(), "ytdlp_ab.mp4".to_string()];
    assert_eq!(locate_output(&names, "ytdlp_ab", "").unwrap(), 1);
    match locate_output(&names, "ytdlp_zz", "  boom \n") {
        Err(DownloadError::ToolOutputMissing(e)) => assert_eq!(e, "boom"),
        other => panic!("unexpected {:?}", other),
    }
}

#[test]
fn tool_exit() {
    assert!(check_tool_exit(true, "x", "y").is_ok());
    match check_tool_exit(false, " out \n", "\terr ") {
        Err(DownloadError::ToolFailed { stdout, stderr }) => {
            assert_eq!(stdout, "out");
            assert_eq!(stderr, "err");
        },
        other => panic!("unexpected {:?}", other),
    }
}

#[test]
fn all_outputs_are_found() {
    let names = vec![
        "ytdlp_ab.mp4.part".to_string(),
        "x".to_string(),
        "ytdlp_ab.mp4".to_string(),
        "ytdlp_ac.mp4".to_string(),
    ];
    assert_eq!(matching_outputs(&names, "ytdlp_ab"), vec![0, 2]);
    assert!(matching_outputs(&names, "zzz").is_empty());
}
