use uploader::text::{chars_of, decimal, is_space, split_whitespace, string_of, trim};

#[test]
fn space_matches_std_whitespace() {
    for u in 0u32..0x110000 {
        if let Some(c) = char::from_u32(u) {
            assert_eq!(is_space(c), c.is_whitespace());
        }
    }
}

#[test]
fn trim_matches_std_trim() {
    let samples = [
        "",
        "   ",
        "abc",
        "  abc  ",
        "\t\n https://x.com/a.mp4 \r\n",
        "\u{3000}全角\u{3000}",
        "\u{a0}a b\u{2029}",
        " a  b ",
    ];
    for s in samples.iter() {
        assert_eq!(trim(s), s.trim());
    }
}

#[test]
fn split_whitespace_matches_std() {
    let samples = ["", "  ", "a", " --format  best \t--retries 3\n", "x\u{2003}y", "日本 語"];
    for s in samples.iter() {
        let expected: Vec<String> = s.split_whitespace().map(|w| w.to_string()).collect();
        assert_eq!(split_whitespace(s), expected);
    }
}

#[test]
fn decimal_matches_to_string() {
    for n in [0u64, 7, 10, 49, 50, 1234567890, u64::MAX] {
        assert_eq!(decimal(n), n.to_string());
    }
}

#[test]
fn chars_round_trip() {
    let s = "héllo wörld";
    assert_eq!(string_of(&chars_of(s)), s);
}

#[test]
fn trimming_twice_is_trimming_once() {
    for s in ["  a b  ", "\u{2028}x\u{85}", "", " \t "].iter() {
        let once = trim(s);
        assert_eq!(trim(&once), once);
        assert!(once.is_empty() || (!once.starts_with(char::is_whitespace) && !once.ends_with(char::is_whitespace)));
    }
}

#[test]
fn words_are_nonempty_and_spaceless() {
    for w in split_whitespace("  a\u{3000}bb \n ccc\t") {
        assert!(!w.is_empty());
        assert!(!w.chars().any(char::is_whitespace));
    }
}
