//! Classifying chat messages and reading file names out of video links.
use vstd::prelude::*;
use crate::text::{
    chars_of, contains, contains_spec, ends_with, ends_with_spec, starts_with, starts_with_spec,
    all_ascii, all_space, ascii_lower, ascii_upper, law_ascii_case,
    law_trim_ignores_surrounding_space, string_of, to_lowercase, trim, trim_spec, unicode_lowercase,
};

verus! {

/// The part of `s` after the last `c` (all of `s` if there is none).
pub open spec fn after_last(s: Seq<char>, c: char) -> Seq<char>
    decreases s.len(),
{
    if s.len() == 0 {
        s
    } else if s.last() == c {
        Seq::empty()
    } else {
        after_last(s.drop_last(), c).push(s.last())
    }
}

/// The part of `s` before the first `c` (all of `s` if there is none).
pub open spec fn before_first(s: Seq<char>, c: char) -> Seq<char>
    decreases s.len(),
{
    if s.len() == 0 {
        s
    } else if s[0] == c {
        Seq::empty()
    } else {
        seq![s[0]] + before_first(s.drop_first(), c)
    }
}

/// The index just after the last `c` in `v` (0 if there is none).
fn start_after_last(v: &Vec<char>, c: char) -> (j: usize)
    ensures
        j <= v.len(),
        after_last(v@, c) == v@.subrange(j as int, v.len() as int),
{
    let n = v.len();
    let mut j: usize = n;
    assert(v@.take(n as int) =~= v@);
    while j > 0 && v[j - 1] != c
        invariant
            n == v.len(),
            j <= n,
            after_last(v@, c) == after_last(v@.take(j as int), c) + v@.subrange(j as int, n as int),
        decreases j,
    {
        let ghost t = v@.take(j as int);
        assert(t.drop_last() =~= v@.take(j - 1));
        assert(t.last() == v@[j - 1]);
        assert(after_last(t, c) == after_last(v@.take(j - 1), c).push(v@[j - 1]));
        assert(after_last(v@.take(j - 1), c).push(v@[j - 1]) + v@.subrange(j as int, n as int)
            =~= after_last(v@.take(j - 1), c) + v@.subrange(j - 1, n as int));
        j -= 1;
    }
    if j > 0 {
        assert(v@.take(j as int).last() == v@[j - 1]);
    }
    assert(after_last(v@.take(j as int), c) =~= Seq::<char>::empty());
    assert(Seq::<char>::empty() + v@.subrange(j as int, n as int) =~= v@.subrange(j as int, n as int));
    j
}

/// The index of the first `c` in `v` (`v.len()` if there is none).
fn first_index(v: &Vec<char>, c: char) -> (i: usize)
    ensures
        i <= v.len(),
        before_first(v@, c) == v@.take(i as int),
{
    let n = v.len();
    let mut i: usize = 0;
    assert(v@.skip(0) =~= v@);
    assert(v@.take(0) + v@ =~= v@);
    while i < n && v[i] != c
        invariant
            n == v.len(),
            i <= n,
            before_first(v@, c) == v@.take(i as int) + before_first(v@.skip(i as int), c),
        decreases n - i,
    {
        let ghost t = v@.skip(i as int);
        assert(t[0] == v@[i as int]);
        assert(t.drop_first() =~= v@.skip(i + 1));
        assert(v@.take(i as int) + (seq![v@[i as int]] + before_first(v@.skip(i + 1), c))
            =~= v@.take(i + 1) + before_first(v@.skip(i + 1), c));
        i += 1;
    }
    if i < n {
        assert(v@.skip(i as int)[0] == v@[i as int]);
    }
    assert(before_first(v@.skip(i as int), c) =~= Seq::<char>::empty());
    assert(v@.take(i as int) + Seq::<char>::empty() =~= v@.take(i as int));
    i
}

/// Whether `c` occurs in `v`.
fn has_char(v: &Vec<char>, c: char) -> (r: bool)
    ensures
        r == v@.contains(c),
{
    let mut i: usize = 0;
    while i < v.len()
        invariant
            i <= v.len(),
            forall|j: int| 0 <= j < i ==> v@[j] != c,
        decreases v.len() - i,
    {
        if v[i] == c {
            return true;
        }
        i += 1;
    }
    false
}

/// The file name a download from `url` is stored and uploaded under: the last
/// path segment without its query, or `video.mp4` when that is empty or has no dot.
pub open spec fn filename_spec(url: Seq<char>) -> Seq<char> {
    let clean = before_first(after_last(url, '/'), '?');
    if clean.len() == 0 || !clean.contains('.') {
        "video.mp4"@
    } else {
        clean
    }
}

proof fn lemma_after_last_suffix(s: Seq<char>, c: char)
    ensures
        after_last(s, c).len() <= s.len(),
        after_last(s, c) == s.subrange(s.len() - after_last(s, c).len(), s.len() as int),
        forall|i: int| 0 <= i < after_last(s, c).len() ==> #[trigger] after_last(s, c)[i] != c,
    decreases s.len(),
{
    if s.len() > 0 && s.last() != c {
        lemma_after_last_suffix(s.drop_last(), c);
        let t = after_last(s.drop_last(), c);
        assert(t.push(s.last()) =~= s.subrange(s.len() - t.len() - 1, s.len() as int));
    } else if s.len() > 0 {
        assert(s.subrange(s.len() as int, s.len() as int) =~= Seq::<char>::empty());
    } else {
        assert(s.subrange(0, 0) =~= s);
    }
}

proof fn lemma_before_first_prefix(s: Seq<char>, c: char)
    ensures
        before_first(s, c).len() <= s.len(),
        before_first(s, c) == s.subrange(0, before_first(s, c).len() as int),
        forall|i: int| 0 <= i < before_first(s, c).len() ==> #[trigger] before_first(s, c)[i] != c,
    decreases s.len(),
{
    if s.len() > 0 && s[0] != c {
        lemma_before_first_prefix(s.drop_first(), c);
        let t = before_first(s.drop_first(), c);
        assert(seq![s[0]] + t =~= s.subrange(0, t.len() + 1 as int));
        assert forall|i: int| 0 <= i < (seq![s[0]] + t).len() implies #[trigger] (seq![s[0]]
            + t)[i] != c by {
            if i > 0 {
                assert((seq![s[0]] + t)[i] == t[i - 1]);
            }
        }
    } else {
        assert(s.subrange(0, 0) =~= Seq::<char>::empty());
    }
}

/// Law: the file name of any link is a usable file name in one directory: it is
/// not empty, has a dot, and holds no `/` and no `?`.
pub proof fn law_filename_is_plain(url: Seq<char>)
    ensures
        filename_spec(url).len() > 0,
        filename_spec(url).contains('.'),
        !filename_spec(url).contains('/'),
        !filename_spec(url).contains('?'),
{
    let seg = after_last(url, '/');
    let clean = before_first(seg, '?');
    lemma_after_last_suffix(url, '/');
    lemma_before_first_prefix(seg, '?');
    if clean.len() == 0 || !clean.contains('.') {
        reveal_strlit("video.mp4");
        assert("video.mp4"@[5] == '.');
    } else {
        assert forall|k: int| 0 <= k < clean.len() implies clean[k] != '/' && clean[k] != '?' by {
            assert(clean[k] == seg[k]);
        }
    }
}

proof fn lemma_after_last_free(y: Seq<char>, c: char)
    requires
        !y.contains(c),
    ensures
        after_last(y, c) == y,
    decreases y.len(),
{
    if y.len() > 0 {
        assert(y.last() == y[y.len() - 1]);
        assert forall|i: int| 0 <= i < y.drop_last().len() implies y.drop_last()[i] != c by {
            assert(y.drop_last()[i] == y[i]);
        }
        lemma_after_last_free(y.drop_last(), c);
        assert(y.drop_last().push(y.last()) =~= y);
    }
}

proof fn lemma_after_last_sep(x: Seq<char>, c: char, y: Seq<char>)
    requires
        !y.contains(c),
    ensures
        after_last(x + seq![c] + y, c) == y,
    decreases y.len(),
{
    let z = x + seq![c] + y;
    if y.len() == 0 {
        assert(z.last() == c);
        assert(after_last(z, c) =~= y);
    } else {
        assert(z.last() == y.last());
        assert(y.last() == y[y.len() - 1]);
        assert(z.drop_last() =~= x + seq![c] + y.drop_last());
        assert forall|i: int| 0 <= i < y.drop_last().len() implies y.drop_last()[i] != c by {
            assert(y.drop_last()[i] == y[i]);
        }
        lemma_after_last_sep(x, c, y.drop_last());
        assert(y.drop_last().push(y.last()) =~= y);
    }
}

proof fn lemma_before_first_free(f: Seq<char>, c: char)
    requires
        !f.contains(c),
    ensures
        before_first(f, c) == f,
    decreases f.len(),
{
    if f.len() > 0 {
        assert forall|i: int| 0 <= i < f.drop_first().len() implies f.drop_first()[i] != c by {
            assert(f.drop_first()[i] == f[i + 1]);
        }
        lemma_before_first_free(f.drop_first(), c);
        assert(seq![f[0]] + f.drop_first() =~= f);
    }
}

proof fn lemma_before_first_sep(f: Seq<char>, c: char, q: Seq<char>)
    requires
        !f.contains(c),
    ensures
        before_first(f + seq![c] + q, c) == f,
    decreases f.len(),
{
    let z = f + seq![c] + q;
    if f.len() == 0 {
        assert(z[0] == c);
        assert(before_first(z, c) =~= f);
    } else {
        assert(z[0] == f[0]);
        assert(z.drop_first() =~= f.drop_first() + seq![c] + q);
        assert forall|i: int| 0 <= i < f.drop_first().len() implies f.drop_first()[i] != c by {
            assert(f.drop_first()[i] == f[i + 1]);
        }
        lemma_before_first_sep(f.drop_first(), c, q);
        assert(seq![f[0]] + f.drop_first() =~= f);
    }
}

/// Law: a link whose last path segment `f` has a dot (and no `/` or `?`) gives
/// `f` as its file name, whatever comes before the last `/` and whatever query
/// (without `/`) follows `f`.
pub proof fn law_filename_is_last_segment(p: Seq<char>, f: Seq<char>, q: Seq<char>)
    requires
        f.contains('.'),
        !f.contains('/'),
        !f.contains('?'),
        !q.contains('/'),
    ensures
        filename_spec(f) == f,
        filename_spec(p + "/"@ + f) == f,
        filename_spec(p + "/"@ + f + "?"@ + q) == f,
{
    reveal_strlit("/");
    reveal_strlit("?");
    assert("/"@ =~= seq!['/']);
    assert("?"@ =~= seq!['?']);
    lemma_after_last_free(f, '/');
    lemma_before_first_free(f, '?');
    lemma_after_last_sep(p, '/', f);
    let fq = f + seq!['?'] + q;
    assert forall|i: int| 0 <= i < fq.len() implies fq[i] != '/' by {
        if i < f.len() {
            assert(fq[i] == f[i]);
        } else if i > f.len() {
            assert(fq[i] == q[i - f.len() - 1]);
        }
    }
    assert(!fq.contains('/'));
    assert(p + "/"@ + f + "?"@ + q =~= p + seq!['/'] + fq);
    lemma_after_last_sep(p, '/', fq);
    lemma_before_first_sep(f, '?', q);
}

/// The file name for a direct video link.
pub fn extract_filename_from_url(url: &str) -> (r: String)
    ensures
        r@ == filename_spec(url@),
{
    let v = chars_of(url);
    let j = start_after_last(&v, '/');
    let mut seg: Vec<char> = Vec::new();
    let mut k: usize = j;
    while k < v.len()
        invariant
            j <= k <= v.len(),
            seg@ == v@.subrange(j as int, k as int),
        decreases v.len() - k,
    {
        seg.push(v[k]);
        assert(v@.subrange(j as int, k + 1) =~= v@.subrange(j as int, k as int).push(v@[k as int]));
        k += 1;
    }
    let i = first_index(&seg, '?');
    let mut clean: Vec<char> = Vec::new();
    let mut m: usize = 0;
    while m < i
        invariant
            i <= seg.len(),
            m <= i,
            clean@ == seg@.take(m as int),
        decreases i - m,
    {
        clean.push(seg[m]);
        assert(seg@.take(m + 1) =~= seg@.take(m as int).push(seg@[m as int]));
        m += 1;
    }
    if clean.len() == 0 || !has_char(&clean, '.') {
        String::from_str("video.mp4")
    } else {
        string_of(&clean)
    }
}


/// A lower-cased, trimmed text that the bot treats as a direct video link:
/// an `http://` or `https://` URL that ends with a video extension or has a
/// `/videos/` path.
pub open spec fn looks_like_video(lower: Seq<char>) -> bool {
    &&& (starts_with_spec(lower, "http://"@) || starts_with_spec(lower, "https://"@))
    &&& {
        ||| ends_with_spec(lower, ".mp4"@)
        ||| ends_with_spec(lower, ".webm"@)
        ||| ends_with_spec(lower, ".mkv"@)
        ||| ends_with_spec(lower, ".mov"@)
        ||| ends_with_spec(lower, ".m4v"@)
        ||| contains_spec(lower, "/videos/"@)
    }
}

/// Law: an `http://` or `https://` link that ends with `.mp4`, `.webm`, `.mkv`,
/// `.mov` or `.m4v`, or has a `/videos/` path, is a video link, whichever of
/// the two schemes it uses.
pub proof fn law_video_markers_accepted(lower: Seq<char>)
    requires
        starts_with_spec(lower, "http://"@) || starts_with_spec(lower, "https://"@),
        ends_with_spec(lower, ".mp4"@) || ends_with_spec(lower, ".webm"@) || ends_with_spec(
            lower,
            ".mkv"@,
        ) || ends_with_spec(lower, ".mov"@) || ends_with_spec(lower, ".m4v"@) || contains_spec(
            lower,
            "/videos/"@,
        ),
    ensures
        looks_like_video(lower),
{
}

/// Law: a text that starts with neither `http://` nor `https://` is no video link.
pub proof fn law_non_http_rejected(lower: Seq<char>)
    requires
        !starts_with_spec(lower, "http://"@),
        !starts_with_spec(lower, "https://"@),
    ensures
        !looks_like_video(lower),
{
}

/// Law: a text without a video extension at its end and without a `/videos/`
/// path is no video link.
pub proof fn law_unmarked_rejected(lower: Seq<char>)
    requires
        !ends_with_spec(lower, ".mp4"@),
        !ends_with_spec(lower, ".webm"@),
        !ends_with_spec(lower, ".mkv"@),
        !ends_with_spec(lower, ".mov"@),
        !ends_with_spec(lower, ".m4v"@),
        !contains_spec(lower, "/videos/"@),
    ensures
        !looks_like_video(lower),
{
}

/// The lowercase form of a text: the ASCII mapping for ASCII text, the Unicode
/// mapping otherwise.
pub open spec fn lowercase_of(s: Seq<char>) -> Seq<char> {
    if all_ascii(s) {
        ascii_lower(s)
    } else {
        unicode_lowercase(s)
    }
}

/// Whether the text looks like a direct video/media URL the bot can download.
pub open spec fn is_direct_video_url_spec(text: Seq<char>) -> bool {
    looks_like_video(lowercase_of(trim_spec(text)))
}

/// Classifies an already lower-cased text (see `looks_like_video`).
pub fn looks_like_video_url(lower: &str) -> (r: bool)
    ensures
        r == looks_like_video(lower@),
{
    let v = chars_of(lower);
    if !(starts_with(&v, &chars_of("http://")) || starts_with(&v, &chars_of("https://"))) {
        return false;
    }
    ends_with(&v, &chars_of(".mp4")) || ends_with(&v, &chars_of(".webm")) || ends_with(
        &v,
        &chars_of(".mkv"),
    ) || ends_with(&v, &chars_of(".mov")) || ends_with(&v, &chars_of(".m4v")) || contains(
        &v,
        &chars_of("/videos/"),
    )
}

/// Returns true if the text looks like a direct video/media URL we can download.
pub fn is_direct_video_url(text: &str) -> (r: bool)
    ensures
        r == is_direct_video_url_spec(text@),
{
    let trimmed = trim(text);
    let lower = to_lowercase(trimmed.as_str());
    looks_like_video_url(lower.as_str())
}

/// Law: whitespace around a link does not change whether it is a direct video link.
pub proof fn law_direct_ignores_surrounding_space(w1: Seq<char>, text: Seq<char>, w2: Seq<char>)
    requires
        all_space(w1),
        all_space(w2),
    ensures
        is_direct_video_url_spec(w1 + text + w2) == is_direct_video_url_spec(text),
{
    law_trim_ignores_surrounding_space(w1, text, w2);
}

/// Law: the case of the ASCII letters of a link does not change whether it is a
/// direct video link.  For a link with non-ASCII characters (after trimming)
/// this rests on the Unicode lowercase mapping not telling the two cases of an
/// ASCII letter apart in it, which is the premise of the law there.
pub proof fn law_direct_ignores_ascii_case(text: Seq<char>)
    ensures
        (all_ascii(trim_spec(text)) || unicode_lowercase(ascii_upper(trim_spec(text)))
            == unicode_lowercase(trim_spec(text))) ==> is_direct_video_url_spec(ascii_upper(text))
            == is_direct_video_url_spec(text),
{
    law_ascii_case(text);
    law_ascii_case(trim_spec(text));
}

/// What the bot does with an incoming text message.
#[derive(Debug, PartialEq, Eq)]
pub enum Route {
    /// A TikTok link, to be fetched through the TikWM API.
    TikTok(String),
    /// A direct video link, to be downloaded as it is.
    Direct(String),
    /// The `/start` command: answer with the usage text.
    Welcome,
    /// Anything else: no answer.
    Ignore,
}

/// How a message text is routed: TikTok links first, then direct links, then `/start`.
pub open spec fn route_spec(text: Seq<char>) -> (Seq<char>, int) {
    let t = trim_spec(text);
    if contains_spec(t, "tiktok.com"@) {
        (t, 0)
    } else if is_direct_video_url_spec(t) {
        (t, 1)
    } else if starts_with_spec(t, "/start"@) {
        (t, 2)
    } else {
        (t, 3)
    }
}

/// Law: every text whose trimmed form contains `tiktok.com` is routed as a
/// TikTok link carrying that trimmed form, and no other text is.
pub proof fn law_tiktok_route(text: Seq<char>)
    ensures
        contains_spec(trim_spec(text), "tiktok.com"@) ==> route_spec(text) == (trim_spec(text), 0int),
        route_spec(text).1 == 0 ==> contains_spec(trim_spec(text), "tiktok.com"@),
{
}

/// Law: a text that is no TikTok link is routed as a direct link, carrying its
/// trimmed form, exactly when that trimmed form is a direct video link; and as
/// `/start` exactly when it is neither and starts with `/start`.
pub proof fn law_other_routes(text: Seq<char>)
    requires
        !contains_spec(trim_spec(text), "tiktok.com"@),
    ensures
        is_direct_video_url_spec(trim_spec(text)) ==> route_spec(text) == (trim_spec(text), 1int),
        route_spec(text).1 == 1 ==> is_direct_video_url_spec(trim_spec(text)),
        route_spec(text).1 == 2 <==> !is_direct_video_url_spec(trim_spec(text)) && starts_with_spec(
            trim_spec(text),
            "/start"@,
        ),
{
}

/// The route of a `Route` value, as a number, and the link it carries.
pub open spec fn route_view(r: Route) -> (Seq<char>, int) {
    match r {
        Route::TikTok(s) => (s@, 0),
        Route::Direct(s) => (s@, 1),
        Route::Welcome => (Seq::empty(), 2),
        Route::Ignore => (Seq::empty(), 3),
    }
}

/// Routes the text of an incoming message.
pub fn route_message(text: &str) -> (r: Route)
    ensures
        route_view(r).1 == route_spec(text@).1,
        route_view(r).1 < 2 ==> route_view(r).0 == route_spec(text@).0,
{
    let trimmed = trim(text);
    let v = chars_of(trimmed.as_str());
    if contains(&v, &chars_of("tiktok.com")) {
        Route::TikTok(trimmed)
    } else if is_direct_video_url(trimmed.as_str()) {
        Route::Direct(trimmed)
    } else if starts_with(&v, &chars_of("/start")) {
        Route::Welcome
    } else {
        Route::Ignore
    }
}

} // verus!
