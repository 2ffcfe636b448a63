//! The yt-dlp fallback: its command line, where its output lands, and how its
//! outcome is judged.
use vstd::prelude::*;
use crate::download::{opt_view, DownloadError};
use crate::naming::{is_uuid_text, random_uuid_text};
use crate::text::{
    chars_of, decimal, decimal_spec, split_whitespace, starts_with, starts_with_spec, trim,
    trim_spec, views_of, words_spec,
};

verus! {

/// The file stem yt-dlp writes to for download `id`.
pub open spec fn stem_spec(id: Seq<char>) -> Seq<char> {
    "ytdlp_"@ + id
}

/// The output file stem for download `id`.
pub fn output_stem(id: &str) -> (r: String)
    ensures
        r@ == stem_spec(id@),
{
    let mut s = String::from_str("ytdlp_");
    s.append(id);
    s
}

/// The output template for download `id`; yt-dlp puts the real extension in place of `%(ext)s`.
pub fn output_template(id: &str) -> (r: String)
    ensures
        r@ == stem_spec(id@) + ".%(ext)s"@,
{
    let mut s = output_stem(id);
    s.append(".%(ext)s");
    s
}

/// The stem and template of a new fallback download, under a fresh random identifier.
pub fn new_output_names() -> (r: (String, String))
    ensures
        exists|id: Seq<char>|
            is_uuid_text(id) && r.0@ == stem_spec(id) && r.1@ == stem_spec(id) + ".%(ext)s"@,
{
    let id = random_uuid_text();
    let stem = output_stem(id.as_str());
    let template = output_template(id.as_str());
    (stem, template)
}

/// The `--max-filesize` value for a limit of `max_bytes`: whole megabytes, suffixed `M`.
pub open spec fn size_arg(max_bytes: u64) -> Seq<char> {
    decimal_spec((max_bytes / 1048576u64) as nat) + "M"@
}

/// Law: the size limit is passed in whole megabytes, rounded down: any limit
/// of `k` megabytes and `r` more bytes (`r` below a megabyte) is passed as `kM`.
pub proof fn law_size_arg_whole_megabytes(k: u64, r: u64)
    requires
        r < 1048576,
        k * 1048576 + r <= u64::MAX,
    ensures
        size_arg((k * 1048576 + r) as u64) == decimal_spec(k as nat) + "M"@,
{
    assert(((k * 1048576 + r) as u64) / 1048576u64 == k) by (nonlinear_arith)
        requires
            r < 1048576,
            k * 1048576 + r <= u64::MAX,
    ;
}

/// The arguments yt-dlp is run with.
pub open spec fn args_spec(
    template: Seq<char>,
    video_url: Seq<char>,
    max_bytes: u64,
    cookies_file: Option<Seq<char>>,
    extra: Option<Seq<char>>,
) -> Seq<Seq<char>> {
    let base = seq![
        "--no-playlist"@,
        "--no-warnings"@,
        "--no-progress"@,
        "-f"@,
        "best[ext=mp4]/best[ext=webm]/best"@,
        "--max-filesize"@,
        size_arg(max_bytes),
        "--extractor-args"@,
        "generic:impersonate"@,
        "-o"@,
        template,
        video_url,
    ];
    let with_cookies = match cookies_file {
        Some(c) => if c.len() > 0 {
            base + seq!["--cookies"@, c]
        } else {
            base
        },
        None => base,
    };
    match extra {
        Some(e) => with_cookies + words_spec(e),
        None => with_cookies,
    }
}

/// The words of the extra-argument setting, none when it is unset.
pub open spec fn extra_words(extra: Option<Seq<char>>) -> Seq<Seq<char>> {
    match extra {
        Some(e) => words_spec(e),
        None => Seq::empty(),
    }
}

/// Law: the command line is the twelve fixed arguments (format, size limit,
/// output template, link), then `--cookies` and the cookie file when one is
/// configured and not empty, then the words of the extra setting; whether
/// cookies are passed does not depend on the extra setting.
pub proof fn law_tool_args_layout(
    template: Seq<char>,
    video_url: Seq<char>,
    max_bytes: u64,
    cookies_file: Option<Seq<char>>,
    extra: Option<Seq<char>>,
)
    ensures
        ({
            let a = args_spec(template, video_url, max_bytes, cookies_file, extra);
            &&& a.len() >= 12
            &&& a.subrange(0, 12) == seq![
                "--no-playlist"@,
                "--no-warnings"@,
                "--no-progress"@,
                "-f"@,
                "best[ext=mp4]/best[ext=webm]/best"@,
                "--max-filesize"@,
                size_arg(max_bytes),
                "--extractor-args"@,
                "generic:impersonate"@,
                "-o"@,
                template,
                video_url,
            ]
            &&& cookies_file is Some && cookies_file->0.len() > 0 ==> a.subrange(12, a.len() as int)
                == seq!["--cookies"@, cookies_file->0] + extra_words(extra)
            &&& !(cookies_file is Some && cookies_file->0.len() > 0) ==> a.subrange(
                12,
                a.len() as int,
            ) == extra_words(extra)
        }),
{
    let a = args_spec(template, video_url, max_bytes, cookies_file, extra);
    assert(a.subrange(0, 12) =~= seq![
        "--no-playlist"@,
        "--no-warnings"@,
        "--no-progress"@,
        "-f"@,
        "best[ext=mp4]/best[ext=webm]/best"@,
        "--max-filesize"@,
        size_arg(max_bytes),
        "--extractor-args"@,
        "generic:impersonate"@,
        "-o"@,
        template,
        video_url,
    ]);
    if cookies_file is Some && cookies_file->0.len() > 0 {
        assert(a.subrange(12, a.len() as int) =~= seq!["--cookies"@, cookies_file->0] + extra_words(
            extra,
        ));
    } else {
        assert(a.subrange(12, a.len() as int) =~= extra_words(extra));
    }
}

/// The command line of the yt-dlp fallback.  `cookies_file` and `extra` are the
/// raw values of the cookie-file and extra-argument settings, when set.
pub fn tool_args(
    template: &str,
    video_url: &str,
    max_bytes: u64,
    cookies_file: Option<String>,
    extra: Option<String>,
) -> (r: Vec<String>)
    ensures
        views_of(r@) == args_spec(template@, video_url@, max_bytes, opt_view(cookies_file), opt_view(extra)),
{
    let mut a: Vec<String> = Vec::new();
    a.push(String::from_str("--no-playlist"));
    a.push(String::from_str("--no-warnings"));
    a.push(String::from_str("--no-progress"));
    a.push(String::from_str("-f"));
    a.push(String::from_str("best[ext=mp4]/best[ext=webm]/best"));
    a.push(String::from_str("--max-filesize"));
    let mut size = decimal(max_bytes / (1024 * 1024));
    size.append("M");
    a.push(size);
    a.push(String::from_str("--extractor-args"));
    a.push(String::from_str("generic:impersonate"));
    a.push(String::from_str("-o"));
    a.push(String::from_str(template));
    a.push(String::from_str(video_url));
    match cookies_file {
        Some(c) => {
            if !c.as_str().is_empty() {
                a.push(String::from_str("--cookies"));
                a.push(c);
            }
        },
        None => {},
    }
    let ghost before = views_of(a@);
    match extra {
        Some(e) => {
            let words = split_whitespace(e.as_str());
            let mut i: usize = 0;
            while i < words.len()
                invariant
                    i <= words.len(),
                    views_of(words@) == words_spec(e@),
                    views_of(a@) == before + views_of(words@).take(i as int),
                decreases words.len() - i,
            {
                let w = words[i].clone();
                let ghost old_a = views_of(a@);
                a.push(w);
                assert(views_of(a@) =~= old_a.push(w@));
                assert(views_of(words@).take(i + 1) =~= views_of(words@).take(i as int).push(
                    words@[i as int]@,
                ));
                i += 1;
            }
            assert(views_of(words@).take(words.len() as int) =~= views_of(words@));
        },
        None => {},
    }
    assert(views_of(a@) =~= args_spec(
        template@,
        video_url@,
        max_bytes,
        opt_view(cookies_file),
        opt_view(extra),
    ));
    a
}

/// The first of `names` that starts with `prefix`.
pub open spec fn is_first_with_prefix(names: Seq<Seq<char>>, prefix: Seq<char>, i: int) -> bool {
    &&& 0 <= i < names.len()
    &&& starts_with_spec(names[i], prefix)
    &&& forall|j: int| 0 <= j < i ==> !starts_with_spec(#[trigger] names[j], prefix)
}

/// The index of the first directory entry whose name starts with `prefix`,
/// or why there is none (the fallback's trimmed error output).
pub fn locate_output(names: &Vec<String>, prefix: &str, stderr: &str) -> (r: Result<
    usize,
    DownloadError,
>)
    ensures
        r matches Ok(i) ==> is_first_with_prefix(views_of(names@), prefix@, i as int),
        r is Err <==> forall|j: int|
            0 <= j < names.len() ==> !starts_with_spec(#[trigger] views_of(names@)[j], prefix@),
        r matches Err(e) ==> (e matches DownloadError::ToolOutputMissing(s) && s@ == trim_spec(
            stderr@,
        )),
{
    let p = chars_of(prefix);
    let mut i: usize = 0;
    while i < names.len()
        invariant
            i <= names.len(),
            p@ == prefix@,
            forall|j: int|
                0 <= j < i ==> !starts_with_spec(#[trigger] views_of(names@)[j], prefix@),
        decreases names.len() - i,
    {
        let n = chars_of(names[i].as_str());
        if starts_with(&n, &p) {
            assert(views_of(names@)[i as int] == names@[i as int]@);
            return Ok(i);
        }
        i += 1;
    }
    Err(DownloadError::ToolOutputMissing(trim(stderr)))
}

/// The indices of all directory entries whose name starts with `prefix`, in
/// increasing order: every file the fallback tool left behind for one download.
pub fn matching_outputs(names: &Vec<String>, prefix: &str) -> (r: Vec<usize>)
    ensures
        forall|k: int| 0 <= k < r.len() ==> (#[trigger] r@[k]) < names.len() && starts_with_spec(
            views_of(names@)[r@[k] as int],
            prefix@,
        ),
        forall|k: int, l: int| 0 <= k < l < r.len() ==> r@[k] < r@[l],
        forall|j: int|
            0 <= j < names.len() && starts_with_spec(#[trigger] views_of(names@)[j], prefix@)
                ==> r@.contains(j as usize),
{
    let p = chars_of(prefix);
    let mut r: Vec<usize> = Vec::new();
    let mut i: usize = 0;
    while i < names.len()
        invariant
            i <= names.len(),
            p@ == prefix@,
            forall|k: int| 0 <= k < r.len() ==> (#[trigger] r@[k]) < i && starts_with_spec(
                views_of(names@)[r@[k] as int],
                prefix@,
            ),
            forall|k: int, l: int| 0 <= k < l < r.len() ==> r@[k] < r@[l],
            forall|j: int|
                0 <= j < i && starts_with_spec(#[trigger] views_of(names@)[j], prefix@)
                    ==> r@.contains(j as usize),
        decreases names.len() - i,
    {
        let n = chars_of(names[i].as_str());
        assert(views_of(names@)[i as int] == names@[i as int]@);
        if starts_with(&n, &p) {
            let ghost old_r = r@;
            r.push(i);
            assert forall|j: int|
                0 <= j < i + 1 && starts_with_spec(#[trigger] views_of(names@)[j], prefix@)
                    implies r@.contains(j as usize) by {
                if j < i {
                    let k = choose|k: int| 0 <= k < old_r.len() && old_r[k] == j as usize;
                    assert(r@[k] == j as usize);
                } else {
                    assert(r@[old_r.len() as int] == i);
                }
            }
        }
        i += 1;
    }
    r
}

/// Whether the fallback tool's exit is a success; on failure, its trimmed outputs.
pub fn check_tool_exit(success: bool, stdout: &str, stderr: &str) -> (r: Result<(), DownloadError>)
    ensures
        success ==> r is Ok,
        !success ==> (r matches Err(DownloadError::ToolFailed { stdout: o, stderr: e }) && o@
            == trim_spec(stdout@) && e@ == trim_spec(stderr@)),
{
    if success {
        Ok(())
    } else {
        Err(DownloadError::ToolFailed { stdout: trim(stdout), stderr: trim(stderr) })
    }
}

} // verus!
