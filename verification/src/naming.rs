//! Names of temporary files, built from random identifiers.
use vstd::prelude::*;

verus! {

/// A lowercase hexadecimal digit.
pub open spec fn is_hex_lower(c: char) -> bool {
    ('0' <= c <= '9') || ('a' <= c <= 'f')
}

/// The hyphenated lowercase text of a UUID: 36 characters, hyphens at
/// positions 8, 13, 18 and 23, lowercase hexadecimal digits elsewhere.
pub open spec fn is_uuid_text(s: Seq<char>) -> bool {
    &&& s.len() == 36
    &&& forall|i: int|
        0 <= i < 36 ==> if i == 8 || i == 13 || i == 18 || i == 23 {
            s[i] == '-'
        } else {
            is_hex_lower(#[trigger] s[i])
        }
}

/// `uuid::Uuid::new_v4().to_string()`.  Trusted: the text is random, so only
/// its shape is claimed: the hyphenated lowercase form that `Uuid`'s `Display`
/// writes.
#[verifier::external_body]
pub(crate) fn random_uuid_text() -> (r: String)
    ensures
        is_uuid_text(r@),
{
    uuid::Uuid::new_v4().to_string()
}

/// The temporary file name of a TikTok download with identifier `id`.
pub open spec fn tiktok_temp_spec(id: Seq<char>) -> Seq<char> {
    "tiktok_"@ + id + ".mp4"@
}

/// The temporary file name of a direct download of `filename` with identifier `id`.
pub open spec fn direct_temp_spec(id: Seq<char>, filename: Seq<char>) -> Seq<char> {
    "direct_"@ + id + "_"@ + filename
}

/// The temporary file name of a TikTok download.
pub fn tiktok_temp_name(id: &str) -> (r: String)
    ensures
        r@ == tiktok_temp_spec(id@),
{
    let mut s = String::from_str("tiktok_");
    s.append(id);
    s.append(".mp4");
    s
}

/// The temporary file name of a direct download.
pub fn direct_temp_name(id: &str, filename: &str) -> (r: String)
    ensures
        r@ == direct_temp_spec(id@, filename@),
{
    let mut s = String::from_str("direct_");
    s.append(id);
    s.append("_");
    s.append(filename);
    s
}

} // verus!
