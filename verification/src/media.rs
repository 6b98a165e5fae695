//! Alert media and object storage: the built-in alert sounds, whether the
//! storage endpoint is up, the public URL of an uploaded object, and the
//! labels of the media settings and donation history.
use vstd::prelude::*;
use crate::text::{dec_int, dec_nat, owned, push_decimal, push_signed_decimal};

verus! {

/// The built-in alert sounds a streamer can fall back to.
pub fn get_default_medias() -> (v: Vec<String>)
    ensures
        v@.map_values(|s: String| s@) == seq![
            "/default_donate.mp3"@,
            "/audio/funny_1.mp3"@,
            "/audio/cheer_1.mp3"@,
        ],
{
    let mut v = Vec::new();
    v.push(owned("/default_donate.mp3"));
    v.push(owned("/audio/funny_1.mp3"));
    v.push(owned("/audio/cheer_1.mp3"));
    assert(v@.map_values(|s: String| s@) =~= seq![
        "/default_donate.mp3"@,
        "/audio/funny_1.mp3"@,
        "/audio/cheer_1.mp3"@,
    ]);
    v
}

/// The fallback sound of a streamer who chose none.
pub fn default_fallback_media() -> (s: String)
    ensures
        s@ == "/default_donate.mp3"@,
{
    owned("/default_donate.mp3")
}

/// Whether the storage endpoint is up after a probe: it answered with a
/// success (2xx) or a client error (4xx, as an unauthenticated probe gets);
/// no answer or any other status means down.
pub fn s3_endpoint_up(status: Option<u16>) -> (b: bool)
    ensures
        b == (status matches Some(s) && ((200 <= s <= 299) || (400 <= s <= 499))),
{
    match status {
        Some(s) => (200 <= s && s <= 299) || (400 <= s && s <= 499),
        None => false,
    }
}

/// The storage endpoint: the configured one, or the project's default.
pub fn s3_endpoint_or_default(configured: Option<String>) -> (r: String)
    ensures
        configured matches Some(c) ==> r@ == c@,
        configured is None ==> r@ == "https://s3.unghotui.vn"@,
{
    match configured {
        Some(c) => c,
        None => owned("https://s3.unghotui.vn"),
    }
}

/// How long a presigned upload URL stays valid, in seconds: fifteen minutes.
pub fn presigned_url_expiry_secs() -> (s: u64)
    ensures
        s == 900,
{
    15 * 60
}

/// The public URL of an uploaded object (path-style addressing).
pub fn public_object_url(endpoint: &str, bucket: &str, key: &str) -> (r: String)
    ensures
        r@ == endpoint@ + "/"@ + bucket@ + "/"@ + key@,
{
    let mut r = owned(endpoint);
    r.append("/");
    r.append(bucket);
    r.append("/");
    r.append(key);
    r
}

/// The label of an uploaded file in the media picker: its name and size.
pub fn media_option_label(file_name: &str, size_bytes: i32) -> (r: String)
    ensures
        r@ == file_name@ + " ("@ + dec_int(size_bytes as int) + " bytes)"@,
{
    let mut r = owned(file_name);
    r.append(" (");
    push_signed_decimal(&mut r, size_bytes as i64);
    r.append(" bytes)");
    r
}

/// The object name of a cropped avatar upload.
pub fn avatar_upload_name(n: i32) -> (r: String)
    ensures
        r@ == "avatar_"@ + dec_int(n as int) + ".jpg"@,
{
    let mut r = owned("avatar_");
    push_signed_decimal(&mut r, n as i64);
    r.append(".jpg");
    r
}

/// A donation message as the history table shows it: in double quotes, or
/// nothing.
pub fn quoted_message(message: &Option<String>) -> (r: String)
    ensures
        message matches Some(m) ==> r@ == "\""@ + m@ + "\""@,
        message is None ==> r@ == ""@,
{
    match message {
        Some(m) => {
            let mut r = owned("\"");
            r.append(m.as_str());
            r.append("\"");
            r
        },
        None => owned(""),
    }
}

/// The rank shown for the entry at position `idx` (from 0) of the
/// leaderboard.
pub fn leaderboard_rank(idx: usize) -> (r: String)
    requires
        idx < usize::MAX,
    ensures
        r@ == dec_nat((idx + 1) as nat),
{
    let mut r = String::new();
    push_decimal(&mut r, (idx + 1) as u64);
    assert(r@ =~= dec_nat((idx + 1) as nat));
    r
}

/// How the browser's upload of a media file to storage ended.
#[derive(Clone, Copy, Debug, PartialEq, Eq, Structural)]
pub enum UploadResponse {
    /// Storage answered with a success status.
    Stored,
    /// Storage answered with an error status.
    Refused,
    /// The request did not get an answer.
    NetworkError,
}

/// What the media settings do after an upload: whether the media record is
/// saved, and the result shown to the streamer.
pub fn upload_outcome(response: UploadResponse) -> (r: (bool, Result<(), String>))
    ensures
        response == UploadResponse::Stored ==> r.0 && r.1 is Ok,
        response == UploadResponse::Refused ==> !r.0 && (r.1 matches Err(e) && e@
            == "Upload to S3 failed."@),
        response == UploadResponse::NetworkError ==> !r.0 && (r.1 matches Err(e) && e@
            == "Network error during upload"@),
{
    match response {
        UploadResponse::Stored => (true, Ok(())),
        UploadResponse::Refused => (false, Err(owned("Upload to S3 failed."))),
        UploadResponse::NetworkError => (false, Err(owned("Network error during upload"))),
    }
}

} // verus!
