//! Turning the user's source token into a local file to read from.
use vstd::prelude::*;
use crate::song::{decimal_text, push_decimal};
use crate::text::{has_prefix, last_index_of, rfind_char, starts_with_text};

verus! {

/// Where the song comes from.
#[derive(Debug)]
pub enum SourceRef {
    /// A URL to download.
    Remote(String),
    /// A path on the local file system.
    Local(String),
    /// Nothing given: the user is asked to pick a file.
    Interactive,
}

/// A token is taken for a URL when it begins with `http`.
pub open spec fn is_url_token(t: Seq<char>) -> bool {
    has_prefix(t, "http"@)
}

/// Classifies the optional source token.
pub fn classify_source(token: Option<String>) -> (r: SourceRef)
    ensures
        match token {
            None => r is Interactive,
            Some(t) => if is_url_token(t@) {
                r matches SourceRef::Remote(u) && u@ == t@
            } else {
                r matches SourceRef::Local(p) && p@ == t@
            },
        },
{
    match token {
        None => SourceRef::Interactive,
        Some(t) => {
            if starts_with_text(t.as_str(), "http") {
                SourceRef::Remote(t)
            } else {
                SourceRef::Local(t)
            }
        },
    }
}

/// The text of `url` after its last `.`, when it holds one.
pub open spec fn final_dot_segment(url: Seq<char>) -> Option<Seq<char>> {
    let i = last_index_of(url, '.');
    if i < 0 {
        None
    } else {
        Some(url.subrange(i + 1, url.len() as int))
    }
}

/// The name ending given to a downloaded file: a `.` and the URL's final
/// dot-segment, or nothing when the URL holds no `.`.
pub open spec fn download_suffix(url: Seq<char>) -> Seq<char> {
    match final_dot_segment(url) {
        Some(seg) => seq!['.'] + seg,
        None => Seq::empty(),
    }
}

/// Computes the name ending for the temporary file a URL is downloaded to.
pub fn temp_suffix(url: &str) -> (r: String)
    ensures
        r@ == download_suffix(url@),
{
    let n = url.unicode_len();
    proof {
        crate::text::lemma_last_index_of(url@, '.');
    }
    match rfind_char(url, '.') {
        None => String::new(),
        Some(i) => {
            let mut r = String::from_str(".");
            proof {
                reveal_strlit(".");
            }
            r.append(url.substring_char(i + 1, n));
            assert(r@ =~= download_suffix(url@));
            r
        },
    }
}

/// The file a URL token is downloaded to has a name ending in a `.` followed
/// by exactly the token's text after its final `.`, or in nothing when the
/// token holds no `.`. (That such a token is downloaded and never read as a
/// local path is stated by `classify_source`.)
pub proof fn lemma_url_tokens_are_downloaded(t: Seq<char>)
    requires
        has_prefix(t, "http"@),
    ensures
        final_dot_segment(t) matches Some(seg) ==> download_suffix(t) == seq!['.'] + seg
            && download_suffix(t).drop_first() == seg,
        final_dot_segment(t) is None ==> download_suffix(t).len() == 0,
        (forall|j: int| 0 <= j < t.len() ==> t[j] != '.') ==> download_suffix(t).len() == 0,
{
    crate::text::lemma_last_index_of(t, '.');
    if let Some(seg) = final_dot_segment(t) {
        assert((seq!['.'] + seg).drop_first() =~= seg);
    }
}

/// The audio file extensions offered when the user picks a file.
pub open spec fn audio_extensions() -> Seq<Seq<char>> {
    seq!["wav"@, "mp3"@, "ogg"@, "flac"@, "aac"@, "m4a"@, "opus"@]
}

/// Lists the audio file extensions offered when the user picks a file.
pub fn picker_extensions() -> (r: Vec<String>)
    ensures
        crate::place::texts(r@) == audio_extensions(),
{
    let mut v: Vec<String> = Vec::new();
    v.push(String::from_str("wav"));
    v.push(String::from_str("mp3"));
    v.push(String::from_str("ogg"));
    v.push(String::from_str("flac"));
    v.push(String::from_str("aac"));
    v.push(String::from_str("m4a"));
    v.push(String::from_str("opus"));
    assert(crate::place::texts(v@) =~= audio_extensions());
    v
}

/// Why a source could not be turned into a local file.
#[derive(Debug)]
pub enum ResolveError {
    /// The request could not be made or answered.
    Network(String),
    /// The server answered with a status other than 200.
    Status { code: u16, text: String },
    /// The temporary file could not be created.
    TempFile(String),
    /// The response body could not be written to the temporary file.
    Stream(String),
    /// No token was given and the user picked no file.
    NoSong,
}

/// Accepts a download only when the server answered 200.
pub fn check_status(code: u16, text: String) -> (r: Result<(), ResolveError>)
    ensures
        r is Ok <==> code == 200,
        r matches Err(e) ==> (e matches ResolveError::Status { code: c, text: t } && c == code
            && t@ == text@),
{
    if code == 200 {
        Ok(())
    } else {
        Err(ResolveError::Status { code, text })
    }
}

/// The result of a file pick: no selection means no song.
pub fn picked_source(picked: Option<String>) -> (r: Result<ResolvedSource, ResolveError>)
    ensures
        picked is None <==> r is Err,
        r matches Err(e) ==> e is NoSong,
        r matches Ok(s) ==> !s.owned_temporary && Some(s.path@) == crate::locate::opt_text(
            picked,
        ),
{
    match picked {
        Some(p) => Ok(ResolvedSource { path: p, owned_temporary: false }),
        None => Err(ResolveError::NoSong),
    }
}

/// A local file to read the song from, and whether it is a temporary file
/// that must be removed once the song is placed.
#[derive(Debug)]
pub struct ResolvedSource {
    pub path: String,
    pub owned_temporary: bool,
}

/// The message shown for a resolution error.
pub open spec fn resolve_error_text(e: ResolveError) -> Seq<char> {
    match e {
        ResolveError::Network(m) => "URL request failed: "@ + m@,
        ResolveError::Status { code, text } => "URL request error: "@ + decimal_text(
            code as nat,
        ) + " "@ + text@,
        ResolveError::TempFile(m) => "could not create a temporary file: "@ + m@,
        ResolveError::Stream(m) => "could not save the download: "@ + m@,
        ResolveError::NoSong => "no song provided."@,
    }
}

impl ResolveError {
    /// Describes the error for the user.
    pub fn message(&self) -> (r: String)
        ensures
            r@ == resolve_error_text(*self),
    {
        match self {
            ResolveError::Network(m) => {
                let mut r = String::from_str("URL request failed: ");
                r.append(m.as_str());
                r
            },
            ResolveError::Status { code, text } => {
                let mut r = String::from_str("URL request error: ");
                push_decimal(&mut r, *code as u32);
                r.append(" ");
                r.append(text.as_str());
                r
            },
            ResolveError::TempFile(m) => {
                let mut r = String::from_str("could not create a temporary file: ");
                r.append(m.as_str());
                r
            },
            ResolveError::Stream(m) => {
                let mut r = String::from_str("could not save the download: ");
                r.append(m.as_str());
                r
            },
            ResolveError::NoSong => String::from_str("no song provided."),
        }
    }
}

} // verus!
