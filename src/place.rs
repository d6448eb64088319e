//! Deciding how a source file becomes the song file: a byte copy when the
//! extensions match, a re-encode otherwise.
use vstd::prelude::*;
use crate::text::{extension_of, join_path, path_extension, path_join, same_text};

verus! {

/// Name of the encoder executable.
pub open spec fn encoder_name() -> Seq<char> {
    "ffmpeg"@
}

/// The encoder to run: inside the configured directory, if one is set, else
/// looked up on the search path by its bare name.
pub open spec fn encoder_program(encoder_dir: Option<Seq<char>>) -> Seq<char> {
    match encoder_dir {
        Some(d) => path_join(d, encoder_name()),
        None => encoder_name(),
    }
}

/// The encoder's arguments: read `source`, drop video and image streams,
/// resample to 44100 Hz, two channels, 192 kbps, write `destination`.
pub open spec fn encoder_args(source: Seq<char>, destination: Seq<char>) -> Seq<Seq<char>> {
    seq![
        "-i"@,
        source,
        "-vn"@,
        "-ar"@,
        "44100"@,
        "-ac"@,
        "2"@,
        "-b:a"@,
        "192k"@,
        destination,
    ]
}

/// The characters of each string in a list.
pub open spec fn texts(v: Seq<String>) -> Seq<Seq<char>> {
    v.map_values(|s: String| s@)
}

/// How the song file is produced.
#[derive(Debug)]
pub enum Placement {
    /// Copy the source's bytes verbatim.
    Copy,
    /// Run `program` with `args`.
    Transcode { program: String, args: Vec<String> },
}

/// Why a song could not be placed.
#[derive(Debug)]
pub enum PlaceError {
    /// The source or the destination path has no extension.
    MissingExtension,
    /// The copy or the encoder could not be run.
    Io(String),
    /// The encoder exited with a failure; its two output streams are kept.
    EncoderFailed { stdout: String, stderr: String },
}

/// Builds the encoder's argument list.
pub fn build_encoder_args(source: &str, destination: &str) -> (r: Vec<String>)
    ensures
        texts(r@) == encoder_args(source@, destination@),
{
    let mut v: Vec<String> = Vec::new();
    v.push(String::from_str("-i"));
    v.push(String::from_str(source));
    v.push(String::from_str("-vn"));
    v.push(String::from_str("-ar"));
    v.push(String::from_str("44100"));
    v.push(String::from_str("-ac"));
    v.push(String::from_str("2"));
    v.push(String::from_str("-b:a"));
    v.push(String::from_str("192k"));
    v.push(String::from_str(destination));
    assert(texts(v@) =~= encoder_args(source@, destination@));
    v
}

/// Builds the path of the encoder executable.
pub fn build_encoder_program(encoder_dir: Option<String>) -> (r: String)
    ensures
        r@ == encoder_program(crate::locate::opt_text(encoder_dir)),
{
    match encoder_dir {
        Some(d) => join_path(d.as_str(), "ffmpeg"),
        None => String::from_str("ffmpeg"),
    }
}

/// What is done for a source and destination, by their extensions: `None`
/// when either has none, a copy when they are equal (case-sensitive), and an
/// encode otherwise.
pub open spec fn placement_kind(source: Seq<char>, destination: Seq<char>) -> Option<bool> {
    match (extension_of(source), extension_of(destination)) {
        (Some(a), Some(b)) => Some(a == b),
        _ => None,
    }
}

/// Decides between copying and encoding `source` into `destination`.
pub fn plan_placement(source: &str, destination: &str, encoder_dir: Option<String>) -> (r: Result<
    Placement,
    PlaceError,
>)
    ensures
        placement_kind(source@, destination@) is None <==> r is Err,
        r matches Err(e) ==> e is MissingExtension,
        placement_kind(source@, destination@) == Some(true) ==> r matches Ok(Placement::Copy),
        placement_kind(source@, destination@) == Some(false) ==> (r matches Ok(
            Placement::Transcode { program, args },
        ) && program@ == encoder_program(crate::locate::opt_text(encoder_dir)) && texts(args@)
            == encoder_args(source@, destination@)),
{
    let e1 = path_extension(source);
    let e2 = path_extension(destination);
    match (e1, e2) {
        (Some(a), Some(b)) => {
            if same_text(a.as_str(), b.as_str()) {
                Ok(Placement::Copy)
            } else {
                let program = build_encoder_program(encoder_dir);
                let args = build_encoder_args(source, destination);
                Ok(Placement::Transcode { program, args })
            }
        },
        _ => Err(PlaceError::MissingExtension),
    }
}

/// Judges a finished encoder run by its exit status.
pub fn encoder_outcome(success: bool, stdout: String, stderr: String) -> (r: Result<(), PlaceError>)
    ensures
        r is Ok <==> success,
        r matches Err(e) ==> (e matches PlaceError::EncoderFailed { stdout: o, stderr: x } && o@
            == stdout@ && x@ == stderr@),
{
    if success {
        Ok(())
    } else {
        Err(PlaceError::EncoderFailed { stdout, stderr })
    }
}

/// The message shown for a placement error; an encoder failure carries both
/// of the encoder's output streams.
pub open spec fn place_error_text(e: PlaceError) -> Seq<char> {
    match e {
        PlaceError::MissingExtension => "the source or destination has no file extension"@,
        PlaceError::Io(m) => m@,
        PlaceError::EncoderFailed { stdout, stderr } => "failed to run ffmpeg\nstdout: "@
            + stdout@ + "\nstderr: "@ + stderr@,
    }
}

impl PlaceError {
    /// Describes the error for the user.
    pub fn message(&self) -> (r: String)
        ensures
            r@ == place_error_text(*self),
    {
        match self {
            PlaceError::MissingExtension => String::from_str(
                "the source or destination has no file extension",
            ),
            PlaceError::Io(m) => String::from_str(m.as_str()),
            PlaceError::EncoderFailed { stdout, stderr } => {
                let mut r = String::from_str("failed to run ffmpeg\nstdout: ");
                r.append(stdout.as_str());
                r.append("\nstderr: ");
                r.append(stderr.as_str());
                r
            },
        }
    }
}

/// The files on disk, by path, after a placement: a copy puts the source's
/// bytes at the destination; an encode puts there what `encode` makes of
/// them. Whatever stood at the destination before is overwritten.
pub open spec fn placed_files(
    files: Map<Seq<char>, Seq<u8>>,
    source: Seq<char>,
    destination: Seq<char>,
    copy: bool,
    encode: spec_fn(Seq<u8>) -> Seq<u8>,
) -> Map<Seq<char>, Seq<u8>> {
    if copy {
        files.insert(destination, files[source])
    } else {
        files.insert(destination, encode(files[source]))
    }
}

/// Placing the same source at the same destination twice leaves the disk as
/// placing it once does, for an encoder whose output depends on its input
/// alone.
pub proof fn lemma_placement_idempotent(
    files: Map<Seq<char>, Seq<u8>>,
    source: Seq<char>,
    destination: Seq<char>,
    encode: spec_fn(Seq<u8>) -> Seq<u8>,
)
    requires
        files.contains_key(source),
        source != destination,
        placement_kind(source, destination) is Some,
    ensures
        ({
            let copy = placement_kind(source, destination) == Some(true);
            let once = placed_files(files, source, destination, copy, encode);
            placed_files(once, source, destination, copy, encode) == once
        }),
{
    let copy = placement_kind(source, destination) == Some(true);
    let once = placed_files(files, source, destination, copy, encode);
    assert(once[source] == files[source]);
    assert(placed_files(once, source, destination, copy, encode) =~= once);
}

/// A copy puts exactly the source's bytes at the destination.
pub proof fn lemma_copy_is_verbatim(
    files: Map<Seq<char>, Seq<u8>>,
    source: Seq<char>,
    destination: Seq<char>,
    encode: spec_fn(Seq<u8>) -> Seq<u8>,
)
    requires
        files.contains_key(source),
        placement_kind(source, destination) == Some(true),
    ensures
        placed_files(files, source, destination, true, encode)[destination] == files[source],
{
}

} // verus!
