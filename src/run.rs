//! The decisions of one run: what the arguments ask for, what is placed
//! where, and what the user is told at the end.
use vstd::prelude::*;
use crate::place::{PlaceError, Placement, plan_placement, place_error_text, placement_kind};
use crate::song::{destination_of, destination_path, is_song_id_text, parse_song_id, song_id_value};
use crate::source::{ResolveError, ResolvedSource, resolve_error_text};
use crate::text::same_text;

verus! {

/// What the command line asks for.
#[derive(Debug)]
pub enum Invocation {
    /// Help was asked for explicitly.
    Help,
    /// No song ID was given.
    Usage,
    /// The song ID is not a number; the offending text is kept.
    BadSongId(String),
    /// Place a song under `song_id`, from `source` if one was given.
    Run { song_id: u32, source: Option<String> },
}

/// Whether a first argument asks for help.
pub open spec fn is_help_word(s: Seq<char>) -> bool {
    s == "help"@ || s == "--help"@ || s == "-help"@
}

/// Reads the arguments that follow the program name: a song ID, then an
/// optional source; anything after those is ignored.
pub fn parse_invocation(args: &Vec<String>) -> (r: Invocation)
    ensures
        args@.len() == 0 ==> r is Usage,
        args@.len() > 0 ==> {
            let first = args@[0]@;
            if is_help_word(first) {
                r is Help
            } else if !is_song_id_text(first) {
                r matches Invocation::BadSongId(t) && t@ == first
            } else {
                r matches Invocation::Run { song_id, source } && song_id as nat == song_id_value(
                    first,
                ) && if args@.len() > 1 {
                    source matches Some(s) && s@ == args@[1]@
                } else {
                    source is None
                }
            }
        },
{
    if args.len() == 0 {
        return Invocation::Usage;
    }
    let first = args[0].as_str();
    if same_text(first, "help") || same_text(first, "--help") || same_text(first, "-help") {
        return Invocation::Help;
    }
    match parse_song_id(first) {
        None => Invocation::BadSongId(String::from_str(first)),
        Some(song_id) => {
            let source = if args.len() > 1 {
                Some(String::from_str(args[1].as_str()))
            } else {
                None
            };
            Invocation::Run { song_id, source }
        },
    }
}

/// The exit code of a run that ends at the usage text: 0 when help was asked
/// for, 1 when the song ID is missing or unreadable. A run that goes on to
/// place a song gets `None`.
pub fn usage_exit_code(inv: &Invocation) -> (r: Option<i32>)
    ensures
        r == match inv {
            Invocation::Help => Some(0i32),
            Invocation::Usage => Some(1i32),
            Invocation::BadSongId(_) => Some(1i32),
            Invocation::Run { .. } => None,
        },
{
    match inv {
        Invocation::Help => Some(0),
        Invocation::Usage => Some(1),
        Invocation::BadSongId(_) => Some(1),
        Invocation::Run { .. } => None,
    }
}

/// The usage line, naming the program.
pub open spec fn usage_text(program: Seq<char>) -> Seq<char> {
    "Usage: "@ + program + " <song ID> [path or URL]"@
}

/// Builds the usage line.
pub fn usage_line(program: &str) -> (r: String)
    ensures
        r@ == usage_text(program@),
{
    let mut r = String::from_str("Usage: ");
    r.append(program);
    r.append(" <song ID> [path or URL]");
    r
}

/// Where a song goes and how it gets there.
#[derive(Debug)]
pub struct SongPlan {
    pub destination: String,
    pub placement: Result<Placement, PlaceError>,
}

/// Plans the placement of a resolved source as song `song_id` inside `dir`.
pub fn plan_song(dir: &str, song_id: u32, source: &ResolvedSource, encoder_dir: Option<String>) -> (r:
    SongPlan)
    ensures
        r.destination@ == destination_of(dir@, song_id as nat),
        placement_kind(source.path@, r.destination@) is None <==> r.placement is Err,
        placement_kind(source.path@, r.destination@) == Some(true) ==> r.placement matches Ok(
            Placement::Copy,
        ),
        placement_kind(source.path@, r.destination@) == Some(false) ==> (r.placement matches Ok(
            Placement::Transcode { program, args },
        ) && program@ == crate::place::encoder_program(crate::locate::opt_text(encoder_dir))
            && crate::place::texts(args@) == crate::place::encoder_args(
            source.path@,
            r.destination@,
        )),
{
    let destination = destination_path(dir, song_id);
    let placement = plan_placement(source.path.as_str(), destination.as_str(), encoder_dir);
    SongPlan { destination, placement }
}

/// What the user is told once the song step is over, and the exit code.
#[derive(Debug)]
pub struct Report {
    pub line: String,
    pub exit_code: i32,
}

/// The exit code once the song step is over. A failed copy or encode is
/// reported but still exits with 0, as a finished run does: the user has
/// been told, and nothing else remains to do. A path without an extension is
/// no such failure but a broken invariant of the run's own inputs, so it
/// exits with 1, as the other fatal failures do.
pub open spec fn placement_exit_code(outcome: Result<(), PlaceError>) -> i32 {
    match outcome {
        Err(PlaceError::MissingExtension) => 1,
        _ => 0,
    }
}

/// The final line: `Success`, or `Error: ` and the reason, with the exit
/// code of `placement_exit_code`.
pub fn final_report(outcome: &Result<(), PlaceError>) -> (r: Report)
    ensures
        r.exit_code == placement_exit_code(*outcome),
        outcome is Ok ==> r.line@ == "Success"@,
        outcome matches Err(e) ==> r.line@ == "Error: "@ + place_error_text(*e),
{
    match outcome {
        Ok(()) => Report { line: String::from_str("Success"), exit_code: 0 },
        Err(e) => {
            let mut line = String::from_str("Error: ");
            let m = e.message();
            line.append(m.as_str());
            let exit_code = match e {
                PlaceError::MissingExtension => 1,
                _ => 0,
            };
            Report { line, exit_code }
        },
    }
}

/// A failure that ends the run before the song step.
#[derive(Debug)]
pub enum Fatal {
    /// No songs directory was found, and the user picked none.
    NoDirectory,
    /// The source could not be turned into a local file.
    Source(ResolveError),
}

/// The message shown for a fatal failure.
pub open spec fn fatal_text(f: Fatal) -> Seq<char> {
    match f {
        Fatal::NoDirectory => "could not locate the GD songs directory and user didn't provide one."@,
        Fatal::Source(e) => resolve_error_text(e),
    }
}

/// What the user is told when the run stops early; it always exits with 1.
pub fn fatal_report(f: &Fatal) -> (r: Report)
    ensures
        r.exit_code == 1,
        r.line@ == fatal_text(*f),
{
    match f {
        Fatal::NoDirectory => Report {
            line: String::from_str(
                "could not locate the GD songs directory and user didn't provide one.",
            ),
            exit_code: 1,
        },
        Fatal::Source(e) => Report { line: e.message(), exit_code: 1 },
    }
}

} // verus!
