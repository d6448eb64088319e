use gd_nong::locate::{accept_dir, candidate_dir, find_candidate_dir, platform_from_name, DirProbe, Platform};
use gd_nong::place::{build_encoder_args, encoder_outcome, plan_placement, PlaceError, Placement};
use gd_nong::run::{fatal_report, final_report, Fatal, parse_invocation, plan_song, usage_exit_code, usage_line, Invocation};
use gd_nong::song::{destination_path, parse_song_id, push_decimal};
use gd_nong::source::{check_status, classify_source, picked_source, temp_suffix, ResolveError, ResolvedSource, SourceRef};
use gd_nong::text::{join_path, path_extension, starts_with_text};

fn s(x: &str) -> String {
    x.to_string()
}

fn args_of(v: &[&str]) -> Vec<String> {
    v.iter().map(|x| x.to_string()).collect()
}

#[test]
fn song_ids_parse_as_u32() {
    assert_eq!(parse_song_id("12345"), Some(12345));
    assert_eq!(parse_song_id("42"), Some(42));
    assert_eq!(parse_song_id("+7"), Some(7));
    assert_eq!(parse_song_id("0"), Some(0));
    assert_eq!(parse_song_id("4294967295"), Some(4294967295));
    assert_eq!(parse_song_id("4294967296"), None);
    assert_eq!(parse_song_id("99999999999999999999"), None);
    assert_eq!(parse_song_id(""), None);
    assert_eq!(parse_song_id("+"), None);
    assert_eq!(parse_song_id("-1"), None);
    assert_eq!(parse_song_id("12a"), None);
    assert_eq!(parse_song_id("abc"), None);
}

#[test]
fn decimal_text_is_written() {
    let mut out = s("id=");
    push_decimal(&mut out, 0);
    assert_eq!(out, "id=0");
    let mut out = String::new();
    push_decimal(&mut out, 4294967295);
    assert_eq!(out, "4294967295");
}

#[test]
fn destination_is_id_dot_mp3() {
    assert_eq!(destination_path("/games/songs", 12345), "/games/songs/12345.mp3");
    assert_eq!(destination_path("/games/songs/", 42), "/games/songs/42.mp3");
    assert_eq!(destination_path("", 7), "7.mp3");
}

#[test]
fn joining_paths() {
    assert_eq!(join_path("/home/a", "Library/Caches"), "/home/a/Library/Caches");
    assert_eq!(join_path("/home/a/", "x"), "/home/a/x");
}

#[test]
fn extensions_of_paths() {
    assert_eq!(path_extension("song.mp3"), Some(s("mp3")));
    assert_eq!(path_extension("/a/b/archive.tar.gz"), Some(s("gz")));
    assert_eq!(path_extension("C:\\music\\track.wav"), Some(s("wav")));
    assert_eq!(path_extension("x."), Some(s("")));
    assert_eq!(path_extension("noext"), None);
    assert_eq!(path_extension(".bashrc"), None);
    assert_eq!(path_extension("dir.d/file"), None);
    assert_eq!(path_extension(".."), None);
    assert_eq!(path_extension("song.MP3"), Some(s("MP3")));
}

#[test]
fn platforms_by_name() {
    assert_eq!(platform_from_name("windows"), Platform::Windows);
    assert_eq!(platform_from_name("linux"), Platform::Linux);
    assert_eq!(platform_from_name("macos"), Platform::MacOs);
    assert_eq!(platform_from_name("freebsd"), Platform::Unsupported);
    assert_eq!(platform_from_name("Linux"), Platform::Unsupported);
    assert_eq!(platform_from_name(""), Platform::Unsupported);
}

#[test]
fn unsupported_os_locates_nothing() {
    for os in ["freebsd", "android", "ios", "netbsd"] {
        let p = platform_from_name(os);
        assert_eq!(candidate_dir(p, Some(s("C:\\Local")), Some(s("/home/a"))), None);
        assert_eq!(find_candidate_dir(p, Some(s("C:\\Local"))), None);
    }
}

#[test]
fn candidates_per_platform() {
    assert_eq!(
        candidate_dir(Platform::Windows, Some(s("C:\\Users\\a\\AppData\\Local")), None),
        Some(s("C:\\Users\\a\\AppData\\Local/GeometryDash"))
    );
    assert_eq!(candidate_dir(Platform::Windows, None, Some(s("/home/a"))), None);
    assert_eq!(
        candidate_dir(Platform::Linux, None, Some(s("/home/a"))),
        Some(s("/home/a/.local/share/Steam/steamapps/compatdata/322170/pfx/drive_c/users/steamuser/AppData/Local/GeometryDash"))
    );
    assert_eq!(
        candidate_dir(Platform::MacOs, None, Some(s("/Users/a"))),
        Some(s("/Users/a/Library/Caches"))
    );
    assert_eq!(candidate_dir(Platform::Linux, Some(s("x")), None), None);
    assert_eq!(
        find_candidate_dir(Platform::Windows, Some(s("D:\\L"))),
        Some(s("D:\\L/GeometryDash"))
    );
    assert_eq!(find_candidate_dir(Platform::Windows, None), None);
}

#[test]
fn unusable_directories_are_refused() {
    let ok = DirProbe { exists: true, is_dir: true, has_entry: true };
    assert_eq!(accept_dir(s("/g"), ok), Some(s("/g")));
    let missing = DirProbe { exists: false, is_dir: false, has_entry: false };
    let file = DirProbe { exists: true, is_dir: false, has_entry: false };
    let empty = DirProbe { exists: true, is_dir: true, has_entry: false };
    assert_eq!(accept_dir(s("/g"), missing), None);
    assert_eq!(accept_dir(s("/g"), file), None);
    assert_eq!(accept_dir(s("/g"), empty), None);
}

#[test]
fn url_tokens_are_remote() {
    match classify_source(Some(s("https://example.com/audio.flac"))) {
        SourceRef::Remote(u) => assert_eq!(u, "https://example.com/audio.flac"),
        other => panic!("unexpected {other:?}"),
    }
    match classify_source(Some(s("httpfile.mp3"))) {
        SourceRef::Remote(u) => assert_eq!(u, "httpfile.mp3"),
        other => panic!("unexpected {other:?}"),
    }
    match classify_source(Some(s("song.mp3"))) {
        SourceRef::Local(p) => assert_eq!(p, "song.mp3"),
        other => panic!("unexpected {other:?}"),
    }
    match classify_source(Some(s("htt"))) {
        SourceRef::Local(p) => assert_eq!(p, "htt"),
        other => panic!("unexpected {other:?}"),
    }
    assert!(matches!(classify_source(None), SourceRef::Interactive));
    assert!(starts_with_text("http://x", "http"));
    assert!(!starts_with_text("HTTP://x", "http"));
}

#[test]
fn download_suffix_is_final_dot_segment() {
    assert_eq!(temp_suffix("https://example.com/audio.flac"), ".flac");
    assert_eq!(temp_suffix("https://example.com/a.b.ogg"), ".ogg");
    assert_eq!(temp_suffix("http://localhost/song"), "");
    assert_eq!(temp_suffix("http://x/trailing."), ".");
}

#[test]
fn non_200_status_names_the_code() {
    assert!(check_status(200, s("OK")).is_ok());
    let e = check_status(404, s("Not Found")).unwrap_err();
    assert!(matches!(e, ResolveError::Status { code: 404, .. }));
    let m = e.message();
    assert_eq!(m, "URL request error: 404 Not Found");
    assert!(m.contains("404"));
    assert!(check_status(201, s("Created")).is_err());
}

#[test]
fn no_pick_means_no_song() {
    let e = picked_source(None).unwrap_err();
    assert!(matches!(e, ResolveError::NoSong));
    assert_eq!(e.message(), "no song provided.");
    let r = picked_source(Some(s("/music/a.ogg"))).unwrap();
    assert_eq!(r.path, "/music/a.ogg");
    assert!(!r.owned_temporary);
}

#[test]
fn resolve_error_messages_differ() {
    assert_eq!(ResolveError::Network(s("dns")).message(), "URL request failed: dns");
    assert_eq!(ResolveError::TempFile(s("denied")).message(), "could not create a temporary file: denied");
    assert_eq!(ResolveError::Stream(s("eof")).message(), "could not save the download: eof");
}

#[test]
fn same_extension_is_copied() {
    match plan_placement("song.mp3", "/games/songs/12345.mp3", None) {
        Ok(Placement::Copy) => {}
        other => panic!("unexpected {other:?}"),
    }
    match plan_placement("a/b.wav", "c.wav", Some(s("/opt/ff"))) {
        Ok(Placement::Copy) => {}
        other => panic!("unexpected {other:?}"),
    }
}

#[test]
fn different_extension_is_encoded() {
    match plan_placement("track.wav", "/games/songs/42.mp3", None) {
        Ok(Placement::Transcode { program, args }) => {
            assert_eq!(program, "ffmpeg");
            assert_eq!(
                args,
                args_of(&["-i", "track.wav", "-vn", "-ar", "44100", "-ac", "2", "-b:a", "192k", "/games/songs/42.mp3"])
            );
        }
        other => panic!("unexpected {other:?}"),
    }
    match plan_placement("song.MP3", "42.mp3", Some(s("/opt/ff"))) {
        Ok(Placement::Transcode { program, .. }) => assert_eq!(program, "/opt/ff/ffmpeg"),
        other => panic!("unexpected {other:?}"),
    }
}

#[test]
fn missing_extension_is_an_error() {
    assert!(matches!(plan_placement("song", "42.mp3", None), Err(PlaceError::MissingExtension)));
    assert!(matches!(plan_placement("a.mp3", "dest", None), Err(PlaceError::MissingExtension)));
}

#[test]
fn encoder_arguments_are_fixed() {
    assert_eq!(
        build_encoder_args("in.ogg", "out.mp3"),
        args_of(&["-i", "in.ogg", "-vn", "-ar", "44100", "-ac", "2", "-b:a", "192k", "out.mp3"])
    );
}

#[test]
fn encoder_exit_status_is_judged() {
    assert!(encoder_outcome(true, s("o"), s("e")).is_ok());
    let e = encoder_outcome(false, s("out text"), s("err text")).unwrap_err();
    let m = e.message();
    assert!(m.contains("out text"));
    assert!(m.contains("err text"));
    assert_eq!(m, "failed to run ffmpeg\nstdout: out text\nstderr: err text");
}

#[test]
fn invocations_are_parsed() {
    assert!(matches!(parse_invocation(&args_of(&[])), Invocation::Usage));
    for h in ["help", "--help", "-help"] {
        assert!(matches!(parse_invocation(&args_of(&[h])), Invocation::Help));
    }
    match parse_invocation(&args_of(&["abc"])) {
        Invocation::BadSongId(t) => assert_eq!(t, "abc"),
        other => panic!("unexpected {other:?}"),
    }
    match parse_invocation(&args_of(&["42", "track.wav", "extra"])) {
        Invocation::Run { song_id, source } => {
            assert_eq!(song_id, 42);
            assert_eq!(source, Some(s("track.wav")));
        }
        other => panic!("unexpected {other:?}"),
    }
    match parse_invocation(&args_of(&["12345"])) {
        Invocation::Run { song_id, source } => {
            assert_eq!(song_id, 12345);
            assert_eq!(source, None);
        }
        other => panic!("unexpected {other:?}"),
    }
}

#[test]
fn usage_exit_codes() {
    assert_eq!(usage_exit_code(&Invocation::Help), Some(0));
    assert_eq!(usage_exit_code(&Invocation::Usage), Some(1));
    assert_eq!(usage_exit_code(&Invocation::BadSongId(s("x"))), Some(1));
    assert_eq!(usage_exit_code(&Invocation::Run { song_id: 1, source: None }), None);
    assert_eq!(usage_line("gd-nong"), "Usage: gd-nong <song ID> [path or URL]");
}

#[test]
fn planning_twice_gives_the_same_plan() {
    let src = ResolvedSource { path: s("song.mp3"), owned_temporary: false };
    let a = plan_song("/games/songs", 12345, &src, None);
    let b = plan_song("/games/songs", 12345, &src, None);
    assert_eq!(a.destination, "/games/songs/12345.mp3");
    assert_eq!(a.destination, b.destination);
    assert!(matches!(a.placement, Ok(Placement::Copy)));
    assert!(matches!(b.placement, Ok(Placement::Copy)));
    let wav = ResolvedSource { path: s("/tmp/gd-nong-tempX.wav"), owned_temporary: true };
    let c = plan_song("/games/songs", 42, &wav, None);
    assert_eq!(c.destination, "/games/songs/42.mp3");
    assert!(matches!(c.placement, Ok(Placement::Transcode { .. })));
}

#[test]
fn final_reports() {
    let r = final_report(&Ok(()));
    assert_eq!(r.line, "Success");
    assert_eq!(r.exit_code, 0);
    let r = final_report(&Err(PlaceError::Io(s("disk full"))));
    assert_eq!(r.line, "Error: disk full");
    assert_eq!(r.exit_code, 0);
}

#[test]
fn picker_offers_audio_extensions() {
    assert_eq!(
        gd_nong::source::picker_extensions(),
        args_of(&["wav", "mp3", "ogg", "flac", "aac", "m4a", "opus"])
    );
}

#[test]
fn missing_extension_exits_with_one() {
    let r = final_report(&Err(PlaceError::MissingExtension));
    assert_eq!(r.line, "Error: the source or destination has no file extension");
    assert_eq!(r.exit_code, 1);
    let r = final_report(&Err(PlaceError::EncoderFailed { stdout: s("a"), stderr: s("b") }));
    assert_eq!(r.exit_code, 0);
}

#[test]
fn fatal_failures_exit_with_one() {
    let r = fatal_report(&Fatal::NoDirectory);
    assert_eq!(r.exit_code, 1);
    assert_eq!(r.line, "could not locate the GD songs directory and user didn't provide one.");
    let r = fatal_report(&Fatal::Source(ResolveError::NoSong));
    assert_eq!(r.exit_code, 1);
    assert_eq!(r.line, "no song provided.");
    let r = fatal_report(&Fatal::Source(ResolveError::Status { code: 404, text: s("Not Found") }));
    assert_eq!(r.exit_code, 1);
    assert!(r.line.contains("404"));
}
