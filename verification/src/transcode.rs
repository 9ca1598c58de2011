//! Construction of the external transcoder invocation: the argument lists
//! for the single-pass and concatenation modes, and the playlist the
//! concatenation mode reads. The tool itself is an opaque external process;
//! spawning it is the caller's edge, everything it is handed is built and
//! pinned down here.

use crate::error::ClipError;
use vstd::prelude::*;
use vstd::string::StringExecFns;

verus! {

/// One playlist line referencing the local video path, in the form the
/// transcoder's concatenation demux mode reads.
pub open spec fn playlist_line(path: Seq<char>) -> Seq<char> {
    "file '"@ + path + "'\n"@
}

/// `line` repeated `n` times, end to end.
pub open spec fn repeat_seq(line: Seq<char>, n: nat) -> Seq<char>
    decreases n,
{
    if n == 0 {
        Seq::empty()
    } else {
        repeat_seq(line, (n - 1) as nat) + line
    }
}

/// Materialize the concatenation playlist: one line per planned loop, each
/// referencing the same patched local video path.
pub fn playlist_content(video_path: &str, loops: u64) -> (r: String)
    ensures
        r@ == repeat_seq(playlist_line(video_path@), loops as nat),
{
    let mut line = String::from_str("file '");
    line.append(video_path);
    line.append("'\n");
    proof {
        assert(line@ =~= playlist_line(video_path@));
    }
    let mut out = String::new();
    let mut i: u64 = 0;
    while i < loops
        invariant
            i <= loops,
            line@ == playlist_line(video_path@),
            out@ == repeat_seq(playlist_line(video_path@), i as nat),
        decreases loops - i,
    {
        out.append(line.as_str());
        i = i + 1;
    }
    out
}

/// The single-pass invocation: mux the patched local video against the
/// remote audio, truncate to the shorter stream, copy the video codec, and
/// overwrite the destination unconditionally.
pub open spec fn spec_single_args(video: Seq<char>, audio: Seq<char>, out: Seq<char>) -> Seq<
    Seq<char>,
> {
    seq!["-i"@, video, "-i"@, audio, "-shortest"@, "-c:v:0"@, "copy"@, "-y"@, out]
}

/// The concatenation invocation: read the playlist in concat demux mode
/// with unsafe-path acceptance (the entries are absolute temporary paths),
/// then the same mux, shortest-stream, copy-codec and overwrite policy.
pub open spec fn spec_concat_args(playlist: Seq<char>, audio: Seq<char>, out: Seq<char>) -> Seq<
    Seq<char>,
> {
    seq![
        "-f"@,
        "concat"@,
        "-safe"@,
        "0"@,
        "-i"@,
        playlist,
        "-i"@,
        audio,
        "-shortest"@,
        "-c:v:0"@,
        "copy"@,
        "-y"@,
        out,
    ]
}

/// Build the argument list for the single-pass (no-loop) mode.
pub fn build_single_args(video_path: &str, audio_url: &str, out_path: &str) -> (r: Vec<String>)
    ensures
        r@.map_values(|s: String| s@) == spec_single_args(video_path@, audio_url@, out_path@),
{
    let mut r: Vec<String> = Vec::new();
    r.push(String::from_str("-i"));
    r.push(String::from_str(video_path));
    r.push(String::from_str("-i"));
    r.push(String::from_str(audio_url));
    r.push(String::from_str("-shortest"));
    r.push(String::from_str("-c:v:0"));
    r.push(String::from_str("copy"));
    r.push(String::from_str("-y"));
    r.push(String::from_str(out_path));
    proof {
        assert(r@.map_values(|s: String| s@) =~= spec_single_args(
            video_path@,
            audio_url@,
            out_path@,
        ));
    }
    r
}

/// Build the argument list for the concatenation (loop) mode.
pub fn build_concat_args(playlist_path: &str, audio_url: &str, out_path: &str) -> (r: Vec<String>)
    ensures
        r@.map_values(|s: String| s@) == spec_concat_args(playlist_path@, audio_url@, out_path@),
{
    let mut r: Vec<String> = Vec::new();
    r.push(String::from_str("-f"));
    r.push(String::from_str("concat"));
    r.push(String::from_str("-safe"));
    r.push(String::from_str("0"));
    r.push(String::from_str("-i"));
    r.push(String::from_str(playlist_path));
    r.push(String::from_str("-i"));
    r.push(String::from_str(audio_url));
    r.push(String::from_str("-shortest"));
    r.push(String::from_str("-c:v:0"));
    r.push(String::from_str("copy"));
    r.push(String::from_str("-y"));
    r.push(String::from_str(out_path));
    proof {
        assert(r@.map_values(|s: String| s@) =~= spec_concat_args(
            playlist_path@,
            audio_url@,
            out_path@,
        ));
    }
    r
}

/// Both invocation forms carry the unconditional-overwrite flag, so running
/// the same invocation again replaces the previous output cleanly; the
/// replacement itself is the external tool's documented behaviour, outside
/// this crate.
pub proof fn lemma_overwrite_flag(
    video: Seq<char>,
    audio: Seq<char>,
    playlist: Seq<char>,
    out: Seq<char>,
)
    ensures
        spec_single_args(video, audio, out)[7] == "-y"@,
        spec_concat_args(playlist, audio, out)[11] == "-y"@,
{
}

/// Read the transcoder's exit: success yields the finished file at the
/// destination, anything else — a spawn failure or a non-zero exit — is
/// `ClipError::Transcode`.
pub fn interpret_exit(success: bool) -> (r: Result<(), ClipError>)
    ensures
        (match r {
            Ok(_) => success,
            Err(e) => !success && e == ClipError::Transcode,
        }),
{
    if success {
        Ok(())
    } else {
        Err(ClipError::Transcode)
    }
}

} // verus!
