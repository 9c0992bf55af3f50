//! Reading what ffprobe and ffmpeg report.
use vstd::prelude::*;
use crate::text::{concat, join_lines_from, lines, lines_of, join_lines, push_str, str_eq, to_owned};

verus! {

/// What a finished external command reported.
pub struct ProcessOutput {
    /// Whether it exited successfully.
    pub success: bool,
    /// Its exit status as the platform writes it (for example `exit status: 1`).
    pub status_text: String,
    pub stdout: Vec<u8>,
    pub stderr: Vec<u8>,
}

/// One stream of ffprobe's report: its `codec_type` when that is a string,
/// and its `height` when that is an unsigned integer.
pub struct ProbeStream {
    pub codec_type: Option<String>,
    pub height: Option<u64>,
}

/// ffprobe's report: its `streams` when that is an array.
pub struct ProbeOutput {
    pub streams: Option<Vec<ProbeStream>>,
}

/// A stream of ffprobe's report as plain values: codec type and height.
pub type StreamView = (Option<Seq<char>>, Option<u64>);

impl View for ProbeStream {
    type V = StreamView;

    open spec fn view(&self) -> StreamView {
        (match self.codec_type { Some(c) => Some(c@), None => None }, self.height)
    }
}

impl View for ProbeOutput {
    type V = Option<Seq<StreamView>>;

    open spec fn view(&self) -> Option<Seq<StreamView>> {
        match self.streams {
            Some(v) => Some(v@.map_values(|s: ProbeStream| s@)),
            None => None,
        }
    }
}

/// What the worker needs from a probe: the video height and whether there is audio.
#[derive(Clone, Copy, Debug, PartialEq, Eq, Structural)]
pub struct ProbeResult {
    pub height: u32,
    pub has_audio: bool,
}

/// Whether stream `i` is the first whose codec type is `codec`.
pub open spec fn is_first_of_codec(s: Seq<StreamView>, i: int, codec: Seq<char>) -> bool {
    &&& 0 <= i < s.len()
    &&& s[i].0 == Some(codec)
    &&& forall|j: int| 0 <= j < i ==> s[j].0 != Some(codec)
}

/// Whether some stream has codec type `codec`.
pub open spec fn has_codec(s: Seq<StreamView>, codec: Seq<char>) -> bool {
    exists|j: int| 0 <= j < s.len() && #[trigger] s[j].0 == Some(codec)
}

/// What a probe report yields: the height of the first video stream
/// (truncated to 32 bits) and whether any stream is audio, or the reason it
/// cannot be used.
pub open spec fn probe_outcome(report: Option<Seq<StreamView>>) -> Result<(u32, bool), Seq<char>> {
    match report {
        None => Err("No streams found in ffprobe output"@),
        Some(s) => {
            if !has_codec(s, "video"@) {
                Err("No video stream found"@)
            } else {
                let i = choose|i: int| is_first_of_codec(s, i, "video"@);
                match s[i].1 {
                    None => Err("No height in video stream"@),
                    Some(h) => Ok((h as u32, has_codec(s, "audio"@))),
                }
            }
        },
    }
}

/// Whether `res` is the outcome that `expected` describes.
pub open spec fn probe_matches(res: Result<ProbeResult, String>, expected: Result<(u32, bool), Seq<char>>) -> bool {
    match res {
        Ok(p) => expected == Ok::<(u32, bool), Seq<char>>((p.height, p.has_audio)),
        Err(m) => expected == Err::<(u32, bool), Seq<char>>(m@),
    }
}

proof fn lemma_first_unique(s: Seq<StreamView>, i: int, k: int, codec: Seq<char>)
    requires
        is_first_of_codec(s, i, codec),
        is_first_of_codec(s, k, codec),
    ensures
        i == k,
{
}

/// The height of the first video stream and whether there is an audio stream.
pub fn probe_result_from(output: &ProbeOutput) -> (res: Result<ProbeResult, String>)
    ensures
        probe_matches(res, probe_outcome(output@)),
{
    let streams = match &output.streams {
        None => return Err(to_owned("No streams found in ffprobe output")),
        Some(v) => v,
    };
    let ghost sv = streams@.map_values(|s: ProbeStream| s@);
    let mut video: Option<usize> = None;
    let mut has_audio = false;
    let mut i: usize = 0;
    while i < streams.len()
        invariant
            sv == streams@.map_values(|s: ProbeStream| s@),
            i <= streams@.len(),
            match video {
                Some(k) => is_first_of_codec(sv, k as int, "video"@) && k < i,
                None => forall|j: int| 0 <= j < i ==> sv[j].0 != Some("video"@),
            },
            has_audio <==> exists|j: int| 0 <= j < i && #[trigger] sv[j].0 == Some("audio"@),
        decreases streams@.len() - i,
    {
        let s = &streams[i];
        assert(sv[i as int] == s@);
        match &s.codec_type {
            Some(c) => {
                if video.is_none() && str_eq(c.as_str(), "video") {
                    video = Some(i);
                }
                if str_eq(c.as_str(), "audio") {
                    has_audio = true;
                }
            },
            None => {},
        }
        i = i + 1;
    }
    match video {
        None => {
            assert(!has_codec(sv, "video"@));
            Err(to_owned("No video stream found"))
        },
        Some(k) => {
            proof {
                let c = choose|i: int| is_first_of_codec(sv, i, "video"@);
                lemma_first_unique(sv, c, k as int, "video"@);
            }
            match streams[k].height {
                None => Err(to_owned("No height in video stream")),
                Some(h) => Ok(ProbeResult { height: h as u32, has_audio }),
            }
        },
    }
}

/// What `serde_json::from_str` followed by reading `streams`,
/// `codec_type` and `height` gives for a text: the report, or, when the text
/// is not JSON, serde_json's description of the error.
pub uninterp spec fn probe_json(text: Seq<char>) -> Result<Option<Seq<StreamView>>, Seq<char>>;

/// Parses ffprobe's JSON report.
///
/// Trusted: `serde_json::from_str::<serde_json::Value>` parses the text; the
/// report is read from the value by indexing (`["streams"]`,
/// `["codec_type"]`, `["height"]`, which give `Null` where a key or an
/// object is missing) and `as_array`, `as_str`, `as_u64`. The result is a
/// function of the text, named `probe_json`; so is the error text, serde_json's
/// description of the parse error.
#[verifier::external_body]
fn parse_probe_json(text: &str) -> (res: Result<ProbeOutput, String>)
    ensures
        match res {
            Ok(o) => probe_json(text@) == Ok::<Option<Seq<StreamView>>, Seq<char>>(o@),
            Err(e) => probe_json(text@) == Err::<Option<Seq<StreamView>>, Seq<char>>(e@),
        },
{
    match serde_json::from_str::<serde_json::Value>(text) {
        Ok(v) => Ok(ProbeOutput {
            streams: v["streams"].as_array().map(|a| a.iter().map(|s| ProbeStream {
                codec_type: s["codec_type"].as_str().map(|c| c.to_string()),
                height: s["height"].as_u64(),
            }).collect()),
        }),
        Err(e) => Err(e.to_string()),
    }
}

/// What `String::from_utf8_lossy` gives for some bytes.
pub uninterp spec fn utf8_lossy(bytes: Seq<u8>) -> Seq<char>;

/// Decodes bytes as UTF-8, invalid sequences replaced by U+FFFD.
///
/// Trusted: `String::from_utf8_lossy`, a function of the bytes alone,
/// named `utf8_lossy`.
#[verifier::external_body]
fn decode_lossy(bytes: &[u8]) -> (res: String)
    ensures
        res@ == utf8_lossy(bytes@),
{
    String::from_utf8_lossy(bytes).into_owned()
}

/// The arguments ffprobe is run with to report on a source file.
pub open spec fn ffprobe_args_of(source_path: Seq<char>) -> Seq<Seq<char>> {
    seq!["-v"@, "quiet"@, "-print_format"@, "json"@, "-show_format"@, "-show_streams"@, source_path]
}

/// The views of a list of strings.
pub open spec fn views(v: Seq<String>) -> Seq<Seq<char>> {
    v.map_values(|s: String| s@)
}

/// The arguments ffprobe is run with to report on a source file.
pub fn ffprobe_args(source_path: &str) -> (args: Vec<String>)
    ensures
        views(args@) == ffprobe_args_of(source_path@),
{
    let args = vec![
        to_owned("-v"),
        to_owned("quiet"),
        to_owned("-print_format"),
        to_owned("json"),
        to_owned("-show_format"),
        to_owned("-show_streams"),
        to_owned(source_path),
    ];
    assert(views(args@) =~= ffprobe_args_of(source_path@));
    args
}

/// How a run of ffprobe is read, when it could be started: a failed exit
/// reports its error output, otherwise the JSON report is parsed and read.
pub fn interpret_ffprobe(run: &Result<ProcessOutput, String>) -> (res: Result<ProbeResult, String>)
    ensures
        match run {
            Err(e) => res matches Err(m) && m@ == "Failed to execute ffprobe: "@ + e@,
            Ok(o) => if !o.success {
                res matches Err(m) && m@ == "ffprobe failed: "@ + utf8_lossy(o.stderr@)
            } else {
                match probe_json(utf8_lossy(o.stdout@)) {
                    Err(e) => res matches Err(m) && m@ == "Failed to parse ffprobe JSON: "@ + e,
                    Ok(report) => probe_matches(res, probe_outcome(report)),
                }
            },
        },
{
    match run {
        Err(e) => Err(concat("Failed to execute ffprobe: ", e.as_str())),
        Ok(o) => {
            if !o.success {
                let stderr = decode_lossy(o.stderr.as_slice());
                return Err(concat("ffprobe failed: ", stderr.as_str()));
            }
            let stdout = decode_lossy(o.stdout.as_slice());
            match parse_probe_json(stdout.as_str()) {
                Err(e) => Err(concat("Failed to parse ffprobe JSON: ", e.as_str())),
                Ok(report) => probe_result_from(&report),
            }
        },
    }
}

/// The last `n` lines of a text (all of them when it has fewer), joined
/// with line feeds.
pub open spec fn last_lines(text: Seq<char>, n: nat) -> Seq<char> {
    let ls = lines_of(text);
    let from = if ls.len() > n { ls.len() - n } else { 0 };
    join_lines(ls.subrange(from, ls.len() as int))
}

/// How many lines of ffmpeg's error output a failure report keeps.
pub const FFMPEG_ERROR_LINES: usize = 20;

/// The last `n` lines of a text, joined with line feeds.
pub fn tail_lines(text: &str, n: usize) -> (res: String)
    ensures
        res@ == last_lines(text@, n as nat),
{
    let ls = lines(text);
    let from = if ls.len() > n { ls.len() - n } else { 0 };
    let res = join_lines_from(ls.as_slice(), from);
    assert(ls@.subrange(from as int, ls@.len() as int).map_values(|l: Vec<char>| l@)
        =~= lines_of(text@).subrange(from as int, lines_of(text@).len() as int));
    res
}

/// How a run of ffmpeg is read: success, or a report of why it failed with
/// the exit status and the last lines of its error output.
pub fn interpret_ffmpeg(run: &Result<ProcessOutput, String>) -> (res: Result<(), String>)
    ensures
        match run {
            Err(e) => res matches Err(m) && m@ == "Failed to execute ffmpeg: "@ + e@,
            Ok(o) => if o.success {
                res is Ok
            } else {
                res matches Err(m) && m@ == "ffmpeg exit "@ + o.status_text@ + ": "@
                    + last_lines(utf8_lossy(o.stderr@), FFMPEG_ERROR_LINES as nat)
            },
        },
{
    match run {
        Err(e) => Err(concat("Failed to execute ffmpeg: ", e.as_str())),
        Ok(o) => {
            if o.success {
                return Ok(());
            }
            let stderr = decode_lossy(o.stderr.as_slice());
            let tail = tail_lines(stderr.as_str(), FFMPEG_ERROR_LINES);
            let mut m = concat("ffmpeg exit ", o.status_text.as_str());
            push_str(&mut m, ": ");
            push_str(&mut m, tail.as_str());
            Err(m)
        },
    }
}

} // verus!
