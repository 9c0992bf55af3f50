//! Which renditions to produce, and the commands and playlists that produce them.
use vstd::prelude::*;
use crate::text::{concat, decimal, push_decimal, push_str, replace, replace_all, str_eq, to_owned, u64_to_decimal};
use crate::worker::probe::{views, ProbeResult};

verus! {

/// How a source is transcoded.
#[derive(Clone, Copy, Debug, PartialEq, Eq, Structural)]
pub enum TranscodePlan {
    /// One ffmpeg pass producing 720p and 360p.
    Dual { has_audio: bool },
    /// One rendition at `height`.
    Single { height: u32, has_audio: bool },
}

/// The rendition ladder: 720p and 360p from a source of at least 720 lines;
/// 360p alone from a source of 360 to 719 lines; the source height itself
/// below that. No rendition is taller than the source.
pub open spec fn plan_of(probe: ProbeResult) -> TranscodePlan {
    if probe.height >= 720 {
        TranscodePlan::Dual { has_audio: probe.has_audio }
    } else if probe.height >= 360 {
        TranscodePlan::Single { height: 360, has_audio: probe.has_audio }
    } else {
        TranscodePlan::Single { height: probe.height, has_audio: probe.has_audio }
    }
}

/// The heights of the renditions a plan produces.
pub open spec fn planned_heights(plan: TranscodePlan) -> Seq<u32> {
    match plan {
        TranscodePlan::Dual { .. } => seq![720u32, 360u32],
        TranscodePlan::Single { height, .. } => seq![height],
    }
}

/// Chooses the renditions for a probed source.
pub fn plan_renditions(probe: &ProbeResult) -> (plan: TranscodePlan)
    ensures
        plan == plan_of(*probe),
{
    if probe.height >= 720 {
        TranscodePlan::Dual { has_audio: probe.has_audio }
    } else if probe.height >= 360 {
        TranscodePlan::Single { height: 360, has_audio: probe.has_audio }
    } else {
        TranscodePlan::Single { height: probe.height, has_audio: probe.has_audio }
    }
}

/// The name of a rendition of a given height, such as `360p`.
pub open spec fn rendition_name_of(height: u32) -> Seq<char> {
    decimal(height as nat) + "p"@
}

/// The name of a rendition of a given height, such as `360p`.
pub fn rendition_name(height: u32) -> (name: String)
    ensures
        name@ == rendition_name_of(height),
{
    let mut name = u64_to_decimal(height as u64);
    push_str(&mut name, "p");
    name
}

/// Where a video's renditions are written before they are published.
pub open spec fn tmp_dir_of(video_id: Seq<char>) -> Seq<char> {
    "storage/hls/_tmp/"@ + video_id
}

/// Where a video's renditions are served from, by share token.
pub open spec fn public_dir_of(share_token: Seq<char>) -> Seq<char> {
    "storage/hls/public/"@ + share_token
}

/// Where a video's renditions are written before they are published.
pub fn tmp_dir(video_id: &str) -> (dir: String)
    ensures
        dir@ == tmp_dir_of(video_id@),
{
    concat("storage/hls/_tmp/", video_id)
}

/// Where a video's renditions are served from.
pub fn public_dir(share_token: &str) -> (dir: String)
    ensures
        dir@ == public_dir_of(share_token@),
{
    concat("storage/hls/public/", share_token)
}

/// The path `dir/name`.
pub open spec fn join_path(dir: Seq<char>, name: Seq<char>) -> Seq<char> {
    dir + "/"@ + name
}

/// The path `dir/name`.
pub fn path_in(dir: &str, name: &str) -> (p: String)
    ensures
        p@ == join_path(dir@, name@),
{
    let mut p = concat(dir, "/");
    push_str(&mut p, name);
    p
}

fn push_arg(args: &mut Vec<String>, a: &str)
    ensures
        views(final(args)@) == views(old(args)@).push(a@),
{
    args.push(to_owned(a));
    assert(views(args@) =~= views(old(args)@).push(a@));
}

fn push_owned_arg(args: &mut Vec<String>, a: String)
    ensures
        views(final(args)@) == views(old(args)@).push(a@),
{
    let ghost v = a@;
    args.push(a);
    assert(views(args@) =~= views(old(args)@).push(v));
}

/// The filter graph of the dual-rendition pass: the video split and scaled
/// to 720 and 360 lines, and the audio split in two when there is audio.
pub open spec fn dual_filter_of(has_audio: bool) -> Seq<char> {
    "[0:v]split=2[v720][v360];[v720]scale=-2:720[out720];[v360]scale=-2:360[out360]"@
        + if has_audio { ";[0:a]asplit=2[a0][a1]"@ } else { Seq::empty() }
}

/// The encoder settings of every rendition's video.
pub open spec fn video_codec_args() -> Seq<Seq<char>> {
    seq!["-c:v"@, "libx264"@, "-preset"@, "fast"@, "-crf"@, "28"@]
}

/// The encoder settings of every rendition's audio.
pub open spec fn audio_codec_args() -> Seq<Seq<char>> {
    seq!["-c:a"@, "aac"@, "-b:a"@, "128k"@, "-ac"@, "2"@]
}

/// The HLS packaging settings.
pub open spec fn hls_args() -> Seq<Seq<char>> {
    seq!["-f"@, "hls"@, "-hls_time"@, "4"@, "-hls_playlist_type"@, "vod"@, "-hls_segment_filename"@]
}

/// The ffmpeg arguments of the single-pass 720p + 360p transcode into `tmp_dir`.
pub open spec fn dual_args_of(source_path: Seq<char>, tmp_dir: Seq<char>, has_audio: bool) -> Seq<Seq<char>> {
    seq!["-y"@, "-i"@, source_path, "-filter_complex"@, dual_filter_of(has_audio),
        "-map"@, "[out720]"@, "-map"@, "[out360]"@]
        + (if has_audio { seq!["-map"@, "[a0]"@, "-map"@, "[a1]"@] } else { Seq::empty() })
        + video_codec_args()
        + (if has_audio { audio_codec_args() } else { Seq::empty() })
        + hls_args()
        + seq![tmp_dir + "/%v/seg_%03d.ts"@,
            "-var_stream_map"@, if has_audio { "v:0,a:0 v:1,a:1"@ } else { "v:0 v:1"@ },
            "-master_pl_name"@, "master.m3u8"@,
            tmp_dir + "/%v/index.m3u8"@]
}

/// The ffmpeg arguments of one rendition of `target_height` lines written
/// into `rendition_dir`; without audio the output has none (`-an`).
pub open spec fn single_args_of(source_path: Seq<char>, rendition_dir: Seq<char>, target_height: u32, has_audio: bool) -> Seq<Seq<char>> {
    seq!["-y"@, "-i"@, source_path, "-vf"@, "scale=-2:"@ + decimal(target_height as nat)]
        + video_codec_args()
        + (if has_audio { audio_codec_args() } else { seq!["-an"@] })
        + hls_args()
        + seq![rendition_dir + "/seg_%03d.ts"@, rendition_dir + "/index.m3u8"@]
}

fn push_video_codec_args(args: &mut Vec<String>)
    ensures
        views(final(args)@) == views(old(args)@) + video_codec_args(),
{
    push_arg(args, "-c:v");
    push_arg(args, "libx264");
    push_arg(args, "-preset");
    push_arg(args, "fast");
    push_arg(args, "-crf");
    push_arg(args, "28");
    assert(views(args@) =~= views(old(args)@) + video_codec_args());
}

fn push_audio_codec_args(args: &mut Vec<String>)
    ensures
        views(final(args)@) == views(old(args)@) + audio_codec_args(),
{
    push_arg(args, "-c:a");
    push_arg(args, "aac");
    push_arg(args, "-b:a");
    push_arg(args, "128k");
    push_arg(args, "-ac");
    push_arg(args, "2");
    assert(views(args@) =~= views(old(args)@) + audio_codec_args());
}

fn push_hls_args(args: &mut Vec<String>)
    ensures
        views(final(args)@) == views(old(args)@) + hls_args(),
{
    push_arg(args, "-f");
    push_arg(args, "hls");
    push_arg(args, "-hls_time");
    push_arg(args, "4");
    push_arg(args, "-hls_playlist_type");
    push_arg(args, "vod");
    push_arg(args, "-hls_segment_filename");
    assert(views(args@) =~= views(old(args)@) + hls_args());
}

/// The filter graph of the dual-rendition pass.
pub fn dual_filter(has_audio: bool) -> (f: String)
    ensures
        f@ == dual_filter_of(has_audio),
{
    let mut f = to_owned("[0:v]split=2[v720][v360];[v720]scale=-2:720[out720];[v360]scale=-2:360[out360]");
    if has_audio {
        push_str(&mut f, ";[0:a]asplit=2[a0][a1]");
    } else {
        assert(f@ + Seq::<char>::empty() =~= f@);
    }
    f
}

/// The ffmpeg arguments of the single-pass 720p + 360p transcode.
pub fn dual_rendition_args(source_path: &str, tmp_dir: &str, has_audio: bool) -> (args: Vec<String>)
    ensures
        views(args@) == dual_args_of(source_path@, tmp_dir@, has_audio),
{
    let mut args: Vec<String> = Vec::new();
    push_arg(&mut args, "-y");
    push_arg(&mut args, "-i");
    push_arg(&mut args, source_path);
    push_arg(&mut args, "-filter_complex");
    push_owned_arg(&mut args, dual_filter(has_audio));
    push_arg(&mut args, "-map");
    push_arg(&mut args, "[out720]");
    push_arg(&mut args, "-map");
    push_arg(&mut args, "[out360]");
    let ghost a1 = views(args@);
    if has_audio {
        push_arg(&mut args, "-map");
        push_arg(&mut args, "[a0]");
        push_arg(&mut args, "-map");
        push_arg(&mut args, "[a1]");
    }
    let ghost a2 = views(args@);
    push_video_codec_args(&mut args);
    let ghost a3 = views(args@);
    if has_audio {
        push_audio_codec_args(&mut args);
    }
    let ghost a4 = views(args@);
    push_hls_args(&mut args);
    let ghost a5 = views(args@);
    let mut seg = to_owned(tmp_dir);
    push_str(&mut seg, "/%v/seg_%03d.ts");
    push_owned_arg(&mut args, seg);
    push_arg(&mut args, "-var_stream_map");
    if has_audio {
        push_arg(&mut args, "v:0,a:0 v:1,a:1");
    } else {
        push_arg(&mut args, "v:0 v:1");
    }
    push_arg(&mut args, "-master_pl_name");
    push_arg(&mut args, "master.m3u8");
    let mut index = to_owned(tmp_dir);
    push_str(&mut index, "/%v/index.m3u8");
    push_owned_arg(&mut args, index);
    assert(views(args@) =~= dual_args_of(source_path@, tmp_dir@, has_audio));
    args
}

/// The ffmpeg arguments of one rendition.
pub fn single_rendition_args(source_path: &str, rendition_dir: &str, target_height: u32, has_audio: bool) -> (args: Vec<String>)
    ensures
        views(args@) == single_args_of(source_path@, rendition_dir@, target_height, has_audio),
{
    let mut args: Vec<String> = Vec::new();
    push_arg(&mut args, "-y");
    push_arg(&mut args, "-i");
    push_arg(&mut args, source_path);
    push_arg(&mut args, "-vf");
    let mut scale = to_owned("scale=-2:");
    push_decimal(&mut scale, target_height as u64);
    push_owned_arg(&mut args, scale);
    push_video_codec_args(&mut args);
    if has_audio {
        push_audio_codec_args(&mut args);
    } else {
        push_arg(&mut args, "-an");
    }
    push_hls_args(&mut args);
    let mut seg = to_owned(rendition_dir);
    push_str(&mut seg, "/seg_%03d.ts");
    push_owned_arg(&mut args, seg);
    let mut index = to_owned(rendition_dir);
    push_str(&mut index, "/index.m3u8");
    push_owned_arg(&mut args, index);
    assert(views(args@) =~= single_args_of(source_path@, rendition_dir@, target_height, has_audio));
    args
}

/// The advertised bandwidth of a rendition, by name (approximate; players
/// adapt to the segments they actually fetch).
pub open spec fn bandwidth_of(rendition: Seq<char>) -> nat {
    if rendition == "720p"@ {
        2500000
    } else if rendition == "360p"@ {
        500000
    } else {
        800000
    }
}

/// The entry of one rendition in a master playlist.
pub open spec fn playlist_entry(rendition: Seq<char>) -> Seq<char> {
    "#EXT-X-STREAM-INF:BANDWIDTH="@ + decimal(bandwidth_of(rendition)) + "\n"@ + rendition + "/index.m3u8\n"@
}

/// A master playlist listing the given renditions, in order.
pub open spec fn master_playlist_of(renditions: Seq<Seq<char>>) -> Seq<char>
    decreases renditions.len(),
{
    if renditions.len() == 0 {
        "#EXTM3U\n"@
    } else {
        master_playlist_of(renditions.drop_last()) + playlist_entry(renditions.last())
    }
}

/// The text of a master playlist listing the given renditions, in order.
pub fn master_playlist(renditions: &[String]) -> (content: String)
    ensures
        content@ == master_playlist_of(views(renditions@)),
{
    let mut content = to_owned("#EXTM3U\n");
    let mut i: usize = 0;
    assert(views(renditions@).subrange(0, 0) =~= Seq::<Seq<char>>::empty());
    while i < renditions.len()
        invariant
            i <= renditions@.len(),
            content@ == master_playlist_of(views(renditions@).subrange(0, i as int)),
        decreases renditions@.len() - i,
    {
        let r = renditions[i].as_str();
        let bandwidth: u64 = if str_eq(r, "720p") {
            2500000
        } else if str_eq(r, "360p") {
            500000
        } else {
            800000
        };
        push_str(&mut content, "#EXT-X-STREAM-INF:BANDWIDTH=");
        push_decimal(&mut content, bandwidth);
        push_str(&mut content, "\n");
        push_str(&mut content, r);
        push_str(&mut content, "/index.m3u8\n");
        assert(views(renditions@).subrange(0, i + 1).drop_last() =~= views(renditions@).subrange(0, i as int));
        assert(views(renditions@).subrange(0, i + 1).last() == r@);
        i = i + 1;
    }
    assert(views(renditions@).subrange(0, renditions@.len() as int) =~= views(renditions@));
    content
}

/// ffmpeg's master playlist with its numbered variant directories renamed
/// to `720p` and `360p`.
pub open spec fn renamed_master_of(content: Seq<char>) -> Seq<char> {
    replace_all(replace_all(content, "0/index.m3u8"@, "720p/index.m3u8"@), "1/index.m3u8"@, "360p/index.m3u8"@)
}

/// Renames the numbered variant playlists in ffmpeg's master playlist.
pub fn rename_master_variants(content: &str) -> (res: String)
    ensures
        res@ == renamed_master_of(content@),
{
    proof {
        reveal_strlit("0/index.m3u8");
        reveal_strlit("1/index.m3u8");
    }
    let first = replace(content, "0/index.m3u8", "720p/index.m3u8");
    replace(first.as_str(), "1/index.m3u8", "360p/index.m3u8")
}

} // verus!
