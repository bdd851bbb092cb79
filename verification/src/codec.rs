//! Codec negotiation and external-tool command lines.
//!
//! The external decode/encode tool advertises its encoders; the
//! pipeline picks from a fixed fallback order and builds the complete
//! argument lists for frame extraction, stream probing and
//! reassembly.  The surrounding application only spawns the tool with
//! the arguments built here.

use vstd::prelude::*;
use vstd::string::{StrSliceExecFns, StringSliceAdditionalSpecFns};

verus! {

/// The video encoder chosen for reassembly, in fallback order:
/// a widely compatible software encoder first, a hardware or
/// alternate encoder next, a universal baseline last.
#[derive(Clone, Copy, Debug, PartialEq, Eq, Structural)]
pub enum VideoCodec {
    X264,
    H264,
    Mpeg4,
}

/// The audio encoder chosen for reassembly, in fallback order: a
/// modern encoder first, a legacy encoder next, a plain stream copy
/// last.
#[derive(Clone, Copy, Debug, PartialEq, Eq, Structural)]
pub enum AudioCodec {
    Aac,
    Mp3Lame,
    Copy,
}

/// Which video encoder the fallback order picks, given which ones the
/// tool advertises.
pub open spec fn spec_select_video_codec(x264_available: bool, h264_available: bool) -> VideoCodec {
    if x264_available {
        VideoCodec::X264
    } else if h264_available {
        VideoCodec::H264
    } else {
        VideoCodec::Mpeg4
    }
}

/// Pick the video encoder: the preferred software encoder when
/// available, the alternate when only it is, the baseline otherwise.
pub fn select_video_codec(x264_available: bool, h264_available: bool) -> (c: VideoCodec)
    ensures
        c == spec_select_video_codec(x264_available, h264_available),
{
    if x264_available {
        VideoCodec::X264
    } else if h264_available {
        VideoCodec::H264
    } else {
        VideoCodec::Mpeg4
    }
}

/// Codec fallback: whenever the preferred encoder is unavailable and
/// the secondary is advertised, the secondary is selected; the
/// baseline only ever runs when neither is advertised.
pub proof fn lemma_video_codec_fallback(x264_available: bool, h264_available: bool)
    ensures
        !x264_available && h264_available ==> spec_select_video_codec(
            x264_available,
            h264_available,
        ) == VideoCodec::H264,
        spec_select_video_codec(x264_available, h264_available) == VideoCodec::Mpeg4
            <==> !x264_available && !h264_available,
{
}

/// Which audio encoder the fallback order picks.
pub open spec fn spec_select_audio_codec(aac_available: bool, mp3_available: bool) -> AudioCodec {
    if aac_available {
        AudioCodec::Aac
    } else if mp3_available {
        AudioCodec::Mp3Lame
    } else {
        AudioCodec::Copy
    }
}

/// Pick the audio encoder: the modern encoder when available, the
/// legacy one when only it is, a stream copy otherwise.
pub fn select_audio_codec(aac_available: bool, mp3_available: bool) -> (c: AudioCodec)
    ensures
        c == spec_select_audio_codec(aac_available, mp3_available),
{
    if aac_available {
        AudioCodec::Aac
    } else if mp3_available {
        AudioCodec::Mp3Lame
    } else {
        AudioCodec::Copy
    }
}

/// The encoder name the tool knows a video codec by.
pub open spec fn spec_video_codec_name(c: VideoCodec) -> Seq<char> {
    match c {
        VideoCodec::X264 => "libx264"@,
        VideoCodec::H264 => "h264"@,
        VideoCodec::Mpeg4 => "mpeg4"@,
    }
}

impl VideoCodec {
    /// The encoder name the tool knows this codec by.
    pub fn name(&self) -> (s: &'static str)
        ensures
            s@ == spec_video_codec_name(*self),
    {
        match self {
            VideoCodec::X264 => "libx264",
            VideoCodec::H264 => "h264",
            VideoCodec::Mpeg4 => "mpeg4",
        }
    }
}

/// The encoder name the tool knows an audio codec by, or the stream
/// copy marker.
pub open spec fn spec_audio_codec_name(c: AudioCodec) -> Seq<char> {
    match c {
        AudioCodec::Aac => "aac"@,
        AudioCodec::Mp3Lame => "libmp3lame"@,
        AudioCodec::Copy => "copy"@,
    }
}

impl AudioCodec {
    /// The encoder name the tool knows this codec by, or the stream
    /// copy marker.
    pub fn name(&self) -> (s: &'static str)
        ensures
            s@ == spec_audio_codec_name(*self),
    {
        match self {
            AudioCodec::Aac => "aac",
            AudioCodec::Mp3Lame => "libmp3lame",
            AudioCodec::Copy => "copy",
        }
    }
}

/// The argument list that makes the decode tool dump every frame of a
/// video as a numbered lossless image, at the highest quality scale.
pub open spec fn spec_extract_args(video: Seq<char>, frames_dir: Seq<char>) -> Seq<Seq<char>> {
    seq![
        "-i"@,
        video,
        "-qscale:v"@,
        "1"@,
        "-qmin"@,
        "1"@,
        "-qmax"@,
        "1"@,
        frames_dir + "/frame_%06d.png"@,
    ]
}

/// Build the frame-extraction argument list.
pub fn build_extract_args(video_path: &str, frames_dir: &str) -> (r: Vec<String>)
    ensures
        r.deep_view() == spec_extract_args(video_path@, frames_dir@),
{
    let mut v: Vec<String> = Vec::new();
    v.push("-i".to_owned());
    v.push(video_path.to_owned());
    v.push("-qscale:v".to_owned());
    v.push("1".to_owned());
    v.push("-qmin".to_owned());
    v.push("1".to_owned());
    v.push("-qmax".to_owned());
    v.push("1".to_owned());
    let mut pattern = frames_dir.to_owned();
    pattern.append("/frame_%06d.png");
    v.push(pattern);
    proof {
        assert(v.deep_view() =~~= spec_extract_args(video_path@, frames_dir@));
    }
    v
}

/// The argument list that makes the probe tool report a video's frame
/// rate, bare and one per line.
pub open spec fn spec_probe_rate_args(video: Seq<char>) -> Seq<Seq<char>> {
    seq![
        "-v"@,
        "error"@,
        "-select_streams"@,
        "v:0"@,
        "-show_entries"@,
        "stream=r_frame_rate"@,
        "-of"@,
        "default=noprint_wrappers=1:nokey=1"@,
        video,
    ]
}

/// Build the frame-rate probe argument list.
pub fn build_probe_rate_args(video_path: &str) -> (r: Vec<String>)
    ensures
        r.deep_view() == spec_probe_rate_args(video_path@),
{
    let mut v: Vec<String> = Vec::new();
    v.push("-v".to_owned());
    v.push("error".to_owned());
    v.push("-select_streams".to_owned());
    v.push("v:0".to_owned());
    v.push("-show_entries".to_owned());
    v.push("stream=r_frame_rate".to_owned());
    v.push("-of".to_owned());
    v.push("default=noprint_wrappers=1:nokey=1".to_owned());
    v.push(video_path.to_owned());
    proof {
        assert(v.deep_view() =~~= spec_probe_rate_args(video_path@));
    }
    v
}

/// The argument list that makes the probe tool report whether the
/// first audio stream exists: it prints the stream's codec type, or
/// nothing at all.
pub open spec fn spec_probe_audio_args(video: Seq<char>) -> Seq<Seq<char>> {
    seq![
        "-v"@,
        "error"@,
        "-select_streams"@,
        "a:0"@,
        "-show_entries"@,
        "stream=codec_type"@,
        "-of"@,
        "default=noprint_wrappers=1:nokey=1"@,
        video,
    ]
}

/// Build the audio-presence probe argument list.
pub fn build_probe_audio_args(video_path: &str) -> (r: Vec<String>)
    ensures
        r.deep_view() == spec_probe_audio_args(video_path@),
{
    let mut v: Vec<String> = Vec::new();
    v.push("-v".to_owned());
    v.push("error".to_owned());
    v.push("-select_streams".to_owned());
    v.push("a:0".to_owned());
    v.push("-show_entries".to_owned());
    v.push("stream=codec_type".to_owned());
    v.push("-of".to_owned());
    v.push("default=noprint_wrappers=1:nokey=1".to_owned());
    v.push(video_path.to_owned());
    proof {
        assert(v.deep_view() =~~= spec_probe_audio_args(video_path@));
    }
    v
}

/// The argument list that reassembles processed frames into one video:
/// the frame sequence at the probed rate as the video input, the
/// original source as the audio input when an audio stream exists,
/// explicit stream maps, the negotiated codecs, a broadly compatible
/// pixel format and a fast-start container flag.
pub open spec fn spec_reassemble_args(
    fps: Seq<char>,
    frames_dir: Seq<char>,
    suffix: Seq<char>,
    video: Seq<char>,
    output: Seq<char>,
    audio_present: bool,
    vc: VideoCodec,
    ac: AudioCodec,
) -> Seq<Seq<char>> {
    let head = seq![
        "-y"@,
        "-framerate"@,
        fps,
        "-i"@,
        frames_dir + "/frame_%06d"@ + suffix + ".png"@,
        "-i"@,
        video,
        "-map"@,
        "0:v:0"@,
    ];
    let audio = if audio_present {
        let mapping = seq!["-map"@, "1:a:0"@, "-c:a"@, spec_audio_codec_name(ac)];
        if ac is Copy {
            mapping
        } else {
            mapping + seq!["-b:a"@, "192k"@]
        }
    } else {
        Seq::<Seq<char>>::empty()
    };
    let encoding = seq!["-c:v"@, spec_video_codec_name(vc)] + (if vc is X264 {
        seq!["-preset"@, "medium"@, "-crf"@, "18"@]
    } else {
        seq!["-q:v"@, "2"@]
    });
    head + audio + encoding + seq![
        "-pix_fmt"@,
        "yuv420p"@,
        "-movflags"@,
        "+faststart"@,
        "-r"@,
        fps,
        output,
    ]
}

/// Build the reassembly argument list.
pub fn build_reassemble_args(
    fps: &str,
    frames_dir: &str,
    suffix: &str,
    video_path: &str,
    output_path: &str,
    audio_present: bool,
    video_codec: VideoCodec,
    audio_codec: AudioCodec,
) -> (r: Vec<String>)
    ensures
        r.deep_view() == spec_reassemble_args(
            fps@,
            frames_dir@,
            suffix@,
            video_path@,
            output_path@,
            audio_present,
            video_codec,
            audio_codec,
        ),
{
    let mut v: Vec<String> = Vec::new();
    v.push("-y".to_owned());
    v.push("-framerate".to_owned());
    v.push(fps.to_owned());
    v.push("-i".to_owned());
    let mut pattern = frames_dir.to_owned();
    pattern.append("/frame_%06d");
    pattern.append(suffix);
    pattern.append(".png");
    v.push(pattern);
    v.push("-i".to_owned());
    v.push(video_path.to_owned());
    v.push("-map".to_owned());
    v.push("0:v:0".to_owned());
    if audio_present {
        v.push("-map".to_owned());
        v.push("1:a:0".to_owned());
        v.push("-c:a".to_owned());
        v.push(audio_codec.name().to_owned());
        if !matches!(audio_codec, AudioCodec::Copy) {
            v.push("-b:a".to_owned());
            v.push("192k".to_owned());
        }
    }
    v.push("-c:v".to_owned());
    v.push(video_codec.name().to_owned());
    if matches!(video_codec, VideoCodec::X264) {
        v.push("-preset".to_owned());
        v.push("medium".to_owned());
        v.push("-crf".to_owned());
        v.push("18".to_owned());
    } else {
        v.push("-q:v".to_owned());
        v.push("2".to_owned());
    }
    v.push("-pix_fmt".to_owned());
    v.push("yuv420p".to_owned());
    v.push("-movflags".to_owned());
    v.push("+faststart".to_owned());
    v.push("-r".to_owned());
    v.push(fps.to_owned());
    v.push(output_path.to_owned());
    proof {
        assert(v.deep_view() =~~= spec_reassemble_args(
            fps@,
            frames_dir@,
            suffix@,
            video_path@,
            output_path@,
            audio_present,
            video_codec,
            audio_codec,
        ));
    }
    v
}

/// `needle` occurs in `hay` starting at byte `i`.
pub open spec fn contains_at(hay: Seq<u8>, needle: Seq<u8>, i: int) -> bool {
    0 <= i && i + needle.len() <= hay.len() && hay.subrange(i, i + needle.len()) == needle
}

/// `needle` occurs somewhere in `hay`.
pub open spec fn spec_contains(hay: Seq<u8>, needle: Seq<u8>) -> bool {
    exists|i: int| contains_at(hay, needle, i)
}

/// Whether the tool's advertised-codec listing mentions a codec name:
/// a plain byte-substring search over the listing.
#[verifier::loop_isolation(false)]
pub fn codec_listed(listing: &str, name: &str) -> (b: bool)
    ensures
        b == spec_contains(listing.spec_bytes(), name.spec_bytes()),
{
    let hay = listing.as_bytes_vec();
    let needle = name.as_bytes_vec();
    let n = hay.len();
    let m = needle.len();
    if m > n {
        proof {
            assert(forall|i: int| !contains_at(hay@, needle@, i));
        }
        return false;
    }
    if m == 0 {
        proof {
            assert(hay@.subrange(0, 0) =~= needle@);
            assert(contains_at(hay@, needle@, 0));
        }
        return true;
    }
    let mut i: usize = 0;
    while i <= n - m
        invariant
            1 <= m <= n,
            n == hay@.len(),
            m == needle@.len(),
            0 <= i <= n - m + 1,
            forall|ii: int| 0 <= ii < i ==> !contains_at(hay@, needle@, ii),
        decreases n - m + 1 - i,
    {
        let mut j: usize = 0;
        let mut matched = true;
        while j < m
            invariant
                0 <= j <= m,
                i + m <= n,
                n == hay@.len(),
                m == needle@.len(),
                matched ==> forall|jj: int| 0 <= jj < j ==> hay@[i + jj] == needle@[jj],
                !matched ==> !contains_at(hay@, needle@, i as int),
            decreases m - j,
        {
            if hay[i + j] != needle[j] {
                proof {
                    assert(hay@.subrange(i as int, i + m) != needle@) by {
                        assert(hay@.subrange(i as int, i + m)[j as int] == hay@[i + j]);
                    }
                }
                matched = false;
                j = m;
            } else {
                j = j + 1;
            }
        }
        if matched {
            proof {
                assert forall|jj: int| 0 <= jj < m implies hay@.subrange(i as int, i + m)[jj]
                    == needle@[jj] by {
                    assert(hay@[i + jj] == needle@[jj]);
                }
                assert(hay@.subrange(i as int, i + m) =~= needle@);
                assert(contains_at(listing.spec_bytes(), name.spec_bytes(), i as int));
            }
            return true;
        }
        i = i + 1;
    }
    proof {
        assert forall|ii: int| !contains_at(hay@, needle@, ii) by {
            if 0 <= ii && ii + m <= n {
                assert(ii < i);
            }
        }
    }
    false
}

} // verus!
