//! Which video codec a conversion uses.

use crate::utils::text::opt_str_chars;
use vstd::prelude::*;
use vstd::string::*;

verus! {

/// The video codecs the processor can be asked for.
#[derive(Debug, Clone, Copy, PartialEq, Eq, Structural)]
pub enum VideoCodec {
    H264,
    Hevc,
    Vp8,
    Vp9,
    Av1,
    Mpeg4,
    Mpeg2Video,
    Mjpeg,
    Png,
    Gif,
}

/// What `str::to_lowercase` returns for a text.
pub uninterp spec fn lowercased(text: Seq<char>) -> Seq<char>;

/// The text in lower case: `str::to_lowercase`.
///
/// Trusted: the result is a function of the text alone, named
/// `lowercased`. Nothing more is claimed of it.
#[verifier::external_body]
fn to_lowercase(text: &str) -> (lower: String)
    ensures
        lower@ == lowercased(text@),
{
    text.to_lowercase()
}

/// The codec a container format takes unless one is asked for: VP9 for
/// WebM, MPEG-4 for AVI and H.264 for every other format.
pub open spec fn default_codec(format: Seq<char>) -> VideoCodec {
    if format == "webm"@ {
        VideoCodec::Vp9
    } else if format == "avi"@ {
        VideoCodec::Mpeg4
    } else {
        VideoCodec::H264
    }
}

/// The codec that a hardware encoder of this name stands for, if the name
/// is known.
pub open spec fn gpu_codec_named(name: Seq<char>) -> Option<VideoCodec> {
    if name == "h264_nvenc"@ || name == "h264_qsv"@ || name == "h264_amf"@ || name
        == "h264_videotoolbox"@ {
        Some(VideoCodec::H264)
    } else if name == "hevc_nvenc"@ || name == "hevc_qsv"@ || name == "hevc_amf"@ || name
        == "hevc_videotoolbox"@ {
        Some(VideoCodec::Hevc)
    } else {
        None
    }
}

/// The codec that a software encoder of this name stands for, if the name
/// is known.
pub open spec fn cpu_codec_named(name: Seq<char>) -> Option<VideoCodec> {
    if name == "libx264"@ || name == "libx264rgb"@ {
        Some(VideoCodec::H264)
    } else if name == "libx265"@ {
        Some(VideoCodec::Hevc)
    } else if name == "libvpx"@ {
        Some(VideoCodec::Vp8)
    } else if name == "libvpx-vp9"@ {
        Some(VideoCodec::Vp9)
    } else if name == "libaom-av1"@ || name == "libsvtav1"@ {
        Some(VideoCodec::Av1)
    } else if name == "libxvid"@ {
        Some(VideoCodec::Mpeg4)
    } else if name == "mpeg2video"@ {
        Some(VideoCodec::Mpeg2Video)
    } else if name == "mjpeg"@ {
        Some(VideoCodec::Mjpeg)
    } else if name == "png"@ {
        Some(VideoCodec::Png)
    } else if name == "gif"@ {
        Some(VideoCodec::Gif)
    } else {
        None
    }
}

/// The codec for a format already in lower case: the hardware codec where
/// the GPU is used and its name is known, else the software codec where its
/// name is known, else the default of the format.
pub open spec fn spec_codec_for(
    format: Seq<char>,
    use_gpu: bool,
    gpu_codec: Option<Seq<char>>,
    cpu_codec: Option<Seq<char>>,
) -> VideoCodec {
    if use_gpu && gpu_codec is Some && gpu_codec_named(gpu_codec->0) is Some {
        gpu_codec_named(gpu_codec->0)->0
    } else if cpu_codec is Some && cpu_codec_named(cpu_codec->0) is Some {
        cpu_codec_named(cpu_codec->0)->0
    } else {
        default_codec(format)
    }
}

/// Whether the text is `word`.
fn is(text: &str, word: &str) -> (same: bool)
    ensures
        same == (text@ == word@),
{
    String::from_str(text) == String::from_str(word)
}

/// The codec that a hardware encoder of this name stands for.
pub fn gpu_codec(name: &str) -> (codec: Option<VideoCodec>)
    ensures
        codec == gpu_codec_named(name@),
{
    if is(name, "h264_nvenc") || is(name, "h264_qsv") || is(name, "h264_amf") || is(
        name,
        "h264_videotoolbox",
    ) {
        Some(VideoCodec::H264)
    } else if is(name, "hevc_nvenc") || is(name, "hevc_qsv") || is(name, "hevc_amf") || is(
        name,
        "hevc_videotoolbox",
    ) {
        Some(VideoCodec::Hevc)
    } else {
        None
    }
}

/// The codec that a software encoder of this name stands for.
pub fn cpu_codec(name: &str) -> (codec: Option<VideoCodec>)
    ensures
        codec == cpu_codec_named(name@),
{
    if is(name, "libx264") || is(name, "libx264rgb") {
        Some(VideoCodec::H264)
    } else if is(name, "libx265") {
        Some(VideoCodec::Hevc)
    } else if is(name, "libvpx") {
        Some(VideoCodec::Vp8)
    } else if is(name, "libvpx-vp9") {
        Some(VideoCodec::Vp9)
    } else if is(name, "libaom-av1") || is(name, "libsvtav1") {
        Some(VideoCodec::Av1)
    } else if is(name, "libxvid") {
        Some(VideoCodec::Mpeg4)
    } else if is(name, "mpeg2video") {
        Some(VideoCodec::Mpeg2Video)
    } else if is(name, "mjpeg") {
        Some(VideoCodec::Mjpeg)
    } else if is(name, "png") {
        Some(VideoCodec::Png)
    } else if is(name, "gif") {
        Some(VideoCodec::Gif)
    } else {
        None
    }
}

/// The codec for a format already in lower case: see `spec_codec_for`.
pub fn codec_for(
    lower_format: &str,
    use_gpu: bool,
    gpu_codec_name: Option<&str>,
    cpu_codec_name: Option<&str>,
) -> (codec: VideoCodec)
    ensures
        codec == spec_codec_for(
            lower_format@,
            use_gpu,
            opt_str_chars(gpu_codec_name),
            opt_str_chars(cpu_codec_name),
        ),
{
    if use_gpu {
        match gpu_codec_name {
            Some(name) => match gpu_codec(name) {
                Some(codec) => {
                    return codec;
                },
                None => {},
            },
            None => {},
        }
    }
    match cpu_codec_name {
        Some(name) => match cpu_codec(name) {
            Some(codec) => {
                return codec;
            },
            None => {},
        },
        None => {},
    }
    if is(lower_format, "webm") {
        VideoCodec::Vp9
    } else if is(lower_format, "avi") {
        VideoCodec::Mpeg4
    } else {
        VideoCodec::H264
    }
}

/// Choose the codec for a conversion: the output format is read in lower
/// case, then see `codec_for`.
pub fn choose_codec(
    output_format: &str,
    use_gpu: bool,
    gpu_codec_name: Option<&str>,
    cpu_codec_name: Option<&str>,
) -> (codec: VideoCodec)
    ensures
        codec == spec_codec_for(
            lowercased(output_format@),
            use_gpu,
            opt_str_chars(gpu_codec_name),
            opt_str_chars(cpu_codec_name),
        ),
{
    let format = to_lowercase(output_format);
    codec_for(format.as_str(), use_gpu, gpu_codec_name, cpu_codec_name)
}

} // verus!
