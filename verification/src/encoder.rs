//! Encode-stage decisions: the codec arguments of each target format and
//! the encoding tool invocation.

use vstd::prelude::*;
use vstd::string::*;
use crate::strutil::views;

pub use crate::format::OutputFormat;

verus! {

/// Encodes audio to the target format through an external tool; this type
/// only decides the invocation, the caller performs it.
#[derive(Debug, Clone)]
pub struct Encoder {
    pub ffmpeg_path: String,
}

/// The codec arguments of each target format: lossless formats at full
/// quality, lossy formats at a high fixed bitrate or quality setting.
pub open spec fn codec_args_spec(f: OutputFormat) -> Seq<Seq<char>> {
    match f {
        OutputFormat::Flac => seq!["-c:a"@, "flac"@, "-compression_level"@, "12"@],
        OutputFormat::Wav => seq!["-c:a"@, "pcm_s24le"@],
        OutputFormat::Mp3 => seq!["-c:a"@, "libmp3lame"@, "-q:a"@, "0"@],
        OutputFormat::Aac => seq!["-c:a"@, "aac"@, "-b:a"@, "256k"@],
        OutputFormat::Opus => seq!["-c:a"@, "libopus"@, "-b:a"@, "192k"@],
    }
}

/// The full argument list that encodes `input` into `output`.
pub open spec fn encode_args_spec(
    input: Seq<char>,
    output: Seq<char>,
    f: OutputFormat,
) -> Seq<Seq<char>> {
    seq!["-hide_banner"@, "-loglevel"@, "error"@, "-i"@, input] + codec_args_spec(f) + seq![
        "-y"@, output,
    ]
}

impl Encoder {
    /// A new encoder invoking the tool at the given path.
    pub fn new(ffmpeg_path: String) -> (r: Self)
        ensures
            r.ffmpeg_path == ffmpeg_path,
    {
        Self { ffmpeg_path }
    }

    /// The codec arguments selected by the target format.
    pub fn get_codec_args(format: OutputFormat) -> (r: Vec<String>)
        ensures
            views(r@) == codec_args_spec(format),
    {
        let mut v: Vec<String> = Vec::new();
        match format {
            OutputFormat::Flac => {
                v.push(String::from_str("-c:a"));
                v.push(String::from_str("flac"));
                v.push(String::from_str("-compression_level"));
                v.push(String::from_str("12"));
            },
            OutputFormat::Wav => {
                v.push(String::from_str("-c:a"));
                v.push(String::from_str("pcm_s24le"));
            },
            OutputFormat::Mp3 => {
                v.push(String::from_str("-c:a"));
                v.push(String::from_str("libmp3lame"));
                v.push(String::from_str("-q:a"));
                v.push(String::from_str("0"));
            },
            OutputFormat::Aac => {
                v.push(String::from_str("-c:a"));
                v.push(String::from_str("aac"));
                v.push(String::from_str("-b:a"));
                v.push(String::from_str("256k"));
            },
            OutputFormat::Opus => {
                v.push(String::from_str("-c:a"));
                v.push(String::from_str("libopus"));
                v.push(String::from_str("-b:a"));
                v.push(String::from_str("192k"));
            },
        }
        proof {
            assert(views(v@) =~= codec_args_spec(format));
        }
        v
    }

    /// The argument list for encoding `input` into `output`.
    pub fn encode_args(&self, input: &str, output: &str, format: OutputFormat) -> (r: Vec<String>)
        ensures
            views(r@) == encode_args_spec(input@, output@, format),
    {
        let mut v: Vec<String> = Vec::new();
        v.push(String::from_str("-hide_banner"));
        v.push(String::from_str("-loglevel"));
        v.push(String::from_str("error"));
        v.push(String::from_str("-i"));
        v.push(String::from_str(input));
        let mut codec = Self::get_codec_args(format);
        let mut k: usize = 0;
        let ghost base = views(v@);
        proof {
            assert(views(v@) =~= base + codec_args_spec(format).subrange(0, 0));
            assert(base =~= seq!["-hide_banner"@, "-loglevel"@, "error"@, "-i"@, input@]);
        }
        while k < codec.len()
            invariant
                views(codec@) == codec_args_spec(format),
                0 <= k <= codec@.len(),
                base == seq!["-hide_banner"@, "-loglevel"@, "error"@, "-i"@, input@],
                views(v@) == base + codec_args_spec(format).subrange(0, k as int),
            decreases codec@.len() - k,
        {
            let s = codec[k].clone();
            assert(s@ == codec_args_spec(format)[k as int]);
            let ghost sv = s@;
            let ghost prev = v@;
            v.push(s);
            proof {
                let ghost goal = base + codec_args_spec(format).subrange(0, k + 1);
                assert(v@.len() == prev.len() + 1);
                assert(views(prev) == base + codec_args_spec(format).subrange(0, k as int));
                assert(views(prev).len() == prev.len());
                assert(base.len() == 5);
                assert(k < codec_args_spec(format).len());
                assert(codec_args_spec(format).subrange(0, k as int).len() == k as int);
                assert(codec_args_spec(format).subrange(0, k + 1).len() == k + 1);
                assert(views(v@).len() == goal.len());
                assert forall|t: int| 0 <= t < views(v@).len() implies views(v@)[t] == goal[t] by {
                    assert(views(v@)[t] == v@[t]@);
                    if t < prev.len() {
                        assert(v@[t] == prev[t]);
                        assert(views(prev)[t] == prev[t]@);
                    } else {
                        assert(v@[t] == prev.push(s)[t]);
                        assert(v@[t]@ == sv);
                    }
                }
                assert(views(v@) =~= goal);
            }
            k += 1;
        }
        v.push(String::from_str("-y"));
        v.push(String::from_str(output));
        proof {
            assert(codec_args_spec(format).subrange(0, codec_args_spec(format).len() as int)
                =~= codec_args_spec(format));
            assert(views(v@) =~= encode_args_spec(input@, output@, format));
        }
        v
    }
}

} // verus!
