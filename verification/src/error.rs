//! Error taxonomy: each stage adapter has its own closed error set, and the
//! orchestrator wraps whichever error occurred into one unified failure.

use vstd::prelude::*;
use vstd::string::*;
use crate::strutil::int_rep;
use crate::strutil::dec_rep;
use crate::strutil::i64_to_string;
use crate::strutil::u64_to_string;

verus! {

/// Failures of the download adapter.
#[derive(Debug, Clone)]
pub enum DownloadError {
    YtDlpNotFound,
    YtDlpFailed(Option<i32>),
    InvalidUrl(String),
    VideoUnavailable(String),
    NoAudioStream,
    MetadataParse(String),
    Io(String),
}

/// Failures of the decode adapter.
#[derive(Debug, Clone)]
pub enum DecodeError {
    FfmpegNotFound,
    FfmpegFailed(Option<i32>),
    UnsupportedFormat(String),
    Io(String),
}

/// Failures of the upscale adapter.
#[derive(Debug, Clone)]
pub enum UpscaleError {
    PythonNotFound,
    AudioSRNotInstalled,
    FlashSRNotInstalled,
    ModelNotFound,
    AudioSRFailed(String),
    FlashSRFailed(String),
    Timeout(u64),
    Io(String),
}

/// Failures of the normalize adapter.
#[derive(Debug, Clone)]
pub enum NormalizeError {
    FfmpegNotFound,
    FfmpegFailed(Option<i32>),
    LoudnessParseError,
    Io(String),
}

/// Failures of the encode adapter.
#[derive(Debug, Clone)]
pub enum EncodeError {
    FfmpegNotFound,
    FfmpegFailed(Option<i32>),
    UnsupportedFormat(String),
    Io(String),
}

/// Failures of the metadata-embedding adapter.
#[derive(Debug, Clone)]
pub enum MetadataError {
    FfmpegNotFound,
    FfmpegFailed(Option<i32>),
    MissingMetadata(String),
    Io(String),
}

/// Failures of configuration resolution.
#[derive(Debug, Clone)]
pub enum ConfigError {
    LoadError(String),
    InvalidValue(String),
    Io(String),
}

/// The unified failure returned by a pipeline run: the stage's own error,
/// wrapped with which stage it came from.
#[derive(Debug, Clone)]
pub enum YtAudioError {
    Download(DownloadError),
    Decode(DecodeError),
    Upscale(UpscaleError),
    Normalize(NormalizeError),
    Encode(EncodeError),
    Metadata(MetadataError),
    Config(ConfigError),
    Io(String),
    Pipeline(String),
}

/// Rendering of an optional exit code, as the code prints in messages.
pub open spec fn opt_code_rep(c: Option<i32>) -> Seq<char> {
    match c {
        None => "None"@,
        Some(v) => "Some("@ + int_rep(v as int) + ")"@,
    }
}

/// Render an optional exit code.
pub fn opt_code_string(c: &Option<i32>) -> (r: String)
    ensures
        r@ == opt_code_rep(*c),
{
    match c {
        None => String::from_str("None"),
        Some(v) => {
            let r = String::from_str("Some(").concat(i64_to_string(*v as i64).as_str()).concat(")");
            assert(r@ =~= opt_code_rep(*c));
            r
        },
    }
}

/// Concatenation of two string slices.
pub fn cat2(a: &str, b: &str) -> (r: String)
    ensures
        r@ == a@ + b@,
{
    String::from_str(a).concat(b)
}

/// The message of a download failure.
pub open spec fn download_error_msg(e: DownloadError) -> Seq<char> {
    match e {
        DownloadError::YtDlpNotFound => "yt-dlp not found. Install with: brew install yt-dlp"@,
        DownloadError::YtDlpFailed(c) => "yt-dlp failed with exit code: "@ + opt_code_rep(c),
        DownloadError::InvalidUrl(u) => "Invalid URL: "@ + u@,
        DownloadError::VideoUnavailable(u) => "Video unavailable or private: "@ + u@,
        DownloadError::NoAudioStream => "No audio stream available"@,
        DownloadError::MetadataParse(m) => "Failed to parse metadata: "@ + m@,
        DownloadError::Io(m) => "IO error: "@ + m@,
    }
}

impl DownloadError {
    /// Render this failure's message.
    pub fn message(&self) -> (r: String)
        ensures
            r@ == download_error_msg(*self),
    {
        match self {
            DownloadError::YtDlpNotFound => {
                String::from_str("yt-dlp not found. Install with: brew install yt-dlp")
            },
            DownloadError::YtDlpFailed(c) => {
                cat2("yt-dlp failed with exit code: ", opt_code_string(c).as_str())
            },
            DownloadError::InvalidUrl(u) => cat2("Invalid URL: ", u.as_str()),
            DownloadError::VideoUnavailable(u) => {
                cat2("Video unavailable or private: ", u.as_str())
            },
            DownloadError::NoAudioStream => String::from_str("No audio stream available"),
            DownloadError::MetadataParse(m) => cat2("Failed to parse metadata: ", m.as_str()),
            DownloadError::Io(m) => cat2("IO error: ", m.as_str()),
        }
    }
}

/// The message of a decode failure.
pub open spec fn decode_error_msg(e: DecodeError) -> Seq<char> {
    match e {
        DecodeError::FfmpegNotFound => "FFmpeg not found. Install with: brew install ffmpeg"@,
        DecodeError::FfmpegFailed(c) => "FFmpeg failed with exit code: "@ + opt_code_rep(c),
        DecodeError::UnsupportedFormat(m) => "Unsupported audio format: "@ + m@,
        DecodeError::Io(m) => "IO error: "@ + m@,
    }
}

impl DecodeError {
    /// Render this failure's message.
    pub fn message(&self) -> (r: String)
        ensures
            r@ == decode_error_msg(*self),
    {
        match self {
            DecodeError::FfmpegNotFound => {
                String::from_str("FFmpeg not found. Install with: brew install ffmpeg")
            },
            DecodeError::FfmpegFailed(c) => {
                cat2("FFmpeg failed with exit code: ", opt_code_string(c).as_str())
            },
            DecodeError::UnsupportedFormat(m) => cat2("Unsupported audio format: ", m.as_str()),
            DecodeError::Io(m) => cat2("IO error: ", m.as_str()),
        }
    }
}

/// The message of an upscale failure.
pub open spec fn upscale_error_msg(e: UpscaleError) -> Seq<char> {
    match e {
        UpscaleError::PythonNotFound => "Python not found. Install Python 3.9+"@,
        UpscaleError::AudioSRNotInstalled => "AudioSR not installed. Run: ytaudio update-models"@,
        UpscaleError::FlashSRNotInstalled => {
            "FlashSR/ONNX Runtime not installed. Run: ytaudio update-models"@
        },
        UpscaleError::ModelNotFound => "Model not found. Run: ytaudio update-models"@,
        UpscaleError::AudioSRFailed(m) => "AudioSR inference failed: "@ + m@,
        UpscaleError::FlashSRFailed(m) => "FlashSR inference failed: "@ + m@,
        UpscaleError::Timeout(s) => "Upscaling timeout after "@ + dec_rep(s as nat) + " seconds"@,
        UpscaleError::Io(m) => "IO error: "@ + m@,
    }
}

impl UpscaleError {
    /// Render this failure's message.
    pub fn message(&self) -> (r: String)
        ensures
            r@ == upscale_error_msg(*self),
    {
        match self {
            UpscaleError::PythonNotFound => {
                String::from_str("Python not found. Install Python 3.9+")
            },
            UpscaleError::AudioSRNotInstalled => {
                String::from_str("AudioSR not installed. Run: ytaudio update-models")
            },
            UpscaleError::FlashSRNotInstalled => {
                String::from_str("FlashSR/ONNX Runtime not installed. Run: ytaudio update-models")
            },
            UpscaleError::ModelNotFound => {
                String::from_str("Model not found. Run: ytaudio update-models")
            },
            UpscaleError::AudioSRFailed(m) => cat2("AudioSR inference failed: ", m.as_str()),
            UpscaleError::FlashSRFailed(m) => cat2("FlashSR inference failed: ", m.as_str()),
            UpscaleError::Timeout(s) => {
                let r = String::from_str("Upscaling timeout after ")
                    .concat(u64_to_string(*s).as_str())
                    .concat(" seconds");
                assert(r@ =~= upscale_error_msg(*self));
                r
            },
            UpscaleError::Io(m) => cat2("IO error: ", m.as_str()),
        }
    }
}

/// The message of a normalization failure.
pub open spec fn normalize_error_msg(e: NormalizeError) -> Seq<char> {
    match e {
        NormalizeError::FfmpegNotFound => "FFmpeg not found"@,
        NormalizeError::FfmpegFailed(c) => {
            "FFmpeg normalization failed with exit code: "@ + opt_code_rep(c)
        },
        NormalizeError::LoudnessParseError => "Failed to parse loudness stats"@,
        NormalizeError::Io(m) => "IO error: "@ + m@,
    }
}

impl NormalizeError {
    /// Render this failure's message.
    pub fn message(&self) -> (r: String)
        ensures
            r@ == normalize_error_msg(*self),
    {
        match self {
            NormalizeError::FfmpegNotFound => String::from_str("FFmpeg not found"),
            NormalizeError::FfmpegFailed(c) => {
                cat2("FFmpeg normalization failed with exit code: ", opt_code_string(c).as_str())
            },
            NormalizeError::LoudnessParseError => {
                String::from_str("Failed to parse loudness stats")
            },
            NormalizeError::Io(m) => cat2("IO error: ", m.as_str()),
        }
    }
}

/// The message of an encode failure.
pub open spec fn encode_error_msg(e: EncodeError) -> Seq<char> {
    match e {
        EncodeError::FfmpegNotFound => "FFmpeg not found"@,
        EncodeError::FfmpegFailed(c) => "FFmpeg encoding failed with exit code: "@ + opt_code_rep(c),
        EncodeError::UnsupportedFormat(m) => "Unsupported output format: "@ + m@,
        EncodeError::Io(m) => "IO error: "@ + m@,
    }
}

impl EncodeError {
    /// Render this failure's message.
    pub fn message(&self) -> (r: String)
        ensures
            r@ == encode_error_msg(*self),
    {
        match self {
            EncodeError::FfmpegNotFound => String::from_str("FFmpeg not found"),
            EncodeError::FfmpegFailed(c) => {
                cat2("FFmpeg encoding failed with exit code: ", opt_code_string(c).as_str())
            },
            EncodeError::UnsupportedFormat(m) => cat2("Unsupported output format: ", m.as_str()),
            EncodeError::Io(m) => cat2("IO error: ", m.as_str()),
        }
    }
}

/// The message of a metadata-embedding failure.
pub open spec fn metadata_error_msg(e: MetadataError) -> Seq<char> {
    match e {
        MetadataError::FfmpegNotFound => "FFmpeg not found"@,
        MetadataError::FfmpegFailed(c) => {
            "FFmpeg metadata embedding failed with exit code: "@ + opt_code_rep(c)
        },
        MetadataError::MissingMetadata(m) => "Missing metadata: "@ + m@,
        MetadataError::Io(m) => "IO error: "@ + m@,
    }
}

impl MetadataError {
    /// Render this failure's message.
    pub fn message(&self) -> (r: String)
        ensures
            r@ == metadata_error_msg(*self),
    {
        match self {
            MetadataError::FfmpegNotFound => String::from_str("FFmpeg not found"),
            MetadataError::FfmpegFailed(c) => {
                cat2("FFmpeg metadata embedding failed with exit code: ", opt_code_string(c).as_str())
            },
            MetadataError::MissingMetadata(m) => cat2("Missing metadata: ", m.as_str()),
            MetadataError::Io(m) => cat2("IO error: ", m.as_str()),
        }
    }
}

/// The message of a configuration failure.
pub open spec fn config_error_msg(e: ConfigError) -> Seq<char> {
    match e {
        ConfigError::LoadError(m) => "Failed to load config: "@ + m@,
        ConfigError::InvalidValue(m) => "Invalid config value: "@ + m@,
        ConfigError::Io(m) => "IO error: "@ + m@,
    }
}

impl ConfigError {
    /// Render this failure's message.
    pub fn message(&self) -> (r: String)
        ensures
            r@ == config_error_msg(*self),
    {
        match self {
            ConfigError::LoadError(m) => cat2("Failed to load config: ", m.as_str()),
            ConfigError::InvalidValue(m) => cat2("Invalid config value: ", m.as_str()),
            ConfigError::Io(m) => cat2("IO error: ", m.as_str()),
        }
    }
}

/// The message of a unified pipeline failure: the failing stage's wrapper
/// text followed by the underlying message.
pub open spec fn ytaudio_error_msg(e: YtAudioError) -> Seq<char> {
    match e {
        YtAudioError::Download(d) => "Download failed: "@ + download_error_msg(d),
        YtAudioError::Decode(d) => "Decode failed: "@ + decode_error_msg(d),
        YtAudioError::Upscale(u) => "Upscale failed: "@ + upscale_error_msg(u),
        YtAudioError::Normalize(n) => "Normalization failed: "@ + normalize_error_msg(n),
        YtAudioError::Encode(en) => "Encode failed: "@ + encode_error_msg(en),
        YtAudioError::Metadata(m) => "Metadata embedding failed: "@ + metadata_error_msg(m),
        YtAudioError::Config(c) => "Configuration error: "@ + config_error_msg(c),
        YtAudioError::Io(m) => "IO error: "@ + m@,
        YtAudioError::Pipeline(m) => "Pipeline error: "@ + m@,
    }
}

impl YtAudioError {
    /// Render this failure's message.
    pub fn message(&self) -> (r: String)
        ensures
            r@ == ytaudio_error_msg(*self),
    {
        match self {
            YtAudioError::Download(d) => cat2("Download failed: ", d.message().as_str()),
            YtAudioError::Decode(d) => cat2("Decode failed: ", d.message().as_str()),
            YtAudioError::Upscale(u) => cat2("Upscale failed: ", u.message().as_str()),
            YtAudioError::Normalize(n) => cat2("Normalization failed: ", n.message().as_str()),
            YtAudioError::Encode(en) => cat2("Encode failed: ", en.message().as_str()),
            YtAudioError::Metadata(m) => cat2("Metadata embedding failed: ", m.message().as_str()),
            YtAudioError::Config(c) => cat2("Configuration error: ", c.message().as_str()),
            YtAudioError::Io(m) => cat2("IO error: ", m.as_str()),
            YtAudioError::Pipeline(m) => cat2("Pipeline error: ", m.as_str()),
        }
    }
}

} // verus!
