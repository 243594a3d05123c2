//! Output container formats and upscaling quality tiers.

use vstd::prelude::*;
use vstd::string::*;

verus! {

/// Target container/codec for the encoded artifact.
#[derive(Clone, Copy, Debug, PartialEq, Eq, Structural)]
pub enum OutputFormat {
    Flac,
    Wav,
    Mp3,
    Aac,
    Opus,
}

/// Quality tier selecting which upscaling technique is used.
#[derive(Clone, Copy, Debug, PartialEq, Eq, Structural)]
pub enum UpscaleQuality {
    Best,
    Fast,
}

/// The file extension that belongs to each format.
pub open spec fn extension_spec(f: OutputFormat) -> Seq<char> {
    match f {
        OutputFormat::Flac => "flac"@,
        OutputFormat::Wav => "wav"@,
        OutputFormat::Mp3 => "mp3"@,
        OutputFormat::Aac => "m4a"@,
        OutputFormat::Opus => "opus"@,
    }
}

/// The display name of each format.
pub open spec fn format_name_spec(f: OutputFormat) -> Seq<char> {
    match f {
        OutputFormat::Flac => "FLAC"@,
        OutputFormat::Wav => "WAV"@,
        OutputFormat::Mp3 => "MP3"@,
        OutputFormat::Aac => "AAC"@,
        OutputFormat::Opus => "Opus"@,
    }
}

/// ASCII lowercasing of one character.
pub open spec fn lower_char(c: char) -> char {
    if 'A' <= c && c <= 'Z' {
        ((c as u8) + 32) as char
    } else {
        c
    }
}

/// ASCII lowercasing of a character sequence.
pub open spec fn lower_seq(s: Seq<char>) -> Seq<char> {
    s.map_values(|c: char| lower_char(c))
}

/// Which format a (case-insensitively read) name denotes, if any.
pub open spec fn format_of_name(s: Seq<char>) -> Option<OutputFormat> {
    let low = lower_seq(s);
    if low == "flac"@ {
        Some(OutputFormat::Flac)
    } else if low == "wav"@ {
        Some(OutputFormat::Wav)
    } else if low == "mp3"@ {
        Some(OutputFormat::Mp3)
    } else if low == "aac"@ || low == "m4a"@ {
        Some(OutputFormat::Aac)
    } else if low == "opus"@ {
        Some(OutputFormat::Opus)
    } else {
        None
    }
}

impl OutputFormat {
    /// File extension used for artifacts in this format.
    pub fn extension(&self) -> (r: &'static str)
        ensures
            r@ == extension_spec(*self),
    {
        match self {
            OutputFormat::Flac => "flac",
            OutputFormat::Wav => "wav",
            OutputFormat::Mp3 => "mp3",
            OutputFormat::Aac => "m4a",
            OutputFormat::Opus => "opus",
        }
    }

    /// Human-readable name of the format.
    pub fn display_name(&self) -> (r: &'static str)
        ensures
            r@ == format_name_spec(*self),
    {
        match self {
            OutputFormat::Flac => "FLAC",
            OutputFormat::Wav => "WAV",
            OutputFormat::Mp3 => "MP3",
            OutputFormat::Aac => "AAC",
            OutputFormat::Opus => "Opus",
        }
    }

    /// Parse a format name, ignoring ASCII case.
    pub fn from_str(s: &str) -> (r: Option<OutputFormat>)
        ensures
            r == format_of_name(s@),
    {
        let len = s.unicode_len();
        let mut low_chars: Vec<char> = Vec::new();
        let mut i: usize = 0;
        while i < len
            invariant
                len == s@.len(),
                0 <= i <= len,
                low_chars@ == lower_seq(s@.subrange(0, i as int)),
            decreases len - i,
        {
            let c = s.get_char(i);
            let lc = if c >= 'A' && c <= 'Z' {
                ((c as u8) + 32) as char
            } else {
                c
            };
            low_chars.push(lc);
            proof {
                assert(low_chars@ =~= lower_seq(s@.subrange(0, i + 1)));
            }
            i += 1;
        }
        proof {
            assert(s@.subrange(0, len as int) =~= s@);
        }
        let low = crate::strutil::string_from_chars(&low_chars);
        if low == String::from_str("flac") {
            Some(OutputFormat::Flac)
        } else if low == String::from_str("wav") {
            Some(OutputFormat::Wav)
        } else if low == String::from_str("mp3") {
            Some(OutputFormat::Mp3)
        } else if low == String::from_str("aac") || low == String::from_str("m4a") {
            Some(OutputFormat::Aac)
        } else if low == String::from_str("opus") {
            Some(OutputFormat::Opus)
        } else {
            None
        }
    }
}

/// The name of the upscaling technique each quality tier selects.
pub open spec fn method_name_spec(q: UpscaleQuality) -> Seq<char> {
    match q {
        UpscaleQuality::Best => "AudioSR"@,
        UpscaleQuality::Fast => "FlashSR"@,
    }
}

impl UpscaleQuality {
    /// Name of the upscaling technique this tier selects.
    pub fn method_name(&self) -> (r: &'static str)
        ensures
            r@ == method_name_spec(*self),
    {
        match self {
            UpscaleQuality::Best => "AudioSR",
            UpscaleQuality::Fast => "FlashSR",
        }
    }
}

} // verus!
