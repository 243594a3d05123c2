//! Decode-stage decisions: tool invocation and parsing of the stream
//! information the tool reports.

use vstd::prelude::*;
use vstd::string::*;
use crate::strutil::contains_seq;
use crate::strutil::digit_val;
use crate::strutil::digits_val;
use crate::strutil::is_digit;
use crate::strutil::is_substr_at;
use crate::strutil::lemma_digits_val_nonneg;
use crate::strutil::lemma_digits_val_prefix;
use crate::strutil::str_contains;
use crate::strutil::str_matches_at;
use crate::strutil::views;

verus! {

/// Decodes audio to an intermediate PCM artifact; this type only decides
/// the invocation, the caller performs it.
#[derive(Debug, Clone)]
pub struct Decoder {
    pub ffmpeg_path: String,
}

/// Stream properties read from the tool's report, with the duration in
/// centiseconds.
#[derive(Debug, Clone, PartialEq, Eq, Structural)]
pub struct AudioInfo {
    pub sample_rate: u32,
    pub channels: u8,
    pub duration_cs: u64,
}

/// The argument list that decodes `input` to a 48 kHz 24-bit PCM file.
pub open spec fn decode_args_spec(input: Seq<char>, output: Seq<char>) -> Seq<Seq<char>> {
    seq![
        "-hide_banner"@, "-loglevel"@, "error"@, "-i"@, input, "-c:a"@, "pcm_s24le"@, "-ar"@,
        "48000"@, "-y"@, output,
    ]
}

/// The argument list that makes the tool report stream information.
pub open spec fn info_args_spec(input: Seq<char>) -> Seq<Seq<char>> {
    seq!["-hide_banner"@, "-i"@, input, "-f"@, "null"@, "-"@]
}

impl Decoder {
    /// A new decoder invoking the tool at the given path.
    pub fn new(ffmpeg_path: String) -> (r: Self)
        ensures
            r.ffmpeg_path == ffmpeg_path,
    {
        Self { ffmpeg_path }
    }

    /// The argument list for decoding `input` to PCM at `output`.
    pub fn decode_args(&self, input: &str, output: &str) -> (r: Vec<String>)
        ensures
            views(r@) == decode_args_spec(input@, output@),
    {
        let mut v: Vec<String> = Vec::new();
        v.push(String::from_str("-hide_banner"));
        v.push(String::from_str("-loglevel"));
        v.push(String::from_str("error"));
        v.push(String::from_str("-i"));
        v.push(String::from_str(input));
        v.push(String::from_str("-c:a"));
        v.push(String::from_str("pcm_s24le"));
        v.push(String::from_str("-ar"));
        v.push(String::from_str("48000"));
        v.push(String::from_str("-y"));
        v.push(String::from_str(output));
        proof {
            assert(views(v@) =~= decode_args_spec(input@, output@));
        }
        v
    }

    /// The argument list for probing `input` for stream information.
    pub fn info_args(&self, input: &str) -> (r: Vec<String>)
        ensures
            views(r@) == info_args_spec(input@),
    {
        let mut v: Vec<String> = Vec::new();
        v.push(String::from_str("-hide_banner"));
        v.push(String::from_str("-i"));
        v.push(String::from_str(input));
        v.push(String::from_str("-f"));
        v.push(String::from_str("null"));
        v.push(String::from_str("-"));
        proof {
            assert(views(v@) =~= info_args_spec(input@));
        }
        v
    }
}

/// Whether this character is a decimal digit.
fn is_digit_char(c: char) -> (b: bool)
    ensures
        b == is_digit(c),
{
    c >= '0' && c <= '9'
}

/// The end of the digit run beginning at `k`.
fn scan_digits(s: &str, k: usize, len: usize) -> (j: usize)
    requires
        len == s@.len(),
        k <= len,
    ensures
        k <= j <= len,
        forall|t: int| k <= t < j ==> is_digit(s@[t]),
        j == len || !is_digit(s@[j as int]),
{
    let mut j = k;
    while j < len && is_digit_char(s.get_char(j))
        invariant
            len == s@.len(),
            k <= j <= len,
            forall|t: int| k <= t < j ==> is_digit(s@[t]),
        decreases len - j,
    {
        j += 1;
    }
    j
}

/// The value of the digit run `s[i..j]`, when it fits in 32 bits.
fn digit_run_value(s: &str, i: usize, j: usize) -> (r: Option<u32>)
    requires
        i <= j <= s@.len(),
        forall|t: int| i <= t < j ==> is_digit(s@[t]),
    ensures
        ({
            let v = digits_val(s@.subrange(i as int, j as int));
            if v <= u32::MAX { r == Some(v as u32) } else { r is None }
        }),
{
    let ghost run = s@.subrange(i as int, j as int);
    proof {
        lemma_digits_val_nonneg(run);
    }
    let mut val: u64 = 0;
    let mut k = i;
    while k < j
        invariant
            i <= k <= j <= s@.len(),
            run == s@.subrange(i as int, j as int),
            forall|t: int| i <= t < j ==> is_digit(s@[t]),
            val == digits_val(s@.subrange(i as int, k as int)),
            val <= u32::MAX,
        decreases j - k,
    {
        let c = s.get_char(k);
        let d = (c as u8) - 48;
        proof {
            assert(s@.subrange(i as int, k + 1).drop_last() =~= s@.subrange(i as int, k as int));
            assert(s@.subrange(i as int, k + 1).last() == s@[k as int]);
            assert(is_digit(s@[k as int]));
            assert(d == digit_val(s@[k as int])) by {
                assert('0' <= s@[k as int] <= '9');
            };
        }
        let next: u64 = val * 10 + (d as u64);
        if next > 0xffff_ffff {
            proof {
                assert(next == digits_val(s@.subrange(i as int, k + 1)));
                assert(s@.subrange(i as int, k + 1) =~= run.subrange(0, k + 1 - i));
                lemma_digits_val_prefix(run, k + 1 - i);
            }
            return None;
        }
        val = next;
        k += 1;
    }
    proof {
        assert(s@.subrange(i as int, k as int) =~= run);
    }
    Some(val as u32)
}

/// A maximal digit run `s[i..j]` immediately followed by the text " Hz".
pub open spec fn hz_run(s: Seq<char>, i: int, j: int) -> bool {
    0 <= i < j && j + 3 <= s.len() && (forall|k: int| i <= k < j ==> is_digit(s[k])) && (i == 0
        || !is_digit(s[i - 1])) && s.subrange(j, j + 3) == " Hz"@
}

/// Find a sample rate in the tool's report: the value of the first digit
/// run followed by " Hz", when there is one and it fits in 32 bits.
pub fn parse_sample_rate(ffmpeg_output: &str) -> (r: Option<u32>)
    ensures
        (forall|a: int, b: int| !hz_run(ffmpeg_output@, a, b)) ==> r is None,
        forall|a: int, b: int|
            (hz_run(ffmpeg_output@, a, b) && (forall|a2: int, b2: int|
                hz_run(ffmpeg_output@, a2, b2) ==> a <= a2)) ==> r == ({
                let v = digits_val(ffmpeg_output@.subrange(a, b));
                if v <= u32::MAX { Some(v as u32) } else { None::<u32> }
            }),
{
    let s = ffmpeg_output;
    let len = s.unicode_len();
    proof {
        reveal_strlit(" Hz");
    }
    let mut i: usize = 0;
    while i < len
        invariant
            s == ffmpeg_output,
            len == s@.len(),
            0 <= i <= len,
            forall|a: int, b: int| hz_run(s@, a, b) ==> a >= i,
            i == 0 || i == len || !is_digit(s@[i - 1]) || !is_digit(s@[i as int]),
        decreases len - i,
    {
        if !is_digit_char(s.get_char(i)) {
            assert(forall|a: int, b: int| hz_run(s@, a, b) ==> a >= i + 1);
            i += 1;
        } else {
            let j = scan_digits(s, i, len);
            let hz = if len >= 3 && j <= len - 3 {
                str_matches_at(s, " Hz", j)
            } else {
                false
            };
            proof {
                reveal_strlit(" Hz");
            }
            if hz {
                assert(s@.subrange(j as int, j + 3) == " Hz"@);
                assert(hz_run(s@, i as int, j as int));
                let r = digit_run_value(s, i, j);
                proof {
                    assert forall|a: int, b: int|
                        hz_run(s@, a, b) && (forall|a2: int, b2: int|
                            hz_run(s@, a2, b2) ==> a <= a2) implies a == i && b == j by {
                        assert(a <= i);
                        assert(a >= i);
                        if b < j {
                            assert(is_digit(s@[b]));
                            assert(s@.subrange(b, b + 3)[0] == s@[b]);
                            assert(s@[b] == ' ');
                        }
                        if b > j {
                            assert(is_digit(s@[j as int]));
                            assert(s@.subrange(j as int, j + 3)[0] == s@[j as int]);
                        }
                    }
                }
                return r;
            } else {
                proof {
                    assert forall|a: int, b: int| hz_run(s@, a, b) implies a >= j by {
                        if a < j {
                            assert(a >= i);
                            if a > i {
                                assert(is_digit(s@[a - 1]));
                            }
                            assert(a == i);
                            if b < j {
                                assert(is_digit(s@[b]));
                                assert(s@.subrange(b, b + 3)[0] == s@[b]);
                            }
                            if b > j {
                                assert(j < len && !is_digit(s@[j as int]));
                                assert(is_digit(s@[j as int]));
                            }
                            assert(b == j);
                            assert(s@.subrange(j as int, j + 3) == " Hz"@);
                            assert(is_substr_at(s@, " Hz"@, j as int));
                        }
                    }
                }
                i = j;
            }
        }
    }
    assert(forall|a: int, b: int| !hz_run(s@, a, b));
    None
}

/// All characters of `s[i..j]` are digits.
pub open spec fn all_digits(s: Seq<char>, i: int, j: int) -> bool {
    forall|k: int| i <= k < j ==> is_digit(s[k])
}

/// A timestamp `Duration: H:M:S.C` beginning at `i`, with the digit groups
/// ending at the given separators and the last group maximal.
pub open spec fn duration_match(s: Seq<char>, i: int, j1: int, j2: int, j3: int, j4: int) -> bool {
    0 <= i && i + 10 <= s.len() && s.subrange(i, i + 10) == "Duration: "@ && i + 10 < j1 < s.len()
        && all_digits(s, i + 10, j1) && s[j1] == ':' && j1 + 1 < j2 < s.len() && all_digits(
        s,
        j1 + 1,
        j2,
    ) && s[j2] == ':' && j2 + 1 < j3 < s.len() && all_digits(s, j2 + 1, j3) && s[j3] == '.' && j3
        + 1 < j4 <= s.len() && all_digits(s, j3 + 1, j4) && (j4 == s.len() || !is_digit(s[j4]))
}

/// The duration in centiseconds that a timestamp denotes, taking the
/// fourth group as a count of centiseconds.
pub open spec fn duration_value_cs(s: Seq<char>, i: int, j1: int, j2: int, j3: int, j4: int) -> int {
    digits_val(s.subrange(i + 10, j1)) * 360000 + digits_val(s.subrange(j1 + 1, j2)) * 6000
        + digits_val(s.subrange(j2 + 1, j3)) * 100 + digits_val(s.subrange(j3 + 1, j4))
}

/// Whether every digit group of a timestamp fits in 32 bits.
pub open spec fn duration_groups_fit(s: Seq<char>, i: int, j1: int, j2: int, j3: int, j4: int) -> bool {
    digits_val(s.subrange(i + 10, j1)) <= u32::MAX && digits_val(s.subrange(j1 + 1, j2)) <= u32::MAX
        && digits_val(s.subrange(j2 + 1, j3)) <= u32::MAX && digits_val(s.subrange(j3 + 1, j4))
        <= u32::MAX
}

/// Try to read the digit groups of a timestamp whose `Duration: ` prefix
/// sits at `i`.  `None` means no timestamp begins at `i`; `Some(None)`
/// means one does but a group is out of range.
fn try_duration_at(s: &str, i: usize, len: usize) -> (r: Option<Option<u64>>)
    requires
        len == s@.len(),
        is_substr_at(s@, "Duration: "@, i as int),
    ensures
        r is None ==> forall|j1: int, j2: int, j3: int, j4: int|
            !duration_match(s@, i as int, j1, j2, j3, j4),
        r is Some ==> exists|j1: int, j2: int, j3: int, j4: int|
            duration_match(s@, i as int, j1, j2, j3, j4),
        forall|j1: int, j2: int, j3: int, j4: int|
            duration_match(s@, i as int, j1, j2, j3, j4) ==> r == Some(
                if duration_groups_fit(s@, i as int, j1, j2, j3, j4) {
                    Some(duration_value_cs(s@, i as int, j1, j2, j3, j4) as u64)
                } else {
                    None::<u64>
                },
            ),
{
    proof {
        reveal_strlit("Duration: ");
    }
    let p1 = i + 10;
    let j1 = scan_digits(s, p1, len);
    if !(j1 > p1 && j1 < len && s.get_char(j1) == ':') {
        assert forall|j1x: int, j2x: int, j3x: int, j4x: int|
            !duration_match(s@, i as int, j1x, j2x, j3x, j4x) by {
            if duration_match(s@, i as int, j1x, j2x, j3x, j4x) {
                assert(j1x == j1) by {
                    if j1x < j1 {
                        assert(is_digit(s@[j1x]));
                    }
                    if j1x > j1 {
                        assert(is_digit(s@[j1 as int]));
                    }
                };
            }
        }
        return None;
    }
    let p2 = j1 + 1;
    let j2 = scan_digits(s, p2, len);
    if !(j2 > p2 && j2 < len && s.get_char(j2) == ':') {
        assert forall|j1x: int, j2x: int, j3x: int, j4x: int|
            !duration_match(s@, i as int, j1x, j2x, j3x, j4x) by {
            if duration_match(s@, i as int, j1x, j2x, j3x, j4x) {
                assert(j1x == j1) by {
                    if j1x < j1 {
                        assert(is_digit(s@[j1x]));
                    }
                    if j1x > j1 {
                        assert(is_digit(s@[j1 as int]));
                    }
                };
                assert(j2x == j2) by {
                    if j2x < j2 {
                        assert(is_digit(s@[j2x]));
                    }
                    if j2x > j2 {
                        assert(is_digit(s@[j2 as int]));
                    }
                };
            }
        }
        return None;
    }
    let p3 = j2 + 1;
    let j3 = scan_digits(s, p3, len);
    if !(j3 > p3 && j3 < len && s.get_char(j3) == '.') {
        assert forall|j1x: int, j2x: int, j3x: int, j4x: int|
            !duration_match(s@, i as int, j1x, j2x, j3x, j4x) by {
            if duration_match(s@, i as int, j1x, j2x, j3x, j4x) {
                assert(j1x == j1) by {
                    if j1x < j1 {
                        assert(is_digit(s@[j1x]));
                    }
                    if j1x > j1 {
                        assert(is_digit(s@[j1 as int]));
                    }
                };
                assert(j2x == j2) by {
                    if j2x < j2 {
                        assert(is_digit(s@[j2x]));
                    }
                    if j2x > j2 {
                        assert(is_digit(s@[j2 as int]));
                    }
                };
                assert(j3x == j3) by {
                    if j3x < j3 {
                        assert(is_digit(s@[j3x]));
                    }
                    if j3x > j3 {
                        assert(is_digit(s@[j3 as int]));
                    }
                };
            }
        }
        return None;
    }
    let p4 = j3 + 1;
    let j4 = scan_digits(s, p4, len);
    if !(j4 > p4) {
        assert forall|j1x: int, j2x: int, j3x: int, j4x: int|
            !duration_match(s@, i as int, j1x, j2x, j3x, j4x) by {
            if duration_match(s@, i as int, j1x, j2x, j3x, j4x) {
                assert(j1x == j1) by {
                    if j1x < j1 {
                        assert(is_digit(s@[j1x]));
                    }
                    if j1x > j1 {
                        assert(is_digit(s@[j1 as int]));
                    }
                };
                assert(j2x == j2) by {
                    if j2x < j2 {
                        assert(is_digit(s@[j2x]));
                    }
                    if j2x > j2 {
                        assert(is_digit(s@[j2 as int]));
                    }
                };
                assert(j3x == j3) by {
                    if j3x < j3 {
                        assert(is_digit(s@[j3x]));
                    }
                    if j3x > j3 {
                        assert(is_digit(s@[j3 as int]));
                    }
                };
                assert(is_digit(s@[j4 as int]));
            }
        }
        return None;
    }
    assert(duration_match(s@, i as int, j1 as int, j2 as int, j3 as int, j4 as int));
    assert forall|j1x: int, j2x: int, j3x: int, j4x: int|
        duration_match(s@, i as int, j1x, j2x, j3x, j4x) implies j1x == j1 && j2x == j2 && j3x
        == j3 && j4x == j4 by {
        assert(j1x == j1) by {
            if j1x < j1 {
                assert(is_digit(s@[j1x]));
            }
            if j1x > j1 {
                assert(is_digit(s@[j1 as int]));
            }
        };
        assert(j2x == j2) by {
            if j2x < j2 {
                assert(is_digit(s@[j2x]));
            }
            if j2x > j2 {
                assert(is_digit(s@[j2 as int]));
            }
        };
        assert(j3x == j3) by {
            if j3x < j3 {
                assert(is_digit(s@[j3x]));
            }
            if j3x > j3 {
                assert(is_digit(s@[j3 as int]));
            }
        };
        assert(j4x == j4) by {
            if j4x < j4 {
                assert(is_digit(s@[j4x]));
            }
            if j4x > j4 {
                assert(is_digit(s@[j4 as int]));
            }
        };
    }
    let h = digit_run_value(s, p1, j1);
    let m = digit_run_value(s, p2, j2);
    let sec = digit_run_value(s, p3, j3);
    let cs = digit_run_value(s, p4, j4);
    match (h, m, sec, cs) {
        (Some(h), Some(m), Some(sec), Some(cs)) => {
            let total: u64 = (h as u64) * 360000 + (m as u64) * 6000 + (sec as u64) * 100 + (
            cs as u64);
            proof {
                lemma_digits_val_nonneg(s@.subrange(p1 as int, j1 as int));
                lemma_digits_val_nonneg(s@.subrange(p2 as int, j2 as int));
                lemma_digits_val_nonneg(s@.subrange(p3 as int, j3 as int));
                lemma_digits_val_nonneg(s@.subrange(p4 as int, j4 as int));
            }
            Some(Some(total))
        },
        _ => Some(None),
    }
}

/// Find a duration in the tool's report: the first timestamp of the form
/// `Duration: H:M:S.C`, read as centiseconds, when every digit group fits
/// in 32 bits.
pub fn parse_duration(ffmpeg_output: &str) -> (r: Option<u64>)
    ensures
        (forall|a: int, j1: int, j2: int, j3: int, j4: int|
            !duration_match(ffmpeg_output@, a, j1, j2, j3, j4)) ==> r is None,
        forall|a: int, j1: int, j2: int, j3: int, j4: int|
            (duration_match(ffmpeg_output@, a, j1, j2, j3, j4) && (forall|a2: int, k1: int, k2: int, k3: int, k4: int|
                duration_match(ffmpeg_output@, a2, k1, k2, k3, k4) ==> a <= a2)) ==> r == (
            if duration_groups_fit(ffmpeg_output@, a, j1, j2, j3, j4) {
                Some(duration_value_cs(ffmpeg_output@, a, j1, j2, j3, j4) as u64)
            } else {
                None::<u64>
            }),
{
    let s = ffmpeg_output;
    let len = s.unicode_len();
    let mut i: usize = 0;
    while i < len
        invariant
            s == ffmpeg_output,
            len == s@.len(),
            0 <= i <= len,
            forall|a: int, j1: int, j2: int, j3: int, j4: int|
                duration_match(s@, a, j1, j2, j3, j4) ==> a >= i,
        decreases len - i,
    {
        proof {
            reveal_strlit("Duration: ");
        }
        if str_matches_at(s, "Duration: ", i) {
            match try_duration_at(s, i, len) {
                Some(inner) => {
                    return inner;
                },
                None => {
                    i += 1;
                },
            }
        } else {
            i += 1;
        }
    }
    assert forall|a: int, j1: int, j2: int, j3: int, j4: int|
        !duration_match(s@, a, j1, j2, j3, j4) by {
        if duration_match(s@, a, j1, j2, j3, j4) {
            assert(a >= i);
            assert(a + 10 <= len);
        }
    }
    None
}

/// The channel count the tool's report denotes: stereo, mono, or a
/// 5.1 layout, with stereo assumed otherwise.
pub open spec fn channels_spec(s: Seq<char>) -> u8 {
    if contains_seq(s, "stereo"@) {
        2u8
    } else if contains_seq(s, "mono"@) {
        1u8
    } else if contains_seq(s, "5.1"@) {
        6u8
    } else {
        2u8
    }
}

/// Read the channel count out of the tool's report.
pub fn parse_channels(ffmpeg_output: &str) -> (r: Option<u8>)
    ensures
        r == Some(channels_spec(ffmpeg_output@)),
{
    if str_contains(ffmpeg_output, "stereo") {
        Some(2)
    } else if str_contains(ffmpeg_output, "mono") {
        Some(1)
    } else if str_contains(ffmpeg_output, "5.1") {
        Some(6)
    } else {
        Some(2)
    }
}

/// Assemble the stream properties out of the tool's report, assuming
/// 48 kHz, stereo, and a zero duration where a value cannot be read.
pub fn audio_info_from_output(stderr: &str) -> (r: AudioInfo)
    ensures
        r.channels == channels_spec(stderr@),
        (forall|a: int, b: int| !hz_run(stderr@, a, b)) ==> r.sample_rate == 48000,
        forall|a: int, b: int|
            (hz_run(stderr@, a, b) && (forall|a2: int, b2: int|
                hz_run(stderr@, a2, b2) ==> a <= a2)) ==> r.sample_rate == ({
                let v = digits_val(stderr@.subrange(a, b));
                if v <= u32::MAX { v as u32 } else { 48000u32 }
            }),
        (forall|a: int, j1: int, j2: int, j3: int, j4: int|
            !duration_match(stderr@, a, j1, j2, j3, j4)) ==> r.duration_cs == 0,
        forall|a: int, j1: int, j2: int, j3: int, j4: int|
            (duration_match(stderr@, a, j1, j2, j3, j4) && (forall|a2: int, k1: int, k2: int, k3: int, k4: int|
                duration_match(stderr@, a2, k1, k2, k3, k4) ==> a <= a2)) ==> r.duration_cs == (
            if duration_groups_fit(stderr@, a, j1, j2, j3, j4) {
                duration_value_cs(stderr@, a, j1, j2, j3, j4) as u64
            } else {
                0u64
            }),
{
    let sample_rate = match parse_sample_rate(stderr) {
        Some(v) => v,
        None => 48000,
    };
    let channels = match parse_channels(stderr) {
        Some(v) => v,
        None => 2,
    };
    let duration_cs = match parse_duration(stderr) {
        Some(v) => v,
        None => 0,
    };
    AudioInfo { sample_rate, channels, duration_cs }
}

} // verus!
