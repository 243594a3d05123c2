//! Loudness-normalization decisions: the two-pass filter invocations and
//! parsing of the measurement report.  Loudness values are counts of
//! tenths of a unit, so `-140` tenths stands for a target of `-14.0`.

use vstd::prelude::*;
use vstd::string::*;
use crate::error::NormalizeError;
use crate::jsonio::json_str_field;
use crate::jsonio::json_str_field_of;
use crate::strutil::find_char;
use crate::strutil::rfind_char;
use crate::strutil::tenths_rep;
use crate::strutil::tenths_to_string;
use crate::strutil::views;

verus! {

/// Applies loudness normalization through an external tool; this type
/// only decides the invocations, the caller performs them.
#[derive(Debug, Clone)]
pub struct Normalizer {
    pub ffmpeg_path: String,
}

/// The measurements of the first pass, kept as the exact texts the tool
/// printed so the second pass repeats them verbatim.
#[derive(Debug, Clone)]
pub struct LoudnormStats {
    pub input_i: String,
    pub input_tp: String,
    pub input_lra: String,
    pub input_thresh: String,
    pub target_offset: String,
}

/// The measurement filter of the first pass.
pub open spec fn measure_filter_spec(i_tenths: int, tp_tenths: int, lra_tenths: int) -> Seq<char> {
    "loudnorm=I="@ + tenths_rep(i_tenths) + ":TP="@ + tenths_rep(tp_tenths) + ":LRA="@
        + tenths_rep(lra_tenths) + ":print_format=json"@
}

/// The application filter of the second pass, repeating the measured
/// values verbatim and applying a linear gain.
pub open spec fn apply_filter_spec(
    i_tenths: int,
    tp_tenths: int,
    lra_tenths: int,
    st: LoudnormStats,
) -> Seq<char> {
    "loudnorm=I="@ + tenths_rep(i_tenths) + ":TP="@ + tenths_rep(tp_tenths) + ":LRA="@
        + tenths_rep(lra_tenths) + ":measured_I="@ + st.input_i@ + ":measured_TP="@ + st.input_tp@
        + ":measured_LRA="@ + st.input_lra@ + ":measured_thresh="@ + st.input_thresh@ + ":offset="@
        + st.target_offset@ + ":linear=true"@
}

/// The argument list of the measurement pass.
pub open spec fn measure_args_spec(
    input: Seq<char>,
    i_tenths: int,
    tp_tenths: int,
    lra_tenths: int,
) -> Seq<Seq<char>> {
    seq![
        "-hide_banner"@, "-i"@, input, "-af"@, measure_filter_spec(i_tenths, tp_tenths, lra_tenths),
        "-f"@, "null"@, "-"@,
    ]
}

/// The argument list of the application pass, writing 48 kHz 24-bit PCM.
pub open spec fn apply_args_spec(
    input: Seq<char>,
    output: Seq<char>,
    i_tenths: int,
    tp_tenths: int,
    lra_tenths: int,
    st: LoudnormStats,
) -> Seq<Seq<char>> {
    seq![
        "-hide_banner"@, "-loglevel"@, "error"@, "-i"@, input, "-af"@,
        apply_filter_spec(i_tenths, tp_tenths, lra_tenths, st), "-c:a"@, "pcm_s24le"@, "-ar"@,
        "48000"@, "-y"@, output,
    ]
}

impl Normalizer {
    /// A new normalizer invoking the tool at the given path.
    pub fn new(ffmpeg_path: String) -> (r: Self)
        ensures
            r.ffmpeg_path == ffmpeg_path,
    {
        Self { ffmpeg_path }
    }

    /// The measurement filter text.
    pub fn measure_filter(&self, target_lufs_tenths: i32, true_peak_tenths: i32, lra_tenths: i32) -> (r:
        String)
        ensures
            r@ == measure_filter_spec(
                target_lufs_tenths as int,
                true_peak_tenths as int,
                lra_tenths as int,
            ),
    {
        let r = String::from_str("loudnorm=I=")
            .concat(tenths_to_string(target_lufs_tenths as i64).as_str())
            .concat(":TP=")
            .concat(tenths_to_string(true_peak_tenths as i64).as_str())
            .concat(":LRA=")
            .concat(tenths_to_string(lra_tenths as i64).as_str())
            .concat(":print_format=json");
        assert(r@ =~= measure_filter_spec(
            target_lufs_tenths as int,
            true_peak_tenths as int,
            lra_tenths as int,
        ));
        r
    }

    /// The application filter text, repeating the measured values.
    pub fn apply_filter(
        &self,
        target_lufs_tenths: i32,
        true_peak_tenths: i32,
        lra_tenths: i32,
        stats: &LoudnormStats,
    ) -> (r: String)
        ensures
            r@ == apply_filter_spec(
                target_lufs_tenths as int,
                true_peak_tenths as int,
                lra_tenths as int,
                *stats,
            ),
    {
        let r = String::from_str("loudnorm=I=")
            .concat(tenths_to_string(target_lufs_tenths as i64).as_str())
            .concat(":TP=")
            .concat(tenths_to_string(true_peak_tenths as i64).as_str())
            .concat(":LRA=")
            .concat(tenths_to_string(lra_tenths as i64).as_str())
            .concat(":measured_I=")
            .concat(stats.input_i.as_str())
            .concat(":measured_TP=")
            .concat(stats.input_tp.as_str())
            .concat(":measured_LRA=")
            .concat(stats.input_lra.as_str())
            .concat(":measured_thresh=")
            .concat(stats.input_thresh.as_str())
            .concat(":offset=")
            .concat(stats.target_offset.as_str())
            .concat(":linear=true");
        assert(r@ =~= apply_filter_spec(
            target_lufs_tenths as int,
            true_peak_tenths as int,
            lra_tenths as int,
            *stats,
        ));
        r
    }

    /// The argument list of the measurement pass over `input`.
    pub fn measure_args(
        &self,
        input: &str,
        target_lufs_tenths: i32,
        true_peak_tenths: i32,
        lra_tenths: i32,
    ) -> (r: Vec<String>)
        ensures
            views(r@) == measure_args_spec(
                input@,
                target_lufs_tenths as int,
                true_peak_tenths as int,
                lra_tenths as int,
            ),
    {
        let mut v: Vec<String> = Vec::new();
        v.push(String::from_str("-hide_banner"));
        v.push(String::from_str("-i"));
        v.push(String::from_str(input));
        v.push(String::from_str("-af"));
        v.push(self.measure_filter(target_lufs_tenths, true_peak_tenths, lra_tenths));
        v.push(String::from_str("-f"));
        v.push(String::from_str("null"));
        v.push(String::from_str("-"));
        proof {
            assert(views(v@) =~= measure_args_spec(
                input@,
                target_lufs_tenths as int,
                true_peak_tenths as int,
                lra_tenths as int,
            ));
        }
        v
    }

    /// The argument list of the application pass from `input` to `output`.
    pub fn apply_args(
        &self,
        input: &str,
        output: &str,
        target_lufs_tenths: i32,
        true_peak_tenths: i32,
        lra_tenths: i32,
        stats: &LoudnormStats,
    ) -> (r: Vec<String>)
        ensures
            views(r@) == apply_args_spec(
                input@,
                output@,
                target_lufs_tenths as int,
                true_peak_tenths as int,
                lra_tenths as int,
                *stats,
            ),
    {
        let mut v: Vec<String> = Vec::new();
        v.push(String::from_str("-hide_banner"));
        v.push(String::from_str("-loglevel"));
        v.push(String::from_str("error"));
        v.push(String::from_str("-i"));
        v.push(String::from_str(input));
        v.push(String::from_str("-af"));
        v.push(self.apply_filter(target_lufs_tenths, true_peak_tenths, lra_tenths, stats));
        v.push(String::from_str("-c:a"));
        v.push(String::from_str("pcm_s24le"));
        v.push(String::from_str("-ar"));
        v.push(String::from_str("48000"));
        v.push(String::from_str("-y"));
        v.push(String::from_str(output));
        proof {
            assert(views(v@) =~= apply_args_spec(
                input@,
                output@,
                target_lufs_tenths as int,
                true_peak_tenths as int,
                lra_tenths as int,
                *stats,
            ));
        }
        v
    }
}

/// The position of the first opening brace in `s`.
pub open spec fn is_first_brace(s: Seq<char>, a: int) -> bool {
    0 <= a < s.len() && s[a] == '{' && (forall|k: int| 0 <= k < a ==> s[k] != '{')
}

/// The position of the last closing brace in `s`.
pub open spec fn is_last_brace(s: Seq<char>, b: int) -> bool {
    0 <= b < s.len() && s[b] == '}' && (forall|k: int| b < k < s.len() ==> s[k] != '}')
}

/// Whether the parsed stats repeat the five measurement fields of the
/// report slice `doc` verbatim.
pub open spec fn stats_match(doc: Seq<char>, st: LoudnormStats) -> bool {
    json_str_field_of(doc, "input_i"@) == Some(st.input_i@) && json_str_field_of(
        doc,
        "input_tp"@,
    ) == Some(st.input_tp@) && json_str_field_of(doc, "input_lra"@) == Some(st.input_lra@)
        && json_str_field_of(doc, "input_thresh"@) == Some(st.input_thresh@) && json_str_field_of(
        doc,
        "target_offset"@,
    ) == Some(st.target_offset@)
}

/// Whether a required measurement field is absent from the slice.
pub open spec fn stats_field_missing(doc: Seq<char>) -> bool {
    json_str_field_of(doc, "input_i"@) is None || json_str_field_of(doc, "input_tp"@) is None
        || json_str_field_of(doc, "input_lra"@) is None || json_str_field_of(
        doc,
        "input_thresh"@,
    ) is None || json_str_field_of(doc, "target_offset"@) is None
}

/// Read the measurement report out of the tool's diagnostic output: the
/// text between the first opening and the last closing brace, parsed as a
/// JSON object with the five measurement fields.
pub fn parse_loudnorm_output(stderr: &str) -> (r: Result<LoudnormStats, NormalizeError>)
    ensures
        match r {
            Ok(st) => exists|a: int, b: int|
                is_first_brace(stderr@, a) && is_last_brace(stderr@, b) && a < b && stats_match(
                    stderr@.subrange(a, b + 1),
                    st,
                ),
            Err(e) => e matches NormalizeError::LoudnessParseError && ((forall|k: int|
                0 <= k < stderr@.len() ==> stderr@[k] != '{') || (forall|k: int|
                0 <= k < stderr@.len() ==> stderr@[k] != '}') || (exists|a: int, b: int|
                is_first_brace(stderr@, a) && is_last_brace(stderr@, b) && b <= a) || (exists|
                a: int,
                b: int,
            |
                is_first_brace(stderr@, a) && is_last_brace(stderr@, b) && a < b
                    && stats_field_missing(stderr@.subrange(a, b + 1)))),
        },
{
    let len = stderr.unicode_len();
    let start = match find_char(stderr, '{') {
        Some(a) => a,
        None => {
            return Err(NormalizeError::LoudnessParseError);
        },
    };
    let end = match rfind_char(stderr, '}') {
        Some(b) => b,
        None => {
            return Err(NormalizeError::LoudnessParseError);
        },
    };
    assert(is_first_brace(stderr@, start as int));
    assert(is_last_brace(stderr@, end as int));
    if end <= start {
        return Err(NormalizeError::LoudnessParseError);
    }
    assert(end < len);
    let doc = stderr.substring_char(start, end + 1);
    let input_i = json_str_field(doc, "input_i");
    let input_tp = json_str_field(doc, "input_tp");
    let input_lra = json_str_field(doc, "input_lra");
    let input_thresh = json_str_field(doc, "input_thresh");
    let target_offset = json_str_field(doc, "target_offset");
    match (input_i, input_tp, input_lra, input_thresh, target_offset) {
        (Some(input_i), Some(input_tp), Some(input_lra), Some(input_thresh), Some(
            target_offset,
        )) => Ok(LoudnormStats { input_i, input_tp, input_lra, input_thresh, target_offset }),
        _ => Err(NormalizeError::LoudnessParseError),
    }
}

} // verus!
