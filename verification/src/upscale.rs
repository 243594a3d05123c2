//! Upscale-stage decisions: which technique a quality tier selects, the
//! interpreter script each technique runs, and the classification of a
//! failed run by its exit code.  The guidance scale is a count of tenths,
//! so 35 stands for 3.5.

use vstd::prelude::*;
use vstd::string::*;
use crate::error::UpscaleError;
use crate::strutil::dec_rep;
use crate::strutil::tenths_rep;
use crate::strutil::tenths_to_string;
use crate::strutil::trim_left;
use crate::strutil::trim_right;
use crate::strutil::trim_str;
use crate::strutil::u64_to_string;

verus! {

/// The upscaling technique to run, with its tuning where it has any.
#[derive(Debug, Clone, Copy, PartialEq, Eq, Structural)]
pub enum UpscaleMethod {
    FlashSR,
    AudioSR { ddim_steps: u32, guidance_scale_tenths: u32 },
}

/// The display name of a technique.
pub open spec fn upscale_method_name(m: UpscaleMethod) -> Seq<char> {
    match m {
        UpscaleMethod::FlashSR => "FlashSR"@,
        UpscaleMethod::AudioSR { .. } => "AudioSR"@,
    }
}

impl UpscaleMethod {
    /// The display name of this technique.
    pub fn name(&self) -> (r: &'static str)
        ensures
            r@ == upscale_method_name(*self),
    {
        match self {
            UpscaleMethod::FlashSR => "FlashSR",
            UpscaleMethod::AudioSR { .. } => "AudioSR",
        }
    }
}

/// The interpreter script of the fast ONNX-based technique, reading from
/// `input` and writing 48 kHz 24-bit output to `output`.
pub open spec fn flashsr_script_spec(input: Seq<char>, output: Seq<char>) -> Seq<char> {
    r##"
import sys
import numpy as np

try:
    import librosa
    import soundfile as sf
    import onnxruntime as ort
    from huggingface_hub import hf_hub_download
except ImportError as e:
    print(f"Missing dependency: {e}", file=sys.stderr)
    sys.exit(1)

# Download model if not cached
try:
    model_path = hf_hub_download(
        repo_id='YatharthS/FlashSR',
        filename='model.onnx',
        subfolder='onnx'
    )
except Exception as e:
    print(f"Failed to download model: {e}", file=sys.stderr)
    sys.exit(2)

# Load audio at 16kHz (FlashSR input requirement)
try:
    y, sr = librosa.load(""##@ + input + r##"", sr=16000)
    lowres_wav = y[np.newaxis, :].astype(np.float32)
except Exception as e:
    print(f"Failed to load audio: {e}", file=sys.stderr)
    sys.exit(3)

# Run ONNX inference
try:
    session = ort.InferenceSession(model_path)
    output = session.run(
        ["reconstruction"],
        {"audio_values": lowres_wav}
    )[0]
except Exception as e:
    print(f"Inference failed: {e}", file=sys.stderr)
    sys.exit(4)

# Save at 48kHz
try:
    sf.write(""##@ + output + r##"", output.squeeze(0), samplerate=48000, subtype='PCM_24')
    print("Upscaling complete")
except Exception as e:
    print(f"Failed to save output: {e}", file=sys.stderr)
    sys.exit(5)
"##@
}

/// The interpreter script of the diffusion-based technique, reading from
/// `input` and writing 48 kHz 24-bit output to `output`.
pub open spec fn audiosr_script_spec(
    input: Seq<char>,
    output: Seq<char>,
    ddim_steps: u32,
    guidance_scale_tenths: u32,
) -> Seq<char> {
    r##"
import sys
import os

# Suppress warnings
os.environ['TF_CPP_MIN_LOG_LEVEL'] = '3'

try:
    import torch
    import soundfile as sf
    from audiosr import build_model, super_resolution
except ImportError as e:
    print(f"Missing dependency: {e}", file=sys.stderr)
    sys.exit(1)

# Select device
if torch.backends.mps.is_available():
    device = "mps"
elif torch.cuda.is_available():
    device = "cuda"
else:
    device = "cpu"

print(f"Using device: {device}", file=sys.stderr)

# Build model
try:
    audiosr = build_model(model_name="basic", device=device)
except Exception as e:
    print(f"Failed to build model: {e}", file=sys.stderr)
    sys.exit(2)

# Run super-resolution
try:
    waveform = super_resolution(
        audiosr,
        ""##@ + input + r##"",
        seed=42,
        guidance_scale="##@ + tenths_rep(guidance_scale_tenths as int) + r##",
        ddim_steps="##@ + dec_rep(ddim_steps as nat) + r##",
        latent_t_per_second=12.8
    )
except Exception as e:
    print(f"Inference failed: {e}", file=sys.stderr)
    sys.exit(3)

# Save output
try:
    sf.write(""##@ + output + r##"", waveform.squeeze(), samplerate=48000, subtype='PCM_24')
    print("Upscaling complete")
except Exception as e:
    print(f"Failed to save output: {e}", file=sys.stderr)
    sys.exit(4)
"##@
}

/// Runs the fast ONNX-based technique through an external interpreter;
/// this type only decides the invocation, the caller performs it.
#[derive(Debug, Clone)]
pub struct FlashSR {
    pub python_path: String,
}

impl FlashSR {
    /// A new runner invoking the interpreter at the given path.
    pub fn new(python_path: String) -> (r: Self)
        ensures
            r.python_path == python_path,
    {
        Self { python_path }
    }

    /// The interpreter script for upscaling `input` into `output`.
    pub fn script(&self, input: &str, output: &str) -> (r: String)
        ensures
            r@ == flashsr_script_spec(input@, output@),
    {
        let r = String::from_str(
            r##"
import sys
import numpy as np

try:
    import librosa
    import soundfile as sf
    import onnxruntime as ort
    from huggingface_hub import hf_hub_download
except ImportError as e:
    print(f"Missing dependency: {e}", file=sys.stderr)
    sys.exit(1)

# Download model if not cached
try:
    model_path = hf_hub_download(
        repo_id='YatharthS/FlashSR',
        filename='model.onnx',
        subfolder='onnx'
    )
except Exception as e:
    print(f"Failed to download model: {e}", file=sys.stderr)
    sys.exit(2)

# Load audio at 16kHz (FlashSR input requirement)
try:
    y, sr = librosa.load(""##,
        ).concat(input).concat(
            r##"", sr=16000)
    lowres_wav = y[np.newaxis, :].astype(np.float32)
except Exception as e:
    print(f"Failed to load audio: {e}", file=sys.stderr)
    sys.exit(3)

# Run ONNX inference
try:
    session = ort.InferenceSession(model_path)
    output = session.run(
        ["reconstruction"],
        {"audio_values": lowres_wav}
    )[0]
except Exception as e:
    print(f"Inference failed: {e}", file=sys.stderr)
    sys.exit(4)

# Save at 48kHz
try:
    sf.write(""##,
        ).concat(output).concat(
            r##"", output.squeeze(0), samplerate=48000, subtype='PCM_24')
    print("Upscaling complete")
except Exception as e:
    print(f"Failed to save output: {e}", file=sys.stderr)
    sys.exit(5)
"##,
        );
        assert(r@ =~= flashsr_script_spec(input@, output@));
        r
    }
}

/// Runs the diffusion-based technique through an external interpreter;
/// this type only decides the invocation, the caller performs it.
#[derive(Debug, Clone)]
pub struct AudioSR {
    pub python_path: String,
}

impl AudioSR {
    /// A new runner invoking the interpreter at the given path.
    pub fn new(python_path: String) -> (r: Self)
        ensures
            r.python_path == python_path,
    {
        Self { python_path }
    }

    /// The interpreter script for upscaling `input` into `output` with the
    /// given step count and guidance scale.
    pub fn script(
        &self,
        input: &str,
        output: &str,
        ddim_steps: u32,
        guidance_scale_tenths: u32,
    ) -> (r: String)
        ensures
            r@ == audiosr_script_spec(input@, output@, ddim_steps, guidance_scale_tenths),
    {
        let r = String::from_str(
            r##"
import sys
import os

# Suppress warnings
os.environ['TF_CPP_MIN_LOG_LEVEL'] = '3'

try:
    import torch
    import soundfile as sf
    from audiosr import build_model, super_resolution
except ImportError as e:
    print(f"Missing dependency: {e}", file=sys.stderr)
    sys.exit(1)

# Select device
if torch.backends.mps.is_available():
    device = "mps"
elif torch.cuda.is_available():
    device = "cuda"
else:
    device = "cpu"

print(f"Using device: {device}", file=sys.stderr)

# Build model
try:
    audiosr = build_model(model_name="basic", device=device)
except Exception as e:
    print(f"Failed to build model: {e}", file=sys.stderr)
    sys.exit(2)

# Run super-resolution
try:
    waveform = super_resolution(
        audiosr,
        ""##,
        ).concat(input).concat(
            r##"",
        seed=42,
        guidance_scale="##,
        ).concat(tenths_to_string(guidance_scale_tenths as i64).as_str()).concat(
            r##",
        ddim_steps="##,
        ).concat(u64_to_string(ddim_steps as u64).as_str()).concat(
            r##",
        latent_t_per_second=12.8
    )
except Exception as e:
    print(f"Inference failed: {e}", file=sys.stderr)
    sys.exit(3)

# Save output
try:
    sf.write(""##,
        ).concat(output).concat(
            r##"", waveform.squeeze(), samplerate=48000, subtype='PCM_24')
    print("Upscaling complete")
except Exception as e:
    print(f"Failed to save output: {e}", file=sys.stderr)
    sys.exit(4)
"##,
        );
        assert(r@ =~= audiosr_script_spec(input@, output@, ddim_steps, guidance_scale_tenths));
        r
    }
}

/// The message of a failed fast-technique run, read off its exit code,
/// with the trimmed diagnostic output appended where it helps.
pub open spec fn flashsr_failure_msg(code: int, stderr: Seq<char>) -> Seq<char> {
    if code == 1 {
        "Missing Python dependencies. Run: ytaudio update-models"@
    } else if code == 2 {
        "Failed to download FlashSR model"@
    } else if code == 3 {
        "Failed to load audio: "@ + trim_right(trim_left(stderr))
    } else if code == 4 {
        "ONNX inference failed: "@ + trim_right(trim_left(stderr))
    } else if code == 5 {
        "Failed to save output: "@ + trim_right(trim_left(stderr))
    } else {
        "FlashSR failed: "@ + trim_right(trim_left(stderr))
    }
}

/// Classify a failed fast-technique run; a missing exit code counts as -1.
pub fn classify_flashsr_failure(code: Option<i32>, stderr: &str) -> (r: UpscaleError)
    ensures
        ({
            let c = match code {
                Some(v) => v as int,
                None => -1,
            };
            match r {
                UpscaleError::FlashSRFailed(m) => m@ == flashsr_failure_msg(c, stderr@),
                _ => false,
            }
        }),
{
    let c: i32 = match code {
        Some(v) => v,
        None => -1,
    };
    let msg = if c == 1 {
        String::from_str("Missing Python dependencies. Run: ytaudio update-models")
    } else if c == 2 {
        String::from_str("Failed to download FlashSR model")
    } else if c == 3 {
        String::from_str("Failed to load audio: ").concat(trim_str(stderr).as_str())
    } else if c == 4 {
        String::from_str("ONNX inference failed: ").concat(trim_str(stderr).as_str())
    } else if c == 5 {
        String::from_str("Failed to save output: ").concat(trim_str(stderr).as_str())
    } else {
        String::from_str("FlashSR failed: ").concat(trim_str(stderr).as_str())
    };
    UpscaleError::FlashSRFailed(msg)
}

/// The message of a failed diffusion-technique run, read off its exit
/// code, with the trimmed diagnostic output appended where it helps.
pub open spec fn audiosr_failure_msg(code: int, stderr: Seq<char>) -> Seq<char> {
    if code == 1 {
        "Missing Python dependencies. Run: ytaudio update-models"@
    } else if code == 2 {
        "Failed to build AudioSR model: "@ + trim_right(trim_left(stderr))
    } else if code == 3 {
        "AudioSR inference failed: "@ + trim_right(trim_left(stderr))
    } else if code == 4 {
        "Failed to save output: "@ + trim_right(trim_left(stderr))
    } else {
        "AudioSR failed: "@ + trim_right(trim_left(stderr))
    }
}

/// Classify a failed diffusion-technique run; a missing exit code counts
/// as -1.
pub fn classify_audiosr_failure(code: Option<i32>, stderr: &str) -> (r: UpscaleError)
    ensures
        ({
            let c = match code {
                Some(v) => v as int,
                None => -1,
            };
            match r {
                UpscaleError::AudioSRFailed(m) => m@ == audiosr_failure_msg(c, stderr@),
                _ => false,
            }
        }),
{
    let c: i32 = match code {
        Some(v) => v,
        None => -1,
    };
    let msg = if c == 1 {
        String::from_str("Missing Python dependencies. Run: ytaudio update-models")
    } else if c == 2 {
        String::from_str("Failed to build AudioSR model: ").concat(trim_str(stderr).as_str())
    } else if c == 3 {
        String::from_str("AudioSR inference failed: ").concat(trim_str(stderr).as_str())
    } else if c == 4 {
        String::from_str("Failed to save output: ").concat(trim_str(stderr).as_str())
    } else {
        String::from_str("AudioSR failed: ").concat(trim_str(stderr).as_str())
    };
    UpscaleError::AudioSRFailed(msg)
}

/// Dispatches upscaling to the technique a method selects; this type only
/// decides the invocation, the caller performs it.
#[derive(Debug, Clone)]
pub struct Upscaler {
    pub python_path: String,
}

impl Upscaler {
    /// A new upscaler invoking the interpreter at the given path.
    pub fn new(python_path: String) -> (r: Self)
        ensures
            r.python_path == python_path,
    {
        Self { python_path }
    }

    /// The interpreter script that the selected method runs.
    pub fn script_for(&self, input: &str, output: &str, method: UpscaleMethod) -> (r: String)
        ensures
            r@ == match method {
                UpscaleMethod::FlashSR => flashsr_script_spec(input@, output@),
                UpscaleMethod::AudioSR { ddim_steps, guidance_scale_tenths } => audiosr_script_spec(
                    input@,
                    output@,
                    ddim_steps,
                    guidance_scale_tenths,
                ),
            },
    {
        match method {
            UpscaleMethod::FlashSR => FlashSR::new(self.python_path.clone()).script(input, output),
            UpscaleMethod::AudioSR { ddim_steps, guidance_scale_tenths } => AudioSR::new(
                self.python_path.clone(),
            ).script(input, output, ddim_steps, guidance_scale_tenths),
        }
    }
}

} // verus!
