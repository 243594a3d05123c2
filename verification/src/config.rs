//! Application configuration: plain settings injected by the caller, with
//! the resolution rules for external tool locations.  Loudness values are
//! counts of tenths of a unit; a guidance scale of 3.5 is stored as 35.

use vstd::prelude::*;
use vstd::string::*;
use crate::error::ConfigError;

verus! {

/// Locations of the external tools, when configured explicitly.
#[derive(Debug, Clone)]
pub struct PathsConfig {
    pub yt_dlp: Option<String>,
    pub ffmpeg: Option<String>,
    pub python: Option<String>,
}

/// Output defaults.
#[derive(Debug, Clone)]
pub struct OutputConfig {
    pub default_format: String,
    pub default_directory: String,
}

/// Settings of the diffusion-based upscaling technique.
#[derive(Debug, Clone)]
pub struct AudioSRConfig {
    pub ddim_steps: u32,
    pub guidance_scale_tenths: u32,
    pub model: String,
}

/// Upscaling defaults.
#[derive(Debug, Clone)]
pub struct UpscaleConfig {
    pub default_quality: String,
    pub audiosr: AudioSRConfig,
}

/// Normalization defaults.
#[derive(Debug, Clone)]
pub struct NormalizeConfig {
    pub enabled: bool,
    pub target_lufs_tenths: i32,
    pub true_peak_tenths: i32,
    pub lra_tenths: i32,
}

/// Batch-processing defaults.
#[derive(Debug, Clone)]
pub struct BatchConfig {
    pub max_parallel: usize,
    pub continue_on_error: bool,
}

/// Scratch-directory defaults.
#[derive(Debug, Clone)]
pub struct TempConfig {
    pub cleanup: bool,
    pub directory: Option<String>,
}

/// The full application configuration.
#[derive(Debug, Clone)]
pub struct Config {
    pub paths: PathsConfig,
    pub output: OutputConfig,
    pub upscale: UpscaleConfig,
    pub normalize: NormalizeConfig,
    pub batch: BatchConfig,
    pub temp: TempConfig,
}

impl Default for Config {
    /// The built-in defaults: lossless output into the working directory,
    /// fast upscaling, normalization off at a -14.0 target, four parallel
    /// batch workers, and scratch cleanup on.
    fn default() -> (r: Self)
        ensures
            r.paths.yt_dlp is None,
            r.paths.ffmpeg is None,
            r.paths.python is None,
            r.output.default_format@ == "flac"@,
            r.output.default_directory@ == "."@,
            r.upscale.default_quality@ == "fast"@,
            r.upscale.audiosr.ddim_steps == 50,
            r.upscale.audiosr.guidance_scale_tenths == 35,
            r.upscale.audiosr.model@ == "basic"@,
            !r.normalize.enabled,
            r.normalize.target_lufs_tenths == -140,
            r.normalize.true_peak_tenths == -10,
            r.normalize.lra_tenths == 110,
            r.batch.max_parallel == 4,
            r.batch.continue_on_error,
            r.temp.cleanup,
            r.temp.directory is None,
    {
        Config {
            paths: PathsConfig { yt_dlp: None, ffmpeg: None, python: None },
            output: OutputConfig {
                default_format: String::from_str("flac"),
                default_directory: String::from_str("."),
            },
            upscale: UpscaleConfig {
                default_quality: String::from_str("fast"),
                audiosr: AudioSRConfig {
                    ddim_steps: 50,
                    guidance_scale_tenths: 35,
                    model: String::from_str("basic"),
                },
            },
            normalize: NormalizeConfig {
                enabled: false,
                target_lufs_tenths: -140,
                true_peak_tenths: -10,
                lra_tenths: 110,
            },
            batch: BatchConfig { max_parallel: 4, continue_on_error: true },
            temp: TempConfig { cleanup: true, directory: None },
        }
    }
}

/// The resolution of one tool: an explicitly configured location wins, a
/// detected one is taken next, and otherwise resolution fails.
pub open spec fn resolved_tool(
    configured: Option<String>,
    detected: Option<String>,
    missing_msg: Seq<char>,
    r: Result<String, ConfigError>,
) -> bool {
    match configured {
        Some(p) => r matches Ok(q) && q@ == p@,
        None => match detected {
            Some(p) => r matches Ok(q) && q@ == p@,
            None => r matches Err(ConfigError::InvalidValue(m)) && m@ == missing_msg,
        },
    }
}

impl Config {
    /// The download tool's location: the configured path, else the one the
    /// caller detected on the search path.
    pub fn yt_dlp_path(&self, detected: Option<String>) -> (r: Result<String, ConfigError>)
        ensures
            resolved_tool(self.paths.yt_dlp, detected, "yt-dlp not found in PATH"@, r),
    {
        match &self.paths.yt_dlp {
            Some(p) => Ok(p.clone()),
            None => match detected {
                Some(p) => Ok(p),
                None => Err(
                    ConfigError::InvalidValue(String::from_str("yt-dlp not found in PATH")),
                ),
            },
        }
    }

    /// The media tool's location: the configured path, else the one the
    /// caller detected on the search path.
    pub fn ffmpeg_path(&self, detected: Option<String>) -> (r: Result<String, ConfigError>)
        ensures
            resolved_tool(self.paths.ffmpeg, detected, "ffmpeg not found in PATH"@, r),
    {
        match &self.paths.ffmpeg {
            Some(p) => Ok(p.clone()),
            None => match detected {
                Some(p) => Ok(p),
                None => Err(
                    ConfigError::InvalidValue(String::from_str("ffmpeg not found in PATH")),
                ),
            },
        }
    }

    /// The interpreter's location: the configured path wins, then a
    /// virtual environment the caller found, then the system interpreter.
    pub fn python_path(&self, venv: Option<String>, system: Option<String>) -> (r: Result<
        String,
        ConfigError,
    >)
        ensures
            match self.paths.python {
                Some(p) => r matches Ok(q) && q@ == p@,
                None => match venv {
                    Some(p) => r matches Ok(q) && q@ == p@,
                    None => resolved_tool(None, system, "python3 not found in PATH"@, r),
                },
            },
    {
        match &self.paths.python {
            Some(p) => Ok(p.clone()),
            None => match venv {
                Some(p) => Ok(p),
                None => match system {
                    Some(p) => Ok(p),
                    None => Err(
                        ConfigError::InvalidValue(String::from_str("python3 not found in PATH")),
                    ),
                },
            },
        }
    }

    /// The scratch directory: the configured one, else the system's.
    pub fn temp_dir(&self, system_temp: String) -> (r: String)
        ensures
            match self.temp.directory {
                Some(d) => r@ == d@,
                None => r@ == system_temp@,
            },
    {
        match &self.temp.directory {
            Some(d) => d.clone(),
            None => system_temp,
        }
    }
}

} // verus!
