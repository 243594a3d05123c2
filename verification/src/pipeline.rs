//! The pipeline orchestrator: a fixed-stage state machine that sequences
//! the opaque stage adapters, decides every progress event and its
//! delivery mode, wraps stage failures, computes the final artifact path,
//! and rules on scratch-directory retention.
//!
//! The caller performs the external work: it asks `pending_stage` which
//! adapter to run, runs it, and hands the outcome back through the
//! matching `finish_*` method, sending the returned emissions on its
//! progress channel.  Every decision in between is verified against the
//! spec-level transition functions below.

use vstd::prelude::*;
use vstd::string::*;
use crate::config::AudioSRConfig;
use crate::config::PathsConfig;
use crate::error::DecodeError;
use crate::error::DownloadError;
use crate::error::EncodeError;
use crate::error::MetadataError;
use crate::error::NormalizeError;
use crate::error::UpscaleError;
use crate::error::YtAudioError;
use crate::error::config_error_msg;
use crate::error::decode_error_msg;
use crate::error::download_error_msg;
use crate::error::encode_error_msg;
use crate::error::metadata_error_msg;
use crate::error::normalize_error_msg;
use crate::error::upscale_error_msg;
use crate::format::format_name_spec;
use crate::format::method_name_spec;
use crate::metadata::final_filename;
use crate::metadata::final_filename_spec;
use crate::strutil::path_join;
use crate::strutil::path_join_spec;
use crate::upscale::UpscaleMethod;

pub use crate::format::OutputFormat;
pub use crate::format::UpscaleQuality;

verus! {

/// The per-run configuration: it fully determines the pipeline's
/// behavior, and nothing is re-resolved during a run.  The loudness
/// target is a count of tenths, so -140 stands for -14.0.
#[derive(Debug, Clone)]
pub struct PipelineConfig {
    pub url: String,
    pub output_dir: String,
    pub format: OutputFormat,
    pub enhance: bool,
    pub upscale_quality: UpscaleQuality,
    pub normalize: bool,
    pub target_lufs_tenths: i32,
    pub keep_temp: bool,
    pub paths: PathsConfig,
}

/// The abstract value of a configuration.
#[verifier::ext_equal]
pub struct ConfigModel {
    pub url: Seq<char>,
    pub output_dir: Seq<char>,
    pub format: OutputFormat,
    pub enhance: bool,
    pub upscale_quality: UpscaleQuality,
    pub normalize: bool,
    pub target_lufs_tenths: i32,
    pub keep_temp: bool,
}

impl View for PipelineConfig {
    type V = ConfigModel;

    open spec fn view(&self) -> ConfigModel {
        ConfigModel {
            url: self.url@,
            output_dir: self.output_dir@,
            format: self.format,
            enhance: self.enhance,
            upscale_quality: self.upscale_quality,
            normalize: self.normalize,
            target_lufs_tenths: self.target_lufs_tenths,
            keep_temp: self.keep_temp,
        }
    }
}

/// A progress event, with fractional progress as a count of permille.
#[derive(Debug, Clone)]
pub enum PipelineStage {
    Downloading { progress_permille: u32, title: String },
    Decoding,
    Upscaling { method: String, progress_permille: u32 },
    Normalizing { target_lufs_tenths: i32 },
    Encoding { format: String },
    EmbeddingMetadata,
    Complete { output: String, elapsed_ms: u64 },
    Failed { stage: String, error: String },
}

/// The abstract value of a progress event.
#[verifier::ext_equal]
pub enum StageEventModel {
    Downloading { progress_permille: u32, title: Seq<char> },
    Decoding,
    Upscaling { method: Seq<char>, progress_permille: u32 },
    Normalizing { target_lufs_tenths: i32 },
    Encoding { format: Seq<char> },
    EmbeddingMetadata,
    Complete { output: Seq<char>, elapsed_ms: u64 },
    Failed { stage: Seq<char>, error: Seq<char> },
}

impl View for PipelineStage {
    type V = StageEventModel;

    open spec fn view(&self) -> StageEventModel {
        match self {
            PipelineStage::Downloading { progress_permille, title } => {
                StageEventModel::Downloading {
                    progress_permille: *progress_permille,
                    title: title@,
                }
            },
            PipelineStage::Decoding => StageEventModel::Decoding,
            PipelineStage::Upscaling { method, progress_permille } => {
                StageEventModel::Upscaling {
                    method: method@,
                    progress_permille: *progress_permille,
                }
            },
            PipelineStage::Normalizing { target_lufs_tenths } => {
                StageEventModel::Normalizing { target_lufs_tenths: *target_lufs_tenths }
            },
            PipelineStage::Encoding { format } => {
                StageEventModel::Encoding { format: format@ }
            },
            PipelineStage::EmbeddingMetadata => StageEventModel::EmbeddingMetadata,
            PipelineStage::Complete { output, elapsed_ms } => {
                StageEventModel::Complete { output: output@, elapsed_ms: *elapsed_ms }
            },
            PipelineStage::Failed { stage, error } => {
                StageEventModel::Failed { stage: stage@, error: error@ }
            },
        }
    }
}

/// How an event is handed to the progress channel: a must-deliver send
/// suspends until the consumer accepts it; a best-effort send never
/// suspends and may drop the event.
#[derive(Debug, Clone, Copy, PartialEq, Eq, Structural)]
pub enum Delivery {
    MustDeliver,
    BestEffort,
}

/// An event paired with its required delivery mode.
#[derive(Debug, Clone)]
pub struct Emission {
    pub event: PipelineStage,
    pub delivery: Delivery,
}

/// The abstract value of an emission.
#[verifier::ext_equal]
pub struct EmissionModel {
    pub event: StageEventModel,
    pub delivery: Delivery,
}

impl View for Emission {
    type V = EmissionModel;

    open spec fn view(&self) -> EmissionModel {
        EmissionModel { event: self.event@, delivery: self.delivery }
    }
}

/// The abstract values of a list of emissions.
pub open spec fn em_views(s: Seq<Emission>) -> Seq<EmissionModel> {
    s.map_values(|e: Emission| e@)
}

/// Where a run stands: which adapter outcome it waits for, or that it
/// has finished.
#[derive(Debug, Clone, Copy, PartialEq, Eq, Structural)]
pub enum Phase {
    Ready,
    AwaitDownload,
    AwaitDecode,
    AwaitUpscale,
    AwaitNormalize,
    AwaitEncode,
    AwaitEmbed,
    Done,
}

/// The stage adapter the caller must run next.
#[derive(Debug, Clone, Copy, PartialEq, Eq, Structural)]
pub enum StageKind {
    Download,
    Decode,
    Upscale,
    Normalize,
    Encode,
    Embed,
}

/// What to do with the scratch directory when a run ends.
#[derive(Debug, Clone, Copy, PartialEq, Eq, Structural)]
pub enum ScopeDisposal {
    Release,
    Retain,
}

/// The recorded outcome of a run: still pending, a final artifact path,
/// or the failing stage with its message.
#[verifier::ext_equal]
pub enum OutcomeModel {
    Pending,
    Succeeded { output: Seq<char> },
    Failed { stage: Seq<char>, message: Seq<char> },
}

/// The stage name a wrapped failure carries.
pub open spec fn failure_stage_of(e: YtAudioError) -> Seq<char> {
    match e {
        YtAudioError::Download(_) => "download"@,
        YtAudioError::Decode(_) => "decode"@,
        YtAudioError::Upscale(_) => "upscale"@,
        YtAudioError::Normalize(_) => "normalize"@,
        YtAudioError::Encode(_) => "encode"@,
        YtAudioError::Metadata(_) => "metadata"@,
        YtAudioError::Config(_) => "config"@,
        YtAudioError::Io(_) => "io"@,
        YtAudioError::Pipeline(_) => "pipeline"@,
    }
}

/// The underlying message a wrapped failure carries.
pub open spec fn failure_message_of(e: YtAudioError) -> Seq<char> {
    match e {
        YtAudioError::Download(d) => download_error_msg(d),
        YtAudioError::Decode(d) => decode_error_msg(d),
        YtAudioError::Upscale(u) => upscale_error_msg(u),
        YtAudioError::Normalize(n) => normalize_error_msg(n),
        YtAudioError::Encode(en) => encode_error_msg(en),
        YtAudioError::Metadata(m) => metadata_error_msg(m),
        YtAudioError::Config(c) => config_error_msg(c),
        YtAudioError::Io(m) => m@,
        YtAudioError::Pipeline(m) => m@,
    }
}

/// The underlying message of a wrapped failure.
pub fn inner_message(e: &YtAudioError) -> (r: String)
    ensures
        r@ == failure_message_of(*e),
{
    match e {
        YtAudioError::Download(d) => d.message(),
        YtAudioError::Decode(d) => d.message(),
        YtAudioError::Upscale(u) => u.message(),
        YtAudioError::Normalize(n) => n.message(),
        YtAudioError::Encode(en) => en.message(),
        YtAudioError::Metadata(m) => m.message(),
        YtAudioError::Config(c) => c.message(),
        YtAudioError::Io(m) => m.clone(),
        YtAudioError::Pipeline(m) => m.clone(),
    }
}

/// The abstract value of a recorded outcome.
pub open spec fn outcome_model(o: Option<Result<String, YtAudioError>>) -> OutcomeModel {
    match o {
        None => OutcomeModel::Pending,
        Some(Ok(p)) => OutcomeModel::Succeeded { output: p@ },
        Some(Err(e)) => OutcomeModel::Failed {
            stage: failure_stage_of(e),
            message: failure_message_of(e),
        },
    }
}

/// The abstract state of a run.
#[verifier::ext_equal]
pub struct PipelineModel {
    pub config: ConfigModel,
    pub phase: Phase,
    pub title: Seq<char>,
    pub emitted: Seq<EmissionModel>,
    pub outcome: OutcomeModel,
}

/// A terminal event closes the stream.
pub open spec fn is_terminal(e: StageEventModel) -> bool {
    e is Complete || e is Failed
}

/// A must-deliver emission of `e`.
pub open spec fn must(e: StageEventModel) -> EmissionModel {
    EmissionModel { event: e, delivery: Delivery::MustDeliver }
}

/// A best-effort emission of `e`.
pub open spec fn best_effort(e: StageEventModel) -> EmissionModel {
    EmissionModel { event: e, delivery: Delivery::BestEffort }
}

/// The fresh state for a configuration: nothing emitted, outcome pending.
pub open spec fn model_init(c: ConfigModel) -> PipelineModel {
    PipelineModel {
        config: c,
        phase: Phase::Ready,
        title: Seq::empty(),
        emitted: Seq::empty(),
        outcome: OutcomeModel::Pending,
    }
}

/// Append emissions to a state.
pub open spec fn emit(m: PipelineModel, es: Seq<EmissionModel>) -> PipelineModel {
    PipelineModel { emitted: m.emitted + es, ..m }
}

/// The failure transition: one best-effort `Failed` event, then the run
/// is over with the failing stage recorded.
pub open spec fn step_fail(m: PipelineModel, stage: Seq<char>, message: Seq<char>) -> (
    PipelineModel,
    Seq<EmissionModel>,
) {
    let es = seq![best_effort(StageEventModel::Failed { stage, error: message })];
    (
        PipelineModel {
            phase: Phase::Done,
            emitted: m.emitted + es,
            outcome: OutcomeModel::Failed { stage, message },
            ..m
        },
        es,
    )
}

/// Starting a run announces the download stage.
pub open spec fn step_start(m: PipelineModel) -> (PipelineModel, Seq<EmissionModel>) {
    let es = seq![
        must(
            StageEventModel::Downloading {
                progress_permille: 0,
                title: "Starting download..."@,
            },
        ),
    ];
    (PipelineModel { phase: Phase::AwaitDownload, emitted: m.emitted + es, ..m }, es)
}

/// The announcement that follows a successful decode: the first optional
/// stage that is switched on, else encoding.
pub open spec fn announce_after_decode(c: ConfigModel) -> (Phase, Seq<EmissionModel>) {
    if c.enhance {
        (
            Phase::AwaitUpscale,
            seq![
                must(
                    StageEventModel::Upscaling {
                        method: method_name_spec(c.upscale_quality),
                        progress_permille: 0,
                    },
                ),
            ],
        )
    } else if c.normalize {
        (
            Phase::AwaitNormalize,
            seq![
                must(StageEventModel::Normalizing { target_lufs_tenths: c.target_lufs_tenths }),
            ],
        )
    } else {
        (
            Phase::AwaitEncode,
            seq![must(StageEventModel::Encoding { format: format_name_spec(c.format) })],
        )
    }
}

/// The announcement that follows a successful upscale: normalization when
/// it is switched on, else encoding.
pub open spec fn announce_after_upscale(c: ConfigModel) -> (Phase, Seq<EmissionModel>) {
    if c.normalize {
        (
            Phase::AwaitNormalize,
            seq![
                must(StageEventModel::Normalizing { target_lufs_tenths: c.target_lufs_tenths }),
            ],
        )
    } else {
        (
            Phase::AwaitEncode,
            seq![must(StageEventModel::Encoding { format: format_name_spec(c.format) })],
        )
    }
}

/// A finished download reports the track title and announces decoding;
/// a failed one ends the run.
pub open spec fn step_download(m: PipelineModel, r: Result<Seq<char>, Seq<char>>) -> (
    PipelineModel,
    Seq<EmissionModel>,
) {
    match r {
        Ok(title) => {
            let es = seq![
                must(StageEventModel::Downloading { progress_permille: 1000, title }),
                must(StageEventModel::Decoding),
            ];
            (PipelineModel { phase: Phase::AwaitDecode, title, emitted: m.emitted + es, ..m }, es)
        },
        Err(msg) => step_fail(m, "download"@, msg),
    }
}

/// A finished decode announces the next stage; a failed one ends the run.
pub open spec fn step_decode(m: PipelineModel, r: Result<(), Seq<char>>) -> (
    PipelineModel,
    Seq<EmissionModel>,
) {
    match r {
        Ok(_) => {
            let (ph, es) = announce_after_decode(m.config);
            (PipelineModel { phase: ph, emitted: m.emitted + es, ..m }, es)
        },
        Err(msg) => step_fail(m, "decode"@, msg),
    }
}

/// A finished upscale reports full progress and announces the next
/// stage; a failed one ends the run.
pub open spec fn step_upscale(m: PipelineModel, r: Result<(), Seq<char>>) -> (
    PipelineModel,
    Seq<EmissionModel>,
) {
    match r {
        Ok(_) => {
            let done = seq![
                must(
                    StageEventModel::Upscaling {
                        method: method_name_spec(m.config.upscale_quality),
                        progress_permille: 1000,
                    },
                ),
            ];
            let (ph, next) = announce_after_upscale(m.config);
            let es = done + next;
            (PipelineModel { phase: ph, emitted: m.emitted + es, ..m }, es)
        },
        Err(msg) => step_fail(m, "upscale"@, msg),
    }
}

/// A finished normalization announces encoding; a failed one ends the
/// run.
pub open spec fn step_normalize(m: PipelineModel, r: Result<(), Seq<char>>) -> (
    PipelineModel,
    Seq<EmissionModel>,
) {
    match r {
        Ok(_) => {
            let es = seq![
                must(StageEventModel::Encoding { format: format_name_spec(m.config.format) }),
            ];
            (PipelineModel { phase: Phase::AwaitEncode, emitted: m.emitted + es, ..m }, es)
        },
        Err(msg) => step_fail(m, "normalize"@, msg),
    }
}

/// A finished encode announces metadata embedding; a failed one ends the
/// run.
pub open spec fn step_encode(m: PipelineModel, r: Result<(), Seq<char>>) -> (
    PipelineModel,
    Seq<EmissionModel>,
) {
    match r {
        Ok(_) => {
            let es = seq![must(StageEventModel::EmbeddingMetadata)];
            (PipelineModel { phase: Phase::AwaitEmbed, emitted: m.emitted + es, ..m }, es)
        },
        Err(msg) => step_fail(m, "encode"@, msg),
    }
}

/// The final artifact path of a run: the deterministic filename under the
/// configured output directory.
pub open spec fn final_path_spec(m: PipelineModel) -> Seq<char> {
    path_join_spec(m.config.output_dir, final_filename_spec(m.title, m.config.format))
}

/// A finished embed closes the run with a must-deliver `Complete` event
/// carrying the final path; a failed one ends the run.
pub open spec fn step_embed(m: PipelineModel, r: Result<(), Seq<char>>, elapsed_ms: u64) -> (
    PipelineModel,
    Seq<EmissionModel>,
) {
    match r {
        Ok(_) => {
            let path = final_path_spec(m);
            let es = seq![must(StageEventModel::Complete { output: path, elapsed_ms })];
            (
                PipelineModel {
                    phase: Phase::Done,
                    emitted: m.emitted + es,
                    outcome: OutcomeModel::Succeeded { output: path },
                    ..m
                },
                es,
            )
        },
        Err(msg) => step_fail(m, "metadata"@, msg),
    }
}

/// The protocol invariant of a run's state:
/// - a terminal event can only stand last, and only once the run is done;
/// - a done run's outcome agrees with its last event, `Complete` sent
///   must-deliver on success and `Failed` sent best-effort on failure;
/// - an emission is best-effort exactly when it is a `Failed` event;
/// - the optional stages' events appear only when their flag is set, and
///   a successful run of a flagged configuration has emitted them.
pub open spec fn pipeline_inv(m: PipelineModel) -> bool {
    &&& (forall|k: int|
        0 <= k < m.emitted.len() && is_terminal(#[trigger] m.emitted[k].event) ==> k
            == m.emitted.len() - 1)
    &&& (m.phase != Phase::Done ==> forall|k: int|
        0 <= k < m.emitted.len() ==> !is_terminal(#[trigger] m.emitted[k].event))
    &&& (m.phase == Phase::Done <==> !(m.outcome is Pending))
    &&& (match m.outcome {
        OutcomeModel::Pending => true,
        OutcomeModel::Succeeded { output } => m.emitted.len() > 0 && m.emitted.last().delivery
            == Delivery::MustDeliver && (match m.emitted.last().event {
            StageEventModel::Complete { output: o, elapsed_ms: _ } => o == output,
            _ => false,
        }),
        OutcomeModel::Failed { stage, message } => m.emitted.len() > 0 && m.emitted.last()
            == best_effort(StageEventModel::Failed { stage, error: message }),
    })
    &&& (forall|k: int|
        0 <= k < m.emitted.len() ==> ((#[trigger] m.emitted[k].delivery) == Delivery::BestEffort
            <==> m.emitted[k].event is Failed))
    &&& (!m.config.enhance ==> forall|k: int|
        0 <= k < m.emitted.len() ==> !((#[trigger] m.emitted[k].event) is Upscaling))
    &&& (!m.config.normalize ==> forall|k: int|
        0 <= k < m.emitted.len() ==> !((#[trigger] m.emitted[k].event) is Normalizing))
    &&& (m.phase == Phase::AwaitUpscale ==> m.config.enhance && (exists|k: int|
        0 <= k < m.emitted.len() && (#[trigger] m.emitted[k].event) is Upscaling))
    &&& (m.phase == Phase::AwaitNormalize ==> m.config.normalize && (exists|k: int|
        0 <= k < m.emitted.len() && (#[trigger] m.emitted[k].event) is Normalizing))
    &&& (m.config.enhance && (m.phase == Phase::AwaitNormalize || m.phase == Phase::AwaitEncode
        || m.phase == Phase::AwaitEmbed || m.outcome is Succeeded) ==> exists|k: int|
        0 <= k < m.emitted.len() && (#[trigger] m.emitted[k].event) is Upscaling)
    &&& (m.config.normalize && (m.phase == Phase::AwaitEncode || m.phase == Phase::AwaitEmbed
        || m.outcome is Succeeded) ==> exists|k: int|
        0 <= k < m.emitted.len() && (#[trigger] m.emitted[k].event) is Normalizing)
}

/// The orchestrator of one run.
pub struct Pipeline {
    config: PipelineConfig,
    phase: Phase,
    title: String,
    outcome: Option<Result<String, YtAudioError>>,
    emitted: Ghost<Seq<EmissionModel>>,
}

impl View for Pipeline {
    type V = PipelineModel;

    closed spec fn view(&self) -> PipelineModel {
        PipelineModel {
            config: self.config@,
            phase: self.phase,
            title: self.title@,
            emitted: self.emitted@,
            outcome: outcome_model(self.outcome),
        }
    }
}

impl Pipeline {
    /// The state is well-formed: the protocol invariant holds.
    pub open spec fn wf(&self) -> bool {
        pipeline_inv(self@)
    }

    /// A fresh run for a configuration.  Nothing executes and nothing is
    /// emitted until `start` is called.
    pub fn new(config: PipelineConfig) -> (r: Self)
        ensures
            r.wf(),
            r@ == model_init(config@),
    {
        let r = Pipeline {
            config,
            phase: Phase::Ready,
            title: String::new(),
            outcome: None,
            emitted: Ghost(Seq::empty()),
        };
        proof {
            assert(r@ =~= model_init(r.config@));
        }
        r
    }

    /// The configuration this run was built from.
    pub fn config(&self) -> (r: &PipelineConfig)
        ensures
            r@ == self@.config,
    {
        &self.config
    }

    /// Which stage adapter the caller must run next, if any.
    pub fn pending_stage(&self) -> (r: Option<StageKind>)
        ensures
            r == match self@.phase {
                Phase::Ready => None::<StageKind>,
                Phase::AwaitDownload => Some(StageKind::Download),
                Phase::AwaitDecode => Some(StageKind::Decode),
                Phase::AwaitUpscale => Some(StageKind::Upscale),
                Phase::AwaitNormalize => Some(StageKind::Normalize),
                Phase::AwaitEncode => Some(StageKind::Encode),
                Phase::AwaitEmbed => Some(StageKind::Embed),
                Phase::Done => None::<StageKind>,
            },
    {
        match self.phase {
            Phase::Ready => None,
            Phase::AwaitDownload => Some(StageKind::Download),
            Phase::AwaitDecode => Some(StageKind::Decode),
            Phase::AwaitUpscale => Some(StageKind::Upscale),
            Phase::AwaitNormalize => Some(StageKind::Normalize),
            Phase::AwaitEncode => Some(StageKind::Encode),
            Phase::AwaitEmbed => Some(StageKind::Embed),
            Phase::Done => None,
        }
    }

    /// Whether the run has finished.
    pub fn is_done(&self) -> (r: bool)
        ensures
            r == (self@.phase == Phase::Done),
    {
        match self.phase {
            Phase::Done => true,
            _ => false,
        }
    }

    /// The recorded outcome: `None` while the run is still going.
    pub fn outcome(&self) -> (r: &Option<Result<String, YtAudioError>>)
        ensures
            outcome_model(*r) == self@.outcome,
    {
        &self.outcome
    }

    /// Start the run: announce the download stage.
    pub fn start(&mut self) -> (out: Vec<Emission>)
        requires
            old(self).wf(),
            old(self)@.phase == Phase::Ready,
        ensures
            final(self).wf(),
            final(self)@ == step_start(old(self)@).0,
            em_views(out@) == step_start(old(self)@).1,
    {
        let mut out: Vec<Emission> = Vec::new();
        out.push(
            Emission {
                event: PipelineStage::Downloading {
                    progress_permille: 0,
                    title: String::from_str("Starting download..."),
                },
                delivery: Delivery::MustDeliver,
            },
        );
        self.phase = Phase::AwaitDownload;
        proof {
            self.emitted@ = self.emitted@ + em_views(out@);
        }
        proof {
            assert(em_views(out@) =~= step_start(old(self)@).1);
            assert(self@ =~= step_start(old(self)@).0);
        }
        out
    }

    fn fail_with(&mut self, stage: &str, e: YtAudioError) -> (out: Vec<Emission>)
        requires
            stage@ == failure_stage_of(e),
        ensures
            final(self)@ == (PipelineModel {
                phase: Phase::Done,
                emitted: old(self)@.emitted + seq![
                    best_effort(
                        StageEventModel::Failed {
                            stage: stage@,
                            error: failure_message_of(e),
                        },
                    ),
                ],
                outcome: OutcomeModel::Failed {
                    stage: stage@,
                    message: failure_message_of(e),
                },
                ..old(self)@
            }),
            em_views(out@) == (seq![
                best_effort(
                    StageEventModel::Failed { stage: stage@, error: failure_message_of(e) },
                ),
            ]),
    {
        let mut out: Vec<Emission> = Vec::new();
        out.push(
            Emission {
                event: PipelineStage::Failed {
                    stage: String::from_str(stage),
                    error: inner_message(&e),
                },
                delivery: Delivery::BestEffort,
            },
        );
        self.phase = Phase::Done;
        self.outcome = Some(Err(e));
        proof {
            self.emitted@ = self.emitted@ + em_views(out@);
        }
        proof {
            assert(em_views(out@) =~= seq![
                best_effort(
                    StageEventModel::Failed { stage: stage@, error: failure_message_of(e) },
                ),
            ]);
            assert(self@ =~= PipelineModel {
                phase: Phase::Done,
                emitted: old(self)@.emitted + em_views(out@),
                outcome: OutcomeModel::Failed {
                    stage: stage@,
                    message: failure_message_of(e),
                },
                ..old(self)@
            });
        }
        out
    }

    /// Record the download adapter's outcome: the track title on success,
    /// its failure otherwise.
    pub fn finish_download(&mut self, r: Result<String, DownloadError>) -> (out: Vec<Emission>)
        requires
            old(self).wf(),
            old(self)@.phase == Phase::AwaitDownload,
        ensures
            final(self).wf(),
            final(self)@ == step_download(old(self)@, result_model_download(&r)).0,
            em_views(out@) == step_download(old(self)@, result_model_download(&r)).1,
    {
        match r {
            Ok(title) => {
                let mut out: Vec<Emission> = Vec::new();
                out.push(
                    Emission {
                        event: PipelineStage::Downloading {
                            progress_permille: 1000,
                            title: title.clone(),
                        },
                        delivery: Delivery::MustDeliver,
                    },
                );
                out.push(
                    Emission { event: PipelineStage::Decoding, delivery: Delivery::MustDeliver },
                );
                self.phase = Phase::AwaitDecode;
                self.title = title;
                proof {
                    self.emitted@ = self.emitted@ + em_views(out@);
                }
                proof {
                    let ghost rm = result_model_download(&r);
                    assert(em_views(out@) =~= step_download(old(self)@, rm).1);
                    assert(self@ =~= step_download(old(self)@, rm).0);
                }
                out
            },
            Err(e) => {
                let out = self.fail_with("download", YtAudioError::Download(e));
                proof {
                    let ghost rm = result_model_download(&r);
                    assert(em_views(out@) =~= step_download(old(self)@, rm).1);
                    assert(self@ =~= step_download(old(self)@, rm).0);
                }
                out
            },
        }
    }

    /// Record the decode adapter's outcome.
    pub fn finish_decode(&mut self, r: Result<(), DecodeError>) -> (out: Vec<Emission>)
        requires
            old(self).wf(),
            old(self)@.phase == Phase::AwaitDecode,
        ensures
            final(self).wf(),
            final(self)@ == step_decode(old(self)@, result_model_decode(&r)).0,
            em_views(out@) == step_decode(old(self)@, result_model_decode(&r)).1,
    {
        match r {
            Ok(_) => {
                let out = self.announce_next_after_decode();
                proof {
                    let ghost rm = result_model_decode(&r);
                    assert(em_views(out@) =~= step_decode(old(self)@, rm).1);
                    assert(self@ =~= step_decode(old(self)@, rm).0);

                    let ghost base = old(self)@.emitted;
                    assert forall|k: int| 0 <= k < base.len() implies #[trigger] self@.emitted[k]
                        == base[k] by {
                        assert(self@.emitted == base + em_views(out@));
                    }
                    if old(self)@.config.enhance {
                        assert(self@.emitted[base.len() as int].event is Upscaling);
                    } else if old(self)@.config.normalize {
                        assert(self@.emitted[base.len() as int].event is Normalizing);
                    }
                }
                out
            },
            Err(e) => {
                let out = self.fail_with("decode", YtAudioError::Decode(e));
                proof {
                    let ghost rm = result_model_decode(&r);
                    assert(em_views(out@) =~= step_decode(old(self)@, rm).1);
                    assert(self@ =~= step_decode(old(self)@, rm).0);
                }
                out
            },
        }
    }

    fn announce_next_after_decode(&mut self) -> (out: Vec<Emission>)
        ensures
            final(self)@ == (PipelineModel {
                phase: announce_after_decode(old(self)@.config).0,
                emitted: old(self)@.emitted + announce_after_decode(old(self)@.config).1,
                ..old(self)@
            }),
            em_views(out@) == announce_after_decode(old(self)@.config).1,
    {
        let mut out: Vec<Emission> = Vec::new();
        if self.config.enhance {
            out.push(
                Emission {
                    event: PipelineStage::Upscaling {
                        method: String::from_str(self.config.upscale_quality.method_name()),
                        progress_permille: 0,
                    },
                    delivery: Delivery::MustDeliver,
                },
            );
            self.phase = Phase::AwaitUpscale;
        } else if self.config.normalize {
            out.push(
                Emission {
                    event: PipelineStage::Normalizing {
                        target_lufs_tenths: self.config.target_lufs_tenths,
                    },
                    delivery: Delivery::MustDeliver,
                },
            );
            self.phase = Phase::AwaitNormalize;
        } else {
            out.push(
                Emission {
                    event: PipelineStage::Encoding {
                        format: String::from_str(self.config.format.display_name()),
                    },
                    delivery: Delivery::MustDeliver,
                },
            );
            self.phase = Phase::AwaitEncode;
        }
        proof {
            self.emitted@ = self.emitted@ + em_views(out@);
        }
        proof {
            assert(em_views(out@) =~= announce_after_decode(old(self)@.config).1);
            assert(self@ =~= PipelineModel {
                phase: announce_after_decode(old(self)@.config).0,
                emitted: old(self)@.emitted + announce_after_decode(old(self)@.config).1,
                ..old(self)@
            });
        }
        out
    }

    /// Record the upscale adapter's outcome.
    pub fn finish_upscale(&mut self, r: Result<(), UpscaleError>) -> (out: Vec<Emission>)
        requires
            old(self).wf(),
            old(self)@.phase == Phase::AwaitUpscale,
        ensures
            final(self).wf(),
            final(self)@ == step_upscale(old(self)@, result_model_upscale(&r)).0,
            em_views(out@) == step_upscale(old(self)@, result_model_upscale(&r)).1,
    {
        match r {
            Ok(_) => {
                let mut out: Vec<Emission> = Vec::new();
                out.push(
                    Emission {
                        event: PipelineStage::Upscaling {
                            method: String::from_str(self.config.upscale_quality.method_name()),
                            progress_permille: 1000,
                        },
                        delivery: Delivery::MustDeliver,
                    },
                );
                if self.config.normalize {
                    out.push(
                        Emission {
                            event: PipelineStage::Normalizing {
                                target_lufs_tenths: self.config.target_lufs_tenths,
                            },
                            delivery: Delivery::MustDeliver,
                        },
                    );
                    self.phase = Phase::AwaitNormalize;
                } else {
                    out.push(
                        Emission {
                            event: PipelineStage::Encoding {
                                format: String::from_str(self.config.format.display_name()),
                            },
                            delivery: Delivery::MustDeliver,
                        },
                    );
                    self.phase = Phase::AwaitEncode;
                }
                proof {
                    self.emitted@ = self.emitted@ + em_views(out@);
                }
                proof {
                    let ghost rm = result_model_upscale(&r);
                    assert(em_views(out@) =~= step_upscale(old(self)@, rm).1);
                    assert(self@ =~= step_upscale(old(self)@, rm).0);

                    let ghost base = old(self)@.emitted;
                    assert forall|k: int| 0 <= k < base.len() implies #[trigger] self@.emitted[k]
                        == base[k] by {
                        assert(self@.emitted == base + em_views(out@));
                    }
                    assert(self@.emitted[base.len() as int].event is Upscaling);
                    if old(self)@.config.normalize {
                        assert(self@.emitted[base.len() as int + 1].event is Normalizing);
                    }
                }
                out
            },
            Err(e) => {
                let out = self.fail_with("upscale", YtAudioError::Upscale(e));
                proof {
                    let ghost rm = result_model_upscale(&r);
                    assert(em_views(out@) =~= step_upscale(old(self)@, rm).1);
                    assert(self@ =~= step_upscale(old(self)@, rm).0);
                }
                out
            },
        }
    }

    /// Record the normalize adapter's outcome.
    pub fn finish_normalize(&mut self, r: Result<(), NormalizeError>) -> (out: Vec<Emission>)
        requires
            old(self).wf(),
            old(self)@.phase == Phase::AwaitNormalize,
        ensures
            final(self).wf(),
            final(self)@ == step_normalize(old(self)@, result_model_normalize(&r)).0,
            em_views(out@) == step_normalize(old(self)@, result_model_normalize(&r)).1,
    {
        match r {
            Ok(_) => {
                let mut out: Vec<Emission> = Vec::new();
                out.push(
                    Emission {
                        event: PipelineStage::Encoding {
                            format: String::from_str(self.config.format.display_name()),
                        },
                        delivery: Delivery::MustDeliver,
                    },
                );
                self.phase = Phase::AwaitEncode;
                proof {
                    self.emitted@ = self.emitted@ + em_views(out@);
                }
                proof {
                    let ghost rm = result_model_normalize(&r);
                    assert(em_views(out@) =~= step_normalize(old(self)@, rm).1);
                    assert(self@ =~= step_normalize(old(self)@, rm).0);

                    let ghost base = old(self)@.emitted;
                    assert forall|k: int| 0 <= k < base.len() implies #[trigger] self@.emitted[k]
                        == base[k] by {
                        assert(self@.emitted == base + em_views(out@));
                    }
                    if old(self)@.config.enhance {
                        assert(exists|k: int|
                            0 <= k < base.len() && (#[trigger] base[k].event) is Upscaling);
                        let k0 = choose|k: int|
                            0 <= k < base.len() && (#[trigger] base[k].event) is Upscaling;
                        assert(self@.emitted[k0].event is Upscaling);
                    }
                    assert(exists|k: int|
                        0 <= k < base.len() && (#[trigger] base[k].event) is Normalizing);
                    let k1 = choose|k: int|
                        0 <= k < base.len() && (#[trigger] base[k].event) is Normalizing;
                    assert(self@.emitted[k1].event is Normalizing);
                }
                out
            },
            Err(e) => {
                let out = self.fail_with("normalize", YtAudioError::Normalize(e));
                proof {
                    let ghost rm = result_model_normalize(&r);
                    assert(em_views(out@) =~= step_normalize(old(self)@, rm).1);
                    assert(self@ =~= step_normalize(old(self)@, rm).0);
                }
                out
            },
        }
    }

    /// Record the encode adapter's outcome.
    pub fn finish_encode(&mut self, r: Result<(), EncodeError>) -> (out: Vec<Emission>)
        requires
            old(self).wf(),
            old(self)@.phase == Phase::AwaitEncode,
        ensures
            final(self).wf(),
            final(self)@ == step_encode(old(self)@, result_model_encode(&r)).0,
            em_views(out@) == step_encode(old(self)@, result_model_encode(&r)).1,
    {
        match r {
            Ok(_) => {
                let mut out: Vec<Emission> = Vec::new();
                out.push(
                    Emission {
                        event: PipelineStage::EmbeddingMetadata,
                        delivery: Delivery::MustDeliver,
                    },
                );
                self.phase = Phase::AwaitEmbed;
                proof {
                    self.emitted@ = self.emitted@ + em_views(out@);
                }
                proof {
                    let ghost rm = result_model_encode(&r);
                    assert(em_views(out@) =~= step_encode(old(self)@, rm).1);
                    assert(self@ =~= step_encode(old(self)@, rm).0);

                    let ghost base = old(self)@.emitted;
                    assert forall|k: int| 0 <= k < base.len() implies #[trigger] self@.emitted[k]
                        == base[k] by {
                        assert(self@.emitted == base + em_views(out@));
                    }
                    if old(self)@.config.enhance {
                        assert(exists|k: int|
                            0 <= k < base.len() && (#[trigger] base[k].event) is Upscaling);
                        let k0 = choose|k: int|
                            0 <= k < base.len() && (#[trigger] base[k].event) is Upscaling;
                        assert(self@.emitted[k0].event is Upscaling);
                    }
                    if old(self)@.config.normalize {
                        assert(exists|k: int|
                            0 <= k < base.len() && (#[trigger] base[k].event) is Normalizing);
                        let k1 = choose|k: int|
                            0 <= k < base.len() && (#[trigger] base[k].event) is Normalizing;
                        assert(self@.emitted[k1].event is Normalizing);
                    }
                }
                out
            },
            Err(e) => {
                let out = self.fail_with("encode", YtAudioError::Encode(e));
                proof {
                    let ghost rm = result_model_encode(&r);
                    assert(em_views(out@) =~= step_encode(old(self)@, rm).1);
                    assert(self@ =~= step_encode(old(self)@, rm).0);
                }
                out
            },
        }
    }

    /// The final artifact path, available once the run waits for the
    /// embed adapter, which writes to it.
    pub fn final_path(&self) -> (r: String)
        requires
            self@.phase == Phase::AwaitEmbed,
        ensures
            r@ == final_path_spec(self@),
    {
        let name = final_filename(self.title.as_str(), self.config.format);
        path_join(self.config.output_dir.as_str(), name.as_str())
    }

    /// Record the embed adapter's outcome; a success closes the run with
    /// the final path and the elapsed time the caller measured.
    pub fn finish_embed(&mut self, r: Result<(), MetadataError>, elapsed_ms: u64) -> (out: Vec<
        Emission,
    >)
        requires
            old(self).wf(),
            old(self)@.phase == Phase::AwaitEmbed,
        ensures
            final(self).wf(),
            final(self)@ == step_embed(old(self)@, result_model_metadata(&r), elapsed_ms).0,
            em_views(out@) == step_embed(old(self)@, result_model_metadata(&r), elapsed_ms).1,
    {
        match r {
            Ok(_) => {
                let path = self.final_path();
                let mut out: Vec<Emission> = Vec::new();
                out.push(
                    Emission {
                        event: PipelineStage::Complete { output: path.clone(), elapsed_ms },
                        delivery: Delivery::MustDeliver,
                    },
                );
                self.phase = Phase::Done;
                self.outcome = Some(Ok(path));
                proof {
                    self.emitted@ = self.emitted@ + em_views(out@);
                }
                proof {
                    let ghost rm = result_model_metadata(&r);
                    assert(em_views(out@) =~= step_embed(old(self)@, rm, elapsed_ms).1);
                    assert(self@ =~= step_embed(old(self)@, rm, elapsed_ms).0);

                    let ghost base = old(self)@.emitted;
                    assert forall|k: int| 0 <= k < base.len() implies #[trigger] self@.emitted[k]
                        == base[k] by {
                        assert(self@.emitted == base + em_views(out@));
                    }
                    if old(self)@.config.enhance {
                        assert(exists|k: int|
                            0 <= k < base.len() && (#[trigger] base[k].event) is Upscaling);
                        let k0 = choose|k: int|
                            0 <= k < base.len() && (#[trigger] base[k].event) is Upscaling;
                        assert(self@.emitted[k0].event is Upscaling);
                    }
                    if old(self)@.config.normalize {
                        assert(exists|k: int|
                            0 <= k < base.len() && (#[trigger] base[k].event) is Normalizing);
                        let k1 = choose|k: int|
                            0 <= k < base.len() && (#[trigger] base[k].event) is Normalizing;
                        assert(self@.emitted[k1].event is Normalizing);
                    }
                }
                out
            },
            Err(e) => {
                let out = self.fail_with("metadata", YtAudioError::Metadata(e));
                proof {
                    let ghost rm = result_model_metadata(&r);
                    assert(em_views(out@) =~= step_embed(old(self)@, rm, elapsed_ms).1);
                    assert(self@ =~= step_embed(old(self)@, rm, elapsed_ms).0);
                }
                out
            },
        }
    }

    /// The upscaling technique this run uses, with the configured tuning
    /// for the diffusion-based one.
    pub fn upscale_method(&self, audiosr: &AudioSRConfig) -> (r: UpscaleMethod)
        ensures
            r == (match self@.config.upscale_quality {
                UpscaleQuality::Best => UpscaleMethod::AudioSR {
                    ddim_steps: audiosr.ddim_steps,
                    guidance_scale_tenths: audiosr.guidance_scale_tenths,
                },
                UpscaleQuality::Fast => UpscaleMethod::FlashSR,
            }),
    {
        match self.config.upscale_quality {
            UpscaleQuality::Best => UpscaleMethod::AudioSR {
                ddim_steps: audiosr.ddim_steps,
                guidance_scale_tenths: audiosr.guidance_scale_tenths,
            },
            UpscaleQuality::Fast => UpscaleMethod::FlashSR,
        }
    }

    /// What to do with the scratch directory now that the run is over:
    /// it is retained exactly when retention was configured.
    pub fn scope_disposal(&self) -> (r: ScopeDisposal)
        requires
            self@.phase == Phase::Done,
        ensures
            r == ScopeDisposal::Retain <==> self@.config.keep_temp,
    {
        if self.config.keep_temp {
            ScopeDisposal::Retain
        } else {
            ScopeDisposal::Release
        }
    }
}

/// The abstract value of a download outcome: the title, or the message.
pub open spec fn result_model_download(r: &Result<String, DownloadError>) -> Result<
    Seq<char>,
    Seq<char>,
> {
    match r {
        Ok(t) => Ok(t@),
        Err(e) => Err(download_error_msg(*e)),
    }
}

/// The abstract value of a decode outcome.
pub open spec fn result_model_decode(r: &Result<(), DecodeError>) -> Result<(), Seq<char>> {
    match r {
        Ok(_) => Ok(()),
        Err(e) => Err(decode_error_msg(*e)),
    }
}

/// The abstract value of an upscale outcome.
pub open spec fn result_model_upscale(r: &Result<(), UpscaleError>) -> Result<(), Seq<char>> {
    match r {
        Ok(_) => Ok(()),
        Err(e) => Err(upscale_error_msg(*e)),
    }
}

/// The abstract value of a normalize outcome.
pub open spec fn result_model_normalize(r: &Result<(), NormalizeError>) -> Result<(), Seq<char>> {
    match r {
        Ok(_) => Ok(()),
        Err(e) => Err(normalize_error_msg(*e)),
    }
}

/// The abstract value of an encode outcome.
pub open spec fn result_model_encode(r: &Result<(), EncodeError>) -> Result<(), Seq<char>> {
    match r {
        Ok(_) => Ok(()),
        Err(e) => Err(encode_error_msg(*e)),
    }
}

/// The abstract value of an embed outcome.
pub open spec fn result_model_metadata(r: &Result<(), MetadataError>) -> Result<(), Seq<char>> {
    match r {
        Ok(_) => Ok(()),
        Err(e) => Err(metadata_error_msg(*e)),
    }
}

/// The name of the decoded intermediate artifact in the scratch scope.
pub fn decoded_wav_name() -> (r: &'static str)
    ensures
        r@ == "decoded.wav"@,
{
    "decoded.wav"
}

/// The name of the upscaled intermediate artifact in the scratch scope.
pub fn upscaled_wav_name() -> (r: &'static str)
    ensures
        r@ == "upscaled.wav"@,
{
    "upscaled.wav"
}

/// The name of the normalized intermediate artifact in the scratch scope.
pub fn normalized_wav_name() -> (r: &'static str)
    ensures
        r@ == "normalized.wav"@,
{
    "normalized.wav"
}

/// The name of the encoded intermediate artifact in the scratch scope.
pub fn encoded_file_name(format: OutputFormat) -> (r: String)
    ensures
        r@ == "encoded."@ + crate::format::extension_spec(format),
{
    String::from_str("encoded.").concat(format.extension())
}

/// Exactly one terminal event closes a finished run's stream, it stands
/// last, and it agrees with the recorded outcome: a success ends in a
/// must-deliver `Complete`, a failure in a best-effort `Failed`.  The
/// recorded outcome is authoritative either way.
pub proof fn lemma_single_terminal_event(m: PipelineModel)
    requires
        pipeline_inv(m),
        m.phase == Phase::Done,
    ensures
        m.emitted.len() > 0,
        is_terminal(m.emitted.last().event),
        forall|k: int|
            0 <= k < m.emitted.len() - 1 ==> !is_terminal(#[trigger] m.emitted[k].event),
        m.outcome is Succeeded <==> m.emitted.last().event is Complete,
        m.outcome is Failed <==> m.emitted.last().event is Failed,
        m.emitted.last().event is Complete ==> m.emitted.last().delivery == Delivery::MustDeliver,
        m.emitted.last().event is Failed ==> m.emitted.last().delivery == Delivery::BestEffort,
{
}

/// An optional stage's event is never emitted when its flag is off, in
/// any run and at any point.
pub proof fn lemma_skipped_stages_never_emitted(m: PipelineModel)
    requires
        pipeline_inv(m),
    ensures
        !m.config.enhance ==> forall|k: int|
            0 <= k < m.emitted.len() ==> !((#[trigger] m.emitted[k].event) is Upscaling),
        !m.config.normalize ==> forall|k: int|
            0 <= k < m.emitted.len() ==> !((#[trigger] m.emitted[k].event) is Normalizing),
{
}

/// Over a whole successful run, an optional stage's event appears in the
/// stream exactly when its flag was set.
pub proof fn lemma_conditional_stage_events(m: PipelineModel)
    requires
        pipeline_inv(m),
        m.phase == Phase::Done,
        m.outcome is Succeeded,
    ensures
        m.config.enhance <==> exists|k: int|
            0 <= k < m.emitted.len() && (#[trigger] m.emitted[k].event) is Upscaling,
        m.config.normalize <==> exists|k: int|
            0 <= k < m.emitted.len() && (#[trigger] m.emitted[k].event) is Normalizing,
{
}

/// The event stream of a successful run with both optional stages
/// switched off is exactly: the two download progress events, the decode,
/// encode and embed announcements, and one final `Complete` carrying the
/// deterministic output path.
pub proof fn lemma_plain_run_event_sequence(c: ConfigModel, title: Seq<char>, elapsed_ms: u64)
    requires
        !c.enhance,
        !c.normalize,
    ensures
        ({
            let m1 = step_start(model_init(c)).0;
            let m2 = step_download(m1, Ok(title)).0;
            let m3 = step_decode(m2, Ok(())).0;
            let m4 = step_encode(m3, Ok(())).0;
            let m5 = step_embed(m4, Ok(()), elapsed_ms).0;
            let path = path_join_spec(c.output_dir, final_filename_spec(title, c.format));
            m5.phase == Phase::Done && m5.outcome == (OutcomeModel::Succeeded { output: path })
                && m5.emitted =~= seq![
                must(
                    StageEventModel::Downloading {
                        progress_permille: 0,
                        title: "Starting download..."@,
                    },
                ),
                must(StageEventModel::Downloading { progress_permille: 1000, title }),
                must(StageEventModel::Decoding),
                must(StageEventModel::Encoding { format: format_name_spec(c.format) }),
                must(StageEventModel::EmbeddingMetadata),
                must(StageEventModel::Complete { output: path, elapsed_ms }),
            ]
        }),
{
}

} // verus!
