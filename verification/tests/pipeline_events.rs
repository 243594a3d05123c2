use ytaudio::config::PathsConfig;
use ytaudio::error::DownloadError;
use ytaudio::error::UpscaleError;
use ytaudio::error::YtAudioError;
use ytaudio::pipeline::Delivery;
use ytaudio::pipeline::Emission;
use ytaudio::pipeline::OutputFormat;
use ytaudio::pipeline::Pipeline;
use ytaudio::pipeline::PipelineConfig;
use ytaudio::pipeline::PipelineStage;
use ytaudio::pipeline::ScopeDisposal;
use ytaudio::pipeline::StageKind;
use ytaudio::pipeline::UpscaleQuality;
use ytaudio::pipeline::decoded_wav_name;
use ytaudio::pipeline::encoded_file_name;
use ytaudio::pipeline::normalized_wav_name;
use ytaudio::pipeline::upscaled_wav_name;
use ytaudio::upscale::UpscaleMethod;

fn config(enhance: bool, normalize: bool, keep_temp: bool) -> PipelineConfig {
    PipelineConfig {
        url: "https://youtu.be/abc".to_string(),
        output_dir: "/music".to_string(),
        format: OutputFormat::Flac,
        enhance,
        upscale_quality: UpscaleQuality::Fast,
        normalize,
        target_lufs_tenths: -140,
        keep_temp,
        paths: PathsConfig { yt_dlp: None, ffmpeg: None, python: None },
    }
}

fn is_terminal(e: &PipelineStage) -> bool {
    matches!(e, PipelineStage::Complete { .. } | PipelineStage::Failed { .. })
}

/// Drive a run whose every admitted stage succeeds, returning the full
/// emission log.
fn run_all_ok(mut p: Pipeline, title: &str) -> (Pipeline, Vec<Emission>) {
    let mut log = p.start();
    loop {
        let Some(stage) = p.pending_stage() else { break };
        let out = match stage {
            StageKind::Download => p.finish_download(Ok(title.to_string())),
            StageKind::Decode => p.finish_decode(Ok(())),
            StageKind::Upscale => p.finish_upscale(Ok(())),
            StageKind::Normalize => p.finish_normalize(Ok(())),
            StageKind::Encode => p.finish_encode(Ok(())),
            StageKind::Embed => p.finish_embed(Ok(()), 1234),
        };
        log.extend(out);
    }
    (p, log)
}

#[test]
fn plain_run_emits_exactly_the_expected_sequence() {
    let (p, log) = run_all_ok(Pipeline::new(config(false, false, false)), "My Song");
    let kinds: Vec<&PipelineStage> = log.iter().map(|e| &e.event).collect();
    assert_eq!(log.len(), 6);
    assert!(
        matches!(kinds[0], PipelineStage::Downloading { progress_permille: 0, title } if title == "Starting download...")
    );
    assert!(
        matches!(kinds[1], PipelineStage::Downloading { progress_permille: 1000, title } if title == "My Song")
    );
    assert!(matches!(kinds[2], PipelineStage::Decoding));
    assert!(matches!(kinds[3], PipelineStage::Encoding { format } if format == "FLAC"));
    assert!(matches!(kinds[4], PipelineStage::EmbeddingMetadata));
    assert!(
        matches!(kinds[5], PipelineStage::Complete { output, elapsed_ms: 1234 } if output == "/music/My Song.flac")
    );
    for e in &log {
        assert_eq!(e.delivery, Delivery::MustDeliver);
    }
    assert_eq!(p.outcome().as_ref().unwrap().as_ref().unwrap().as_str(), "/music/My Song.flac");
}

#[test]
fn exactly_one_terminal_event_and_it_is_last() {
    for (enhance, normalize) in [(false, false), (true, false), (false, true), (true, true)] {
        let (p, log) = run_all_ok(Pipeline::new(config(enhance, normalize, false)), "T");
        let terminals = log.iter().filter(|e| is_terminal(&e.event)).count();
        assert_eq!(terminals, 1);
        assert!(is_terminal(&log.last().unwrap().event));
        assert!(p.outcome().as_ref().unwrap().is_ok());
    }
}

#[test]
fn optional_stage_events_appear_iff_their_flag_is_set() {
    for (enhance, normalize) in [(false, false), (true, false), (false, true), (true, true)] {
        let (_, log) = run_all_ok(Pipeline::new(config(enhance, normalize, false)), "T");
        let saw_upscaling = log.iter().any(|e| matches!(e.event, PipelineStage::Upscaling { .. }));
        let saw_normalizing =
            log.iter().any(|e| matches!(e.event, PipelineStage::Normalizing { .. }));
        assert_eq!(saw_upscaling, enhance);
        assert_eq!(saw_normalizing, normalize);
    }
}

#[test]
fn failed_stage_ends_the_run_with_best_effort_event() {
    let mut p = Pipeline::new(config(true, true, false));
    let mut log = p.start();
    log.extend(p.finish_download(Err(DownloadError::VideoUnavailable(
        "https://youtu.be/abc".to_string(),
    ))));
    assert!(p.is_done());
    assert_eq!(p.pending_stage(), None);
    let last = log.last().unwrap();
    assert_eq!(last.delivery, Delivery::BestEffort);
    assert!(matches!(
        &last.event,
        PipelineStage::Failed { stage, error }
            if stage == "download" && error == "Video unavailable or private: https://youtu.be/abc"
    ));
    // even with both optional flags set, a run that failed early never
    // reaches their stages
    assert!(!log.iter().any(|e| matches!(e.event, PipelineStage::Upscaling { .. })));
    assert!(!log.iter().any(|e| matches!(e.event, PipelineStage::Normalizing { .. })));
    let err = p.outcome().as_ref().unwrap().as_ref().unwrap_err();
    assert_eq!(
        err.message(),
        "Download failed: Video unavailable or private: https://youtu.be/abc"
    );
}

#[test]
fn upscale_failure_is_wrapped_with_its_stage() {
    let mut p = Pipeline::new(config(true, false, false));
    p.start();
    p.finish_download(Ok("T".to_string()));
    p.finish_decode(Ok(()));
    let out = p.finish_upscale(Err(UpscaleError::ModelNotFound));
    assert!(matches!(
        &out.last().unwrap().event,
        PipelineStage::Failed { stage, error }
            if stage == "upscale" && error == "Model not found. Run: ytaudio update-models"
    ));
    match p.outcome().as_ref().unwrap() {
        Err(YtAudioError::Upscale(UpscaleError::ModelNotFound)) => {},
        other => panic!("unexpected outcome: {:?}", other),
    }
}

#[test]
fn scratch_scope_is_released_unless_retention_was_requested() {
    let (p, _) = run_all_ok(Pipeline::new(config(false, false, false)), "T");
    assert_eq!(p.scope_disposal(), ScopeDisposal::Release);
    let (p, _) = run_all_ok(Pipeline::new(config(false, false, true)), "T");
    assert_eq!(p.scope_disposal(), ScopeDisposal::Retain);
    let mut p = Pipeline::new(config(false, false, false));
    p.start();
    p.finish_download(Err(DownloadError::NoAudioStream));
    assert_eq!(p.scope_disposal(), ScopeDisposal::Release);
}

#[test]
fn upscale_method_follows_quality_tier() {
    let mut cfg = config(true, false, false);
    cfg.upscale_quality = UpscaleQuality::Best;
    let p = Pipeline::new(cfg);
    let audiosr = ytaudio::config::Config::default().upscale.audiosr;
    assert_eq!(
        p.upscale_method(&audiosr),
        UpscaleMethod::AudioSR { ddim_steps: 50, guidance_scale_tenths: 35 }
    );
    let p = Pipeline::new(config(true, false, false));
    assert_eq!(p.upscale_method(&audiosr), UpscaleMethod::FlashSR);
}

#[test]
fn intermediate_artifact_names_are_fixed() {
    assert_eq!(decoded_wav_name(), "decoded.wav");
    assert_eq!(upscaled_wav_name(), "upscaled.wav");
    assert_eq!(normalized_wav_name(), "normalized.wav");
    assert_eq!(encoded_file_name(OutputFormat::Aac), "encoded.m4a");
}

#[test]
fn full_feature_run_orders_stages_correctly() {
    let (_, log) = run_all_ok(Pipeline::new(config(true, true, false)), "T");
    let names: Vec<&'static str> = log
        .iter()
        .map(|e| match &e.event {
            PipelineStage::Downloading { .. } => "downloading",
            PipelineStage::Decoding => "decoding",
            PipelineStage::Upscaling { .. } => "upscaling",
            PipelineStage::Normalizing { .. } => "normalizing",
            PipelineStage::Encoding { .. } => "encoding",
            PipelineStage::EmbeddingMetadata => "embedding",
            PipelineStage::Complete { .. } => "complete",
            PipelineStage::Failed { .. } => "failed",
        })
        .collect();
    assert_eq!(
        names,
        vec![
            "downloading", "downloading", "decoding", "upscaling", "upscaling", "normalizing",
            "encoding", "embedding", "complete",
        ]
    );
}
