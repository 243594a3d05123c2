use ytaudio::batch::BatchItemResult;
use ytaudio::batch::BatchScheduler;
use ytaudio::batch::summarize;
use ytaudio::config::PathsConfig;
use ytaudio::error::DownloadError;
use ytaudio::error::YtAudioError;
use ytaudio::pipeline::OutputFormat;
use ytaudio::pipeline::Pipeline;
use ytaudio::pipeline::PipelineConfig;
use ytaudio::pipeline::StageKind;
use ytaudio::pipeline::UpscaleQuality;

fn template(url: &str) -> PipelineConfig {
    PipelineConfig {
        url: url.to_string(),
        output_dir: "/music".to_string(),
        format: OutputFormat::Flac,
        enhance: false,
        upscale_quality: UpscaleQuality::Fast,
        normalize: false,
        target_lufs_tenths: -140,
        keep_temp: false,
        paths: PathsConfig { yt_dlp: None, ffmpeg: None, python: None },
    }
}

/// Run one pipeline to completion, engineering a download failure for the
/// given source when asked to.
fn run_item(url: &str, fail_download: Option<&str>) -> Result<String, YtAudioError> {
    let mut p = Pipeline::new(template(url));
    p.start();
    loop {
        let Some(stage) = p.pending_stage() else { break };
        match stage {
            StageKind::Download => {
                if let Some(msg) = fail_download {
                    p.finish_download(Err(DownloadError::VideoUnavailable(msg.to_string())));
                } else {
                    p.finish_download(Ok(format!("Track {}", url)));
                }
            },
            StageKind::Decode => {
                p.finish_decode(Ok(()));
            },
            StageKind::Upscale => {
                p.finish_upscale(Ok(()));
            },
            StageKind::Normalize => {
                p.finish_normalize(Ok(()));
            },
            StageKind::Encode => {
                p.finish_encode(Ok(()));
            },
            StageKind::Embed => {
                p.finish_embed(Ok(()), 10);
            },
        }
    }
    p.outcome().clone().unwrap()
}

#[test]
fn three_sources_with_one_engineered_failure() {
    let sources = vec!["A".to_string(), "B".to_string(), "C".to_string()];
    let mut sched = BatchScheduler::new(sources, 2);

    // with limit 2, only two items are admitted before one completes
    let (i0, u0) = sched.try_admit().unwrap();
    let (i1, u1) = sched.try_admit().unwrap();
    assert!(sched.try_admit().is_none());
    assert_eq!((i0, u0.as_str()), (0, "A"));
    assert_eq!((i1, u1.as_str()), (1, "B"));

    let r0 = run_item(&u0, None);
    sched.complete(i0, r0);
    let (i2, u2) = sched.try_admit().unwrap();
    assert_eq!((i2, u2.as_str()), (2, "C"));
    assert!(sched.try_admit().is_none());

    let r1 = run_item(&u1, Some("B"));
    sched.complete(i1, r1);
    let r2 = run_item(&u2, None);
    sched.complete(i2, r2);
    assert!(sched.is_finished());

    let results = sched.results();
    assert_eq!(results.len(), 3);
    let summary = summarize(results);
    assert_eq!(summary.succeeded, 2);
    assert_eq!(summary.failed, 1);
    assert_eq!(summary.succeeded + summary.failed, 3);

    let failed: Vec<&BatchItemResult> =
        results.iter().filter(|r| r.outcome.is_err()).collect();
    assert_eq!(failed.len(), 1);
    assert_eq!(failed[0].url, "B");
    match &failed[0].outcome {
        Err(YtAudioError::Download(e)) => {
            assert_eq!(e.message(), "Video unavailable or private: B");
        },
        other => panic!("unexpected outcome: {:?}", other),
    }

    for r in results.iter().filter(|r| r.outcome.is_ok()) {
        let path = r.outcome.as_ref().unwrap();
        assert!(!path.is_empty());
        assert!(path.starts_with("/music/"));
        assert!(path.ends_with(".flac"));
    }
}

#[test]
fn admission_never_exceeds_the_limit() {
    let sources: Vec<String> = (0..6).map(|i| format!("src-{}", i)).collect();
    let mut sched = BatchScheduler::new(sources, 2);
    let mut in_flight: Vec<(usize, String)> = Vec::new();
    let mut max_in_flight = 0usize;
    loop {
        while let Some(item) = sched.try_admit() {
            in_flight.push(item);
            max_in_flight = max_in_flight.max(in_flight.len());
        }
        let Some((i, u)) = in_flight.pop() else { break };
        sched.complete(i, run_item(&u, None));
    }
    assert!(sched.is_finished());
    assert_eq!(max_in_flight, 2);
    assert_eq!(sched.results().len(), 6);
}

#[test]
fn out_of_order_completion_keeps_attribution() {
    let sources = vec!["x".to_string(), "y".to_string()];
    let mut sched = BatchScheduler::new(sources, 2);
    let (i0, u0) = sched.try_admit().unwrap();
    let (i1, u1) = sched.try_admit().unwrap();
    // finish the second item first
    sched.complete(i1, run_item(&u1, Some("y down")));
    sched.complete(i0, run_item(&u0, None));
    assert!(sched.is_finished());
    let results = sched.results();
    assert_eq!(results[0].url, "y");
    assert!(results[0].outcome.is_err());
    assert_eq!(results[1].url, "x");
    assert!(results[1].outcome.is_ok());
}

#[test]
fn summary_of_empty_batch_is_zero() {
    let sched = BatchScheduler::new(Vec::new(), 1);
    assert!(sched.is_finished());
    let summary = summarize(sched.results());
    assert_eq!(summary.succeeded, 0);
    assert_eq!(summary.failed, 0);
}
