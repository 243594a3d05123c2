use ytaudio::config::Config;
use ytaudio::decoder::Decoder;
use ytaudio::decoder::audio_info_from_output;
use ytaudio::downloader::Downloader;
use ytaudio::downloader::classify_download_failure;
use ytaudio::downloader::first_present;
use ytaudio::downloader::parse_video_metadata;
use ytaudio::encoder::Encoder;
use ytaudio::encoder::OutputFormat;
use ytaudio::error::DownloadError;
use ytaudio::error::NormalizeError;
use ytaudio::error::UpscaleError;
use ytaudio::error::YtAudioError;
use ytaudio::metadata::MetadataEmbedder;
use ytaudio::metadata::VideoMetadata;
use ytaudio::normalizer::Normalizer;
use ytaudio::upscale::AudioSR;
use ytaudio::upscale::FlashSR;
use ytaudio::upscale::UpscaleMethod;
use ytaudio::upscale::Upscaler;
use ytaudio::upscale::classify_audiosr_failure;
use ytaudio::upscale::classify_flashsr_failure;

fn meta(title: &str) -> VideoMetadata {
    VideoMetadata {
        id: "vid01".to_string(),
        title: title.to_string(),
        artist: Some("Artist".to_string()),
        album: None,
        uploader: Some("Uploader".to_string()),
        upload_date: Some("20240131".to_string()),
        description: None,
        ext: "opus".to_string(),
    }
}

#[test]
fn download_args_carry_template_and_url() {
    let d = Downloader::new("/usr/bin/yt-dlp".to_string(), "/tmp/scope".to_string());
    let args = d.download_args("https://youtu.be/x");
    assert_eq!(args.first().map(String::as_str), Some("-f"));
    assert!(args.contains(&"/tmp/scope/%(id)s.%(ext)s".to_string()));
    assert_eq!(args.last().map(String::as_str), Some("https://youtu.be/x"));
    assert_eq!(args.len(), 16);
}

#[test]
fn download_failures_are_classified_from_diagnostics() {
    let url = "https://youtu.be/x";
    let e = classify_download_failure(url, "ERROR: Video unavailable", Some(1));
    assert!(matches!(e, DownloadError::VideoUnavailable(ref u) if u == url));
    let e = classify_download_failure(url, "something Private video something", Some(1));
    assert!(matches!(e, DownloadError::VideoUnavailable(_)));
    let e = classify_download_failure(url, "'x' is not a valid URL", Some(1));
    assert!(matches!(e, DownloadError::InvalidUrl(ref u) if u == url));
    let e = classify_download_failure(url, "some other failure", Some(101));
    assert!(matches!(e, DownloadError::YtDlpFailed(Some(101))));
    assert_eq!(
        classify_download_failure(url, "ERROR: Video unavailable", None).message(),
        format!("Video unavailable or private: {}", url)
    );
}

#[test]
fn artifact_candidates_probe_known_extensions_in_order() {
    let d = Downloader::new("yt-dlp".to_string(), "/t".to_string());
    let audio = d.audio_candidates("abc");
    assert_eq!(
        audio,
        vec![
            "/t/abc.opus".to_string(),
            "/t/abc.m4a".to_string(),
            "/t/abc.webm".to_string(),
            "/t/abc.mp3".to_string(),
            "/t/abc.ogg".to_string(),
            "/t/abc.aac".to_string(),
        ]
    );
    let thumbs = d.thumbnail_candidates("abc");
    assert_eq!(
        thumbs,
        vec!["/t/abc.jpg".to_string(), "/t/abc.png".to_string(), "/t/abc.webp".to_string()]
    );
    assert_eq!(first_present(&vec![false, true, true]), Some(1));
    assert_eq!(first_present(&vec![false, false]), None);
    assert_eq!(first_present(&vec![]), None);
}

#[test]
fn metadata_document_is_parsed_with_defaults() {
    let doc = r#"{"id":"abc","title":"A Song","uploader":"Someone","upload_date":"20240102"}"#;
    let m = parse_video_metadata(doc).unwrap();
    assert_eq!(m.id, "abc");
    assert_eq!(m.title, "A Song");
    assert_eq!(m.artist, None);
    assert_eq!(m.uploader.as_deref(), Some("Someone"));
    assert_eq!(m.upload_date.as_deref(), Some("20240102"));
    assert_eq!(m.ext, "");

    let bad = parse_video_metadata("not json");
    assert!(matches!(bad, Err(DownloadError::MetadataParse(_))));
    let missing = parse_video_metadata(r#"{"id":"abc"}"#);
    assert!(matches!(missing, Err(DownloadError::MetadataParse(_))));
}

#[test]
fn decode_and_info_args_are_fixed() {
    let d = Decoder::new("/bin/ffmpeg".to_string());
    let args = d.decode_args("/t/in.opus", "/t/decoded.wav");
    assert_eq!(
        args,
        vec![
            "-hide_banner", "-loglevel", "error", "-i", "/t/in.opus", "-c:a", "pcm_s24le",
            "-ar", "48000", "-y", "/t/decoded.wav",
        ]
        .into_iter()
        .map(String::from)
        .collect::<Vec<_>>()
    );
    let info = d.info_args("/t/in.opus");
    assert_eq!(info.len(), 6);
    assert_eq!(info[info.len() - 1], "-");
}

#[test]
fn audio_info_applies_defaults() {
    let info = audio_info_from_output("Duration: 00:00:10.50, 44100 Hz, mono");
    assert_eq!(info.sample_rate, 44100);
    assert_eq!(info.channels, 1);
    assert_eq!(info.duration_cs, 1050);
    let info = audio_info_from_output("");
    assert_eq!(info.sample_rate, 48000);
    assert_eq!(info.channels, 2);
    assert_eq!(info.duration_cs, 0);
}

#[test]
fn encode_args_select_codec_settings() {
    let e = Encoder::new("ffmpeg".to_string());
    let flac = e.encode_args("in.wav", "out.flac", OutputFormat::Flac);
    assert_eq!(
        flac,
        vec![
            "-hide_banner", "-loglevel", "error", "-i", "in.wav", "-c:a", "flac",
            "-compression_level", "12", "-y", "out.flac",
        ]
        .into_iter()
        .map(String::from)
        .collect::<Vec<_>>()
    );
    let mp3 = Encoder::get_codec_args(OutputFormat::Mp3);
    assert_eq!(mp3, vec!["-c:a", "libmp3lame", "-q:a", "0"].into_iter().map(String::from).collect::<Vec<_>>());
    let opus = Encoder::get_codec_args(OutputFormat::Opus);
    assert_eq!(opus[3], "192k");
}

#[test]
fn embed_args_tag_title_artist_album_date_and_comment() {
    let e = MetadataEmbedder::new("ffmpeg".to_string());
    let mut m = meta("A Song");
    m.album = Some("An Album".to_string());
    let args = e.embed_args("enc.m4a", "out.m4a", &m, Some("cover.jpg"));
    let expect: Vec<String> = vec![
        "-hide_banner", "-loglevel", "error", "-i", "enc.m4a", "-i", "cover.jpg", "-map",
        "0:a", "-map", "1:v", "-c:v", "mjpeg", "-disposition:v", "attached_pic", "-metadata",
        "title=A Song", "-metadata", "artist=Artist", "-metadata", "album=An Album",
        "-metadata", "date=2024-01-31", "-metadata", "comment=YouTube: vid01", "-c:a", "copy",
        "-y", "out.m4a",
    ]
    .into_iter()
    .map(String::from)
    .collect();
    assert_eq!(args, expect);
}

#[test]
fn embed_falls_back_to_uploader_and_skips_missing_tags() {
    let e = MetadataEmbedder::new("ffmpeg".to_string());
    let mut m = meta("T");
    m.artist = None;
    m.upload_date = None;
    let args = e.embed_simple_args("a.flac", "b.flac", &m);
    let expect: Vec<String> = vec![
        "-hide_banner", "-loglevel", "error", "-i", "a.flac", "-metadata", "title=T",
        "-metadata", "artist=Uploader", "-metadata", "comment=YouTube: vid01", "-c:a", "copy",
        "-y", "b.flac",
    ]
    .into_iter()
    .map(String::from)
    .collect();
    assert_eq!(args, expect);
}

#[test]
fn loudnorm_filters_render_tenths_as_decimals() {
    let n = Normalizer::new("ffmpeg".to_string());
    assert_eq!(
        n.measure_filter(-140, -10, 110),
        "loudnorm=I=-14:TP=-1:LRA=11:print_format=json"
    );
    assert_eq!(
        n.measure_filter(-145, -15, 115),
        "loudnorm=I=-14.5:TP=-1.5:LRA=11.5:print_format=json"
    );
    let args = n.measure_args("in.wav", -140, -10, 110);
    assert_eq!(args.len(), 8);
    assert_eq!(args[4], "loudnorm=I=-14:TP=-1:LRA=11:print_format=json");
}

#[test]
fn loudnorm_report_is_parsed_from_brace_slice() {
    let stderr = "ffmpeg noise before\n{\n    \"input_i\" : \"-14.52\",\n    \"input_tp\" : \"-0.95\",\n    \"input_lra\" : \"6.40\",\n    \"input_thresh\" : \"-24.92\",\n    \"target_offset\" : \"0.38\"\n}\n";
    let n = Normalizer::new("ffmpeg".to_string());
    let stats = ytaudio::normalizer::parse_loudnorm_output(stderr).unwrap();
    assert_eq!(stats.input_i, "-14.52");
    assert_eq!(stats.target_offset, "0.38");
    let filter = n.apply_filter(-140, -10, 110, &stats);
    assert_eq!(
        filter,
        "loudnorm=I=-14:TP=-1:LRA=11:measured_I=-14.52:measured_TP=-0.95:measured_LRA=6.40:measured_thresh=-24.92:offset=0.38:linear=true"
    );
    let apply = n.apply_args("a.wav", "b.wav", -140, -10, 110, &stats);
    assert_eq!(apply.len(), 13);
    assert_eq!(apply[6], filter);

    let err = ytaudio::normalizer::parse_loudnorm_output("no braces at all");
    assert!(matches!(err, Err(NormalizeError::LoudnessParseError)));
    let err = ytaudio::normalizer::parse_loudnorm_output("} backwards {");
    assert!(matches!(err, Err(NormalizeError::LoudnessParseError)));
    let err = ytaudio::normalizer::parse_loudnorm_output("{\"input_i\": \"-14\"}");
    assert!(matches!(err, Err(NormalizeError::LoudnessParseError)));
}

#[test]
fn upscale_scripts_splice_paths_and_tuning() {
    let f = FlashSR::new("python3".to_string());
    let s = f.script("/t/in.wav", "/t/out.wav");
    assert!(s.contains("librosa.load(\"/t/in.wav\", sr=16000)"));
    assert!(s.contains("sf.write(\"/t/out.wav\""));
    assert!(s.contains("YatharthS/FlashSR"));

    let a = AudioSR::new("python3".to_string());
    let s = a.script("/t/in.wav", "/t/out.wav", 50, 35);
    assert!(s.contains("guidance_scale=3.5,"));
    assert!(s.contains("ddim_steps=50,"));
    assert!(s.contains("\"/t/in.wav\","));
    assert!(s.contains("sf.write(\"/t/out.wav\""));

    let u = Upscaler::new("python3".to_string());
    let via_dispatch = u.script_for(
        "/t/in.wav",
        "/t/out.wav",
        UpscaleMethod::AudioSR { ddim_steps: 50, guidance_scale_tenths: 35 },
    );
    assert_eq!(via_dispatch, s);
    assert_eq!(u.script_for("/t/in.wav", "/t/out.wav", UpscaleMethod::FlashSR),
        f.script("/t/in.wav", "/t/out.wav"));
}

#[test]
fn upscale_failures_are_classified_by_exit_code() {
    let e = classify_flashsr_failure(Some(1), "whatever");
    assert!(matches!(e, UpscaleError::FlashSRFailed(ref m)
        if m == "Missing Python dependencies. Run: ytaudio update-models"));
    let e = classify_flashsr_failure(Some(4), "  boom  \n");
    assert!(matches!(e, UpscaleError::FlashSRFailed(ref m) if m == "ONNX inference failed: boom"));
    let e = classify_flashsr_failure(None, "crash");
    assert!(matches!(e, UpscaleError::FlashSRFailed(ref m) if m == "FlashSR failed: crash"));

    let e = classify_audiosr_failure(Some(2), " no model ");
    assert!(matches!(e, UpscaleError::AudioSRFailed(ref m)
        if m == "Failed to build AudioSR model: no model"));
    let e = classify_audiosr_failure(Some(9), "x");
    assert!(matches!(e, UpscaleError::AudioSRFailed(ref m) if m == "AudioSR failed: x"));
}

#[test]
fn tool_paths_resolve_configured_then_detected() {
    let mut c = Config::default();
    assert_eq!(c.yt_dlp_path(Some("/usr/bin/yt-dlp".to_string())).unwrap(), "/usr/bin/yt-dlp");
    assert!(c.yt_dlp_path(None).is_err());
    c.paths.yt_dlp = Some("/opt/yt-dlp".to_string());
    assert_eq!(c.yt_dlp_path(Some("/usr/bin/yt-dlp".to_string())).unwrap(), "/opt/yt-dlp");

    assert_eq!(c.ffmpeg_path(Some("/usr/bin/ffmpeg".to_string())).unwrap(), "/usr/bin/ffmpeg");
    let err = c.ffmpeg_path(None).unwrap_err();
    assert_eq!(err.message(), "Invalid config value: ffmpeg not found in PATH");

    assert_eq!(
        c.python_path(Some("/venv/python".to_string()), Some("/usr/bin/python3".to_string()))
            .unwrap(),
        "/venv/python"
    );
    assert_eq!(c.python_path(None, Some("/usr/bin/python3".to_string())).unwrap(), "/usr/bin/python3");
    assert!(c.python_path(None, None).is_err());

    assert_eq!(c.temp_dir("/tmp".to_string()), "/tmp");
    c.temp.directory = Some("/scratch".to_string());
    assert_eq!(c.temp_dir("/tmp".to_string()), "/scratch");
}

#[test]
fn config_defaults_match_documentation() {
    let c = Config::default();
    assert_eq!(c.output.default_format, "flac");
    assert_eq!(c.output.default_directory, ".");
    assert_eq!(c.upscale.default_quality, "fast");
    assert_eq!(c.upscale.audiosr.ddim_steps, 50);
    assert_eq!(c.upscale.audiosr.guidance_scale_tenths, 35);
    assert_eq!(c.upscale.audiosr.model, "basic");
    assert!(!c.normalize.enabled);
    assert_eq!(c.normalize.target_lufs_tenths, -140);
    assert_eq!(c.normalize.true_peak_tenths, -10);
    assert_eq!(c.normalize.lra_tenths, 110);
    assert_eq!(c.batch.max_parallel, 4);
    assert!(c.batch.continue_on_error);
    assert!(c.temp.cleanup);
    assert!(c.temp.directory.is_none());
}

#[test]
fn error_messages_match_their_taxonomy() {
    assert_eq!(DownloadError::NoAudioStream.message(), "No audio stream available");
    assert_eq!(
        DownloadError::YtDlpFailed(Some(-9)).message(),
        "yt-dlp failed with exit code: Some(-9)"
    );
    assert_eq!(DownloadError::YtDlpFailed(None).message(), "yt-dlp failed with exit code: None");
    assert_eq!(
        YtAudioError::Download(DownloadError::NoAudioStream).message(),
        "Download failed: No audio stream available"
    );
    assert_eq!(
        YtAudioError::Upscale(UpscaleError::Timeout(300)).message(),
        "Upscale failed: Upscaling timeout after 300 seconds"
    );
    assert_eq!(
        YtAudioError::Normalize(NormalizeError::LoudnessParseError).message(),
        "Normalization failed: Failed to parse loudness stats"
    );
}
