use ytaudio::batch::truncate;
use ytaudio::decoder::parse_channels;
use ytaudio::decoder::parse_duration;
use ytaudio::decoder::parse_sample_rate;
use ytaudio::downloader::validate_youtube_url;
use ytaudio::format::OutputFormat;
use ytaudio::format::UpscaleQuality;
use ytaudio::metadata::final_filename;
use ytaudio::metadata::format_upload_date;
use ytaudio::metadata::sanitize_filename;

#[test]
fn test_validate_youtube_url() {
    assert!(validate_youtube_url("https://www.youtube.com/watch?v=dQw4w9WgXcQ"));
    assert!(validate_youtube_url("https://youtu.be/dQw4w9WgXcQ"));
    assert!(validate_youtube_url(
        "https://youtube.com/playlist?list=PLrAXtmErZgOeiKm4sgNOknGvNjby9efdf"
    ));
    assert!(validate_youtube_url("https://music.youtube.com/watch?v=dQw4w9WgXcQ"));
    assert!(!validate_youtube_url("https://example.com/video"));
}

#[test]
fn test_sanitize_filename() {
    assert_eq!(sanitize_filename("Normal Title"), "Normal Title");
    assert_eq!(sanitize_filename("Title/With:Special*Chars"), "Title_With_Special_Chars");
    assert_eq!(sanitize_filename("  Spaces  "), "Spaces");
}

#[test]
fn sanitize_replaces_every_reserved_character() {
    assert_eq!(sanitize_filename(r#"a/b\c:d*e?f"g<h>i|j"#), "a_b_c_d_e_f_g_h_i_j");
    assert_eq!(sanitize_filename(""), "");
    assert_eq!(sanitize_filename("   "), "");
    assert_eq!(sanitize_filename("\tTabbed\n"), "Tabbed");
}

#[test]
fn format_extensions_and_names() {
    assert_eq!(OutputFormat::Flac.extension(), "flac");
    assert_eq!(OutputFormat::Wav.extension(), "wav");
    assert_eq!(OutputFormat::Mp3.extension(), "mp3");
    assert_eq!(OutputFormat::Aac.extension(), "m4a");
    assert_eq!(OutputFormat::Opus.extension(), "opus");
    assert_eq!(OutputFormat::Flac.display_name(), "FLAC");
    assert_eq!(OutputFormat::Opus.display_name(), "Opus");
    assert_eq!(UpscaleQuality::Best.method_name(), "AudioSR");
    assert_eq!(UpscaleQuality::Fast.method_name(), "FlashSR");
}

#[test]
fn format_from_str_ignores_case_and_knows_aliases() {
    assert_eq!(OutputFormat::from_str("flac"), Some(OutputFormat::Flac));
    assert_eq!(OutputFormat::from_str("FLAC"), Some(OutputFormat::Flac));
    assert_eq!(OutputFormat::from_str("Wav"), Some(OutputFormat::Wav));
    assert_eq!(OutputFormat::from_str("mp3"), Some(OutputFormat::Mp3));
    assert_eq!(OutputFormat::from_str("aac"), Some(OutputFormat::Aac));
    assert_eq!(OutputFormat::from_str("M4A"), Some(OutputFormat::Aac));
    assert_eq!(OutputFormat::from_str("opus"), Some(OutputFormat::Opus));
    assert_eq!(OutputFormat::from_str("ogg"), None);
    assert_eq!(OutputFormat::from_str(""), None);
}

#[test]
fn final_filename_is_deterministic_and_sanitized() {
    let a = final_filename("My Song: Live/2024", OutputFormat::Flac);
    let b = final_filename("My Song: Live/2024", OutputFormat::Flac);
    assert_eq!(a, b);
    assert_eq!(a, "My Song_ Live_2024.flac");
    assert_eq!(final_filename("Plain", OutputFormat::Aac), "Plain.m4a");
}

#[test]
fn upload_date_is_reformatted_only_when_eight_digits() {
    assert_eq!(format_upload_date("20240131"), "2024-01-31");
    assert_eq!(format_upload_date("2024"), "2024");
    assert_eq!(format_upload_date(""), "");
}

#[test]
fn truncate_keeps_short_strings_and_marks_cut() {
    assert_eq!(truncate("short", 50), "short");
    assert_eq!(truncate("abcdefghij", 8), "abcde...");
    assert_eq!(truncate("abc", 3), "abc");
}

#[test]
fn sample_rate_is_first_hz_run() {
    assert_eq!(parse_sample_rate("Stream #0: 48000 Hz, stereo"), Some(48000));
    assert_eq!(parse_sample_rate("44100 Hz then 48000 Hz"), Some(44100));
    assert_eq!(parse_sample_rate("no rate here"), None);
    assert_eq!(parse_sample_rate("99999999999 Hz"), None);
    assert_eq!(parse_sample_rate("x5 Hz"), Some(5));
}

#[test]
fn channels_are_read_with_stereo_default() {
    assert_eq!(parse_channels("Audio: opus, 48000 Hz, stereo"), Some(2));
    assert_eq!(parse_channels("Audio: aac, mono"), Some(1));
    assert_eq!(parse_channels("Audio: ac3, 5.1(side)"), Some(6));
    assert_eq!(parse_channels("Audio: pcm"), Some(2));
}

#[test]
fn duration_is_read_as_centiseconds() {
    assert_eq!(parse_duration("Duration: 00:03:45.12, start: 0"), Some(22512));
    assert_eq!(parse_duration("Duration: 01:00:00.00"), Some(360000));
    assert_eq!(parse_duration("Duration: N/A"), None);
    assert_eq!(parse_duration("nothing"), None);
}
