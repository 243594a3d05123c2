//! Download-stage decisions: tool invocation, failure classification,
//! metadata parsing, and locating the downloaded artifacts.

use vstd::prelude::*;
use vstd::string::*;
use crate::error::DownloadError;
use crate::jsonio::json_str_field;
use crate::jsonio::json_str_field_of;
use crate::metadata::VideoMetadata;
use crate::strutil::contains_seq;
use crate::strutil::path_join;
use crate::strutil::path_join_spec;
use crate::strutil::str_contains;
use crate::strutil::views;

verus! {

/// Runs the external download tool; this type only decides the invocation
/// and interprets its output, the caller performs it.
#[derive(Debug, Clone)]
pub struct Downloader {
    pub yt_dlp_path: String,
    pub temp_dir: String,
}

/// The artifacts of a successful download.
#[derive(Debug, Clone)]
pub struct DownloadResult {
    pub audio_path: String,
    pub metadata: VideoMetadata,
    pub thumbnail_path: Option<String>,
}

/// Whether a string looks like an identifier the download tool accepts.
pub open spec fn is_youtube_url(s: Seq<char>) -> bool {
    contains_seq(s, "youtube.com/watch"@) || contains_seq(s, "youtu.be/"@) || contains_seq(
        s,
        "youtube.com/playlist"@,
    ) || contains_seq(s, "youtube.com/shorts"@) || contains_seq(s, "music.youtube.com"@)
}

/// Validate that a string looks like a YouTube URL.
pub fn validate_youtube_url(url: &str) -> (b: bool)
    ensures
        b == is_youtube_url(url@),
{
    str_contains(url, "youtube.com/watch") || str_contains(url, "youtu.be/") || str_contains(
        url,
        "youtube.com/playlist",
    ) || str_contains(url, "youtube.com/shorts") || str_contains(url, "music.youtube.com")
}

/// Classify a failed download-tool run from its diagnostic output: an
/// unavailable or private source, an invalid identifier, or a plain tool
/// failure with its exit code.
pub fn classify_download_failure(url: &str, stderr: &str, code: Option<i32>) -> (r: DownloadError)
    ensures
        r matches DownloadError::VideoUnavailable(u) ==> u@ == url@,
        r matches DownloadError::InvalidUrl(u) ==> u@ == url@,
        r matches DownloadError::YtDlpFailed(c) ==> c == code,
        r matches DownloadError::VideoUnavailable(_) <==> (contains_seq(stderr@, "Video unavailable"@)
            || contains_seq(stderr@, "Private video"@)),
        r matches DownloadError::InvalidUrl(_) <==> (!(contains_seq(stderr@, "Video unavailable"@)
            || contains_seq(stderr@, "Private video"@)) && contains_seq(
            stderr@,
            "is not a valid URL"@,
        )),
        r matches DownloadError::YtDlpFailed(_) <==> (!(contains_seq(
            stderr@,
            "Video unavailable"@,
        ) || contains_seq(stderr@, "Private video"@)) && !contains_seq(
            stderr@,
            "is not a valid URL"@,
        )),
{
    if str_contains(stderr, "Video unavailable") || str_contains(stderr, "Private video") {
        DownloadError::VideoUnavailable(String::from_str(url))
    } else if str_contains(stderr, "is not a valid URL") {
        DownloadError::InvalidUrl(String::from_str(url))
    } else {
        DownloadError::YtDlpFailed(code)
    }
}

/// The argument list of the download-tool invocation: best audio stream
/// kept in its original codec, metadata and thumbnail written beside it,
/// metadata printed as JSON.
pub open spec fn download_args_spec(temp_dir: Seq<char>, url: Seq<char>) -> Seq<Seq<char>> {
    seq![
        "-f"@, "bestaudio[acodec=opus]/bestaudio[acodec=aac]/bestaudio"@, "--extract-audio"@,
        "--audio-format"@, "best"@, "--postprocessor-args"@, "ExtractAudio:-acodec copy"@,
        "--write-info-json"@, "--write-thumbnail"@, "--convert-thumbnails"@, "jpg"@, "-o"@,
        path_join_spec(temp_dir, "%(id)s.%(ext)s"@), "--print-json"@, "--no-overwrites"@, url,
    ]
}

/// Whether an optional field of the parsed metadata matches the document.
pub open spec fn opt_field_matches(doc: Seq<char>, key: Seq<char>, v: Option<String>) -> bool {
    match v {
        Some(s) => json_str_field_of(doc, key) == Some(s@),
        None => json_str_field_of(doc, key) is None,
    }
}

/// Parse the metadata document the download tool printed.  The identifier
/// and title are required; the remaining fields are optional, and a
/// missing container extension defaults to the empty string.
pub fn parse_video_metadata(doc: &str) -> (r: Result<VideoMetadata, DownloadError>)
    ensures
        match r {
            Ok(m) => json_str_field_of(doc@, "id"@) == Some(m.id@) && json_str_field_of(
                doc@,
                "title"@,
            ) == Some(m.title@) && opt_field_matches(doc@, "artist"@, m.artist)
                && opt_field_matches(doc@, "album"@, m.album) && opt_field_matches(
                doc@,
                "uploader"@,
                m.uploader,
            ) && opt_field_matches(doc@, "upload_date"@, m.upload_date) && opt_field_matches(
                doc@,
                "description"@,
                m.description,
            ) && (match json_str_field_of(doc@, "ext"@) {
                Some(e) => m.ext@ == e,
                None => m.ext@ == Seq::<char>::empty(),
            }),
            Err(e) => (json_str_field_of(doc@, "id"@) is None || json_str_field_of(
                doc@,
                "title"@,
            ) is None) && e matches DownloadError::MetadataParse(_),
        },
{
    let id = json_str_field(doc, "id");
    let title = json_str_field(doc, "title");
    match (id, title) {
        (Some(id), Some(title)) => {
            let ext = match json_str_field(doc, "ext") {
                Some(e) => e,
                None => String::new(),
            };
            Ok(
                VideoMetadata {
                    id,
                    title,
                    artist: json_str_field(doc, "artist"),
                    album: json_str_field(doc, "album"),
                    uploader: json_str_field(doc, "uploader"),
                    upload_date: json_str_field(doc, "upload_date"),
                    description: json_str_field(doc, "description"),
                    ext,
                },
            )
        },
        _ => Err(
            DownloadError::MetadataParse(
                String::from_str("metadata is missing a required field"),
            ),
        ),
    }
}

/// The audio container extensions probed for, most likely first.
pub open spec fn audio_extensions_spec() -> Seq<Seq<char>> {
    seq!["opus"@, "m4a"@, "webm"@, "mp3"@, "ogg"@, "aac"@]
}

/// The thumbnail extensions probed for, most likely first.
pub open spec fn thumbnail_extensions_spec() -> Seq<Seq<char>> {
    seq!["jpg"@, "png"@, "webp"@]
}

/// The path probed for a downloaded artifact with the given extension.
pub open spec fn candidate_path_spec(
    temp_dir: Seq<char>,
    video_id: Seq<char>,
    ext: Seq<char>,
) -> Seq<char> {
    path_join_spec(temp_dir, video_id + "."@ + ext)
}

/// The first index at which a probe succeeded, if any.
pub fn first_present(present: &Vec<bool>) -> (r: Option<usize>)
    ensures
        match r {
            Some(i) => i < present@.len() && present@[i as int] && (forall|k: int|
                0 <= k < i ==> !present@[k]),
            None => forall|k: int| 0 <= k < present@.len() ==> !present@[k],
        },
{
    let mut i: usize = 0;
    while i < present.len()
        invariant
            0 <= i <= present@.len(),
            forall|k: int| 0 <= k < i ==> !present@[k],
        decreases present@.len() - i,
    {
        if present[i] {
            return Some(i);
        }
        i += 1;
    }
    None
}

impl Downloader {
    /// A new downloader invoking the tool at `yt_dlp_path` and writing
    /// into the scratch directory `temp_dir`.
    pub fn new(yt_dlp_path: String, temp_dir: String) -> (r: Self)
        ensures
            r.yt_dlp_path == yt_dlp_path,
            r.temp_dir == temp_dir,
    {
        Self { yt_dlp_path, temp_dir }
    }

    /// The argument list for downloading `url` into the scratch directory.
    pub fn download_args(&self, url: &str) -> (r: Vec<String>)
        ensures
            views(r@) == download_args_spec(self.temp_dir@, url@),
    {
        let mut v: Vec<String> = Vec::new();
        v.push(String::from_str("-f"));
        v.push(String::from_str("bestaudio[acodec=opus]/bestaudio[acodec=aac]/bestaudio"));
        v.push(String::from_str("--extract-audio"));
        v.push(String::from_str("--audio-format"));
        v.push(String::from_str("best"));
        v.push(String::from_str("--postprocessor-args"));
        v.push(String::from_str("ExtractAudio:-acodec copy"));
        v.push(String::from_str("--write-info-json"));
        v.push(String::from_str("--write-thumbnail"));
        v.push(String::from_str("--convert-thumbnails"));
        v.push(String::from_str("jpg"));
        v.push(String::from_str("-o"));
        v.push(path_join(self.temp_dir.as_str(), "%(id)s.%(ext)s"));
        v.push(String::from_str("--print-json"));
        v.push(String::from_str("--no-overwrites"));
        v.push(String::from_str(url));
        proof {
            assert(views(v@) =~= download_args_spec(self.temp_dir@, url@));
        }
        v
    }

    /// The paths at which the downloaded audio artifact may sit, most
    /// likely extension first.
    pub fn audio_candidates(&self, video_id: &str) -> (r: Vec<String>)
        ensures
            views(r@) == audio_extensions_spec().map_values(
                |e: Seq<char>| candidate_path_spec(self.temp_dir@, video_id@, e),
            ),
    {
        let mut v: Vec<String> = Vec::new();
        v.push(self.candidate(video_id, "opus"));
        v.push(self.candidate(video_id, "m4a"));
        v.push(self.candidate(video_id, "webm"));
        v.push(self.candidate(video_id, "mp3"));
        v.push(self.candidate(video_id, "ogg"));
        v.push(self.candidate(video_id, "aac"));
        proof {
            assert(views(v@) =~= audio_extensions_spec().map_values(
                |e: Seq<char>| candidate_path_spec(self.temp_dir@, video_id@, e),
            ));
        }
        v
    }

    /// The paths at which the downloaded thumbnail may sit, most likely
    /// extension first.
    pub fn thumbnail_candidates(&self, video_id: &str) -> (r: Vec<String>)
        ensures
            views(r@) == thumbnail_extensions_spec().map_values(
                |e: Seq<char>| candidate_path_spec(self.temp_dir@, video_id@, e),
            ),
    {
        let mut v: Vec<String> = Vec::new();
        v.push(self.candidate(video_id, "jpg"));
        v.push(self.candidate(video_id, "png"));
        v.push(self.candidate(video_id, "webp"));
        proof {
            assert(views(v@) =~= thumbnail_extensions_spec().map_values(
                |e: Seq<char>| candidate_path_spec(self.temp_dir@, video_id@, e),
            ));
        }
        v
    }

    /// One probed path for an artifact of this download.
    fn candidate(&self, video_id: &str, ext: &str) -> (r: String)
        ensures
            r@ == candidate_path_spec(self.temp_dir@, video_id@, ext@),
    {
        let name = String::from_str(video_id).concat(".").concat(ext);
        assert(name@ =~= video_id@ + "."@ + ext@);
        path_join(self.temp_dir.as_str(), name.as_str())
    }
}

} // verus!
