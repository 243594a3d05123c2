//! Track metadata, filename sanitization, and construction of the
//! metadata-embedding tool invocation.

use vstd::prelude::*;
use vstd::string::*;
use crate::strutil::string_from_chars;
use crate::strutil::is_trim_space;
use crate::strutil::trim_left;
use crate::strutil::trim_right;
use crate::strutil::lemma_trim_left_prefix;
use crate::strutil::lemma_trim_right_suffix;

verus! {

/// Structured metadata of a downloaded track.
#[derive(Debug, Clone)]
pub struct VideoMetadata {
    pub id: String,
    pub title: String,
    pub artist: Option<String>,
    pub album: Option<String>,
    pub uploader: Option<String>,
    pub upload_date: Option<String>,
    pub description: Option<String>,
    pub ext: String,
}

/// Characters the filesystem cannot take are replaced with underscores.
pub open spec fn sanitize_char(c: char) -> char {
    if c == '/' || c == '\\' || c == ':' || c == '*' || c == '?' || c == '"' || c == '<'
        || c == '>' || c == '|' {
        '_'
    } else {
        c
    }
}

/// Filename sanitization: map reserved characters to underscores, then
/// strip surrounding whitespace.  A pure function of the title text.
pub open spec fn sanitize_spec(s: Seq<char>) -> Seq<char> {
    trim_right(trim_left(s.map_values(|c: char| sanitize_char(c))))
}

/// Whether this character is stripped from filename ends.
fn is_space_char(c: char) -> (b: bool)
    ensures
        b == is_trim_space(c),
{
    c == ' ' || c == '\t' || c == '\n' || c == '\r'
}

/// Sanitize a title for use as a filename.
pub fn sanitize_filename(name: &str) -> (r: String)
    ensures
        r@ == sanitize_spec(name@),
{
    let len = name.unicode_len();
    let mut mapped: Vec<char> = Vec::new();
    let mut i: usize = 0;
    while i < len
        invariant
            len == name@.len(),
            0 <= i <= len,
            mapped@ == name@.subrange(0, i as int).map_values(|c: char| sanitize_char(c)),
        decreases len - i,
    {
        let c = name.get_char(i);
        let m = if c == '/' || c == '\\' || c == ':' || c == '*' || c == '?' || c == '"'
            || c == '<' || c == '>' || c == '|' {
            '_'
        } else {
            c
        };
        mapped.push(m);
        proof {
            assert(mapped@ =~= name@.subrange(0, i + 1).map_values(|c: char| sanitize_char(c)));
        }
        i += 1;
    }
    proof {
        assert(name@.subrange(0, len as int) =~= name@);
    }
    let ghost full: Seq<char> = name@.map_values(|c: char| sanitize_char(c));
    let mut lo: usize = 0;
    while lo < len && is_space_char(mapped[lo])
        invariant
            mapped@ == full,
            len == full.len(),
            0 <= lo <= len,
            forall|k: int| 0 <= k < lo ==> is_trim_space(full[k]),
        decreases len - lo,
    {
        lo += 1;
    }
    proof {
        lemma_trim_left_prefix(full, lo as int);
    }
    let ghost tail: Seq<char> = full.subrange(lo as int, len as int);
    let mut hi: usize = len;
    while hi > lo && is_space_char(mapped[hi - 1])
        invariant
            mapped@ == full,
            len == full.len(),
            lo <= hi <= len,
            forall|k: int| hi <= k < len ==> is_trim_space(full[k]),
        decreases hi,
    {
        hi -= 1;
    }
    proof {
        lemma_trim_right_suffix(tail, hi - lo);
        assert(tail.subrange(0, hi - lo) =~= full.subrange(lo as int, hi as int));
    }
    let mut out: Vec<char> = Vec::new();
    let mut j: usize = lo;
    while j < hi
        invariant
            mapped@ == full,
            lo <= j <= hi <= len,
            len == full.len(),
            out@ == full.subrange(lo as int, j as int),
        decreases hi - j,
    {
        out.push(mapped[j]);
        proof {
            assert(out@ =~= full.subrange(lo as int, j + 1));
        }
        j += 1;
    }
    string_from_chars(&out)
}

/// The deterministic output filename: the sanitized title followed by a
/// dot and the format's extension.
pub open spec fn final_filename_spec(title: Seq<char>, f: crate::format::OutputFormat) -> Seq<char> {
    sanitize_spec(title) + "."@ + crate::format::extension_spec(f)
}

/// Compute the output filename for a track title and target format.
pub fn final_filename(title: &str, format: crate::format::OutputFormat) -> (r: String)
    ensures
        r@ == final_filename_spec(title@, format),
{
    sanitize_filename(title).concat(".").concat(format.extension())
}

/// Two runs over the same source metadata and target format compute the
/// same final filename: the name is a pure function of title and format.
pub proof fn lemma_naming_deterministic(
    t1: Seq<char>,
    t2: Seq<char>,
    f1: crate::format::OutputFormat,
    f2: crate::format::OutputFormat,
)
    requires
        t1 == t2,
        f1 == f2,
    ensures
        final_filename_spec(t1, f1) == final_filename_spec(t2, f2),
{
}

/// An eight-character upload date `YYYYMMDD` reformatted as `YYYY-MM-DD`;
/// anything else is passed through unchanged.
pub open spec fn formatted_date_spec(d: Seq<char>) -> Seq<char> {
    if d.len() == 8 {
        d.subrange(0, 4) + "-"@ + d.subrange(4, 6) + "-"@ + d.subrange(6, 8)
    } else {
        d
    }
}

/// Reformat an upload date for embedding.
pub fn format_upload_date(d: &str) -> (r: String)
    ensures
        r@ == formatted_date_spec(d@),
{
    let len = d.unicode_len();
    if len == 8 {
        let r = String::from_str(d.substring_char(0, 4))
            .concat("-")
            .concat(d.substring_char(4, 6))
            .concat("-")
            .concat(d.substring_char(6, 8));
        assert(r@ =~= formatted_date_spec(d@));
        r
    } else {
        String::from_str(d)
    }
}

/// The view of an optional string slice.
pub open spec fn opt_view(a: Option<&str>) -> Option<Seq<char>> {
    match a {
        Some(s) => Some(s@),
        None => None,
    }
}

/// Arguments that attach artwork as an embedded picture stream.
pub open spec fn artwork_args_spec(artwork: Option<Seq<char>>) -> Seq<Seq<char>> {
    match artwork {
        Some(a) => seq![
            "-i"@, a, "-map"@, "0:a"@, "-map"@, "1:v"@, "-c:v"@, "mjpeg"@,
            "-disposition:v"@, "attached_pic"@,
        ],
        None => Seq::empty(),
    }
}

/// The artist tag: the artist when present, else the uploader, else nothing.
pub open spec fn artist_args_spec(artist: Option<String>, uploader: Option<String>) -> Seq<Seq<char>> {
    match artist {
        Some(a) => seq!["-metadata"@, "artist="@ + a@],
        None => match uploader {
            Some(u) => seq!["-metadata"@, "artist="@ + u@],
            None => Seq::empty(),
        },
    }
}

/// The album tag, when an album is known.
pub open spec fn album_args_spec(album: Option<String>) -> Seq<Seq<char>> {
    match album {
        Some(a) => seq!["-metadata"@, "album="@ + a@],
        None => Seq::empty(),
    }
}

/// The date tag, when an upload date is known.
pub open spec fn date_args_spec(date: Option<String>) -> Seq<Seq<char>> {
    match date {
        Some(d) => seq!["-metadata"@, "date="@ + formatted_date_spec(d@)],
        None => Seq::empty(),
    }
}

/// The full argument list of the embedding tool invocation: copy the audio
/// stream, attach artwork when present, and tag title, artist, album, date
/// and a comment naming the source identifier.
pub open spec fn embed_args_spec(
    audio: Seq<char>,
    output: Seq<char>,
    m: VideoMetadata,
    artwork: Option<Seq<char>>,
) -> Seq<Seq<char>> {
    seq!["-hide_banner"@, "-loglevel"@, "error"@, "-i"@, audio]
        + artwork_args_spec(artwork)
        + seq!["-metadata"@, "title="@ + m.title@]
        + artist_args_spec(m.artist, m.uploader)
        + album_args_spec(m.album)
        + date_args_spec(m.upload_date)
        + seq!["-metadata"@, "comment=YouTube: "@ + m.id@, "-c:a"@, "copy"@, "-y"@, output]
}

/// The argument list of the plain tagging invocation: like the full one,
/// but with no artwork and no album tag.
pub open spec fn embed_simple_args_spec(
    input: Seq<char>,
    output: Seq<char>,
    m: VideoMetadata,
) -> Seq<Seq<char>> {
    seq!["-hide_banner"@, "-loglevel"@, "error"@, "-i"@, input]
        + seq!["-metadata"@, "title="@ + m.title@]
        + artist_args_spec(m.artist, m.uploader)
        + date_args_spec(m.upload_date)
        + seq!["-metadata"@, "comment=YouTube: "@ + m.id@, "-c:a"@, "copy"@, "-y"@, output]
}

/// Embeds metadata and artwork through an external tagging tool; this type
/// only decides the invocation, the caller performs it.
#[derive(Debug, Clone)]
pub struct MetadataEmbedder {
    pub ffmpeg_path: String,
}

impl MetadataEmbedder {
    /// A new embedder that invokes the tool at the given path.
    pub fn new(ffmpeg_path: String) -> (r: Self)
        ensures
            r.ffmpeg_path == ffmpeg_path,
    {
        Self { ffmpeg_path }
    }

    fn push_artist(v: &mut Vec<String>, metadata: &VideoMetadata)
        ensures
            crate::strutil::views(final(v)@) == crate::strutil::views(old(v)@)
                + artist_args_spec(metadata.artist, metadata.uploader),
    {
        let ghost before = crate::strutil::views(v@);
        match &metadata.artist {
            Some(a) => {
                v.push(String::from_str("-metadata"));
                v.push(crate::error::cat2("artist=", a.as_str()));
            },
            None => {
                match &metadata.uploader {
                    Some(u) => {
                        v.push(String::from_str("-metadata"));
                        v.push(crate::error::cat2("artist=", u.as_str()));
                    },
                    None => {},
                }
            },
        }
        proof {
            assert(crate::strutil::views(v@) =~= before
                + artist_args_spec(metadata.artist, metadata.uploader));
        }
    }

    fn push_date(v: &mut Vec<String>, metadata: &VideoMetadata)
        ensures
            crate::strutil::views(final(v)@) == crate::strutil::views(old(v)@)
                + date_args_spec(metadata.upload_date),
    {
        let ghost before = crate::strutil::views(v@);
        match &metadata.upload_date {
            Some(d) => {
                v.push(String::from_str("-metadata"));
                v.push(crate::error::cat2("date=", format_upload_date(d.as_str()).as_str()));
            },
            None => {},
        }
        proof {
            assert(crate::strutil::views(v@) =~= before + date_args_spec(metadata.upload_date));
        }
    }

    fn push_trailer(v: &mut Vec<String>, metadata: &VideoMetadata, output: &str)
        ensures
            crate::strutil::views(final(v)@) == crate::strutil::views(old(v)@)
                + seq![
                    "-metadata"@, "comment=YouTube: "@ + metadata.id@, "-c:a"@, "copy"@, "-y"@,
                    output@,
                ],
    {
        let ghost before = crate::strutil::views(v@);
        v.push(String::from_str("-metadata"));
        v.push(crate::error::cat2("comment=YouTube: ", metadata.id.as_str()));
        v.push(String::from_str("-c:a"));
        v.push(String::from_str("copy"));
        v.push(String::from_str("-y"));
        v.push(String::from_str(output));
        proof {
            assert(crate::strutil::views(v@) =~= before
                + seq![
                    "-metadata"@, "comment=YouTube: "@ + metadata.id@, "-c:a"@, "copy"@, "-y"@,
                    output@,
                ]);
        }
    }

    /// The argument list for embedding metadata and artwork into `audio`,
    /// writing the tagged artifact to `output`.
    pub fn embed_args(
        &self,
        audio: &str,
        output: &str,
        metadata: &VideoMetadata,
        artwork: Option<&str>,
    ) -> (r: Vec<String>)
        ensures
            crate::strutil::views(r@) == embed_args_spec(
                audio@,
                output@,
                *metadata,
                opt_view(artwork),
            ),
    {
        let mut v: Vec<String> = Vec::new();
        v.push(String::from_str("-hide_banner"));
        v.push(String::from_str("-loglevel"));
        v.push(String::from_str("error"));
        v.push(String::from_str("-i"));
        v.push(String::from_str(audio));
        proof {
            assert(crate::strutil::views(v@)
                =~= seq!["-hide_banner"@, "-loglevel"@, "error"@, "-i"@, audio@]);
        }
        let ghost head = crate::strutil::views(v@);
        match artwork {
            Some(art) => {
                v.push(String::from_str("-i"));
                v.push(String::from_str(art));
                v.push(String::from_str("-map"));
                v.push(String::from_str("0:a"));
                v.push(String::from_str("-map"));
                v.push(String::from_str("1:v"));
                v.push(String::from_str("-c:v"));
                v.push(String::from_str("mjpeg"));
                v.push(String::from_str("-disposition:v"));
                v.push(String::from_str("attached_pic"));
            },
            None => {},
        }
        proof {
            assert(crate::strutil::views(v@) =~= head + artwork_args_spec(opt_view(artwork)));
        }
        let ghost with_art = crate::strutil::views(v@);
        v.push(String::from_str("-metadata"));
        v.push(crate::error::cat2("title=", metadata.title.as_str()));
        proof {
            assert(crate::strutil::views(v@)
                =~= with_art + seq!["-metadata"@, "title="@ + metadata.title@]);
        }
        Self::push_artist(&mut v, metadata);
        let ghost with_artist = crate::strutil::views(v@);
        match &metadata.album {
            Some(a) => {
                v.push(String::from_str("-metadata"));
                v.push(crate::error::cat2("album=", a.as_str()));
            },
            None => {},
        }
        proof {
            assert(crate::strutil::views(v@) =~= with_artist + album_args_spec(metadata.album));
        }
        Self::push_date(&mut v, metadata);
        Self::push_trailer(&mut v, metadata, output);
        proof {
            assert(crate::strutil::views(v@) =~= embed_args_spec(
                audio@,
                output@,
                *metadata,
                opt_view(artwork),
            ));
        }
        v
    }

    /// The argument list for embedding metadata only, with no artwork.
    pub fn embed_simple_args(
        &self,
        input: &str,
        output: &str,
        metadata: &VideoMetadata,
    ) -> (r: Vec<String>)
        ensures
            crate::strutil::views(r@) == embed_simple_args_spec(input@, output@, *metadata),
    {
        let mut v: Vec<String> = Vec::new();
        v.push(String::from_str("-hide_banner"));
        v.push(String::from_str("-loglevel"));
        v.push(String::from_str("error"));
        v.push(String::from_str("-i"));
        v.push(String::from_str(input));
        v.push(String::from_str("-metadata"));
        v.push(crate::error::cat2("title=", metadata.title.as_str()));
        proof {
            assert(crate::strutil::views(v@)
                =~= seq!["-hide_banner"@, "-loglevel"@, "error"@, "-i"@, input@]
                    + seq!["-metadata"@, "title="@ + metadata.title@]);
        }
        Self::push_artist(&mut v, metadata);
        Self::push_date(&mut v, metadata);
        Self::push_trailer(&mut v, metadata, output);
        proof {
            assert(crate::strutil::views(v@)
                =~= embed_simple_args_spec(input@, output@, *metadata));
        }
        v
    }
}

} // verus!
