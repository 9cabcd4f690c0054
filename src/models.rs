//! Music catalogue entries and shared handler state.

use vstd::prelude::*;

verus! {

/// State shared by the music handlers.
#[derive(Debug, Clone)]
pub struct AppState {
    pub music_folder: String,
}

/// What the catalogue lists for one audio file.
#[derive(Debug, Clone)]
pub struct SongMetadata {
    pub title: String,
    pub artist: String,
    pub album: String,
    /// Whole seconds.
    pub duration: Option<u32>,
    pub file: String,
}

pub open spec fn or_unknown(tag: Option<String>) -> Seq<char> {
    match tag {
        Some(t) => t@,
        None => "Unknown"@,
    }
}

fn tag_or_unknown(tag: Option<String>) -> (r: String)
    ensures
        r@ == or_unknown(tag),
{
    match tag {
        Some(t) => t,
        None => String::from_str("Unknown"),
    }
}

impl SongMetadata {
    /// An entry from the tags read from a file; a missing tag reads `Unknown`,
    /// and the duration is cut to 32 bits as `as u32` does.
    pub fn from_tags(
        title: Option<String>,
        artist: Option<String>,
        album: Option<String>,
        duration_secs: u64,
        file: String,
    ) -> (r: SongMetadata)
        ensures
            r.title@ == or_unknown(title),
            r.artist@ == or_unknown(artist),
            r.album@ == or_unknown(album),
            r.duration == Some(duration_secs as u32),
            r.file == file,
    {
        SongMetadata {
            title: tag_or_unknown(title),
            artist: tag_or_unknown(artist),
            album: tag_or_unknown(album),
            duration: Some(duration_secs as u32),
            file,
        }
    }
}

/// The media type of a cover picture, or the generic binary type when it has none.
pub fn cover_mime_type(mime: Option<&str>) -> (r: &str)
    ensures
        r@ == (match mime {
            Some(m) => m@,
            None => "application/octet-stream"@,
        }),
{
    match mime {
        Some(m) => m,
        None => "application/octet-stream",
    }
}

} // verus!
