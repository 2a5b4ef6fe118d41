use vstd::prelude::*;
use crate::duration::{DurationValue, duration_text, normalize_duration};
use crate::paths::{sanitized, sanitize_filename};

verus! {

/// What the front-end shows of a media URL.
pub struct VideoMetadata {
    pub title: String,
    pub thumbnail: Option<String>,
    pub duration: Option<String>,
}

/// One format offered for a media item.
pub struct VideoFormat {
    pub format_id: String,
    pub ext: String,
    pub resolution: String,
}

/// The parts of the external tool's metadata answer that are read.
pub enum MediaInfo {
    /// A playlist, listed flat: its title and the URLs of its thumbnail entries
    /// (an entry may lack one).
    Playlist { title: Option<String>, thumbnails: Vec<Option<String>> },
    /// A single item: its title, primary thumbnail, thumbnail entries and duration.
    Video {
        title: Option<String>,
        thumbnail: Option<String>,
        thumbnails: Vec<Option<String>>,
        duration: Option<DurationValue>,
    },
}

pub open spec fn opt_view(o: Option<String>) -> Option<Seq<char>> {
    match o {
        Some(s) => Some(s@),
        None => None,
    }
}

/// The title shown where the tool gives none.
pub open spec fn title_or_placeholder(t: Option<String>) -> Seq<char> {
    match t {
        Some(s) => s@,
        None => "No Title"@,
    }
}

/// The URL of the first thumbnail entry that has one.
pub open spec fn first_url(ts: Seq<Option<String>>) -> Option<Seq<char>>
    decreases ts.len(),
{
    if ts.len() == 0 {
        None
    } else if ts[0] is Some {
        opt_view(ts[0])
    } else {
        first_url(ts.skip(1))
    }
}

/// The URL of the first thumbnail entry, if there is one and it has a URL.
pub open spec fn head_url(ts: Seq<Option<String>>) -> Option<Seq<char>> {
    if ts.len() == 0 {
        None
    } else {
        opt_view(ts[0])
    }
}

pub open spec fn info_title(info: MediaInfo) -> Seq<char> {
    match info {
        MediaInfo::Playlist { title, .. } => title_or_placeholder(title),
        MediaInfo::Video { title, .. } => title_or_placeholder(title),
    }
}

pub open spec fn info_thumbnail(info: MediaInfo) -> Option<Seq<char>> {
    match info {
        MediaInfo::Playlist { thumbnails, .. } => first_url(thumbnails@),
        MediaInfo::Video { thumbnail, thumbnails, .. } => match thumbnail {
            Some(t) => Some(t@),
            None => head_url(thumbnails@),
        },
    }
}

pub open spec fn info_duration(info: MediaInfo) -> Option<Seq<char>> {
    match info {
        MediaInfo::Playlist { .. } => None,
        MediaInfo::Video { duration, .. } => match duration {
            Some(d) => duration_text(d),
            None => None,
        },
    }
}

fn clone_opt(o: &Option<String>) -> (r: Option<String>)
    ensures
        opt_view(r) == opt_view(*o),
{
    match o {
        Some(s) => Some(s.clone()),
        None => None,
    }
}

fn title_text(t: &Option<String>) -> (r: String)
    ensures
        r@ == title_or_placeholder(*t),
{
    match t {
        Some(s) => s.clone(),
        None => String::from_str("No Title"),
    }
}

fn first_thumbnail_url(ts: &Vec<Option<String>>) -> (r: Option<String>)
    ensures
        opt_view(r) == first_url(ts@),
{
    let mut i: usize = 0;
    assert(ts@.skip(0) =~= ts@);
    while i < ts.len()
        invariant
            i <= ts@.len(),
            first_url(ts@) == first_url(ts@.skip(i as int)),
        decreases ts@.len() - i,
    {
        if ts[i].is_some() {
            return clone_opt(&ts[i]);
        }
        assert(ts@.skip(i as int).skip(1) =~= ts@.skip(i + 1));
        i = i + 1;
    }
    None
}

/// Shapes the tool's metadata answer for the front-end. A playlist keeps its
/// title, takes the first thumbnail entry that has a URL and has no duration; a
/// single item takes its primary thumbnail or else its first entry's, and its
/// duration as `MM:SS` where it reads as whole seconds. A missing title becomes
/// `No Title`.
pub fn shape_metadata(info: &MediaInfo) -> (r: VideoMetadata)
    ensures
        r.title@ == info_title(*info),
        opt_view(r.thumbnail) == info_thumbnail(*info),
        opt_view(r.duration) == info_duration(*info),
{
    match info {
        MediaInfo::Playlist { title, thumbnails } => VideoMetadata {
            title: title_text(title),
            thumbnail: first_thumbnail_url(thumbnails),
            duration: None,
        },
        MediaInfo::Video { title, thumbnail, thumbnails, duration } => {
            let thumb = match thumbnail {
                Some(t) => Some(t.clone()),
                None => {
                    if thumbnails.len() > 0 {
                        clone_opt(&thumbnails[0])
                    } else {
                        None
                    }
                },
            };
            let dur = match duration {
                Some(d) => normalize_duration(d),
                None => None,
            };
            VideoMetadata { title: title_text(title), thumbnail: thumb, duration: dur }
        },
    }
}

/// The file name base taken from metadata: the title, or `No Title`, made safe
/// for the filesystem.
pub fn title_for_file(info: &MediaInfo) -> (r: String)
    ensures
        r@ == sanitized(info_title(*info)),
{
    let t = match info {
        MediaInfo::Playlist { title, .. } => title_text(title),
        MediaInfo::Video { title, .. } => title_text(title),
    };
    sanitize_filename(t.as_str())
}

} // verus!
