//! The media type announced for a served file, chosen by its extension.
use vstd::prelude::*;

verus! {

#[derive(Debug, Clone, Copy, PartialEq, Eq, Structural)]
pub enum MediaType {
    /// `application/dash+xml`, for `.mpd` manifests.
    DashManifest,
    /// `video/mp4`, for `.mp4` segments.
    Mp4,
    /// `text/html`, for `.html` pages.
    Html,
}

/// Whether `s` ends with `suffix`.
pub open spec fn has_suffix(s: Seq<char>, suffix: Seq<char>) -> bool {
    s.len() >= suffix.len() && s.subrange(s.len() - suffix.len(), s.len() as int) == suffix
}

/// The media type of a path: by its extension, `.mpd` first, then `.mp4`, then `.html`.
pub open spec fn media_type_of(path: Seq<char>) -> Option<MediaType> {
    if has_suffix(path, seq!['.', 'm', 'p', 'd']) {
        Some(MediaType::DashManifest)
    } else if has_suffix(path, seq!['.', 'm', 'p', '4']) {
        Some(MediaType::Mp4)
    } else if has_suffix(path, seq!['.', 'h', 't', 'm', 'l']) {
        Some(MediaType::Html)
    } else {
        None
    }
}

/// Relies on `str::ends_with` with a string suffix.
#[verifier::external_body]
fn ends_with(s: &str, suffix: &str) -> (r: bool)
    ensures
        r == has_suffix(s@, suffix@),
{
    s.ends_with(suffix)
}

/// The media type announced for the file at `path`, if its extension has one.
pub fn media_type(path: &str) -> (r: Option<MediaType>)
    ensures
        r == media_type_of(path@),
{
    proof {
        reveal_strlit(".mpd");
        reveal_strlit(".mp4");
        reveal_strlit(".html");
    }
    if ends_with(path, ".mpd") {
        assert(".mpd"@ =~= seq!['.', 'm', 'p', 'd']);
        Some(MediaType::DashManifest)
    } else if ends_with(path, ".mp4") {
        assert(".mpd"@ =~= seq!['.', 'm', 'p', 'd']);
        assert(".mp4"@ =~= seq!['.', 'm', 'p', '4']);
        Some(MediaType::Mp4)
    } else if ends_with(path, ".html") {
        assert(".mpd"@ =~= seq!['.', 'm', 'p', 'd']);
        assert(".mp4"@ =~= seq!['.', 'm', 'p', '4']);
        assert(".html"@ =~= seq!['.', 'h', 't', 'm', 'l']);
        Some(MediaType::Html)
    } else {
        assert(".mpd"@ =~= seq!['.', 'm', 'p', 'd']);
        assert(".mp4"@ =~= seq!['.', 'm', 'p', '4']);
        assert(".html"@ =~= seq!['.', 'h', 't', 'm', 'l']);
        None
    }
}

impl MediaType {
    /// The media type as written in a `Content-Type` header.
    pub fn essence(&self) -> (r: &'static str)
        ensures
            r@ == match self {
                MediaType::DashManifest => "application/dash+xml"@,
                MediaType::Mp4 => "video/mp4"@,
                MediaType::Html => "text/html"@,
            },
    {
        match self {
            MediaType::DashManifest => "application/dash+xml",
            MediaType::Mp4 => "video/mp4",
            MediaType::Html => "text/html",
        }
    }
}

} // verus!
