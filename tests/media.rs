use ingestd::{media_type, MediaType};

#[test]
fn media_type_by_extension() {
    assert_eq!(media_type("/live/stream.mpd"), Some(MediaType::DashManifest));
    assert_eq!(media_type("/live/seg_00001.mp4"), Some(MediaType::Mp4));
    assert_eq!(media_type("/index.html"), Some(MediaType::Html));
    assert_eq!(media_type("/notes.mpd.txt"), None);
    assert_eq!(media_type("mpd"), None);
    assert_eq!(media_type(""), None);
}

#[test]
fn media_type_essence() {
    assert_eq!(MediaType::DashManifest.essence(), "application/dash+xml");
    assert_eq!(MediaType::Mp4.essence(), "video/mp4");
    assert_eq!(MediaType::Html.essence(), "text/html");
}
