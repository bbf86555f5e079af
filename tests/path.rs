use ingestd::{relative_file_path, PathError};

#[test]
fn decodes_percent_escapes() {
    assert_eq!(relative_file_path("/hello%20world.mp4"), Ok("hello world.mp4".to_string()));
}

#[test]
fn strips_leading_slashes_and_cleans() {
    assert_eq!(relative_file_path("//live/./a/../stream.mpd"), Ok("live/stream.mpd".to_string()));
    assert_eq!(relative_file_path("/"), Ok(".".to_string()));
}

#[test]
fn refuses_paths_that_climb_out() {
    assert_eq!(relative_file_path("/../etc/passwd"), Err(PathError::Escapes));
    assert_eq!(relative_file_path("/a/../../x"), Err(PathError::Escapes));
    assert_eq!(relative_file_path("/%2E%2E/x"), Err(PathError::Escapes));
}

#[test]
fn refuses_paths_that_are_not_utf8() {
    assert_eq!(relative_file_path("/%FF.mp4"), Err(PathError::NotUtf8));
}
