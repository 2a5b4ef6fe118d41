use video_downloader::duration::DurationValue;
use video_downloader::flow::{metadata_result, metadata_url, ErrorKind};
use video_downloader::metadata::{shape_metadata, title_for_file, MediaInfo};

#[test]
fn playlist_takes_first_thumbnail_with_url() {
    let info = MediaInfo::Playlist {
        title: Some("My list".to_string()),
        thumbnails: vec![None, Some("https://img/2.jpg".to_string()), Some("https://img/3.jpg".to_string())],
    };
    let m = shape_metadata(&info);
    assert_eq!(m.title, "My list");
    assert_eq!(m.thumbnail.as_deref(), Some("https://img/2.jpg"));
    assert_eq!(m.duration, None);
}

#[test]
fn playlist_without_title_uses_placeholder() {
    let info = MediaInfo::Playlist { title: None, thumbnails: vec![] };
    let m = shape_metadata(&info);
    assert_eq!(m.title, "No Title");
    assert_eq!(m.thumbnail, None);
}

#[test]
fn video_prefers_primary_thumbnail() {
    let info = MediaInfo::Video {
        title: Some("Clip".to_string()),
        thumbnail: Some("https://img/main.jpg".to_string()),
        thumbnails: vec![Some("https://img/other.jpg".to_string())],
        duration: Some(DurationValue::Seconds(125)),
    };
    let m = shape_metadata(&info);
    assert_eq!(m.title, "Clip");
    assert_eq!(m.thumbnail.as_deref(), Some("https://img/main.jpg"));
    assert_eq!(m.duration.as_deref(), Some("02:05"));
}

#[test]
fn video_falls_back_to_first_entry() {
    let info = MediaInfo::Video {
        title: None,
        thumbnail: None,
        thumbnails: vec![Some("https://img/first.jpg".to_string()), Some("https://img/b.jpg".to_string())],
        duration: Some(DurationValue::Text("not-a-number".to_string())),
    };
    let m = shape_metadata(&info);
    assert_eq!(m.title, "No Title");
    assert_eq!(m.thumbnail.as_deref(), Some("https://img/first.jpg"));
    assert_eq!(m.duration, None);
}

#[test]
fn file_title_is_sanitized() {
    let info = MediaInfo::Video {
        title: Some("a/b: c?".to_string()),
        thumbnail: None,
        thumbnails: vec![],
        duration: None,
    };
    assert_eq!(title_for_file(&info), "a_b_ c_");
}

#[test]
fn metadata_url_is_checked_and_cleaned() {
    assert_eq!(
        metadata_url("https://example.com/watch?v=abc&t=30").ok().as_deref(),
        Some("https://example.com/watch?v=abc")
    );
    let e = metadata_url("not a url").err().unwrap();
    assert!(e.kind == ErrorKind::Validation);
    assert_eq!(e.to_message(), "有効なURLではありません");
}

#[test]
fn metadata_errors_pass_through() {
    let e = metadata_result(Err("ERROR: unsupported URL".to_string())).err().unwrap();
    assert!(e.kind == ErrorKind::Extraction);
    assert_eq!(e.message, "ERROR: unsupported URL");
    let ok = metadata_result(Ok(MediaInfo::Playlist { title: Some("L".to_string()), thumbnails: vec![] }));
    assert_eq!(ok.ok().unwrap().title, "L");
}
