use video_downloader::args::{download_args, metadata_args};

fn words(v: &[&str]) -> Vec<String> {
    v.iter().map(|s| s.to_string()).collect()
}

#[test]
fn metadata_run_is_flat_and_bounded() {
    assert_eq!(
        metadata_args(),
        words(&["--socket-timeout", "15", "--no-check-certificate", "--force-ipv4", "--flat-playlist"])
    );
}

#[test]
fn audio_run_extracts_mp3() {
    let a = download_args(true, true, false, &Some("mkv".to_string()), "/d/x.mp3");
    assert_eq!(
        a,
        words(&[
            "--socket-timeout", "15", "--no-check-certificate", "--force-ipv4", "--verbose",
            "--extract-audio", "--audio-format", "mp3", "--audio-quality", "0", "-o", "/d/x.mp3",
        ])
    );
    assert!(!a.iter().any(|w| w == "--merge-output-format"));
}

#[test]
fn best_quality_video_merges_into_container() {
    let a = download_args(false, true, false, &Some("mkv".to_string()), "/d/x.mkv");
    assert_eq!(
        a,
        words(&[
            "--socket-timeout", "15", "--no-check-certificate", "--force-ipv4", "--verbose",
            "--format", "bestvideo+bestaudio/best", "--merge-output-format", "mkv", "-o", "/d/x.mkv",
        ])
    );
}

#[test]
fn standard_video_with_subtitles() {
    let a = download_args(false, false, true, &None, "/d/x.mp4");
    assert_eq!(
        a,
        words(&[
            "--socket-timeout", "15", "--no-check-certificate", "--force-ipv4", "--verbose",
            "--format", "best", "--merge-output-format", "mp4",
            "--write-sub", "--write-auto-sub", "--sub-format", "srt", "--embed-subs",
            "--sub-lang", "ja,en", "-o", "/d/x.mp4",
        ])
    );
}
