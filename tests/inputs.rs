use video_downloader::paths::{
    is_safe_path, join_path, renamed_for_collision, sanitize_filename, unique_token,
};
use video_downloader::url::{is_valid_url, strip_timestamp_param};

#[test]
fn valid_urls_are_accepted() {
    assert!(is_valid_url("https://example.com"));
    assert!(is_valid_url("http://www.youtube.com/watch?v=abc123"));
    assert!(is_valid_url("https://sub.domain-name.co.jp/path/to/file.mp4?x=1&y=2"));
    assert!(is_valid_url("https://a.b"));
}

#[test]
fn strings_without_scheme_or_host_are_refused() {
    assert!(!is_valid_url(""));
    assert!(!is_valid_url("example.com"));
    assert!(!is_valid_url("www.example.com/watch"));
    assert!(!is_valid_url("ftp://example.com/file"));
    assert!(!is_valid_url("https://"));
    assert!(!is_valid_url("https://localhost"));
    assert!(!is_valid_url("https://-bad.com"));
    assert!(!is_valid_url("https://.com"));
    assert!(!is_valid_url("https://example."));
    assert!(!is_valid_url("https://exa_mple.com"));
    assert!(!is_valid_url("HTTPS://example.com"));
}

#[test]
fn timestamp_parameter_is_stripped() {
    assert_eq!(
        strip_timestamp_param("https://example.com/watch?v=abc&t=30"),
        "https://example.com/watch?v=abc"
    );
    assert_eq!(
        strip_timestamp_param("https://example.com/watch?t=12.5&v=abc"),
        "https://example.com/watch&v=abc"
    );
    assert_eq!(
        strip_timestamp_param("https://youtu.be/xyz?t=7"),
        "https://youtu.be/xyz"
    );
    assert_eq!(
        strip_timestamp_param("https://example.com/watch?v=abc&t=x"),
        "https://example.com/watch?v=abc&t=x"
    );
    assert_eq!(
        strip_timestamp_param("https://example.com/watch?v=abc&tt=3"),
        "https://example.com/watch?v=abc&tt=3"
    );
}

#[test]
fn sanitize_replaces_forbidden_characters() {
    assert_eq!(sanitize_filename(r#"a<b>c:d"e/f\g|h?i*j"#), "a_b_c_d_e_f_g_h_i_j");
    assert_eq!(sanitize_filename("plain name"), "plain name");
    assert_eq!(sanitize_filename(""), "");
}

#[test]
fn sanitize_truncates_by_code_points() {
    let long: String = std::iter::repeat('あ').take(200).collect();
    let out = sanitize_filename(&long);
    assert_eq!(out.chars().count(), 128);
    assert!(out.chars().all(|c| c == 'あ'));
    let exact: String = std::iter::repeat('x').take(128).collect();
    assert_eq!(sanitize_filename(&exact), exact);
    let over: String = std::iter::repeat('?').take(129).collect();
    let cut = sanitize_filename(&over);
    assert_eq!(cut.chars().count(), 128);
    assert!(cut.chars().all(|c| c == '_'));
}

#[test]
fn sanitize_output_never_holds_forbidden_characters() {
    let inputs = ["<>:\"/\\|?*", "動画: タイトル/第1話?", "a*b", "normal"];
    for s in inputs.iter() {
        let out = sanitize_filename(s);
        assert!(!out.chars().any(|c| "<>:\"/\\|?*".contains(c)));
        assert!(out.chars().count() <= 128);
    }
}

#[test]
fn safe_paths_are_accepted() {
    assert!(is_safe_path("/home/user/Downloads/video.mp4", false));
    assert!(is_safe_path("/tmp/a.b/c.mp3", false));
    assert!(is_safe_path("/", false));
}

#[test]
fn unsafe_paths_are_refused() {
    assert!(!is_safe_path("relative/path.mp4", false));
    assert!(!is_safe_path("", false));
    assert!(!is_safe_path("/home/user/../etc/passwd", false));
    assert!(!is_safe_path("/home/user/a..b", false));
    assert!(!is_safe_path("/home/~user/file", false));
    assert!(!is_safe_path("/etc/passwd", false));
    assert!(is_safe_path("/etcetera/file", false));
    assert!(is_safe_path("/binaries/x.mp4", false));
    assert!(!is_safe_path("/etc", false));
    assert!(!is_safe_path("/usr/bin", false));
    assert!(!is_safe_path("/bin/sh", false));
    assert!(!is_safe_path("/sbin/x", false));
    assert!(!is_safe_path("/usr/bin/x", false));
    assert!(!is_safe_path("/usr/sbin/x", false));
    assert!(is_safe_path("/usr/local/bin/x", false));
}

#[test]
fn join_puts_one_separator() {
    assert_eq!(join_path("/home/u/Downloads", "a.mp4", false), "/home/u/Downloads/a.mp4");
    assert_eq!(join_path("/home/u/Downloads/", "a.mp4", false), "/home/u/Downloads/a.mp4");
    assert_eq!(join_path("", "a.mp4", false), "a.mp4");
    assert_eq!(join_path("/home/u", "/abs.mp4", false), "/abs.mp4");
}

#[test]
fn collision_rename_keeps_stem_and_extension() {
    let renamed = renamed_for_collision("/home/u/Downloads/clip.mp4", "abcd1234", false);
    assert_eq!(renamed.as_deref(), Some("/home/u/Downloads/clip_abcd1234.mp4"));
    let dotted = renamed_for_collision("/home/u/a.b/my.clip.mp3", "00ff00ff", false);
    assert_eq!(dotted.as_deref(), Some("/home/u/a.b/my.clip_00ff00ff.mp3"));
    assert_eq!(renamed_for_collision("/home/u/.mp4", "abcd1234", false), None);
    assert_eq!(renamed_for_collision("/home/u/noext", "abcd1234", false), None);
}

#[test]
fn unique_token_is_eight_hex_digits() {
    let a = unique_token();
    let b = unique_token();
    assert_eq!(a.chars().count(), 8);
    assert!(a.chars().all(|c| c.is_ascii_hexdigit() && !c.is_ascii_uppercase()));
    assert_ne!(a, b);
    let path = "/home/u/Downloads/clip.mp4";
    let renamed = renamed_for_collision(path, &a, false).unwrap();
    assert_ne!(renamed, path);
    assert!(renamed.starts_with("/home/u/Downloads/clip_"));
    assert!(renamed.ends_with(".mp4"));
}

#[test]
fn windows_paths_follow_windows_rules() {
    assert!(is_safe_path("C:\\Users\\me\\Downloads\\a.mp4", true));
    assert!(is_safe_path("d:/media/a.mp4", true));
    assert!(is_safe_path("\\\\server\\share\\a.mp4", true));
    assert!(!is_safe_path("C:\\Windows\\System32\\x.mp4", true));
    assert!(!is_safe_path("C:\\Users\\me\\WINDOWS-stuff\\a.mp4", true));
    assert!(!is_safe_path("C:\\data\\SysTem32\\a.mp4", true));
    assert!(!is_safe_path("//windows/system32/a.mp4", true));
    assert!(!is_safe_path("/home/me/a.mp4", true));
    assert!(!is_safe_path("C:Users\\a.mp4", true));
    assert!(!is_safe_path("C:\\Users\\..\\a.mp4", true));
    assert!(is_safe_path("C:\\etc\\a.mp4", true));
}

#[test]
fn windows_join_and_rename() {
    assert_eq!(join_path("C:\\Users\\me", "a.mp4", true), "C:\\Users\\me\\a.mp4");
    assert_eq!(join_path("C:\\Users\\me\\", "a.mp4", true), "C:\\Users\\me\\a.mp4");
    assert_eq!(join_path("C:/Users/me/", "a.mp4", true), "C:/Users/me/a.mp4");
    assert_eq!(join_path("C:", "a.mp4", true), "C:a.mp4");
    assert_eq!(
        renamed_for_collision("C:\\Users\\me\\clip.mp4", "abcd1234", true).as_deref(),
        Some("C:\\Users\\me\\clip_abcd1234.mp4")
    );
    assert_eq!(
        renamed_for_collision("C:\\a.b\\clip", "abcd1234", true),
        None
    );
}
