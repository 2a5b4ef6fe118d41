use video_downloader::resolver::{
    BinaryResolver, PermissionFailure, ResolverAction, ResolverEvent, ResolverPhase,
};

fn path_of(a: &ResolverAction) -> &str {
    match a {
        ResolverAction::CreateDir(p)
        | ResolverAction::CheckExists(p)
        | ResolverAction::Download(p)
        | ResolverAction::SetExecutable(p)
        | ResolverAction::CheckVersion(p)
        | ResolverAction::RemoveBinary(p) => p,
        _ => panic!("action carries no path"),
    }
}

#[test]
fn missing_binary_is_downloaded_and_made_executable() {
    let (mut r, a) = BinaryResolver::new(false);
    assert!(matches!(a, ResolverAction::LocateDataDir));
    let a = r.step(ResolverEvent::DataDir(Some("/home/u/.local/share".to_string())));
    assert!(matches!(a, ResolverAction::CreateDir(_)));
    assert_eq!(path_of(&a), "/home/u/.local/share/my-video-downloader");
    let a = r.step(ResolverEvent::DirReady(Ok(())));
    assert!(matches!(a, ResolverAction::CheckExists(_)));
    assert_eq!(path_of(&a), "/home/u/.local/share/my-video-downloader/yt-dlp");
    let a = r.step(ResolverEvent::Exists(false));
    assert!(matches!(a, ResolverAction::Download(_)));
    assert_eq!(path_of(&a), "/home/u/.local/share/my-video-downloader");
    let a = r.step(ResolverEvent::Downloaded(Ok("/dl/yt-dlp".to_string())));
    assert!(matches!(a, ResolverAction::SetExecutable(_)));
    assert_eq!(path_of(&a), "/dl/yt-dlp");
    let a = r.step(ResolverEvent::PermissionsSet(Ok(())));
    match a {
        ResolverAction::Done(Ok(p)) => assert_eq!(p, "/dl/yt-dlp"),
        _ => panic!("expected the downloaded path"),
    }
    assert!(r.phase == ResolverPhase::Finished);
}

#[test]
fn windows_binary_needs_no_permissions() {
    let (mut r, _) = BinaryResolver::new(true);
    r.step(ResolverEvent::DataDir(Some("C:/Users/u/AppData".to_string())));
    let a = r.step(ResolverEvent::DirReady(Ok(())));
    assert_eq!(path_of(&a), "C:/Users/u/AppData\\my-video-downloader\\yt-dlp.exe");
    r.step(ResolverEvent::Exists(false));
    match r.step(ResolverEvent::Downloaded(Ok("C:/x/yt-dlp.exe".to_string()))) {
        ResolverAction::Done(Ok(p)) => assert_eq!(p, "C:/x/yt-dlp.exe"),
        _ => panic!("expected the downloaded path"),
    }
}

#[test]
fn working_binary_is_kept() {
    let (mut r, _) = BinaryResolver::new(false);
    r.step(ResolverEvent::DataDir(Some("/data".to_string())));
    r.step(ResolverEvent::DirReady(Ok(())));
    let a = r.step(ResolverEvent::Exists(true));
    assert!(matches!(a, ResolverAction::CheckVersion(_)));
    match r.step(ResolverEvent::VersionOk(true)) {
        ResolverAction::Done(Ok(p)) => assert_eq!(p, "/data/my-video-downloader/yt-dlp"),
        _ => panic!("expected the cached path"),
    }
}

#[test]
fn stale_binary_is_replaced_once() {
    let (mut r, _) = BinaryResolver::new(false);
    r.step(ResolverEvent::DataDir(Some("/data".to_string())));
    r.step(ResolverEvent::DirReady(Ok(())));
    r.step(ResolverEvent::Exists(true));
    let a = r.step(ResolverEvent::VersionOk(false));
    assert!(matches!(a, ResolverAction::RemoveBinary(_)));
    let a = r.step(ResolverEvent::Removed);
    assert!(matches!(a, ResolverAction::Download(_)));
    let a = r.step(ResolverEvent::Downloaded(Ok("/data/my-video-downloader/yt-dlp".to_string())));
    assert!(matches!(a, ResolverAction::SetExecutable(_)));
    match r.step(ResolverEvent::PermissionsSet(Err(PermissionFailure::SetMode("denied".to_string())))) {
        ResolverAction::Done(Ok(p)) => assert_eq!(p, "/data/my-video-downloader/yt-dlp"),
        _ => panic!("a permission failure after a replacement is passed over"),
    }
}

#[test]
fn failed_replacement_returns_old_path() {
    let (mut r, _) = BinaryResolver::new(false);
    r.step(ResolverEvent::DataDir(Some("/data".to_string())));
    r.step(ResolverEvent::DirReady(Ok(())));
    r.step(ResolverEvent::Exists(true));
    r.step(ResolverEvent::VersionOk(false));
    r.step(ResolverEvent::Removed);
    match r.step(ResolverEvent::Downloaded(Err("offline".to_string()))) {
        ResolverAction::Done(Ok(p)) => assert_eq!(p, "/data/my-video-downloader/yt-dlp"),
        _ => panic!("expected the old path as a last resort"),
    }
}

#[test]
fn resolver_errors_carry_messages() {
    let (mut r, _) = BinaryResolver::new(false);
    match r.step(ResolverEvent::DataDir(None)) {
        ResolverAction::Done(Err(m)) => assert_eq!(m, "アプリケーションデータディレクトリの取得に失敗しました"),
        _ => panic!("expected an error"),
    }
    let (mut r, _) = BinaryResolver::new(false);
    r.step(ResolverEvent::DataDir(Some("/data".to_string())));
    match r.step(ResolverEvent::DirReady(Err("read-only".to_string()))) {
        ResolverAction::Done(Err(m)) => assert_eq!(m, "ディレクトリの作成に失敗しました: read-only"),
        _ => panic!("expected an error"),
    }
    let (mut r, _) = BinaryResolver::new(false);
    r.step(ResolverEvent::DataDir(Some("/data".to_string())));
    r.step(ResolverEvent::DirReady(Ok(())));
    r.step(ResolverEvent::Exists(false));
    match r.step(ResolverEvent::Downloaded(Err("offline".to_string()))) {
        ResolverAction::Done(Err(m)) => assert_eq!(m, "yt-dlpバイナリのダウンロードに失敗しました: offline"),
        _ => panic!("expected an error"),
    }
    let (mut r, _) = BinaryResolver::new(false);
    r.step(ResolverEvent::DataDir(Some("/data".to_string())));
    r.step(ResolverEvent::DirReady(Ok(())));
    r.step(ResolverEvent::Exists(false));
    r.step(ResolverEvent::Downloaded(Ok("/data/x".to_string())));
    match r.step(ResolverEvent::PermissionsSet(Err(PermissionFailure::SetMode("denied".to_string())))) {
        ResolverAction::Done(Err(m)) => assert_eq!(m, "権限の設定に失敗しました: denied"),
        _ => panic!("expected an error"),
    }
}

#[test]
fn unexpected_event_repeats_pending_action() {
    let (mut r, _) = BinaryResolver::new(false);
    r.step(ResolverEvent::DataDir(Some("/data".to_string())));
    let a = r.step(ResolverEvent::VersionOk(true));
    assert!(matches!(a, ResolverAction::CreateDir(_)));
    assert!(r.phase == ResolverPhase::CreatingDir);
}

#[test]
fn finished_resolver_reports_it() {
    let (mut r, _) = BinaryResolver::new(false);
    r.step(ResolverEvent::DataDir(None));
    match r.step(ResolverEvent::Removed) {
        ResolverAction::Done(Err(m)) => assert_eq!(m, "the resolver has already finished"),
        _ => panic!("expected an error"),
    }
}

#[test]
fn unreadable_metadata_is_reported() {
    let (mut r, _) = BinaryResolver::new(false);
    r.step(ResolverEvent::DataDir(Some("/data".to_string())));
    r.step(ResolverEvent::DirReady(Ok(())));
    r.step(ResolverEvent::Exists(false));
    r.step(ResolverEvent::Downloaded(Ok("/data/x".to_string())));
    match r.step(ResolverEvent::PermissionsSet(Err(PermissionFailure::ReadMetadata("gone".to_string())))) {
        ResolverAction::Done(Err(m)) => assert_eq!(m, "メタデータの取得に失敗しました: gone"),
        _ => panic!("expected an error"),
    }
}
