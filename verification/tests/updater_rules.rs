use hdesk_platform::updater::{
    controlling_session_args, download_file_name_from_parsed, get_download_file_from_url,
    get_release_asset_filename, get_release_download_root, get_version_from_update_url,
    has_no_active_conns, has_no_controlling_conns, has_no_controlling_processes,
    is_release_page_url, manually_check_update, parse_total_size_from_headers,
    plan_update_download, prefer_msi_installer, resolve_download_url, size_from_head_reply,
    size_from_ranged_get_reply, start_auto_update, stop_auto_update, update_check_allowed,
    update_controlling_session_count, UpdateLoopAction, UpdateLoopEvent, ReleaseTarget, AutoUpdateLoop,
    UpdateError, UpdateMsg, UpdaterControl, MIN_INTERVAL_MS, ONE_DAY_MS, RETRY_INTERVAL_MS,
    OFFICIAL_RELEASE_ASSET_PREFIX,
};

const RELEASE_PAGE: &str = "https://github.com/owner/repo/releases/tag/1.4.2";

#[test]
fn release_page_urls_are_recognized() {
    assert!(is_release_page_url(RELEASE_PAGE));
    assert!(!is_release_page_url("https://example.com/hdesk-1.4.2-x86_64.exe"));
    assert!(!is_release_page_url("https://example.com/releases/download/1.4.2/a.exe"));
}

#[test]
fn version_comes_from_asset_name_or_last_segment() {
    let v = |u: &str| get_version_from_update_url(u);
    assert_eq!(OFFICIAL_RELEASE_ASSET_PREFIX, "hdesk");
    assert_eq!(
        v("https://github.com/o/r/releases/download/1.4.2/hdesk-1.4.2-x86_64.msi").as_deref(),
        Some("1.4.2")
    );
    assert_eq!(v("https://x.org/hdesk-1.4.2-x86-sciter.exe").as_deref(), Some("1.4.2"));
    assert_eq!(v("https://x.org/hdesk-2.0.0-aarch64.dmg").as_deref(), Some("2.0.0"));
    assert_eq!(v(RELEASE_PAGE).as_deref(), Some("1.4.2"));
    assert_eq!(v("https://x.org/y/1.5.0?foo=bar/baz").as_deref(), Some("1.5.0"));
    assert_eq!(v("https://x.org/hdesk-1.2.3.exe").as_deref(), Some("hdesk-1.2.3.exe"));
    assert_eq!(v("https://x.org/y/"), None);
    assert_eq!(v(""), None);
}

#[test]
fn download_root_replaces_first_tag_marker() {
    assert_eq!(
        get_release_download_root(RELEASE_PAGE),
        Ok(String::from("https://github.com/owner/repo/releases/download/1.4.2"))
    );
    assert_eq!(
        get_release_download_root("https://a/releases/tag/x/releases/tag/y"),
        Ok(String::from("https://a/releases/download/x/releases/tag/y"))
    );
    assert_eq!(
        get_release_download_root("https://example.com/files/1.4.2"),
        Err(UpdateError::UnsupportedReleasePage)
    );
}

#[test]
fn asset_file_names_per_target() {
    let f = |t| get_release_asset_filename("1.4.2", t);
    assert_eq!(
        f(ReleaseTarget::WindowsFlutter { prefer_msi: true }),
        Ok(String::from("hdesk-1.4.2-x86_64.msi"))
    );
    assert_eq!(
        f(ReleaseTarget::WindowsFlutter { prefer_msi: false }),
        Ok(String::from("hdesk-1.4.2-x86_64.exe"))
    );
    assert_eq!(f(ReleaseTarget::WindowsSciter), Ok(String::from("hdesk-1.4.2-x86-sciter.exe")));
    assert_eq!(f(ReleaseTarget::MacX86_64), Ok(String::from("hdesk-1.4.2-x86_64.dmg")));
    assert_eq!(f(ReleaseTarget::MacAarch64), Ok(String::from("hdesk-1.4.2-aarch64.dmg")));
    assert_eq!(f(ReleaseTarget::Unsupported), Err(UpdateError::UnsupportedPlatform));
}

#[test]
fn release_pages_resolve_to_the_target_asset() {
    assert_eq!(
        resolve_download_url(RELEASE_PAGE, ReleaseTarget::MacAarch64),
        Ok((
            String::from("1.4.2"),
            String::from("https://github.com/owner/repo/releases/download/1.4.2/hdesk-1.4.2-aarch64.dmg")
        ))
    );
    let direct = "https://cdn.example.com/hdesk-1.4.3-x86_64.exe";
    assert_eq!(
        resolve_download_url(direct, ReleaseTarget::Unsupported),
        Ok((String::from("1.4.3"), String::from(direct)))
    );
    assert_eq!(
        resolve_download_url("https://example.com/", ReleaseTarget::MacX86_64),
        Err(UpdateError::UnsupportedUpdateUrl)
    );
    assert_eq!(
        resolve_download_url(RELEASE_PAGE, ReleaseTarget::Unsupported),
        Err(UpdateError::UnsupportedPlatform)
    );
}

#[test]
fn download_file_names_from_urls() {
    let f = |u: &str| get_download_file_from_url(u);
    assert_eq!(
        f("https://example.com/a/b/hdesk-1.4.2-x86_64.exe?x=1").as_deref(),
        Some("hdesk-1.4.2-x86_64.exe")
    );
    assert_eq!(f("https://example.com/dl/folder%2Fhdesk.dmg").as_deref(), Some("hdesk.dmg"));
    assert_eq!(f("https://example.com/dl/folder%2fhdesk.dmg").as_deref(), Some("hdesk.dmg"));
    assert_eq!(f("not a url/with/file.bin?x").as_deref(), Some("file.bin"));
    assert_eq!(f("https://example.com/"), None);
    assert_eq!(f("mailto:someone@example.com"), None);
}

#[test]
fn file_name_from_a_parsed_path() {
    assert_eq!(
        download_file_name_from_parsed("ignored", Some("/a/b/c.exe")).as_deref(),
        Some("c.exe")
    );
    assert_eq!(download_file_name_from_parsed("ignored", Some("c.exe")), None);
    assert_eq!(
        download_file_name_from_parsed("x/y/z.msi?q", None).as_deref(),
        Some("z.msi")
    );
    assert_eq!(download_file_name_from_parsed("x/y/?q", None), None);
}

#[test]
fn total_size_from_headers() {
    assert_eq!(parse_total_size_from_headers(Some("bytes 0-0/12345"), Some("1")), Some(12345));
    assert_eq!(parse_total_size_from_headers(Some("bytes 0-0/*"), Some("77")), Some(77));
    assert_eq!(parse_total_size_from_headers(Some("bytes 0-0/ 99 "), None), Some(99));
    assert_eq!(parse_total_size_from_headers(None, Some(" 77")), None);
    assert_eq!(parse_total_size_from_headers(None, Some("+5")), Some(5));
    assert_eq!(parse_total_size_from_headers(None, None), None);
    assert_eq!(
        parse_total_size_from_headers(Some("bytes 0-0/18446744073709551616"), None),
        None
    );
}

#[test]
fn size_probe_replies() {
    assert_eq!(size_from_head_reply(true, Some(5)), Some(5));
    assert_eq!(size_from_head_reply(false, Some(5)), None);
    assert_eq!(size_from_head_reply(true, None), None);
    assert_eq!(size_from_ranged_get_reply(false, Some(1)), Err(UpdateError::SizeRequestFailed));
    assert_eq!(size_from_ranged_get_reply(true, None), Err(UpdateError::NoContentLength));
    assert_eq!(size_from_ranged_get_reply(true, Some(9)), Ok(9));
}

#[test]
fn update_plan_and_its_errors() {
    let plan = plan_update_download(RELEASE_PAGE, ReleaseTarget::WindowsFlutter { prefer_msi: false })
        .unwrap();
    assert_eq!(plan.version, "1.4.2");
    assert_eq!(
        plan.download_url,
        "https://github.com/owner/repo/releases/download/1.4.2/hdesk-1.4.2-x86_64.exe"
    );
    assert_eq!(plan.file_name, "hdesk-1.4.2-x86_64.exe");
    assert_eq!(
        plan_update_download("https://example.com/hdesk-1.0-x86_64.exe/", ReleaseTarget::MacX86_64)
            .unwrap_err(),
        UpdateError::NoFileName
    );
    assert_eq!(
        plan_update_download("https://example.com/", ReleaseTarget::MacX86_64).unwrap_err(),
        UpdateError::UnsupportedUpdateUrl
    );
}

#[test]
fn checks_allowed_and_installer_choice() {
    assert!(update_check_allowed(true, false));
    assert!(update_check_allowed(false, true));
    assert!(!update_check_allowed(false, false));
    assert!(prefer_msi_installer(false, Some(true)));
    assert!(!prefer_msi_installer(true, Some(true)));
    assert!(!prefer_msi_installer(false, Some(false)));
    assert!(!prefer_msi_installer(false, None));
}

#[test]
fn update_loop_waits_defers_and_checks() {
    let start = 1_000;
    let mut c = AutoUpdateLoop::new(start);
    assert_eq!(c.check_interval_ms, ONE_DAY_MS);
    assert_eq!(c.on_event(UpdateLoopEvent::TimedOut, start + MIN_INTERVAL_MS - 1, true), UpdateLoopAction::Wait);
    assert_eq!(c.check_interval_ms, ONE_DAY_MS);
    assert_eq!(
        c.on_event(UpdateLoopEvent::Message(UpdateMsg::CheckUpdate), start + MIN_INTERVAL_MS, false),
        UpdateLoopAction::Wait
    );
    assert_eq!(c.check_interval_ms, RETRY_INTERVAL_MS);
    assert_eq!(
        c.on_event(UpdateLoopEvent::TimedOut, start + MIN_INTERVAL_MS, true),
        UpdateLoopAction::Check { manually: false }
    );
    assert_eq!(
        c.on_event(UpdateLoopEvent::Message(UpdateMsg::CheckUpdate), start + MIN_INTERVAL_MS, true),
        UpdateLoopAction::Check { manually: true }
    );
    c.on_check_finished(false, start + MIN_INTERVAL_MS);
    assert_eq!(c.last_check_ms, start);
    assert_eq!(c.check_interval_ms, RETRY_INTERVAL_MS);
    c.on_check_finished(true, 5_000_000);
    assert_eq!(c.last_check_ms, 5_000_000);
    assert_eq!(c.check_interval_ms, ONE_DAY_MS);
    // Within ten minutes of the success no check runs, even on request.
    assert_eq!(
        c.on_event(UpdateLoopEvent::Message(UpdateMsg::CheckUpdate), 5_000_000 + 1, true),
        UpdateLoopAction::Wait
    );
    // A clock that went back counts as no time passed.
    assert_eq!(c.on_event(UpdateLoopEvent::TimedOut, 0, true), UpdateLoopAction::Wait);
    assert_eq!(c.on_event(UpdateLoopEvent::Message(UpdateMsg::Exit), 99_999_999, true), UpdateLoopAction::Stop);
    assert_eq!(c.last_check_ms, 5_000_000);
}

#[test]
fn update_thread_is_spawned_by_the_first_request_only() {
    let mut ctl = UpdaterControl::new();
    let first = start_auto_update(&mut ctl);
    assert!(first.spawn_update_thread);
    assert_eq!(first.message, None);
    let second = manually_check_update(&mut ctl);
    assert!(!second.spawn_update_thread);
    assert_eq!(second.message, Some(UpdateMsg::CheckUpdate));
    let third = stop_auto_update(&mut ctl);
    assert!(!third.spawn_update_thread);
    assert_eq!(third.message, Some(UpdateMsg::Exit));

    let mut fresh = UpdaterControl::new();
    let stop = stop_auto_update(&mut fresh);
    assert!(stop.spawn_update_thread);
    assert_eq!(stop.message, Some(UpdateMsg::Exit));
}

#[test]
fn controlling_sessions_block_updates() {
    let mut ctl = UpdaterControl::new();
    assert!(has_no_controlling_conns(&ctl));
    assert!(has_no_active_conns(&ctl, 0));
    assert!(!has_no_active_conns(&ctl, 1));
    update_controlling_session_count(&mut ctl, 3);
    assert_eq!(ctl.controlling_sessions, 3);
    assert!(!has_no_controlling_conns(&ctl));
    assert!(!has_no_active_conns(&ctl, 0));
    update_controlling_session_count(&mut ctl, 0);
    assert!(has_no_active_conns(&ctl, 0));
}

#[test]
fn controlling_processes_by_first_argument() {
    assert_eq!(
        controlling_session_args(),
        vec!["--connect", "--play", "--file-transfer", "--view-camera", "--port-forward", "--rdp"]
    );
    assert!(has_no_controlling_processes(&[0, 0, 0, 0, 0, 0]));
    assert!(!has_no_controlling_processes(&[0, 0, 2, 0, 0, 0]));
    assert!(has_no_controlling_processes(&[]));
}

use hdesk_platform::updater::{
    restore_staged_action, stage_custom_file_action, staged_load_succeeded, update_file_kind,
    CustomFileKind, InstallAction, RestoreStagedAction, StageAction, UpdateFileKind, UpdateInstall,
};

use hdesk_platform::updater::InstallAction::{
    ClearStaleStaging, Finish, LaunchUpdater, RemoveDownload, RemoveStaging, RunMsi,
    StageCustomClient,
};

fn run_install(first: (UpdateInstall, InstallAction), outcomes: &[bool]) -> Vec<InstallAction> {
    let (mut s, mut a) = first;
    let mut steps = vec![a];
    for ok in outcomes {
        if a == InstallAction::Finish {
            break;
        }
        a = s.on_result(*ok);
        steps.push(a);
    }
    steps
}

#[test]
fn installing_a_downloaded_update() {
    assert_eq!(run_install(UpdateInstall::begin(false, true, true, true), &[true]), vec![Finish]);
    assert_eq!(
        run_install(UpdateInstall::begin(true, false, true, false), &[true]),
        vec![RemoveDownload, Finish]
    );
    assert_eq!(
        run_install(UpdateInstall::begin(true, true, true, false), &[true]),
        vec![RunMsi, Finish]
    );
    assert_eq!(
        run_install(UpdateInstall::begin(true, true, true, false), &[false, true]),
        vec![RunMsi, RemoveDownload, Finish]
    );
    assert_eq!(
        run_install(UpdateInstall::begin(true, true, false, true), &[true, false, true, true]),
        vec![StageCustomClient, LaunchUpdater, RemoveStaging, RemoveDownload, Finish]
    );
    assert_eq!(
        run_install(UpdateInstall::begin(true, true, false, true), &[false, true]),
        vec![StageCustomClient, RemoveDownload, Finish]
    );
    assert_eq!(
        run_install(UpdateInstall::begin(true, true, false, false), &[false, false, true]),
        vec![ClearStaleStaging, LaunchUpdater, RemoveDownload, Finish]
    );
    assert_eq!(
        run_install(UpdateInstall::begin(true, true, false, false), &[true, true]),
        vec![ClearStaleStaging, LaunchUpdater, Finish]
    );
}

#[test]
fn update_packages_and_custom_staging() {
    assert_eq!(update_file_kind("C:\\t\\hdesk-1.4.2-x86_64.exe"), Some(UpdateFileKind::Exe));
    assert_eq!(update_file_kind("C:\\t\\hdesk-1.4.2-x86_64.msi"), Some(UpdateFileKind::Msi));
    assert_eq!(update_file_kind("C:\\t\\hdesk-1.4.2-x86_64.dmg"), None);
    assert_eq!(stage_custom_file_action(CustomFileKind::Missing), StageAction::Skip);
    assert_eq!(stage_custom_file_action(CustomFileKind::Symlink), StageAction::Refuse);
    assert_eq!(stage_custom_file_action(CustomFileKind::RegularFile), StageAction::Copy);
    assert_eq!(stage_custom_file_action(CustomFileKind::Other), StageAction::Skip);
    assert_eq!(
        restore_staged_action(false, CustomFileKind::RegularFile),
        RestoreStagedAction::Proceed
    );
    assert_eq!(
        restore_staged_action(true, CustomFileKind::Symlink),
        RestoreStagedAction::Refuse
    );
    assert_eq!(
        restore_staged_action(true, CustomFileKind::RegularFile),
        RestoreStagedAction::CopyAndLoad
    );
    assert_eq!(
        restore_staged_action(true, CustomFileKind::Missing),
        RestoreStagedAction::Proceed
    );
    assert!(staged_load_succeeded(true, true));
    assert!(!staged_load_succeeded(true, false));
    assert!(staged_load_succeeded(false, false));
}

#[test]
fn asset_names_give_their_version_back() {
    let root = "https://github.com/owner/repo/releases/download/1.4.2";
    for target in [
        ReleaseTarget::WindowsFlutter { prefer_msi: true },
        ReleaseTarget::WindowsFlutter { prefer_msi: false },
        ReleaseTarget::WindowsSciter,
        ReleaseTarget::MacX86_64,
        ReleaseTarget::MacAarch64,
    ] {
        let name = get_release_asset_filename("1.4.2", target).unwrap();
        assert_eq!(
            get_version_from_update_url(&format!("{root}/{name}")),
            Some("1.4.2".to_string())
        );
    }
}
