use hdesk_platform::mac_util::{active_user_from_ls, is_locked_from_ioreg, is_prelogin_user_id};

#[test]
fn console_owner_from_ls() {
    assert_eq!(
        active_user_from_ls("crw-------  1 alice  staff    0,   0 Jan  1 10:00 /dev/console\n"),
        "alice"
    );
    assert_eq!(active_user_from_ls("total 0\ncrw------- 1 0 0 0, 0 /dev/console"), "0");
    assert_eq!(active_user_from_ls(""), "");
    assert!(is_prelogin_user_id("0"));
    assert!(!is_prelogin_user_id("501"));
}

#[test]
fn lock_state_from_ioreg() {
    assert!(is_locked_from_ioreg("  | \"CGSSessionScreenIsLocked\"=Yes\n"));
    assert!(is_locked_from_ioreg("\"CGSSessionScreenIsLocked\"=true"));
    assert!(!is_locked_from_ioreg("\"CGSSessionScreenIsLocked\"=No"));
    assert!(!is_locked_from_ioreg(""));
}

use hdesk_platform::mac_focus::{
    frontmost_window_candidates, make_foreground_window_id, other_app_window_named,
    ListedWindow, MacWindowCandidate, NamedWindowOwner,
};
use hdesk_platform::mac_util::{
    app_bundle_path, correct_app_name, dmg_copy_paths, extracted_exe_path, is_installed_daemon_from,
    launch_agent_plist, launch_daemon_plist, mac_update_route, MacUpdateRoute, DMG_MOUNT_POINT,
    display_number, elevate_script, focused_display_index, is_server_process, opens_untitled_for,
    pointer_association, CursorSeed,
};

#[test]
fn privilege_scripts_name_the_app() {
    assert_eq!(
        correct_app_name(
            "id com.carriez.rustdesk runs rustdesk as RustDesk",
            Some("com.hdesk.app"),
            "HDesk"
        ),
        "id com.hdesk.app runs hdesk as HDesk"
    );
    assert_eq!(
        correct_app_name("id com.carriez.rustdesk", None, "HDesk"),
        "id com.carriez.hdesk"
    );
}

#[test]
fn launchd_files_and_update_paths() {
    assert_eq!(
        launch_daemon_plist("com.hdesk.HDesk"),
        "/Library/LaunchDaemons/com.hdesk.HDesk_service.plist"
    );
    assert_eq!(
        launch_agent_plist("com.hdesk.HDesk"),
        "/Library/LaunchAgents/com.hdesk.HDesk_server.plist"
    );
    assert!(is_installed_daemon_from(true, true));
    assert!(!is_installed_daemon_from(true, false));
    assert!(!is_installed_daemon_from(false, true));
    assert_eq!(mac_update_route(true, false), MacUpdateRoute::DaemonAgent);
    assert_eq!(mac_update_route(true, true), MacUpdateRoute::AdminScript);
    assert_eq!(mac_update_route(false, false), MacUpdateRoute::AdminScript);
    assert_eq!(app_bundle_path("HDesk"), "/Applications/HDesk.app");
    assert_eq!(
        extracted_exe_path("/tmp/upd", "HDesk"),
        "/tmp/upd/HDesk.app/Contents/MacOS/HDesk"
    );
    assert_eq!(
        dmg_copy_paths(DMG_MOUNT_POINT, "/tmp/upd", "HDesk"),
        (
            format!("{}/HDesk.app", DMG_MOUNT_POINT),
            "/tmp/upd/HDesk.app".to_string()
        )
    );
}

#[test]
fn frontmost_windows_from_the_list() {
    let listed = vec![
        ListedWindow { owner_pid: Some(7), layer: Some(0), bounds: Some((0, 0, 100, 80)), window_number: Some(3) },
        ListedWindow { owner_pid: Some(8), layer: Some(0), bounds: Some((0, 0, 100, 80)), window_number: Some(4) },
        ListedWindow { owner_pid: Some(7), layer: Some(25), bounds: Some((0, 0, 100, 80)), window_number: Some(5) },
        ListedWindow { owner_pid: Some(7), layer: None, bounds: Some((5, 5, 0, 80)), window_number: Some(6) },
        ListedWindow { owner_pid: Some(7), layer: None, bounds: None, window_number: Some(7) },
        ListedWindow { owner_pid: None, layer: Some(0), bounds: Some((0, 0, 10, 10)), window_number: Some(8) },
        ListedWindow { owner_pid: Some(7), layer: None, bounds: Some((1, 2, 30, 40)), window_number: None },
    ];
    assert_eq!(
        frontmost_window_candidates(&listed, 7),
        vec![
            MacWindowCandidate { rect: (0, 0, 100, 80), foreground_hwnd: make_foreground_window_id(7, 3) },
            MacWindowCandidate { rect: (1, 2, 30, 40), foreground_hwnd: make_foreground_window_id(7, 0) },
        ]
    );
    assert_eq!(make_foreground_window_id(7, 0), 7isize << 32);
}

#[test]
fn older_screen_recording_test() {
    let own = NamedWindowOwner { is_self: true, exe_name: Some("HDesk".to_string()) };
    let dock = NamedWindowOwner { is_self: false, exe_name: Some("Dock".to_string()) };
    let hidden = NamedWindowOwner { is_self: false, exe_name: None };
    let finder = NamedWindowOwner { is_self: false, exe_name: Some("Finder".to_string()) };
    assert!(!other_app_window_named(&[own, dock, hidden]));
    let own = NamedWindowOwner { is_self: true, exe_name: Some("HDesk".to_string()) };
    assert!(other_app_window_named(&[own, finder]));
    assert!(!other_app_window_named(&[]));
}

use hdesk_platform::geometry::DisplayInfo;

fn display(name: &str) -> DisplayInfo {
    DisplayInfo { x: 0, y: 0, width: 100, height: 100, name: name.to_string() }
}

#[test]
fn screens_pointer_and_cursor_seed() {
    let ds = vec![display("1"), display("69734208"), display("69734208")];
    assert_eq!(focused_display_index(&ds, 69734208), Some(1));
    assert_eq!(focused_display_index(&ds, 5), None);
    assert_eq!(pointer_association(Some((0, 0, 1, 1))), 0);
    assert_eq!(pointer_association(None), 1);
    let mut seed = CursorSeed { latest: 0 };
    assert!(seed.observe(3));
    assert!(!seed.observe(3));
    assert!(seed.observe(4));
    assert_eq!(seed.latest, 4);
    assert_eq!(display_number("42"), Some(42));
    assert_eq!(display_number("+7"), Some(7));
    assert_eq!(display_number("x1"), None);
    assert_eq!(display_number("4294967296"), None);
}

#[test]
fn elevation_and_processes() {
    assert_eq!(
        elevate_script("/Applications/HDesk.app/Contents/MacOS/HDesk", &["--install", "x"], "HDesk wants to install"),
        "do shell script \"/Applications/HDesk.app/Contents/MacOS/HDesk --install x\" with prompt \"HDesk wants to install\" with administrator privileges"
    );
    assert_eq!(
        elevate_script("/a", &[], "p"),
        "do shell script \"/a\" with prompt \"p\" with administrator privileges"
    );
    let args = vec!["/a".to_string(), "--server".to_string()];
    assert!(is_server_process(&args, true));
    assert!(!is_server_process(&args, false));
    assert!(!is_server_process(&["/a".to_string()], true));
    assert!(opens_untitled_for("--server"));
    assert!(opens_untitled_for("--cm"));
    assert!(opens_untitled_for("--tray"));
    assert!(!opens_untitled_for("--connect"));
}
