use hdesk_platform::resolutions::{mac_resolutions, windows_resolutions};
use hdesk_platform::win_install::{
    display_version, get_reg_cmd, get_reg_msi_key, get_subkey, install_flags, install_location,
    remove_meta_toml_cmd, rename_exe_cmd, replace_all_chars, restore_service_cmd,
    update_me_msi_cmd, version_parts,
};
use hdesk_platform::win_service::{
    no_port_forwarding, relaunch_after_timeout, ServiceAction, ServiceLoop, ServiceMsg,
    TimeoutStep, NO_SESSION,
};
use hdesk_platform::win_util::{
    elevation_action, elevation_args, get_char_from_unicode, logon_user_parts,
    str_to_device_name, wide_string, ElevationAction, WakeLock, ES_AWAYMODE_REQUIRED,
    ES_CONTINUOUS, ES_DISPLAY_REQUIRED, ES_SYSTEM_REQUIRED,
};

#[test]
fn uninstall_subkeys() {
    assert_eq!(
        get_subkey("HDesk", false),
        "HKEY_LOCAL_MACHINE\\Software\\Microsoft\\Windows\\CurrentVersion\\Uninstall\\HDesk"
    );
    assert_eq!(
        get_subkey("HDesk", true),
        "HKEY_LOCAL_MACHINE\\Software\\Wow6432Node\\Microsoft\\Windows\\CurrentVersion\\Uninstall\\HDesk"
    );
    assert_eq!(
        get_subkey("Microsoft Tool", true),
        "HKEY_LOCAL_MACHINE\\Software\\Wow6432Node\\Microsoft\\Windows\\CurrentVersion\\Uninstall\\Wow6432Node\\Microsoft Tool"
    );
}

#[test]
fn version_fields_and_display_version() {
    let (a, b, c) = version_parts("1.4.2");
    assert_eq!((a.as_str(), b.as_str(), c.as_str()), ("1", "4", "2"));
    let (a, b, c) = version_parts("7");
    assert_eq!((a.as_str(), b.as_str(), c.as_str()), ("7", "0", "0"));
    let (a, b, c) = version_parts("1.2.3.4");
    assert_eq!((a.as_str(), b.as_str(), c.as_str()), ("1", "2", "3"));
    assert_eq!(display_version("1.4.2-beta-1"), "1.4.2.beta.1");
    let s: Vec<char> = "aaa".chars().collect();
    let from: Vec<char> = "aa".chars().collect();
    let to: Vec<char> = "b".chars().collect();
    assert_eq!(replace_all_chars(&s, &from, &to).iter().collect::<String>(), "aaa".replace("aa", "b"));
}

#[test]
fn install_options_and_location() {
    let f = install_flags("desktopicon startmenu printer", true);
    assert!(f.desktop_shortcut && f.start_menu_shortcut && f.printer);
    let f = install_flags("startmenu printer", false);
    assert!(!f.desktop_shortcut && f.start_menu_shortcut && !f.printer);
    let (p, e) = install_location("D:\\Apps\\HDesk\\\\", "C:\\Program Files\\HDesk", "C:\\Program Files\\HDesk\\HDesk.exe");
    assert_eq!(p, "D:\\Apps\\HDesk");
    assert_eq!(e, "D:\\Apps\\HDesk\\HDesk.exe");
    let (p, e) = install_location("\\\\", "C:\\Program Files\\HDesk", "C:\\Program Files\\HDesk\\HDesk.exe");
    assert_eq!(p, "C:\\Program Files\\HDesk");
    assert_eq!(e, "C:\\Program Files\\HDesk\\HDesk.exe");
}

#[test]
fn msi_product_key() {
    let subkey = "HKEY_LOCAL_MACHINE\\Software\\Microsoft\\Windows\\CurrentVersion\\Uninstall\\HDesk";
    let uninstall = "MsiExec.exe /X \"{8C4A3B1E-0000-1111-2222-333344445555}\"";
    assert_eq!(
        get_reg_msi_key(subkey, true, None, uninstall).as_deref(),
        Some("HKEY_LOCAL_MACHINE\\Software\\Microsoft\\Windows\\CurrentVersion\\Uninstall\\{8C4A3B1E-0000-1111-2222-333344445555}")
    );
    assert_eq!(get_reg_msi_key(subkey, false, Some(true), uninstall), None);
    assert_eq!(get_reg_msi_key(subkey, true, Some(false), uninstall), None);
    assert_eq!(get_reg_msi_key(subkey, true, Some(true), ""), None);
    assert_eq!(get_reg_msi_key(subkey, true, Some(true), "x } {"), None);
    assert_eq!(get_reg_msi_key("NoSlash", true, Some(true), uninstall), None);
}

#[test]
fn registry_update_commands() {
    let cmd = get_reg_cmd("K", Some(false), "C:\\i.ico", "1.4.2", "2024-01-02", "1", "4", "2", 1234);
    let expected = format!(
        "\n{}\nreg add K /f /v DisplayVersion /t REG_SZ /d \"1.4.2\"\nreg add K /f /v Version /t REG_SZ /d \"1.4.2\"\nreg add K /f /v BuildDate /t REG_SZ /d \"2024-01-02\"\nreg add K /f /v VersionMajor /t REG_DWORD /d 1\nreg add K /f /v VersionMinor /t REG_DWORD /d 4\nreg add K /f /v VersionBuild /t REG_DWORD /d 2\nreg add K /f /v EstimatedSize /t REG_DWORD /d 1234\n        ",
        "reg add K /f /v DisplayIcon /t REG_SZ /d \"C:\\i.ico\""
    );
    assert_eq!(cmd, expected);
    let msi = get_reg_cmd("K", Some(true), "C:\\i.ico", "1.4.2", "d", "1", "4", "2", 0);
    assert!(msi.starts_with("\n\nreg add K /f /v DisplayVersion"));
    assert!(msi.ends_with("EstimatedSize /t REG_DWORD /d 0\n        "));
    assert_eq!(update_me_msi_cmd("a.msi", true), "chcp 65001 && msiexec /i a.msi /qn LAUNCH_TRAY_APP=N");
    assert_eq!(update_me_msi_cmd("a.msi", false), "chcp 65001 && msiexec /i a.msi ");
    assert_eq!(restore_service_cmd(true, "HDesk"), "sc start HDesk");
    assert_eq!(restore_service_cmd(false, "HDesk"), "");
    assert_eq!(remove_meta_toml_cmd(true, true, "C:\\P"), "\n        del /F /Q \"C:\\P\\meta.toml\"\n        ");
    assert_eq!(remove_meta_toml_cmd(true, false, "C:\\P"), "");
    assert_eq!(rename_exe_cmd("HDesk.EXE", "C:\\P", "HDesk"), "");
    assert_eq!(
        rename_exe_cmd("setup-1.exe", "C:\\P", "HDesk"),
        "\n        move /Y \"C:\\P\\setup-1.exe\" \"C:\\P\\hdesk.exe\"\n        "
    );
}

#[test]
fn service_loop_follows_sessions() {
    let mut s = ServiceLoop::new(1);
    assert!(!s.check_session(&[1, 2], true, 2));
    assert!(s.check_session(&[2, 3], true, 2));
    assert_eq!(s.session_id, 2);
    assert!(s.check_session(&[2, 3], false, 3));
    assert_eq!(s.session_id, 3);
    assert_eq!(s.on_message(ServiceMsg::Sas), ServiceAction::SendSas);
    assert_eq!(s.on_message(ServiceMsg::UserSid(None)), ServiceAction::Nothing);
    assert_eq!(s.on_message(ServiceMsg::UserSid(Some(3))), ServiceAction::Nothing);
    assert_eq!(s.on_message(ServiceMsg::UserSid(Some(5))), ServiceAction::Launch { session_id: 5 });
    assert_eq!(s.stored_usid, Some(5));
    // The session a user picked is kept across timeouts.
    assert_eq!(s.on_timeout(6), TimeoutStep::Same);
    assert_eq!(s.session_id, 5);
    assert_eq!(s.on_timeout(NO_SESSION), TimeoutStep::Skip);
    assert_eq!(s.on_message(ServiceMsg::Close), ServiceAction::Stop);
    let mut t = ServiceLoop::new(1);
    assert_eq!(t.on_timeout(4), TimeoutStep::Switched);
    assert_eq!(t.session_id, 4);
    assert_eq!(t.on_message(ServiceMsg::Other), ServiceAction::Nothing);
    assert!(no_port_forwarding(0));
    assert!(!no_port_forwarding(2));
    assert_eq!(relaunch_after_timeout(true, false), None);
    assert_eq!(relaunch_after_timeout(false, true), Some(false));
    assert_eq!(relaunch_after_timeout(false, false), Some(true));
}

#[test]
fn display_modes() {
    assert_eq!(
        windows_resolutions(&[(1920, 1080), (1280, 720), (1920, 1080), (800, 600), (1280, 720)]),
        vec![(1920, 1080), (1280, 720), (800, 600)]
    );
    assert_eq!(
        mac_resolutions(&[(1280, 720), (1920, 1080), (1920, 1200), (1280, 720), (640, 480)]),
        vec![(1920, 1200), (1920, 1080), (1280, 720), (640, 480)]
    );
    let mut many = Vec::new();
    for w in 0..20 {
        many.push((400 + 50 * w, 300));
    }
    let listed = mac_resolutions(&many);
    assert_eq!(listed.len(), 12);
    assert_eq!(listed[0], (1350, 300));
    assert_eq!(*listed.last().unwrap(), (800, 300));
    assert_eq!(mac_resolutions(&[]), vec![]);
}

#[test]
fn wide_strings_and_device_names() {
    assert_eq!(wide_string("Ab"), vec![0x41, 0x62, 0]);
    assert_eq!(wide_string("é😀"), vec![0xE9, 0xD83D, 0xDE00, 0]);
    let expected: Vec<u16> = "\\\\.\\DISPLAY1".encode_utf16().chain(Some(0)).collect();
    let name = str_to_device_name("\\\\.\\DISPLAY1");
    assert_eq!(&name[..expected.len()], &expected[..]);
    assert!(name[expected.len()..].iter().all(|u| *u == 0));
    let long = "x".repeat(40);
    assert!(str_to_device_name(&long).iter().all(|u| *u == 'x' as u16));
}

#[test]
fn characters_from_key_units() {
    assert_eq!(get_char_from_unicode(0x41), Some('A'));
    assert_eq!(get_char_from_unicode(0x20AC), Some('€'));
    assert_eq!(get_char_from_unicode(0x0D), None);
    assert_eq!(get_char_from_unicode(0x85), None);
    assert_eq!(get_char_from_unicode(0xD800), None);
    // What key translation gives for the `A` key and for Escape.
    assert_eq!(get_char_from_unicode(0x61), Some('a'));
    assert_eq!(get_char_from_unicode(0x1B), None);
}

#[test]
fn logon_names() {
    let (d, u) = logon_user_parts("CORP\\alice");
    assert_eq!((d.as_str(), u.as_str()), ("CORP", "alice"));
    let (d, u) = logon_user_parts("alice");
    assert_eq!((d.as_str(), u.as_str()), ("alice", "alice"));
    let (d, u) = logon_user_parts("A\\b\\c");
    assert_eq!((d.as_str(), u.as_str()), ("A", "b"));
}

#[test]
fn wake_lock_flags() {
    let w = WakeLock::new(true, false, true);
    assert_eq!(w.flag, ES_CONTINUOUS | ES_DISPLAY_REQUIRED | ES_AWAYMODE_REQUIRED);
    let mut w = WakeLock::new(false, true, false);
    assert_eq!(w.flag, ES_CONTINUOUS | ES_SYSTEM_REQUIRED);
    assert!(w.set_display(true));
    assert_eq!(w.flag, ES_CONTINUOUS | ES_SYSTEM_REQUIRED | ES_DISPLAY_REQUIRED);
    assert!(!w.set_display(true));
    assert!(w.set_display(false));
    assert_eq!(w.flag, ES_CONTINUOUS | ES_SYSTEM_REQUIRED);
}

#[test]
fn elevation_steps() {
    assert_eq!(elevation_action(false, false, true, true, None), ElevationAction::RunPortableService);
    assert_eq!(elevation_action(false, false, false, true, Some(true)), ElevationAction::Nothing);
    let a = elevation_action(true, false, false, false, Some(true));
    assert_eq!(a, ElevationAction::RunAsSystem { setup: true });
    assert_eq!(elevation_args(a), Some("--noinstall --run-as-system"));
    let a = elevation_action(false, false, false, false, Some(false));
    assert_eq!(elevation_args(a), Some("--elevate"));
    assert_eq!(elevation_action(false, true, false, false, Some(false)), ElevationAction::Nothing);
    assert_eq!(elevation_action(false, false, false, false, None), ElevationAction::Nothing);
    assert_eq!(elevation_args(ElevationAction::Nothing), None);
}

use hdesk_platform::win_install::{get_create_service, get_import_config, install_info, install_option_cmd};
use hdesk_platform::win_util::{
    diff_recent_connectivity, filter_same_session_pids, is_physical_console_session,
    normalize_reg_type, ConnectivityItem, RegRaw,
};

#[test]
fn install_info_and_service_scripts() {
    let (p, m, e) = install_info("D:\\Apps\\HDesk\\", "C:\\Program Files\\HDesk", "HDesk");
    assert_eq!(p, "D:\\Apps\\HDesk");
    assert_eq!(m, "%ProgramData%\\Microsoft\\Windows\\Start Menu\\Programs\\HDesk");
    assert_eq!(e, "D:\\Apps\\HDesk\\HDesk.exe");
    let (p, _, e) = install_info("", "C:\\Program Files\\HDesk", "HDesk");
    assert_eq!(p, "C:\\Program Files\\HDesk");
    assert_eq!(e, "C:\\Program Files\\HDesk\\HDesk.exe");
    assert_eq!(get_create_service(true, false, "HDesk", "C:\\h.exe"), "");
    assert_eq!(
        get_create_service(false, false, "HDesk", "C:\\h.exe"),
        "\nsc create HDesk binpath= \"\\\"C:\\h.exe\\\" --service\" start= auto DisplayName= \"HDesk Service\"\nsc start HDesk\n"
    );
    assert_eq!(
        get_create_service(false, true, "HDesk", "C:\\h.exe"),
        "\nif exist \"%PROGRAMDATA%\\Microsoft\\Windows\\Start Menu\\Programs\\Startup\\HDesk Tray.lnk\" del /f /q \"%PROGRAMDATA%\\Microsoft\\Windows\\Start Menu\\Programs\\Startup\\HDesk Tray.lnk\"\n"
    );
    assert_eq!(get_import_config(true, "HDesk", "C:\\h.exe", "C:\\c.toml"), "");
    assert_eq!(
        get_import_config(false, "HDesk", "C:\\h.exe", "C:\\c.toml"),
        "\nsc stop HDesk\nsc delete HDesk\nsc create HDesk binpath= \"\\\"C:\\h.exe\\\" --import-config \\\"C:\\c.toml\\\"\" start= auto DisplayName= \"HDesk Service\"\nsc start HDesk\nsc stop HDesk\nsc delete HDesk\n"
    );
    assert_eq!(
        install_option_cmd("hdesk", "PRINTER", "1").as_deref(),
        Some("chcp 65001 && reg add HKEY_CLASSES_ROOT\\.hdesk /f /v PRINTER /t REG_SZ /d \"1\"")
    );
    assert_eq!(install_option_cmd("hdesk", "PRINTER", "2"), None);
    assert_eq!(install_option_cmd("hdesk", "OTHER", "1"), None);
}

fn item(subkey: &str, recent: Option<(&[u8], isize)>) -> ConnectivityItem {
    ConnectivityItem {
        subkey: String::from(subkey),
        recent: recent.map(|(b, t)| RegRaw { bytes: b.to_vec(), vtype: t }),
    }
}

#[test]
fn connectivity_changes_are_found() {
    let before = vec![item("A", Some((&[1, 2], 3))), item("B", Some((&[9], 3))), item("C", None)];
    let same = vec![item("B", Some((&[9], 3))), item("A", Some((&[1, 2], 3))), item("C", Some((&[5], 3)))];
    assert!(diff_recent_connectivity(&before, &same).is_none());
    let changed = vec![item("D", Some((&[0], 3))), item("B", Some((&[9], 4))), item("A", Some((&[1], 3)))];
    let rec = diff_recent_connectivity(&before, &changed).unwrap();
    assert_eq!(rec.path, "SYSTEM\\CurrentControlSet\\Control\\GraphicsDrivers\\Connectivity\\B");
    assert_eq!(rec.key, "Recent");
    assert_eq!(rec.old, (vec![9], 3));
    assert_eq!(rec.new, (vec![9], 4));
    assert_eq!(normalize_reg_type(11), 11);
    assert_eq!(normalize_reg_type(12), 0);
    assert_eq!(normalize_reg_type(-1), 0);
}

#[test]
fn session_filters() {
    assert_eq!(
        filter_same_session_pids(&[10, 11, 12, 13], &[Some(1), None, Some(2), Some(1)], 1),
        vec![10, 13]
    );
    assert_eq!(is_physical_console_session(Some(1), 1), Some(true));
    assert_eq!(is_physical_console_session(Some(2), 1), Some(false));
    assert_eq!(is_physical_console_session(Some(2), u32::MAX), None);
    assert_eq!(is_physical_console_session(None, 1), None);
}

use hdesk_platform::win_util::{is_main_window_process, should_remove_temp_update_file};

#[test]
fn stale_update_packages() {
    assert!(should_remove_temp_update_file("hdesk-1.4.2-x86_64.exe", Some(7_200_000)));
    assert!(should_remove_temp_update_file("rustdesk-1.2.0-x86_64.msi", None));
    assert!(!should_remove_temp_update_file("hdesk-1.4.2-x86_64.exe", Some(60_000)));
    assert!(!should_remove_temp_update_file("hdesk-1.4.2-x86_64.dmg", None));
    assert!(!should_remove_temp_update_file("other-1.exe", None));
}

#[test]
fn main_window_processes() {
    let one = vec![String::from("C:\\Program Files\\HDesk\\HDesk.exe")];
    assert!(is_main_window_process("HDesk.exe", &one, "HDesk", false, 10, 20, false));
    assert!(!is_main_window_process("HDesk.exe", &one, "HDesk", false, 20, 20, false));
    assert!(!is_main_window_process("HDesk.exe", &one, "HDesk", false, 10, 20, true));
    assert!(!is_main_window_process("Other.exe", &one, "HDesk", false, 10, 20, false));
    let two = vec![one[0].clone(), String::from("hdesk://")];
    assert!(is_main_window_process("hdesk.exe", &two, "HDesk", true, 10, 20, false));
    assert!(!is_main_window_process("hdesk.exe", &two, "HDesk", false, 10, 20, false));
    assert!(!is_main_window_process("hdesk.exe", &[], "HDesk", false, 10, 20, false));
}

use hdesk_platform::win_install::{get_after_install, get_before_uninstall, get_uninstall, UninstallInputs};

#[test]
fn uninstall_scripts() {
    let before = get_before_uninstall("HDesk", "broker.exe", false, 42);
    assert_eq!(
        before,
        "\n    chcp 65001\n    sc stop HDesk\n    sc delete HDesk\n    taskkill /F /IM broker.exe\n    taskkill /F /IM HDesk.exe /FI \"PID ne 42\"\n    reg delete HKEY_CLASSES_ROOT\\.hdesk /f\n    reg delete HKEY_CLASSES_ROOT\\hdesk /f\n    netsh advfirewall firewall delete rule name=\"HDesk Service\"\n    "
    );
    assert!(get_before_uninstall("HDesk", "broker.exe", true, 42).contains("taskkill /F /IM HDesk.exe\n"));
    let mut u = UninstallInputs {
        reg_uninstall_string: String::from("MsiExec.exe /X{ABC}"),
        exe_path: Some(String::from("C:\\P\\HDesk.exe")),
        uninstall_printer: true,
        kill_self: true,
        pid: 1,
        subkey: String::from("K"),
        path: String::from("C:\\P"),
        start_menu: String::from("C:\\SM"),
        app_name: String::from("HDesk"),
        broker_exe: String::from("broker.exe"),
        uninstall_idd_cmd: String::from("IDD"),
    };
    assert_eq!(get_uninstall(&u), "MsiExec.exe /X{ABC}");
    u.reg_uninstall_string = String::from("\"C:\\P\\HDesk.exe\" --uninstall");
    let script = get_uninstall(&u);
    let expected = format!(
        "\n    {}\n    \"C:\\P\\HDesk.exe\" --uninstall-remote-printer\n    \"C:\\P\\HDesk.exe\" --uninstall-cert\n    reg delete K /f\n    IDD\n    if exist \"C:\\P\" rd /s /q \"C:\\P\"\n    if exist \"C:\\SM\" rd /s /q \"C:\\SM\"\n    if exist \"%PUBLIC%\\Desktop\\HDesk.lnk\" del /f /q \"%PUBLIC%\\Desktop\\HDesk.lnk\"\n    if exist \"%PROGRAMDATA%\\Microsoft\\Windows\\Start Menu\\Programs\\Startup\\HDesk Tray.lnk\" del /f /q \"%PROGRAMDATA%\\Microsoft\\Windows\\Start Menu\\Programs\\Startup\\HDesk Tray.lnk\"\n    ",
        get_before_uninstall("HDesk", "broker.exe", true, 1)
    );
    assert_eq!(script, expected);
    u.exe_path = None;
    assert!(get_uninstall(&u).starts_with("\n    \n    chcp 65001"));
    assert!(!get_uninstall(&u).contains("--uninstall-cert"));
}

#[test]
fn after_install_script() {
    let exe = "C:\\P\\HDesk.exe";
    let script = get_after_install("HDesk", exe, Some("1"), Some("0"), None, "SERVICE");
    let expected = format!("
    chcp 65001
    reg add HKEY_CLASSES_ROOT\\.{ext} /f
    {desktop_shortcuts}
    {start_menu_shortcuts}
    {reg_printer}
    reg add HKEY_CLASSES_ROOT\\.{ext}\\DefaultIcon /f
    reg add HKEY_CLASSES_ROOT\\.{ext}\\DefaultIcon /f /ve /t REG_SZ  /d \"\\\"{exe}\\\",0\"
    reg add HKEY_CLASSES_ROOT\\.{ext}\\shell /f
    reg add HKEY_CLASSES_ROOT\\.{ext}\\shell\\open /f
    reg add HKEY_CLASSES_ROOT\\.{ext}\\shell\\open\\command /f
    reg add HKEY_CLASSES_ROOT\\.{ext}\\shell\\open\\command /f /ve /t REG_SZ /d \"\\\"{exe}\\\" --play \\\"%%1\\\"\"
    reg add HKEY_CLASSES_ROOT\\{ext} /f
    reg add HKEY_CLASSES_ROOT\\{ext} /f /v \"URL Protocol\" /t REG_SZ /d \"\"
    reg add HKEY_CLASSES_ROOT\\{ext}\\shell /f
    reg add HKEY_CLASSES_ROOT\\{ext}\\shell\\open /f
    reg add HKEY_CLASSES_ROOT\\{ext}\\shell\\open\\command /f
    reg add HKEY_CLASSES_ROOT\\{ext}\\shell\\open\\command /f /ve /t REG_SZ /d \"\\\"{exe}\\\" \\\"%%1\\\"\"
    netsh advfirewall firewall add rule name=\"{app_name} Service\" dir=out action=allow program=\"{exe}\" enable=yes
    netsh advfirewall firewall add rule name=\"{app_name} Service\" dir=in action=allow program=\"{exe}\" enable=yes
    {create_service}
    reg add HKEY_LOCAL_MACHINE\\Software\\Microsoft\\Windows\\CurrentVersion\\Policies\\System /f /v SoftwareSASGeneration /t REG_DWORD /d 1
    ",
        ext = "hdesk",
        desktop_shortcuts = "reg add HKEY_CLASSES_ROOT\\.hdesk /f /v DESKTOPSHORTCUTS /t REG_SZ /d \"0\"",
        start_menu_shortcuts = "reg add HKEY_CLASSES_ROOT\\.hdesk /f /v STARTMENUSHORTCUTS /t REG_SZ /d \"1\"",
        reg_printer = "",
        exe = exe,
        app_name = "HDesk",
        create_service = "SERVICE",
    );
    assert_eq!(script, expected);
}
