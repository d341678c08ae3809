use hdesk_platform::win_install::{
    default_install_path, get_after_install, install_options, get_create_service, get_import_config, get_reg_cmd,
    subkey_candidates, valid_subkey, x86_program_files, IS1,
};
use hdesk_platform::win_scripts::{
    app_shortcut_script, broker_needs_update, connect_shortcut_script, copy_exe_cmd, copy_raw_cmd,
    custom_icon, install_cleanup, install_printer_cmd, install_script, is_unsafe_script_dir,
    respawn_plan, script_file_name, script_text, shortcut_icon_location, shortcuts_cmd, to_le,
    tray_shortcut_script, tray_shortcuts_cmd, undone_file_name, uninstall_shortcut_script,
    update_broker_cmds, update_script, vbs_bytes, service_install_script, service_uninstall_script,
    InstallScriptInputs, Respawn,
    UpdateScriptInputs, RELATIVE_ICON_PATH,
};
use hdesk_platform::win_util::{
    after_install_launches, directory_size_kb, everyone_grant, is_installed_exe, license_choice,
    pids_matching_name, process_name_matches, shift_key_state, unicode_from_translation,
    uninstall_idd_cmd, user_accessible_folders, LicenseInfo, ProcessEntry,
};

#[test]
fn copy_commands() {
    assert_eq!(
        copy_raw_cmd("C:\\dl\\new", "C:\\Program Files\\HDesk"),
        "XCOPY \"C:\\dl\\new\" \"C:\\Program Files\\HDesk\" /Y /E /H /C /I /K /R /Z"
    );
    let main_exe = copy_raw_cmd("C:\\dl", "C:\\P\\HDesk");
    assert_eq!(
        copy_exe_cmd("C:\\dl", "C:\\P\\HDesk", "C:\\dl\\broker.exe", "RuntimeBroker_hdesk.exe"),
        format!(
            "\n        {main_exe}\n        copy /Y \"C:\\dl\\broker.exe\" \"C:\\P\\HDesk\\RuntimeBroker_hdesk.exe\"\n        "
        )
    );
}

#[test]
fn custom_icons_and_icon_lines() {
    assert_eq!(custom_icon(false, true, "C:\\dl\\icon.ico", "C:\\P"), None);
    assert_eq!(custom_icon(true, false, "C:\\dl\\icon.ico", "C:\\P"), None);
    assert_eq!(
        custom_icon(true, true, "C:\\dl\\icon.ico", ""),
        Some("C:\\dl\\icon.ico".to_string())
    );
    assert_eq!(
        custom_icon(true, true, "C:\\dl\\icon.ico", "C:\\P"),
        Some(format!("C:\\P\\{}", RELATIVE_ICON_PATH))
    );
    assert_eq!(shortcut_icon_location("", Some("C:\\i.ico")), "");
    assert_eq!(shortcut_icon_location("C:\\a.exe", None), "");
    assert_eq!(
        shortcut_icon_location("C:\\a.exe", Some("C:\\i.ico")),
        "oLink.IconLocation = \"C:\\i.ico\""
    );
}

#[test]
fn shortcut_scripts() {
    let tmp_path = "C:\\Temp";
    let app_name = "HDesk";
    let exe = "C:\\P\\HDesk.exe";
    let shortcut_icon_location = "oLink.IconLocation = \"C:\\i.ico\"";
    assert_eq!(
        app_shortcut_script(tmp_path, app_name, exe, shortcut_icon_location),
        format!(
            "
Set oWS = WScript.CreateObject(\"WScript.Shell\")
sLinkFile = \"{tmp_path}\\{app_name}.lnk\"

Set oLink = oWS.CreateShortcut(sLinkFile)
    oLink.TargetPath = \"{exe}\"
    {shortcut_icon_location}
oLink.Save
        "
        )
    );
    assert_eq!(
        uninstall_shortcut_script(tmp_path, app_name, exe),
        format!(
            "
Set oWS = WScript.CreateObject(\"WScript.Shell\")
sLinkFile = \"{tmp_path}\\Uninstall {app_name}.lnk\"
Set oLink = oWS.CreateShortcut(sLinkFile)
    oLink.TargetPath = \"{exe}\"
    oLink.Arguments = \"--uninstall\"
    oLink.IconLocation = \"msiexec.exe\"
oLink.Save
        "
        )
    );
    assert_eq!(
        tray_shortcut_script(tmp_path, app_name, exe, shortcut_icon_location),
        format!(
            "
Set oWS = WScript.CreateObject(\"WScript.Shell\")
sLinkFile = \"{tmp_path}\\{app_name} Tray.lnk\"

Set oLink = oWS.CreateShortcut(sLinkFile)
    oLink.TargetPath = \"{exe}\"
    oLink.Arguments = \"--tray\"
    {shortcut_icon_location}
oLink.Save
        "
        )
    );
    let id = "host:21118";
    let filename = "host_21118";
    assert_eq!(
        connect_shortcut_script(id, exe, ""),
        format!(
            "
Set oWS = WScript.CreateObject(\"WScript.Shell\")
strDesktop = oWS.SpecialFolders(\"Desktop\")
Set objFSO = CreateObject(\"Scripting.FileSystemObject\")
sLinkFile = objFSO.BuildPath(strDesktop, \"{filename}.lnk\")
Set oLink = oWS.CreateShortcut(sLinkFile)
    oLink.TargetPath = \"{exe}\"
    oLink.Arguments = \"--connect {id}\"
    
oLink.Save
        "
        )
    );
}

#[test]
fn script_files() {
    assert!(is_unsafe_script_dir("C:\\Users\\A&B\\Temp"));
    assert!(is_unsafe_script_dir("C:\\Users\\x@y\\Temp"));
    assert!(is_unsafe_script_dir("C:\\Users\\a^b"));
    assert!(!is_unsafe_script_dir("C:\\Users\\ab\\Temp"));
    assert_eq!(script_file_name("HDesk", "install", "bat"), "HDesk_install.bat");
    assert_eq!(undone_file_name("HDesk_install.bat"), "HDesk_install.bat.undone");
    assert_eq!(
        script_text("a\r\nb\nc", true, "C:\\t\\x.undone"),
        "\r\na\r\nb\r\nc\r\nif exist \"C:\\t\\x.undone\" del /f /q \"C:\\t\\x.undone\"\r\n"
    );
    assert_eq!(script_text("a\r\nb\n", false, "ignored"), "a\r\nb\r\n");
    assert_eq!(to_le(&[0x0041, 0x1234]), vec![0x41, 0x00, 0x34, 0x12]);
    assert_eq!(vbs_bytes("A\u{e9}"), vec![0x41, 0x00, 0xe9, 0x00]);
    assert_eq!(vbs_bytes("\u{1F600}"), vec![0x3d, 0xd8, 0x00, 0xde]);
}

#[test]
fn install_pieces() {
    assert_eq!(shortcuts_cmd(false, false, "C:\\T", "HDesk", "C:\\SM"), "");
    assert_eq!(
        shortcuts_cmd(true, false, "C:\\T", "HDesk", "C:\\SM"),
        "copy /Y \"C:\\T\\HDesk.lnk\" \"%PUBLIC%\\Desktop\\\""
    );
    let tmp_path = "C:\\T";
    let app_name = "HDesk";
    let start_menu = "C:\\SM";
    let shortcuts = "copy /Y \"C:\\T\\HDesk.lnk\" \"%PUBLIC%\\Desktop\\\"";
    assert_eq!(
        shortcuts_cmd(true, true, tmp_path, app_name, start_menu),
        format!(
            "{shortcuts}
md \"{start_menu}\"
copy /Y \"{tmp_path}\\{app_name}.lnk\" \"{start_menu}\\\"
copy /Y \"{tmp_path}\\Uninstall {app_name}.lnk\" \"{start_menu}\\\"
     "
        )
    );
    let tray_shortcut = "C:\\T\\HDesk_tray_shortcut.vbs";
    assert_eq!(tray_shortcuts_cmd(true, tray_shortcut, tmp_path, app_name), "");
    assert_eq!(
        tray_shortcuts_cmd(false, tray_shortcut, tmp_path, app_name),
        format!("
cscript \"{tray_shortcut}\"
copy /Y \"{tmp_path}\\{app_name} Tray.lnk\" \"%PROGRAMDATA%\\Microsoft\\Windows\\Start Menu\\Programs\\Startup\\\"
")
    );
    assert_eq!(
        install_printer_cmd(true, true, "C:\\dl\\HDesk.exe"),
        "\"C:\\dl\\HDesk.exe\" --install-remote-printer"
    );
    assert_eq!(
        install_printer_cmd(false, true, "C:\\dl\\HDesk.exe"),
        "\"C:\\dl\\HDesk.exe\" --uninstall-remote-printer"
    );
    assert_eq!(install_printer_cmd(false, false, "C:\\dl\\HDesk.exe"), "");
}

fn install_inputs(debug: bool) -> InstallScriptInputs {
    InstallScriptInputs {
        uninstall_str: "UNINSTALL".to_string(),
        path: "C:\\P\\HDesk".to_string(),
        exe: "C:\\P\\HDesk\\HDesk.exe".to_string(),
        subkey: "HKLM\\U\\HDesk".to_string(),
        start_menu: "C:\\SM\\HDesk".to_string(),
        app_name: "HDesk".to_string(),
        version: "1.4.2-1".to_string(),
        build_date: "2026-05-01".to_string(),
        size_kb: 12345,
        tmp_path: "C:\\T".to_string(),
        mk_shortcut_script: "C:\\T\\HDesk_mk_shortcut.vbs".to_string(),
        uninstall_shortcut_script: "C:\\T\\HDesk_uninstall_shortcut.vbs".to_string(),
        tray_shortcut_script: "C:\\T\\HDesk_tray_shortcut.vbs".to_string(),
        src_exe: "C:\\dl\\HDesk.exe".to_string(),
        src_dir: "C:\\dl".to_string(),
        origin_broker: "C:\\dl\\broker.exe".to_string(),
        broker_exe: "RuntimeBroker_hdesk.exe".to_string(),
        custom_icon: None,
        options: "desktopicon startmenu printer".to_string(),
        win10_or_greater: true,
        outgoing_only: false,
        stop_service: false,
        config_path: "C:\\cfg".to_string(),
        debug,
    }
}

#[test]
fn whole_install_script() {
    let i = install_inputs(false);
    let uninstall_str = "UNINSTALL";
    let path = "C:\\P\\HDesk";
    let exe = "C:\\P\\HDesk\\HDesk.exe";
    let subkey = "HKLM\\U\\HDesk";
    let app_name = "HDesk";
    let tmp_path = "C:\\T";
    let mk_shortcut = "C:\\T\\HDesk_mk_shortcut.vbs";
    let uninstall_shortcut = "C:\\T\\HDesk_uninstall_shortcut.vbs";
    let tray_shortcut = "C:\\T\\HDesk_tray_shortcut.vbs";
    let copy_exe = copy_exe_cmd("C:\\dl", path, "C:\\dl\\broker.exe", "RuntimeBroker_hdesk.exe");
    let display_icon = exe;
    let version = "1.4.2.1";
    let build_date = "2026-05-01";
    let (version_major, version_minor, version_build) = ("1", "4", "2-1");
    let size = 12345;
    let tray_shortcuts = tray_shortcuts_cmd(false, tray_shortcut, tmp_path, app_name);
    let shortcuts = shortcuts_cmd(true, true, tmp_path, app_name, "C:\\SM\\HDesk");
    let dels = install_cleanup(mk_shortcut, uninstall_shortcut, tray_shortcut, tmp_path, app_name);
    let import_config = get_import_config(false, app_name, exe, "C:\\cfg");
    let create_service = get_create_service(false, false, app_name, exe);
    let after_install =
        get_after_install(app_name, exe, Some("1"), Some("1"), Some("1"), &create_service);
    let install_remote_printer = "\"C:\\dl\\HDesk.exe\" --install-remote-printer";
    let sleep = "";
    let expected = format!(
        "
{uninstall_str}
chcp 65001
md \"{path}\"
{copy_exe}
reg add {subkey} /f
reg add {subkey} /f /v DisplayIcon /t REG_SZ /d \"{display_icon}\"
reg add {subkey} /f /v DisplayName /t REG_SZ /d \"{app_name}\"
reg add {subkey} /f /v DisplayVersion /t REG_SZ /d \"{version}\"
reg add {subkey} /f /v Version /t REG_SZ /d \"{version}\"
reg add {subkey} /f /v BuildDate /t REG_SZ /d \"{build_date}\"
reg add {subkey} /f /v InstallLocation /t REG_SZ /d \"{path}\"
reg add {subkey} /f /v Publisher /t REG_SZ /d \"{app_name}\"
reg add {subkey} /f /v VersionMajor /t REG_DWORD /d {version_major}
reg add {subkey} /f /v VersionMinor /t REG_DWORD /d {version_minor}
reg add {subkey} /f /v VersionBuild /t REG_DWORD /d {version_build}
reg add {subkey} /f /v UninstallString /t REG_SZ /d \"\\\"{exe}\\\" --uninstall\"
reg add {subkey} /f /v EstimatedSize /t REG_DWORD /d {size}
reg add {subkey} /f /v WindowsInstaller /t REG_DWORD /d 0
cscript \"{mk_shortcut}\"
cscript \"{uninstall_shortcut}\"
{tray_shortcuts}
{shortcuts}
copy /Y \"{tmp_path}\\Uninstall {app_name}.lnk\" \"{path}\\\"
{dels}
{import_config}
{after_install}
{install_remote_printer}
{sleep}
    "
    );
    assert_eq!(install_script(&i), expected);

    let debug = install_script(&install_inputs(true));
    assert!(debug.ends_with("--install-remote-printer\ntimeout 300\n    "));
    assert!(!debug.contains("del /f /q"));
}

#[test]
fn whole_update_script() {
    let u = UpdateScriptInputs {
        app_name: "HDesk".to_string(),
        pid: 4242,
        subkey: "HKLM\\U\\HDesk".to_string(),
        uninstall_string: "MsiExec.exe /X{ABC}".to_string(),
        is_msi: None,
        is_custom_client: true,
        custom_icon: Some("C:\\P\\icon.ico".to_string()),
        exe: "C:\\P\\HDesk.exe".to_string(),
        path: "C:\\P".to_string(),
        version: "1.4.2".to_string(),
        build_date: "2026-05-01".to_string(),
        size_kb: 77,
        src_exe: "C:\\dl\\hdesk-1.4.2-x86_64.exe".to_string(),
        src_exe_filename: "hdesk-1.4.2-x86_64.exe".to_string(),
        src_dir: "C:\\dl".to_string(),
        origin_broker: "C:\\dl\\broker.exe".to_string(),
        broker_exe: "RuntimeBroker_hdesk.exe".to_string(),
        is_service_running: true,
        printer_installed: true,
        debug: false,
    };
    let app_name = "HDesk";
    let filter = " /FI \"PID ne 4242\"";
    let reg_main = get_reg_cmd(
        "HKLM\\U\\HDesk", None, "C:\\P\\icon.ico", "1.4.2", "2026-05-01", "1", "4", "2", 77,
    );
    let reg_msi = get_reg_cmd(
        "HKLM\\U\\{ABC}", None, "C:\\P\\icon.ico", "1.4.2", "2026-05-01", "1", "4", "2", 77,
    );
    let reg_cmd = format!("{}{}", reg_main, reg_msi);
    let copy_exe = copy_exe_cmd("C:\\dl", "C:\\P", "C:\\dl\\broker.exe", "RuntimeBroker_hdesk.exe");
    let rename_exe = "\n        move /Y \"C:\\P\\hdesk-1.4.2-x86_64.exe\" \"C:\\P\\hdesk.exe\"\n        ";
    let remove_meta_toml = "\n        del /F /Q \"C:\\P\\meta.toml\"\n        ";
    let restore_service_cmd = "sc start HDesk";
    let uninstall_printer_cmd = "\"C:\\dl\\hdesk-1.4.2-x86_64.exe\" --uninstall-remote-printer";
    let install_printer_cmd = "\"C:\\dl\\hdesk-1.4.2-x86_64.exe\" --install-remote-printer";
    let sleep = "";
    let expected = format!(
        "
chcp 65001
sc stop {app_name}
taskkill /F /IM {app_name}.exe{filter}
{reg_cmd}
{copy_exe}
{rename_exe}
{remove_meta_toml}
{restore_service_cmd}
{uninstall_printer_cmd}
{install_printer_cmd}
{sleep}
    "
    );
    assert_eq!(update_script(&u), expected);
}

#[test]
fn respawn_after_update() {
    assert_eq!(
        respawn_plan(&[0, 3, 0, 5], true),
        vec![Respawn::InSession(3), Respawn::InSession(5)]
    );
    assert_eq!(respawn_plan(&[0, 3, 5], false), vec![Respawn::Direct]);
    assert_eq!(respawn_plan(&[0, 0], false), vec![]);
    assert_eq!(respawn_plan(&[0], true), vec![]);
    assert_eq!(respawn_plan(&[], false), vec![]);
}

#[test]
fn broker_refresh() {
    assert_eq!(
        update_broker_cmds("RuntimeBroker_hdesk.exe", "C:\\P\\broker.exe", "C:\\P\\RuntimeBroker_hdesk.exe"),
        "\n        chcp 65001\n        taskkill /F /IM RuntimeBroker_hdesk.exe\n        copy /Y \"C:\\P\\broker.exe\" \"C:\\P\\RuntimeBroker_hdesk.exe\"\n    "
    );
    assert!(broker_needs_update(false, Some(true)));
    assert!(broker_needs_update(true, None));
    assert!(broker_needs_update(true, Some(false)));
    assert!(!broker_needs_update(true, Some(true)));
}

#[test]
fn subkey_choice_and_default_path() {
    let c = subkey_candidates("HDesk");
    assert_eq!(c.len(), 4);
    assert!(c[0].ends_with(IS1));
    assert!(c[1].contains("Wow6432Node") && c[1].ends_with(IS1));
    assert!(c[2].contains("Wow6432Node") && c[2].ends_with("\\HDesk"));
    assert!(!c[3].contains("Wow6432Node") && c[3].ends_with("\\HDesk"));
    assert_eq!(valid_subkey("HDesk", &[false, true, true]), c[1]);
    assert_eq!(valid_subkey("HDesk", &[false, false, true]), c[2]);
    assert_eq!(valid_subkey("HDesk", &[false, false, false]), c[3]);
    assert_eq!(valid_subkey("HDesk", &[]), c[3]);
    assert_eq!(valid_subkey("HDesk", &[true]), c[0]);
    assert_eq!(
        default_install_path("C:\\Program Files", "HDesk"),
        "C:\\Program Files\\HDesk"
    );
    assert_eq!(
        x86_program_files("C:\\Program Files"),
        "C:\\Program Files (x86)"
    );
}

#[test]
fn keyboard_and_processes() {
    let s = shift_key_state(true, false);
    assert_eq!(s.len(), 256);
    assert_eq!(s[0xA0], 129);
    assert_eq!(s[0xA1], 0);
    assert_eq!(s[0x10], 129);
    assert_eq!(s.iter().filter(|b| **b != 0).count(), 2);
    let none = shift_key_state(false, false);
    assert!(none.iter().all(|b| *b == 0));
    let both = shift_key_state(false, true);
    assert_eq!((both[0xA0], both[0xA1], both[0x10]), (0, 129, 129));
    assert_eq!(unicode_from_translation(1, 0x61), Some(0x61));
    assert_eq!(unicode_from_translation(2, 0x61), None);
    assert_eq!(unicode_from_translation(0, 0x61), None);
    let procs = vec![
        ProcessEntry { exe_name: "HDesk.exe".to_string(), pid: 10 },
        ProcessEntry { exe_name: "explorer.exe".to_string(), pid: 11 },
        ProcessEntry { exe_name: "hdesk.exe".to_string(), pid: 12 },
    ];
    assert_eq!(pids_matching_name(&procs, "HDESK"), vec![10, 12]);
    assert_eq!(pids_matching_name(&procs, "zzz"), Vec::<u32>::new());
    assert!(process_name_matches("HDesk.exe", "hdesk.EXE"));
    assert!(!process_name_matches("HDesk.exe", "other.exe"));
    assert_eq!(directory_size_kb(&[1024, 2048, 1023]), 3);
    assert_eq!(directory_size_kb(&[1024, 2048, 1024]), 4);
    assert_eq!(directory_size_kb(&[u64::MAX, 5]), u64::MAX / 1024);
    assert_eq!(directory_size_kb(&[]), 0);
}

#[test]
fn service_scripts() {
    let app_name = "HDesk";
    let broker_exe = "RuntimeBroker_hdesk.exe";
    let filter = " /FI \"PID ne 77\"";
    assert_eq!(
        service_uninstall_script(app_name, broker_exe, 77),
        format!(
            "
    chcp 65001
    sc stop {app_name}
    sc delete {app_name}
    if exist \"%PROGRAMDATA%\\Microsoft\\Windows\\Start Menu\\Programs\\Startup\\{app_name} Tray.lnk\" del /f /q \"%PROGRAMDATA%\\Microsoft\\Windows\\Start Menu\\Programs\\Startup\\{app_name} Tray.lnk\"
    taskkill /F /IM {broker_exe}
    taskkill /F /IM {app_name}.exe{filter}
    "
        )
    );
    let tray_shortcut = "C:\\T\\HDesk_tray_shortcut.vbs";
    let tmp_path = "C:\\T";
    let exe = "C:\\P\\HDesk.exe";
    let import_config = get_import_config(false, app_name, exe, "C:\\cfg");
    let create_service = get_create_service(false, false, app_name, exe);
    assert_eq!(
        service_install_script(app_name, 77, tray_shortcut, tmp_path, exe, false, "C:\\cfg"),
        format!(
            "
chcp 65001
taskkill /F /IM {app_name}.exe{filter}
cscript \"{tray_shortcut}\"
copy /Y \"{tmp_path}\\{app_name} Tray.lnk\" \"%PROGRAMDATA%\\Microsoft\\Windows\\Start Menu\\Programs\\Startup\\\"
{import_config}
{create_service}
if exist \"{tray_shortcut}\" del /f /q \"{tray_shortcut}\"
    "
        )
    );
    assert!(create_service.contains("sc create HDesk"));
}

#[test]
fn installation_helpers() {
    assert_eq!(after_install_launches(false, ""), (true, true));
    assert_eq!(after_install_launches(true, "Y"), (false, false));
    assert_eq!(after_install_launches(true, "N"), (false, true));
    let reg = LicenseInfo { key: "k".into(), host: "h".into(), api: "a".into() };
    let from_exe = LicenseInfo { key: "k2".into(), host: "h2".into(), api: "".into() };
    let chosen = license_choice(Some(from_exe), reg).unwrap();
    assert_eq!((chosen.key.as_str(), chosen.host.as_str()), ("k2", "h2"));
    let reg = LicenseInfo { key: "k".into(), host: "h".into(), api: "a".into() };
    let chosen = license_choice(None, reg).unwrap();
    assert_eq!(chosen.api, "a");
    let no_host = LicenseInfo { key: "k".into(), host: "".into(), api: "a".into() };
    assert!(license_choice(None, no_host).is_none());
    assert!(is_installed_exe(true, "c:\\program files\\hdesk\\hdesk.exe", "C:\\Program Files\\HDesk\\HDesk.exe"));
    assert!(!is_installed_exe(false, "C:\\a.exe", "C:\\a.exe"));
    assert!(!is_installed_exe(true, "C:\\b.exe", "C:\\a.exe"));
    assert_eq!(uninstall_idd_cmd(Some("C:\\a.exe")), "\"C:\\a.exe\" --uninstall-amyuni-idd");
    assert_eq!(uninstall_idd_cmd(None), "");
    assert_eq!(
        user_accessible_folders("D:"),
        ("D:\\ProgramData".to_string(), "D:\\Windows\\Temp".to_string())
    );
    assert_eq!(everyone_grant("F"), "*S-1-1-0:(OI)(CI)F");
}

#[test]
fn recorded_install_options() {
    assert_eq!(
        install_options(Some("1"), None, Some("0")),
        vec![
            ("DESKTOPSHORTCUTS".to_string(), "1".to_string()),
            ("PRINTER".to_string(), "0".to_string()),
        ]
    );
    assert_eq!(install_options(None, None, None), vec![]);
    assert_eq!(
        install_options(None, Some(""), None),
        vec![("STARTMENUSHORTCUTS".to_string(), "".to_string())]
    );
}

use hdesk_platform::win_util::{sas_policy_plan, SasPlan, SasRestore};

#[test]
fn software_sas_policy() {
    assert_eq!(sas_policy_plan(Some(1)), SasPlan { set_services: false, restore: SasRestore::Keep });
    assert_eq!(sas_policy_plan(Some(3)), SasPlan { set_services: false, restore: SasRestore::Keep });
    assert_eq!(sas_policy_plan(Some(2)), SasPlan { set_services: true, restore: SasRestore::Value(2) });
    assert_eq!(sas_policy_plan(Some(0)), SasPlan { set_services: true, restore: SasRestore::Delete });
    assert_eq!(sas_policy_plan(None), SasPlan { set_services: true, restore: SasRestore::Delete });
}

use hdesk_platform::win_util::{any_in_session, is_prelogin_user, share_rdp_cmd, share_rdp_from, user_home};

#[test]
fn sessions_users_and_rdp_sharing() {
    assert!(share_rdp_from(""));
    assert!(share_rdp_from("true"));
    assert!(!share_rdp_from("false"));
    assert_eq!(
        share_rdp_cmd("HKLM\\U\\HDesk", true),
        "reg add HKLM\\U\\HDesk /f /v share_rdp /t REG_SZ /d \"true\""
    );
    assert_eq!(
        share_rdp_cmd("HKLM\\U\\HDesk", false),
        "reg add HKLM\\U\\HDesk /f /v share_rdp /t REG_SZ /d \"false\""
    );
    assert!(is_prelogin_user(Some("")));
    assert!(is_prelogin_user(Some("SYSTEM")));
    assert!(!is_prelogin_user(Some("alice")));
    assert!(!is_prelogin_user(None));
    assert_eq!(user_home("C:", "alice"), Some("C:\\Users\\alice".to_string()));
    assert_eq!(user_home("C:", ""), None);
    assert!(any_in_session(&[Some(0), None, Some(2)], Some(2)));
    assert!(!any_in_session(&[Some(0), None], Some(2)));
    assert!(!any_in_session(&[None], None));
}

use hdesk_platform::win_util::{printer_name_units, MAX_PRINTER_NAME_UNITS};

#[test]
fn printer_names_from_the_spooler() {
    let name: Vec<u16> = "HDesk Printer\0junk".encode_utf16().collect();
    let expected: Vec<u16> = "HDesk Printer".encode_utf16().collect();
    assert_eq!(printer_name_units(&name), Some(expected));
    assert_eq!(printer_name_units(&[0, 65]), None);
    assert_eq!(printer_name_units(&[]), None);
    assert_eq!(printer_name_units(&vec![65u16; MAX_PRINTER_NAME_UNITS]), None);
    assert_eq!(printer_name_units(&vec![65u16; MAX_PRINTER_NAME_UNITS - 1]).map(|v| v.len()), Some(499));
    assert_eq!(printer_name_units(&[66, 67]), Some(vec![66, 67]));
}

use hdesk_platform::win_util::{message_goes_to_clipboard, message_text, wide_text};

#[test]
fn wide_texts_and_messages() {
    let mut buf: Vec<u16> = "alice\0\0".encode_utf16().collect();
    buf.resize(256, 0);
    assert_eq!(wide_text(&buf, 7, ""), "alice");
    assert_eq!(wide_text(&buf, 3, ""), "ali");
    assert_eq!(wide_text(&buf, 0, "??"), "");
    assert_eq!(wide_text(&[0xD800, 0x41], 2, "??"), "??");
    assert_eq!(wide_text(&[0xD83D, 0xDE00], 2, ""), "\u{1F600}");
    assert!(message_goes_to_clipboard("failed", false));
    assert!(!message_goes_to_clipboard("done!", false));
    assert!(message_goes_to_clipboard("done!", true));
    assert_eq!(
        message_text("failed", true, false),
        "failed\n\nAbove text has been copied to clipboard"
    );
    assert_eq!(message_text("failed", true, true), "failed");
    assert_eq!(message_text("failed", false, false), "failed");
}

use hdesk_platform::win_install::get_install_options;

#[test]
fn install_options_as_json() {
    let text = get_install_options(Some("1"), None, Some("0"));
    let value: serde_json::Value = serde_json::from_str(&text).unwrap();
    assert_eq!(value["DESKTOPSHORTCUTS"], "1");
    assert_eq!(value["PRINTER"], "0");
    assert!(value.get("STARTMENUSHORTCUTS").is_none());
    assert_eq!(get_install_options(None, None, None), "{}");
}
