//! The batch and VBScript texts that install and update the Windows
//! client: file copies, shortcut scripts, the install, update and service
//! scripts, the processes restarted after an update, and the way a script
//! is written to disk.

use vstd::prelude::*;
use crate::text::{chars_of, contains, contains_seq, occurs_at, push_all, string_of};
use crate::sessions::{decimal, push_decimal};
use crate::win_install::{
    after_install_spec, create_service_spec, display_version, flag_value, get_after_install,
    lemma_after_install_desktop_value,
    get_create_service, get_import_config, get_reg_cmd, get_reg_msi_key, import_config_spec,
    install_flags, msi_key_spec, push_str, reg_cmd_spec, remove_meta_toml_cmd, rename_exe_cmd,
    rename_exe_spec, replace_all, replace_all_chars, replace_all_from, restore_service_cmd, version_field,
    version_parts,
};
use crate::win_util::{encode_utf16, utf16_of};

verus! {

/// `XCOPY` of the directory that holds the running executable (`src_dir`)
/// into the install directory `path`.
pub open spec fn copy_raw_spec(src_dir: Seq<char>, path: Seq<char>) -> Seq<char> {
    "XCOPY \""@ + src_dir + "\" \""@ + path + "\" /Y /E /H /C /I /K /R /Z"@
}

pub fn copy_raw_cmd(src_dir: &str, path: &str) -> (r: String)
    ensures
        r@ == copy_raw_spec(src_dir@, path@),
{
    let mut v: Vec<char> = Vec::new();
    push_str(&mut v, "XCOPY \"");
    push_str(&mut v, src_dir);
    push_str(&mut v, "\" \"");
    push_str(&mut v, path);
    push_str(&mut v, "\" /Y /E /H /C /I /K /R /Z");
    string_of(&v)
}

/// The copy of the program files, then of the privacy-mode broker
/// (`origin_broker`) into the install directory as `broker_exe`.
pub open spec fn copy_exe_spec(
    src_dir: Seq<char>,
    path: Seq<char>,
    origin_broker: Seq<char>,
    broker_exe: Seq<char>,
) -> Seq<char> {
    "\n        "@ + copy_raw_spec(src_dir, path) + "\n        copy /Y \""@ + origin_broker + "\" \""@
        + path + "\\"@ + broker_exe + "\"\n        "@
}

pub fn copy_exe_cmd(src_dir: &str, path: &str, origin_broker: &str, broker_exe: &str) -> (r: String)
    ensures
        r@ == copy_exe_spec(src_dir@, path@, origin_broker@, broker_exe@),
{
    let raw = copy_raw_cmd(src_dir, path);
    let mut v: Vec<char> = Vec::new();
    push_str(&mut v, "\n        ");
    push_str(&mut v, raw.as_str());
    push_str(&mut v, "\n        copy /Y \"");
    push_str(&mut v, origin_broker);
    push_str(&mut v, "\" \"");
    push_str(&mut v, path);
    push_str(&mut v, "\\");
    push_str(&mut v, broker_exe);
    push_str(&mut v, "\"\n        ");
    string_of(&v)
}

/// Where a custom client keeps its icon, below its program directory.
pub const RELATIVE_ICON_PATH: &'static str = "data\\flutter_assets\\assets\\icon.ico";

/// The icon of a custom client: only a custom client has one, and only when
/// `icon_path` (the icon beside the running executable) is a regular file
/// and no link. The icon is named by its installed place under
/// `install_dir`, or by `icon_path` itself when no install directory is
/// given.
pub open spec fn custom_icon_spec(
    is_custom_client: bool,
    icon_is_regular_file: bool,
    icon_path: Seq<char>,
    install_dir: Seq<char>,
) -> Option<Seq<char>> {
    if is_custom_client && icon_is_regular_file {
        if install_dir.len() == 0 {
            Some(icon_path)
        } else {
            Some(install_dir + "\\"@ + RELATIVE_ICON_PATH@)
        }
    } else {
        None
    }
}

pub fn custom_icon(
    is_custom_client: bool,
    icon_is_regular_file: bool,
    icon_path: &str,
    install_dir: &str,
) -> (r: Option<String>)
    ensures
        match r {
            Some(p) => custom_icon_spec(is_custom_client, icon_is_regular_file, icon_path@, install_dir@)
                == Some(p@),
            None => custom_icon_spec(is_custom_client, icon_is_regular_file, icon_path@, install_dir@)
                is None,
        },
{
    if !(is_custom_client && icon_is_regular_file) {
        return None;
    }
    let dir = chars_of(install_dir);
    if dir.len() == 0 {
        return Some(string_of(&chars_of(icon_path)));
    }
    let mut v: Vec<char> = Vec::new();
    push_str(&mut v, install_dir);
    push_str(&mut v, "\\");
    push_str(&mut v, RELATIVE_ICON_PATH);
    Some(string_of(&v))
}

/// The line of a shortcut script that sets its icon: none without an
/// executable or without a custom icon.
pub open spec fn shortcut_icon_location_spec(exe: Seq<char>, icon: Option<Seq<char>>) -> Seq<char> {
    if exe.len() == 0 {
        seq![]
    } else {
        match icon {
            Some(p) => "oLink.IconLocation = \""@ + p + "\""@,
            None => seq![],
        }
    }
}

pub fn shortcut_icon_location(exe: &str, icon: Option<&str>) -> (r: String)
    ensures
        r@ == shortcut_icon_location_spec(exe@, match icon { Some(p) => Some(p@), None => None }),
{
    let e = chars_of(exe);
    let mut v: Vec<char> = Vec::new();
    if e.len() > 0 {
        if let Some(p) = icon {
            push_str(&mut v, "oLink.IconLocation = \"");
            push_str(&mut v, p);
            push_str(&mut v, "\"");
        }
    }
    string_of(&v)
}

/// The script that makes the app's shortcut `{tmp}\{app}.lnk` to `exe`.
pub open spec fn app_shortcut_script_spec(tmp: Seq<char>, app: Seq<char>, exe: Seq<char>, icon_line: Seq<char>) -> Seq<char> {
    "\nSet oWS = WScript.CreateObject(\"WScript.Shell\")\nsLinkFile = \""@ + tmp + "\\"@ + app
        + ".lnk\"\n\nSet oLink = oWS.CreateShortcut(sLinkFile)\n    oLink.TargetPath = \""@ + exe
        + "\"\n    "@ + icon_line + "\noLink.Save\n        "@
}

pub fn app_shortcut_script(tmp: &str, app: &str, exe: &str, icon_line: &str) -> (r: String)
    ensures
        r@ == app_shortcut_script_spec(tmp@, app@, exe@, icon_line@),
{
    let mut v: Vec<char> = Vec::new();
    push_str(&mut v, "\nSet oWS = WScript.CreateObject(\"WScript.Shell\")\nsLinkFile = \"");
    push_str(&mut v, tmp);
    push_str(&mut v, "\\");
    push_str(&mut v, app);
    push_str(&mut v, ".lnk\"\n\nSet oLink = oWS.CreateShortcut(sLinkFile)\n    oLink.TargetPath = \"");
    push_str(&mut v, exe);
    push_str(&mut v, "\"\n    ");
    push_str(&mut v, icon_line);
    push_str(&mut v, "\noLink.Save\n        ");
    string_of(&v)
}

/// The script that makes the uninstall shortcut `{tmp}\Uninstall {app}.lnk`,
/// which runs `exe --uninstall` under the installer's icon.
pub open spec fn uninstall_shortcut_script_spec(tmp: Seq<char>, app: Seq<char>, exe: Seq<char>) -> Seq<char> {
    "\nSet oWS = WScript.CreateObject(\"WScript.Shell\")\nsLinkFile = \""@ + tmp + "\\Uninstall "@ + app
        + ".lnk\"\nSet oLink = oWS.CreateShortcut(sLinkFile)\n    oLink.TargetPath = \""@ + exe
        + "\"\n    oLink.Arguments = \"--uninstall\"\n    oLink.IconLocation = \"msiexec.exe\"\noLink.Save\n        "@
}

pub fn uninstall_shortcut_script(tmp: &str, app: &str, exe: &str) -> (r: String)
    ensures
        r@ == uninstall_shortcut_script_spec(tmp@, app@, exe@),
{
    let mut v: Vec<char> = Vec::new();
    push_str(&mut v, "\nSet oWS = WScript.CreateObject(\"WScript.Shell\")\nsLinkFile = \"");
    push_str(&mut v, tmp);
    push_str(&mut v, "\\Uninstall ");
    push_str(&mut v, app);
    push_str(&mut v, ".lnk\"\nSet oLink = oWS.CreateShortcut(sLinkFile)\n    oLink.TargetPath = \"");
    push_str(&mut v, exe);
    push_str(
        &mut v,
        "\"\n    oLink.Arguments = \"--uninstall\"\n    oLink.IconLocation = \"msiexec.exe\"\noLink.Save\n        ",
    );
    string_of(&v)
}

/// The script that makes the tray shortcut `{tmp}\{app} Tray.lnk`, which
/// runs `exe --tray`.
pub open spec fn tray_shortcut_script_spec(tmp: Seq<char>, app: Seq<char>, exe: Seq<char>, icon_line: Seq<char>) -> Seq<char> {
    "\nSet oWS = WScript.CreateObject(\"WScript.Shell\")\nsLinkFile = \""@ + tmp + "\\"@ + app
        + " Tray.lnk\"\n\nSet oLink = oWS.CreateShortcut(sLinkFile)\n    oLink.TargetPath = \""@ + exe
        + "\"\n    oLink.Arguments = \"--tray\"\n    "@ + icon_line + "\noLink.Save\n        "@
}

pub fn tray_shortcut_script(tmp: &str, app: &str, exe: &str, icon_line: &str) -> (r: String)
    ensures
        r@ == tray_shortcut_script_spec(tmp@, app@, exe@, icon_line@),
{
    let mut v: Vec<char> = Vec::new();
    push_str(&mut v, "\nSet oWS = WScript.CreateObject(\"WScript.Shell\")\nsLinkFile = \"");
    push_str(&mut v, tmp);
    push_str(&mut v, "\\");
    push_str(&mut v, app);
    push_str(&mut v, " Tray.lnk\"\n\nSet oLink = oWS.CreateShortcut(sLinkFile)\n    oLink.TargetPath = \"");
    push_str(&mut v, exe);
    push_str(&mut v, "\"\n    oLink.Arguments = \"--tray\"\n    ");
    push_str(&mut v, icon_line);
    push_str(&mut v, "\noLink.Save\n        ");
    string_of(&v)
}

/// The script that puts a shortcut on the desktop that connects to the
/// peer `id`; the link is named by the id with every `:` made `_`.
pub open spec fn connect_shortcut_script_spec(id: Seq<char>, exe: Seq<char>, icon_line: Seq<char>) -> Seq<char> {
    let filename = replace_all(id, seq![':'], seq!['_']);
    "\nSet oWS = WScript.CreateObject(\"WScript.Shell\")\nstrDesktop = oWS.SpecialFolders(\"Desktop\")\nSet objFSO = CreateObject(\"Scripting.FileSystemObject\")\nsLinkFile = objFSO.BuildPath(strDesktop, \""@
        + filename + ".lnk\")\nSet oLink = oWS.CreateShortcut(sLinkFile)\n    oLink.TargetPath = \""@
        + exe + "\"\n    oLink.Arguments = \"--connect "@ + id + "\"\n    "@ + icon_line
        + "\noLink.Save\n        "@
}

pub fn connect_shortcut_script(id: &str, exe: &str, icon_line: &str) -> (r: String)
    ensures
        r@ == connect_shortcut_script_spec(id@, exe@, icon_line@),
{
    let colon = vec![':'];
    let underscore = vec!['_'];
    let filename = replace_all_chars(&chars_of(id), &colon, &underscore);
    assert(colon@ =~= seq![':']);
    assert(underscore@ =~= seq!['_']);
    let mut v: Vec<char> = Vec::new();
    push_str(
        &mut v,
        "\nSet oWS = WScript.CreateObject(\"WScript.Shell\")\nstrDesktop = oWS.SpecialFolders(\"Desktop\")\nSet objFSO = CreateObject(\"Scripting.FileSystemObject\")\nsLinkFile = objFSO.BuildPath(strDesktop, \"",
    );
    push_all(&mut v, &filename);
    push_str(&mut v, ".lnk\")\nSet oLink = oWS.CreateShortcut(sLinkFile)\n    oLink.TargetPath = \"");
    push_str(&mut v, exe);
    push_str(&mut v, "\"\n    oLink.Arguments = \"--connect ");
    push_str(&mut v, id);
    push_str(&mut v, "\"\n    ");
    push_str(&mut v, icon_line);
    push_str(&mut v, "\noLink.Save\n        ");
    string_of(&v)
}

/// A script is not run elevated from a directory whose path holds `&`,
/// `@` or `^`: such a temporary directory is given up for a folder every
/// user can reach.
pub open spec fn is_unsafe_script_dir_spec(dir: Seq<char>) -> bool {
    contains_seq(dir, "&"@) || contains_seq(dir, "@"@) || contains_seq(dir, "^"@)
}

pub fn is_unsafe_script_dir(dir: &str) -> (b: bool)
    ensures
        b == is_unsafe_script_dir_spec(dir@),
{
    let d = chars_of(dir);
    contains(&d, &chars_of("&")) || contains(&d, &chars_of("@")) || contains(&d, &chars_of("^"))
}

/// The file a script is written to: `{app}_{tip}.{ext}`.
pub open spec fn script_file_name_spec(app: Seq<char>, tip: Seq<char>, ext: Seq<char>) -> Seq<char> {
    app + "_"@ + tip + "."@ + ext
}

pub fn script_file_name(app: &str, tip: &str, ext: &str) -> (r: String)
    ensures
        r@ == script_file_name_spec(app@, tip@, ext@),
{
    let mut v: Vec<char> = Vec::new();
    push_str(&mut v, app);
    push_str(&mut v, "_");
    push_str(&mut v, tip);
    push_str(&mut v, ".");
    push_str(&mut v, ext);
    string_of(&v)
}

/// The marker beside a batch script, named after it: the script deletes
/// it as its last step, so a marker that is left tells that the script
/// did not run to its end.
pub open spec fn undone_file_name_spec(script_file_name: Seq<char>) -> Seq<char> {
    script_file_name + ".undone"@
}

pub fn undone_file_name(script_file_name: &str) -> (r: String)
    ensures
        r@ == undone_file_name_spec(script_file_name@),
{
    let mut v: Vec<char> = Vec::new();
    push_str(&mut v, script_file_name);
    push_str(&mut v, ".undone");
    string_of(&v)
}

/// The text of a script file: a batch script ends by deleting its marker
/// `undone_path`; every line then ends with CR LF, whether it ended with
/// LF or with CR LF before.
pub open spec fn script_text_spec(cmds: Seq<char>, is_bat: bool, undone_path: Seq<char>) -> Seq<char> {
    let body = if is_bat {
        "\n"@ + cmds + "\nif exist \""@ + undone_path + "\" del /f /q \""@ + undone_path + "\"\n"@
    } else {
        cmds
    };
    replace_all(replace_all(body, "\r\n"@, "\n"@), "\n"@, "\r\n"@)
}

pub fn script_text(cmds: &str, is_bat: bool, undone_path: &str) -> (r: String)
    ensures
        r@ == script_text_spec(cmds@, is_bat, undone_path@),
{
    let mut v: Vec<char> = Vec::new();
    if is_bat {
        push_str(&mut v, "\n");
        push_str(&mut v, cmds);
        push_str(&mut v, "\nif exist \"");
        push_str(&mut v, undone_path);
        push_str(&mut v, "\" del /f /q \"");
        push_str(&mut v, undone_path);
        push_str(&mut v, "\"\n");
    } else {
        push_str(&mut v, cmds);
    }
    let lf = replace_all_chars(&v, &chars_of("\r\n"), &chars_of("\n"));
    let crlf = replace_all_chars(&lf, &chars_of("\n"), &chars_of("\r\n"));
    string_of(&crlf)
}

/// Every line feed of `t` ends a CR LF pair.
pub open spec fn lines_end_crlf(t: Seq<char>) -> bool {
    forall|i: int| 0 <= i < t.len() && #[trigger] t[i] == '\n' ==> i > 0 && t[i - 1] == '\r'
}

proof fn lemma_crlf_from(s: Seq<char>, i: int)
    requires
        0 <= i <= s.len(),
    ensures
        lines_end_crlf(replace_all_from(s, "\n"@, "\r\n"@, i)),
    decreases s.len() - i,
{
    reveal_strlit("\n");
    reveal_strlit("\r\n");
    if i < s.len() {
        let rest = replace_all_from(s, "\n"@, "\r\n"@, i + 1);
        lemma_crlf_from(s, i + 1);
        let t = replace_all_from(s, "\n"@, "\r\n"@, i);
        if occurs_at(s, "\n"@, i) {
            assert(t =~= "\r\n"@ + rest);
            assert forall|k: int| 0 <= k < t.len() && #[trigger] t[k] == '\n' implies k > 0 && t[k - 1]
                == '\r' by {
                if k >= 2 {
                    assert(t[k] == rest[k - 2]);
                    if k - 2 > 0 {
                        assert(t[k - 1] == rest[k - 3]);
                    }
                }
            }
        } else {
            assert(s[i] != '\n') by {
                if s[i] == '\n' {
                    assert(s.subrange(i, i + 1) =~= "\n"@);
                }
            }
            assert(t =~= seq![s[i]] + rest);
            assert forall|k: int| 0 <= k < t.len() && #[trigger] t[k] == '\n' implies k > 0 && t[k - 1]
                == '\r' by {
                if k >= 1 {
                    assert(t[k] == rest[k - 1]);
                    if k - 1 > 0 {
                        assert(t[k - 1] == rest[k - 2]);
                    }
                }
            }
        }
    } else {
        assert(replace_all_from(s, "\n"@, "\r\n"@, i) =~= seq![]);
    }
}

/// Every line of a script file ends with CR LF, as the command interpreter
/// of some Windows versions needs, whatever mix of line ends the commands
/// had.
pub proof fn law_script_lines_end_crlf(cmds: Seq<char>, is_bat: bool, undone_path: Seq<char>)
    ensures
        lines_end_crlf(script_text_spec(cmds, is_bat, undone_path)),
{
    let body = if is_bat {
        "\n"@ + cmds + "\nif exist \""@ + undone_path + "\" del /f /q \""@ + undone_path + "\"\n"@
    } else {
        cmds
    };
    let lf = replace_all(body, "\r\n"@, "\n"@);
    lemma_crlf_from(lf, 0);
}

/// UTF-16 code units as little-endian bytes, low byte first.
pub open spec fn is_le_bytes(units: Seq<u16>, bytes: Seq<u8>) -> bool {
    &&& bytes.len() == 2 * units.len()
    &&& forall|i: int|
        0 <= i < units.len() ==> #[trigger] bytes[2 * i] == units[i] % 256 && bytes[2 * i + 1]
            == units[i] / 256
}

pub fn to_le(units: &[u16]) -> (r: Vec<u8>)
    ensures
        is_le_bytes(units@, r@),
{
    let mut r: Vec<u8> = Vec::new();
    let mut i: usize = 0;
    while i < units.len()
        invariant
            i <= units@.len(),
            r@.len() == 2 * i,
            forall|j: int|
                0 <= j < i ==> #[trigger] r@[2 * j] == units@[j] % 256 && r@[2 * j + 1]
                    == units@[j] / 256,
        decreases units@.len() - i,
    {
        let u = units[i];
        let ghost before = r@;
        r.push((u % 256) as u8);
        r.push((u / 256) as u8);
        assert forall|j: int| 0 <= j < i + 1 implies #[trigger] r@[2 * j] == units@[j] % 256
            && r@[2 * j + 1] == units@[j] / 256 by {
            if j < i {
                assert(r@[2 * j] == before[2 * j]);
                assert(r@[2 * j + 1] == before[2 * j + 1]);
            }
        }
        i = i + 1;
    }
    r
}

/// A VBScript file's bytes: its text in UTF-16 little-endian, the only
/// Unicode form the script host reads.
pub fn vbs_bytes(text: &str) -> (r: Vec<u8>)
    ensures
        is_le_bytes(utf16_of(text@), r@),
{
    let units = encode_utf16(text);
    to_le(&units)
}

/// The copies of the shortcuts that the install options ask for: the app's
/// shortcut onto the public desktop, and a start-menu folder with the app's
/// and the uninstall shortcut.
pub open spec fn shortcuts_cmd_spec(
    desktop: bool,
    start_menu_links: bool,
    tmp: Seq<char>,
    app: Seq<char>,
    start_menu: Seq<char>,
) -> Seq<char> {
    let d = if desktop {
        "copy /Y \""@ + tmp + "\\"@ + app + ".lnk\" \"%PUBLIC%\\Desktop\\\""@
    } else {
        seq![]
    };
    if start_menu_links {
        d + "\nmd \""@ + start_menu + "\"\ncopy /Y \""@ + tmp + "\\"@ + app + ".lnk\" \""@ + start_menu
            + "\\\"\ncopy /Y \""@ + tmp + "\\Uninstall "@ + app + ".lnk\" \""@ + start_menu
            + "\\\"\n     "@
    } else {
        d
    }
}

pub fn shortcuts_cmd(desktop: bool, start_menu_links: bool, tmp: &str, app: &str, start_menu: &str) -> (r: String)
    ensures
        r@ == shortcuts_cmd_spec(desktop, start_menu_links, tmp@, app@, start_menu@),
{
    let mut v: Vec<char> = Vec::new();
    if desktop {
        push_str(&mut v, "copy /Y \"");
        push_str(&mut v, tmp);
        push_str(&mut v, "\\");
        push_str(&mut v, app);
        push_str(&mut v, ".lnk\" \"%PUBLIC%\\Desktop\\\"");
    }
    if start_menu_links {
        push_str(&mut v, "\nmd \"");
        push_str(&mut v, start_menu);
        push_str(&mut v, "\"\ncopy /Y \"");
        push_str(&mut v, tmp);
        push_str(&mut v, "\\");
        push_str(&mut v, app);
        push_str(&mut v, ".lnk\" \"");
        push_str(&mut v, start_menu);
        push_str(&mut v, "\\\"\ncopy /Y \"");
        push_str(&mut v, tmp);
        push_str(&mut v, "\\Uninstall ");
        push_str(&mut v, app);
        push_str(&mut v, ".lnk\" \"");
        push_str(&mut v, start_menu);
        push_str(&mut v, "\\\"\n     ");
    }
    string_of(&v)
}

/// The tray shortcut is made and put into the common startup folder,
/// except for an outgoing-only client, which has no tray.
pub open spec fn tray_shortcuts_cmd_spec(outgoing_only: bool, tray_script: Seq<char>, tmp: Seq<char>, app: Seq<char>) -> Seq<char> {
    if outgoing_only {
        seq![]
    } else {
        "\ncscript \""@ + tray_script + "\"\ncopy /Y \""@ + tmp + "\\"@ + app
            + " Tray.lnk\" \"%PROGRAMDATA%\\Microsoft\\Windows\\Start Menu\\Programs\\Startup\\\"\n"@
    }
}

pub fn tray_shortcuts_cmd(outgoing_only: bool, tray_script: &str, tmp: &str, app: &str) -> (r: String)
    ensures
        r@ == tray_shortcuts_cmd_spec(outgoing_only, tray_script@, tmp@, app@),
{
    let mut v: Vec<char> = Vec::new();
    if !outgoing_only {
        push_str(&mut v, "\ncscript \"");
        push_str(&mut v, tray_script);
        push_str(&mut v, "\"\ncopy /Y \"");
        push_str(&mut v, tmp);
        push_str(&mut v, "\\");
        push_str(&mut v, app);
        push_str(&mut v, " Tray.lnk\" \"%PROGRAMDATA%\\Microsoft\\Windows\\Start Menu\\Programs\\Startup\\\"\n");
    }
    string_of(&v)
}

/// The remote printer is installed where it was asked for (which needs
/// Windows 10), and otherwise removed on Windows 10 or later.
pub open spec fn install_printer_cmd_spec(install_printer: bool, win10_or_greater: bool, src_exe: Seq<char>) -> Seq<char> {
    if install_printer {
        "\""@ + src_exe + "\" --install-remote-printer"@
    } else if win10_or_greater {
        "\""@ + src_exe + "\" --uninstall-remote-printer"@
    } else {
        seq![]
    }
}

pub fn install_printer_cmd(install_printer: bool, win10_or_greater: bool, src_exe: &str) -> (r: String)
    ensures
        r@ == install_printer_cmd_spec(install_printer, win10_or_greater, src_exe@),
{
    let mut v: Vec<char> = Vec::new();
    if install_printer {
        push_str(&mut v, "\"");
        push_str(&mut v, src_exe);
        push_str(&mut v, "\" --install-remote-printer");
    } else if win10_or_greater {
        push_str(&mut v, "\"");
        push_str(&mut v, src_exe);
        push_str(&mut v, "\" --uninstall-remote-printer");
    }
    string_of(&v)
}

/// The removal of the shortcut scripts and of the shortcuts left in the
/// temporary directory.
pub open spec fn install_cleanup_spec(
    mk_script: Seq<char>,
    uninstall_script: Seq<char>,
    tray_script: Seq<char>,
    tmp: Seq<char>,
    app: Seq<char>,
) -> Seq<char> {
    "\nif exist \""@ + mk_script + "\" del /f /q \""@ + mk_script + "\"\nif exist \""@ + uninstall_script
        + "\" del /f /q \""@ + uninstall_script + "\"\nif exist \""@ + tray_script + "\" del /f /q \""@
        + tray_script + "\"\nif exist \""@ + tmp + "\\"@ + app + ".lnk\" del /f /q \""@ + tmp + "\\"@ + app
        + ".lnk\"\nif exist \""@ + tmp + "\\Uninstall "@ + app + ".lnk\" del /f /q \""@ + tmp
        + "\\Uninstall "@ + app + ".lnk\"\nif exist \""@ + tmp + "\\"@ + app + " Tray.lnk\" del /f /q \""@
        + tmp + "\\"@ + app + " Tray.lnk\"\n        "@
}

pub fn install_cleanup(mk_script: &str, uninstall_script: &str, tray_script: &str, tmp: &str, app: &str) -> (r: String)
    ensures
        r@ == install_cleanup_spec(mk_script@, uninstall_script@, tray_script@, tmp@, app@),
{
    let mut v: Vec<char> = Vec::new();
    push_str(&mut v, "\nif exist \"");
    push_str(&mut v, mk_script);
    push_str(&mut v, "\" del /f /q \"");
    push_str(&mut v, mk_script);
    push_str(&mut v, "\"\nif exist \"");
    push_str(&mut v, uninstall_script);
    push_str(&mut v, "\" del /f /q \"");
    push_str(&mut v, uninstall_script);
    push_str(&mut v, "\"\nif exist \"");
    push_str(&mut v, tray_script);
    push_str(&mut v, "\" del /f /q \"");
    push_str(&mut v, tray_script);
    push_str(&mut v, "\"\nif exist \"");
    push_str(&mut v, tmp);
    push_str(&mut v, "\\");
    push_str(&mut v, app);
    push_str(&mut v, ".lnk\" del /f /q \"");
    push_str(&mut v, tmp);
    push_str(&mut v, "\\");
    push_str(&mut v, app);
    push_str(&mut v, ".lnk\"\nif exist \"");
    push_str(&mut v, tmp);
    push_str(&mut v, "\\Uninstall ");
    push_str(&mut v, app);
    push_str(&mut v, ".lnk\" del /f /q \"");
    push_str(&mut v, tmp);
    push_str(&mut v, "\\Uninstall ");
    push_str(&mut v, app);
    push_str(&mut v, ".lnk\"\nif exist \"");
    push_str(&mut v, tmp);
    push_str(&mut v, "\\");
    push_str(&mut v, app);
    push_str(&mut v, " Tray.lnk\" del /f /q \"");
    push_str(&mut v, tmp);
    push_str(&mut v, "\\");
    push_str(&mut v, app);
    push_str(&mut v, " Tray.lnk\"\n        ");
    string_of(&v)
}

/// The registry entries of a fresh installation under `subkey`.
pub open spec fn install_registry_spec(
    subkey: Seq<char>,
    display_icon: Seq<char>,
    app: Seq<char>,
    version: Seq<char>,
    build_date: Seq<char>,
    path: Seq<char>,
    major: Seq<char>,
    minor: Seq<char>,
    build: Seq<char>,
    exe: Seq<char>,
    size_kb: u64,
) -> Seq<char> {
    "reg add "@ + subkey + " /f\nreg add "@ + subkey + " /f /v DisplayIcon /t REG_SZ /d \""@ + display_icon
        + "\"\nreg add "@ + subkey + " /f /v DisplayName /t REG_SZ /d \""@ + app + "\"\nreg add "@ + subkey
        + " /f /v DisplayVersion /t REG_SZ /d \""@ + version + "\"\nreg add "@ + subkey
        + " /f /v Version /t REG_SZ /d \""@ + version + "\"\nreg add "@ + subkey
        + " /f /v BuildDate /t REG_SZ /d \""@ + build_date + "\"\nreg add "@ + subkey
        + " /f /v InstallLocation /t REG_SZ /d \""@ + path + "\"\nreg add "@ + subkey
        + " /f /v Publisher /t REG_SZ /d \""@ + app + "\"\nreg add "@ + subkey
        + " /f /v VersionMajor /t REG_DWORD /d "@ + major + "\nreg add "@ + subkey
        + " /f /v VersionMinor /t REG_DWORD /d "@ + minor + "\nreg add "@ + subkey
        + " /f /v VersionBuild /t REG_DWORD /d "@ + build + "\nreg add "@ + subkey
        + " /f /v UninstallString /t REG_SZ /d \"\\\""@ + exe + "\\\" --uninstall\"\nreg add "@ + subkey
        + " /f /v EstimatedSize /t REG_DWORD /d "@ + decimal(size_kb as nat) + "\nreg add "@ + subkey
        + " /f /v WindowsInstaller /t REG_DWORD /d 0"@
}

#[verifier::rlimit(40)]
#[verifier::spinoff_prover]
pub fn install_registry(
    subkey: &str,
    display_icon: &str,
    app: &str,
    version: &str,
    build_date: &str,
    path: &str,
    major: &str,
    minor: &str,
    build: &str,
    exe: &str,
    size_kb: u64,
) -> (r: String)
    ensures
        r@ == install_registry_spec(
            subkey@,
            display_icon@,
            app@,
            version@,
            build_date@,
            path@,
            major@,
            minor@,
            build@,
            exe@,
            size_kb,
        ),
{
    let mut v: Vec<char> = Vec::new();
    push_str(&mut v, "reg add ");
    push_str(&mut v, subkey);
    push_str(&mut v, " /f\nreg add ");
    push_str(&mut v, subkey);
    push_str(&mut v, " /f /v DisplayIcon /t REG_SZ /d \"");
    push_str(&mut v, display_icon);
    push_str(&mut v, "\"\nreg add ");
    push_str(&mut v, subkey);
    push_str(&mut v, " /f /v DisplayName /t REG_SZ /d \"");
    push_str(&mut v, app);
    push_str(&mut v, "\"\nreg add ");
    push_str(&mut v, subkey);
    push_str(&mut v, " /f /v DisplayVersion /t REG_SZ /d \"");
    push_str(&mut v, version);
    push_str(&mut v, "\"\nreg add ");
    push_str(&mut v, subkey);
    push_str(&mut v, " /f /v Version /t REG_SZ /d \"");
    push_str(&mut v, version);
    push_str(&mut v, "\"\nreg add ");
    push_str(&mut v, subkey);
    push_str(&mut v, " /f /v BuildDate /t REG_SZ /d \"");
    push_str(&mut v, build_date);
    push_str(&mut v, "\"\nreg add ");
    push_str(&mut v, subkey);
    push_str(&mut v, " /f /v InstallLocation /t REG_SZ /d \"");
    push_str(&mut v, path);
    push_str(&mut v, "\"\nreg add ");
    push_str(&mut v, subkey);
    push_str(&mut v, " /f /v Publisher /t REG_SZ /d \"");
    push_str(&mut v, app);
    push_str(&mut v, "\"\nreg add ");
    push_str(&mut v, subkey);
    push_str(&mut v, " /f /v VersionMajor /t REG_DWORD /d ");
    push_str(&mut v, major);
    push_str(&mut v, "\nreg add ");
    push_str(&mut v, subkey);
    push_str(&mut v, " /f /v VersionMinor /t REG_DWORD /d ");
    push_str(&mut v, minor);
    push_str(&mut v, "\nreg add ");
    push_str(&mut v, subkey);
    push_str(&mut v, " /f /v VersionBuild /t REG_DWORD /d ");
    push_str(&mut v, build);
    push_str(&mut v, "\nreg add ");
    push_str(&mut v, subkey);
    push_str(&mut v, " /f /v UninstallString /t REG_SZ /d \"\\\"");
    push_str(&mut v, exe);
    push_str(&mut v, "\\\" --uninstall\"\nreg add ");
    push_str(&mut v, subkey);
    push_str(&mut v, " /f /v EstimatedSize /t REG_DWORD /d ");
    push_decimal(&mut v, size_kb);
    push_str(&mut v, "\nreg add ");
    push_str(&mut v, subkey);
    push_str(&mut v, " /f /v WindowsInstaller /t REG_DWORD /d 0");
    string_of(&v)
}

/// What a fresh installation's script is made of.
pub struct InstallScriptInputs {
    /// The script that first removes an earlier installation.
    pub uninstall_str: String,
    /// The install directory and the executable in it.
    pub path: String,
    pub exe: String,
    /// The uninstall registry key and the start-menu folder.
    pub subkey: String,
    pub start_menu: String,
    pub app_name: String,
    /// The version as built, and the build date.
    pub version: String,
    pub build_date: String,
    /// The size of the program files, in KiB.
    pub size_kb: u64,
    /// The temporary directory, and the shortcut scripts written there.
    pub tmp_path: String,
    pub mk_shortcut_script: String,
    pub uninstall_shortcut_script: String,
    pub tray_shortcut_script: String,
    /// The running executable and its directory.
    pub src_exe: String,
    pub src_dir: String,
    /// The privacy-mode broker beside the running executable, and the name
    /// it gets in the install directory.
    pub origin_broker: String,
    pub broker_exe: String,
    /// The custom client's icon (see `custom_icon`), if any.
    pub custom_icon: Option<String>,
    /// The install options, as passed on the command line.
    pub options: String,
    pub win10_or_greater: bool,
    pub outgoing_only: bool,
    /// Whether the service is to be left stopped.
    pub stop_service: bool,
    /// Where the configuration to import lies.
    pub config_path: String,
    /// A debug run keeps the temporary files and waits at the end.
    pub debug: bool,
}

/// The icon recorded for the installation: the custom icon, or the
/// executable's own.
pub open spec fn display_icon_spec(custom_icon: Option<String>, exe: Seq<char>) -> Seq<char> {
    match custom_icon {
        Some(p) => p@,
        None => exe,
    }
}

/// The first part of the install script: the earlier installation is
/// removed, the files are copied and the registry entries are written.
pub open spec fn install_head_spec(i: InstallScriptInputs) -> Seq<char> {
    let app = i.app_name@;
    "\n"@ + i.uninstall_str@ + "\nchcp 65001\nmd \""@ + i.path@ + "\"\n"@ + copy_exe_spec(
        i.src_dir@,
        i.path@,
        i.origin_broker@,
        i.broker_exe@,
    ) + "\n"@ + install_registry_spec(
        i.subkey@,
        display_icon_spec(i.custom_icon, i.exe@),
        app,
        replace_all(i.version@, "-"@, "."@),
        i.build_date@,
        i.path@,
        version_field(i.version@, 0),
        version_field(i.version@, 1),
        version_field(i.version@, 2),
        i.exe@,
        i.size_kb,
    )
}

/// The second part: the shortcuts are made and placed, the temporary files
/// removed (but on a debug run), the configuration imported, the
/// after-install steps run with the chosen options recorded, the printer
/// installed or removed, and a debug run waits.
pub open spec fn install_tail_spec(i: InstallScriptInputs) -> Seq<char> {
    let app = i.app_name@;
    let desktop = contains_seq(i.options@, "desktopicon"@);
    let start_menu_links = contains_seq(i.options@, "startmenu"@);
    let printer = contains_seq(i.options@, "printer"@) && i.win10_or_greater;
    let dels = if i.debug {
        seq![]
    } else {
        install_cleanup_spec(
            i.mk_shortcut_script@,
            i.uninstall_shortcut_script@,
            i.tray_shortcut_script@,
            i.tmp_path@,
            app,
        )
    };
    let sleep = if i.debug {
        "timeout 300"@
    } else {
        seq![]
    };
    "\ncscript \""@ + i.mk_shortcut_script@ + "\"\ncscript \""@ + i.uninstall_shortcut_script@ + "\"\n"@
        + tray_shortcuts_cmd_spec(i.outgoing_only, i.tray_shortcut_script@, i.tmp_path@, app) + "\n"@
        + shortcuts_cmd_spec(desktop, start_menu_links, i.tmp_path@, app, i.start_menu@)
        + "\ncopy /Y \""@ + i.tmp_path@ + "\\Uninstall "@ + app + ".lnk\" \""@ + i.path@ + "\\\"\n"@
        + dels + "\n"@ + import_config_spec(i.outgoing_only, app, i.exe@, i.config_path@) + "\n"@
        + after_install_spec(
        app,
        i.exe@,
        Some(flag_value(start_menu_links)),
        Some(flag_value(desktop)),
        Some(flag_value(printer)),
        create_service_spec(i.outgoing_only, i.stop_service, app, i.exe@),
    ) + "\n"@ + install_printer_cmd_spec(printer, i.win10_or_greater, i.src_exe@) + "\n"@ + sleep
        + "\n    "@
}

/// The script that installs the client.
pub open spec fn install_script_spec(i: InstallScriptInputs) -> Seq<char> {
    install_head_spec(i) + install_tail_spec(i)
}

fn install_head(i: &InstallScriptInputs) -> (r: String)
    ensures
        r@ == install_head_spec(*i),
{
    let copy_exe = copy_exe_cmd(
        i.src_dir.as_str(),
        i.path.as_str(),
        i.origin_broker.as_str(),
        i.broker_exe.as_str(),
    );
    let display_icon: &str = match &i.custom_icon {
        Some(p) => p.as_str(),
        None => i.exe.as_str(),
    };
    let version = display_version(i.version.as_str());
    let (major, minor, build) = version_parts(i.version.as_str());
    let registry = install_registry(
        i.subkey.as_str(),
        display_icon,
        i.app_name.as_str(),
        version.as_str(),
        i.build_date.as_str(),
        i.path.as_str(),
        major.as_str(),
        minor.as_str(),
        build.as_str(),
        i.exe.as_str(),
        i.size_kb,
    );
    let mut v: Vec<char> = Vec::new();
    push_str(&mut v, "\n");
    push_str(&mut v, i.uninstall_str.as_str());
    push_str(&mut v, "\nchcp 65001\nmd \"");
    push_str(&mut v, i.path.as_str());
    push_str(&mut v, "\"\n");
    push_str(&mut v, copy_exe.as_str());
    push_str(&mut v, "\n");
    push_str(&mut v, registry.as_str());
    string_of(&v)
}

fn flag_str(b: bool) -> (r: &'static str)
    ensures
        r@ == flag_value(b),
{
    if b {
        "1"
    } else {
        "0"
    }
}

#[verifier::rlimit(40)]
#[verifier::spinoff_prover]
fn install_tail(i: &InstallScriptInputs) -> (r: String)
    ensures
        r@ == install_tail_spec(*i),
{
    let app = i.app_name.as_str();
    let exe = i.exe.as_str();
    let tmp = i.tmp_path.as_str();
    let flags = install_flags(i.options.as_str(), i.win10_or_greater);
    let tray = tray_shortcuts_cmd(i.outgoing_only, i.tray_shortcut_script.as_str(), tmp, app);
    let shortcuts = shortcuts_cmd(
        flags.desktop_shortcut,
        flags.start_menu_shortcut,
        tmp,
        app,
        i.start_menu.as_str(),
    );
    let import_config = get_import_config(i.outgoing_only, app, exe, i.config_path.as_str());
    let create_service = get_create_service(i.outgoing_only, i.stop_service, app, exe);
    let after_install = get_after_install(
        app,
        exe,
        Some(flag_str(flags.start_menu_shortcut)),
        Some(flag_str(flags.desktop_shortcut)),
        Some(flag_str(flags.printer)),
        create_service.as_str(),
    );
    let printer = install_printer_cmd(flags.printer, i.win10_or_greater, i.src_exe.as_str());
    let mut v: Vec<char> = Vec::new();
    push_str(&mut v, "\ncscript \"");
    push_str(&mut v, i.mk_shortcut_script.as_str());
    push_str(&mut v, "\"\ncscript \"");
    push_str(&mut v, i.uninstall_shortcut_script.as_str());
    push_str(&mut v, "\"\n");
    push_str(&mut v, tray.as_str());
    push_str(&mut v, "\n");
    push_str(&mut v, shortcuts.as_str());
    push_str(&mut v, "\ncopy /Y \"");
    push_str(&mut v, tmp);
    push_str(&mut v, "\\Uninstall ");
    push_str(&mut v, app);
    push_str(&mut v, ".lnk\" \"");
    push_str(&mut v, i.path.as_str());
    push_str(&mut v, "\\\"\n");
    if !i.debug {
        let dels = install_cleanup(
            i.mk_shortcut_script.as_str(),
            i.uninstall_shortcut_script.as_str(),
            i.tray_shortcut_script.as_str(),
            tmp,
            app,
        );
        push_str(&mut v, dels.as_str());
    }
    push_str(&mut v, "\n");
    push_str(&mut v, import_config.as_str());
    push_str(&mut v, "\n");
    push_str(&mut v, after_install.as_str());
    push_str(&mut v, "\n");
    push_str(&mut v, printer.as_str());
    push_str(&mut v, "\n");
    if i.debug {
        push_str(&mut v, "timeout 300");
    }
    push_str(&mut v, "\n    ");
    string_of(&v)
}

/// The script that installs the client: see `install_head_spec` and
/// `install_tail_spec` for its two parts.
pub fn install_script(i: &InstallScriptInputs) -> (r: String)
    ensures
        r@ == install_script_spec(*i),
{
    let head = install_head(i);
    let tail = install_tail(i);
    let mut v: Vec<char> = Vec::new();
    push_str(&mut v, head.as_str());
    push_str(&mut v, tail.as_str());
    string_of(&v)
}

/// What an update's script is made of.
pub struct UpdateScriptInputs {
    pub app_name: String,
    /// The process that runs the update, which the script must not kill.
    pub pid: u32,
    /// The uninstall registry key, and the uninstall string found there.
    pub subkey: String,
    pub uninstall_string: String,
    /// Whether the installation was made by MSI, if that could be told.
    pub is_msi: Option<bool>,
    pub is_custom_client: bool,
    /// The icon found beside the installed executable (see `custom_icon`).
    pub custom_icon: Option<String>,
    /// The installed executable and its directory.
    pub exe: String,
    pub path: String,
    /// The new version as built, its build date and the new size in KiB.
    pub version: String,
    pub build_date: String,
    pub size_kb: u64,
    /// The running (new) executable, its file name and directory.
    pub src_exe: String,
    pub src_exe_filename: String,
    pub src_dir: String,
    /// The privacy-mode broker beside the running executable, and the name
    /// it gets in the install directory.
    pub origin_broker: String,
    pub broker_exe: String,
    pub is_service_running: bool,
    /// Whether the remote printer is installed, as far as it could be told.
    pub printer_installed: bool,
    pub debug: bool,
}

/// The registry update of an update: the installation's key, and the MSI
/// key beside it where there is one (see `msi_key_spec`).
pub open spec fn update_registry_spec(u: UpdateScriptInputs) -> Seq<char> {
    let icon = display_icon_spec(u.custom_icon, u.exe@);
    let version = replace_all(u.version@, "-"@, "."@);
    let major = version_field(u.version@, 0);
    let minor = version_field(u.version@, 1);
    let build = version_field(u.version@, 2);
    reg_cmd_spec(u.subkey@, u.is_msi, icon, version, u.build_date@, major, minor, build, u.size_kb)
        + match msi_key_spec(u.subkey@, u.is_custom_client, u.is_msi, u.uninstall_string@) {
        Some(k) => reg_cmd_spec(k, u.is_msi, icon, version, u.build_date@, major, minor, build, u.size_kb),
        None => seq![],
    }
}

fn update_registry(u: &UpdateScriptInputs) -> (r: String)
    ensures
        r@ == update_registry_spec(*u),
{
    let icon: &str = match &u.custom_icon {
        Some(p) => p.as_str(),
        None => u.exe.as_str(),
    };
    let version = display_version(u.version.as_str());
    let (major, minor, build) = version_parts(u.version.as_str());
    let main = get_reg_cmd(
        u.subkey.as_str(),
        u.is_msi,
        icon,
        version.as_str(),
        u.build_date.as_str(),
        major.as_str(),
        minor.as_str(),
        build.as_str(),
        u.size_kb,
    );
    let mut v: Vec<char> = Vec::new();
    push_str(&mut v, main.as_str());
    let msi_key = get_reg_msi_key(
        u.subkey.as_str(),
        u.is_custom_client,
        u.is_msi,
        u.uninstall_string.as_str(),
    );
    if let Some(k) = msi_key {
        let msi = get_reg_cmd(
            k.as_str(),
            u.is_msi,
            icon,
            version.as_str(),
            u.build_date.as_str(),
            major.as_str(),
            minor.as_str(),
            build.as_str(),
            u.size_kb,
        );
        push_str(&mut v, msi.as_str());
    }
    string_of(&v)
}

/// The script of an update: the service and the app's other processes are
/// stopped, the registry updated, the files copied in (and the executable
/// renamed, the custom client's `meta.toml` removed for an MSI installation
/// or one not known not to be), the service restarted where it ran, an
/// installed printer reinstalled, and a debug run waits.
pub open spec fn update_script_spec(u: UpdateScriptInputs) -> Seq<char> {
    let app = u.app_name@;
    let is_msi = match u.is_msi {
        Some(b) => b,
        None => true,
    };
    let (uninstall_printer, install_printer) = if u.printer_installed {
        (
            "\""@ + u.src_exe@ + "\" --uninstall-remote-printer"@,
            "\""@ + u.src_exe@ + "\" --install-remote-printer"@,
        )
    } else {
        (seq![], seq![])
    };
    "\nchcp 65001\nsc stop "@ + app + "\ntaskkill /F /IM "@ + app + ".exe /FI \"PID ne "@ + decimal(
        u.pid as nat,
    ) + "\"\n"@ + update_registry_spec(u) + "\n"@ + copy_exe_spec(
        u.src_dir@,
        u.path@,
        u.origin_broker@,
        u.broker_exe@,
    ) + "\n"@ + rename_exe_spec(u.src_exe_filename@, u.path@, app) + "\n"@ + (if is_msi
        && u.is_custom_client {
        "\n        del /F /Q \""@ + u.path@ + "\\meta.toml\"\n        "@
    } else {
        seq![]
    }) + "\n"@ + (if u.is_service_running {
        "sc start "@ + app
    } else {
        seq![]
    }) + "\n"@ + uninstall_printer + "\n"@ + install_printer + "\n"@ + (if u.debug {
        "timeout 300"@
    } else {
        seq![]
    }) + "\n    "@
}

#[verifier::rlimit(40)]
#[verifier::spinoff_prover]
pub fn update_script(u: &UpdateScriptInputs) -> (r: String)
    ensures
        r@ == update_script_spec(*u),
{
    let app = u.app_name.as_str();
    let registry = update_registry(u);
    let copy_exe = copy_exe_cmd(
        u.src_dir.as_str(),
        u.path.as_str(),
        u.origin_broker.as_str(),
        u.broker_exe.as_str(),
    );
    let rename = rename_exe_cmd(u.src_exe_filename.as_str(), u.path.as_str(), app);
    let is_msi = match u.is_msi {
        Some(b) => b,
        None => true,
    };
    let remove_meta = remove_meta_toml_cmd(is_msi, u.is_custom_client, u.path.as_str());
    let restore = restore_service_cmd(u.is_service_running, app);
    let mut v: Vec<char> = Vec::new();
    push_str(&mut v, "\nchcp 65001\nsc stop ");
    push_str(&mut v, app);
    push_str(&mut v, "\ntaskkill /F /IM ");
    push_str(&mut v, app);
    push_str(&mut v, ".exe /FI \"PID ne ");
    push_decimal(&mut v, u.pid as u64);
    push_str(&mut v, "\"\n");
    push_str(&mut v, registry.as_str());
    push_str(&mut v, "\n");
    push_str(&mut v, copy_exe.as_str());
    push_str(&mut v, "\n");
    push_str(&mut v, rename.as_str());
    push_str(&mut v, "\n");
    push_str(&mut v, remove_meta.as_str());
    push_str(&mut v, "\n");
    push_str(&mut v, restore.as_str());
    push_str(&mut v, "\n");
    if u.printer_installed {
        push_str(&mut v, "\"");
        push_str(&mut v, u.src_exe.as_str());
        push_str(&mut v, "\" --uninstall-remote-printer");
    }
    push_str(&mut v, "\n");
    if u.printer_installed {
        push_str(&mut v, "\"");
        push_str(&mut v, u.src_exe.as_str());
        push_str(&mut v, "\" --install-remote-printer");
    }
    push_str(&mut v, "\n");
    if u.debug {
        push_str(&mut v, "timeout 300");
    }
    push_str(&mut v, "\n    ");
    string_of(&v)
}

/// How a process that an update stopped is started again.
#[derive(Clone, Copy, Debug, PartialEq, Eq, Structural)]
pub enum Respawn {
    /// In the given session (possible when running as the system).
    InSession(u32),
    /// Once, as the current user.
    Direct,
}

/// The sessions other than session 0, in their order.
pub open spec fn user_sessions(sessions: Seq<u32>) -> Seq<u32>
    decreases sessions.len(),
{
    if sessions.len() == 0 {
        seq![]
    } else {
        let r = user_sessions(sessions.drop_last());
        if sessions.last() != 0 {
            r.push(sessions.last())
        } else {
            r
        }
    }
}

/// How the processes that were found in `sessions` are started again after
/// an update: in each of their sessions but session 0 when running as the
/// system; otherwise once, directly, if any of them ran outside session 0.
pub open spec fn respawn_plan_spec(sessions: Seq<u32>, is_root: bool) -> Seq<Respawn> {
    let users = user_sessions(sessions);
    if is_root {
        Seq::new(users.len(), |k: int| Respawn::InSession(users[k]))
    } else if users.len() > 0 {
        seq![Respawn::Direct]
    } else {
        seq![]
    }
}

pub fn respawn_plan(sessions: &[u32], is_root: bool) -> (r: Vec<Respawn>)
    ensures
        r@ == respawn_plan_spec(sessions@, is_root),
{
    let mut users: Vec<u32> = Vec::new();
    let mut i: usize = 0;
    while i < sessions.len()
        invariant
            i <= sessions@.len(),
            users@ == user_sessions(sessions@.take(i as int)),
        decreases sessions@.len() - i,
    {
        assert(sessions@.take(i + 1).drop_last() =~= sessions@.take(i as int));
        if sessions[i] != 0 {
            users.push(sessions[i]);
        }
        i = i + 1;
    }
    assert(sessions@.take(i as int) =~= sessions@);
    let mut r: Vec<Respawn> = Vec::new();
    if is_root {
        let mut k: usize = 0;
        while k < users.len()
            invariant
                k <= users@.len(),
                r@ =~= Seq::new(k as nat, |j: int| Respawn::InSession(users@[j])),
            decreases users@.len() - k,
        {
            r.push(Respawn::InSession(users[k]));
            k = k + 1;
        }
    } else if users.len() > 0 {
        r.push(Respawn::Direct);
    }
    r
}

/// The commands that replace the privacy-mode broker beside the running
/// executable (`cur_exe`) by the packaged one (`origin_broker`), after
/// stopping the running broker (`process_exe`).
pub open spec fn update_broker_cmds_spec(process_exe: Seq<char>, origin_broker: Seq<char>, cur_exe: Seq<char>) -> Seq<char> {
    "\n        chcp 65001\n        taskkill /F /IM "@ + process_exe + "\n        copy /Y \""@ + origin_broker
        + "\" \""@ + cur_exe + "\"\n    "@
}

pub fn update_broker_cmds(process_exe: &str, origin_broker: &str, cur_exe: &str) -> (r: String)
    ensures
        r@ == update_broker_cmds_spec(process_exe@, origin_broker@, cur_exe@),
{
    let mut v: Vec<char> = Vec::new();
    push_str(&mut v, "\n        chcp 65001\n        taskkill /F /IM ");
    push_str(&mut v, process_exe);
    push_str(&mut v, "\n        copy /Y \"");
    push_str(&mut v, origin_broker);
    push_str(&mut v, "\" \"");
    push_str(&mut v, cur_exe);
    push_str(&mut v, "\"\n    ");
    string_of(&v)
}

/// The broker is copied again when it is missing, and whenever its
/// modification time could not be compared with the packaged one's
/// (`same_modified_time` is `None`) or differs from it.
pub fn broker_needs_update(cur_exists: bool, same_modified_time: Option<bool>) -> (b: bool)
    ensures
        b == (!cur_exists || same_modified_time != Some(true)),
{
    if !cur_exists {
        return true;
    }
    match same_modified_time {
        Some(same) => !same,
        None => true,
    }
}

/// The startup folder's tray link of the app.
pub open spec fn startup_tray_link(app: Seq<char>) -> Seq<char> {
    "%PROGRAMDATA%\\Microsoft\\Windows\\Start Menu\\Programs\\Startup\\"@ + app + " Tray.lnk"@
}

/// The script that removes the service: the service is stopped and
/// deleted, the tray no longer starts with the session, and the broker and
/// the app's other processes (all but `pid`) are stopped.
pub open spec fn service_uninstall_script_spec(app: Seq<char>, broker_exe: Seq<char>, pid: u32) -> Seq<char> {
    "\n    chcp 65001\n    sc stop "@ + app + "\n    sc delete "@ + app + "\n    if exist \""@
        + startup_tray_link(app) + "\" del /f /q \""@ + startup_tray_link(app)
        + "\"\n    taskkill /F /IM "@ + broker_exe + "\n    taskkill /F /IM "@ + app
        + ".exe /FI \"PID ne "@ + decimal(pid as nat) + "\"\n    "@
}

pub fn service_uninstall_script(app: &str, broker_exe: &str, pid: u32) -> (r: String)
    ensures
        r@ == service_uninstall_script_spec(app@, broker_exe@, pid),
{
    let mut v: Vec<char> = Vec::new();
    push_str(&mut v, "\n    chcp 65001\n    sc stop ");
    push_str(&mut v, app);
    push_str(&mut v, "\n    sc delete ");
    push_str(&mut v, app);
    push_str(&mut v, "\n    if exist \"");
    push_str(&mut v, "%PROGRAMDATA%\\Microsoft\\Windows\\Start Menu\\Programs\\Startup\\");
    push_str(&mut v, app);
    push_str(&mut v, " Tray.lnk");
    push_str(&mut v, "\" del /f /q \"");
    push_str(&mut v, "%PROGRAMDATA%\\Microsoft\\Windows\\Start Menu\\Programs\\Startup\\");
    push_str(&mut v, app);
    push_str(&mut v, " Tray.lnk");
    push_str(&mut v, "\"\n    taskkill /F /IM ");
    push_str(&mut v, broker_exe);
    push_str(&mut v, "\n    taskkill /F /IM ");
    push_str(&mut v, app);
    push_str(&mut v, ".exe /FI \"PID ne ");
    push_decimal(&mut v, pid as u64);
    push_str(&mut v, "\"\n    ");
    string_of(&v)
}

/// The script that installs the service again: the app's other processes
/// (all but `pid`) are stopped, the tray link made and put into the
/// startup folder, the configuration imported and the service created and
/// started (the stop option having been cleared), and the link script
/// removed.
pub open spec fn service_install_script_spec(
    app: Seq<char>,
    pid: u32,
    tray_script: Seq<char>,
    tmp: Seq<char>,
    exe: Seq<char>,
    outgoing_only: bool,
    config_path: Seq<char>,
) -> Seq<char> {
    "\nchcp 65001\ntaskkill /F /IM "@ + app + ".exe /FI \"PID ne "@ + decimal(pid as nat)
        + "\"\ncscript \""@ + tray_script + "\"\ncopy /Y \""@ + tmp + "\\"@ + app
        + " Tray.lnk\" \"%PROGRAMDATA%\\Microsoft\\Windows\\Start Menu\\Programs\\Startup\\\"\n"@
        + import_config_spec(outgoing_only, app, exe, config_path) + "\n"@ + create_service_spec(
        outgoing_only,
        false,
        app,
        exe,
    ) + "\nif exist \""@ + tray_script + "\" del /f /q \""@ + tray_script + "\"\n    "@
}

pub fn service_install_script(
    app: &str,
    pid: u32,
    tray_script: &str,
    tmp: &str,
    exe: &str,
    outgoing_only: bool,
    config_path: &str,
) -> (r: String)
    ensures
        r@ == service_install_script_spec(app@, pid, tray_script@, tmp@, exe@, outgoing_only, config_path@),
{
    let import_config = get_import_config(outgoing_only, app, exe, config_path);
    let create_service = get_create_service(outgoing_only, false, app, exe);
    let mut v: Vec<char> = Vec::new();
    push_str(&mut v, "\nchcp 65001\ntaskkill /F /IM ");
    push_str(&mut v, app);
    push_str(&mut v, ".exe /FI \"PID ne ");
    push_decimal(&mut v, pid as u64);
    push_str(&mut v, "\"\ncscript \"");
    push_str(&mut v, tray_script);
    push_str(&mut v, "\"\ncopy /Y \"");
    push_str(&mut v, tmp);
    push_str(&mut v, "\\");
    push_str(&mut v, app);
    push_str(&mut v, " Tray.lnk\" \"%PROGRAMDATA%\\Microsoft\\Windows\\Start Menu\\Programs\\Startup\\\"\n");
    push_str(&mut v, import_config.as_str());
    push_str(&mut v, "\n");
    push_str(&mut v, create_service.as_str());
    push_str(&mut v, "\nif exist \"");
    push_str(&mut v, tray_script);
    push_str(&mut v, "\" del /f /q \"");
    push_str(&mut v, tray_script);
    push_str(&mut v, "\"\n    ");
    string_of(&v)
}

proof fn lemma_user_sessions_nonzero(sessions: Seq<u32>)
    ensures
        forall|k: int| 0 <= k < user_sessions(sessions).len() ==> #[trigger] user_sessions(sessions)[k] != 0,
        user_sessions(sessions).len() <= sessions.len(),
        (exists|j: int| 0 <= j < sessions.len() && #[trigger] sessions[j] != 0) ==> user_sessions(sessions).len() > 0,
    decreases sessions.len(),
{
    if sessions.len() > 0 {
        let init = sessions.drop_last();
        lemma_user_sessions_nonzero(init);
        if exists|j: int| 0 <= j < sessions.len() && #[trigger] sessions[j] != 0 {
            let j = choose|j: int| 0 <= j < sessions.len() && #[trigger] sessions[j] != 0;
            if j < init.len() {
                assert(init[j] == sessions[j]);
            }
        }
    }
}

/// After an update nothing is started in session 0, and without system
/// rights at most one process is started, though several sessions had one.
pub proof fn law_respawn_outside_session_zero(sessions: Seq<u32>, is_root: bool)
    ensures
        forall|k: int|
            0 <= k < respawn_plan_spec(sessions, is_root).len() ==> #[trigger] respawn_plan_spec(
                sessions,
                is_root,
            )[k] != Respawn::InSession(0),
        !is_root ==> respawn_plan_spec(sessions, is_root).len() <= 1,
        is_root ==> respawn_plan_spec(sessions, is_root).len() <= sessions.len(),
        (exists|j: int| 0 <= j < sessions.len() && #[trigger] sessions[j] != 0) ==> respawn_plan_spec(
            sessions,
            is_root,
        ).len() > 0,
{
    lemma_user_sessions_nonzero(sessions);
}

/// The update script of a client whose remote printer was never installed
/// is that of the same client with the printer installed, with the two
/// printer commands taken out: the one that removes the printer with the
/// new executable and the one that installs it again. Nothing else differs,
/// so without an installed printer the script runs neither.
pub proof fn law_update_printer_commands_only_when_installed(u: UpdateScriptInputs)
    requires
        !u.printer_installed,
    ensures
        ({
            let with_printer = UpdateScriptInputs { printer_installed: true, ..u };
            exists|a: Seq<char>, b: Seq<char>|
                {
                    &&& update_script_spec(u) == a + "\n"@ + b
                    &&& update_script_spec(with_printer) == a + ("\""@ + u.src_exe@
                        + "\" --uninstall-remote-printer"@) + "\n"@ + ("\""@ + u.src_exe@
                        + "\" --install-remote-printer"@) + b
                }
        }),
{
    let t = UpdateScriptInputs { printer_installed: true, ..u };
    let app = u.app_name@;
    let is_msi = match u.is_msi {
        Some(b) => b,
        None => true,
    };
    let head = "\nchcp 65001\nsc stop "@ + app + "\ntaskkill /F /IM "@ + app + ".exe /FI \"PID ne "@
        + decimal(u.pid as nat) + "\"\n"@ + update_registry_spec(u) + "\n"@ + copy_exe_spec(
        u.src_dir@,
        u.path@,
        u.origin_broker@,
        u.broker_exe@,
    ) + "\n"@ + rename_exe_spec(u.src_exe_filename@, u.path@, app) + "\n"@ + (if is_msi
        && u.is_custom_client {
        "\n        del /F /Q \""@ + u.path@ + "\\meta.toml\"\n        "@
    } else {
        seq![]
    }) + "\n"@ + (if u.is_service_running {
        "sc start "@ + app
    } else {
        seq![]
    }) + "\n"@;
    let tail = "\n"@ + (if u.debug {
        "timeout 300"@
    } else {
        seq![]
    }) + "\n    "@;
    let p1 = "\""@ + u.src_exe@ + "\" --uninstall-remote-printer"@;
    let p2 = "\""@ + u.src_exe@ + "\" --install-remote-printer"@;
    assert(update_registry_spec(t) == update_registry_spec(u));
    assert(update_script_spec(u) =~= head + "\n"@ + tail);
    assert(update_script_spec(t) =~= head + p1 + "\n"@ + p2 + tail);
}

/// The install script's tail, with its shortcut copies `sc` and its
/// after-install script `after` left open: what comes before each, each,
/// and what comes after.
proof fn lemma_install_tail_slots(
    mk: Seq<char>,
    un: Seq<char>,
    tray: Seq<char>,
    tmp: Seq<char>,
    app: Seq<char>,
    sc: Seq<char>,
    path: Seq<char>,
    dels: Seq<char>,
    imp: Seq<char>,
    after: Seq<char>,
    prn: Seq<char>,
    sleep: Seq<char>,
)
    ensures
        "\ncscript \""@ + mk + "\"\ncscript \""@ + un + "\"\n"@ + tray + "\n"@ + sc
            + "\ncopy /Y \""@ + tmp + "\\Uninstall "@ + app + ".lnk\" \""@ + path + "\\\"\n"@ + dels
            + "\n"@ + imp + "\n"@ + after + "\n"@ + prn + "\n"@ + sleep + "\n    "@
            == ("\ncscript \""@ + mk + "\"\ncscript \""@ + un + "\"\n"@ + tray + "\n"@) + sc + (
            "\ncopy /Y \""@ + tmp + "\\Uninstall "@ + app + ".lnk\" \""@ + path + "\\\"\n"@ + dels
            + "\n"@ + imp + "\n"@) + after + ("\n"@ + prn + "\n"@ + sleep + "\n    "@),
{
    assert("\ncscript \""@ + mk + "\"\ncscript \""@ + un + "\"\n"@ + tray + "\n"@ + sc
        + "\ncopy /Y \""@ + tmp + "\\Uninstall "@ + app + ".lnk\" \""@ + path + "\\\"\n"@ + dels
        + "\n"@ + imp + "\n"@ + after + "\n"@ + prn + "\n"@ + sleep + "\n    "@
        =~= ("\ncscript \""@ + mk + "\"\ncscript \""@ + un + "\"\n"@ + tray + "\n"@) + sc + (
        "\ncopy /Y \""@ + tmp + "\\Uninstall "@ + app + ".lnk\" \""@ + path + "\\\"\n"@ + dels
        + "\n"@ + imp + "\n"@) + after + ("\n"@ + prn + "\n"@ + sleep + "\n    "@));
}

proof fn lemma_install_parts_ignore_options(with: InstallScriptInputs, without: InstallScriptInputs)
    requires
        without == (InstallScriptInputs { options: without.options, ..with }),
        contains_seq(with.options@, "startmenu"@) == contains_seq(without.options@, "startmenu"@),
        contains_seq(with.options@, "printer"@) == contains_seq(without.options@, "printer"@),
    ensures
        install_head_spec(without) == install_head_spec(with),
        tail_before_shortcuts(without) == tail_before_shortcuts(with),
        tail_between(without) == tail_between(with),
        tail_end(without) == tail_end(with),
        tail_after_install(without, false) == tail_after_install(with, false),
{
    lemma_install_head_ignores_options(with, without);
    lemma_tail_before_shortcuts_ignores_options(with, without);
    lemma_tail_between_ignores_options(with, without);
    lemma_tail_end_ignores_options(with, without);
    lemma_tail_after_install_ignores_options(with, without);
}

proof fn lemma_install_head_ignores_options(with: InstallScriptInputs, without: InstallScriptInputs)
    requires
        without == (InstallScriptInputs { options: without.options, ..with }),
    ensures
        install_head_spec(without) == install_head_spec(with),
{
}

proof fn lemma_tail_before_shortcuts_ignores_options(with: InstallScriptInputs, without: InstallScriptInputs)
    requires
        without == (InstallScriptInputs { options: without.options, ..with }),
    ensures
        tail_before_shortcuts(without) == tail_before_shortcuts(with),
{
}

proof fn lemma_tail_between_ignores_options(with: InstallScriptInputs, without: InstallScriptInputs)
    requires
        without == (InstallScriptInputs { options: without.options, ..with }),
    ensures
        tail_between(without) == tail_between(with),
{
}

proof fn lemma_tail_end_ignores_options(with: InstallScriptInputs, without: InstallScriptInputs)
    requires
        without == (InstallScriptInputs { options: without.options, ..with }),
        contains_seq(with.options@, "printer"@) == contains_seq(without.options@, "printer"@),
    ensures
        tail_end(without) == tail_end(with),
{
}

proof fn lemma_tail_after_install_ignores_options(with: InstallScriptInputs, without: InstallScriptInputs)
    requires
        without == (InstallScriptInputs { options: without.options, ..with }),
        contains_seq(with.options@, "startmenu"@) == contains_seq(without.options@, "startmenu"@),
        contains_seq(with.options@, "printer"@) == contains_seq(without.options@, "printer"@),
    ensures
        tail_after_install(without, false) == tail_after_install(with, false),
{
}

proof fn lemma_regroup_script(
    hd: Seq<char>,
    x: Seq<char>,
    desk: Seq<char>,
    sc: Seq<char>,
    y: Seq<char>,
    h: Seq<char>,
    d: Seq<char>,
    t: Seq<char>,
    z: Seq<char>,
)
    ensures
        hd + (x + (desk + sc) + y + (h + d + "1"@ + t) + z) == (hd + x) + desk + (sc + y + h) + d
            + "1"@ + (t + z),
        hd + (x + sc + y + (h + d + "0"@ + t) + z) == (hd + x) + (sc + y + h) + d + "0"@ + (t + z),
{
    assert(hd + (x + (desk + sc) + y + (h + d + "1"@ + t) + z) =~= (hd + x) + desk + (sc + y + h) + d
        + "1"@ + (t + z));
    assert(hd + (x + sc + y + (h + d + "0"@ + t) + z) =~= (hd + x) + (sc + y + h) + d + "0"@ + (t
        + z));
}

/// What the install script's tail runs before its shortcut copies.
spec fn tail_before_shortcuts(i: InstallScriptInputs) -> Seq<char> {
    "\ncscript \""@ + i.mk_shortcut_script@ + "\"\ncscript \""@ + i.uninstall_shortcut_script@
        + "\"\n"@ + tray_shortcuts_cmd_spec(i.outgoing_only, i.tray_shortcut_script@, i.tmp_path@, i.app_name@)
        + "\n"@
}

/// What the install script's tail runs between its shortcut copies and its
/// after-install script.
spec fn tail_between(i: InstallScriptInputs) -> Seq<char> {
    let app = i.app_name@;
    let dels = if i.debug {
        seq![]
    } else {
        install_cleanup_spec(
            i.mk_shortcut_script@,
            i.uninstall_shortcut_script@,
            i.tray_shortcut_script@,
            i.tmp_path@,
            app,
        )
    };
    "\ncopy /Y \""@ + i.tmp_path@ + "\\Uninstall "@ + app + ".lnk\" \""@ + i.path@ + "\\\"\n"@ + dels
        + "\n"@ + import_config_spec(i.outgoing_only, app, i.exe@, i.config_path@) + "\n"@
}

/// What the install script's tail runs after its after-install script.
spec fn tail_end(i: InstallScriptInputs) -> Seq<char> {
    let printer = contains_seq(i.options@, "printer"@) && i.win10_or_greater;
    let sleep = if i.debug {
        "timeout 300"@
    } else {
        seq![]
    };
    "\n"@ + install_printer_cmd_spec(printer, i.win10_or_greater, i.src_exe@) + "\n"@ + sleep + "\n    "@
}

/// The after-install script of the install script's tail, with the desktop
/// shortcuts value `desktop` recorded.
spec fn tail_after_install(i: InstallScriptInputs, desktop: bool) -> Seq<char> {
    let app = i.app_name@;
    let printer = contains_seq(i.options@, "printer"@) && i.win10_or_greater;
    after_install_spec(
        app,
        i.exe@,
        Some(flag_value(contains_seq(i.options@, "startmenu"@))),
        Some(flag_value(desktop)),
        Some(flag_value(printer)),
        create_service_spec(i.outgoing_only, i.stop_service, app, i.exe@),
    )
}

proof fn lemma_install_tail_shape(i: InstallScriptInputs)
    ensures
        install_tail_spec(i) == tail_before_shortcuts(i) + shortcuts_cmd_spec(
            contains_seq(i.options@, "desktopicon"@),
            contains_seq(i.options@, "startmenu"@),
            i.tmp_path@,
            i.app_name@,
            i.start_menu@,
        ) + tail_between(i) + tail_after_install(i, contains_seq(i.options@, "desktopicon"@))
            + tail_end(i),
{
    let app = i.app_name@;
    let dels = if i.debug {
        seq![]
    } else {
        install_cleanup_spec(
            i.mk_shortcut_script@,
            i.uninstall_shortcut_script@,
            i.tray_shortcut_script@,
            i.tmp_path@,
            app,
        )
    };
    let sleep = if i.debug {
        "timeout 300"@
    } else {
        seq![]
    };
    let printer = contains_seq(i.options@, "printer"@) && i.win10_or_greater;
    lemma_install_tail_slots(
        i.mk_shortcut_script@,
        i.uninstall_shortcut_script@,
        tray_shortcuts_cmd_spec(i.outgoing_only, i.tray_shortcut_script@, i.tmp_path@, app),
        i.tmp_path@,
        app,
        shortcuts_cmd_spec(
            contains_seq(i.options@, "desktopicon"@),
            contains_seq(i.options@, "startmenu"@),
            i.tmp_path@,
            app,
            i.start_menu@,
        ),
        i.path@,
        dels,
        import_config_spec(i.outgoing_only, app, i.exe@, i.config_path@),
        tail_after_install(i, contains_seq(i.options@, "desktopicon"@)),
        install_printer_cmd_spec(printer, i.win10_or_greater, i.src_exe@),
        sleep,
    );
}

proof fn lemma_tail_after_install_desktop_slot(i: InstallScriptInputs)
    ensures
        exists|h: Seq<char>, t: Seq<char>|
            {
                &&& tail_after_install(i, true) == h + ("DESKTOPSHORTCUTS"@ + " /t REG_SZ /d \""@) + "1"@ + t
                &&& tail_after_install(i, false) == h + ("DESKTOPSHORTCUTS"@ + " /t REG_SZ /d \""@) + "0"@ + t
            },
{
    let app = i.app_name@;
    let printer = contains_seq(i.options@, "printer"@) && i.win10_or_greater;
    lemma_after_install_desktop_value(
        app,
        i.exe@,
        Some(flag_value(contains_seq(i.options@, "startmenu"@))),
        "1"@,
        "0"@,
        Some(flag_value(printer)),
        create_service_spec(i.outgoing_only, i.stop_service, app, i.exe@),
    );
}

proof fn lemma_install_script_shape(i: InstallScriptInputs, desktop: bool)
    requires
        desktop == contains_seq(i.options@, "desktopicon"@),
    ensures
        install_script_spec(i) == install_head_spec(i) + (tail_before_shortcuts(i) + shortcuts_cmd_spec(
            desktop,
            contains_seq(i.options@, "startmenu"@),
            i.tmp_path@,
            i.app_name@,
            i.start_menu@,
        ) + tail_between(i) + tail_after_install(i, desktop) + tail_end(i)),
{
    lemma_install_tail_shape(i);
}

proof fn lemma_two_scripts(
    s1: Seq<char>,
    s0: Seq<char>,
    hd: Seq<char>,
    x: Seq<char>,
    desk: Seq<char>,
    sc: Seq<char>,
    y: Seq<char>,
    h: Seq<char>,
    d: Seq<char>,
    t: Seq<char>,
    z: Seq<char>,
)
    requires
        s1 == hd + (x + (desk + sc) + y + (h + d + "1"@ + t) + z),
        s0 == hd + (x + sc + y + (h + d + "0"@ + t) + z),
    ensures
        exists|a: Seq<char>, b: Seq<char>, c: Seq<char>|
            s1 == a + desk + b + d + "1"@ + c && s0 == a + b + d + "0"@ + c,
{
    lemma_regroup_script(hd, x, desk, sc, y, h, d, t, z);
    assert(s1 == (hd + x) + desk + (sc + y + h) + d + "1"@ + (t + z));
    assert(s0 == (hd + x) + (sc + y + h) + d + "0"@ + (t + z));
}

/// The desktop icon option decides the desktop shortcut and nothing else:
/// of two installs that differ only in their options, which agree on the
/// start menu and printer options, the one whose options ask for
/// `desktopicon` has the script of the other with a copy of the app's
/// shortcut to the public desktop put in, and records `DESKTOPSHORTCUTS`
/// as "1" where the other records "0".
pub proof fn law_install_desktop_shortcut_follows_options(with: InstallScriptInputs, without: InstallScriptInputs)
    requires
        without == (InstallScriptInputs { options: without.options, ..with }),
        contains_seq(with.options@, "desktopicon"@),
        !contains_seq(without.options@, "desktopicon"@),
        contains_seq(with.options@, "startmenu"@) == contains_seq(without.options@, "startmenu"@),
        contains_seq(with.options@, "printer"@) == contains_seq(without.options@, "printer"@),
    ensures
        exists|a: Seq<char>, b: Seq<char>, c: Seq<char>|
            {
                &&& install_script_spec(with) == a + ("copy /Y \""@ + with.tmp_path@ + "\\"@
                    + with.app_name@ + ".lnk\" \"%PUBLIC%\\Desktop\\\""@) + b + ("DESKTOPSHORTCUTS"@
                    + " /t REG_SZ /d \""@) + "1"@ + c
                &&& install_script_spec(without) == a + b + ("DESKTOPSHORTCUTS"@
                    + " /t REG_SZ /d \""@) + "0"@ + c
            },
{
    let sm = contains_seq(with.options@, "startmenu"@);
    let desk = "copy /Y \""@ + with.tmp_path@ + "\\"@ + with.app_name@ + ".lnk\" \"%PUBLIC%\\Desktop\\\""@;
    let sc0 = shortcuts_cmd_spec(false, sm, with.tmp_path@, with.app_name@, with.start_menu@);
    assert(shortcuts_cmd_spec(true, sm, with.tmp_path@, with.app_name@, with.start_menu@) =~= desk + sc0);
    let d = "DESKTOPSHORTCUTS"@ + " /t REG_SZ /d \""@;
    lemma_tail_after_install_desktop_slot(with);
    let (h, t) = choose|h: Seq<char>, t: Seq<char>|
        {
            &&& tail_after_install(with, true) == h + d + "1"@ + t
            &&& tail_after_install(with, false) == h + d + "0"@ + t
        };
    lemma_install_script_shape(with, true);
    lemma_install_script_shape(without, false);
    lemma_install_parts_ignore_options(with, without);
    let hd = install_head_spec(with);
    let x = tail_before_shortcuts(with);
    let y = tail_between(with);
    let z = tail_end(with);
    assert(without.tmp_path == with.tmp_path && without.app_name == with.app_name
        && without.start_menu == with.start_menu);
    let sc_without = shortcuts_cmd_spec(
        false,
        contains_seq(without.options@, "startmenu"@),
        without.tmp_path@,
        without.app_name@,
        without.start_menu@,
    );
    assert(sc_without == sc0);
    let s1 = install_script_spec(with);
    let s0 = install_script_spec(without);
    assert(s1 == hd + (x + (desk + sc0) + y + (h + d + "1"@ + t) + z));
    assert(s0 == hd + (x + sc0 + y + (h + d + "0"@ + t) + z));
    lemma_two_scripts(
        install_script_spec(with),
        install_script_spec(without),
        install_head_spec(with),
        tail_before_shortcuts(with),
        desk,
        sc0,
        tail_between(with),
        h,
        d,
        t,
        tail_end(with),
    );
}

} // verus!
