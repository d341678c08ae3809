//! The pieces of the Windows install and update scripts that follow from
//! plain values: registry keys, version fields, install locations and the
//! command lines that depend on the installation's state.

use vstd::prelude::*;
use crate::text::{
    chars_of, contains, contains_seq, lemma_last_occ_is, matches_at, occurs_at, push_all, rfind,
    slice_chars, string_of, to_lowercase, lower_text,
};
use crate::sessions::{decimal, push_decimal, split_on, split_on_char, trail_char};
use crate::win_focus::seq_eq;

verus! {

/// `s` from position `i` on with every (leftmost, non-overlapping)
/// occurrence of `from` replaced by `to` (`str::replace`; an empty `from`
/// matches before every character and at the end).
pub open spec fn replace_all_from(s: Seq<char>, from: Seq<char>, to: Seq<char>, i: int) -> Seq<char>
    decreases s.len() - i,
{
    if i < 0 || i > s.len() {
        seq![]
    } else if from.len() == 0 {
        if i == s.len() {
            to
        } else {
            to + seq![s[i]] + replace_all_from(s, from, to, i + 1)
        }
    } else if i == s.len() {
        seq![]
    } else if occurs_at(s, from, i) {
        to + replace_all_from(s, from, to, i + from.len())
    } else {
        seq![s[i]] + replace_all_from(s, from, to, i + 1)
    }
}

pub open spec fn replace_all(s: Seq<char>, from: Seq<char>, to: Seq<char>) -> Seq<char> {
    replace_all_from(s, from, to, 0)
}

/// `str::replace`.
pub fn replace_all_chars(s: &[char], from: &[char], to: &[char]) -> (r: Vec<char>)
    ensures
        r@ == replace_all(s@, from@, to@),
{
    let mut r: Vec<char> = Vec::new();
    let mut i: usize = 0;
    if from.len() == 0 {
        while i < s.len()
            invariant
                from@.len() == 0,
                i <= s@.len(),
                replace_all(s@, from@, to@) == r@ + replace_all_from(s@, from@, to@, i as int),
            decreases s@.len() - i,
        {
            let ghost before = r@;
            push_all(&mut r, to);
            r.push(s[i]);
            assert(before + (to@ + seq![s@[i as int]] + replace_all_from(s@, from@, to@, i + 1))
                =~= r@ + replace_all_from(s@, from@, to@, i + 1));
            i = i + 1;
        }
        let ghost before = r@;
        push_all(&mut r, to);
        assert(before + replace_all_from(s@, from@, to@, i as int) =~= r@);
        return r;
    }
    while i < s.len()
        invariant
            from@.len() > 0,
            i <= s@.len(),
            replace_all(s@, from@, to@) == r@ + replace_all_from(s@, from@, to@, i as int),
        decreases s@.len() - i,
    {
        if matches_at(s, from, i) {
            let ghost before = r@;
            push_all(&mut r, to);
            assert(before + (to@ + replace_all_from(s@, from@, to@, i + from@.len())) =~= r@
                + replace_all_from(s@, from@, to@, i + from@.len()));
            i = i + from.len();
        } else {
            let ghost before = r@;
            r.push(s[i]);
            assert(before + (seq![s@[i as int]] + replace_all_from(s@, from@, to@, i + 1)) =~= r@
                + replace_all_from(s@, from@, to@, i + 1));
            i = i + 1;
        }
    }
    assert(replace_all_from(s@, from@, to@, i as int) =~= seq![]);
    assert(r@ + seq![] =~= r@);
    r
}

pub open spec fn uninstall_root() -> Seq<char> {
    "HKEY_LOCAL_MACHINE\\Software\\Microsoft\\Windows\\CurrentVersion\\Uninstall\\"@
}

/// The uninstall registry key of `name`, under `Wow6432Node` for the
/// 32-bit view.
pub open spec fn subkey_spec(name: Seq<char>, wow: bool) -> Seq<char> {
    if wow {
        replace_all(uninstall_root() + name, "Microsoft"@, "Wow6432Node\\Microsoft"@)
    } else {
        uninstall_root() + name
    }
}

pub fn get_subkey(name: &str, wow: bool) -> (r: String)
    ensures
        r@ == subkey_spec(name@, wow),
{
    let mut key = chars_of("HKEY_LOCAL_MACHINE\\Software\\Microsoft\\Windows\\CurrentVersion\\Uninstall\\");
    let n = chars_of(name);
    push_all(&mut key, &n);
    if wow {
        let from = chars_of("Microsoft");
        let to = chars_of("Wow6432Node\\Microsoft");
        let replaced = replace_all_chars(&key, &from, &to);
        string_of(&replaced)
    } else {
        string_of(&key)
    }
}

/// The product code under which the classic installer records the app.
pub const IS1: &'static str = "{54E86BC2-6C85-41F3-A9EB-1A94AC9B1F93}_is1";

/// The uninstall keys where an installation may be recorded, in the order
/// they are tried: the classic installer's key, in the native and the
/// 32-bit view, then the app's own key in the 32-bit and the native view.
pub open spec fn subkey_candidates_spec(app_name: Seq<char>) -> Seq<Seq<char>> {
    seq![
        subkey_spec(IS1@, false),
        subkey_spec(IS1@, true),
        subkey_spec(app_name, true),
        subkey_spec(app_name, false),
    ]
}

/// Which candidate key is the installation's: the first of the first three
/// whose install location is recorded (`located[i]` for candidate `i`),
/// else the app's own native key.
pub open spec fn valid_subkey_index(located: Seq<bool>) -> int {
    if located.len() > 0 && located[0] {
        0
    } else if located.len() > 1 && located[1] {
        1
    } else if located.len() > 2 && located[2] {
        2
    } else {
        3
    }
}

pub fn subkey_candidates(app_name: &str) -> (r: Vec<String>)
    ensures
        r@.len() == 4,
        forall|i: int| 0 <= i < 4 ==> #[trigger] r@[i]@ == subkey_candidates_spec(app_name@)[i],
{
    let mut r: Vec<String> = Vec::new();
    r.push(get_subkey(IS1, false));
    r.push(get_subkey(IS1, true));
    r.push(get_subkey(app_name, true));
    r.push(get_subkey(app_name, false));
    r
}

pub fn valid_subkey(app_name: &str, located: &[bool]) -> (r: String)
    ensures
        r@ == subkey_candidates_spec(app_name@)[valid_subkey_index(located@)],
{
    if located.len() > 0 && located[0] {
        get_subkey(IS1, false)
    } else if located.len() > 1 && located[1] {
        get_subkey(IS1, true)
    } else if located.len() > 2 && located[2] {
        get_subkey(app_name, true)
    } else {
        get_subkey(app_name, false)
    }
}

/// The default install directory: the app's folder under the program
/// files folder.
pub open spec fn default_install_path_spec(program_files: Seq<char>, app_name: Seq<char>) -> Seq<char> {
    program_files + "\\"@ + app_name
}

pub fn default_install_path(program_files: &str, app_name: &str) -> (r: String)
    ensures
        r@ == default_install_path_spec(program_files@, app_name@),
{
    let mut v: Vec<char> = Vec::new();
    push_str(&mut v, program_files);
    push_str(&mut v, "\\");
    push_str(&mut v, app_name);
    string_of(&v)
}

/// The 32-bit program files folder that stands beside `program_files`.
pub fn x86_program_files(program_files: &str) -> (r: String)
    ensures
        r@ == replace_all(program_files@, "Program Files"@, "Program Files (x86)"@),
{
    let v = chars_of(program_files);
    string_of(&replace_all_chars(&v, &chars_of("Program Files"), &chars_of("Program Files (x86)")))
}

/// The three leading `.`-separated fields of a version, `"0"` for each
/// missing one.
pub open spec fn version_field(version: Seq<char>, i: int) -> Seq<char> {
    if i < split_on(version, '.').len() {
        split_on(version, '.')[i]
    } else {
        "0"@
    }
}

/// Major, minor and build fields of `version`.
pub fn version_parts(version: &str) -> (r: (String, String, String))
    ensures
        r.0@ == version_field(version@, 0),
        r.1@ == version_field(version@, 1),
        r.2@ == version_field(version@, 2),
{
    let v = chars_of(version);
    let parts = split_on_char(&v, '.');
    let major = if parts.len() > 0 {
        string_of(&parts[0])
    } else {
        string_of(&chars_of("0"))
    };
    let minor = if parts.len() > 1 {
        string_of(&parts[1])
    } else {
        string_of(&chars_of("0"))
    };
    let build = if parts.len() > 2 {
        string_of(&parts[2])
    } else {
        string_of(&chars_of("0"))
    };
    (major, minor, build)
}

/// The version as the registry shows it: `-` written as `.`.
pub fn display_version(version: &str) -> (r: String)
    ensures
        r@ == replace_all(version@, "-"@, "."@),
{
    let v = chars_of(version);
    let from = chars_of("-");
    let to = chars_of(".");
    string_of(&replace_all_chars(&v, &from, &to))
}

/// What the install options ask for.
#[derive(Clone, Copy, Debug, PartialEq, Eq, Structural)]
pub struct InstallFlags {
    pub desktop_shortcut: bool,
    pub start_menu_shortcut: bool,
    /// The remote printer, which needs Windows 10 or later.
    pub printer: bool,
}

pub fn install_flags(options: &str, win10_or_greater: bool) -> (f: InstallFlags)
    ensures
        f.desktop_shortcut == contains_seq(options@, "desktopicon"@),
        f.start_menu_shortcut == contains_seq(options@, "startmenu"@),
        f.printer == (contains_seq(options@, "printer"@) && win10_or_greater),
{
    let o = chars_of(options);
    let desktop_shortcut = contains(&o, &chars_of("desktopicon"));
    let start_menu_shortcut = contains(&o, &chars_of("startmenu"));
    let printer = contains(&o, &chars_of("printer")) && win10_or_greater;
    InstallFlags { desktop_shortcut, start_menu_shortcut, printer }
}

/// `1` or `0`, as the install scripts record a flag in the registry.
pub open spec fn flag_value(b: bool) -> Seq<char> {
    if b {
        "1"@
    } else {
        "0"@
    }
}

/// The install directory and executable: the requested path without
/// trailing `\`, or the default one when none is given, the executable
/// moved along with it.
pub open spec fn install_location_spec(path: Seq<char>, default_path: Seq<char>, default_exe: Seq<char>) -> (Seq<char>, Seq<char>) {
    let p = path.take(path.len() - trail_char(path, '\\'));
    if p.len() == 0 {
        (default_path, default_exe)
    } else {
        (p, replace_all(default_exe, default_path, p))
    }
}

pub fn install_location(path: &str, default_path: &str, default_exe: &str) -> (r: (String, String))
    ensures
        (r.0@, r.1@) == install_location_spec(path@, default_path@, default_exe@),
{
    let p = chars_of(path);
    let mut j: usize = p.len();
    while j > 0 && p[j - 1] == '\\'
        invariant
            j <= p@.len(),
            forall|k: int| j <= k < p@.len() ==> #[trigger] p@[k] == '\\',
        decreases j,
    {
        j = j - 1;
    }
    proof {
        lemma_trail_exact(p@, '\\', j as int);
    }
    let trimmed = slice_chars(&p, 0, j);
    if trimmed.len() == 0 {
        return (default_path.to_owned(), default_exe.to_owned());
    }
    let dp = chars_of(default_path);
    let de = chars_of(default_exe);
    let exe = replace_all_chars(&de, &dp, &trimmed);
    (string_of(&trimmed), string_of(&exe))
}

proof fn lemma_trail_exact(s: Seq<char>, c: char, j: int)
    requires
        0 <= j <= s.len(),
        forall|k: int| j <= k < s.len() ==> #[trigger] s[k] == c,
        j == 0 || s[j - 1] != c,
    ensures
        trail_char(s, c) == s.len() - j,
    decreases s.len() - j,
{
    if j < s.len() {
        let t = s.drop_last();
        assert forall|k: int| j <= k < t.len() implies #[trigger] t[k] == c by {
            assert(t[k] == s[k]);
        }
        if j > 0 {
            assert(t[j - 1] == s[j - 1]);
        }
        lemma_trail_exact(t, c, j);
    }
}

/// The registry key of an MSI installation: the product code, the last
/// `{...}` of the uninstall string, under the parent of `subkey`. Only a
/// custom client that may be MSI-installed (`is_msi` unknown counts as
/// maybe) has one.
pub open spec fn msi_key_spec(
    subkey: Seq<char>,
    is_custom_client: bool,
    is_msi: Option<bool>,
    uninstall_string: Seq<char>,
) -> Option<Seq<char>> {
    if !(is_custom_client && is_msi != Some(false)) || uninstall_string.len() == 0 {
        None
    } else if !contains_seq(uninstall_string, seq!['{']) || !contains_seq(
        uninstall_string,
        seq!['}'],
    ) || !contains_seq(subkey, seq!['\\']) {
        None
    } else {
        let start = crate::text::last_occ(uninstall_string, seq!['{']);
        let end = crate::text::last_occ(uninstall_string, seq!['}']);
        let pos = crate::text::last_occ(subkey, seq!['\\']);
        if start >= end {
            None
        } else {
            Some(subkey.take(pos + 1) + uninstall_string.subrange(start, end + 1))
        }
    }
}

/// The MSI registry key to update beside `subkey`, from the uninstall
/// string found under `subkey` (empty when there is none).
pub fn get_reg_msi_key(
    subkey: &str,
    is_custom_client: bool,
    is_msi: Option<bool>,
    uninstall_string: &str,
) -> (r: Option<String>)
    ensures
        match r {
            Some(k) => msi_key_spec(subkey@, is_custom_client, is_msi, uninstall_string@) == Some(
                k@,
            ),
            None => msi_key_spec(subkey@, is_custom_client, is_msi, uninstall_string@) is None,
        },
{
    let maybe_msi = match is_msi {
        Some(b) => b,
        None => true,
    };
    if !(is_custom_client && maybe_msi) {
        return None;
    }
    let u = chars_of(uninstall_string);
    if u.len() == 0 {
        return None;
    }
    let open = vec!['{'];
    let close = vec!['}'];
    let sep = vec!['\\'];
    assert(open@ == seq!['{']);
    assert(close@ == seq!['}']);
    assert(sep@ == seq!['\\']);
    let start = match rfind(&u, &open) {
        Some(i) => i,
        None => {
            return None;
        },
    };
    let end = match rfind(&u, &close) {
        Some(i) => i,
        None => {
            return None;
        },
    };
    let k = chars_of(subkey);
    let pos = match rfind(&k, &sep) {
        Some(i) => i,
        None => {
            return None;
        },
    };
    proof {
        lemma_last_occ_is(u@, open@, start as int);
        lemma_last_occ_is(u@, close@, end as int);
        lemma_last_occ_is(k@, sep@, pos as int);
        assert(occurs_at(u@, close@, end as int));
        assert(occurs_at(k@, sep@, pos as int));
    }
    if start >= end {
        return None;
    }
    let klen = k.len();
    assert(pos + 1 <= klen);
    let mut key = slice_chars(&k, 0, pos + 1);
    let code = slice_chars(&u, start, end + 1);
    push_all(&mut key, &code);
    Some(string_of(&key))
}


pub(crate) fn push_str(v: &mut Vec<char>, s: &str)
    ensures
        final(v)@ == old(v)@ + s@,
{
    let c = chars_of(s);
    push_all(v, &c);
}

/// The registry commands that record an updated version under `subkey`;
/// the display icon is left alone for an MSI installation.
pub open spec fn reg_cmd_spec(
    subkey: Seq<char>,
    is_msi: Option<bool>,
    display_icon: Seq<char>,
    version: Seq<char>,
    build_date: Seq<char>,
    version_major: Seq<char>,
    version_minor: Seq<char>,
    version_build: Seq<char>,
    size: u64,
) -> Seq<char> {
    let icon_line = if is_msi == Some(true) {
        seq![]
    } else {
        "reg add "@ + subkey + " /f /v DisplayIcon /t REG_SZ /d \""@ + display_icon + "\""@
    };
    "\n"@ + icon_line + "\nreg add "@ + subkey + " /f /v DisplayVersion /t REG_SZ /d \""@ + version
        + "\"\nreg add "@ + subkey + " /f /v Version /t REG_SZ /d \""@ + version
        + "\"\nreg add "@ + subkey + " /f /v BuildDate /t REG_SZ /d \""@ + build_date
        + "\"\nreg add "@ + subkey + " /f /v VersionMajor /t REG_DWORD /d "@ + version_major
        + "\nreg add "@ + subkey + " /f /v VersionMinor /t REG_DWORD /d "@ + version_minor
        + "\nreg add "@ + subkey + " /f /v VersionBuild /t REG_DWORD /d "@ + version_build
        + "\nreg add "@ + subkey + " /f /v EstimatedSize /t REG_DWORD /d "@ + decimal(size as nat)
        + "\n        "@
}

pub fn get_reg_cmd(
    subkey: &str,
    is_msi: Option<bool>,
    display_icon: &str,
    version: &str,
    build_date: &str,
    version_major: &str,
    version_minor: &str,
    version_build: &str,
    size: u64,
) -> (r: String)
    ensures
        r@ == reg_cmd_spec(
            subkey@,
            is_msi,
            display_icon@,
            version@,
            build_date@,
            version_major@,
            version_minor@,
            version_build@,
            size,
        ),
{
    let mut v: Vec<char> = Vec::new();
    push_str(&mut v, "\n");
    let msi = match is_msi {
        Some(b) => b,
        None => false,
    };
    if !msi {
        push_str(&mut v, "reg add ");
        push_str(&mut v, subkey);
        push_str(&mut v, " /f /v DisplayIcon /t REG_SZ /d \"");
        push_str(&mut v, display_icon);
        push_str(&mut v, "\"");
    }
    push_str(&mut v, "\nreg add ");
    push_str(&mut v, subkey);
    push_str(&mut v, " /f /v DisplayVersion /t REG_SZ /d \"");
    push_str(&mut v, version);
    push_str(&mut v, "\"\nreg add ");
    push_str(&mut v, subkey);
    push_str(&mut v, " /f /v Version /t REG_SZ /d \"");
    push_str(&mut v, version);
    push_str(&mut v, "\"\nreg add ");
    push_str(&mut v, subkey);
    push_str(&mut v, " /f /v BuildDate /t REG_SZ /d \"");
    push_str(&mut v, build_date);
    push_str(&mut v, "\"\nreg add ");
    push_str(&mut v, subkey);
    push_str(&mut v, " /f /v VersionMajor /t REG_DWORD /d ");
    push_str(&mut v, version_major);
    push_str(&mut v, "\nreg add ");
    push_str(&mut v, subkey);
    push_str(&mut v, " /f /v VersionMinor /t REG_DWORD /d ");
    push_str(&mut v, version_minor);
    push_str(&mut v, "\nreg add ");
    push_str(&mut v, subkey);
    push_str(&mut v, " /f /v VersionBuild /t REG_DWORD /d ");
    push_str(&mut v, version_build);
    push_str(&mut v, "\nreg add ");
    push_str(&mut v, subkey);
    push_str(&mut v, " /f /v EstimatedSize /t REG_DWORD /d ");
    push_decimal(&mut v, size);
    push_str(&mut v, "\n        ");
    string_of(&v)
}

/// The command that installs an MSI package, quietly and without starting
/// the tray where asked.
pub fn update_me_msi_cmd(msi: &str, quiet: bool) -> (r: String)
    ensures
        r@ == "chcp 65001 && msiexec /i "@ + msi@ + " "@ + (if quiet {
            "/qn LAUNCH_TRAY_APP=N"@
        } else {
            seq![]
        }),
{
    let mut v: Vec<char> = Vec::new();
    push_str(&mut v, "chcp 65001 && msiexec /i ");
    push_str(&mut v, msi);
    push_str(&mut v, " ");
    if quiet {
        push_str(&mut v, "/qn LAUNCH_TRAY_APP=N");
    }
    string_of(&v)
}

/// Restarts the service after an update where it was running.
pub fn restore_service_cmd(is_service_running: bool, app_name: &str) -> (r: String)
    ensures
        r@ == (if is_service_running {
            "sc start "@ + app_name@
        } else {
            seq![]
        }),
{
    let mut v: Vec<char> = Vec::new();
    if is_service_running {
        push_str(&mut v, "sc start ");
        push_str(&mut v, app_name);
    }
    string_of(&v)
}

/// The custom client's `meta.toml` is removed on an update of an MSI
/// installation.
pub fn remove_meta_toml_cmd(is_msi: bool, is_custom_client: bool, path: &str) -> (r: String)
    ensures
        r@ == (if is_msi && is_custom_client {
            "\n        del /F /Q \""@ + path@ + "\\meta.toml\"\n        "@
        } else {
            seq![]
        }),
{
    let mut v: Vec<char> = Vec::new();
    if is_msi && is_custom_client {
        push_str(&mut v, "\n        del /F /Q \"");
        push_str(&mut v, path);
        push_str(&mut v, "\\meta.toml\"\n        ");
    }
    string_of(&v)
}

/// The executable that an update copies in is renamed to `<app>.exe`
/// unless it already has that name (compared lower-cased).
pub open spec fn rename_exe_spec(src_exe_filename: Seq<char>, path: Seq<char>, app_name: Seq<char>) -> Seq<char> {
    let app = lower_text(app_name);
    if lower_text(src_exe_filename) == app + ".exe"@ {
        seq![]
    } else {
        "\n        move /Y \""@ + path + "\\"@ + src_exe_filename + "\" \""@ + path + "\\"@ + app
            + ".exe\"\n        "@
    }
}

pub fn rename_exe_cmd(src_exe_filename: &str, path: &str, app_name: &str) -> (r: String)
    ensures
        r@ == rename_exe_spec(src_exe_filename@, path@, app_name@),
{
    let app = to_lowercase(&chars_of(app_name));
    let mut expected = slice_chars(&app, 0, app.len());
    assert(expected@ =~= app@);
    push_str(&mut expected, ".exe");
    let file_lower = to_lowercase(&chars_of(src_exe_filename));
    if seq_eq(&file_lower, &expected) {
        let empty: Vec<char> = Vec::new();
        return string_of(&empty);
    }
    let mut v: Vec<char> = Vec::new();
    push_str(&mut v, "\n        move /Y \"");
    push_str(&mut v, path);
    push_str(&mut v, "\\");
    push_str(&mut v, src_exe_filename);
    push_str(&mut v, "\" \"");
    push_str(&mut v, path);
    push_str(&mut v, "\\");
    push_all(&mut v, &app);
    push_str(&mut v, ".exe\"\n        ");
    string_of(&v)
}


/// The registry value name of the printer install option.
pub const REG_NAME_INSTALL_PRINTER: &'static str = "PRINTER";

/// The installation's directory, start menu folder and executable, from
/// the install location recorded under its uninstall key (empty when none;
/// then `default_path`), without trailing `\`.
pub open spec fn install_info_spec(location: Seq<char>, default_path: Seq<char>, app_name: Seq<char>) -> (Seq<char>, Seq<char>, Seq<char>) {
    let p0 = if location.len() == 0 {
        default_path
    } else {
        location
    };
    let path = p0.take(p0.len() - trail_char(p0, '\\'));
    (
        path,
        "%ProgramData%\\Microsoft\\Windows\\Start Menu\\Programs\\"@ + app_name,
        path + "\\"@ + app_name + ".exe"@,
    )
}

pub fn install_info(location: &str, default_path: &str, app_name: &str) -> (r: (String, String, String))
    ensures
        (r.0@, r.1@, r.2@) == install_info_spec(location@, default_path@, app_name@),
{
    let loc = chars_of(location);
    let p0 = if loc.len() == 0 {
        chars_of(default_path)
    } else {
        loc
    };
    let mut j: usize = p0.len();
    while j > 0 && p0[j - 1] == '\\'
        invariant
            j <= p0@.len(),
            forall|k: int| j <= k < p0@.len() ==> #[trigger] p0@[k] == '\\',
        decreases j,
    {
        j = j - 1;
    }
    proof {
        lemma_trail_exact(p0@, '\\', j as int);
    }
    let path = slice_chars(&p0, 0, j);
    let mut start_menu: Vec<char> = Vec::new();
    push_str(&mut start_menu, "%ProgramData%\\Microsoft\\Windows\\Start Menu\\Programs\\");
    push_str(&mut start_menu, app_name);
    let mut exe = slice_chars(&path, 0, path.len());
    assert(exe@ =~= path@);
    push_str(&mut exe, "\\");
    push_str(&mut exe, app_name);
    push_str(&mut exe, ".exe");
    (string_of(&path), string_of(&start_menu), string_of(&exe))
}

/// The commands that install and start the service (none for an
/// outgoing-only client; with the service stopped by option, only the
/// removal of the tray's start-up link).
pub open spec fn create_service_spec(outgoing_only: bool, stop_service: bool, app_name: Seq<char>, exe: Seq<char>) -> Seq<char> {
    if outgoing_only {
        seq![]
    } else if stop_service {
        "\nif exist \"%PROGRAMDATA%\\Microsoft\\Windows\\Start Menu\\Programs\\Startup\\"@ + app_name
            + " Tray.lnk\" del /f /q \"%PROGRAMDATA%\\Microsoft\\Windows\\Start Menu\\Programs\\Startup\\"@
            + app_name + " Tray.lnk\"\n"@
    } else {
        "\nsc create "@ + app_name + " binpath= \"\\\""@ + exe + "\\\" --service\" start= auto DisplayName= \""@
            + app_name + " Service\"\nsc start "@ + app_name + "\n"@
    }
}

pub fn get_create_service(outgoing_only: bool, stop_service: bool, app_name: &str, exe: &str) -> (r: String)
    ensures
        r@ == create_service_spec(outgoing_only, stop_service, app_name@, exe@),
{
    let mut v: Vec<char> = Vec::new();
    if outgoing_only {
        return string_of(&v);
    }
    if stop_service {
        push_str(&mut v, "\nif exist \"%PROGRAMDATA%\\Microsoft\\Windows\\Start Menu\\Programs\\Startup\\");
        push_str(&mut v, app_name);
        push_str(&mut v, " Tray.lnk\" del /f /q \"%PROGRAMDATA%\\Microsoft\\Windows\\Start Menu\\Programs\\Startup\\");
        push_str(&mut v, app_name);
        push_str(&mut v, " Tray.lnk\"\n");
    } else {
        push_str(&mut v, "\nsc create ");
        push_str(&mut v, app_name);
        push_str(&mut v, " binpath= \"\\\"");
        push_str(&mut v, exe);
        push_str(&mut v, "\\\" --service\" start= auto DisplayName= \"");
        push_str(&mut v, app_name);
        push_str(&mut v, " Service\"\nsc start ");
        push_str(&mut v, app_name);
        push_str(&mut v, "\n");
    }
    string_of(&v)
}

/// The commands that let the installed service import the configuration
/// at `config_path` once (none for an outgoing-only client).
pub open spec fn import_config_spec(outgoing_only: bool, app_name: Seq<char>, exe: Seq<char>, config_path: Seq<char>) -> Seq<char> {
    if outgoing_only {
        seq![]
    } else {
        "\nsc stop "@ + app_name + "\nsc delete "@ + app_name + "\nsc create "@ + app_name
            + " binpath= \"\\\""@ + exe + "\\\" --import-config \\\""@ + config_path
            + "\\\"\" start= auto DisplayName= \""@ + app_name + " Service\"\nsc start "@ + app_name
            + "\nsc stop "@ + app_name + "\nsc delete "@ + app_name + "\n"@
    }
}

pub fn get_import_config(outgoing_only: bool, app_name: &str, exe: &str, config_path: &str) -> (r: String)
    ensures
        r@ == import_config_spec(outgoing_only, app_name@, exe@, config_path@),
{
    let mut v: Vec<char> = Vec::new();
    if outgoing_only {
        return string_of(&v);
    }
    push_str(&mut v, "\nsc stop ");
    push_str(&mut v, app_name);
    push_str(&mut v, "\nsc delete ");
    push_str(&mut v, app_name);
    push_str(&mut v, "\nsc create ");
    push_str(&mut v, app_name);
    push_str(&mut v, " binpath= \"\\\"");
    push_str(&mut v, exe);
    push_str(&mut v, "\\\" --import-config \\\"");
    push_str(&mut v, config_path);
    push_str(&mut v, "\\\"\" start= auto DisplayName= \"");
    push_str(&mut v, app_name);
    push_str(&mut v, " Service\"\nsc start ");
    push_str(&mut v, app_name);
    push_str(&mut v, "\nsc stop ");
    push_str(&mut v, app_name);
    push_str(&mut v, "\nsc delete ");
    push_str(&mut v, app_name);
    push_str(&mut v, "\n");
    string_of(&v)
}

/// The command that records an install option, for the printer option and
/// the values `0` and `1` only (`None` for anything else).
pub open spec fn install_option_cmd_spec(ext: Seq<char>, k: Seq<char>, v: Seq<char>) -> Option<Seq<char>> {
    if k == REG_NAME_INSTALL_PRINTER@ && (v == "0"@ || v == "1"@) {
        Some(
            "chcp 65001 && reg add HKEY_CLASSES_ROOT\\."@ + ext + " /f /v "@ + k
                + " /t REG_SZ /d \""@ + v + "\""@,
        )
    } else {
        None
    }
}

/// `ext` is the lower-cased application name.
pub fn install_option_cmd(ext: &str, k: &str, v: &str) -> (r: Option<String>)
    ensures
        match r {
            Some(c) => install_option_cmd_spec(ext@, k@, v@) == Some(c@),
            None => install_option_cmd_spec(ext@, k@, v@) is None,
        },
{
    let kc = chars_of(k);
    let vc = chars_of(v);
    if !seq_eq(&kc, &chars_of(REG_NAME_INSTALL_PRINTER)) {
        return None;
    }
    if !(seq_eq(&vc, &chars_of("0")) || seq_eq(&vc, &chars_of("1"))) {
        return None;
    }
    let mut c: Vec<char> = Vec::new();
    push_str(&mut c, "chcp 65001 && reg add HKEY_CLASSES_ROOT\\.");
    push_str(&mut c, ext);
    push_str(&mut c, " /f /v ");
    push_str(&mut c, k);
    push_str(&mut c, " /t REG_SZ /d \"");
    push_str(&mut c, v);
    push_str(&mut c, "\"");
    Some(string_of(&c))
}


/// The commands that stop and unregister a running installation before it
/// is removed or replaced: the service, the privacy-mode broker
/// (`broker_exe`), the app's processes (all of them, or all but `pid`),
/// its URL scheme and its firewall rule.
pub open spec fn before_uninstall_spec(app_name: Seq<char>, broker_exe: Seq<char>, kill_self: bool, pid: u32) -> Seq<char> {
    let ext = lower_text(app_name);
    let filter = if kill_self {
        seq![]
    } else {
        " /FI \"PID ne "@ + decimal(pid as nat) + "\""@
    };
    "\n    chcp 65001\n    sc stop "@ + app_name + "\n    sc delete "@ + app_name
        + "\n    taskkill /F /IM "@ + broker_exe + "\n    taskkill /F /IM "@ + app_name + ".exe"@
        + filter + "\n    reg delete HKEY_CLASSES_ROOT\\."@ + ext + " /f\n    reg delete HKEY_CLASSES_ROOT\\"@
        + ext + " /f\n    netsh advfirewall firewall delete rule name=\""@ + app_name
        + " Service\"\n    "@
}

pub fn get_before_uninstall(app_name: &str, broker_exe: &str, kill_self: bool, pid: u32) -> (r: String)
    ensures
        r@ == before_uninstall_spec(app_name@, broker_exe@, kill_self, pid),
{
    let ext = to_lowercase(&chars_of(app_name));
    let mut v: Vec<char> = Vec::new();
    push_str(&mut v, "\n    chcp 65001\n    sc stop ");
    push_str(&mut v, app_name);
    push_str(&mut v, "\n    sc delete ");
    push_str(&mut v, app_name);
    push_str(&mut v, "\n    taskkill /F /IM ");
    push_str(&mut v, broker_exe);
    push_str(&mut v, "\n    taskkill /F /IM ");
    push_str(&mut v, app_name);
    push_str(&mut v, ".exe");
    if !kill_self {
        push_str(&mut v, " /FI \"PID ne ");
        push_decimal(&mut v, pid as u64);
        push_str(&mut v, "\"");
    }
    push_str(&mut v, "\n    reg delete HKEY_CLASSES_ROOT\\.");
    push_all(&mut v, &ext);
    push_str(&mut v, " /f\n    reg delete HKEY_CLASSES_ROOT\\");
    push_all(&mut v, &ext);
    push_str(&mut v, " /f\n    netsh advfirewall firewall delete rule name=\"");
    push_str(&mut v, app_name);
    push_str(&mut v, " Service\"\n    ");
    string_of(&v)
}

/// What an uninstallation needs to know of the installation.
pub struct UninstallInputs {
    /// The uninstall string recorded in the registry.
    pub reg_uninstall_string: String,
    /// This executable's path, if it can be told.
    pub exe_path: Option<String>,
    pub uninstall_printer: bool,
    pub kill_self: bool,
    pub pid: u32,
    pub subkey: String,
    pub path: String,
    pub start_menu: String,
    pub app_name: String,
    pub broker_exe: String,
    /// The command that removes the virtual display driver.
    pub uninstall_idd_cmd: String,
}

/// The uninstall script: an MSI installation is removed by its own
/// uninstall string; otherwise the running installation is stopped and its
/// printer, certificate, registry key, files and links are removed.
pub open spec fn uninstall_spec(u: UninstallInputs) -> Seq<char> {
    if contains_seq(lower_text(u.reg_uninstall_string@), "msiexec.exe"@) {
        u.reg_uninstall_string@
    } else {
        let cert = match u.exe_path {
            Some(p) => "\""@ + p@ + "\" --uninstall-cert"@,
            None => seq![],
        };
        let printer = match u.exe_path {
            Some(p) => if u.uninstall_printer {
                "\""@ + p@ + "\" --uninstall-remote-printer"@
            } else {
                seq![]
            },
            None => seq![],
        };
        let app = u.app_name@;
        "\n    "@ + before_uninstall_spec(app, u.broker_exe@, u.kill_self, u.pid) + "\n    "@ + printer
            + "\n    "@ + cert + "\n    reg delete "@ + u.subkey@ + " /f\n    "@ + u.uninstall_idd_cmd@
            + "\n    if exist \""@ + u.path@ + "\" rd /s /q \""@ + u.path@ + "\"\n    if exist \""@
            + u.start_menu@ + "\" rd /s /q \""@ + u.start_menu@
            + "\"\n    if exist \"%PUBLIC%\\Desktop\\"@ + app + ".lnk\" del /f /q \"%PUBLIC%\\Desktop\\"@
            + app
            + ".lnk\"\n    if exist \"%PROGRAMDATA%\\Microsoft\\Windows\\Start Menu\\Programs\\Startup\\"@
            + app
            + " Tray.lnk\" del /f /q \"%PROGRAMDATA%\\Microsoft\\Windows\\Start Menu\\Programs\\Startup\\"@
            + app + " Tray.lnk\"\n    "@
    }
}

/// The non-MSI uninstall script, with its printer command `x` left open, is
/// what comes before that command, the command, and what comes after it.
proof fn lemma_uninstall_printer_slot(
    before: Seq<char>,
    x: Seq<char>,
    cert: Seq<char>,
    subkey: Seq<char>,
    idd: Seq<char>,
    path: Seq<char>,
    start_menu: Seq<char>,
    app: Seq<char>,
)
    ensures
        "\n    "@ + before + "\n    "@ + x
            + "\n    "@ + cert + "\n    reg delete "@ + subkey + " /f\n    "@ + idd
            + "\n    if exist \""@ + path + "\" rd /s /q \""@ + path + "\"\n    if exist \""@
            + start_menu + "\" rd /s /q \""@ + start_menu
            + "\"\n    if exist \"%PUBLIC%\\Desktop\\"@ + app + ".lnk\" del /f /q \"%PUBLIC%\\Desktop\\"@
            + app
            + ".lnk\"\n    if exist \"%PROGRAMDATA%\\Microsoft\\Windows\\Start Menu\\Programs\\Startup\\"@
            + app
            + " Tray.lnk\" del /f /q \"%PROGRAMDATA%\\Microsoft\\Windows\\Start Menu\\Programs\\Startup\\"@
            + app + " Tray.lnk\"\n    "@ == ("\n    "@ + before + "\n    "@) + x + ("\n    "@ + cert + "\n    reg delete "@ + subkey + " /f\n    "@ + idd
            + "\n    if exist \""@ + path + "\" rd /s /q \""@ + path + "\"\n    if exist \""@
            + start_menu + "\" rd /s /q \""@ + start_menu
            + "\"\n    if exist \"%PUBLIC%\\Desktop\\"@ + app + ".lnk\" del /f /q \"%PUBLIC%\\Desktop\\"@
            + app
            + ".lnk\"\n    if exist \"%PROGRAMDATA%\\Microsoft\\Windows\\Start Menu\\Programs\\Startup\\"@
            + app
            + " Tray.lnk\" del /f /q \"%PROGRAMDATA%\\Microsoft\\Windows\\Start Menu\\Programs\\Startup\\"@
            + app + " Tray.lnk\"\n    "@),
{
    let a = "\n    "@ + before + "\n    "@;
    let b = "\n    "@ + cert + "\n    reg delete "@ + subkey + " /f\n    "@ + idd
            + "\n    if exist \""@ + path + "\" rd /s /q \""@ + path + "\"\n    if exist \""@
            + start_menu + "\" rd /s /q \""@ + start_menu
            + "\"\n    if exist \"%PUBLIC%\\Desktop\\"@ + app + ".lnk\" del /f /q \"%PUBLIC%\\Desktop\\"@
            + app
            + ".lnk\"\n    if exist \"%PROGRAMDATA%\\Microsoft\\Windows\\Start Menu\\Programs\\Startup\\"@
            + app
            + " Tray.lnk\" del /f /q \"%PROGRAMDATA%\\Microsoft\\Windows\\Start Menu\\Programs\\Startup\\"@
            + app + " Tray.lnk\"\n    "@;
    assert("\n    "@ + before + "\n    "@ + x
            + "\n    "@ + cert + "\n    reg delete "@ + subkey + " /f\n    "@ + idd
            + "\n    if exist \""@ + path + "\" rd /s /q \""@ + path + "\"\n    if exist \""@
            + start_menu + "\" rd /s /q \""@ + start_menu
            + "\"\n    if exist \"%PUBLIC%\\Desktop\\"@ + app + ".lnk\" del /f /q \"%PUBLIC%\\Desktop\\"@
            + app
            + ".lnk\"\n    if exist \"%PROGRAMDATA%\\Microsoft\\Windows\\Start Menu\\Programs\\Startup\\"@
            + app
            + " Tray.lnk\" del /f /q \"%PROGRAMDATA%\\Microsoft\\Windows\\Start Menu\\Programs\\Startup\\"@
            + app + " Tray.lnk\"\n    "@ =~= a + x + b);
}

/// Removing the remote printer is the one thing `uninstall_printer` adds to
/// the uninstall script: an MSI installation's script and one without a
/// known executable are the same either way; otherwise the script that
/// removes the printer is the one that does not, with the executable's
/// `--uninstall-remote-printer` command put in, and nothing else changed.
pub proof fn law_uninstall_printer_command_only_when_asked(u: UninstallInputs)
    requires
        !u.uninstall_printer,
    ensures
        ({
            let asked = UninstallInputs { uninstall_printer: true, ..u };
            let msi = contains_seq(lower_text(u.reg_uninstall_string@), "msiexec.exe"@);
            &&& msi ==> uninstall_spec(u) == u.reg_uninstall_string@ && uninstall_spec(asked)
                == u.reg_uninstall_string@
            &&& !msi && u.exe_path is None ==> uninstall_spec(asked) == uninstall_spec(u)
            &&& !msi && u.exe_path is Some ==> exists|a: Seq<char>, b: Seq<char>|
                {
                    &&& uninstall_spec(u) == a + b
                    &&& uninstall_spec(asked) == a + ("\""@ + u.exe_path->0@
                        + "\" --uninstall-remote-printer"@) + b
                }
        }),
{
    if let Some(p) = u.exe_path {
        let app = u.app_name@;
        let before = before_uninstall_spec(app, u.broker_exe@, u.kill_self, u.pid);
        let cert = "\""@ + p@ + "\" --uninstall-cert"@;
        let pr = "\""@ + p@ + "\" --uninstall-remote-printer"@;
        lemma_uninstall_printer_slot(before, seq![], cert, u.subkey@, u.uninstall_idd_cmd@, u.path@, u.start_menu@, app);
        lemma_uninstall_printer_slot(before, pr, cert, u.subkey@, u.uninstall_idd_cmd@, u.path@, u.start_menu@, app);
        let a = "\n    "@ + before + "\n    "@;
        let b = "\n    "@ + cert + "\n    reg delete "@ + u.subkey@ + " /f\n    "@ + u.uninstall_idd_cmd@
            + "\n    if exist \""@ + u.path@ + "\" rd /s /q \""@ + u.path@ + "\"\n    if exist \""@
            + u.start_menu@ + "\" rd /s /q \""@ + u.start_menu@
            + "\"\n    if exist \"%PUBLIC%\\Desktop\\"@ + app + ".lnk\" del /f /q \"%PUBLIC%\\Desktop\\"@
            + app
            + ".lnk\"\n    if exist \"%PROGRAMDATA%\\Microsoft\\Windows\\Start Menu\\Programs\\Startup\\"@
            + app
            + " Tray.lnk\" del /f /q \"%PROGRAMDATA%\\Microsoft\\Windows\\Start Menu\\Programs\\Startup\\"@
            + app + " Tray.lnk\"\n    "@;
        assert(a + seq![] =~= a);
        if !contains_seq(lower_text(u.reg_uninstall_string@), "msiexec.exe"@) {
            assert(uninstall_spec(u) == a + b);
            assert(uninstall_spec(UninstallInputs { uninstall_printer: true, ..u }) == a + pr + b);
        }
    }
}

#[verifier::rlimit(60)]
#[verifier::spinoff_prover]
pub fn get_uninstall(u: &UninstallInputs) -> (r: String)
    ensures
        r@ == uninstall_spec(*u),
{
    let lower = to_lowercase(&chars_of(u.reg_uninstall_string.as_str()));
    if contains(&lower, &chars_of("msiexec.exe")) {
        return string_of(&chars_of(u.reg_uninstall_string.as_str()));
    }
    let app = u.app_name.as_str();
    let mut v: Vec<char> = Vec::new();
    push_str(&mut v, "\n    ");
    let before = get_before_uninstall(app, u.broker_exe.as_str(), u.kill_self, u.pid);
    push_str(&mut v, before.as_str());
    push_str(&mut v, "\n    ");
    if let Some(p) = &u.exe_path {
        if u.uninstall_printer {
            push_str(&mut v, "\"");
            push_str(&mut v, p.as_str());
            push_str(&mut v, "\" --uninstall-remote-printer");
        }
    }
    push_str(&mut v, "\n    ");
    if let Some(p) = &u.exe_path {
        push_str(&mut v, "\"");
        push_str(&mut v, p.as_str());
        push_str(&mut v, "\" --uninstall-cert");
    }
    push_str(&mut v, "\n    reg delete ");
    push_str(&mut v, u.subkey.as_str());
    push_str(&mut v, " /f\n    ");
    push_str(&mut v, u.uninstall_idd_cmd.as_str());
    push_str(&mut v, "\n    if exist \"");
    push_str(&mut v, u.path.as_str());
    push_str(&mut v, "\" rd /s /q \"");
    push_str(&mut v, u.path.as_str());
    push_str(&mut v, "\"\n    if exist \"");
    push_str(&mut v, u.start_menu.as_str());
    push_str(&mut v, "\" rd /s /q \"");
    push_str(&mut v, u.start_menu.as_str());
    push_str(&mut v, "\"\n    if exist \"%PUBLIC%\\Desktop\\");
    push_str(&mut v, app);
    push_str(&mut v, ".lnk\" del /f /q \"%PUBLIC%\\Desktop\\");
    push_str(&mut v, app);
    push_str(&mut v, ".lnk\"\n    if exist \"%PROGRAMDATA%\\Microsoft\\Windows\\Start Menu\\Programs\\Startup\\");
    push_str(&mut v, app);
    push_str(&mut v, " Tray.lnk\" del /f /q \"%PROGRAMDATA%\\Microsoft\\Windows\\Start Menu\\Programs\\Startup\\");
    push_str(&mut v, app);
    push_str(&mut v, " Tray.lnk\"\n    ");
    string_of(&v)
}


/// The command that records install option `name` under the app's file
/// type, or nothing without a value.
pub open spec fn reg_value_cmd_spec(ext: Seq<char>, name: Seq<char>, value: Option<Seq<char>>) -> Seq<char> {
    match value {
        Some(v) => "reg add HKEY_CLASSES_ROOT\\."@ + ext + " /f /v "@ + name + " /t REG_SZ /d \""@ + v
            + "\""@,
        None => seq![],
    }
}

fn reg_value_cmd(ext: &str, name: &str, value: Option<&str>) -> (r: String)
    ensures
        r@ == reg_value_cmd_spec(
            ext@,
            name@,
            match value {
                Some(v) => Some(v@),
                None => None,
            },
        ),
{
    let mut v: Vec<char> = Vec::new();
    if let Some(val) = value {
        push_str(&mut v, "reg add HKEY_CLASSES_ROOT\\.");
        push_str(&mut v, ext);
        push_str(&mut v, " /f /v ");
        push_str(&mut v, name);
        push_str(&mut v, " /t REG_SZ /d \"");
        push_str(&mut v, val);
        push_str(&mut v, "\"");
    }
    string_of(&v)
}

/// The start of the after-install script: the file type key, the recorded
/// install options and the file type icon.
pub open spec fn after_install_head_spec(ext: Seq<char>, desktop_shortcuts: Seq<char>, start_menu_shortcuts: Seq<char>, reg_printer: Seq<char>, exe: Seq<char>) -> Seq<char> {
    "\n    chcp 65001\n    reg add HKEY_CLASSES_ROOT\\."@
        + ext
        + " /f\n    "@
        + desktop_shortcuts
        + "\n    "@
        + start_menu_shortcuts
        + "\n    "@
        + reg_printer
        + "\n    reg add HKEY_CLASSES_ROOT\\."@
        + ext
        + "\\DefaultIcon /f\n    reg add HKEY_CLASSES_ROOT\\."@
        + ext
        + "\\DefaultIcon /f /ve /t REG_SZ  /d \"\\\""@
        + exe
        + "\\\",0\"\n"@
}

fn push_after_install_head(v: &mut Vec<char>, ext: &str, desktop_shortcuts: &str, start_menu_shortcuts: &str, reg_printer: &str, exe: &str)
    ensures
        final(v)@ == old(v)@ + after_install_head_spec(ext@, desktop_shortcuts@, start_menu_shortcuts@, reg_printer@, exe@),
{
    let ghost start = v@;
    push_str(v, "\n    chcp 65001\n    reg add HKEY_CLASSES_ROOT\\.");
    push_str(v, ext);
    push_str(v, " /f\n    ");
    push_str(v, desktop_shortcuts);
    push_str(v, "\n    ");
    push_str(v, start_menu_shortcuts);
    push_str(v, "\n    ");
    push_str(v, reg_printer);
    push_str(v, "\n    reg add HKEY_CLASSES_ROOT\\.");
    push_str(v, ext);
    push_str(v, "\\DefaultIcon /f\n    reg add HKEY_CLASSES_ROOT\\.");
    push_str(v, ext);
    push_str(v, "\\DefaultIcon /f /ve /t REG_SZ  /d \"\\\"");
    push_str(v, exe);
    push_str(v, "\\\",0\"\n");
    assert(v@ =~= start + after_install_head_spec(ext@, desktop_shortcuts@, start_menu_shortcuts@, reg_printer@, exe@));
}

/// The open command of the app's file type.
pub open spec fn after_install_file_type_spec(ext: Seq<char>, exe: Seq<char>) -> Seq<char> {
    "    reg add HKEY_CLASSES_ROOT\\."@
        + ext
        + "\\shell /f\n    reg add HKEY_CLASSES_ROOT\\."@
        + ext
        + "\\shell\\open /f\n    reg add HKEY_CLASSES_ROOT\\."@
        + ext
        + "\\shell\\open\\command /f\n    reg add HKEY_CLASSES_ROOT\\."@
        + ext
        + "\\shell\\open\\command /f /ve /t REG_SZ /d \"\\\""@
        + exe
        + "\\\" --play \\\"%%1\\\"\"\n"@
}

fn push_after_install_file_type(v: &mut Vec<char>, ext: &str, exe: &str)
    ensures
        final(v)@ == old(v)@ + after_install_file_type_spec(ext@, exe@),
{
    let ghost start = v@;
    push_str(v, "    reg add HKEY_CLASSES_ROOT\\.");
    push_str(v, ext);
    push_str(v, "\\shell /f\n    reg add HKEY_CLASSES_ROOT\\.");
    push_str(v, ext);
    push_str(v, "\\shell\\open /f\n    reg add HKEY_CLASSES_ROOT\\.");
    push_str(v, ext);
    push_str(v, "\\shell\\open\\command /f\n    reg add HKEY_CLASSES_ROOT\\.");
    push_str(v, ext);
    push_str(v, "\\shell\\open\\command /f /ve /t REG_SZ /d \"\\\"");
    push_str(v, exe);
    push_str(v, "\\\" --play \\\"%%1\\\"\"\n");
    assert(v@ =~= start + after_install_file_type_spec(ext@, exe@));
}

/// The app's URL scheme.
pub open spec fn after_install_scheme_spec(ext: Seq<char>, exe: Seq<char>) -> Seq<char> {
    "    reg add HKEY_CLASSES_ROOT\\"@
        + ext
        + " /f\n    reg add HKEY_CLASSES_ROOT\\"@
        + ext
        + " /f /v \"URL Protocol\" /t REG_SZ /d \"\"\n    reg add HKEY_CLASSES_ROOT\\"@
        + ext
        + "\\shell /f\n    reg add HKEY_CLASSES_ROOT\\"@
        + ext
        + "\\shell\\open /f\n    reg add HKEY_CLASSES_ROOT\\"@
        + ext
        + "\\shell\\open\\command /f\n    reg add HKEY_CLASSES_ROOT\\"@
        + ext
        + "\\shell\\open\\command /f /ve /t REG_SZ /d \"\\\""@
        + exe
        + "\\\" \\\"%%1\\\"\"\n"@
}

fn push_after_install_scheme(v: &mut Vec<char>, ext: &str, exe: &str)
    ensures
        final(v)@ == old(v)@ + after_install_scheme_spec(ext@, exe@),
{
    let ghost start = v@;
    push_str(v, "    reg add HKEY_CLASSES_ROOT\\");
    push_str(v, ext);
    push_str(v, " /f\n    reg add HKEY_CLASSES_ROOT\\");
    push_str(v, ext);
    push_str(v, " /f /v \"URL Protocol\" /t REG_SZ /d \"\"\n    reg add HKEY_CLASSES_ROOT\\");
    push_str(v, ext);
    push_str(v, "\\shell /f\n    reg add HKEY_CLASSES_ROOT\\");
    push_str(v, ext);
    push_str(v, "\\shell\\open /f\n    reg add HKEY_CLASSES_ROOT\\");
    push_str(v, ext);
    push_str(v, "\\shell\\open\\command /f\n    reg add HKEY_CLASSES_ROOT\\");
    push_str(v, ext);
    push_str(v, "\\shell\\open\\command /f /ve /t REG_SZ /d \"\\\"");
    push_str(v, exe);
    push_str(v, "\\\" \\\"%%1\\\"\"\n");
    assert(v@ =~= start + after_install_scheme_spec(ext@, exe@));
}

/// Firewall rules, the service and software SAS generation.
pub open spec fn after_install_tail_spec(app_name: Seq<char>, exe: Seq<char>, create_service: Seq<char>) -> Seq<char> {
    "    netsh advfirewall firewall add rule name=\""@
        + app_name
        + " Service\" dir=out action=allow program=\""@
        + exe
        + "\" enable=yes\n    netsh advfirewall firewall add rule name=\""@
        + app_name
        + " Service\" dir=in action=allow program=\""@
        + exe
        + "\" enable=yes\n    "@
        + create_service
        + "\n    reg add HKEY_LOCAL_MACHINE\\Software\\Microsoft\\Windows\\CurrentVersion\\Policies\\System /f /v SoftwareSASGeneration /t REG_DWORD /d 1\n    "@
}

fn push_after_install_tail(v: &mut Vec<char>, app_name: &str, exe: &str, create_service: &str)
    ensures
        final(v)@ == old(v)@ + after_install_tail_spec(app_name@, exe@, create_service@),
{
    let ghost start = v@;
    push_str(v, "    netsh advfirewall firewall add rule name=\"");
    push_str(v, app_name);
    push_str(v, " Service\" dir=out action=allow program=\"");
    push_str(v, exe);
    push_str(v, "\" enable=yes\n    netsh advfirewall firewall add rule name=\"");
    push_str(v, app_name);
    push_str(v, " Service\" dir=in action=allow program=\"");
    push_str(v, exe);
    push_str(v, "\" enable=yes\n    ");
    push_str(v, create_service);
    push_str(v, "\n    reg add HKEY_LOCAL_MACHINE\\Software\\Microsoft\\Windows\\CurrentVersion\\Policies\\System /f /v SoftwareSASGeneration /t REG_DWORD /d 1\n    ");
    assert(v@ =~= start + after_install_tail_spec(app_name@, exe@, create_service@));
}

pub open spec fn opt_view(v: Option<&str>) -> Option<Seq<char>> {
    match v {
        Some(s) => Some(s@),
        None => None,
    }
}

/// The script run after files are in place: the app's file type and URL
/// scheme, the recorded install options, firewall rules, the service
/// (`create_service`, see `get_create_service`) and software SAS.
pub open spec fn after_install_spec(
    app_name: Seq<char>,
    exe: Seq<char>,
    start_menu_value: Option<Seq<char>>,
    desktop_value: Option<Seq<char>>,
    printer_value: Option<Seq<char>>,
    create_service: Seq<char>,
) -> Seq<char> {
    let ext = lower_text(app_name);
    after_install_head_spec(
        ext,
        reg_value_cmd_spec(ext, "DESKTOPSHORTCUTS"@, desktop_value),
        reg_value_cmd_spec(ext, "STARTMENUSHORTCUTS"@, start_menu_value),
        reg_value_cmd_spec(ext, REG_NAME_INSTALL_PRINTER@, printer_value),
        exe,
    ) + after_install_file_type_spec(ext, exe) + after_install_scheme_spec(ext, exe)
        + after_install_tail_spec(app_name, exe, create_service)
}

/// The start of the after-install script with the desktop shortcuts value
/// `v` recorded: what comes before the value, the value, what comes after.
proof fn lemma_after_head_desktop_slot(ext: Seq<char>, v: Seq<char>, smc: Seq<char>, prc: Seq<char>, exe: Seq<char>)
    ensures
        after_install_head_spec(ext, reg_value_cmd_spec(ext, "DESKTOPSHORTCUTS"@, Some(v)), smc, prc, exe)
            == ("\n    chcp 65001\n    reg add HKEY_CLASSES_ROOT\\."@ + ext + " /f\n    "@
            + "reg add HKEY_CLASSES_ROOT\\."@ + ext + " /f /v "@) + ("DESKTOPSHORTCUTS"@
            + " /t REG_SZ /d \""@) + v + ("\""@ + "\n    "@ + smc + "\n    "@ + prc
            + "\n    reg add HKEY_CLASSES_ROOT\\."@ + ext
            + "\\DefaultIcon /f\n    reg add HKEY_CLASSES_ROOT\\."@ + ext
            + "\\DefaultIcon /f /ve /t REG_SZ  /d \"\\\""@ + exe + "\\\",0\"\n"@),
{
    assert(after_install_head_spec(ext, reg_value_cmd_spec(ext, "DESKTOPSHORTCUTS"@, Some(v)), smc, prc, exe)
        =~= ("\n    chcp 65001\n    reg add HKEY_CLASSES_ROOT\\."@ + ext + " /f\n    "@
        + "reg add HKEY_CLASSES_ROOT\\."@ + ext + " /f /v "@) + ("DESKTOPSHORTCUTS"@
        + " /t REG_SZ /d \""@) + v + ("\""@ + "\n    "@ + smc + "\n    "@ + prc
        + "\n    reg add HKEY_CLASSES_ROOT\\."@ + ext
        + "\\DefaultIcon /f\n    reg add HKEY_CLASSES_ROOT\\."@ + ext
        + "\\DefaultIcon /f /ve /t REG_SZ  /d \"\\\""@ + exe + "\\\",0\"\n"@));
}

proof fn lemma_regroup_after(h: Seq<char>, d: Seq<char>, v: Seq<char>, t: Seq<char>, x: Seq<char>, y: Seq<char>, z: Seq<char>)
    ensures
        (h + d + v + t) + x + y + z == h + d + v + (t + x + y + z),
{
    assert((h + d + v + t) + x + y + z =~= h + d + v + (t + x + y + z));
}

/// The value recorded for the desktop shortcuts stands in one place of the
/// after-install script, right after the `DESKTOPSHORTCUTS` value name:
/// two scripts that differ only in that value differ only there.
pub(crate) proof fn lemma_after_install_desktop_value(
    app_name: Seq<char>,
    exe: Seq<char>,
    start_menu_value: Option<Seq<char>>,
    v1: Seq<char>,
    v2: Seq<char>,
    printer_value: Option<Seq<char>>,
    create_service: Seq<char>,
)
    ensures
        exists|h: Seq<char>, t: Seq<char>|
            {
                &&& after_install_spec(app_name, exe, start_menu_value, Some(v1), printer_value, create_service)
                    == h + ("DESKTOPSHORTCUTS"@ + " /t REG_SZ /d \""@) + v1 + t
                &&& after_install_spec(app_name, exe, start_menu_value, Some(v2), printer_value, create_service)
                    == h + ("DESKTOPSHORTCUTS"@ + " /t REG_SZ /d \""@) + v2 + t
            },
{
    let ext = lower_text(app_name);
    let smc = reg_value_cmd_spec(ext, "STARTMENUSHORTCUTS"@, start_menu_value);
    let prc = reg_value_cmd_spec(ext, REG_NAME_INSTALL_PRINTER@, printer_value);
    let x = after_install_file_type_spec(ext, exe);
    let y = after_install_scheme_spec(ext, exe);
    let z = after_install_tail_spec(app_name, exe, create_service);
    let h = "\n    chcp 65001\n    reg add HKEY_CLASSES_ROOT\\."@ + ext + " /f\n    "@
        + "reg add HKEY_CLASSES_ROOT\\."@ + ext + " /f /v "@;
    let d = "DESKTOPSHORTCUTS"@ + " /t REG_SZ /d \""@;
    let t0 = "\""@ + "\n    "@ + smc + "\n    "@ + prc + "\n    reg add HKEY_CLASSES_ROOT\\."@ + ext
        + "\\DefaultIcon /f\n    reg add HKEY_CLASSES_ROOT\\."@ + ext
        + "\\DefaultIcon /f /ve /t REG_SZ  /d \"\\\""@ + exe + "\\\",0\"\n"@;
    lemma_after_head_desktop_slot(ext, v1, smc, prc, exe);
    lemma_after_head_desktop_slot(ext, v2, smc, prc, exe);
    lemma_regroup_after(h, d, v1, t0, x, y, z);
    lemma_regroup_after(h, d, v2, t0, x, y, z);
    let t = t0 + x + y + z;
    assert(after_install_spec(app_name, exe, start_menu_value, Some(v1), printer_value, create_service)
        == h + d + v1 + t);
    assert(after_install_spec(app_name, exe, start_menu_value, Some(v2), printer_value, create_service)
        == h + d + v2 + t);
}

pub fn get_after_install(
    app_name: &str,
    exe: &str,
    start_menu_value: Option<&str>,
    desktop_value: Option<&str>,
    printer_value: Option<&str>,
    create_service: &str,
) -> (r: String)
    ensures
        r@ == after_install_spec(
            app_name@,
            exe@,
            opt_view(start_menu_value),
            opt_view(desktop_value),
            opt_view(printer_value),
            create_service@,
        ),
{
    let ext = string_of(&to_lowercase(&chars_of(app_name)));
    let e = ext.as_str();
    let desktop = reg_value_cmd(e, "DESKTOPSHORTCUTS", desktop_value);
    let start_menu = reg_value_cmd(e, "STARTMENUSHORTCUTS", start_menu_value);
    let printer = reg_value_cmd(e, REG_NAME_INSTALL_PRINTER, printer_value);
    let mut v: Vec<char> = Vec::new();
    push_after_install_head(&mut v, e, desktop.as_str(), start_menu.as_str(), printer.as_str(), exe);
    push_after_install_file_type(&mut v, e, exe);
    push_after_install_scheme(&mut v, e, exe);
    push_after_install_tail(&mut v, app_name, exe, create_service);
    string_of(&v)
}

/// The install options recorded under the app's file type, as name and
/// value, for those that are recorded (other than the install location).
pub open spec fn install_options_spec(
    desktop_shortcuts: Option<Seq<char>>,
    start_menu_shortcuts: Option<Seq<char>>,
    printer: Option<Seq<char>>,
) -> Seq<(Seq<char>, Seq<char>)> {
    let a: Seq<(Seq<char>, Seq<char>)> = match desktop_shortcuts {
        Some(v) => seq![("DESKTOPSHORTCUTS"@, v)],
        None => seq![],
    };
    let b: Seq<(Seq<char>, Seq<char>)> = match start_menu_shortcuts {
        Some(v) => seq![("STARTMENUSHORTCUTS"@, v)],
        None => seq![],
    };
    let c: Seq<(Seq<char>, Seq<char>)> = match printer {
        Some(v) => seq![(REG_NAME_INSTALL_PRINTER@, v)],
        None => seq![],
    };
    a + b + c
}

pub fn install_options(
    desktop_shortcuts: Option<&str>,
    start_menu_shortcuts: Option<&str>,
    printer: Option<&str>,
) -> (r: Vec<(String, String)>)
    ensures
        r@.len() == install_options_spec(opt_view(desktop_shortcuts), opt_view(start_menu_shortcuts), opt_view(printer)).len(),
        forall|i: int|
            0 <= i < r@.len() ==> (#[trigger] r@[i].0@, r@[i].1@) == install_options_spec(
                opt_view(desktop_shortcuts),
                opt_view(start_menu_shortcuts),
                opt_view(printer),
            )[i],
{
    let mut r: Vec<(String, String)> = Vec::new();
    if let Some(v) = desktop_shortcuts {
        r.push((string_of(&chars_of("DESKTOPSHORTCUTS")), string_of(&chars_of(v))));
    }
    if let Some(v) = start_menu_shortcuts {
        r.push((string_of(&chars_of("STARTMENUSHORTCUTS")), string_of(&chars_of(v))));
    }
    if let Some(v) = printer {
        r.push((string_of(&chars_of(REG_NAME_INSTALL_PRINTER)), string_of(&chars_of(v))));
    }
    proof {
        let spec = install_options_spec(
            opt_view(desktop_shortcuts),
            opt_view(start_menu_shortcuts),
            opt_view(printer),
        );
        assert(r@.len() == spec.len());
        assert forall|i: int| 0 <= i < r@.len() implies (#[trigger] r@[i].0@, r@[i].1@) == spec[i] by {
        }
    }
    r
}

/// What `serde_json` writes for a JSON object whose members are the given
/// names with string values, in their order (a later member of a name
/// replacing an earlier one).
pub uninterp spec fn json_object_text(members: Seq<(Seq<char>, Seq<char>)>) -> Seq<char>;

pub open spec fn members_view(members: Seq<(String, String)>) -> Seq<(Seq<char>, Seq<char>)> {
    members.map_values(|m: (String, String)| (m.0@, m.1@))
}

/// `serde_json::to_string` of the `serde_json::Map` holding the members as
/// strings; the contract names the text `json_object_text` of the
/// members. Writing such a map cannot fail, so the empty object that stands
/// for a failure is never returned.
#[verifier::external_body]
fn json_object(members: &[(String, String)]) -> (r: String)
    ensures
        r@ == json_object_text(members_view(members@)),
{
    let map: serde_json::Map<String, serde_json::Value> = members
        .iter()
        .map(|m| (m.0.clone(), serde_json::Value::String(m.1.clone())))
        .collect();
    serde_json::to_string(&map).unwrap_or("{}".to_owned())
}

/// The install options other than the install location, as the JSON
/// object that the user interface reads (see `install_options`).
pub fn get_install_options(
    desktop_shortcuts: Option<&str>,
    start_menu_shortcuts: Option<&str>,
    printer: Option<&str>,
) -> (r: String)
    ensures
        r@ == json_object_text(
            install_options_spec(opt_view(desktop_shortcuts), opt_view(start_menu_shortcuts), opt_view(printer)),
        ),
{
    let members = install_options(desktop_shortcuts, start_menu_shortcuts, printer);
    proof {
        assert(members_view(members@) =~= install_options_spec(
            opt_view(desktop_shortcuts),
            opt_view(start_menu_shortcuts),
            opt_view(printer),
        ));
    }
    json_object(&members)
}

} // verus!
