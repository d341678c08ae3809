//! macOS helpers: the console user from `ls -l` (or `ls -n`) of
//! `/dev/console`, the lock state from `ioreg`, and the paths, scripts and
//! small decisions of the service, the update and the elevation.

use vstd::prelude::*;
use crate::text::{
    chars_of, contains, contains_seq, is_whitespace, is_ws, string_of, to_lowercase, lower_text,
};
use crate::win_install::{push_str, replace_all, replace_all_chars};
use crate::geometry::DisplayInfo;
use crate::sessions::{decimal, push_decimal};
use crate::win_focus::seq_eq;
use crate::wmic::{lines_of, split_lines};

verus! {

/// The white-space separated words of `s`, the current word so far being
/// `cur` (`str::split_whitespace`).
pub open spec fn words_from(s: Seq<char>, cur: Seq<char>) -> Seq<Seq<char>>
    decreases s.len(),
{
    if s.len() == 0 {
        if cur.len() == 0 {
            seq![]
        } else {
            seq![cur]
        }
    } else if is_ws(s[0]) {
        (if cur.len() == 0 {
            seq![]
        } else {
            seq![cur]
        }) + words_from(s.drop_first(), seq![])
    } else {
        words_from(s.drop_first(), cur.push(s[0]))
    }
}

pub open spec fn words_of(s: Seq<char>) -> Seq<Seq<char>> {
    words_from(s, seq![])
}

/// The words of a text.
pub fn split_whitespace(s: &[char]) -> (r: Vec<Vec<char>>)
    ensures
        r@.len() == words_of(s@).len(),
        forall|i: int| 0 <= i < r@.len() ==> #[trigger] r@[i]@ == words_of(s@)[i],
{
    let mut r: Vec<Vec<char>> = Vec::new();
    let mut cur: Vec<char> = Vec::new();
    let mut i: usize = 0;
    let ghost mut done: Seq<Seq<char>> = seq![];
    assert(s@.skip(0) =~= s@);
    assert(cur@ =~= seq![]);
    assert(done + words_from(s@, cur@) =~= words_from(s@, cur@));
    while i < s.len()
        invariant
            i <= s@.len(),
            r@.len() == done.len(),
            forall|k: int| 0 <= k < r@.len() ==> #[trigger] r@[k]@ == done[k],
            words_of(s@) == done + words_from(s@.skip(i as int), cur@),
        decreases s@.len() - i,
    {
        let ghost rest = s@.skip(i as int);
        assert(rest.drop_first() =~= s@.skip(i + 1));
        assert(rest[0] == s@[i as int]);
        if is_whitespace(s[i]) {
            if cur.len() > 0 {
                proof {
                    assert(words_from(rest, cur@) == seq![cur@] + words_from(s@.skip(i + 1), seq![]));
                    assert(done + words_from(rest, cur@) =~= done.push(cur@) + words_from(
                        s@.skip(i + 1),
                        seq![],
                    ));
                    done = done.push(cur@);
                }
                r.push(cur);
                cur = Vec::new();
            } else {
                assert(cur@ =~= seq![]);
                assert(words_from(rest, cur@) == Seq::<Seq<char>>::empty() + words_from(s@.skip(i + 1), seq![]));
                assert(done + words_from(rest, cur@) =~= done + words_from(s@.skip(i + 1), seq![]));
            }
        } else {
            cur.push(s[i]);
        }
        i = i + 1;
    }
    assert(s@.skip(i as int).len() == 0);
    if cur.len() > 0 {
        proof {
            done = done.push(cur@);
        }
        r.push(cur);
    }
    assert(words_of(s@) =~= done);
    r
}

/// The third word of the first line that has one.
pub open spec fn third_word_from(lines: Seq<Seq<char>>, k: int) -> Seq<char>
    decreases lines.len() - k,
{
    if k < 0 || k >= lines.len() {
        seq![]
    } else if words_of(lines[k]).len() > 2 {
        words_of(lines[k])[2]
    } else {
        third_word_from(lines, k + 1)
    }
}

/// The console user in `ls -l /dev/console` output (its third field, the
/// owner), empty when there is none.
pub fn active_user_from_ls(output: &str) -> (r: String)
    ensures
        r@ == third_word_from(lines_of(output@), 0),
{
    let text = chars_of(output);
    let lines = split_lines(&text);
    let ghost ls = lines_of(output@);
    let mut k: usize = 0;
    while k < lines.len()
        invariant
            k <= lines@.len(),
            lines@.len() == ls.len(),
            forall|i: int| 0 <= i < lines@.len() ==> #[trigger] lines@[i]@ == ls[i],
            ls == lines_of(output@),
            third_word_from(ls, 0) == third_word_from(ls, k as int),
        decreases lines@.len() - k,
    {
        let words = split_whitespace(&lines[k]);
        if words.len() > 2 {
            return string_of(&words[2]);
        }
        k = k + 1;
    }
    let empty: Vec<char> = Vec::new();
    string_of(&empty)
}

/// The console is at the login window: its owner id is `0`.
pub fn is_prelogin_user_id(user_id: &str) -> (b: bool)
    ensures
        b == (user_id@ == "0"@),
{
    let u = chars_of(user_id);
    let zero = chars_of("0");
    crate::win_focus::seq_eq(&u, &zero)
}

/// The screen is locked when `ioreg -n Root -d1` reports
/// `"CGSSessionScreenIsLocked"` as `Yes` (or `true`).
pub fn is_locked_from_ioreg(output: &str) -> (b: bool)
    ensures
        b == (contains_seq(output@, "\"CGSSessionScreenIsLocked\"=Yes"@) || contains_seq(
            output@,
            "\"CGSSessionScreenIsLocked\"=true"@,
        )),
{
    let o = chars_of(output);
    contains(&o, &chars_of("\"CGSSessionScreenIsLocked\"=Yes")) || contains(
        &o,
        &chars_of("\"CGSSessionScreenIsLocked\"=true"),
    )
}

/// The bundle id and names written in the packaged privilege scripts,
/// which `correct_app_name` replaces by the running app's own.
pub const SCRIPT_BUNDLE_ID: &'static str = "com.carriez.rustdesk";
pub const SCRIPT_APP_ID: &'static str = "rustdesk";
pub const SCRIPT_APP_NAME: &'static str = "RustDesk";

/// A packaged privilege script made to speak of the running app: its
/// bundle id (where it is known), then its lower-case name, then its name.
pub open spec fn correct_app_name_spec(s: Seq<char>, bundle_id: Option<Seq<char>>, app_name: Seq<char>) -> Seq<char> {
    let s1 = match bundle_id {
        Some(b) => replace_all(s, SCRIPT_BUNDLE_ID@, b),
        None => s,
    };
    let s2 = replace_all(s1, SCRIPT_APP_ID@, lower_text(app_name));
    replace_all(s2, SCRIPT_APP_NAME@, app_name)
}

pub fn correct_app_name(s: &str, bundle_id: Option<&str>, app_name: &str) -> (r: String)
    ensures
        r@ == correct_app_name_spec(
            s@,
            match bundle_id {
                Some(b) => Some(b@),
                None => None,
            },
            app_name@,
        ),
{
    let mut v = chars_of(s);
    if let Some(b) = bundle_id {
        v = replace_all_chars(&v, &chars_of(SCRIPT_BUNDLE_ID), &chars_of(b));
    }
    let lower = to_lowercase(&chars_of(app_name));
    let v2 = replace_all_chars(&v, &chars_of(SCRIPT_APP_ID), &lower);
    let v3 = replace_all_chars(&v2, &chars_of(SCRIPT_APP_NAME), &chars_of(app_name));
    string_of(&v3)
}

/// The launch daemon's property list, `{full_name}_service.plist`.
pub open spec fn launch_daemon_plist_spec(full_name: Seq<char>) -> Seq<char> {
    "/Library/LaunchDaemons/"@ + full_name + "_service.plist"@
}

/// The launch agent's property list, `{full_name}_server.plist`.
pub open spec fn launch_agent_plist_spec(full_name: Seq<char>) -> Seq<char> {
    "/Library/LaunchAgents/"@ + full_name + "_server.plist"@
}

pub fn launch_daemon_plist(full_name: &str) -> (r: String)
    ensures
        r@ == launch_daemon_plist_spec(full_name@),
{
    let mut v: Vec<char> = Vec::new();
    push_str(&mut v, "/Library/LaunchDaemons/");
    push_str(&mut v, full_name);
    push_str(&mut v, "_service.plist");
    string_of(&v)
}

pub fn launch_agent_plist(full_name: &str) -> (r: String)
    ensures
        r@ == launch_agent_plist_spec(full_name@),
{
    let mut v: Vec<char> = Vec::new();
    push_str(&mut v, "/Library/LaunchAgents/");
    push_str(&mut v, full_name);
    push_str(&mut v, "_server.plist");
    string_of(&v)
}

/// Without prompting, the service counts as installed when both its
/// daemon and its agent property lists are in place.
pub fn is_installed_daemon_from(daemon_plist_exists: bool, agent_plist_exists: bool) -> (b: bool)
    ensures
        b == (daemon_plist_exists && agent_plist_exists),
{
    daemon_plist_exists && agent_plist_exists
}

/// How a macOS update replaces the application.
#[derive(Clone, Copy, Debug, PartialEq, Eq, Structural)]
pub enum MacUpdateRoute {
    /// Through the installed launch daemon and agent, which copy the new
    /// bundle in.
    DaemonAgent,
    /// Through a script run with administrator privileges, which stops the
    /// other instances and copies the new bundle in.
    AdminScript,
}

/// The daemon route serves where the service is installed and not stopped
/// by the user's option.
pub fn mac_update_route(is_installed_daemon: bool, service_stopped: bool) -> (r: MacUpdateRoute)
    ensures
        r == (if is_installed_daemon && !service_stopped {
            MacUpdateRoute::DaemonAgent
        } else {
            MacUpdateRoute::AdminScript
        }),
{
    if is_installed_daemon && !service_stopped {
        MacUpdateRoute::DaemonAgent
    } else {
        MacUpdateRoute::AdminScript
    }
}

/// The installed application bundle, `/Applications/{app}.app`.
pub fn app_bundle_path(app_name: &str) -> (r: String)
    ensures
        r@ == "/Applications/"@ + app_name@ + ".app"@,
{
    let mut v: Vec<char> = Vec::new();
    push_str(&mut v, "/Applications/");
    push_str(&mut v, app_name);
    push_str(&mut v, ".app");
    string_of(&v)
}

/// The executable of the bundle extracted into `target_dir`, which runs the
/// update.
pub fn extracted_exe_path(target_dir: &str, app_name: &str) -> (r: String)
    ensures
        r@ == target_dir@ + "/"@ + app_name@ + ".app/Contents/MacOS/"@ + app_name@,
{
    let mut v: Vec<char> = Vec::new();
    push_str(&mut v, target_dir);
    push_str(&mut v, "/");
    push_str(&mut v, app_name);
    push_str(&mut v, ".app/Contents/MacOS/");
    push_str(&mut v, app_name);
    string_of(&v)
}

/// Where the update image is mounted.
pub const DMG_MOUNT_POINT: &'static str = "/Volumes/RustDeskUpdate";

/// The bundle copied out of the mounted image, and where it goes under
/// `target_dir`.
pub fn dmg_copy_paths(mount_point: &str, target_dir: &str, app_name: &str) -> (r: (String, String))
    ensures
        r.0@ == mount_point@ + "/"@ + app_name@ + ".app"@,
        r.1@ == target_dir@ + "/"@ + app_name@ + ".app"@,
{
    let mut src: Vec<char> = Vec::new();
    push_str(&mut src, mount_point);
    push_str(&mut src, "/");
    push_str(&mut src, app_name);
    push_str(&mut src, ".app");
    let mut dest: Vec<char> = Vec::new();
    push_str(&mut dest, target_dir);
    push_str(&mut dest, "/");
    push_str(&mut dest, app_name);
    push_str(&mut dest, ".app");
    (string_of(&src), string_of(&dest))
}

/// The display that the main screen is: the first whose name is the
/// screen's number in decimal.
pub open spec fn is_first_named(displays: Seq<DisplayInfo>, name: Seq<char>, i: int) -> bool {
    &&& 0 <= i < displays.len()
    &&& displays[i].name@ == name
    &&& forall|j: int| 0 <= j < i ==> (#[trigger] displays[j]).name@ != name
}

pub fn focused_display_index(displays: &[DisplayInfo], screen_number: u32) -> (r: Option<usize>)
    ensures
        match r {
            Some(i) => is_first_named(displays@, decimal(screen_number as nat), i as int),
            None => forall|j: int|
                0 <= j < displays@.len() ==> (#[trigger] displays@[j]).name@ != decimal(
                    screen_number as nat,
                ),
        },
{
    let mut name: Vec<char> = Vec::new();
    push_decimal(&mut name, screen_number as u64);
    assert(name@ =~= decimal(screen_number as nat));
    let mut i: usize = 0;
    while i < displays.len()
        invariant
            i <= displays@.len(),
            name@ == decimal(screen_number as nat),
            forall|j: int| 0 <= j < i ==> (#[trigger] displays@[j]).name@ != name@,
        decreases displays@.len() - i,
    {
        if seq_eq(&chars_of(displays[i].name.as_str()), &name) {
            return Some(i);
        }
        i = i + 1;
    }
    None
}

/// The value handed to the pointer association call: a clip region asks
/// for the pointer to be locked (0, dissociated), none for it to follow
/// the mouse again (1).
pub fn pointer_association(clip: Option<(i32, i32, i32, i32)>) -> (r: u32)
    ensures
        r == (if clip is Some { 0u32 } else { 1u32 }),
{
    if clip.is_some() {
        0
    } else {
        1
    }
}

/// The cursor image is read again only when the system's cursor seed has
/// moved since the last reading.
pub struct CursorSeed {
    pub latest: i32,
}

impl CursorSeed {
    /// Records `seed` and tells whether it differs from the last one seen.
    pub fn observe(&mut self, seed: i32) -> (changed: bool)
        ensures
            changed == (seed != old(self).latest),
            final(self).latest == seed,
    {
        if seed == self.latest {
            return false;
        }
        self.latest = seed;
        true
    }
}

/// The command line that an elevation runs: the executable, then each
/// argument after a space.
pub open spec fn command_line(cmd: Seq<char>, args: Seq<&str>) -> Seq<char>
    decreases args.len(),
{
    if args.len() == 0 {
        cmd
    } else {
        command_line(cmd, args.drop_last()) + " "@ + args.last()@
    }
}

/// The script that asks for administrator privileges to run `cmd` with
/// `args`, showing `prompt`.
pub open spec fn elevate_script_spec(cmd: Seq<char>, args: Seq<&str>, prompt: Seq<char>) -> Seq<char> {
    "do shell script \""@ + command_line(cmd, args) + "\" with prompt \""@ + prompt
        + "\" with administrator privileges"@
}

pub fn elevate_script(cmd: &str, args: &[&str], prompt: &str) -> (r: String)
    ensures
        r@ == elevate_script_spec(cmd@, args@, prompt@),
{
    let mut line = chars_of(cmd);
    let mut i: usize = 0;
    while i < args.len()
        invariant
            i <= args@.len(),
            line@ == command_line(cmd@, args@.take(i as int)),
        decreases args@.len() - i,
    {
        assert(args@.take(i + 1).drop_last() =~= args@.take(i as int));
        push_str(&mut line, " ");
        push_str(&mut line, args[i]);
        i = i + 1;
    }
    assert(args@.take(i as int) =~= args@);
    let mut v: Vec<char> = Vec::new();
    push_str(&mut v, "do shell script \"");
    crate::text::push_all(&mut v, &line);
    push_str(&mut v, "\" with prompt \"");
    push_str(&mut v, prompt);
    push_str(&mut v, "\" with administrator privileges");
    string_of(&v)
}

/// A process is this installation's server when its first argument is
/// `--server` and its executable is this one.
pub fn is_server_process(args: &[String], same_exe: bool) -> (b: bool)
    ensures
        b == (args@.len() > 1 && args@[1]@ == "--server"@ && same_exe),
{
    if args.len() <= 1 {
        return false;
    }
    if !seq_eq(&chars_of(args[1].as_str()), &chars_of("--server")) {
        return false;
    }
    same_exe
}

/// A click on the icon in the Finder reaches the running server, tray or
/// connection manager, which then opens the main window.
pub fn opens_untitled_for(first_arg: &str) -> (b: bool)
    ensures
        b == (first_arg@ == "--server"@ || first_arg@ == "--cm"@ || first_arg@ == "--tray"@),
{
    let a = chars_of(first_arg);
    seq_eq(&a, &chars_of("--server")) || seq_eq(&a, &chars_of("--cm")) || seq_eq(
        &a,
        &chars_of("--tray"),
    )
}

/// The display number that a display's name holds (`str::parse::<u32>`).
pub fn display_number(name: &str) -> (r: Option<u32>)
    ensures
        match r {
            Some(v) => crate::text::parse_unsigned(name@, u32::MAX as int) == Some(v as int),
            None => crate::text::parse_unsigned(name@, u32::MAX as int) is None,
        },
{
    crate::text::parse_u32(&chars_of(name))
}

} // verus!
