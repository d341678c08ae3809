//! Small Windows helpers: UTF-16 strings for the wide API, device names,
//! characters from key codes, logon names, wake-lock flags, the elevation
//! decision, registry recovery, process and session filters, installation
//! checks and the software SAS policy.

use vstd::prelude::*;
use crate::sessions::{lemma_trail_char, split_on, split_on_char, trail_char};
use crate::text::{
    chars_of, contains, contains_seq, ends_with, ends_with_seq, push_all, starts_with,
    starts_with_seq, string_of, to_lowercase, lower_text,
};
use crate::win_focus::seq_eq;
use crate::win_install::push_str;

verus! {

/// The UTF-16 code units of one character.
pub open spec fn utf16_of_char(c: char) -> Seq<u16> {
    let u = c as u32;
    if u < 0x10000 {
        seq![u as u16]
    } else {
        let v = (u - 0x10000) as u32;
        seq![(0xD800 + v / 0x400) as u16, (0xDC00 + v % 0x400) as u16]
    }
}

/// The UTF-16 encoding of a text.
pub open spec fn utf16_of(s: Seq<char>) -> Seq<u16>
    decreases s.len(),
{
    if s.len() == 0 {
        seq![]
    } else {
        utf16_of(s.drop_last()) + utf16_of_char(s.last())
    }
}

/// A text in UTF-16 code units (`str::encode_utf16`).
pub fn encode_utf16(s: &str) -> (r: Vec<u16>)
    ensures
        r@ == utf16_of(s@),
{
    let chars = chars_of(s);
    let mut r: Vec<u16> = Vec::new();
    let mut i: usize = 0;
    while i < chars.len()
        invariant
            i <= chars@.len(),
            chars@ == s@,
            r@ == utf16_of(s@.take(i as int)),
        decreases chars@.len() - i,
    {
        let c = chars[i];
        let u = c as u32;
        assert(s@.take(i + 1).drop_last() =~= s@.take(i as int));
        assert(s@.take(i + 1).last() == c);
        if u < 0x10000 {
            r.push(u as u16);
        } else {
            let v = u - 0x10000;
            r.push((0xD800 + v / 0x400) as u16);
            r.push((0xDC00 + v % 0x400) as u16);
        }
        assert(r@ =~= utf16_of(s@.take(i + 1)));
        i = i + 1;
    }
    assert(s@.take(i as int) =~= s@);
    r
}

/// A text as the wide Windows API takes it: UTF-16, NUL-terminated.
pub fn wide_string(s: &str) -> (r: Vec<u16>)
    ensures
        r@ == utf16_of(s@).push(0u16),
{
    let mut r = encode_utf16(s);
    r.push(0u16);
    r
}

/// The 32-unit device name buffer: the wide name, cut or padded with NULs.
pub fn str_to_device_name(name: &str) -> (r: [u16; 32])
    ensures
        forall|i: int|
            0 <= i < 32 ==> #[trigger] r@[i] == (if i < utf16_of(name@).len() + 1 {
                utf16_of(name@).push(0u16)[i]
            } else {
                0u16
            }),
{
    let w = wide_string(name);
    let mut result: [u16; 32] = [0u16; 32];
    let mut i: usize = 0;
    while i < 32
        invariant
            i <= 32,
            w@ == utf16_of(name@).push(0u16),
            result@.len() == 32,
            forall|k: int|
                0 <= k < i ==> #[trigger] result@[k] == (if k < w@.len() {
                    w@[k]
                } else {
                    0u16
                }),
            forall|k: int| i <= k < 32 ==> #[trigger] result@[k] == 0u16,
        decreases 32 - i,
    {
        if i < w.len() {
            result[i] = w[i];
        }
        i = i + 1;
    }
    result
}

/// `char::from_u32` (std): the character with that scalar value, `None`
/// for surrogates and values past `char::MAX`, as its documentation says.
#[verifier::external_body]
fn char_from_u32(u: u32) -> (r: Option<char>)
    ensures
        match r {
            Some(c) => c as u32 == u,
            None => (0xD800 <= u <= 0xDFFF) || u > 0x10FFFF,
        },
{
    char::from_u32(u)
}

/// A control character (general category `Cc`), which is what
/// `char::is_control` tests.
pub open spec fn is_control_char(u: u32) -> bool {
    u <= 0x1F || (0x7F <= u <= 0x9F)
}

/// The character that one UTF-16 unit from a key event stands for: none for
/// a lone surrogate or a control character.
pub fn get_char_from_unicode(unicode: u16) -> (r: Option<char>)
    ensures
        match r {
            Some(c) => c as u32 == unicode as u32 && !is_control_char(unicode as u32),
            None => (0xD800 <= unicode <= 0xDFFF) || is_control_char(unicode as u32),
        },
{
    match char_from_u32(unicode as u32) {
        Some(c) => {
            let u = unicode as u32;
            if u <= 0x1F || (0x7F <= u && u <= 0x9F) {
                None
            } else {
                Some(c)
            }
        },
        None => None,
    }
}

/// A logon name `DOMAIN\user` taken apart: the domain is what precedes the
/// first `\` (all of it without one), the user what follows it up to the
/// next `\` (the whole name without one).
pub open spec fn logon_parts_spec(user: Seq<char>) -> (Seq<char>, Seq<char>) {
    let parts = split_on(user, '\\');
    (parts[0], if parts.len() > 1 {
        parts[1]
    } else {
        user
    })
}

pub fn logon_user_parts(user: &str) -> (r: (String, String))
    ensures
        (r.0@, r.1@) == logon_parts_spec(user@),
{
    let u = chars_of(user);
    let parts = split_on_char(&u, '\\');
    proof {
        lemma_split_nonempty(user@, '\\', seq![]);
    }
    let domain = string_of(&parts[0]);
    let name = if parts.len() > 1 {
        string_of(&parts[1])
    } else {
        user.to_owned()
    };
    (domain, name)
}

proof fn lemma_split_nonempty(s: Seq<char>, c: char, cur: Seq<char>)
    ensures
        crate::sessions::split_from(s, c, cur).len() > 0,
    decreases s.len(),
{
    if s.len() > 0 {
        if s[0] == c {
            lemma_split_nonempty(s.drop_first(), c, seq![]);
        } else {
            lemma_split_nonempty(s.drop_first(), c, cur.push(s[0]));
        }
    }
}

pub const ES_CONTINUOUS: u32 = 0x8000_0000;
pub const ES_SYSTEM_REQUIRED: u32 = 0x0000_0001;
pub const ES_DISPLAY_REQUIRED: u32 = 0x0000_0002;
pub const ES_AWAYMODE_REQUIRED: u32 = 0x0000_0040;

/// The execution state a wake lock holds.
#[derive(Clone, Copy, Debug, PartialEq, Eq, Structural)]
pub struct WakeLock {
    pub flag: u32,
}

impl WakeLock {
    /// The flags for keeping the display on, the system awake and away
    /// mode; the caller applies them with `SetThreadExecutionState`.
    pub fn new(display: bool, idle: bool, sleep: bool) -> (w: WakeLock)
        ensures
            w.flag == (ES_CONTINUOUS | (if display {
                ES_DISPLAY_REQUIRED
            } else {
                0u32
            }) | (if idle {
                ES_SYSTEM_REQUIRED
            } else {
                0u32
            }) | (if sleep {
                ES_AWAYMODE_REQUIRED
            } else {
                0u32
            })),
    {
        let mut flag = ES_CONTINUOUS;
        if display {
            flag = flag | ES_DISPLAY_REQUIRED;
        }
        if idle {
            flag = flag | ES_SYSTEM_REQUIRED;
        }
        if sleep {
            flag = flag | ES_AWAYMODE_REQUIRED;
        }
        proof {
            let d = if display {
                ES_DISPLAY_REQUIRED
            } else {
                0u32
            };
            let i = if idle {
                ES_SYSTEM_REQUIRED
            } else {
                0u32
            };
            let s = if sleep {
                ES_AWAYMODE_REQUIRED
            } else {
                0u32
            };
            assert((0x8000_0000u32 | 0u32) == 0x8000_0000u32) by (bit_vector);
            assert(forall|a: u32| (a | 0u32) == a) by (bit_vector);
        }
        WakeLock { flag }
    }

    /// Turns the display requirement on or off; says whether the flags
    /// changed (and must be applied again).
    pub fn set_display(&mut self, display: bool) -> (changed: bool)
        ensures
            final(self).flag == (if display {
                old(self).flag | ES_DISPLAY_REQUIRED
            } else {
                old(self).flag & !ES_DISPLAY_REQUIRED
            }),
            changed == (final(self).flag != old(self).flag),
    {
        let flag = if display {
            self.flag | ES_DISPLAY_REQUIRED
        } else {
            self.flag & !ES_DISPLAY_REQUIRED
        };
        if flag != self.flag {
            self.flag = flag;
            true
        } else {
            false
        }
    }
}

/// What a process started for elevation or to run as system does.
#[derive(Clone, Copy, Debug, PartialEq, Eq, Structural)]
pub enum ElevationAction {
    /// Already root and asked to run as system: run the portable service.
    RunPortableService,
    /// Elevated but not yet system: restart as system with these arguments.
    RunAsSystem { setup: bool },
    /// Not elevated: ask for elevation with these arguments.
    Elevate { setup: bool },
    Nothing,
}

/// The arguments for the elevated or system restart.
pub fn elevation_args(action: ElevationAction) -> (r: Option<&'static str>)
    ensures
        match action {
            ElevationAction::RunAsSystem { setup } => r matches Some(a) && a@ == (if setup {
                "--noinstall --run-as-system"@
            } else {
                "--run-as-system"@
            }),
            ElevationAction::Elevate { setup } => r matches Some(a) && a@ == (if setup {
                "--noinstall --elevate"@
            } else {
                "--elevate"@
            }),
            _ => r is None,
        },
{
    match action {
        ElevationAction::RunAsSystem { setup } => Some(
            if setup {
                "--noinstall --run-as-system"
            } else {
                "--run-as-system"
            },
        ),
        ElevationAction::Elevate { setup } => Some(
            if setup {
                "--noinstall --elevate"
            } else {
                "--elevate"
            },
        ),
        _ => None,
    }
}

/// Decides the next step of `--elevate` / `--run-as-system` handling from
/// whether this process is root and whether it is elevated (`None`: the
/// check failed). A process already started for that step does not repeat
/// it.
pub fn elevation_action(
    is_setup: bool,
    is_elevate: bool,
    is_run_as_system: bool,
    is_root: bool,
    elevated: Option<bool>,
) -> (a: ElevationAction)
    ensures
        a == (if is_root {
            if is_run_as_system {
                ElevationAction::RunPortableService
            } else {
                ElevationAction::Nothing
            }
        } else {
            match elevated {
                Some(true) => if !is_run_as_system {
                    ElevationAction::RunAsSystem { setup: is_setup }
                } else {
                    ElevationAction::Nothing
                },
                Some(false) => if !is_elevate {
                    ElevationAction::Elevate { setup: is_setup }
                } else {
                    ElevationAction::Nothing
                },
                None => ElevationAction::Nothing,
            }
        }),
{
    if is_root {
        if is_run_as_system {
            ElevationAction::RunPortableService
        } else {
            ElevationAction::Nothing
        }
    } else {
        match elevated {
            Some(true) => {
                if !is_run_as_system {
                    ElevationAction::RunAsSystem { setup: is_setup }
                } else {
                    ElevationAction::Nothing
                }
            },
            Some(false) => {
                if !is_elevate {
                    ElevationAction::Elevate { setup: is_setup }
                } else {
                    ElevationAction::Nothing
                }
            },
            None => ElevationAction::Nothing,
        }
    }
}


/// A raw registry value: its bytes and its type code.
pub struct RegRaw {
    pub bytes: Vec<u8>,
    pub vtype: isize,
}

/// A display connectivity subkey and its `Recent` value, if it has one.
pub struct ConnectivityItem {
    pub subkey: String,
    pub recent: Option<RegRaw>,
}

/// What to write back to undo a change of a `Recent` connectivity value.
pub struct RegRecovery {
    pub path: String,
    pub key: String,
    pub old: (Vec<u8>, isize),
    pub new: (Vec<u8>, isize),
}

pub open spec fn raw_view(r: RegRaw) -> (Seq<u8>, isize) {
    (r.bytes@, r.vtype)
}

/// The `Recent` value of the first item of `items` under `subkey`.
pub open spec fn recent_under(items: Seq<ConnectivityItem>, subkey: Seq<char>) -> Option<(Seq<u8>, isize)>
    decreases items.len(),
{
    if items.len() == 0 {
        None
    } else if items[0].subkey@ == subkey {
        match items[0].recent {
            Some(r) => Some(raw_view(r)),
            None => None,
        }
    } else {
        recent_under(items.drop_first(), subkey)
    }
}

/// Item `i` of the later snapshot has a `Recent` value that differs from
/// the earlier snapshot's value under the same subkey.
pub open spec fn recent_changed(before: Seq<ConnectivityItem>, after: Seq<ConnectivityItem>, i: int) -> bool {
    &&& 0 <= i < after.len()
    &&& after[i].recent matches Some(r2)
    &&& recent_under(before, after[i].subkey@) matches Some(v1)
    &&& v1 != raw_view(r2)
}

pub open spec fn connectivity_path() -> Seq<char> {
    "SYSTEM\\CurrentControlSet\\Control\\GraphicsDrivers\\Connectivity\\"@
}

fn recent_under_exec<'a>(items: &'a [ConnectivityItem], subkey: &[char]) -> (r: Option<&'a RegRaw>)
    ensures
        match r {
            Some(v) => recent_under(items@, subkey@) == Some(raw_view(*v)),
            None => recent_under(items@, subkey@) is None,
        },
{
    let mut i: usize = 0;
    assert(items@.skip(0) =~= items@);
    while i < items.len()
        invariant
            i <= items@.len(),
            recent_under(items@, subkey@) == recent_under(items@.skip(i as int), subkey@),
        decreases items@.len() - i,
    {
        let ghost rest = items@.skip(i as int);
        assert(rest[0] == items@[i as int]);
        assert(rest.drop_first() =~= items@.skip(i + 1));
        let k = chars_of(items[i].subkey.as_str());
        if seq_eq(&k, subkey) {
            return match &items[i].recent {
                Some(r) => Some(r),
                None => None,
            };
        }
        i = i + 1;
    }
    None
}

fn bytes_eq(a: &Vec<u8>, b: &Vec<u8>) -> (r: bool)
    ensures
        r == (a@ == b@),
{
    if a.len() != b.len() {
        return false;
    }
    let mut i: usize = 0;
    while i < a.len()
        invariant
            a@.len() == b@.len(),
            i <= a@.len(),
            forall|k: int| 0 <= k < i ==> a@[k] == b@[k],
        decreases a@.len() - i,
    {
        if a[i] != b[i] {
            return false;
        }
        i = i + 1;
    }
    assert(a@ =~= b@);
    true
}

fn copy_bytes(a: &Vec<u8>) -> (r: Vec<u8>)
    ensures
        r@ == a@,
{
    let mut r: Vec<u8> = Vec::new();
    let mut i: usize = 0;
    while i < a.len()
        invariant
            i <= a@.len(),
            r@ == a@.take(i as int),
        decreases a@.len() - i,
    {
        r.push(a[i]);
        i = i + 1;
        assert(a@.take(i as int) =~= a@.take(i - 1).push(a@[i - 1]));
    }
    assert(a@.take(a@.len() as int) =~= a@);
    r
}

/// The first subkey (in the order of `after`) whose `Recent` value changed
/// between two snapshots of the display connectivity keys, with what to
/// write back to undo the change.
pub fn diff_recent_connectivity(before: &[ConnectivityItem], after: &[ConnectivityItem]) -> (r: Option<RegRecovery>)
    ensures
        match r {
            Some(rec) => exists|i: int|
                recent_changed(before@, after@, i) && (forall|j: int| 0 <= j < i ==> !recent_changed(before@, after@, j))
                && rec.path@ == connectivity_path() + after@[i].subkey@ && rec.key@ == "Recent"@
                && Some((rec.old.0@, rec.old.1)) == recent_under(before@, after@[i].subkey@)
                && (after@[i].recent matches Some(r2) && (rec.new.0@, rec.new.1) == raw_view(r2)),
            None => forall|j: int| 0 <= j < after@.len() ==> !recent_changed(before@, after@, j),
        },
{
    let mut i: usize = 0;
    while i < after.len()
        invariant
            i <= after@.len(),
            forall|j: int| 0 <= j < i ==> !recent_changed(before@, after@, j),
        decreases after@.len() - i,
    {
        let item = &after[i];
        if let Some(r2) = &item.recent {
            let k = chars_of(item.subkey.as_str());
            if let Some(r1) = recent_under_exec(before, &k) {
                if !(bytes_eq(&r1.bytes, &r2.bytes) && r1.vtype == r2.vtype) {
                    let mut path = chars_of("SYSTEM\\CurrentControlSet\\Control\\GraphicsDrivers\\Connectivity\\");
                    push_all(&mut path, &k);
                    let rec = RegRecovery {
                        path: string_of(&path),
                        key: string_of(&chars_of("Recent")),
                        old: (copy_bytes(&r1.bytes), r1.vtype),
                        new: (copy_bytes(&r2.bytes), r2.vtype),
                    };
                    assert(recent_changed(before@, after@, i as int));
                    return Some(rec);
                }
            }
        }
        i = i + 1;
    }
    None
}

/// Registry type codes 0 to 11 are kept; any other reads as 0 (`REG_NONE`).
pub fn normalize_reg_type(i: isize) -> (r: isize)
    ensures
        r == (if 0 <= i <= 11 {
            i
        } else {
            0
        }),
{
    if 0 <= i && i <= 11 {
        i
    } else {
        0
    }
}

/// The pids whose session (`sids[i]` for `pids[i]`, `None` where it could
/// not be read) is `current_sid`, in order.
pub open spec fn same_session_spec(pids: Seq<u32>, sids: Seq<Option<u32>>, current_sid: u32) -> Seq<u32>
    decreases pids.len(),
{
    if pids.len() == 0 || sids.len() < pids.len() {
        seq![]
    } else {
        let prev = same_session_spec(pids.drop_last(), sids.subrange(0, pids.len() - 1), current_sid);
        if sids[pids.len() - 1] == Some(current_sid) {
            prev.push(pids.last())
        } else {
            prev
        }
    }
}

pub fn filter_same_session_pids(pids: &[u32], sids: &[Option<u32>], current_sid: u32) -> (r: Vec<u32>)
    requires
        sids@.len() == pids@.len(),
    ensures
        r@ == same_session_spec(pids@, sids@, current_sid),
{
    let mut r: Vec<u32> = Vec::new();
    let mut i: usize = 0;
    while i < pids.len()
        invariant
            i <= pids@.len(),
            sids@.len() == pids@.len(),
            r@ == same_session_spec(pids@.take(i as int), sids@.take(i as int), current_sid),
        decreases pids@.len() - i,
    {
        assert(pids@.take(i + 1).drop_last() =~= pids@.take(i as int));
        assert(sids@.take(i + 1).subrange(0, i as int) =~= sids@.take(i as int));
        if sids[i] == Some(current_sid) {
            r.push(pids[i]);
        }
        i = i + 1;
    }
    assert(pids@.take(i as int) =~= pids@);
    assert(sids@.take(i as int) =~= sids@);
    r
}

/// Whether this process runs in the physical console session: unknown when
/// the process's session or the console session (`u32::MAX`) is unknown.
pub fn is_physical_console_session(process_sid: Option<u32>, console_sid: u32) -> (r: Option<bool>)
    ensures
        r == (match process_sid {
            Some(sid) => if console_sid == u32::MAX {
                None
            } else {
                Some(console_sid == sid)
            },
            None => None,
        }),
{
    match process_sid {
        Some(sid) => {
            if console_sid == u32::MAX {
                None
            } else {
                Some(console_sid == sid)
            }
        },
        None => None,
    }
}


/// Update packages left in the temporary directory: current ones
/// (`<prefix>-...`) and those of the legacy name, installers only.
pub open spec fn temp_update_file_spec(name: Seq<char>) -> bool {
    (starts_with_seq(name, crate::updater::asset_prefix().push('-')) || starts_with_seq(
        name,
        "rustdesk-"@,
    )) && (ends_with_seq(name, ".msi"@) || ends_with_seq(name, ".exe"@))
}

/// Files younger than this are left alone: they may be downloading.
pub const TEMP_UPDATE_FILE_MIN_AGE_MS: u64 = 3_600_000;

/// Whether a file of the temporary directory is a stale update package to
/// remove; `age_ms` is how long ago it was modified, `None` when unknown.
pub fn should_remove_temp_update_file(file_name: &str, age_ms: Option<u64>) -> (b: bool)
    ensures
        b == (temp_update_file_spec(file_name@) && !(age_ms matches Some(a) && a
            < TEMP_UPDATE_FILE_MIN_AGE_MS)),
{
    let n = chars_of(file_name);
    let mut prefix = chars_of(crate::updater::OFFICIAL_RELEASE_ASSET_PREFIX);
    prefix.push('-');
    let is_update = (starts_with(&n, &prefix) || starts_with(&n, &chars_of("rustdesk-"))) && (
    ends_with(&n, &chars_of(".msi")) || ends_with(&n, &chars_of(".exe")));
    if !is_update {
        return false;
    }
    match age_ms {
        Some(a) => a >= TEMP_UPDATE_FILE_MIN_AGE_MS,
        None => true,
    }
}

/// A process that is this app's main window: named after the app (with or
/// without `.exe`), its first argument holds that name, it has no other
/// argument but an empty link, and it is neither this process nor of this
/// process's user.
pub open spec fn main_window_process_spec(
    name: Seq<char>,
    cmd: Seq<Seq<char>>,
    app_name: Seq<char>,
    second_arg_is_empty_link: bool,
    pid: u32,
    my_pid: u32,
    same_user: bool,
) -> bool {
    let p = lower_text(name);
    let app = lower_text(app_name);
    &&& (p == app || p == app + ".exe"@)
    &&& cmd.len() >= 1
    &&& contains_seq(lower_text(cmd[0]), p)
    &&& (cmd.len() == 1 || (cmd.len() == 2 && second_arg_is_empty_link))
    &&& pid != my_pid
    &&& !same_user
}

pub fn is_main_window_process(
    name: &str,
    cmd: &[String],
    app_name: &str,
    second_arg_is_empty_link: bool,
    pid: u32,
    my_pid: u32,
    same_user: bool,
) -> (b: bool)
    ensures
        b == main_window_process_spec(
            name@,
            cmd@.map_values(|a: String| a@),
            app_name@,
            second_arg_is_empty_link,
            pid,
            my_pid,
            same_user,
        ),
{
    let p = to_lowercase(&chars_of(name));
    let app = to_lowercase(&chars_of(app_name));
    let mut app_exe = app.clone();
    assert(app_exe@ == app@);
    push_all(&mut app_exe, &chars_of(".exe"));
    if !(seq_eq(&p, &app) || seq_eq(&p, &app_exe)) {
        return false;
    }
    if cmd.len() < 1 {
        return false;
    }
    let first = to_lowercase(&chars_of(cmd[0].as_str()));
    if !contains(&first, &p) {
        return false;
    }
    if !(cmd.len() == 1 || (cmd.len() == 2 && second_arg_is_empty_link)) {
        return false;
    }
    pid != my_pid && !same_user
}

/// The key state that `ToUnicodeEx` reads, with the shift keys that are
/// down marked pressed (`0x81`): the left and right shift keys, and the
/// shift key itself when either is down.
pub open spec fn shift_key_state_spec(shift_left: bool, shift_right: bool, k: int) -> u8 {
    if (k == 0xA0 && shift_left) || (k == 0xA1 && shift_right) || (k == 0x10 && (shift_left
        || shift_right)) {
        129u8
    } else {
        0u8
    }
}

pub fn shift_key_state(shift_left: bool, shift_right: bool) -> (r: Vec<u8>)
    ensures
        r@.len() == 256,
        forall|k: int| 0 <= k < 256 ==> #[trigger] r@[k] == shift_key_state_spec(shift_left, shift_right, k),
{
    let mut r: Vec<u8> = Vec::new();
    let mut k: usize = 0;
    while k < 256
        invariant
            k <= 256,
            r@.len() == k,
            forall|j: int| 0 <= j < k ==> #[trigger] r@[j] == shift_key_state_spec(shift_left, shift_right, j),
        decreases 256 - k,
    {
        let pressed = (k == 0xA0 && shift_left) || (k == 0xA1 && shift_right) || (k == 0x10 && (
        shift_left || shift_right));
        r.push(if pressed { 129u8 } else { 0u8 });
        k = k + 1;
    }
    r
}

/// A key gives a character when the translation wrote exactly one code
/// unit.
pub fn unicode_from_translation(len: i32, first_unit: u16) -> (r: Option<u16>)
    ensures
        r == (if len == 1 { Some(first_unit) } else { None }),
{
    if len == 1 {
        Some(first_unit)
    } else {
        None
    }
}

/// A running process: its executable's name and its id.
pub struct ProcessEntry {
    pub exe_name: String,
    pub pid: u32,
}

/// The ids of the processes whose executable name holds `name`, both
/// compared lower-cased, in the order they are listed.
pub open spec fn pids_matching_spec(procs: Seq<ProcessEntry>, name: Seq<char>) -> Seq<u32>
    decreases procs.len(),
{
    if procs.len() == 0 {
        seq![]
    } else {
        let r = pids_matching_spec(procs.drop_last(), name);
        if contains_seq(lower_text(procs.last().exe_name@), lower_text(name)) {
            r.push(procs.last().pid)
        } else {
            r
        }
    }
}

pub fn pids_matching_name(procs: &[ProcessEntry], name: &str) -> (r: Vec<u32>)
    ensures
        r@ == pids_matching_spec(procs@, name@),
{
    let lname = to_lowercase(&chars_of(name));
    let mut r: Vec<u32> = Vec::new();
    let mut i: usize = 0;
    while i < procs.len()
        invariant
            i <= procs@.len(),
            lname@ == lower_text(name@),
            r@ == pids_matching_spec(procs@.take(i as int), name@),
        decreases procs@.len() - i,
    {
        assert(procs@.take(i + 1).drop_last() =~= procs@.take(i as int));
        let pname = to_lowercase(&chars_of(procs[i].exe_name.as_str()));
        if contains(&pname, &lname) {
            r.push(procs[i].pid);
        }
        i = i + 1;
    }
    assert(procs@.take(i as int) =~= procs@);
    r
}

/// A process is killed by id only when its name is the expected one,
/// compared lower-cased.
pub fn process_name_matches(expected: &str, actual: &str) -> (b: bool)
    ensures
        b == (lower_text(expected@) == lower_text(actual@)),
{
    let e = to_lowercase(&chars_of(expected));
    let a = to_lowercase(&chars_of(actual));
    seq_eq(&e, &a)
}

/// The sum of byte sizes, saturating at the largest `u64` at each step.
pub open spec fn saturating_total(sizes: Seq<u64>) -> u64
    decreases sizes.len(),
{
    if sizes.len() == 0 {
        0
    } else {
        let t = saturating_total(sizes.drop_last());
        if t + sizes.last() > u64::MAX {
            u64::MAX
        } else {
            (t + sizes.last()) as u64
        }
    }
}

/// The size in KiB (rounded down) of files of the given byte sizes.
pub fn directory_size_kb(sizes: &[u64]) -> (r: u64)
    ensures
        r == saturating_total(sizes@) / 1024,
{
    let mut total: u64 = 0;
    let mut i: usize = 0;
    while i < sizes.len()
        invariant
            i <= sizes@.len(),
            total == saturating_total(sizes@.take(i as int)),
        decreases sizes@.len() - i,
    {
        assert(sizes@.take(i + 1).drop_last() =~= sizes@.take(i as int));
        total = total.saturating_add(sizes[i]);
        i = i + 1;
    }
    assert(sizes@.take(i as int) =~= sizes@);
    total / 1024
}

/// What is started once an installation's script has run: a new window
/// unless the installation was silent, and the tray unless the user chose
/// to keep the service stopped (option value `Y`).
pub fn after_install_launches(silent: bool, stop_service_option: &str) -> (r: (bool, bool))
    ensures
        r.0 == !silent,
        r.1 == (stop_service_option@ != "Y"@),
{
    let stop = seq_eq(&chars_of(stop_service_option), &chars_of("Y"));
    (!silent, !stop)
}

/// A custom server licence: key, rendezvous host and API server.
pub struct LicenseInfo {
    pub key: String,
    pub host: String,
    pub api: String,
}

/// The licence to install with: the one in the executable's name when it
/// can be read, else the one recorded in the registry by older versions;
/// none without a key or a host.
pub open spec fn license_choice_spec(from_exe: Option<LicenseInfo>, from_registry: LicenseInfo) -> Option<LicenseInfo> {
    let lic = match from_exe {
        Some(l) => l,
        None => from_registry,
    };
    if lic.key@.len() == 0 || lic.host@.len() == 0 {
        None
    } else {
        Some(lic)
    }
}

pub fn license_choice(from_exe: Option<LicenseInfo>, from_registry: LicenseInfo) -> (r: Option<LicenseInfo>)
    ensures
        r == license_choice_spec(from_exe, from_registry),
{
    let lic = match from_exe {
        Some(l) => l,
        None => from_registry,
    };
    let key_empty = chars_of(lic.key.as_str()).len() == 0;
    let host_empty = chars_of(lic.host.as_str()).len() == 0;
    if key_empty || host_empty {
        None
    } else {
        Some(lic)
    }
}

/// The running executable is the installed one when the installed
/// executable exists and the two paths agree, compared lower-cased.
pub fn is_installed_exe(installed_exists: bool, current_exe: &str, installed_exe: &str) -> (b: bool)
    ensures
        b == (installed_exists && lower_text(current_exe@) == lower_text(installed_exe@)),
{
    if !installed_exists {
        return false;
    }
    let c = to_lowercase(&chars_of(current_exe));
    let e = to_lowercase(&chars_of(installed_exe));
    seq_eq(&c, &e)
}

/// The command that removes the virtual display driver, run by the
/// current executable; none when its path is unknown.
pub fn uninstall_idd_cmd(exe_path: Option<&str>) -> (r: String)
    ensures
        r@ == (match exe_path {
            Some(p) => "\""@ + p@ + "\" --uninstall-amyuni-idd"@,
            None => seq![],
        }),
{
    let mut v: Vec<char> = Vec::new();
    if let Some(p) = exe_path {
        push_str(&mut v, "\"");
        push_str(&mut v, p);
        push_str(&mut v, "\" --uninstall-amyuni-idd");
    }
    string_of(&v)
}

/// The folders every user can reach on `system_drive`, in the order they
/// are tried: the program data folder, then the system's temporary folder.
pub fn user_accessible_folders(system_drive: &str) -> (r: (String, String))
    ensures
        r.0@ == system_drive@ + "\\ProgramData"@,
        r.1@ == system_drive@ + "\\Windows\\Temp"@,
{
    let mut a: Vec<char> = Vec::new();
    push_str(&mut a, system_drive);
    push_str(&mut a, "\\ProgramData");
    let mut b: Vec<char> = Vec::new();
    push_str(&mut b, system_drive);
    push_str(&mut b, "\\Windows\\Temp");
    (string_of(&a), string_of(&b))
}

/// The grant that `icacls` gives everyone (`S-1-1-0`), inherited by files
/// and folders.
pub fn everyone_grant(permission: &str) -> (r: String)
    ensures
        r@ == "*S-1-1-0:(OI)(CI)"@ + permission@,
{
    let mut v: Vec<char> = Vec::new();
    push_str(&mut v, "*S-1-1-0:(OI)(CI)");
    push_str(&mut v, permission);
    string_of(&v)
}

/// How the software SAS policy is put back after a secure attention
/// sequence was sent.
#[derive(Clone, Copy, Debug, PartialEq, Eq, Structural)]
pub enum SasRestore {
    /// It was not changed.
    Keep,
    /// The value is deleted (it was missing, or 0).
    Delete,
    /// The value is set back.
    Value(u32),
}

/// What sending the sequence does to the `SoftwareSASGeneration` policy:
/// whether it is set to 1 (services may generate it) first, and how it is
/// restored afterwards.
#[derive(Clone, Copy, Debug, PartialEq, Eq, Structural)]
pub struct SasPlan {
    pub set_services: bool,
    pub restore: SasRestore,
}

/// A policy that already lets services generate the sequence (1, or 3 for
/// services and ease of access) is left alone; any other value, or a
/// missing one (`None`), is set to 1 and restored afterwards, a missing
/// value or 0 by deleting it.
pub open spec fn sas_plan_spec(current: Option<u32>) -> SasPlan {
    match current {
        Some(v) => if v == 1 || v == 3 {
            SasPlan { set_services: false, restore: SasRestore::Keep }
        } else if v == 0 {
            SasPlan { set_services: true, restore: SasRestore::Delete }
        } else {
            SasPlan { set_services: true, restore: SasRestore::Value(v) }
        },
        None => SasPlan { set_services: true, restore: SasRestore::Delete },
    }
}

pub fn sas_policy_plan(current: Option<u32>) -> (p: SasPlan)
    ensures
        p == sas_plan_spec(current),
{
    match current {
        Some(v) => if v == 1 || v == 3 {
            SasPlan { set_services: false, restore: SasRestore::Keep }
        } else if v == 0 {
            SasPlan { set_services: true, restore: SasRestore::Delete }
        } else {
            SasPlan { set_services: true, restore: SasRestore::Value(v) }
        },
        None => SasPlan { set_services: true, restore: SasRestore::Delete },
    }
}

/// The policy while the sequence is sent.
pub open spec fn sas_policy_during(current: Option<u32>) -> Option<u32> {
    if sas_plan_spec(current).set_services {
        Some(1)
    } else {
        current
    }
}

/// The policy once it has been restored.
pub open spec fn sas_policy_after(current: Option<u32>) -> Option<u32> {
    match sas_plan_spec(current).restore {
        SasRestore::Keep => sas_policy_during(current),
        SasRestore::Delete => None,
        SasRestore::Value(v) => Some(v),
    }
}

/// While the sequence is sent, services may generate it; afterwards the
/// policy is as it was (a value of 0 comes back as a missing value, which
/// means the same).
pub proof fn law_sas_policy_restored(current: Option<u32>)
    ensures
        sas_policy_during(current) == Some(1u32) || sas_policy_during(current) == Some(3u32),
        current != Some(0u32) ==> sas_policy_after(current) == current,
        current == Some(0u32) ==> sas_policy_after(current) is None,
{
}

/// Remote desktop sessions are shared unless the recorded value is
/// `false`.
pub fn share_rdp_from(value: &str) -> (b: bool)
    ensures
        b == (value@ != "false"@),
{
    !seq_eq(&chars_of(value), &chars_of("false"))
}

/// The command that records whether remote desktop sessions are shared.
pub fn share_rdp_cmd(subkey: &str, enable: bool) -> (r: String)
    ensures
        r@ == "reg add "@ + subkey@ + " /f /v share_rdp /t REG_SZ /d \""@ + (if enable {
            "true"@
        } else {
            "false"@
        }) + "\""@,
{
    let mut v: Vec<char> = Vec::new();
    push_str(&mut v, "reg add ");
    push_str(&mut v, subkey);
    push_str(&mut v, " /f /v share_rdp /t REG_SZ /d \"");
    if enable {
        push_str(&mut v, "true");
    } else {
        push_str(&mut v, "false");
    }
    push_str(&mut v, "\"");
    string_of(&v)
}

/// The logon screen shows when nobody (or the system account) is logged on
/// in the current session; without a session user it does not.
pub fn is_prelogin_user(session_user: Option<&str>) -> (b: bool)
    ensures
        b == (match session_user {
            Some(u) => u@.len() == 0 || u@ == "SYSTEM"@,
            None => false,
        }),
{
    match session_user {
        Some(u) => {
            let c = chars_of(u);
            c.len() == 0 || seq_eq(&c, &chars_of("SYSTEM"))
        },
        None => false,
    }
}

/// The home folder of the active user, when one is logged on.
pub fn user_home(system_drive: &str, username: &str) -> (r: Option<String>)
    ensures
        match r {
            Some(h) => username@.len() > 0 && h@ == system_drive@ + "\\Users\\"@ + username@,
            None => username@.len() == 0,
        },
{
    if chars_of(username).len() == 0 {
        return None;
    }
    let mut v: Vec<char> = Vec::new();
    push_str(&mut v, system_drive);
    push_str(&mut v, "\\Users\\");
    push_str(&mut v, username);
    Some(string_of(&v))
}

/// The logon screen is up in the current session when one of the logon
/// processes (given by their sessions) runs in it.
pub fn any_in_session(process_sessions: &[Option<u32>], current_sid: Option<u32>) -> (b: bool)
    ensures
        b == (current_sid is Some && exists|i: int|
            0 <= i < process_sessions@.len() && #[trigger] process_sessions@[i] == current_sid),
{
    let sid = match current_sid {
        Some(s) => s,
        None => return false,
    };
    let mut i: usize = 0;
    while i < process_sessions.len()
        invariant
            i <= process_sessions@.len(),
            current_sid == Some(sid),
            forall|j: int| 0 <= j < i ==> #[trigger] process_sessions@[j] != current_sid,
        decreases process_sessions@.len() - i,
    {
        if process_sessions[i] == Some(sid) {
            return true;
        }
        i = i + 1;
    }
    false
}

/// Printer names longer than this (in UTF-16 units) are skipped.
pub const MAX_PRINTER_NAME_UNITS: usize = 500;

/// A printer's name as the spooler lists it: the units before its NUL,
/// kept when there are some and fewer than the limit. `units` is what can
/// be read of the name.
pub fn printer_name_units(units: &[u16]) -> (r: Option<Vec<u16>>)
    ensures
        match r {
            Some(n) => {
                &&& 0 < n@.len() < MAX_PRINTER_NAME_UNITS
                &&& n@ == units@.take(n@.len() as int)
                &&& forall|j: int| 0 <= j < n@.len() ==> #[trigger] units@[j] != 0
                &&& (n@.len() == units@.len() || units@[n@.len() as int] == 0)
            },
            None => {
                ||| units@.len() == 0
                ||| units@[0] == 0
                ||| (units@.len() >= MAX_PRINTER_NAME_UNITS && forall|j: int|
                    0 <= j < MAX_PRINTER_NAME_UNITS ==> #[trigger] units@[j] != 0)
            },
        },
{
    let mut len: usize = 0;
    while len < MAX_PRINTER_NAME_UNITS && len < units.len() && units[len] != 0
        invariant
            len <= MAX_PRINTER_NAME_UNITS,
            len <= units@.len(),
            forall|j: int| 0 <= j < len ==> #[trigger] units@[j] != 0,
        decreases MAX_PRINTER_NAME_UNITS - len,
    {
        len = len + 1;
    }
    if len > 0 && len < MAX_PRINTER_NAME_UNITS {
        let mut n: Vec<u16> = Vec::new();
        let mut i: usize = 0;
        while i < len
            invariant
                i <= len,
                len <= units@.len(),
                n@ == units@.take(i as int),
            decreases len - i,
        {
            n.push(units[i]);
            assert(units@.take(i + 1) =~= units@.take(i as int).push(units@[i as int]));
            i = i + 1;
        }
        Some(n)
    } else {
        None
    }
}

/// `String::from_utf16` (std): the text whose UTF-16 encoding the units
/// are, or `None` when they are no valid UTF-16 (its documentation: an
/// error "if `v` contains any invalid data").
#[verifier::external_body]
fn string_from_utf16(units: &[u16]) -> (r: Option<String>)
    ensures
        match r {
            Some(s) => utf16_of(s@) == units@,
            None => forall|t: Seq<char>| #[trigger] utf16_of(t) != units@,
        },
{
    String::from_utf16(units).ok()
}

/// A text without its trailing NUL characters.
pub open spec fn trim_trailing_nuls(s: Seq<char>) -> Seq<char> {
    s.take(s.len() - trail_char(s, '\0'))
}

/// The text that a wide-string call wrote into `buf`: its first `n` units
/// decoded, trailing NULs dropped; `fallback` when they are no valid
/// UTF-16; empty when nothing was written.
pub fn wide_text(buf: &[u16], n: usize, fallback: &str) -> (r: String)
    requires
        n <= buf@.len(),
    ensures
        n == 0 ==> r@ == Seq::<char>::empty(),
        n > 0 && (exists|t: Seq<char>| #[trigger] utf16_of(t) == buf@.take(n as int)) ==> exists|
            t: Seq<char>,
        | #[trigger] utf16_of(t) == buf@.take(n as int) && r@ == trim_trailing_nuls(t),
        n > 0 && !(exists|t: Seq<char>| #[trigger] utf16_of(t) == buf@.take(n as int)) ==> r@
            == fallback@,
{
    if n == 0 {
        return string_of(&Vec::new());
    }
    let mut units: Vec<u16> = Vec::new();
    let mut i: usize = 0;
    while i < n
        invariant
            i <= n,
            n <= buf@.len(),
            units@ == buf@.take(i as int),
        decreases n - i,
    {
        units.push(buf[i]);
        assert(buf@.take(i + 1) =~= buf@.take(i as int).push(buf@[i as int]));
        i = i + 1;
    }
    match string_from_utf16(&units) {
        Some(s) => {
            let c = chars_of(s.as_str());
            let mut j: usize = c.len();
            while j > 0 && c[j - 1] == '\0'
                invariant
                    j <= c@.len(),
                    forall|k: int| j <= k < c@.len() ==> #[trigger] c@[k] == '\0',
                decreases j,
            {
                j = j - 1;
            }
            proof {
                lemma_trail_char(c@, '\0', j as int);
            }
            let mut r: Vec<char> = Vec::new();
            let mut k: usize = 0;
            while k < j
                invariant
                    k <= j,
                    j <= c@.len(),
                    r@ == c@.take(k as int),
                decreases j - k,
            {
                r.push(c[k]);
                assert(c@.take(k + 1) =~= c@.take(k as int).push(c@[k as int]));
                k = k + 1;
            }
            assert(utf16_of(s@) == buf@.take(n as int));
            string_of(&r)
        },
        None => string_of(&chars_of(fallback)),
    }
}

/// A message is put on the clipboard too unless it ends with `!` and a
/// dialog shows it.
pub fn message_goes_to_clipboard(text: &str, no_dialog: bool) -> (b: bool)
    ensures
        b == (!ends_with_seq(text@, "!"@) || no_dialog),
{
    !ends_with(&chars_of(text), &chars_of("!")) || no_dialog
}

/// The text of a message: a dialog tells that the text was copied to the
/// clipboard, when it was.
pub fn message_text(text: &str, copied: bool, no_dialog: bool) -> (r: String)
    ensures
        r@ == (if copied && !no_dialog {
            text@ + "\n\nAbove text has been copied to clipboard"@
        } else {
            text@
        }),
{
    let mut v: Vec<char> = Vec::new();
    push_str(&mut v, text);
    if copied && !no_dialog {
        push_str(&mut v, "\n\nAbove text has been copied to clipboard");
    }
    string_of(&v)
}

} // verus!
