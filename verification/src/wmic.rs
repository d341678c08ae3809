//! Readers of `wmic process ... get commandline,processid /value` output,
//! which lists `CommandLine=...` and `ProcessId=...` lines per process.

use vstd::prelude::*;
use crate::text::{chars_of, contains, contains_seq, find, first_occ, lemma_first_occ_is, occurs_at, matches_at, parse_u32, parse_unsigned, push_all, slice_chars, starts_with, starts_with_seq, ends_with, ends_with_seq, to_lowercase, trim, trim_spec, lower_text};

verus! {

/// A line that ended with `\n` loses a trailing `\r` too.
pub open spec fn strip_cr(line: Seq<char>) -> Seq<char> {
    if line.len() > 0 && line.last() == '\r' {
        line.drop_last()
    } else {
        line
    }
}

/// The lines of `s` (as `str::lines` yields them) when the current line
/// so far is `cur`.
pub open spec fn lines_from(s: Seq<char>, cur: Seq<char>) -> Seq<Seq<char>>
    decreases s.len(),
{
    if s.len() == 0 {
        if cur.len() == 0 {
            seq![]
        } else {
            seq![cur]
        }
    } else if s[0] == '\n' {
        seq![strip_cr(cur)] + lines_from(s.drop_first(), seq![])
    } else {
        lines_from(s.drop_first(), cur.push(s[0]))
    }
}

/// `str::lines`: split at `\n` (and `\r\n`); a last line ending is optional.
pub open spec fn lines_of(s: Seq<char>) -> Seq<Seq<char>> {
    lines_from(s, seq![])
}

/// The lines of a text.
pub fn split_lines(s: &[char]) -> (r: Vec<Vec<char>>)
    ensures
        r@.len() == lines_of(s@).len(),
        forall|i: int| 0 <= i < r@.len() ==> #[trigger] r@[i]@ == lines_of(s@)[i],
{
    let mut r: Vec<Vec<char>> = Vec::new();
    let mut cur: Vec<char> = Vec::new();
    let mut i: usize = 0;
    let ghost mut done: Seq<Seq<char>> = seq![];
    assert(s@.skip(0) =~= s@);
    assert(cur@ =~= seq![]);
    assert(done + lines_from(s@, cur@) =~= lines_from(s@, cur@));
    while i < s.len()
        invariant
            i <= s@.len(),
            r@.len() == done.len(),
            forall|k: int| 0 <= k < r@.len() ==> #[trigger] r@[k]@ == done[k],
            lines_of(s@) == done + lines_from(s@.skip(i as int), cur@),
        decreases s@.len() - i,
    {
        let ghost rest = s@.skip(i as int);
        assert(rest.drop_first() =~= s@.skip(i + 1));
        if s[i] == '\n' {
            let line = if cur.len() > 0 && cur[cur.len() - 1] == '\r' {
                slice_chars(&cur, 0, cur.len() - 1)
            } else {
                slice_chars(&cur, 0, cur.len())
            };
            assert(line@ == strip_cr(cur@));
            proof {
                assert(done + lines_from(rest, cur@) == done.push(line@) + lines_from(
                    s@.skip(i + 1),
                    seq![],
                ));
                done = done.push(line@);
            }
            r.push(line);
            cur = Vec::new();
        } else {
            cur.push(s[i]);
        }
        i = i + 1;
    }
    assert(s@.skip(i as int).len() == 0);
    if cur.len() > 0 {
        proof {
            done = done.push(cur@);
        }
        r.push(cur);
    }
    assert(lines_of(s@) =~= done);
    r
}


pub open spec fn pid_prefix() -> Seq<char> {
    "ProcessId="@
}

pub open spec fn command_prefix() -> Seq<char> {
    "CommandLine="@
}

/// The process id on a `ProcessId=` line, if it reads as a `u32`.
pub open spec fn pid_of_line(line: Seq<char>) -> Option<int> {
    parse_unsigned(trim_spec(line.skip(pid_prefix().len() as int)), u32::MAX as int)
}

/// The command line on a `CommandLine=` line, trimmed and lower-cased.
pub open spec fn command_of_line(line: Seq<char>) -> Seq<char> {
    lower_text(trim_spec(line.skip(command_prefix().len() as int)))
}

/// One line of the scan. `state` holds the pids found so far and whether
/// the last command line matched; `matched` says whether this line's
/// command matches (used on a `CommandLine=` line only). A `ProcessId=`
/// line is taken only right after a matching command line.
pub open spec fn scan_line(state: (Seq<u32>, bool), line: Seq<char>, matched: bool) -> (Seq<u32>, bool) {
    if starts_with_seq(line, pid_prefix()) {
        if state.1 {
            match pid_of_line(line) {
                Some(v) => (state.0.push(v as u32), false),
                None => (state.0, false),
            }
        } else {
            (state.0, false)
        }
    } else if starts_with_seq(line, command_prefix()) {
        (state.0, matched)
    } else {
        state
    }
}

/// A command line that matches by arguments: with none, it ends with the
/// executable's name (quoted or not); else it contains every argument.
pub open spec fn args_match(cmd: Seq<char>, name: Seq<char>, args: Seq<Seq<char>>) -> bool {
    if args.len() == 0 {
        ends_with_seq(cmd, name) || ends_with_seq(cmd, name.push('"'))
    } else {
        forall|i: int| 0 <= i < args.len() ==> contains_seq(cmd, #[trigger] args[i])
    }
}

pub open spec fn scan_args(lines: Seq<Seq<char>>, name: Seq<char>, args: Seq<Seq<char>>) -> (
    Seq<u32>,
    bool,
)
    decreases lines.len(),
{
    if lines.len() == 0 {
        (seq![], false)
    } else {
        scan_line(
            scan_args(lines.drop_last(), name, args),
            lines.last(),
            args_match(command_of_line(lines.last()), name, args),
        )
    }
}

/// `s` from position `i` on with every (leftmost, non-overlapping)
/// occurrence of `x` taken out, as `split(x)` followed by `join("")` does.
pub open spec fn remove_all_from(s: Seq<char>, x: Seq<char>, i: int) -> Seq<char>
    decreases s.len() - i,
{
    if x.len() == 0 {
        s.skip(i)
    } else if i < 0 || i >= s.len() {
        seq![]
    } else if occurs_at(s, x, i) {
        remove_all_from(s, x, i + x.len())
    } else {
        seq![s[i]] + remove_all_from(s, x, i + 1)
    }
}

/// `cmd.split(x)`, all parts after the first, joined.
pub open spec fn after_split(cmd: Seq<char>, x: Seq<char>) -> Seq<char> {
    if x.len() == 0 {
        cmd
    } else {
        remove_all_from(cmd, x, first_occ(cmd, x) + x.len())
    }
}

/// What follows the executable's name starts with the argument (or is
/// empty, for no argument).
pub open spec fn rest_matches(rest: Seq<char>, arg: Seq<char>) -> bool {
    if arg.len() == 0 {
        trim_spec(rest).len() == 0
    } else {
        starts_with_seq(trim_spec(rest), arg)
    }
}

/// A command line whose first argument is `arg`: it starts with `arg`, or
/// what follows the executable's name (quoted name first) starts with it.
pub open spec fn first_arg_match(cmd: Seq<char>, name: Seq<char>, arg: Seq<char>) -> bool {
    if cmd.len() == 0 {
        false
    } else if arg.len() > 0 && starts_with_seq(cmd, arg) {
        true
    } else if contains_seq(cmd, name.push('"')) {
        rest_matches(after_split(cmd, name.push('"')), arg)
    } else if contains_seq(cmd, name) {
        rest_matches(after_split(cmd, name), arg)
    } else {
        false
    }
}

pub open spec fn scan_first_arg(lines: Seq<Seq<char>>, name: Seq<char>, arg: Seq<char>) -> (
    Seq<u32>,
    bool,
)
    decreases lines.len(),
{
    if lines.len() == 0 {
        (seq![], false)
    } else {
        scan_line(
            scan_first_arg(lines.drop_last(), name, arg),
            lines.last(),
            first_arg_match(command_of_line(lines.last()), name, arg),
        )
    }
}

/// The trimmed, lower-cased text after a line's prefix.
fn command_text(line: &[char], prefix_len: usize) -> (r: Vec<char>)
    requires
        prefix_len <= line@.len(),
    ensures
        r@ == lower_text(trim_spec(line@.skip(prefix_len as int))),
{
    let rest = slice_chars(line, prefix_len, line.len());
    assert(rest@ == line@.skip(prefix_len as int));
    let t = trim(&rest);
    to_lowercase(&t)
}

/// One step of the scan on a line whose command match is computed by
/// `matched` only when the line is a `CommandLine=` line.
fn scan_line_exec(
    pids: &mut Vec<u32>,
    found: bool,
    line: &[char],
    matched: bool,
) -> (next_found: bool)
    ensures
        (final(pids)@, next_found) == scan_line((old(pids)@, found), line@, matched),
{
    let pid_marker = chars_of("ProcessId=");
    let cmd_marker = chars_of("CommandLine=");
    if starts_with(line, &pid_marker) {
        if found {
            let rest = slice_chars(line, pid_marker.len(), line.len());
            assert(rest@ == line@.skip(pid_prefix().len() as int));
            let t = trim(&rest);
            if let Some(v) = parse_u32(&t) {
                pids.push(v);
            }
        }
        false
    } else if starts_with(line, &cmd_marker) {
        matched
    } else {
        found
    }
}

fn args_match_exec(cmd: &[char], name: &[char], args: &[&str]) -> (b: bool)
    ensures
        b == args_match(cmd@, name@, args@.map_values(|a: &str| a@)),
{
    let ghost av = args@.map_values(|a: &str| a@);
    if args.len() == 0 {
        let mut quoted: Vec<char> = Vec::new();
        push_all(&mut quoted, name);
        quoted.push('"');
        return ends_with(cmd, name) || ends_with(cmd, &quoted);
    }
    let mut i: usize = 0;
    while i < args.len()
        invariant
            i <= args@.len(),
            av == args@.map_values(|a: &str| a@),
            forall|k: int| 0 <= k < i ==> contains_seq(cmd@, #[trigger] av[k]),
        decreases args@.len() - i,
    {
        let a = chars_of(args[i]);
        if !contains(cmd, &a) {
            assert(av[i as int] == a@);
            return false;
        }
        i = i + 1;
    }
    true
}

/// The ids of the processes of `output` (lower-cased executable `name`)
/// whose command line matches `args` (see `args_match`).
pub fn get_pids_with_args_from_wmic_output(output: &str, name: &str, args: &[&str]) -> (pids: Vec<
    u32,
>)
    ensures
        pids@ == scan_args(lines_of(output@), name@, args@.map_values(|a: &str| a@)).0,
{
    let text = chars_of(output);
    let name_chars = chars_of(name);
    let lines = split_lines(&text);
    let ghost ls = lines_of(output@);
    let ghost av = args@.map_values(|a: &str| a@);
    let cmd_prefix = chars_of("CommandLine=");
    let mut pids: Vec<u32> = Vec::new();
    let mut found = false;
    let mut k: usize = 0;
    while k < lines.len()
        invariant
            k <= lines@.len(),
            lines@.len() == ls.len(),
            forall|i: int| 0 <= i < lines@.len() ==> #[trigger] lines@[i]@ == ls[i],
            ls == lines_of(output@),
            av == args@.map_values(|a: &str| a@),
            name_chars@ == name@,
            cmd_prefix@ == command_prefix(),
            (pids@, found) == scan_args(ls.take(k as int), name@, av),
        decreases lines@.len() - k,
    {
        let line = &lines[k];
        assert(ls.take(k + 1).drop_last() =~= ls.take(k as int));
        assert(ls.take(k + 1).last() == line@);
        let matched = if starts_with(line, &cmd_prefix) {
            let cmd = command_text(line, cmd_prefix.len());
            args_match_exec(&cmd, &name_chars, args)
        } else {
            false
        };
        found = scan_line_exec(&mut pids, found, line, matched);
        k = k + 1;
    }
    assert(ls.take(k as int) =~= ls);
    pids
}


fn remove_all_exec(s: &[char], x: &[char], start: usize) -> (r: Vec<char>)
    requires
        x@.len() > 0,
        start <= s@.len(),
    ensures
        r@ == remove_all_from(s@, x@, start as int),
{
    let mut r: Vec<char> = Vec::new();
    let mut i: usize = start;
    while i < s.len()
        invariant
            x@.len() > 0,
            start <= i,
            remove_all_from(s@, x@, start as int) == r@ + remove_all_from(s@, x@, i as int),
        decreases s@.len() - i,
    {
        if matches_at(s, x, i) {
            i = i + x.len();
        } else {
            let ghost before = r@;
            r.push(s[i]);
            assert(before + remove_all_from(s@, x@, i as int) =~= r@ + remove_all_from(
                s@,
                x@,
                i + 1,
            ));
            i = i + 1;
        }
    }
    assert(remove_all_from(s@, x@, i as int) =~= seq![]);
    assert(r@ + seq![] =~= r@);
    r
}

fn after_split_exec(cmd: &[char], x: &[char]) -> (r: Vec<char>)
    requires
        contains_seq(cmd@, x@),
    ensures
        r@ == after_split(cmd@, x@),
{
    if x.len() == 0 {
        return slice_chars(cmd, 0, cmd.len());
    }
    match find(cmd, x) {
        Some(i) => {
            proof {
                lemma_first_occ_is(cmd@, x@, i as int);
            }
            let total = cmd.len();
            let n = x.len();
            assert(i + n <= total);
            remove_all_exec(cmd, x, i + n)
        },
        None => {
            assert(false);
            Vec::new()
        },
    }
}

fn rest_matches_exec(rest: &[char], arg: &[char]) -> (b: bool)
    ensures
        b == rest_matches(rest@, arg@),
{
    let t = trim(rest);
    if arg.len() == 0 {
        t.len() == 0
    } else {
        starts_with(&t, arg)
    }
}

fn first_arg_match_exec(cmd: &[char], name: &[char], arg: &[char]) -> (b: bool)
    ensures
        b == first_arg_match(cmd@, name@, arg@),
{
    if cmd.len() == 0 {
        return false;
    }
    if arg.len() > 0 && starts_with(cmd, arg) {
        return true;
    }
    let mut quoted: Vec<char> = Vec::new();
    push_all(&mut quoted, name);
    quoted.push('"');
    if contains(cmd, &quoted) {
        let rest = after_split_exec(cmd, &quoted);
        return rest_matches_exec(&rest, arg);
    }
    if contains(cmd, name) {
        let rest = after_split_exec(cmd, name);
        return rest_matches_exec(&rest, arg);
    }
    false
}

/// The ids of the processes of `output` (lower-cased executable `name`)
/// whose first argument is `arg` (see `first_arg_match`).
pub fn get_pids_with_first_arg_from_wmic_output(output: &str, name: &str, arg: &str) -> (pids: Vec<
    u32,
>)
    ensures
        pids@ == scan_first_arg(lines_of(output@), name@, arg@).0,
{
    let text = chars_of(output);
    let name_chars = chars_of(name);
    let arg_chars = chars_of(arg);
    let lines = split_lines(&text);
    let ghost ls = lines_of(output@);
    let cmd_prefix = chars_of("CommandLine=");
    let mut pids: Vec<u32> = Vec::new();
    let mut found = false;
    let mut k: usize = 0;
    while k < lines.len()
        invariant
            k <= lines@.len(),
            lines@.len() == ls.len(),
            forall|i: int| 0 <= i < lines@.len() ==> #[trigger] lines@[i]@ == ls[i],
            ls == lines_of(output@),
            name_chars@ == name@,
            arg_chars@ == arg@,
            cmd_prefix@ == command_prefix(),
            (pids@, found) == scan_first_arg(ls.take(k as int), name@, arg@),
        decreases lines@.len() - k,
    {
        let line = &lines[k];
        assert(ls.take(k + 1).drop_last() =~= ls.take(k as int));
        assert(ls.take(k + 1).last() == line@);
        let matched = if starts_with(line, &cmd_prefix) {
            let cmd = command_text(line, cmd_prefix.len());
            first_arg_match_exec(&cmd, &name_chars, &arg_chars)
        } else {
            false
        };
        found = scan_line_exec(&mut pids, found, line, matched);
        k = k + 1;
    }
    assert(ls.take(k as int) =~= ls);
    pids
}

} // verus!
