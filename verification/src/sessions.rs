//! Windows sessions offered to a connecting peer: the physical console
//! first, then the sessions of the station list (`type:sid,` items), each
//! session once, named after its type and user.

use vstd::prelude::*;
use crate::text::{chars_of, parse_u32, parse_unsigned, push_all, slice_chars, string_of, trim, trim_spec};
use crate::win_focus::seq_eq;

verus! {

/// Number of leading `c`.
pub open spec fn lead_char(s: Seq<char>, c: char) -> nat
    decreases s.len(),
{
    if s.len() > 0 && s[0] == c {
        1 + lead_char(s.drop_first(), c)
    } else {
        0
    }
}

/// Number of trailing `c`.
pub open spec fn trail_char(s: Seq<char>, c: char) -> nat
    decreases s.len(),
{
    if s.len() > 0 && s.last() == c {
        1 + trail_char(s.drop_last(), c)
    } else {
        0
    }
}

/// `str::trim_matches(c)` for one character `c`.
pub open spec fn trim_char_spec(s: Seq<char>, c: char) -> Seq<char> {
    let t = s.skip(lead_char(s, c) as int);
    t.take(t.len() - trail_char(t, c))
}

proof fn lemma_lead_char(s: Seq<char>, c: char, i: int)
    requires
        0 <= i <= s.len(),
        forall|k: int| 0 <= k < i ==> #[trigger] s[k] == c,
        i == s.len() || s[i] != c,
    ensures
        lead_char(s, c) == i,
    decreases i,
{
    if i > 0 {
        let t = s.drop_first();
        assert forall|k: int| 0 <= k < i - 1 implies #[trigger] t[k] == c by {
            assert(t[k] == s[k + 1]);
        }
        if i - 1 < t.len() {
            assert(t[i - 1] == s[i]);
        }
        lemma_lead_char(t, c, i - 1);
    }
}

pub proof fn lemma_trail_char(s: Seq<char>, c: char, j: int)
    requires
        0 <= j <= s.len(),
        forall|k: int| j <= k < s.len() ==> #[trigger] s[k] == c,
        j == 0 || s[j - 1] != c,
    ensures
        trail_char(s, c) == s.len() - j,
    decreases s.len() - j,
{
    if j < s.len() {
        let t = s.drop_last();
        assert forall|k: int| j <= k < t.len() implies #[trigger] t[k] == c by {
            assert(t[k] == s[k]);
        }
        if j > 0 {
            assert(t[j - 1] == s[j - 1]);
        }
        lemma_trail_char(t, c, j);
    }
}

/// `str::trim_matches(c)` on a character sequence.
pub fn trim_char(s: &[char], c: char) -> (r: Vec<char>)
    ensures
        r@ == trim_char_spec(s@, c),
{
    let n = s.len();
    let mut i: usize = 0;
    while i < n && s[i] == c
        invariant
            n == s@.len(),
            i <= n,
            forall|k: int| 0 <= k < i ==> #[trigger] s@[k] == c,
        decreases n - i,
    {
        i = i + 1;
    }
    proof {
        lemma_lead_char(s@, c, i as int);
    }
    let mut j: usize = n;
    while j > i && s[j - 1] == c
        invariant
            n == s@.len(),
            i <= j <= n,
            forall|k: int| j <= k < n ==> #[trigger] s@[k] == c,
        decreases j,
    {
        j = j - 1;
    }
    let ghost t = s@.skip(i as int);
    proof {
        assert forall|k: int| (j - i) <= k < t.len() implies #[trigger] t[k] == c by {
            assert(t[k] == s@[k + i]);
        }
        if j - i > 0 {
            assert(t[j - i - 1] == s@[j - 1]);
        }
        lemma_trail_char(t, c, j - i);
    }
    let r = slice_chars(s, i, j);
    assert(r@ =~= trim_char_spec(s@, c));
    r
}

/// The parts of `s` between the separators `c`, the current part so far
/// being `cur` (`str::split` with a character: always at least one part).
pub open spec fn split_from(s: Seq<char>, c: char, cur: Seq<char>) -> Seq<Seq<char>>
    decreases s.len(),
{
    if s.len() == 0 {
        seq![cur]
    } else if s[0] == c {
        seq![cur] + split_from(s.drop_first(), c, seq![])
    } else {
        split_from(s.drop_first(), c, cur.push(s[0]))
    }
}

pub open spec fn split_on(s: Seq<char>, c: char) -> Seq<Seq<char>> {
    split_from(s, c, seq![])
}

/// `str::split(c)` on a character sequence.
pub fn split_on_char(s: &[char], c: char) -> (r: Vec<Vec<char>>)
    ensures
        r@.len() == split_on(s@, c).len(),
        forall|i: int| 0 <= i < r@.len() ==> #[trigger] r@[i]@ == split_on(s@, c)[i],
{
    let mut r: Vec<Vec<char>> = Vec::new();
    let mut cur: Vec<char> = Vec::new();
    let mut i: usize = 0;
    let ghost mut done: Seq<Seq<char>> = seq![];
    assert(s@.skip(0) =~= s@);
    assert(cur@ =~= seq![]);
    assert(done + split_from(s@, c, cur@) =~= split_from(s@, c, cur@));
    while i < s.len()
        invariant
            i <= s@.len(),
            r@.len() == done.len(),
            forall|k: int| 0 <= k < r@.len() ==> #[trigger] r@[k]@ == done[k],
            split_on(s@, c) == done + split_from(s@.skip(i as int), c, cur@),
        decreases s@.len() - i,
    {
        let ghost rest = s@.skip(i as int);
        assert(rest.drop_first() =~= s@.skip(i + 1));
        if s[i] == c {
            proof {
                assert(done + split_from(rest, c, cur@) == done.push(cur@) + split_from(
                    s@.skip(i + 1),
                    c,
                    seq![],
                ));
                done = done.push(cur@);
            }
            r.push(cur);
            cur = Vec::new();
        } else {
            cur.push(s[i]);
        }
        i = i + 1;
    }
    assert(s@.skip(i as int).len() == 0);
    proof {
        done = done.push(cur@);
    }
    r.push(cur);
    assert(split_on(s@, c) =~= done);
    r
}

/// A session of the station list: its id and its station type
/// (`Console`, `RDP-Tcp#0`, ...).
pub struct StationSession {
    pub sid: u32,
    pub station: Vec<char>,
}

/// The `(sid, station type)` pairs of a station list, in order, each sid
/// once, after the sids in `seen`: items `type:sid` separated by `,`; an
/// item that is not exactly two `:`-parts or whose sid does not read as a
/// `u32` is skipped.
pub open spec fn station_entries(items: Seq<Seq<char>>, seen: Seq<u32>) -> Seq<(u32, Seq<char>)>
    decreases items.len(),
{
    if items.len() == 0 {
        seq![]
    } else {
        let prev = station_entries(items.drop_last(), seen);
        let parts = split_on(items.last(), ':');
        if parts.len() == 2 {
            match parse_unsigned(parts[1], u32::MAX as int) {
                Some(v) => if seen.contains(v as u32) || prev.map_values(
                    |e: (u32, Seq<char>)| e.0,
                ).contains(v as u32) {
                    prev
                } else {
                    prev.push((v as u32, parts[0]))
                },
                None => prev,
            }
        } else {
            prev
        }
    }
}

/// The raw station list as the system hands it over, NULs and white space
/// around it removed.
pub open spec fn station_list_text(raw: Seq<char>) -> Seq<char> {
    trim_spec(trim_char_spec(raw, '\0'))
}


fn station_entries_exec(items: &Vec<Vec<char>>, seen: &Vec<u32>) -> (r: Vec<StationSession>)
    ensures
        r@.len() == station_entries(items@.map_values(|v: Vec<char>| v@), seen@).len(),
        forall|i: int|
            0 <= i < r@.len() ==> (#[trigger] r@[i]).sid == station_entries(
                items@.map_values(|v: Vec<char>| v@),
                seen@,
            )[i].0 && r@[i].station@ == station_entries(
                items@.map_values(|v: Vec<char>| v@),
                seen@,
            )[i].1,
{
    let ghost iv = items@.map_values(|v: Vec<char>| v@);
    let mut r: Vec<StationSession> = Vec::new();
    let mut k: usize = 0;
    while k < items.len()
        invariant
            k <= items@.len(),
            iv == items@.map_values(|v: Vec<char>| v@),
            r@.len() == station_entries(iv.take(k as int), seen@).len(),
            forall|i: int|
                0 <= i < r@.len() ==> (#[trigger] r@[i]).sid == station_entries(
                    iv.take(k as int),
                    seen@,
                )[i].0 && r@[i].station@ == station_entries(iv.take(k as int), seen@)[i].1,
        decreases items@.len() - k,
    {
        let ghost prev = station_entries(iv.take(k as int), seen@);
        assert(iv.take(k + 1).drop_last() =~= iv.take(k as int));
        assert(iv.take(k + 1).last() == items@[k as int]@);
        let parts = split_on_char(&items[k], ':');
        if parts.len() == 2 {
            if let Some(v) = parse_u32(&parts[1]) {
                let mut dup = false;
                let mut j: usize = 0;
                while j < seen.len()
                    invariant
                        j <= seen@.len(),
                        dup == exists|t: int| 0 <= t < j && seen@[t] == v,
                    decreases seen@.len() - j,
                {
                    if seen[j] == v {
                        dup = true;
                    }
                    j = j + 1;
                }
                let mut q: usize = 0;
                while q < r.len()
                    invariant
                        q <= r@.len(),
                        r@.len() == prev.len(),
                        forall|i: int|
                            0 <= i < r@.len() ==> (#[trigger] r@[i]).sid == prev[i].0,
                        dup == ((exists|t: int| 0 <= t < seen@.len() && seen@[t] == v) || exists|
                            t: int,
                        |
                            0 <= t < q && prev[t].0 == v),
                    decreases r@.len() - q,
                {
                    if r[q].sid == v {
                        dup = true;
                    }
                    q = q + 1;
                }
                proof {
                    let ids = prev.map_values(|e: (u32, Seq<char>)| e.0);
                    if dup {
                        if exists|t: int| 0 <= t < seen@.len() && seen@[t] == v {
                            let t = choose|t: int| 0 <= t < seen@.len() && seen@[t] == v;
                            assert(seen@.contains(v));
                        } else {
                            let t = choose|t: int| 0 <= t < prev.len() && prev[t].0 == v;
                            assert(ids[t] == v);
                            assert(ids.contains(v));
                        }
                    } else {
                        assert(!seen@.contains(v));
                        assert(!ids.contains(v)) by {
                            if ids.contains(v) {
                                let t = choose|t: int| 0 <= t < ids.len() && ids[t] == v;
                                assert(prev[t].0 == v);
                            }
                        }
                    }
                }
                if !dup {
                    let station = slice_chars(&parts[0], 0, parts[0].len());
                    r.push(StationSession { sid: v, station });
                }
            }
        }
        k = k + 1;
    }
    assert(iv.take(k as int) =~= iv);
    r
}

/// The sessions to offer: the physical console (`console_sid`, absent
/// where it is `u32::MAX`) labelled `Console`, then the station list's
/// sessions, each sid once.
pub open spec fn session_slots_spec(raw: Seq<char>, console_sid: u32) -> Seq<(u32, Seq<char>)> {
    let console: Seq<(u32, Seq<char>)> = if console_sid != u32::MAX {
        seq![(console_sid, "Console"@)]
    } else {
        seq![]
    };
    console + station_entries(
        split_on(station_list_text(raw), ','),
        console.map_values(|e: (u32, Seq<char>)| e.0),
    )
}

/// The sessions that the raw station list and the console session id
/// give, labelled by station type.
pub fn session_slots(raw_station_list: &str, console_sid: u32) -> (r: Vec<StationSession>)
    ensures
        r@.len() == session_slots_spec(raw_station_list@, console_sid).len(),
        forall|i: int|
            0 <= i < r@.len() ==> (#[trigger] r@[i]).sid == session_slots_spec(
                raw_station_list@,
                console_sid,
            )[i].0 && r@[i].station@ == session_slots_spec(raw_station_list@, console_sid)[i].1,
{
    let raw = chars_of(raw_station_list);
    let no_nul = trim_char(&raw, '\0');
    let text = trim(&no_nul);
    let items = split_on_char(&text, ',');
    assert(items@.map_values(|v: Vec<char>| v@) =~= split_on(station_list_text(raw_station_list@), ','));
    let mut r: Vec<StationSession> = Vec::new();
    let mut seen: Vec<u32> = Vec::new();
    let ghost console: Seq<(u32, Seq<char>)> = if console_sid != u32::MAX {
        seq![(console_sid, "Console"@)]
    } else {
        seq![]
    };
    if console_sid != u32::MAX {
        r.push(StationSession { sid: console_sid, station: chars_of("Console") });
        seen.push(console_sid);
    }
    assert(seen@ =~= console.map_values(|e: (u32, Seq<char>)| e.0));
    let mut rest = station_entries_exec(&items, &seen);
    r.append(&mut rest);
    r
}


/// A session as offered to a peer.
pub struct WindowsSession {
    pub sid: u32,
    pub name: String,
}

pub open spec fn digit_char(d: int) -> char {
    if d == 0 {
        '0'
    } else if d == 1 {
        '1'
    } else if d == 2 {
        '2'
    } else if d == 3 {
        '3'
    } else if d == 4 {
        '4'
    } else if d == 5 {
        '5'
    } else if d == 6 {
        '6'
    } else if d == 7 {
        '7'
    } else if d == 8 {
        '8'
    } else {
        '9'
    }
}

/// The decimal digits of `n`, as `{}` formats an unsigned integer.
pub open spec fn decimal(n: nat) -> Seq<char>
    decreases n,
{
    if n < 10 {
        seq![digit_char(n as int)]
    } else {
        decimal(n / 10).push(digit_char((n % 10) as int))
    }
}

fn digit(d: u64) -> (c: char)
    requires
        d < 10,
    ensures
        c == digit_char(d as int),
{
    if d == 0 {
        '0'
    } else if d == 1 {
        '1'
    } else if d == 2 {
        '2'
    } else if d == 3 {
        '3'
    } else if d == 4 {
        '4'
    } else if d == 5 {
        '5'
    } else if d == 6 {
        '6'
    } else if d == 7 {
        '7'
    } else if d == 8 {
        '8'
    } else {
        '9'
    }
}

/// Appends the decimal digits of `n`.
pub fn push_decimal(v: &mut Vec<char>, n: u64)
    ensures
        final(v)@ == old(v)@ + decimal(n as nat),
    decreases n,
{
    if n >= 10 {
        push_decimal(v, n / 10);
    }
    v.push(digit(n % 10));
    assert(n < 10 ==> n % 10 == n);
}

/// A session's label with its user: `label` alone when nobody is logged on.
pub open spec fn labelled(label: Seq<char>, user: Seq<char>) -> Seq<char> {
    if user.len() == 0 {
        label
    } else {
        label + ": "@ + user
    }
}

/// How many of `s` equal `x`.
pub open spec fn count_eq(s: Seq<Seq<char>>, x: Seq<char>) -> nat
    decreases s.len(),
{
    if s.len() == 0 {
        0
    } else {
        count_eq(s.drop_last(), x) + if s.last() == x {
            1nat
        } else {
            0nat
        }
    }
}

/// The final name of session `i` among sessions named `names`: a name
/// that occurs more than once gets ` (sid = N)`, and the session this
/// process runs in gets ` (running)`.
pub open spec fn session_name(names: Seq<Seq<char>>, i: int, sid: u32, current_sid: u32) -> Seq<char> {
    let n = names[i];
    let n1 = if count_eq(names, n) > 1 {
        n + " (sid = "@ + decimal(sid as nat) + ")"@
    } else {
        n
    };
    if sid == current_sid && current_sid != 0 {
        n1 + " (running)"@
    } else {
        n1
    }
}

/// The labels with users of the given slots.
pub open spec fn slot_names(slots: Seq<StationSession>, users: Seq<String>) -> Seq<Seq<char>> {
    Seq::new(slots.len(), |i: int| labelled(slots[i].station@, users[i]@))
}

fn count_exec(names: &Vec<Vec<char>>, x: &Vec<char>) -> (n: usize)
    ensures
        n == count_eq(names@.map_values(|v: Vec<char>| v@), x@),
{
    let ghost nv = names@.map_values(|v: Vec<char>| v@);
    let mut n: usize = 0;
    let mut j: usize = 0;
    while j < names.len()
        invariant
            j <= names@.len(),
            nv == names@.map_values(|v: Vec<char>| v@),
            n == count_eq(nv.take(j as int), x@),
            n <= j,
        decreases names@.len() - j,
    {
        assert(nv.take(j + 1).drop_last() =~= nv.take(j as int));
        if seq_eq(&names[j], x) {
            n = n + 1;
        }
        j = j + 1;
    }
    assert(nv.take(j as int) =~= nv);
    n
}

/// Names the slots after their station type and logged-on user
/// (`usernames[i]` for slot `i`, empty when none), then tells apart equal
/// names by sid and marks the session this process runs in
/// (`current_sid`, 0 when unknown).
pub fn name_sessions(slots: &[StationSession], usernames: &[String], current_sid: u32) -> (r: Vec<
    WindowsSession,
>)
    requires
        usernames@.len() == slots@.len(),
    ensures
        r@.len() == slots@.len(),
        forall|i: int|
            0 <= i < r@.len() ==> (#[trigger] r@[i]).sid == slots@[i].sid && r@[i].name@
                == session_name(slot_names(slots@, usernames@), i, slots@[i].sid, current_sid),
{
    let ghost sn = slot_names(slots@, usernames@);
    let mut names: Vec<Vec<char>> = Vec::new();
    let mut k: usize = 0;
    while k < slots.len()
        invariant
            k <= slots@.len(),
            usernames@.len() == slots@.len(),
            sn == slot_names(slots@, usernames@),
            names@.len() == k,
            forall|i: int| 0 <= i < k ==> #[trigger] names@[i]@ == sn[i],
        decreases slots@.len() - k,
    {
        let mut n = slice_chars(&slots[k].station, 0, slots[k].station.len());
        let user = chars_of(usernames[k].as_str());
        if user.len() > 0 {
            let sep = chars_of(": ");
            push_all(&mut n, &sep);
            push_all(&mut n, &user);
        }
        names.push(n);
        k = k + 1;
    }
    assert(names@.map_values(|v: Vec<char>| v@) =~= sn);
    let mut r: Vec<WindowsSession> = Vec::new();
    let mut i: usize = 0;
    while i < names.len()
        invariant
            i <= names@.len(),
            names@.len() == slots@.len(),
            names@.map_values(|v: Vec<char>| v@) == sn,
            forall|t: int| 0 <= t < names@.len() ==> #[trigger] names@[t]@ == sn[t],
            r@.len() == i,
            forall|t: int|
                0 <= t < i ==> (#[trigger] r@[t]).sid == slots@[t].sid && r@[t].name@
                    == session_name(sn, t, slots@[t].sid, current_sid),
        decreases names@.len() - i,
    {
        let sid = slots[i].sid;
        let mut name = slice_chars(&names[i], 0, names[i].len());
        if count_exec(&names, &names[i]) > 1 {
            let open = chars_of(" (sid = ");
            push_all(&mut name, &open);
            push_decimal(&mut name, sid as u64);
            name.push(')');
            proof {
                reveal_strlit(")");
            }
            assert(seq![')'] == ")"@);
        }
        if sid == current_sid && current_sid != 0 {
            let running = chars_of(" (running)");
            push_all(&mut name, &running);
        }
        r.push(WindowsSession { sid, name: string_of(&name) });
        i = i + 1;
    }
    r
}

/// The slots with empty names, for a caller that does not want names.
pub fn unnamed_sessions(slots: &[StationSession]) -> (r: Vec<WindowsSession>)
    ensures
        r@.len() == slots@.len(),
        forall|i: int|
            0 <= i < r@.len() ==> (#[trigger] r@[i]).sid == slots@[i].sid && r@[i].name@.len()
                == 0,
{
    let mut r: Vec<WindowsSession> = Vec::new();
    let mut i: usize = 0;
    while i < slots.len()
        invariant
            i <= slots@.len(),
            r@.len() == i,
            forall|t: int|
                0 <= t < i ==> (#[trigger] r@[t]).sid == slots@[t].sid && r@[t].name@.len() == 0,
        decreases slots@.len() - i,
    {
        r.push(WindowsSession { sid: slots[i].sid, name: String::new() });
        i = i + 1;
    }
    r
}


proof fn lemma_station_entries_distinct(items: Seq<Seq<char>>, seen: Seq<u32>)
    ensures
        forall|i: int, j: int|
            0 <= i < j < station_entries(items, seen).len() ==> #[trigger] station_entries(
                items,
                seen,
            )[i].0 != #[trigger] station_entries(items, seen)[j].0,
        forall|i: int|
            0 <= i < station_entries(items, seen).len() ==> !seen.contains(
                #[trigger] station_entries(items, seen)[i].0,
            ),
    decreases items.len(),
{
    if items.len() > 0 {
        lemma_station_entries_distinct(items.drop_last(), seen);
        let prev = station_entries(items.drop_last(), seen);
        let cur = station_entries(items, seen);
        let parts = split_on(items.last(), ':');
        if parts.len() == 2 {
            match parse_unsigned(parts[1], u32::MAX as int) {
                Some(v) => {
                    let ids = prev.map_values(|e: (u32, Seq<char>)| e.0);
                    if !(seen.contains(v as u32) || ids.contains(v as u32)) {
                        assert forall|i: int| 0 <= i < prev.len() implies prev[i].0 != v as u32 by {
                            assert(ids[i] == prev[i].0);
                        }
                        assert(cur == prev.push((v as u32, parts[0])));
                    }
                },
                None => {},
            }
        }
    }
}

/// No session is offered twice: the slots have distinct sids.
pub proof fn law_session_sids_distinct(raw: Seq<char>, console_sid: u32)
    ensures
        forall|i: int, j: int|
            0 <= i < j < session_slots_spec(raw, console_sid).len() ==> #[trigger] session_slots_spec(
                raw,
                console_sid,
            )[i].0 != #[trigger] session_slots_spec(raw, console_sid)[j].0,
{
    let console: Seq<(u32, Seq<char>)> = if console_sid != u32::MAX {
        seq![(console_sid, "Console"@)]
    } else {
        seq![]
    };
    let seen = console.map_values(|e: (u32, Seq<char>)| e.0);
    let items = split_on(station_list_text(raw), ',');
    lemma_station_entries_distinct(items, seen);
    let tail = station_entries(items, seen);
    let all = session_slots_spec(raw, console_sid);
    assert(all == console + tail);
    assert forall|i: int, j: int| 0 <= i < j < all.len() implies #[trigger] all[i].0 != #[trigger] all[j].0 by {
        if j >= console.len() && i < console.len() {
            assert(seen[i] == all[i].0);
            assert(all[j] == tail[j - console.len()]);
            assert(!seen.contains(tail[j - console.len()].0));
        } else if i >= console.len() {
            assert(all[i] == tail[i - console.len()]);
            assert(all[j] == tail[j - console.len()]);
        }
    }
}

} // verus!
