//! Display modes as `(width, height)` pairs, as the display settings list
//! them.

use vstd::prelude::*;

verus! {

/// The modes in order of first appearance, each once (Windows lists a mode
/// once per colour depth and refresh rate).
pub open spec fn distinct_in_order(s: Seq<(i32, i32)>) -> Seq<(i32, i32)>
    decreases s.len(),
{
    if s.len() == 0 {
        seq![]
    } else {
        let p = distinct_in_order(s.drop_last());
        if p.contains(s.last()) {
            p
        } else {
            p.push(s.last())
        }
    }
}

fn same_mode(a: (i32, i32), b: (i32, i32)) -> (r: bool)
    ensures
        r == (a == b),
{
    a.0 == b.0 && a.1 == b.1
}

fn contains_mode(v: &Vec<(i32, i32)>, m: (i32, i32)) -> (r: bool)
    ensures
        r == v@.contains(m),
{
    let mut i: usize = 0;
    while i < v.len()
        invariant
            i <= v@.len(),
            forall|k: int| 0 <= k < i ==> v@[k] != m,
        decreases v@.len() - i,
    {
        if same_mode(v[i], m) {
            assert(v@[i as int] == m);
            return true;
        }
        i = i + 1;
    }
    false
}

/// The modes of a display on Windows: each `(width, height)` once, in the
/// order the system lists them.
pub fn windows_resolutions(modes: &[(i32, i32)]) -> (r: Vec<(i32, i32)>)
    ensures
        r@ == distinct_in_order(modes@),
{
    let mut r: Vec<(i32, i32)> = Vec::new();
    let mut i: usize = 0;
    while i < modes.len()
        invariant
            i <= modes@.len(),
            r@ == distinct_in_order(modes@.take(i as int)),
        decreases modes@.len() - i,
    {
        assert(modes@.take(i + 1).drop_last() =~= modes@.take(i as int));
        assert(modes@.take(i + 1).last() == modes@[i as int]);
        if !contains_mode(&r, modes[i]) {
            r.push(modes[i]);
        }
        i = i + 1;
    }
    assert(modes@.take(i as int) =~= modes@);
    r
}

/// `a` comes before `b` in the macOS order: wider first, then taller.
pub open spec fn mode_before(a: (i32, i32), b: (i32, i32)) -> bool {
    a.0 > b.0 || (a.0 == b.0 && a.1 > b.1)
}

/// Strictly descending by width, then height: sorted and free of
/// duplicates.
pub open spec fn strictly_descending(s: Seq<(i32, i32)>) -> bool {
    forall|i: int, j: int| 0 <= i < j < s.len() ==> mode_before(#[trigger] s[i], #[trigger] s[j])
}

/// The modes of width 800 or more, in order.
pub open spec fn wide_modes(s: Seq<(i32, i32)>) -> Seq<(i32, i32)>
    decreases s.len(),
{
    if s.len() == 0 {
        seq![]
    } else if s.last().0 >= 800 {
        wide_modes(s.drop_last()).push(s.last())
    } else {
        wide_modes(s.drop_last())
    }
}

/// More modes than this are thinned out to those at least 800 wide.
pub const MAX_LISTED_MODES: usize = 15;

/// The macOS list from the sorted, duplicate-free modes `sorted`.
pub open spec fn mac_listed(sorted: Seq<(i32, i32)>) -> Seq<(i32, i32)> {
    if sorted.len() > MAX_LISTED_MODES {
        wide_modes(sorted)
    } else {
        sorted
    }
}

fn insert_sorted(v: &mut Vec<(i32, i32)>, m: (i32, i32))
    requires
        strictly_descending(old(v)@),
    ensures
        strictly_descending(final(v)@),
        final(v)@.to_set() == old(v)@.to_set().insert(m),
{
    let mut p: usize = 0;
    while p < v.len() && mode_before_exec(v[p], m)
        invariant
            p <= v@.len(),
            forall|k: int| 0 <= k < p ==> mode_before(#[trigger] v@[k], m),
        decreases v@.len() - p,
    {
        p = p + 1;
    }
    if p < v.len() && same_mode(v[p], m) {
        assert(v@.to_set().insert(m) =~= v@.to_set());
        return;
    }
    let ghost old_v = v@;
    v.insert(p, m);
    assert(v@ == old_v.insert(p as int, m));
    assert forall|i: int, j: int| 0 <= i < j < v@.len() implies mode_before(
        #[trigger] v@[i],
        #[trigger] v@[j],
    ) by {
        if j < p {
            assert(v@[i] == old_v[i] && v@[j] == old_v[j]);
        } else if j == p {
            assert(v@[i] == old_v[i]);
        } else if i == p {
            assert(v@[j] == old_v[j - 1]);
            if j - 1 > p {
                assert(mode_before(old_v[p as int], old_v[j - 1]));
            }
            assert(!mode_before(old_v[p as int], m));
            assert(old_v[p as int] != m);
        } else if i < p {
            assert(v@[i] == old_v[i] && v@[j] == old_v[j - 1]);
        } else {
            assert(v@[i] == old_v[i - 1] && v@[j] == old_v[j - 1]);
        }
    }
    assert forall|x: (i32, i32)| v@.to_set().contains(x) == old_v.to_set().insert(m).contains(x) by {
        if v@.contains(x) {
            let k = choose|k: int| 0 <= k < v@.len() && v@[k] == x;
            if k < p {
                assert(old_v[k] == x);
            } else if k > p {
                assert(old_v[k - 1] == x);
            }
        }
        if old_v.contains(x) {
            let k = choose|k: int| 0 <= k < old_v.len() && old_v[k] == x;
            if k < p {
                assert(v@[k] == x);
            } else {
                assert(v@[k + 1] == x);
            }
        }
        if x == m {
            assert(v@[p as int] == m);
        }
    }
    assert(v@.to_set() =~= old_v.to_set().insert(m));
}

fn mode_before_exec(a: (i32, i32), b: (i32, i32)) -> (r: bool)
    ensures
        r == mode_before(a, b),
{
    a.0 > b.0 || (a.0 == b.0 && a.1 > b.1)
}

/// The modes of a display on macOS: sorted by width, then height, both
/// descending, each once; more than `MAX_LISTED_MODES` of them are
/// thinned out to those at least 800 pixels wide.
pub fn mac_resolutions(modes: &[(i32, i32)]) -> (r: Vec<(i32, i32)>)
    ensures
        exists|sorted: Seq<(i32, i32)>|
            strictly_descending(sorted) && sorted.to_set() == modes@.to_set() && r@ == mac_listed(
                sorted,
            ),
{
    let mut sorted: Vec<(i32, i32)> = Vec::new();
    let mut i: usize = 0;
    while i < modes.len()
        invariant
            i <= modes@.len(),
            strictly_descending(sorted@),
            sorted@.to_set() == modes@.take(i as int).to_set(),
        decreases modes@.len() - i,
    {
        let ghost before = modes@.take(i as int);
        insert_sorted(&mut sorted, modes[i]);
        assert(modes@.take(i + 1) =~= before.push(modes@[i as int]));
        assert(before.push(modes@[i as int]).to_set() =~= before.to_set().insert(modes@[i as int]))
            by {
            assert forall|x: (i32, i32)| before.push(modes@[i as int]).contains(x) == before.to_set().insert(modes@[i as int]).contains(x) by {
                if before.push(modes@[i as int]).contains(x) {
                    let k = choose|k: int| 0 <= k < before.len() + 1 && before.push(modes@[i as int])[k] == x;
                    if k < before.len() {
                        assert(before[k] == x);
                    }
                }
                if before.contains(x) {
                    let k = choose|k: int| 0 <= k < before.len() && before[k] == x;
                    assert(before.push(modes@[i as int])[k] == x);
                }
                if x == modes@[i as int] {
                    assert(before.push(modes@[i as int])[before.len() as int] == x);
                }
            }
        }
        i = i + 1;
    }
    assert(modes@.take(i as int) =~= modes@);
    if sorted.len() <= MAX_LISTED_MODES {
        return sorted;
    }
    let mut r: Vec<(i32, i32)> = Vec::new();
    let mut k: usize = 0;
    while k < sorted.len()
        invariant
            k <= sorted@.len(),
            r@ == wide_modes(sorted@.take(k as int)),
        decreases sorted@.len() - k,
    {
        assert(sorted@.take(k + 1).drop_last() =~= sorted@.take(k as int));
        assert(sorted@.take(k + 1).last() == sorted@[k as int]);
        if sorted[k].0 >= 800 {
            r.push(sorted[k]);
        }
        k = k + 1;
    }
    assert(sorted@.take(k as int) =~= sorted@);
    r
}


/// A list sorted strictly descending is fixed by the modes it holds: two
/// such lists with the same modes are equal (so the macOS list does not
/// depend on the order the system lists modes in).
pub proof fn law_descending_list_unique(a: Seq<(i32, i32)>, b: Seq<(i32, i32)>)
    requires
        strictly_descending(a),
        strictly_descending(b),
        a.to_set() == b.to_set(),
    ensures
        a == b,
    decreases a.len(),
{
    if a.len() == 0 {
        if b.len() > 0 {
            assert(b.to_set().contains(b[0]));
        }
        assert(a =~= b);
    } else {
        assert(a.to_set().contains(a[0]));
        assert(b.contains(a[0]));
        let j = choose|j: int| 0 <= j < b.len() && b[j] == a[0];
        assert(b.to_set().contains(b[0]));
        assert(a.contains(b[0]));
        let i = choose|i: int| 0 <= i < a.len() && a[i] == b[0];
        if j > 0 {
            assert(mode_before(b[0], b[j]));
            if i > 0 {
                assert(mode_before(a[0], a[i]));
            }
        }
        assert(a[0] == b[0]);
        let a1 = a.drop_first();
        let b1 = b.drop_first();
        assert forall|x: (i32, i32)| a1.to_set().contains(x) == b1.to_set().contains(x) by {
            if a1.contains(x) {
                let k = choose|k: int| 0 <= k < a1.len() && a1[k] == x;
                assert(a[k + 1] == x);
                assert(mode_before(a[0], a[k + 1]));
                assert(a.to_set().contains(x));
                assert(b.contains(x));
                let q = choose|q: int| 0 <= q < b.len() && b[q] == x;
                if q == 0 {
                    assert(false);
                }
                assert(b1[q - 1] == x);
            }
            if b1.contains(x) {
                let k = choose|k: int| 0 <= k < b1.len() && b1[k] == x;
                assert(b[k + 1] == x);
                assert(mode_before(b[0], b[k + 1]));
                assert(b.to_set().contains(x));
                assert(a.contains(x));
                let q = choose|q: int| 0 <= q < a.len() && a[q] == x;
                if q == 0 {
                    assert(false);
                }
                assert(a1[q - 1] == x);
            }
        }
        assert(a1.to_set() =~= b1.to_set());
        assert forall|x: int, y: int| 0 <= x < y < a1.len() implies mode_before(#[trigger] a1[x], #[trigger] a1[y]) by {
            assert(mode_before(a[x + 1], a[y + 1]));
        }
        assert forall|x: int, y: int| 0 <= x < y < b1.len() implies mode_before(#[trigger] b1[x], #[trigger] b1[y]) by {
            assert(mode_before(b[x + 1], b[y + 1]));
        }
        law_descending_list_unique(a1, b1);
        assert(a =~= b) by {
            assert forall|k: int| 0 <= k < a.len() implies a[k] == b[k] by {
                if k > 0 {
                    assert(a[k] == a1[k - 1]);
                    assert(b[k] == b1[k - 1]);
                }
            }
        }
    }
}

} // verus!
