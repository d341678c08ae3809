use vstd::prelude::*;
use crate::focus_hint::EditableFocusHintInfo;
use crate::geometry::{
    abs_int, area, bottom_of, center, center_fits, clamp_i32, clamp_int, contains_point, has_area,
    intersection, max_int, min_int, normalize_rect_to_display, point_in_rect, rect_area,
    rect_center, rect_contains_rect_with_margin, rect_has_area, rect_intersection, right_of,
    to_display, to_display_fits, DisplayInfo, Rect,
};
use crate::text::{ascii_lower, chars_of, contains, contains_seq, to_ascii_lowercase};
use crate::win_focus::seq_eq;

verus! {

/// macOS: the display whose closed area `[x, x + w] x [y, y + h]` holds the
/// point.
pub open spec fn mac_display_holds(d: DisplayInfo, x: int, y: int) -> bool {
    d.x <= x <= d.x + d.width && d.y <= y <= d.y + d.height
}

pub fn point_in_display(display: &DisplayInfo, x: i32, y: i32) -> (b: bool)
    ensures
        b == mac_display_holds(*display, x as int, y as int),
{
    let right = display.x as i64 + display.width as i64;
    let bottom = display.y as i64 + display.height as i64;
    x >= display.x && x as i64 <= right && y >= display.y && y as i64 <= bottom
}

pub open spec fn mac_first_display_from(ds: Seq<DisplayInfo>, x: int, y: int, k: int) -> Option<int>
    decreases ds.len() - k,
{
    if k < 0 || k >= ds.len() {
        None
    } else if mac_display_holds(ds[k], x, y) {
        Some(k)
    } else {
        mac_first_display_from(ds, x, y, k + 1)
    }
}

proof fn lemma_mac_first_in_range(ds: Seq<DisplayInfo>, x: int, y: int, k: int)
    requires
        k >= 0,
    ensures
        mac_first_display_from(ds, x, y, k) matches Some(i) ==> k <= i < ds.len(),
    decreases ds.len() - k,
{
    if k < ds.len() && !mac_display_holds(ds[k], x, y) {
        lemma_mac_first_in_range(ds, x, y, k + 1);
    }
}

/// The index of the first display holding the point (closed bounds).
pub fn find_display_idx_for_point(displays: &[DisplayInfo], x: i32, y: i32) -> (r: Option<usize>)
    ensures
        match r {
            Some(i) => mac_first_display_from(displays@, x as int, y as int, 0) == Some(i as int)
                && i < displays@.len(),
            None => mac_first_display_from(displays@, x as int, y as int, 0) is None,
        },
{
    let mut i: usize = 0;
    while i < displays.len()
        invariant
            i <= displays@.len(),
            mac_first_display_from(displays@, x as int, y as int, 0) == mac_first_display_from(
                displays@,
                x as int,
                y as int,
                i as int,
            ),
        decreases displays@.len() - i,
    {
        if point_in_display(&displays[i], x, y) {
            return Some(i);
        }
        i = i + 1;
    }
    None
}

pub open spec fn mac_display_of_rect(ds: Seq<DisplayInfo>, r: Rect) -> Option<int> {
    match center(r) {
        Some(c) => mac_first_display_from(ds, c.0 as int, c.1 as int, 0),
        None => None,
    }
}

pub open spec fn mac_hint_display(ds: Seq<DisplayInfo>, h: EditableFocusHintInfo) -> Option<int> {
    if mac_display_of_rect(ds, h.editor) is Some {
        mac_display_of_rect(ds, h.editor)
    } else if mac_display_of_rect(ds, h.pane) is Some {
        mac_display_of_rect(ds, h.pane)
    } else if mac_display_of_rect(ds, h.window) is Some {
        mac_display_of_rect(ds, h.window)
    } else {
        mac_display_of_rect(ds, h.caret)
    }
}

/// The hint made relative to the display chosen by editor, pane, window and
/// caret centers, in that order; unchanged when no display holds them.
pub open spec fn mac_normalize_spec(ds: Seq<DisplayInfo>, h: EditableFocusHintInfo) -> EditableFocusHintInfo {
    match mac_hint_display(ds, h) {
        Some(i) => EditableFocusHintInfo {
            caret: to_display(h.caret, ds[i]),
            editor: to_display(h.editor, ds[i]),
            window: to_display(h.window, ds[i]),
            pane: to_display(h.pane, ds[i]),
            display_idx: i as i32,
            ..h
        },
        None => h,
    }
}

pub open spec fn mac_normalize_ok(ds: Seq<DisplayInfo>, h: EditableFocusHintInfo) -> bool {
    center_fits(h.editor) && center_fits(h.pane) && center_fits(h.window) && center_fits(h.caret)
        && (mac_hint_display(ds, h) matches Some(i) ==> to_display_fits(h.caret, ds[i])
        && to_display_fits(h.editor, ds[i]) && to_display_fits(h.window, ds[i]) && to_display_fits(
        h.pane,
        ds[i],
    ))
}

fn mac_display_for_rect(displays: &[DisplayInfo], r: (i32, i32, i32, i32)) -> (o: Option<usize>)
    requires
        center_fits(r),
    ensures
        match o {
            Some(i) => mac_display_of_rect(displays@, r) == Some(i as int) && i < displays@.len(),
            None => mac_display_of_rect(displays@, r) is None,
        },
{
    match rect_center(r) {
        Some((cx, cy)) => find_display_idx_for_point(displays, cx, cy),
        None => None,
    }
}

pub fn normalize_editable_focus_hint_to_display(
    displays: &[DisplayInfo],
    hint: EditableFocusHintInfo,
) -> (r: EditableFocusHintInfo)
    requires
        mac_normalize_ok(displays@, hint),
    ensures
        r == mac_normalize_spec(displays@, hint),
{
    let mut idx = mac_display_for_rect(displays, hint.editor);
    if idx.is_none() {
        idx = mac_display_for_rect(displays, hint.pane);
    }
    if idx.is_none() {
        idx = mac_display_for_rect(displays, hint.window);
    }
    if idx.is_none() {
        idx = mac_display_for_rect(displays, hint.caret);
    }
    match idx {
        None => hint,
        Some(i) => {
            let d = &displays[i];
            EditableFocusHintInfo {
                caret: normalize_rect_to_display(hint.caret, d),
                editor: normalize_rect_to_display(hint.editor, d),
                window: normalize_rect_to_display(hint.window, d),
                pane: normalize_rect_to_display(hint.pane, d),
                display_idx: i as i32,
                ..hint
            }
        },
    }
}

/// The local identity of a window: the owner's process id in the high 32
/// bits, the window number in the low 32 bits.
pub open spec fn window_id_spec(pid: i32, window_number: i32) -> isize {
    (((pid as i64) << 32u64) | (window_number as u32 as i64)) as isize
}

pub fn make_foreground_window_id(pid: i32, window_number: i32) -> (r: isize)
    ensures
        r == window_id_spec(pid, window_number),
{
    (((pid as i64) << 32u64) | (window_number as u32 as i64)) as isize
}

/// The process id and window number can be read back from a window
/// identity (on 64-bit targets, where the identity is not truncated).
pub proof fn law_window_id_decodes(pid: i32, window_number: i32)
    ensures
        ((((pid as i64) << 32u64) | (window_number as u32 as i64)) >> 32u64) as i32 == pid,
        ((((pid as i64) << 32u64) | (window_number as u32 as i64)) & 0xffff_ffffi64) as u32
            == window_number as u32,
{
    assert(((((pid as i64) << 32u64) | (window_number as u32 as i64)) >> 32u64) as i32 == pid)
        by (bit_vector);
    assert(((((pid as i64) << 32u64) | (window_number as u32 as i64)) & 0xffff_ffffi64) as u32
        == window_number as u32) by (bit_vector);
}

/// An on-screen window of the frontmost application.
#[derive(Clone, Copy, Debug, PartialEq, Eq)]
pub struct MacWindowCandidate {
    pub rect: (i32, i32, i32, i32),
    pub foreground_hwnd: isize,
}

/// One entry of the on-screen window list, as far as it could be read
/// (the bounds rounded to whole points).
#[derive(Clone, Copy, Debug, PartialEq, Eq)]
pub struct ListedWindow {
    pub owner_pid: Option<i32>,
    pub layer: Option<i32>,
    pub bounds: Option<(i32, i32, i32, i32)>,
    pub window_number: Option<i32>,
}

/// A listed window is a candidate when it belongs to the frontmost
/// application, lies in the normal layer (or tells no layer) and has
/// bounds with an area; it is identified by its owner and its number (0
/// when it tells none).
pub open spec fn listed_candidate(w: ListedWindow, frontmost_pid: i32) -> Option<MacWindowCandidate> {
    if w.owner_pid != Some(frontmost_pid) {
        None
    } else if w.layer is Some && w.layer != Some(0i32) {
        None
    } else {
        match w.bounds {
            Some(r) => if has_area(r) {
                Some(
                    MacWindowCandidate {
                        rect: r,
                        foreground_hwnd: window_id_spec(
                            frontmost_pid,
                            match w.window_number {
                                Some(n) => n,
                                None => 0,
                            },
                        ),
                    },
                )
            } else {
                None
            },
            None => None,
        }
    }
}

/// The candidates among the listed windows, in the list's order.
pub open spec fn frontmost_candidates_spec(ws: Seq<ListedWindow>, frontmost_pid: i32) -> Seq<MacWindowCandidate>
    decreases ws.len(),
{
    if ws.len() == 0 {
        seq![]
    } else {
        let r = frontmost_candidates_spec(ws.drop_last(), frontmost_pid);
        match listed_candidate(ws.last(), frontmost_pid) {
            Some(c) => r.push(c),
            None => r,
        }
    }
}

pub fn frontmost_window_candidates(ws: &[ListedWindow], frontmost_pid: i32) -> (r: Vec<MacWindowCandidate>)
    ensures
        r@ == frontmost_candidates_spec(ws@, frontmost_pid),
{
    let mut r: Vec<MacWindowCandidate> = Vec::new();
    let mut i: usize = 0;
    while i < ws.len()
        invariant
            i <= ws@.len(),
            r@ == frontmost_candidates_spec(ws@.take(i as int), frontmost_pid),
        decreases ws@.len() - i,
    {
        assert(ws@.take(i + 1).drop_last() =~= ws@.take(i as int));
        let w = ws[i];
        let normal_layer = match w.layer {
            Some(l) => l == 0,
            None => true,
        };
        if w.owner_pid == Some(frontmost_pid) && normal_layer {
            if let Some(rect) = w.bounds {
                if rect_has_area(rect) {
                    let number = match w.window_number {
                        Some(n) => n,
                        None => 0,
                    };
                    r.push(
                        MacWindowCandidate {
                            rect,
                            foreground_hwnd: make_foreground_window_id(frontmost_pid, number),
                        },
                    );
                }
            }
        }
        i = i + 1;
    }
    assert(ws@.take(i as int) =~= ws@);
    r
}

/// A named on-screen window, with what is known of its owner.
pub struct NamedWindowOwner {
    /// Whether the window belongs to this process.
    pub is_self: bool,
    /// The owner's executable name, when the owner is an application this
    /// process may inspect.
    pub exe_name: Option<String>,
}

/// Screen recording is allowed (by the older test) when a window of
/// another inspectable application than the Dock, which draws the desktop
/// picture, shows its name.
pub open spec fn other_app_window_named_spec(ws: Seq<NamedWindowOwner>) -> bool {
    exists|i: int|
        0 <= i < ws.len() && !(#[trigger] ws[i]).is_self && ws[i].exe_name is Some
            && ws[i].exe_name.unwrap()@ != "Dock"@
}

pub fn other_app_window_named(ws: &[NamedWindowOwner]) -> (b: bool)
    ensures
        b == other_app_window_named_spec(ws@),
{
    let dock = chars_of("Dock");
    let mut i: usize = 0;
    while i < ws.len()
        invariant
            i <= ws@.len(),
            dock@ == "Dock"@,
            forall|j: int|
                0 <= j < i ==> !(!(#[trigger] ws@[j]).is_self && ws@[j].exe_name is Some
                    && ws@[j].exe_name.unwrap()@ != "Dock"@),
        decreases ws@.len() - i,
    {
        if !ws[i].is_self {
            if let Some(name) = &ws[i].exe_name {
                if !seq_eq(&chars_of(name.as_str()), &dock) {
                    return true;
                }
            }
        }
        i = i + 1;
    }
    false
}

/// Insets `(ix, iy)` limited to half the side less one pixel.
pub open spec fn inset_spec(r: Rect, ix: int, iy: int) -> Option<Rect> {
    if !has_area(r) {
        None
    } else {
        let x = min_int(ix, (r.2 - 1) / 2);
        let y = min_int(iy, (r.3 - 1) / 2);
        let inner = ((r.0 + x) as i32, (r.1 + y) as i32, (r.2 - 2 * x) as i32, (r.3 - 2 * y) as i32);
        if has_area(inner) {
            Some(inner)
        } else {
            None
        }
    }
}

/// The rectangle shrunk by `inset_x` and `inset_y` on each side, each inset
/// limited to half the side less one pixel.
pub fn inset_rect(rect: (i32, i32, i32, i32), inset_x: i32, inset_y: i32) -> (r: Option<(i32, i32, i32, i32)>)
    requires
        0 <= inset_x <= 0x1000,
        0 <= inset_y <= 0x1000,
        crate::geometry::rect_ok(rect),
    ensures
        r == inset_spec(rect, inset_x as int, inset_y as int),
{
    if !rect_has_area(rect) {
        return None;
    }
    let ix = if inset_x <= (rect.2 - 1) / 2 {
        inset_x
    } else {
        (rect.2 - 1) / 2
    };
    let iy = if inset_y <= (rect.3 - 1) / 2 {
        inset_y
    } else {
        (rect.3 - 1) / 2
    };
    let inner = (rect.0 + ix, rect.1 + iy, rect.2 - ix * 2, rect.3 - iy * 2);
    if rect_has_area(inner) {
        Some(inner)
    } else {
        None
    }
}

/// A 240 x 40 editor (smaller in small windows) centered on the cursor and
/// kept inside the window inset by 8 pixels; only for a cursor inside the
/// window.
pub open spec fn mac_synth_spec(window: Rect, cursor: (i32, i32)) -> Option<Rect> {
    if !has_area(window) || !contains_point(window, cursor.0 as int, cursor.1 as int) {
        None
    } else {
        match inset_spec(window, 8, 8) {
            None => None,
            Some(content) => {
                let tw = min_int(240, content.2 as int);
                let th = min_int(40, content.3 as int);
                let max_left = content.0 + content.2 - tw;
                let max_top = content.1 + content.3 - th;
                Some(
                    (
                        clamp_int(cursor.0 - tw / 2, content.0 as int, max_left) as i32,
                        clamp_int(cursor.1 - th / 2, content.1 as int, max_top) as i32,
                        tw as i32,
                        th as i32,
                    ),
                )
            },
        }
    }
}

pub fn synth_editor_rect_from_cursor(window: (i32, i32, i32, i32), cursor: (i32, i32)) -> (r: Option<(i32, i32, i32, i32)>)
    requires
        crate::geometry::rect_ok(window),
    ensures
        r == mac_synth_spec(window, cursor),
        r matches Some(e) ==> window.0 <= e.0 && window.1 <= e.1 && e.0 + e.2 <= window.0 + window.2
            && e.1 + e.3 <= window.1 + window.3 && e.2 > 0 && e.3 > 0,
{
    if !rect_has_area(window) || !point_in_rect(window, cursor.0, cursor.1) {
        return None;
    }
    let content = match inset_rect(window, 8, 8) {
        Some(c) => c,
        None => return None,
    };
    let tw: i32 = if 240 <= content.2 {
        240
    } else {
        content.2
    };
    let th: i32 = if 40 <= content.3 {
        40
    } else {
        content.3
    };
    let max_left = content.0 + content.2 - tw;
    let max_top = content.1 + content.3 - th;
    Some(
        (
            clamp_i32(cursor.0 - tw / 2, content.0, max_left),
            clamp_i32(cursor.1 - th / 2, content.1, max_top),
            tw,
            th,
        ),
    )
}

/// Whether a candidate window is eligible for a target rectangle: it has an
/// area and holds the target's center or overlaps it.
pub open spec fn eligible(c: MacWindowCandidate, target: Rect) -> bool {
    has_area(c.rect) && ((center(target) matches Some(p) && contains_point(c.rect, p.0 as int, p.1 as int))
        || intersection(c.rect, target) is Some)
}

/// The ranking key of a candidate: center match, overlap area, then the
/// smaller origin distance and size difference.
pub open spec fn key_of(c: MacWindowCandidate, target: Rect) -> (bool, int, int, int) {
    let center_match = center(target) matches Some(p) && contains_point(c.rect, p.0 as int, p.1 as int);
    let overlap = match intersection(c.rect, target) {
        Some(r) => area(r),
        None => 0,
    };
    (
        center_match,
        overlap,
        -(abs_int(c.rect.0 - target.0) + abs_int(c.rect.1 - target.1)),
        -(abs_int(c.rect.2 - target.2) + abs_int(c.rect.3 - target.3)),
    )
}

/// Lexicographic order of ranking keys (`false < true`).
pub open spec fn key_lt(a: (bool, int, int, int), b: (bool, int, int, int)) -> bool {
    (!a.0 && b.0) || (a.0 == b.0 && (a.1 < b.1 || (a.1 == b.1 && (a.2 < b.2 || (a.2 == b.2 && a.3
        < b.3)))))
}

/// `choose_window_candidate` picks `i`: eligible, with the greatest key,
/// and the last of those with that key.
pub open spec fn chosen(cs: Seq<MacWindowCandidate>, target: Rect, i: int) -> bool {
    &&& 0 <= i < cs.len()
    &&& eligible(cs[i], target)
    &&& forall|j: int| 0 <= j < cs.len() && eligible(cs[j], target) ==> !key_lt(key_of(cs[i], target), key_of(#[trigger] cs[j], target))
    &&& forall|j: int| i < j < cs.len() && eligible(cs[j], target) ==> key_lt(key_of(#[trigger] cs[j], target), key_of(cs[i], target))
}

pub open spec fn window_inputs_ok(cs: Seq<MacWindowCandidate>, target: Rect) -> bool {
    crate::geometry::rect_ok(target) && forall|i: int| 0 <= i < cs.len() ==> crate::geometry::rect_ok(#[trigger] cs[i].rect)
}

fn abs_i64(v: i64) -> (r: i64)
    requires
        v > i64::MIN,
    ensures
        r == abs_int(v as int),
{
    if v < 0 {
        -v
    } else {
        v
    }
}

fn key_exec(c: &MacWindowCandidate, target: (i32, i32, i32, i32)) -> (k: (bool, i64, i64, i64))
    requires
        crate::geometry::rect_ok(c.rect),
        crate::geometry::rect_ok(target),
    ensures
        k.0 == key_of(*c, target).0,
        k.1 as int == key_of(*c, target).1,
        k.2 as int == key_of(*c, target).2,
        k.3 as int == key_of(*c, target).3,
{
    let center_match = match rect_center(target) {
        Some((x, y)) => point_in_rect(c.rect, x, y),
        None => false,
    };
    let overlap = match rect_intersection(c.rect, target) {
        Some(r) => rect_area(r),
        None => 0,
    };
    let origin_delta = abs_i64(c.rect.0 as i64 - target.0 as i64) + abs_i64(
        c.rect.1 as i64 - target.1 as i64,
    );
    let size_delta = abs_i64(c.rect.2 as i64 - target.2 as i64) + abs_i64(
        c.rect.3 as i64 - target.3 as i64,
    );
    (center_match, overlap, -origin_delta, -size_delta)
}

fn key_less(a: (bool, i64, i64, i64), b: (bool, i64, i64, i64)) -> (r: bool)
    ensures
        r == key_lt((a.0, a.1 as int, a.2 as int, a.3 as int), (b.0, b.1 as int, b.2 as int, b.3 as int)),
{
    (!a.0 && b.0) || (a.0 == b.0 && (a.1 < b.1 || (a.1 == b.1 && (a.2 < b.2 || (a.2 == b.2 && a.3
        < b.3)))))
}

/// Picks the window of the frontmost application that matches a target
/// rectangle best: eligible windows hold the target's center or overlap it;
/// the greatest key (center match, overlap, nearness of origin, nearness of
/// size) wins, the last one on ties.
pub fn choose_window_candidate(
    candidates: &[MacWindowCandidate],
    target: (i32, i32, i32, i32),
) -> (r: Option<MacWindowCandidate>)
    requires
        window_inputs_ok(candidates@, target),
    ensures
        match r {
            Some(c) => has_area(target) && exists|i: int| chosen(candidates@, target, i) && candidates@[i] == c,
            None => !has_area(target) || forall|j: int| 0 <= j < candidates@.len() ==> !eligible(
                #[trigger] candidates@[j],
                target,
            ),
        },
{
    if !rect_has_area(target) {
        return None;
    }
    let mut best: Option<(usize, (bool, i64, i64, i64))> = None;
    let mut i: usize = 0;
    while i < candidates.len()
        invariant
            i <= candidates@.len(),
            window_inputs_ok(candidates@, target),
            has_area(target),
            match best {
                Some((b, k)) => {
                    &&& b < i
                    &&& eligible(candidates@[b as int], target)
                    &&& k.0 == key_of(candidates@[b as int], target).0
                    &&& k.1 as int == key_of(candidates@[b as int], target).1
                    &&& k.2 as int == key_of(candidates@[b as int], target).2
                    &&& k.3 as int == key_of(candidates@[b as int], target).3
                    &&& forall|j: int| 0 <= j < i && eligible(candidates@[j], target) ==> !key_lt(key_of(candidates@[b as int], target), key_of(#[trigger] candidates@[j], target))
                    &&& forall|j: int| b < j < i && eligible(candidates@[j], target) ==> key_lt(key_of(#[trigger] candidates@[j], target), key_of(candidates@[b as int], target))
                },
                None => forall|j: int| 0 <= j < i ==> !eligible(#[trigger] candidates@[j], target),
            },
        decreases candidates@.len() - i,
    {
        let c = &candidates[i];
        if rect_has_area(c.rect) {
            let k = key_exec(c, target);
            if k.0 || k.1 > 0 {
                proof {
                    assert(eligible(candidates@[i as int], target)) by {
                        if !k.0 {
                            assert(intersection(c.rect, target) is Some);
                        }
                    }
                }
                let replace = match best {
                    Some((_, bk)) => !key_less(k, bk),
                    None => true,
                };
                if replace {
                    best = Some((i, k));
                }
            } else {
                proof {
                    assert(!eligible(candidates@[i as int], target)) by {
                        if let Some(r) = intersection(c.rect, target) {
                            assert(area(r) > 0) by (nonlinear_arith)
                                requires
                                    r.2 > 0,
                                    r.3 > 0,
                                    area(r) == max_int(r.2 as int, 0) * max_int(r.3 as int, 0);
                        }
                    }
                }
            }
        }
        i = i + 1;
    }
    match best {
        Some((b, _)) => Some(candidates[b]),
        None => None,
    }
}

/// The first window, in the window server's front-to-back order, that holds
/// the point.
pub fn find_window_candidate_containing_point(
    candidates: &[MacWindowCandidate],
    x: i32,
    y: i32,
) -> (r: Option<MacWindowCandidate>)
    ensures
        match r {
            Some(c) => exists|i: int| 0 <= i < candidates@.len() && candidates@[i] == c && contains_point(c.rect, x as int, y as int) && forall|j: int| 0 <= j < i ==> !contains_point(#[trigger] candidates@[j].rect, x as int, y as int),
            None => forall|j: int| 0 <= j < candidates@.len() ==> !contains_point(#[trigger] candidates@[j].rect, x as int, y as int),
        },
{
    let mut i: usize = 0;
    while i < candidates.len()
        invariant
            i <= candidates@.len(),
            forall|j: int| 0 <= j < i ==> !contains_point(#[trigger] candidates@[j].rect, x as int, y as int),
        decreases candidates@.len() - i,
    {
        if point_in_rect(candidates[i].rect, x, y) {
            return Some(candidates[i]);
        }
        i = i + 1;
    }
    None
}

/// Ranks an accessibility role as pane candidate: documents, web areas and
/// scroll areas first, then split groups, groups and layout areas.
pub open spec fn role_rank_spec(role: Seq<char>) -> i32 {
    let r = ascii_lower(role);
    if r == "axdocument"@ || r == "axwebarea"@ || r == "axscrollarea"@ {
        3
    } else if r == "axsplitgroup"@ || r == "axgroup"@ || r == "axlayoutarea"@ {
        2
    } else {
        1
    }
}

pub fn pane_candidate_role_rank(role: &str) -> (r: i32)
    ensures
        r == role_rank_spec(role@),
{
    let r = to_ascii_lowercase(&crate::text::chars_of(role));
    if seq_eq(&r, &crate::text::chars_of("axdocument")) || seq_eq(&r, &crate::text::chars_of("axwebarea"))
        || seq_eq(&r, &crate::text::chars_of("axscrollarea")) {
        3
    } else if seq_eq(&r, &crate::text::chars_of("axsplitgroup")) || seq_eq(&r, &crate::text::chars_of("axgroup"))
        || seq_eq(&r, &crate::text::chars_of("axlayoutarea")) {
        2
    } else {
        1
    }
}

/// Editability and content kind of a focused accessibility element: an
/// explicit non-editable attribute wins; text fields, search fields, combo
/// boxes and secure fields are single line; text areas are multi line (code
/// when the role or subrole says code, editor or source); explicitly
/// editable documents and web areas are multi line (documents and code-like
/// ones code); other explicitly editable elements are multi line or code.
pub open spec fn ax_classify_spec(role: Seq<char>, subrole: Option<Seq<char>>, editable_attr: Option<bool>) -> (bool, i32) {
    let r = ascii_lower(role);
    let s = ascii_lower(
        match subrole {
            Some(v) => v,
            None => Seq::<char>::empty(),
        },
    );
    let code_like = contains_seq(r, "code"@) || contains_seq(s, "code"@) || contains_seq(s, "editor"@)
        || contains_seq(s, "source"@);
    if editable_attr == Some(false) {
        (false, 0)
    } else if r == "axtextfield"@ || r == "axsearchfield"@ || r == "axcombobox"@ || contains_seq(
        s,
        "secure"@,
    ) {
        (true, 1)
    } else if r == "axtextarea"@ {
        (true, if code_like { 3 } else { 2 })
    } else if (r == "axdocument"@ || r == "axwebarea"@) && editable_attr == Some(true) {
        (true, if code_like || r == "axdocument"@ { 3 } else { 2 })
    } else if editable_attr == Some(true) {
        (true, if code_like { 3 } else { 2 })
    } else {
        (false, 0)
    }
}

pub fn classify_ax_editable_role(role: &str, subrole: Option<&str>, editable_attr: Option<bool>) -> (r: (bool, i32))
    ensures
        r == ax_classify_spec(
            role@,
            match subrole {
                Some(v) => Some(v@),
                None => None,
            },
            editable_attr,
        ),
{
    let r = to_ascii_lowercase(&crate::text::chars_of(role));
    let empty: Vec<char> = Vec::new();
    let s = match subrole {
        Some(v) => to_ascii_lowercase(&crate::text::chars_of(v)),
        None => to_ascii_lowercase(&empty),
    };
    let code = crate::text::chars_of("code");
    let code_like = contains(&r, &code) || contains(&s, &code) || contains(
        &s,
        &crate::text::chars_of("editor"),
    ) || contains(&s, &crate::text::chars_of("source"));
    if editable_attr == Some(false) {
        return (false, 0);
    }
    if seq_eq(&r, &crate::text::chars_of("axtextfield")) || seq_eq(&r, &crate::text::chars_of("axsearchfield"))
        || seq_eq(&r, &crate::text::chars_of("axcombobox")) || contains(
        &s,
        &crate::text::chars_of("secure"),
    ) {
        return (true, 1);
    }
    if seq_eq(&r, &crate::text::chars_of("axtextarea")) {
        return (true, if code_like { 3 } else { 2 });
    }
    let is_doc = seq_eq(&r, &crate::text::chars_of("axdocument"));
    if (is_doc || seq_eq(&r, &crate::text::chars_of("axwebarea"))) && editable_attr == Some(true) {
        return (true, if code_like || is_doc { 3 } else { 2 });
    }
    if editable_attr == Some(true) {
        if code_like {
            return (true, 3);
        }
        return (true, 2);
    }
    (false, 0)
}

/// An ASCII letter lowered once is lowered for good.
proof fn lemma_ascii_lower_twice(s: Seq<char>)
    ensures
        ascii_lower(ascii_lower(s)) == ascii_lower(s),
{
    assert forall|k: int| 0 <= k < s.len() implies #[trigger] ascii_lower(ascii_lower(s))[k]
        == ascii_lower(s)[k] by {
        let c = s[k];
        if 'A' <= c <= 'Z' {
            let u = (c as u32) + 32;
            assert(0x61 <= u <= 0x7a);
        }
    }
    assert(ascii_lower(ascii_lower(s)) =~= ascii_lower(s));
}

/// How the focused element's accessibility attributes classify it.
/// An element marked non-editable is not editable. Otherwise a text field,
/// a search field or a combo box (its role compared without regard to
/// ASCII case), and any element whose subrole says "secure", is editable
/// and single line; any other text area is editable, and code exactly when
/// its role or subrole says code, editor or source, else multi line; a
/// document marked editable is code; and an element marked editable is
/// editable. An editable element is single line, multi line or code, a
/// non-editable one has no kind, and the classification does not depend
/// on the ASCII case of role or subrole.
pub proof fn law_ax_classify_roles(role: Seq<char>, subrole: Option<Seq<char>>, editable_attr: Option<bool>)
    ensures
        ({
            let (editable, kind) = ax_classify_spec(role, subrole, editable_attr);
            &&& editable_attr == Some(false) ==> !editable && kind == 0
            &&& editable_attr != Some(false) && (ascii_lower(role) == "axtextfield"@ || ascii_lower(
                role,
            ) == "axsearchfield"@ || ascii_lower(role) == "axcombobox"@) ==> editable && kind == 1
            &&& editable_attr != Some(false) && (subrole matches Some(v) && contains_seq(
                ascii_lower(v),
                "secure"@,
            )) ==> editable && kind == 1
            &&& editable_attr != Some(false) && ascii_lower(role) == "axtextarea"@ && !(
            subrole matches Some(v) && contains_seq(ascii_lower(v), "secure"@)) ==> editable && (
            kind == 2 || kind == 3)
            &&& editable_attr != Some(false) && ascii_lower(role) == "axtextarea"@ && !(
            subrole matches Some(v) && contains_seq(ascii_lower(v), "secure"@)) ==> (kind == 3 <==> (
            contains_seq(ascii_lower(role), "code"@) || (subrole matches Some(v) && (contains_seq(
                ascii_lower(v),
                "code"@,
            ) || contains_seq(ascii_lower(v), "editor"@) || contains_seq(ascii_lower(v), "source"@)))))
            &&& editable_attr == Some(true) && ascii_lower(role) == "axdocument"@ && !(
            subrole matches Some(v) && contains_seq(ascii_lower(v), "secure"@)) ==> editable && kind
                == 3
            &&& editable_attr == Some(true) ==> editable
            &&& editable ==> 1 <= kind <= 3
            &&& !editable ==> kind == 0
            &&& ax_classify_spec(role, subrole, editable_attr) == ax_classify_spec(
                ascii_lower(role),
                match subrole {
                    Some(v) => Some(ascii_lower(v)),
                    None => None,
                },
                editable_attr,
            )
        }),
{
    lemma_ascii_lower_twice(role);
    let sv = match subrole {
        Some(v) => v,
        None => Seq::<char>::empty(),
    };
    lemma_ascii_lower_twice(sv);
    assert(ascii_lower(Seq::<char>::empty()) =~= Seq::<char>::empty());
    reveal_strlit("secure");
    assert(!contains_seq(Seq::<char>::empty(), "secure"@));
    reveal_strlit("axtextarea");
    reveal_strlit("axtextfield");
    reveal_strlit("axsearchfield");
    reveal_strlit("axcombobox");
    assert("axtextarea"@.len() != "axtextfield"@.len());
    assert("axtextarea"@.len() != "axsearchfield"@.len());
    assert("axtextarea"@[2] != "axcombobox"@[2]);
    reveal_strlit("axdocument");
    reveal_strlit("code");
    reveal_strlit("editor");
    reveal_strlit("source");
    assert("axdocument"@.len() != "axtextfield"@.len());
    assert("axdocument"@.len() != "axsearchfield"@.len());
    assert("axdocument"@[2] != "axcombobox"@[2]);
    assert("axdocument"@[2] != "axtextarea"@[2]);
    assert(!contains_seq(Seq::<char>::empty(), "code"@));
    assert(!contains_seq(Seq::<char>::empty(), "editor"@));
    assert(!contains_seq(Seq::<char>::empty(), "source"@));
}

/// A pane candidate is meaningful when it holds the editor (with margins of
/// 64 x 96 px), is more than 4000 px^2 larger than the editor, differs
/// from the window (by 32 px in size or 24 px in origin), and covers at
/// most 90% of the window's area.
pub open spec fn meaningful_spec(candidate: Rect, editor: Rect, window: Rect) -> bool {
    let ca = area(candidate);
    let ea = area(editor);
    let wa = max_int(area(window), 1);
    let width_diff = abs_int(window.2 - candidate.2);
    let height_diff = abs_int(window.3 - candidate.3);
    let origin_diff = max_int(abs_int(window.0 - candidate.0), abs_int(window.1 - candidate.1));
    &&& has_area(candidate)
    &&& has_area(editor)
    &&& has_area(window)
    &&& editor.0 >= candidate.0 - 64 && editor.1 >= candidate.1 - 96 && right_of(editor) <= right_of(candidate) + 64
        && editor.1 + editor.3 <= candidate.1 + candidate.3 + 96
    &&& ca > ea + 4_000
    &&& (width_diff >= 32 || height_diff >= 32 || origin_diff >= 24)
    &&& 10 * ca <= 9 * wa
}

pub fn pane_candidate_is_meaningful(
    candidate: (i32, i32, i32, i32),
    editor: (i32, i32, i32, i32),
    window: (i32, i32, i32, i32),
) -> (b: bool)
    ensures
        b == meaningful_spec(candidate, editor, window),
{
    if !rect_has_area(candidate) || !rect_has_area(editor) || !rect_has_area(window) {
        return false;
    }
    if !rect_contains_rect_with_margin(candidate, editor, 64, 96) {
        return false;
    }
    let candidate_area = rect_area(candidate);
    let editor_area = rect_area(editor);
    let wa = rect_area(window);
    let window_area = if wa >= 1 {
        wa
    } else {
        1
    };
    if candidate_area as i128 <= editor_area as i128 + 4_000 {
        return false;
    }
    let width_diff = abs_i64(window.2 as i64 - candidate.2 as i64);
    let height_diff = abs_i64(window.3 as i64 - candidate.3 as i64);
    let ox = abs_i64(window.0 as i64 - candidate.0 as i64);
    let oy = abs_i64(window.1 as i64 - candidate.1 as i64);
    let origin_diff = if ox >= oy {
        ox
    } else {
        oy
    };
    let smaller = width_diff >= 32 || height_diff >= 32 || origin_diff >= 24;
    smaller && 10 * (candidate_area as i128) <= 9 * (window_area as i128)
}


/// `r` has an area and lies inside `w`.
pub open spec fn inside(r: Rect, w: Rect) -> bool {
    has_area(r) && r.0 >= w.0 && r.1 >= w.1 && right_of(r) <= right_of(w) && bottom_of(r)
        <= bottom_of(w)
}

proof fn lemma_inside_wide(r: Rect, w: Rect)
    requires
        inside(r, w),
        crate::geometry::rect_ok(w),
    ensures
        crate::geometry::wide_ok(r),
{
}

pub open spec fn displays_ok(ds: Seq<DisplayInfo>) -> bool {
    forall|i: int| 0 <= i < ds.len() ==> crate::geometry::display_ok(#[trigger] ds[i])
}

proof fn lemma_hint_normalizable(ds: Seq<DisplayInfo>, h: EditableFocusHintInfo)
    requires
        displays_ok(ds),
        crate::geometry::wide_ok(h.caret),
        crate::geometry::wide_ok(h.editor),
        crate::geometry::wide_ok(h.window),
        crate::geometry::wide_ok(h.pane),
    ensures
        mac_normalize_ok(ds, h),
{
    if let Some(i) = mac_hint_display(ds, h) {
        lemma_mac_hint_display_in_range(ds, h);
        crate::geometry::lemma_wide_fits(h.caret, ds[i]);
        crate::geometry::lemma_wide_fits(h.editor, ds[i]);
        crate::geometry::lemma_wide_fits(h.window, ds[i]);
        crate::geometry::lemma_wide_fits(h.pane, ds[i]);
    }
}

proof fn lemma_mac_hint_display_in_range(ds: Seq<DisplayInfo>, h: EditableFocusHintInfo)
    ensures
        mac_hint_display(ds, h) matches Some(i) ==> 0 <= i < ds.len(),
{
    let rs = seq![h.editor, h.pane, h.window, h.caret];
    assert forall|k: int| 0 <= k < 4 implies (mac_display_of_rect(ds, #[trigger] rs[k]) matches Some(
        i,
    ) ==> 0 <= i < ds.len()) by {
        if let Some(c) = center(rs[k]) {
            lemma_mac_first_in_range(ds, c.0 as int, c.1 as int, 0);
        }
    }
    assert(rs[0] == h.editor && rs[1] == h.pane && rs[2] == h.window && rs[3] == h.caret);
}

/// An ancestor of the focused element as the accessibility API reports it:
/// its frame, if it has one, and its role (empty when unknown).
pub struct PaneAncestor {
    pub rect: Option<(i32, i32, i32, i32)>,
    pub role: String,
}

/// At most this many ancestors of the focused element are looked at.
pub const MAX_PANE_ANCESTORS: usize = 6;

/// The part of an ancestor's frame inside the window, if it is a
/// meaningful pane for the editor.
pub open spec fn pane_candidate(rect: Option<Rect>, editor: Rect, window: Rect) -> Option<Rect> {
    match rect {
        Some(r) => match intersection(r, window) {
            Some(c) => if meaningful_spec(c, editor, window) {
                Some(c)
            } else {
                None
            },
            None => None,
        },
        None => None,
    }
}

/// A candidate of rank `rank` replaces the best one so far when it ranks
/// higher, or ranks the same and is smaller.
pub open spec fn better_pane(best: Option<(Rect, i32)>, c: Rect, rank: i32) -> bool {
    match best {
        None => true,
        Some((p, pr)) => rank > pr || (rank == pr && area(c) < area(p)),
    }
}

/// The best pane among the ancestors, nearest first, with its rank.
pub open spec fn pick_pane_spec(ancestors: Seq<PaneAncestor>, editor: Rect, window: Rect) -> Option<
    (Rect, i32),
>
    decreases ancestors.len(),
{
    if ancestors.len() == 0 {
        None
    } else {
        let best = pick_pane_spec(ancestors.drop_last(), editor, window);
        let a = ancestors.last();
        match pane_candidate(a.rect, editor, window) {
            Some(c) => if better_pane(best, c, role_rank_spec(a.role@)) {
                Some((c, role_rank_spec(a.role@)))
            } else {
                best
            },
            None => best,
        }
    }
}

pub open spec fn pick_pane_result(ancestors: Seq<PaneAncestor>, editor: Rect, window: Rect) -> Option<Rect> {
    let looked_at = if ancestors.len() <= MAX_PANE_ANCESTORS {
        ancestors
    } else {
        ancestors.take(MAX_PANE_ANCESTORS as int)
    };
    match pick_pane_spec(looked_at, editor, window) {
        Some((c, _)) => Some(c),
        None => None,
    }
}

proof fn lemma_pick_pane_inside(ancestors: Seq<PaneAncestor>, editor: Rect, window: Rect)
    requires
        crate::geometry::rect_ok(window),
    ensures
        pick_pane_spec(ancestors, editor, window) matches Some((c, _)) ==> inside(c, window),
    decreases ancestors.len(),
{
    if ancestors.len() > 0 {
        lemma_pick_pane_inside(ancestors.drop_last(), editor, window);
        if let Some(r) = ancestors.last().rect {
            crate::geometry::lemma_intersection_inside(r, window);
        }
    }
}

/// The pane that holds the editor: among the first `MAX_PANE_ANCESTORS`
/// ancestors of the focused element, the meaningful candidate (see
/// `pane_candidate_is_meaningful`) of highest role rank, the smallest on
/// ties.
pub fn pick_pane_rect(
    ancestors: &[PaneAncestor],
    editor: (i32, i32, i32, i32),
    window: (i32, i32, i32, i32),
) -> (r: Option<(i32, i32, i32, i32)>)
    ensures
        r == pick_pane_result(ancestors@, editor, window),
{
    let n = if ancestors.len() <= MAX_PANE_ANCESTORS {
        ancestors.len()
    } else {
        MAX_PANE_ANCESTORS
    };
    let ghost looked_at = if ancestors@.len() <= MAX_PANE_ANCESTORS {
        ancestors@
    } else {
        ancestors@.take(MAX_PANE_ANCESTORS as int)
    };
    assert(looked_at =~= ancestors@.take(n as int));
    let mut best: Option<((i32, i32, i32, i32), i32)> = None;
    let mut k: usize = 0;
    while k < n
        invariant
            n <= ancestors@.len(),
            k <= n,
            best == pick_pane_spec(ancestors@.take(k as int), editor, window),
        decreases n - k,
    {
        let a = &ancestors[k];
        assert(ancestors@.take(k + 1).drop_last() =~= ancestors@.take(k as int));
        assert(ancestors@.take(k + 1).last() == ancestors@[k as int]);
        let candidate = match a.rect {
            Some(r) => match rect_intersection(r, window) {
                Some(c) => if pane_candidate_is_meaningful(c, editor, window) {
                    Some(c)
                } else {
                    None
                },
                None => None,
            },
            None => None,
        };
        if let Some(c) = candidate {
            let rank = pane_candidate_role_rank(a.role.as_str());
            let replace = match best {
                None => true,
                Some((p, pr)) => rank > pr || (rank == pr && rect_area(c) < rect_area(p)),
            };
            if replace {
                best = Some((c, rank));
            }
        }
        k = k + 1;
    }
    match best {
        Some((c, _)) => Some(c),
        None => None,
    }
}

/// The rectangle that a window target picks among the frontmost windows,
/// when one is eligible.
pub open spec fn target_picks(cs: Seq<MacWindowCandidate>, target: Option<Rect>) -> bool {
    match target {
        Some(t) => has_area(t) && exists|j: int| 0 <= j < cs.len() && eligible(#[trigger] cs[j], t),
        None => false,
    }
}

/// The window of the focused element: the first of the accessibility
/// window targets (the element's window, its top-level element, the
/// application's focused and main window) for which a frontmost window is
/// chosen, that window.
pub fn resolve_ax_window_candidate(
    targets: &[Option<(i32, i32, i32, i32)>],
    cg_windows: &[MacWindowCandidate],
) -> (r: Option<MacWindowCandidate>)
    requires
        forall|i: int| 0 <= i < cg_windows@.len() ==> crate::geometry::rect_ok(#[trigger] cg_windows@[i].rect),
        forall|t: int| 0 <= t < targets@.len() ==> (#[trigger] targets@[t] matches Some(r) ==> crate::geometry::rect_ok(r)),
    ensures
        match r {
            Some(c) => exists|t: int| 0 <= t < targets@.len() && target_picks(cg_windows@, #[trigger] targets@[t]) && (forall|u: int| 0 <= u < t ==> !target_picks(cg_windows@, #[trigger] targets@[u])) && (targets@[t] matches Some(rt) && exists|i: int| chosen(cg_windows@, rt, i) && cg_windows@[i] == c),
            None => forall|t: int| 0 <= t < targets@.len() ==> !target_picks(cg_windows@, #[trigger] targets@[t]),
        },
{
    let mut t: usize = 0;
    while t < targets.len()
        invariant
            t <= targets@.len(),
            forall|i: int| 0 <= i < cg_windows@.len() ==> crate::geometry::rect_ok(#[trigger] cg_windows@[i].rect),
            forall|q: int| 0 <= q < targets@.len() ==> (#[trigger] targets@[q] matches Some(r) ==> crate::geometry::rect_ok(r)),
            forall|u: int| 0 <= u < t ==> !target_picks(cg_windows@, #[trigger] targets@[u]),
        decreases targets@.len() - t,
    {
        if let Some(rt) = targets[t] {
            assert(targets@[t as int] == Some(rt));
            if let Some(c) = choose_window_candidate(cg_windows, rt) {
                proof {
                    let i = choose|i: int| chosen(cg_windows@, rt, i) && cg_windows@[i] == c;
                    assert(eligible(cg_windows@[i], rt));
                    assert(target_picks(cg_windows@, targets@[t as int]));
                }
                return Some(c);
            }
        }
        t = t + 1;
    }
    None
}

/// The editor: the focused element's frame inside the window, else a
/// rectangle synthesised around the mouse cursor when it is in the window.
pub open spec fn editor_rect_spec(ax_rect: Option<Rect>, cursor: Option<(i32, i32)>, window: Rect) -> Option<Rect> {
    let from_ax = match ax_rect {
        Some(r) => intersection(r, window),
        None => None,
    };
    match from_ax {
        Some(e) => Some(e),
        None => match cursor {
            Some(c) => if contains_point(window, c.0 as int, c.1 as int) {
                mac_synth_spec(window, c)
            } else {
                None
            },
            None => None,
        },
    }
}

pub fn editor_rect(
    ax_rect: Option<(i32, i32, i32, i32)>,
    cursor: Option<(i32, i32)>,
    window: (i32, i32, i32, i32),
) -> (r: Option<(i32, i32, i32, i32)>)
    requires
        crate::geometry::rect_ok(window),
    ensures
        r == editor_rect_spec(ax_rect, cursor, window),
        r matches Some(e) ==> inside(e, window),
{
    if let Some(a) = ax_rect {
        proof {
            crate::geometry::lemma_intersection_inside(a, window);
        }
        if let Some(e) = rect_intersection(a, window) {
            return Some(e);
        }
    }
    match cursor {
        Some(c) => if point_in_rect(window, c.0, c.1) {
            synth_editor_rect_from_cursor(window, c)
        } else {
            None
        },
        None => None,
    }
}


/// What the accessibility API tells of the focused element, as the caller
/// read it.
pub struct AxFocusInputs {
    /// The element's window and top-level element, then the application's
    /// focused and main window: their frames, where they have one.
    pub window_targets: Vec<Option<(i32, i32, i32, i32)>>,
    pub role: String,
    pub subrole: Option<String>,
    pub editable_attr: Option<bool>,
    /// The element's own frame.
    pub element_rect: Option<(i32, i32, i32, i32)>,
    /// The mouse cursor, if known.
    pub cursor: Option<(i32, i32)>,
    /// The element's ancestors, nearest first.
    pub ancestors: Vec<PaneAncestor>,
}

/// The window that the focused element was resolved to, and its editable
/// hint when the element takes text.
pub struct AxFocusBuildResult {
    pub window: MacWindowCandidate,
    pub editable_hint: Option<EditableFocusHintInfo>,
}

pub open spec fn subrole_view(ax: AxFocusInputs) -> Option<Seq<char>> {
    match ax.subrole {
        Some(s) => Some(s@),
        None => None,
    }
}

/// `w` is the window that the accessibility targets resolve to: the window
/// chosen for the first target that picks one, else `fallback`.
pub open spec fn resolved_window(
    cs: Seq<MacWindowCandidate>,
    targets: Seq<Option<Rect>>,
    fallback: MacWindowCandidate,
    w: MacWindowCandidate,
) -> bool {
    if exists|t: int| 0 <= t < targets.len() && target_picks(cs, #[trigger] targets[t]) {
        exists|t: int|
            0 <= t < targets.len() && target_picks(cs, #[trigger] targets[t]) && (forall|u: int|
                0 <= u < t ==> !target_picks(cs, #[trigger] targets[u])) && (targets[t] matches Some(
                rt,
            ) && exists|i: int| chosen(cs, rt, i) && cs[i] == w)
    } else {
        w == fallback
    }
}

/// The editable hint of the focused element in window `w`: none unless it
/// takes text and an editor rectangle is known; the pane defaults to the
/// window.
pub open spec fn ax_hint_spec(ds: Seq<DisplayInfo>, w: MacWindowCandidate, ax: AxFocusInputs) -> Option<
    EditableFocusHintInfo,
> {
    let (editable, kind) = ax_classify_spec(ax.role@, subrole_view(ax), ax.editable_attr);
    if !editable {
        None
    } else {
        match editor_rect_spec(ax.element_rect, ax.cursor, w.rect) {
            None => None,
            Some(e) => {
                let pane = match pick_pane_result(ax.ancestors@, e, w.rect) {
                    Some(p) => p,
                    None => w.rect,
                };
                Some(
                    mac_normalize_spec(
                        ds,
                        EditableFocusHintInfo {
                            editable: true,
                            caret: (0, 0, 0, 0),
                            editor: e,
                            window: w.rect,
                            pane,
                            display_idx: 0,
                            content_kind: kind,
                            foreground_hwnd: w.foreground_hwnd,
                        },
                    ),
                )
            },
        }
    }
}

pub open spec fn ax_inputs_ok(ax: AxFocusInputs) -> bool {
    forall|t: int| 0 <= t < ax.window_targets@.len() ==> (#[trigger] ax.window_targets@[t] matches Some(r) ==> crate::geometry::rect_ok(r))
}

pub open spec fn windows_ok(cs: Seq<MacWindowCandidate>) -> bool {
    forall|i: int| 0 <= i < cs.len() ==> crate::geometry::rect_ok(#[trigger] cs[i].rect)
}

/// Builds the hint of the focused element from what the accessibility API
/// gave: resolves its window among the frontmost application's windows
/// (`fallback_window` when none is picked), classifies it, and, for an
/// element that takes text, finds its editor and pane.
pub fn build_ax_editable_focus_hint(
    displays: &[DisplayInfo],
    ax: &AxFocusInputs,
    cg_windows: &[MacWindowCandidate],
    fallback_window: MacWindowCandidate,
) -> (r: AxFocusBuildResult)
    requires
        displays_ok(displays@),
        windows_ok(cg_windows@),
        crate::geometry::rect_ok(fallback_window.rect),
        ax_inputs_ok(*ax),
    ensures
        resolved_window(cg_windows@, ax.window_targets@, fallback_window, r.window),
        r.editable_hint == ax_hint_spec(displays@, r.window, *ax),
{
    let resolved = match resolve_ax_window_candidate(&ax.window_targets, cg_windows) {
        Some(c) => c,
        None => fallback_window,
    };
    proof {
        if exists|t: int| 0 <= t < ax.window_targets@.len() && target_picks(cg_windows@, #[trigger] ax.window_targets@[t]) {
            let t = choose|t: int| 0 <= t < ax.window_targets@.len() && target_picks(cg_windows@, #[trigger] ax.window_targets@[t]);
            assert(target_picks(cg_windows@, ax.window_targets@[t]));
        }
    }
    let window = resolved.rect;
    assert(crate::geometry::rect_ok(window)) by {
        if resolved != fallback_window {
            let t = choose|t: int| 0 <= t < ax.window_targets@.len() && target_picks(cg_windows@, #[trigger] ax.window_targets@[t]) && (forall|u: int| 0 <= u < t ==> !target_picks(cg_windows@, #[trigger] ax.window_targets@[u])) && (ax.window_targets@[t] matches Some(rt) && exists|i: int| chosen(cg_windows@, rt, i) && cg_windows@[i] == resolved);
            if let Some(rt) = ax.window_targets@[t] {
                let i = choose|i: int| chosen(cg_windows@, rt, i) && cg_windows@[i] == resolved;
                assert(crate::geometry::rect_ok(cg_windows@[i].rect));
            }
        }
    }
    let subrole = match &ax.subrole {
        Some(s) => Some(s.as_str()),
        None => None,
    };
    let (editable, content_kind) = classify_ax_editable_role(ax.role.as_str(), subrole, ax.editable_attr);
    if !editable {
        return AxFocusBuildResult { window: resolved, editable_hint: None };
    }
    let editor = match editor_rect(ax.element_rect, ax.cursor, window) {
        Some(e) => e,
        None => {
            return AxFocusBuildResult { window: resolved, editable_hint: None };
        },
    };
    proof {
        lemma_pick_pane_inside(
            if ax.ancestors@.len() <= MAX_PANE_ANCESTORS {
                ax.ancestors@
            } else {
                ax.ancestors@.take(MAX_PANE_ANCESTORS as int)
            },
            editor,
            window,
        );
    }
    let pane = match pick_pane_rect(&ax.ancestors, editor, window) {
        Some(p) => p,
        None => window,
    };
    let hint = EditableFocusHintInfo {
        editable: true,
        caret: (0, 0, 0, 0),
        editor,
        window,
        pane,
        display_idx: 0,
        content_kind,
        foreground_hwnd: resolved.foreground_hwnd,
    };
    proof {
        lemma_inside_wide(editor, window);
        if pane != window {
            lemma_inside_wide(pane, window);
        }
        lemma_hint_normalizable(displays@, hint);
    }
    AxFocusBuildResult {
        window: resolved,
        editable_hint: Some(normalize_editable_focus_hint_to_display(displays, hint)),
    }
}

/// The hint for a window that has no editable focus.
pub open spec fn window_only_hint(rect: Rect, fg: isize, display_idx: i32) -> EditableFocusHintInfo {
    EditableFocusHintInfo {
        editable: false,
        caret: (0, 0, 0, 0),
        editor: (0, 0, 0, 0),
        window: rect,
        pane: rect,
        display_idx,
        content_kind: 0,
        foreground_hwnd: fg,
    }
}

/// The display used when the frontmost application shows no window: the
/// focused display, else the first one.
pub open spec fn fallback_display(ds: Seq<DisplayInfo>, focused_display: Option<usize>) -> Option<int> {
    let idx: Option<int> = match focused_display {
        Some(i) => Some(i as int),
        None => if ds.len() > 0 {
            Some(0)
        } else {
            None
        },
    };
    match idx {
        Some(i) => if i < ds.len() {
            Some(i)
        } else {
            None
        },
        None => None,
    }
}

pub open spec fn fallback_hint_spec(ds: Seq<DisplayInfo>, frontmost_pid: i32, focused_display: Option<usize>) -> Option<EditableFocusHintInfo> {
    match fallback_display(ds, focused_display) {
        Some(i) => Some(
            mac_normalize_spec(
                ds,
                window_only_hint(
                    (ds[i].x, ds[i].y, ds[i].width, ds[i].height),
                    window_id_spec(frontmost_pid, 0),
                    i as i32,
                ),
            ),
        ),
        None => None,
    }
}

/// The hint when the frontmost application shows no window: the whole
/// display (`focused_display`, else the first), not editable.
pub fn fallback_window_hint(displays: &[DisplayInfo], frontmost_pid: i32, focused_display: Option<usize>) -> (r: Option<EditableFocusHintInfo>)
    requires
        displays_ok(displays@),
    ensures
        r == fallback_hint_spec(displays@, frontmost_pid, focused_display),
{
    let idx = match focused_display {
        Some(i) => i,
        None => {
            if displays.len() == 0 {
                return None;
            }
            0
        },
    };
    if idx >= displays.len() {
        return None;
    }
    let d = &displays[idx];
    let window = (d.x, d.y, d.width, d.height);
    let hint = EditableFocusHintInfo {
        editable: false,
        caret: (0, 0, 0, 0),
        editor: (0, 0, 0, 0),
        window,
        pane: window,
        display_idx: idx as i32,
        content_kind: 0,
        foreground_hwnd: make_foreground_window_id(frontmost_pid, 0),
    };
    proof {
        lemma_hint_normalizable(displays@, hint);
    }
    Some(normalize_editable_focus_hint_to_display(displays, hint))
}

/// The editable focus hint of the frontmost application: from the
/// accessibility API where it answered (`ax`), else the frontmost window,
/// else the whole display.
pub open spec fn focus_hint_spec(
    ds: Seq<DisplayInfo>,
    cs: Seq<MacWindowCandidate>,
    ax: Option<AxFocusInputs>,
    frontmost_pid: i32,
    focused_display: Option<usize>,
    w: MacWindowCandidate,
) -> Option<EditableFocusHintInfo> {
    if cs.len() == 0 {
        fallback_hint_spec(ds, frontmost_pid, focused_display)
    } else {
        match ax {
            Some(a) => match ax_hint_spec(ds, w, a) {
                Some(h) => Some(h),
                None => Some(mac_normalize_spec(ds, window_only_hint(w.rect, w.foreground_hwnd, 0))),
            },
            None => Some(mac_normalize_spec(ds, window_only_hint(cs[0].rect, cs[0].foreground_hwnd, 0))),
        }
    }
}

pub open spec fn ax_value(ax: Option<&AxFocusInputs>) -> Option<AxFocusInputs> {
    match ax {
        Some(a) => Some(*a),
        None => None,
    }
}

/// The editable focus hint of the frontmost application (process
/// `frontmost_pid`, windows `cg_windows` front to back), from what the
/// accessibility API gave where it answered.
pub fn get_editable_focus_hint_from(
    displays: &[DisplayInfo],
    cg_windows: &[MacWindowCandidate],
    ax: Option<&AxFocusInputs>,
    frontmost_pid: i32,
    focused_display: Option<usize>,
) -> (r: Option<EditableFocusHintInfo>)
    requires
        displays_ok(displays@),
        windows_ok(cg_windows@),
        ax matches Some(a) ==> ax_inputs_ok(*a),
    ensures
        exists|w: MacWindowCandidate|
            (cg_windows@.len() > 0 ==> (ax matches Some(a) ==> resolved_window(cg_windows@, a.window_targets@, cg_windows@[0], w))) && r == #[trigger] focus_hint_spec(
                displays@,
                cg_windows@,
                ax_value(ax),
                frontmost_pid,
                focused_display,
                w,
            ),
{
    if cg_windows.len() == 0 {
        let r = fallback_window_hint(displays, frontmost_pid, focused_display);
        assert(r == focus_hint_spec(displays@, cg_windows@, ax_value(ax), frontmost_pid, focused_display, cg_windows@[0]));
        return r;
    }
    let first = cg_windows[0];
    match ax {
        Some(a) => {
            let res = build_ax_editable_focus_hint(displays, a, cg_windows, first);
            match res.editable_hint {
                Some(h) => {
                    assert(Some(h) == focus_hint_spec(displays@, cg_windows@, Some(*a), frontmost_pid, focused_display, res.window));
                    Some(h)
                },
                None => {
                    let hint = EditableFocusHintInfo {
                        editable: false,
                        caret: (0, 0, 0, 0),
                        editor: (0, 0, 0, 0),
                        window: res.window.rect,
                        pane: res.window.rect,
                        display_idx: 0,
                        content_kind: 0,
                        foreground_hwnd: res.window.foreground_hwnd,
                    };
                    proof {
                        assert(crate::geometry::rect_ok(res.window.rect)) by {
                            if res.window != first {
                                let t = choose|t: int| 0 <= t < a.window_targets@.len() && target_picks(cg_windows@, #[trigger] a.window_targets@[t]) && (forall|u: int| 0 <= u < t ==> !target_picks(cg_windows@, #[trigger] a.window_targets@[u])) && (a.window_targets@[t] matches Some(rt) && exists|i: int| chosen(cg_windows@, rt, i) && cg_windows@[i] == res.window);
                                if let Some(rt) = a.window_targets@[t] {
                                    let i = choose|i: int| chosen(cg_windows@, rt, i) && cg_windows@[i] == res.window;
                                    assert(crate::geometry::rect_ok(cg_windows@[i].rect));
                                }
                            }
                        }
                        lemma_hint_normalizable(displays@, hint);
                    }
                    let r = Some(normalize_editable_focus_hint_to_display(displays, hint));
                    assert(r == focus_hint_spec(displays@, cg_windows@, Some(*a), frontmost_pid, focused_display, res.window));
                    r
                },
            }
        },
        None => {
            let hint = EditableFocusHintInfo {
                editable: false,
                caret: (0, 0, 0, 0),
                editor: (0, 0, 0, 0),
                window: first.rect,
                pane: first.rect,
                display_idx: 0,
                content_kind: 0,
                foreground_hwnd: first.foreground_hwnd,
            };
            proof {
                lemma_hint_normalizable(displays@, hint);
            }
            let r = Some(normalize_editable_focus_hint_to_display(displays, hint));
            assert(r == focus_hint_spec(displays@, cg_windows@, None, frontmost_pid, focused_display, first));
            r
        },
    }
}

} // verus!
