use vstd::prelude::*;
use crate::focus_hint::{empty_hint, EditableFocusHintInfo};
use crate::geometry::{
    abs_int, center, display_ok, half, has_area, lemma_ok_is_wide, lemma_wide_fits, rect_center,
    rect_has_area, rect_ok, wide_ok, DisplayInfo, Rect,
};
use crate::win_focus::{
    lemma_hint_display_in_range, display_idx_for_point, display_idx_spec, hint_display, normalize_editable_focus_hint_to_display,
    normalize_ok, normalize_spec, ForegroundWindow,
};
use crate::win_probe::{
    caret_fallback_editor_rect, caret_fallback_ok, caret_fallback_spec, compute_pane_rect,
    is_qt_class, pane_spec, qt_class_spec, ProbeResult,
};
use crate::win_sticky::{
    clock_ok, finalize_spec, hard_negative_spec, qt_check_spec, FocusMemory, QtCaretConfirmation,
};

verus! {

/// What `GetGUIThreadInfo` reported for the foreground thread.
#[derive(Clone, Copy, Debug)]
pub struct GuiThreadInfo {
    /// The focused window; 0 for none.
    pub focus_hwnd: isize,
    /// The window that owns the caret; 0 for none.
    pub caret_hwnd: isize,
    /// The caret in screen coordinates (width at least 2, height at least
    /// 4); all zero when no window owns the caret.
    pub caret: (i32, i32, i32, i32),
    /// The screen rectangle of the caret's window.
    pub caret_hwnd_rect: (i32, i32, i32, i32),
}

/// How the focused element was classified: by its Win32 class (with the
/// focused window's rectangle as editor), or by the UI Automation probe.
#[derive(Clone, Copy, Debug)]
pub enum FocusDetection {
    ByClass(bool, i32, (i32, i32, i32, i32)),
    ByProbe(ProbeResult),
}

pub open spec fn detection_parts(d: FocusDetection) -> ProbeResult {
    match d {
        FocusDetection::ByClass(e, k, r) => (e, k, Some(r), None),
        FocusDetection::ByProbe(p) => p,
    }
}

pub open spec fn window_display_idx(ds: Seq<DisplayInfo>, w: Rect) -> i32 {
    match center(w) {
        Some(c) => display_idx_spec(ds, c.0 as int, c.1 as int),
        None => 0,
    }
}

/// The non-editable hint of a foreground window: its window as window,
/// pane and editing area (the editing area falls back to the window when
/// no editable element is found), on the display holding the window's
/// center.
pub open spec fn not_editable_spec(ds: Seq<DisplayInfo>, fg: ForegroundWindow) -> EditableFocusHintInfo {
    normalize_spec(
        ds,
        EditableFocusHintInfo {
            editable: false,
            editor: fg.rect,
            window: fg.rect,
            pane: fg.rect,
            display_idx: window_display_idx(ds, fg.rect),
            foreground_hwnd: fg.hwnd,
            ..empty_hint()
        },
    )
}

/// The caret is usable as a fallback editor: it has an area, does not sit
/// within 8 pixels of its window's origin, and belongs to the focused or
/// the foreground window.
pub open spec fn caret_path_spec(g: GuiThreadInfo, fg: ForegroundWindow) -> bool {
    let visible = has_area(g.caret);
    let at_origin = visible && g.caret_hwnd != 0 && abs_int(g.caret.0 - g.caret_hwnd_rect.0) <= 8
        && abs_int(g.caret.1 - g.caret_hwnd_rect.1) <= 8;
    visible && !at_origin && (g.caret_hwnd == g.focus_hwnd || g.caret_hwnd == fg.hwnd)
}

pub open spec fn center_x(r: Rect) -> int {
    r.0 + half(r.2 as int)
}

pub open spec fn center_y(r: Rect) -> int {
    r.1 + half(r.3 as int)
}

/// The editable hint of an editor and pane on the display of the editor's
/// center.
pub open spec fn editable_hint_spec(
    ds: Seq<DisplayInfo>,
    fg: ForegroundWindow,
    caret: Rect,
    editor: Rect,
    pane: Rect,
    kind: i32,
) -> EditableFocusHintInfo {
    normalize_spec(
        ds,
        EditableFocusHintInfo {
            editable: true,
            caret: caret,
            editor: editor,
            window: fg.rect,
            pane: pane,
            display_idx: display_idx_spec(ds, center_x(editor), center_y(editor)),
            content_kind: kind,
            foreground_hwnd: fg.hwnd,
        },
    )
}

/// The hint built around the caret when no editor was found.
pub open spec fn caret_hint_spec(ds: Seq<DisplayInfo>, fg: ForegroundWindow, g: GuiThreadInfo) -> EditableFocusHintInfo {
    let fe = caret_fallback_spec(fg.rect, g.caret);
    editable_hint_spec(ds, fg, g.caret, fe, pane_spec(fe, fg.rect), 2)
}

pub open spec fn fin(
    m: FocusMemory,
    now: u64,
    fg: ForegroundWindow,
    h: EditableFocusHintInfo,
    cursor: Option<(i32, i32)>,
) -> (FocusMemory, EditableFocusHintInfo) {
    let (s, r) = finalize_spec(m.sticky, now, fg, h, cursor);
    (FocusMemory { sticky: s, qt: m.qt }, r)
}

/// One poll of the Windows editable-focus logic, after the window system
/// was asked about the foreground window, its GUI thread, the focused
/// element and the cursor.
pub open spec fn resolve_spec(
    m: FocusMemory,
    now: u64,
    ds: Seq<DisplayInfo>,
    fg: ForegroundWindow,
    gti: Option<GuiThreadInfo>,
    det: Option<FocusDetection>,
    cursor: Option<(i32, i32)>,
) -> (FocusMemory, EditableFocusHintInfo) {
    let ne = not_editable_spec(ds, fg);
    if fg.hwnd == 0 {
        (FocusMemory { sticky: None, qt: None }, empty_hint())
    } else {
        match gti {
            None => fin(m, now, fg, ne, cursor),
            Some(g) => {
                if g.focus_hwnd == 0 {
                    fin(m, now, fg, ne, cursor)
                } else {
                    let (editable, kind, er, po) = detection_parts(det.unwrap());
                    let actionable = editable && (er matches Some(e) && has_area(e));
                    if !actionable {
                        if kind == -1 {
                            match hard_negative_spec(m.sticky, now, fg.hwnd, cursor) {
                                Some((st, h)) => (FocusMemory { sticky: Some(st), qt: m.qt }, h),
                                None => fin(FocusMemory { sticky: None, qt: m.qt }, now, fg, ne, cursor),
                            }
                        } else if kind == -2 {
                            fin(FocusMemory { sticky: None, qt: m.qt }, now, fg, ne, cursor)
                        } else if caret_path_spec(g, fg) {
                            let ch = caret_hint_spec(ds, fg, g);
                            let m1 = if qt_class_spec(fg.class_name@) {
                                FocusMemory {
                                    sticky: m.sticky,
                                    qt: Some(QtCaretConfirmation { fg_hwnd: fg.hwnd, hint: ch, last_caret_at: now }),
                                }
                            } else {
                                m
                            };
                            fin(m1, now, fg, ch, cursor)
                        } else {
                            match qt_check_spec(m.qt, now, fg.hwnd, cursor) {
                                Some(qh) => fin(m, now, fg, qh, cursor),
                                None => fin(m, now, fg, ne, cursor),
                            }
                        }
                    } else {
                        let e = er.unwrap();
                        let pane = match po {
                            Some(p) => p,
                            None => pane_spec(e, fg.rect),
                        };
                        fin(m, now, fg, editable_hint_spec(ds, fg, g.caret, e, pane, kind), cursor)
                    }
                }
            },
        }
    }
}

/// What the poll requires: a clock with room for the expiries, displays and
/// rectangles within the coordinate bound, a classification whenever the
/// focus is known, and (where the caret fallback is taken) the bounds that
/// std's `clamp` asserts.
pub open spec fn resolve_ok(
    now: u64,
    ds: Seq<DisplayInfo>,
    fg: ForegroundWindow,
    gti: Option<GuiThreadInfo>,
    det: Option<FocusDetection>,
) -> bool {
    &&& clock_ok(now)
    &&& forall|i: int| 0 <= i < ds.len() ==> display_ok(#[trigger] ds[i])
    &&& rect_ok(fg.rect)
    &&& (gti matches Some(g) ==> rect_ok(g.caret) && rect_ok(g.caret_hwnd_rect))
    &&& (fg.hwnd != 0 && (gti matches Some(g) && g.focus_hwnd != 0)) ==> (det matches Some(
        d,
    ) && {
        let (e, k, er, po) = detection_parts(d);
        &&& (er matches Some(r) ==> rect_ok(r))
        &&& (po matches Some(p) ==> wide_ok(p))
        &&& ((!(e && (er matches Some(r) && has_area(r))) && k != -1 && k != -2 && caret_path_spec(
            gti.unwrap(),
            fg,
        )) ==> caret_fallback_ok(fg.rect, gti.unwrap().caret))
    })
}

proof fn lemma_normalize_ok(ds: Seq<DisplayInfo>, h: EditableFocusHintInfo)
    requires
        forall|i: int| 0 <= i < ds.len() ==> display_ok(#[trigger] ds[i]),
        wide_ok(h.caret),
        wide_ok(h.editor),
        wide_ok(h.window),
        wide_ok(h.pane),
    ensures
        normalize_ok(ds, h),
{
    lemma_hint_display_in_range(ds, h);
    if let Some(i) = hint_display(ds, h) {
        lemma_wide_fits(h.caret, ds[i]);
        lemma_wide_fits(h.editor, ds[i]);
        lemma_wide_fits(h.window, ds[i]);
        lemma_wide_fits(h.pane, ds[i]);
    } else if ds.len() > 0 {
        lemma_wide_fits(h.caret, ds[0]);
        lemma_wide_fits(h.editor, ds[0]);
        lemma_wide_fits(h.window, ds[0]);
        lemma_wide_fits(h.pane, ds[0]);
    }
}

proof fn lemma_center_fits(r: Rect)
    requires
        wide_ok(r),
    ensures
        crate::geometry::center_fits(r),
        crate::geometry::fits_i32(center_x(r)),
        crate::geometry::fits_i32(center_y(r)),
{
}

fn editable_hint(
    displays: &[DisplayInfo],
    fg: &ForegroundWindow,
    caret: (i32, i32, i32, i32),
    editor: (i32, i32, i32, i32),
    pane: (i32, i32, i32, i32),
    kind: i32,
) -> (r: EditableFocusHintInfo)
    requires
        forall|i: int| 0 <= i < displays@.len() ==> display_ok(#[trigger] displays@[i]),
        rect_ok(fg.rect),
        rect_ok(caret),
        wide_ok(editor),
        wide_ok(pane),
    ensures
        r == editable_hint_spec(displays@, *fg, caret, editor, pane, kind),
{
    proof {
        lemma_center_fits(editor);
    }
    let cx = editor.0 + editor.2 / 2;
    let cy = editor.1 + editor.3 / 2;
    let display_idx = display_idx_for_point(displays, cx, cy);
    let h = EditableFocusHintInfo {
        editable: true,
        caret: caret,
        editor: editor,
        window: fg.rect,
        pane: pane,
        display_idx: display_idx,
        content_kind: kind,
        foreground_hwnd: fg.hwnd,
    };
    proof {
        lemma_ok_is_wide(caret);
        lemma_ok_is_wide(fg.rect);
        lemma_normalize_ok(displays@, h);
    }
    normalize_editable_focus_hint_to_display(displays, h)
}

fn not_editable_hint(displays: &[DisplayInfo], fg: &ForegroundWindow) -> (r: EditableFocusHintInfo)
    requires
        forall|i: int| 0 <= i < displays@.len() ==> display_ok(#[trigger] displays@[i]),
        rect_ok(fg.rect),
    ensures
        r == not_editable_spec(displays@, *fg),
{
    proof {
        lemma_ok_is_wide(fg.rect);
    }
    let idx = match rect_center(fg.rect) {
        Some((cx, cy)) => display_idx_for_point(displays, cx, cy),
        None => 0,
    };
    let h = EditableFocusHintInfo {
        editable: false,
        caret: (0, 0, 0, 0),
        editor: fg.rect,
        window: fg.rect,
        pane: fg.rect,
        display_idx: idx,
        content_kind: 0,
        foreground_hwnd: fg.hwnd,
    };
    proof {
        lemma_normalize_ok(displays@, h);
    }
    normalize_editable_focus_hint_to_display(displays, h)
}

fn abs_diff_le(a: i32, b: i32, m: i64) -> (r: bool)
    ensures
        r == (abs_int(a - b) <= m),
{
    let d = a as i64 - b as i64;
    if d < 0 {
        -d <= m
    } else {
        d <= m
    }
}

fn caret_path(g: &GuiThreadInfo, fg: &ForegroundWindow) -> (r: bool)
    ensures
        r == caret_path_spec(*g, *fg),
{
    let visible = rect_has_area(g.caret);
    let at_origin = visible && g.caret_hwnd != 0 && abs_diff_le(g.caret.0, g.caret_hwnd_rect.0, 8)
        && abs_diff_le(g.caret.1, g.caret_hwnd_rect.1, 8);
    visible && !at_origin && (g.caret_hwnd == g.focus_hwnd || g.caret_hwnd == fg.hwnd)
}

/// One poll of the Windows editable-focus logic (the decisions of the
/// poller, after the window system was asked); see `resolve_spec`.
pub fn resolve_editable_focus_hint(
    memory: &mut FocusMemory,
    now: u64,
    displays: &[DisplayInfo],
    fg: &ForegroundWindow,
    gti: Option<GuiThreadInfo>,
    det: Option<FocusDetection>,
    cursor: Option<(i32, i32)>,
) -> (r: Option<EditableFocusHintInfo>)
    requires
        resolve_ok(now, displays@, *fg, gti, det),
    ensures
        r matches Some(h) && (*final(memory), h) == resolve_spec(
            *old(memory),
            now,
            displays@,
            *fg,
            gti,
            det,
            cursor,
        ),
{
    if fg.hwnd == 0 {
        memory.clear();
        let h = EditableFocusHintInfo::default();
        return Some(h);
    }
    let not_editable = not_editable_hint(displays, fg);
    let g = match gti {
        Some(g) => g,
        None => {
            return Some(memory.finalize_editable_focus_hint(now, fg, not_editable, cursor));
        },
    };
    if g.focus_hwnd == 0 {
        return Some(memory.finalize_editable_focus_hint(now, fg, not_editable, cursor));
    }
    let d = det.unwrap();
    let (editable, content_kind, editor_rect, pane_override) = match d {
        FocusDetection::ByClass(e, k, r) => (e, k, Some(r), None),
        FocusDetection::ByProbe(p) => p,
    };
    let editor_has_area = match editor_rect {
        Some(r) => rect_has_area(r),
        None => false,
    };
    let actionable = editable && editor_has_area;
    if !actionable {
        if content_kind == -1 {
            if let Some(reused) = memory.try_reuse_sticky_hint_on_hard_negative(now, fg.hwnd, cursor) {
                return Some(reused);
            }
            memory.sticky = None;
            return Some(memory.finalize_editable_focus_hint(now, fg, not_editable, cursor));
        }
        if content_kind == -2 {
            memory.sticky = None;
            return Some(memory.finalize_editable_focus_hint(now, fg, not_editable, cursor));
        }
        if caret_path(&g, fg) {
            let fallback_editor = caret_fallback_editor_rect(fg.rect, g.caret);
            proof {
                lemma_ok_is_wide(fg.rect);
            }
            let pane = compute_pane_rect(fallback_editor, fg.rect);
            let caret_hint = editable_hint(displays, fg, g.caret, fallback_editor, pane, 2);
            if is_qt_class(&fg.class_name) {
                memory.record_qt_caret_confirmation(now, fg.hwnd, &caret_hint);
            }
            return Some(memory.finalize_editable_focus_hint(now, fg, caret_hint, cursor));
        }
        if let Some(qt_hint) = memory.check_qt_caret_confirmed(now, fg.hwnd, cursor) {
            return Some(memory.finalize_editable_focus_hint(now, fg, qt_hint, cursor));
        }
        return Some(memory.finalize_editable_focus_hint(now, fg, not_editable, cursor));
    }
    let editor = editor_rect.unwrap();
    proof {
        lemma_ok_is_wide(editor);
        lemma_ok_is_wide(fg.rect);
    }
    let pane = match pane_override {
        Some(p) => p,
        None => compute_pane_rect(editor, fg.rect),
    };
    let h = editable_hint(displays, fg, g.caret, editor, pane, content_kind);
    Some(memory.finalize_editable_focus_hint(now, fg, h, cursor))
}

/// The memory only ever holds editable hints.
pub open spec fn memory_inv(m: FocusMemory) -> bool {
    (m.sticky matches Some(st) ==> st.hint.editable) && (m.qt matches Some(q) ==> q.hint.editable)
}

/// A poll keeps the memory holding editable hints only.
pub proof fn law_memory_holds_editable_hints(
    m: FocusMemory,
    now: u64,
    ds: Seq<DisplayInfo>,
    fg: ForegroundWindow,
    gti: Option<GuiThreadInfo>,
    det: Option<FocusDetection>,
    cursor: Option<(i32, i32)>,
)
    requires
        memory_inv(m),
    ensures
        memory_inv(resolve_spec(m, now, ds, fg, gti, det, cursor).0),
{
}

/// When the focused element is editable and has an editor with an area, the
/// poll reports an editable hint of the foreground window.
pub proof fn law_actionable_focus_is_reported_editable(
    m: FocusMemory,
    now: u64,
    ds: Seq<DisplayInfo>,
    fg: ForegroundWindow,
    g: GuiThreadInfo,
    d: FocusDetection,
    cursor: Option<(i32, i32)>,
)
    requires
        memory_inv(m),
        fg.hwnd != 0,
        g.focus_hwnd != 0,
        detection_parts(d).0,
        detection_parts(d).2 matches Some(e) && has_area(e),
    ensures
        ({
            let h = resolve_spec(m, now, ds, fg, Some(g), Some(d), cursor).1;
            h.editable && h.foreground_hwnd == fg.hwnd
        }),
{
}

/// Without a foreground window the poll forgets everything and reports the
/// empty hint.
pub proof fn law_no_foreground_forgets(
    m: FocusMemory,
    now: u64,
    ds: Seq<DisplayInfo>,
    fg: ForegroundWindow,
    gti: Option<GuiThreadInfo>,
    det: Option<FocusDetection>,
    cursor: Option<(i32, i32)>,
)
    requires
        fg.hwnd == 0,
    ensures
        resolve_spec(m, now, ds, fg, gti, det, cursor) == (
            FocusMemory { sticky: None, qt: None },
            empty_hint(),
        ),
{
}

/// What the protocol promises of a hint: an editable one has a content
/// kind from 1 (single line) to 3 (code) and an editing area with an area;
/// a non-editable one has kind 0.
pub open spec fn hint_in_range(h: EditableFocusHintInfo) -> bool {
    &&& h.editable ==> 1 <= h.content_kind <= 3 && has_area(h.editor)
    &&& !h.editable ==> h.content_kind == 0
}

/// A classification of the focused element that calls it editable gives a
/// content kind from 1 to 3 (see `win_uia::law_probe_kinds_in_range` and
/// `win_probe::class_spec`).
pub open spec fn detection_in_range(det: Option<FocusDetection>) -> bool {
    det matches Some(d) ==> (detection_parts(d).0 ==> 1 <= detection_parts(d).1 <= 3)
}

/// The remembered hints are editable hints within range.
pub open spec fn memory_in_range(m: FocusMemory) -> bool {
    &&& m.sticky matches Some(st) ==> st.hint.editable && hint_in_range(st.hint)
    &&& m.qt matches Some(q) ==> q.hint.editable && hint_in_range(q.hint)
}

proof fn lemma_normalize_keeps_range(ds: Seq<DisplayInfo>, h: EditableFocusHintInfo)
    requires
        hint_in_range(h),
    ensures
        hint_in_range(normalize_spec(ds, h)),
        normalize_spec(ds, h).editable == h.editable,
        normalize_spec(ds, h).foreground_hwnd == h.foreground_hwnd,
{
}

proof fn lemma_fin_keeps_range(
    m: FocusMemory,
    now: u64,
    fg: ForegroundWindow,
    h: EditableFocusHintInfo,
    cursor: Option<(i32, i32)>,
)
    requires
        memory_in_range(m),
        hint_in_range(h),
    ensures
        hint_in_range(fin(m, now, fg, h, cursor).1),
        memory_in_range(fin(m, now, fg, h, cursor).0),
{
}

proof fn lemma_caret_editor_has_area(window: Rect, caret: Rect)
    requires
        has_area(window),
        has_area(caret),
        caret_fallback_ok(window, caret),
    ensures
        has_area(caret_fallback_spec(window, caret)),
{
}

/// Every reported hint keeps the protocol's ranges, and so does the memory:
/// an editable hint has a content kind from 1 to 3 and an editing area
/// with an area, a non-editable one has kind 0. (It is stated for windows
/// with an area: a caret in a window without one gives an editable hint
/// whose editing area is that empty window.)
pub proof fn law_hint_in_range(
    m: FocusMemory,
    now: u64,
    ds: Seq<DisplayInfo>,
    fg: ForegroundWindow,
    gti: Option<GuiThreadInfo>,
    det: Option<FocusDetection>,
    cursor: Option<(i32, i32)>,
)
    requires
        resolve_ok(now, ds, fg, gti, det),
        has_area(fg.rect),
        memory_in_range(m),
        detection_in_range(det),
    ensures
        hint_in_range(resolve_spec(m, now, ds, fg, gti, det, cursor).1),
        memory_in_range(resolve_spec(m, now, ds, fg, gti, det, cursor).0),
{
    let ne = not_editable_spec(ds, fg);
    lemma_normalize_keeps_range(
        ds,
        EditableFocusHintInfo {
            editable: false,
            editor: fg.rect,
            window: fg.rect,
            pane: fg.rect,
            display_idx: window_display_idx(ds, fg.rect),
            foreground_hwnd: fg.hwnd,
            ..empty_hint()
        },
    );
    lemma_fin_keeps_range(m, now, fg, ne, cursor);
    lemma_fin_keeps_range(FocusMemory { sticky: None, qt: m.qt }, now, fg, ne, cursor);
    if fg.hwnd != 0 && gti is Some && gti.unwrap().focus_hwnd != 0 {
        let g = gti.unwrap();
        let (editable, kind, er, po) = detection_parts(det.unwrap());
        let actionable = editable && (er matches Some(e) && has_area(e));
        if !actionable {
            if caret_path_spec(g, fg) && kind != -1 && kind != -2 {
                let fe = caret_fallback_spec(fg.rect, g.caret);
                lemma_caret_editor_has_area(fg.rect, g.caret);
                let raw = EditableFocusHintInfo {
                    editable: true,
                    caret: g.caret,
                    editor: fe,
                    window: fg.rect,
                    pane: pane_spec(fe, fg.rect),
                    display_idx: display_idx_spec(ds, center_x(fe), center_y(fe)),
                    content_kind: 2,
                    foreground_hwnd: fg.hwnd,
                };
                lemma_normalize_keeps_range(ds, raw);
                let ch = caret_hint_spec(ds, fg, g);
                let m1 = if qt_class_spec(fg.class_name@) {
                    FocusMemory {
                        sticky: m.sticky,
                        qt: Some(QtCaretConfirmation { fg_hwnd: fg.hwnd, hint: ch, last_caret_at: now }),
                    }
                } else {
                    m
                };
                lemma_fin_keeps_range(m1, now, fg, ch, cursor);
            } else if kind != -1 && kind != -2 {
                match qt_check_spec(m.qt, now, fg.hwnd, cursor) {
                    Some(qh) => lemma_fin_keeps_range(m, now, fg, qh, cursor),
                    None => {},
                }
            }
        } else {
            let e = er.unwrap();
            let pane = match po {
                Some(p) => p,
                None => pane_spec(e, fg.rect),
            };
            let raw = EditableFocusHintInfo {
                editable: true,
                caret: g.caret,
                editor: e,
                window: fg.rect,
                pane: pane,
                display_idx: display_idx_spec(ds, center_x(e), center_y(e)),
                content_kind: kind,
                foreground_hwnd: fg.hwnd,
            };
            lemma_normalize_keeps_range(ds, raw);
            lemma_fin_keeps_range(m, now, fg, editable_hint_spec(ds, fg, g.caret, e, pane, kind), cursor);
        }
    }
}

/// When nothing editable is found the editing area is the window: the
/// not-editable hint has the window's rectangle as editor.
pub proof fn law_not_editable_editor_is_window(ds: Seq<DisplayInfo>, fg: ForegroundWindow)
    ensures
        not_editable_spec(ds, fg).editor == not_editable_spec(ds, fg).window,
        !not_editable_spec(ds, fg).editable,
{
}

/// A focused bottom input that the cursor has left (the probe's
/// `BOTTOM_INPUT_DRIFT_KIND`) is reported as not editable: the remembered
/// hint is forgotten and neither the caret nor a Qt confirmation is used,
/// whatever they hold.
pub proof fn law_bottom_input_drift_not_editable(
    m: FocusMemory,
    now: u64,
    ds: Seq<DisplayInfo>,
    fg: ForegroundWindow,
    g: GuiThreadInfo,
    cursor: Option<(i32, i32)>,
)
    requires
        fg.hwnd != 0,
        g.focus_hwnd != 0,
    ensures
        ({
            let (m2, h) = resolve_spec(
                m,
                now,
                ds,
                fg,
                Some(g),
                Some(FocusDetection::ByProbe((false, crate::win_uia::BOTTOM_INPUT_DRIFT_KIND, None, None))),
                cursor,
            );
            &&& m2.sticky is None
            &&& m2.qt == m.qt
            &&& !h.editable
            &&& h == crate::focus_hint::with_fg(not_editable_spec(ds, fg), fg.hwnd)
        }),
{
}

} // verus!
