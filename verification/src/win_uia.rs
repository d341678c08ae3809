use vstd::prelude::*;
use crate::geometry::{has_area, intersection, max_int, near_point, point_near_rect, rect_has_area, rect_intersection, rects_intersect, right_of, bottom_of, wide_ok, Rect};
use crate::text::{contains, contains_seq, starts_with, starts_with_seq};
use crate::win_focus::{
    bottom_band_spec, bottom_input_drift_spec, looks_like_bottom_input_drift, looks_like_bottom_input_band, looks_like_virtual_proxy_rect,
    looks_like_visible_bottom_input_rect, seq_eq, virtual_proxy_spec, visible_bottom_input_spec,
};
use crate::win_probe::{pane_spec, ProbeResult};

verus! {

/// UI Automation control type of edit controls.
pub const UIA_EDIT_CONTROL_TYPE_ID: i32 = 50004;

/// UI Automation control type of documents.
pub const UIA_DOCUMENT_CONTROL_TYPE_ID: i32 = 50030;

/// UI Automation control type of windows.
pub const UIA_WINDOW_CONTROL_TYPE_ID: i32 = 50032;

/// What the probe reads of one UI Automation element.
#[derive(Debug)]
pub struct UiaElementProps {
    /// The element's class name, lower-cased (Unicode).
    pub class_name_lower: Vec<char>,
    /// The control type property (0 when it is not an integer).
    pub control_type: i32,
    /// Whether the element offers the value pattern.
    pub has_value: bool,
    /// Whether the element offers the text pattern.
    pub has_text: bool,
    /// The keyboard-focusable property.
    pub focusable: bool,
    /// The value-is-read-only property.
    pub read_only: bool,
    /// The bounding rectangle, sides clamped at zero.
    pub bounds: (i32, i32, i32, i32),
}

pub open spec fn content_editable_class(c: Seq<char>) -> bool {
    contains_seq(c, "contenteditable"@) || contains_seq(c, "content-editable"@) || contains_seq(
        c,
        "whencontenteditable"@,
    )
}

/// The classification of one element: not editable unless keyboard
/// focusable or edit-like (edit, document or content-editable class with a
/// value or text pattern, or an edit control); not editable when read-only;
/// edit controls are multi-line with a text pattern and single-line
/// without; documents (code) and other controls need a value or text
/// pattern. The editor is the element's bounds clipped to the host window.
pub open spec fn classify_spec(p: UiaElementProps, host: Rect) -> (bool, i32, Option<Rect>) {
    let ct = p.control_type;
    let ce = content_editable_class(p.class_name_lower@);
    let edit_like = (ct == UIA_EDIT_CONTROL_TYPE_ID || ct == UIA_DOCUMENT_CONTROL_TYPE_ID || ce) && (
    p.has_value || p.has_text || ct == UIA_EDIT_CONTROL_TYPE_ID);
    if !p.focusable && !edit_like {
        (false, 0, None)
    } else if p.read_only {
        (false, 0, None)
    } else if ct == UIA_EDIT_CONTROL_TYPE_ID {
        (true, if p.has_text { 2 } else { 1 }, intersection(p.bounds, host))
    } else if !p.has_value && !p.has_text {
        (false, 0, None)
    } else if ct == UIA_DOCUMENT_CONTROL_TYPE_ID {
        (true, 3, intersection(p.bounds, host))
    } else {
        (true, 2, intersection(p.bounds, host))
    }
}

pub fn classify_element(p: &UiaElementProps, host_rect: (i32, i32, i32, i32)) -> (r: (bool, i32, Option<(i32, i32, i32, i32)>))
    ensures
        r == classify_spec(*p, host_rect),
{
    let ct = p.control_type;
    let c = p.class_name_lower.as_slice();
    let ce = contains(c, &crate::text::chars_of("contenteditable")) || contains(
        c,
        &crate::text::chars_of("content-editable"),
    ) || contains(c, &crate::text::chars_of("whencontenteditable"));
    let edit_like = (ct == UIA_EDIT_CONTROL_TYPE_ID || ct == UIA_DOCUMENT_CONTROL_TYPE_ID || ce) && (
    p.has_value || p.has_text || ct == UIA_EDIT_CONTROL_TYPE_ID);
    if !p.focusable && !edit_like {
        return (false, 0, None);
    }
    if p.read_only {
        return (false, 0, None);
    }
    let kind = if ct == UIA_EDIT_CONTROL_TYPE_ID {
        if p.has_text {
            2
        } else {
            1
        }
    } else if ct == UIA_DOCUMENT_CONTROL_TYPE_ID {
        if !p.has_value && !p.has_text {
            return (false, 0, None);
        }
        3
    } else {
        if !p.has_value && !p.has_text {
            return (false, 0, None);
        }
        2
    };
    (true, kind, rect_intersection(p.bounds, host_rect))
}

/// An ancestor that is a code pane: a Monaco editor or a document, visible
/// inside the host and at least 28% (420 px) wide and 35% (220 px) tall.
pub open spec fn code_pane_spec(class_lower: Seq<char>, control_type: i32, visible: Option<Rect>, host: Rect) -> Option<Rect> {
    match visible {
        Some(r) => {
            let monaco = contains_seq(class_lower, "monaco"@);
            let doc = control_type == UIA_DOCUMENT_CONTROL_TYPE_ID;
            let wide = r.2 >= max_int(host.2 * 28 / 100, 420);
            let tall = r.3 >= max_int(host.3 * 35 / 100, 220);
            if (monaco || doc) && wide && tall {
                Some(r)
            } else {
                None
            }
        },
        None => None,
    }
}

fn max_i64(a: i64, b: i64) -> (r: i64)
    ensures
        r == max_int(a as int, b as int),
{
    if a >= b {
        a
    } else {
        b
    }
}

pub fn code_pane_candidate(
    class_lower: &[char],
    control_type: i32,
    visible: Option<(i32, i32, i32, i32)>,
    host_rect: (i32, i32, i32, i32),
) -> (r: Option<(i32, i32, i32, i32)>)
    ensures
        r == code_pane_spec(class_lower@, control_type, visible, host_rect),
{
    match visible {
        Some(rect) => {
            let monaco = contains(class_lower, &crate::text::chars_of("monaco"));
            let doc = control_type == UIA_DOCUMENT_CONTROL_TYPE_ID;
            let wide = rect.2 as i64 >= max_i64(host_rect.2 as i64 * 28 / 100, 420);
            let tall = rect.3 as i64 >= max_i64(host_rect.3 as i64 * 35 / 100, 220);
            if (monaco || doc) && wide && tall {
                Some(rect)
            } else {
                None
            }
        },
        None => None,
    }
}

/// An editable candidate inside a code pane is upgraded to code, with the
/// pane, unless it (or the pane, when it has no editor) is a bottom input
/// band of the host.
pub open spec fn merge_spec(candidate: (bool, i32, Option<Rect>), code_pane: Option<Rect>, host: Rect) -> ProbeResult {
    let (editable, kind, editor) = candidate;
    if !editable {
        (editable, kind, editor, None)
    } else {
        match code_pane {
            None => (editable, kind, editor, None),
            Some(pane) => {
                let c = match editor {
                    Some(e) => e,
                    None => pane,
                };
                if bottom_band_spec(c, host) {
                    (editable, kind, editor, None)
                } else {
                    (true, 3, if editor is Some { editor } else { Some(pane) }, Some(pane))
                }
            },
        }
    }
}

pub fn merge_code_candidate(
    candidate: (bool, i32, Option<(i32, i32, i32, i32)>),
    code_pane: Option<(i32, i32, i32, i32)>,
    host_rect: (i32, i32, i32, i32),
) -> (r: ProbeResult)
    ensures
        r == merge_spec(candidate, code_pane, host_rect),
{
    let (editable, content_kind, editor_rect) = candidate;
    if !editable {
        return (editable, content_kind, editor_rect, None);
    }
    let code_pane_rect = match code_pane {
        Some(p) => p,
        None => return (editable, content_kind, editor_rect, None),
    };
    let candidate_rect = match editor_rect {
        Some(e) => e,
        None => code_pane_rect,
    };
    if looks_like_bottom_input_band(candidate_rect, host_rect) {
        return (editable, content_kind, editor_rect, None);
    }
    let editor = match editor_rect {
        Some(e) => Some(e),
        None => Some(code_pane_rect),
    };
    (true, 3, editor, Some(code_pane_rect))
}

/// Hosts whose UI Automation focus needs the cursor-based probe: Chromium,
/// CEF and WPF windows.
pub open spec fn chromium_host_spec(c: Seq<char>) -> bool {
    contains_seq(c, "CHROME_WIDGET"@) || contains_seq(c, "Chrome_Widget"@) || contains_seq(
        c,
        "Chrome_RenderWidget"@,
    ) || contains_seq(c, "CEFBROWSER"@) || c == "HWNDSOURCE"@ || starts_with_seq(c, "WPF"@)
}

pub fn is_chromium_host(host_class: &[char]) -> (b: bool)
    ensures
        b == chromium_host_spec(host_class@),
{
    contains(host_class, &crate::text::chars_of("CHROME_WIDGET")) || contains(
        host_class,
        &crate::text::chars_of("Chrome_Widget"),
    ) || contains(host_class, &crate::text::chars_of("Chrome_RenderWidget")) || contains(
        host_class,
        &crate::text::chars_of("CEFBROWSER"),
    ) || seq_eq(host_class, &crate::text::chars_of("HWNDSOURCE")) || starts_with(
        host_class,
        &crate::text::chars_of("WPF"),
    )
}

/// On a Chromium-like host, the element under the cursor is taken as the
/// content pane when, clipped to the host, it lies within 24 px of the
/// cursor and is at least 20% (320 px) wide and 35% (220 px) tall.
pub open spec fn point_pane_spec(chromium: bool, raw: Option<Rect>, host: Rect, cursor: (i32, i32)) -> Option<Rect> {
    if !chromium {
        None
    } else {
        match raw {
            Some(r) => match intersection(r, host) {
                Some(v) => if near_point(v, cursor.0 as int, cursor.1 as int, 24) && v.2 >= max_int(
                    host.2 * 20 / 100,
                    320,
                ) && v.3 >= max_int(host.3 * 35 / 100, 220) {
                    Some(v)
                } else {
                    None
                },
                None => None,
            },
            None => None,
        }
    }
}

pub fn point_pane_candidate(
    chromium: bool,
    raw_rect: Option<(i32, i32, i32, i32)>,
    host_rect: (i32, i32, i32, i32),
    cursor: (i32, i32),
) -> (r: Option<(i32, i32, i32, i32)>)
    ensures
        r == point_pane_spec(chromium, raw_rect, host_rect, cursor),
{
    if !chromium {
        return None;
    }
    let raw = match raw_rect {
        Some(r) => r,
        None => return None,
    };
    let v = match rect_intersection(raw, host_rect) {
        Some(v) => v,
        None => return None,
    };
    if point_near_rect(v, cursor.0, cursor.1, 24) && v.2 as i64 >= max_i64(
        host_rect.2 as i64 * 20 / 100,
        320,
    ) && v.3 as i64 >= max_i64(host_rect.3 as i64 * 35 / 100, 220) {
        Some(v)
    } else {
        None
    }
}

/// The element under the cursor is accepted when its editor (if any) is
/// within 120 px of the cursor and it is not a virtual proxy strip, unless
/// the strip is a visible bottom input under the cursor.
pub open spec fn point_accept_spec(editor: Option<Rect>, cursor: (i32, i32), host: Rect) -> bool {
    let bounds_ok = match editor {
        Some(r) => r.0 - 120 <= cursor.0 <= right_of(r) + 120 && r.1 - 120 <= cursor.1 <= bottom_of(r)
            + 120,
        None => true,
    };
    let proxy_visible = match editor {
        Some(r) => visible_bottom_input_spec(r, host, cursor),
        None => false,
    };
    let shown = match editor {
        Some(r) => r,
        None => (0i32, 0i32, 0i32, 0i32),
    };
    bounds_ok && (!virtual_proxy_spec(shown, host) || proxy_visible)
}

pub fn point_candidate_accepted(
    editor: Option<(i32, i32, i32, i32)>,
    cursor: (i32, i32),
    host_rect: (i32, i32, i32, i32),
) -> (b: bool)
    ensures
        b == point_accept_spec(editor, cursor, host_rect),
{
    let (bounds_ok, proxy_visible, shown) = match editor {
        Some(r) => {
            let m: i64 = 120;
            let (x, y) = (cursor.0 as i64, cursor.1 as i64);
            (
                x >= r.0 as i64 - m && x <= r.0 as i64 + r.2 as i64 + m && y >= r.1 as i64 - m && y
                    <= r.1 as i64 + r.3 as i64 + m,
                looks_like_visible_bottom_input_rect(r, host_rect, cursor),
                r,
            )
        },
        None => (true, false, (0, 0, 0, 0)),
    };
    bounds_ok && (!looks_like_virtual_proxy_rect(shown, host_rect) || proxy_visible)
}

/// The result of the element under the cursor once accepted: merged with
/// its code pane, the content pane standing in for a missing pane.
pub open spec fn point_result_spec(
    candidate: (bool, i32, Option<Rect>),
    code_pane: Option<Rect>,
    host: Rect,
    content_pane: Option<Rect>,
) -> ProbeResult {
    let u = merge_spec(candidate, code_pane, host);
    (u.0, u.1, u.2, if u.3 is Some { u.3 } else { content_pane })
}

pub fn point_result(
    candidate: (bool, i32, Option<(i32, i32, i32, i32)>),
    code_pane: Option<(i32, i32, i32, i32)>,
    host_rect: (i32, i32, i32, i32),
    content_pane: Option<(i32, i32, i32, i32)>,
) -> (r: ProbeResult)
    ensures
        r == point_result_spec(candidate, code_pane, host_rect, content_pane),
{
    let u = merge_code_candidate(candidate, code_pane, host_rect);
    let pane = match u.3 {
        Some(p) => Some(p),
        None => content_pane,
    };
    (u.0, u.1, u.2, pane)
}

/// The editor of a candidate lies within 96 px of the cursor, or either is
/// unknown.
pub open spec fn cursor_matches_spec(rect: Option<Rect>, cursor: Option<(i32, i32)>) -> bool {
    match (rect, cursor) {
        (Some(r), Some(c)) => near_point(r, c.0 as int, c.1 as int, 96),
        _ => true,
    }
}

pub fn cursor_matches_candidate(rect: Option<(i32, i32, i32, i32)>, cursor: Option<(i32, i32)>) -> (b: bool)
    ensures
        b == cursor_matches_spec(rect, cursor),
{
    match (rect, cursor) {
        (Some(r), Some((x, y))) => point_near_rect(r, x, y, 96),
        _ => true,
    }
}

/// The pane of an accepted focused or host candidate: its code pane, else
/// the split pane of a visible bottom input, else the content pane.
pub open spec fn accepted_pane_spec(upgraded_pane: Option<Rect>, proxy_visible: bool, rect: Rect, host: Rect, content_pane: Option<Rect>) -> Option<Rect> {
    if upgraded_pane is Some {
        upgraded_pane
    } else if proxy_visible {
        Some(pane_spec(rect, host))
    } else {
        content_pane
    }
}

/// The probe's content kind for a focused bottom input that the cursor has
/// left: the poll then reports the window as not editable, forgets the
/// remembered hint and does not fall back to the caret.
pub const BOTTOM_INPUT_DRIFT_KIND: i32 = -2;

/// The decision after the focused element was classified: `Some` ends the
/// probe with that result, `None` goes on to the host element.
///
/// A focused editable input shaped like a visible bottom input while the
/// cursor is more than 8 px away ends the probe as not editable, with kind
/// `BOTTOM_INPUT_DRIFT_KIND`.
/// A candidate with an editor ends the probe when the editor has an area,
/// meets the host, lies near the cursor and is no virtual proxy strip (or a
/// visible bottom input); a candidate without an editor ends it at once. A
/// non-editable element does not end it.
pub open spec fn focused_spec(
    focused: (bool, i32, Option<Rect>),
    code_pane: Option<Rect>,
    cursor: Option<(i32, i32)>,
    host: Rect,
    content_pane: Option<Rect>,
) -> Option<ProbeResult> {
    if !focused.0 {
        None
    } else {
        match focused.2 {
            Some(rect) => {
                let proxy_visible = match cursor {
                    Some(c) => visible_bottom_input_spec(rect, host, c),
                    None => false,
                };
                let drift = match cursor {
                    Some(c) => bottom_input_drift_spec(rect, host, c),
                    None => false,
                };
                if drift {
                    Some((false, BOTTOM_INPUT_DRIFT_KIND, None, None))
                } else if has_area(rect) && (rect.0 < right_of(host) && right_of(rect) > host.0 && rect.1
                    < bottom_of(host) && bottom_of(rect) > host.1) && cursor_matches_spec(
                    focused.2,
                    cursor,
                ) && (!virtual_proxy_spec(rect, host) || proxy_visible) {
                    let u = merge_spec(focused, code_pane, host);
                    Some((u.0, u.1, u.2, accepted_pane_spec(u.3, proxy_visible, rect, host, content_pane)))
                } else {
                    None
                }
            },
            None => Some((focused.0, focused.1, focused.2, content_pane)),
        }
    }
}

fn proxy_visible_for(rect: (i32, i32, i32, i32), host_rect: (i32, i32, i32, i32), cursor: Option<(i32, i32)>) -> (b: bool)
    ensures
        b == match cursor {
            Some(c) => visible_bottom_input_spec(rect, host_rect, c),
            None => false,
        },
{
    match cursor {
        Some(c) => looks_like_visible_bottom_input_rect(rect, host_rect, c),
        None => false,
    }
}

pub fn focused_decision(
    focused: (bool, i32, Option<(i32, i32, i32, i32)>),
    code_pane: Option<(i32, i32, i32, i32)>,
    cursor: Option<(i32, i32)>,
    host_rect: (i32, i32, i32, i32),
    content_pane: Option<(i32, i32, i32, i32)>,
) -> (r: Option<ProbeResult>)
    requires
        wide_ok(host_rect),
        focused.2 matches Some(e) ==> wide_ok(e),
    ensures
        r == focused_spec(focused, code_pane, cursor, host_rect, content_pane),
{
    if !focused.0 {
        return None;
    }
    match focused.2 {
        Some(rect) => {
            let drift = match cursor {
                Some(c) => looks_like_bottom_input_drift(rect, host_rect, c),
                None => false,
            };
            if drift {
                return Some((false, BOTTOM_INPUT_DRIFT_KIND, None, None));
            }
            let proxy_visible = proxy_visible_for(rect, host_rect, cursor);
            if rect_has_area(rect) && rects_intersect(rect, host_rect) && cursor_matches_candidate(
                focused.2,
                cursor,
            ) && (!looks_like_virtual_proxy_rect(rect, host_rect) || proxy_visible) {
                let u = merge_code_candidate(focused, code_pane, host_rect);
                let pane = if u.3.is_some() {
                    u.3
                } else if proxy_visible {
                    Some(compute_pane_for(rect, host_rect))
                } else {
                    content_pane
                };
                Some((u.0, u.1, u.2, pane))
            } else {
                None
            }
        },
        None => Some((focused.0, focused.1, focused.2, content_pane)),
    }
}

fn compute_pane_for(rect: (i32, i32, i32, i32), host_rect: (i32, i32, i32, i32)) -> (r: (i32, i32, i32, i32))
    requires
        wide_ok(rect),
        wide_ok(host_rect),
    ensures
        r == pane_spec(rect, host_rect),
{
    if !rect_has_area(rect) || !rect_has_area(host_rect) {
        return rect;
    }
    if !((rect.2 as i64) < (host_rect.2 as i64 * 60 / 100)) {
        return rect;
    }
    let pane_width = host_rect.0 as i64 + host_rect.2 as i64 - rect.0 as i64;
    if pane_width < rect.2 as i64 * 120 / 100 || pane_width < 400 {
        return rect;
    }
    (rect.0, host_rect.1, pane_width as i32, host_rect.3)
}

/// The decision after the host window's own element was classified:
/// `Some` ends the probe. A candidate with an editor ends it when near the
/// cursor and not a virtual proxy strip (or a visible bottom input); one
/// without an editor ends it when the cursor test passes.
pub open spec fn handle_spec(
    handle: (bool, i32, Option<Rect>),
    code_pane: Option<Rect>,
    cursor: Option<(i32, i32)>,
    host: Rect,
    content_pane: Option<Rect>,
) -> Option<ProbeResult> {
    if !handle.0 {
        None
    } else {
        match handle.2 {
            Some(rect) => {
                let proxy_visible = match cursor {
                    Some(c) => visible_bottom_input_spec(rect, host, c),
                    None => false,
                };
                if cursor_matches_spec(handle.2, cursor) && (!virtual_proxy_spec(rect, host)
                    || proxy_visible) {
                    let u = merge_spec(handle, code_pane, host);
                    Some((u.0, u.1, u.2, accepted_pane_spec(u.3, proxy_visible, rect, host, content_pane)))
                } else {
                    None
                }
            },
            None => {
                let u = merge_spec(handle, code_pane, host);
                Some((u.0, u.1, u.2, if u.3 is Some { u.3 } else { content_pane }))
            },
        }
    }
}

pub fn handle_decision(
    handle: (bool, i32, Option<(i32, i32, i32, i32)>),
    code_pane: Option<(i32, i32, i32, i32)>,
    cursor: Option<(i32, i32)>,
    host_rect: (i32, i32, i32, i32),
    content_pane: Option<(i32, i32, i32, i32)>,
) -> (r: Option<ProbeResult>)
    requires
        wide_ok(host_rect),
        handle.2 matches Some(e) ==> wide_ok(e),
    ensures
        r == handle_spec(handle, code_pane, cursor, host_rect, content_pane),
{
    if !handle.0 {
        return None;
    }
    match handle.2 {
        Some(rect) => {
            let proxy_visible = proxy_visible_for(rect, host_rect, cursor);
            if cursor_matches_candidate(handle.2, cursor) && (!looks_like_virtual_proxy_rect(
                rect,
                host_rect,
            ) || proxy_visible) {
                let u = merge_code_candidate(handle, code_pane, host_rect);
                let pane = if u.3.is_some() {
                    u.3
                } else if proxy_visible {
                    Some(compute_pane_for(rect, host_rect))
                } else {
                    content_pane
                };
                Some((u.0, u.1, u.2, pane))
            } else {
                None
            }
        },
        None => {
            let u = merge_code_candidate(handle, code_pane, host_rect);
            let pane = match u.3 {
                Some(p) => Some(p),
                None => content_pane,
            };
            Some((u.0, u.1, u.2, pane))
        },
    }
}

/// The end of the probe when no stage decided: a hard negative (kind -1)
/// when the cursor surface is explicitly not editable and the fallback is
/// either missing or a stray proxy far from the cursor; a visible bottom
/// input with its split pane; a synthesized 200 x 32 editor at the cursor
/// when the editable fallback is a proxy or more than 96 px away; else the
/// fallback with the AWT code-file override, or the content pane.
pub open spec fn final_spec(
    fallback: (bool, i32, Option<Rect>),
    blocks: bool,
    cursor: Option<(i32, i32)>,
    host: Rect,
    content_pane: Option<Rect>,
    awt_override: Option<ProbeResult>,
) -> ProbeResult {
    if blocks && !fallback.0 {
        (false, -1i32, None, None)
    } else if fallback.0 && fallback.2 is Some && cursor is Some {
        let rect = fallback.2.unwrap();
        let c = cursor.unwrap();
        let is_proxy = virtual_proxy_spec(rect, host);
        let visible = visible_bottom_input_spec(rect, host, c);
        let near = near_point(rect, c.0 as int, c.1 as int, 96);
        if blocks && ((is_proxy && !visible) || !near) {
            (false, -1i32, None, None)
        } else if is_proxy && visible {
            (true, fallback.1, Some(rect), Some(pane_spec(rect, host)))
        } else if is_proxy || !near {
            (true, fallback.1, Some(((c.0 - 100) as i32, (c.1 - 16) as i32, 200i32, 32i32)), content_pane)
        } else {
            match awt_override {
                Some(o) => o,
                None => (fallback.0, fallback.1, fallback.2, content_pane),
            }
        }
    } else {
        match awt_override {
            Some(o) => o,
            None => (fallback.0, fallback.1, fallback.2, content_pane),
        }
    }
}

pub fn probe_final(
    fallback: (bool, i32, Option<(i32, i32, i32, i32)>),
    blocks: bool,
    cursor: Option<(i32, i32)>,
    host_rect: (i32, i32, i32, i32),
    content_pane: Option<(i32, i32, i32, i32)>,
    awt_override: Option<ProbeResult>,
) -> (r: ProbeResult)
    requires
        wide_ok(host_rect),
        fallback.2 matches Some(e) ==> wide_ok(e),
        cursor matches Some(c) ==> crate::geometry::coord_ok(c.0 as int) && crate::geometry::coord_ok(
            c.1 as int,
        ),
    ensures
        r == final_spec(fallback, blocks, cursor, host_rect, content_pane, awt_override),
{
    if blocks && !fallback.0 {
        return (false, -1, None, None);
    }
    if fallback.0 {
        if let (Some(rect), Some((cx, cy))) = (fallback.2, cursor) {
            let rect_is_proxy = looks_like_virtual_proxy_rect(rect, host_rect);
            let proxy_visible = looks_like_visible_bottom_input_rect(rect, host_rect, (cx, cy));
            let near = point_near_rect(rect, cx, cy, 96);
            if blocks && ((rect_is_proxy && !proxy_visible) || !near) {
                return (false, -1, None, None);
            }
            if rect_is_proxy && proxy_visible {
                return (true, fallback.1, Some(rect), Some(compute_pane_for(rect, host_rect)));
            }
            if rect_is_proxy || !near {
                return (true, fallback.1, Some((cx - 100, cy - 16, 200, 32)), content_pane);
            }
        }
    }
    match awt_override {
        Some(o) => o,
        None => (fallback.0, fallback.1, fallback.2, content_pane),
    }
}

/// In the descendant search, a node is explored when its visible rectangle
/// is within 48 px of the cursor, or (without a rectangle) when it is at
/// most two levels deep.
pub open spec fn explore_spec(visible: Option<Rect>, depth: int, cursor: (i32, i32)) -> bool {
    match visible {
        Some(r) => near_point(r, cursor.0 as int, cursor.1 as int, 48),
        None => depth <= 2,
    }
}

pub fn descendant_near_cursor(visible: Option<(i32, i32, i32, i32)>, depth: usize, cursor: (i32, i32)) -> (b: bool)
    ensures
        b == explore_spec(visible, depth as int, cursor),
{
    match visible {
        Some(r) => point_near_rect(r, cursor.0, cursor.1, 48),
        None => depth <= 2,
    }
}

/// A descendant ends the search when it classifies as editable with an
/// editor within 48 px of the cursor.
pub open spec fn descendant_hit_spec(candidate: (bool, i32, Option<Rect>), cursor: (i32, i32)) -> bool {
    candidate.0 && (candidate.2 matches Some(r) && near_point(r, cursor.0 as int, cursor.1 as int, 48))
}

pub fn descendant_hit(candidate: (bool, i32, Option<(i32, i32, i32, i32)>), cursor: (i32, i32)) -> (b: bool)
    ensures
        b == descendant_hit_spec(candidate, cursor),
{
    candidate.0 && match candidate.2 {
        Some(r) => point_near_rect(r, cursor.0, cursor.1, 48),
        None => false,
    }
}

/// A probe result that calls the element editable gives a content kind
/// from 1 to 3.
pub open spec fn probe_kind_ok(editable: bool, kind: i32) -> bool {
    editable ==> 1 <= kind <= 3
}

/// The probe's stages keep the content kind of an editable result between
/// 1 and 3: the classification gives 1 to 3 for an editable element, and
/// the later stages keep the kind of the candidate they accept (or make it
/// 3), the hard negative and the bottom-input drift being not editable.
pub proof fn law_probe_kinds_in_range(
    p: UiaElementProps,
    host: Rect,
    candidate: (bool, i32, Option<Rect>),
    code_pane: Option<Rect>,
    cursor: Option<(i32, i32)>,
    content_pane: Option<Rect>,
    blocks: bool,
    awt_override: Option<ProbeResult>,
    class_name: Seq<char>,
    title: Seq<char>,
    style: u32,
)
    requires
        probe_kind_ok(candidate.0, candidate.1),
        awt_override matches Some(o) ==> probe_kind_ok(o.0, o.1),
    ensures
        probe_kind_ok(classify_spec(p, host).0, classify_spec(p, host).1),
        probe_kind_ok(merge_spec(candidate, code_pane, host).0, merge_spec(candidate, code_pane, host).1),
        focused_spec(candidate, code_pane, cursor, host, content_pane) matches Some(r) ==> probe_kind_ok(r.0, r.1),
        handle_spec(candidate, code_pane, cursor, host, content_pane) matches Some(r) ==> probe_kind_ok(r.0, r.1),
        probe_kind_ok(
            final_spec(candidate, blocks, cursor, host, content_pane, awt_override).0,
            final_spec(candidate, blocks, cursor, host, content_pane, awt_override).1,
        ),
        crate::win_probe::class_spec(class_name, style) matches Some(c) ==> probe_kind_ok(c.0, c.1),
        crate::win_probe::awt_override_spec(class_name, title, host, cursor) matches Some(o) ==> probe_kind_ok(o.0, o.1),
{
}

} // verus!
