use vstd::prelude::*;
use crate::focus_hint::EditableFocusHintInfo;
use crate::geometry::{abs_int, area, center, center_fits, clamp_i32, clamp_int, fits_i32, half, has_area, max_i32, max_i64, max_int, near_point, rect_eq, normalize_rect_to_display, point_near_rect, rect_area, rect_center, rect_has_area, right_of, to_display, to_display_fits, DisplayInfo, Rect};
use crate::text::{chars_of, contains, contains_seq, to_lowercase, lower_text};

verus! {

/// Windows: the display whose half-open area `[x, x + w) x [y, y + h)`
/// holds the point.
pub open spec fn display_holds(d: DisplayInfo, x: int, y: int) -> bool {
    d.x <= x < d.x + d.width && d.y <= y < d.y + d.height
}

/// Index of the first display, from `k` on, that holds the point.
pub open spec fn first_display_from(ds: Seq<DisplayInfo>, x: int, y: int, k: int) -> Option<int>
    decreases ds.len() - k,
{
    if k < 0 || k >= ds.len() {
        None
    } else if display_holds(ds[k], x, y) {
        Some(k)
    } else {
        first_display_from(ds, x, y, k + 1)
    }
}

/// Index of the first display that holds the point.
pub open spec fn first_display_for(ds: Seq<DisplayInfo>, x: int, y: int) -> Option<int> {
    first_display_from(ds, x, y, 0)
}

proof fn lemma_first_from_in_range(ds: Seq<DisplayInfo>, x: int, y: int, k: int)
    requires
        k >= 0,
    ensures
        first_display_from(ds, x, y, k) matches Some(i) ==> k <= i < ds.len() && display_holds(
            ds[i],
            x,
            y,
        ),
    decreases ds.len() - k,
{
    if k < ds.len() && !display_holds(ds[k], x, y) {
        lemma_first_from_in_range(ds, x, y, k + 1);
    }
}

proof fn lemma_first_from_exists(ds: Seq<DisplayInfo>, x: int, y: int, k: int, j: int)
    requires
        0 <= k <= j < ds.len(),
        display_holds(ds[j], x, y),
    ensures
        first_display_from(ds, x, y, k) is Some,
    decreases j - k,
{
    if !display_holds(ds[k], x, y) {
        lemma_first_from_exists(ds, x, y, k + 1, j);
    }
}

proof fn lemma_first_display_exists(ds: Seq<DisplayInfo>, x: int, y: int, j: int)
    requires
        0 <= j < ds.len(),
        display_holds(ds[j], x, y),
    ensures
        first_display_for(ds, x, y) is Some,
{
    lemma_first_from_exists(ds, x, y, 0, j);
}

pub proof fn lemma_first_display_in_range(ds: Seq<DisplayInfo>, x: int, y: int)
    ensures
        first_display_for(ds, x, y) matches Some(i) ==> 0 <= i < ds.len() && display_holds(
            ds[i],
            x,
            y,
        ),
{
    lemma_first_from_in_range(ds, x, y, 0);
}

pub proof fn lemma_hint_display_in_range(ds: Seq<DisplayInfo>, h: EditableFocusHintInfo)
    ensures
        hint_display(ds, h) matches Some(i) ==> 0 <= i < ds.len(),
{
    if let Some(c) = center(h.editor) {
        lemma_first_display_in_range(ds, c.0 as int, c.1 as int);
    }
    if let Some(c) = center(h.pane) {
        lemma_first_display_in_range(ds, c.0 as int, c.1 as int);
    }
    if let Some(c) = center(h.window) {
        lemma_first_display_in_range(ds, c.0 as int, c.1 as int);
    }
    if let Some(c) = center(h.caret) {
        lemma_first_display_in_range(ds, c.0 as int, c.1 as int);
    }
}

/// The index of the first display that holds the point (Windows bounds).
pub fn find_display_idx_for_point(displays: &[DisplayInfo], cx: i32, cy: i32) -> (r: Option<usize>)
    ensures
        match r {
            Some(i) => first_display_for(displays@, cx as int, cy as int) == Some(i as int) && i
                < displays@.len(),
            None => first_display_for(displays@, cx as int, cy as int) is None,
        },
{
    let mut i: usize = 0;
    while i < displays.len()
        invariant
            i <= displays@.len(),
            first_display_for(displays@, cx as int, cy as int) == first_display_from(
                displays@,
                cx as int,
                cy as int,
                i as int,
            ),
        decreases displays@.len() - i,
    {
        let d = &displays[i];
        if cx as i64 >= d.x as i64 && (cx as i64) < d.x as i64 + d.width as i64 && cy as i64
            >= d.y as i64 && (cy as i64) < d.y as i64 + d.height as i64 {
            return Some(i);
        }
        i = i + 1;
    }
    None
}

pub open spec fn display_idx_spec(ds: Seq<DisplayInfo>, x: int, y: int) -> i32 {
    match first_display_for(ds, x, y) {
        Some(i) => i as i32,
        None => 0,
    }
}

/// The index of the display holding the point, 0 when none does.
pub fn display_idx_for_point(displays: &[DisplayInfo], cx: i32, cy: i32) -> (r: i32)
    ensures
        r == display_idx_spec(displays@, cx as int, cy as int),
{
    match find_display_idx_for_point(displays, cx, cy) {
        Some(i) => i as i32,
        None => 0,
    }
}

/// The display chosen for a hint: the one holding the center of the editor,
/// else of the pane, else of the window, else of the caret.
/// The display holding the center of a rectangle with area.
pub open spec fn display_of_rect(ds: Seq<DisplayInfo>, r: Rect) -> Option<int> {
    match center(r) {
        Some(c) => first_display_for(ds, c.0 as int, c.1 as int),
        None => None,
    }
}

pub open spec fn hint_display(ds: Seq<DisplayInfo>, h: EditableFocusHintInfo) -> Option<int> {
    if display_of_rect(ds, h.editor) is Some {
        display_of_rect(ds, h.editor)
    } else if display_of_rect(ds, h.pane) is Some {
        display_of_rect(ds, h.pane)
    } else if display_of_rect(ds, h.window) is Some {
        display_of_rect(ds, h.window)
    } else {
        display_of_rect(ds, h.caret)
    }
}

pub open spec fn hint_centers_fit(h: EditableFocusHintInfo) -> bool {
    center_fits(h.editor) && center_fits(h.pane) && center_fits(h.window) && center_fits(h.caret)
}

pub open spec fn hint_fits_display(h: EditableFocusHintInfo, d: DisplayInfo) -> bool {
    to_display_fits(h.caret, d) && to_display_fits(h.editor, d) && to_display_fits(h.window, d)
        && to_display_fits(h.pane, d)
}

/// The hint with its rectangles made relative to display `i`.
pub open spec fn hint_on_display(
    h: EditableFocusHintInfo,
    d: DisplayInfo,
    i: int,
) -> EditableFocusHintInfo {
    EditableFocusHintInfo {
        caret: to_display(h.caret, d),
        editor: to_display(h.editor, d),
        window: to_display(h.window, d),
        pane: to_display(h.pane, d),
        display_idx: i as i32,
        ..h
    }
}

pub open spec fn normalize_spec(ds: Seq<DisplayInfo>, h: EditableFocusHintInfo) -> EditableFocusHintInfo {
    match hint_display(ds, h) {
        Some(i) => hint_on_display(h, ds[i], i),
        None => h,
    }
}

pub open spec fn normalize_ok(ds: Seq<DisplayInfo>, h: EditableFocusHintInfo) -> bool {
    hint_centers_fit(h) && (hint_display(ds, h) matches Some(i) ==> hint_fits_display(h, ds[i]))
}

fn display_for_rect(displays: &[DisplayInfo], r: (i32, i32, i32, i32)) -> (o: Option<usize>)
    requires
        center_fits(r),
    ensures
        match o {
            Some(i) => display_of_rect(displays@, r) == Some(i as int) && i < displays@.len(),
            None => display_of_rect(displays@, r) is None,
        },
{
    match rect_center(r) {
        Some((cx, cy)) => find_display_idx_for_point(displays, cx, cy),
        None => None,
    }
}

/// Makes the hint's rectangles relative to the display that holds it and
/// records that display's index.
pub fn normalize_editable_focus_hint_to_display(
    displays: &[DisplayInfo],
    hint: EditableFocusHintInfo,
) -> (r: EditableFocusHintInfo)
    requires
        normalize_ok(displays@, hint),
    ensures
        r == normalize_spec(displays@, hint),
{
    let mut idx = display_for_rect(displays, hint.editor);
    if idx.is_none() {
        idx = display_for_rect(displays, hint.pane);
    }
    if idx.is_none() {
        idx = display_for_rect(displays, hint.window);
    }
    if idx.is_none() {
        idx = display_for_rect(displays, hint.caret);
    }
    match idx {
        None => hint,
        Some(i) => {
            let d = &displays[i];
            EditableFocusHintInfo {
                caret: normalize_rect_to_display(hint.caret, d),
                editor: normalize_rect_to_display(hint.editor, d),
                window: normalize_rect_to_display(hint.window, d),
                pane: normalize_rect_to_display(hint.pane, d),
                display_idx: i as i32,
                ..hint
            }
        },
    }
}

// ---------------------------------------------------------------------
// Shape heuristics of the Windows probe.
// ---------------------------------------------------------------------
pub open spec fn lower_half(rect: Rect, window: Rect) -> bool {
    rect.1 + rect.3 / 2 >= window.1 + window.3 / 2
}

/// A wide, short strip in the lower half of the window: the shape of the
/// hidden proxy text areas that some Electron apps focus.
pub open spec fn virtual_proxy_spec(rect: Rect, window: Rect) -> bool {
    has_area(rect) && has_area(window) && rect.3 <= 40 && rect.2 >= max_int(
        window.2 * 25 / 100,
        320,
    ) && rect.2 >= rect.3 * 6 && lower_half(rect, window)
}

pub fn looks_like_virtual_proxy_rect(rect: (i32, i32, i32, i32), window: (i32, i32, i32, i32)) -> (b: bool)
    ensures
        b == virtual_proxy_spec(rect, window),
{
    if !rect_has_area(rect) || !rect_has_area(window) {
        return false;
    }
    let width_threshold = max_i64(window.2 as i64 * 25 / 100, 320);
    let lower = rect.1 as i64 + rect.3 as i64 / 2 >= window.1 as i64 + window.3 as i64 / 2;
    rect.3 <= 40 && rect.2 as i64 >= width_threshold && rect.2 as i64 >= rect.3 as i64 * 6 && lower
}

/// A visible bottom input box under the cursor, anchored to one side of the
/// window and neither too narrow nor too wide.
pub open spec fn visible_bottom_input_spec(rect: Rect, window: Rect, cursor: (i32, i32)) -> bool {
    let min_width = max_int(window.2 * 25 / 100, 420);
    let max_width = max_int(window.2 * 70 / 100, min_width);
    let left_inset = rect.0 - window.0;
    let right_inset = right_of(window) - right_of(rect);
    &&& has_area(rect)
    &&& has_area(window)
    &&& near_point(rect, cursor.0 as int, cursor.1 as int, 24)
    &&& lower_half(rect, window)
    &&& rect.3 <= 48
    &&& rect.2 >= min_width
    &&& rect.2 <= max_width
    &&& (abs_int(left_inset) <= 80 || abs_int(right_inset) <= 80)
}

/// A focused input that keeps keyboard focus with the shape of a visible
/// bottom input (a find bar, say) after the cursor has moved more than 8
/// pixels away from it: the drift that must not be reported as editable.
pub open spec fn bottom_input_drift_spec(rect: Rect, window: Rect, cursor: (i32, i32)) -> bool {
    let min_width = max_int(window.2 * 25 / 100, 420);
    let max_width = max_int(window.2 * 70 / 100, min_width);
    let left_inset = rect.0 - window.0;
    let right_inset = right_of(window) - right_of(rect);
    &&& has_area(rect)
    &&& has_area(window)
    &&& !near_point(rect, cursor.0 as int, cursor.1 as int, 8)
    &&& lower_half(rect, window)
    &&& rect.3 <= 48
    &&& rect.2 >= min_width
    &&& rect.2 <= max_width
    &&& (abs_int(left_inset) <= 80 || abs_int(right_inset) <= 80)
}

pub fn abs_i64(v: i64) -> (r: i64)
    requires
        v > i64::MIN,
    ensures
        r == abs_int(v as int),
{
    if v < 0 {
        -v
    } else {
        v
    }
}

pub fn looks_like_visible_bottom_input_rect(
    rect: (i32, i32, i32, i32),
    window: (i32, i32, i32, i32),
    cursor: (i32, i32),
) -> (b: bool)
    ensures
        b == visible_bottom_input_spec(rect, window, cursor),
{
    if !rect_has_area(rect) || !rect_has_area(window) {
        return false;
    }
    if !point_near_rect(rect, cursor.0, cursor.1, 24) {
        return false;
    }
    let lower = rect.1 as i64 + rect.3 as i64 / 2 >= window.1 as i64 + window.3 as i64 / 2;
    let left_inset = rect.0 as i64 - window.0 as i64;
    let right_inset = (window.0 as i64 + window.2 as i64) - (rect.0 as i64 + rect.2 as i64);
    let side_anchored = abs_i64(left_inset) <= 80 || abs_i64(right_inset) <= 80;
    let min_width = max_i64(window.2 as i64 * 25 / 100, 420);
    let max_width = max_i64(window.2 as i64 * 70 / 100, min_width);
    lower && rect.3 <= 48 && rect.2 as i64 >= min_width && rect.2 as i64 <= max_width
        && side_anchored
}

pub fn looks_like_bottom_input_drift(
    rect: (i32, i32, i32, i32),
    window: (i32, i32, i32, i32),
    cursor: (i32, i32),
) -> (b: bool)
    ensures
        b == bottom_input_drift_spec(rect, window, cursor),
{
    if !rect_has_area(rect) || !rect_has_area(window) {
        return false;
    }
    if point_near_rect(rect, cursor.0, cursor.1, 8) {
        return false;
    }
    let lower = rect.1 as i64 + rect.3 as i64 / 2 >= window.1 as i64 + window.3 as i64 / 2;
    let left_inset = rect.0 as i64 - window.0 as i64;
    let right_inset = (window.0 as i64 + window.2 as i64) - (rect.0 as i64 + rect.2 as i64);
    let side_anchored = abs_i64(left_inset) <= 80 || abs_i64(right_inset) <= 80;
    let min_width = max_i64(window.2 as i64 * 25 / 100, 420);
    let max_width = max_i64(window.2 as i64 * 70 / 100, min_width);
    lower && rect.3 <= 48 && rect.2 as i64 >= min_width && rect.2 as i64 <= max_width
        && side_anchored
}

pub open spec fn bottom_band_spec(rect: Rect, window: Rect) -> bool {
    has_area(rect) && has_area(window) && rect.3 <= 56 && rect.2 >= max_int(
        window.2 * 25 / 100,
        320,
    ) && lower_half(rect, window)
}

/// A short, wide rectangle in the lower half of the window.
pub fn looks_like_bottom_input_band(rect: (i32, i32, i32, i32), window: (i32, i32, i32, i32)) -> (b: bool)
    ensures
        b == bottom_band_spec(rect, window),
{
    if !rect_has_area(rect) || !rect_has_area(window) {
        return false;
    }
    let lower = rect.1 as i64 + rect.3 as i64 / 2 >= window.1 as i64 + window.3 as i64 / 2;
    rect.3 <= 56 && rect.2 as i64 >= max_i64(window.2 as i64 * 25 / 100, 320) && lower
}

/// The lower-case class fragments of surfaces that are explicitly not
/// editable: web content that forbids selection, and the taskbar's list
/// buttons (`Taskbar.TaskListButtonAutomationPeer`).
pub open spec fn no_user_select_fragment() -> Seq<char> {
    "no-user-select"@
}

pub open spec fn taskbar_button_fragment() -> Seq<char> {
    "tasklistbuttonautomationpeer"@
}

/// Whether a class name marks the surface under the cursor as explicitly
/// not editable: its lower case contains one of those fragments.
pub open spec fn explicitly_noneditable_spec(class_name: Seq<char>) -> bool {
    contains_seq(lower_text(class_name), no_user_select_fragment()) || contains_seq(
        lower_text(class_name),
        taskbar_button_fragment(),
    )
}

pub fn cursor_surface_explicitly_noneditable(class_name: &[char]) -> (b: bool)
    ensures
        b == explicitly_noneditable_spec(class_name@),
{
    let lower = to_lowercase(class_name);
    contains(&lower, &chars_of("no-user-select")) || contains(
        &lower,
        &chars_of("tasklistbuttonautomationpeer"),
    )
}

/// The previous editor's horizontal center lies within the new editor
/// widened by a tenth of its width (kept between 48 and 160 pixels).
pub open spec fn proxy_matches_spec(prev: EditableFocusHintInfo, next: EditableFocusHintInfo) -> bool {
    let prev_center_x = prev.editor.0 + prev.editor.2 / 2;
    let margin = clamp_int(next.editor.2 / 10, 48, 160);
    has_area(prev.editor) && has_area(next.editor) && next.editor.0 - margin <= prev_center_x
        <= right_of(next.editor) + margin
}

pub fn virtual_proxy_still_matches_previous_hint(
    prev: &EditableFocusHintInfo,
    next: &EditableFocusHintInfo,
) -> (b: bool)
    ensures
        b == proxy_matches_spec(*prev, *next),
{
    if !rect_has_area(prev.editor) || !rect_has_area(next.editor) {
        return false;
    }
    let prev_center_x = prev.editor.0 as i64 + prev.editor.2 as i64 / 2;
    let next_left = next.editor.0 as i64;
    let next_right = next.editor.0 as i64 + next.editor.2 as i64;
    let margin = clamp_i32(next.editor.2 / 10, 48, 160) as i64;
    prev_center_x >= next_left - margin && prev_center_x <= next_right + margin
}

/// Keep the previous hint when the new editable hint is only a virtual
/// proxy strip and the previous one had a real pane that still lines up.
pub open spec fn keep_previous_spec(prev: EditableFocusHintInfo, next: EditableFocusHintInfo) -> bool {
    &&& next.editable
    &&& virtual_proxy_spec(next.editor, next.window)
    &&& (!has_area(next.pane) || next.pane == next.editor)
    &&& has_area(prev.pane)
    &&& prev.pane != prev.editor
    &&& proxy_matches_spec(prev, next)
}

pub fn should_keep_previous_virtual_cursor_hint(
    prev: &EditableFocusHintInfo,
    next: &EditableFocusHintInfo,
) -> (b: bool)
    ensures
        b == keep_previous_spec(*prev, *next),
{
    next.editable && looks_like_virtual_proxy_rect(next.editor, next.window) && (!rect_has_area(
        next.pane,
    ) || rect_eq(next.pane, next.editor)) && rect_has_area(prev.pane) && !rect_eq(prev.pane, prev.editor)
        && virtual_proxy_still_matches_previous_hint(prev, next)
}

/// Reuse the previous hint on a blocked surface when the cursor is within
/// 96 pixels of its editor, or within 24 pixels of a real pane that belongs
/// to a bottom input band.
pub open spec fn blocked_surface_spec(prev: EditableFocusHintInfo, x: int, y: int) -> bool {
    near_point(prev.editor, x, y, 96) || (has_area(prev.pane) && prev.pane != prev.window
        && bottom_band_spec(prev.editor, prev.window) && near_point(prev.pane, x, y, 24))
}

pub fn should_reuse_sticky_for_blocked_surface(prev: &EditableFocusHintInfo, x: i32, y: i32) -> (b: bool)
    ensures
        b == blocked_surface_spec(*prev, x as int, y as int),
{
    if point_near_rect(prev.editor, x, y, 96) {
        return true;
    }
    rect_has_area(prev.pane) && !rect_eq(prev.pane, prev.window) && looks_like_bottom_input_band(
        prev.editor,
        prev.window,
    ) && point_near_rect(prev.pane, x, y, 24)
}

/// What the focus logic reads of the foreground window.
#[derive(Debug)]
pub struct ForegroundWindow {
    /// Window handle value; 0 for no window.
    pub hwnd: isize,
    /// Window class name.
    pub class_name: Vec<char>,
    /// Window title as shown in logs: at most 80 bytes, CR and LF turned
    /// into spaces.
    pub title: Vec<char>,
    /// Window rectangle; all zero when it could not be read.
    pub rect: (i32, i32, i32, i32),
}

/// `StartupDui` windows are transient when they have no title or area, or
/// are small (area at most 180000 and no side over 520).
pub open spec fn startupdui_transient_spec(rect: Rect, title: Seq<char>) -> bool {
    title.len() == 0 || !has_area(rect) || (area(rect) <= 180_000 && max_int(
        rect.2 as int,
        rect.3 as int,
    ) <= 520)
}

pub fn startupdui_looks_transient(rect: (i32, i32, i32, i32), title: &[char]) -> (b: bool)
    ensures
        b == startupdui_transient_spec(rect, title@),
{
    if title.len() == 0 || !rect_has_area(rect) {
        return true;
    }
    let a = rect_area(rect);
    let max_edge = max_i32(rect.2, rect.3);
    a <= 180_000 && max_edge <= 520
}

pub open spec fn seq_of_str(s: &str) -> Seq<char> {
    s@
}

pub open spec fn transient_fg_spec(w: ForegroundWindow) -> bool {
    let c = w.class_name@;
    if w.hwnd == 0 {
        false
    } else if c == "ForegroundStaging"@ || c == "Shell_TrayWnd"@ || c == "ControlCenterWindow"@
        || c == "XamlExplorerHostIslandWindow"@ {
        true
    } else if c == "StartupDui"@ {
        startupdui_transient_spec(w.rect, w.title@)
    } else {
        c == "Chrome_WidgetWin_1"@ && contains_seq(w.title@, "notification: command completed"@)
    }
}

/// Whether a foreground window is a shell surface that only flashes up
/// (staging windows, task bar, control center, small `StartupDui` windows,
/// Chrome notification toasts), so that the previous hint may be kept.
pub fn should_reuse_sticky_for_transient_fg(w: &ForegroundWindow) -> (b: bool)
    ensures
        b == transient_fg_spec(*w),
{
    if w.hwnd == 0 {
        return false;
    }
    let c = w.class_name.as_slice();
    let staging = chars_of("ForegroundStaging");
    let tray = chars_of("Shell_TrayWnd");
    let control = chars_of("ControlCenterWindow");
    let xaml = chars_of("XamlExplorerHostIslandWindow");
    let dui = chars_of("StartupDui");
    let chrome = chars_of("Chrome_WidgetWin_1");
    let note = chars_of("notification: command completed");
    if seq_eq(c, &staging) || seq_eq(c, &tray) || seq_eq(c, &control) || seq_eq(c, &xaml) {
        return true;
    }
    if seq_eq(c, &dui) {
        return startupdui_looks_transient(w.rect, &w.title);
    }
    seq_eq(c, &chrome) && contains(&w.title, &note)
}

/// Character-wise equality of two sequences.
pub fn seq_eq(a: &[char], b: &[char]) -> (r: bool)
    ensures
        r == (a@ == b@),
{
    if a.len() != b.len() {
        return false;
    }
    let mut i: usize = 0;
    while i < a.len()
        invariant
            a@.len() == b@.len(),
            i <= a@.len(),
            forall|k: int| 0 <= k < i ==> a@[k] == b@[k],
        decreases a@.len() - i,
    {
        if a[i] != b[i] {
            return false;
        }
        i = i + 1;
    }
    assert(a@ =~= b@);
    true
}

/// The display of the foreground window (its bounds given as left, top,
/// right, bottom): the first that holds the window's centre, each half
/// rounded toward zero.
pub fn focused_display_for_window(displays: &[DisplayInfo], bounds: (i32, i32, i32, i32)) -> (r: Option<usize>)
    requires
        fits_i32(bounds.2 - bounds.0),
        fits_i32(bounds.3 - bounds.1),
    ensures
        ({
            let cx = bounds.0 + half(bounds.2 - bounds.0);
            let cy = bounds.1 + half(bounds.3 - bounds.1);
            match r {
                Some(i) => first_display_for(displays@, cx, cy) == Some(i as int),
                None => first_display_for(displays@, cx, cy) is None,
            }
        }),
{
    let (left, top, right, bottom) = bounds;
    let cx = left + (right - left) / 2;
    let cy = top + (bottom - top) / 2;
    find_display_idx_for_point(displays, cx, cy)
}

/// `b` is the rectangle `a` seen from display `d`: moved by `(-d.x, -d.y)`
/// with its size kept when it has an area, unchanged otherwise.
pub open spec fn seen_from_display(a: Rect, b: Rect, d: DisplayInfo) -> bool {
    if a.2 > 0 && a.3 > 0 {
        b.0 == a.0 - d.x && b.1 == a.1 - d.y && b.2 == a.2 && b.3 == a.3
    } else {
        b == a
    }
}

/// A hint made relative to its display: it records the display's index and
/// every rectangle with an area (caret, editor, window, pane) is moved by
/// the display's origin, so that it lies where it lies on that display;
/// rectangles without area and everything else stay as they were. The
/// display chosen holds the editor's centre whenever some display does.
/// A hint on no display is left as it is.
pub proof fn law_normalize_moves_hint_onto_its_display(ds: Seq<DisplayInfo>, h: EditableFocusHintInfo)
    requires
        normalize_ok(ds, h),
    ensures
        ({
            let r = normalize_spec(ds, h);
            match hint_display(ds, h) {
                Some(i) => {
                    &&& 0 <= i < ds.len()
                    &&& r.display_idx == i as i32
                    &&& seen_from_display(h.caret, r.caret, ds[i])
                    &&& seen_from_display(h.editor, r.editor, ds[i])
                    &&& seen_from_display(h.window, r.window, ds[i])
                    &&& seen_from_display(h.pane, r.pane, ds[i])
                    &&& r.editable == h.editable
                    &&& r.content_kind == h.content_kind
                    &&& r.foreground_hwnd == h.foreground_hwnd
                    &&& (h.editor.2 > 0 && h.editor.3 > 0 && (exists|j: int|
                        0 <= j < ds.len() && #[trigger] display_holds(
                            ds[j],
                            h.editor.0 + half(h.editor.2 as int),
                            h.editor.1 + half(h.editor.3 as int),
                        )) ==> display_holds(
                        ds[i],
                        h.editor.0 + half(h.editor.2 as int),
                        h.editor.1 + half(h.editor.3 as int),
                    ))
                },
                None => r == h,
            }
        }),
{
    lemma_hint_display_in_range(ds, h);
    if h.editor.2 > 0 && h.editor.3 > 0 {
        let cx = h.editor.0 + half(h.editor.2 as int);
        let cy = h.editor.1 + half(h.editor.3 as int);
        if exists|j: int| 0 <= j < ds.len() && #[trigger] display_holds(ds[j], cx, cy) {
            let j = choose|j: int| 0 <= j < ds.len() && #[trigger] display_holds(ds[j], cx, cy);
            lemma_first_display_exists(ds, cx, cy, j);
            lemma_first_display_in_range(ds, cx, cy);
        }
    }
}

} // verus!
