use vstd::prelude::*;
use crate::geometry::{
    clamp_int, contains_point, has_area, max_int, min_int, point_in_rect, rect_has_area, rect_ok, wide_ok,
    right_of, Rect,
};
use crate::text::{
    ascii_lower, contains, contains_seq, is_whitespace, is_ws, occurs_at, starts_with,
    starts_with_seq, to_ascii_lowercase, to_uppercase, upper_text,
};
use crate::win_focus::seq_eq;

verus! {

fn clamp_i64(v: i64, lo: i64, hi: i64) -> (r: i64)
    requires
        lo <= hi,
    ensures
        r == clamp_int(v as int, lo as int, hi as int),
{
    if v < lo {
        lo
    } else if v > hi {
        hi
    } else {
        v
    }
}

fn max_i64(a: i64, b: i64) -> (r: i64)
    ensures
        r == max_int(a as int, b as int),
{
    if a >= b {
        a
    } else {
        b
    }
}

fn min_i64(a: i64, b: i64) -> (r: i64)
    ensures
        r == min_int(a as int, b as int),
{
    if a <= b {
        a
    } else {
        b
    }
}

/// std's `clamp` asserts this bound order for the caret fallback.
pub open spec fn caret_fallback_ok(window: Rect, caret: Rect) -> bool {
    (has_area(window) && has_area(caret)) ==> 320 <= min_int(
        max_int(window.2 - 16, max_int(caret.2 as int, 1)),
        900,
    )
}

/// An editor band around a caret: 24 caret heights wide (320 to 900 px,
/// at most the window width less 16), 3 caret heights tall (at least 48),
/// centered on the caret and kept 8 px inside the window where possible.
/// Without a window or caret area the window itself.
pub open spec fn caret_fallback_spec(window: Rect, caret: Rect) -> Rect {
    if !has_area(window) || !has_area(caret) {
        window
    } else {
        let max_width = max_int(window.2 - 16, max_int(caret.2 as int, 1));
        let tw = clamp_int(caret.3 * 24, 320, min_int(max_width, 900));
        let th = min_int(max_int(caret.3 * 3, 48), max_int(window.3 - 16, caret.3 as int));
        let min_left = window.0 + 8;
        let max_left = max_int(right_of(window) - tw - 8, min_left);
        let min_top = window.1 + 8;
        let max_top = max_int(window.1 + window.3 - th - 8, min_top);
        (
            clamp_int(caret.0 - tw / 2, min_left, max_left) as i32,
            clamp_int(caret.1 - th / 2, min_top, max_top) as i32,
            tw as i32,
            th as i32,
        )
    }
}

pub fn caret_fallback_editor_rect(
    window: (i32, i32, i32, i32),
    caret: (i32, i32, i32, i32),
) -> (r: (i32, i32, i32, i32))
    requires
        rect_ok(window),
        rect_ok(caret),
        caret_fallback_ok(window, caret),
    ensures
        r == caret_fallback_spec(window, caret),
        wide_ok(r),
{
    if !rect_has_area(window) || !rect_has_area(caret) {
        return window;
    }
    let max_width = max_i64(window.2 as i64 - 16, max_i64(caret.2 as i64, 1));
    let tw = clamp_i64(caret.3 as i64 * 24, 320, min_i64(max_width, 900));
    let th = min_i64(max_i64(caret.3 as i64 * 3, 48), max_i64(window.3 as i64 - 16, caret.3 as i64));
    let min_left = window.0 as i64 + 8;
    let max_left = max_i64(window.0 as i64 + window.2 as i64 - tw - 8, min_left);
    let min_top = window.1 as i64 + 8;
    let max_top = max_i64(window.1 as i64 + window.3 as i64 - th - 8, min_top);
    let left = clamp_i64(caret.0 as i64 - tw / 2, min_left, max_left);
    let top = clamp_i64(caret.1 as i64 - th / 2, min_top, max_top);
    (left as i32, top as i32, tw as i32, th as i32)
}

/// The split-view pane: when the editor is narrower than 60% of the window
/// and the span from the editor's left edge to the window's right edge is at
/// least 120% of the editor width and 400 px, that span at full window
/// height; else the editor itself.
pub open spec fn pane_spec(editor: Rect, window: Rect) -> Rect {
    let pane_width = right_of(window) - editor.0;
    if !has_area(editor) || !has_area(window) {
        editor
    } else if !(editor.2 < window.2 * 60 / 100) {
        editor
    } else if pane_width < editor.2 * 120 / 100 || pane_width < 400 {
        editor
    } else {
        (editor.0, window.1, pane_width as i32, window.3)
    }
}

pub fn compute_pane_rect(editor: (i32, i32, i32, i32), window: (i32, i32, i32, i32)) -> (r: (i32, i32, i32, i32))
    requires
        wide_ok(editor),
        rect_ok(window),
    ensures
        r == pane_spec(editor, window),
        wide_ok(r),
{
    if !rect_has_area(editor) || !rect_has_area(window) {
        return editor;
    }
    let is_split_layout = (editor.2 as i64) < (window.2 as i64 * 60 / 100);
    if !is_split_layout {
        return editor;
    }
    let pane_width = window.0 as i64 + window.2 as i64 - editor.0 as i64;
    if pane_width < editor.2 as i64 * 120 / 100 {
        return editor;
    }
    if pane_width < 400 {
        return editor;
    }
    (editor.0, window.1, pane_width as i32, window.3)
}

/// Characters that may follow a file extension in a window title.
pub open spec fn ext_terminator(c: char) -> bool {
    is_ws(c) || c == ']' || c == ')' || c == ':' || c == '-' || c == '\u{2013}' || c == '\u{2014}'
}

/// The extension occurs at `i` and is followed by the end of the title or
/// by a terminator character.
pub open spec fn ext_at(title: Seq<char>, ext: Seq<char>, i: int) -> bool {
    occurs_at(title, ext, i) && (i + ext.len() == title.len() || ext_terminator(
        title[i + ext.len()],
    ))
}

/// An extension that starts with `.` and has no other `.`; two occurrences
/// of such an extension never overlap.
pub open spec fn dot_ext(ext: Seq<char>) -> bool {
    ext.len() > 0 && ext[0] == '.' && forall|k: int| 0 < k < ext.len() ==> ext[k] != '.'
}

fn is_ext_terminator(c: char) -> (b: bool)
    ensures
        b == ext_terminator(c),
{
    is_whitespace(c) || c == ']' || c == ')' || c == ':' || c == '-' || c == '\u{2013}' || c
        == '\u{2014}'
}

proof fn lemma_dot_ext_no_overlap(title: Seq<char>, ext: Seq<char>, i: int, j: int)
    requires
        dot_ext(ext),
        occurs_at(title, ext, i),
        i < j < i + ext.len(),
    ensures
        !occurs_at(title, ext, j),
{
    if occurs_at(title, ext, j) {
        assert(title.subrange(j, j + ext.len())[0] == ext[0]);
        assert(title[j] == '.');
        assert(title.subrange(i, i + ext.len())[j - i] == ext[j - i]);
        assert(ext[j - i] == '.');
    }
}

/// Whether the title holds the extension as a file suffix: followed by the
/// end of the title, white space, a bracket, a colon or a dash.
fn title_contains_code_file_suffix(title: &[char], ext: &[char]) -> (b: bool)
    requires
        dot_ext(ext@),
    ensures
        b == exists|i: int| ext_at(title@, ext@, i),
{
    let mut offset: usize = 0;
    while offset <= title.len()
        invariant
            dot_ext(ext@),
            offset <= title@.len() + ext@.len(),
            forall|j: int| 0 <= j < offset ==> !ext_at(title@, ext@, j),
        decreases title@.len() + ext@.len() + 1 - offset,
    {
        match crate::text::find_from(title, ext, offset) {
            None => {
                assert forall|j: int| !ext_at(title@, ext@, j) by {
                    if j >= offset as int {
                        assert(!occurs_at(title@, ext@, j));
                    }
                }
                return false;
            },
            Some(idx) => {
                let end = idx + ext.len();
                if end == title.len() || is_ext_terminator(title[end]) {
                    assert(ext_at(title@, ext@, idx as int));
                    return true;
                }
                assert forall|j: int| 0 <= j < end implies !ext_at(title@, ext@, j) by {
                    if offset as int <= j < idx as int {
                        assert(!occurs_at(title@, ext@, j));
                    } else if idx < j < end {
                        lemma_dot_ext_no_overlap(title@, ext@, idx as int, j);
                    }
                }
                offset = end;
            },
        }
    }
    assert forall|j: int| !ext_at(title@, ext@, j) by {
        if j >= offset {
            assert(!occurs_at(title@, ext@, j));
        }
    }
    false
}

/// The file extensions that mark a window title as showing source code.
pub open spec fn code_exts() -> Seq<Seq<char>> {
    seq![
        ".ets"@, ".ts"@, ".tsx"@, ".js"@, ".jsx"@, ".java"@, ".kt"@, ".kts"@, ".rs"@, ".py"@, ".go"@,
        ".cpp"@, ".hpp"@, ".json"@, ".xml"@, ".yaml"@, ".yml"@, ".md"@,
    ]
}

/// The ASCII-lower-cased title holds one of the code extensions as a file
/// suffix.
pub open spec fn code_title_spec(title: Seq<char>) -> bool {
    exists|k: int, i: int| 0 <= k < code_exts().len() && ext_at(ascii_lower(title), code_exts()[k], i)
}

proof fn lemma_code_exts_dotted()
    ensures
        forall|k: int| 0 <= k < code_exts().len() ==> dot_ext(#[trigger] code_exts()[k]),
{
    reveal_strlit(".ets");
    reveal_strlit(".ts");
    reveal_strlit(".tsx");
    reveal_strlit(".js");
    reveal_strlit(".jsx");
    reveal_strlit(".java");
    reveal_strlit(".kt");
    reveal_strlit(".kts");
    reveal_strlit(".rs");
    reveal_strlit(".py");
    reveal_strlit(".go");
    reveal_strlit(".cpp");
    reveal_strlit(".hpp");
    reveal_strlit(".json");
    reveal_strlit(".xml");
    reveal_strlit(".yaml");
    reveal_strlit(".yml");
    reveal_strlit(".md");
    assert(dot_ext(".ets"@));
    assert(dot_ext(".ts"@));
    assert(dot_ext(".tsx"@));
    assert(dot_ext(".js"@));
    assert(dot_ext(".jsx"@));
    assert(dot_ext(".java"@));
    assert(dot_ext(".kt"@));
    assert(dot_ext(".kts"@));
    assert(dot_ext(".rs"@));
    assert(dot_ext(".py"@));
    assert(dot_ext(".go"@));
    assert(dot_ext(".cpp"@));
    assert(dot_ext(".hpp"@));
    assert(dot_ext(".json"@));
    assert(dot_ext(".xml"@));
    assert(dot_ext(".yaml"@));
    assert(dot_ext(".yml"@));
    assert(dot_ext(".md"@));
    assert forall|k: int| 0 <= k < code_exts().len() implies dot_ext(#[trigger] code_exts()[k]) by {
        assert(code_exts()[0] == ".ets"@);
    }
}

fn dotted(s: &str) -> (r: Vec<char>)
    ensures
        r@ == s@,
{
    crate::text::chars_of(s)
}

pub fn window_title_looks_like_code_file(title: &[char]) -> (b: bool)
    ensures
        b == code_title_spec(title@),
{
    let lower = to_ascii_lowercase(title);
    let exts: [&str; 18] = [
        ".ets", ".ts", ".tsx", ".js", ".jsx", ".java", ".kt", ".kts", ".rs", ".py", ".go", ".cpp",
        ".hpp", ".json", ".xml", ".yaml", ".yml", ".md",
    ];
    proof {
        reveal_strlit(".ets");
        reveal_strlit(".ts");
        reveal_strlit(".tsx");
        reveal_strlit(".js");
        reveal_strlit(".jsx");
        reveal_strlit(".java");
        reveal_strlit(".kt");
        reveal_strlit(".kts");
        reveal_strlit(".rs");
        reveal_strlit(".py");
        reveal_strlit(".go");
        reveal_strlit(".cpp");
        reveal_strlit(".hpp");
        reveal_strlit(".json");
        reveal_strlit(".xml");
        reveal_strlit(".yaml");
        reveal_strlit(".yml");
        reveal_strlit(".md");
    }
    assert(exts@.map_values(|s: &str| s@) =~= code_exts());
    let mut k: usize = 0;
    while k < 18
        invariant
            lower@ == ascii_lower(title@),
            exts@.map_values(|s: &str| s@) == code_exts(),
            k <= 18,
            forall|kk: int, i: int| 0 <= kk < k ==> !#[trigger] ext_at(lower@, code_exts()[kk], i),
        decreases 18 - k,
    {
        let ext = dotted(exts[k]);
        assert(ext@ == code_exts()[k as int]);
        proof {
            lemma_code_exts_dotted();
        }
        if title_contains_code_file_suffix(&lower, &ext) {
            return true;
        }
        k = k + 1;
    }
    false
}

pub open spec fn pct_margin(side: int, pct: int, lo: int, hi: int) -> int {
    clamp_int(side * pct / 100, lo, hi)
}

/// The code work area of an AWT IDE window: the window less margins of
/// 12%/5%/15%/16% (left/right/top/bottom, each clamped to its own bounds),
/// when more than 200 x 160 pixels remain.
pub open spec fn awt_work_area_spec(window: Rect) -> Option<Rect> {
    if !has_area(window) {
        None
    } else {
        let lm = pct_margin(window.2 as int, 12, 120, 260);
        let rm = pct_margin(window.2 as int, 5, 48, 140);
        let tm = pct_margin(window.3 as int, 15, 96, 220);
        let bm = pct_margin(window.3 as int, 16, 120, 260);
        let width = window.2 - lm - rm;
        let height = window.3 - tm - bm;
        if width <= 200 || height <= 160 {
            None
        } else {
            Some(((window.0 + lm) as i32, (window.1 + tm) as i32, width as i32, height as i32))
        }
    }
}

pub fn awt_code_work_area_rect(window: (i32, i32, i32, i32)) -> (r: Option<(i32, i32, i32, i32)>)
    requires
        rect_ok(window),
    ensures
        r == awt_work_area_spec(window),
        r matches Some(p) ==> wide_ok(p),
{
    if !rect_has_area(window) {
        return None;
    }
    let lm = clamp_i64(window.2 as i64 * 12 / 100, 120, 260);
    let rm = clamp_i64(window.2 as i64 * 5 / 100, 48, 140);
    let tm = clamp_i64(window.3 as i64 * 15 / 100, 96, 220);
    let bm = clamp_i64(window.3 as i64 * 16 / 100, 120, 260);
    let width = window.2 as i64 - lm - rm;
    let height = window.3 as i64 - tm - bm;
    if width <= 200 || height <= 160 {
        return None;
    }
    Some(((window.0 as i64 + lm) as i32, (window.1 as i64 + tm) as i32, width as i32, height as i32))
}

/// A 220 x 36 editor centered on the cursor, kept 8 pixels inside the
/// window where the window is large enough.
pub open spec fn win_synth_spec(window: Rect, cursor: (i32, i32)) -> Option<Rect> {
    if !has_area(window) {
        None
    } else {
        let min_left = window.0 + 8;
        let max_left = max_int(right_of(window) - 220 - 8, min_left);
        let min_top = window.1 + 8;
        let max_top = max_int(window.1 + window.3 - 36 - 8, min_top);
        Some(
            (
                clamp_int(cursor.0 - 110, min_left, max_left) as i32,
                clamp_int(cursor.1 - 18, min_top, max_top) as i32,
                220i32,
                36i32,
            ),
        )
    }
}

pub fn synth_editor_rect_from_cursor(
    window: (i32, i32, i32, i32),
    cursor: (i32, i32),
) -> (r: Option<(i32, i32, i32, i32)>)
    requires
        rect_ok(window),
    ensures
        r == win_synth_spec(window, cursor),
        r matches Some(e) ==> wide_ok(e),
{
    if !rect_has_area(window) {
        return None;
    }
    let min_left = window.0 as i64 + 8;
    let max_left = max_i64(window.0 as i64 + window.2 as i64 - 220 - 8, min_left);
    let min_top = window.1 as i64 + 8;
    let max_top = max_i64(window.1 as i64 + window.3 as i64 - 36 - 8, min_top);
    Some(
        (
            clamp_i64(cursor.0 as i64 - 110, min_left, max_left) as i32,
            clamp_i64(cursor.1 as i64 - 18, min_top, max_top) as i32,
            220,
            36,
        ),
    )
}

/// The outcome of a probe: editable, content kind, editor and pane.
pub type ProbeResult = (bool, i32, Option<(i32, i32, i32, i32)>, Option<(i32, i32, i32, i32)>);

/// For an AWT frame (`SunAwtFrame`, ASCII case ignored) whose title shows a
/// code file, with the cursor in the code work area: a code editor
/// synthesized around the cursor, with the work area as pane.
pub open spec fn awt_override_spec(
    host_class: Seq<char>,
    host_title: Seq<char>,
    host_rect: Rect,
    cursor: Option<(i32, i32)>,
) -> Option<ProbeResult> {
    if ascii_lower(host_class) != "sunawtframe"@ || !code_title_spec(host_title) {
        None
    } else {
        match (cursor, awt_work_area_spec(host_rect)) {
            (Some(c), Some(pane)) => {
                if !contains_point(pane, c.0 as int, c.1 as int) {
                    None
                } else {
                    match win_synth_spec(host_rect, c) {
                        Some(editor) => Some((true, 3, Some(editor), Some(pane))),
                        None => None,
                    }
                }
            },
            _ => None,
        }
    }
}

pub fn apply_awt_code_file_override(
    host_class: &[char],
    host_title: &[char],
    host_rect: (i32, i32, i32, i32),
    cursor_pos: Option<(i32, i32)>,
) -> (r: Option<ProbeResult>)
    requires
        rect_ok(host_rect),
    ensures
        r == awt_override_spec(host_class@, host_title@, host_rect, cursor_pos),
        r matches Some(p) ==> (p.2 matches Some(e) ==> wide_ok(e)) && (p.3 matches Some(q) ==> wide_ok(q)),
{
    let cls = to_ascii_lowercase(host_class);
    let target = crate::text::chars_of("sunawtframe");
    if !seq_eq(&cls, &target) || !window_title_looks_like_code_file(host_title) {
        return None;
    }
    let cursor = match cursor_pos {
        Some(c) => c,
        None => return None,
    };
    let pane = match awt_code_work_area_rect(host_rect) {
        Some(p) => p,
        None => return None,
    };
    if !point_in_rect(pane, cursor.0, cursor.1) {
        return None;
    }
    let editor = match synth_editor_rect_from_cursor(host_rect, cursor) {
        Some(e) => e,
        None => return None,
    };
    Some((true, 3, Some(editor), Some(pane)))
}

pub open spec fn style_bit(style: u32, bit: u32) -> bool {
    style & bit != 0
}

/// Classification of a focused Win32 control by its class name and window
/// style: `EDIT` (read-only or password: not editable; else single or
/// multi line), `RICHEDIT*` (read-only: not editable; else single or multi
/// line), `SCINTILLA*` (code). Other classes are left to UI Automation.
pub open spec fn class_spec(class_name: Seq<char>, style: u32) -> Option<(bool, i32)> {
    let cls = upper_text(class_name);
    let ro = style_bit(style, 0x0800);
    let ml = style_bit(style, 0x0004);
    let pw = style_bit(style, 0x0020);
    if class_name.len() == 0 {
        None
    } else if cls == "EDIT"@ {
        if ro || pw {
            Some((false, 0))
        } else {
            Some((true, if ml { 2 } else { 1 }))
        }
    } else if starts_with_seq(cls, "RICHEDIT"@) {
        if ro {
            Some((false, 0))
        } else {
            Some((true, if ml { 2 } else { 1 }))
        }
    } else if starts_with_seq(cls, "SCINTILLA"@) {
        Some((true, 3))
    } else {
        None
    }
}

pub fn classify_by_class(class_name: &[char], style: u32) -> (r: Option<(bool, i32)>)
    ensures
        r == class_spec(class_name@, style),
{
    if class_name.len() == 0 {
        return None;
    }
    let cls = to_uppercase(class_name);
    let es_readonly = style & 0x0800 != 0;
    let es_multiline = style & 0x0004 != 0;
    let es_password = style & 0x0020 != 0;
    let edit = crate::text::chars_of("EDIT");
    let richedit = crate::text::chars_of("RICHEDIT");
    let scintilla = crate::text::chars_of("SCINTILLA");
    if seq_eq(&cls, &edit) {
        if es_readonly || es_password {
            return Some((false, 0));
        }
        return Some((true, if es_multiline { 2 } else { 1 }));
    }
    if starts_with(&cls, &richedit) {
        if es_readonly {
            return Some((false, 0));
        }
        return Some((true, if es_multiline { 2 } else { 1 }));
    }
    if starts_with(&cls, &scintilla) {
        return Some((true, 3));
    }
    None
}

/// Qt top-level windows: the upper-cased class name starts with `QT` or
/// contains `QWINDOW`.
pub open spec fn qt_class_spec(class_name: Seq<char>) -> bool {
    class_name.len() > 0 && (starts_with_seq(upper_text(class_name), "QT"@) || contains_seq(
        upper_text(class_name),
        "QWINDOW"@,
    ))
}

pub fn is_qt_class(class_name: &[char]) -> (b: bool)
    ensures
        b == qt_class_spec(class_name@),
{
    if class_name.len() == 0 {
        return false;
    }
    let cls = to_uppercase(class_name);
    let qt = crate::text::chars_of("QT");
    let qwindow = crate::text::chars_of("QWINDOW");
    starts_with(&cls, &qt) || contains(&cls, &qwindow)
}

} // verus!
