use vstd::prelude::*;

verus! {

/// Editable focus hint: where the focused text input is, in desktop
/// coordinates until it is made relative to the display that holds it.
#[derive(Clone, Copy, PartialEq, Eq, Debug)]
pub struct EditableFocusHintInfo {
    /// Whether the focused element accepts keyboard text input.
    pub editable: bool,
    /// Caret rectangle (x, y, w, h); all zero when unknown.
    pub caret: (i32, i32, i32, i32),
    /// Editing area rectangle; the window rectangle when no editable
    /// element was found (all zero with no window at all).
    pub editor: (i32, i32, i32, i32),
    /// Foreground window rectangle.
    pub window: (i32, i32, i32, i32),
    /// Pane rectangle (the content area the editor belongs to).
    pub pane: (i32, i32, i32, i32),
    /// Index of the display that holds the editor.
    pub display_idx: i32,
    /// 0 unknown, 1 single line, 2 multi line, 3 code. (The Windows probe
    /// also uses -1 for a hard negative and -2 for a bottom input the cursor
    /// left; no reported hint carries them.)
    pub content_kind: i32,
    /// Local identity of the foreground window, used for change detection.
    pub foreground_hwnd: isize,
}

impl Default for EditableFocusHintInfo {
    fn default() -> (r: Self)
        ensures
            r == empty_hint(),
    {
        EditableFocusHintInfo {
            editable: false,
            caret: (0, 0, 0, 0),
            editor: (0, 0, 0, 0),
            window: (0, 0, 0, 0),
            pane: (0, 0, 0, 0),
            display_idx: 0,
            content_kind: 0,
            foreground_hwnd: 0,
        }
    }
}

/// The all-zero, non-editable hint (`Default`).
pub open spec fn empty_hint() -> EditableFocusHintInfo {
    EditableFocusHintInfo {
        editable: false,
        caret: (0, 0, 0, 0),
        editor: (0, 0, 0, 0),
        window: (0, 0, 0, 0),
        pane: (0, 0, 0, 0),
        display_idx: 0,
        content_kind: 0,
        foreground_hwnd: 0,
    }
}

/// The hint with its foreground window identity replaced.
pub open spec fn with_fg(h: EditableFocusHintInfo, fg: isize) -> EditableFocusHintInfo {
    EditableFocusHintInfo { foreground_hwnd: fg, ..h }
}

} // verus!
