use hdesk_platform::focus_hint::EditableFocusHintInfo;
use hdesk_platform::geometry::DisplayInfo;
use hdesk_platform::win_focus::ForegroundWindow;
use hdesk_platform::win_probe::{
    caret_fallback_editor_rect, classify_by_class, compute_pane_rect, is_qt_class,
    window_title_looks_like_code_file,
};
use hdesk_platform::win_resolve::{resolve_editable_focus_hint, FocusDetection, GuiThreadInfo};
use hdesk_platform::win_sticky::{FocusMemory, EDITABLE_FOCUS_STICKY_MS, EDITABLE_FOCUS_TRANSIENT_REUSE_MS};

fn chars(s: &str) -> Vec<char> {
    s.chars().collect()
}

fn window(hwnd: isize) -> ForegroundWindow {
    ForegroundWindow {
        hwnd,
        class_name: chars("Notepad"),
        title: chars("notes.txt - Notepad"),
        rect: (100, 100, 800, 600),
    }
}

fn editable(editor: (i32, i32, i32, i32)) -> EditableFocusHintInfo {
    EditableFocusHintInfo {
        editable: true,
        caret: (0, 0, 0, 0),
        editor,
        window: (100, 100, 800, 600),
        pane: editor,
        display_idx: 0,
        content_kind: 1,
        foreground_hwnd: 0,
    }
}

fn not_editable() -> EditableFocusHintInfo {
    EditableFocusHintInfo {
        window: (100, 100, 800, 600),
        pane: (100, 100, 800, 600),
        ..EditableFocusHintInfo::default()
    }
}

#[test]
fn editable_hint_is_reused_within_the_sticky_time() {
    let fg = window(42);
    let mut memory = FocusMemory::new();
    let first = memory.finalize_editable_focus_hint(1_000, &fg, editable((120, 130, 300, 24)), None);
    assert!(first.editable);
    assert_eq!(first.foreground_hwnd, 42);
    let again = memory.finalize_editable_focus_hint(1_000 + EDITABLE_FOCUS_STICKY_MS - 1, &fg, not_editable(), None);
    assert_eq!(again, first);
}

#[test]
fn memory_expires_after_the_transient_time() {
    let fg = window(42);
    let mut memory = FocusMemory::new();
    memory.finalize_editable_focus_hint(1_000, &fg, editable((120, 130, 300, 24)), None);
    let later = memory.finalize_editable_focus_hint(1_000 + EDITABLE_FOCUS_TRANSIENT_REUSE_MS, &fg, not_editable(), Some((130, 140)));
    assert!(!later.editable);
    assert_eq!(later.foreground_hwnd, 42);
    assert!(memory.sticky.is_none());
}

#[test]
fn non_editable_poll_without_memory_is_reported_as_is() {
    let fg = window(7);
    let mut memory = FocusMemory::new();
    let h = memory.finalize_editable_focus_hint(5, &fg, not_editable(), None);
    assert_eq!(h, EditableFocusHintInfo { foreground_hwnd: 7, ..not_editable() });
    assert!(memory.sticky.is_none());
}

fn displays() -> Vec<DisplayInfo> {
    vec![DisplayInfo {
        x: 0,
        y: 0,
        width: 1920,
        height: 1080,
        name: String::from("\\\\.\\DISPLAY1"),
    }]
}

#[test]
fn no_foreground_window_forgets_everything() {
    let mut memory = FocusMemory::new();
    memory.finalize_editable_focus_hint(1_000, &window(42), editable((120, 130, 300, 24)), None);
    let h = resolve_editable_focus_hint(&mut memory, 1_100, &displays(), &window(0), None, None, None).unwrap();
    assert_eq!(h, EditableFocusHintInfo::default());
    assert!(memory.sticky.is_none() && memory.qt.is_none());
}

#[test]
fn actionable_focus_is_reported_editable() {
    let mut memory = FocusMemory::new();
    let g = GuiThreadInfo {
        focus_hwnd: 43,
        caret_hwnd: 0,
        caret: (0, 0, 0, 0),
        caret_hwnd_rect: (0, 0, 0, 0),
    };
    let det = FocusDetection::ByClass(true, 1, (120, 600, 300, 24));
    let h = resolve_editable_focus_hint(&mut memory, 2_000, &displays(), &window(42), Some(g), Some(det), None).unwrap();
    assert!(h.editable);
    assert_eq!(h.foreground_hwnd, 42);
    assert_eq!(h.editor, (120, 600, 300, 24));
    assert_eq!(h.content_kind, 1);
    // Without a focused window the poll reports the window, not editable.
    let g0 = GuiThreadInfo { focus_hwnd: 0, ..g };
    let mut fresh = FocusMemory::new();
    let h = resolve_editable_focus_hint(&mut fresh, 2_000, &displays(), &window(42), Some(g0), None, None).unwrap();
    assert!(!h.editable);
    assert_eq!(h.window, (100, 100, 800, 600));
}

#[test]
fn class_names_classify_standard_edits() {
    assert_eq!(classify_by_class(&chars("Edit"), 0), Some((true, 1)));
    assert_eq!(classify_by_class(&chars("Edit"), 0x0004), Some((true, 2)));
    assert_eq!(classify_by_class(&chars("Edit"), 0x0020), Some((false, 0)));
    assert_eq!(classify_by_class(&chars("RichEdit20W"), 0x0800), Some((false, 0)));
    assert_eq!(classify_by_class(&chars("Scintilla"), 0), Some((true, 3)));
    assert_eq!(classify_by_class(&chars("Button"), 0), None);
    assert_eq!(classify_by_class(&chars(""), 0), None);
    assert!(is_qt_class(&chars("Qt5152QWindowIcon")));
    assert!(is_qt_class(&chars("xqwindowy")));
    assert!(!is_qt_class(&chars("Chrome_WidgetWin_1")));
}

#[test]
fn code_file_titles() {
    assert!(window_title_looks_like_code_file(&chars("main.rs - project - Editor")));
    assert!(!window_title_looks_like_code_file(&chars("Quarterly report")));
}

#[test]
fn caret_band_and_split_pane() {
    // A 20 px caret gives a 480 x 60 band centered on it.
    assert_eq!(
        caret_fallback_editor_rect((0, 0, 1200, 800), (600, 400, 2, 20)),
        (360, 370, 480, 60)
    );
    assert_eq!(caret_fallback_editor_rect((0, 0, 0, 0), (600, 400, 2, 20)), (0, 0, 0, 0));
    // An editor in the left part of a wide window spans to the right edge.
    assert_eq!(compute_pane_rect((600, 200, 300, 30), (0, 0, 1600, 900)), (600, 0, 1000, 900));
    assert_eq!(compute_pane_rect((100, 200, 1200, 30), (0, 0, 1600, 900)), (100, 200, 1200, 30));
}

use hdesk_platform::win_focus::focused_display_for_window;

fn screen(x: i32, w: i32) -> DisplayInfo {
    DisplayInfo { x, y: 0, width: w, height: 1080, name: format!("\\\\.\\DISPLAY{}", x) }
}

#[test]
fn display_of_the_foreground_window() {
    let ds = vec![screen(0, 1920), screen(1920, 1920)];
    assert_eq!(focused_display_for_window(&ds, (100, 100, 500, 400)), Some(0));
    assert_eq!(focused_display_for_window(&ds, (1800, 100, 2400, 400)), Some(1));
    assert_eq!(focused_display_for_window(&ds, (1000, 100, 2841, 400)), Some(1));
    assert_eq!(focused_display_for_window(&ds, (1000, 100, 2839, 400)), Some(0));
    assert_eq!(focused_display_for_window(&ds, (5000, 0, 5100, 10)), None);
    assert_eq!(focused_display_for_window(&ds, (-3, 0, -6, 10)), None);
}

use hdesk_platform::win_focus::{cursor_surface_explicitly_noneditable, looks_like_bottom_input_drift};
use hdesk_platform::win_uia::{focused_decision, BOTTOM_INPUT_DRIFT_KIND};

#[test]
fn nothing_editable_reports_the_window_as_editor() {
    let g = GuiThreadInfo { focus_hwnd: 43, caret_hwnd: 0, caret: (0, 0, 0, 0), caret_hwnd_rect: (0, 0, 0, 0) };
    let fg = ForegroundWindow { rect: (0, 0, 800, 600), ..window(42) };
    let det = FocusDetection::ByProbe((false, 0, None, None));
    let mut memory = FocusMemory::new();
    let h = resolve_editable_focus_hint(&mut memory, 2_000, &displays(), &fg, Some(g), Some(det), None).unwrap();
    assert!(!h.editable);
    assert_eq!(h.editor, (0, 0, 800, 600));
    assert_eq!(h.editor, h.window);
    assert_eq!(h.content_kind, 0);
}

#[test]
fn focused_bottom_input_left_by_the_cursor_is_not_editable() {
    let host = (0, 0, 1600, 1000);
    let find_bar = (0, 950, 600, 30);
    // The cursor is on the taskbar, far below the find bar.
    assert!(looks_like_bottom_input_drift(find_bar, host, (300, 1070)));
    assert!(!looks_like_bottom_input_drift(find_bar, host, (300, 985)));
    assert_eq!(
        focused_decision((true, 1, Some(find_bar)), None, Some((300, 1070)), host, None),
        Some((false, BOTTOM_INPUT_DRIFT_KIND, None, None))
    );
    // The poll then forgets the remembered hint and ignores the caret.
    let fg = ForegroundWindow { rect: host, ..window(42) };
    let mut memory = FocusMemory::new();
    memory.finalize_editable_focus_hint(1_000, &fg, editable(find_bar), None);
    let g = GuiThreadInfo { focus_hwnd: 43, caret_hwnd: 43, caret: (300, 955, 2, 20), caret_hwnd_rect: (0, 0, 1600, 1000) };
    let det = FocusDetection::ByProbe((false, BOTTOM_INPUT_DRIFT_KIND, None, None));
    let h = resolve_editable_focus_hint(&mut memory, 1_100, &displays(), &fg, Some(g), Some(det), Some((300, 1070))).unwrap();
    assert!(!h.editable);
    assert_eq!(h.editor, host);
    assert!(memory.sticky.is_none());
}

#[test]
fn taskbar_buttons_are_explicitly_not_editable() {
    assert!(cursor_surface_explicitly_noneditable(&chars("Taskbar.TaskListButtonAutomationPeer")));
    assert!(cursor_surface_explicitly_noneditable(&chars("Chrome no-user-select pane")));
    assert!(!cursor_surface_explicitly_noneditable(&chars("Chrome_RenderWidgetHostHWND")));
}
