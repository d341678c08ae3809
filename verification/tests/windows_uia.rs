use hdesk_platform::win_focus::{
    cursor_surface_explicitly_noneditable, looks_like_bottom_input_band,
    looks_like_virtual_proxy_rect, looks_like_visible_bottom_input_rect,
    startupdui_looks_transient,
};
use hdesk_platform::win_uia::{
    classify_element, code_pane_candidate, cursor_matches_candidate, descendant_hit,
    descendant_near_cursor, focused_decision, is_chromium_host, merge_code_candidate,
    point_pane_candidate, probe_final, UiaElementProps, UIA_DOCUMENT_CONTROL_TYPE_ID,
    UIA_EDIT_CONTROL_TYPE_ID,
};

fn chars(s: &str) -> Vec<char> {
    s.chars().collect()
}

fn props(class: &str, control_type: i32, has_value: bool, has_text: bool, focusable: bool, read_only: bool) -> UiaElementProps {
    UiaElementProps {
        class_name_lower: chars(class),
        control_type,
        has_value,
        has_text,
        focusable,
        read_only,
        bounds: (100, 500, 400, 30),
    }
}

const HOST: (i32, i32, i32, i32) = (0, 0, 1200, 800);

#[test]
fn elements_are_classified_by_control_type_and_patterns() {
    assert_eq!(
        classify_element(&props("", UIA_EDIT_CONTROL_TYPE_ID, false, false, false, false), HOST),
        (true, 1, Some((100, 500, 400, 30)))
    );
    assert_eq!(
        classify_element(&props("", UIA_EDIT_CONTROL_TYPE_ID, false, true, true, false), HOST),
        (true, 2, Some((100, 500, 400, 30)))
    );
    assert_eq!(
        classify_element(&props("", UIA_DOCUMENT_CONTROL_TYPE_ID, true, false, false, false), HOST),
        (true, 3, Some((100, 500, 400, 30)))
    );
    assert_eq!(classify_element(&props("", UIA_EDIT_CONTROL_TYPE_ID, true, true, true, true), HOST), (false, 0, None));
    assert_eq!(classify_element(&props("button", 50000, false, false, false, false), HOST), (false, 0, None));
    assert_eq!(classify_element(&props("x contenteditable", 50020, false, true, false, false), HOST).1, 2);
    let mut outside = props("", UIA_EDIT_CONTROL_TYPE_ID, false, false, true, false);
    outside.bounds = (2000, 2000, 10, 10);
    assert_eq!(classify_element(&outside, HOST), (true, 1, None));
}

#[test]
fn code_panes_and_merging() {
    assert_eq!(
        code_pane_candidate(&chars("monaco-editor"), 0, Some((10, 10, 700, 500)), HOST),
        Some((10, 10, 700, 500))
    );
    assert_eq!(code_pane_candidate(&chars("monaco-editor"), 0, Some((10, 10, 300, 500)), HOST), None);
    assert_eq!(code_pane_candidate(&chars("pane"), 0, Some((10, 10, 700, 500)), HOST), None);
    assert_eq!(code_pane_candidate(&chars("monaco"), 0, None, HOST), None);
    let editor = (100, 100, 300, 300);
    assert_eq!(
        merge_code_candidate((true, 2, Some(editor)), Some((10, 10, 700, 500)), HOST),
        (true, 3, Some(editor), Some((10, 10, 700, 500)))
    );
    assert_eq!(merge_code_candidate((true, 2, Some(editor)), None, HOST), (true, 2, Some(editor), None));
    assert_eq!(merge_code_candidate((false, 0, None), Some((10, 10, 700, 500)), HOST), (false, 0, None, None));
    // A bottom input band keeps its own kind.
    let band = (100, 700, 600, 30);
    assert_eq!(
        merge_code_candidate((true, 1, Some(band)), Some((10, 10, 700, 500)), HOST),
        (true, 1, Some(band), None)
    );
}

#[test]
fn chromium_hosts_and_point_panes() {
    assert!(is_chromium_host(&chars("Chrome_WidgetWin_1")));
    assert!(is_chromium_host(&chars("HwndSource".to_uppercase().as_str())));
    assert!(is_chromium_host(&chars("WPFWindow")));
    assert!(!is_chromium_host(&chars("Notepad")));
    assert_eq!(
        point_pane_candidate(true, Some((100, 100, 500, 400)), HOST, (300, 300)),
        Some((100, 100, 500, 400))
    );
    assert_eq!(point_pane_candidate(false, Some((100, 100, 500, 400)), HOST, (300, 300)), None);
    assert_eq!(point_pane_candidate(true, Some((100, 100, 500, 400)), HOST, (900, 700)), None);
    assert_eq!(point_pane_candidate(true, Some((100, 100, 200, 400)), HOST, (150, 300)), None);
}

#[test]
fn focused_element_decisions() {
    let editor = (100, 300, 400, 200);
    assert!(cursor_matches_candidate(Some(editor), Some((550, 300))));
    assert!(!cursor_matches_candidate(Some(editor), Some((700, 300))));
    assert!(cursor_matches_candidate(None, Some((700, 300))));
    assert_eq!(
        focused_decision((true, 2, Some(editor)), None, Some((200, 350)), HOST, Some(HOST)),
        Some((true, 2, Some(editor), Some(HOST)))
    );
    assert_eq!(focused_decision((true, 2, Some(editor)), None, Some((1100, 50)), HOST, None), None);
    assert_eq!(focused_decision((false, 0, None), None, None, HOST, None), None);
    assert_eq!(
        focused_decision((true, 1, None), None, None, HOST, Some(HOST)),
        Some((true, 1, None, Some(HOST)))
    );
}

#[test]
fn probe_end_decisions() {
    // Blocked surface without an editable fallback: a hard negative.
    assert_eq!(probe_final((false, 0, None), true, Some((10, 10)), HOST, None, None), (false, -1, None, None));
    // A fallback far from the cursor is replaced by an editor at the cursor.
    assert_eq!(
        probe_final((true, 2, Some((100, 100, 300, 200))), false, Some((900, 700)), HOST, Some(HOST), None),
        (true, 2, Some((800, 684, 200, 32)), Some(HOST))
    );
    // A near fallback is kept.
    assert_eq!(
        probe_final((true, 2, Some((100, 100, 300, 200))), false, Some((150, 150)), HOST, None, None),
        (true, 2, Some((100, 100, 300, 200)), None)
    );
    assert!(descendant_near_cursor(Some((100, 100, 10, 10)), 5, (150, 150)));
    assert!(!descendant_near_cursor(Some((100, 100, 10, 10)), 5, (200, 200)));
    assert!(descendant_near_cursor(None, 2, (0, 0)));
    assert!(!descendant_near_cursor(None, 3, (0, 0)));
    assert!(descendant_hit((true, 1, Some((100, 100, 10, 10))), (150, 150)));
    assert!(!descendant_hit((false, 1, Some((100, 100, 10, 10))), (150, 150)));
}

#[test]
fn window_shape_heuristics() {
    // A wide, 30 px strip in the lower half looks like a hidden proxy.
    assert!(looks_like_virtual_proxy_rect((100, 600, 600, 30), HOST));
    assert!(!looks_like_virtual_proxy_rect((100, 100, 600, 30), HOST));
    assert!(looks_like_bottom_input_band((100, 700, 600, 50), HOST));
    assert!(!looks_like_bottom_input_band((100, 700, 600, 60), HOST));
    assert!(looks_like_visible_bottom_input_rect((20, 700, 500, 40), HOST, (100, 710)));
    assert!(!looks_like_visible_bottom_input_rect((20, 700, 500, 40), HOST, (100, 400)));
    assert!(cursor_surface_explicitly_noneditable(&chars("Panel No-User-Select")));
    assert!(!cursor_surface_explicitly_noneditable(&chars("editor")));
    assert!(startupdui_looks_transient((0, 0, 400, 300), &chars("Start")));
    assert!(startupdui_looks_transient((0, 0, 1000, 800), &[]));
    assert!(!startupdui_looks_transient((0, 0, 1000, 800), &chars("Start")));
}

use hdesk_platform::win_uia_probe::{
    UiaElementReport, UiaProbe, UiaProbeAction, UiaProbeContext, UiaProbeEvent, UiaStage,
};

fn report(candidate: Option<(bool, i32, Option<(i32, i32, i32, i32)>)>) -> UiaElementReport {
    UiaElementReport { class_name: vec![], bounds: None, candidate, code_pane: None, awt_host: false }
}

fn probe_ctx(cursor: Option<(i32, i32)>) -> UiaProbeContext {
    UiaProbeContext {
        host_rect: (0, 0, 1600, 1000),
        host_class: "Notepad".chars().collect(),
        host_title: "notes".chars().collect(),
        cursor,
    }
}

#[test]
fn probe_reads_point_then_focus_then_window() {
    let ctx = probe_ctx(Some((300, 300)));
    let (mut p, a) = UiaProbe::begin(true, ctx.cursor);
    assert_eq!(a, UiaProbeAction::ReadPointElement);
    // Nothing editable under the cursor: the focused element is read next.
    let a = p.on_event(&ctx, UiaProbeEvent::Element(report(Some((false, 0, None)))));
    assert_eq!(a, UiaProbeAction::ReadFocusedElement);
    // Nothing focused: the window's element is read.
    let a = p.on_event(&ctx, UiaProbeEvent::Missing);
    assert_eq!(a, UiaProbeAction::ReadHandleElement);
    let a = p.on_event(&ctx, UiaProbeEvent::Element(report(Some((false, 0, None)))));
    assert_eq!(a, UiaProbeAction::Done((false, 0, None, None)));
    assert_eq!(p.stage, UiaStage::Finished);
}

#[test]
fn probe_accepts_an_editable_element_under_the_cursor() {
    let ctx = probe_ctx(Some((300, 300)));
    let (mut p, _) = UiaProbe::begin(true, ctx.cursor);
    let editor = (200, 290, 400, 24);
    let a = p.on_event(&ctx, UiaProbeEvent::Element(report(Some((true, 1, Some(editor))))));
    assert_eq!(a, UiaProbeAction::Done((true, 1, Some(editor), None)));
}

#[test]
fn probe_reports_focused_bottom_input_drift() {
    let ctx = probe_ctx(Some((300, 1070)));
    let (mut p, _) = UiaProbe::begin(true, ctx.cursor);
    p.on_event(&ctx, UiaProbeEvent::Missing);
    let a = p.on_event(&ctx, UiaProbeEvent::Element(report(Some((true, 1, Some((0, 950, 600, 30)))))));
    assert_eq!(a, UiaProbeAction::Done((false, -2, None, None)));
}

#[test]
fn probe_without_automation_or_with_failed_reads_finds_nothing() {
    let (_, a) = UiaProbe::begin(false, Some((1, 1)));
    assert_eq!(a, UiaProbeAction::Done((false, 0, None, None)));
    let ctx = probe_ctx(None);
    let (mut p, a) = UiaProbe::begin(true, None);
    assert_eq!(a, UiaProbeAction::ReadFocusedElement);
    assert_eq!(p.on_event(&ctx, UiaProbeEvent::Failed), UiaProbeAction::Done((false, 0, None, None)));
    // A focused AWT host has its descendants searched.
    let (mut p, _) = UiaProbe::begin(true, None);
    let mut awt = report(Some((false, 0, None)));
    awt.awt_host = true;
    assert_eq!(p.on_event(&ctx, UiaProbeEvent::Element(awt)), UiaProbeAction::ProbeDescendants);
    let found = (true, 3, Some((10, 10, 300, 200)), None);
    assert_eq!(
        p.on_event(&ctx, UiaProbeEvent::Descendants(Some(found))),
        UiaProbeAction::Done((true, 3, Some((10, 10, 300, 200)), None))
    );
}
