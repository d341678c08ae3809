use hdesk_platform::focus_hint::EditableFocusHintInfo;
use hdesk_platform::geometry::DisplayInfo;
use hdesk_platform::mac_focus::{
    build_ax_editable_focus_hint, choose_window_candidate, classify_ax_editable_role,
    editor_rect, fallback_window_hint, find_window_candidate_containing_point,
    get_editable_focus_hint_from, make_foreground_window_id, pane_candidate_is_meaningful,
    pane_candidate_role_rank, pick_pane_rect, resolve_ax_window_candidate,
    synth_editor_rect_from_cursor, AxFocusInputs, MacWindowCandidate, PaneAncestor,
};

#[test]
fn classify_text_field_as_single_line() {
    assert_eq!(classify_ax_editable_role("AXTextField", None, None), (true, 1));
}

#[test]
fn classify_text_area_as_multi_line() {
    assert_eq!(classify_ax_editable_role("AXTextArea", None, None), (true, 2));
}

#[test]
fn classify_explicitly_editable_web_area_as_multi_line() {
    assert_eq!(
        classify_ax_editable_role("AXWebArea", None, Some(true)),
        (true, 2)
    );
}

#[test]
fn read_only_text_field_is_not_editable() {
    assert_eq!(
        classify_ax_editable_role("AXTextField", None, Some(false)),
        (false, 0)
    );
}

#[test]
fn editable_document_is_classified_as_code() {
    assert_eq!(
        classify_ax_editable_role("AXDocument", Some("AXSourceEditor"), Some(true)),
        (true, 3)
    );
}

#[test]
fn keep_noneditable_group_closed() {
    assert_eq!(classify_ax_editable_role("AXGroup", None, None), (false, 0));
}

#[test]
fn reject_window_sized_pane_candidate() {
    assert!(!pane_candidate_is_meaningful(
        (0, 0, 1200, 900),
        (100, 700, 320, 40),
        (0, 0, 1200, 900)
    ));
}

#[test]
fn accept_meaningful_nested_pane_candidate() {
    assert!(pane_candidate_is_meaningful(
        (40, 80, 860, 620),
        (120, 540, 360, 44),
        (0, 0, 1200, 900)
    ));
}

#[test]
fn synth_editor_rect_stays_inside_window() {
    let rect = synth_editor_rect_from_cursor((0, 0, 1200, 900), (1180, 880)).unwrap();
    assert!(rect.0 >= 8);
    assert!(rect.1 >= 8);
    assert!(rect.0 + rect.2 <= 1192);
    assert!(rect.1 + rect.3 <= 892);
}

#[test]
fn synth_editor_rect_clamps_inside_tiny_window() {
    let window = (40, 70, 42, 18);
    let rect = synth_editor_rect_from_cursor(window, (78, 84)).unwrap();

    assert!(rect.0 >= window.0);
    assert!(rect.1 >= window.1);
    assert!(rect.0 + rect.2 <= window.0 + window.2);
    assert!(rect.1 + rect.3 <= window.1 + window.3);
    assert!(rect.2 <= 26);
    assert!(rect.3 <= 2);
}

#[test]
fn choose_window_candidate_prefers_matching_focus_window() {
    let candidates = [
        MacWindowCandidate {
            rect: (0, 0, 640, 480),
            foreground_hwnd: 1001,
        },
        MacWindowCandidate {
            rect: (720, 40, 900, 720),
            foreground_hwnd: 2002,
        },
    ];

    let chosen = choose_window_candidate(&candidates, (780, 120, 420, 320)).unwrap();
    assert_eq!(chosen.foreground_hwnd, 2002);
}

#[test]
fn window_point_anchor_picks_topmost_hit() {
    let candidates = [
        MacWindowCandidate {
            rect: (0, 0, 1280, 820),
            foreground_hwnd: 3003,
        },
        MacWindowCandidate {
            rect: (160, 120, 520, 360),
            foreground_hwnd: 4004,
        },
    ];

    let chosen = find_window_candidate_containing_point(&candidates, 320, 260).unwrap();
    assert_eq!(chosen.foreground_hwnd, 3003);
}

fn display(x: i32, y: i32, width: i32, height: i32) -> DisplayInfo {
    DisplayInfo {
        x,
        y,
        width,
        height,
        name: String::from("1"),
    }
}

#[test]
fn synth_editor_rect_is_240_by_40_around_cursor() {
    assert_eq!(
        synth_editor_rect_from_cursor((0, 0, 1200, 900), (600, 450)),
        Some((480, 430, 240, 40))
    );
    assert_eq!(synth_editor_rect_from_cursor((0, 0, 1200, 900), (1300, 450)), None);
}

#[test]
fn role_rank_orders_documents_over_groups() {
    assert_eq!(pane_candidate_role_rank("AXScrollArea"), 3);
    assert_eq!(pane_candidate_role_rank("AXGroup"), 2);
    assert_eq!(pane_candidate_role_rank("AXButton"), 1);
    assert_eq!(pane_candidate_role_rank(""), 1);
}

#[test]
fn window_id_keeps_pid_and_window_number() {
    let id = make_foreground_window_id(0x1234, 7);
    assert_eq!(id, (0x1234isize << 32) | 7);
    assert_eq!((id >> 32) as i32, 0x1234);
    assert_eq!((id & 0xffff_ffff) as u32, 7);
    let negative = make_foreground_window_id(5, -1);
    assert_eq!((negative & 0xffff_ffff) as u32, u32::MAX);
}

#[test]
fn pick_pane_prefers_rank_then_smaller_area() {
    let window = (0, 0, 1200, 900);
    let editor = (120, 540, 360, 44);
    let ancestors = vec![
        PaneAncestor {
            rect: Some((40, 80, 860, 620)),
            role: String::from("AXGroup"),
        },
        PaneAncestor {
            rect: Some((20, 60, 900, 700)),
            role: String::from("AXScrollArea"),
        },
        PaneAncestor {
            rect: Some((30, 70, 880, 640)),
            role: String::from("AXScrollArea"),
        },
        PaneAncestor {
            rect: None,
            role: String::from("AXWebArea"),
        },
    ];
    assert_eq!(pick_pane_rect(&ancestors, editor, window), Some((30, 70, 880, 640)));
    // A window-sized frame is not a pane.
    let only_window = vec![PaneAncestor {
        rect: Some((0, 0, 1200, 900)),
        role: String::from("AXScrollArea"),
    }];
    assert_eq!(pick_pane_rect(&only_window, editor, window), None);
}

#[test]
fn pick_pane_looks_at_six_ancestors_only() {
    let window = (0, 0, 1200, 900);
    let editor = (120, 540, 360, 44);
    let mut ancestors = Vec::new();
    for _ in 0..6 {
        ancestors.push(PaneAncestor {
            rect: None,
            role: String::new(),
        });
    }
    ancestors.push(PaneAncestor {
        rect: Some((40, 80, 860, 620)),
        role: String::from("AXGroup"),
    });
    assert_eq!(pick_pane_rect(&ancestors, editor, window), None);
}

#[test]
fn editor_rect_prefers_element_then_cursor() {
    let window = (0, 0, 1200, 900);
    assert_eq!(
        editor_rect(Some((-50, 100, 300, 40)), Some((600, 450)), window),
        Some((0, 100, 250, 40))
    );
    assert_eq!(
        editor_rect(None, Some((600, 450)), window),
        Some((480, 430, 240, 40))
    );
    assert_eq!(editor_rect(None, Some((1300, 450)), window), None);
    assert_eq!(editor_rect(Some((2000, 2000, 10, 10)), None, window), None);
}

#[test]
fn resolve_window_takes_first_target_that_picks() {
    let windows = [
        MacWindowCandidate {
            rect: (0, 0, 640, 480),
            foreground_hwnd: 1,
        },
        MacWindowCandidate {
            rect: (700, 0, 400, 400),
            foreground_hwnd: 2,
        },
    ];
    let targets = [None, Some((2000, 2000, 10, 10)), Some((710, 10, 100, 100)), Some((0, 0, 640, 480))];
    assert_eq!(resolve_ax_window_candidate(&targets, &windows).unwrap().foreground_hwnd, 2);
    assert!(resolve_ax_window_candidate(&[None, Some((2000, 2000, 10, 10))], &windows).is_none());
}

fn ax_inputs(role: &str, editable: Option<bool>) -> AxFocusInputs {
    AxFocusInputs {
        window_targets: vec![Some((1920, 0, 1200, 900))],
        role: String::from(role),
        subrole: None,
        editable_attr: editable,
        element_rect: Some((2000, 500, 300, 30)),
        cursor: None,
        ancestors: vec![],
    }
}

#[test]
fn ax_hint_is_normalized_to_its_display() {
    let displays = vec![display(0, 0, 1920, 1080), display(1920, 0, 1920, 1080)];
    let windows = [MacWindowCandidate {
        rect: (1920, 0, 1200, 900),
        foreground_hwnd: 77,
    }];
    let r = build_ax_editable_focus_hint(&displays, &ax_inputs("AXTextField", None), &windows, windows[0]);
    assert_eq!(r.window.foreground_hwnd, 77);
    let h = r.editable_hint.unwrap();
    assert!(h.editable);
    assert_eq!(h.content_kind, 1);
    assert_eq!(h.display_idx, 1);
    assert_eq!(h.editor, (80, 500, 300, 30));
    assert_eq!(h.window, (0, 0, 1200, 900));
    assert_eq!(h.pane, (0, 0, 1200, 900));
    let r = build_ax_editable_focus_hint(&displays, &ax_inputs("AXGroup", None), &windows, windows[0]);
    assert!(r.editable_hint.is_none());
}

#[test]
fn focus_hint_falls_back_to_window_then_display() {
    let displays = vec![display(0, 0, 1920, 1080), display(1920, 0, 1920, 1080)];
    let windows = [MacWindowCandidate {
        rect: (1920, 0, 1200, 900),
        foreground_hwnd: 77,
    }];
    let h = get_editable_focus_hint_from(&displays, &windows, None, 42, None).unwrap();
    assert!(!h.editable);
    assert_eq!(h.window, (0, 0, 1200, 900));
    assert_eq!(h.pane, (0, 0, 1200, 900));
    assert_eq!(h.display_idx, 1);
    assert_eq!(h.foreground_hwnd, 77);
    let ax = ax_inputs("AXGroup", None);
    let h = get_editable_focus_hint_from(&displays, &windows, Some(&ax), 42, None).unwrap();
    assert!(!h.editable);
    assert_eq!(h.foreground_hwnd, 77);
    let h = get_editable_focus_hint_from(&displays, &[], None, 42, Some(1)).unwrap();
    assert_eq!(h.window, (0, 0, 1920, 1080));
    assert_eq!(h.display_idx, 1);
    assert_eq!(h.foreground_hwnd, make_foreground_window_id(42, 0));
    assert_eq!(fallback_window_hint(&displays, 42, Some(5)), None);
    assert_eq!(fallback_window_hint(&[], 42, None), None);
    let first: EditableFocusHintInfo = fallback_window_hint(&displays, 42, None).unwrap();
    assert_eq!(first.display_idx, 0);
}
