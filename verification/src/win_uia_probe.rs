//! The order of the UI Automation probe of one window: the element under
//! the cursor, then the focused element, then the window's own element,
//! each with the descendant search of AWT hosts, and the final fallback.
//! The caller reads the elements (COM calls) and hands back what it read;
//! the probe decides what to read next and when it has its result.

use vstd::prelude::*;
use crate::geometry::{coord_ok, lemma_ok_is_wide, rect_ok, wide_ok, Rect};
use crate::win_focus::{cursor_surface_explicitly_noneditable, explicitly_noneditable_spec};
use crate::win_probe::{apply_awt_code_file_override, awt_override_spec, ProbeResult};
use crate::win_uia::{
    chromium_host_spec, final_spec, focused_decision, focused_spec, handle_decision, handle_spec,
    is_chromium_host, point_accept_spec, point_candidate_accepted, point_pane_candidate,
    point_pane_spec, point_result, point_result_spec, probe_final, probe_kind_ok,
    law_probe_kinds_in_range,
};

verus! {

/// What the probe knows of the window it probes.
pub struct UiaProbeContext {
    pub host_rect: (i32, i32, i32, i32),
    pub host_class: Vec<char>,
    pub host_title: Vec<char>,
    pub cursor: Option<(i32, i32)>,
}

/// What was read of one element.
pub struct UiaElementReport {
    /// Its class name as UI Automation reports it.
    pub class_name: Vec<char>,
    /// Its bounding rectangle, if it could be read.
    pub bounds: Option<(i32, i32, i32, i32)>,
    /// The classification of the element or of its nearest editable
    /// ancestor (see `classify_element`); `None` when reading it failed.
    pub candidate: Option<(bool, i32, Option<(i32, i32, i32, i32)>)>,
    /// The code pane among its ancestors (see `code_pane_candidate`).
    pub code_pane: Option<(i32, i32, i32, i32)>,
    /// Whether it is an AWT host whose editable descendants must be searched.
    pub awt_host: bool,
}

/// What the caller hands back after an action.
pub enum UiaProbeEvent {
    /// The element that was asked for.
    Element(UiaElementReport),
    /// There is no such element (nothing under the cursor, no focus).
    Missing,
    /// A UI Automation call failed where the probe cannot go on.
    Failed,
    /// The result of the descendant search (see `descendant_hit`).
    Descendants(Option<ProbeResult>),
}

/// What the caller does next.
#[derive(Clone, Copy, Debug, PartialEq, Eq)]
pub enum UiaProbeAction {
    /// Read the element under the cursor.
    ReadPointElement,
    /// Search the descendants of the element just read.
    ProbeDescendants,
    /// Read the focused element.
    ReadFocusedElement,
    /// Read the element of the window itself.
    ReadHandleElement,
    /// The probe is over, with this result.
    Done(ProbeResult),
}

/// Where the probe stands.
#[derive(Clone, Copy, Debug, PartialEq, Eq, Structural)]
pub enum UiaStage {
    Point,
    PointDescendants,
    Focused,
    FocusedDescendants,
    Handle,
    Finished,
}

/// The probe between two reads: its stage, the content pane found under
/// the cursor, whether the surface under the cursor is explicitly not
/// editable, and the last editable candidate that did not end the probe.
#[derive(Clone, Copy, Debug)]
pub struct UiaProbe {
    pub stage: UiaStage,
    pub content_pane: Option<(i32, i32, i32, i32)>,
    pub blocks: bool,
    pub fallback: Option<(bool, i32, Option<(i32, i32, i32, i32)>)>,
}

/// The result of a probe that could not run or whose reads failed.
pub open spec fn nothing_found() -> ProbeResult {
    (false, 0i32, None, None)
}

pub open spec fn finished(s: UiaProbe, r: ProbeResult) -> (UiaProbe, UiaProbeAction) {
    (UiaProbe { stage: UiaStage::Finished, ..s }, UiaProbeAction::Done(r))
}

pub open spec fn goto(s: UiaProbe, stage: UiaStage) -> (UiaProbe, UiaProbeAction) {
    (
        UiaProbe { stage, ..s },
        match stage {
            UiaStage::PointDescendants => UiaProbeAction::ProbeDescendants,
            UiaStage::FocusedDescendants => UiaProbeAction::ProbeDescendants,
            UiaStage::Focused => UiaProbeAction::ReadFocusedElement,
            UiaStage::Handle => UiaProbeAction::ReadHandleElement,
            UiaStage::Point => UiaProbeAction::ReadPointElement,
            UiaStage::Finished => UiaProbeAction::Done(nothing_found()),
        },
    )
}

/// A descendant found by the search, its pane standing in for the content
/// pane.
pub open spec fn descendant_result(d: ProbeResult, content_pane: Option<Rect>) -> ProbeResult {
    (d.0, d.1, d.2, if d.3 is Some { d.3 } else { content_pane })
}

/// The start: nothing when UI Automation cannot be used; else the element
/// under the cursor first, or the focused element without a cursor.
pub open spec fn probe_begin_spec(com_ok: bool, cursor: Option<(i32, i32)>) -> (UiaProbe, UiaProbeAction) {
    let s = UiaProbe { stage: UiaStage::Finished, content_pane: None, blocks: false, fallback: None };
    if !com_ok {
        finished(s, nothing_found())
    } else if cursor is Some {
        goto(s, UiaStage::Point)
    } else {
        goto(s, UiaStage::Focused)
    }
}

/// One step of the probe on what was read.
///
/// * Under the cursor: a Chromium-like host's element gives the content
///   pane; a non-editable element whose class is explicitly not editable
///   marks the surface; a non-editable AWT host has its descendants
///   searched; an accepted editable element ends the probe; anything else
///   (or nothing read) goes on to the focused element.
/// * The focused element: nothing focused goes on to the window's element;
///   a failed read ends the probe with nothing; an editable one is kept as
///   fallback and ends the probe when `focused_spec` says so; a
///   non-editable AWT host has its descendants searched.
/// * A descendant found ends the probe; none goes on.
/// * The window's element: an editable one is kept as fallback; the probe
///   ends with `handle_spec`'s result, else with `final_spec` over the
///   fallback; a failed read ends it with nothing.
pub open spec fn probe_step_spec(
    s: UiaProbe,
    host: Rect,
    host_class: Seq<char>,
    host_title: Seq<char>,
    cursor: Option<(i32, i32)>,
    ev: UiaProbeEvent,
) -> (UiaProbe, UiaProbeAction) {
    match s.stage {
        UiaStage::Point => match ev {
            UiaProbeEvent::Element(r) => {
                let c = cursor.unwrap();
                let cp = point_pane_spec(chromium_host_spec(host_class), r.bounds, host, c);
                let s1 = UiaProbe { content_pane: if cp is Some { cp } else { s.content_pane }, ..s };
                match r.candidate {
                    None => goto(s1, UiaStage::Focused),
                    Some(cand) => {
                        let s2 = UiaProbe {
                            blocks: s1.blocks || (!cand.0 && explicitly_noneditable_spec(r.class_name@)),
                            ..s1
                        };
                        if !cand.0 && r.awt_host {
                            goto(s2, UiaStage::PointDescendants)
                        } else if cand.0 && point_accept_spec(cand.2, c, host) {
                            finished(s2, point_result_spec(cand, r.code_pane, host, s2.content_pane))
                        } else {
                            goto(s2, UiaStage::Focused)
                        }
                    },
                }
            },
            _ => goto(s, UiaStage::Focused),
        },
        UiaStage::PointDescendants => match ev {
            UiaProbeEvent::Descendants(Some(d)) => finished(s, descendant_result(d, s.content_pane)),
            UiaProbeEvent::Failed => finished(s, nothing_found()),
            _ => goto(s, UiaStage::Focused),
        },
        UiaStage::Focused => match ev {
            UiaProbeEvent::Missing => goto(s, UiaStage::Handle),
            UiaProbeEvent::Element(r) => match r.candidate {
                Some(f) => if f.0 {
                    let s1 = UiaProbe { fallback: Some(f), ..s };
                    match focused_spec(f, r.code_pane, cursor, host, s.content_pane) {
                        Some(res) => finished(s1, res),
                        None => goto(s1, UiaStage::Handle),
                    }
                } else if r.awt_host {
                    goto(s, UiaStage::FocusedDescendants)
                } else {
                    goto(s, UiaStage::Handle)
                },
                None => finished(s, nothing_found()),
            },
            UiaProbeEvent::Failed => finished(s, nothing_found()),
            UiaProbeEvent::Descendants(_) => goto(s, UiaStage::Handle),
        },
        UiaStage::FocusedDescendants => match ev {
            UiaProbeEvent::Descendants(Some(d)) => finished(s, descendant_result(d, s.content_pane)),
            UiaProbeEvent::Failed => finished(s, nothing_found()),
            _ => goto(s, UiaStage::Handle),
        },
        UiaStage::Handle => match ev {
            UiaProbeEvent::Element(r) => match r.candidate {
                Some(h) => {
                    let s1 = UiaProbe { fallback: if h.0 { Some(h) } else { s.fallback }, ..s };
                    match handle_spec(h, r.code_pane, cursor, host, s.content_pane) {
                        Some(res) => finished(s1, res),
                        None => finished(
                            s1,
                            final_spec(
                                match s1.fallback {
                                    Some(f) => f,
                                    None => (false, 0i32, None),
                                },
                                s1.blocks,
                                cursor,
                                host,
                                s1.content_pane,
                                awt_override_spec(host_class, host_title, host, cursor),
                            ),
                        ),
                    }
                },
                None => finished(s, nothing_found()),
            },
            _ => finished(s, nothing_found()),
        },
        UiaStage::Finished => finished(s, nothing_found()),
    }
}

/// How many steps are left at most from a stage.
pub open spec fn stage_rank(st: UiaStage) -> nat {
    match st {
        UiaStage::Point => 5,
        UiaStage::PointDescendants => 4,
        UiaStage::Focused => 3,
        UiaStage::FocusedDescendants => 2,
        UiaStage::Handle => 1,
        UiaStage::Finished => 0,
    }
}

/// The rectangles of a report are within the coordinate bound.
pub open spec fn report_ok(r: UiaElementReport) -> bool {
    &&& r.bounds matches Some(b) ==> rect_ok(b)
    &&& r.candidate matches Some(c) ==> (c.2 matches Some(e) ==> rect_ok(e))
    &&& r.code_pane matches Some(p) ==> rect_ok(p)
}

/// The fallback candidate's editor is within the wider bound.
pub open spec fn probe_state_ok(s: UiaProbe) -> bool {
    s.fallback matches Some(f) ==> (f.2 matches Some(e) ==> wide_ok(e))
}

pub open spec fn context_ok(ctx: &UiaProbeContext) -> bool {
    &&& rect_ok(ctx.host_rect)
    &&& ctx.cursor matches Some(c) ==> coord_ok(c.0 as int) && coord_ok(c.1 as int)
}

fn goto_exec(s: UiaProbe, stage: UiaStage) -> (r: (UiaProbe, UiaProbeAction))
    ensures
        r == goto(s, stage),
{
    let a = match stage {
        UiaStage::PointDescendants => UiaProbeAction::ProbeDescendants,
        UiaStage::FocusedDescendants => UiaProbeAction::ProbeDescendants,
        UiaStage::Focused => UiaProbeAction::ReadFocusedElement,
        UiaStage::Handle => UiaProbeAction::ReadHandleElement,
        UiaStage::Point => UiaProbeAction::ReadPointElement,
        UiaStage::Finished => UiaProbeAction::Done((false, 0, None, None)),
    };
    (UiaProbe { stage, ..s }, a)
}

fn finish_exec(s: UiaProbe, r: ProbeResult) -> (o: (UiaProbe, UiaProbeAction))
    ensures
        o == finished(s, r),
{
    (UiaProbe { stage: UiaStage::Finished, ..s }, UiaProbeAction::Done(r))
}

fn with_content_pane(d: ProbeResult, content_pane: Option<(i32, i32, i32, i32)>) -> (r: ProbeResult)
    ensures
        r == descendant_result(d, content_pane),
{
    (d.0, d.1, d.2, if d.3.is_some() { d.3 } else { content_pane })
}

impl UiaProbe {
    /// Starts the probe; `com_ok` tells whether UI Automation can be used.
    pub fn begin(com_ok: bool, cursor: Option<(i32, i32)>) -> (r: (UiaProbe, UiaProbeAction))
        ensures
            r == probe_begin_spec(com_ok, cursor),
            probe_state_ok(r.0),
    {
        let s = UiaProbe { stage: UiaStage::Finished, content_pane: None, blocks: false, fallback: None };
        if !com_ok {
            finish_exec(s, (false, 0, None, None))
        } else if cursor.is_some() {
            goto_exec(s, UiaStage::Point)
        } else {
            goto_exec(s, UiaStage::Focused)
        }
    }

    /// Takes what was read and gives the next action (see
    /// `probe_step_spec`).
    pub fn on_event(&mut self, ctx: &UiaProbeContext, ev: UiaProbeEvent) -> (a: UiaProbeAction)
        requires
            context_ok(ctx),
            probe_state_ok(*old(self)),
            old(self).stage == UiaStage::Point ==> ctx.cursor is Some,
            ev matches UiaProbeEvent::Element(r) ==> report_ok(r),
        ensures
            (*final(self), a) == probe_step_spec(
                *old(self),
                ctx.host_rect,
                ctx.host_class@,
                ctx.host_title@,
                ctx.cursor,
                ev,
            ),
            probe_state_ok(*final(self)),
    {
        let host = ctx.host_rect;
        let cursor = ctx.cursor;
        proof {
            lemma_ok_is_wide(host);
        }
        let s = *self;
        let (next, action) = match s.stage {
            UiaStage::Point => match ev {
                UiaProbeEvent::Element(r) => {
                    let c = cursor.unwrap();
                    let cp = point_pane_candidate(is_chromium_host(&ctx.host_class), r.bounds, host, c);
                    let s1 = UiaProbe { content_pane: if cp.is_some() { cp } else { s.content_pane }, ..s };
                    match r.candidate {
                        None => goto_exec(s1, UiaStage::Focused),
                        Some(cand) => {
                            let marks = !cand.0 && cursor_surface_explicitly_noneditable(&r.class_name);
                            let s2 = UiaProbe { blocks: s1.blocks || marks, ..s1 };
                            if !cand.0 && r.awt_host {
                                goto_exec(s2, UiaStage::PointDescendants)
                            } else if cand.0 && point_candidate_accepted(cand.2, c, host) {
                                let res = point_result(cand, r.code_pane, host, s2.content_pane);
                                finish_exec(s2, res)
                            } else {
                                goto_exec(s2, UiaStage::Focused)
                            }
                        },
                    }
                },
                _ => goto_exec(s, UiaStage::Focused),
            },
            UiaStage::PointDescendants => match ev {
                UiaProbeEvent::Descendants(Some(d)) => finish_exec(s, with_content_pane(d, s.content_pane)),
                UiaProbeEvent::Failed => finish_exec(s, (false, 0, None, None)),
                _ => goto_exec(s, UiaStage::Focused),
            },
            UiaStage::Focused => match ev {
                UiaProbeEvent::Missing => goto_exec(s, UiaStage::Handle),
                UiaProbeEvent::Element(r) => match r.candidate {
                    Some(f) => if f.0 {
                        proof {
                            if let Some(e) = f.2 {
                                lemma_ok_is_wide(e);
                            }
                        }
                        let s1 = UiaProbe { fallback: Some(f), ..s };
                        match focused_decision(f, r.code_pane, cursor, host, s.content_pane) {
                            Some(res) => finish_exec(s1, res),
                            None => goto_exec(s1, UiaStage::Handle),
                        }
                    } else if r.awt_host {
                        goto_exec(s, UiaStage::FocusedDescendants)
                    } else {
                        goto_exec(s, UiaStage::Handle)
                    },
                    None => finish_exec(s, (false, 0, None, None)),
                },
                UiaProbeEvent::Failed => finish_exec(s, (false, 0, None, None)),
                UiaProbeEvent::Descendants(_) => goto_exec(s, UiaStage::Handle),
            },
            UiaStage::FocusedDescendants => match ev {
                UiaProbeEvent::Descendants(Some(d)) => finish_exec(s, with_content_pane(d, s.content_pane)),
                UiaProbeEvent::Failed => finish_exec(s, (false, 0, None, None)),
                _ => goto_exec(s, UiaStage::Handle),
            },
            UiaStage::Handle => match ev {
                UiaProbeEvent::Element(r) => match r.candidate {
                    Some(h) => {
                        proof {
                            if let Some(e) = h.2 {
                                lemma_ok_is_wide(e);
                            }
                        }
                        let s1 = UiaProbe { fallback: if h.0 { Some(h) } else { s.fallback }, ..s };
                        match handle_decision(h, r.code_pane, cursor, host, s.content_pane) {
                            Some(res) => finish_exec(s1, res),
                            None => {
                                let fb = match s1.fallback {
                                    Some(f) => f,
                                    None => (false, 0, None),
                                };
                                let awt = apply_awt_code_file_override(
                                    &ctx.host_class,
                                    &ctx.host_title,
                                    host,
                                    cursor,
                                );
                                let res = probe_final(fb, s1.blocks, cursor, host, s1.content_pane, awt);
                                finish_exec(s1, res)
                            },
                        }
                    },
                    None => finish_exec(s, (false, 0, None, None)),
                },
                _ => finish_exec(s, (false, 0, None, None)),
            },
            UiaStage::Finished => finish_exec(s, (false, 0, None, None)),
        };
        *self = next;
        action
    }
}

/// The probe ends: every step either ends it or moves it to a later stage,
/// so it reads at most five times.
pub proof fn law_probe_terminates(
    s: UiaProbe,
    host: Rect,
    host_class: Seq<char>,
    host_title: Seq<char>,
    cursor: Option<(i32, i32)>,
    ev: UiaProbeEvent,
)
    requires
        s.stage != UiaStage::Finished,
    ensures
        ({
            let (s2, a) = probe_step_spec(s, host, host_class, host_title, cursor, ev);
            &&& stage_rank(s2.stage) < stage_rank(s.stage)
            &&& (a is Done <==> s2.stage == UiaStage::Finished)
        }),
{
}

/// What the caller reports is in range: an editable classification or
/// descendant has a content kind from 1 to 3.
pub open spec fn event_in_range(ev: UiaProbeEvent) -> bool {
    match ev {
        UiaProbeEvent::Element(r) => r.candidate matches Some(c) ==> probe_kind_ok(c.0, c.1),
        UiaProbeEvent::Descendants(d) => d matches Some(x) ==> probe_kind_ok(x.0, x.1),
        _ => true,
    }
}

/// The probe's result keeps the content kind in range: whatever was read,
/// an editable result has a kind from 1 to 3 when the classifications were
/// in range (as `law_probe_kinds_in_range` shows they are).
pub proof fn law_probe_result_in_range(
    s: UiaProbe,
    host: Rect,
    host_class: Seq<char>,
    host_title: Seq<char>,
    cursor: Option<(i32, i32)>,
    ev: UiaProbeEvent,
)
    requires
        s.fallback matches Some(f) ==> probe_kind_ok(f.0, f.1),
        event_in_range(ev),
    ensures
        ({
            let (s2, a) = probe_step_spec(s, host, host_class, host_title, cursor, ev);
            &&& s2.fallback matches Some(f) ==> probe_kind_ok(f.0, f.1)
            &&& a matches UiaProbeAction::Done(res) ==> probe_kind_ok(res.0, res.1)
        }),
{
    let fb = match s.fallback {
        Some(f) => f,
        None => (false, 0i32, None),
    };
    match ev {
        UiaProbeEvent::Element(r) => match r.candidate {
            Some(c) => {
                let awt = awt_override_spec(host_class, host_title, host, cursor);
                law_probe_kinds_in_range(
                    arbitrary(),
                    host,
                    c,
                    r.code_pane,
                    cursor,
                    s.content_pane,
                    s.blocks,
                    awt,
                    host_class,
                    host_title,
                    0,
                );
                let h_fb = if c.0 { c } else { fb };
                law_probe_kinds_in_range(
                    arbitrary(),
                    host,
                    h_fb,
                    r.code_pane,
                    cursor,
                    s.content_pane,
                    s.blocks,
                    awt,
                    host_class,
                    host_title,
                    0,
                );
            },
            None => {},
        },
        _ => {},
    }
}

} // verus!
