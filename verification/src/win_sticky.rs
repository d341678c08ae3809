use vstd::prelude::*;
use crate::focus_hint::{with_fg, EditableFocusHintInfo};
use crate::geometry::{has_area, near_point, point_near_rect, rect_has_area};
use crate::win_focus::{
    blocked_surface_spec, keep_previous_spec, should_keep_previous_virtual_cursor_hint,
    should_reuse_sticky_for_blocked_surface, should_reuse_sticky_for_transient_fg,
    transient_fg_spec, ForegroundWindow,
};

verus! {

/// How long (ms) an editable hint is reused for the same window.
pub const EDITABLE_FOCUS_STICKY_MS: u64 = 700;

/// How long (ms) an editable hint may be reused across transient windows,
/// blocked surfaces and near misses of the cursor.
pub const EDITABLE_FOCUS_TRANSIENT_REUSE_MS: u64 = 3000;

/// How long (ms) a caret-confirmed hint of a Qt window stays valid.
pub const QT_CARET_CONFIRMED_TTL_MS: u64 = 30_000;

/// The last editable hint and its two expiry times (milliseconds on the
/// caller's monotonic clock).
#[derive(Clone, Copy, Debug)]
pub struct EditableFocusStickyState {
    pub fg_hwnd: isize,
    pub hint: EditableFocusHintInfo,
    pub expires_at: u64,
    pub transient_expires_at: u64,
}

/// The last hint that a visible caret confirmed in a Qt window.
#[derive(Clone, Copy, Debug)]
pub struct QtCaretConfirmation {
    pub fg_hwnd: isize,
    pub hint: EditableFocusHintInfo,
    pub last_caret_at: u64,
}

/// The memory of the Windows editable-focus poller between two polls.
#[derive(Clone, Copy, Debug)]
pub struct FocusMemory {
    pub sticky: Option<EditableFocusStickyState>,
    pub qt: Option<QtCaretConfirmation>,
}

/// The clock value leaves room for the longest expiry that is added to it
/// (past it the monotonic clock's addition panics).
pub open spec fn clock_ok(now: u64) -> bool {
    now <= u64::MAX - QT_CARET_CONFIRMED_TTL_MS
}

/// The sticky state that an accepted hint starts.
pub open spec fn fresh_sticky(fg: isize, h: EditableFocusHintInfo, now: u64) -> EditableFocusStickyState {
    EditableFocusStickyState {
        fg_hwnd: fg,
        hint: h,
        expires_at: (now + EDITABLE_FOCUS_STICKY_MS) as u64,
        transient_expires_at: (now + EDITABLE_FOCUS_TRANSIENT_REUSE_MS) as u64,
    }
}

/// The decision of `finalize_editable_focus_hint`: the next sticky state
/// and the hint to report.
///
/// * An editable hint is reported and remembered, unless it is a virtual
///   proxy strip that a remembered hint of the same window still explains;
///   then the remembered hint is reported and remembered anew.
/// * A non-editable hint reuses the remembered hint (state unchanged) when
///   the same window polls within the sticky time, or a transient shell
///   window polls within the transient time, or the same window polls
///   within the transient time with the cursor within 80 pixels of the
///   remembered editor.
/// * Otherwise the memory is cleared and the hint is reported.
///
/// Every reported hint carries the polled window's identity.
pub open spec fn finalize_spec(
    sticky: Option<EditableFocusStickyState>,
    now: u64,
    fg: ForegroundWindow,
    hint: EditableFocusHintInfo,
    cursor: Option<(i32, i32)>,
) -> (Option<EditableFocusStickyState>, EditableFocusHintInfo) {
    let key = fg.hwnd;
    let h = with_fg(hint, key);
    if h.editable {
        match sticky {
            Some(prev) if prev.fg_hwnd == key && keep_previous_spec(prev.hint, h) => {
                let reused = with_fg(prev.hint, key);
                (Some(fresh_sticky(key, reused, now)), reused)
            },
            _ => (Some(fresh_sticky(key, h, now)), h),
        }
    } else {
        match sticky {
            Some(prev) => {
                if prev.fg_hwnd == key && prev.expires_at > now {
                    (sticky, with_fg(prev.hint, key))
                } else if prev.transient_expires_at > now && transient_fg_spec(fg) {
                    (sticky, with_fg(prev.hint, key))
                } else if prev.fg_hwnd == key && prev.transient_expires_at > now && (cursor matches Some(
                    c,
                ) && near_point(prev.hint.editor, c.0 as int, c.1 as int, 80)) {
                    (sticky, with_fg(prev.hint, key))
                } else {
                    (None, h)
                }
            },
            None => (None, h),
        }
    }
}

/// The decision of `try_reuse_sticky_hint_on_hard_negative`: when the
/// cursor position is known, the same window polls within the transient
/// time and the cursor is on the remembered editor or its bottom-band pane,
/// the remembered hint is reported and remembered anew.
pub open spec fn hard_negative_spec(
    sticky: Option<EditableFocusStickyState>,
    now: u64,
    key: isize,
    cursor: Option<(i32, i32)>,
) -> Option<(EditableFocusStickyState, EditableFocusHintInfo)> {
    match (cursor, sticky) {
        (Some(c), Some(prev)) => {
            if prev.fg_hwnd == key && prev.transient_expires_at > now && blocked_surface_spec(
                prev.hint,
                c.0 as int,
                c.1 as int,
            ) {
                let reused = with_fg(prev.hint, key);
                Some((fresh_sticky(key, reused, now), reused))
            } else {
                None
            }
        },
        _ => None,
    }
}

/// The decision of `check_qt_caret_confirmed`: the confirmed hint of the
/// same window while its last caret sighting is at most the TTL old, unless
/// the cursor is known and more than 48 pixels away from a pane with area.
pub open spec fn qt_check_spec(
    qt: Option<QtCaretConfirmation>,
    now: u64,
    key: isize,
    cursor: Option<(i32, i32)>,
) -> Option<EditableFocusHintInfo> {
    match qt {
        Some(conf) => {
            let age = if now >= conf.last_caret_at {
                now - conf.last_caret_at
            } else {
                0
            };
            if conf.fg_hwnd != key || age > QT_CARET_CONFIRMED_TTL_MS {
                None
            } else if cursor matches Some(c) && has_area(conf.hint.pane) && !near_point(
                conf.hint.pane,
                c.0 as int,
                c.1 as int,
                48,
            ) {
                None
            } else {
                Some(conf.hint)
            }
        },
        None => None,
    }
}

impl FocusMemory {
    /// Nothing remembered.
    pub fn new() -> (r: Self)
        ensures
            r.sticky is None,
            r.qt is None,
    {
        FocusMemory { sticky: None, qt: None }
    }

    /// Forget everything (the poller does this when there is no foreground
    /// window).
    pub fn clear(&mut self)
        ensures
            final(self).sticky is None,
            final(self).qt is None,
    {
        self.sticky = None;
        self.qt = None;
    }

    /// Records the final hint of a poll and decides what to report; see
    /// `finalize_spec`.
    pub fn finalize_editable_focus_hint(
        &mut self,
        now: u64,
        fg: &ForegroundWindow,
        hint: EditableFocusHintInfo,
        cursor: Option<(i32, i32)>,
    ) -> (r: EditableFocusHintInfo)
        requires
            clock_ok(now),
        ensures
            (final(self).sticky, r) == finalize_spec(old(self).sticky, now, *fg, hint, cursor),
            final(self).qt == old(self).qt,
    {
        let key = fg.hwnd;
        let mut hint = hint;
        hint.foreground_hwnd = key;
        if hint.editable {
            if let Some(prev) = self.sticky {
                if prev.fg_hwnd == key && should_keep_previous_virtual_cursor_hint(
                    &prev.hint,
                    &hint,
                ) {
                    let mut reused = prev.hint;
                    reused.foreground_hwnd = key;
                    self.sticky = Some(
                        EditableFocusStickyState {
                            fg_hwnd: key,
                            hint: reused,
                            expires_at: now + EDITABLE_FOCUS_STICKY_MS,
                            transient_expires_at: now + EDITABLE_FOCUS_TRANSIENT_REUSE_MS,
                        },
                    );
                    return reused;
                }
            }
            self.sticky = Some(
                EditableFocusStickyState {
                    fg_hwnd: key,
                    hint: hint,
                    expires_at: now + EDITABLE_FOCUS_STICKY_MS,
                    transient_expires_at: now + EDITABLE_FOCUS_TRANSIENT_REUSE_MS,
                },
            );
            return hint;
        }
        if let Some(prev) = self.sticky {
            if prev.fg_hwnd == key && prev.expires_at > now {
                let mut reused = prev.hint;
                reused.foreground_hwnd = key;
                return reused;
            }
            if prev.transient_expires_at > now && should_reuse_sticky_for_transient_fg(fg) {
                let mut reused = prev.hint;
                reused.foreground_hwnd = key;
                return reused;
            }
            if prev.fg_hwnd == key && prev.transient_expires_at > now {
                if let Some((x, y)) = cursor {
                    if point_near_rect(prev.hint.editor, x, y, 80) {
                        let mut reused = prev.hint;
                        reused.foreground_hwnd = key;
                        return reused;
                    }
                }
            }
        }
        self.sticky = None;
        hint
    }

    /// On a hard negative of the probe, reuse the remembered hint when the
    /// cursor is still on it; see `hard_negative_spec`.
    pub fn try_reuse_sticky_hint_on_hard_negative(
        &mut self,
        now: u64,
        fg_hwnd: isize,
        cursor: Option<(i32, i32)>,
    ) -> (r: Option<EditableFocusHintInfo>)
        requires
            clock_ok(now),
        ensures
            match hard_negative_spec(old(self).sticky, now, fg_hwnd, cursor) {
                Some((st, h)) => r == Some(h) && final(self).sticky == Some(st),
                None => r is None && final(self).sticky == old(self).sticky,
            },
            final(self).qt == old(self).qt,
    {
        let (x, y) = match cursor {
            Some(c) => c,
            None => return None,
        };
        let prev = match self.sticky {
            Some(p) => p,
            None => return None,
        };
        if prev.fg_hwnd != fg_hwnd || prev.transient_expires_at <= now {
            return None;
        }
        if !should_reuse_sticky_for_blocked_surface(&prev.hint, x, y) {
            return None;
        }
        let mut reused = prev.hint;
        reused.foreground_hwnd = fg_hwnd;
        self.sticky = Some(
            EditableFocusStickyState {
                fg_hwnd: fg_hwnd,
                hint: reused,
                expires_at: now + EDITABLE_FOCUS_STICKY_MS,
                transient_expires_at: now + EDITABLE_FOCUS_TRANSIENT_REUSE_MS,
            },
        );
        Some(reused)
    }

    /// Remembers a hint that a visible caret confirmed in a Qt window.
    pub fn record_qt_caret_confirmation(
        &mut self,
        now: u64,
        fg_hwnd: isize,
        hint: &EditableFocusHintInfo,
    )
        ensures
            final(self).qt == Some(
                QtCaretConfirmation { fg_hwnd: fg_hwnd, hint: *hint, last_caret_at: now },
            ),
            final(self).sticky == old(self).sticky,
    {
        self.qt = Some(QtCaretConfirmation { fg_hwnd: fg_hwnd, hint: *hint, last_caret_at: now });
    }

    /// The caret-confirmed hint of a Qt window, while it is still valid;
    /// see `qt_check_spec`.
    pub fn check_qt_caret_confirmed(
        &self,
        now: u64,
        fg_hwnd: isize,
        cursor: Option<(i32, i32)>,
    ) -> (r: Option<EditableFocusHintInfo>)
        ensures
            r == qt_check_spec(self.qt, now, fg_hwnd, cursor),
    {
        let conf = match self.qt {
            Some(c) => c,
            None => return None,
        };
        if conf.fg_hwnd != fg_hwnd {
            return None;
        }
        let age = if now >= conf.last_caret_at {
            now - conf.last_caret_at
        } else {
            0
        };
        if age > QT_CARET_CONFIRMED_TTL_MS {
            return None;
        }
        if let Some((x, y)) = cursor {
            if rect_has_area(conf.hint.pane) && !point_near_rect(conf.hint.pane, x, y, 48) {
                return None;
            }
        }
        Some(conf.hint)
    }
}

/// An editable hint that was reported is remembered: a later non-editable
/// poll of the same window within the sticky time reports it again, with
/// the memory unchanged. (The one bound is that the expiries of the first
/// poll are clock values; past it the monotonic clock's addition panics.)
pub proof fn law_sticky_reuse_within_ttl(
    sticky: Option<EditableFocusStickyState>,
    t1: u64,
    t2: u64,
    fg: ForegroundWindow,
    hint1: EditableFocusHintInfo,
    hint2: EditableFocusHintInfo,
    c1: Option<(i32, i32)>,
    c2: Option<(i32, i32)>,
)
    requires
        t1 + EDITABLE_FOCUS_TRANSIENT_REUSE_MS <= u64::MAX,
        hint1.editable,
        !hint2.editable,
        t1 <= t2 < t1 + EDITABLE_FOCUS_STICKY_MS,
    ensures
        ({
            let (s1, r1) = finalize_spec(sticky, t1, fg, hint1, c1);
            let (s2, r2) = finalize_spec(s1, t2, fg, hint2, c2);
            r2 == r1 && s2 == s1
        }),
{
}

/// Every reported hint carries the polled window's identity, and is either
/// the polled hint or the remembered one.
pub proof fn law_finalize_reports_polled_or_remembered(
    sticky: Option<EditableFocusStickyState>,
    now: u64,
    fg: ForegroundWindow,
    hint: EditableFocusHintInfo,
    cursor: Option<(i32, i32)>,
)
    ensures
        ({
            let (s, r) = finalize_spec(sticky, now, fg, hint, cursor);
            &&& r.foreground_hwnd == fg.hwnd
            &&& (r == with_fg(hint, fg.hwnd) || (sticky matches Some(p) && r == with_fg(
                p.hint,
                fg.hwnd,
            )))
            &&& (s matches Some(st) ==> st.hint.foreground_hwnd == fg.hwnd || s == sticky)
        }),
{
}

/// A non-editable poll with nothing remembered reports the polled hint and
/// leaves nothing remembered.
pub proof fn law_finalize_without_memory(
    now: u64,
    fg: ForegroundWindow,
    hint: EditableFocusHintInfo,
    cursor: Option<(i32, i32)>,
)
    requires
        !hint.editable,
    ensures
        finalize_spec(None, now, fg, hint, cursor) == (
            None::<EditableFocusStickyState>,
            with_fg(hint, fg.hwnd),
        ),
{
}

/// Once the transient time of the memory has passed, a non-editable poll
/// clears it and reports the polled hint.
pub proof fn law_memory_expires(
    st: EditableFocusStickyState,
    now: u64,
    fg: ForegroundWindow,
    hint: EditableFocusHintInfo,
    cursor: Option<(i32, i32)>,
)
    requires
        !hint.editable,
        st.expires_at <= st.transient_expires_at,
        now >= st.transient_expires_at,
    ensures
        finalize_spec(Some(st), now, fg, hint, cursor) == (
            None::<EditableFocusStickyState>,
            with_fg(hint, fg.hwnd),
        ),
{
}

} // verus!
