//! `[more]` pager.
//!
//! After a game command whose output overflows the story pane, the view stops at
//! the FIRST new screenful and shows a `[more]` prompt; each keypress pages down
//! one screen until it catches up to the bottom.
//!
//! The story pane's scroll offset is measured in rows-from-bottom (`0` = newest
//! at bottom). Engaging the pager is a two-phase arm/activate: a command turn
//! records the wrapped-row total before its output ([`Pager::arm`]), and the next
//! render, which knows the after-total and the viewport height, asks
//! [`activation_target`] whether to engage and where to park the scroll offset.

use vstd::prelude::*;

verus! {

/// Pager runtime state.
#[derive(Debug, Clone)]
pub struct Pager {
    /// True while the `[more]` prompt is showing and keypresses page the pane.
    pub active: bool,
    /// The transcript's wrapped-row total BEFORE the armed turn's output;
    /// `None` when not armed.
    pub pending_before_rows: Option<u16>,
}

impl Default for Pager {
    fn default() -> (p: Pager)
        ensures
            !p.active,
            p.pending_before_rows is None,
    {
        Pager { active: false, pending_before_rows: None }
    }
}

impl Pager {
    /// Arm for the turn that just appended output: record the pre-turn
    /// wrapped-row count.
    pub fn arm(&mut self, before_rows: u16)
        ensures
            final(self).pending_before_rows == Some(before_rows),
            final(self).active == old(self).active,
    {
        self.pending_before_rows = Some(before_rows);
    }

    /// Clear any pending arm.
    pub fn disarm(&mut self)
        ensures
            final(self).pending_before_rows is None,
            final(self).active == old(self).active,
    {
        self.pending_before_rows = None;
    }
}

/// Rows a turn added to the transcript, saturating at zero.
pub open spec fn rows_added(before_rows: u16, after_rows: u16) -> int {
    if after_rows >= before_rows { after_rows - before_rows } else { 0 }
}

/// What [`activation_target`] answers: `None` when the new output fits in one
/// screen (or the viewport is empty), otherwise the rows-from-bottom offset that
/// puts the first new row at the top of the viewport.
pub open spec fn activation_target_spec(before_rows: u16, after_rows: u16, viewport_rows: u16) -> Option<int> {
    if viewport_rows == 0 || rows_added(before_rows, after_rows) <= viewport_rows {
        None
    } else {
        Some(rows_added(before_rows, after_rows) - viewport_rows)
    }
}

/// Decide whether the pager should engage and, if so, the initial scroll
/// offset that shows the FIRST new screenful.
///
/// The offset never over-scrolls: it is at most `after_rows - viewport_rows`,
/// the largest meaningful offset, and it places row `before_rows` exactly at the
/// top of the viewport.
pub fn activation_target(before_rows: u16, after_rows: u16, viewport_rows: u16) -> (r: Option<u16>)
    ensures
        r matches Some(t) ==> activation_target_spec(before_rows, after_rows, viewport_rows) == Some(t as int),
        r is None ==> activation_target_spec(before_rows, after_rows, viewport_rows) is None,
        r matches Some(t) ==> t + viewport_rows <= after_rows,
        r matches Some(t) ==> after_rows - t - viewport_rows == before_rows,
{
    if viewport_rows == 0 {
        return None;
    }
    let added = after_rows.saturating_sub(before_rows);
    if added <= viewport_rows {
        return None;
    }
    Some(added - viewport_rows)
}

} // verus!
