//! The pan/zoom interaction state machine.
//!
//! The transform is either idle or dragging; a drag holds the cursor
//! position and view offset captured when the button went down.  Every
//! pan update recomputes the offset from that fixed anchor rather than
//! accumulating per-frame deltas, so no floating-point drift can build up
//! over a long drag.  The numeric work itself is the caller's: this
//! module owns the transitions and hands out the anchor values, and
//! [`crate::view_math`] states the arithmetic the caller must apply.

use vstd::prelude::*;

use crate::shader_float::Vec2Bits;

verus! {

/// The state captured while a drag gesture is active.  Positions are
/// screen coordinates, the offset is in world units; all are carried as
/// IEEE-754 bit patterns.
#[derive(Debug, Clone, Copy, PartialEq, Eq, Structural)]
pub struct DragState {
    /// Cursor position at the press that started the drag: the anchor
    /// every later pan update recomputes from.
    pub start_cursor_pos: Vec2Bits,
    /// Cursor position at the last committed pan update; used by the
    /// caller's motion-noise guard to suppress jitter-driven updates.
    pub previous_cursor_pos: Vec2Bits,
    /// View offset at the press that started the drag.
    pub start_offset: Vec2Bits,
}

/// The interaction state of the view transform: idle, or dragging with
/// the captured anchor.
#[derive(Debug, Clone, Copy, PartialEq, Eq, Structural)]
pub struct FractalInputState {
    pub drag_state: Option<DragState>,
}

impl Default for FractalInputState {
    /// The transform starts idle.
    fn default() -> (r: Self)
        ensures
            r.drag_state is None,
    {
        FractalInputState { drag_state: None }
    }
}

impl FractalInputState {
    /// Releasing the primary button always ends the drag, even when the
    /// pointer has left the viewport.
    pub fn on_button_released(&mut self)
        ensures
            final(self).drag_state is None,
    {
        self.drag_state = None;
    }

    /// Pressing the primary button inside the viewport starts a drag
    /// anchored at the current cursor position and view offset; a press
    /// outside the viewport changes nothing.
    pub fn on_button_pressed(
        &mut self,
        cursor_pos: Vec2Bits,
        cursor_in_viewport: bool,
        current_offset: Vec2Bits,
    )
        ensures
            cursor_in_viewport ==> final(self).drag_state == Some(
                DragState {
                    start_cursor_pos: cursor_pos,
                    previous_cursor_pos: cursor_pos,
                    start_offset: current_offset,
                },
            ),
            !cursor_in_viewport ==> *final(self) == *old(self),
    {
        if cursor_in_viewport {
            self.drag_state = Some(
                DragState {
                    start_cursor_pos: cursor_pos,
                    previous_cursor_pos: cursor_pos,
                    start_offset: current_offset,
                },
            );
        }
    }

    /// The cursor position recorded at the last committed pan update, if
    /// a drag is active.  The caller's motion-noise guard compares it
    /// against the current cursor before asking for a pan update.
    pub fn previous_cursor_pos(&self) -> (r: Option<Vec2Bits>)
        ensures
            r == match self.drag_state {
                Some(drag) => Some(drag.previous_cursor_pos),
                None => None::<Vec2Bits>,
            },
    {
        match &self.drag_state {
            Some(drag) => Some(drag.previous_cursor_pos),
            None => None,
        }
    }

    /// One pan step.  While the button is held, a drag is active and the
    /// pointer has moved past the caller's noise threshold, this returns
    /// the drag anchor `(start_cursor_pos, start_offset)` from which the
    /// caller recomputes the offset, and records the cursor position for
    /// the next noise check.  In every other case the state is unchanged
    /// and there is nothing to recompute.
    pub fn pan_step(&mut self, button_pressed: bool, cursor_pos: Vec2Bits, pointer_moved: bool) -> (
        r: Option<(Vec2Bits, Vec2Bits)>)
        ensures
            match old(self).drag_state {
                Some(drag) => {
                    if button_pressed && pointer_moved {
                        r == Some((drag.start_cursor_pos, drag.start_offset))
                            && final(self).drag_state == Some(
                            DragState {
                                start_cursor_pos: drag.start_cursor_pos,
                                previous_cursor_pos: cursor_pos,
                                start_offset: drag.start_offset,
                            },
                        )
                    } else {
                        r is None && *final(self) == *old(self)
                    }
                },
                None => r is None && *final(self) == *old(self),
            },
    {
        if !button_pressed {
            return None;
        }
        match &mut self.drag_state {
            Some(drag) => {
                if pointer_moved {
                    let anchor = (drag.start_cursor_pos, drag.start_offset);
                    drag.previous_cursor_pos = cursor_pos;
                    Some(anchor)
                } else {
                    None
                }
            },
            None => None,
        }
    }
}

} // verus!
