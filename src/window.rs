//! What the window's events do to the loop's state: resizing records the
//! new client size, closing or destroying the window stops the loop.

use vstd::prelude::*;

verus! {

/// The window events that the loop reacts to.
#[derive(Clone, Copy, Debug, PartialEq, Eq)]
pub enum WindowEvent {
    /// The client area now spans these edges.
    Resize { left: i32, top: i32, right: i32, bottom: i32 },
    Close,
    Destroy,
    Other,
}

/// The loop's view of its window.
#[derive(Clone, Copy, Debug, PartialEq, Eq)]
pub struct WindowState {
    pub running: bool,
    pub width: u32,
    pub height: u32,
}

/// Length of the span from `lo` to `hi`, or zero where `hi` lies before `lo`.
pub open spec fn spec_span(lo: int, hi: int) -> int {
    if hi > lo {
        hi - lo
    } else {
        0
    }
}

fn span(lo: i32, hi: i32) -> (r: u32)
    ensures
        r == spec_span(lo as int, hi as int),
{
    if hi > lo {
        (hi as i64 - lo as i64) as u32
    } else {
        0
    }
}

impl WindowState {
    pub fn new(width: u32, height: u32) -> (r: WindowState)
        ensures
            r == (WindowState { running: true, width, height }),
    {
        WindowState { running: true, width, height }
    }

    /// Applies one window event.
    pub fn handle_event(&mut self, event: WindowEvent)
        ensures
            match event {
                WindowEvent::Resize { left, top, right, bottom } => *final(self) == (WindowState {
                    running: old(self).running,
                    width: spec_span(left as int, right as int) as u32,
                    height: spec_span(top as int, bottom as int) as u32,
                }),
                WindowEvent::Close | WindowEvent::Destroy => *final(self) == (WindowState {
                    running: false,
                    ..*old(self)
                }),
                WindowEvent::Other => *final(self) == *old(self),
            },
    {
        match event {
            WindowEvent::Resize { left, top, right, bottom } => {
                self.width = span(left, right);
                self.height = span(top, bottom);
            },
            WindowEvent::Close | WindowEvent::Destroy => {
                self.running = false;
            },
            WindowEvent::Other => {},
        }
    }
}

} // verus!
