use vstd::prelude::*;
use crate::color::Color;
use crate::state::AppState;
use crate::surface::Extent;

verus! {

/// A window or loop event, reduced to what the decisions read of it.
#[derive(Clone, Copy, Debug, PartialEq, Eq, Structural)]
pub enum LoopEvent {
    /// The user asked to close the window.
    CloseRequested,
    /// A keyboard event: whether the key went down, and whether it is Escape.
    Keyboard { pressed: bool, escape: bool },
    /// The window was resized to this size.
    Resized { size: Extent },
    /// The window moved to a display with another scale factor; the new
    /// physical size is handled like a resize.
    ScaleFactorChanged { size: Extent },
    /// Any other window event; none is acted on.
    Other,
}

/// What the event loop must do next.
#[derive(Clone, Copy, Debug, PartialEq, Eq, Structural)]
pub enum LoopAction {
    /// Keep running; nothing to do for this event.
    Continue,
    /// Terminate the event loop.
    Exit,
    /// Reconfigure the surface with the state's current configuration.
    Reconfigure,
    /// Ask the window for a redraw.
    RequestRedraw,
}

/// Why acquiring the next presentable frame failed.
#[derive(Clone, Copy, Debug, PartialEq, Eq, Structural)]
pub enum SurfaceError {
    /// The surface was lost; it can be repaired by reconfiguring.
    Lost,
    /// The GPU is out of memory; there is no recovery.
    OutOfMemory,
    /// Any other acquisition failure; the frame is skipped.
    Other,
}

/// What one frame does: the colour the frame is cleared to, and whether
/// the frame is presented (exactly once) after the clear pass.
#[derive(Clone, Copy, Debug, PartialEq, Eq, Structural)]
pub struct FramePlan {
    pub clear_color: Color,
    pub present: bool,
}

/// Whether an event terminates the event loop: a close request, or the
/// Escape key going down.
pub open spec fn requests_exit(event: LoopEvent) -> bool {
    ||| event is CloseRequested
    ||| (event matches LoopEvent::Keyboard { pressed, escape } && pressed && escape)
}

/// The new size an event asks the surface to take, if any.
pub open spec fn resize_request(event: LoopEvent) -> Option<Extent> {
    match event {
        LoopEvent::Resized { size } => Some(size),
        LoopEvent::ScaleFactorChanged { size } => Some(size),
        _ => None,
    }
}

impl AppState {
    /// Offers an event to the state before the loop's own dispatch. A
    /// handled event would not be dispatched further; no event is handled
    /// here yet.
    pub fn input(&mut self, _event: &LoopEvent) -> (handled: bool)
        ensures
            *final(self) == *old(self),
            !handled,
    {
        false
    }

    /// Advances the state by one frame; nothing changes per frame yet.
    pub fn update(&mut self)
        ensures
            *final(self) == *old(self),
    {
    }

    /// Dispatches a window event: exit on a close request or Escape,
    /// resize on a size change, nothing otherwise.
    pub fn handle_window_event(&mut self, event: &LoopEvent) -> (action: LoopAction)
        requires
            old(self).wf(),
        ensures
            final(self).wf(),
            requests_exit(*event) ==> action is Exit && *final(self) == *old(self),
            (match resize_request(*event) {
                Some(size) => if size.is_positive() {
                    &&& action is Reconfigure
                    &&& final(self).size == size
                    &&& final(self).config.width == size.width
                    &&& final(self).config.height == size.height
                    &&& final(self).config.format == old(self).config.format
                    &&& final(self).config.present_mode == old(self).config.present_mode
                } else {
                    action is Continue && *final(self) == *old(self)
                },
                None => true,
            }),
            !requests_exit(*event) && resize_request(*event) is None ==> action is Continue
                && *final(self) == *old(self),
    {
        if self.input(event) {
            return LoopAction::Continue;
        }
        match event {
            LoopEvent::CloseRequested => LoopAction::Exit,
            LoopEvent::Keyboard { pressed, escape } => if *pressed && *escape {
                LoopAction::Exit
            } else {
                LoopAction::Continue
            },
            LoopEvent::Resized { size } => if self.resize(*size) {
                LoopAction::Reconfigure
            } else {
                LoopAction::Continue
            },
            LoopEvent::ScaleFactorChanged { size } => if self.resize(*size) {
                LoopAction::Reconfigure
            } else {
                LoopAction::Continue
            },
            LoopEvent::Other => LoopAction::Continue,
        }
    }

    /// Starts a redraw: advances the state, then prescribes the frame.
    /// Every frame is cleared to opaque white and presented exactly once.
    pub fn begin_redraw(&mut self) -> (plan: FramePlan)
        requires
            old(self).wf(),
        ensures
            final(self).wf(),
            *final(self) == *old(self),
            plan.clear_color.is_opaque_white(),
            plan.present,
    {
        self.update();
        FramePlan { clear_color: Color::opaque_white(), present: true }
    }

    /// Decides on the outcome of a render: a lost surface is repaired by
    /// reconfiguring with the current stored size, an out-of-memory error
    /// terminates the loop at once, and any other error only skips the
    /// frame. The state never changes here, so the reconfiguration uses
    /// the dimensions stored before the render.
    pub fn handle_render_result(&mut self, outcome: &Result<(), SurfaceError>) -> (action:
        LoopAction)
        requires
            old(self).wf(),
        ensures
            final(self).wf(),
            *final(self) == *old(self),
            (match *outcome {
                Ok(_) => action is Continue,
                Err(SurfaceError::Lost) => action is Reconfigure,
                Err(SurfaceError::OutOfMemory) => action is Exit,
                Err(SurfaceError::Other) => action is Continue,
            }),
    {
        match outcome {
            Ok(_) => LoopAction::Continue,
            Err(SurfaceError::Lost) => {
                let size = self.size;
                let _ = self.resize(size);
                LoopAction::Reconfigure
            },
            Err(SurfaceError::OutOfMemory) => LoopAction::Exit,
            Err(SurfaceError::Other) => LoopAction::Continue,
        }
    }

    /// After the loop has drained its events it asks the window for the
    /// next redraw, so that frames keep coming.
    pub fn main_events_cleared(&self) -> (action: LoopAction)
        ensures
            action is RequestRedraw,
    {
        LoopAction::RequestRedraw
    }
}

} // verus!
