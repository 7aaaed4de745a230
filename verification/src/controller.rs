//! Frame controller: the decisions of the per-frame render cycle.
//!
//! The controller owns the stored surface configuration (the last valid
//! size) and decides, from one window-system event or one frame error at a
//! time, what the unverified driver loop should do next. All control flow
//! lives here; the driver only performs the returned action and hands back
//! the next event.

use vstd::prelude::*;

verus! {

/// One window-system event, as the driver loop hands it to the controller.
/// Sizes are in physical pixels.
#[derive(Clone, Copy, PartialEq, Eq, Debug)]
pub enum WindowEvent {
    /// The user asked to close the window.
    CloseRequested,
    /// The window was resized.
    Resized { width: u32, height: u32 },
    /// The display scale factor changed, with the new inner size.
    ScaleFactorChanged { width: u32, height: u32 },
    /// The window system asked for a redraw.
    RedrawRequested,
    /// All pending events were handled; the loop may request the next frame.
    MainEventsCleared,
    /// Any event the renderer does not react to.
    Other,
}

/// What the driver loop must do next.
#[derive(Clone, Copy, PartialEq, Eq, Debug)]
pub enum Action {
    /// Nothing this tick.
    Continue,
    /// Ask the window system for the next redraw.
    RequestRedraw,
    /// Render one frame: upload the uniform, then acquire, record, submit,
    /// present.
    Render,
    /// Reconfigure the surface to this size.
    Reconfigure { width: u32, height: u32 },
    /// Leave the event loop.
    Exit,
}

/// A failure reported when acquiring the next presentable surface image,
/// mirroring the graphics backend's classification.
#[derive(Clone, Copy, PartialEq, Eq, Debug)]
pub enum FrameError {
    /// The acquire timed out; transient, the frame is dropped.
    Timeout,
    /// The surface no longer matches its configuration; transient, the
    /// frame is dropped.
    Outdated,
    /// The surface was lost and must be reconfigured before the next frame.
    Lost,
    /// The graphics backend ran out of memory; unrecoverable.
    OutOfMemory,
}

/// The frame controller's stored surface configuration: the last valid
/// window size, in physical pixels.
///
/// Both dimensions are strictly positive: the surface is configured at
/// startup to a window of positive size, and a resize to a zero dimension
/// is ignored, so the stored configuration always remains usable.
#[derive(Clone, Copy, PartialEq, Eq, Debug)]
pub struct Controller {
    pub width: u32,
    pub height: u32,
}

impl Controller {
    /// The stored configuration is a size the surface can be configured to.
    pub open spec fn wf(self) -> bool {
        self.width > 0 && self.height > 0
    }

    /// Adopt the window's initial size. A window of zero size cannot
    /// configure a surface; startup treats it as a fatal error before the
    /// controller exists.
    pub fn new(width: u32, height: u32) -> (c: Controller)
        requires
            width > 0,
            height > 0,
        ensures
            c.wf(),
            c.width == width,
            c.height == height,
    {
        Controller { width, height }
    }

    /// Apply a resize: adopt the new size if both dimensions are strictly
    /// positive, otherwise keep the stored configuration untouched.
    pub fn resize(&mut self, new_width: u32, new_height: u32)
        requires
            old(self).wf(),
        ensures
            final(self).wf(),
            new_width > 0 && new_height > 0 ==> final(self).width == new_width
                && final(self).height == new_height,
            !(new_width > 0 && new_height > 0) ==> *final(self) == *old(self),
    {
        if new_width > 0 && new_height > 0 {
            self.width = new_width;
            self.height = new_height;
        }
    }

    /// Decide the driver's next action for one window-system event, and
    /// apply any resize to the stored configuration.
    ///
    /// A resize (or scale-factor change) with a zero dimension changes
    /// nothing and asks for nothing; a valid one is stored and the surface
    /// reconfigured to it. A redraw request renders; nothing else touches
    /// the configuration.
    pub fn handle_event(&mut self, event: WindowEvent) -> (a: Action)
        requires
            old(self).wf(),
        ensures
            final(self).wf(),
            event is CloseRequested ==> *final(self) == *old(self) && a == Action::Exit,
            event matches WindowEvent::Resized { width, height } ==> {
                &&& width > 0 && height > 0 ==> final(self).width == width && final(self).height
                    == height && a == (Action::Reconfigure { width, height })
                &&& !(width > 0 && height > 0) ==> *final(self) == *old(self) && a
                    == Action::Continue
            },
            event matches WindowEvent::ScaleFactorChanged { width, height } ==> {
                &&& width > 0 && height > 0 ==> final(self).width == width && final(self).height
                    == height && a == (Action::Reconfigure { width, height })
                &&& !(width > 0 && height > 0) ==> *final(self) == *old(self) && a
                    == Action::Continue
            },
            event is RedrawRequested ==> *final(self) == *old(self) && a == Action::Render,
            event is MainEventsCleared ==> *final(self) == *old(self) && a
                == Action::RequestRedraw,
            event is Other ==> *final(self) == *old(self) && a == Action::Continue,
    {
        match event {
            WindowEvent::CloseRequested => Action::Exit,
            WindowEvent::Resized { width, height } => self.apply_resize(width, height),
            WindowEvent::ScaleFactorChanged { width, height } => self.apply_resize(width, height),
            WindowEvent::RedrawRequested => Action::Render,
            WindowEvent::MainEventsCleared => Action::RequestRedraw,
            WindowEvent::Other => Action::Continue,
        }
    }

    /// Decide recovery for a failed frame acquisition. The stored
    /// configuration is never altered by an error.
    ///
    /// A lost surface is reconfigured to the stored (last valid) size and
    /// the frame skipped — no redraw is forced on the same tick. Running
    /// out of GPU memory ends the program. Any other error only drops the
    /// frame.
    pub fn handle_frame_error(&self, error: FrameError) -> (a: Action)
        ensures
            error is Lost ==> a == (Action::Reconfigure {
                width: self.width,
                height: self.height,
            }),
            error is OutOfMemory ==> a == Action::Exit,
            error is Timeout || error is Outdated ==> a == Action::Continue,
    {
        match error {
            FrameError::Lost => Action::Reconfigure { width: self.width, height: self.height },
            FrameError::OutOfMemory => Action::Exit,
            FrameError::Timeout => Action::Continue,
            FrameError::Outdated => Action::Continue,
        }
    }

    fn apply_resize(&mut self, width: u32, height: u32) -> (a: Action)
        requires
            old(self).wf(),
        ensures
            final(self).wf(),
            width > 0 && height > 0 ==> final(self).width == width && final(self).height == height
                && a == (Action::Reconfigure { width, height }),
            !(width > 0 && height > 0) ==> *final(self) == *old(self) && a == Action::Continue,
    {
        if width > 0 && height > 0 {
            self.width = width;
            self.height = height;
            Action::Reconfigure { width, height }
        } else {
            Action::Continue
        }
    }
}

} // verus!
