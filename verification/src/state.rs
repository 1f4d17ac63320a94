use vstd::prelude::*;
use crate::surface::{Extent, PresentMode, SurfaceConfig, SurfaceFormat};

verus! {

/// The application state: the current window size and the configuration
/// the surface was last configured with. The platform handles (window,
/// surface, device, queue) live with the caller, which applies every
/// configuration this state prescribes.
#[derive(Clone, Copy, Debug, PartialEq, Eq, Structural)]
pub struct AppState {
    pub config: SurfaceConfig,
    pub size: Extent,
}

impl AppState {
    /// The state's invariant: the surface configuration's dimensions are
    /// positive and are exactly the stored window size.
    pub open spec fn wf(self) -> bool {
        &&& self.size.is_positive()
        &&& self.config.width == self.size.width
        &&& self.config.height == self.size.height
    }

    /// Builds the initial state from the window's size and the negotiated
    /// format, with vertical-sync presentation.
    pub fn new(size: Extent, format: SurfaceFormat) -> (s: AppState)
        requires
            size.is_positive(),
        ensures
            s.wf(),
            s.size == size,
            s.config.format == format,
            s.config.width == size.width,
            s.config.height == size.height,
            s.config.present_mode == PresentMode::Fifo,
    {
        AppState {
            config: SurfaceConfig {
                format,
                width: size.width,
                height: size.height,
                present_mode: PresentMode::Fifo,
            },
            size,
        }
    }

    /// Applies a resize. When both dimensions are positive the stored size
    /// and the configuration's dimensions become exactly the new size and
    /// the caller must reconfigure the surface; otherwise the state is
    /// unchanged and no reconfiguration happens.
    pub fn resize(&mut self, new_size: Extent) -> (reconfigure: bool)
        requires
            old(self).wf(),
        ensures
            final(self).wf(),
            reconfigure == new_size.is_positive(),
            reconfigure ==> final(self).size == new_size
                && final(self).config.width == new_size.width
                && final(self).config.height == new_size.height
                && final(self).config.format == old(self).config.format
                && final(self).config.present_mode == old(self).config.present_mode,
            !reconfigure ==> *final(self) == *old(self),
    {
        if new_size.width > 0 && new_size.height > 0 {
            self.size = new_size;
            self.config.width = new_size.width;
            self.config.height = new_size.height;
            true
        } else {
            false
        }
    }
}

} // verus!
