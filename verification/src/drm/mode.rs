//! Display mode definitions.

use crate::drm::connector::Connector;
use vstd::prelude::*;

verus! {

/// The timings of a display mode.
#[derive(Clone, Copy, Debug, PartialEq, Eq, Structural)]
pub struct DisplayModeData {
    /// Pixel clock in kHz.
    pub clock: i32,
    /// Visible pixels per line.
    pub hdisplay: u16,
    /// First pixel of the horizontal sync pulse.
    pub hsync_start: u16,
    /// First pixel after the horizontal sync pulse.
    pub hsync_end: u16,
    /// Pixels per line, blanking included.
    pub htotal: u16,
    /// Visible lines per frame.
    pub vdisplay: u16,
    /// First line of the vertical sync pulse.
    pub vsync_start: u16,
    /// First line after the vertical sync pulse.
    pub vsync_end: u16,
    /// Lines per frame, blanking included.
    pub vtotal: u16,
    /// Physical width of the picture in millimetres.
    pub width_mm: u16,
    /// Physical height of the picture in millimetres.
    pub height_mm: u16,
}

impl DisplayModeData {
    /// The sync pulses lie between the visible area and the end of the line
    /// and of the frame.
    pub open spec fn wf(self) -> bool {
        &&& self.hdisplay <= self.hsync_start <= self.hsync_end <= self.htotal
        &&& self.vdisplay <= self.vsync_start <= self.vsync_end <= self.vtotal
    }
}

/// Display Mode
#[derive(Clone, Copy, Debug, PartialEq, Eq, Structural)]
pub struct DisplayMode {
    /// The timings of the mode.
    pub data: DisplayModeData,
    /// Whether the mode carries the name derived from its visible size.
    pub named: bool,
}

impl DisplayMode {
    /// A copy of `mode`, not yet named.
    pub fn duplicate(mode: &DisplayModeData) -> (copy: DisplayMode)
        ensures
            copy == (DisplayMode { data: *mode, named: false }),
    {
        DisplayMode { data: *mode, named: false }
    }

    /// Names the mode after its visible size.
    pub fn set_name(&mut self)
        ensures
            *final(self) == (DisplayMode { named: true, ..*old(self) }),
    {
        self.named = true;
    }

    /// Hands the mode to `connector`, as the last of its probed modes.
    pub fn probed_add(self, connector: &mut Connector)
        ensures
            final(connector).probed_modes@ == old(connector).probed_modes@.push(self),
            final(connector).display_info == old(connector).display_info,
    {
        connector.probed_modes.push(self);
    }
}

} // verus!
