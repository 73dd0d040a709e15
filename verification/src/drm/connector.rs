//! Connectors and the display information gathered on them.

use crate::drm::mode::DisplayMode;
use vstd::prelude::*;

verus! {

/// Connector Types
#[allow(non_camel_case_types)]
#[derive(Clone, Copy, Debug, PartialEq, Eq, Structural)]
pub enum Type {
    Unknown,
    VGA,
    DVII,
    DVID,
    DVIA,
    Composite,
    SVIDEO,
    LVDS,
    Component,
    NinePinDIN,
    DisplayPort,
    HDMIA,
    HDMIB,
    TV,
    eDP,
    VIRTUAL,
    DSI,
    DPI,
    WRITEBACK,
    SPI,
    USB,
}

/// Physical size of the display behind a connector.
#[derive(Clone, Copy, Debug, PartialEq, Eq, Structural)]
pub struct DisplayInfo {
    /// Physical width in millimetres.
    pub width_mm: u32,
    /// Physical height in millimetres.
    pub height_mm: u32,
}

/// A connector: the modes probed on it so far and its display information.
pub struct Connector {
    /// The modes added by probing, oldest first.
    pub probed_modes: Vec<DisplayMode>,
    /// What is known of the attached display.
    pub display_info: DisplayInfo,
}

impl Connector {
    /// A connector with no probed mode and no known size.
    pub fn new() -> (connector: Connector)
        ensures
            connector.probed_modes@.len() == 0,
            connector.display_info == (DisplayInfo { width_mm: 0, height_mm: 0 }),
    {
        Connector { probed_modes: Vec::new(), display_info: DisplayInfo { width_mm: 0, height_mm: 0 } }
    }

    /// The display information, for changing in place.
    pub fn display_info_mut(&mut self) -> (info: &mut DisplayInfo)
        ensures
            *info == old(self).display_info,
            final(self).display_info == *final(info),
            final(self).probed_modes == old(self).probed_modes,
    {
        &mut self.display_info
    }
}

} // verus!
