//! The DSI peripheral as the host sees it.

pub mod mode;

use vstd::prelude::*;

verus! {

/// Layout of a pixel on the DSI link.
#[derive(Clone, Copy, Debug, PartialEq, Eq, Structural)]
pub enum PixelFormat {
    /// 24 bits per pixel.
    Rgb888,
    /// 18 bits per pixel, loosely packed.
    Rgb666,
    /// 18 bits per pixel, packed.
    Rgb666Packed,
    /// 16 bits per pixel.
    Rgb565,
}

/// The mode flags with low-power transmission switched on or off and every
/// other flag as it was.
pub open spec fn spec_low_power(flags: u64, on: bool) -> u64 {
    if on {
        flags | mode::LPM
    } else {
        flags & !mode::LPM
    }
}

/// Switches low-power transmission on or off in a set of mode flags, leaving
/// the other flags.
pub fn low_power(flags: u64, on: bool) -> (switched: u64)
    ensures
        switched == spec_low_power(flags, on),
        switched & !mode::LPM == flags & !mode::LPM,
        (switched & mode::LPM != 0) == on,
{
    assert((flags | 0x800u64) & !0x800u64 == flags & !0x800u64) by (bit_vector);
    assert((flags & !0x800u64) & !0x800u64 == flags & !0x800u64) by (bit_vector);
    assert((flags | 0x800u64) & 0x800u64 != 0) by (bit_vector);
    assert((flags & !0x800u64) & 0x800u64 == 0) by (bit_vector);
    if on {
        flags | mode::LPM
    } else {
        flags & !mode::LPM
    }
}

/// The link parameters of a DSI peripheral.
#[derive(Clone, Copy, Debug, PartialEq, Eq, Structural)]
pub struct Device {
    /// Number of active data lanes.
    pub lanes: u32,
    /// Pixel format of the video stream.
    pub format: PixelFormat,
    /// The `mode` flags in force.
    pub mode_flags: u64,
}

impl Device {
    /// A peripheral with no lane, 24-bit pixels and no mode flag.
    pub fn new() -> (device: Device)
        ensures
            device == (Device { lanes: 0, format: PixelFormat::Rgb888, mode_flags: 0 }),
    {
        Device { lanes: 0, format: PixelFormat::Rgb888, mode_flags: 0 }
    }

    /// Sets the number of active data lanes.
    pub fn set_lanes(&mut self, lanes: u32)
        ensures
            *final(self) == (Device { lanes, ..*old(self) }),
    {
        self.lanes = lanes;
    }

    /// Sets the pixel format of the video stream.
    pub fn set_format(&mut self, format: PixelFormat)
        ensures
            *final(self) == (Device { format, ..*old(self) }),
    {
        self.format = format;
    }

    /// The mode flags, for reading and changing in place.
    pub fn mode_flags_mut(&mut self) -> (flags: &mut u64)
        ensures
            *flags == old(self).mode_flags,
            *final(self) == (Device { mode_flags: *final(flags), ..*old(self) }),
    {
        &mut self.mode_flags
    }

    /// Switches low-power transmission on or off, leaving the other flags.
    pub fn set_low_power(&mut self, on: bool)
        ensures
            *final(self) == (Device {
                mode_flags: spec_low_power(old(self).mode_flags, on),
                ..*old(self)
            }),
    {
        self.mode_flags = low_power(self.mode_flags, on);
    }
}

} // verus!
