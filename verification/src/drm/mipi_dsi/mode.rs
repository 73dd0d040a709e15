//! Mode flags of a DSI peripheral.

use vstd::prelude::*;

verus! {

/// Video mode.
pub const VIDEO: u64 = 0b1;

/// Video burst mode.
pub const VIDEO_BURST: u64 = 0b10;

/// Video pulse mode.
pub const VIDEO_SYNC_PULSE: u64 = 0b100;

/// Enable auto vertical count mode.
pub const VIDEO_AUTO_VERT: u64 = 0b1000;

/// Enable hsync-end packets in vsync-pulse and v-porch area.
pub const VIDEO_HSE: u64 = 0b10000;

/// Disable hfront-porch area.
pub const VIDEO_NO_HFP: u64 = 0b100000;

/// Disable hback-porch area.
pub const VIDEO_NO_HBP: u64 = 0b1000000;

/// Disable hsync-active area.
pub const VIDEO_NO_HSA: u64 = 0b10000000;

/// Flush display FIFO on vsync pulse.
pub const VSYNC_FLUSH: u64 = 0b100000000;

/// Disable end-of-transmission packets in high-speed mode.
pub const NO_EOT_PACKET: u64 = 0b1000000000;

/// Device supports non-continuous clock behaviour.
pub const CLOCK_NON_CONTINUOUS: u64 = 0b10000000000;

/// Transmit data in low-power mode.
pub const LPM: u64 = 0b100000000000;

/// Transmit data ending at the same time for all lanes within one hsync.
pub const HS_PKT_END_ALIGNED: u64 = 0b1000000000000;

} // verus!
