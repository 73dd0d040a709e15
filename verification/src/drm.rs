//! Display subsystem descriptions: connectors, display modes, the DSI bus
//! and panels.

pub mod connector;
pub mod mipi_dsi;
pub mod mode;
pub mod panel;
