//! Display logic of the dgxtop overview dashboard: colour themes, panel
//! layout, device selection, and the text shown in the panels.
pub mod text;
pub mod units;
pub mod theme;
pub mod layout;
pub mod overview;
pub mod state;
pub mod cpu;
pub mod windows;
pub mod devices;
pub mod gpu;
pub mod memory;
pub mod processes;
