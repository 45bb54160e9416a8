//! Window-surface and swapchain negotiation: which backend owns an instance
//! handle, which swapchain configuration a surface gets, and the bookkeeping
//! of acquired images between acquisition and presentation.

pub mod dispatch;
pub mod format;
pub mod present_mode;
pub mod swapchain;
pub mod target;
