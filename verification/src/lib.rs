//! Verified core of a Windows-95 style playback window: the frame-delta
//! canvas player, the notepad icon bitmap, the glitch overlay arithmetic and
//! the decisions behind the window's buttons, menus and resize handles.

pub mod palette;
pub mod playback;
pub mod icon;
pub mod glitch;
pub mod chrome;
