//! Verified core logic of the Smart Brain hybrid desktop engine: user
//! consent for hardware access, bookkeeping of the HTML layers punched
//! through the native canvas, engine signature inspection of web bundles,
//! theming, report layout and the small decisions of the rendering engines.

pub mod branding;
pub mod chart_engine;
pub mod code_inspector;
pub mod cursor_engine;
pub mod event_router;
pub mod excel_export;
pub mod icon_engine;
pub mod permission_engine;
pub mod qt_engine;
pub mod text;
pub mod theme_engine;
pub mod ultralight_engine;
