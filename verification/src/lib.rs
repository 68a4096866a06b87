//! Verified core of the live Earth wallpaper: satellite catalogue and image
//! sources, monitor layouts, tray menu commands, label glyphs, calendar
//! arithmetic and the refresh scheduler that decides when imagery is
//! fetched or re-rendered.

pub mod calendar;
pub mod clock;
pub mod config;
pub mod himawari;
pub mod launch;
pub mod menu;
pub mod monitor;
pub mod render;
pub mod satellite;
pub mod scheduler;
pub mod slider;
pub mod startup;
pub mod text;

pub use satellite::{cache_filename, slider_zoom_for_size, Satellite};
