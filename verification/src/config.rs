//! Persistent user settings and their defaults. A missing or unreadable
//! settings file, and every missing field, falls back to these defaults.

use vstd::prelude::*;
use crate::monitor::MultiMonitorMode;
use crate::satellite::Satellite;

verus! {

/// Which wallpaper surface is rendered.
#[derive(Debug, Clone, Copy, PartialEq, Eq, Structural)]
pub enum WallpaperTarget {
    /// The desktop background, across the whole monitor layout.
    Desktop,
    /// The lock screen image, at the size of the primary monitor.
    LockScreen,
    /// Both surfaces.
    Both,
}

impl Default for WallpaperTarget {
    fn default() -> (t: Self)
        ensures
            t == WallpaperTarget::Desktop,
    {
        WallpaperTarget::Desktop
    }
}

/// User settings.
#[derive(Debug, Clone, Copy, PartialEq, Eq, Structural)]
pub struct Config {
    pub target: WallpaperTarget,
    pub mode: MultiMonitorMode,
    pub show_earth: bool,
    pub show_labels: bool,
    pub satellite: Satellite,
}

/// Value of `show_earth` when the settings do not give one.
pub fn default_show_earth() -> (r: bool)
    ensures
        r,
{
    true
}

/// Value of `satellite` when the settings do not give one.
pub fn default_satellite() -> (r: Satellite)
    ensures
        r == Satellite::GoesEast,
{
    Satellite::GoesEast
}

/// The settings used when none are stored.
pub open spec fn spec_default_config() -> Config {
    Config {
        target: WallpaperTarget::Desktop,
        mode: MultiMonitorMode::Span,
        show_earth: true,
        show_labels: false,
        satellite: Satellite::GoesEast,
    }
}

impl Default for Config {
    fn default() -> (c: Self)
        ensures
            c == spec_default_config(),
    {
        Config {
            target: WallpaperTarget::default(),
            mode: MultiMonitorMode::default(),
            show_earth: true,
            show_labels: false,
            satellite: Satellite::GoesEast,
        }
    }
}

/// Settings with every field missing read the same as no settings at all:
/// the per-field defaults are those of the default configuration.
pub proof fn lemma_field_defaults_agree()
    ensures
        spec_default_config().show_earth == true,
        spec_default_config().satellite == Satellite::GoesEast,
        spec_default_config().show_labels == false,
        spec_default_config().mode == MultiMonitorMode::Span,
        spec_default_config().target == WallpaperTarget::Desktop,
{
}

} // verus!
