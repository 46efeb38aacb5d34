//! Icon levels for the status bar: signal strength and battery charge.

use vstd::prelude::*;

verus! {

/// Colour scheme of the user interface.
#[derive(Debug, Clone, Copy, PartialEq, Eq, Structural)]
pub enum ThemeMode {
    Light,
    Dark,
}

impl Default for ThemeMode {
    fn default() -> (mode: Self)
        ensures
            mode == ThemeMode::Dark,
    {
        ThemeMode::Dark
    }
}

/// The other colour scheme.
pub open spec fn spec_toggled(mode: ThemeMode) -> ThemeMode {
    match mode {
        ThemeMode::Dark => ThemeMode::Light,
        ThemeMode::Light => ThemeMode::Dark,
    }
}

/// Toggle between light and dark themes.
pub fn toggle_theme(mode: ThemeMode) -> (toggled: ThemeMode)
    ensures
        toggled == spec_toggled(mode),
        spec_toggled(toggled) == mode,
{
    match mode {
        ThemeMode::Dark => ThemeMode::Light,
        ThemeMode::Light => ThemeMode::Dark,
    }
}

/// Number of bars (0 to 4) shown for a received signal strength in dBm.
pub open spec fn spec_wifi_signal_bars(rssi: int) -> int {
    if -50 <= rssi <= 0 {
        4
    } else if -60 <= rssi <= -51 {
        3
    } else if -70 <= rssi <= -61 {
        2
    } else if -80 <= rssi <= -71 {
        1
    } else {
        0
    }
}

/// Number of bars (0 to 4) shown for a battery charge in percent.
pub open spec fn spec_battery_bars(percent: int) -> int {
    if 80 <= percent <= 100 {
        4
    } else if 60 <= percent <= 79 {
        3
    } else if 40 <= percent <= 59 {
        2
    } else if 20 <= percent <= 39 {
        1
    } else {
        0
    }
}

/// WiFi signal strength to icon level: excellent down to no signal.
/// A positive reading is no signal.
pub fn wifi_signal_bars(rssi: i8) -> (bars: u8)
    ensures
        bars == spec_wifi_signal_bars(rssi as int),
        bars <= 4,
{
    if rssi > 0 {
        0
    } else if rssi >= -50 {
        4
    } else if rssi >= -60 {
        3
    } else if rssi >= -70 {
        2
    } else if rssi >= -80 {
        1
    } else {
        0
    }
}

/// Battery level to icon level. A reading above 100 percent shows no bar.
pub fn battery_bars(percent: u8) -> (bars: u8)
    ensures
        bars == spec_battery_bars(percent as int),
        bars <= 4,
{
    if percent > 100 {
        0
    } else if percent >= 80 {
        4
    } else if percent >= 60 {
        3
    } else if percent >= 40 {
        2
    } else if percent >= 20 {
        1
    } else {
        0
    }
}

} // verus!
