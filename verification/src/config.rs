//! Settings read from the configuration file.
use vstd::prelude::*;

verus! {

/// Interval between two ticks of the event loop, in milliseconds.
pub fn default_tick_rate() -> (r: u64)
    ensures
        r == 250,
{
    250
}

/// Interval between two automatic scans, in seconds.
pub fn default_auto_scan() -> (r: u64)
    ensures
        r == 30,
{
    30
}

/// Interval between two automatic refreshes of the network list, in seconds.
pub fn default_auto_refresh() -> (r: u64)
    ensures
        r == 10,
{
    10
}

/// The `[general]` section of the configuration file.
#[derive(Clone, Copy, Debug, PartialEq, Eq, Structural)]
pub struct GeneralConfig {
    pub tick_rate: u64,
    pub auto_scan_interval: u64,
    pub auto_refresh_interval: u64,
}

/// The whole configuration file.
#[derive(Clone, Copy, Debug, PartialEq, Eq, Structural)]
pub struct AppConfig {
    pub general: GeneralConfig,
}

/// The `[general]` section when the file sets none of its keys.
pub open spec fn default_general() -> GeneralConfig {
    GeneralConfig { tick_rate: 250, auto_scan_interval: 30, auto_refresh_interval: 10 }
}

impl Default for GeneralConfig {
    fn default() -> (r: GeneralConfig)
        ensures
            r == default_general(),
    {
        GeneralConfig {
            tick_rate: default_tick_rate(),
            auto_scan_interval: default_auto_scan(),
            auto_refresh_interval: default_auto_refresh(),
        }
    }
}

impl Default for AppConfig {
    fn default() -> (r: AppConfig)
        ensures
            r.general == default_general(),
    {
        AppConfig { general: GeneralConfig::default() }
    }
}

impl GeneralConfig {
    /// The section as the file gives it: each key the file leaves out takes its default.
    pub fn from_fields(
        tick_rate: Option<u64>,
        auto_scan_interval: Option<u64>,
        auto_refresh_interval: Option<u64>,
    ) -> (r: GeneralConfig)
        ensures
            r.tick_rate == (match tick_rate {
                Some(v) => v,
                None => 250,
            }),
            r.auto_scan_interval == (match auto_scan_interval {
                Some(v) => v,
                None => 30,
            }),
            r.auto_refresh_interval == (match auto_refresh_interval {
                Some(v) => v,
                None => 10,
            }),
    {
        GeneralConfig {
            tick_rate: match tick_rate {
                Some(v) => v,
                None => default_tick_rate(),
            },
            auto_scan_interval: match auto_scan_interval {
                Some(v) => v,
                None => default_auto_scan(),
            },
            auto_refresh_interval: match auto_refresh_interval {
                Some(v) => v,
                None => default_auto_refresh(),
            },
        }
    }
}

impl AppConfig {
    /// The configuration as the file gives it: a missing `[general]` section takes its defaults.
    pub fn from_general(general: Option<GeneralConfig>) -> (r: AppConfig)
        ensures
            r.general == (match general {
                Some(g) => g,
                None => default_general(),
            }),
    {
        match general {
            Some(g) => AppConfig { general: g },
            None => AppConfig::default(),
        }
    }
}

} // verus!
