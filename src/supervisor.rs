//! Uptime bookkeeping of the firmware's supervisor: it wakes every ten
//! seconds and reports its status once a minute.

use vstd::prelude::*;
use crate::config::{DeckSettings, get_current_device};
use crate::device::Device;

verus! {

/// Seconds between two wake-ups.
pub const TICK_SECONDS: u32 = 10;

/// Seconds between two status reports.
pub const STATUS_PERIOD_SECONDS: u32 = 60;

pub struct AppSupervisor {
    device: Device,
    uptime_seconds: u32,
    last_heartbeat: u32,
}

impl AppSupervisor {
    pub closed spec fn device_spec(&self) -> Device {
        self.device
    }

    pub closed spec fn uptime_spec(&self) -> u32 {
        self.uptime_seconds
    }

    pub closed spec fn heartbeat_spec(&self) -> u32 {
        self.last_heartbeat
    }

    /// A supervisor for the device the settings select.
    pub fn new(settings: &DeckSettings) -> (r: Self)
        ensures
            r.device_spec() == settings.device(),
            r.uptime_spec() == 0,
            r.heartbeat_spec() == 0,
    {
        Self::new_for_device(get_current_device(settings))
    }

    pub fn new_for_device(device: Device) -> (r: Self)
        ensures
            r.device_spec() == device,
            r.uptime_spec() == 0,
            r.heartbeat_spec() == 0,
    {
        AppSupervisor { device, uptime_seconds: 0, last_heartbeat: 0 }
    }

    pub fn device(&self) -> (r: Device)
        ensures
            r == self.device_spec(),
    {
        self.device
    }

    pub fn uptime(&self) -> (r: u32)
        ensures
            r == self.uptime_spec(),
    {
        self.uptime_seconds
    }

    /// Accounts for one wake-up; returns whether a status report is due,
    /// in which case the report is recorded as made. Counters wrap.
    pub fn tick(&mut self) -> (r: bool)
        ensures
            final(self).device_spec() == old(self).device_spec(),
            final(self).uptime_spec() == (old(self).uptime_spec() + TICK_SECONDS) % 0x1_0000_0000,
            r == ((final(self).uptime_spec() - old(self).heartbeat_spec()) % 0x1_0000_0000
                >= STATUS_PERIOD_SECONDS),
            final(self).heartbeat_spec() == if r {
                final(self).uptime_spec()
            } else {
                old(self).heartbeat_spec()
            },
    {
        self.uptime_seconds = if self.uptime_seconds > u32::MAX - TICK_SECONDS {
            self.uptime_seconds - (u32::MAX - TICK_SECONDS) - 1
        } else {
            self.uptime_seconds + TICK_SECONDS
        };
        let since = if self.uptime_seconds >= self.last_heartbeat {
            self.uptime_seconds - self.last_heartbeat
        } else {
            u32::MAX - (self.last_heartbeat - self.uptime_seconds) + 1
        };
        if since >= STATUS_PERIOD_SECONDS {
            self.last_heartbeat = self.uptime_seconds;
            true
        } else {
            false
        }
    }

    /// Uptime as whole hours and the minutes past them.
    pub fn status_time(&self) -> (r: (u32, u32))
        ensures
            r.0 == self.uptime_spec() / 3600,
            r.1 == (self.uptime_spec() / 60) % 60,
    {
        let minutes = self.uptime_seconds / 60;
        (minutes / 60, minutes % 60)
    }
}

} // verus!
