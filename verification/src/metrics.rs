//! System status read by the HUD: battery state and the icon and criticality
//! rules over it. The sysfs reads happen outside; the classification of what
//! was read happens here.

use vstd::prelude::*;

verus! {

/// Battery state as read from the power supply interface.
#[derive(Debug, Clone, Copy, PartialEq, Eq, Structural, Default)]
pub struct BatteryStatus {
    pub percent: Option<u8>,
    pub charging: bool,
    pub ac_connected: bool,
}

impl BatteryStatus {
    /// The icon that `icon_name` picks for this state.
    pub open spec fn spec_icon_name(self) -> Seq<char> {
        match self.percent {
            None => "battery-missing-symbolic"@,
            Some(p) => if self.charging {
                if p >= 90 {
                    "battery-full-charging-symbolic"@
                } else if p >= 60 {
                    "battery-good-charging-symbolic"@
                } else if p >= 30 {
                    "battery-low-charging-symbolic"@
                } else {
                    "battery-caution-charging-symbolic"@
                }
            } else {
                if p >= 90 {
                    "battery-full-symbolic"@
                } else if p >= 60 {
                    "battery-good-symbolic"@
                } else if p >= 30 {
                    "battery-low-symbolic"@
                } else if p >= 10 {
                    "battery-caution-symbolic"@
                } else {
                    "battery-empty-symbolic"@
                }
            },
        }
    }

    pub fn icon_name(&self) -> (r: &'static str)
        ensures
            r@ == self.spec_icon_name(),
    {
        match self.percent {
            None => "battery-missing-symbolic",
            Some(p) => if self.charging {
                if p >= 90 {
                    "battery-full-charging-symbolic"
                } else if p >= 60 {
                    "battery-good-charging-symbolic"
                } else if p >= 30 {
                    "battery-low-charging-symbolic"
                } else {
                    "battery-caution-charging-symbolic"
                }
            } else {
                if p >= 90 {
                    "battery-full-symbolic"
                } else if p >= 60 {
                    "battery-good-symbolic"
                } else if p >= 30 {
                    "battery-low-symbolic"
                } else if p >= 10 {
                    "battery-caution-symbolic"
                } else {
                    "battery-empty-symbolic"
                }
            },
        }
    }

    /// Critically low: below ten percent and not charging.
    pub fn is_critical(&self) -> (r: bool)
        ensures
            r == (self.percent matches Some(p) && p < 10 && !self.charging),
    {
        match self.percent {
            Some(p) => p < 10 && !self.charging,
            None => false,
        }
    }
}

/// A snapshot of host metrics shown by the HUD.
#[derive(Debug, Clone, Copy, PartialEq, Eq, Structural, Default)]
pub struct SystemMetrics {
    pub battery: BatteryStatus,
    pub connectivity_ok: bool,
}

impl SystemMetrics {
    pub fn new(battery: BatteryStatus, connectivity_ok: bool) -> (r: SystemMetrics)
        ensures
            r.battery == battery,
            r.connectivity_ok == connectivity_ok,
    {
        SystemMetrics { battery, connectivity_ok }
    }
}

} // verus!
