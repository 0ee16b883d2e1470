//! Volume control model: status, capabilities, restrictions, and the sound
//! backends the Linux host can drive. The calls into the sound system are
//! made by the process around the service; the choice of icon, clamping and
//! permission decisions live here.

use vstd::prelude::*;

verus! {

/// Errors of volume control operations.
#[derive(Debug)]
pub enum VolumeError {
    NotAvailable(String),
    Backend(String),
    OutOfRange(u8),
    Io(String),
}

/// Current volume and mute state.
#[derive(Debug, Clone, Copy, PartialEq, Eq, Structural, Default)]
pub struct VolumeStatus {
    pub percent: u8,
    pub muted: bool,
}

impl VolumeStatus {
    /// The icon that `icon_name` picks for this status.
    pub open spec fn spec_icon_name(self) -> Seq<char> {
        if self.muted || self.percent == 0 {
            "audio-volume-muted-symbolic"@
        } else if self.percent < 33 {
            "audio-volume-low-symbolic"@
        } else if self.percent < 66 {
            "audio-volume-medium-symbolic"@
        } else {
            "audio-volume-high-symbolic"@
        }
    }

    pub fn icon_name(&self) -> (r: &'static str)
        ensures
            r@ == self.spec_icon_name(),
    {
        if self.muted || self.percent == 0 {
            "audio-volume-muted-symbolic"
        } else if self.percent < 33 {
            "audio-volume-low-symbolic"
        } else if self.percent < 66 {
            "audio-volume-medium-symbolic"
        } else {
            "audio-volume-high-symbolic"
        }
    }
}

/// What the platform's volume adapter can do.
#[derive(Debug)]
pub struct VolumeCapabilities {
    pub available: bool,
    pub backend: Option<String>,
    pub can_mute: bool,
    pub max_volume: u8,
}

/// Volume restrictions enforced by the service.
#[derive(Debug, Clone, Copy, PartialEq, Eq, Structural)]
pub struct VolumeRestrictions {
    pub max_volume: Option<u8>,
    pub min_volume: Option<u8>,
    pub allow_mute: bool,
    pub allow_change: bool,
}

impl VolumeRestrictions {
    /// The value forced into the allowed band, with 0 and 100 standing in
    /// for absent bounds.
    pub open spec fn spec_clamp(self, percent: u8) -> int {
        let min: int = match self.min_volume {
            Some(m) => m as int,
            None => 0,
        };
        let max: int = match self.max_volume {
            Some(m) => m as int,
            None => 100,
        };
        if percent < min {
            min
        } else if percent > max {
            max
        } else {
            percent as int
        }
    }

    pub fn unrestricted() -> (r: VolumeRestrictions)
        ensures
            r.max_volume is None,
            r.min_volume is None,
            r.allow_mute,
            r.allow_change,
    {
        VolumeRestrictions { max_volume: None, min_volume: None, allow_mute: true, allow_change: true }
    }

    pub fn clamp_volume(&self, percent: u8) -> (r: u8)
        ensures
            r == self.spec_clamp(percent),
    {
        let min = match self.min_volume {
            Some(m) => m,
            None => 0,
        };
        let max = match self.max_volume {
            Some(m) => m,
            None => 100,
        };
        if percent < min {
            min
        } else if percent > max {
            max
        } else {
            percent
        }
    }
}

impl Default for VolumeRestrictions {
    fn default() -> (r: VolumeRestrictions)
        ensures
            r.max_volume is None,
            r.min_volume is None,
            !r.allow_mute,
            !r.allow_change,
    {
        VolumeRestrictions { max_volume: None, min_volume: None, allow_mute: false, allow_change: false }
    }
}

/// A sound backend the Linux host can drive.
#[derive(Debug, Clone, Copy, PartialEq, Eq, Structural)]
pub enum SoundBackend {
    PipeWire,
    PulseAudio,
    Alsa,
}

impl SoundBackend {
    /// The name that `name` answers for this backend.
    pub open spec fn spec_name(self) -> Seq<char> {
        match self {
            SoundBackend::PipeWire => "pipewire"@,
            SoundBackend::PulseAudio => "pulseaudio"@,
            SoundBackend::Alsa => "alsa"@,
        }
    }

    pub fn name(&self) -> (r: &'static str)
        ensures
            r@ == self.spec_name(),
    {
        match self {
            SoundBackend::PipeWire => "pipewire",
            SoundBackend::PulseAudio => "pulseaudio",
            SoundBackend::Alsa => "alsa",
        }
    }
}

} // verus!
