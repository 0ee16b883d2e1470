//! Tests of volume status, restrictions, backends, and battery metrics.

use shepherd::api::VolumeInfo;
use shepherd::metrics::BatteryStatus;
use shepherd::volume::{SoundBackend, VolumeRestrictions, VolumeStatus};

#[test]
fn test_volume_icon_names() {
    let status = VolumeStatus { percent: 0, muted: false };
    assert_eq!(status.icon_name(), "audio-volume-muted-symbolic");

    let status = VolumeStatus { percent: 50, muted: false };
    assert_eq!(status.icon_name(), "audio-volume-medium-symbolic");

    let status = VolumeStatus { percent: 100, muted: true };
    assert_eq!(status.icon_name(), "audio-volume-muted-symbolic");
}

#[test]
fn volume_test_volume_icon_names() {
    let info = VolumeInfo {
        percent: 0,
        muted: false,
        available: true,
        backend: Some("test".into()),
        restrictions: shepherd::api::VolumeRestrictions::unrestricted(),
    };
    assert_eq!(info.icon_name(), "audio-volume-muted-symbolic");

    let info = VolumeInfo {
        percent: 50,
        muted: false,
        available: true,
        backend: Some("test".into()),
        restrictions: shepherd::api::VolumeRestrictions::unrestricted(),
    };
    assert_eq!(info.icon_name(), "audio-volume-medium-symbolic");

    let info = VolumeInfo {
        percent: 100,
        muted: true,
        available: true,
        backend: Some("test".into()),
        restrictions: shepherd::api::VolumeRestrictions::unrestricted(),
    };
    assert_eq!(info.icon_name(), "audio-volume-muted-symbolic");
}

#[test]
fn test_restrictions_clamp() {
    let restrictions = VolumeRestrictions {
        max_volume: Some(80),
        min_volume: Some(20),
        allow_mute: true,
        allow_change: true,
    };

    assert_eq!(restrictions.clamp_volume(50), 50);
    assert_eq!(restrictions.clamp_volume(10), 20);
    assert_eq!(restrictions.clamp_volume(90), 80);
}

#[test]
fn test_unrestricted() {
    let restrictions = VolumeRestrictions::unrestricted();
    assert_eq!(restrictions.clamp_volume(0), 0);
    assert_eq!(restrictions.clamp_volume(100), 100);
    assert!(restrictions.allow_mute);
    assert!(restrictions.allow_change);
}

#[test]
fn test_backend_name() {
    assert_eq!(SoundBackend::PipeWire.name(), "pipewire");
    assert_eq!(SoundBackend::PulseAudio.name(), "pulseaudio");
    assert_eq!(SoundBackend::Alsa.name(), "alsa");
}

#[test]
fn test_battery_icon_names() {
    let status = BatteryStatus { percent: Some(95), charging: false, ac_connected: false };
    assert_eq!(status.icon_name(), "battery-full-symbolic");

    let status = BatteryStatus { percent: Some(50), charging: true, ac_connected: true };
    assert_eq!(status.icon_name(), "battery-low-charging-symbolic");

    let status = BatteryStatus { percent: Some(5), charging: false, ac_connected: false };
    assert_eq!(status.icon_name(), "battery-empty-symbolic");
    assert!(status.is_critical());
}

#[test]
fn test_battery_missing_and_critical_edge() {
    let status = BatteryStatus { percent: None, charging: false, ac_connected: true };
    assert_eq!(status.icon_name(), "battery-missing-symbolic");
    assert!(!status.is_critical());

    let charging_low = BatteryStatus { percent: Some(5), charging: true, ac_connected: true };
    assert!(!charging_low.is_critical());

    let at_ten = BatteryStatus { percent: Some(10), charging: false, ac_connected: false };
    assert!(!at_ten.is_critical());
}
