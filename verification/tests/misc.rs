//! Configuration, frames, certificate decisions and discovery data.

use linglide::config::{Config, DisplayPosition};
use linglide::discovery::{instance_name_for, DiscoveryInfo, UsbConnectionManager};
use linglide::frame::Frame;
use linglide::tls::{CertMetadata, CertificateManager, CERT_RENEWAL_THRESHOLD_MICROS};
use linglide::ui::{device_icon, Settings, StatusBadge, Status};
use linglide::device::DeviceType;

const NOW: u64 = 1_700_000_000_000_000;
const DAY: u64 = 86_400_000_000;

#[test]
fn test_config_builders_and_names() {
    let config = Config::new()
        .with_width(2560)
        .with_height(1440)
        .with_fps(30)
        .with_port(9000)
        .with_position(DisplayPosition::Above)
        .with_bitrate(4000)
        .with_mirror_mode(true);
    assert_eq!(config.width, 2560);
    assert_eq!(config.height, 1440);
    assert_eq!(config.fps, 30);
    assert_eq!(config.port, 9000);
    assert_eq!(config.position, DisplayPosition::Above);
    assert_eq!(config.bitrate, 4000);
    assert!(config.mirror_mode);
    assert_eq!(config.frame_size_bytes(), 2560 * 1440 * 4);
    assert_eq!(config.mode_name(), "2560x1440_linglide");

    let default = Config::default();
    assert_eq!(default.width, 1920);
    assert_eq!(default.mode_name(), "1920x1080_linglide");
}

#[test]
fn test_display_position_parsing() {
    assert_eq!("right-of".parse::<DisplayPosition>().unwrap(), DisplayPosition::RightOf);
    assert_eq!("RIGHT".parse::<DisplayPosition>().unwrap(), DisplayPosition::RightOf);
    assert_eq!("left".parse::<DisplayPosition>().unwrap(), DisplayPosition::LeftOf);
    assert_eq!("top".parse::<DisplayPosition>().unwrap(), DisplayPosition::Above);
    assert_eq!("bottom".parse::<DisplayPosition>().unwrap(), DisplayPosition::Below);
    assert!("diagonal".parse::<DisplayPosition>().is_err());
    assert_eq!(DisplayPosition::Below.as_xrandr_arg(), "--below");
}

#[test]
fn test_frame_validity_and_accessors() {
    let frame = Frame::new(vec![0; 16], 2, 2, 5);
    assert!(frame.is_valid());
    assert_eq!(frame.stride(), 8);
    assert_eq!(frame.size(), 16);
    assert_eq!(frame.sequence, 5);
    assert_eq!(frame.data().len(), 16);

    let short = Frame::new(vec![0; 15], 2, 2, 6);
    assert!(!short.is_valid());
    let degenerate = Frame::new(vec![], 0, 2, 7);
    assert!(!degenerate.is_valid());
}

fn meta(expires_at_us: u64, hostnames: Vec<String>) -> CertMetadata {
    CertMetadata {
        created_at_us: NOW - 2 * DAY,
        expires_at_us,
        fingerprint: "AA:BB".to_string(),
        hostnames,
    }
}

#[test]
fn test_certificate_kept_while_hostnames_and_validity_hold() {
    let mut manager = CertificateManager::with_dir("/tmp/certs".to_string());
    assert!(manager.needs_regeneration(&vec!["h".to_string()], NOW)); // nothing loaded

    let hostnames = vec!["myhost".to_string(), "127.0.0.1".to_string()];
    manager.set_metadata(Some(meta(NOW + 300 * DAY, hostnames.clone())));

    // the next day, same hostnames in another order: keep it
    let reordered = vec!["127.0.0.1".to_string(), "myhost".to_string()];
    assert!(!manager.needs_regeneration(&reordered, NOW + DAY));
    assert_eq!(manager.get_fingerprint().as_deref(), Some("AA:BB"));

    // a changed hostname set forces one regeneration
    let changed = vec!["otherhost".to_string(), "127.0.0.1".to_string()];
    assert!(manager.needs_regeneration(&changed, NOW + DAY));
}

#[test]
fn test_certificate_renewal_threshold_boundary() {
    let manager = CertificateManager::with_dir("/tmp/certs".to_string());
    let hostnames = vec!["h".to_string()];

    // exactly thirty days remaining: still kept
    let at_threshold = meta(NOW + CERT_RENEWAL_THRESHOLD_MICROS, hostnames.clone());
    assert!(manager.is_certificate_valid(&at_threshold, &hostnames, NOW));

    // one microsecond under the threshold: regenerate
    let under = meta(NOW + CERT_RENEWAL_THRESHOLD_MICROS - 1, hostnames.clone());
    assert!(!manager.is_certificate_valid(&under, &hostnames, NOW));

    // long expired: regenerate
    let expired = meta(NOW - DAY, hostnames.clone());
    assert!(!manager.is_certificate_valid(&expired, &hostnames, NOW));
}

#[test]
fn test_certificate_paths() {
    let manager = CertificateManager::with_dir("/home/someone/.config/linglide".to_string());
    assert_eq!(manager.cert_path(), "/home/someone/.config/linglide/server.crt");
    assert_eq!(manager.key_path(), "/home/someone/.config/linglide/server.key");
    assert_eq!(manager.metadata_path(), "/home/someone/.config/linglide/cert_meta.json");
}

#[test]
fn test_usb_manager_creation() {
    let manager = UsbConnectionManager::new(8443);
    assert_eq!(manager.port(), 8443);
    assert!(!manager.is_forward_active());
}

#[test]
fn test_discovery_info() {
    let info = DiscoveryInfo::new(
        instance_name_for("myhost"),
        8443,
        None,
        vec!["127.0.0.1".to_string()],
        "0.1.0".to_string(),
    );
    assert_eq!(info.service_type, "_linglide._tcp.local.");
    assert_eq!(info.instance_name, "LinGlide-myhost");
    assert_eq!(info.port, 8443);
}

#[test]
fn test_status_badges_and_icons() {
    let badge = StatusBadge::success("Running");
    assert_eq!(badge.text, "Running");
    assert_eq!(badge.status, Status::Success);
    assert_eq!(StatusBadge::warning("w").status, Status::Warning);
    assert_eq!(StatusBadge::error("e").status, Status::Error);
    assert_eq!(StatusBadge::inactive("i").status, Status::Inactive);

    assert_eq!(device_icon(&DeviceType::Android), "\u{1F4F1}");
    assert_eq!(device_icon(&DeviceType::Unknown), "\u{2753}");

    let settings = Settings::default();
    assert_eq!(settings.width, 1920);
    assert!(settings.mdns_enabled);
}
