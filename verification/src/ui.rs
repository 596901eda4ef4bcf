//! Plain state types of the desktop shell: status badges, tray and tab
//! state, settings, and the commands the shell sends to the running
//! server. The rendering itself lives outside.

use vstd::prelude::*;

verus! {

use crate::config::DisplayPosition;
use crate::device::DeviceType;

/// Status indicator kinds.
#[derive(Debug, Clone, Copy, PartialEq, Eq, Structural)]
pub enum Status {
    /// Everything is fine
    Success,
    /// Something needs attention
    Warning,
    /// Something failed
    Error,
    /// Not running
    Inactive,
}

/// A colored status pill with a label.
#[derive(Debug, Clone, Copy)]
pub struct StatusBadge<'a> {
    /// The label shown inside the pill
    pub text: &'a str,
    /// The status that picks the color
    pub status: Status,
}

impl<'a> StatusBadge<'a> {
    /// A badge with the given label and status.
    pub fn new(text: &'a str, status: Status) -> (r: Self)
        ensures
            r.text@ == text@,
            r.status == status,
    {
        StatusBadge { text, status }
    }

    /// A success badge.
    pub fn success(text: &'a str) -> (r: Self)
        ensures
            r.text@ == text@,
            r.status == Status::Success,
    {
        Self::new(text, Status::Success)
    }

    /// A warning badge.
    pub fn warning(text: &'a str) -> (r: Self)
        ensures
            r.text@ == text@,
            r.status == Status::Warning,
    {
        Self::new(text, Status::Warning)
    }

    /// An error badge.
    pub fn error(text: &'a str) -> (r: Self)
        ensures
            r.text@ == text@,
            r.status == Status::Error,
    {
        Self::new(text, Status::Error)
    }

    /// An inactive badge.
    pub fn inactive(text: &'a str) -> (r: Self)
        ensures
            r.text@ == text@,
            r.status == Status::Inactive,
    {
        Self::new(text, Status::Inactive)
    }
}

/// The icon shown for a device kind.
pub fn device_icon(device_type: &DeviceType) -> (r: &'static str)
    ensures
        *device_type == DeviceType::Android ==> r@ == "\u{1F4F1}"@,
        *device_type == DeviceType::Ios ==> r@ == "\u{1F34E}"@,
        *device_type == DeviceType::Browser ==> r@ == "\u{1F310}"@,
        *device_type == DeviceType::Unknown ==> r@ == "\u{2753}"@,
{
    match device_type {
        DeviceType::Android => "\u{1F4F1}",
        DeviceType::Ios => "\u{1F34E}",
        DeviceType::Browser => "\u{1F310}",
        DeviceType::Unknown => "\u{2753}",
    }
}

/// System tray state.
#[derive(Debug, Clone, Copy, PartialEq, Eq, Structural)]
pub enum TrayState {
    /// The server is not running
    Idle,
    /// The server is running, waiting for connections
    Waiting,
    /// A device is connected
    Connected,
}

/// Which tab of the main window is open.
#[derive(Debug, Clone, Copy, PartialEq, Eq, Structural)]
pub enum Tab {
    /// The status tab
    Status,
    /// The paired-devices tab
    Devices,
    /// The settings tab
    Settings,
    /// The about tab
    About,
}

/// Settings being edited in the shell.
#[derive(Debug, Clone)]
pub struct Settings {
    /// Display width in pixels
    pub width: u32,
    /// Display height in pixels
    pub height: u32,
    /// Target frame rate
    pub fps: u32,
    /// Video bitrate in kbps
    pub bitrate: u32,
    /// Server port
    pub port: u16,
    /// Whether the service is advertised on the network
    pub mdns_enabled: bool,
    /// Whether USB forwarding is offered
    pub usb_enabled: bool,
}

impl Default for Settings {
    fn default() -> (r: Self)
        ensures
            r.width == 1920 && r.height == 1080 && r.fps == 60 && r.bitrate == 8000 && r.port
                == 8443 && r.mdns_enabled && !r.usb_enabled,
    {
        Settings {
            width: 1920,
            height: 1080,
            fps: 60,
            bitrate: 8000,
            port: 8443,
            mdns_enabled: true,
            usb_enabled: false,
        }
    }
}

/// The configuration a server run starts with.
#[derive(Debug, Clone)]
pub struct ServerConfig {
    /// Display width in pixels
    pub width: u32,
    /// Display height in pixels
    pub height: u32,
    /// Target frame rate
    pub fps: u32,
    /// Server port
    pub port: u16,
    /// Video bitrate in kbps
    pub bitrate: u32,
    /// Mirror the primary display instead of creating a virtual one
    pub mirror_mode: bool,
    /// Position of the virtual display
    pub position: DisplayPosition,
    /// Whether to advertise the service on the network
    pub enable_mdns: bool,
    /// Whether to offer USB forwarding
    pub enable_usb: bool,
}

impl Default for ServerConfig {
    fn default() -> (r: Self)
        ensures
            r.width == 1920 && r.height == 1080 && r.fps == 60 && r.port == 8443 && r.bitrate
                == 8000 && !r.mirror_mode && r.position == DisplayPosition::RightOf
                && r.enable_mdns && !r.enable_usb,
    {
        ServerConfig {
            width: 1920,
            height: 1080,
            fps: 60,
            port: 8443,
            bitrate: 8000,
            mirror_mode: false,
            position: DisplayPosition::RightOf,
            enable_mdns: true,
            enable_usb: false,
        }
    }
}

/// Commands from the shell to the server side.
#[derive(Debug, Clone)]
pub enum UiCommand {
    /// Start the server
    StartServer,
    /// Stop the server
    StopServer,
    /// Start a new pairing session
    StartPairing,
    /// Cancel the current pairing session
    CancelPairing,
    /// Revoke a paired device
    RevokeDevice { device_id: String },
    /// Switch service advertisement on or off
    SetMdns { enabled: bool },
    /// Switch USB forwarding on or off
    SetUsb { enabled: bool },
    /// Refresh the persistent PIN
    RefreshPin,
    /// Shut the application down
    Shutdown,
}

/// The pairing session the shell is showing.
#[derive(Debug, Clone)]
pub struct PairingState {
    /// Whether a session is active
    pub active: bool,
    /// The session id, when active
    pub session_id: Option<String>,
    /// The PIN, when active
    pub pin: Option<String>,
    /// Seconds until it expires
    pub expires_in: i64,
}

impl Default for PairingState {
    fn default() -> (r: Self)
        ensures
            !r.active && r.session_id is None && r.pin is None && r.expires_in == 0,
    {
        PairingState { active: false, session_id: None, pin: None, expires_in: 0 }
    }
}

} // verus!
