//! Network discovery data: the advertised service identity and the state
//! of USB reverse port forwarding. Talking to the network belongs to the
//! caller.

use vstd::prelude::*;

verus! {

use vstd::string::StringExecFns;

/// Discovery errors.
#[derive(Debug, Clone)]
pub enum DiscoveryError {
    /// The multicast DNS daemon failed
    Mdns(String),
    /// The debug bridge was not found on the path
    AdbNotFound,
    /// A debug bridge command failed
    AdbCommand(String),
    /// No USB device is connected
    NoDeviceConnected,
    /// An input/output failure
    Io(String),
}

/// The advertised service type.
pub const SERVICE_TYPE: &'static str = "_linglide._tcp.local.";

/// The default instance-name prefix.
pub const SERVICE_NAME_PREFIX: &'static str = "LinGlide";

/// The instance name built from a host name: the prefix, a hyphen, and the
/// host name.
pub fn instance_name_for(hostname: &str) -> (r: String)
    ensures
        r@ == "LinGlide"@ + "-"@ + hostname@,
{
    let mut s = String::new();
    s.append(SERVICE_NAME_PREFIX);
    s.append("-");
    s.append(hostname);
    proof {
        assert(s@ =~= "LinGlide"@ + "-"@ + hostname@);
    }
    s
}

/// Discovery information served by the API.
#[derive(Debug, Clone)]
pub struct DiscoveryInfo {
    /// The advertised service type
    pub service_type: &'static str,
    /// The instance name
    pub instance_name: String,
    /// The server port
    pub port: u16,
    /// First twenty characters of the certificate fingerprint
    pub fingerprint: Option<String>,
    /// Addresses the server listens on
    pub addresses: Vec<String>,
    /// Server version
    pub version: String,
}

impl DiscoveryInfo {
    /// Discovery info under the fixed service type.
    pub fn new(
        instance_name: String,
        port: u16,
        fingerprint: Option<String>,
        addresses: Vec<String>,
        version: String,
    ) -> (r: Self)
        ensures
            r.service_type@ == "_linglide._tcp.local."@,
            r.instance_name@ == instance_name@,
            r.port == port,
            r.fingerprint == fingerprint,
            r.addresses == addresses,
            r.version@ == version@,
    {
        DiscoveryInfo {
            service_type: SERVICE_TYPE,
            instance_name,
            port,
            fingerprint,
            addresses,
            version,
        }
    }
}

/// The state of USB reverse port forwarding; the bridge commands
/// themselves run outside.
pub struct UsbConnectionManager {
    /// The forwarded server port
    pub port: u16,
    /// Whether forwarding is currently set up
    pub forward_active: bool,
}

impl UsbConnectionManager {
    /// A manager for this port, with forwarding off.
    pub fn new(port: u16) -> (r: Self)
        ensures
            r.port == port,
            !r.forward_active,
    {
        UsbConnectionManager { port, forward_active: false }
    }

    /// Whether forwarding is currently set up.
    pub fn is_forward_active(&self) -> (r: bool)
        ensures
            r == self.forward_active,
    {
        self.forward_active
    }

    /// The port being forwarded.
    pub fn port(&self) -> (r: u16)
        ensures
            r == self.port,
    {
        self.port
    }

    /// Records that forwarding was set up or torn down.
    pub fn set_forward_active(&mut self, active: bool)
        ensures
            final(self).forward_active == active,
            final(self).port == old(self).port,
    {
        self.forward_active = active;
    }
}

} // verus!
