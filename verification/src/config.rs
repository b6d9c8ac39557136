use vstd::prelude::*;

verus! {

/// The device models the server can drive.
#[derive(Clone, Copy, Debug, PartialEq, Eq, Structural)]
pub enum SupportedDevice {
    L530,
    L630,
    L900,
    L510,
    L520,
    L610,
    Generic,
}

/// The credentials used to authenticate against every device.
#[derive(Clone, Debug)]
pub struct Authentication {
    pub username: String,
    pub password: String,
}

/// One configured device: its model and network address.
#[derive(Clone, Debug)]
pub struct DeviceDefinition {
    pub device_type: SupportedDevice,
    pub address: String,
}

/// The server's already-parsed configuration: credentials, the device
/// inventory by name, the listen port and the per-call timeout in
/// milliseconds.
#[derive(Clone, Debug)]
pub struct ServerConfig {
    pub auth: Authentication,
    pub devices: Vec<(String, DeviceDefinition)>,
    pub port: u16,
    pub timeout: u32,
}

/// The client's already-parsed configuration: where to reach the server.
#[derive(Clone, Debug)]
pub struct ClientConfig {
    pub address: String,
    pub port: u16,
    pub secure: bool,
}

/// A loaded configuration: a server one, a client one, or none at all.
#[derive(Clone, Debug)]
pub enum Config {
    Server(ServerConfig),
    Client(ClientConfig),
    Unset,
}

/// The address a client connects to when none is configured.
pub fn default_address() -> (r: String)
    ensures
        r@ == "127.0.0.1"@,
{
    String::from_str("127.0.0.1")
}

/// The port used when none is configured.
pub fn default_port() -> (r: u16)
    ensures
        r == 19191,
{
    19191
}

/// The per-call device timeout, in milliseconds, used when none is
/// configured.
pub fn default_timeout() -> (r: u32)
    ensures
        r == 10000,
{
    10000
}

impl ClientConfig {
    /// Build a client configuration from command-line overrides: present as
    /// soon as any override was given, with defaults filling the gaps.
    pub fn from(address: Option<String>, port: Option<u16>, secure: Option<bool>) -> (r: Option<
        ClientConfig,
    >)
        ensures
            r is Some <==> (address is Some || port is Some || secure is Some),
            r is Some ==> ({
                let c = r->0;
                &&& c.address@ == if address is Some {
                    address->0@
                } else {
                    "127.0.0.1"@
                }
                &&& c.port == if port is Some {
                    port->0
                } else {
                    19191
                }
                &&& c.secure == if secure is Some {
                    secure->0
                } else {
                    false
                }
            }),
    {
        if address.is_some() || port.is_some() || secure.is_some() {
            let addr = match address {
                Some(a) => a,
                None => default_address(),
            };
            let p = match port {
                Some(p) => p,
                None => default_port(),
            };
            let s = match secure {
                Some(s) => s,
                None => false,
            };
            Some(ClientConfig { address: addr, port: p, secure: s })
        } else {
            None
        }
    }
}

} // verus!
