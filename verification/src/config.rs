//! The configuration of the bridge, as plain values, with the defaults of
//! each option.

use crate::text::{decimal_nat, u64_to_decimal};
use vstd::prelude::*;
use vstd::string::StringExecFns;

verus! {

/// The broker's port where none is given.
pub const DEFAULT_MQTT_PORT: u16 = 1883;

/// The seconds between two polling cycles where none are given.
pub const DEFAULT_INTERVAL_SECS: u64 = 60;

/// The character budget of a batch where none is given.
pub const DEFAULT_MAX_LENGTH: usize = 512;

/// The seconds a publish may take where none are given.
pub const DEFAULT_MQTT_TIMEOUT_SECS: u64 = 10;

/// The prefix of the client identifiers where none is given.
pub const DEFAULT_CLIENT_ID_PREFIX: &'static str = "vcontrold";

/// The serial device where none is given.
pub const DEFAULT_USB_DEVICE: &'static str = "/dev/vitocal";

/// Everything the bridge is configured with.
#[derive(Debug)]
pub struct Config {
    /// The path of the serial device.
    pub usb_device: String,
    /// The character budget of a batch of commands.
    pub max_length: usize,
    /// Whether requests that arrive over MQTT are answered.
    pub mqtt_subscribe: bool,
    /// How the broker is reached.
    pub mqtt: MqttConfig,
    /// The seconds between two polling cycles.
    pub interval_secs: u64,
    /// The commands to poll, in order.
    pub commands: Vec<String>,
    /// Whether the daemon and the bridge log verbosely.
    pub debug: bool,
}

/// How the broker is reached.
#[derive(Debug)]
pub struct MqttConfig {
    /// The broker's host name or address.
    pub host: String,
    /// The broker's port.
    pub port: u16,
    /// The base topic under which the bridge publishes and listens.
    pub topic: String,
    /// The user name, if any.
    pub user: Option<String>,
    /// The password, if any.
    pub password: Option<String>,
    /// The prefix of the client identifiers.
    pub client_id_prefix: String,
    /// The seconds a publish may take.
    pub timeout_secs: u64,
    /// How the connection is secured, if it is.
    pub tls: Option<TlsConfig>,
}

/// How the connection to the broker is secured.
#[derive(Debug)]
pub struct TlsConfig {
    /// A file of certificate authorities.
    pub ca_file: Option<String>,
    /// A directory of certificate authority files.
    pub ca_path: Option<String>,
    /// The client's certificate.
    pub cert_file: Option<String>,
    /// The client's private key.
    pub key_file: Option<String>,
    /// The protocol version asked for, if any.
    pub tls_version: Option<String>,
    /// Whether the broker's certificate goes unchecked.
    pub insecure: bool,
}

/// Why a configuration was refused.
#[derive(Debug)]
pub enum ConfigError {
    /// A required option is missing.
    MissingRequired(&'static str),
    /// An option holds a value it cannot take.
    InvalidValue(&'static str, String),
}

/// The identifier of the publishing client: prefix, `pub`, host name,
/// process number and time stamp, with hyphens between them.
pub open spec fn publisher_id(prefix: Seq<char>, hostname: Seq<char>, pid: nat, timestamp: nat) -> Seq<
    char,
> {
    prefix + "-pub-"@ + hostname + "-"@ + decimal_nat(pid) + "-"@ + decimal_nat(timestamp)
}

/// The identifier of the subscribing client: prefix, `sub` and host name,
/// with hyphens between them.
pub open spec fn subscriber_id(prefix: Seq<char>, hostname: Seq<char>) -> Seq<char> {
    prefix + "-sub-"@ + hostname
}

impl Config {
    /// The configuration that reaches the broker at `host` under the base
    /// topic `topic`, with every other option at its default.
    pub fn with_defaults(host: String, topic: String) -> (r: Config)
        ensures
            r.mqtt.host == host,
            r.mqtt.topic == topic,
            r.mqtt.port == DEFAULT_MQTT_PORT,
            r.mqtt.user is None,
            r.mqtt.password is None,
            r.mqtt.client_id_prefix@ == DEFAULT_CLIENT_ID_PREFIX@,
            r.mqtt.timeout_secs == DEFAULT_MQTT_TIMEOUT_SECS,
            r.mqtt.tls is None,
            r.usb_device@ == DEFAULT_USB_DEVICE@,
            r.max_length == DEFAULT_MAX_LENGTH,
            !r.mqtt_subscribe,
            r.interval_secs == DEFAULT_INTERVAL_SECS,
            r.commands@ == Seq::<String>::empty(),
            !r.debug,
    {
        Config {
            usb_device: String::from_str(DEFAULT_USB_DEVICE),
            max_length: DEFAULT_MAX_LENGTH,
            mqtt_subscribe: false,
            mqtt: MqttConfig {
                host,
                port: DEFAULT_MQTT_PORT,
                topic,
                user: None,
                password: None,
                client_id_prefix: String::from_str(DEFAULT_CLIENT_ID_PREFIX),
                timeout_secs: DEFAULT_MQTT_TIMEOUT_SECS,
                tls: None,
            },
            interval_secs: DEFAULT_INTERVAL_SECS,
            commands: Vec::new(),
            debug: false,
        }
    }

    /// The identifier under which the bridge publishes, made of the
    /// configured prefix, the machine's host name, the process number and the
    /// seconds since the epoch.
    pub fn publisher_client_id(&self, hostname: &str, pid: u32, timestamp: u64) -> (r: String)
        ensures
            r@ == publisher_id(
                self.mqtt.client_id_prefix@,
                hostname@,
                pid as nat,
                timestamp as nat,
            ),
    {
        let mut id: String = self.mqtt.client_id_prefix.clone();
        id.append("-pub-");
        id.append(hostname);
        id.append("-");
        id.append(u64_to_decimal(pid as u64).as_str());
        id.append("-");
        id.append(u64_to_decimal(timestamp).as_str());
        id
    }

    /// The identifier under which the bridge subscribes, made of the
    /// configured prefix and the machine's host name.
    pub fn subscriber_client_id(&self, hostname: &str) -> (r: String)
        ensures
            r@ == subscriber_id(self.mqtt.client_id_prefix@, hostname@),
    {
        let mut id: String = self.mqtt.client_id_prefix.clone();
        id.append("-sub-");
        id.append(hostname);
        id
    }
}

} // verus!
