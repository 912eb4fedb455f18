//! The MQTT session: its options, its topics and its reactions to the
//! broker's events.

use crate::config::{MqttConfig, TlsConfig};
use crate::text::{decode_lossy, utf8_lossy};
use vstd::prelude::*;
use vstd::string::StringExecFns;

verus! {

/// The seconds between two keep-alive packets.
pub const KEEP_ALIVE_SECS: u64 = 30;

/// How many requests the session's internal channel holds.
pub const CHANNEL_CAPACITY: usize = 100;

/// The seconds to wait after the session reported an error before it is
/// polled again.
pub const ERROR_BACKOFF_SECS: u64 = 10;

/// The quality of service of everything the bridge publishes and subscribes
/// to: at least once.
pub const QOS: u8 = 1;

/// A message that arrived on a subscribed topic.
#[derive(Debug)]
pub struct IncomingMessage {
    /// The topic the message was published to.
    pub topic: String,
    /// The payload, as text.
    pub payload: String,
}

/// A message to hand to the broker.
#[derive(Debug)]
pub struct Publication {
    /// The topic to publish to.
    pub topic: String,
    /// The payload.
    pub payload: String,
    /// The quality of service.
    pub qos: u8,
    /// Whether the broker keeps the message for later subscribers.
    pub retain: bool,
}

/// The topic `suffix` under the base topic `base`.
pub open spec fn topic_under(base: Seq<char>, suffix: Seq<char>) -> Seq<char> {
    base + "/"@ + suffix
}

/// The topic `suffix` under the base topic `base`.
pub fn topic(base: &str, suffix: &str) -> (r: String)
    ensures
        r@ == topic_under(base@, suffix@),
{
    let mut full: String = String::from_str(base);
    full.append("/");
    full.append(suffix);
    full
}

/// A message for the broker to keep.
pub fn publish_retained(topic: &str, payload: &str) -> (r: Publication)
    ensures
        r.topic@ == topic@,
        r.payload@ == payload@,
        r.qos == QOS,
        r.retain,
{
    Publication { topic: topic.to_owned(), payload: payload.to_owned(), qos: QOS, retain: true }
}

/// A message for the broker to pass on and forget.
pub fn publish(topic: &str, payload: &str) -> (r: Publication)
    ensures
        r.topic@ == topic@,
        r.payload@ == payload@,
        r.qos == QOS,
        !r.retain,
{
    Publication { topic: topic.to_owned(), payload: payload.to_owned(), qos: QOS, retain: false }
}

/// Where the trusted certificate authorities come from.
#[derive(Debug)]
pub enum RootSource {
    /// One file; a certificate in it that cannot be read or added fails the
    /// session.
    File(String),
    /// Every file of a directory whose extension is `crt` or `pem`; what
    /// cannot be read or added is passed over.
    Directory(String),
    /// The roots that ship with the bridge.
    Platform,
}

/// How the connection to the broker is secured.
#[derive(Debug)]
pub struct TlsPlan {
    /// Where the trusted certificate authorities come from.
    pub roots: RootSource,
    /// The client's certificate file and key file, where the client
    /// authenticates itself.
    pub client_auth: Option<(String, String)>,
    /// Whether any server certificate is accepted; a warning is due when the
    /// session is built with this set.
    pub insecure: bool,
}

/// How a connection with the configuration `config` is secured: a file of
/// authorities wins over a directory, and a directory over the built-in
/// roots; the client authenticates itself exactly where both its
/// certificate and its key are given.
pub open spec fn tls_plan(config: TlsConfig) -> TlsPlan {
    TlsPlan {
        roots: match config.ca_file {
            Some(file) => RootSource::File(file),
            None => match config.ca_path {
                Some(path) => RootSource::Directory(path),
                None => RootSource::Platform,
            },
        },
        client_auth: match (config.cert_file, config.key_file) {
            (Some(cert), Some(key)) => Some((cert, key)),
            _ => None,
        },
        insecure: config.insecure,
    }
}

impl TlsConfig {
    /// Decides how the connection is secured.
    pub fn plan(&self) -> (r: TlsPlan)
        ensures
            r == tls_plan(*self),
    {
        let roots: RootSource = match &self.ca_file {
            Some(file) => RootSource::File(file.clone()),
            None => match &self.ca_path {
                Some(path) => RootSource::Directory(path.clone()),
                None => RootSource::Platform,
            },
        };
        let client_auth: Option<(String, String)> = match &self.cert_file {
            Some(cert) => match &self.key_file {
                Some(key) => Some((cert.clone(), key.clone())),
                None => None,
            },
            None => None,
        };
        TlsPlan { roots, client_auth, insecure: self.insecure }
    }
}

/// Whether a file with the extension `extension` in a directory of
/// authorities is read: only `crt` and `pem` files are.
pub fn is_certificate_extension(extension: &str) -> (r: bool)
    ensures
        r == (extension@ == "crt"@ || extension@ == "pem"@),
{
    let ext: String = extension.to_owned();
    ext == String::from_str("crt") || ext == String::from_str("pem")
}

/// The options a session with the broker is opened with.
#[derive(Debug)]
pub struct SessionOptions {
    /// The identifier the client presents.
    pub client_id: String,
    /// The broker's host.
    pub host: String,
    /// The broker's port.
    pub port: u16,
    /// The seconds between two keep-alive packets.
    pub keep_alive_secs: u64,
    /// User name and password, where the client logs in.
    pub credentials: Option<(String, String)>,
    /// How the connection is secured, where it is.
    pub tls: Option<TlsPlan>,
    /// How many requests the session's internal channel holds.
    pub capacity: usize,
}

/// The options of the session that `config` describes: the client logs in
/// exactly where both a user and a password are configured, and the
/// connection is secured exactly where TLS is configured.
pub open spec fn session_options_spec(config: MqttConfig, client_id: Seq<char>) -> SessionOptionsView {
    SessionOptionsView {
        client_id,
        host: config.host@,
        port: config.port,
        keep_alive_secs: KEEP_ALIVE_SECS,
        credentials: match (config.user, config.password) {
            (Some(user), Some(password)) => Some((user@, password@)),
            _ => None,
        },
        tls: match config.tls {
            Some(tls) => Some(tls_plan(tls)),
            None => None,
        },
        capacity: CHANNEL_CAPACITY,
    }
}

/// The mathematical model of [`SessionOptions`].
pub struct SessionOptionsView {
    pub client_id: Seq<char>,
    pub host: Seq<char>,
    pub port: u16,
    pub keep_alive_secs: u64,
    pub credentials: Option<(Seq<char>, Seq<char>)>,
    pub tls: Option<TlsPlan>,
    pub capacity: usize,
}

impl View for SessionOptions {
    type V = SessionOptionsView;

    open spec fn view(&self) -> SessionOptionsView {
        SessionOptionsView {
            client_id: self.client_id@,
            host: self.host@,
            port: self.port,
            keep_alive_secs: self.keep_alive_secs,
            credentials: match self.credentials {
                Some((user, password)) => Some((user@, password@)),
                None => None,
            },
            tls: self.tls,
            capacity: self.capacity,
        }
    }
}

impl MqttConfig {
    /// The options of the session under the identifier `client_id`.
    pub fn session_options(&self, client_id: &str) -> (r: SessionOptions)
        ensures
            r@ == session_options_spec(*self, client_id@),
    {
        let credentials: Option<(String, String)> = match &self.user {
            Some(user) => match &self.password {
                Some(password) => Some((user.clone(), password.clone())),
                None => None,
            },
            None => None,
        };
        let tls: Option<TlsPlan> = match &self.tls {
            Some(config) => Some(config.plan()),
            None => None,
        };
        SessionOptions {
            client_id: client_id.to_owned(),
            host: self.host.clone(),
            port: self.port,
            keep_alive_secs: KEEP_ALIVE_SECS,
            credentials,
            tls,
            capacity: CHANNEL_CAPACITY,
        }
    }
}

/// What the session with the broker reported.
#[derive(Debug)]
pub enum BrokerEvent {
    /// The broker accepted the connection.
    ConnAck,
    /// A message arrived, with its topic and payload as sent.
    Publish { topic: Vec<u8>, payload: Vec<u8> },
    /// The broker ended the connection.
    Disconnect,
    /// Anything else the broker sent or the client sent out.
    Other,
    /// Polling the session failed.
    Error,
}

/// The mathematical model of a [`BrokerEvent`].
pub enum BrokerEventView {
    ConnAck,
    Publish { topic: Seq<u8>, payload: Seq<u8> },
    Disconnect,
    Other,
    Error,
}

impl View for BrokerEvent {
    type V = BrokerEventView;

    open spec fn view(&self) -> BrokerEventView {
        match self {
            BrokerEvent::ConnAck => BrokerEventView::ConnAck,
            BrokerEvent::Publish { topic, payload } => BrokerEventView::Publish {
                topic: topic@,
                payload: payload@,
            },
            BrokerEvent::Disconnect => BrokerEventView::Disconnect,
            BrokerEvent::Other => BrokerEventView::Other,
            BrokerEvent::Error => BrokerEventView::Error,
        }
    }
}

/// What is done about an event of the broker session.
#[derive(Debug)]
pub struct Reaction {
    /// The new value of the connectivity flag, where the event changes it.
    pub connected: Option<bool>,
    /// The topics to subscribe to now, at quality of service [`QOS`].
    pub subscribe: Vec<String>,
    /// The message to hand to the subscriber.
    pub forward: Option<IncomingMessage>,
    /// The seconds to wait before the session is polled again.
    pub backoff_secs: u64,
}

/// The mathematical model of a [`Reaction`]; a message is its topic and its
/// payload.
pub struct ReactionView {
    pub connected: Option<bool>,
    pub subscribe: Seq<Seq<char>>,
    pub forward: Option<(Seq<char>, Seq<char>)>,
    pub backoff_secs: u64,
}

impl View for Reaction {
    type V = ReactionView;

    open spec fn view(&self) -> ReactionView {
        ReactionView {
            connected: self.connected,
            subscribe: self.subscribe.deep_view(),
            forward: match self.forward {
                Some(message) => Some((message.topic@, message.payload@)),
                None => None,
            },
            backoff_secs: self.backoff_secs,
        }
    }
}

/// The reaction that does nothing.
pub open spec fn no_reaction() -> ReactionView {
    ReactionView { connected: None, subscribe: Seq::empty(), forward: None, backoff_secs: 0 }
}

/// What is done about `event`.
///
/// Every accepted connection sets the connectivity flag and subscribes to
/// all of `subscribe_topics` again, since the broker forgets them between
/// connections. A message is decoded and forwarded where there is a sink for
/// it. A disconnect clears the flag. A failure clears the flag and asks for
/// a pause; it never ends the loop.
pub open spec fn reaction_to(
    event: BrokerEventView,
    subscribe_topics: Seq<Seq<char>>,
    has_sink: bool,
) -> ReactionView {
    match event {
        BrokerEventView::ConnAck => ReactionView {
            connected: Some(true),
            subscribe: subscribe_topics,
            ..no_reaction()
        },
        BrokerEventView::Publish { topic, payload } => ReactionView {
            forward: if has_sink {
                Some((utf8_lossy(topic), utf8_lossy(payload)))
            } else {
                None
            },
            ..no_reaction()
        },
        BrokerEventView::Disconnect => ReactionView { connected: Some(false), ..no_reaction() },
        BrokerEventView::Other => no_reaction(),
        BrokerEventView::Error => ReactionView {
            connected: Some(false),
            backoff_secs: ERROR_BACKOFF_SECS,
            ..no_reaction()
        },
    }
}

/// Decides what is done about `event`.
pub fn on_event(event: BrokerEvent, subscribe_topics: &Vec<String>, has_sink: bool) -> (r:
    Reaction)
    ensures
        r@ == reaction_to(event@, subscribe_topics.deep_view(), has_sink),
{
    let nothing: Reaction = Reaction {
        connected: None,
        subscribe: Vec::new(),
        forward: None,
        backoff_secs: 0,
    };
    assert(nothing.subscribe.deep_view() =~= Seq::<Seq<char>>::empty());
    match event {
        BrokerEvent::ConnAck => {
            let subscribe: Vec<String> = subscribe_topics.clone();
            assert(subscribe.deep_view() =~= subscribe_topics.deep_view());
            Reaction { connected: Some(true), subscribe, ..nothing }
        },
        BrokerEvent::Publish { topic, payload } => {
            let forward: Option<IncomingMessage> = if has_sink {
                Some(
                    IncomingMessage {
                        topic: decode_lossy(topic.as_slice()),
                        payload: decode_lossy(payload.as_slice()),
                    },
                )
            } else {
                None
            };
            Reaction { forward, ..nothing }
        },
        BrokerEvent::Disconnect => Reaction { connected: Some(false), ..nothing },
        BrokerEvent::Other => nothing,
        BrokerEvent::Error => Reaction {
            connected: Some(false),
            backoff_secs: ERROR_BACKOFF_SECS,
            ..nothing
        },
    }
}

} // verus!
