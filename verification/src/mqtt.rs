//! The MQTT session: what a connection is opened with, the topics it has
//! subscribed to, and how each event of its event loop changes the monitor.

use vstd::prelude::*;
use crate::contact::{
    contact_report, merge_report, parse_contact_message, reported_status, ContactParseError,
};
use crate::state::AppState;
use crate::table::status_of;
use crate::topics::{string_views, TopicSet};

verus! {

/// The broker port a session starts with.
pub const DEFAULT_PORT: u16 = 1883;

/// Seconds between keep-alive pings.
pub const KEEP_ALIVE_SECS: u64 = 30;

/// The largest packet accepted or sent, in bytes.
pub const MAX_PACKET_SIZE: usize = 10240;

/// How many requests the client queues for its event loop.
pub const REQUEST_CAPACITY: usize = 10;

/// The first wait before reconnecting, in milliseconds.
pub const INITIAL_RECONNECT_DELAY_MS: u64 = 500;

/// The wait is doubled after each failure while it is below this many
/// milliseconds.
pub const RECONNECT_DOUBLING_LIMIT_MS: u64 = 30000;

/// What a client connection is opened with.
#[derive(Debug)]
pub struct MqttSettings {
    pub client_id: String,
    pub host: String,
    pub port: u16,
    pub keep_alive_secs: u64,
    pub max_incoming_packet_size: usize,
    pub max_outgoing_packet_size: usize,
    pub clean_session: bool,
    pub credentials: Option<(String, String)>,
    pub request_capacity: usize,
}

/// A session's state: whether a client is open, the topics it subscribed
/// to, and the broker it was opened for.
pub struct MqttManager {
    has_client: bool,
    subscribed_topics: TopicSet,
    broker: String,
    port: u16,
    client_name: String,
}

pub struct MqttManagerView {
    pub has_client: bool,
    pub topics: Set<Seq<char>>,
    pub broker: Seq<char>,
    pub port: u16,
    pub client_name: Seq<char>,
}

impl View for MqttManager {
    type V = MqttManagerView;

    closed spec fn view(&self) -> MqttManagerView {
        MqttManagerView {
            has_client: self.has_client,
            topics: self.subscribed_topics@,
            broker: self.broker@,
            port: self.port,
            client_name: self.client_name@,
        }
    }
}

impl MqttManager {

    /// A session with no client, no topics, no broker, on the default port.
    pub fn new() -> (m: Self)
        ensures
            !m@.has_client,
            m@.topics == Set::<Seq<char>>::empty(),
            m@.broker == Seq::<char>::empty(),
            m@.port == DEFAULT_PORT,
            m@.client_name == Seq::<char>::empty(),
    {
        MqttManager {
            has_client: false,
            subscribed_topics: TopicSet::new(),
            broker: String::new(),
            port: DEFAULT_PORT,
            client_name: String::new(),
        }
    }

    /// Whether a client is open.
    pub fn has_client(&self) -> (b: bool)
        ensures
            b == self@.has_client,
    {
        self.has_client
    }

    /// The topics subscribed to.
    pub fn subscribed_topics(&self) -> (t: &TopicSet)
        ensures
            t@ == self@.topics,
    {
        &self.subscribed_topics
    }

    /// The broker the session was opened for.
    pub fn broker(&self) -> (s: &str)
        ensures
            s@ == self@.broker,
    {
        self.broker.as_str()
    }

    /// The port the session was opened for.
    pub fn port(&self) -> (p: u16)
        ensures
            p == self@.port,
    {
        self.port
    }

    /// The client name the session was opened with.
    pub fn client_name(&self) -> (s: &str)
        ensures
            s@ == self@.client_name,
    {
        self.client_name.as_str()
    }

    /// Opens the session for `broker`, `port` and `client_name`, and gives the
    /// settings to open the client with: a 30 s keep-alive, 10 KiB packets
    /// both ways, a clean session, and credentials only when both the user
    /// name and the password are given. Subscribed topics are kept.
    pub fn connect(
        &mut self,
        broker: String,
        port: u16,
        client_name: String,
        username: Option<String>,
        password: Option<String>,
    ) -> (s: MqttSettings)
        ensures
            final(self)@.has_client,
            final(self)@.topics == old(self)@.topics,
            final(self)@.broker == broker@,
            final(self)@.port == port,
            final(self)@.client_name == client_name@,
            s.client_id@ == client_name@,
            s.host@ == broker@,
            s.port == port,
            s.keep_alive_secs == KEEP_ALIVE_SECS,
            s.max_incoming_packet_size == MAX_PACKET_SIZE,
            s.max_outgoing_packet_size == MAX_PACKET_SIZE,
            s.clean_session,
            s.request_capacity == REQUEST_CAPACITY,
            match (username, password) {
                (Some(u), Some(p)) => s.credentials matches Some((su, sp)) && su@ == u@ && sp@ == p@,
                _ => s.credentials is None,
            },
    {
        let credentials = match (username, password) {
            (Some(u), Some(p)) => Some((u, p)),
            _ => None,
        };
        let settings = MqttSettings {
            client_id: client_name.clone(),
            host: broker.clone(),
            port,
            keep_alive_secs: KEEP_ALIVE_SECS,
            max_incoming_packet_size: MAX_PACKET_SIZE,
            max_outgoing_packet_size: MAX_PACKET_SIZE,
            clean_session: true,
            credentials,
            request_capacity: REQUEST_CAPACITY,
        };
        self.broker = broker;
        self.port = port;
        self.client_name = client_name;
        self.has_client = true;
        settings
    }

    /// Records that the broker accepted a subscription to `topic`.
    pub fn record_subscribed(&mut self, topic: String)
        ensures
            final(self)@.topics == old(self)@.topics.insert(topic@),
            final(self)@.has_client == old(self)@.has_client,
            final(self)@.broker == old(self)@.broker,
            final(self)@.port == old(self)@.port,
            final(self)@.client_name == old(self)@.client_name,
    {
        self.subscribed_topics.insert(topic);
    }

    /// Records that the broker accepted an unsubscription from `topic`.
    pub fn record_unsubscribed(&mut self, topic: &str)
        ensures
            final(self)@.topics == old(self)@.topics.remove(topic@),
            final(self)@.has_client == old(self)@.has_client,
            final(self)@.broker == old(self)@.broker,
            final(self)@.port == old(self)@.port,
            final(self)@.client_name == old(self)@.client_name,
    {
        self.subscribed_topics.remove(topic);
    }

    /// Closes the session: no client, and no topics.
    pub fn disconnect(&mut self)
        ensures
            !final(self)@.has_client,
            final(self)@.topics == Set::<Seq<char>>::empty(),
            final(self)@.broker == old(self)@.broker,
            final(self)@.port == old(self)@.port,
            final(self)@.client_name == old(self)@.client_name,
    {
        self.has_client = false;
        self.subscribed_topics.clear();
    }
}

/// The wait after a failed connection attempt that waited `d` milliseconds.
pub open spec fn next_delay(d: u64) -> u64 {
    if d < RECONNECT_DOUBLING_LIMIT_MS {
        (2 * d) as u64
    } else {
        d
    }
}

/// The waits that the event loop uses: 500 ms doubled up to six times.
pub open spec fn valid_delay(d: u64) -> bool {
    d == 500 || d == 1000 || d == 2000 || d == 4000 || d == 8000 || d == 16000 || d == 32000
}

/// The event loop's own state between events.
#[derive(Debug)]
pub struct ConnectionLoop {
    pub reconnect_delay_ms: u64,
    pub was_connected: bool,
}

impl ConnectionLoop {
    pub open spec fn wf(&self) -> bool {
        valid_delay(self.reconnect_delay_ms)
    }

    /// A loop that has not connected yet and waits 500 ms after its first failure.
    pub fn new() -> (l: Self)
        ensures
            l.wf(),
            l.reconnect_delay_ms == INITIAL_RECONNECT_DELAY_MS,
            !l.was_connected,
    {
        ConnectionLoop { reconnect_delay_ms: INITIAL_RECONNECT_DELAY_MS, was_connected: false }
    }
}

/// What the event loop receives from the client.
#[derive(Debug)]
pub enum MqttEvent {
    /// A message published on `topic`.
    Publish { topic: String, payload: Vec<u8> },
    /// The broker accepted the connection.
    ConnAck { session_present: bool },
    /// The broker acknowledged a subscription.
    SubAck,
    /// The broker closed the connection.
    Disconnect,
    /// The broker answered a ping.
    PingResp,
    /// A packet was sent.
    Outgoing,
    /// Any other incoming packet.
    Other,
    /// Polling the connection failed.
    PollFailed,
}

/// What the event loop does next, besides what it changed in the state.
#[derive(Debug)]
pub enum LoopAction {
    /// Nothing; poll again.
    Idle,
    /// A report on `topic` could not be read and was dropped.
    PayloadRejected { topic: String, error: ContactParseError },
    /// Subscribe to each of these topics again, then poll again.
    Resubscribe(Vec<String>),
    /// Wait `wait_ms` milliseconds, then poll again. `connection_lost` tells
    /// a dropped connection from a failed attempt.
    Backoff { wait_ms: u64, connection_lost: bool },
}

/// The topics that the state's session has subscribed to; none without a session.
pub open spec fn session_topics(state: &AppState) -> Set<Seq<char>> {
    match state.mqtt_manager {
        Some(m) => m@.topics,
        None => Set::empty(),
    }
}

/// Handles one event of a session's event loop.
///
/// A readable report updates its sensor (see `reported_status`); an
/// unreadable one changes nothing. A connection acknowledgement marks the
/// connection as up, resets the wait to 500 ms and asks for every tracked
/// topic of the session to be subscribed again, since the broker forgets them with a clean
/// session. A disconnection marks it as down. A failed poll marks it as down
/// if it was up, waits, and doubles the next wait while it is below 30 s.
pub fn handle_event(
    lp: &mut ConnectionLoop,
    state: &mut AppState,
    event: MqttEvent,
) -> (r: LoopAction)
    ensures
        old(lp).wf() ==> final(lp).wf(),
        final(state).mqtt_manager == old(state).mqtt_manager,
        match event {
            MqttEvent::Publish { topic, payload } => {
                &&& *final(lp) == *old(lp)
                &&& final(state).mqtt_status == old(state).mqtt_status
                &&& match contact_report(payload@) {
                    Ok(report) => {
                        &&& final(state).contacts@ == old(state).contacts@.insert(
                            topic@,
                            reported_status(status_of(old(state).contacts@, topic@), topic@, report),
                        )
                        &&& r is Idle
                    },
                    Err(e) => {
                        &&& final(state).contacts == old(state).contacts
                        &&& r matches LoopAction::PayloadRejected { topic: t, error } && t@ == topic@ && error == e
                    },
                }
            },
            MqttEvent::ConnAck { .. } => {
                &&& final(lp).reconnect_delay_ms == INITIAL_RECONNECT_DELAY_MS
                &&& final(lp).was_connected
                &&& final(state).mqtt_status.connected
                &&& final(state).mqtt_status.broker == old(state).mqtt_status.broker
                &&& final(state).mqtt_status.client_name == old(state).mqtt_status.client_name
                &&& final(state).contacts == old(state).contacts
                &&& r matches LoopAction::Resubscribe(v) && string_views(v@).no_duplicates()
                    && string_views(v@).to_set() == session_topics(old(state))
                    && match old(state).mqtt_manager {
                        Some(m) => string_views(v@).to_set() == m@.topics,
                        None => v@.len() == 0,
                    }
            },
            MqttEvent::Disconnect => {
                &&& final(lp).reconnect_delay_ms == old(lp).reconnect_delay_ms
                &&& !final(lp).was_connected
                &&& !final(state).mqtt_status.connected
                &&& final(state).mqtt_status.broker == old(state).mqtt_status.broker
                &&& final(state).mqtt_status.client_name == old(state).mqtt_status.client_name
                &&& final(state).contacts == old(state).contacts
                &&& r is Idle
            },
            MqttEvent::PollFailed => {
                &&& final(lp).reconnect_delay_ms == next_delay(old(lp).reconnect_delay_ms)
                &&& !final(lp).was_connected
                &&& final(state).contacts == old(state).contacts
                &&& final(state).mqtt_status.broker == old(state).mqtt_status.broker
                &&& final(state).mqtt_status.client_name == old(state).mqtt_status.client_name
                &&& final(state).mqtt_status.connected == (old(state).mqtt_status.connected
                    && !old(lp).was_connected)
                &&& r matches LoopAction::Backoff { wait_ms, connection_lost }
                    && wait_ms == old(lp).reconnect_delay_ms
                    && connection_lost == old(lp).was_connected
            },
            _ => {
                &&& *final(lp) == *old(lp)
                &&& final(state).mqtt_status == old(state).mqtt_status
                &&& final(state).contacts == old(state).contacts
                &&& r is Idle
            },
        },
{
    match event {
        MqttEvent::Publish { topic, payload } => {
            match parse_contact_message(payload.as_slice()) {
                Ok(report) => {
                    let status = merge_report(state.contacts.get(topic.as_str()), topic, report);
                    state.contacts.insert(status);
                    LoopAction::Idle
                },
                Err(error) => LoopAction::PayloadRejected { topic, error },
            }
        },
        MqttEvent::ConnAck { .. } => {
            lp.was_connected = true;
            lp.reconnect_delay_ms = INITIAL_RECONNECT_DELAY_MS;
            state.mqtt_status.connected = true;
            let topics = match &state.mqtt_manager {
                Some(m) => m.subscribed_topics().to_vec(),
                None => {
                    assert(string_views(Seq::<String>::empty()) =~= Seq::<Seq<char>>::empty());
                    Vec::new()
                },
            };
            LoopAction::Resubscribe(topics)
        },
        MqttEvent::Disconnect => {
            lp.was_connected = false;
            state.mqtt_status.connected = false;
            LoopAction::Idle
        },
        MqttEvent::PollFailed => {
            let wait_ms = lp.reconnect_delay_ms;
            let connection_lost = lp.was_connected;
            if lp.was_connected {
                lp.was_connected = false;
                state.mqtt_status.connected = false;
            }
            if lp.reconnect_delay_ms < RECONNECT_DOUBLING_LIMIT_MS {
                lp.reconnect_delay_ms = lp.reconnect_delay_ms * 2;
            }
            LoopAction::Backoff { wait_ms, connection_lost }
        },
        _ => LoopAction::Idle,
    }
}

} // verus!
