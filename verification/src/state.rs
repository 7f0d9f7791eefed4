//! The monitor's shared state and the commands that the user interface sends.

use vstd::prelude::*;
use vstd::string::StringExecFns;
use crate::contact::{ContactStatus, ContactView};
use crate::mqtt::MqttManager;
use crate::table::{distinct_topics, entries_map, open_topics, ContactTable};

verus! {

/// The broker connection as the user interface shows it.
#[derive(Debug)]
pub struct MqttStatus {
    pub connected: bool,
    pub broker: String,
    pub client_name: String,
}

impl Clone for MqttStatus {
    fn clone(&self) -> (r: Self)
        ensures
            r.connected == self.connected,
            r.broker@ == self.broker@,
            r.client_name@ == self.client_name@,
    {
        MqttStatus {
            connected: self.connected,
            broker: self.broker.clone(),
            client_name: self.client_name.clone(),
        }
    }
}

/// Everything the monitor knows: the sensors, the connection status, and
/// the MQTT session, if one was opened.
pub struct AppState {
    pub contacts: ContactTable,
    pub mqtt_status: MqttStatus,
    pub mqtt_manager: Option<MqttManager>,
}

impl AppState {
    /// The number of open contacts.
    pub fn count_open(&self) -> (n: usize)
        ensures
            n == open_topics(self.contacts@).len(),
    {
        self.contacts.count_open()
    }
}

impl Default for AppState {
    fn default() -> (s: Self)
        ensures
            s.contacts@ == Map::<Seq<char>, ContactView>::empty(),
            !s.mqtt_status.connected,
            s.mqtt_status.broker@ == Seq::<char>::empty(),
            s.mqtt_status.client_name@ == Seq::<char>::empty(),
            s.mqtt_manager is None,
    {
        AppState {
            contacts: ContactTable::new(),
            mqtt_status: MqttStatus {
                connected: false,
                broker: String::new(),
                client_name: String::new(),
            },
            mqtt_manager: None,
        }
    }
}

/// The status that a fresh subscription starts from: closed, nothing seen yet.
pub open spec fn subscribed_status(topic: Seq<char>, friendly_name: Seq<char>) -> ContactView {
    ContactView {
        topic,
        friendly_name,
        contact: true,
        last_seen: None,
        battery: None,
        payload: Seq::empty(),
    }
}

/// The message that confirms a connection.
pub open spec fn connected_message(broker: Seq<char>, client_name: Seq<char>) -> Seq<char> {
    "Connected to "@ + broker + " as "@ + client_name
}

/// Copies of all contact statuses, one per topic.
pub fn contacts_get_all(state: &AppState) -> (r: Result<Vec<ContactStatus>, String>)
    ensures
        match r {
            Ok(v) => distinct_topics(v@) && entries_map(v@) == state.contacts@,
            Err(_) => false,
        },
{
    Ok(state.contacts.values())
}

/// The number of open contacts.
pub fn contacts_count_open(state: &AppState) -> (r: Result<usize, String>)
    ensures
        match r {
            Ok(n) => n == open_topics(state.contacts@).len(),
            Err(_) => false,
        },
{
    Ok(state.count_open())
}

/// Records the broker and client name and marks the connection as up. The
/// port is accepted and not used.
pub fn mqtt_connect(state: &mut AppState, broker: String, port: u16, client_name: String) -> (r:
    Result<String, String>)
    ensures
        final(state).mqtt_status.connected,
        final(state).mqtt_status.broker@ == broker@,
        final(state).mqtt_status.client_name@ == client_name@,
        final(state).contacts == old(state).contacts,
        final(state).mqtt_manager == old(state).mqtt_manager,
        match r {
            Ok(msg) => msg@ == connected_message(broker@, client_name@),
            Err(_) => false,
        },
{
    let _ = port;
    let mut msg = "Connected to ".to_string();
    msg.append(broker.as_str());
    msg.append(" as ");
    msg.append(client_name.as_str());
    state.mqtt_status.broker = broker;
    state.mqtt_status.client_name = client_name;
    state.mqtt_status.connected = true;
    Ok(msg)
}

/// Marks the connection as down.
pub fn mqtt_disconnect(state: &mut AppState) -> (r: Result<(), String>)
    ensures
        !final(state).mqtt_status.connected,
        final(state).mqtt_status.broker == old(state).mqtt_status.broker,
        final(state).mqtt_status.client_name == old(state).mqtt_status.client_name,
        final(state).contacts == old(state).contacts,
        final(state).mqtt_manager == old(state).mqtt_manager,
        r is Ok,
{
    state.mqtt_status.connected = false;
    Ok(())
}

/// Starts watching `topic` under `friendly_name`, as a closed contact with
/// nothing seen yet; any status the topic had is replaced.
pub fn mqtt_subscribe(state: &mut AppState, topic: String, friendly_name: String) -> (r: Result<
    (),
    String,
>)
    ensures
        final(state).contacts@ == old(state).contacts@.insert(
            topic@,
            subscribed_status(topic@, friendly_name@),
        ),
        final(state).mqtt_status == old(state).mqtt_status,
        final(state).mqtt_manager == old(state).mqtt_manager,
        r is Ok,
{
    let status = ContactStatus {
        topic,
        friendly_name,
        contact: true,
        last_seen: None,
        battery: None,
        payload: String::new(),
    };
    state.contacts.insert(status);
    Ok(())
}

/// Stops watching `topic`.
pub fn mqtt_unsubscribe(state: &mut AppState, topic: String) -> (r: Result<(), String>)
    ensures
        final(state).contacts@ == old(state).contacts@.remove(topic@),
        final(state).mqtt_status == old(state).mqtt_status,
        final(state).mqtt_manager == old(state).mqtt_manager,
        r is Ok,
{
    state.contacts.remove(topic.as_str());
    Ok(())
}

} // verus!
