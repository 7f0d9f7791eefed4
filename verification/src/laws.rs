//! Properties of the monitor that span its operations.

use vstd::prelude::*;
use crate::contact::{battery_byte, report_fields, reported_status, ContactView, ParsedContactView};
use crate::json::{json_get, JsonNumber, JsonValue};
use crate::mqtt::{next_delay, session_topics, valid_delay, MqttManagerView, INITIAL_RECONNECT_DELAY_MS};
use crate::state::AppState;
use crate::state::subscribed_status;
use crate::table::{
    distinct_topics, entries_map, lemma_entries_map_finite, open_entries, open_topics, status_of,
    ContactTable,
};

verus! {

/// A report that leaves out the open/closed state never changes the known
/// state of a sensor, nor its battery level or last-seen time where the
/// report leaves those out.
pub proof fn partial_report_keeps_known_state(
    existing: ContactView,
    topic: Seq<char>,
    report: ParsedContactView,
)
    ensures
        report.contact is None ==> reported_status(Some(existing), topic, report).contact
            == existing.contact,
        report.battery is None ==> reported_status(Some(existing), topic, report).battery
            == existing.battery,
        report.last_seen is None ==> reported_status(Some(existing), topic, report).last_seen
            == existing.last_seen,
        reported_status(Some(existing), topic, report).friendly_name == existing.friendly_name,
{
}

/// Each field that a report carries replaces what was known before, whatever
/// that was: the reported open/closed state, battery level and last-seen time
/// are exactly the report's, and the status is keyed and filled from the
/// report's topic and payload.
pub proof fn reported_fields_take_effect(
    existing: Option<ContactView>,
    topic: Seq<char>,
    report: ParsedContactView,
)
    ensures
        report.contact matches Some(c) ==> reported_status(existing, topic, report).contact == c,
        report.battery matches Some(b) ==> reported_status(existing, topic, report).battery
            == Some(b),
        report.last_seen matches Some(t) ==> reported_status(existing, topic, report).last_seen
            == Some(t),
        reported_status(existing, topic, report).topic == topic,
        reported_status(existing, topic, report).payload == report.payload,
{
}

/// How a full report updates a sensor does not depend on what was known of
/// it, apart from its friendly name.
pub proof fn full_report_ignores_earlier_state(
    a: ContactView,
    b: ContactView,
    topic: Seq<char>,
    report: ParsedContactView,
)
    requires
        report.contact is Some,
        report.battery is Some,
        report.last_seen is Some,
    ensures
        reported_status(Some(a), topic, report).contact == reported_status(Some(b), topic, report).contact,
        reported_status(Some(a), topic, report).battery == reported_status(Some(b), topic, report).battery,
        reported_status(Some(a), topic, report).last_seen == reported_status(Some(b), topic, report).last_seen,
{
}

/// A report's open/closed state is its `contact` member when that is a JSON
/// boolean, and nothing otherwise; it depends on no other member.
pub proof fn report_contact_is_its_member(d1: JsonValue, d2: JsonValue, t1: Seq<char>, t2: Seq<char>)
    ensures
        json_get(d1, "contact"@) matches Some(JsonValue::Bool(c)) ==> report_fields(d1, t1).contact
            == Some(c),
        !(json_get(d1, "contact"@) matches Some(JsonValue::Bool(_))) ==> report_fields(d1, t1).contact
            is None,
        json_get(d1, "contact"@) == json_get(d2, "contact"@) ==> report_fields(d1, t1).contact
            == report_fields(d2, t2).contact,
{
}

/// A report's battery level is its `battery` member, cut to its low byte,
/// when that is a non-negative integer, and nothing otherwise; it depends on
/// no other member.
pub proof fn report_battery_is_its_member(d1: JsonValue, d2: JsonValue, t1: Seq<char>, t2: Seq<char>)
    ensures
        json_get(d1, "battery"@) matches Some(JsonValue::Number(JsonNumber::PosInt(u)))
            ==> report_fields(d1, t1).battery == Some(battery_byte(u)),
        !(json_get(d1, "battery"@) matches Some(JsonValue::Number(JsonNumber::PosInt(_))))
            ==> report_fields(d1, t1).battery is None,
        json_get(d1, "battery"@) == json_get(d2, "battery"@) ==> report_fields(d1, t1).battery
            == report_fields(d2, t2).battery,
{
}

/// A report's last-seen time is its `last_seen` member when that is a JSON
/// string, and nothing otherwise; it depends on no other member.
pub proof fn report_last_seen_is_its_member(d1: JsonValue, d2: JsonValue, t1: Seq<char>, t2: Seq<char>)
    ensures
        json_get(d1, "last_seen"@) matches Some(JsonValue::String(s))
            ==> report_fields(d1, t1).last_seen == Some(s@),
        !(json_get(d1, "last_seen"@) matches Some(JsonValue::String(_)))
            ==> report_fields(d1, t1).last_seen is None,
        json_get(d1, "last_seen"@) == json_get(d2, "last_seen"@) ==> report_fields(d1, t1).last_seen
            == report_fields(d2, t2).last_seen,
        report_fields(d1, t1).payload == t1,
{
}

/// A sensor first heard of through a report is named by its topic, and is
/// closed unless the report says it is open.
pub proof fn first_report_defaults(topic: Seq<char>, report: ParsedContactView)
    ensures
        reported_status(None, topic, report).friendly_name == topic,
        reported_status(None, topic, report).contact == (report.contact != Some(false)),
        reported_status(None, topic, report).topic == topic,
{
}

/// A report delivered twice leaves a sensor as it was after the first
/// delivery.
pub proof fn repeated_report_is_idempotent(
    existing: Option<ContactView>,
    topic: Seq<char>,
    report: ParsedContactView,
)
    ensures
        reported_status(Some(reported_status(existing, topic, report)), topic, report)
            == reported_status(existing, topic, report),
{
}

/// After a report that a contact is open, that contact is among the open
/// ones; after a report that it is closed, it is not.
pub proof fn reported_state_decides_openness(
    m: Map<Seq<char>, ContactView>,
    topic: Seq<char>,
    report: ParsedContactView,
)
    ensures
        report.contact == Some(false) ==> open_topics(
            m.insert(topic, reported_status(status_of(m, topic), topic, report)),
        ).contains(topic),
        report.contact == Some(true) ==> !open_topics(
            m.insert(topic, reported_status(status_of(m, topic), topic, report)),
        ).contains(topic),
{
}

/// There is no open contact exactly when every sensor in the table is closed.
pub proof fn no_open_contact_iff_all_closed(t: &ContactTable)
    requires
        t.wf(),
    ensures
        (open_topics(t@).len() == 0) <==> forall|k: Seq<char>|
            #[trigger] t@.dom().contains(k) ==> t@[k].contact,
{
    t.lemma_view_facts();
    let open = open_topics(t@);
    assert(open.finite());
    if open.len() == 0 {
        assert forall|k: Seq<char>| #[trigger] t@.dom().contains(k) implies t@[k].contact by {
            if !t@[k].contact {
                assert(open.contains(k));
            }
        }
    } else {
        let k = open.choose();
        assert(open.contains(k));
    }
}

/// The number of open contacts equals the number of open statuses in any
/// listing of the table, one status per topic.
pub proof fn open_count_matches_listing(listing: Seq<crate::contact::ContactStatus>, t: &ContactTable)
    requires
        t.wf(),
        distinct_topics(listing),
        entries_map(listing) == t@,
    ensures
        open_topics(t@).len() == open_entries(listing),
{
    lemma_entries_map_finite(listing);
}

/// Unsubscribing a topic right after subscribing it leaves the table as if
/// the topic had only been unsubscribed; for a topic that was not watched,
/// the table is as before.
pub proof fn subscribe_then_unsubscribe(
    m: Map<Seq<char>, ContactView>,
    topic: Seq<char>,
    friendly_name: Seq<char>,
)
    ensures
        m.insert(topic, subscribed_status(topic, friendly_name)).remove(topic) == m.remove(topic),
        !m.dom().contains(topic) ==> m.insert(topic, subscribed_status(topic, friendly_name)).remove(
            topic,
        ) == m,
{
    assert(m.insert(topic, subscribed_status(topic, friendly_name)).remove(topic) =~= m.remove(topic));
    if !m.dom().contains(topic) {
        assert(m.remove(topic) =~= m);
    }
}

/// A session that recorded a subscription and then an unsubscription of the
/// same topic no longer tracks it, and tracks every other topic as before.
pub proof fn subscription_then_unsubscription(before: MqttManagerView, topic: Seq<char>)
    ensures
        before.topics.insert(topic).remove(topic) == before.topics.remove(topic),
        !before.topics.contains(topic) ==> before.topics.insert(topic).remove(topic) == before.topics,
{
    assert(before.topics.insert(topic).remove(topic) =~= before.topics.remove(topic));
    if !before.topics.contains(topic) {
        assert(before.topics.remove(topic) =~= before.topics);
    }
}

/// On a connection acknowledgement the topics asked for again are exactly
/// those the session has recorded, whether or not its client is open; with
/// no session there are none.
pub proof fn resubscription_is_the_recorded_topics(state: AppState)
    ensures
        state.mqtt_manager matches Some(m) ==> session_topics(&state) == m@.topics,
        state.mqtt_manager is None ==> session_topics(&state) == Set::<Seq<char>>::empty(),
{
}

/// Once the state's session is disconnected (it tracks no topic), a
/// connection acknowledgement asks to subscribe to nothing again.
pub proof fn disconnected_session_resubscribes_nothing(state: AppState)
    requires
        state.mqtt_manager matches Some(m) && m@.topics == Set::<Seq<char>>::empty(),
    ensures
        session_topics(&state) == Set::<Seq<char>>::empty(),
{
}

/// The wait before the next reconnection attempt after `n` failed polls in a
/// row, starting from a fresh or just acknowledged connection.
pub open spec fn delay_after_failures(n: nat) -> u64
    decreases n,
{
    if n == 0 {
        INITIAL_RECONNECT_DELAY_MS
    } else {
        next_delay(delay_after_failures((n - 1) as nat))
    }
}

/// However many polls fail, every wait is one of 500 ms doubled at most six
/// times, so it never exceeds 32 s; from the sixth failure on it stays at 32 s.
pub proof fn reconnect_delay_is_bounded(n: nat)
    ensures
        valid_delay(delay_after_failures(n)),
        INITIAL_RECONNECT_DELAY_MS <= delay_after_failures(n) <= 32000,
        n >= 6 ==> delay_after_failures(n) == 32000,
        n == 0 ==> delay_after_failures(n) == 500,
        n == 1 ==> delay_after_failures(n) == 1000,
        n == 2 ==> delay_after_failures(n) == 2000,
        n == 3 ==> delay_after_failures(n) == 4000,
        n == 4 ==> delay_after_failures(n) == 8000,
        n == 5 ==> delay_after_failures(n) == 16000,
    decreases n,
{
    if n > 0 {
        reconnect_delay_is_bounded((n - 1) as nat);
    }
}

/// A failed poll keeps any wait that the event loop uses among those waits.
pub proof fn next_delay_keeps_valid(d: u64)
    requires
        valid_delay(d),
    ensures
        valid_delay(next_delay(d)),
        next_delay(d) >= d,
{
}

} // verus!
