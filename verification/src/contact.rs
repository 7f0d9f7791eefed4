//! Contact sensors: their status, the reports they publish, and how a report
//! updates what is known of a sensor.

use vstd::prelude::*;
use vstd::utf8::{decode_utf8, valid_utf8};
use crate::json::{
    json_as_bool, json_as_str, json_as_u64, json_bool, json_get, json_member, json_string,
    json_u64, parse_json, serde_json_document, JsonNumber, JsonValue,
};

verus! {

/// What is known of one contact sensor. `contact == true` means closed,
/// `false` means open.
#[derive(Debug)]
pub struct ContactStatus {
    pub topic: String,
    pub friendly_name: String,
    pub contact: bool,
    pub last_seen: Option<String>,
    pub battery: Option<u8>,
    pub payload: String,
}

/// A `ContactStatus` with its strings taken as character sequences.
pub struct ContactView {
    pub topic: Seq<char>,
    pub friendly_name: Seq<char>,
    pub contact: bool,
    pub last_seen: Option<Seq<char>>,
    pub battery: Option<u8>,
    pub payload: Seq<char>,
}

pub open spec fn opt_string_view(s: Option<String>) -> Option<Seq<char>> {
    match s {
        Some(x) => Some(x@),
        None => None,
    }
}

impl View for ContactStatus {
    type V = ContactView;

    open spec fn view(&self) -> ContactView {
        ContactView {
            topic: self.topic@,
            friendly_name: self.friendly_name@,
            contact: self.contact,
            last_seen: opt_string_view(self.last_seen),
            battery: self.battery,
            payload: self.payload@,
        }
    }
}

/// Copies an optional string.
pub fn clone_opt_string(s: &Option<String>) -> (r: Option<String>)
    ensures
        opt_string_view(r) == opt_string_view(*s),
{
    match s {
        Some(x) => Some(x.clone()),
        None => None,
    }
}

impl Clone for ContactStatus {
    fn clone(&self) -> (r: Self)
        ensures
            r@ == self@,
    {
        ContactStatus {
            topic: self.topic.clone(),
            friendly_name: self.friendly_name.clone(),
            contact: self.contact,
            last_seen: clone_opt_string(&self.last_seen),
            battery: self.battery,
            payload: self.payload.clone(),
        }
    }
}

/// The fields that a sensor report carries. A field the report leaves out,
/// or gives with another JSON type, is `None`.
#[derive(Debug)]
pub struct ParsedContact {
    pub contact: Option<bool>,
    pub battery: Option<u8>,
    pub last_seen: Option<String>,
    pub payload: String,
}

pub struct ParsedContactView {
    pub contact: Option<bool>,
    pub battery: Option<u8>,
    pub last_seen: Option<Seq<char>>,
    pub payload: Seq<char>,
}

impl View for ParsedContact {
    type V = ParsedContactView;

    open spec fn view(&self) -> ParsedContactView {
        ParsedContactView {
            contact: self.contact,
            battery: self.battery,
            last_seen: opt_string_view(self.last_seen),
            payload: self.payload@,
        }
    }
}

/// Why a report could not be read.
#[derive(Debug, Clone, Copy, PartialEq, Eq, Structural)]
pub enum ContactParseError {
    /// The payload is not valid UTF-8.
    InvalidUtf8,
    /// The payload is not a JSON document.
    InvalidJson,
}

/// A battery level as the report's number gives it, cut to its low byte
/// (a plain `as u8` cast).
pub open spec fn battery_byte(u: u64) -> u8 {
    (u % 256) as u8
}

/// The fields read from a parsed report `doc` whose text is `text`.
pub open spec fn report_fields(doc: JsonValue, text: Seq<char>) -> ParsedContactView {
    ParsedContactView {
        contact: json_as_bool(json_get(doc, "contact"@)),
        battery: match json_as_u64(json_get(doc, "battery"@)) {
            Some(u) => Some(battery_byte(u)),
            None => None,
        },
        last_seen: json_as_str(json_get(doc, "last_seen"@)),
        payload: text,
    }
}

/// What a report with the given payload bytes says, or why it says nothing.
pub open spec fn contact_report(payload: Seq<u8>) -> Result<ParsedContactView, ContactParseError> {
    if !valid_utf8(payload) {
        Err(ContactParseError::InvalidUtf8)
    } else {
        match serde_json_document(decode_utf8(payload)) {
            Some(doc) => Ok(report_fields(doc, decode_utf8(payload))),
            None => Err(ContactParseError::InvalidJson),
        }
    }
}

/// Calls `String::from_utf8`. Claimed, as its documentation says: it
/// succeeds exactly on valid UTF-8, and the string then holds the characters
/// that the bytes encode.
#[verifier::external_body]
fn string_from_utf8(bytes: Vec<u8>) -> (r: Option<String>)
    ensures
        match r {
            Some(s) => valid_utf8(bytes@) && s@ == decode_utf8(bytes@),
            None => !valid_utf8(bytes@),
        },
{
    String::from_utf8(bytes).ok()
}

/// Reads the fields of a report from its parsed document.
pub fn contact_from_json(doc: &JsonValue, payload: String) -> (r: ParsedContact)
    ensures
        r@ == report_fields(*doc, payload@),
        r.payload@ == payload@,
        json_get(*doc, "contact"@) matches Some(JsonValue::Bool(b)) ==> r.contact == Some(b),
        !(json_get(*doc, "contact"@) matches Some(JsonValue::Bool(_))) ==> r.contact is None,
        json_get(*doc, "battery"@) matches Some(JsonValue::Number(JsonNumber::PosInt(u)))
            ==> r.battery == Some((u % 256) as u8),
        !(json_get(*doc, "battery"@) matches Some(JsonValue::Number(JsonNumber::PosInt(_))))
            ==> r.battery is None,
        json_get(*doc, "last_seen"@) matches Some(JsonValue::String(s)) ==> (r.last_seen matches Some(
            t,
        ) && t@ == s@),
        !(json_get(*doc, "last_seen"@) matches Some(JsonValue::String(_))) ==> r.last_seen is None,
{
    let contact = json_bool(json_member(doc, "contact"));
    let battery = match json_u64(json_member(doc, "battery")) {
        Some(u) => Some((u % 256) as u8),
        None => None,
    };
    let last_seen = json_string(json_member(doc, "last_seen"));
    ParsedContact { contact, last_seen, battery, payload }
}

/// Reads a sensor report: UTF-8 text holding a JSON document.
pub fn parse_contact_message(payload: &[u8]) -> (r: Result<ParsedContact, ContactParseError>)
    ensures
        match r {
            Ok(p) => contact_report(payload@) == Ok::<ParsedContactView, ContactParseError>(p@),
            Err(e) => contact_report(payload@) == Err::<ParsedContactView, ContactParseError>(e),
        },
{
    let bytes = vstd::slice::slice_to_vec(payload);
    let text = match string_from_utf8(bytes) {
        Some(t) => t,
        None => return Err(ContactParseError::InvalidUtf8),
    };
    match parse_json(text.as_str()) {
        Some(doc) => Ok(contact_from_json(&doc, text)),
        None => Err(ContactParseError::InvalidJson),
    }
}

/// The status of `topic` after a report, given what was known before.
/// The friendly name is kept (a sensor seen first is named by its topic);
/// each field the report leaves out keeps its last known value, and a sensor
/// of which nothing is known yet counts as closed.
pub open spec fn reported_status(
    existing: Option<ContactView>,
    topic: Seq<char>,
    report: ParsedContactView,
) -> ContactView {
    ContactView {
        topic,
        friendly_name: match existing {
            Some(e) => e.friendly_name,
            None => topic,
        },
        contact: match report.contact {
            Some(c) => c,
            None => match existing {
                Some(e) => e.contact,
                None => true,
            },
        },
        last_seen: match report.last_seen {
            Some(s) => Some(s),
            None => match existing {
                Some(e) => e.last_seen,
                None => None,
            },
        },
        battery: match report.battery {
            Some(b) => Some(b),
            None => match existing {
                Some(e) => e.battery,
                None => None,
            },
        },
        payload: report.payload,
    }
}

pub open spec fn opt_contact_view(c: Option<&ContactStatus>) -> Option<ContactView> {
    match c {
        Some(x) => Some(x@),
        None => None,
    }
}

/// The new status of `topic` after `report`, given its current status.
pub fn merge_report(existing: Option<&ContactStatus>, topic: String, report: ParsedContact) -> (r:
    ContactStatus)
    ensures
        r@ == reported_status(opt_contact_view(existing), topic@, report@),
        r.topic@ == topic@,
        r.payload@ == report.payload@,
        r.friendly_name@ == match existing {
            Some(e) => e.friendly_name@,
            None => topic@,
        },
        report.contact matches Some(c) ==> r.contact == c,
        report.battery matches Some(b) ==> r.battery == Some(b),
        report.last_seen matches Some(s) ==> (r.last_seen matches Some(t) && t@ == s@),
        report.contact is None ==> r.contact == match existing {
            Some(e) => e.contact,
            None => true,
        },
        report.battery is None ==> r.battery == match existing {
            Some(e) => e.battery,
            None => None,
        },
        report.last_seen is None ==> opt_string_view(r.last_seen) == match existing {
            Some(e) => opt_string_view(e.last_seen),
            None => None,
        },
{
    let friendly_name = match existing {
        Some(e) => e.friendly_name.clone(),
        None => topic.clone(),
    };
    let contact = match report.contact {
        Some(c) => c,
        None => match existing {
            Some(e) => e.contact,
            None => true,
        },
    };
    let battery = match report.battery {
        Some(b) => Some(b),
        None => match existing {
            Some(e) => e.battery,
            None => None,
        },
    };
    let last_seen = match report.last_seen {
        Some(s) => Some(s),
        None => match existing {
            Some(e) => clone_opt_string(&e.last_seen),
            None => None,
        },
    };
    ContactStatus { topic, friendly_name, contact, last_seen, battery, payload: report.payload }
}

} // verus!
