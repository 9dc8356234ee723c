use crate::json::{contents, document_of, member_of, parse_document, Json};
use vstd::prelude::*;

verus! {

/// One decoded sensor payload. Every attribute may be absent, and absence
/// is kept apart from `false` and from zero.
#[derive(Clone, Copy, Debug, PartialEq, Eq)]
pub struct SensorReading {
    pub water_leak: Option<bool>,
    pub leak: Option<bool>,
    pub battery_low: Option<bool>,
    pub battery: Option<u8>,
    pub tamper: Option<bool>,
    pub linkquality: Option<u16>,
    pub voltage: Option<u16>,
}

impl SensorReading {
    /// Whether the reading reports water: either of the two leak attributes
    /// is present and true.
    pub open spec fn spec_leak_active(&self) -> bool {
        self.water_leak == Some(true) || self.leak == Some(true)
    }

    /// The reading with no attribute present.
    pub fn empty() -> (reading: SensorReading)
        ensures
            reading == (SensorReading {
                water_leak: None,
                leak: None,
                battery_low: None,
                battery: None,
                tamper: None,
                linkquality: None,
                voltage: None,
            }),
            !reading.spec_leak_active(),
    {
        SensorReading {
            water_leak: None,
            leak: None,
            battery_low: None,
            battery: None,
            tamper: None,
            linkquality: None,
            voltage: None,
        }
    }

    /// Whether the reading reports water.
    #[verifier::when_used_as_spec(spec_leak_active)]
    pub fn leak_active(&self) -> (active: bool)
        ensures
            active == self.spec_leak_active(),
    {
        let first = match self.water_leak {
            Some(flag) => flag,
            None => false,
        };
        let second = match self.leak {
            Some(flag) => flag,
            None => false,
        };
        first || second
    }
}

/// How one attribute of a payload reads. The outer `None` means that the
/// member has a kind the attribute cannot take, which spoils the payload;
/// `Some(None)` means that the attribute is absent.
pub open spec fn flag_attribute(member: Option<Json>) -> Option<Option<bool>> {
    match member {
        None => Some(None),
        Some(Json::Null) => Some(None),
        Some(Json::Bool(flag)) => Some(Some(flag)),
        Some(_) => None,
    }
}

/// As `flag_attribute`, for an unsigned number of at most `limit`.
pub open spec fn count_attribute(member: Option<Json>, limit: u64) -> Option<Option<u64>> {
    match member {
        None => Some(None),
        Some(Json::Null) => Some(None),
        Some(Json::Natural(n)) => if n <= limit {
            Some(Some(n))
        } else {
            None
        },
        Some(_) => None,
    }
}

/// The reading that a JSON document stands for: the document is an object,
/// and each known member is absent, `null`, or of the attribute's kind and
/// range. Members under other keys are not looked at.
pub open spec fn reading_of_json(doc: Json) -> Option<SensorReading> {
    let water_leak = flag_attribute(doc.member("water_leak"@));
    let leak = flag_attribute(doc.member("leak"@));
    let battery_low = flag_attribute(doc.member("battery_low"@));
    let battery = count_attribute(doc.member("battery"@), 0xff);
    let tamper = flag_attribute(doc.member("tamper"@));
    let linkquality = count_attribute(doc.member("linkquality"@), 0xffff);
    let voltage = count_attribute(doc.member("voltage"@), 0xffff);
    if doc is Object && water_leak is Some && leak is Some && battery_low is Some && battery is Some
        && tamper is Some && linkquality is Some && voltage is Some {
        Some(
            SensorReading {
                water_leak: water_leak->0,
                leak: leak->0,
                battery_low: battery_low->0,
                battery: match battery->0 {
                    Some(n) => Some(n as u8),
                    None => None,
                },
                tamper: tamper->0,
                linkquality: match linkquality->0 {
                    Some(n) => Some(n as u16),
                    None => None,
                },
                voltage: match voltage->0 {
                    Some(n) => Some(n as u16),
                    None => None,
                },
            },
        )
    } else {
        None
    }
}

/// The reading that a payload text stands for, or `None` where the text is
/// no JSON document or the document is no reading.
pub open spec fn reading_of_text(text: Seq<char>) -> Option<SensorReading> {
    match document_of(text) {
        Some(doc) => reading_of_json(doc),
        None => None,
    }
}

fn read_flag(doc: &serde_json::Value, key: &str) -> (attribute: Option<Option<bool>>)
    ensures
        attribute == flag_attribute(contents(*doc).member(key@)),
{
    match member_of(doc, key) {
        None => Some(None),
        Some(member) => {
            if member.is_null() {
                Some(None)
            } else {
                match member.as_bool() {
                    Some(flag) => Some(Some(flag)),
                    None => None,
                }
            }
        },
    }
}

fn read_count(doc: &serde_json::Value, key: &str, limit: u64) -> (attribute: Option<Option<u64>>)
    ensures
        attribute == count_attribute(contents(*doc).member(key@), limit),
{
    match member_of(doc, key) {
        None => Some(None),
        Some(member) => {
            if member.is_null() {
                Some(None)
            } else {
                match member.as_u64() {
                    Some(n) => if n <= limit {
                        Some(Some(n))
                    } else {
                        None
                    },
                    None => None,
                }
            }
        },
    }
}

fn narrow_u8(count: Option<u64>) -> (narrow: Option<u8>)
    requires
        count matches Some(n) ==> n <= 0xff,
    ensures
        narrow == match count {
            Some(n) => Some(n as u8),
            None => None::<u8>,
        },
{
    match count {
        Some(n) => Some(n as u8),
        None => None,
    }
}

fn narrow_u16(count: Option<u64>) -> (narrow: Option<u16>)
    requires
        count matches Some(n) ==> n <= 0xffff,
    ensures
        narrow == match count {
            Some(n) => Some(n as u16),
            None => None::<u16>,
        },
{
    match count {
        Some(n) => Some(n as u16),
        None => None,
    }
}

/// Reads a parsed document as a sensor reading.
pub fn reading_from_document(doc: &serde_json::Value) -> (reading: Option<SensorReading>)
    ensures
        reading == reading_of_json(contents(*doc)),
{
    if !doc.is_object() {
        return None;
    }
    let water_leak = read_flag(doc, "water_leak");
    let leak = read_flag(doc, "leak");
    let battery_low = read_flag(doc, "battery_low");
    let battery = read_count(doc, "battery", 0xff);
    let tamper = read_flag(doc, "tamper");
    let linkquality = read_count(doc, "linkquality", 0xffff);
    let voltage = read_count(doc, "voltage", 0xffff);
    match (water_leak, leak, battery_low, battery, tamper, linkquality, voltage) {
        (Some(water_leak), Some(leak), Some(battery_low), Some(battery), Some(tamper), Some(linkquality), Some(voltage)) => Some(
            SensorReading {
                water_leak,
                leak,
                battery_low,
                battery: narrow_u8(battery),
                tamper,
                linkquality: narrow_u16(linkquality),
                voltage: narrow_u16(voltage),
            },
        ),
        _ => None,
    }
}

/// Parses a payload text as a sensor reading.
pub fn parse_reading(text: &str) -> (reading: Option<SensorReading>)
    ensures
        reading == reading_of_text(text@),
{
    match parse_document(text) {
        Ok(doc) => reading_from_document(&doc),
        Err(_) => None,
    }
}

} // verus!
