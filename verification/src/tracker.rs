use crate::cache::{last_known, DeviceStateCache};
use crate::message::{build_message, message_text};
use crate::json::document_of;
use crate::reading::{parse_reading, reading_of_text, SensorReading};
use crate::text::utf8_text;
use crate::topic::{device_of, extract_device_name, is_administrative, is_bridge_topic};
use vstd::prelude::*;
use vstd::utf8::{decode_utf8, valid_utf8};

verus! {

/// Why a message was put aside without a look at the stored states.
#[derive(Clone, Copy, Debug, PartialEq, Eq)]
pub enum Skip {
    /// The payload is not UTF-8 text.
    NotUtf8,
    /// The topic belongs to the bridge itself.
    Administrative,
    /// The payload is no JSON document, or the document is no reading.
    Malformed,
}

/// What one inbound message led to.
#[derive(Debug, PartialEq, Eq)]
pub enum Outcome {
    /// The device's leak state changed: the text is to be sent.
    Alert(String),
    /// The reading repeats the stored state: nothing is sent.
    Unchanged,
    /// The message was put aside.
    Skipped(Skip),
}

/// The reading that a message carries, or the reason why it carries none.
/// The payload is looked at first, then the topic, then the document.
pub open spec fn decode(topic: Seq<char>, payload: Seq<u8>) -> Result<SensorReading, Skip> {
    if !valid_utf8(payload) {
        Err(Skip::NotUtf8)
    } else if is_administrative(topic) {
        Err(Skip::Administrative)
    } else {
        match reading_of_text(decode_utf8(payload)) {
            Some(reading) => Ok(reading),
            None => Err(Skip::Malformed),
        }
    }
}

/// Whether a reading with leak state `active` for `device` calls for an
/// alert: it does when the state differs from the last one known.
pub open spec fn alerts(states: Map<Seq<char>, bool>, device: Seq<char>, active: bool) -> bool {
    active != last_known(states, device)
}

/// The stored states after a reading with leak state `active` for `device`:
/// the new state is stored when it calls for an alert, and nothing changes
/// when it does not.
pub open spec fn next_states(states: Map<Seq<char>, bool>, device: Seq<char>, active: bool) -> Map<
    Seq<char>,
    bool,
> {
    if alerts(states, device, active) {
        states.insert(device, active)
    } else {
        states
    }
}

/// The stored states after a message.
pub open spec fn states_after(
    states: Map<Seq<char>, bool>,
    topic: Seq<char>,
    payload: Seq<u8>,
) -> Map<Seq<char>, bool> {
    match decode(topic, payload) {
        Ok(reading) => next_states(states, device_of(topic), reading.spec_leak_active()),
        Err(_) => states,
    }
}

/// The text that a message causes to be sent, if any.
pub open spec fn alert_of(states: Map<Seq<char>, bool>, topic: Seq<char>, payload: Seq<u8>) -> Option<
    Seq<char>,
> {
    match decode(topic, payload) {
        Ok(reading) => if alerts(states, device_of(topic), reading.spec_leak_active()) {
            Some(message_text(device_of(topic), topic, reading, reading.spec_leak_active()))
        } else {
            None
        },
        Err(_) => None,
    }
}

/// Whether `outcome` is what a message leads to: the reason why it carries
/// no reading, the alert text where the leak state changed, and `Unchanged`
/// where it did not.
pub open spec fn is_outcome_of(
    outcome: Outcome,
    states: Map<Seq<char>, bool>,
    topic: Seq<char>,
    payload: Seq<u8>,
) -> bool {
    match decode(topic, payload) {
        Err(skip) => outcome == Outcome::Skipped(skip),
        Ok(_) => match alert_of(states, topic, payload) {
            Some(text) => outcome matches Outcome::Alert(sent) && sent@ == text,
            None => outcome == Outcome::Unchanged,
        },
    }
}

/// Holds a reading that came on `topic` against the stored states. If the
/// leak state of the device changed, the new state is stored and the alert
/// text is returned.
pub fn evaluate(cache: &mut DeviceStateCache, topic: &str, reading: &SensorReading) -> (alert:
    Option<String>)
    ensures
        final(cache)@ == next_states(old(cache)@, device_of(topic@), reading.spec_leak_active()),
        match alert {
            Some(text) => alerts(old(cache)@, device_of(topic@), reading.spec_leak_active())
                && text@ == message_text(
                device_of(topic@),
                topic@,
                *reading,
                reading.spec_leak_active(),
            ),
            None => !alerts(old(cache)@, device_of(topic@), reading.spec_leak_active()),
        },
{
    let device = extract_device_name(topic);
    let active = reading.leak_active();
    let previous = cache.get(device.as_str());
    if active != previous {
        cache.set(device.as_str(), active);
        Some(build_message(device.as_str(), topic, reading, active))
    } else {
        None
    }
}

/// Decodes one inbound message and holds it against the stored states.
pub fn handle_publish(cache: &mut DeviceStateCache, topic: &str, payload: &[u8]) -> (outcome:
    Outcome)
    ensures
        final(cache)@ == states_after(old(cache)@, topic@, payload@),
        is_outcome_of(outcome, old(cache)@, topic@, payload@),
{
    let text = match utf8_text(payload) {
        Some(text) => text,
        None => {
            return Outcome::Skipped(Skip::NotUtf8);
        },
    };
    if is_bridge_topic(topic) {
        return Outcome::Skipped(Skip::Administrative);
    }
    let reading = match parse_reading(text) {
        Some(reading) => reading,
        None => {
            return Outcome::Skipped(Skip::Malformed);
        },
    };
    match evaluate(cache, topic, &reading) {
        Some(text) => Outcome::Alert(text),
        None => Outcome::Unchanged,
    }
}

/// The stored states after a run of readings, each given as the device it
/// is for and the leak state it reports.
pub open spec fn run(states: Map<Seq<char>, bool>, events: Seq<(Seq<char>, bool)>) -> Map<
    Seq<char>,
    bool,
>
    decreases events.len(),
{
    if events.len() == 0 {
        states
    } else {
        next_states(run(states, events.drop_last()), events.last().0, events.last().1)
    }
}

/// Whether the reading at place `i` of a run calls for an alert.
pub open spec fn alert_at(states: Map<Seq<char>, bool>, events: Seq<(Seq<char>, bool)>, i: int) -> bool {
    alerts(run(states, events.take(i)), events[i].0, events[i].1)
}

/// The leak state that the last alert for `device` before place `upto`
/// announced; the state known at the start where there was no such alert.
pub open spec fn last_announced(
    states: Map<Seq<char>, bool>,
    events: Seq<(Seq<char>, bool)>,
    device: Seq<char>,
    upto: int,
) -> bool
    decreases upto,
{
    if upto <= 0 {
        last_known(states, device)
    } else if events[upto - 1].0 == device && alert_at(states, events, upto - 1) {
        events[upto - 1].1
    } else {
        last_announced(states, events, device, upto - 1)
    }
}

/// After any part of a run, the state stored for a device is the one that
/// its last alert announced.
pub proof fn lemma_stored_is_last_announced(
    states: Map<Seq<char>, bool>,
    events: Seq<(Seq<char>, bool)>,
    device: Seq<char>,
    upto: int,
)
    requires
        0 <= upto <= events.len(),
    ensures
        last_known(run(states, events.take(upto)), device) == last_announced(
            states,
            events,
            device,
            upto,
        ),
    decreases upto,
{
    if upto > 0 {
        lemma_stored_is_last_announced(states, events, device, upto - 1);
        assert(events.take(upto).drop_last() == events.take(upto - 1));
        assert(events.take(upto).last() == events[upto - 1]);
    }
}

/// Alerts are edge-triggered: a reading calls for an alert exactly when its
/// leak state differs from the one that the last alert for its device
/// announced, or from the state known at the start if there was none. On
/// empty states that state is `false`.
pub proof fn lemma_edge_trigger(
    states: Map<Seq<char>, bool>,
    events: Seq<(Seq<char>, bool)>,
    i: int,
)
    requires
        0 <= i < events.len(),
    ensures
        alert_at(states, events, i) <==> events[i].1 != last_announced(
            states,
            events,
            events[i].0,
            i,
        ),
        states == Map::<Seq<char>, bool>::empty() ==> last_announced(states, events, events[i].0, 0)
            == false,
{
    lemma_stored_is_last_announced(states, events, events[i].0, i);
}

/// A reading leaves its own leak state as the state stored for its device.
pub proof fn lemma_reading_is_stored(states: Map<Seq<char>, bool>, device: Seq<char>, active: bool)
    ensures
        last_known(next_states(states, device, active), device) == active,
        !alerts(next_states(states, device, active), device, active),
        forall|other: Seq<char>|
            other != device ==> last_known(next_states(states, device, active), other)
                == #[trigger] last_known(states, other),
{
}

/// Repeated readings alert at most once: if every reading for a device
/// between place `first` and place `later` of a run reports the same leak
/// state as the one at `first`, the reading at `later` calls for no alert.
/// Readings for other devices may stand between them.
pub proof fn lemma_repetition_is_silent(
    states: Map<Seq<char>, bool>,
    events: Seq<(Seq<char>, bool)>,
    first: int,
    later: int,
)
    requires
        0 <= first < later < events.len(),
        events[later].0 == events[first].0,
        forall|k: int|
            first < k <= later && events[k].0 == events[first].0 ==> events[k].1 == events[first].1,
    ensures
        !alert_at(states, events, later),
{
    lemma_stored_after(states, events, first, later);
}

/// Under the conditions of `lemma_repetition_is_silent`, the state stored
/// for the device before place `upto` is the one reported at `first`.
proof fn lemma_stored_after(
    states: Map<Seq<char>, bool>,
    events: Seq<(Seq<char>, bool)>,
    first: int,
    upto: int,
)
    requires
        0 <= first < upto <= events.len(),
        forall|k: int|
            first < k < upto && events[k].0 == events[first].0 ==> events[k].1 == events[first].1,
    ensures
        last_known(run(states, events.take(upto)), events[first].0) == events[first].1,
    decreases upto,
{
    assert(events.take(upto).drop_last() == events.take(upto - 1));
    assert(events.take(upto).last() == events[upto - 1]);
    if upto - 1 > first {
        lemma_stored_after(states, events, first, upto - 1);
    }
}

/// The two names of the leak attribute count alike: a reading that sets one
/// of them to true and lacks the other reports a leak, and two such
/// readings that agree in every other attribute lead to the same stored
/// states and the same alert.
pub proof fn lemma_alternate_field(
    states: Map<Seq<char>, bool>,
    topic: Seq<char>,
    by_leak: SensorReading,
    by_water_leak: SensorReading,
)
    requires
        by_leak.leak == Some(true),
        by_leak.water_leak is None,
        by_water_leak.water_leak == Some(true),
        by_water_leak.leak is None,
        by_leak.battery_low == by_water_leak.battery_low,
        by_leak.battery == by_water_leak.battery,
        by_leak.tamper == by_water_leak.tamper,
        by_leak.linkquality == by_water_leak.linkquality,
        by_leak.voltage == by_water_leak.voltage,
    ensures
        by_leak.spec_leak_active(),
        by_water_leak.spec_leak_active(),
        next_states(states, device_of(topic), by_leak.spec_leak_active()) == next_states(
            states,
            device_of(topic),
            by_water_leak.spec_leak_active(),
        ),
        message_text(device_of(topic), topic, by_leak, true) == message_text(
            device_of(topic),
            topic,
            by_water_leak,
            true,
        ),
{
}

/// A payload that is no UTF-8 text or no JSON document leads to no alert
/// and leaves the state of every device as it was, whatever its topic.
pub proof fn lemma_malformed_is_silent(
    states: Map<Seq<char>, bool>,
    topic: Seq<char>,
    payload: Seq<u8>,
)
    requires
        !valid_utf8(payload) || document_of(decode_utf8(payload)) is None,
    ensures
        decode(topic, payload) is Err,
        alert_of(states, topic, payload) is None,
        states_after(states, topic, payload) == states,
{
}

/// A message on a topic of the bridge leads to no alert and leaves the
/// state of every device as it was, whatever its payload.
pub proof fn lemma_administrative_is_silent(
    states: Map<Seq<char>, bool>,
    topic: Seq<char>,
    payload: Seq<u8>,
)
    requires
        is_administrative(topic),
    ensures
        decode(topic, payload) is Err,
        alert_of(states, topic, payload) is None,
        states_after(states, topic, payload) == states,
{
}

} // verus!
