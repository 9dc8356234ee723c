use crate::reading::SensorReading;
use crate::text::{decimal, decimal_string};
use crate::topic::{place_of, pretty_place};
use vstd::prelude::*;
use vstd::string::StringExecFns;

verus! {

/// The first line of an alert: water found, or water gone.
pub open spec fn status_line(leak: bool) -> Seq<char> {
    if leak {
        "💧 УТЕЧКА ОБНАРУЖЕНА!"@
    } else {
        "✅ Утечка устранена / воды нет"@
    }
}

/// The battery charge in percent, or `?%` where it is not known.
pub open spec fn battery_text(battery: Option<u8>) -> Seq<char> {
    match battery {
        Some(percent) => decimal(percent as nat) + "%"@,
        None => "?%"@,
    }
}

/// The battery warning as a word.
pub open spec fn battery_low_text(battery_low: Option<bool>) -> Seq<char> {
    match battery_low {
        Some(true) => "Да"@,
        Some(false) => "Нет"@,
        None => "Нет данных"@,
    }
}

/// The tamper switch as a word.
pub open spec fn tamper_text(tamper: Option<bool>) -> Seq<char> {
    match tamper {
        Some(true) => "⚠️ Датчик трогали/вскрывали"@,
        Some(false) => "Ок"@,
        None => "Нет данных"@,
    }
}

/// A number in base ten, or `?` where it is not known.
pub open spec fn count_text(count: Option<u16>) -> Seq<char> {
    match count {
        Some(n) => decimal(n as nat),
        None => "?"@,
    }
}

/// The text of the alert for `device`, whose reading came on `topic` and
/// whose leak state is now `leak`.
pub open spec fn message_text(
    device: Seq<char>,
    topic: Seq<char>,
    reading: SensorReading,
    leak: bool,
) -> Seq<char> {
    status_line(leak) + "\nМесто: "@ + place_of(device) + "\nУстройство: "@ + device
        + "\nТопик: "@ + topic + "\n\n🔋 Батарея: "@ + battery_text(reading.battery)
        + " (battery_low: "@ + battery_low_text(reading.battery_low) + ", "@ + count_text(
        reading.voltage,
    ) + " mV)\n📶 Связь: "@ + count_text(reading.linkquality) + " lqi\n🔧 Тампер: "@
        + tamper_text(reading.tamper)
}

fn battery_string(battery: Option<u8>) -> (text: String)
    ensures
        text@ == battery_text(battery),
{
    match battery {
        Some(percent) => {
            let mut text = decimal_string(percent as u64);
            text.append("%");
            text
        },
        None => "?%".to_owned(),
    }
}

fn count_string(count: Option<u16>) -> (text: String)
    ensures
        text@ == count_text(count),
{
    match count {
        Some(n) => decimal_string(n as u64),
        None => "?".to_owned(),
    }
}

fn battery_low_word(battery_low: Option<bool>) -> (text: &'static str)
    ensures
        text@ == battery_low_text(battery_low),
{
    match battery_low {
        Some(true) => "Да",
        Some(false) => "Нет",
        None => "Нет данных",
    }
}

fn tamper_word(tamper: Option<bool>) -> (text: &'static str)
    ensures
        text@ == tamper_text(tamper),
{
    match tamper {
        Some(true) => "⚠️ Датчик трогали/вскрывали",
        Some(false) => "Ок",
        None => "Нет данных",
    }
}

/// Writes the alert for `device`.
pub fn build_message(device: &str, topic: &str, d: &SensorReading, leak: bool) -> (text: String)
    ensures
        text@ == message_text(device@, topic@, *d, leak),
{
    let battery = battery_string(d.battery);
    let voltage = count_string(d.voltage);
    let lqi = count_string(d.linkquality);
    let mut text = if leak {
        "💧 УТЕЧКА ОБНАРУЖЕНА!".to_owned()
    } else {
        "✅ Утечка устранена / воды нет".to_owned()
    };
    text.append("\nМесто: ");
    text.append(pretty_place(device));
    text.append("\nУстройство: ");
    text.append(device);
    text.append("\nТопик: ");
    text.append(topic);
    text.append("\n\n🔋 Батарея: ");
    text.append(battery.as_str());
    text.append(" (battery_low: ");
    text.append(battery_low_word(d.battery_low));
    text.append(", ");
    text.append(voltage.as_str());
    text.append(" mV)\n📶 Связь: ");
    text.append(lqi.as_str());
    text.append(" lqi\n🔧 Тампер: ");
    text.append(tamper_word(d.tamper));
    text
}

} // verus!
