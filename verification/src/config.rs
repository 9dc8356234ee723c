use crate::text::{parse_signed, parse_unsigned, signed_of, unsigned_of};
use vstd::prelude::*;

verus! {

/// The port of the bus where none is given, or none that can be read.
pub const DEFAULT_PORT: u16 = 1883;

/// What the bridge needs to know before it starts.
#[derive(Debug, PartialEq, Eq)]
pub struct Settings {
    /// The credential of the notification channel.
    pub bot_token: String,
    /// The chat that alerts go to.
    pub chat_id: i64,
    /// The host of the bus.
    pub mqtt_host: String,
    /// The port of the bus.
    pub mqtt_port: u16,
    /// The topic filter to subscribe to.
    pub mqtt_topic: String,
}

/// Why the bridge cannot start.
#[derive(Clone, Copy, Debug, PartialEq, Eq)]
pub enum SettingsError {
    /// No credential of the notification channel is given.
    MissingBotToken,
    /// No chat is given.
    MissingChatId,
    /// The chat given is no integer of 64 bits.
    ChatIdNotInteger,
}

/// The host of the bus where none is given.
pub open spec fn default_host() -> Seq<char> {
    "127.0.0.1"@
}

/// The topic filter where none is given: everything under the root.
pub open spec fn default_topic() -> Seq<char> {
    "zigbee2mqtt/#"@
}

/// The text given, or `fallback` where none is.
pub open spec fn text_or(given: Option<String>, fallback: Seq<char>) -> Seq<char> {
    match given {
        Some(text) => text@,
        None => fallback,
    }
}

/// The port that a setting stands for: the number it writes, and
/// `DEFAULT_PORT` where it is missing or writes no port.
pub open spec fn port_of(given: Option<String>) -> u16 {
    match given {
        Some(text) => match unsigned_of(text@, 0xffff) {
            Some(port) => port as u16,
            None => DEFAULT_PORT,
        },
        None => DEFAULT_PORT,
    }
}

/// The error that the given settings call for, if any. The credential is
/// looked at first, then the chat.
pub open spec fn settings_error(bot_token: Option<String>, chat_id: Option<String>) -> Option<
    SettingsError,
> {
    match (bot_token, chat_id) {
        (None, _) => Some(SettingsError::MissingBotToken),
        (Some(_), None) => Some(SettingsError::MissingChatId),
        (Some(_), Some(chat)) => if signed_of(chat@) is None {
            Some(SettingsError::ChatIdNotInteger)
        } else {
            None
        },
    }
}

fn or_default(given: Option<String>, fallback: &str) -> (text: String)
    ensures
        text@ == text_or(given, fallback@),
{
    match given {
        Some(text) => text,
        None => fallback.to_owned(),
    }
}

/// The port that `given` stands for.
pub fn resolve_port(given: &Option<String>) -> (port: u16)
    ensures
        port == port_of(*given),
{
    match given {
        Some(text) => match parse_unsigned(text.as_str(), 0xffff) {
            Some(port) => port as u16,
            None => DEFAULT_PORT,
        },
        None => DEFAULT_PORT,
    }
}

/// Settles the settings from what the surroundings give: the credential
/// and the chat must be there, the rest has defaults.
pub fn resolve(
    bot_token: Option<String>,
    chat_id: Option<String>,
    mqtt_host: Option<String>,
    mqtt_port: Option<String>,
    mqtt_topic: Option<String>,
) -> (settings: Result<Settings, SettingsError>)
    ensures
        match settings {
            Ok(found) => {
                &&& settings_error(bot_token, chat_id) is None
                &&& bot_token matches Some(token) && found.bot_token@ == token@
                &&& chat_id matches Some(chat) && signed_of(chat@) == Some(found.chat_id as int)
                &&& found.mqtt_host@ == text_or(mqtt_host, default_host())
                &&& found.mqtt_port == port_of(mqtt_port)
                &&& found.mqtt_topic@ == text_or(mqtt_topic, default_topic())
            },
            Err(error) => settings_error(bot_token, chat_id) == Some(error),
        },
{
    let token = match bot_token {
        Some(token) => token,
        None => {
            return Err(SettingsError::MissingBotToken);
        },
    };
    let chat = match chat_id {
        Some(chat) => chat,
        None => {
            return Err(SettingsError::MissingChatId);
        },
    };
    let chat_number = match parse_signed(chat.as_str()) {
        Some(number) => number,
        None => {
            return Err(SettingsError::ChatIdNotInteger);
        },
    };
    let port = resolve_port(&mqtt_port);
    Ok(
        Settings {
            bot_token: token,
            chat_id: chat_number,
            mqtt_host: or_default(mqtt_host, "127.0.0.1"),
            mqtt_port: port,
            mqtt_topic: or_default(mqtt_topic, "zigbee2mqtt/#"),
        },
    )
}

} // verus!
