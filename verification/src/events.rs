//! The census push messages: subscriptions, the event records, and the
//! decisions that classify an incoming message.
use vstd::prelude::*;
use crate::json::{str_eq, JsonValue};

verus! {

/// A subscription request of the push service.
#[allow(non_snake_case)]
pub struct Subscribe {
    pub characters: Option<Vec<String>>,
    pub eventNames: Vec<String>,
    pub worlds: Vec<String>,
    pub logicalAndCharactersWithWorlds: bool,
}

/// A request that ends subscriptions of the push service.
#[allow(non_snake_case)]
pub struct ClearSubscribe {
    pub characters: Option<Vec<String>>,
    pub eventNames: Option<Vec<String>>,
    pub worlds: Option<Vec<String>>,
    pub logicalAndCharactersWithWorlds: bool,
}

/// A character gained experience.
#[derive(Clone, Debug, PartialEq)]
pub struct GainExperience {
    pub amount: u32,
    pub character_id: String,
    pub event_name: String,
    pub experience_id: u32,
    pub loadout_id: u32,
    pub other_id: String,
    pub timestamp: u64,
    pub world_id: u8,
    pub zone_id: u8,
}

/// A vehicle was destroyed.
#[derive(Clone, Debug, PartialEq)]
pub struct VehicleDestroy {
    pub attacker_character_id: String,
    pub attacker_loadout_id: u32,
    pub attacker_vehicle_id: u32,
    pub attacker_weapon_id: u32,
    pub character_id: String,
    pub event_name: String,
    pub facility_id: u32,
    pub faction_id: u8,
    pub timestamp: u64,
    pub vehicle_id: u32,
    pub world_id: u8,
    pub zone_id: u32,
}

/// A player died.
#[derive(Clone, Debug, PartialEq)]
pub struct PlayerDeath {
    pub attacker_character_id: String,
    pub attacker_fire_mode_id: u32,
    pub attacker_loadout_id: u32,
    pub attacker_vehicle_id: u32,
    pub attacker_weapon_id: u32,
    pub character_id: String,
    pub character_loadout_id: u32,
    pub event_name: String,
    pub is_headshot: u8,
    pub timestamp: u64,
    pub vehicle_id: u32,
    pub world_id: u8,
    pub zone_id: u8,
}

/// The service a message belongs to.
#[derive(Clone, Debug, PartialEq, Eq, Structural)]
pub enum Service {
    Event,
    Push,
}

/// The kind of a service message.
#[derive(Clone, Debug, PartialEq, Eq, Structural)]
pub enum Type {
    ServiceStateChanged,
    ServiceMessage,
    ConnectionStateChanged,
}

/// A message of the push service.
#[derive(Clone, Debug, PartialEq)]
pub enum Message {
    Subscription,
    SendThisForHelp,
    Service(ServiceMessage),
}

/// A message that carries an event.
#[derive(Clone, Debug, PartialEq)]
pub struct ServiceMessage {
    pub service: Service,
    pub type_: Type,
    pub payload: Event,
}

/// An event record.
#[derive(Clone, Debug, PartialEq)]
pub enum Event {
    GainExperience(GainExperience),
    PlayerDeath(PlayerDeath),
    VehicleDestroy(VehicleDestroy),
}

/// The kinds of event record.
#[derive(Debug, PartialEq, Eq, Structural)]
pub enum EventType {
    GainExperience,
    PlayerDeath,
    VehicleDestroy,
}

/// What decoding an event payload as each event record gave: `None` where
/// the payload does not have that record's fields and field types.
pub struct DecodedPayload {
    pub gain_experience: Option<GainExperience>,
    pub player_death: Option<PlayerDeath>,
    pub vehicle_destroy: Option<VehicleDestroy>,
}

/// Whether a zone id is one of the virtual-reality training zones.
pub fn zone_id_is_vr(zone_id: u32) -> (r: bool)
    ensures
        r <==> (zone_id == 96 || zone_id == 97 || zone_id == 98),
{
    match zone_id {
        96 | 97 | 98 => true,
        _ => false,
    }
}

/// The record kind that an `event_name` names.
pub open spec fn event_type_named(name: Seq<char>) -> Option<EventType> {
    if name == "GainExperience"@ {
        Some(EventType::GainExperience)
    } else if name == "Death"@ {
        Some(EventType::PlayerDeath)
    } else if name == "VehicleDestroy"@ {
        Some(EventType::VehicleDestroy)
    } else {
        None
    }
}

/// The record kind of an event payload: by its `event_name` field.
pub open spec fn event_type_of(event: JsonValue) -> Option<EventType> {
    match event.field("event_name"@) {
        Some(name) => match name.text() {
            Some(n) => event_type_named(n),
            None => None,
        },
        None => None,
    }
}

/// The payloads that `parse_event` cannot take: an `event_name` that is not a string.
pub open spec fn event_name_malformed(event: JsonValue) -> bool {
    event.field("event_name"@) matches Some(name) && !name.is_string()
}

/// The event that `parse_event` gives.
pub open spec fn parsed_event(event: JsonValue, decoded: DecodedPayload) -> Option<Event> {
    match event_type_of(event) {
        Some(EventType::GainExperience) => match decoded.gain_experience {
            Some(g) => Some(Event::GainExperience(g)),
            None => None,
        },
        Some(EventType::PlayerDeath) => match decoded.player_death {
            Some(p) => Some(Event::PlayerDeath(p)),
            None => None,
        },
        Some(EventType::VehicleDestroy) => match decoded.vehicle_destroy {
            Some(v) => Some(Event::VehicleDestroy(v)),
            None => None,
        },
        None => None,
    }
}

/// The kind of an event record.
pub open spec fn kind_of(ev: Event) -> EventType {
    match ev {
        Event::GainExperience(_) => EventType::GainExperience,
        Event::PlayerDeath(_) => EventType::PlayerDeath,
        Event::VehicleDestroy(_) => EventType::VehicleDestroy,
    }
}

/// An event read from a payload is of the kind that the payload's
/// `event_name` names, whatever the decodings gave.
pub proof fn lemma_event_kind_follows_name(event: JsonValue, decoded: DecodedPayload)
    ensures
        parsed_event(event, decoded) matches Some(ev) ==> event_type_of(event) == Some(kind_of(ev)),
        event_type_of(event) is None ==> parsed_event(event, decoded) is None,
{
}

/// A message read by `parse_message` is an event service message, and its
/// payload is the event read from the message's `payload` field.
pub proof fn lemma_message_carries_payload_event(message: JsonValue, decoded: DecodedPayload)
    ensures
        parsed_message(message, decoded) matches Some(m) ==> {
            &&& is_event_service_message(message)
            &&& m matches Message::Service(sm) && sm.service == Service::Event && sm.type_
                == Type::ServiceMessage && parsed_event(message.field("payload"@).unwrap(), decoded)
                == Some(sm.payload)
        },
{
}

/// The record kind of an event payload, by its `event_name` field.
pub fn event_type(event: &JsonValue) -> (r: Option<EventType>)
    requires
        !event_name_malformed(*event),
    ensures
        r == event_type_of(*event),
{
    match event.get("event_name") {
        Some(name) => {
            let n = name.as_str().unwrap();
            if str_eq(n, "GainExperience") {
                Some(EventType::GainExperience)
            } else if str_eq(n, "Death") {
                Some(EventType::PlayerDeath)
            } else if str_eq(n, "VehicleDestroy") {
                Some(EventType::VehicleDestroy)
            } else {
                None
            }
        },
        None => None,
    }
}

/// The event record of a payload: the kind that its `event_name` names,
/// taken from what decoding the payload as that kind gave.
pub fn parse_event(event: &JsonValue, decoded: DecodedPayload) -> (r: Option<Event>)
    requires
        !event_name_malformed(*event),
    ensures
        r == parsed_event(*event, decoded),
{
    match event_type(event) {
        Some(EventType::GainExperience) => match decoded.gain_experience {
            Some(g) => Some(Event::GainExperience(g)),
            None => None,
        },
        Some(EventType::PlayerDeath) => match decoded.player_death {
            Some(p) => Some(Event::PlayerDeath(p)),
            None => None,
        },
        Some(EventType::VehicleDestroy) => match decoded.vehicle_destroy {
            Some(v) => Some(Event::VehicleDestroy(v)),
            None => None,
        },
        None => None,
    }
}

/// Whether a message is an event service message: its `service` is
/// "event" and its `type` is "serviceMessage".
pub open spec fn is_event_service_message(message: JsonValue) -> bool {
    &&& message.field("service"@) matches Some(s) && s.text() == Some("event"@)
    &&& message.field("type"@) matches Some(t) && t.text() == Some("serviceMessage"@)
}

/// The messages that `parse_message` cannot take: with both a `service` and
/// a `type` field, a `service` that is no string; a `service` "event" with a
/// `type` that is no string; or an event service message without a
/// `payload`, or with one whose `event_name` is no string.
pub open spec fn message_malformed(message: JsonValue) -> bool {
    &&& message.field("service"@) is Some
    &&& message.field("type"@) is Some
    &&& {
        ||| !message.field("service"@).unwrap().is_string()
        ||| (message.field("service"@).unwrap().text() == Some("event"@)
            && !message.field("type"@).unwrap().is_string())
        ||| (is_event_service_message(message) && match message.field("payload"@) {
            Some(p) => event_name_malformed(p),
            None => true,
        })
    }
}

/// The message that `parse_message` gives.
pub open spec fn parsed_message(message: JsonValue, decoded: DecodedPayload) -> Option<Message> {
    if is_event_service_message(message) {
        match parsed_event(message.field("payload"@).unwrap(), decoded) {
            Some(ev) => Some(
                Message::Service(
                    ServiceMessage { service: Service::Event, type_: Type::ServiceMessage, payload: ev },
                ),
            ),
            None => None,
        }
    } else {
        None
    }
}

/// Whether a JSON value is an object whose field `key` is the string `text`.
pub open spec fn has_text_field(v: JsonValue, key: Seq<char>, text: Seq<char>) -> bool {
    v.field(key) matches Some(f) && f.text() == Some(text)
}

/// An event payload names its kind by `event_name`, and its event is what
/// decoding it as that kind gave: "GainExperience" gives the experience
/// record, "Death" the death record, "VehicleDestroy" the destruction record.
pub proof fn lemma_event_by_name(event: JsonValue, decoded: DecodedPayload)
    ensures
        has_text_field(event, "event_name"@, "GainExperience"@) ==> parsed_event(event, decoded)
            == (match decoded.gain_experience {
            Some(g) => Some(Event::GainExperience(g)),
            None => None,
        }),
        has_text_field(event, "event_name"@, "Death"@) ==> parsed_event(event, decoded) == (
        match decoded.player_death {
            Some(p) => Some(Event::PlayerDeath(p)),
            None => None,
        }),
        has_text_field(event, "event_name"@, "VehicleDestroy"@) ==> parsed_event(event, decoded)
            == (match decoded.vehicle_destroy {
            Some(v) => Some(Event::VehicleDestroy(v)),
            None => None,
        }),
{
    reveal_strlit("GainExperience");
    reveal_strlit("Death");
    reveal_strlit("VehicleDestroy");
    assert("Death"@.len() != "GainExperience"@.len());
    assert("VehicleDestroy"@[0] != "GainExperience"@[0]);
    assert("VehicleDestroy"@.len() != "Death"@.len());
}

/// A push message with `service` "event" and `type` "serviceMessage"
/// carries the event of its payload, whatever its kind: the message read is
/// that event, and there is one exactly when the payload gives an event.
/// Any other message gives nothing.
pub proof fn lemma_message_by_payload(message: JsonValue, decoded: DecodedPayload)
    ensures
        (has_text_field(message, "service"@, "event"@) && has_text_field(
            message,
            "type"@,
            "serviceMessage"@,
        ) && message.field("payload"@) is Some) ==> parsed_message(message, decoded) == (match parsed_event(
            message.field("payload"@).unwrap(),
            decoded,
        ) {
            Some(ev) => Some(
                Message::Service(
                    ServiceMessage { service: Service::Event, type_: Type::ServiceMessage, payload: ev },
                ),
            ),
            None => None,
        }),
        !(has_text_field(message, "service"@, "event"@) && has_text_field(
            message,
            "type"@,
            "serviceMessage"@,
        )) ==> parsed_message(message, decoded) is None,
{
}

/// In particular, an event service message whose payload is named
/// "GainExperience" and decodes as an experience record `g` reads as the
/// service message carrying `g`; likewise for "Death" and "VehicleDestroy".
pub proof fn lemma_message_of_each_kind(message: JsonValue, decoded: DecodedPayload)
    requires
        has_text_field(message, "service"@, "event"@),
        has_text_field(message, "type"@, "serviceMessage"@),
        message.field("payload"@) is Some,
    ensures
        has_text_field(message.field("payload"@).unwrap(), "event_name"@, "GainExperience"@) ==> (
        decoded.gain_experience matches Some(g) ==> parsed_message(message, decoded) == Some(
            Message::Service(
                ServiceMessage {
                    service: Service::Event,
                    type_: Type::ServiceMessage,
                    payload: Event::GainExperience(g),
                },
            ),
        )),
        has_text_field(message.field("payload"@).unwrap(), "event_name"@, "Death"@) ==> (
        decoded.player_death matches Some(p) ==> parsed_message(message, decoded) == Some(
            Message::Service(
                ServiceMessage {
                    service: Service::Event,
                    type_: Type::ServiceMessage,
                    payload: Event::PlayerDeath(p),
                },
            ),
        )),
        has_text_field(message.field("payload"@).unwrap(), "event_name"@, "VehicleDestroy"@) ==> (
        decoded.vehicle_destroy matches Some(v) ==> parsed_message(message, decoded) == Some(
            Message::Service(
                ServiceMessage {
                    service: Service::Event,
                    type_: Type::ServiceMessage,
                    payload: Event::VehicleDestroy(v),
                },
            ),
        )),
{
    lemma_event_by_name(message.field("payload"@).unwrap(), decoded);
    lemma_message_by_payload(message, decoded);
}

/// Whether a message is one that `parse_message` cannot take (see
/// [`message_malformed`]).
pub fn is_malformed_message(message: &JsonValue) -> (r: bool)
    ensures
        r == message_malformed(*message),
{
    match (message.get("service"), message.get("type")) {
        (Some(service), Some(type_)) => match service.as_str() {
            None => true,
            Some(s) => {
                if !str_eq(s, "event") {
                    false
                } else {
                    match type_.as_str() {
                        None => true,
                        Some(t) => {
                            if !str_eq(t, "serviceMessage") {
                                false
                            } else {
                                match message.get("payload") {
                                    None => true,
                                    Some(p) => match p.get("event_name") {
                                        Some(name) => name.as_str().is_none(),
                                        None => false,
                                    },
                                }
                            }
                        },
                    }
                }
            },
        },
        _ => false,
    }
}

/// Whether a message has both a `service` and a `type` field.
pub fn has_service_and_type(message: &JsonValue) -> (r: bool)
    ensures
        r == (message.field("service"@) is Some && message.field("type"@) is Some),
{
    message.get("service").is_some() && message.get("type").is_some()
}

/// The payload of an event service message (`service` "event", `type`
/// "serviceMessage"); `None` for any other message.
pub fn event_service_payload(message: &JsonValue) -> (r: Option<&JsonValue>)
    requires
        !message_malformed(*message),
    ensures
        r is Some <==> is_event_service_message(*message),
        r matches Some(p) ==> message.field("payload"@) == Some(*p) && !event_name_malformed(*p),
{
    match (message.get("service"), message.get("type")) {
        (Some(service), Some(type_)) => {
            if str_eq(service.as_str().unwrap(), "event") && str_eq(
                type_.as_str().unwrap(),
                "serviceMessage",
            ) {
                Some(message.get("payload").unwrap())
            } else {
                None
            }
        },
        _ => None,
    }
}

/// Reads a push message: an event service message whose payload is an event
/// record becomes that event; anything else gives `None`. `decoded` is what
/// decoding the message's `payload` as each event record gave.
pub fn parse_message(message: &JsonValue, decoded: DecodedPayload) -> (r: Option<Message>)
    requires
        !message_malformed(*message),
    ensures
        r == parsed_message(*message, decoded),
{
    match event_service_payload(message) {
        Some(event) => match parse_event(event, decoded) {
            Some(ev) => Some(
                Message::Service(
                    ServiceMessage { service: Service::Event, type_: Type::ServiceMessage, payload: ev },
                ),
            ),
            None => None,
        },
        None => None,
    }
}

} // verus!
