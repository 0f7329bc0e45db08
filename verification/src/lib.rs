//! Planetside 2 event-stream logic: the census push messages, character
//! lookups, and the state behind the kill overlay and the ops bot.
pub mod character;
pub mod events;
pub mod feed;
pub mod json;
pub mod ops;
pub mod overlay;
pub mod text;

pub use character::{
    character_from_reply, character_url, BattleRank, CensusReply, Certs, Character,
    CharacterReturn, DailyRibbon, Error, HttpError, Name, Times,
};
pub use events::{
    event_service_payload, event_type, has_service_and_type, is_malformed_message, parse_event, parse_message, zone_id_is_vr, ClearSubscribe, DecodedPayload, Event,
    EventType, GainExperience, Message, PlayerDeath, Service, ServiceMessage, Subscribe, Type,
    VehicleDestroy,
};
pub use feed::FeedBuffer;
pub use json::{read_json, JsonError, JsonValue};
pub use ops::{gunner_kill_text, parse_message_command, CommandParse, CommandType, OpsChannels};
pub use overlay::{
    pretty_time, render_kills, tracked_vehicle_destroy, tracks_vehicle_destroy,
    vehicle_destroy_events, vehicle_destroy_subscription, vehicle_name, Faction, MatchState, Server,
    UIEvent,
};
