use planetside::{
    character_from_reply, character_url, gunner_kill_text, parse_event, parse_message,
    parse_message_command, pretty_time, render_kills, tracked_vehicle_destroy,
    tracks_vehicle_destroy, vehicle_destroy_events, vehicle_destroy_subscription, vehicle_name,
    zone_id_is_vr, BattleRank, CensusReply, Certs, Character, CharacterReturn, CommandParse,
    CommandType, DailyRibbon, DecodedPayload, Error, Event, EventType, Faction, FeedBuffer,
    GainExperience, HttpError, JsonError, JsonValue, MatchState, Message, Name, OpsChannels,
    PlayerDeath, Server, Service, ServiceMessage, Times, Type, UIEvent, VehicleDestroy,
};

fn s(x: &str) -> String {
    x.to_string()
}

fn obj(entries: Vec<(&str, JsonValue)>) -> JsonValue {
    JsonValue::Object(entries.into_iter().map(|(k, v)| (s(k), v)).collect())
}

fn jstr(x: &str) -> JsonValue {
    JsonValue::String(s(x))
}

fn vehicle_destroy(vehicle_id: u32, zone_id: u32) -> VehicleDestroy {
    VehicleDestroy {
        attacker_character_id: s("111"),
        attacker_loadout_id: 4,
        attacker_vehicle_id: 0,
        attacker_weapon_id: 80,
        character_id: s("222"),
        event_name: s("VehicleDestroy"),
        facility_id: 0,
        faction_id: 3,
        timestamp: 1500000000,
        vehicle_id,
        world_id: 19,
        zone_id,
    }
}

fn gain_experience() -> GainExperience {
    GainExperience {
        amount: 10,
        character_id: s("111"),
        event_name: s("GainExperience"),
        experience_id: 314,
        loadout_id: 4,
        other_id: s("222"),
        timestamp: 1500000000,
        world_id: 17,
        zone_id: 2,
    }
}

fn player_death() -> PlayerDeath {
    PlayerDeath {
        attacker_character_id: s("111"),
        attacker_fire_mode_id: 1,
        attacker_loadout_id: 4,
        attacker_vehicle_id: 0,
        attacker_weapon_id: 80,
        character_id: s("222"),
        character_loadout_id: 5,
        event_name: s("Death"),
        is_headshot: 1,
        timestamp: 1500000000,
        vehicle_id: 0,
        world_id: 17,
        zone_id: 2,
    }
}

fn character(id: &str, first: &str, faction_id: u8) -> Character {
    Character {
        character_id: s(id),
        name: Name { first: s(first), first_lower: first.to_lowercase() },
        faction_id,
        head_id: 1,
        title_id: 0,
        times: Times {
            creation: 1,
            creation_date: s("2013-01-01"),
            last_save: 2,
            last_save_date: s("2017-01-01"),
            last_login: 3,
            last_login_date: s("2017-01-01"),
            login_count: 4,
            minutes_played: 5,
        },
        certs: Certs {
            earned_points: 1,
            gifted_points: 2,
            spent_points: 3,
            available_points: 4,
            percent_to_next_bits: 0.5f32.to_bits(),
        },
        battle_rank: BattleRank { percent_to_next: 50, value: 100 },
        profile_id: 7,
        daily_ribbon: DailyRibbon { count: 0, time: 0, date: s("2017-01-01") },
    }
}

fn no_decodings() -> DecodedPayload {
    DecodedPayload { gain_experience: None, player_death: None, vehicle_destroy: None }
}

fn all_decodings() -> DecodedPayload {
    DecodedPayload {
        gain_experience: Some(gain_experience()),
        player_death: Some(player_death()),
        vehicle_destroy: Some(vehicle_destroy(4, 2)),
    }
}

fn event_message(event_name: &str) -> JsonValue {
    obj(vec![
        ("payload", obj(vec![("event_name", jstr(event_name)), ("vehicle_id", JsonValue::Number(s("4")))])),
        ("service", jstr("event")),
        ("type", jstr("serviceMessage")),
    ])
}

#[test]
fn vr_zones_are_96_to_98() {
    assert!(zone_id_is_vr(96));
    assert!(zone_id_is_vr(97));
    assert!(zone_id_is_vr(98));
    assert!(!zone_id_is_vr(95));
    assert!(!zone_id_is_vr(99));
    assert!(!zone_id_is_vr(2));
}

#[test]
fn json_get_takes_first_entry_and_only_objects() {
    let v = obj(vec![("a", jstr("x")), ("a", jstr("y")), ("b", JsonValue::Null)]);
    assert_eq!(v.get("a").and_then(|x| x.as_str()), Some("x"));
    assert!(matches!(v.get("b"), Some(JsonValue::Null)));
    assert!(v.get("c").is_none());
    assert!(jstr("a").get("a").is_none());
    assert_eq!(JsonValue::Bool(true).as_str(), None);
}

#[test]
fn parse_event_follows_event_name() {
    let ev = |name: &str| obj(vec![("event_name", jstr(name))]);
    assert_eq!(
        parse_event(&ev("GainExperience"), all_decodings()),
        Some(Event::GainExperience(gain_experience()))
    );
    assert_eq!(parse_event(&ev("Death"), all_decodings()), Some(Event::PlayerDeath(player_death())));
    assert_eq!(
        parse_event(&ev("VehicleDestroy"), all_decodings()),
        Some(Event::VehicleDestroy(vehicle_destroy(4, 2)))
    );
    assert_eq!(parse_event(&ev("PlayerLogin"), all_decodings()), None);
    assert_eq!(parse_event(&ev("PlayerDeath"), all_decodings()), None);
}

#[test]
fn parse_event_needs_object_with_event_name_and_decoding() {
    assert_eq!(parse_event(&obj(vec![("character_id", jstr("1"))]), all_decodings()), None);
    assert_eq!(parse_event(&JsonValue::Array(vec![]), all_decodings()), None);
    assert_eq!(parse_event(&jstr("GainExperience"), all_decodings()), None);
    assert_eq!(parse_event(&obj(vec![("event_name", jstr("Death"))]), no_decodings()), None);
}

#[test]
fn event_type_by_name() {
    assert_eq!(planetside::event_type(&obj(vec![("event_name", jstr("Death"))])), Some(EventType::PlayerDeath));
    assert_eq!(planetside::event_type(&obj(vec![])), None);
}

#[test]
fn parse_message_reads_event_service_messages() {
    let m = parse_message(&event_message("VehicleDestroy"), all_decodings());
    assert_eq!(
        m,
        Some(Message::Service(ServiceMessage {
            service: Service::Event,
            type_: Type::ServiceMessage,
            payload: Event::VehicleDestroy(vehicle_destroy(4, 2)),
        }))
    );
}

#[test]
fn parse_message_drops_other_messages() {
    let heartbeat = obj(vec![("service", jstr("event")), ("type", jstr("heartbeat"))]);
    assert_eq!(parse_message(&heartbeat, all_decodings()), None);
    let push = obj(vec![("service", jstr("push")), ("type", JsonValue::Number(s("1")))]);
    assert_eq!(parse_message(&push, all_decodings()), None);
    let no_type = obj(vec![("service", jstr("event")), ("payload", obj(vec![]))]);
    assert_eq!(parse_message(&no_type, all_decodings()), None);
    assert_eq!(parse_message(&jstr("hello"), all_decodings()), None);
    let subscription = obj(vec![("subscription", obj(vec![]))]);
    assert_eq!(parse_message(&subscription, all_decodings()), None);
    assert_eq!(parse_message(&event_message("FacilityControl"), all_decodings()), None);
    assert_eq!(parse_message(&event_message("VehicleDestroy"), no_decodings()), None);
}

#[test]
fn character_url_appends_id() {
    assert_eq!(
        character_url("5428010618015189713"),
        "http://census.daybreakgames.com/s:scrmopsbot/get/ps2:v2/character?character_id=5428010618015189713"
    );
}

#[test]
fn lookup_gives_the_single_character() {
    let body = CharacterReturn::new(vec![character("5", "Alpha", 2)], 1);
    let r = character_from_reply("5", Ok(CensusReply { status: 200, body: Some(Ok(body)) }));
    assert_eq!(r, Ok(character("5", "Alpha", 2)));
}

#[test]
fn lookup_errors() {
    let none = CharacterReturn::new(vec![], 0);
    assert_eq!(
        character_from_reply("5", Ok(CensusReply { status: 200, body: Some(Ok(none)) })),
        Err(Error::NoCharacter(s("5")))
    );
    let two = CharacterReturn::new(vec![character("5", "A", 1), character("6", "B", 2)], 2);
    assert_eq!(
        character_from_reply("5", Ok(CensusReply { status: 200, body: Some(Ok(two)) })),
        Err(Error::NoCharacter(s("5")))
    );
    let bad = JsonError { message: s("missing field `character_list`") };
    assert_eq!(
        character_from_reply("5", Ok(CensusReply { status: 200, body: Some(Err(bad)) })),
        Err(Error::Json(JsonError { message: s("missing field `character_list`") }))
    );
    assert_eq!(
        character_from_reply("5", Ok(CensusReply { status: 503, body: None })),
        Err(Error::Server(503))
    );
    assert_eq!(
        character_from_reply("5", Err(HttpError { message: s("connection refused") })),
        Err(Error::Hyper(HttpError { message: s("connection refused") }))
    );
}

#[test]
fn feed_shows_newest_first_up_to_size() {
    let mut f = FeedBuffer::new(3);
    assert_eq!(f.render(), "");
    f.add_string(s("a"));
    assert_eq!(f.render(), "a\n");
    f.add_string(s("b"));
    f.add_string(s("c"));
    assert_eq!(f.render(), "c\nb\na\n");
    f.add_string(s("d"));
    assert_eq!(f.render(), "d\nc\nb\n");
    f.add_string(s("e"));
    f.add_string(s("f"));
    f.add_string(s("g"));
    assert_eq!(f.render(), "g\nf\ne\n");
}

#[test]
fn feed_of_one_line() {
    let mut f = FeedBuffer::new(1);
    f.add_string(s("a"));
    f.add_string(s("b"));
    assert_eq!(f.render(), "b\n");
}

#[test]
fn feed_clear_shows_nothing() {
    let mut f = FeedBuffer::new(2);
    f.add_string(s("a"));
    f.add_string(s("b"));
    f.clear();
    assert_eq!(f.render(), "");
}

#[test]
fn feed_after_clear_shows_stored_slots() {
    let mut f = FeedBuffer::new(10);
    f.add_string(s("a"));
    f.add_string(s("b"));
    f.clear();
    f.add_string(s("c"));
    assert_eq!(f.render(), "a\n");
}

#[test]
fn pretty_time_pads_seconds() {
    assert_eq!(pretty_time(0), "0:00");
    assert_eq!(pretty_time(5), "0:05");
    assert_eq!(pretty_time(125), "2:05");
    assert_eq!(pretty_time(900), "15:00");
    assert_eq!(pretty_time(3599), "59:59");
    assert_eq!(pretty_time(36000), "600:00");
}

#[test]
fn render_kills_of_empty_tally() {
    let t = [[0u32; 16]; 4];
    let expected = "             VS  NC  TR\n\
Flash          0   0   0\n\
Sunderer       0   0   0\n\
Lightning      0   0   0\n\
MBT            0   0   0\n\
ESF            0   0   0\n\
Liberator      0   0   0\n\
Galaxy         0   0   0\n\
Harasser       0   0   0\n\
Drop Pod       0   0   0\n\
Valkyrie       0   0   0\n\
ANT            0   0   0\n";
    assert_eq!(render_kills(&t), expected);
}

#[test]
fn render_kills_sums_enemy_tanks_and_fighters() {
    let mut t = [[0u32; 16]; 4];
    t[1][5] = 2;
    t[1][6] = 3;
    t[1][4] = 100;
    t[2][4] = 1;
    t[2][6] = 1;
    t[3][4] = 7;
    t[3][5] = 1000;
    t[1][8] = 1;
    t[1][9] = 1;
    t[2][7] = 4;
    t[3][8] = 12;
    t[2][1] = 42;
    t[3][15] = 1234;
    let r = render_kills(&t);
    let lines: Vec<&str> = r.lines().collect();
    assert_eq!(lines[1], "Flash          0  42   0");
    assert_eq!(lines[4], "MBT            5   2 1007");
    assert_eq!(lines[5], "ESF            2   4  12");
    assert_eq!(lines[11], "ANT            0   0 1234");
}

#[test]
fn faction_and_server_names() {
    assert_eq!(Faction::NS.to_string(), "NS");
    assert_eq!(Faction::VS.to_string(), "VS");
    assert_eq!(Faction::NC.to_string(), "NC");
    assert_eq!(Faction::TR.to_string(), "TR");
    assert_eq!(Faction::from_dropdown(0), Faction::VS);
    assert_eq!(Faction::from_dropdown(1), Faction::NC);
    assert_eq!(Faction::from_dropdown(2), Faction::TR);
    let names: Vec<String> = (0..6).map(|i| Server::from_index(i).to_string()).collect();
    assert_eq!(names, vec!["Connery", "Miller", "Cobalt", "Emerald", "Jaeger", "Briggs"]);
    let nums: Vec<String> = (0..6).map(|i| Server::from_index(i).get_server_num()).collect();
    assert_eq!(nums, vec!["1", "10", "13", "17", "19", "25"]);
}

#[test]
fn vehicle_names() {
    assert_eq!(vehicle_name(0), "");
    assert_eq!(vehicle_name(1), "Flash");
    assert_eq!(vehicle_name(13), "Drop Pod");
    assert_eq!(vehicle_name(15), "ANT");
}

#[test]
fn vehicle_destroys_outside_vr_with_known_vehicles_count() {
    assert!(tracks_vehicle_destroy(&vehicle_destroy(4, 2)));
    assert!(tracks_vehicle_destroy(&vehicle_destroy(15, 8)));
    assert!(!tracks_vehicle_destroy(&vehicle_destroy(16, 2)));
    assert!(!tracks_vehicle_destroy(&vehicle_destroy(4, 96)));
    let sm = |payload| ServiceMessage { service: Service::Event, type_: Type::ServiceMessage, payload };
    assert_eq!(
        tracked_vehicle_destroy(sm(Event::VehicleDestroy(vehicle_destroy(4, 2)))),
        Some(vehicle_destroy(4, 2))
    );
    assert_eq!(tracked_vehicle_destroy(sm(Event::VehicleDestroy(vehicle_destroy(4, 98)))), None);
    assert_eq!(tracked_vehicle_destroy(sm(Event::GainExperience(gain_experience()))), None);
}

#[test]
fn vehicle_destroy_feed_line_and_score() {
    let events = vehicle_destroy_events(
        &vehicle_destroy(4, 2),
        &character("111", "Attacker", 2),
        &character("222", "Victim", 3),
    );
    assert_eq!(
        events,
        vec![UIEvent::Feed(s("Attacker destroyed Victim's Magrider")), UIEvent::Score(2, 3, 4)]
    );
}

#[test]
fn subscription_for_a_server() {
    let sub = vehicle_destroy_subscription(Server::Jaeger);
    assert_eq!(sub.characters, Some(vec![s("all")]));
    assert_eq!(sub.eventNames, vec![s("VehicleDestroy")]);
    assert_eq!(sub.worlds, vec![s("19")]);
    assert!(sub.logicalAndCharactersWithWorlds);
}

#[test]
fn match_ignores_events_before_start() {
    let mut m = MatchState::new();
    m.handle_event(UIEvent::Score(1, 2, 5));
    m.handle_event(UIEvent::Feed(s("x")));
    assert_eq!(m.feed_text(), "");
    assert_eq!(m.tally_text(), render_kills(&[[0u32; 16]; 4]));
    assert_eq!(m.status_text(), "MATCH NOT STARTED");
    assert_eq!(m.timer_text(42), "0:00");
}

#[test]
fn match_counts_while_running() {
    let mut m = MatchState::new();
    m.start();
    assert_eq!(m.status_text(), "MATCH RUNNING");
    m.handle_event(UIEvent::Score(1, 2, 5));
    m.handle_event(UIEvent::Score(1, 3, 6));
    m.handle_event(UIEvent::Feed(s("first")));
    m.handle_event(UIEvent::Feed(s("second")));
    let mut t = [[0u32; 16]; 4];
    t[1][5] = 1;
    t[1][6] = 1;
    assert_eq!(m.tally_text(), render_kills(&t));
    assert_eq!(m.feed_text(), "second\nfirst\n");
    assert_eq!(m.timer_text(61), "1:01");
}

#[test]
fn match_time_up_after_fifteen_minutes() {
    let mut m = MatchState::new();
    m.start();
    m.tick(900, 0);
    assert_eq!(m.status_text(), "MATCH RUNNING");
    m.tick(900, 1);
    assert_eq!(m.status_text(), "MATCH OVER");
    assert_eq!(m.timer_text(1000), "15:00");
    m.handle_event(UIEvent::Feed(s("late")));
    assert_eq!(m.feed_text(), "");
    m.start();
    assert_eq!(m.status_text(), "MATCH RUNNING");
}

#[test]
fn match_restart_resets_tally_and_feed() {
    let mut m = MatchState::new();
    m.start();
    m.handle_event(UIEvent::Score(2, 1, 3));
    m.handle_event(UIEvent::Feed(s("x")));
    m.start();
    assert_eq!(m.tally_text(), render_kills(&[[0u32; 16]; 4]));
    assert_eq!(m.feed_text(), "");
}

#[test]
fn ops_commands() {
    assert_eq!(parse_message_command("!startops"), CommandParse::Done { consumed: 9, command: CommandType::StartOps });
    assert_eq!(parse_message_command("!endops"), CommandParse::Done { consumed: 7, command: CommandType::EndOps });
    assert_eq!(parse_message_command("!endops now"), CommandParse::Done { consumed: 7, command: CommandType::EndOps });
    assert_eq!(parse_message_command("!startopsnow"), CommandParse::Done { consumed: 9, command: CommandType::StartOps });
}

#[test]
fn ops_command_prefixes_and_others() {
    assert_eq!(parse_message_command(""), CommandParse::Incomplete(1));
    assert_eq!(parse_message_command("!"), CommandParse::Incomplete(9));
    assert_eq!(parse_message_command("!start"), CommandParse::Incomplete(9));
    assert_eq!(parse_message_command("!end"), CommandParse::Incomplete(7));
    assert_eq!(parse_message_command("hello"), CommandParse::Error);
    assert_eq!(parse_message_command("!stop"), CommandParse::Error);
    assert_eq!(parse_message_command(" !startops"), CommandParse::Error);
    assert_eq!(parse_message_command("!éndops"), CommandParse::Error);
}

#[test]
fn ops_channels_follow_commands() {
    let mut c = OpsChannels::new();
    assert_eq!(c.handle_command(CommandType::StartOps, 10), "Starting Ops");
    assert_eq!(c.handle_command(CommandType::StartOps, 20), "Starting Ops");
    assert!(c.contains(10) && c.contains(20));
    assert_eq!(c.handle_command(CommandType::EndOps, 10), "Ending Ops");
    assert!(!c.contains(10) && c.contains(20));
    assert_eq!(c.channels().len(), 1);
    assert_eq!(c.handle_command(CommandType::EndOps, 30), "Ending Ops");
    assert_eq!(c.channels().len(), 1);
}

#[test]
fn gunner_line() {
    assert_eq!(gunner_kill_text("Victim", "Gunner"), "Victim was killed by Gunner's gunner");
}

#[test]
fn read_json_reads_objects_numbers_and_texts() {
    let v = planetside::read_json(br#"{"service":"event","type":"serviceMessage","payload":{"amount":"10","n":-3,"ok":true,"xs":[1,null]}}"#).unwrap();
    assert_eq!(v.get("service").and_then(|x| x.as_str()), Some("event"));
    let payload = v.get("payload").unwrap();
    assert_eq!(payload.get("amount"), Some(&JsonValue::String(s("10"))));
    assert_eq!(payload.get("n"), Some(&JsonValue::Number(s("-3"))));
    assert_eq!(payload.get("ok"), Some(&JsonValue::Bool(true)));
    assert_eq!(
        payload.get("xs"),
        Some(&JsonValue::Array(vec![JsonValue::Number(s("1")), JsonValue::Null]))
    );
}

#[test]
fn read_json_rejects_broken_text() {
    assert!(planetside::read_json(b"{\"a\":").is_err());
    assert!(planetside::read_json(b"").is_err());
}

#[test]
fn malformed_messages_are_recognised() {
    assert!(planetside::is_malformed_message(&obj(vec![("service", JsonValue::Bool(true)), ("type", jstr("x"))])));
    assert!(planetside::is_malformed_message(&obj(vec![("service", jstr("event")), ("type", JsonValue::Null)])));
    assert!(planetside::is_malformed_message(&obj(vec![("service", jstr("event")), ("type", jstr("serviceMessage"))])));
    assert!(planetside::is_malformed_message(&obj(vec![
        ("service", jstr("event")),
        ("type", jstr("serviceMessage")),
        ("payload", obj(vec![("event_name", JsonValue::Number(s("1")))])),
    ])));
    assert!(!planetside::is_malformed_message(&obj(vec![("service", jstr("push")), ("type", JsonValue::Null)])));
    assert!(!planetside::is_malformed_message(&event_message("VehicleDestroy")));
    assert!(!planetside::is_malformed_message(&obj(vec![("service", JsonValue::Bool(true))])));
}

