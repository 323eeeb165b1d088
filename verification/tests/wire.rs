use push_codec::json::JsonValue;
use push_codec::request::{
    action_to_json_text, action_to_value, encode_action, Action, CharacterSubscription,
    EventNames, EventSubscription, WorldSubscription,
};
use push_codec::response::{decode_message, DecodeError, Field, Message};
use push_codec::text::{bool_text, format_u64, parse_bool, parse_u64};
use push_codec::Service;

#[test]
fn decimal_format_exact() {
    assert_eq!(format_u64(0), "0");
    assert_eq!(format_u64(1), "1");
    assert_eq!(format_u64(10), "10");
    assert_eq!(format_u64(5428602376718262177), "5428602376718262177");
    assert_eq!(format_u64(u64::MAX), "18446744073709551615");
}

#[test]
fn decimal_parse_exact() {
    assert_eq!(parse_u64("0"), Some(0));
    assert_eq!(parse_u64("007"), Some(7));
    assert_eq!(parse_u64("5428602376718262177"), Some(5428602376718262177));
    assert_eq!(parse_u64("18446744073709551615"), Some(u64::MAX));
    assert_eq!(parse_u64("18446744073709551616"), None);
    assert_eq!(parse_u64("99999999999999999999"), None);
    assert_eq!(parse_u64(""), None);
    assert_eq!(parse_u64("+5"), None);
    assert_eq!(parse_u64("-5"), None);
    assert_eq!(parse_u64("12a"), None);
}

#[test]
fn decimal_round_trip() {
    let samples: Vec<u64> = vec![0, 1, 9, 10, 42, 1513785744, 5428010618015189713, u64::MAX];
    for v in samples {
        assert_eq!(parse_u64(format_u64(v).as_str()), Some(v));
    }
}

#[test]
fn string_coded_bool() {
    assert_eq!(bool_text(true), "true");
    assert_eq!(bool_text(false), "false");
    assert_eq!(parse_bool("true"), Some(true));
    assert_eq!(parse_bool("false"), Some(false));
    assert_eq!(parse_bool("True"), None);
    assert_eq!(parse_bool(""), None);
}

#[test]
fn gain_experience_id_wire_text() {
    assert_eq!(
        EventNames::GainExperienceId(4).wire_text(),
        "GainExperience_experience_id_4"
    );
}

#[test]
fn omitted_axes_leave_no_key() {
    let input = Action::ClearSubscribe {
        all: Some(true),
        event_names: None,
        characters: None,
        worlds: None,
        service: Service::Event,
    };
    let v = encode_action(input);
    let members = match v {
        JsonValue::Obj(members) => members,
        _ => panic!("a request encodes as an object"),
    };
    for (key, value) in &members {
        assert_ne!(key.as_str(), "eventNames");
        assert_ne!(key.as_str(), "characters");
        assert_ne!(key.as_str(), "worlds");
        assert_ne!(value, &JsonValue::Null);
    }
    let all = members.iter().find(|m| m.0 == "all").expect("all is present");
    assert_eq!(all.1, JsonValue::Str("true".to_string()));
}

#[test]
fn clear_subscribe_all_is_string_on_the_wire() {
    let input = Action::ClearSubscribe {
        all: Some(true),
        event_names: None,
        characters: None,
        worlds: None,
        service: Service::Event,
    };
    let frame = action_to_json_text(input);
    assert!(frame.contains(r#""all":"true""#));
    assert!(!frame.contains(r#""all":true"#));
}

#[test]
fn empty_ids_axis_encodes_as_empty_array() {
    let input = Action::Subscribe {
        event_names: Some(EventSubscription::Ids(vec![])),
        characters: Some(CharacterSubscription::Ids(vec![])),
        logical_and_characters_with_worlds: None,
        worlds: Some(WorldSubscription::Ids(vec![])),
        service: Service::Push,
    };
    let v = encode_action(input);
    let expected = JsonValue::Obj(vec![
        ("action".to_string(), JsonValue::Str("subscribe".to_string())),
        ("eventNames".to_string(), JsonValue::Arr(vec![])),
        ("characters".to_string(), JsonValue::Arr(vec![])),
        ("worlds".to_string(), JsonValue::Arr(vec![])),
        ("service".to_string(), JsonValue::Str("push".to_string())),
    ]);
    assert_eq!(v, expected);
}

#[test]
fn recent_character_ids_text_frame() {
    let input = Action::RecentCharacterIds { service: Service::Event };
    assert_eq!(
        action_to_json_text(input),
        r#"{"action":"recentCharacterIds","service":"event"}"#
    );
}

#[test]
fn echo_round_trips_through_serde() {
    let input = Action::Echo {
        payload: JsonValue::Obj(vec![(
            "test".to_string(),
            JsonValue::Str("test".to_string()),
        )]),
        service: Service::Event,
    };
    let value = action_to_value(input);
    assert_eq!(
        serde_json::to_string(&value).unwrap(),
        r#"{"action":"echo","payload":{"test":"test"},"service":"event"}"#
    );
}

#[test]
fn unrecognized_message_keeps_text() {
    let input = r#"{"something": "else"}"#;
    assert_eq!(
        decode_message(input),
        Err(DecodeError::UnrecognizedMessage(input.to_string()))
    );

    let not_json = "not a json document";
    assert_eq!(
        decode_message(not_json),
        Err(DecodeError::UnrecognizedMessage(not_json.to_string()))
    );

    let not_an_object = "[1, 2, 3]";
    assert_eq!(
        decode_message(not_an_object),
        Err(DecodeError::UnrecognizedMessage(not_an_object.to_string()))
    );
}

#[test]
fn unknown_event_name_is_an_error() {
    let input = r#"{
        "payload": {
            "character_id": "1",
            "event_name": "SomethingNew",
            "timestamp": "2",
            "world_id": "3"
        },
        "service": "event",
        "type": "serviceMessage"
    }"#;
    assert_eq!(decode_message(input), Err(DecodeError::UnknownEventName));
}

#[test]
fn malformed_string_coded_bool_is_an_error() {
    assert_eq!(
        decode_message(r#"{"connected": "banana"}"#),
        Err(DecodeError::MalformedField(Field::Connected))
    );
    assert_eq!(
        decode_message(r#"{"connected": true}"#),
        Err(DecodeError::MalformedField(Field::Connected))
    );
    assert_eq!(
        decode_message(r#"{"online": "yes", "detail": "EventServerEndpoint_Miller_10"}"#),
        Err(DecodeError::MalformedField(Field::Online))
    );
}

#[test]
fn out_of_range_id_is_an_error() {
    let too_big = r#"{
        "payload": {
            "character_id": "99999999999999999999",
            "event_name": "PlayerLogin",
            "timestamp": "1513785744",
            "world_id": "1"
        }
    }"#;
    assert_eq!(
        decode_message(too_big),
        Err(DecodeError::InvalidId(Field::CharacterId))
    );

    let native_number = r#"{
        "payload": {
            "character_id": 1,
            "event_name": "PlayerLogout",
            "timestamp": "1513785744",
            "world_id": "1"
        }
    }"#;
    assert_eq!(
        decode_message(native_number),
        Err(DecodeError::MalformedField(Field::CharacterId))
    );

    let absent_field = r#"{
        "payload": {
            "event_name": "PlayerLogout",
            "timestamp": "1513785744",
            "world_id": "1"
        }
    }"#;
    assert_eq!(
        decode_message(absent_field),
        Err(DecodeError::MalformedField(Field::CharacterId))
    );
}

#[test]
fn player_logout_decodes() {
    let input = r#"{
        "payload": {
            "character_id": "4",
            "event_name": "PlayerLogout",
            "timestamp": "5",
            "world_id": "6"
        }
    }"#;
    let expected = Message::ServiceMessage {
        payload: push_codec::response::Event::PlayerLogout {
            character_id: 4,
            timestamp: 5,
            world_id: 6,
        },
    };
    assert_eq!(decode_message(input), Ok(expected));
}

#[test]
fn malformed_subscription_names_the_field() {
    let no_count = r#"{"subscription": {"eventNames": [], "logicalAndCharactersWithWorlds": true, "worlds": []}}"#;
    assert_eq!(
        decode_message(no_count),
        Err(DecodeError::MalformedField(Field::CharacterCount))
    );

    let bad_names = r#"{"subscription": {"characterCount": 1, "eventNames": [7], "logicalAndCharactersWithWorlds": true, "worlds": []}}"#;
    assert_eq!(
        decode_message(bad_names),
        Err(DecodeError::MalformedField(Field::EventNames))
    );

    let float_count = r#"{"subscription": {"characterCount": 1.5, "eventNames": [], "logicalAndCharactersWithWorlds": true, "worlds": []}}"#;
    assert_eq!(
        decode_message(float_count),
        Err(DecodeError::MalformedField(Field::CharacterCount))
    );
}

#[test]
fn id_set_wire_strings_stay_distinct() {
    let ids: Vec<u64> = vec![1, 2, 10, 21, 12, 120];
    let input = Action::Subscribe {
        event_names: None,
        characters: Some(CharacterSubscription::Ids(ids.clone())),
        logical_and_characters_with_worlds: None,
        worlds: None,
        service: Service::Event,
    };
    let v = encode_action(input);
    let members = match v {
        JsonValue::Obj(members) => members,
        _ => panic!("a request encodes as an object"),
    };
    let characters = members
        .iter()
        .find(|m| m.0 == "characters")
        .expect("characters is present");
    let texts = match &characters.1 {
        JsonValue::Arr(elems) => elems,
        _ => panic!("an identifier axis encodes as an array"),
    };
    assert_eq!(texts.len(), ids.len());
    for i in 0..texts.len() {
        for j in 0..texts.len() {
            if i != j {
                assert_ne!(texts[i], texts[j]);
            }
        }
        match &texts[i] {
            JsonValue::Str(s) => assert_eq!(parse_u64(s.as_str()), Some(ids[i])),
            _ => panic!("an identifier encodes as a string"),
        }
    }
}

#[test]
fn environment_wire_text() {
    assert_eq!(push_codec::Environment::Pc.as_str(), "ps2");
    assert_eq!(push_codec::Environment::Ps4Us.as_str(), "ps2ps4us");
    assert_eq!(push_codec::Environment::Ps4Eu.as_str(), "ps2ps4eu");
    assert_eq!(Service::Event.wire_text(), "event");
    assert_eq!(Service::Push.wire_text(), "push");
}
