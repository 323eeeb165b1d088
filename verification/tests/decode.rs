use push_codec::response::{decode_message, Event, Message, Subscription};

#[test]
fn service_state_changed() {
    let input = r#"{
        "detail": "EventServerEndpoint_Cobalt_13",
        "online": "true",
        "service": "event",
        "type": "serviceStateChanged"
    }"#;
    let deserialized: Message = decode_message(input).unwrap();

    let expected = Message::ServiceStateChanged {
        online: true,
        detail: "EventServerEndpoint_Cobalt_13".to_string(),
    };

    assert_eq!(deserialized, expected);
}

#[test]
fn connection_state_changed() {
    let input = r#"{
        "connected": "true",
        "service": "push",
        "type": "connectionStateChanged"
    }"#;
    let deserialized: Message = decode_message(input).unwrap();

    let expected = Message::ConnectionStateChanged { connected: true };

    assert_eq!(deserialized, expected);
}

#[test]
fn player_login() {
    let input = r#"{
        "payload": {
        "character_id": "5428602376718262177",
            "event_name": "PlayerLogin",
            "timestamp": "1513785744",
            "world_id": "1"
        },
        "service": "event",
        "type": "serviceMessage"
    }"#;
    let deserialized: Message = decode_message(input).unwrap();

    let expected = Message::ServiceMessage {
        payload: Event::PlayerLogin {
            character_id: 5428602376718262177,
            timestamp: 1513785744,
            world_id: 1,
        },
    };

    assert_eq!(deserialized, expected);
}

#[test]
fn heartbeat() {
    let input = r#"{
        "online": {
            "EventServerEndpoint_Briggs_25": "true",
            "EventServerEndpoint_Cobalt_13": "true",
            "EventServerEndpoint_Connery_1": "true",
            "EventServerEndpoint_Emerald_17": "true",
            "EventServerEndpoint_Jaeger_19": "true",
            "EventServerEndpoint_Miller_10": "true"
        },
        "service": "event",
        "type": "heartbeat"
    }"#;
    let deserialized: Message = decode_message(input).unwrap();

    let mut online: Vec<(String, String)> = Vec::new();
    online.push((
        "EventServerEndpoint_Briggs_25".to_string(),
        "true".to_string(),
    ));
    online.push((
        "EventServerEndpoint_Cobalt_13".to_string(),
        "true".to_string(),
    ));
    online.push((
        "EventServerEndpoint_Connery_1".to_string(),
        "true".to_string(),
    ));
    online.push((
        "EventServerEndpoint_Emerald_17".to_string(),
        "true".to_string(),
    ));
    online.push((
        "EventServerEndpoint_Jaeger_19".to_string(),
        "true".to_string(),
    ));
    online.push((
        "EventServerEndpoint_Miller_10".to_string(),
        "true".to_string(),
    ));
    let expected = Message::Heartbeat { online: online };

    assert_eq!(deserialized, expected);
}

#[test]
fn subscription() {
    let input = r#"{
        "subscription": {
            "characterCount": 0,
            "eventNames": [
                "PlayerLogin"
            ],
            "logicalAndCharactersWithWorlds": false,
            "worlds": [
                "1"
            ]
        }
    }"#;
    let deserialized: Message = decode_message(input).unwrap();

    let expected = Message::Subscription {
        subscription: Subscription {
            character_count: 0,
            event_names: vec!["PlayerLogin".to_string()],
            logical_and_characters_with_worlds: false,
            worlds: vec!["1".to_string()],
        },
    };

    assert_eq!(deserialized, expected);
}
