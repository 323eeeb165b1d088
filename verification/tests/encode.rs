use push_codec::json::JsonValue;
use push_codec::request::encode_action;
use push_codec::request::{
    Action, CharacterSubscription, EventNames, EventSubscription, WorldIds, WorldSubscription,
};
use push_codec::Service;

fn member(key: &str, v: JsonValue) -> (String, JsonValue) {
    (key.to_string(), v)
}

fn text(x: &str) -> JsonValue {
    JsonValue::Str(x.to_string())
}

#[test]
fn serialize_echo_action() {
    let input = Action::Echo {
        payload: JsonValue::Obj(vec![member("test", text("test"))]),
        service: Service::Event,
    };
    let v = encode_action(input);

    let expected = JsonValue::Obj(vec![
        member("action", text("echo")),
        member("payload", JsonValue::Obj(vec![member("test", text("test"))])),
        member("service", text("event")),
    ]);

    assert_eq!(v, expected);
}

#[test]
fn serialize_subscribe_gainexperienceid_event_action() {
    let input = Action::Subscribe {
        event_names: Some(EventSubscription::Ids(vec![
            EventNames::GainExperienceId(4),
            EventNames::GainExperienceId(5),
        ])),
        characters: Some(CharacterSubscription::All),
        logical_and_characters_with_worlds: None,
        worlds: None,
        service: Service::Event,
    };
    let v = encode_action(input);

    let expected = JsonValue::Obj(vec![
        member("action", text("subscribe")),
        member(
            "eventNames",
            JsonValue::Arr(vec![
                text("GainExperience_experience_id_4"),
                text("GainExperience_experience_id_5"),
            ]),
        ),
        member("characters", JsonValue::Arr(vec![text("all")])),
        member("service", text("event")),
    ]);

    assert_eq!(v, expected);
}

#[test]
fn serialize_subscribe_character_death_action() {
    let input = Action::Subscribe {
        event_names: Some(EventSubscription::Ids(vec![EventNames::Death])),
        characters: Some(CharacterSubscription::Ids(vec![5428010618015189713])),
        logical_and_characters_with_worlds: None,
        worlds: None,
        service: Service::Event,
    };
    let v = encode_action(input);

    let expected = JsonValue::Obj(vec![
        member("action", text("subscribe")),
        member("eventNames", JsonValue::Arr(vec![text("Death")])),
        member("characters", JsonValue::Arr(vec![text("5428010618015189713")])),
        member("service", text("event")),
    ]);

    assert_eq!(v, expected);
}

#[test]
fn serialize_subscribe_world_event_action() {
    let input = Action::Subscribe {
        event_names: Some(EventSubscription::Ids(vec![EventNames::PlayerLogin])),
        characters: None,
        logical_and_characters_with_worlds: None,
        worlds: Some(WorldSubscription::Ids(vec![WorldIds::Connery.id()])),
        service: Service::Event,
    };
    let v = encode_action(input);

    let expected = JsonValue::Obj(vec![
        member("action", text("subscribe")),
        member("eventNames", JsonValue::Arr(vec![text("PlayerLogin")])),
        member("worlds", JsonValue::Arr(vec![text("1")])),
        member("service", text("event")),
    ]);

    assert_eq!(v, expected);
}

#[test]
fn serialize_subscribe_all_action() {
    let input = Action::Subscribe {
        event_names: Some(EventSubscription::All),
        characters: Some(CharacterSubscription::All),
        logical_and_characters_with_worlds: None,
        worlds: Some(WorldSubscription::All),
        service: Service::Event,
    };
    let v = encode_action(input);

    let expected = JsonValue::Obj(vec![
        member("action", text("subscribe")),
        member("eventNames", JsonValue::Arr(vec![text("all")])),
        member("characters", JsonValue::Arr(vec![text("all")])),
        member("worlds", JsonValue::Arr(vec![text("all")])),
        member("service", text("event")),
    ]);

    assert_eq!(v, expected);
}

#[test]
fn serialize_subscribe_action() {
    let input = Action::Subscribe {
        event_names: Some(EventSubscription::Ids(vec![
            EventNames::PlayerLogin,
            EventNames::MetagameEvent,
            EventNames::BattleRankUp,
            EventNames::FacilityControl,
            EventNames::ItemAdded,
            EventNames::VehicleDestroy,
            EventNames::PlayerFacilityCapture,
            EventNames::PlayerFacilityDefend,
            EventNames::SkillAdded,
            EventNames::GainExperience,
            EventNames::Death,
            EventNames::PlayerLogout,
        ])),
        characters: Some(CharacterSubscription::All),
        logical_and_characters_with_worlds: Some(true),
        worlds: Some(WorldSubscription::Ids(vec![
            WorldIds::Cobalt.id(),
            WorldIds::Jaeger.id(),
        ])),
        service: Service::Event,
    };
    let v = encode_action(input);

    let expected = JsonValue::Obj(vec![
        member("action", text("subscribe")),
        member(
            "eventNames",
            JsonValue::Arr(vec![
                text("PlayerLogin"),
                text("MetagameEvent"),
                text("BattleRankUp"),
                text("FacilityControl"),
                text("ItemAdded"),
                text("VehicleDestroy"),
                text("PlayerFacilityCapture"),
                text("PlayerFacilityDefend"),
                text("SkillAdded"),
                text("GainExperience"),
                text("Death"),
                text("PlayerLogout"),
            ]),
        ),
        member("characters", JsonValue::Arr(vec![text("all")])),
        member("logicalAndCharactersWithWorlds", JsonValue::Bool(true)),
        member("worlds", JsonValue::Arr(vec![text("13"), text("19")])),
        member("service", text("event")),
    ]);

    assert_eq!(v, expected);
}

#[test]
fn serialize_clearsubscribe_action() {
    let input = Action::ClearSubscribe {
        all: None,
        event_names: Some(EventSubscription::Ids(vec![
            EventNames::PlayerLogin,
            EventNames::MetagameEvent,
            EventNames::BattleRankUp,
            EventNames::FacilityControl,
            EventNames::ItemAdded,
            EventNames::VehicleDestroy,
            EventNames::PlayerFacilityCapture,
            EventNames::PlayerFacilityDefend,
            EventNames::SkillAdded,
            EventNames::GainExperience,
            EventNames::Death,
            EventNames::PlayerLogout,
        ])),
        characters: Some(CharacterSubscription::Ids(vec![1, 2])),
        worlds: Some(WorldSubscription::Ids(vec![
            WorldIds::Cobalt.id(),
            WorldIds::Jaeger.id(),
        ])),
        service: Service::Event,
    };
    let v = encode_action(input);

    let expected = JsonValue::Obj(vec![
        member("action", text("clearSubscribe")),
        member(
            "eventNames",
            JsonValue::Arr(vec![
                text("PlayerLogin"),
                text("MetagameEvent"),
                text("BattleRankUp"),
                text("FacilityControl"),
                text("ItemAdded"),
                text("VehicleDestroy"),
                text("PlayerFacilityCapture"),
                text("PlayerFacilityDefend"),
                text("SkillAdded"),
                text("GainExperience"),
                text("Death"),
                text("PlayerLogout"),
            ]),
        ),
        member("characters", JsonValue::Arr(vec![text("1"), text("2")])),
        member("worlds", JsonValue::Arr(vec![text("13"), text("19")])),
        member("service", text("event")),
    ]);

    assert_eq!(v, expected);
}

#[test]
fn serialize_clearsubscribe_all_action() {
    let input = Action::ClearSubscribe {
        all: Some(true),
        event_names: None,
        characters: None,
        worlds: None,
        service: Service::Event,
    };
    let v = encode_action(input);

    let expected = JsonValue::Obj(vec![
        member("action", text("clearSubscribe")),
        member("all", text("true")),
        member("service", text("event")),
    ]);

    assert_eq!(v, expected);
}

#[test]
fn serialize_recentcharacterids_action() {
    let input = Action::RecentCharacterIds { service: Service::Event };
    let v = encode_action(input);

    let expected = JsonValue::Obj(vec![
        member("action", text("recentCharacterIds")),
        member("service", text("event")),
    ]);

    assert_eq!(v, expected);
}

#[test]
fn serialize_recentcharacteridscount_action() {
    let input = Action::RecentCharacterIdsCount { service: Service::Event };
    let v = encode_action(input);

    let expected = JsonValue::Obj(vec![
        member("action", text("recentCharacterIdsCount")),
        member("service", text("event")),
    ]);

    assert_eq!(v, expected);
}
