//! Outbound requests: the typed `Action` values a client sends, and their
//! encoding into the exact JSON object the remote service expects.
//!
//! Every request object carries `action` (the lower-camel-case variant name)
//! and `service`.  Optional subscription axes are omitted from the object
//! entirely when absent — never written as `null`.  Identifiers cross the
//! wire as decimal strings; the `all` field of `clearSubscribe` is the
//! string `"true"`/`"false"`, not a native boolean, while `subscribe`'s
//! `logicalAndCharactersWithWorlds` is a native boolean: the remote service's
//! own asymmetry, preserved exactly.

use vstd::prelude::*;

use crate::json::{
    member_models, model_of, models_of_seq, pairs_to_map, JsonModel, JsonValue,
    lemma_member_models_push, lemma_models_of_seq_push, lemma_pairs_to_map_concat,
};
use crate::text::{bool_str, bool_text, dec_str, format_u64, parse_dec, lemma_dec_round_trip,
    lemma_dec_str_injective};
use crate::{CharacterId, ExperienceId, Service, WorldId};

verus! {

/// The catalog of known world servers.  A convenience only: any other
/// numeric world identifier is equally valid on the wire.
#[derive(Debug, Clone, Copy, PartialEq, Eq, Structural)]
pub enum WorldIds {
    Jaeger,
    Briggs,
    Miller,
    Cobalt,
    Connery,
    Emerald,
}

impl WorldIds {
    /// The numeric identifier of the catalogued world.
    pub open spec fn spec_id(&self) -> WorldId {
        match self {
            WorldIds::Jaeger => 19,
            WorldIds::Briggs => 25,
            WorldIds::Miller => 10,
            WorldIds::Cobalt => 13,
            WorldIds::Connery => 1,
            WorldIds::Emerald => 17,
        }
    }

    /// The numeric identifier of the catalogued world.
    #[verifier::when_used_as_spec(spec_id)]
    pub fn id(&self) -> (r: WorldId)
        ensures
            r == self.spec_id(),
    {
        match self {
            WorldIds::Jaeger => 19,
            WorldIds::Briggs => 25,
            WorldIds::Miller => 10,
            WorldIds::Cobalt => 13,
            WorldIds::Connery => 1,
            WorldIds::Emerald => 17,
        }
    }
}

/// The catalog of subscribable domain events.  A plain variant's wire text is
/// its name; `GainExperienceId(id)` formats as
/// `GainExperience_experience_id_<id>`.
#[derive(Debug, Clone, Copy, PartialEq, Eq, Hash, Structural)]
pub enum EventNames {
    AchievementEarned,
    BattleRankUp,
    Death,
    ItemAdded,
    SkillAdded,
    VehicleDestroy,
    GainExperience,
    GainExperienceId(ExperienceId),
    PlayerFacilityCapture,
    PlayerFacilityDefend,
    ContinentLock,
    ContinentUnlock,
    FacilityControl,
    MetagameEvent,
    PlayerLogin,
    PlayerLogout,
}

impl EventNames {
    /// The event name's wire text.
    pub open spec fn wire(self) -> Seq<char> {
        match self {
            EventNames::AchievementEarned => "AchievementEarned"@,
            EventNames::BattleRankUp => "BattleRankUp"@,
            EventNames::Death => "Death"@,
            EventNames::ItemAdded => "ItemAdded"@,
            EventNames::SkillAdded => "SkillAdded"@,
            EventNames::VehicleDestroy => "VehicleDestroy"@,
            EventNames::GainExperience => "GainExperience"@,
            EventNames::GainExperienceId(id) => "GainExperience_experience_id_"@ + dec_str(
                id as nat,
            ),
            EventNames::PlayerFacilityCapture => "PlayerFacilityCapture"@,
            EventNames::PlayerFacilityDefend => "PlayerFacilityDefend"@,
            EventNames::ContinentLock => "ContinentLock"@,
            EventNames::ContinentUnlock => "ContinentUnlock"@,
            EventNames::FacilityControl => "FacilityControl"@,
            EventNames::MetagameEvent => "MetagameEvent"@,
            EventNames::PlayerLogin => "PlayerLogin"@,
            EventNames::PlayerLogout => "PlayerLogout"@,
        }
    }

    /// Formats the event name for the wire.
    pub fn wire_text(&self) -> (r: String)
        ensures
            r@ == self.wire(),
    {
        match self {
            EventNames::AchievementEarned => "AchievementEarned".to_owned(),
            EventNames::BattleRankUp => "BattleRankUp".to_owned(),
            EventNames::Death => "Death".to_owned(),
            EventNames::ItemAdded => "ItemAdded".to_owned(),
            EventNames::SkillAdded => "SkillAdded".to_owned(),
            EventNames::VehicleDestroy => "VehicleDestroy".to_owned(),
            EventNames::GainExperience => "GainExperience".to_owned(),
            EventNames::GainExperienceId(id) => {
                let prefix = "GainExperience_experience_id_".to_owned();
                let digits = format_u64(*id);
                prefix.concat(digits.as_str())
            },
            EventNames::PlayerFacilityCapture => "PlayerFacilityCapture".to_owned(),
            EventNames::PlayerFacilityDefend => "PlayerFacilityDefend".to_owned(),
            EventNames::ContinentLock => "ContinentLock".to_owned(),
            EventNames::ContinentUnlock => "ContinentUnlock".to_owned(),
            EventNames::FacilityControl => "FacilityControl".to_owned(),
            EventNames::MetagameEvent => "MetagameEvent".to_owned(),
            EventNames::PlayerLogin => "PlayerLogin".to_owned(),
            EventNames::PlayerLogout => "PlayerLogout".to_owned(),
        }
    }
}

/// One axis of a subscription over characters: the sentinel `all`, or an
/// explicit identifier set (order-irrelevant; an empty set is legal).
#[derive(Debug, PartialEq, Eq)]
pub enum CharacterSubscription {
    All,
    Ids(Vec<CharacterId>),
}

/// One axis of a subscription over worlds.
#[derive(Debug, PartialEq, Eq)]
pub enum WorldSubscription {
    All,
    Ids(Vec<WorldId>),
}

/// One axis of a subscription over event names.
#[derive(Debug, PartialEq, Eq)]
pub enum EventSubscription {
    All,
    Ids(Vec<EventNames>),
}

/// The wire form of the sentinel: the one-element array `["all"]`.
pub open spec fn all_array() -> JsonModel {
    JsonModel::Arr(seq![JsonModel::Str("all"@)])
}

/// The wire form of an explicit identifier list: each element as its decimal
/// string, in list order.
pub open spec fn ids_array(ids: Seq<u64>) -> JsonModel {
    JsonModel::Arr(Seq::new(ids.len(), |i: int| JsonModel::Str(dec_str(ids[i] as nat))))
}

/// The wire form of an explicit event-name list.
pub open spec fn events_array(names: Seq<EventNames>) -> JsonModel {
    JsonModel::Arr(Seq::new(names.len(), |i: int| JsonModel::Str(names[i].wire())))
}

impl CharacterSubscription {
    /// The axis' wire form: always a JSON array.
    pub open spec fn wire(self) -> JsonModel {
        match self {
            CharacterSubscription::All => all_array(),
            CharacterSubscription::Ids(ids) => ids_array(ids@),
        }
    }
}

impl WorldSubscription {
    /// The axis' wire form: always a JSON array.
    pub open spec fn wire(self) -> JsonModel {
        match self {
            WorldSubscription::All => all_array(),
            WorldSubscription::Ids(ids) => ids_array(ids@),
        }
    }
}

impl EventSubscription {
    /// The axis' wire form: always a JSON array.
    pub open spec fn wire(self) -> JsonModel {
        match self {
            EventSubscription::All => all_array(),
            EventSubscription::Ids(names) => events_array(names@),
        }
    }
}

/// One outbound request.  Every variant carries a `service`; the optional
/// subscription axes are omitted from the encoded object when absent.
#[derive(Debug, PartialEq, Eq)]
pub enum Action {
    Echo { payload: JsonValue, service: Service },
    Subscribe {
        event_names: Option<EventSubscription>,
        characters: Option<CharacterSubscription>,
        logical_and_characters_with_worlds: Option<bool>,
        worlds: Option<WorldSubscription>,
        service: Service,
    },
    ClearSubscribe {
        all: Option<bool>,
        event_names: Option<EventSubscription>,
        characters: Option<CharacterSubscription>,
        worlds: Option<WorldSubscription>,
        service: Service,
    },
    RecentCharacterIds { service: Service },
    RecentCharacterIdsCount { service: Service },
}

/// The member carrying an optional event-name axis, or nothing.
pub open spec fn opt_event_member(o: Option<EventSubscription>) -> Seq<(Seq<char>, JsonModel)> {
    match o {
        Option::None => Seq::empty(),
        Option::Some(s) => seq![("eventNames"@, s.wire())],
    }
}

/// The member carrying an optional character axis, or nothing.
pub open spec fn opt_char_member(o: Option<CharacterSubscription>) -> Seq<(Seq<char>, JsonModel)> {
    match o {
        Option::None => Seq::empty(),
        Option::Some(s) => seq![("characters"@, s.wire())],
    }
}

/// The member carrying an optional world axis, or nothing.
pub open spec fn opt_world_member(o: Option<WorldSubscription>) -> Seq<(Seq<char>, JsonModel)> {
    match o {
        Option::None => Seq::empty(),
        Option::Some(s) => seq![("worlds"@, s.wire())],
    }
}

/// The member carrying `subscribe`'s optional native boolean, or nothing.
pub open spec fn opt_logical_member(o: Option<bool>) -> Seq<(Seq<char>, JsonModel)> {
    match o {
        Option::None => Seq::empty(),
        Option::Some(b) => seq![("logicalAndCharactersWithWorlds"@, JsonModel::Bool(b))],
    }
}

/// The member carrying `clearSubscribe`'s optional string-coded boolean
/// `all`, or nothing.  The value is the string `"true"`/`"false"`, never a
/// native boolean.
pub open spec fn opt_all_member(o: Option<bool>) -> Seq<(Seq<char>, JsonModel)> {
    match o {
        Option::None => Seq::empty(),
        Option::Some(b) => seq![("all"@, JsonModel::Str(bool_str(b)))],
    }
}

/// The encoded object's member list, in the order the encoder writes it.
pub open spec fn encode_fields(a: Action) -> Seq<(Seq<char>, JsonModel)> {
    match a {
        Action::Echo { payload, service } => seq![
            ("action"@, JsonModel::Str("echo"@)),
            ("payload"@, model_of(payload)),
            ("service"@, JsonModel::Str(service.wire())),
        ],
        Action::Subscribe {
            event_names,
            characters,
            logical_and_characters_with_worlds,
            worlds,
            service,
        } => seq![("action"@, JsonModel::Str("subscribe"@))] + opt_event_member(event_names)
            + opt_char_member(characters) + opt_logical_member(logical_and_characters_with_worlds)
            + opt_world_member(worlds) + seq![("service"@, JsonModel::Str(service.wire()))],
        Action::ClearSubscribe { all, event_names, characters, worlds, service } => seq![
            ("action"@, JsonModel::Str("clearSubscribe"@)),
        ] + opt_all_member(all) + opt_event_member(event_names) + opt_char_member(characters)
            + opt_world_member(worlds) + seq![("service"@, JsonModel::Str(service.wire()))],
        Action::RecentCharacterIds { service } => seq![
            ("action"@, JsonModel::Str("recentCharacterIds"@)),
            ("service"@, JsonModel::Str(service.wire())),
        ],
        Action::RecentCharacterIdsCount { service } => seq![
            ("action"@, JsonModel::Str("recentCharacterIdsCount"@)),
            ("service"@, JsonModel::Str(service.wire())),
        ],
    }
}

/// The encoded request, as the JSON object it denotes.
pub open spec fn encode_model(a: Action) -> JsonModel {
    JsonModel::Obj(pairs_to_map(encode_fields(a)))
}

/// Appends one member to an object under construction.
fn push_member(m: &mut Vec<(String, JsonValue)>, key: String, v: JsonValue)
    ensures
        member_models(final(m)@) == member_models(old(m)@).push((key@, model_of(v))),
{
    proof {
        lemma_member_models_push(m@, (key, v));
    }
    m.push((key, v));
}

/// Encodes an explicit identifier list as its array of decimal strings.
fn encode_id_array(ids: &Vec<u64>) -> (r: JsonValue)
    ensures
        model_of(r) == ids_array(ids@),
{
    let mut out: Vec<JsonValue> = Vec::new();
    let mut i: usize = 0;
    proof {
        assert(models_of_seq(out@) =~= Seq::<JsonModel>::empty());
    }
    while i < ids.len()
        invariant
            0 <= i <= ids@.len(),
            models_of_seq(out@) == Seq::new(
                i as nat,
                |j: int| JsonModel::Str(dec_str(ids@[j] as nat)),
            ),
        decreases ids@.len() - i,
    {
        let text = format_u64(ids[i]);
        proof {
            lemma_models_of_seq_push(out@, JsonValue::Str(text));
        }
        out.push(JsonValue::Str(text));
        i += 1;
        proof {
            assert(models_of_seq(out@) =~= Seq::new(
                i as nat,
                |j: int| JsonModel::Str(dec_str(ids@[j] as nat)),
            ));
        }
    }
    proof {
        assert(models_of_seq(out@) =~= Seq::new(
            ids@.len(),
            |j: int| JsonModel::Str(dec_str(ids@[j] as nat)),
        ));
    }
    JsonValue::Arr(out)
}

/// Encodes an explicit event-name list as its array of wire names.
fn encode_event_array(names: &Vec<EventNames>) -> (r: JsonValue)
    ensures
        model_of(r) == events_array(names@),
{
    let mut out: Vec<JsonValue> = Vec::new();
    let mut i: usize = 0;
    proof {
        assert(models_of_seq(out@) =~= Seq::<JsonModel>::empty());
    }
    while i < names.len()
        invariant
            0 <= i <= names@.len(),
            models_of_seq(out@) == Seq::new(i as nat, |j: int| JsonModel::Str(names@[j].wire())),
        decreases names@.len() - i,
    {
        let text = names[i].wire_text();
        proof {
            lemma_models_of_seq_push(out@, JsonValue::Str(text));
        }
        out.push(JsonValue::Str(text));
        i += 1;
        proof {
            assert(models_of_seq(out@) =~= Seq::new(
                i as nat,
                |j: int| JsonModel::Str(names@[j].wire()),
            ));
        }
    }
    proof {
        assert(models_of_seq(out@) =~= Seq::new(
            names@.len(),
            |j: int| JsonModel::Str(names@[j].wire()),
        ));
    }
    JsonValue::Arr(out)
}

/// Encodes the sentinel array `["all"]`.
fn encode_all_array() -> (r: JsonValue)
    ensures
        model_of(r) == all_array(),
{
    let mut out: Vec<JsonValue> = Vec::new();
    let text = "all".to_owned();
    proof {
        assert(models_of_seq(out@) =~= Seq::<JsonModel>::empty());
        lemma_models_of_seq_push(out@, JsonValue::Str(text));
    }
    out.push(JsonValue::Str(text));
    proof {
        assert(models_of_seq(out@) =~= seq![JsonModel::Str("all"@)]);
    }
    JsonValue::Arr(out)
}

/// Encodes a character axis.
fn encode_char_sub(s: &CharacterSubscription) -> (r: JsonValue)
    ensures
        model_of(r) == s.wire(),
{
    match s {
        CharacterSubscription::All => encode_all_array(),
        CharacterSubscription::Ids(ids) => encode_id_array(ids),
    }
}

/// Encodes a world axis.
fn encode_world_sub(s: &WorldSubscription) -> (r: JsonValue)
    ensures
        model_of(r) == s.wire(),
{
    match s {
        WorldSubscription::All => encode_all_array(),
        WorldSubscription::Ids(ids) => encode_id_array(ids),
    }
}

/// Encodes an event-name axis.
fn encode_event_sub(s: &EventSubscription) -> (r: JsonValue)
    ensures
        model_of(r) == s.wire(),
{
    match s {
        EventSubscription::All => encode_all_array(),
        EventSubscription::Ids(names) => encode_event_array(names),
    }
}

/// Encodes a request as the JSON object the remote service expects: the
/// member list is exactly `encode_fields`, so the object it denotes is
/// exactly `encode_model`.  Encoding never fails.
#[verifier::rlimit(60)]
pub fn encode_action(a: Action) -> (r: JsonValue)
    ensures
        r matches JsonValue::Obj(members) && member_models(members@) == encode_fields(a),
        model_of(r) == encode_model(a),
{
    let ghost a0 = a;
    let mut m: Vec<(String, JsonValue)> = Vec::new();
    proof {
        assert(member_models(m@) =~= Seq::<(Seq<char>, JsonModel)>::empty());
    }
    match a {
        Action::Echo { payload, service } => {
            push_member(&mut m, "action".to_owned(), JsonValue::Str("echo".to_owned()));
            push_member(&mut m, "payload".to_owned(), payload);
            push_member(&mut m, "service".to_owned(), JsonValue::Str(service.wire_text()));
            proof {
                assert(member_models(m@) =~= encode_fields(a0));
            }
        },
        Action::Subscribe {
            event_names,
            characters,
            logical_and_characters_with_worlds,
            worlds,
            service,
        } => {
            push_member(&mut m, "action".to_owned(), JsonValue::Str("subscribe".to_owned()));
            match &event_names {
                Option::Some(s) => {
                    let v = encode_event_sub(s);
                    push_member(&mut m, "eventNames".to_owned(), v);
                },
                Option::None => {},
            }
            match &characters {
                Option::Some(s) => {
                    let v = encode_char_sub(s);
                    push_member(&mut m, "characters".to_owned(), v);
                },
                Option::None => {},
            }
            match &logical_and_characters_with_worlds {
                Option::Some(b) => {
                    push_member(
                        &mut m,
                        "logicalAndCharactersWithWorlds".to_owned(),
                        JsonValue::Bool(*b),
                    );
                },
                Option::None => {},
            }
            match &worlds {
                Option::Some(s) => {
                    let v = encode_world_sub(s);
                    push_member(&mut m, "worlds".to_owned(), v);
                },
                Option::None => {},
            }
            push_member(&mut m, "service".to_owned(), JsonValue::Str(service.wire_text()));
            proof {
                assert(member_models(m@) =~= encode_fields(a0));
            }
        },
        Action::ClearSubscribe { all, event_names, characters, worlds, service } => {
            push_member(&mut m, "action".to_owned(), JsonValue::Str("clearSubscribe".to_owned()));
            match &all {
                Option::Some(b) => {
                    push_member(&mut m, "all".to_owned(), JsonValue::Str(bool_text(*b)));
                },
                Option::None => {},
            }
            match &event_names {
                Option::Some(s) => {
                    let v = encode_event_sub(s);
                    push_member(&mut m, "eventNames".to_owned(), v);
                },
                Option::None => {},
            }
            match &characters {
                Option::Some(s) => {
                    let v = encode_char_sub(s);
                    push_member(&mut m, "characters".to_owned(), v);
                },
                Option::None => {},
            }
            match &worlds {
                Option::Some(s) => {
                    let v = encode_world_sub(s);
                    push_member(&mut m, "worlds".to_owned(), v);
                },
                Option::None => {},
            }
            push_member(&mut m, "service".to_owned(), JsonValue::Str(service.wire_text()));
            proof {
                assert(member_models(m@) =~= encode_fields(a0));
            }
        },
        Action::RecentCharacterIds { service } => {
            push_member(
                &mut m,
                "action".to_owned(),
                JsonValue::Str("recentCharacterIds".to_owned()),
            );
            push_member(&mut m, "service".to_owned(), JsonValue::Str(service.wire_text()));
            proof {
                assert(member_models(m@) =~= encode_fields(a0));
            }
        },
        Action::RecentCharacterIdsCount { service } => {
            push_member(
                &mut m,
                "action".to_owned(),
                JsonValue::Str("recentCharacterIdsCount".to_owned()),
            );
            push_member(&mut m, "service".to_owned(), JsonValue::Str(service.wire_text()));
            proof {
                assert(member_models(m@) =~= encode_fields(a0));
            }
        },
    }
    JsonValue::Obj(m)
}

/// Encodes a request and hands it over as a `serde_json` document, for a
/// transport that frames documents itself.
pub fn action_to_value(a: Action) -> (r: serde_json::Value)
    ensures
        crate::bridge::value_model(r) == encode_model(a),
{
    let j = encode_action(a);
    crate::bridge::json_to_value(&j)
}

/// Encodes a request as one UTF-8 JSON text frame.
pub fn action_to_json_text(a: Action) -> (r: String)
    ensures
        r@ == crate::bridge::json_text_of(encode_model(a)),
{
    let j = encode_action(a);
    crate::bridge::json_to_string(&j)
}


/// The seven member keys a request object can carry are pairwise distinct.
proof fn lemma_request_keys_distinct()
    ensures
        "action"@ != "all"@,
        "action"@ != "eventNames"@,
        "action"@ != "characters"@,
        "action"@ != "logicalAndCharactersWithWorlds"@,
        "action"@ != "worlds"@,
        "action"@ != "service"@,
        "all"@ != "eventNames"@,
        "all"@ != "characters"@,
        "all"@ != "logicalAndCharactersWithWorlds"@,
        "all"@ != "worlds"@,
        "all"@ != "service"@,
        "eventNames"@ != "characters"@,
        "eventNames"@ != "logicalAndCharactersWithWorlds"@,
        "eventNames"@ != "worlds"@,
        "eventNames"@ != "service"@,
        "characters"@ != "logicalAndCharactersWithWorlds"@,
        "characters"@ != "worlds"@,
        "characters"@ != "service"@,
        "logicalAndCharactersWithWorlds"@ != "worlds"@,
        "logicalAndCharactersWithWorlds"@ != "service"@,
        "worlds"@ != "service"@,
{
    broadcast use vstd::string::group_string_axioms;

    reveal_strlit("action");
    reveal_strlit("all");
    reveal_strlit("eventNames");
    reveal_strlit("characters");
    reveal_strlit("logicalAndCharactersWithWorlds");
    reveal_strlit("worlds");
    reveal_strlit("service");
    assert("action"@.len() == 6);
    assert("all"@.len() == 3);
    assert("eventNames"@.len() == 10);
    assert("characters"@.len() == 10);
    assert("logicalAndCharactersWithWorlds"@.len() == 30);
    assert("worlds"@.len() == 6);
    assert("service"@.len() == 7);
    assert("eventNames"@[0] == 'e');
    assert("characters"@[0] == 'c');
    assert("action"@[0] == 'a');
    assert("worlds"@[0] == 'w');
}

/// What a `subscribe` object holds, member by member: `action` and `service`
/// always; each optional axis appears under its key exactly when it is
/// present — an omitted axis contributes no key at all, never a `null` —
/// and no key beyond these six ever occurs.
pub proof fn lemma_subscribe_encoding(
    event_names: Option<EventSubscription>,
    characters: Option<CharacterSubscription>,
    logical_and_characters_with_worlds: Option<bool>,
    worlds: Option<WorldSubscription>,
    service: Service,
)
    ensures
        ({
            let m = pairs_to_map(
                encode_fields(
                    Action::Subscribe {
                        event_names,
                        characters,
                        logical_and_characters_with_worlds,
                        worlds,
                        service,
                    },
                ),
            );
            &&& m.contains_key("action"@) && m["action"@] == JsonModel::Str("subscribe"@)
            &&& m.contains_key("service"@) && m["service"@] == JsonModel::Str(service.wire())
            &&& m.contains_key("eventNames"@) == (event_names is Some)
            &&& (event_names matches Some(s) ==> m["eventNames"@] == s.wire())
            &&& m.contains_key("characters"@) == (characters is Some)
            &&& (characters matches Some(s) ==> m["characters"@] == s.wire())
            &&& m.contains_key("logicalAndCharactersWithWorlds"@) == (
                logical_and_characters_with_worlds is Some)
            &&& (logical_and_characters_with_worlds matches Some(b) ==> m[
                "logicalAndCharactersWithWorlds"@
            ] == JsonModel::Bool(b))
            &&& m.contains_key("worlds"@) == (worlds is Some)
            &&& (worlds matches Some(s) ==> m["worlds"@] == s.wire())
            &&& forall|k: Seq<char>|
                m.contains_key(k) ==> (k == "action"@ || k == "eventNames"@ || k == "characters"@
                    || k == "logicalAndCharactersWithWorlds"@ || k == "worlds"@ || k
                    == "service"@)
        }),
{
    lemma_request_keys_distinct();
    let s0 = seq![("action"@, JsonModel::Str("subscribe"@))];
    let s1 = opt_event_member(event_names);
    let s2 = opt_char_member(characters);
    let s3 = opt_logical_member(logical_and_characters_with_worlds);
    let s4 = opt_world_member(worlds);
    let s5 = seq![("service"@, JsonModel::Str(service.wire()))];
    lemma_pairs_to_map_concat(s0, s1);
    lemma_pairs_to_map_concat(s0 + s1, s2);
    lemma_pairs_to_map_concat(s0 + s1 + s2, s3);
    lemma_pairs_to_map_concat(s0 + s1 + s2 + s3, s4);
    lemma_pairs_to_map_concat(s0 + s1 + s2 + s3 + s4, s5);
    crate::json::lemma_pairs_to_map_singleton(("action"@, JsonModel::Str("subscribe"@)));
    crate::json::lemma_pairs_to_map_singleton(("service"@, JsonModel::Str(service.wire())));
    match event_names {
        Option::Some(s) => crate::json::lemma_pairs_to_map_singleton(("eventNames"@, s.wire())),
        Option::None => assert(pairs_to_map(s1) == Map::<Seq<char>, JsonModel>::empty()),
    }
    match characters {
        Option::Some(s) => crate::json::lemma_pairs_to_map_singleton(("characters"@, s.wire())),
        Option::None => assert(pairs_to_map(s2) == Map::<Seq<char>, JsonModel>::empty()),
    }
    match logical_and_characters_with_worlds {
        Option::Some(b) => crate::json::lemma_pairs_to_map_singleton(
            ("logicalAndCharactersWithWorlds"@, JsonModel::Bool(b)),
        ),
        Option::None => assert(pairs_to_map(s3) == Map::<Seq<char>, JsonModel>::empty()),
    }
    match worlds {
        Option::Some(s) => crate::json::lemma_pairs_to_map_singleton(("worlds"@, s.wire())),
        Option::None => assert(pairs_to_map(s4) == Map::<Seq<char>, JsonModel>::empty()),
    }
}

/// What a `clearSubscribe` object holds, member by member.  In particular,
/// the optional `all` field, when present, is the string `"true"`/`"false"`
/// — a string-coded boolean, never the native boolean — and, as on
/// `subscribe`, an omitted optional field contributes no key at all.
pub proof fn lemma_clear_subscribe_encoding(
    all: Option<bool>,
    event_names: Option<EventSubscription>,
    characters: Option<CharacterSubscription>,
    worlds: Option<WorldSubscription>,
    service: Service,
)
    ensures
        ({
            let m = pairs_to_map(
                encode_fields(
                    Action::ClearSubscribe { all, event_names, characters, worlds, service },
                ),
            );
            &&& m.contains_key("action"@) && m["action"@] == JsonModel::Str("clearSubscribe"@)
            &&& m.contains_key("service"@) && m["service"@] == JsonModel::Str(service.wire())
            &&& m.contains_key("all"@) == (all is Some)
            &&& (all matches Some(b) ==> m["all"@] == JsonModel::Str(bool_str(b)))
            &&& m.contains_key("eventNames"@) == (event_names is Some)
            &&& (event_names matches Some(s) ==> m["eventNames"@] == s.wire())
            &&& m.contains_key("characters"@) == (characters is Some)
            &&& (characters matches Some(s) ==> m["characters"@] == s.wire())
            &&& m.contains_key("worlds"@) == (worlds is Some)
            &&& (worlds matches Some(s) ==> m["worlds"@] == s.wire())
            &&& forall|k: Seq<char>|
                m.contains_key(k) ==> (k == "action"@ || k == "all"@ || k == "eventNames"@ || k
                    == "characters"@ || k == "worlds"@ || k == "service"@)
        }),
{
    lemma_request_keys_distinct();
    let s0 = seq![("action"@, JsonModel::Str("clearSubscribe"@))];
    let s1 = opt_all_member(all);
    let s2 = opt_event_member(event_names);
    let s3 = opt_char_member(characters);
    let s4 = opt_world_member(worlds);
    let s5 = seq![("service"@, JsonModel::Str(service.wire()))];
    lemma_pairs_to_map_concat(s0, s1);
    lemma_pairs_to_map_concat(s0 + s1, s2);
    lemma_pairs_to_map_concat(s0 + s1 + s2, s3);
    lemma_pairs_to_map_concat(s0 + s1 + s2 + s3, s4);
    lemma_pairs_to_map_concat(s0 + s1 + s2 + s3 + s4, s5);
    crate::json::lemma_pairs_to_map_singleton(("action"@, JsonModel::Str("clearSubscribe"@)));
    crate::json::lemma_pairs_to_map_singleton(("service"@, JsonModel::Str(service.wire())));
    match all {
        Option::Some(b) => crate::json::lemma_pairs_to_map_singleton(
            ("all"@, JsonModel::Str(bool_str(b))),
        ),
        Option::None => assert(pairs_to_map(s1) == Map::<Seq<char>, JsonModel>::empty()),
    }
    match event_names {
        Option::Some(s) => crate::json::lemma_pairs_to_map_singleton(("eventNames"@, s.wire())),
        Option::None => assert(pairs_to_map(s2) == Map::<Seq<char>, JsonModel>::empty()),
    }
    match characters {
        Option::Some(s) => crate::json::lemma_pairs_to_map_singleton(("characters"@, s.wire())),
        Option::None => assert(pairs_to_map(s3) == Map::<Seq<char>, JsonModel>::empty()),
    }
    match worlds {
        Option::Some(s) => crate::json::lemma_pairs_to_map_singleton(("worlds"@, s.wire())),
        Option::None => assert(pairs_to_map(s4) == Map::<Seq<char>, JsonModel>::empty()),
    }
}

/// No two identifiers collide after conversion to wire text: the set of wire
/// strings of an identifier set has the same cardinality as the set itself,
/// and each wire string parses back to its original identifier.
pub proof fn lemma_id_set_wire_faithful(ids: Set<u64>)
    requires
        ids.finite(),
    ensures
        ids.map(|v: u64| dec_str(v as nat)).len() == ids.len(),
        forall|v: u64| ids.contains(v) ==> parse_dec(dec_str(v as nat)) == Some(v),
{
    assert forall|v: u64| ids.contains(v) implies parse_dec(dec_str(v as nat)) == Some(v) by {
        lemma_dec_round_trip(v);
    }
    let f = |v: u64| dec_str(v as nat);
    assert(vstd::relations::injective_on(f, ids)) by {
        assert forall|x1: u64, x2: u64|
            ids.contains(x1) && ids.contains(x2) && #[trigger] f(x1) == #[trigger] f(
                x2,
            ) implies x1 == x2 by {
            lemma_dec_str_injective(x1, x2);
        }
    }
    vstd::set_lib::lemma_map_size(ids, ids.map(f), f);
}

} // verus!
