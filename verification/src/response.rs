//! Inbound messages: the JSON replies of the remote service and their
//! decoding into typed values.
//!
//! An inbound object carries no discriminant field; the five shapes are told
//! apart structurally, by which fields are present, in a fixed order of
//! trial: `connected` first (connection state), then an `online` object of
//! strings (heartbeat), then `payload` (a tagged domain event), then
//! `online` with `detail` (service state), then `subscription`.  The first
//! shape that matches wins; an object matching none decodes to
//! `UnrecognizedMessage` carrying the original text.  A string-coded scalar
//! that fails to parse is a `MalformedField` or `InvalidId`, never a panic;
//! an unknown `event_name` is `UnknownEventName`, never a default.  Extra
//! fields are ignored for forward compatibility.

use vstd::prelude::*;

use crate::bridge::{from_str_value, json_of_text, value_to_json};
use crate::json::{
    arr_of, bool_of, lookup, model_of, models_of_seq, num_of, obj_map, obj_of, pairs_to_map,
    str_of, JsonModel, JsonValue, lemma_models_of_seq_index,
};
use crate::text::{parse_bool, parse_bool_str, parse_dec, parse_u64, str_eq};
use crate::{CharacterId, Timestamp, WorldId};

verus! {

/// The payload of a `serviceMessage`, tagged on the wire by `event_name`.
/// All three numeric fields cross the wire as decimal strings.
#[derive(Debug, Clone, Copy, PartialEq, Eq, Structural)]
pub enum Event {
    PlayerLogin { character_id: CharacterId, timestamp: Timestamp, world_id: WorldId },
    PlayerLogout { character_id: CharacterId, timestamp: Timestamp, world_id: WorldId },
}

/// A subscription acknowledgement: the service's view of what is subscribed.
#[derive(Debug, PartialEq, Eq)]
pub struct Subscription {
    pub character_count: u64,
    pub event_names: Vec<String>,
    pub logical_and_characters_with_worlds: bool,
    pub worlds: Vec<String>,
}

/// One inbound envelope.
#[derive(Debug, PartialEq, Eq)]
pub enum Message {
    ConnectionStateChanged { connected: bool },
    Heartbeat { online: Vec<(String, String)> },
    ServiceMessage { payload: Event },
    ServiceStateChanged { online: bool, detail: String },
    Subscription { subscription: Subscription },
}

/// The required field a decode failure names.
#[derive(Debug, Clone, Copy, PartialEq, Eq, Structural)]
pub enum Field {
    Connected,
    Online,
    Detail,
    EventName,
    CharacterId,
    Timestamp,
    WorldId,
    CharacterCount,
    EventNames,
    LogicalAndCharactersWithWorlds,
    Worlds,
}

/// A decode failure.  Every failure is returned as a typed value: the
/// decoder never panics, never logs, and never substitutes a default.
#[derive(Debug, PartialEq, Eq)]
pub enum DecodeError {
    /// A field that must hold a decimal string does hold a string, but not
    /// a valid unsigned 64-bit decimal.
    InvalidId(Field),
    /// A required field is absent or holds a value of the wrong shape.
    MalformedField(Field),
    /// The `event_name` tag is outside the known catalog.
    UnknownEventName,
    /// The object matches none of the five known shapes (or the text is not
    /// a JSON object at all); carries the original text for diagnostics.
    UnrecognizedMessage(String),
}

/// The mathematical image of a subscription acknowledgement.
#[verifier::ext_equal]
pub struct SubscriptionModel {
    pub character_count: u64,
    pub event_names: Seq<Seq<char>>,
    pub logical_and_characters_with_worlds: bool,
    pub worlds: Seq<Seq<char>>,
}

/// The mathematical image of an inbound envelope.  A heartbeat's `online`
/// object is a map, as a JSON object is.
#[verifier::ext_equal]
pub enum MessageModel {
    ConnectionStateChanged { connected: bool },
    Heartbeat { online: Map<Seq<char>, Seq<char>> },
    ServiceMessage { payload: Event },
    ServiceStateChanged { online: bool, detail: Seq<char> },
    Subscription { subscription: SubscriptionModel },
}

/// The mathematical image of a decode failure.
#[verifier::ext_equal]
pub enum DecodeErrorModel {
    InvalidId(Field),
    MalformedField(Field),
    UnknownEventName,
    UnrecognizedMessage(Seq<char>),
}

impl DeepView for Subscription {
    type V = SubscriptionModel;

    open spec fn deep_view(&self) -> SubscriptionModel {
        SubscriptionModel {
            character_count: self.character_count,
            event_names: self.event_names.deep_view(),
            logical_and_characters_with_worlds: self.logical_and_characters_with_worlds,
            worlds: self.worlds.deep_view(),
        }
    }
}

impl DeepView for Message {
    type V = MessageModel;

    open spec fn deep_view(&self) -> MessageModel {
        match self {
            Message::ConnectionStateChanged { connected } => MessageModel::ConnectionStateChanged {
                connected: *connected,
            },
            Message::Heartbeat { online } => MessageModel::Heartbeat {
                online: pairs_to_map(online.deep_view()),
            },
            Message::ServiceMessage { payload } => MessageModel::ServiceMessage {
                payload: *payload,
            },
            Message::ServiceStateChanged { online, detail } => MessageModel::ServiceStateChanged {
                online: *online,
                detail: detail@,
            },
            Message::Subscription { subscription } => MessageModel::Subscription {
                subscription: subscription.deep_view(),
            },
        }
    }
}

impl DeepView for DecodeError {
    type V = DecodeErrorModel;

    open spec fn deep_view(&self) -> DecodeErrorModel {
        match self {
            DecodeError::InvalidId(f) => DecodeErrorModel::InvalidId(*f),
            DecodeError::MalformedField(f) => DecodeErrorModel::MalformedField(*f),
            DecodeError::UnknownEventName => DecodeErrorModel::UnknownEventName,
            DecodeError::UnrecognizedMessage(t) => DecodeErrorModel::UnrecognizedMessage(t@),
        }
    }
}

/// Whether every value of a member map is a string.
pub open spec fn is_string_map(m: Map<Seq<char>, JsonModel>) -> bool {
    forall|k: Seq<char>| m.contains_key(k) ==> #[trigger] m[k] is Str
}

/// The string map a member map of string values denotes.
pub open spec fn str_map_of(m: Map<Seq<char>, JsonModel>) -> Map<Seq<char>, Seq<char>> {
    Map::new(|k: Seq<char>| m.contains_key(k), |k: Seq<char>| str_of(m[k]))
}

/// Whether every element of a list is a string.
pub open spec fn is_str_seq(a: Seq<JsonModel>) -> bool {
    forall|i: int| 0 <= i < a.len() ==> #[trigger] a[i] is Str
}

/// The string list a list of string values denotes.
pub open spec fn str_seq_of(a: Seq<JsonModel>) -> Seq<Seq<char>> {
    Seq::new(a.len(), |i: int| str_of(a[i]))
}

/// Whether the object selects the heartbeat shape: an `online` field holding
/// an object all of whose values are strings.
pub open spec fn is_heartbeat(m: Map<Seq<char>, JsonModel>) -> bool {
    &&& m.contains_key("online"@)
    &&& m["online"@] is Obj
    &&& is_string_map(obj_of(m["online"@]))
}

/// What decoding the connection-state shape yields: `connected` must hold
/// the string `"true"` or `"false"`.
pub open spec fn decode_connection_model(m: Map<Seq<char>, JsonModel>) -> Result<
    MessageModel,
    DecodeErrorModel,
> {
    if m["connected"@] is Str && parse_bool_str(str_of(m["connected"@])) is Some {
        Ok(
            MessageModel::ConnectionStateChanged {
                connected: parse_bool_str(str_of(m["connected"@]))->0,
            },
        )
    } else {
        Err(DecodeErrorModel::MalformedField(Field::Connected))
    }
}

/// What reading one decimal-string field of an event payload yields:
/// `MalformedField` where the field is absent or not a string, `InvalidId`
/// where the string is not a valid unsigned 64-bit decimal.
pub open spec fn id_field(p: Map<Seq<char>, JsonModel>, key: Seq<char>, f: Field) -> Result<
    u64,
    DecodeErrorModel,
> {
    if p.contains_key(key) && p[key] is Str {
        match parse_dec(str_of(p[key])) {
            Option::Some(v) => Ok(v),
            Option::None => Err(DecodeErrorModel::InvalidId(f)),
        }
    } else {
        Err(DecodeErrorModel::MalformedField(f))
    }
}

/// What decoding a `serviceMessage` payload yields.  The `event_name` tag
/// selects the expected payload shape; a tag outside the known catalog is
/// `UnknownEventName`, never a default.
pub open spec fn decode_payload_model(p: Map<Seq<char>, JsonModel>) -> Result<
    MessageModel,
    DecodeErrorModel,
> {
    if !(p.contains_key("event_name"@) && p["event_name"@] is Str) {
        Err(DecodeErrorModel::MalformedField(Field::EventName))
    } else {
        let name = str_of(p["event_name"@]);
        if name == "PlayerLogin"@ || name == "PlayerLogout"@ {
            match id_field(p, "character_id"@, Field::CharacterId) {
                Err(e) => Err(e),
                Ok(cid) => match id_field(p, "timestamp"@, Field::Timestamp) {
                    Err(e) => Err(e),
                    Ok(ts) => match id_field(p, "world_id"@, Field::WorldId) {
                        Err(e) => Err(e),
                        Ok(wid) => Ok(
                            MessageModel::ServiceMessage {
                                payload: if name == "PlayerLogin"@ {
                                    Event::PlayerLogin {
                                        character_id: cid,
                                        timestamp: ts,
                                        world_id: wid,
                                    }
                                } else {
                                    Event::PlayerLogout {
                                        character_id: cid,
                                        timestamp: ts,
                                        world_id: wid,
                                    }
                                },
                            },
                        ),
                    },
                },
            }
        } else {
            Err(DecodeErrorModel::UnknownEventName)
        }
    }
}

/// What decoding the service-state shape yields: `online` must hold the
/// string `"true"` or `"false"`; `detail` is known to be a string.
pub open spec fn decode_state_model(m: Map<Seq<char>, JsonModel>) -> Result<
    MessageModel,
    DecodeErrorModel,
> {
    if m.contains_key("online"@) && m["online"@] is Str && parse_bool_str(str_of(m["online"@]))
        is Some {
        Ok(
            MessageModel::ServiceStateChanged {
                online: parse_bool_str(str_of(m["online"@]))->0,
                detail: str_of(m["detail"@]),
            },
        )
    } else {
        Err(DecodeErrorModel::MalformedField(Field::Online))
    }
}

/// What decoding the subscription shape yields: `characterCount` is a native
/// unsigned integer, `eventNames` and `worlds` arrays of strings, and
/// `logicalAndCharactersWithWorlds` a native boolean.
pub open spec fn decode_subscription_model(sub: Map<Seq<char>, JsonModel>) -> Result<
    MessageModel,
    DecodeErrorModel,
> {
    if !(sub.contains_key("characterCount"@) && sub["characterCount"@] is Num) {
        Err(DecodeErrorModel::MalformedField(Field::CharacterCount))
    } else if !(sub.contains_key("eventNames"@) && sub["eventNames"@] is Arr && is_str_seq(
        arr_of(sub["eventNames"@]),
    )) {
        Err(DecodeErrorModel::MalformedField(Field::EventNames))
    } else if !(sub.contains_key("logicalAndCharactersWithWorlds"@) && sub[
        "logicalAndCharactersWithWorlds"@
    ] is Bool) {
        Err(DecodeErrorModel::MalformedField(Field::LogicalAndCharactersWithWorlds))
    } else if !(sub.contains_key("worlds"@) && sub["worlds"@] is Arr && is_str_seq(
        arr_of(sub["worlds"@]),
    )) {
        Err(DecodeErrorModel::MalformedField(Field::Worlds))
    } else {
        Ok(
            MessageModel::Subscription {
                subscription: SubscriptionModel {
                    character_count: num_of(sub["characterCount"@]),
                    event_names: str_seq_of(arr_of(sub["eventNames"@])),
                    logical_and_characters_with_worlds: bool_of(
                        sub["logicalAndCharactersWithWorlds"@],
                    ),
                    worlds: str_seq_of(arr_of(sub["worlds"@])),
                },
            },
        )
    }
}

/// What decoding a document yields: the five shapes are tried in the fixed
/// order, the first whose selecting fields are present winning; a document
/// matching none — or that is no object at all — is `UnrecognizedMessage`
/// carrying the original text `raw`.
pub open spec fn decode_model(j: JsonModel, raw: Seq<char>) -> Result<
    MessageModel,
    DecodeErrorModel,
> {
    match j {
        JsonModel::Obj(m) => {
            if m.contains_key("connected"@) {
                decode_connection_model(m)
            } else if is_heartbeat(m) {
                Ok(MessageModel::Heartbeat { online: str_map_of(obj_of(m["online"@])) })
            } else if m.contains_key("payload"@) && m["payload"@] is Obj {
                decode_payload_model(obj_of(m["payload"@]))
            } else if m.contains_key("online"@) && m.contains_key("detail"@) && m["detail"@]
                is Str {
                decode_state_model(m)
            } else if m.contains_key("subscription"@) && m["subscription"@] is Obj {
                decode_subscription_model(obj_of(m["subscription"@]))
            } else {
                Err(DecodeErrorModel::UnrecognizedMessage(raw))
            }
        },
        _ => Err(DecodeErrorModel::UnrecognizedMessage(raw)),
    }
}

/// What decoding one text frame yields: text that is not a JSON document is
/// `UnrecognizedMessage`; a document decodes as `decode_model` says.
pub open spec fn decode_text_model(s: Seq<char>) -> Result<MessageModel, DecodeErrorModel> {
    match json_of_text(s) {
        Option::Some(j) => decode_model(j, s),
        Option::None => Err(DecodeErrorModel::UnrecognizedMessage(s)),
    }
}


/// The image of an executable decode result.
pub open spec fn result_model(r: Result<Message, DecodeError>) -> Result<
    MessageModel,
    DecodeErrorModel,
> {
    match r {
        Result::Ok(m) => Ok(m.deep_view()),
        Result::Err(e) => Err(e.deep_view()),
    }
}

/// The string map denoted by the first `n` members of a member list whose
/// map values are strings so far.
spec fn prefix_str_map(s: Seq<(String, JsonValue)>, n: int) -> Map<Seq<char>, Seq<char>> {
    Map::new(
        |k: Seq<char>| exists|j: int| 0 <= j < n && #[trigger] s[j].0@ == k,
        |k: Seq<char>| crate::json::str_of(obj_map(s)[k]),
    )
}

/// Copies an object's members as string pairs, if every value the object's
/// map holds is a string; yields nothing otherwise.  Of several members with
/// one key, the object's map semantics (the last wins) decides the value.
fn copy_string_members(members: &Vec<(String, JsonValue)>) -> (r: Option<Vec<(String, String)>>)
    ensures
        match r {
            Option::Some(pairs) => is_string_map(obj_map(members@)) && pairs_to_map(
                pairs.deep_view(),
            ) == str_map_of(obj_map(members@)),
            Option::None => !is_string_map(obj_map(members@)),
        },
{
    let mut out: Vec<(String, String)> = Vec::new();
    let mut i: usize = 0;
    proof {
        assert(out.deep_view() =~= Seq::<(Seq<char>, Seq<char>)>::empty());
        assert(pairs_to_map(out.deep_view()) =~= prefix_str_map(members@, 0));
    }
    while i < members.len()
        invariant
            0 <= i <= members@.len(),
            forall|j: int|
                0 <= j < i ==> obj_map(members@).contains_key(#[trigger] members@[j].0@)
                    && obj_map(members@)[members@[j].0@] is Str,
            pairs_to_map(out.deep_view()) == prefix_str_map(members@, i as int),
        decreases members@.len() - i,
    {
        let found = lookup(members, members[i].0.as_str());
        match found {
            Option::Some(v) => match v {
                JsonValue::Str(s) => {
                    let ghost old_deep = out.deep_view();
                    let p = (members[i].0.clone(), s.clone());
                    let ghost pv = (p.0@, p.1@);
                    out.push(p);
                    proof {
                        assert(out.deep_view() =~= old_deep.push(pv));
                        crate::json::lemma_pairs_to_map_push(old_deep, pv);
                        assert forall|k: Seq<char>|
                            prefix_str_map(members@, i + 1).contains_key(k)
                                == prefix_str_map(members@, i as int).insert(pv.0, pv.1).contains_key(k)
                        by {
                            if k == pv.0 {
                                assert(members@[i as int].0@ == k);
                            } else {
                                if exists|j: int| 0 <= j < i + 1 && #[trigger] members@[j].0@ == k {
                                    let j = choose|j: int|
                                        0 <= j < i + 1 && #[trigger] members@[j].0@ == k;
                                    assert(j < i);
                                }
                            }
                        }
                        assert(pairs_to_map(out.deep_view()) =~= prefix_str_map(
                            members@,
                            i as int + 1,
                        ));
                    }
                },
                _ => {
                    proof {
                        crate::json::lemma_obj_map_contains(members@, members@[i as int].0@);
                    }
                    return None;
                },
            },
            Option::None => {
                proof {
                    crate::json::lemma_obj_map_contains(members@, members@[i as int].0@);
                    assert(false);
                }
                return None;
            },
        }
        i += 1;
    }
    proof {
        assert forall|k: Seq<char>| obj_map(members@).contains_key(k) implies #[trigger] obj_map(
            members@,
        )[k] is Str by {
            crate::json::lemma_obj_map_contains(members@, k);
            let j = choose|j: int| 0 <= j < members@.len() && #[trigger] members@[j].0@ == k;
            assert(obj_map(members@)[members@[j].0@] is Str);
        }
        assert forall|k: Seq<char>|
            prefix_str_map(members@, members@.len() as int).contains_key(k) == str_map_of(
                obj_map(members@),
            ).contains_key(k) by {
            crate::json::lemma_obj_map_contains(members@, k);
        }
        assert(pairs_to_map(out.deep_view()) =~= str_map_of(obj_map(members@)));
    }
    Some(out)
}

/// Copies an array's elements as strings, if every element is a string.
fn copy_string_array(a: &Vec<JsonValue>) -> (r: Option<Vec<String>>)
    ensures
        match r {
            Option::Some(v) => is_str_seq(models_of_seq(a@)) && v.deep_view() == str_seq_of(
                models_of_seq(a@),
            ),
            Option::None => !is_str_seq(models_of_seq(a@)),
        },
{
    let mut out: Vec<String> = Vec::new();
    let mut i: usize = 0;
    proof {
        assert(out.deep_view() =~= Seq::<Seq<char>>::empty());
    }
    while i < a.len()
        invariant
            0 <= i <= a@.len(),
            forall|j: int| 0 <= j < i ==> #[trigger] models_of_seq(a@)[j] is Str,
            out.deep_view() == str_seq_of(models_of_seq(a@)).take(i as int),
        decreases a@.len() - i,
    {
        proof {
            lemma_models_of_seq_index(a@);
        }
        match &a[i] {
            JsonValue::Str(s) => {
                let ghost old_deep = out.deep_view();
                out.push(s.clone());
                proof {
                    assert(out.deep_view() =~= old_deep.push(s@));
                    assert(out.deep_view() =~= str_seq_of(models_of_seq(a@)).take(i as int + 1));
                }
            },
            _ => {
                proof {
                    assert(!(models_of_seq(a@)[i as int] is Str));
                }
                return None;
            },
        }
        i += 1;
    }
    proof {
        lemma_models_of_seq_index(a@);
        assert(out.deep_view() =~= str_seq_of(models_of_seq(a@)));
    }
    Some(out)
}

/// Reads one decimal-string field of an event payload.
fn id_field_exec(pm: &Vec<(String, JsonValue)>, key: &str, f: Field) -> (r: Result<
    u64,
    DecodeError,
>)
    ensures
        match r {
            Result::Ok(n) => id_field(obj_map(pm@), key@, f) == Ok::<u64, DecodeErrorModel>(n),
            Result::Err(e) => id_field(obj_map(pm@), key@, f) == Err::<u64, DecodeErrorModel>(
                e.deep_view(),
            ),
        },
{
    match lookup(pm, key) {
        Option::Some(v) => match v {
            JsonValue::Str(s) => match parse_u64(s.as_str()) {
                Option::Some(n) => Ok(n),
                Option::None => Err(DecodeError::InvalidId(f)),
            },
            _ => Err(DecodeError::MalformedField(f)),
        },
        Option::None => Err(DecodeError::MalformedField(f)),
    }
}

/// Decodes the payload object of a `serviceMessage`.
fn decode_payload_exec(pm: &Vec<(String, JsonValue)>) -> (r: Result<Message, DecodeError>)
    ensures
        result_model(r) == decode_payload_model(obj_map(pm@)),
{
    match lookup(pm, "event_name") {
        Option::Some(nv) => match nv {
            JsonValue::Str(name) => {
                let login = str_eq(name.as_str(), "PlayerLogin");
                let logout = str_eq(name.as_str(), "PlayerLogout");
                if login || logout {
                    let character_id = match id_field_exec(pm, "character_id", Field::CharacterId) {
                        Result::Ok(n) => n,
                        Result::Err(e) => {
                            return Err(e);
                        },
                    };
                    let timestamp = match id_field_exec(pm, "timestamp", Field::Timestamp) {
                        Result::Ok(n) => n,
                        Result::Err(e) => {
                            return Err(e);
                        },
                    };
                    let world_id = match id_field_exec(pm, "world_id", Field::WorldId) {
                        Result::Ok(n) => n,
                        Result::Err(e) => {
                            return Err(e);
                        },
                    };
                    if login {
                        Ok(
                            Message::ServiceMessage {
                                payload: Event::PlayerLogin { character_id, timestamp, world_id },
                            },
                        )
                    } else {
                        Ok(
                            Message::ServiceMessage {
                                payload: Event::PlayerLogout { character_id, timestamp, world_id },
                            },
                        )
                    }
                } else {
                    Err(DecodeError::UnknownEventName)
                }
            },
            _ => Err(DecodeError::MalformedField(Field::EventName)),
        },
        Option::None => Err(DecodeError::MalformedField(Field::EventName)),
    }
}

/// Decodes the object under `subscription`.
fn decode_subscription_exec(sm: &Vec<(String, JsonValue)>) -> (r: Result<Message, DecodeError>)
    ensures
        result_model(r) == decode_subscription_model(obj_map(sm@)),
{
    let character_count = match lookup(sm, "characterCount") {
        Option::Some(v) => match v {
            JsonValue::Num(n) => *n,
            _ => {
                return Err(DecodeError::MalformedField(Field::CharacterCount));
            },
        },
        Option::None => {
            return Err(DecodeError::MalformedField(Field::CharacterCount));
        },
    };
    let event_names = match lookup(sm, "eventNames") {
        Option::Some(v) => match v {
            JsonValue::Arr(a) => match copy_string_array(a) {
                Option::Some(names) => names,
                Option::None => {
                    return Err(DecodeError::MalformedField(Field::EventNames));
                },
            },
            _ => {
                return Err(DecodeError::MalformedField(Field::EventNames));
            },
        },
        Option::None => {
            return Err(DecodeError::MalformedField(Field::EventNames));
        },
    };
    let logical_and_characters_with_worlds = match lookup(sm, "logicalAndCharactersWithWorlds") {
        Option::Some(v) => match v {
            JsonValue::Bool(b) => *b,
            _ => {
                return Err(DecodeError::MalformedField(Field::LogicalAndCharactersWithWorlds));
            },
        },
        Option::None => {
            return Err(DecodeError::MalformedField(Field::LogicalAndCharactersWithWorlds));
        },
    };
    let worlds = match lookup(sm, "worlds") {
        Option::Some(v) => match v {
            JsonValue::Arr(a) => match copy_string_array(a) {
                Option::Some(names) => names,
                Option::None => {
                    return Err(DecodeError::MalformedField(Field::Worlds));
                },
            },
            _ => {
                return Err(DecodeError::MalformedField(Field::Worlds));
            },
        },
        Option::None => {
            return Err(DecodeError::MalformedField(Field::Worlds));
        },
    };
    Ok(
        Message::Subscription {
            subscription: Subscription {
                character_count,
                event_names,
                logical_and_characters_with_worlds,
                worlds,
            },
        },
    )
}

/// Decodes one parsed document into a typed message; `raw` is the original
/// text, carried into `UnrecognizedMessage` for diagnostics.  The result is
/// exactly what `decode_model` says of the document's image.
pub fn decode_value(v: &JsonValue, raw: &str) -> (r: Result<Message, DecodeError>)
    ensures
        result_model(r) == decode_model(model_of(*v), raw@),
{
    match v {
        JsonValue::Obj(members) => {
            match lookup(members, "connected") {
                Option::Some(c) => {
                    return match c {
                        JsonValue::Str(s) => match parse_bool(s.as_str()) {
                            Option::Some(b) => Ok(Message::ConnectionStateChanged { connected: b }),
                            Option::None => Err(DecodeError::MalformedField(Field::Connected)),
                        },
                        _ => Err(DecodeError::MalformedField(Field::Connected)),
                    };
                },
                Option::None => {},
            }
            match lookup(members, "online") {
                Option::Some(o) => match o {
                    JsonValue::Obj(inner) => match copy_string_members(inner) {
                        Option::Some(pairs) => {
                            return Ok(Message::Heartbeat { online: pairs });
                        },
                        Option::None => {},
                    },
                    _ => {},
                },
                Option::None => {},
            }
            match lookup(members, "payload") {
                Option::Some(p) => match p {
                    JsonValue::Obj(pm) => {
                        return decode_payload_exec(pm);
                    },
                    _ => {},
                },
                Option::None => {},
            }
            match lookup(members, "detail") {
                Option::Some(d) => match d {
                    JsonValue::Str(detail) => match lookup(members, "online") {
                        Option::Some(o) => {
                            return match o {
                                JsonValue::Str(s) => match parse_bool(s.as_str()) {
                                    Option::Some(b) => Ok(
                                        Message::ServiceStateChanged {
                                            online: b,
                                            detail: detail.clone(),
                                        },
                                    ),
                                    Option::None => Err(
                                        DecodeError::MalformedField(Field::Online),
                                    ),
                                },
                                _ => Err(DecodeError::MalformedField(Field::Online)),
                            };
                        },
                        Option::None => {},
                    },
                    _ => {},
                },
                Option::None => {},
            }
            match lookup(members, "subscription") {
                Option::Some(sv) => match sv {
                    JsonValue::Obj(sm) => {
                        return decode_subscription_exec(sm);
                    },
                    _ => {},
                },
                Option::None => {},
            }
            Err(DecodeError::UnrecognizedMessage(raw.to_owned()))
        },
        _ => Err(DecodeError::UnrecognizedMessage(raw.to_owned())),
    }
}

/// Decodes one inbound UTF-8 JSON text frame into a typed message.  The
/// result is exactly what `decode_text_model` says of the text: text that is
/// no JSON document, or a document matching none of the five shapes, is
/// `UnrecognizedMessage` carrying the text; every other failure is the typed
/// error `decode_model` names.  Decoding never panics.
pub fn decode_message(s: &str) -> (r: Result<Message, DecodeError>)
    ensures
        result_model(r) == decode_text_model(s@),
{
    match from_str_value(s) {
        Option::Some(v) => {
            let j = value_to_json(v);
            decode_value(&j, s)
        },
        Option::None => Err(DecodeError::UnrecognizedMessage(s.to_owned())),
    }
}


/// A document matching none of the five known shapes — or no object at all —
/// decodes to `UnrecognizedMessage` carrying the original text: never a
/// partial value, never a default (and, the decoder being verified, never a
/// panic).
pub proof fn lemma_unmatched_decodes_unrecognized(j: JsonModel, raw: Seq<char>)
    requires
        j matches JsonModel::Obj(m) ==> {
            &&& !m.contains_key("connected"@)
            &&& !is_heartbeat(m)
            &&& !(m.contains_key("payload"@) && m["payload"@] is Obj)
            &&& !(m.contains_key("online"@) && m.contains_key("detail"@) && m["detail"@] is Str)
            &&& !(m.contains_key("subscription"@) && m["subscription"@] is Obj)
        },
    ensures
        decode_model(j, raw) == Err::<MessageModel, DecodeErrorModel>(
            DecodeErrorModel::UnrecognizedMessage(raw),
        ),
{
}

/// A `serviceMessage` payload whose `event_name` tag lies outside the known
/// catalog decodes to `UnknownEventName` — the tag is never swallowed and no
/// default event is substituted.
pub proof fn lemma_unknown_event_name(m: Map<Seq<char>, JsonModel>, raw: Seq<char>)
    requires
        !m.contains_key("connected"@),
        !is_heartbeat(m),
        m.contains_key("payload"@),
        m["payload"@] is Obj,
        obj_of(m["payload"@]).contains_key("event_name"@),
        obj_of(m["payload"@])["event_name"@] is Str,
        str_of(obj_of(m["payload"@])["event_name"@]) != "PlayerLogin"@,
        str_of(obj_of(m["payload"@])["event_name"@]) != "PlayerLogout"@,
    ensures
        decode_model(JsonModel::Obj(m), raw) == Err::<MessageModel, DecodeErrorModel>(
            DecodeErrorModel::UnknownEventName,
        ),
{
}


} // verus!
