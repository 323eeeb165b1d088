//! Codec for the JSON control protocol of a real-time game-telemetry push
//! service: typed outbound requests are encoded into the exact JSON shape the
//! remote service expects, and inbound JSON replies are decoded into typed
//! messages, preserving the wire quirks the service relies on (64-bit values
//! transported as decimal strings, booleans transported as the strings
//! `"true"`/`"false"`, and structurally disambiguated unions).

use vstd::prelude::*;

pub mod bridge;
pub mod json;
pub mod request;
pub mod response;
pub mod text;

verus! {

/// A 64-bit character identifier; transported as a decimal string on the wire.
pub type CharacterId = u64;

/// A 64-bit world (server) identifier; transported as a decimal string.
pub type WorldId = u64;

/// A 64-bit experience identifier; transported inside an event-name string.
pub type ExperienceId = u64;

/// A Unix-seconds timestamp; transported as a decimal string.
pub type Timestamp = u64;

/// A generic 64-bit identifier, the common form of the aliases above.
pub type Id = u64;

/// Which sub-service a request or a reply concerns.  The wire text is the
/// lower-camel-case of the variant name.
#[derive(Debug, Clone, Copy, PartialEq, Eq, Structural)]
pub enum Service {
    Event,
    Push,
}

impl Service {
    /// The wire text of the service tag.
    pub open spec fn wire(self) -> Seq<char> {
        match self {
            Service::Event => "event"@,
            Service::Push => "push"@,
        }
    }

    /// Formats the service tag for the wire.
    pub fn wire_text(&self) -> (r: String)
        ensures
            r@ == self.wire(),
    {
        match self {
            Service::Event => "event".to_owned(),
            Service::Push => "push".to_owned(),
        }
    }
}

/// Whether `s` begins with the two-character service prefix.
pub open spec fn has_service_prefix(s: Seq<char>) -> bool {
    s.len() >= 2 && s[0] == 's' && s[1] == ':'
}

/// A caller credential for the remote service: text beginning with `s:`.
pub struct ServiceId<'a>(&'a str);

impl<'a> View for ServiceId<'a> {
    type V = Seq<char>;

    closed spec fn view(&self) -> Seq<char> {
        self.0@
    }
}

impl<'a> ServiceId<'a> {
    /// The example credential the remote service grants every caller.
    pub fn example() -> (r: ServiceId<'static>)
        ensures
            r@ == "s:example"@,
    {
        ServiceId("s:example")
    }

    /// Accepts text as a service identifier exactly when it begins with the
    /// service prefix.
    pub fn new(service_id: &str) -> (r: Result<ServiceId<'_>, ()>)
        ensures
            r matches Ok(sid) ==> has_service_prefix(service_id@) && sid@ == service_id@,
            r is Err ==> !has_service_prefix(service_id@),
    {
        if service_id.unicode_len() >= 2 && service_id.get_char(0) == 's' && service_id.get_char(1)
            == ':' {
            Ok(ServiceId(service_id))
        } else {
            Err(())
        }
    }

    /// Whether this is the example credential.
    pub fn is_example(&self) -> (r: bool)
        ensures
            r == (self@ == "s:example"@),
    {
        crate::text::str_eq(self.0, "s:example")
    }

    /// The credential's text, as handed in.
    pub fn as_str(&self) -> (r: &str)
        ensures
            r@ == self@,
    {
        self.0
    }
}

/// Which deployment of the remote service to address.
#[derive(Debug, Clone, Copy, PartialEq, Eq, Structural)]
pub enum Environment {
    Pc,
    Ps4Us,
    Ps4Eu,
}

impl Environment {
    /// The wire text of the environment tag.
    pub open spec fn wire(self) -> Seq<char> {
        match self {
            Environment::Pc => "ps2"@,
            Environment::Ps4Us => "ps2ps4us"@,
            Environment::Ps4Eu => "ps2ps4eu"@,
        }
    }

    /// Formats the environment tag, as an endpoint query parameter wants it.
    pub fn as_str(&self) -> (r: &'static str)
        ensures
            r@ == self.wire(),
    {
        match self {
            Environment::Pc => "ps2",
            Environment::Ps4Us => "ps2ps4us",
            Environment::Ps4Eu => "ps2ps4eu",
        }
    }
}

} // verus!
