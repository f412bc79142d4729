//! Plain models of the values the request builders carry: identifiers,
//! permission sets, timestamps, and the small records that ride along in
//! payloads.

use vstd::prelude::*;

use crate::digits::spec_decimal;
use crate::digits::u64_to_decimal;
use crate::json::JsonValue;
use crate::json::SpecJson;
use crate::nullable::JsonEncode;

verus! {

broadcast use vstd::std_specs::vec::group_vec_axioms, vstd::seq::group_seq_axioms;

/// Identifier of a resource: a non-zero integer, carried on the wire as a
/// string of decimal digits.
#[derive(Clone, Copy, Debug, PartialEq, Eq, Structural, Hash, PartialOrd, Ord)]
pub struct Id(pub u64);

impl Id {
    /// A new identifier; zero is not an identifier.
    pub fn new(value: u64) -> (r: Id)
        requires
            value != 0,
        ensures
            r.0 == value,
    {
        Id(value)
    }

    /// The inner value.
    pub fn get(self) -> (r: u64)
        ensures
            r == self.0,
    {
        self.0
    }
}

impl DeepView for Id {
    type V = Id;

    open spec fn deep_view(&self) -> Id {
        *self
    }
}

impl JsonEncode for Id {
    open spec fn json_view(&self) -> SpecJson {
        SpecJson::String(spec_decimal(self.0 as nat))
    }

    proof fn json_view_not_null(&self) {
    }

    fn encode_json(&self) -> (r: JsonValue) {
        JsonValue::String(u64_to_decimal(self.0))
    }
}

/// A set of permissions: the bit set the service defines, carried on the
/// wire as a string of decimal digits.
#[derive(Clone, Copy, Debug, PartialEq, Eq, Structural, Hash)]
pub struct Permissions(pub u64);

impl DeepView for Permissions {
    type V = Permissions;

    open spec fn deep_view(&self) -> Permissions {
        *self
    }
}

impl JsonEncode for Permissions {
    open spec fn json_view(&self) -> SpecJson {
        SpecJson::String(spec_decimal(self.0 as nat))
    }

    proof fn json_view_not_null(&self) {
    }

    fn encode_json(&self) -> (r: JsonValue) {
        JsonValue::String(u64_to_decimal(self.0))
    }
}

/// Greatest microsecond value a timestamp can hold: the last microsecond of
/// the year 9999, the last year the wire's date format can spell.
pub const MAX_TIMESTAMP_MICROS: i64 = 253402300799999999;

/// What a timestamp formats to: the RFC 3339 text of the instant, a
/// function of the microsecond value alone.
pub uninterp spec fn iso8601_of(micros: i64) -> Seq<char>;

/// Relies on time's `OffsetDateTime::from_unix_timestamp_nanos` and
/// `OffsetDateTime::format` with the well-known RFC 3339 description: for a
/// non-negative timestamp up to the year 9999 the conversion is in range and
/// the formatting succeeds — the year lies in 0..10000 and the offset is
/// UTC — and the text is a function of the instant alone.
#[verifier::external_body]
fn format_iso8601(micros: i64) -> (r: String)
    requires
        0 <= micros <= MAX_TIMESTAMP_MICROS,
    ensures
        r@ == iso8601_of(micros),
{
    let instant = time::OffsetDateTime::from_unix_timestamp_nanos(micros as i128 * 1000).unwrap();
    instant.format(&time::format_description::well_known::Rfc3339).unwrap()
}

/// An instant in time: whole microseconds since the Unix epoch, formatted as
/// RFC 3339 text on the wire. Every value lies in the formattable range.
#[derive(Clone, Copy, Debug)]
pub struct Timestamp {
    micros: i64,
}

impl Timestamp {
    #[verifier::type_invariant]
    spec fn type_inv(self) -> bool {
        0 <= self.micros <= MAX_TIMESTAMP_MICROS
    }

    /// The microsecond value, for specifications.
    pub closed spec fn spec_micros(self) -> i64 {
        self.micros
    }

    /// A timestamp from whole microseconds since the epoch.
    pub fn from_micros(micros: i64) -> (r: Timestamp)
        requires
            0 <= micros <= MAX_TIMESTAMP_MICROS,
        ensures
            r.spec_micros() == micros,
    {
        Timestamp { micros }
    }

    /// A timestamp from whole seconds since the epoch.
    pub fn from_secs(secs: i64) -> (r: Timestamp)
        requires
            0 <= secs <= MAX_TIMESTAMP_MICROS / 1000000,
        ensures
            r.spec_micros() == secs * 1000000,
    {
        Timestamp { micros: secs * 1000000 }
    }

    /// Whole microseconds since the epoch.
    pub fn as_micros(self) -> (r: i64)
        ensures
            r == self.spec_micros(),
    {
        self.micros
    }

    /// Whole seconds since the epoch.
    pub fn as_secs(self) -> (r: i64)
        ensures
            r == self.spec_micros() / 1000000,
    {
        proof {
            use_type_invariant(self);
        }
        self.micros / 1000000
    }

}

impl JsonEncode for Timestamp {
    open spec fn json_view(&self) -> SpecJson {
        SpecJson::String(iso8601_of(self.spec_micros()))
    }

    proof fn json_view_not_null(&self) {
    }

    fn encode_json(&self) -> (r: JsonValue) {
        proof {
            use_type_invariant(*self);
        }
        JsonValue::String(format_iso8601(self.as_micros()))
    }
}

/// Kind of an interaction, carried on the wire as an integer code.
#[derive(Clone, Copy, Debug, PartialEq, Eq, Structural, Hash)]
pub enum InteractionType {
    Ping,
    ApplicationCommand,
    MessageComponent,
    ApplicationCommandAutocomplete,
    ModalSubmit,
}

/// The wire code of an interaction kind.
pub open spec fn interaction_type_code(t: InteractionType) -> i64 {
    match t {
        InteractionType::Ping => 1,
        InteractionType::ApplicationCommand => 2,
        InteractionType::MessageComponent => 3,
        InteractionType::ApplicationCommandAutocomplete => 4,
        InteractionType::ModalSubmit => 5,
    }
}

impl InteractionType {
    /// The wire code of this interaction kind.
    pub fn code(self) -> (c: u8)
        ensures
            c as i64 == interaction_type_code(self),
    {
        match self {
            InteractionType::Ping => 1,
            InteractionType::ApplicationCommand => 2,
            InteractionType::MessageComponent => 3,
            InteractionType::ApplicationCommandAutocomplete => 4,
            InteractionType::ModalSubmit => 5,
        }
    }
}

/// Data of a ping interaction.
#[derive(Debug)]
pub struct Ping {
    /// ID of the associated application.
    pub application_id: Id,
    /// ID of the interaction.
    pub id: Id,
    /// Kind of the interaction.
    pub kind: InteractionType,
    /// Token of the interaction.
    pub token: String,
}

/// A channel shown on a guild's welcome screen, with what is shown for it.
#[derive(Debug)]
pub struct WelcomeScreenChannel {
    /// ID of the channel.
    pub channel_id: Id,
    /// Description shown for the channel.
    pub description: String,
    /// ID of the emoji shown beside it, for a custom emoji.
    pub emoji_id: Option<Id>,
    /// Name of the emoji shown beside it, for a unicode emoji.
    pub emoji_name: Option<String>,
}

/// The document a welcome-screen channel encodes to: every field is
/// present, an absent emoji as null.
pub open spec fn spec_welcome_channel(c: WelcomeScreenChannel) -> SpecJson {
    SpecJson::Object(
        seq![
            ("channel_id"@, SpecJson::String(spec_decimal(c.channel_id.0 as nat))),
            ("description"@, SpecJson::String(c.description@)),
            (
                "emoji_id"@,
                match c.emoji_id {
                    Some(id) => SpecJson::String(spec_decimal(id.0 as nat)),
                    None => SpecJson::Null,
                },
            ),
            (
                "emoji_name"@,
                match c.emoji_name {
                    Some(n) => SpecJson::String(n@),
                    None => SpecJson::Null,
                },
            ),
        ],
    )
}

impl WelcomeScreenChannel {
    /// Encode this channel entry.
    pub fn to_json(&self) -> (r: JsonValue)
        ensures
            r.deep_view() == spec_welcome_channel(*self),
    {
        let mut pairs: Vec<(String, JsonValue)> = Vec::new();
        pairs.push(
            (String::from_str("channel_id"), JsonValue::String(u64_to_decimal(self.channel_id.0))),
        );
        pairs.push(
            (String::from_str("description"), JsonValue::String(self.description.clone())),
        );
        let emoji_id = match &self.emoji_id {
            Some(id) => JsonValue::String(u64_to_decimal(id.0)),
            None => JsonValue::Null,
        };
        pairs.push((String::from_str("emoji_id"), emoji_id));
        let emoji_name = match &self.emoji_name {
            Some(n) => JsonValue::String(n.clone()),
            None => JsonValue::Null,
        };
        pairs.push((String::from_str("emoji_name"), emoji_name));
        proof {
            crate::json::lemma_json_object_model(pairs@, pairs@.len() as int);
            assert(crate::json::json_object_model(pairs@, pairs@.len() as int)
                =~= spec_welcome_channel(*self)->Object_0);
        }
        JsonValue::Object(pairs)
    }
}

} // verus!
