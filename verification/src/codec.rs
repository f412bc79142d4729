//! The polymorphic option codec: one decoder serves all ten variants by
//! reading fields into slots in a single pass, then dispatching on the
//! `type` discriminant; the encoder projects each variant onto one shared
//! field envelope and omits the fields that variant has no meaning for.

use vstd::prelude::*;
use vstd::string::StringExecFns;

use crate::json::JsonValue;
use crate::json::SpecJson;
use crate::option::ChannelType;
use crate::option::CommandOption;
use crate::option::CommandOptionChoice;
use crate::option::CommandOptionType;
use crate::option::CommandOptionValue;
use crate::option::Number;
use crate::option::SpecChoice;
use crate::option::SpecCommandOption;
use crate::option::channel_type_code;
use crate::option::channel_type_from_code;
use crate::option::option_type_code;
use crate::option::option_type_from_code;

verus! {

broadcast use vstd::std_specs::vec::group_vec_axioms, vstd::seq::group_seq_axioms;

/// A field of the wire object that the codec knows. Keys outside this list
/// are accepted and ignored, for forward compatibility.
#[derive(Clone, Copy, Debug, PartialEq, Eq, Structural, Hash)]
pub enum OptionField {
    Autocomplete,
    ChannelTypes,
    Choices,
    Description,
    MaxValue,
    MinValue,
    Name,
    Options,
    Required,
    Type,
}

/// The wire key of a field.
pub open spec fn field_key(f: OptionField) -> Seq<char> {
    match f {
        OptionField::Autocomplete => "autocomplete"@,
        OptionField::ChannelTypes => "channel_types"@,
        OptionField::Choices => "choices"@,
        OptionField::Description => "description"@,
        OptionField::MaxValue => "max_value"@,
        OptionField::MinValue => "min_value"@,
        OptionField::Name => "name"@,
        OptionField::Options => "options"@,
        OptionField::Required => "required"@,
        OptionField::Type => "type"@,
    }
}

/// The field a wire key names, if the codec knows it.
pub open spec fn field_of_key(k: Seq<char>) -> Option<OptionField> {
    if k == "autocomplete"@ {
        Some(OptionField::Autocomplete)
    } else if k == "channel_types"@ {
        Some(OptionField::ChannelTypes)
    } else if k == "choices"@ {
        Some(OptionField::Choices)
    } else if k == "description"@ {
        Some(OptionField::Description)
    } else if k == "max_value"@ {
        Some(OptionField::MaxValue)
    } else if k == "min_value"@ {
        Some(OptionField::MinValue)
    } else if k == "name"@ {
        Some(OptionField::Name)
    } else if k == "options"@ {
        Some(OptionField::Options)
    } else if k == "required"@ {
        Some(OptionField::Required)
    } else if k == "type"@ {
        Some(OptionField::Type)
    } else {
        None
    }
}

impl OptionField {
    /// The wire key of this field.
    pub fn key(self) -> (s: &'static str)
        ensures
            s@ == field_key(self),
    {
        match self {
            OptionField::Autocomplete => "autocomplete",
            OptionField::ChannelTypes => "channel_types",
            OptionField::Choices => "choices",
            OptionField::Description => "description",
            OptionField::MaxValue => "max_value",
            OptionField::MinValue => "min_value",
            OptionField::Name => "name",
            OptionField::Options => "options",
            OptionField::Required => "required",
            OptionField::Type => "type",
        }
    }

    /// The field a wire key names, if the codec knows it.
    pub fn of_key(key: &String) -> (r: Option<OptionField>)
        ensures
            r == field_of_key(key@),
    {
        if *key == String::from_str("autocomplete") {
            Some(OptionField::Autocomplete)
        } else if *key == String::from_str("channel_types") {
            Some(OptionField::ChannelTypes)
        } else if *key == String::from_str("choices") {
            Some(OptionField::Choices)
        } else if *key == String::from_str("description") {
            Some(OptionField::Description)
        } else if *key == String::from_str("max_value") {
            Some(OptionField::MaxValue)
        } else if *key == String::from_str("min_value") {
            Some(OptionField::MinValue)
        } else if *key == String::from_str("name") {
            Some(OptionField::Name)
        } else if *key == String::from_str("options") {
            Some(OptionField::Options)
        } else if *key == String::from_str("required") {
            Some(OptionField::Required)
        } else if *key == String::from_str("type") {
            Some(OptionField::Type)
        } else {
            None
        }
    }
}

/// Why a wire object failed to decode. Every failure is reported at once and
/// left for the caller; the codec never repairs a payload.
#[derive(Clone, Copy, Debug, PartialEq, Eq, Structural, Hash)]
pub enum DecodeError {
    /// One of the fields every variant must carry is absent.
    MissingField(OptionField),
    /// The same key was seen twice in one object; the second occurrence
    /// triggers the error.
    DuplicateField(OptionField),
    /// The `type` discriminant is an integer outside the known range; the
    /// code is carried for diagnostics.
    UnknownVariant(i64),
    /// A value's shape matches none of the alternatives tried for it.
    ShapeMismatch,
}

/// Decode of a boolean field value.
pub open spec fn spec_decode_bool(v: SpecJson) -> Result<bool, DecodeError> {
    match v {
        SpecJson::Bool(b) => Ok(b),
        _ => Err(DecodeError::ShapeMismatch),
    }
}

/// Decode of a string field value.
pub open spec fn spec_decode_string(v: SpecJson) -> Result<Seq<char>, DecodeError> {
    match v {
        SpecJson::String(s) => Ok(s),
        _ => Err(DecodeError::ShapeMismatch),
    }
}

/// Decode of the `type` discriminant: an integer in range names a variant,
/// an integer out of range is an unknown variant, any other shape fails.
pub open spec fn spec_decode_type(v: SpecJson) -> Result<CommandOptionType, DecodeError> {
    match v {
        SpecJson::Integer(code) => match option_type_from_code(code) {
            Some(t) => Ok(t),
            None => Err(DecodeError::UnknownVariant(code)),
        },
        _ => Err(DecodeError::ShapeMismatch),
    }
}

/// Decode of a `min_value`/`max_value` field: the shape of the literal picks
/// the variant, an integer never resolves to the floating-point choice.
pub open spec fn spec_decode_bound(v: SpecJson) -> Result<
    Option<CommandOptionValue>,
    DecodeError,
> {
    match v {
        SpecJson::Null => Ok(None),
        SpecJson::Integer(i) => Ok(Some(CommandOptionValue::Integer(i))),
        SpecJson::Double(bits) => Ok(Some(CommandOptionValue::Number(Number(bits)))),
        _ => Err(DecodeError::ShapeMismatch),
    }
}

/// Decode of the elements of a `channel_types` array: the first `n` wire
/// codes, left to right; the first element that is not a known code fails.
pub open spec fn spec_decode_channel_elems(items: Seq<SpecJson>, n: int) -> Result<
    Seq<ChannelType>,
    DecodeError,
>
    decreases n,
{
    if n <= 0 {
        Ok(Seq::empty())
    } else {
        match spec_decode_channel_elems(items, n - 1) {
            Err(e) => Err(e),
            Ok(s) => match items[n - 1] {
                SpecJson::Integer(code) => match channel_type_from_code(code) {
                    Some(t) => Ok(s.push(t)),
                    None => Err(DecodeError::ShapeMismatch),
                },
                _ => Err(DecodeError::ShapeMismatch),
            },
        }
    }
}

/// Decode of a `channel_types` field: a present-but-null key still decodes,
/// to nothing rather than to an empty restriction.
pub open spec fn spec_decode_channel_types(v: SpecJson) -> Result<
    Option<Seq<ChannelType>>,
    DecodeError,
> {
    match v {
        SpecJson::Null => Ok(None),
        SpecJson::Array(items) => match spec_decode_channel_elems(items, items.len() as int) {
            Ok(s) => Ok(Some(s)),
            Err(e) => Err(e),
        },
        _ => Err(DecodeError::ShapeMismatch),
    }
}

/// Scan of a choice object: collects the `name` string and the raw `value`,
/// ignoring unknown keys; a duplicate or a wrongly shaped `name` makes the
/// whole choice shapeless.
pub open spec fn spec_choice_scan(pairs: Seq<(Seq<char>, SpecJson)>, n: int) -> Result<
    (Option<Seq<char>>, Option<SpecJson>),
    DecodeError,
>
    decreases n,
{
    if n <= 0 {
        Ok((None, None))
    } else {
        match spec_choice_scan(pairs, n - 1) {
            Err(e) => Err(e),
            Ok((name, value)) => {
                let kv = pairs[n - 1];
                if kv.0 == "name"@ {
                    if name is Some {
                        Err(DecodeError::ShapeMismatch)
                    } else {
                        match kv.1 {
                            SpecJson::String(s) => Ok((Some(s), value)),
                            _ => Err(DecodeError::ShapeMismatch),
                        }
                    }
                } else if kv.0 == "value"@ {
                    if value is Some {
                        Err(DecodeError::ShapeMismatch)
                    } else {
                        Ok((name, Some(kv.1)))
                    }
                } else {
                    Ok((name, value))
                }
            },
        }
    }
}

/// Decode of one choice: the union has no discriminant, so the shape of the
/// `value` field picks the variant, trying string, then integer, then
/// floating point; an integer-shaped literal never resolves to the
/// floating-point variant.
pub open spec fn spec_decode_choice(v: SpecJson) -> Result<SpecChoice, DecodeError> {
    match v {
        SpecJson::Object(pairs) => match spec_choice_scan(pairs, pairs.len() as int) {
            Err(e) => Err(e),
            Ok((name_slot, value_slot)) => match (name_slot, value_slot) {
                (Some(name), Some(value)) => match value {
                    SpecJson::String(s) => Ok(SpecChoice::String { name, value: s }),
                    SpecJson::Integer(i) => Ok(SpecChoice::Int { name, value: i }),
                    SpecJson::Double(bits) => Ok(
                        SpecChoice::Number { name, value: Number(bits) },
                    ),
                    _ => Err(DecodeError::ShapeMismatch),
                },
                _ => Err(DecodeError::ShapeMismatch),
            },
        },
        _ => Err(DecodeError::ShapeMismatch),
    }
}

/// Decode of the elements of a `choices` array: the first `n`, left to
/// right; the first element that decodes to no choice fails.
pub open spec fn spec_decode_choice_elems(items: Seq<SpecJson>, n: int) -> Result<
    Seq<SpecChoice>,
    DecodeError,
>
    decreases n,
{
    if n <= 0 {
        Ok(Seq::empty())
    } else {
        match spec_decode_choice_elems(items, n - 1) {
            Err(e) => Err(e),
            Ok(s) => match spec_decode_choice(items[n - 1]) {
                Ok(c) => Ok(s.push(c)),
                Err(e) => Err(e),
            },
        }
    }
}

/// Decode of a `choices` field: a present-but-null key decodes to nothing.
pub open spec fn spec_decode_choices(v: SpecJson) -> Result<
    Option<Seq<SpecChoice>>,
    DecodeError,
> {
    match v {
        SpecJson::Null => Ok(None),
        SpecJson::Array(items) => match spec_decode_choice_elems(items, items.len() as int) {
            Ok(s) => Ok(Some(s)),
            Err(e) => Err(e),
        },
        _ => Err(DecodeError::ShapeMismatch),
    }
}

/// One optional slot per field the codec knows: the outer `Option` records
/// that the key was present, separately from what its value held, because a
/// present-but-null collection must default rather than fail.
#[verifier::ext_equal]
pub struct SpecSlots {
    pub autocomplete: Option<bool>,
    pub channel_types: Option<Option<Seq<ChannelType>>>,
    pub choices: Option<Option<Seq<SpecChoice>>>,
    pub description: Option<Seq<char>>,
    pub kind: Option<CommandOptionType>,
    pub max_value: Option<Option<CommandOptionValue>>,
    pub min_value: Option<Option<CommandOptionValue>>,
    pub name: Option<Seq<char>>,
    pub options: Option<Option<Seq<SpecCommandOption>>>,
    pub required: Option<bool>,
}

/// The slot state before any pair has been read.
pub open spec fn empty_slots() -> SpecSlots {
    SpecSlots {
        autocomplete: None,
        channel_types: None,
        choices: None,
        description: None,
        kind: None,
        max_value: None,
        min_value: None,
        name: None,
        options: None,
        required: None,
    }
}

/// Decode of an option tree, the decoder of this codec.
///
/// Only a JSON object decodes: its pairs are read in delivery order into
/// slots, then the three common fields are required and the `type`
/// discriminant picks the variant to build.
pub open spec fn spec_decode_option(v: SpecJson) -> Result<SpecCommandOption, DecodeError>
    decreases v, 0int, 0int,
{
    match v {
        SpecJson::Object(pairs) => {
            proof {
                assert(decreases_to!(v => pairs));
            }
            match spec_scan(pairs, pairs.len() as int) {
                Ok(slots) => spec_finish(slots),
                Err(e) => Err(e),
            }
        },
        _ => Err(DecodeError::ShapeMismatch),
    }
}

/// The slot state after the first `n` pairs of an object have been read, or
/// the first failure among them.
pub open spec fn spec_scan(pairs: Seq<(Seq<char>, SpecJson)>, n: int) -> Result<
    SpecSlots,
    DecodeError,
>
    decreases pairs, n, 2int,
        when n <= pairs.len()
{
    if n <= 0 {
        Ok(empty_slots())
    } else {
        match spec_scan(pairs, n - 1) {
            Err(e) => Err(e),
            Ok(slots) => {
                proof {
                    assert(decreases_to!(pairs => pairs[n - 1]));
                    assert(decreases_to!(pairs[n - 1] => pairs[n - 1].1));
                }
                spec_step(slots, pairs[n - 1].0, pairs[n - 1].1)
            },
        }
    }
}

/// Reading one key/value pair into the slots: an unknown key is ignored, a
/// known key whose slot is already filled is a duplicate, and the second
/// occurrence is the one that triggers the error.
pub open spec fn spec_step(slots: SpecSlots, key: Seq<char>, value: SpecJson) -> Result<
    SpecSlots,
    DecodeError,
>
    decreases value, 0int, 1int,
{
    match field_of_key(key) {
        None => Ok(slots),
        Some(f) => match f {
            OptionField::Autocomplete => {
                if slots.autocomplete is Some {
                    Err(DecodeError::DuplicateField(f))
                } else {
                    match spec_decode_bool(value) {
                        Ok(b) => Ok(SpecSlots { autocomplete: Some(b), ..slots }),
                        Err(e) => Err(e),
                    }
                }
            },
            OptionField::ChannelTypes => {
                if slots.channel_types is Some {
                    Err(DecodeError::DuplicateField(f))
                } else {
                    match spec_decode_channel_types(value) {
                        Ok(c) => Ok(SpecSlots { channel_types: Some(c), ..slots }),
                        Err(e) => Err(e),
                    }
                }
            },
            OptionField::Choices => {
                if slots.choices is Some {
                    Err(DecodeError::DuplicateField(f))
                } else {
                    match spec_decode_choices(value) {
                        Ok(c) => Ok(SpecSlots { choices: Some(c), ..slots }),
                        Err(e) => Err(e),
                    }
                }
            },
            OptionField::Description => {
                if slots.description is Some {
                    Err(DecodeError::DuplicateField(f))
                } else {
                    match spec_decode_string(value) {
                        Ok(s) => Ok(SpecSlots { description: Some(s), ..slots }),
                        Err(e) => Err(e),
                    }
                }
            },
            OptionField::MaxValue => {
                if slots.max_value is Some {
                    Err(DecodeError::DuplicateField(f))
                } else {
                    match spec_decode_bound(value) {
                        Ok(b) => Ok(SpecSlots { max_value: Some(b), ..slots }),
                        Err(e) => Err(e),
                    }
                }
            },
            OptionField::MinValue => {
                if slots.min_value is Some {
                    Err(DecodeError::DuplicateField(f))
                } else {
                    match spec_decode_bound(value) {
                        Ok(b) => Ok(SpecSlots { min_value: Some(b), ..slots }),
                        Err(e) => Err(e),
                    }
                }
            },
            OptionField::Name => {
                if slots.name is Some {
                    Err(DecodeError::DuplicateField(f))
                } else {
                    match spec_decode_string(value) {
                        Ok(s) => Ok(SpecSlots { name: Some(s), ..slots }),
                        Err(e) => Err(e),
                    }
                }
            },
            OptionField::Options => {
                if slots.options is Some {
                    Err(DecodeError::DuplicateField(f))
                } else {
                    match spec_decode_options_value(value) {
                        Ok(o) => Ok(SpecSlots { options: Some(o), ..slots }),
                        Err(e) => Err(e),
                    }
                }
            },
            OptionField::Required => {
                if slots.required is Some {
                    Err(DecodeError::DuplicateField(f))
                } else {
                    match spec_decode_bool(value) {
                        Ok(b) => Ok(SpecSlots { required: Some(b), ..slots }),
                        Err(e) => Err(e),
                    }
                }
            },
            OptionField::Type => {
                if slots.kind is Some {
                    Err(DecodeError::DuplicateField(f))
                } else {
                    match spec_decode_type(value) {
                        Ok(t) => Ok(SpecSlots { kind: Some(t), ..slots }),
                        Err(e) => Err(e),
                    }
                }
            },
        },
    }
}

/// Decode of an `options` field: a present-but-null key decodes to nothing;
/// each array element is an option tree decoded by this same decoder, and a
/// nested failure propagates unchanged.
pub open spec fn spec_decode_options_value(v: SpecJson) -> Result<
    Option<Seq<SpecCommandOption>>,
    DecodeError,
>
    decreases v, 0int, 0int,
{
    match v {
        SpecJson::Null => Ok(None),
        SpecJson::Array(items) => {
            proof {
                assert(decreases_to!(v => items));
            }
            match spec_decode_option_elems(items, items.len() as int) {
                Ok(s) => Ok(Some(s)),
                Err(e) => Err(e),
            }
        },
        _ => Err(DecodeError::ShapeMismatch),
    }
}

/// Decode of the first `n` elements of an `options` array, left to right.
pub open spec fn spec_decode_option_elems(items: Seq<SpecJson>, n: int) -> Result<
    Seq<SpecCommandOption>,
    DecodeError,
>
    decreases items, n, 2int,
        when n <= items.len()
{
    if n <= 0 {
        Ok(Seq::empty())
    } else {
        match spec_decode_option_elems(items, n - 1) {
            Err(e) => Err(e),
            Ok(s) => {
                proof {
                    assert(decreases_to!(items => items[n - 1]));
                }
                match spec_decode_option(items[n - 1]) {
                    Ok(o) => Ok(s.push(o)),
                    Err(e) => Err(e),
                }
            },
        }
    }
}

/// What the slots must hold once every pair is read: the three common fields
/// are required, in the order description, type, name; the boolean flags
/// default to false; absent or null collections default to empty; and the
/// discriminant picks which slots the variant takes with it.
pub open spec fn spec_finish(slots: SpecSlots) -> Result<SpecCommandOption, DecodeError> {
    if slots.description is None {
        Err(DecodeError::MissingField(OptionField::Description))
    } else if slots.kind is None {
        Err(DecodeError::MissingField(OptionField::Type))
    } else if slots.name is None {
        Err(DecodeError::MissingField(OptionField::Name))
    } else {
        let description = slots.description->0;
        let name = slots.name->0;
        let autocomplete = slots.autocomplete is Some && slots.autocomplete->0;
        let required = slots.required is Some && slots.required->0;
        let options = flatten_or_empty(slots.options);
        let choices = flatten_or_empty(slots.choices);
        let channel_types = flatten_or_empty(slots.channel_types);
        match slots.kind->0 {
            CommandOptionType::SubCommand => Ok(
                SpecCommandOption::SubCommand(crate::option::SpecOptionsData { description, name, options }),
            ),
            CommandOptionType::SubCommandGroup => Ok(
                SpecCommandOption::SubCommandGroup(crate::option::SpecOptionsData { description, name, options }),
            ),
            CommandOptionType::String => Ok(
                SpecCommandOption::String(crate::option::SpecChoiceData {
                    autocomplete,
                    choices,
                    description,
                    name,
                    required,
                }),
            ),
            CommandOptionType::Integer => Ok(
                SpecCommandOption::Integer(crate::option::SpecNumberData {
                    autocomplete,
                    choices,
                    description,
                    max_value: flatten(slots.max_value),
                    min_value: flatten(slots.min_value),
                    name,
                    required,
                }),
            ),
            CommandOptionType::Boolean => Ok(
                SpecCommandOption::Boolean(crate::option::SpecBaseData { description, name, required }),
            ),
            CommandOptionType::User => Ok(
                SpecCommandOption::User(crate::option::SpecBaseData { description, name, required }),
            ),
            CommandOptionType::Channel => Ok(
                SpecCommandOption::Channel(crate::option::SpecChannelData {
                    channel_types,
                    description,
                    name,
                    required,
                }),
            ),
            CommandOptionType::Role => Ok(
                SpecCommandOption::Role(crate::option::SpecBaseData { description, name, required }),
            ),
            CommandOptionType::Mentionable => Ok(
                SpecCommandOption::Mentionable(crate::option::SpecBaseData { description, name, required }),
            ),
            CommandOptionType::Number => Ok(
                SpecCommandOption::Number(crate::option::SpecNumberData {
                    autocomplete,
                    choices,
                    description,
                    max_value: flatten(slots.max_value),
                    min_value: flatten(slots.min_value),
                    name,
                    required,
                }),
            ),
        }
    }
}

/// A slot of a collection field, flattened: absent and present-but-null both
/// default to the empty collection.
pub open spec fn flatten_or_empty<T>(slot: Option<Option<Seq<T>>>) -> Seq<T> {
    match slot {
        Some(Some(s)) => s,
        _ => Seq::empty(),
    }
}

/// A slot of a bound field, flattened: absent and present-but-null both mean
/// no bound.
pub open spec fn flatten<T>(slot: Option<Option<T>>) -> Option<T> {
    match slot {
        Some(Some(t)) => Some(t),
        _ => None,
    }
}

/// Decode of a boolean field value.
pub fn decode_bool(v: &JsonValue) -> (r: Result<bool, DecodeError>)
    ensures
        r == spec_decode_bool(v.deep_view()),
{
    match v {
        JsonValue::Bool(b) => Ok(*b),
        _ => Err(DecodeError::ShapeMismatch),
    }
}

/// Decode of a string field value.
pub fn decode_string(v: &JsonValue) -> (r: Result<String, DecodeError>)
    ensures
        match r {
            Ok(s) => spec_decode_string(v.deep_view()) == Ok::<_, DecodeError>(s@),
            Err(e) => spec_decode_string(v.deep_view()) == Err::<Seq<char>, _>(e),
        },
{
    match v {
        JsonValue::String(s) => Ok(s.clone()),
        _ => Err(DecodeError::ShapeMismatch),
    }
}

/// Decode of the `type` discriminant.
pub fn decode_type(v: &JsonValue) -> (r: Result<CommandOptionType, DecodeError>)
    ensures
        r == spec_decode_type(v.deep_view()),
{
    match v {
        JsonValue::Integer(code) => match CommandOptionType::try_from_code(*code) {
            Some(t) => Ok(t),
            None => Err(DecodeError::UnknownVariant(*code)),
        },
        _ => Err(DecodeError::ShapeMismatch),
    }
}

/// Once a prefix of a `channel_types` array has failed, the whole array
/// fails the same way.
proof fn lemma_channel_elems_err(items: Seq<SpecJson>, i: int, n: int)
    requires
        0 <= i <= n,
        spec_decode_channel_elems(items, i) is Err,
    ensures
        spec_decode_channel_elems(items, n) == spec_decode_channel_elems(items, i),
    decreases n - i,
{
    if i < n {
        lemma_channel_elems_err(items, i, n - 1);
    }
}

/// Once a prefix of a choice object has failed, the whole scan fails the
/// same way.
proof fn lemma_choice_scan_err(pairs: Seq<(Seq<char>, SpecJson)>, i: int, n: int)
    requires
        0 <= i <= n,
        spec_choice_scan(pairs, i) is Err,
    ensures
        spec_choice_scan(pairs, n) == spec_choice_scan(pairs, i),
    decreases n - i,
{
    if i < n {
        lemma_choice_scan_err(pairs, i, n - 1);
    }
}

/// Once a prefix of a `choices` array has failed, the whole array fails the
/// same way.
proof fn lemma_choice_elems_err(items: Seq<SpecJson>, i: int, n: int)
    requires
        0 <= i <= n,
        spec_decode_choice_elems(items, i) is Err,
    ensures
        spec_decode_choice_elems(items, n) == spec_decode_choice_elems(items, i),
    decreases n - i,
{
    if i < n {
        lemma_choice_elems_err(items, i, n - 1);
    }
}

/// Once a prefix of an object has failed to scan, the whole scan fails the
/// same way.
proof fn lemma_scan_err(pairs: Seq<(Seq<char>, SpecJson)>, i: int, n: int)
    requires
        0 <= i <= n <= pairs.len(),
        spec_scan(pairs, i) is Err,
    ensures
        spec_scan(pairs, n) == spec_scan(pairs, i),
    decreases n - i,
{
    if i < n {
        lemma_scan_err(pairs, i, n - 1);
    }
}

/// Once a prefix of an `options` array has failed, the whole array fails
/// the same way.
proof fn lemma_option_elems_err(items: Seq<SpecJson>, i: int, n: int)
    requires
        0 <= i <= n <= items.len(),
        spec_decode_option_elems(items, i) is Err,
    ensures
        spec_decode_option_elems(items, n) == spec_decode_option_elems(items, i),
    decreases n - i,
{
    if i < n {
        lemma_option_elems_err(items, i, n - 1);
    }
}

/// Decode of a `channel_types` field value.
pub fn decode_channel_types(v: &JsonValue) -> (r: Result<Option<Vec<ChannelType>>, DecodeError>)
    ensures
        match r {
            Ok(o) => spec_decode_channel_types(v.deep_view()) == Ok::<_, DecodeError>(
                o.deep_view(),
            ),
            Err(e) => spec_decode_channel_types(v.deep_view()) == Err::<
                Option<Seq<ChannelType>>,
                _,
            >(e),
        },
{
    match v {
        JsonValue::Null => Ok(None),
        JsonValue::Array(items) => {
            let ghost elems = crate::json::json_array_model(items@, items@.len() as int);
            proof {
                crate::json::lemma_json_array_model(items@, items@.len() as int);
                assert(v.deep_view() == SpecJson::Array(elems));
            }
            let mut out: Vec<ChannelType> = Vec::new();
            proof {
                assert(out.deep_view() =~= Seq::<ChannelType>::empty());
            }
            let mut j: usize = 0;
            while j < items.len()
                invariant
                    j <= items.len(),
                    elems.len() == items@.len(),
                    v.deep_view() == SpecJson::Array(elems),
                    forall|k: int| 0 <= k < items@.len() ==> elems[k] == crate::json::json_model(
                        items@[k],
                    ),
                    spec_decode_channel_elems(elems, j as int) == Ok::<_, DecodeError>(
                        out.deep_view(),
                    ),
                decreases items.len() - j,
            {
                let ghost prev = out.deep_view();
                match &items[j] {
                    JsonValue::Integer(code) => match ChannelType::try_from_code(*code) {
                        Some(t) => {
                            out.push(t);
                            proof {
                                assert(out.deep_view() =~= prev.push(t));
                            }
                        },
                        None => {
                            proof {
                                lemma_channel_elems_err(elems, j + 1, elems.len() as int);
                            }
                            return Err(DecodeError::ShapeMismatch);
                        },
                    },
                    _ => {
                        proof {
                            lemma_channel_elems_err(elems, j + 1, elems.len() as int);
                        }
                        return Err(DecodeError::ShapeMismatch);
                    },
                }
                j += 1;
            }
            Ok(Some(out))
        },
        _ => Err(DecodeError::ShapeMismatch),
    }
}

/// Decode of one element of a `choices` array.
pub fn decode_choice(v: &JsonValue) -> (r: Result<CommandOptionChoice, DecodeError>)
    ensures
        match r {
            Ok(c) => spec_decode_choice(v.deep_view()) == Ok::<_, DecodeError>(c.deep_view()),
            Err(e) => spec_decode_choice(v.deep_view()) == Err::<SpecChoice, _>(e),
        },
{
    match v {
        JsonValue::Object(pairs) => {
            let ghost ps = crate::json::json_object_model(pairs@, pairs@.len() as int);
            proof {
                crate::json::lemma_json_object_model(pairs@, pairs@.len() as int);
                assert(v.deep_view() == SpecJson::Object(ps));
            }
            let mut name: Option<String> = None;
            let mut value_at: Option<usize> = None;
            let mut i: usize = 0;
            while i < pairs.len()
                invariant
                    i <= pairs.len(),
                    ps.len() == pairs@.len(),
                    v.deep_view() == SpecJson::Object(ps),
                    forall|k: int| 0 <= k < pairs@.len() ==> ps[k] == (
                        pairs@[k].0@,
                        crate::json::json_model(pairs@[k].1),
                    ),
                    spec_choice_scan(ps, i as int) == Ok::<_, DecodeError>(
                        (name.deep_view(), match value_at {
                            Some(k) => Some(ps[k as int].1),
                            None => None,
                        }),
                    ),
                    value_at matches Some(k) ==> k < i,
                decreases pairs.len() - i,
            {
                let key = &pairs[i].0;
                if *key == String::from_str("name") {
                    if name.is_some() {
                        proof {
                            lemma_choice_scan_err(ps, i + 1, ps.len() as int);
                        }
                        return Err(DecodeError::ShapeMismatch);
                    }
                    match &pairs[i].1 {
                        JsonValue::String(s) => {
                            name = Some(s.clone());
                        },
                        _ => {
                            proof {
                                lemma_choice_scan_err(ps, i + 1, ps.len() as int);
                            }
                            return Err(DecodeError::ShapeMismatch);
                        },
                    }
                } else if *key == String::from_str("value") {
                    if value_at.is_some() {
                        proof {
                            lemma_choice_scan_err(ps, i + 1, ps.len() as int);
                        }
                        return Err(DecodeError::ShapeMismatch);
                    }
                    value_at = Some(i);
                }
                i += 1;
            }
            let nm = match name {
                Some(nm) => nm,
                None => {
                    return Err(DecodeError::ShapeMismatch);
                },
            };
            let k = match value_at {
                Some(k) => k,
                None => {
                    return Err(DecodeError::ShapeMismatch);
                },
            };
            match &pairs[k].1 {
                JsonValue::String(s) => Ok(CommandOptionChoice::String { name: nm, value: s.clone() }),
                JsonValue::Integer(n) => Ok(CommandOptionChoice::Int { name: nm, value: *n }),
                JsonValue::Double(bits) => Ok(
                    CommandOptionChoice::Number { name: nm, value: Number(*bits) },
                ),
                _ => Err(DecodeError::ShapeMismatch),
            }
        },
        _ => Err(DecodeError::ShapeMismatch),
    }
}

/// Decode of a `choices` field value.
pub fn decode_choices(v: &JsonValue) -> (r: Result<Option<Vec<CommandOptionChoice>>, DecodeError>)
    ensures
        match r {
            Ok(o) => spec_decode_choices(v.deep_view()) == Ok::<_, DecodeError>(o.deep_view()),
            Err(e) => spec_decode_choices(v.deep_view()) == Err::<Option<Seq<SpecChoice>>, _>(e),
        },
{
    match v {
        JsonValue::Null => Ok(None),
        JsonValue::Array(items) => {
            let ghost elems = crate::json::json_array_model(items@, items@.len() as int);
            proof {
                crate::json::lemma_json_array_model(items@, items@.len() as int);
                assert(v.deep_view() == SpecJson::Array(elems));
            }
            let mut out: Vec<CommandOptionChoice> = Vec::new();
            proof {
                assert(out.deep_view() =~= Seq::<SpecChoice>::empty());
            }
            let mut j: usize = 0;
            while j < items.len()
                invariant
                    j <= items.len(),
                    elems.len() == items@.len(),
                    v.deep_view() == SpecJson::Array(elems),
                    forall|k: int| 0 <= k < items@.len() ==> elems[k] == crate::json::json_model(
                        items@[k],
                    ),
                    spec_decode_choice_elems(elems, j as int) == Ok::<_, DecodeError>(
                        out.deep_view(),
                    ),
                decreases items.len() - j,
            {
                let ghost prev = out.deep_view();
                match decode_choice(&items[j]) {
                    Ok(c) => {
                        let ghost cm = c.deep_view();
                        out.push(c);
                        proof {
                            assert(out.deep_view() =~= prev.push(cm));
                        }
                    },
                    Err(e) => {
                        proof {
                            lemma_choice_elems_err(elems, j + 1, elems.len() as int);
                        }
                        return Err(e);
                    },
                }
                j += 1;
            }
            Ok(Some(out))
        },
        _ => Err(DecodeError::ShapeMismatch),
    }
}

/// Decode of a `min_value`/`max_value` field.
pub fn decode_bound(v: &JsonValue) -> (r: Result<Option<CommandOptionValue>, DecodeError>)
    ensures
        r == spec_decode_bound(v.deep_view()),
{
    match v {
        JsonValue::Null => Ok(None),
        JsonValue::Integer(i) => Ok(Some(CommandOptionValue::Integer(*i))),
        JsonValue::Double(bits) => Ok(Some(CommandOptionValue::Number(Number(*bits)))),
        _ => Err(DecodeError::ShapeMismatch),
    }
}

/// Encode of a numeric bound: the variant keeps the shape it was built
/// with, so an integer bound goes out as an integer and a floating-point
/// bound as its bit pattern.
pub open spec fn spec_encode_bound(b: CommandOptionValue) -> SpecJson {
    match b {
        CommandOptionValue::Integer(i) => SpecJson::Integer(i),
        CommandOptionValue::Number(n) => SpecJson::Double(n.0),
    }
}

/// Encode of one choice: an object of its name and its value, the value in
/// the shape its variant stands for.
pub open spec fn spec_encode_choice(c: SpecChoice) -> SpecJson {
    match c {
        SpecChoice::String { name, value } => SpecJson::Object(
            seq![("name"@, SpecJson::String(name)), ("value"@, SpecJson::String(value))],
        ),
        SpecChoice::Int { name, value } => SpecJson::Object(
            seq![("name"@, SpecJson::String(name)), ("value"@, SpecJson::Integer(value))],
        ),
        SpecChoice::Number { name, value } => SpecJson::Object(
            seq![("name"@, SpecJson::String(name)), ("value"@, SpecJson::Double(value.0))],
        ),
    }
}

/// Encode of a `channel_types` array: the wire codes, in order.
pub open spec fn spec_encode_channels(ts: Seq<ChannelType>) -> Seq<SpecJson> {
    Seq::new(ts.len(), |i: int| SpecJson::Integer(channel_type_code(ts[i])))
}

/// Encode of a `choices` array: each choice encoded, in order.
pub open spec fn spec_encode_choices(cs: Seq<SpecChoice>) -> Seq<SpecJson> {
    Seq::new(cs.len(), |i: int| spec_encode_choice(cs[i]))
}

/// The shared field envelope every variant projects onto before emission:
/// one slot per field the wire object can carry, with the nested options
/// already encoded.
#[verifier::ext_equal]
pub struct SpecEnvelope {
    pub autocomplete: bool,
    pub channel_types: Option<Seq<ChannelType>>,
    pub choices: Option<Seq<SpecChoice>>,
    pub description: Seq<char>,
    pub max_value: Option<CommandOptionValue>,
    pub min_value: Option<CommandOptionValue>,
    pub name: Seq<char>,
    pub options: Option<Seq<SpecJson>>,
    pub required: bool,
    pub kind: CommandOptionType,
}

/// Emission of an envelope: a field goes out exactly when its slot says so —
/// boolean flags only when true, collections and bounds only when their slot
/// is filled — and the discriminant always goes out last.
pub open spec fn spec_emit(env: SpecEnvelope) -> Seq<(Seq<char>, SpecJson)> {
    (if env.autocomplete {
        seq![("autocomplete"@, SpecJson::Bool(true))]
    } else {
        Seq::empty()
    }) + (match env.channel_types {
        Some(ts) => seq![("channel_types"@, SpecJson::Array(spec_encode_channels(ts)))],
        None => Seq::empty(),
    }) + (match env.choices {
        Some(cs) => seq![("choices"@, SpecJson::Array(spec_encode_choices(cs)))],
        None => Seq::empty(),
    }) + seq![("description"@, SpecJson::String(env.description))] + (match env.max_value {
        Some(b) => seq![("max_value"@, spec_encode_bound(b))],
        None => Seq::empty(),
    }) + (match env.min_value {
        Some(b) => seq![("min_value"@, spec_encode_bound(b))],
        None => Seq::empty(),
    }) + seq![("name"@, SpecJson::String(env.name))] + (match env.options {
        Some(os) => seq![("options"@, SpecJson::Array(os))],
        None => Seq::empty(),
    }) + (if env.required {
        seq![("required"@, SpecJson::Bool(true))]
    } else {
        Seq::empty()
    }) + seq![("type"@, SpecJson::Integer(option_type_code(env.kind)))]
}

/// The envelope a variant projects onto: only the fields its payload shape
/// includes are filled, and a collection that may be left out entirely — the
/// channel restriction — is filled only when non-empty. Containers and
/// choice-bearing variants keep their collections even when empty, since for
/// them absence would be ambiguous with "not applicable".
pub open spec fn spec_envelope(m: SpecCommandOption) -> SpecEnvelope
    decreases m, 0int,
{
    match m {
        SpecCommandOption::SubCommand(d) => {
            proof {
                assert(decreases_to!(m => d));
                assert(decreases_to!(d => d.options));
            }
            SpecEnvelope {
                autocomplete: false,
                channel_types: None,
                choices: None,
                description: d.description,
                max_value: None,
                min_value: None,
                name: d.name,
                options: Some(spec_encode_options(d.options, d.options.len() as int)),
                required: false,
                kind: CommandOptionType::SubCommand,
            }
        },
        SpecCommandOption::SubCommandGroup(d) => {
            proof {
                assert(decreases_to!(m => d));
                assert(decreases_to!(d => d.options));
            }
            SpecEnvelope {
                autocomplete: false,
                channel_types: None,
                choices: None,
                description: d.description,
                max_value: None,
                min_value: None,
                name: d.name,
                options: Some(spec_encode_options(d.options, d.options.len() as int)),
                required: false,
                kind: CommandOptionType::SubCommandGroup,
            }
        },
        SpecCommandOption::String(d) => SpecEnvelope {
            autocomplete: d.autocomplete,
            channel_types: None,
            choices: Some(d.choices),
            description: d.description,
            max_value: None,
            min_value: None,
            name: d.name,
            options: None,
            required: d.required,
            kind: CommandOptionType::String,
        },
        SpecCommandOption::Integer(d) => SpecEnvelope {
            autocomplete: d.autocomplete,
            channel_types: None,
            choices: Some(d.choices),
            description: d.description,
            max_value: d.max_value,
            min_value: d.min_value,
            name: d.name,
            options: None,
            required: d.required,
            kind: CommandOptionType::Integer,
        },
        SpecCommandOption::Boolean(d) => SpecEnvelope {
            autocomplete: false,
            channel_types: None,
            choices: None,
            description: d.description,
            max_value: None,
            min_value: None,
            name: d.name,
            options: None,
            required: d.required,
            kind: CommandOptionType::Boolean,
        },
        SpecCommandOption::User(d) => SpecEnvelope {
            autocomplete: false,
            channel_types: None,
            choices: None,
            description: d.description,
            max_value: None,
            min_value: None,
            name: d.name,
            options: None,
            required: d.required,
            kind: CommandOptionType::User,
        },
        SpecCommandOption::Channel(d) => SpecEnvelope {
            autocomplete: false,
            channel_types: if d.channel_types.len() > 0 {
                Some(d.channel_types)
            } else {
                None
            },
            choices: None,
            description: d.description,
            max_value: None,
            min_value: None,
            name: d.name,
            options: None,
            required: d.required,
            kind: CommandOptionType::Channel,
        },
        SpecCommandOption::Role(d) => SpecEnvelope {
            autocomplete: false,
            channel_types: None,
            choices: None,
            description: d.description,
            max_value: None,
            min_value: None,
            name: d.name,
            options: None,
            required: d.required,
            kind: CommandOptionType::Role,
        },
        SpecCommandOption::Mentionable(d) => SpecEnvelope {
            autocomplete: false,
            channel_types: None,
            choices: None,
            description: d.description,
            max_value: None,
            min_value: None,
            name: d.name,
            options: None,
            required: d.required,
            kind: CommandOptionType::Mentionable,
        },
        SpecCommandOption::Number(d) => SpecEnvelope {
            autocomplete: d.autocomplete,
            channel_types: None,
            choices: Some(d.choices),
            description: d.description,
            max_value: d.max_value,
            min_value: d.min_value,
            name: d.name,
            options: None,
            required: d.required,
            kind: CommandOptionType::Number,
        },
    }
}

/// Encode of an option tree, the encoder of this codec: the variant's
/// envelope, emitted as a JSON object.
pub open spec fn spec_encode_option(m: SpecCommandOption) -> SpecJson
    decreases m, 1int,
{
    SpecJson::Object(spec_emit(spec_envelope(m)))
}

/// Encode of the first `n` options of a nested sequence, in order.
pub open spec fn spec_encode_options(s: Seq<SpecCommandOption>, n: int) -> Seq<SpecJson>
    decreases s, n,
        when n <= s.len()
{
    if n <= 0 {
        Seq::empty()
    } else {
        proof {
            assert(decreases_to!(s => s[n - 1]));
        }
        spec_encode_options(s, n - 1).push(spec_encode_option(s[n - 1]))
    }
}

/// A nested sequence of options is encoded elementwise.
pub broadcast proof fn lemma_spec_encode_options(s: Seq<SpecCommandOption>, n: int)
    requires
        0 <= n <= s.len(),
    ensures
        #[trigger] spec_encode_options(s, n).len() == n,
        forall|i: int| 0 <= i < n ==> spec_encode_options(s, n)[i] == spec_encode_option(s[i]),
    decreases n,
{
    if n > 0 {
        lemma_spec_encode_options(s, n - 1);
    }
}

/// A collection slot, flattened: absent and present-but-null both default to
/// the empty collection.
fn take_or_empty<T: DeepView>(slot: Option<Option<Vec<T>>>) -> (r: Vec<T>)
    ensures
        r.deep_view() == flatten_or_empty(slot.deep_view()),
{
    match slot {
        Some(Some(v)) => v,
        _ => {
            let r: Vec<T> = Vec::new();
            proof {
                assert(r.deep_view() =~= Seq::<T::V>::empty());
            }
            r
        },
    }
}

/// Decode of an `options` field value: each array element is an option tree
/// decoded by [`decode_command_option`]; a nested failure propagates
/// unchanged, so the caller sees the original leaf error.
pub fn decode_options_value(v: &JsonValue) -> (r: Result<Option<Vec<CommandOption>>, DecodeError>)
    ensures
        match r {
            Ok(o) => spec_decode_options_value(v.deep_view()) == Ok::<_, DecodeError>(
                o.deep_view(),
            ),
            Err(e) => spec_decode_options_value(v.deep_view()) == Err::<
                Option<Seq<SpecCommandOption>>,
                _,
            >(e),
        },
    decreases v, 1int,
{
    match v {
        JsonValue::Null => Ok(None),
        JsonValue::Array(items) => {
            let ghost elems = crate::json::json_array_model(items@, items@.len() as int);
            proof {
                crate::json::lemma_json_array_model(items@, items@.len() as int);
                assert(v.deep_view() == SpecJson::Array(elems));
            }
            let mut out: Vec<CommandOption> = Vec::new();
            proof {
                assert(out.deep_view() =~= Seq::<SpecCommandOption>::empty());
            }
            let mut j: usize = 0;
            while j < items.len()
                invariant
                    j <= items.len(),
                    elems.len() == items@.len(),
                    v.deep_view() == SpecJson::Array(elems),
                    v == JsonValue::Array(*items),
                    forall|k: int| 0 <= k < items@.len() ==> elems[k] == crate::json::json_model(
                        items@[k],
                    ),
                    spec_decode_option_elems(elems, j as int) == Ok::<_, DecodeError>(
                        out.deep_view(),
                    ),
                decreases items.len() - j,
            {
                proof {
                    assert(decreases_to!(v => items));
                    assert(decreases_to!(items => items@));
                    assert(decreases_to!(items@ => items@[j as int]));
                }
                let ghost prev = out.deep_view();
                match decode_command_option(&items[j]) {
                    Ok(o) => {
                        let ghost om = o.deep_view();
                        out.push(o);
                        proof {
                            assert(out.deep_view() =~= prev.push(om));
                        }
                    },
                    Err(e) => {
                        proof {
                            lemma_option_elems_err(elems, j + 1, elems.len() as int);
                        }
                        return Err(e);
                    },
                }
                j += 1;
            }
            Ok(Some(out))
        },
        _ => Err(DecodeError::ShapeMismatch),
    }
}

/// Decode a single JSON object into exactly one command option, in one pass
/// over its key/value pairs in delivery order, or fail with the first
/// structured error that pass meets.
///
/// Unknown keys are accepted and ignored; a known key seen twice fails at
/// its second occurrence; `description`, `name` and `type` are required for
/// every variant before dispatch; `autocomplete` and `required` default to
/// false; absent or null collections default to empty.
pub fn decode_command_option(v: &JsonValue) -> (r: Result<CommandOption, DecodeError>)
    ensures
        match r {
            Ok(o) => spec_decode_option(v.deep_view()) == Ok::<_, DecodeError>(o.deep_view()),
            Err(e) => spec_decode_option(v.deep_view()) == Err::<SpecCommandOption, _>(e),
        },
    decreases v, 0int,
{
    let pairs = match v {
        JsonValue::Object(pairs) => pairs,
        _ => {
            return Err(DecodeError::ShapeMismatch);
        },
    };
    let ghost ps = crate::json::json_object_model(pairs@, pairs@.len() as int);
    proof {
        reveal_with_fuel(spec_scan, 2);
        crate::json::lemma_json_object_model(pairs@, pairs@.len() as int);
        assert(v.deep_view() == SpecJson::Object(ps));
    }
    let mut autocomplete: Option<bool> = None;
    let mut channel_types: Option<Option<Vec<ChannelType>>> = None;
    let mut choices: Option<Option<Vec<CommandOptionChoice>>> = None;
    let mut description: Option<String> = None;
    let mut kind: Option<CommandOptionType> = None;
    let mut max_value: Option<Option<CommandOptionValue>> = None;
    let mut min_value: Option<Option<CommandOptionValue>> = None;
    let mut name: Option<String> = None;
    let mut options: Option<Option<Vec<CommandOption>>> = None;
    let mut required: Option<bool> = None;
    let mut i: usize = 0;
    while i < pairs.len()
        invariant
            i <= pairs.len(),
            ps.len() == pairs@.len(),
            v.deep_view() == SpecJson::Object(ps),
            v == JsonValue::Object(*pairs),
            forall|k: int| 0 <= k < pairs@.len() ==> ps[k] == (
                pairs@[k].0@,
                crate::json::json_model(pairs@[k].1),
            ),
            spec_scan(ps, i as int) == Ok::<_, DecodeError>(
                SpecSlots {
                    autocomplete,
                    channel_types: channel_types.deep_view(),
                    choices: choices.deep_view(),
                    description: description.deep_view(),
                    kind,
                    max_value,
                    min_value,
                    name: name.deep_view(),
                    options: options.deep_view(),
                    required,
                },
            ),
        decreases pairs.len() - i,
    {
        let key = &pairs[i].0;
        let value = &pairs[i].1;
        proof {
            reveal_with_fuel(spec_scan, 2);
            assert(ps[i as int] == (pairs@[i as int].0@, crate::json::json_model(
                pairs@[i as int].1,
            )));
        }
        match OptionField::of_key(key) {
            None => {},
            Some(OptionField::Autocomplete) => {
                if autocomplete.is_some() {
                    proof {
                        lemma_scan_err(ps, i as int + 1, ps.len() as int);
                    }
                    return Err(DecodeError::DuplicateField(OptionField::Autocomplete));
                }
                match decode_bool(value) {
                    Ok(b) => {
                        autocomplete = Some(b);
                    },
                    Err(e) => {
                        proof {
                            lemma_scan_err(ps, i as int + 1, ps.len() as int);
                        }
                        return Err(e);
                    },
                }
            },
            Some(OptionField::ChannelTypes) => {
                if channel_types.is_some() {
                    proof {
                        lemma_scan_err(ps, i as int + 1, ps.len() as int);
                    }
                    return Err(DecodeError::DuplicateField(OptionField::ChannelTypes));
                }
                match decode_channel_types(value) {
                    Ok(c) => {
                        channel_types = Some(c);
                    },
                    Err(e) => {
                        proof {
                            lemma_scan_err(ps, i as int + 1, ps.len() as int);
                        }
                        return Err(e);
                    },
                }
            },
            Some(OptionField::Choices) => {
                if choices.is_some() {
                    proof {
                        lemma_scan_err(ps, i as int + 1, ps.len() as int);
                    }
                    return Err(DecodeError::DuplicateField(OptionField::Choices));
                }
                match decode_choices(value) {
                    Ok(c) => {
                        choices = Some(c);
                    },
                    Err(e) => {
                        proof {
                            lemma_scan_err(ps, i as int + 1, ps.len() as int);
                        }
                        return Err(e);
                    },
                }
            },
            Some(OptionField::Description) => {
                if description.is_some() {
                    proof {
                        lemma_scan_err(ps, i as int + 1, ps.len() as int);
                    }
                    return Err(DecodeError::DuplicateField(OptionField::Description));
                }
                match decode_string(value) {
                    Ok(s) => {
                        description = Some(s);
                    },
                    Err(e) => {
                        proof {
                            lemma_scan_err(ps, i as int + 1, ps.len() as int);
                        }
                        return Err(e);
                    },
                }
            },
            Some(OptionField::MaxValue) => {
                if max_value.is_some() {
                    proof {
                        lemma_scan_err(ps, i as int + 1, ps.len() as int);
                    }
                    return Err(DecodeError::DuplicateField(OptionField::MaxValue));
                }
                match decode_bound(value) {
                    Ok(b) => {
                        max_value = Some(b);
                    },
                    Err(e) => {
                        proof {
                            lemma_scan_err(ps, i as int + 1, ps.len() as int);
                        }
                        return Err(e);
                    },
                }
            },
            Some(OptionField::MinValue) => {
                if min_value.is_some() {
                    proof {
                        lemma_scan_err(ps, i as int + 1, ps.len() as int);
                    }
                    return Err(DecodeError::DuplicateField(OptionField::MinValue));
                }
                match decode_bound(value) {
                    Ok(b) => {
                        min_value = Some(b);
                    },
                    Err(e) => {
                        proof {
                            lemma_scan_err(ps, i as int + 1, ps.len() as int);
                        }
                        return Err(e);
                    },
                }
            },
            Some(OptionField::Name) => {
                if name.is_some() {
                    proof {
                        lemma_scan_err(ps, i as int + 1, ps.len() as int);
                    }
                    return Err(DecodeError::DuplicateField(OptionField::Name));
                }
                match decode_string(value) {
                    Ok(s) => {
                        name = Some(s);
                    },
                    Err(e) => {
                        proof {
                            lemma_scan_err(ps, i as int + 1, ps.len() as int);
                        }
                        return Err(e);
                    },
                }
            },
            Some(OptionField::Options) => {
                if options.is_some() {
                    proof {
                        lemma_scan_err(ps, i as int + 1, ps.len() as int);
                    }
                    return Err(DecodeError::DuplicateField(OptionField::Options));
                }
                proof {
                    assert(decreases_to!(v => pairs));
                    assert(decreases_to!(pairs => pairs@));
                    assert(decreases_to!(pairs@ => pairs@[i as int]));
                    assert(decreases_to!(pairs@[i as int] => pairs@[i as int].1));
                }
                match decode_options_value(value) {
                    Ok(o) => {
                        options = Some(o);
                    },
                    Err(e) => {
                        proof {
                            lemma_scan_err(ps, i as int + 1, ps.len() as int);
                        }
                        return Err(e);
                    },
                }
            },
            Some(OptionField::Required) => {
                if required.is_some() {
                    proof {
                        lemma_scan_err(ps, i as int + 1, ps.len() as int);
                    }
                    return Err(DecodeError::DuplicateField(OptionField::Required));
                }
                match decode_bool(value) {
                    Ok(b) => {
                        required = Some(b);
                    },
                    Err(e) => {
                        proof {
                            lemma_scan_err(ps, i as int + 1, ps.len() as int);
                        }
                        return Err(e);
                    },
                }
            },
            Some(OptionField::Type) => {
                if kind.is_some() {
                    proof {
                        lemma_scan_err(ps, i as int + 1, ps.len() as int);
                    }
                    return Err(DecodeError::DuplicateField(OptionField::Type));
                }
                match decode_type(value) {
                    Ok(t) => {
                        kind = Some(t);
                    },
                    Err(e) => {
                        proof {
                            lemma_scan_err(ps, i as int + 1, ps.len() as int);
                        }
                        return Err(e);
                    },
                }
            },
        }
        i += 1;
    }
    let ghost slots = SpecSlots {
        autocomplete,
        channel_types: channel_types.deep_view(),
        choices: choices.deep_view(),
        description: description.deep_view(),
        kind,
        max_value,
        min_value,
        name: name.deep_view(),
        options: options.deep_view(),
        required,
    };
    let description = match description {
        Some(d) => d,
        None => {
            return Err(DecodeError::MissingField(OptionField::Description));
        },
    };
    let kind = match kind {
        Some(k) => k,
        None => {
            return Err(DecodeError::MissingField(OptionField::Type));
        },
    };
    let name = match name {
        Some(n) => n,
        None => {
            return Err(DecodeError::MissingField(OptionField::Name));
        },
    };
    let autocomplete = match autocomplete {
        Some(b) => b,
        None => false,
    };
    let required = match required {
        Some(b) => b,
        None => false,
    };
    let max_value = match max_value {
        Some(Some(b)) => Some(b),
        _ => None,
    };
    let min_value = match min_value {
        Some(Some(b)) => Some(b),
        _ => None,
    };
    match kind {
        CommandOptionType::SubCommand => {
            let options = take_or_empty(options);
            proof {
                crate::option::lemma_options_model(options@, options@.len() as int);
                assert(options.deep_view() =~= crate::option::options_model(
                    options@,
                    options@.len() as int,
                ));
            }
            Ok(
                CommandOption::SubCommand(
                    crate::option::OptionsCommandOptionData { description, name, options },
                ),
            )
        },
        CommandOptionType::SubCommandGroup => {
            let options = take_or_empty(options);
            proof {
                crate::option::lemma_options_model(options@, options@.len() as int);
                assert(options.deep_view() =~= crate::option::options_model(
                    options@,
                    options@.len() as int,
                ));
            }
            Ok(
                CommandOption::SubCommandGroup(
                    crate::option::OptionsCommandOptionData { description, name, options },
                ),
            )
        },
        CommandOptionType::String => Ok(
            CommandOption::String(
                crate::option::ChoiceCommandOptionData {
                    autocomplete,
                    choices: take_or_empty(choices),
                    description,
                    name,
                    required,
                },
            ),
        ),
        CommandOptionType::Integer => Ok(
            CommandOption::Integer(
                crate::option::NumberCommandOptionData {
                    autocomplete,
                    choices: take_or_empty(choices),
                    description,
                    max_value,
                    min_value,
                    name,
                    required,
                },
            ),
        ),
        CommandOptionType::Boolean => Ok(
            CommandOption::Boolean(
                crate::option::BaseCommandOptionData { description, name, required },
            ),
        ),
        CommandOptionType::User => Ok(
            CommandOption::User(
                crate::option::BaseCommandOptionData { description, name, required },
            ),
        ),
        CommandOptionType::Channel => Ok(
            CommandOption::Channel(
                crate::option::ChannelCommandOptionData {
                    channel_types: take_or_empty(channel_types),
                    description,
                    name,
                    required,
                },
            ),
        ),
        CommandOptionType::Role => Ok(
            CommandOption::Role(
                crate::option::BaseCommandOptionData { description, name, required },
            ),
        ),
        CommandOptionType::Mentionable => Ok(
            CommandOption::Mentionable(
                crate::option::BaseCommandOptionData { description, name, required },
            ),
        ),
        CommandOptionType::Number => Ok(
            CommandOption::Number(
                crate::option::NumberCommandOptionData {
                    autocomplete,
                    choices: take_or_empty(choices),
                    description,
                    max_value,
                    min_value,
                    name,
                    required,
                },
            ),
        ),
    }
}

/// Encode of a numeric bound.
pub fn encode_bound(b: CommandOptionValue) -> (r: JsonValue)
    ensures
        r.deep_view() == spec_encode_bound(b),
{
    match b {
        CommandOptionValue::Integer(i) => JsonValue::Integer(i),
        CommandOptionValue::Number(n) => JsonValue::Double(n.0),
    }
}

/// Encode of one choice: an object of its name and its value.
pub fn encode_choice(c: &CommandOptionChoice) -> (r: JsonValue)
    ensures
        r.deep_view() == spec_encode_choice(c.deep_view()),
{
    let mut pairs: Vec<(String, JsonValue)> = Vec::new();
    match c {
        CommandOptionChoice::String { name, value } => {
            pairs.push((String::from_str("name"), JsonValue::String(name.clone())));
            pairs.push((String::from_str("value"), JsonValue::String(value.clone())));
        },
        CommandOptionChoice::Int { name, value } => {
            pairs.push((String::from_str("name"), JsonValue::String(name.clone())));
            pairs.push((String::from_str("value"), JsonValue::Integer(*value)));
        },
        CommandOptionChoice::Number { name, value } => {
            pairs.push((String::from_str("name"), JsonValue::String(name.clone())));
            pairs.push((String::from_str("value"), JsonValue::Double(value.0)));
        },
    }
    proof {
        crate::json::lemma_json_object_model(pairs@, pairs@.len() as int);
        assert(crate::json::json_object_model(pairs@, pairs@.len() as int)
            =~= spec_encode_choice(c.deep_view())->Object_0);
    }
    JsonValue::Object(pairs)
}

/// Encode of a `channel_types` array.
pub fn encode_channels(ts: &Vec<ChannelType>) -> (r: Vec<JsonValue>)
    ensures
        r.deep_view() == spec_encode_channels(ts.deep_view()),
{
    let mut out: Vec<JsonValue> = Vec::new();
    let mut j: usize = 0;
    while j < ts.len()
        invariant
            j <= ts.len(),
            out@.len() == j,
            forall|k: int| 0 <= k < j ==> crate::json::json_model(#[trigger] out@[k])
                == SpecJson::Integer(channel_type_code(ts@[k])),
        decreases ts.len() - j,
    {
        out.push(JsonValue::Integer(ts[j].code() as i64));
        j += 1;
    }
    proof {
        assert(ts.deep_view() =~= ts@);
        assert(out.deep_view() =~= spec_encode_channels(ts.deep_view()));
    }
    out
}

/// Encode of a `choices` array.
pub fn encode_choices(cs: &Vec<CommandOptionChoice>) -> (r: Vec<JsonValue>)
    ensures
        r.deep_view() == spec_encode_choices(cs.deep_view()),
{
    let mut out: Vec<JsonValue> = Vec::new();
    let mut j: usize = 0;
    while j < cs.len()
        invariant
            j <= cs.len(),
            out@.len() == j,
            forall|k: int| 0 <= k < j ==> crate::json::json_model(#[trigger] out@[k])
                == spec_encode_choice(cs@[k].deep_view()),
        decreases cs.len() - j,
    {
        out.push(encode_choice(&cs[j]));
        j += 1;
    }
    proof {
        assert(out.deep_view() =~= spec_encode_choices(cs.deep_view()));
    }
    out
}

/// Emission of the shared field envelope, handed each slot the way the
/// variant filled it, with the nested options already encoded.
#[verifier::rlimit(100)]
fn emit_envelope(
    autocomplete: bool,
    channel_types: Option<&Vec<ChannelType>>,
    choices: Option<&Vec<CommandOptionChoice>>,
    description: &String,
    max_value: Option<CommandOptionValue>,
    min_value: Option<CommandOptionValue>,
    name: &String,
    options_json: Option<Vec<JsonValue>>,
    required: bool,
    kind: CommandOptionType,
) -> (r: JsonValue)
    ensures
        r.deep_view() == SpecJson::Object(
            spec_emit(
                SpecEnvelope {
                    autocomplete,
                    channel_types: match channel_types {
                        Some(ts) => Some(ts.deep_view()),
                        None => None,
                    },
                    choices: match choices {
                        Some(cs) => Some(cs.deep_view()),
                        None => None,
                    },
                    description: description@,
                    max_value,
                    min_value,
                    name: name@,
                    options: match options_json {
                        Some(os) => Some(os.deep_view()),
                        None => None,
                    },
                    required,
                    kind,
                },
            ),
        ),
{
    let mut pairs: Vec<(String, JsonValue)> = Vec::new();
    if autocomplete {
        pairs.push((String::from_str("autocomplete"), JsonValue::Bool(true)));
    }
    match channel_types {
        Some(ts) => {
            let arr = encode_channels(ts);
            proof {
                crate::json::lemma_json_vec_deep_view(arr);
            }
            pairs.push((String::from_str("channel_types"), JsonValue::Array(arr)));
        },
        None => {},
    }
    match choices {
        Some(cs) => {
            let arr = encode_choices(cs);
            proof {
                crate::json::lemma_json_vec_deep_view(arr);
            }
            pairs.push((String::from_str("choices"), JsonValue::Array(arr)));
        },
        None => {},
    }
    pairs.push((String::from_str("description"), JsonValue::String(description.clone())));
    match max_value {
        Some(b) => {
            pairs.push((String::from_str("max_value"), encode_bound(b)));
        },
        None => {},
    }
    match min_value {
        Some(b) => {
            pairs.push((String::from_str("min_value"), encode_bound(b)));
        },
        None => {},
    }
    pairs.push((String::from_str("name"), JsonValue::String(name.clone())));
    match options_json {
        Some(os) => {
            proof {
                crate::json::lemma_json_vec_deep_view(os);
            }
            pairs.push((String::from_str("options"), JsonValue::Array(os)));
        },
        None => {},
    }
    if required {
        pairs.push((String::from_str("required"), JsonValue::Bool(true)));
    }
    pairs.push((String::from_str("type"), JsonValue::Integer(kind.code() as i64)));
    proof {
        crate::json::lemma_json_pairs_deep_view(pairs);
        assert(crate::json::json_object_model(pairs@, pairs@.len() as int) =~= spec_emit(
            SpecEnvelope {
                autocomplete,
                channel_types: match channel_types {
                    Some(ts) => Some(ts.deep_view()),
                    None => None,
                },
                choices: match choices {
                    Some(cs) => Some(cs.deep_view()),
                    None => None,
                },
                description: description@,
                max_value,
                min_value,
                name: name@,
                options: match options_json {
                    Some(os) => Some(os.deep_view()),
                    None => None,
                },
                required,
                kind,
            },
        ));
    }
    JsonValue::Object(pairs)
}

/// Encode of a nested `options` array, elementwise.
pub fn encode_options_array(items: &Vec<CommandOption>) -> (r: Vec<JsonValue>)
    ensures
        r.deep_view() == spec_encode_options(
            items.deep_view(),
            items.deep_view().len() as int,
        ),
    decreases items, 0int,
{
    proof {
        crate::option::lemma_options_model(items@, items@.len() as int);
        assert(items.deep_view() =~= crate::option::options_model(items@, items@.len() as int));
    }
    let mut out: Vec<JsonValue> = Vec::new();
    let mut j: usize = 0;
    while j < items.len()
        invariant
            j <= items.len(),
            out@.len() == j,
            items.deep_view().len() == items@.len(),
            forall|k: int| 0 <= k < items@.len() ==> items.deep_view()[k] == (
                #[trigger] items@[k]).deep_view(),
            forall|k: int| 0 <= k < j ==> crate::json::json_model(#[trigger] out@[k])
                == spec_encode_option(items.deep_view()[k]),
        decreases items.len() - j,
    {
        proof {
            assert(decreases_to!(items => items@));
            assert(decreases_to!(items@ => items@[j as int]));
        }
        out.push(encode_command_option(&items[j]));
        j += 1;
    }
    proof {
        lemma_spec_encode_options(items.deep_view(), items.deep_view().len() as int);
        assert(out.deep_view() =~= spec_encode_options(
            items.deep_view(),
            items.deep_view().len() as int,
        ));
    }
    out
}

/// Encode an option tree as a JSON object, ready for inclusion in a request
/// body: the variant's payload is projected onto the shared envelope and
/// only the fields meaningful to that variant are emitted.
pub fn encode_command_option(option: &CommandOption) -> (r: JsonValue)
    ensures
        r.deep_view() == spec_encode_option(option.deep_view()),
    decreases option, 1int,
{
    match option {
        CommandOption::SubCommand(d) => {
            proof {
                assert(decreases_to!(option => d));
                assert(decreases_to!(d => d.options));
                crate::option::lemma_options_model(d.options@, d.options@.len() as int);
                assert(d.options.deep_view() =~= crate::option::options_model(
                    d.options@,
                    d.options@.len() as int,
                ));
            }
            let os = encode_options_array(&d.options);
            emit_envelope(
                false,
                None,
                None,
                &d.description,
                None,
                None,
                &d.name,
                Some(os),
                false,
                CommandOptionType::SubCommand,
            )
        },
        CommandOption::SubCommandGroup(d) => {
            proof {
                assert(decreases_to!(option => d));
                assert(decreases_to!(d => d.options));
                crate::option::lemma_options_model(d.options@, d.options@.len() as int);
                assert(d.options.deep_view() =~= crate::option::options_model(
                    d.options@,
                    d.options@.len() as int,
                ));
            }
            let os = encode_options_array(&d.options);
            emit_envelope(
                false,
                None,
                None,
                &d.description,
                None,
                None,
                &d.name,
                Some(os),
                false,
                CommandOptionType::SubCommandGroup,
            )
        },
        CommandOption::String(d) => emit_envelope(
            d.autocomplete,
            None,
            Some(&d.choices),
            &d.description,
            None,
            None,
            &d.name,
            None,
            d.required,
            CommandOptionType::String,
        ),
        CommandOption::Integer(d) => emit_envelope(
            d.autocomplete,
            None,
            Some(&d.choices),
            &d.description,
            d.max_value,
            d.min_value,
            &d.name,
            None,
            d.required,
            CommandOptionType::Integer,
        ),
        CommandOption::Boolean(d) => emit_envelope(
            false,
            None,
            None,
            &d.description,
            None,
            None,
            &d.name,
            None,
            d.required,
            CommandOptionType::Boolean,
        ),
        CommandOption::User(d) => emit_envelope(
            false,
            None,
            None,
            &d.description,
            None,
            None,
            &d.name,
            None,
            d.required,
            CommandOptionType::User,
        ),
        CommandOption::Channel(d) => {
            let channel_types = if d.channel_types.len() > 0 {
                Some(&d.channel_types)
            } else {
                None
            };
            proof {
                assert(d.channel_types.deep_view().len() == d.channel_types@.len());
            }
            emit_envelope(
                false,
                channel_types,
                None,
                &d.description,
                None,
                None,
                &d.name,
                None,
                d.required,
                CommandOptionType::Channel,
            )
        },
        CommandOption::Role(d) => emit_envelope(
            false,
            None,
            None,
            &d.description,
            None,
            None,
            &d.name,
            None,
            d.required,
            CommandOptionType::Role,
        ),
        CommandOption::Mentionable(d) => emit_envelope(
            false,
            None,
            None,
            &d.description,
            None,
            None,
            &d.name,
            None,
            d.required,
            CommandOptionType::Mentionable,
        ),
        CommandOption::Number(d) => emit_envelope(
            d.autocomplete,
            None,
            Some(&d.choices),
            &d.description,
            d.max_value,
            d.min_value,
            &d.name,
            None,
            d.required,
            CommandOptionType::Number,
        ),
    }
}

/// A numeric bound comes back from its encoding unchanged: shape-based
/// resolution keeps integers integers and bit patterns bit patterns.
pub proof fn lemma_bound_round_trip(b: CommandOptionValue)
    ensures
        spec_decode_bound(spec_encode_bound(b)) == Ok::<_, DecodeError>(Some(b)),
{
}

/// A choice comes back from its encoding unchanged.
pub proof fn lemma_choice_round_trip(c: SpecChoice)
    ensures
        spec_decode_choice(spec_encode_choice(c)) == Ok::<_, DecodeError>(c),
{
    reveal_strlit("name");
    reveal_strlit("value");
    reveal_with_fuel(spec_choice_scan, 3);
    assert("name"@.len() != "value"@.len());
}

/// A `choices` array comes back from its encoding unchanged, prefix by
/// prefix.
proof fn lemma_choice_elems_round_trip(cs: Seq<SpecChoice>, n: int)
    requires
        0 <= n <= cs.len(),
    ensures
        spec_decode_choice_elems(spec_encode_choices(cs), n) == Ok::<_, DecodeError>(cs.take(n)),
    decreases n,
{
    if n == 0 {
        assert(cs.take(0) =~= Seq::empty());
    } else {
        lemma_choice_elems_round_trip(cs, n - 1);
        lemma_choice_round_trip(cs[n - 1]);
        assert(cs.take(n - 1).push(cs[n - 1]) =~= cs.take(n));
    }
}

/// A `channel_types` array comes back from its encoding unchanged, prefix
/// by prefix.
proof fn lemma_channel_elems_round_trip(ts: Seq<ChannelType>, n: int)
    requires
        0 <= n <= ts.len(),
    ensures
        spec_decode_channel_elems(spec_encode_channels(ts), n) == Ok::<_, DecodeError>(ts.take(n)),
    decreases n,
{
    if n == 0 {
        assert(ts.take(0) =~= Seq::empty());
    } else {
        lemma_channel_elems_round_trip(ts, n - 1);
        crate::option::lemma_channel_type_code_round_trip(ts[n - 1]);
        assert(ts.take(n - 1).push(ts[n - 1]) =~= ts.take(n));
    }
}

/// The shape of a wire literal alone picks the union variant: an
/// integer-shaped value decodes to the integer choice and a float-shaped
/// value to the floating-point choice, whatever their numeric values.
pub proof fn lemma_numeric_union_precedence(i: i64, bits: u64)
    ensures
        spec_decode_bound(SpecJson::Integer(i)) == Ok::<_, DecodeError>(
            Some(CommandOptionValue::Integer(i)),
        ),
        spec_decode_bound(SpecJson::Double(bits)) == Ok::<_, DecodeError>(
            Some(CommandOptionValue::Number(Number(bits))),
        ),
{
}

/// Reading a key whose slot is already filled fails with that field as a
/// duplicate, whatever else the object holds.
pub proof fn lemma_step_duplicate(slots: SpecSlots, key: Seq<char>, value: SpecJson, f: OptionField)
    requires
        field_of_key(key) == Some(f),
        match f {
            OptionField::Autocomplete => slots.autocomplete is Some,
            OptionField::ChannelTypes => slots.channel_types is Some,
            OptionField::Choices => slots.choices is Some,
            OptionField::Description => slots.description is Some,
            OptionField::MaxValue => slots.max_value is Some,
            OptionField::MinValue => slots.min_value is Some,
            OptionField::Name => slots.name is Some,
            OptionField::Options => slots.options is Some,
            OptionField::Required => slots.required is Some,
            OptionField::Type => slots.kind is Some,
        },
    ensures
        spec_step(slots, key, value) == Err::<SpecSlots, _>(DecodeError::DuplicateField(f)),
{
}

/// An object that carries the `name` key twice never decodes: the second
/// occurrence is refused, or an earlier field has already failed.
pub proof fn lemma_duplicate_name_fails(pairs: Seq<(Seq<char>, SpecJson)>, i: int, j: int)
    requires
        0 <= i < j < pairs.len(),
        pairs[i].0 == "name"@,
        pairs[j].0 == "name"@,
    ensures
        spec_decode_option(SpecJson::Object(pairs)) is Err,
{
    lemma_scan_name_filled(pairs, i, j);
    if spec_scan(pairs, j + 1) is Err {
        lemma_scan_err(pairs, j + 1, pairs.len() as int);
    }
}

/// Each wire key names its own field.
pub proof fn lemma_field_keys()
    ensures
        field_of_key("autocomplete"@) == Some(OptionField::Autocomplete),
        field_of_key("channel_types"@) == Some(OptionField::ChannelTypes),
        field_of_key("choices"@) == Some(OptionField::Choices),
        field_of_key("description"@) == Some(OptionField::Description),
        field_of_key("max_value"@) == Some(OptionField::MaxValue),
        field_of_key("min_value"@) == Some(OptionField::MinValue),
        field_of_key("name"@) == Some(OptionField::Name),
        field_of_key("options"@) == Some(OptionField::Options),
        field_of_key("required"@) == Some(OptionField::Required),
        field_of_key("type"@) == Some(OptionField::Type),
{
    reveal_strlit("autocomplete");
    reveal_strlit("channel_types");
    reveal_strlit("choices");
    reveal_strlit("description");
    reveal_strlit("max_value");
    reveal_strlit("min_value");
    reveal_strlit("name");
    reveal_strlit("options");
    reveal_strlit("required");
    reveal_strlit("type");
    assert("autocomplete"@.len() == 12);
    assert("channel_types"@.len() == 13);
    assert("choices"@.len() == 7);
    assert("description"@.len() == 11);
    assert("max_value"@.len() == 9);
    assert("min_value"@.len() == 9);
    assert("name"@.len() == 4);
    assert("options"@.len() == 7);
    assert("required"@.len() == 8);
    assert("type"@.len() == 4);
    assert("max_value"@ != "min_value"@) by {
        assert("max_value"@[1] != "min_value"@[1]);
    }
    assert("options"@ != "choices"@) by {
        assert("options"@[0] != "choices"@[0]);
    }
    assert("type"@ != "name"@) by {
        assert("type"@[0] != "name"@[0]);
    }
}

/// If the scan is still running after pair `j`, and an earlier pair `i` was
/// a `name`, the name slot is filled.
proof fn lemma_scan_slot_after_name(pairs: Seq<(Seq<char>, SpecJson)>, i: int, j: int)
    requires
        0 <= i < j <= pairs.len(),
        pairs[i].0 == "name"@,
    ensures
        spec_scan(pairs, j) matches Ok(slots) ==> slots.name is Some,
    decreases j,
{
    reveal_with_fuel(spec_scan, 2);
    lemma_field_keys();
    if j - 1 > i {
        lemma_scan_slot_after_name(pairs, i, j - 1);
    }
}

/// Once a `name` pair has been read, a second one fails the scan.
proof fn lemma_scan_name_filled(pairs: Seq<(Seq<char>, SpecJson)>, i: int, j: int)
    requires
        0 <= i < j < pairs.len(),
        pairs[i].0 == "name"@,
        pairs[j].0 == "name"@,
    ensures
        spec_scan(pairs, j + 1) is Err,
{
    reveal_with_fuel(spec_scan, 2);
    lemma_field_keys();
    lemma_scan_slot_after_name(pairs, i, j);
}

/// Round trip of both container variants, given that their nested options
/// round-trip.
#[verifier::spinoff_prover]
#[verifier::rlimit(100)]
proof fn lemma_rt_container(d: crate::option::SpecOptionsData)
    requires
        spec_decode_option_elems(
            spec_encode_options(d.options, d.options.len() as int),
            d.options.len() as int,
        ) == Ok::<_, DecodeError>(d.options),
    ensures
        spec_decode_option(spec_encode_option(SpecCommandOption::SubCommand(d)))
            == Ok::<_, DecodeError>(SpecCommandOption::SubCommand(d)),
        spec_decode_option(spec_encode_option(SpecCommandOption::SubCommandGroup(d)))
            == Ok::<_, DecodeError>(SpecCommandOption::SubCommandGroup(d)),
{
    lemma_field_keys();
    reveal_with_fuel(spec_scan, 10);
    reveal_with_fuel(spec_step, 2);
    reveal_with_fuel(spec_encode_option, 2);
    reveal_with_fuel(spec_envelope, 2);
    reveal_with_fuel(spec_decode_option, 2);
    reveal_with_fuel(spec_decode_options_value, 2);
    lemma_spec_encode_options(d.options, d.options.len() as int);
    crate::option::lemma_option_type_code_round_trip(CommandOptionType::SubCommand);
    crate::option::lemma_option_type_code_round_trip(CommandOptionType::SubCommandGroup);
}

/// Round trip of the plain variants.
#[verifier::spinoff_prover]
#[verifier::rlimit(100)]
proof fn lemma_rt_base(d: crate::option::SpecBaseData)
    ensures
        spec_decode_option(spec_encode_option(SpecCommandOption::Boolean(d)))
            == Ok::<_, DecodeError>(SpecCommandOption::Boolean(d)),
        spec_decode_option(spec_encode_option(SpecCommandOption::User(d)))
            == Ok::<_, DecodeError>(SpecCommandOption::User(d)),
        spec_decode_option(spec_encode_option(SpecCommandOption::Role(d)))
            == Ok::<_, DecodeError>(SpecCommandOption::Role(d)),
        spec_decode_option(spec_encode_option(SpecCommandOption::Mentionable(d)))
            == Ok::<_, DecodeError>(SpecCommandOption::Mentionable(d)),
{
    lemma_field_keys();
    reveal_with_fuel(spec_scan, 10);
    reveal_with_fuel(spec_step, 2);
    reveal_with_fuel(spec_encode_option, 2);
    reveal_with_fuel(spec_envelope, 2);
    reveal_with_fuel(spec_decode_option, 2);
    crate::option::lemma_option_type_code_round_trip(CommandOptionType::Boolean);
    crate::option::lemma_option_type_code_round_trip(CommandOptionType::User);
    crate::option::lemma_option_type_code_round_trip(CommandOptionType::Role);
    crate::option::lemma_option_type_code_round_trip(CommandOptionType::Mentionable);
}

/// Round trip of the channel-restricted variant.
#[verifier::spinoff_prover]
#[verifier::rlimit(100)]
proof fn lemma_rt_channel(d: crate::option::SpecChannelData)
    ensures
        spec_decode_option(spec_encode_option(SpecCommandOption::Channel(d)))
            == Ok::<_, DecodeError>(SpecCommandOption::Channel(d)),
{
    lemma_field_keys();
    reveal_with_fuel(spec_scan, 10);
    reveal_with_fuel(spec_step, 2);
    reveal_with_fuel(spec_encode_option, 2);
    reveal_with_fuel(spec_envelope, 2);
    reveal_with_fuel(spec_decode_option, 2);
    crate::option::lemma_option_type_code_round_trip(CommandOptionType::Channel);
    if d.channel_types.len() > 0 {
        lemma_channel_elems_round_trip(d.channel_types, d.channel_types.len() as int);
        assert(d.channel_types.take(d.channel_types.len() as int) =~= d.channel_types);
    } else {
        assert(d.channel_types =~= Seq::empty());
    }
}

/// Round trip of the choice-bearing string variant.
#[verifier::spinoff_prover]
#[verifier::rlimit(100)]
proof fn lemma_rt_string(d: crate::option::SpecChoiceData)
    ensures
        spec_decode_option(spec_encode_option(SpecCommandOption::String(d)))
            == Ok::<_, DecodeError>(SpecCommandOption::String(d)),
{
    lemma_field_keys();
    reveal_with_fuel(spec_scan, 10);
    reveal_with_fuel(spec_step, 2);
    reveal_with_fuel(spec_encode_option, 2);
    reveal_with_fuel(spec_envelope, 2);
    reveal_with_fuel(spec_decode_option, 2);
    crate::option::lemma_option_type_code_round_trip(CommandOptionType::String);
    lemma_choice_elems_round_trip(d.choices, d.choices.len() as int);
    assert(d.choices.take(d.choices.len() as int) =~= d.choices);
    let enc = spec_encode_choices(d.choices);
    assert(enc.len() == d.choices.len());
    assert(spec_decode_choices(SpecJson::Array(enc)) == Ok::<_, DecodeError>(Some(d.choices)));
    let env2 = spec_envelope(SpecCommandOption::String(d));
    let pairs = spec_emit(env2);
    let want = SpecSlots {
        autocomplete: if d.autocomplete { Some(true) } else { None },
        channel_types: None,
        choices: Some(Some(d.choices)),
        description: Some(d.description),
        kind: Some(CommandOptionType::String),
        max_value: None,
        min_value: None,
        name: Some(d.name),
        options: None,
        required: if d.required { Some(true) } else { None },
    };
    assert(spec_scan(pairs, pairs.len() as int) == Ok::<_, DecodeError>(want));
    assert(spec_finish(want) == Ok::<_, DecodeError>(SpecCommandOption::String(d)));
    assert(spec_decode_option(spec_encode_option(SpecCommandOption::String(d)))
        == Ok::<_, DecodeError>(SpecCommandOption::String(d)));
}

/// Round trip of the integer numeric variant.
#[verifier::spinoff_prover]
#[verifier::rlimit(100)]
proof fn lemma_rt_integer(d: crate::option::SpecNumberData)
    ensures
        spec_decode_option(spec_encode_option(SpecCommandOption::Integer(d)))
            == Ok::<_, DecodeError>(SpecCommandOption::Integer(d)),
{
    lemma_field_keys();
    reveal_with_fuel(spec_scan, 10);
    reveal_with_fuel(spec_step, 2);
    reveal_with_fuel(spec_encode_option, 2);
    reveal_with_fuel(spec_envelope, 2);
    reveal_with_fuel(spec_decode_option, 2);
    crate::option::lemma_option_type_code_round_trip(CommandOptionType::Integer);
    lemma_choice_elems_round_trip(d.choices, d.choices.len() as int);
    assert(d.choices.take(d.choices.len() as int) =~= d.choices);
    let enc = spec_encode_choices(d.choices);
    assert(enc.len() == d.choices.len());
    assert(spec_decode_choices(SpecJson::Array(enc)) == Ok::<_, DecodeError>(Some(d.choices)));
    let env2 = spec_envelope(SpecCommandOption::Integer(d));
    let pairs = spec_emit(env2);
    let want = SpecSlots {
        autocomplete: if d.autocomplete { Some(true) } else { None },
        channel_types: None,
        choices: Some(Some(d.choices)),
        description: Some(d.description),
        kind: Some(CommandOptionType::Integer),
        max_value: match d.max_value { Some(b) => Some(Some(b)), None => None },
        min_value: match d.min_value { Some(b) => Some(Some(b)), None => None },
        name: Some(d.name),
        options: None,
        required: if d.required { Some(true) } else { None },
    };
    assert(spec_scan(pairs, pairs.len() as int) == Ok::<_, DecodeError>(want));
    assert(spec_finish(want) == Ok::<_, DecodeError>(SpecCommandOption::Integer(d)));
}

/// Round trip of the floating-point numeric variant.
#[verifier::spinoff_prover]
#[verifier::rlimit(100)]
proof fn lemma_rt_number(d: crate::option::SpecNumberData)
    ensures
        spec_decode_option(spec_encode_option(SpecCommandOption::Number(d)))
            == Ok::<_, DecodeError>(SpecCommandOption::Number(d)),
{
    lemma_field_keys();
    reveal_with_fuel(spec_scan, 10);
    reveal_with_fuel(spec_step, 2);
    reveal_with_fuel(spec_encode_option, 2);
    reveal_with_fuel(spec_envelope, 2);
    reveal_with_fuel(spec_decode_option, 2);
    crate::option::lemma_option_type_code_round_trip(CommandOptionType::Number);
    lemma_choice_elems_round_trip(d.choices, d.choices.len() as int);
    assert(d.choices.take(d.choices.len() as int) =~= d.choices);
    let enc = spec_encode_choices(d.choices);
    assert(enc.len() == d.choices.len());
    assert(spec_decode_choices(SpecJson::Array(enc)) == Ok::<_, DecodeError>(Some(d.choices)));
    let env2 = spec_envelope(SpecCommandOption::Number(d));
    let pairs = spec_emit(env2);
    let want = SpecSlots {
        autocomplete: if d.autocomplete { Some(true) } else { None },
        channel_types: None,
        choices: Some(Some(d.choices)),
        description: Some(d.description),
        kind: Some(CommandOptionType::Number),
        max_value: match d.max_value { Some(b) => Some(Some(b)), None => None },
        min_value: match d.min_value { Some(b) => Some(Some(b)), None => None },
        name: Some(d.name),
        options: None,
        required: if d.required { Some(true) } else { None },
    };
    assert(spec_scan(pairs, pairs.len() as int) == Ok::<_, DecodeError>(want));
    assert(spec_finish(want) == Ok::<_, DecodeError>(SpecCommandOption::Number(d)));
}

/// Round trip: every constructible option comes back from its encoding
/// unchanged, nested options included.
pub proof fn lemma_round_trip(m: SpecCommandOption)
    ensures
        spec_decode_option(spec_encode_option(m)) == Ok::<_, DecodeError>(m),
    decreases m, 1int,
{
    match m {
        SpecCommandOption::SubCommand(d) => {
            assert(decreases_to!(m => d));
            assert(decreases_to!(d => d.options));
            lemma_encoded_options_round_trip(d.options, d.options.len() as int);
            assert(d.options.take(d.options.len() as int) =~= d.options);
            lemma_rt_container(d);
        },
        SpecCommandOption::SubCommandGroup(d) => {
            assert(decreases_to!(m => d));
            assert(decreases_to!(d => d.options));
            lemma_encoded_options_round_trip(d.options, d.options.len() as int);
            assert(d.options.take(d.options.len() as int) =~= d.options);
            lemma_rt_container(d);
        },
        SpecCommandOption::String(d) => lemma_rt_string(d),
        SpecCommandOption::Integer(d) => lemma_rt_integer(d),
        SpecCommandOption::Boolean(d) => lemma_rt_base(d),
        SpecCommandOption::User(d) => lemma_rt_base(d),
        SpecCommandOption::Channel(d) => lemma_rt_channel(d),
        SpecCommandOption::Role(d) => lemma_rt_base(d),
        SpecCommandOption::Mentionable(d) => lemma_rt_base(d),
        SpecCommandOption::Number(d) => lemma_rt_number(d),
    }
}

/// A nested `options` array comes back from its encoding unchanged, prefix
/// by prefix.
proof fn lemma_encoded_options_round_trip(s: Seq<SpecCommandOption>, n: int)
    requires
        0 <= n <= s.len(),
    ensures
        spec_decode_option_elems(spec_encode_options(s, s.len() as int), n)
            == Ok::<_, DecodeError>(s.take(n)),
    decreases s, n,
{
    lemma_spec_encode_options(s, s.len() as int);
    if n == 0 {
        assert(s.take(0) =~= Seq::empty());
    } else {
        lemma_encoded_options_round_trip(s, n - 1);
        assert(decreases_to!(s => s[n - 1]));
        lemma_round_trip(s[n - 1]);
        assert(s.take(n - 1).push(s[n - 1]) =~= s.take(n));
    }
}

/// Variant field isolation: encoding a plain variant — `Boolean`, `User`,
/// `Role` or `Mentionable` — never emits a `choices`, `channel_types`,
/// `min_value` or `max_value` key.
pub proof fn lemma_plain_variant_field_isolation(m: SpecCommandOption)
    requires
        m is Boolean || m is User || m is Role || m is Mentionable,
    ensures
        spec_encode_option(m) is Object,
        forall|i: int|
            0 <= i < spec_encode_option(m)->Object_0.len() ==> {
                let key = (#[trigger] spec_encode_option(m)->Object_0[i]).0;
                &&& key != "choices"@
                &&& key != "channel_types"@
                &&& key != "min_value"@
                &&& key != "max_value"@
            },
{
    reveal_with_fuel(spec_encode_option, 2);
    reveal_with_fuel(spec_envelope, 2);
    reveal_strlit("choices");
    reveal_strlit("channel_types");
    reveal_strlit("min_value");
    reveal_strlit("max_value");
    reveal_strlit("description");
    reveal_strlit("name");
    reveal_strlit("required");
    reveal_strlit("type");
    assert("choices"@.len() == 7);
    assert("channel_types"@.len() == 13);
    assert("min_value"@.len() == 9);
    assert("max_value"@.len() == 9);
    assert("description"@.len() == 11);
    assert("name"@.len() == 4);
    assert("required"@.len() == 8);
    assert("type"@.len() == 4);
}

/// Default filling: an object of a description, a name, an `options` key
/// that is explicitly null, and the subcommand discriminant decodes to a
/// subcommand whose options default to the empty list — a present-but-null
/// collection is no error.
pub proof fn lemma_null_options_defaults(description: Seq<char>, name: Seq<char>)
    ensures
        spec_decode_option(
            SpecJson::Object(
                seq![
                    ("description"@, SpecJson::String(description)),
                    ("name"@, SpecJson::String(name)),
                    ("options"@, SpecJson::Null),
                    ("type"@, SpecJson::Integer(1)),
                ],
            ),
        ) == Ok::<_, DecodeError>(
            SpecCommandOption::SubCommand(
                crate::option::SpecOptionsData { description, name, options: Seq::empty() },
            ),
        ),
{
    lemma_field_keys();
    reveal_with_fuel(spec_scan, 6);
    reveal_with_fuel(spec_step, 2);
    reveal_with_fuel(spec_decode_option, 2);
    reveal_with_fuel(spec_decode_options_value, 2);
}

} // verus!
