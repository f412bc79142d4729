//! Tests of the polymorphic option codec: decoding, encoding, the wire
//! errors, and the shape-based union resolution.

use option_codec::codec::{decode_command_option, encode_command_option, DecodeError, OptionField};
use option_codec::json::JsonValue;
use option_codec::option::{
    BaseCommandOptionData, ChannelCommandOptionData, ChannelType, ChoiceCommandOptionData,
    CommandOption, CommandOptionChoice, CommandOptionType, CommandOptionValue, Number,
    NumberCommandOptionData, OptionsCommandOptionData,
};
use std::collections::hash_map::DefaultHasher;
use std::hash::{Hash, Hasher};

fn s(text: &str) -> String {
    text.to_string()
}

fn obj(pairs: Vec<(&str, JsonValue)>) -> JsonValue {
    JsonValue::Object(pairs.into_iter().map(|(k, v)| (k.to_string(), v)).collect())
}

/// A subcommand whose `options` key is explicitly null must default to an
/// empty list instead of failing.
#[test]
fn test_issue_1150() {
    let value = CommandOption::SubCommand(OptionsCommandOptionData {
        description: s("ponyville"),
        name: s("equestria"),
        options: Vec::new(),
    });

    let wire = obj(vec![
        ("description", JsonValue::String(s("ponyville"))),
        ("name", JsonValue::String(s("equestria"))),
        ("options", JsonValue::Null),
        ("type", JsonValue::Integer(1)),
    ]);

    assert_eq!(decode_command_option(&wire), Ok(value));
}

fn full_fixture() -> CommandOption {
    CommandOption::SubCommandGroup(OptionsCommandOptionData {
        description: s("sub group desc"),
        name: s("sub group name"),
        options: vec![CommandOption::SubCommand(OptionsCommandOptionData {
            description: s("sub command desc"),
            name: s("sub command name"),
            options: vec![
                CommandOption::String(ChoiceCommandOptionData {
                    autocomplete: true,
                    choices: Vec::new(),
                    description: s("string manual desc"),
                    name: s("string_manual"),
                    required: false,
                }),
                CommandOption::String(ChoiceCommandOptionData {
                    autocomplete: false,
                    choices: vec![CommandOptionChoice::String {
                        name: s("choicea"),
                        value: s("choice_a"),
                    }],
                    description: s("string desc"),
                    name: s("string"),
                    required: false,
                }),
                CommandOption::Integer(NumberCommandOptionData {
                    autocomplete: false,
                    choices: vec![CommandOptionChoice::Int {
                        name: s("choice2"),
                        value: 2,
                    }],
                    description: s("int desc"),
                    max_value: Some(CommandOptionValue::Integer(20)),
                    min_value: Some(CommandOptionValue::Integer(10)),
                    name: s("int"),
                    required: false,
                }),
                CommandOption::Boolean(BaseCommandOptionData {
                    description: s("bool desc"),
                    name: s("bool"),
                    required: false,
                }),
                CommandOption::User(BaseCommandOptionData {
                    description: s("user desc"),
                    name: s("user"),
                    required: false,
                }),
                CommandOption::Channel(ChannelCommandOptionData {
                    channel_types: vec![ChannelType::GuildText],
                    description: s("channel desc"),
                    name: s("channel"),
                    required: false,
                }),
                CommandOption::Role(BaseCommandOptionData {
                    description: s("role desc"),
                    name: s("role"),
                    required: false,
                }),
                CommandOption::Mentionable(BaseCommandOptionData {
                    description: s("mentionable desc"),
                    name: s("mentionable"),
                    required: false,
                }),
                CommandOption::Number(NumberCommandOptionData {
                    autocomplete: false,
                    choices: vec![CommandOptionChoice::Number {
                        name: s("choice3"),
                        value: Number(2.0_f64.to_bits()),
                    }],
                    description: s("number desc"),
                    max_value: Some(CommandOptionValue::Number(Number(5.5_f64.to_bits()))),
                    min_value: Some(CommandOptionValue::Number(Number(10.0_f64.to_bits()))),
                    name: s("number"),
                    required: false,
                }),
            ],
        })],
    })
}

/// The full fixture — a group holding a subcommand holding one leaf of each
/// non-container kind — encodes onto the shared envelope and comes back
/// from its encoding with every field preserved.
#[test]
fn test_command_option_full() {
    let value = full_fixture();
    let wire = encode_command_option(&value);

    // The outer envelope holds exactly the four keys a container emits.
    match &wire {
        JsonValue::Object(pairs) => {
            let keys: Vec<&str> = pairs.iter().map(|(k, _)| k.as_str()).collect();
            assert_eq!(keys, vec!["description", "name", "options", "type"]);
            assert_eq!(pairs[0].1, JsonValue::String(s("sub group desc")));
            assert_eq!(pairs[1].1, JsonValue::String(s("sub group name")));
            assert_eq!(pairs[3].1, JsonValue::Integer(2));
        }
        other => panic!("expected an object, got {:?}", other),
    }

    assert_eq!(decode_command_option(&wire), Ok(value));
}

/// Two numeric literals built from the same bit pattern are equal.
#[test]
fn test_number() {
    let number_1 = Number(12.34_f64.to_bits());
    let number_2 = Number(12.34_f64.to_bits());

    assert_eq!(number_1, number_2);
}

/// Bit-pattern equality: identical patterns are equal and hash alike, and
/// the two zeroes are told apart.
#[test]
fn test_number_bit_patterns() {
    let pos_zero = Number(0.0_f64.to_bits());
    let neg_zero = Number((-0.0_f64).to_bits());
    assert_ne!(pos_zero, neg_zero);

    let nan_a = Number(f64::NAN.to_bits());
    let nan_b = Number(f64::NAN.to_bits());
    assert_eq!(nan_a, nan_b);

    let mut h1 = DefaultHasher::new();
    let mut h2 = DefaultHasher::new();
    nan_a.hash(&mut h1);
    nan_b.hash(&mut h2);
    assert_eq!(h1.finish(), h2.finish());
}

/// An object carrying the `name` key twice fails at the second occurrence.
#[test]
fn test_duplicate_name() {
    let wire = obj(vec![
        ("description", JsonValue::String(s("a description"))),
        ("name", JsonValue::String(s("first"))),
        ("name", JsonValue::String(s("second"))),
        ("type", JsonValue::Integer(5)),
    ]);

    assert_eq!(
        decode_command_option(&wire),
        Err(DecodeError::DuplicateField(OptionField::Name))
    );
}

/// Every slot detects its duplicate.
#[test]
fn test_duplicate_type() {
    let wire = obj(vec![
        ("type", JsonValue::Integer(5)),
        ("type", JsonValue::Integer(5)),
    ]);

    assert_eq!(
        decode_command_option(&wire),
        Err(DecodeError::DuplicateField(OptionField::Type))
    );
}

/// The three common fields are required in a fixed order: description,
/// then type, then name.
#[test]
fn test_missing_fields() {
    assert_eq!(
        decode_command_option(&obj(vec![])),
        Err(DecodeError::MissingField(OptionField::Description))
    );
    assert_eq!(
        decode_command_option(&obj(vec![(
            "description",
            JsonValue::String(s("a description"))
        )])),
        Err(DecodeError::MissingField(OptionField::Type))
    );
    assert_eq!(
        decode_command_option(&obj(vec![
            ("description", JsonValue::String(s("a description"))),
            ("type", JsonValue::Integer(5)),
        ])),
        Err(DecodeError::MissingField(OptionField::Name))
    );
}

/// A `type` code outside one through ten is an unknown variant and carries
/// the code; a `type` that is not an integer is a shape mismatch.
#[test]
fn test_unknown_variant() {
    let wire = obj(vec![
        ("description", JsonValue::String(s("a description"))),
        ("name", JsonValue::String(s("a_name"))),
        ("type", JsonValue::Integer(11)),
    ]);
    assert_eq!(decode_command_option(&wire), Err(DecodeError::UnknownVariant(11)));

    let wire = obj(vec![("type", JsonValue::Integer(300))]);
    assert_eq!(decode_command_option(&wire), Err(DecodeError::UnknownVariant(300)));

    let wire = obj(vec![("type", JsonValue::String(s("1")))]);
    assert_eq!(decode_command_option(&wire), Err(DecodeError::ShapeMismatch));
}

/// Anything but an object fails, and so does a wrongly shaped field value.
#[test]
fn test_shape_mismatch() {
    assert_eq!(
        decode_command_option(&JsonValue::Integer(1)),
        Err(DecodeError::ShapeMismatch)
    );
    let wire = obj(vec![("description", JsonValue::Integer(5))]);
    assert_eq!(decode_command_option(&wire), Err(DecodeError::ShapeMismatch));
    let wire = obj(vec![("required", JsonValue::Integer(1))]);
    assert_eq!(decode_command_option(&wire), Err(DecodeError::ShapeMismatch));
}

/// Unknown keys are accepted and ignored, for forward compatibility.
#[test]
fn test_unknown_keys_ignored() {
    let wire = obj(vec![
        ("a_future_key", JsonValue::Bool(true)),
        ("description", JsonValue::String(s("a description"))),
        ("another", JsonValue::Array(vec![JsonValue::Null])),
        ("name", JsonValue::String(s("a_name"))),
        ("type", JsonValue::Integer(6)),
    ]);

    assert_eq!(
        decode_command_option(&wire),
        Ok(CommandOption::User(BaseCommandOptionData {
            description: s("a description"),
            name: s("a_name"),
            required: false,
        }))
    );
}

/// The shape of the wire literal picks the union variant: an integer
/// resolves to the integer choice, a float-shaped literal — integer-valued
/// or not — to the floating-point one.
#[test]
fn test_numeric_union_precedence() {
    let wire = obj(vec![
        ("choices", JsonValue::Array(vec![
            obj(vec![("name", JsonValue::String(s("two"))), ("value", JsonValue::Integer(2))]),
            obj(vec![
                ("name", JsonValue::String(s("two and a half"))),
                ("value", JsonValue::Double(2.5_f64.to_bits())),
            ]),
            obj(vec![
                ("name", JsonValue::String(s("two as float"))),
                ("value", JsonValue::Double(2.0_f64.to_bits())),
            ]),
        ])),
        ("description", JsonValue::String(s("a description"))),
        ("max_value", JsonValue::Double(2.0_f64.to_bits())),
        ("min_value", JsonValue::Integer(2)),
        ("name", JsonValue::String(s("a_name"))),
        ("type", JsonValue::Integer(10)),
    ]);

    assert_eq!(
        decode_command_option(&wire),
        Ok(CommandOption::Number(NumberCommandOptionData {
            autocomplete: false,
            choices: vec![
                CommandOptionChoice::Int { name: s("two"), value: 2 },
                CommandOptionChoice::Number {
                    name: s("two and a half"),
                    value: Number(2.5_f64.to_bits()),
                },
                CommandOptionChoice::Number {
                    name: s("two as float"),
                    value: Number(2.0_f64.to_bits()),
                },
            ],
            description: s("a description"),
            max_value: Some(CommandOptionValue::Number(Number(2.0_f64.to_bits()))),
            min_value: Some(CommandOptionValue::Integer(2)),
            name: s("a_name"),
            required: false,
        }))
    );
}

/// Encoding a plain variant emits none of the keys foreign to its shape.
#[test]
fn test_variant_field_isolation() {
    let value = CommandOption::Boolean(BaseCommandOptionData {
        description: s("bool desc"),
        name: s("bool"),
        required: true,
    });

    match encode_command_option(&value) {
        JsonValue::Object(pairs) => {
            let keys: Vec<&str> = pairs.iter().map(|(k, _)| k.as_str()).collect();
            assert_eq!(keys, vec!["description", "name", "required", "type"]);
            assert!(!keys.contains(&"choices"));
            assert!(!keys.contains(&"channel_types"));
            assert!(!keys.contains(&"min_value"));
            assert!(!keys.contains(&"max_value"));
        }
        other => panic!("expected an object, got {:?}", other),
    }
}

/// The boolean flags are emitted only when true, and an empty channel
/// restriction is omitted entirely.
#[test]
fn test_default_omission() {
    let value = CommandOption::Channel(ChannelCommandOptionData {
        channel_types: Vec::new(),
        description: s("channel desc"),
        name: s("channel"),
        required: false,
    });

    match encode_command_option(&value) {
        JsonValue::Object(pairs) => {
            let keys: Vec<&str> = pairs.iter().map(|(k, _)| k.as_str()).collect();
            assert_eq!(keys, vec!["description", "name", "type"]);
        }
        other => panic!("expected an object, got {:?}", other),
    }

    // A container still emits its (empty) options, and a choice-bearing
    // variant its (empty) choices.
    let sub = CommandOption::SubCommand(OptionsCommandOptionData {
        description: s("d"),
        name: s("n"),
        options: Vec::new(),
    });
    match encode_command_option(&sub) {
        JsonValue::Object(pairs) => {
            let keys: Vec<&str> = pairs.iter().map(|(k, _)| k.as_str()).collect();
            assert_eq!(keys, vec!["description", "name", "options", "type"]);
            assert_eq!(pairs[2].1, JsonValue::Array(Vec::new()));
        }
        other => panic!("expected an object, got {:?}", other),
    }
}

/// The accessors read through to the variant's payload.
#[test]
fn test_accessors() {
    let value = CommandOption::String(ChoiceCommandOptionData {
        autocomplete: true,
        choices: Vec::new(),
        description: s("string desc"),
        name: s("string"),
        required: true,
    });
    assert_eq!(value.kind(), CommandOptionType::String);
    assert!(value.is_autocomplete());
    assert!(value.is_required());

    let sub = CommandOption::SubCommand(OptionsCommandOptionData {
        description: s("d"),
        name: s("n"),
        options: Vec::new(),
    });
    assert_eq!(sub.kind(), CommandOptionType::SubCommand);
    assert!(!sub.is_autocomplete());
    assert!(!sub.is_required());
}

/// The names and wire codes of the option types.
#[test]
fn test_option_type_names_and_codes() {
    assert_eq!(CommandOptionType::SubCommand.kind(), "SubCommand");
    assert_eq!(CommandOptionType::SubCommandGroup.kind(), "SubCommandGroup");
    assert_eq!(CommandOptionType::String.kind(), "String");
    assert_eq!(CommandOptionType::Integer.kind(), "Integer");
    assert_eq!(CommandOptionType::Boolean.kind(), "Boolean");
    assert_eq!(CommandOptionType::User.kind(), "User");
    assert_eq!(CommandOptionType::Channel.kind(), "Channel");
    assert_eq!(CommandOptionType::Role.kind(), "Role");
    assert_eq!(CommandOptionType::Mentionable.kind(), "Mentionable");
    assert_eq!(CommandOptionType::Number.kind(), "Number");

    assert_eq!(CommandOptionType::SubCommand.code(), 1);
    assert_eq!(CommandOptionType::Number.code(), 10);
    assert_eq!(CommandOptionType::try_from_code(7), Some(CommandOptionType::Channel));
    assert_eq!(CommandOptionType::try_from_code(0), None);
    assert_eq!(CommandOptionType::try_from_code(11), None);

    assert_eq!(ChannelType::GuildText.code(), 0);
    assert_eq!(ChannelType::GuildStageVoice.code(), 13);
    assert_eq!(ChannelType::try_from_code(10), Some(ChannelType::GuildNewsThread));
    assert_eq!(ChannelType::try_from_code(7), None);
}

/// A channel restriction decodes from wire codes and refuses unknown ones.
#[test]
fn test_channel_types_decode() {
    let wire = obj(vec![
        ("channel_types", JsonValue::Array(vec![
            JsonValue::Integer(0),
            JsonValue::Integer(13),
        ])),
        ("description", JsonValue::String(s("channel desc"))),
        ("name", JsonValue::String(s("channel"))),
        ("required", JsonValue::Bool(true)),
        ("type", JsonValue::Integer(7)),
    ]);
    assert_eq!(
        decode_command_option(&wire),
        Ok(CommandOption::Channel(ChannelCommandOptionData {
            channel_types: vec![ChannelType::GuildText, ChannelType::GuildStageVoice],
            description: s("channel desc"),
            name: s("channel"),
            required: true,
        }))
    );

    let wire = obj(vec![
        ("channel_types", JsonValue::Array(vec![JsonValue::Integer(7)])),
        ("description", JsonValue::String(s("channel desc"))),
        ("name", JsonValue::String(s("channel"))),
        ("type", JsonValue::Integer(7)),
    ]);
    assert_eq!(decode_command_option(&wire), Err(DecodeError::ShapeMismatch));
}

/// A nested failure propagates unchanged, so the caller sees the leaf
/// error.
#[test]
fn test_nested_error_propagates() {
    let wire = obj(vec![
        ("description", JsonValue::String(s("outer desc"))),
        ("name", JsonValue::String(s("outer"))),
        ("options", JsonValue::Array(vec![obj(vec![
            ("description", JsonValue::String(s("inner desc"))),
            ("name", JsonValue::String(s("inner"))),
            ("type", JsonValue::Integer(42)),
        ])])),
        ("type", JsonValue::Integer(2)),
    ]);

    assert_eq!(decode_command_option(&wire), Err(DecodeError::UnknownVariant(42)));
}


/// A choice refuses a wrongly shaped or duplicated field, and needs both
/// its name and its value.
#[test]
fn test_choice_shape_errors() {
    let with_choices = |choice: JsonValue| {
        obj(vec![
            ("choices", JsonValue::Array(vec![choice])),
            ("description", JsonValue::String(s("a description"))),
            ("name", JsonValue::String(s("a_name"))),
            ("type", JsonValue::Integer(3)),
        ])
    };

    // A boolean value matches no alternative of the untagged union.
    let wire = with_choices(obj(vec![
        ("name", JsonValue::String(s("c"))),
        ("value", JsonValue::Bool(true)),
    ]));
    assert_eq!(decode_command_option(&wire), Err(DecodeError::ShapeMismatch));

    // A duplicated name inside a choice makes the choice shapeless.
    let wire = with_choices(obj(vec![
        ("name", JsonValue::String(s("c"))),
        ("name", JsonValue::String(s("c"))),
        ("value", JsonValue::Integer(1)),
    ]));
    assert_eq!(decode_command_option(&wire), Err(DecodeError::ShapeMismatch));

    // A choice without a value matches nothing.
    let wire = with_choices(obj(vec![("name", JsonValue::String(s("c")))]));
    assert_eq!(decode_command_option(&wire), Err(DecodeError::ShapeMismatch));

    // The choices key itself must hold null or an array.
    let wire = obj(vec![
        ("choices", JsonValue::Bool(true)),
        ("description", JsonValue::String(s("a description"))),
        ("name", JsonValue::String(s("a_name"))),
        ("type", JsonValue::Integer(3)),
    ]);
    assert_eq!(decode_command_option(&wire), Err(DecodeError::ShapeMismatch));
}

/// An absent `options` key defaults like a null one, and a channel option
/// with an empty restriction survives the round trip.
#[test]
fn test_defaults_round_trip() {
    let wire = obj(vec![
        ("description", JsonValue::String(s("d"))),
        ("name", JsonValue::String(s("n"))),
        ("type", JsonValue::Integer(1)),
    ]);
    assert_eq!(
        decode_command_option(&wire),
        Ok(CommandOption::SubCommand(OptionsCommandOptionData {
            description: s("d"),
            name: s("n"),
            options: Vec::new(),
        }))
    );

    let channel = CommandOption::Channel(ChannelCommandOptionData {
        channel_types: Vec::new(),
        description: s("channel desc"),
        name: s("channel"),
        required: true,
    });
    let wire = encode_command_option(&channel);
    assert_eq!(decode_command_option(&wire), Ok(channel));
}
