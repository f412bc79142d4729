//! Tests of the request builders and the tri-state field codec.

use option_codec::json::JsonValue;
use option_codec::model::{Id, Permissions, Timestamp, WelcomeScreenChannel};
use option_codec::nullable::{encode_nullable_field, NullableField};
use option_codec::request::{
    CreateRole, FollowNewsChannel, UpdateGuildMember, UpdateGuildWelcomeScreen,
};
use option_codec::validate::{AuditLogReasonError, ValidationError, ValidationErrorType};

fn s(text: &str) -> String {
    text.to_string()
}

fn obj(pairs: Vec<(&str, JsonValue)>) -> JsonValue {
    JsonValue::Object(pairs.into_iter().map(|(k, v)| (k.to_string(), v)).collect())
}

const GUILD_ID: u64 = 1;
const USER_ID: u64 = 1;

/// A member update with two plain flags set bodies exactly those two keys.
#[test]
fn test_request() {
    let builder = UpdateGuildMember::new(Id::new(GUILD_ID), Id::new(USER_ID))
        .deaf(true)
        .mute(true);
    let actual = builder.body();

    let expected = obj(vec![
        ("deaf", JsonValue::Bool(true)),
        ("mute", JsonValue::Bool(true)),
    ]);

    assert_eq!(actual, expected);
    assert_eq!(builder.guild_id.get(), GUILD_ID);
    assert_eq!(builder.user_id.get(), USER_ID);
}

/// Clearing the nickname bodies the key with an explicit null.
#[test]
fn test_nick_set_null() {
    let builder = UpdateGuildMember::new(Id::new(GUILD_ID), Id::new(USER_ID))
        .nick(None)
        .unwrap();
    let actual = builder.body();

    let expected = obj(vec![("nick", JsonValue::Null)]);

    assert_eq!(actual, expected);
}

/// Setting the nickname bodies the key with the value.
#[test]
fn test_nick_set_value() {
    let builder = UpdateGuildMember::new(Id::new(GUILD_ID), Id::new(USER_ID))
        .nick(Some(s("foo")))
        .unwrap();
    let actual = builder.body();

    let expected = obj(vec![("nick", JsonValue::String(s("foo")))]);

    assert_eq!(actual, expected);
}

/// The three tri-states produce three distinguishable encodings.
#[test]
fn test_tri_state_omission() {
    let unset: NullableField<i64> = NullableField::Unset;
    let cleared: NullableField<i64> = NullableField::SetNull;
    let set: NullableField<i64> = NullableField::SetValue(5);

    let enc_unset = encode_nullable_field(&unset);
    let enc_cleared = encode_nullable_field(&cleared);
    let enc_set = encode_nullable_field(&set);

    assert_eq!(enc_unset, None);
    assert_eq!(enc_cleared, Some(JsonValue::Null));
    assert_eq!(enc_set, Some(JsonValue::Integer(5)));
    assert_ne!(enc_unset, enc_cleared);
    assert_ne!(enc_cleared, enc_set);
    assert_ne!(enc_unset, enc_set);
}

/// An unset field never reaches the body; a cleared channel comes out null
/// and a set channel as its decimal identifier.
#[test]
fn test_channel_id_states() {
    let left_alone = UpdateGuildMember::new(Id::new(GUILD_ID), Id::new(USER_ID));
    assert_eq!(left_alone.body(), obj(vec![]));

    let disconnected =
        UpdateGuildMember::new(Id::new(GUILD_ID), Id::new(USER_ID)).channel_id(None);
    assert_eq!(disconnected.body(), obj(vec![("channel_id", JsonValue::Null)]));

    let moved = UpdateGuildMember::new(Id::new(GUILD_ID), Id::new(USER_ID))
        .channel_id(Some(Id::new(123)));
    assert_eq!(
        moved.body(),
        obj(vec![("channel_id", JsonValue::String(s("123")))])
    );
}

/// A nickname outside one to thirty-two characters is refused.
#[test]
fn test_nick_validation() {
    let too_long = "x".repeat(33);
    let r = UpdateGuildMember::new(Id::new(GUILD_ID), Id::new(USER_ID)).nick(Some(too_long));
    assert_eq!(
        r.unwrap_err(),
        ValidationError { kind: ValidationErrorType::Nickname }
    );

    let empty = UpdateGuildMember::new(Id::new(GUILD_ID), Id::new(USER_ID)).nick(Some(s("")));
    assert_eq!(
        empty.unwrap_err(),
        ValidationError { kind: ValidationErrorType::Nickname }
    );

    let longest = "x".repeat(32);
    assert!(UpdateGuildMember::new(Id::new(GUILD_ID), Id::new(USER_ID))
        .nick(Some(longest))
        .is_ok());
}

/// A timeout expiry within twenty-eight days is accepted and formatted as
/// RFC 3339 text; one further ahead is refused.
#[test]
fn test_communication_disabled_until() {
    // 2021-01-01T00:00:00Z, in seconds since the epoch.
    let now_secs: i64 = 1609459200;
    let timestamp = Timestamp::from_secs(now_secs + 60);

    let builder = UpdateGuildMember::new(Id::new(GUILD_ID), Id::new(USER_ID))
        .communication_disabled_until(Some(timestamp), now_secs)
        .unwrap();
    assert_eq!(
        builder.body(),
        obj(vec![(
            "communication_disabled_util",
            JsonValue::String(s("2021-01-01T00:01:00Z"))
        )])
    );

    let too_far = Timestamp::from_secs(now_secs + 29 * 24 * 60 * 60);
    let refused = UpdateGuildMember::new(Id::new(GUILD_ID), Id::new(USER_ID))
        .communication_disabled_until(Some(too_far), now_secs);
    assert_eq!(
        refused.unwrap_err(),
        ValidationError { kind: ValidationErrorType::CommunicationDisabledUntil }
    );

    let removed = UpdateGuildMember::new(Id::new(GUILD_ID), Id::new(USER_ID))
        .communication_disabled_until(None, now_secs)
        .unwrap();
    assert_eq!(
        removed.body(),
        obj(vec![("communication_disabled_util", JsonValue::Null)])
    );
}

/// Roles body as an array of decimal identifiers.
#[test]
fn test_roles() {
    let builder = UpdateGuildMember::new(Id::new(GUILD_ID), Id::new(USER_ID))
        .roles(vec![Id::new(1), Id::new(2)]);
    assert_eq!(
        builder.body(),
        obj(vec![(
            "roles",
            JsonValue::Array(vec![
                JsonValue::String(s("1")),
                JsonValue::String(s("2")),
            ])
        )])
    );
}

/// An audit log reason longer than five hundred and twelve characters is
/// refused.
#[test]
fn test_audit_reason() {
    let ok = UpdateGuildMember::new(Id::new(GUILD_ID), Id::new(USER_ID)).reason(s("routine"));
    assert!(ok.is_ok());

    let too_long = "x".repeat(513);
    let refused = UpdateGuildMember::new(Id::new(GUILD_ID), Id::new(USER_ID)).reason(too_long);
    assert_eq!(refused.unwrap_err(), AuditLogReasonError::ReasonInvalid);
}

/// A role creation bodies exactly the fields that were set, permissions as
/// a decimal string.
#[test]
fn test_create_role() {
    let builder = CreateRole::new(Id::new(234))
        .color(0xd90083)
        .name(s("Bright Pink"))
        .hoist(true)
        .permissions(Permissions(268435456));
    assert_eq!(
        builder.body(),
        obj(vec![
            ("color", JsonValue::Integer(0xd90083)),
            ("hoist", JsonValue::Bool(true)),
            ("name", JsonValue::String(s("Bright Pink"))),
            ("permissions", JsonValue::String(s("268435456"))),
        ])
    );

    let empty = CreateRole::new(Id::new(234));
    assert_eq!(empty.body(), obj(vec![]));

    let with_icon = CreateRole::new(Id::new(234)).icon(vec![1, 2, 255]);
    assert_eq!(
        with_icon.body(),
        obj(vec![(
            "icon",
            JsonValue::Array(vec![
                JsonValue::Integer(1),
                JsonValue::Integer(2),
                JsonValue::Integer(255),
            ])
        )])
    );
}

/// A welcome-screen update omits an empty channel list and bodies a
/// non-empty one as objects with every field present.
#[test]
fn test_update_guild_welcome_screen() {
    let empty = UpdateGuildWelcomeScreen::new(Id::new(1)).enabled(true);
    assert_eq!(empty.body(), obj(vec![("enabled", JsonValue::Bool(true))]));

    let builder = UpdateGuildWelcomeScreen::new(Id::new(1))
        .description(s("welcome"))
        .welcome_channels(vec![WelcomeScreenChannel {
            channel_id: Id::new(42),
            description: s("general chat"),
            emoji_id: None,
            emoji_name: Some(s("wave")),
        }]);
    assert_eq!(
        builder.body(),
        obj(vec![
            ("description", JsonValue::String(s("welcome"))),
            (
                "welcome_channels",
                JsonValue::Array(vec![obj(vec![
                    ("channel_id", JsonValue::String(s("42"))),
                    ("description", JsonValue::String(s("general chat"))),
                    ("emoji_id", JsonValue::Null),
                    ("emoji_name", JsonValue::String(s("wave"))),
                ])])
            ),
        ])
    );
}

/// Following a news channel always bodies the webhook channel.
#[test]
fn test_follow_news_channel() {
    let builder = FollowNewsChannel::new(Id::new(7), Id::new(8));
    assert_eq!(
        builder.body(),
        obj(vec![("webhook_channel_id", JsonValue::String(s("8")))])
    );
    assert_eq!(builder.channel_id.get(), 7);
}

/// Decimal rendering of identifiers covers the edges.
#[test]
fn test_decimal_rendering() {
    assert_eq!(option_codec::digits::u64_to_decimal(0), "0");
    assert_eq!(option_codec::digits::u64_to_decimal(10), "10");
    assert_eq!(
        option_codec::digits::u64_to_decimal(u64::MAX),
        "18446744073709551615"
    );
}
