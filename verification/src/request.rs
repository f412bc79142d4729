//! The request builders whose payloads the codecs serve: each builder
//! gathers fields, validates what the service constrains, and encodes a
//! body in which a key's presence, nullness or value says exactly what the
//! caller decided.

use vstd::prelude::*;
use vstd::string::StringExecFns;

use crate::json::JsonValue;
use crate::json::SpecJson;
use crate::model::Id;
use crate::model::Permissions;
use crate::model::Timestamp;
use crate::model::WelcomeScreenChannel;
use crate::model::spec_welcome_channel;
use crate::nullable::JsonEncode;
use crate::nullable::NullableField;
use crate::nullable::encode_nullable_field;
use crate::nullable::spec_encode_nullable;
use crate::validate::AuditLogReasonError;
use crate::validate::COMMUNICATION_DISABLED_MAX_DURATION;
use crate::validate::ValidationError;
use crate::validate::ValidationErrorType;
use crate::validate::communication_disabled_until_ok;
use crate::validate::nickname_ok;

verus! {

broadcast use vstd::std_specs::vec::group_vec_axioms, vstd::seq::group_seq_axioms;

/// One payload field: nothing when the key is omitted, else the key with
/// the value it holds.
pub open spec fn emit_field(key: Seq<char>, slot: Option<SpecJson>) -> Seq<(Seq<char>, SpecJson)> {
    match slot {
        None => Seq::empty(),
        Some(doc) => seq![(key, doc)],
    }
}

/// An optional plain field: present exactly when the builder set it.
pub open spec fn opt_field<T: JsonEncode>(v: Option<T>) -> Option<SpecJson> {
    match v {
        None => None,
        Some(t) => Some(t.json_view()),
    }
}

/// The payload of a guild-member update. Every field is optional, and the
/// three the service can also clear are tri-state.
#[derive(Debug)]
pub struct UpdateGuildMemberFields {
    /// Voice channel to move the member to; cleared, it disconnects them.
    pub channel_id: NullableField<Id>,
    /// When the member's timeout expires; cleared, it removes the timeout.
    pub communication_disabled_util: NullableField<Timestamp>,
    /// Whether the member may not hear in voice channels.
    pub deaf: Option<bool>,
    /// Whether the member may not speak in voice channels.
    pub mute: Option<bool>,
    /// The member's nickname; cleared, it removes the nickname.
    pub nick: NullableField<String>,
    /// The member's new list of roles.
    pub roles: Option<Vec<Id>>,
}

/// The document a member update encodes to: a key appears exactly when its
/// field was set, and a cleared tri-state field appears as null.
pub open spec fn spec_member_body(f: UpdateGuildMemberFields) -> SpecJson {
    SpecJson::Object(
        emit_field("channel_id"@, spec_encode_nullable(f.channel_id)) + emit_field(
            "communication_disabled_util"@,
            spec_encode_nullable(f.communication_disabled_util),
        ) + emit_field("deaf"@, opt_field(f.deaf)) + emit_field("mute"@, opt_field(f.mute))
            + emit_field("nick"@, spec_encode_nullable(f.nick)) + emit_field(
            "roles"@,
            match f.roles {
                Some(ids) => Some(
                    SpecJson::Array(Seq::new(ids@.len(), |i: int| ids@[i].json_view())),
                ),
                None => None,
            },
        ),
    )
}

/// Update a guild member: every field is optional, and the body says for
/// each one whether it is left alone, cleared, or set.
#[derive(Debug)]
pub struct UpdateGuildMember {
    /// The payload gathered so far.
    pub fields: UpdateGuildMemberFields,
    /// The guild whose member is updated.
    pub guild_id: Id,
    /// The member updated.
    pub user_id: Id,
    /// The audit log reason attached to the request, if any.
    pub reason: Option<String>,
}

impl UpdateGuildMember {
    /// A new update for one member of one guild, with nothing changed yet:
    /// every field starts out unset.
    pub fn new(guild_id: Id, user_id: Id) -> (r: Self)
        ensures
            r.guild_id == guild_id,
            r.user_id == user_id,
            r.reason is None,
            r.fields.channel_id is Unset,
            r.fields.communication_disabled_util is Unset,
            r.fields.deaf is None,
            r.fields.mute is None,
            r.fields.nick is Unset,
            r.fields.roles is None,
    {
        UpdateGuildMember {
            fields: UpdateGuildMemberFields {
                channel_id: NullableField::Unset,
                communication_disabled_util: NullableField::Unset,
                deaf: None,
                mute: None,
                nick: NullableField::Unset,
                roles: None,
            },
            guild_id,
            user_id,
            reason: None,
        }
    }

    /// Move the member to a voice channel; `None` disconnects them.
    pub fn channel_id(self, channel_id: Option<Id>) -> (r: Self)
        ensures
            r == (UpdateGuildMember {
                fields: (UpdateGuildMemberFields {
                    channel_id: match channel_id {
                        Some(id) => NullableField::SetValue(id),
                        None => NullableField::SetNull,
                    },
                    ..self.fields
                }),
                ..self
            }),
    {
        let slot = match channel_id {
            Some(id) => NullableField::SetValue(id),
            None => NullableField::SetNull,
        };
        UpdateGuildMember { fields: UpdateGuildMemberFields { channel_id: slot, ..self.fields }, ..self }
    }

    /// Set the member's timeout: the timestamp says when they can
    /// communicate again, and may lie at most twenty-eight days ahead of
    /// now, which the caller supplies in seconds since the epoch; `None`
    /// removes the timeout.
    pub fn communication_disabled_until(self, timestamp: Option<Timestamp>, now_secs: i64) -> (r:
        Result<Self, ValidationError>)
        requires
            now_secs <= i64::MAX - COMMUNICATION_DISABLED_MAX_DURATION,
        ensures
            match timestamp {
                Some(ts) => if communication_disabled_until_ok(
                    ts.spec_micros() / 1000000,
                    now_secs as int,
                ) {
                    r == Ok::<_, ValidationError>(
                        (UpdateGuildMember {
                            fields: (UpdateGuildMemberFields {
                                communication_disabled_util: NullableField::SetValue(ts),
                                ..self.fields
                            }),
                            ..self
                        }),
                    )
                } else {
                    r == Err::<Self, _>(
                        ValidationError { kind: ValidationErrorType::CommunicationDisabledUntil },
                    )
                },
                None => r == Ok::<_, ValidationError>(
                    (UpdateGuildMember {
                        fields: (UpdateGuildMemberFields {
                            communication_disabled_util: NullableField::SetNull,
                            ..self.fields
                        }),
                        ..self
                    }),
                ),
            },
    {
        let slot = match timestamp {
            Some(ts) => {
                match crate::validate::communication_disabled_until(ts, now_secs) {
                    Ok(()) => NullableField::SetValue(ts),
                    Err(e) => {
                        return Err(e);
                    },
                }
            },
            None => NullableField::SetNull,
        };
        Ok(
            UpdateGuildMember {
                fields: UpdateGuildMemberFields { communication_disabled_util: slot, ..self.fields },
                ..self
            },
        )
    }

    /// Whether to restrict the member's ability to hear in voice channels.
    pub fn deaf(self, deaf: bool) -> (r: Self)
        ensures
            r == (UpdateGuildMember {
                fields: (UpdateGuildMemberFields { deaf: Some(deaf), ..self.fields }),
                ..self
            }),
    {
        UpdateGuildMember { fields: UpdateGuildMemberFields { deaf: Some(deaf), ..self.fields }, ..self }
    }

    /// Whether to restrict the member's ability to speak in voice channels.
    pub fn mute(self, mute: bool) -> (r: Self)
        ensures
            r == (UpdateGuildMember {
                fields: (UpdateGuildMemberFields { mute: Some(mute), ..self.fields }),
                ..self
            }),
    {
        UpdateGuildMember { fields: UpdateGuildMemberFields { mute: Some(mute), ..self.fields }, ..self }
    }

    /// Set the member's nickname, between one and thirty-two characters;
    /// `None` removes it.
    pub fn nick(self, nick: Option<String>) -> (r: Result<Self, ValidationError>)
        ensures
            match nick {
                Some(n) => if nickname_ok(n@) {
                    r == Ok::<_, ValidationError>(
                        (UpdateGuildMember {
                            fields: (UpdateGuildMemberFields {
                                nick: NullableField::SetValue(n),
                                ..self.fields
                            }),
                            ..self
                        }),
                    )
                } else {
                    r == Err::<Self, _>(ValidationError { kind: ValidationErrorType::Nickname })
                },
                None => r == Ok::<_, ValidationError>(
                    (UpdateGuildMember {
                        fields: (UpdateGuildMemberFields {
                            nick: NullableField::SetNull,
                            ..self.fields
                        }),
                        ..self
                    }),
                ),
            },
    {
        let slot = match nick {
            Some(n) => {
                match crate::validate::nickname(n.as_str()) {
                    Ok(()) => NullableField::SetValue(n),
                    Err(e) => {
                        return Err(e);
                    },
                }
            },
            None => NullableField::SetNull,
        };
        Ok(UpdateGuildMember { fields: UpdateGuildMemberFields { nick: slot, ..self.fields }, ..self })
    }

    /// Set the member's new list of roles.
    pub fn roles(self, roles: Vec<Id>) -> (r: Self)
        ensures
            r == (UpdateGuildMember {
                fields: (UpdateGuildMemberFields { roles: Some(roles), ..self.fields }),
                ..self
            }),
    {
        UpdateGuildMember {
            fields: UpdateGuildMemberFields { roles: Some(roles), ..self.fields },
            ..self
        }
    }

    /// Attach an audit log reason to the request, at most five hundred and
    /// twelve characters.
    pub fn reason(self, reason: String) -> (r: Result<Self, AuditLogReasonError>)
        ensures
            if crate::validate::audit_reason_ok(reason@) {
                r == Ok::<_, AuditLogReasonError>(
                    (UpdateGuildMember { reason: Some(reason), ..self }),
                )
            } else {
                r == Err::<Self, _>(AuditLogReasonError::ReasonInvalid)
            },
    {
        match AuditLogReasonError::validate(reason.as_str()) {
            Ok(_) => Ok(UpdateGuildMember { reason: Some(reason), ..self }),
            Err(e) => Err(e),
        }
    }

    /// The request body: the document of the payload gathered so far.
    pub fn body(&self) -> (r: JsonValue)
        ensures
            r.deep_view() == spec_member_body(self.fields),
    {
        let mut pairs: Vec<(String, JsonValue)> = Vec::new();
        match encode_nullable_field(&self.fields.channel_id) {
            Some(v) => pairs.push((String::from_str("channel_id"), v)),
            None => {},
        }
        match encode_nullable_field(&self.fields.communication_disabled_util) {
            Some(v) => pairs.push((String::from_str("communication_disabled_util"), v)),
            None => {},
        }
        match self.fields.deaf {
            Some(b) => pairs.push((String::from_str("deaf"), JsonValue::Bool(b))),
            None => {},
        }
        match self.fields.mute {
            Some(b) => pairs.push((String::from_str("mute"), JsonValue::Bool(b))),
            None => {},
        }
        match encode_nullable_field(&self.fields.nick) {
            Some(v) => pairs.push((String::from_str("nick"), v)),
            None => {},
        }
        match &self.fields.roles {
            Some(ids) => {
                let mut arr: Vec<JsonValue> = Vec::new();
                let mut j: usize = 0;
                while j < ids.len()
                    invariant
                        j <= ids.len(),
                        arr@.len() == j,
                        forall|k: int| 0 <= k < j ==> crate::json::json_model(#[trigger] arr@[k])
                            == ids@[k].json_view(),
                    decreases ids.len() - j,
                {
                    arr.push(ids[j].encode_json());
                    j += 1;
                }
                proof {
                    crate::json::lemma_json_vec_deep_view(arr);
                    crate::json::lemma_json_array_model(arr@, arr@.len() as int);
                    assert(crate::json::json_array_model(arr@, arr@.len() as int) =~= Seq::new(
                        self.fields.roles->0@.len(),
                        |i: int| self.fields.roles->0@[i].json_view(),
                    ));
                }
                pairs.push((String::from_str("roles"), JsonValue::Array(arr)));
            },
            None => {},
        }
        proof {
            crate::json::lemma_json_pairs_deep_view(pairs);
            assert(crate::json::json_object_model(pairs@, pairs@.len() as int)
                =~~= spec_member_body(self.fields)->Object_0);
        }
        JsonValue::Object(pairs)
    }
}

/// The payload of a role creation. Every field is optional; an omitted
/// field leaves the service's default in place.
#[derive(Debug)]
pub struct CreateRoleFields {
    /// Color of the role.
    pub color: Option<u32>,
    /// Whether the role is shown apart in the member list.
    pub hoist: Option<bool>,
    /// Image data of the role's icon.
    pub icon: Option<Vec<u8>>,
    /// Whether the role can be mentioned in chat.
    pub mentionable: Option<bool>,
    /// Name of the role.
    pub name: Option<String>,
    /// Permissions the role grants.
    pub permissions: Option<Permissions>,
    /// Unicode emoji of the role.
    pub unicode_emoji: Option<String>,
}

/// The document a role creation encodes to: a key appears exactly when its
/// field was set.
pub open spec fn spec_role_body(f: CreateRoleFields) -> SpecJson {
    SpecJson::Object(
        emit_field(
            "color"@,
            match f.color {
                Some(c) => Some(SpecJson::Integer(c as i64)),
                None => None,
            },
        ) + emit_field("hoist"@, opt_field(f.hoist)) + emit_field(
            "icon"@,
            match f.icon {
                Some(bytes) => Some(
                    SpecJson::Array(
                        Seq::new(bytes@.len(), |i: int| SpecJson::Integer(bytes@[i] as i64)),
                    ),
                ),
                None => None,
            },
        ) + emit_field("mentionable"@, opt_field(f.mentionable)) + emit_field(
            "name"@,
            opt_field(f.name),
        ) + emit_field("permissions"@, opt_field(f.permissions)) + emit_field(
            "unicode_emoji"@,
            opt_field(f.unicode_emoji),
        ),
    )
}

/// Create a role in a guild.
#[derive(Debug)]
pub struct CreateRole {
    /// The payload gathered so far.
    pub fields: CreateRoleFields,
    /// The guild the role is created in.
    pub guild_id: Id,
    /// The audit log reason attached to the request, if any.
    pub reason: Option<String>,
}

impl CreateRole {
    /// A new role creation for one guild, with every field left to the
    /// service's default.
    pub fn new(guild_id: Id) -> (r: Self)
        ensures
            r.guild_id == guild_id,
            r.reason is None,
            r.fields.color is None,
            r.fields.hoist is None,
            r.fields.icon is None,
            r.fields.mentionable is None,
            r.fields.name is None,
            r.fields.permissions is None,
            r.fields.unicode_emoji is None,
    {
        CreateRole {
            fields: CreateRoleFields {
                color: None,
                hoist: None,
                icon: None,
                mentionable: None,
                name: None,
                permissions: None,
                unicode_emoji: None,
            },
            guild_id,
            reason: None,
        }
    }

    /// Set the color of the role.
    pub fn color(self, color: u32) -> (r: Self)
        ensures
            r == (CreateRole {
                fields: (CreateRoleFields { color: Some(color), ..self.fields }),
                ..self
            }),
    {
        CreateRole { fields: CreateRoleFields { color: Some(color), ..self.fields }, ..self }
    }

    /// Whether to show the role apart in the member list.
    pub fn hoist(self, hoist: bool) -> (r: Self)
        ensures
            r == (CreateRole {
                fields: (CreateRoleFields { hoist: Some(hoist), ..self.fields }),
                ..self
            }),
    {
        CreateRole { fields: CreateRoleFields { hoist: Some(hoist), ..self.fields }, ..self }
    }

    /// Set the icon of the role, as image data.
    pub fn icon(self, icon: Vec<u8>) -> (r: Self)
        ensures
            r == (CreateRole {
                fields: (CreateRoleFields { icon: Some(icon), ..self.fields }),
                ..self
            }),
    {
        CreateRole { fields: CreateRoleFields { icon: Some(icon), ..self.fields }, ..self }
    }

    /// Whether the role can be mentioned in chat.
    pub fn mentionable(self, mentionable: bool) -> (r: Self)
        ensures
            r == (CreateRole {
                fields: (CreateRoleFields { mentionable: Some(mentionable), ..self.fields }),
                ..self
            }),
    {
        CreateRole {
            fields: CreateRoleFields { mentionable: Some(mentionable), ..self.fields },
            ..self
        }
    }

    /// Set the name of the role; left out, the service picks its default.
    pub fn name(self, name: String) -> (r: Self)
        ensures
            r == (CreateRole {
                fields: (CreateRoleFields { name: Some(name), ..self.fields }),
                ..self
            }),
    {
        CreateRole { fields: CreateRoleFields { name: Some(name), ..self.fields }, ..self }
    }

    /// Set the permissions the role grants.
    pub fn permissions(self, permissions: Permissions) -> (r: Self)
        ensures
            r == (CreateRole {
                fields: (CreateRoleFields { permissions: Some(permissions), ..self.fields }),
                ..self
            }),
    {
        CreateRole {
            fields: CreateRoleFields { permissions: Some(permissions), ..self.fields },
            ..self
        }
    }

    /// Set the unicode emoji of the role.
    pub fn unicode_emoji(self, unicode_emoji: String) -> (r: Self)
        ensures
            r == (CreateRole {
                fields: (CreateRoleFields { unicode_emoji: Some(unicode_emoji), ..self.fields }),
                ..self
            }),
    {
        CreateRole {
            fields: CreateRoleFields { unicode_emoji: Some(unicode_emoji), ..self.fields },
            ..self
        }
    }

    /// Attach an audit log reason to the request, at most five hundred and
    /// twelve characters.
    pub fn reason(self, reason: String) -> (r: Result<Self, AuditLogReasonError>)
        ensures
            if crate::validate::audit_reason_ok(reason@) {
                r == Ok::<_, AuditLogReasonError>((CreateRole { reason: Some(reason), ..self }))
            } else {
                r == Err::<Self, _>(AuditLogReasonError::ReasonInvalid)
            },
    {
        match AuditLogReasonError::validate(reason.as_str()) {
            Ok(_) => Ok(CreateRole { reason: Some(reason), ..self }),
            Err(e) => Err(e),
        }
    }

    /// The request body: the document of the payload gathered so far.
    #[verifier::spinoff_prover]
    #[verifier::rlimit(100)]
    pub fn body(&self) -> (r: JsonValue)
        ensures
            r.deep_view() == spec_role_body(self.fields),
    {
        let mut pairs: Vec<(String, JsonValue)> = Vec::new();
        match self.fields.color {
            Some(c) => pairs.push((String::from_str("color"), JsonValue::Integer(c as i64))),
            None => {},
        }
        match self.fields.hoist {
            Some(b) => pairs.push((String::from_str("hoist"), JsonValue::Bool(b))),
            None => {},
        }
        match &self.fields.icon {
            Some(bytes) => {
                let mut arr: Vec<JsonValue> = Vec::new();
                let mut j: usize = 0;
                while j < bytes.len()
                    invariant
                        j <= bytes.len(),
                        arr@.len() == j,
                        forall|k: int| 0 <= k < j ==> crate::json::json_model(#[trigger] arr@[k])
                            == SpecJson::Integer(bytes@[k] as i64),
                    decreases bytes.len() - j,
                {
                    arr.push(JsonValue::Integer(bytes[j] as i64));
                    j += 1;
                }
                proof {
                    crate::json::lemma_json_array_model(arr@, arr@.len() as int);
                    assert(crate::json::json_array_model(arr@, arr@.len() as int) =~= Seq::new(
                        self.fields.icon->0@.len(),
                        |i: int| SpecJson::Integer(self.fields.icon->0@[i] as i64),
                    ));
                }
                pairs.push((String::from_str("icon"), JsonValue::Array(arr)));
            },
            None => {},
        }
        match self.fields.mentionable {
            Some(b) => pairs.push((String::from_str("mentionable"), JsonValue::Bool(b))),
            None => {},
        }
        match &self.fields.name {
            Some(n) => pairs.push((String::from_str("name"), JsonValue::String(n.clone()))),
            None => {},
        }
        match self.fields.permissions {
            Some(p) => pairs.push((String::from_str("permissions"), p.encode_json())),
            None => {},
        }
        match &self.fields.unicode_emoji {
            Some(e) => pairs.push((String::from_str("unicode_emoji"), JsonValue::String(e.clone()))),
            None => {},
        }
        proof {
            crate::json::lemma_json_pairs_deep_view(pairs);
            assert(crate::json::json_object_model(pairs@, pairs@.len() as int)
                =~~= spec_role_body(self.fields)->Object_0);
        }
        JsonValue::Object(pairs)
    }
}

/// The payload of a welcome-screen update.
#[derive(Debug)]
pub struct UpdateGuildWelcomeScreenFields {
    /// Description shown on the screen.
    pub description: Option<String>,
    /// Whether the screen is enabled.
    pub enabled: Option<bool>,
    /// The channels linked on the screen, with what is shown for each.
    pub welcome_channels: Vec<WelcomeScreenChannel>,
}

/// The document a welcome-screen update encodes to: the channel list
/// appears only when it is non-empty.
pub open spec fn spec_welcome_screen_body(f: UpdateGuildWelcomeScreenFields) -> SpecJson {
    SpecJson::Object(
        emit_field("description"@, opt_field(f.description)) + emit_field(
            "enabled"@,
            opt_field(f.enabled),
        ) + emit_field(
            "welcome_channels"@,
            if f.welcome_channels@.len() > 0 {
                Some(
                    SpecJson::Array(
                        Seq::new(
                            f.welcome_channels@.len(),
                            |i: int| spec_welcome_channel(f.welcome_channels@[i]),
                        ),
                    ),
                )
            } else {
                None
            },
        ),
    )
}

/// Update a guild's welcome screen.
#[derive(Debug)]
pub struct UpdateGuildWelcomeScreen {
    /// The payload gathered so far.
    pub fields: UpdateGuildWelcomeScreenFields,
    /// The guild whose screen is updated.
    pub guild_id: Id,
}

impl UpdateGuildWelcomeScreen {
    /// A new update for one guild's welcome screen, with nothing set yet.
    pub fn new(guild_id: Id) -> (r: Self)
        ensures
            r.guild_id == guild_id,
            r.fields.description is None,
            r.fields.enabled is None,
            r.fields.welcome_channels@.len() == 0,
    {
        UpdateGuildWelcomeScreen {
            fields: UpdateGuildWelcomeScreenFields {
                description: None,
                enabled: None,
                welcome_channels: Vec::new(),
            },
            guild_id,
        }
    }

    /// Set the description of the welcome screen.
    pub fn description(self, description: String) -> (r: Self)
        ensures
            r == (UpdateGuildWelcomeScreen {
                fields: (UpdateGuildWelcomeScreenFields {
                    description: Some(description),
                    ..self.fields
                }),
                ..self
            }),
    {
        UpdateGuildWelcomeScreen {
            fields: UpdateGuildWelcomeScreenFields { description: Some(description), ..self.fields },
            ..self
        }
    }

    /// Set whether the welcome screen is enabled.
    pub fn enabled(self, enabled: bool) -> (r: Self)
        ensures
            r == (UpdateGuildWelcomeScreen {
                fields: (UpdateGuildWelcomeScreenFields { enabled: Some(enabled), ..self.fields }),
                ..self
            }),
    {
        UpdateGuildWelcomeScreen {
            fields: UpdateGuildWelcomeScreenFields { enabled: Some(enabled), ..self.fields },
            ..self
        }
    }

    /// Set the channels linked on the welcome screen.
    pub fn welcome_channels(self, welcome_channels: Vec<WelcomeScreenChannel>) -> (r: Self)
        ensures
            r == (UpdateGuildWelcomeScreen {
                fields: (UpdateGuildWelcomeScreenFields { welcome_channels, ..self.fields }),
                ..self
            }),
    {
        UpdateGuildWelcomeScreen {
            fields: UpdateGuildWelcomeScreenFields { welcome_channels, ..self.fields },
            ..self
        }
    }

    /// The request body: the document of the payload gathered so far.
    pub fn body(&self) -> (r: JsonValue)
        ensures
            r.deep_view() == spec_welcome_screen_body(self.fields),
    {
        let mut pairs: Vec<(String, JsonValue)> = Vec::new();
        match &self.fields.description {
            Some(d) => pairs.push((String::from_str("description"), JsonValue::String(d.clone()))),
            None => {},
        }
        match self.fields.enabled {
            Some(b) => pairs.push((String::from_str("enabled"), JsonValue::Bool(b))),
            None => {},
        }
        if self.fields.welcome_channels.len() > 0 {
            let mut arr: Vec<JsonValue> = Vec::new();
            let mut j: usize = 0;
            while j < self.fields.welcome_channels.len()
                invariant
                    j <= self.fields.welcome_channels.len(),
                    arr@.len() == j,
                    forall|k: int| 0 <= k < j ==> crate::json::json_model(#[trigger] arr@[k])
                        == spec_welcome_channel(self.fields.welcome_channels@[k]),
                decreases self.fields.welcome_channels.len() - j,
            {
                arr.push(self.fields.welcome_channels[j].to_json());
                j += 1;
            }
            proof {
                crate::json::lemma_json_array_model(arr@, arr@.len() as int);
                assert(crate::json::json_array_model(arr@, arr@.len() as int) =~= Seq::new(
                    self.fields.welcome_channels@.len(),
                    |i: int| spec_welcome_channel(self.fields.welcome_channels@[i]),
                ));
            }
            pairs.push((String::from_str("welcome_channels"), JsonValue::Array(arr)));
        }
        proof {
            crate::json::lemma_json_pairs_deep_view(pairs);
            assert(crate::json::json_object_model(pairs@, pairs@.len() as int)
                =~~= spec_welcome_screen_body(self.fields)->Object_0);
        }
        JsonValue::Object(pairs)
    }
}

/// The payload of following a news channel.
#[derive(Clone, Copy, Debug, PartialEq, Eq, Structural, Hash)]
pub struct FollowNewsChannelFields {
    /// The channel the followed channel's posts are sent to.
    pub webhook_channel_id: Id,
}

/// The document following a news channel encodes to: always the one field.
pub open spec fn spec_follow_news_body(f: FollowNewsChannelFields) -> SpecJson {
    SpecJson::Object(seq![("webhook_channel_id"@, f.webhook_channel_id.json_view())])
}

/// Follow a news channel: posts of the followed channel are sent onwards.
#[derive(Clone, Copy, Debug, PartialEq, Eq, Structural, Hash)]
pub struct FollowNewsChannel {
    /// The channel to follow.
    pub channel_id: Id,
    /// The payload.
    pub fields: FollowNewsChannelFields,
}

impl FollowNewsChannel {
    /// A new follow of one channel, sending posts to another.
    pub fn new(channel_id: Id, webhook_channel_id: Id) -> (r: Self)
        ensures
            r.channel_id == channel_id,
            r.fields.webhook_channel_id == webhook_channel_id,
    {
        FollowNewsChannel { channel_id, fields: FollowNewsChannelFields { webhook_channel_id } }
    }

    /// The request body: the one field the payload carries.
    pub fn body(&self) -> (r: JsonValue)
        ensures
            r.deep_view() == spec_follow_news_body(self.fields),
    {
        let mut pairs: Vec<(String, JsonValue)> = Vec::new();
        pairs.push(
            (String::from_str("webhook_channel_id"), self.fields.webhook_channel_id.encode_json()),
        );
        proof {
            crate::json::lemma_json_pairs_deep_view(pairs);
            assert(crate::json::json_object_model(pairs@, pairs@.len() as int)
                =~= spec_follow_news_body(self.fields)->Object_0);
        }
        JsonValue::Object(pairs)
    }
}

} // verus!
