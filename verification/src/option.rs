//! Options of an application command: a tagged union of ten variants, each
//! carrying one of four payload shapes.

use vstd::prelude::*;

verus! {

broadcast use vstd::std_specs::vec::group_vec_axioms, vstd::seq::group_seq_axioms;

/// Kind of a channel a channel option may be restricted to.
#[derive(Clone, Copy, Debug, PartialEq, Eq, Structural, Hash)]
pub enum ChannelType {
    GuildText,
    Private,
    GuildVoice,
    Group,
    GuildCategory,
    GuildNews,
    GuildStore,
    GuildNewsThread,
    GuildPublicThread,
    GuildPrivateThread,
    GuildStageVoice,
}

/// The wire code of a channel kind.
pub open spec fn channel_type_code(t: ChannelType) -> i64 {
    match t {
        ChannelType::GuildText => 0,
        ChannelType::Private => 1,
        ChannelType::GuildVoice => 2,
        ChannelType::Group => 3,
        ChannelType::GuildCategory => 4,
        ChannelType::GuildNews => 5,
        ChannelType::GuildStore => 6,
        ChannelType::GuildNewsThread => 10,
        ChannelType::GuildPublicThread => 11,
        ChannelType::GuildPrivateThread => 12,
        ChannelType::GuildStageVoice => 13,
    }
}

/// The channel kind a wire code stands for, if any.
pub open spec fn channel_type_from_code(c: i64) -> Option<ChannelType> {
    if c == 0 {
        Some(ChannelType::GuildText)
    } else if c == 1 {
        Some(ChannelType::Private)
    } else if c == 2 {
        Some(ChannelType::GuildVoice)
    } else if c == 3 {
        Some(ChannelType::Group)
    } else if c == 4 {
        Some(ChannelType::GuildCategory)
    } else if c == 5 {
        Some(ChannelType::GuildNews)
    } else if c == 6 {
        Some(ChannelType::GuildStore)
    } else if c == 10 {
        Some(ChannelType::GuildNewsThread)
    } else if c == 11 {
        Some(ChannelType::GuildPublicThread)
    } else if c == 12 {
        Some(ChannelType::GuildPrivateThread)
    } else if c == 13 {
        Some(ChannelType::GuildStageVoice)
    } else {
        None
    }
}

impl ChannelType {
    /// The wire code of this channel kind.
    pub fn code(self) -> (c: u8)
        ensures
            c as i64 == channel_type_code(self),
    {
        match self {
            ChannelType::GuildText => 0,
            ChannelType::Private => 1,
            ChannelType::GuildVoice => 2,
            ChannelType::Group => 3,
            ChannelType::GuildCategory => 4,
            ChannelType::GuildNews => 5,
            ChannelType::GuildStore => 6,
            ChannelType::GuildNewsThread => 10,
            ChannelType::GuildPublicThread => 11,
            ChannelType::GuildPrivateThread => 12,
            ChannelType::GuildStageVoice => 13,
        }
    }

    /// The channel kind a wire code stands for, if any.
    pub fn try_from_code(c: i64) -> (r: Option<ChannelType>)
        ensures
            r == channel_type_from_code(c),
    {
        if c == 0 {
            Some(ChannelType::GuildText)
        } else if c == 1 {
            Some(ChannelType::Private)
        } else if c == 2 {
            Some(ChannelType::GuildVoice)
        } else if c == 3 {
            Some(ChannelType::Group)
        } else if c == 4 {
            Some(ChannelType::GuildCategory)
        } else if c == 5 {
            Some(ChannelType::GuildNews)
        } else if c == 6 {
            Some(ChannelType::GuildStore)
        } else if c == 10 {
            Some(ChannelType::GuildNewsThread)
        } else if c == 11 {
            Some(ChannelType::GuildPublicThread)
        } else if c == 12 {
            Some(ChannelType::GuildPrivateThread)
        } else if c == 13 {
            Some(ChannelType::GuildStageVoice)
        } else {
            None
        }
    }
}

impl DeepView for ChannelType {
    type V = ChannelType;

    open spec fn deep_view(&self) -> ChannelType {
        *self
    }
}

/// A numeric literal that keeps the shape it was written in: the value holds
/// the IEEE-754 bit pattern of a floating-point literal. Two literals are
/// equal exactly when their bit patterns are equal, which also keeps NaN
/// payloads and the sign of zero apart.
#[derive(Clone, Copy, Debug, PartialEq, Eq, Structural, Hash)]
pub struct Number(pub u64);

impl DeepView for Number {
    type V = Number;

    open spec fn deep_view(&self) -> Number {
        *self
    }
}

/// Bound of a numeric option: either an integer or a floating-point literal,
/// told apart by the shape of the wire value, never by its numeric value.
#[derive(Clone, Copy, Debug, PartialEq, Eq, Structural, Hash)]
pub enum CommandOptionValue {
    Integer(i64),
    Number(Number),
}

impl DeepView for CommandOptionValue {
    type V = CommandOptionValue;

    open spec fn deep_view(&self) -> CommandOptionValue {
        *self
    }
}

/// Type of a [`CommandOption`], carried on the wire as an integer code.
#[derive(Clone, Copy, Debug, PartialEq, Eq, Structural, Hash, PartialOrd, Ord)]
pub enum CommandOptionType {
    SubCommand,
    SubCommandGroup,
    String,
    Integer,
    Boolean,
    User,
    Channel,
    Role,
    Mentionable,
    Number,
}

/// The wire code of an option type: the fixed integers one through ten.
pub open spec fn option_type_code(t: CommandOptionType) -> i64 {
    match t {
        CommandOptionType::SubCommand => 1,
        CommandOptionType::SubCommandGroup => 2,
        CommandOptionType::String => 3,
        CommandOptionType::Integer => 4,
        CommandOptionType::Boolean => 5,
        CommandOptionType::User => 6,
        CommandOptionType::Channel => 7,
        CommandOptionType::Role => 8,
        CommandOptionType::Mentionable => 9,
        CommandOptionType::Number => 10,
    }
}

/// The option type a wire code stands for, if the code is in range.
pub open spec fn option_type_from_code(c: i64) -> Option<CommandOptionType> {
    if c == 1 {
        Some(CommandOptionType::SubCommand)
    } else if c == 2 {
        Some(CommandOptionType::SubCommandGroup)
    } else if c == 3 {
        Some(CommandOptionType::String)
    } else if c == 4 {
        Some(CommandOptionType::Integer)
    } else if c == 5 {
        Some(CommandOptionType::Boolean)
    } else if c == 6 {
        Some(CommandOptionType::User)
    } else if c == 7 {
        Some(CommandOptionType::Channel)
    } else if c == 8 {
        Some(CommandOptionType::Role)
    } else if c == 9 {
        Some(CommandOptionType::Mentionable)
    } else if c == 10 {
        Some(CommandOptionType::Number)
    } else {
        None
    }
}

/// The display name of an option type, for diagnostics.
pub open spec fn option_type_name(t: CommandOptionType) -> Seq<char> {
    match t {
        CommandOptionType::SubCommand => "SubCommand"@,
        CommandOptionType::SubCommandGroup => "SubCommandGroup"@,
        CommandOptionType::String => "String"@,
        CommandOptionType::Integer => "Integer"@,
        CommandOptionType::Boolean => "Boolean"@,
        CommandOptionType::User => "User"@,
        CommandOptionType::Channel => "Channel"@,
        CommandOptionType::Role => "Role"@,
        CommandOptionType::Mentionable => "Mentionable"@,
        CommandOptionType::Number => "Number"@,
    }
}

impl CommandOptionType {
    /// The wire code of this option type.
    pub fn code(self) -> (c: u8)
        ensures
            c as i64 == option_type_code(self),
    {
        match self {
            CommandOptionType::SubCommand => 1,
            CommandOptionType::SubCommandGroup => 2,
            CommandOptionType::String => 3,
            CommandOptionType::Integer => 4,
            CommandOptionType::Boolean => 5,
            CommandOptionType::User => 6,
            CommandOptionType::Channel => 7,
            CommandOptionType::Role => 8,
            CommandOptionType::Mentionable => 9,
            CommandOptionType::Number => 10,
        }
    }

    /// The option type a wire code stands for, if the code is in range.
    pub fn try_from_code(c: i64) -> (r: Option<CommandOptionType>)
        ensures
            r == option_type_from_code(c),
    {
        if c == 1 {
            Some(CommandOptionType::SubCommand)
        } else if c == 2 {
            Some(CommandOptionType::SubCommandGroup)
        } else if c == 3 {
            Some(CommandOptionType::String)
        } else if c == 4 {
            Some(CommandOptionType::Integer)
        } else if c == 5 {
            Some(CommandOptionType::Boolean)
        } else if c == 6 {
            Some(CommandOptionType::User)
        } else if c == 7 {
            Some(CommandOptionType::Channel)
        } else if c == 8 {
            Some(CommandOptionType::Role)
        } else if c == 9 {
            Some(CommandOptionType::Mentionable)
        } else if c == 10 {
            Some(CommandOptionType::Number)
        } else {
            None
        }
    }

    /// Name of the variant, for diagnostics.
    pub fn kind(self) -> (s: &'static str)
        ensures
            s@ == option_type_name(self),
    {
        match self {
            CommandOptionType::SubCommand => "SubCommand",
            CommandOptionType::SubCommandGroup => "SubCommandGroup",
            CommandOptionType::String => "String",
            CommandOptionType::Integer => "Integer",
            CommandOptionType::Boolean => "Boolean",
            CommandOptionType::User => "User",
            CommandOptionType::Channel => "Channel",
            CommandOptionType::Role => "Role",
            CommandOptionType::Mentionable => "Mentionable",
            CommandOptionType::Number => "Number",
        }
    }
}

impl DeepView for CommandOptionType {
    type V = CommandOptionType;

    open spec fn deep_view(&self) -> CommandOptionType {
        *self
    }
}

/// Taking an option type to its wire code and back yields the type again.
pub broadcast proof fn lemma_option_type_code_round_trip(t: CommandOptionType)
    ensures
        #[trigger] option_type_from_code(option_type_code(t)) == Some(t),
{
}

/// Taking a channel kind to its wire code and back yields the kind again.
pub broadcast proof fn lemma_channel_type_code_round_trip(t: ChannelType)
    ensures
        #[trigger] channel_type_from_code(channel_type_code(t)) == Some(t),
{
}

/// A choice a user may pick for a string or numeric option, told apart on the
/// wire purely by the shape of its `value` field.
#[derive(Debug, Hash)]
#[allow(inconsistent_fields)]
pub enum CommandOptionChoice {
    String { name: String, value: String },
    Int { name: String, value: i64 },
    Number { name: String, value: Number },
}

/// Mathematical model of a choice.
#[verifier::ext_equal]
#[allow(inconsistent_fields)]
pub enum SpecChoice {
    String { name: Seq<char>, value: Seq<char> },
    Int { name: Seq<char>, value: i64 },
    Number { name: Seq<char>, value: Number },
}

impl DeepView for CommandOptionChoice {
    type V = SpecChoice;

    open spec fn deep_view(&self) -> SpecChoice {
        match self {
            CommandOptionChoice::String { name, value } => SpecChoice::String {
                name: name@,
                value: value@,
            },
            CommandOptionChoice::Int { name, value } => SpecChoice::Int {
                name: name@,
                value: *value,
            },
            CommandOptionChoice::Number { name, value } => SpecChoice::Number {
                name: name@,
                value: *value,
            },
        }
    }
}

/// Data of a `Boolean`, `User`, `Role` or `Mentionable` option.
#[derive(Debug, Hash)]
pub struct BaseCommandOptionData {
    /// Description of the option.
    pub description: String,
    /// Name of the option.
    pub name: String,
    /// Whether a user must fill the option in.
    pub required: bool,
}

/// Mathematical model of [`BaseCommandOptionData`].
#[verifier::ext_equal]
pub struct SpecBaseData {
    pub description: Seq<char>,
    pub name: Seq<char>,
    pub required: bool,
}

impl DeepView for BaseCommandOptionData {
    type V = SpecBaseData;

    open spec fn deep_view(&self) -> SpecBaseData {
        SpecBaseData { description: self.description@, name: self.name@, required: self.required }
    }
}

/// Data of a `String` option.
#[derive(Debug, Hash)]
pub struct ChoiceCommandOptionData {
    /// Whether the option supports autocomplete.
    pub autocomplete: bool,
    /// Choices a user picks from; empty when the user may type freely.
    pub choices: Vec<CommandOptionChoice>,
    /// Description of the option.
    pub description: String,
    /// Name of the option.
    pub name: String,
    /// Whether a user must fill the option in.
    pub required: bool,
}

/// Mathematical model of [`ChoiceCommandOptionData`].
#[verifier::ext_equal]
pub struct SpecChoiceData {
    pub autocomplete: bool,
    pub choices: Seq<SpecChoice>,
    pub description: Seq<char>,
    pub name: Seq<char>,
    pub required: bool,
}

impl DeepView for ChoiceCommandOptionData {
    type V = SpecChoiceData;

    open spec fn deep_view(&self) -> SpecChoiceData {
        SpecChoiceData {
            autocomplete: self.autocomplete,
            choices: self.choices.deep_view(),
            description: self.description@,
            name: self.name@,
            required: self.required,
        }
    }
}

/// Data of a `Channel` option.
#[derive(Debug, Hash)]
pub struct ChannelCommandOptionData {
    /// Channel kinds the choice is restricted to; empty allows every kind.
    pub channel_types: Vec<ChannelType>,
    /// Description of the option.
    pub description: String,
    /// Name of the option.
    pub name: String,
    /// Whether a user must fill the option in.
    pub required: bool,
}

/// Mathematical model of [`ChannelCommandOptionData`].
#[verifier::ext_equal]
pub struct SpecChannelData {
    pub channel_types: Seq<ChannelType>,
    pub description: Seq<char>,
    pub name: Seq<char>,
    pub required: bool,
}

impl DeepView for ChannelCommandOptionData {
    type V = SpecChannelData;

    open spec fn deep_view(&self) -> SpecChannelData {
        SpecChannelData {
            channel_types: self.channel_types.deep_view(),
            description: self.description@,
            name: self.name@,
            required: self.required,
        }
    }
}

/// Data of an `Integer` or `Number` option.
#[derive(Debug, Hash)]
pub struct NumberCommandOptionData {
    /// Whether the option supports autocomplete.
    pub autocomplete: bool,
    /// Choices a user picks from; empty when the user may type freely.
    pub choices: Vec<CommandOptionChoice>,
    /// Description of the option.
    pub description: String,
    /// Greatest value permitted, if bounded.
    pub max_value: Option<CommandOptionValue>,
    /// Least value permitted, if bounded.
    pub min_value: Option<CommandOptionValue>,
    /// Name of the option.
    pub name: String,
    /// Whether a user must fill the option in.
    pub required: bool,
}

/// Mathematical model of [`NumberCommandOptionData`].
#[verifier::ext_equal]
pub struct SpecNumberData {
    pub autocomplete: bool,
    pub choices: Seq<SpecChoice>,
    pub description: Seq<char>,
    pub max_value: Option<CommandOptionValue>,
    pub min_value: Option<CommandOptionValue>,
    pub name: Seq<char>,
    pub required: bool,
}

impl DeepView for NumberCommandOptionData {
    type V = SpecNumberData;

    open spec fn deep_view(&self) -> SpecNumberData {
        SpecNumberData {
            autocomplete: self.autocomplete,
            choices: self.choices.deep_view(),
            description: self.description@,
            max_value: self.max_value,
            min_value: self.min_value,
            name: self.name@,
            required: self.required,
        }
    }
}

/// Option of a command: ten variants, each with the payload shape its kind
/// calls for. `SubCommand` and `SubCommandGroup` nest further options, so a
/// command's options form a tree.
#[derive(Debug, Hash)]
pub enum CommandOption {
    SubCommand(OptionsCommandOptionData),
    SubCommandGroup(OptionsCommandOptionData),
    String(ChoiceCommandOptionData),
    Integer(NumberCommandOptionData),
    Boolean(BaseCommandOptionData),
    User(BaseCommandOptionData),
    Channel(ChannelCommandOptionData),
    Role(BaseCommandOptionData),
    Mentionable(BaseCommandOptionData),
    Number(NumberCommandOptionData),
}

/// Data of a `SubCommand` or `SubCommandGroup` option.
#[derive(Debug, Hash)]
pub struct OptionsCommandOptionData {
    /// Description of the option.
    pub description: String,
    /// Name of the option.
    pub name: String,
    /// The options nested under this one.
    pub options: Vec<CommandOption>,
}

/// Mathematical model of a [`CommandOption`].
#[verifier::ext_equal]
pub enum SpecCommandOption {
    SubCommand(SpecOptionsData),
    SubCommandGroup(SpecOptionsData),
    String(SpecChoiceData),
    Integer(SpecNumberData),
    Boolean(SpecBaseData),
    User(SpecBaseData),
    Channel(SpecChannelData),
    Role(SpecBaseData),
    Mentionable(SpecBaseData),
    Number(SpecNumberData),
}

/// Mathematical model of [`OptionsCommandOptionData`].
#[verifier::ext_equal]
pub struct SpecOptionsData {
    pub description: Seq<char>,
    pub name: Seq<char>,
    pub options: Seq<SpecCommandOption>,
}

/// The model of an option tree.
pub open spec fn option_model(o: CommandOption) -> SpecCommandOption
    decreases o, 0int,
{
    match o {
        CommandOption::SubCommand(d) => {
            proof {
                assert(decreases_to!(o => d));
            }
            SpecCommandOption::SubCommand(options_data_model(d))
        },
        CommandOption::SubCommandGroup(d) => {
            proof {
                assert(decreases_to!(o => d));
            }
            SpecCommandOption::SubCommandGroup(options_data_model(d))
        },
        CommandOption::String(d) => SpecCommandOption::String(d.deep_view()),
        CommandOption::Integer(d) => SpecCommandOption::Integer(d.deep_view()),
        CommandOption::Boolean(d) => SpecCommandOption::Boolean(d.deep_view()),
        CommandOption::User(d) => SpecCommandOption::User(d.deep_view()),
        CommandOption::Channel(d) => SpecCommandOption::Channel(d.deep_view()),
        CommandOption::Role(d) => SpecCommandOption::Role(d.deep_view()),
        CommandOption::Mentionable(d) => SpecCommandOption::Mentionable(d.deep_view()),
        CommandOption::Number(d) => SpecCommandOption::Number(d.deep_view()),
    }
}

/// The model of the data of a container option.
pub open spec fn options_data_model(d: OptionsCommandOptionData) -> SpecOptionsData
    decreases d, 0int,
{
    proof {
        assert(decreases_to!(d => d.options));
        assert(decreases_to!(d.options => d.options@));
    }
    SpecOptionsData {
        description: d.description@,
        name: d.name@,
        options: options_model(d.options@, d.options@.len() as int),
    }
}

/// The models of the first `n` options of a sequence.
pub open spec fn options_model(s: Seq<CommandOption>, n: int) -> Seq<SpecCommandOption>
    decreases s, n,
        when n <= s.len()
{
    if n <= 0 {
        Seq::empty()
    } else {
        proof {
            assert(decreases_to!(s => s[n - 1]));
        }
        options_model(s, n - 1).push(option_model(s[n - 1]))
    }
}

/// A sequence of options is modelled elementwise.
pub broadcast proof fn lemma_options_model(s: Seq<CommandOption>, n: int)
    requires
        0 <= n <= s.len(),
    ensures
        #[trigger] options_model(s, n).len() == n,
        forall|i: int| 0 <= i < n ==> options_model(s, n)[i] == option_model(s[i]),
    decreases n,
{
    if n > 0 {
        lemma_options_model(s, n - 1);
    }
}

impl DeepView for CommandOption {
    type V = SpecCommandOption;

    open spec fn deep_view(&self) -> SpecCommandOption {
        option_model(*self)
    }
}

impl DeepView for OptionsCommandOptionData {
    type V = SpecOptionsData;

    open spec fn deep_view(&self) -> SpecOptionsData {
        options_data_model(*self)
    }
}

impl SpecCommandOption {
    /// The type an option's variant stands for.
    pub open spec fn kind(self) -> CommandOptionType {
        match self {
            SpecCommandOption::SubCommand(_) => CommandOptionType::SubCommand,
            SpecCommandOption::SubCommandGroup(_) => CommandOptionType::SubCommandGroup,
            SpecCommandOption::String(_) => CommandOptionType::String,
            SpecCommandOption::Integer(_) => CommandOptionType::Integer,
            SpecCommandOption::Boolean(_) => CommandOptionType::Boolean,
            SpecCommandOption::User(_) => CommandOptionType::User,
            SpecCommandOption::Channel(_) => CommandOptionType::Channel,
            SpecCommandOption::Role(_) => CommandOptionType::Role,
            SpecCommandOption::Mentionable(_) => CommandOptionType::Mentionable,
            SpecCommandOption::Number(_) => CommandOptionType::Number,
        }
    }

    /// Whether the option supports autocomplete: only choice-bearing and
    /// numeric options do, and only when their data asks for it.
    pub open spec fn is_autocomplete(self) -> bool {
        match self {
            SpecCommandOption::String(d) => d.autocomplete,
            SpecCommandOption::Integer(d) => d.autocomplete,
            SpecCommandOption::Number(d) => d.autocomplete,
            _ => false,
        }
    }

    /// Whether a user must fill the option in: containers never are.
    pub open spec fn is_required(self) -> bool {
        match self {
            SpecCommandOption::SubCommand(_) => false,
            SpecCommandOption::SubCommandGroup(_) => false,
            SpecCommandOption::String(d) => d.required,
            SpecCommandOption::Integer(d) => d.required,
            SpecCommandOption::Boolean(d) => d.required,
            SpecCommandOption::User(d) => d.required,
            SpecCommandOption::Channel(d) => d.required,
            SpecCommandOption::Role(d) => d.required,
            SpecCommandOption::Mentionable(d) => d.required,
            SpecCommandOption::Number(d) => d.required,
        }
    }
}

impl CommandOption {
    /// The type this option's variant stands for.
    pub fn kind(&self) -> (t: CommandOptionType)
        ensures
            t == self.deep_view().kind(),
    {
        match self {
            CommandOption::SubCommand(_) => CommandOptionType::SubCommand,
            CommandOption::SubCommandGroup(_) => CommandOptionType::SubCommandGroup,
            CommandOption::String(_) => CommandOptionType::String,
            CommandOption::Integer(_) => CommandOptionType::Integer,
            CommandOption::Boolean(_) => CommandOptionType::Boolean,
            CommandOption::User(_) => CommandOptionType::User,
            CommandOption::Channel(_) => CommandOptionType::Channel,
            CommandOption::Role(_) => CommandOptionType::Role,
            CommandOption::Mentionable(_) => CommandOptionType::Mentionable,
            CommandOption::Number(_) => CommandOptionType::Number,
        }
    }

    /// Whether the option supports autocomplete.
    pub fn is_autocomplete(&self) -> (r: bool)
        ensures
            r == self.deep_view().is_autocomplete(),
    {
        match self {
            CommandOption::String(d) => d.autocomplete,
            CommandOption::Integer(d) | CommandOption::Number(d) => d.autocomplete,
            CommandOption::Boolean(_)
            | CommandOption::User(_)
            | CommandOption::Role(_)
            | CommandOption::Mentionable(_)
            | CommandOption::SubCommand(_)
            | CommandOption::SubCommandGroup(_)
            | CommandOption::Channel(_) => false,
        }
    }

    /// Whether a user must fill the option in.
    pub fn is_required(&self) -> (r: bool)
        ensures
            r == self.deep_view().is_required(),
    {
        match self {
            CommandOption::SubCommand(_) | CommandOption::SubCommandGroup(_) => false,
            CommandOption::String(d) => d.required,
            CommandOption::Integer(d) | CommandOption::Number(d) => d.required,
            CommandOption::Channel(d) => d.required,
            CommandOption::Boolean(d)
            | CommandOption::User(d)
            | CommandOption::Role(d)
            | CommandOption::Mentionable(d) => d.required,
        }
    }
}

/// Two numeric literals are equal exactly when their bit patterns are: the
/// sign of zero and NaN payloads both tell literals apart.
pub proof fn lemma_number_bitwise_equality(a: Number, b: Number)
    ensures
        (a == b) <==> (a.0 == b.0),
{
}

/// Structural equality of choices.
fn eq_choice(a: &CommandOptionChoice, b: &CommandOptionChoice) -> (r: bool)
    ensures
        r == (a.deep_view() == b.deep_view()),
{
    match (a, b) {
        (
            CommandOptionChoice::String { name: n1, value: v1 },
            CommandOptionChoice::String { name: n2, value: v2 },
        ) => *n1 == *n2 && *v1 == *v2,
        (
            CommandOptionChoice::Int { name: n1, value: v1 },
            CommandOptionChoice::Int { name: n2, value: v2 },
        ) => *n1 == *n2 && *v1 == *v2,
        (
            CommandOptionChoice::Number { name: n1, value: v1 },
            CommandOptionChoice::Number { name: n2, value: v2 },
        ) => *n1 == *n2 && *v1 == *v2,
        _ => false,
    }
}

/// Structural equality of choice lists.
fn eq_choices(a: &Vec<CommandOptionChoice>, b: &Vec<CommandOptionChoice>) -> (r: bool)
    ensures
        r == (a.deep_view() == b.deep_view()),
{
    if a.len() != b.len() {
        proof {
            assert(a.deep_view().len() != b.deep_view().len());
        }
        false
    } else {
        let mut j: usize = 0;
        let mut same: bool = true;
        while j < a.len() && same
            invariant
                j <= a@.len(),
                a@.len() == b@.len(),
                same ==> forall|k: int| 0 <= k < j ==> (#[trigger] a@[k]).deep_view()
                    == b@[k].deep_view(),
                !same ==> a.deep_view() != b.deep_view(),
            decreases a@.len() - j,
        {
            if !eq_choice(&a[j], &b[j]) {
                same = false;
                proof {
                    assert(a.deep_view()[j as int] != b.deep_view()[j as int]);
                }
            }
            j += 1;
        }
        proof {
            if same {
                assert(a.deep_view() =~= b.deep_view());
            }
        }
        same
    }
}

/// Structural equality of numeric bounds.
fn eq_bound(x: Option<CommandOptionValue>, y: Option<CommandOptionValue>) -> (r: bool)
    ensures
        r == (x == y),
{
    match (x, y) {
        (Some(u), Some(v)) => u == v,
        (None, None) => true,
        _ => false,
    }
}

/// Structural equality of channel restrictions.
fn eq_channel_types(a: &Vec<ChannelType>, b: &Vec<ChannelType>) -> (r: bool)
    ensures
        r == (a.deep_view() == b.deep_view()),
{
    if a.len() != b.len() {
        proof {
            assert(a.deep_view().len() != b.deep_view().len());
        }
        false
    } else {
        let mut j: usize = 0;
        let mut same: bool = true;
        while j < a.len() && same
            invariant
                j <= a@.len(),
                a@.len() == b@.len(),
                same ==> forall|k: int| 0 <= k < j ==> (#[trigger] a@[k]) == b@[k],
                !same ==> a.deep_view() != b.deep_view(),
            decreases a@.len() - j,
        {
            if !(a[j] == b[j]) {
                same = false;
                proof {
                    assert(a.deep_view()[j as int] != b.deep_view()[j as int]);
                }
            }
            j += 1;
        }
        proof {
            if same {
                assert(a.deep_view() =~= b.deep_view());
            }
        }
        same
    }
}

/// Structural equality of plain payloads.
fn eq_base_data(a: &BaseCommandOptionData, b: &BaseCommandOptionData) -> (r: bool)
    ensures
        r == (a.deep_view() == b.deep_view()),
{
    a.description == b.description && a.name == b.name && a.required == b.required
}

/// Structural equality of choice-bearing payloads.
fn eq_choice_data(a: &ChoiceCommandOptionData, b: &ChoiceCommandOptionData) -> (r: bool)
    ensures
        r == (a.deep_view() == b.deep_view()),
{
    a.autocomplete == b.autocomplete && eq_choices(&a.choices, &b.choices) && a.description
        == b.description && a.name == b.name && a.required == b.required
}

/// Structural equality of channel-restricted payloads.
fn eq_channel_data(a: &ChannelCommandOptionData, b: &ChannelCommandOptionData) -> (r: bool)
    ensures
        r == (a.deep_view() == b.deep_view()),
{
    eq_channel_types(&a.channel_types, &b.channel_types) && a.description == b.description
        && a.name == b.name && a.required == b.required
}

/// Structural equality of numeric payloads.
fn eq_number_data(a: &NumberCommandOptionData, b: &NumberCommandOptionData) -> (r: bool)
    ensures
        r == (a.deep_view() == b.deep_view()),
{
    a.autocomplete == b.autocomplete && eq_choices(&a.choices, &b.choices) && a.description
        == b.description && eq_bound(a.max_value, b.max_value) && eq_bound(a.min_value, b.min_value)
        && a.name == b.name && a.required == b.required
}

/// Structural equality of container payloads.
fn eq_options_data(a: &OptionsCommandOptionData, b: &OptionsCommandOptionData) -> (r: bool)
    ensures
        r == (options_data_model(*a) == options_data_model(*b)),
    decreases a, 0int,
{
    proof {
        lemma_options_model(a.options@, a.options@.len() as int);
        lemma_options_model(b.options@, b.options@.len() as int);
    }
    if !(a.description == b.description && a.name == b.name) {
        false
    } else if a.options.len() != b.options.len() {
        false
    } else {
        let mut j: usize = 0;
        let mut same: bool = true;
        while j < a.options.len() && same
            invariant
                j <= a.options@.len(),
                a.options@.len() == b.options@.len(),
                same ==> forall|k: int| 0 <= k < j ==> option_model(#[trigger] a.options@[k])
                    == option_model(b.options@[k]),
                !same ==> options_data_model(*a) != options_data_model(*b),
                a.description@ == b.description@,
                a.name@ == b.name@,
            decreases a.options@.len() - j,
        {
            proof {
                lemma_options_model(a.options@, a.options@.len() as int);
                lemma_options_model(b.options@, b.options@.len() as int);
                assert(decreases_to!(a => a.options));
                assert(decreases_to!(a.options => a.options@));
                assert(decreases_to!(a.options@ => a.options@[j as int]));
            }
            if !eq_option(&a.options[j], &b.options[j]) {
                same = false;
                proof {
                    assert(options_model(a.options@, a.options@.len() as int)[j as int]
                        != options_model(b.options@, b.options@.len() as int)[j as int]);
                }
            }
            j += 1;
        }
        proof {
            lemma_options_model(a.options@, a.options@.len() as int);
            lemma_options_model(b.options@, b.options@.len() as int);
            if same {
                assert(options_model(a.options@, a.options@.len() as int) =~= options_model(
                    b.options@,
                    b.options@.len() as int,
                ));
            }
        }
        same
    }
}

/// Structural equality of option trees.
fn eq_option(a: &CommandOption, b: &CommandOption) -> (r: bool)
    ensures
        r == (option_model(*a) == option_model(*b)),
    decreases a, 1int,
{
    match (a, b) {
        (CommandOption::SubCommand(d1), CommandOption::SubCommand(d2)) => {
            proof {
                assert(decreases_to!(a => d1));
            }
            eq_options_data(d1, d2)
        },
        (CommandOption::SubCommandGroup(d1), CommandOption::SubCommandGroup(d2)) => {
            proof {
                assert(decreases_to!(a => d1));
            }
            eq_options_data(d1, d2)
        },
        (CommandOption::String(d1), CommandOption::String(d2)) => eq_choice_data(d1, d2),
        (CommandOption::Integer(d1), CommandOption::Integer(d2)) => eq_number_data(d1, d2),
        (CommandOption::Boolean(d1), CommandOption::Boolean(d2)) => eq_base_data(d1, d2),
        (CommandOption::User(d1), CommandOption::User(d2)) => eq_base_data(d1, d2),
        (CommandOption::Channel(d1), CommandOption::Channel(d2)) => eq_channel_data(d1, d2),
        (CommandOption::Role(d1), CommandOption::Role(d2)) => eq_base_data(d1, d2),
        (CommandOption::Mentionable(d1), CommandOption::Mentionable(d2)) => eq_base_data(d1, d2),
        (CommandOption::Number(d1), CommandOption::Number(d2)) => eq_number_data(d1, d2),
        _ => false,
    }
}

impl PartialEq for CommandOption {
    fn eq(&self, other: &CommandOption) -> (r: bool) {
        eq_option(self, other)
    }
}

impl vstd::std_specs::cmp::PartialEqSpecImpl for CommandOption {
    open spec fn obeys_eq_spec() -> bool {
        true
    }

    open spec fn eq_spec(&self, other: &CommandOption) -> bool {
        option_model(*self) == option_model(*other)
    }
}

impl Eq for CommandOption {

}

impl PartialEq for CommandOptionChoice {
    fn eq(&self, other: &CommandOptionChoice) -> (r: bool) {
        eq_choice(self, other)
    }
}

impl vstd::std_specs::cmp::PartialEqSpecImpl for CommandOptionChoice {
    open spec fn obeys_eq_spec() -> bool {
        true
    }

    open spec fn eq_spec(&self, other: &CommandOptionChoice) -> bool {
        self.deep_view() == other.deep_view()
    }
}

impl Eq for CommandOptionChoice {

}

impl PartialEq for BaseCommandOptionData {
    fn eq(&self, other: &BaseCommandOptionData) -> (r: bool) {
        eq_base_data(self, other)
    }
}

impl vstd::std_specs::cmp::PartialEqSpecImpl for BaseCommandOptionData {
    open spec fn obeys_eq_spec() -> bool {
        true
    }

    open spec fn eq_spec(&self, other: &BaseCommandOptionData) -> bool {
        self.deep_view() == other.deep_view()
    }
}

impl Eq for BaseCommandOptionData {

}

impl PartialEq for ChoiceCommandOptionData {
    fn eq(&self, other: &ChoiceCommandOptionData) -> (r: bool) {
        eq_choice_data(self, other)
    }
}

impl vstd::std_specs::cmp::PartialEqSpecImpl for ChoiceCommandOptionData {
    open spec fn obeys_eq_spec() -> bool {
        true
    }

    open spec fn eq_spec(&self, other: &ChoiceCommandOptionData) -> bool {
        self.deep_view() == other.deep_view()
    }
}

impl Eq for ChoiceCommandOptionData {

}

impl PartialEq for ChannelCommandOptionData {
    fn eq(&self, other: &ChannelCommandOptionData) -> (r: bool) {
        eq_channel_data(self, other)
    }
}

impl vstd::std_specs::cmp::PartialEqSpecImpl for ChannelCommandOptionData {
    open spec fn obeys_eq_spec() -> bool {
        true
    }

    open spec fn eq_spec(&self, other: &ChannelCommandOptionData) -> bool {
        self.deep_view() == other.deep_view()
    }
}

impl Eq for ChannelCommandOptionData {

}

impl PartialEq for NumberCommandOptionData {
    fn eq(&self, other: &NumberCommandOptionData) -> (r: bool) {
        eq_number_data(self, other)
    }
}

impl vstd::std_specs::cmp::PartialEqSpecImpl for NumberCommandOptionData {
    open spec fn obeys_eq_spec() -> bool {
        true
    }

    open spec fn eq_spec(&self, other: &NumberCommandOptionData) -> bool {
        self.deep_view() == other.deep_view()
    }
}

impl Eq for NumberCommandOptionData {

}

impl PartialEq for OptionsCommandOptionData {
    fn eq(&self, other: &OptionsCommandOptionData) -> (r: bool) {
        eq_options_data(self, other)
    }
}

impl vstd::std_specs::cmp::PartialEqSpecImpl for OptionsCommandOptionData {
    open spec fn obeys_eq_spec() -> bool {
        true
    }

    open spec fn eq_spec(&self, other: &OptionsCommandOptionData) -> bool {
        options_data_model(*self) == options_data_model(*other)
    }
}

impl Eq for OptionsCommandOptionData {

}

impl Default for BaseCommandOptionData {
    /// An empty payload: blank texts, nothing required.
    fn default() -> (r: Self)
        ensures
            r.deep_view() == (SpecBaseData {
                description: Seq::empty(),
                name: Seq::empty(),
                required: false,
            }),
    {
        BaseCommandOptionData { description: String::new(), name: String::new(), required: false }
    }
}

impl Default for OptionsCommandOptionData {
    /// An empty payload: blank texts, no nested options.
    fn default() -> (r: Self)
        ensures
            r.deep_view() == (SpecOptionsData {
                description: Seq::empty(),
                name: Seq::empty(),
                options: Seq::empty(),
            }),
    {
        OptionsCommandOptionData {
            description: String::new(),
            name: String::new(),
            options: Vec::new(),
        }
    }
}

impl Default for ChoiceCommandOptionData {
    /// An empty payload: blank texts, no choices, nothing required.
    fn default() -> (r: Self)
        ensures
            r.deep_view() == (SpecChoiceData {
                autocomplete: false,
                choices: Seq::empty(),
                description: Seq::empty(),
                name: Seq::empty(),
                required: false,
            }),
    {
        let r = ChoiceCommandOptionData {
            autocomplete: false,
            choices: Vec::new(),
            description: String::new(),
            name: String::new(),
            required: false,
        };
        proof {
            assert(r.choices.deep_view() =~= Seq::<SpecChoice>::empty());
        }
        r
    }
}

impl Default for ChannelCommandOptionData {
    /// An empty payload: every channel kind allowed, nothing required.
    fn default() -> (r: Self)
        ensures
            r.deep_view() == (SpecChannelData {
                channel_types: Seq::empty(),
                description: Seq::empty(),
                name: Seq::empty(),
                required: false,
            }),
    {
        let r = ChannelCommandOptionData {
            channel_types: Vec::new(),
            description: String::new(),
            name: String::new(),
            required: false,
        };
        proof {
            assert(r.channel_types.deep_view() =~= Seq::<ChannelType>::empty());
        }
        r
    }
}

impl Default for NumberCommandOptionData {
    /// An empty payload: no choices, no bounds, nothing required.
    fn default() -> (r: Self)
        ensures
            r.deep_view() == (SpecNumberData {
                autocomplete: false,
                choices: Seq::empty(),
                description: Seq::empty(),
                max_value: None,
                min_value: None,
                name: Seq::empty(),
                required: false,
            }),
    {
        let r = NumberCommandOptionData {
            autocomplete: false,
            choices: Vec::new(),
            description: String::new(),
            max_value: None,
            min_value: None,
            name: String::new(),
            required: false,
        };
        proof {
            assert(r.choices.deep_view() =~= Seq::<SpecChoice>::empty());
        }
        r
    }
}

} // verus!
