//! The commands that an application offers, and the answers to their use.

use vstd::prelude::*;

use crate::borrow::{opt_slice, same_items};
use crate::entity;
use crate::enums::{EnumFromIntegerError, IntegerEnum, WireInteger};
use crate::flags::{spec_from_bits, Flags};
use crate::permissions::RoleId;
use crate::resources::application::ApplicationId;
use crate::resources::channel::{AllowedMentions, Embed};
use crate::resources::guild::GuildId;
use crate::resources::user::UserId;
use crate::snowflake::{AnyId, Id};

verus! {

/// What a choice stands for: a number or text.
#[derive(Debug, Clone, Eq, PartialEq, Hash)]
pub enum ChoiceValue {
    Integer(u64),
    String(String),
}

impl ChoiceValue {
    /// The text, where the value is text.
    pub fn into_string(self) -> (r: Option<String>)
        ensures
            r == match self {
                ChoiceValue::String(u) => Some(u),
                _ => None,
            },
    {
        match self {
            Self::String(u) => Some(u),
            _ => None,
        }
    }

    /// The text, where the value is text.
    pub fn as_str(&self) -> (r: Option<&str>)
        ensures
            match r {
                Some(s) => self matches ChoiceValue::String(u) && s@ == u@,
                None => !(self is String),
            },
    {
        match self {
            Self::String(u) => Some(u.as_str()),
            _ => None,
        }
    }

    /// The number, where the value is a number.
    pub fn into_u64(self) -> (r: Option<u64>)
        ensures
            r == match self {
                ChoiceValue::Integer(u) => Some(u),
                _ => None,
            },
    {
        match self {
            Self::Integer(u) => Some(u),
            _ => None,
        }
    }

    /// The number, where the value is a number.
    pub fn as_u64(&self) -> (r: Option<u64>)
        ensures
            r == match *self {
                ChoiceValue::Integer(u) => Some(u),
                _ => None,
            },
    {
        match self {
            Self::Integer(u) => Some(*u),
            _ => None,
        }
    }
}

impl From<&str> for ChoiceValue {
    fn from(u: &str) -> (r: Self)
        ensures
            r matches ChoiceValue::String(s) && s@ == u@,
    {
        Self::String(u.to_owned())
    }
}

impl vstd::std_specs::convert::FromSpecImpl<&str> for ChoiceValue {
    open spec fn obeys_from_spec() -> bool {
        false
    }

    open spec fn from_spec(u: &str) -> Self {
        arbitrary()
    }
}

impl From<String> for ChoiceValue {
    fn from(u: String) -> (r: Self) {
        Self::String(u)
    }
}

impl vstd::std_specs::convert::FromSpecImpl<String> for ChoiceValue {
    open spec fn obeys_from_spec() -> bool {
        true
    }

    open spec fn from_spec(u: String) -> Self {
        ChoiceValue::String(u)
    }
}

impl From<u64> for ChoiceValue {
    fn from(u: u64) -> (r: Self) {
        Self::Integer(u)
    }
}

impl vstd::std_specs::convert::FromSpecImpl<u64> for ChoiceValue {
    open spec fn obeys_from_spec() -> bool {
        true
    }

    open spec fn from_spec(u: u64) -> Self {
        ChoiceValue::Integer(u)
    }
}

/// One of the values that a user may pick for an option.
#[derive(Debug, Clone)]
pub struct ApplicationCommandOptionChoice {
    pub name: String,
    pub value: ChoiceValue,
}

impl ApplicationCommandOptionChoice {
    /// A new value made of its parts.
    pub fn new(name: String, value: ChoiceValue) -> (r: Self)
        ensures
            r == (ApplicationCommandOptionChoice {
                name,
                value,
            }),
    {
        ApplicationCommandOptionChoice {
            name,
            value,
        }
    }
}

/// What an option of a command takes.
#[derive(Debug, Clone, Copy, Eq, PartialEq, Structural)]
pub enum ApplicationCommandOptionKind {
    SubCommand,
    SubCommandGroup,
    String,
    Integer,
    Boolean,
    User,
    Channel,
    Role,
    Mentionable,
}

impl WireInteger for ApplicationCommandOptionKind {
    open spec fn valid(self) -> bool {
        true
    }

    open spec fn code(self) -> u64 {
        match self {
            ApplicationCommandOptionKind::SubCommand => 1,
            ApplicationCommandOptionKind::SubCommandGroup => 2,
            ApplicationCommandOptionKind::String => 3,
            ApplicationCommandOptionKind::Integer => 4,
            ApplicationCommandOptionKind::Boolean => 5,
            ApplicationCommandOptionKind::User => 6,
            ApplicationCommandOptionKind::Channel => 7,
            ApplicationCommandOptionKind::Role => 8,
            ApplicationCommandOptionKind::Mentionable => 9,
        }
    }

    open spec fn of_code(raw: u64) -> Option<Self> {
        if raw == 1 {
            Some(ApplicationCommandOptionKind::SubCommand)
        } else if raw == 2 {
            Some(ApplicationCommandOptionKind::SubCommandGroup)
        } else if raw == 3 {
            Some(ApplicationCommandOptionKind::String)
        } else if raw == 4 {
            Some(ApplicationCommandOptionKind::Integer)
        } else if raw == 5 {
            Some(ApplicationCommandOptionKind::Boolean)
        } else if raw == 6 {
            Some(ApplicationCommandOptionKind::User)
        } else if raw == 7 {
            Some(ApplicationCommandOptionKind::Channel)
        } else if raw == 8 {
            Some(ApplicationCommandOptionKind::Role)
        } else if raw == 9 {
            Some(ApplicationCommandOptionKind::Mentionable)
        } else {
            None
        }
    }

    proof fn lemma_code_is_read_back(self) {
    }

    proof fn lemma_of_code_is_exact(raw: u64) {
    }

    fn to_wire(self) -> (raw: u64) {
        match self {
            ApplicationCommandOptionKind::SubCommand => 1,
            ApplicationCommandOptionKind::SubCommandGroup => 2,
            ApplicationCommandOptionKind::String => 3,
            ApplicationCommandOptionKind::Integer => 4,
            ApplicationCommandOptionKind::Boolean => 5,
            ApplicationCommandOptionKind::User => 6,
            ApplicationCommandOptionKind::Channel => 7,
            ApplicationCommandOptionKind::Role => 8,
            ApplicationCommandOptionKind::Mentionable => 9,
        }
    }

    fn from_wire(raw: u64) -> (r: Option<Self>) {
        match raw {
            1 => Some(ApplicationCommandOptionKind::SubCommand),
            2 => Some(ApplicationCommandOptionKind::SubCommandGroup),
            3 => Some(ApplicationCommandOptionKind::String),
            4 => Some(ApplicationCommandOptionKind::Integer),
            5 => Some(ApplicationCommandOptionKind::Boolean),
            6 => Some(ApplicationCommandOptionKind::User),
            7 => Some(ApplicationCommandOptionKind::Channel),
            8 => Some(ApplicationCommandOptionKind::Role),
            9 => Some(ApplicationCommandOptionKind::Mentionable),
            _ => None,
        }
    }
}

impl From<ApplicationCommandOptionKind> for u64 {
    fn from(u: ApplicationCommandOptionKind) -> (r: u64) {
        u.to_wire()
    }
}

impl vstd::std_specs::convert::FromSpecImpl<ApplicationCommandOptionKind> for u64 {
    open spec fn obeys_from_spec() -> bool {
        true
    }

    open spec fn from_spec(u: ApplicationCommandOptionKind) -> u64 {
        u.code()
    }
}

impl TryFrom<u64> for ApplicationCommandOptionKind {
    type Error = EnumFromIntegerError;

    fn try_from(u: u64) -> (r: Result<Self, EnumFromIntegerError>) {
        match Self::from_wire(u) {
            Some(v) => Ok(v),
            None => Err(EnumFromIntegerError::new(u)),
        }
    }
}

impl vstd::std_specs::convert::TryFromSpecImpl<u64> for ApplicationCommandOptionKind {
    open spec fn obeys_try_from_spec() -> bool {
        true
    }

    open spec fn try_from_spec(u: u64) -> Result<Self, EnumFromIntegerError> {
        match Self::of_code(u) {
            Some(v) => Ok(v),
            None => Err(EnumFromIntegerError { raw: u }),
        }
    }
}

/// A parameter of a command, or a command below it.
#[derive(Debug)]
pub struct ApplicationCommandOption {
    pub kind: IntegerEnum<ApplicationCommandOptionKind>,
    pub name: String,
    pub description: String,
    pub required: Option<bool>,
    pub choices: Option<Vec<ApplicationCommandOptionChoice>>,
    pub options: Option<Vec<ApplicationCommandOption>>,
}

impl ApplicationCommandOption {
    /// A new value with what must be given; the rest is left out.
    pub fn new(kind: IntegerEnum<ApplicationCommandOptionKind>, name: String, description: String) -> (r: Self)
        ensures
            r == (ApplicationCommandOption {
                kind,
                name,
                description,
                required: None,
                choices: None,
                options: None,
            }),
    {
        ApplicationCommandOption {
            kind,
            name,
            description,
            required: None,
            choices: None,
            options: None,
        }
    }

    /// The same with `required` set.
    pub fn required(self, required: bool) -> (r: Self)
        ensures
            r == (ApplicationCommandOption { required: Some(required), ..self }),
    {
        ApplicationCommandOption { required: Some(required), ..self }
    }

    /// The same with `choices` set.
    pub fn choices(self, choices: Vec<ApplicationCommandOptionChoice>) -> (r: Self)
        ensures
            r == (ApplicationCommandOption { choices: Some(choices), ..self }),
    {
        ApplicationCommandOption { choices: Some(choices), ..self }
    }

    /// The same with `options` set.
    pub fn options(self, options: Vec<ApplicationCommandOption>) -> (r: Self)
        ensures
            r == (ApplicationCommandOption { options: Some(options), ..self }),
    {
        ApplicationCommandOption { options: Some(options), ..self }
    }
}

impl Clone for ApplicationCommandOption {
    fn clone(&self) -> (r: Self)
        decreases self,
    {
        let options = match &self.options {
            Some(v) => {
                let mut out: Vec<ApplicationCommandOption> = Vec::new();
                let mut i: usize = 0;
                while i < v.len()
                    invariant
                        self.options == Some(*v),
                    decreases v.len() - i,
                {
                    proof {
                        vstd::std_specs::vec::axiom_vec_index_decreases(*v, i as int);
                        assert(decreases_to!(self.options => self.options->Some_0));
                    }
                    out.push(v[i].clone());
                    i += 1;
                }
                Some(out)
            },
            None => None,
        };
        ApplicationCommandOption {
            kind: self.kind.clone(),
            name: self.name.clone(),
            description: self.description.clone(),
            required: self.required.clone(),
            choices: self.choices.clone(),
            options,
        }
    }
}

/// The identifier of a command.
pub type ApplicationCommandId = Id<entity::ApplicationCommand>;

/// A command that an application offers.
#[derive(Debug, Clone)]
pub struct ApplicationCommand {
    pub id: ApplicationCommandId,
    pub application_id: ApplicationId,
    pub name: String,
    pub description: String,
    pub options: Option<Vec<ApplicationCommandOption>>,
    pub default_permission: Option<bool>,
}

impl ApplicationCommand {
    pub fn id(&self) -> (r: ApplicationCommandId)
        ensures
            r == self.id,
    {
        self.id
    }

    pub fn application_id(&self) -> (r: ApplicationId)
        ensures
            r == self.application_id,
    {
        self.application_id
    }

    pub fn name(&self) -> (r: &str)
        ensures
            r@ == self.name@,
    {
        self.name.as_str()
    }

    pub fn description(&self) -> (r: &str)
        ensures
            r@ == self.description@,
    {
        self.description.as_str()
    }

    pub fn options(&self) -> (r: Option<&[ApplicationCommandOption]>)
        ensures
            same_items(r, self.options),
    {
        opt_slice(&self.options)
    }

    pub fn default_permission(&self) -> (r: Option<bool>)
        ensures
            r == self.default_permission,
    {
        self.default_permission
    }
}

/// A command to register.
#[derive(Debug, Clone)]
pub struct NewApplicationCommand {
    pub name: String,
    pub description: String,
    pub options: Option<Vec<ApplicationCommandOption>>,
    pub default_permission: Option<bool>,
}

impl NewApplicationCommand {
    /// A new value with what must be given; the rest is left out.
    pub fn new(name: String, description: String) -> (r: Self)
        ensures
            r == (NewApplicationCommand {
                name,
                description,
                options: None,
                default_permission: None,
            }),
    {
        NewApplicationCommand {
            name,
            description,
            options: None,
            default_permission: None,
        }
    }

    /// The same with `options` set.
    pub fn options(self, options: Vec<ApplicationCommandOption>) -> (r: Self)
        ensures
            r == (NewApplicationCommand { options: Some(options), ..self }),
    {
        NewApplicationCommand { options: Some(options), ..self }
    }
}

/// The changes to make to a command. What is left out stays.
#[derive(Debug, Clone)]
pub struct EditApplicationCommand {
    pub name: Option<String>,
    pub description: Option<String>,
    pub options: Option<Vec<ApplicationCommandOption>>,
    pub default_permission: Option<bool>,
}

/// The answer to the use of a command.
#[derive(Debug, Clone)]
pub struct InteractionResponse {
    pub kind: IntegerEnum<InteractionCallbackKind>,
    pub data: Option<InteractionApplicationCommandCallbackData>,
}

impl InteractionResponse {
    /// A new value made of its parts.
    pub fn new(kind: IntegerEnum<InteractionCallbackKind>) -> (r: Self)
        ensures
            r == (InteractionResponse {
                kind,
                data: None,
            }),
    {
        InteractionResponse {
            kind,
            data: None,
        }
    }
}

/// The way in which the use of a command is answered.
#[derive(Debug, Clone, Copy, Eq, PartialEq, Hash, Structural)]
pub enum InteractionCallbackKind {
    Pong,
    ChannelMessageWithSource,
    DeferredChannelMessageWithSource,
}

impl WireInteger for InteractionCallbackKind {
    open spec fn valid(self) -> bool {
        true
    }

    open spec fn code(self) -> u64 {
        match self {
            InteractionCallbackKind::Pong => 1,
            InteractionCallbackKind::ChannelMessageWithSource => 4,
            InteractionCallbackKind::DeferredChannelMessageWithSource => 5,
        }
    }

    open spec fn of_code(raw: u64) -> Option<Self> {
        if raw == 1 {
            Some(InteractionCallbackKind::Pong)
        } else if raw == 4 {
            Some(InteractionCallbackKind::ChannelMessageWithSource)
        } else if raw == 5 {
            Some(InteractionCallbackKind::DeferredChannelMessageWithSource)
        } else {
            None
        }
    }

    proof fn lemma_code_is_read_back(self) {
    }

    proof fn lemma_of_code_is_exact(raw: u64) {
    }

    fn to_wire(self) -> (raw: u64) {
        match self {
            InteractionCallbackKind::Pong => 1,
            InteractionCallbackKind::ChannelMessageWithSource => 4,
            InteractionCallbackKind::DeferredChannelMessageWithSource => 5,
        }
    }

    fn from_wire(raw: u64) -> (r: Option<Self>) {
        match raw {
            1 => Some(InteractionCallbackKind::Pong),
            4 => Some(InteractionCallbackKind::ChannelMessageWithSource),
            5 => Some(InteractionCallbackKind::DeferredChannelMessageWithSource),
            _ => None,
        }
    }
}

impl From<InteractionCallbackKind> for u64 {
    fn from(u: InteractionCallbackKind) -> (r: u64) {
        u.to_wire()
    }
}

impl vstd::std_specs::convert::FromSpecImpl<InteractionCallbackKind> for u64 {
    open spec fn obeys_from_spec() -> bool {
        true
    }

    open spec fn from_spec(u: InteractionCallbackKind) -> u64 {
        u.code()
    }
}

impl TryFrom<u64> for InteractionCallbackKind {
    type Error = EnumFromIntegerError;

    fn try_from(u: u64) -> (r: Result<Self, EnumFromIntegerError>) {
        match Self::from_wire(u) {
            Some(v) => Ok(v),
            None => Err(EnumFromIntegerError::new(u)),
        }
    }
}

impl vstd::std_specs::convert::TryFromSpecImpl<u64> for InteractionCallbackKind {
    open spec fn obeys_try_from_spec() -> bool {
        true
    }

    open spec fn try_from_spec(u: u64) -> Result<Self, EnumFromIntegerError> {
        match Self::of_code(u) {
            Some(v) => Ok(v),
            None => Err(EnumFromIntegerError { raw: u }),
        }
    }
}

/// The message that answers the use of a command.
#[derive(Debug, Clone)]
pub struct InteractionApplicationCommandCallbackData {
    pub tts: Option<bool>,
    pub content: Option<String>,
    pub embeds: Option<Vec<Embed>>,
    pub allowed_mentions: Option<AllowedMentions>,
    pub flags: Option<IntegerEnum<InteractionCallbackFlags>>,
}

impl InteractionApplicationCommandCallbackData {
    /// The message with everything left out: each part of it may be absent,
    /// and here every one is.
    pub fn new() -> (r: Self)
        ensures
            r == (InteractionApplicationCommandCallbackData {
                tts: None,
                content: None,
                embeds: None,
                allowed_mentions: None,
                flags: None,
            }),
    {
        InteractionApplicationCommandCallbackData {
            tts: None,
            content: None,
            embeds: None,
            allowed_mentions: None,
            flags: None,
        }
    }
}

/// How the message that answers a command is shown.
#[derive(Debug, Clone, Copy, PartialEq, Eq, Structural, PartialOrd, Ord, Hash)]
pub struct InteractionCallbackFlags {
    bits: u64,
}

impl InteractionCallbackFlags {
    pub const EPHEMERAL: u64 = 1 << 6;

    /// Every flag that has a name.
    pub const ALL: u64 = Self::EPHEMERAL;

    /// The set that holds the flags `bits`.
    pub closed spec fn of(bits: u64) -> Self {
        InteractionCallbackFlags { bits }
    }

    /// The flags that the set holds.
    pub closed spec fn flags(self) -> u64 {
        self.bits
    }

    /// A set is the flags it was made of, and nothing more.
    pub broadcast proof fn lemma_of_flags(bits: u64)
        ensures
            #[trigger] Self::of(bits).flags() == bits,
    {
    }

    /// A set is made of its flags alone.
    pub broadcast proof fn lemma_flags_of(self)
        ensures
            #[trigger] Self::of(self.flags()) == self,
    {
    }
}

impl Flags for InteractionCallbackFlags {
    open spec fn bits_of(self) -> u64 {
        self.flags()
    }

    open spec fn with_bits(bits: u64) -> Self {
        Self::of(bits)
    }

    open spec fn named() -> u64 {
        Self::ALL
    }

    proof fn lemma_with_bits(bits: u64) {
    }

    proof fn lemma_bits_are_all(self) {
    }

    fn named_bits() -> (r: u64) {
        Self::ALL
    }

    fn bits(&self) -> (r: u64) {
        self.bits
    }

    fn from_bits_truncate(bits: u64) -> (r: Self) {
        InteractionCallbackFlags { bits: bits & Self::ALL }
    }
}

impl core::ops::BitOr for InteractionCallbackFlags {
    type Output = InteractionCallbackFlags;

    fn bitor(self, other: InteractionCallbackFlags) -> (r: InteractionCallbackFlags) {
        InteractionCallbackFlags { bits: self.bits | other.bits }
    }
}

impl vstd::std_specs::ops::BitOrSpecImpl for InteractionCallbackFlags {
    open spec fn obeys_bitor_spec() -> bool {
        true
    }

    open spec fn bitor_req(self, other: InteractionCallbackFlags) -> bool {
        true
    }

    open spec fn bitor_spec(self, other: InteractionCallbackFlags) -> InteractionCallbackFlags {
        Self::of(self.flags() | other.flags())
    }
}

impl core::ops::BitAnd for InteractionCallbackFlags {
    type Output = InteractionCallbackFlags;

    fn bitand(self, other: InteractionCallbackFlags) -> (r: InteractionCallbackFlags) {
        InteractionCallbackFlags { bits: self.bits & other.bits }
    }
}

impl vstd::std_specs::ops::BitAndSpecImpl for InteractionCallbackFlags {
    open spec fn obeys_bitand_spec() -> bool {
        true
    }

    open spec fn bitand_req(self, other: InteractionCallbackFlags) -> bool {
        true
    }

    open spec fn bitand_spec(self, other: InteractionCallbackFlags) -> InteractionCallbackFlags {
        Self::of(self.flags() & other.flags())
    }
}

impl core::ops::BitXor for InteractionCallbackFlags {
    type Output = InteractionCallbackFlags;

    fn bitxor(self, other: InteractionCallbackFlags) -> (r: InteractionCallbackFlags) {
        InteractionCallbackFlags { bits: self.bits ^ other.bits }
    }
}

impl vstd::std_specs::ops::BitXorSpecImpl for InteractionCallbackFlags {
    open spec fn obeys_bitxor_spec() -> bool {
        true
    }

    open spec fn bitxor_req(self, other: InteractionCallbackFlags) -> bool {
        true
    }

    open spec fn bitxor_spec(self, other: InteractionCallbackFlags) -> InteractionCallbackFlags {
        Self::of(self.flags() ^ other.flags())
    }
}

impl core::ops::Not for InteractionCallbackFlags {
    type Output = InteractionCallbackFlags;

    fn not(self) -> (r: InteractionCallbackFlags) {
        InteractionCallbackFlags { bits: !self.bits & Self::ALL }
    }
}

impl vstd::std_specs::ops::NotSpecImpl for InteractionCallbackFlags {
    open spec fn obeys_not_spec() -> bool {
        true
    }

    open spec fn not_req(self) -> bool {
        true
    }

    open spec fn not_spec(self) -> InteractionCallbackFlags {
        Self::of(!self.flags() & Self::ALL)
    }
}

impl From<InteractionCallbackFlags> for u64 {
    fn from(f: InteractionCallbackFlags) -> (r: u64) {
        f.bits
    }
}

impl vstd::std_specs::convert::FromSpecImpl<InteractionCallbackFlags> for u64 {
    open spec fn obeys_from_spec() -> bool {
        true
    }

    open spec fn from_spec(f: InteractionCallbackFlags) -> u64 {
        f.flags()
    }
}

impl TryFrom<u64> for InteractionCallbackFlags {
    type Error = EnumFromIntegerError;

    fn try_from(u: u64) -> (r: Result<Self, EnumFromIntegerError>) {
        if u & !Self::ALL == 0 {
            Ok(InteractionCallbackFlags { bits: u })
        } else {
            Err(EnumFromIntegerError::new(u))
        }
    }
}

impl vstd::std_specs::convert::TryFromSpecImpl<u64> for InteractionCallbackFlags {
    open spec fn obeys_try_from_spec() -> bool {
        true
    }

    open spec fn try_from_spec(u: u64) -> Result<Self, EnumFromIntegerError> {
        match spec_from_bits::<Self>(u) {
            Some(f) => Ok(f),
            None => Err(EnumFromIntegerError { raw: u }),
        }
    }
}

impl WireInteger for InteractionCallbackFlags {
    open spec fn valid(self) -> bool {
        self.flags() & !Self::ALL == 0
    }

    open spec fn code(self) -> u64 {
        self.flags()
    }

    open spec fn of_code(raw: u64) -> Option<Self> {
        spec_from_bits::<Self>(raw)
    }

    proof fn lemma_code_is_read_back(self) {
    }

    proof fn lemma_of_code_is_exact(raw: u64) {
    }

    fn to_wire(self) -> (raw: u64) {
        self.bits
    }

    fn from_wire(raw: u64) -> (r: Option<Self>) {
        if raw & !Self::ALL == 0 {
            Some(InteractionCallbackFlags { bits: raw })
        } else {
            None
        }
    }
}

/// The permissions to set on one command in a guild.
#[derive(Debug, Clone)]
pub struct EditGuildApplicationCommandPermissions {
    pub id: ApplicationCommandId,
    pub permissions: Vec<ApplicationCommandPermission>,
}

impl EditGuildApplicationCommandPermissions {
    /// A new value made of its parts.
    pub fn new(id: ApplicationCommandId, permissions: Vec<ApplicationCommandPermission>) -> (r: Self)
        ensures
            r == (EditGuildApplicationCommandPermissions {
                id,
                permissions,
            }),
    {
        EditGuildApplicationCommandPermissions {
            id,
            permissions,
        }
    }
}

/// The permissions on one command in a guild.
#[derive(Debug, Clone)]
pub struct GuildApplicationCommandPermissions {
    pub id: ApplicationCommandId,
    pub application_id: ApplicationId,
    pub guild_id: GuildId,
    pub permissions: Vec<ApplicationCommandPermission>,
}

impl GuildApplicationCommandPermissions {
    pub fn id(&self) -> (r: ApplicationCommandId)
        ensures
            r == self.id,
    {
        self.id
    }

    pub fn application_id(&self) -> (r: ApplicationId)
        ensures
            r == self.application_id,
    {
        self.application_id
    }

    pub fn guild_id(&self) -> (r: GuildId)
        ensures
            r == self.guild_id,
    {
        self.guild_id
    }

    pub fn permissions(&self) -> (r: &[ApplicationCommandPermission])
        ensures
            r@ == self.permissions@,
    {
        self.permissions.as_slice()
    }
}

/// The one a permission on a command is for: a role or a user.
#[derive(Debug, Clone, Copy, Eq, PartialEq)]
pub enum CommandPermissionId {
    Role(RoleId),
    User(UserId),
}

impl CommandPermissionId {
    /// Whether the identifier is that of a user.
    pub fn is_user(self) -> (r: bool)
        ensures
            r == (self is User),
    {
        matches!(self, Self::User(_))
    }

    /// Whether the identifier is that of a role.
    pub fn is_role(self) -> (r: bool)
        ensures
            r == (self is Role),
    {
        matches!(self, Self::Role(_))
    }
}

impl From<UserId> for CommandPermissionId {
    fn from(id: UserId) -> (r: Self) {
        CommandPermissionId::User(id)
    }
}

impl vstd::std_specs::convert::FromSpecImpl<UserId> for CommandPermissionId {
    open spec fn obeys_from_spec() -> bool {
        true
    }

    open spec fn from_spec(id: UserId) -> Self {
        CommandPermissionId::User(id)
    }
}

impl From<RoleId> for CommandPermissionId {
    fn from(id: RoleId) -> (r: Self) {
        CommandPermissionId::Role(id)
    }
}

impl vstd::std_specs::convert::FromSpecImpl<RoleId> for CommandPermissionId {
    open spec fn obeys_from_spec() -> bool {
        true
    }

    open spec fn from_spec(id: RoleId) -> Self {
        CommandPermissionId::Role(id)
    }
}

/// The one a permission on a command is for as it travels: the number of the identifier, and beside it a
/// number that says which kind it is of.
#[derive(Debug, Clone, Copy, Eq, PartialEq, Hash)]
pub struct CmdPermIdHelper {
    pub id: AnyId,
    pub kind: u64,
}

impl CmdPermIdHelper {
    /// The identifier that the pair stands for; none where `kind` is no
    /// number that a kind travels as.
    pub open spec fn spec_id(self) -> Option<CommandPermissionId> {
        if self.kind == 1 {
            Some(CommandPermissionId::Role(Id::of(self.id.value())))
        } else if self.kind == 2 {
            Some(CommandPermissionId::User(Id::of(self.id.value())))
        } else {
            None
        }
    }

    /// The identifier that the pair stands for; none where `kind` is no
    /// number that a kind travels as.
    pub fn try_into_id(self) -> (r: Option<CommandPermissionId>)
        ensures
            r == self.spec_id(),
    {
        if self.kind == 1 {
            Some(CommandPermissionId::Role(self.id.into()))
        } else if self.kind == 2 {
            Some(CommandPermissionId::User(self.id.into()))
        } else {
            None
        }
    }

    /// The identifier that the pair stands for. Only for a pair whose
    /// `kind` is known to be one of the two.
    pub fn into_id(self) -> (r: CommandPermissionId)
        requires
            self.kind == 1 || self.kind == 2,
        ensures
            Some(r) == self.spec_id(),
    {
        if self.kind == 1 {
            CommandPermissionId::Role(self.id.into())
        } else {
            CommandPermissionId::User(self.id.into())
        }
    }
}

impl From<CommandPermissionId> for CmdPermIdHelper {
    fn from(id: CommandPermissionId) -> (r: Self) {
        match id {
            CommandPermissionId::Role(i) => CmdPermIdHelper { id: i.into(), kind: 1 },
            CommandPermissionId::User(i) => CmdPermIdHelper { id: i.into(), kind: 2 },
        }
    }
}

impl vstd::std_specs::convert::FromSpecImpl<CommandPermissionId> for CmdPermIdHelper {
    open spec fn obeys_from_spec() -> bool {
        true
    }

    open spec fn from_spec(id: CommandPermissionId) -> Self {
        match id {
            CommandPermissionId::Role(i) => CmdPermIdHelper { id: AnyId::of(i.value()), kind: 1 },
            CommandPermissionId::User(i) => CmdPermIdHelper { id: AnyId::of(i.value()), kind: 2 },
        }
    }
}

/// An identifier that is written as a pair and read again is the same
/// identifier.
pub proof fn lemma_cmd_perm_id_helper_round_trip(id: CommandPermissionId)
    ensures
        <CmdPermIdHelper as vstd::std_specs::convert::FromSpec<CommandPermissionId>>::from_spec(id).spec_id()
            == Some(id),
{
    broadcast use {Id::lemma_value_of, AnyId::lemma_of_value};

}

/// Whether a role or a user may use a command.
#[derive(Debug, Clone)]
pub struct ApplicationCommandPermission {
    pub id: CommandPermissionId,
    pub permission: bool,
}

impl ApplicationCommandPermission {
    /// A new value made of its parts.
    pub fn new(id: CommandPermissionId, permission: bool) -> (r: Self)
        ensures
            r == (ApplicationCommandPermission {
                id,
                permission,
            }),
    {
        ApplicationCommandPermission {
            id,
            permission,
        }
    }

    pub fn id(&self) -> (r: CommandPermissionId)
        ensures
            r == self.id,
    {
        self.id
    }

    pub fn permission(&self) -> (r: bool)
        ensures
            r == self.permission,
    {
        self.permission
    }
}

} // verus!
