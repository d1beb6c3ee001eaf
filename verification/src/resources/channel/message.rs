//! Messages and what comes with them.

use vstd::prelude::*;
use core::str::FromStr;

use crate::borrow::{
    opt_boxed, opt_ref, opt_slice, opt_str, same_boxed, same_items, same_text, same_value,
};
use crate::emoji::Emoji;
use crate::entity;
use crate::enums::{
    EnumFromIntegerError, Inner, IntegerEnum, ParseEnumError, ReadWireString, StringEnum,
    WireInteger, WireString,
};
use crate::flags::{spec_from_bits, Flags};
use crate::permissions::RoleId;
use crate::resources::application::{Application, ApplicationId};
use crate::resources::channel::{Channel, ChannelId, ChannelKind, Embed};
use crate::resources::guild::{GuildId, GuildMember};
use crate::resources::user::{User, UserId};
use crate::resources::webhook::WebhookId;
use crate::snowflake::Id;
use crate::text::str_eq;
use crate::time::DateTime;

verus! {

/// The identifier of an attachment.
pub type AttachmentId = Id<entity::Attachment>;

/// A file that came with a message.
#[derive(Debug, Clone)]
pub struct Attachment {
    pub id: AttachmentId,
    pub filename: String,
    pub content_type: Option<String>,
    pub size: u64,
    pub url: String,
    pub proxy_url: String,
    pub height: Option<u64>,
    pub width: Option<u64>,
}

impl Attachment {
    pub fn id(&self) -> (r: AttachmentId)
        ensures
            r == self.id,
    {
        self.id
    }

    pub fn filename(&self) -> (r: &str)
        ensures
            r@ == self.filename@,
    {
        self.filename.as_str()
    }

    pub fn content_type(&self) -> (r: Option<&str>)
        ensures
            same_text(r, self.content_type),
    {
        opt_str(&self.content_type)
    }

    pub fn size(&self) -> (r: u64)
        ensures
            r == self.size,
    {
        self.size
    }

    pub fn url(&self) -> (r: &str)
        ensures
            r@ == self.url@,
    {
        self.url.as_str()
    }

    pub fn proxy_url(&self) -> (r: &str)
        ensures
            r@ == self.proxy_url@,
    {
        self.proxy_url.as_str()
    }

    pub fn height(&self) -> (r: Option<u64>)
        ensures
            r == self.height,
    {
        self.height
    }
}

/// A user whom a message names.
#[derive(Debug, Clone)]
pub struct Mention {
    pub user: User,
    pub member: Option<GuildMember>,
}

impl Mention {
    pub fn user(&self) -> (r: &User)
        ensures
            *r == self.user,
    {
        &self.user
    }

    pub fn member(&self) -> (r: Option<&GuildMember>)
        ensures
            same_value(r, self.member),
    {
        opt_ref(&self.member)
    }
}

/// What the sender put on a message to know it again: a number or text.
#[derive(Debug, Clone)]
pub enum Nonce {
    Integer(u64),
    String(String),
}

/// What a message is: one that a user wrote, or a notice of something that
/// happened.
#[derive(Debug, Clone, Copy, Eq, PartialEq, Hash, Structural)]
pub enum MessageKind {
    Default,
    RecipientAdd,
    RecipientRemove,
    Call,
    ChannelNameChange,
    ChannelIconChange,
    ChannelPinnedMessage,
    GuildMemberJoin,
    UserPremiumGuildSubscription,
    UserPremiumGuildSubscriptionTier1,
    UserPremiumGuildSubscriptionTier2,
    UserPremiumGuildSubscriptionTier3,
    ChannelFollowAdd,
    GuildDiscoveryDisqualified,
    GuildDiscoveryRequalified,
    GuildDiscoveryGracePeriodInitialWarning,
    GuildDiscoveryGracePeriodFinalWarning,
    ThreadCreated,
    Reply,
    ApplicationCommand,
    ThreadStarterMessage,
    GuildInviteReminder,
}

impl WireInteger for MessageKind {
    open spec fn valid(self) -> bool {
        true
    }

    open spec fn code(self) -> u64 {
        match self {
            MessageKind::Default => 0,
            MessageKind::RecipientAdd => 1,
            MessageKind::RecipientRemove => 2,
            MessageKind::Call => 3,
            MessageKind::ChannelNameChange => 4,
            MessageKind::ChannelIconChange => 5,
            MessageKind::ChannelPinnedMessage => 6,
            MessageKind::GuildMemberJoin => 7,
            MessageKind::UserPremiumGuildSubscription => 8,
            MessageKind::UserPremiumGuildSubscriptionTier1 => 9,
            MessageKind::UserPremiumGuildSubscriptionTier2 => 10,
            MessageKind::UserPremiumGuildSubscriptionTier3 => 11,
            MessageKind::ChannelFollowAdd => 12,
            MessageKind::GuildDiscoveryDisqualified => 14,
            MessageKind::GuildDiscoveryRequalified => 15,
            MessageKind::GuildDiscoveryGracePeriodInitialWarning => 16,
            MessageKind::GuildDiscoveryGracePeriodFinalWarning => 17,
            MessageKind::ThreadCreated => 18,
            MessageKind::Reply => 19,
            MessageKind::ApplicationCommand => 20,
            MessageKind::ThreadStarterMessage => 21,
            MessageKind::GuildInviteReminder => 22,
        }
    }

    open spec fn of_code(raw: u64) -> Option<Self> {
        if raw == 0 {
            Some(MessageKind::Default)
        } else if raw == 1 {
            Some(MessageKind::RecipientAdd)
        } else if raw == 2 {
            Some(MessageKind::RecipientRemove)
        } else if raw == 3 {
            Some(MessageKind::Call)
        } else if raw == 4 {
            Some(MessageKind::ChannelNameChange)
        } else if raw == 5 {
            Some(MessageKind::ChannelIconChange)
        } else if raw == 6 {
            Some(MessageKind::ChannelPinnedMessage)
        } else if raw == 7 {
            Some(MessageKind::GuildMemberJoin)
        } else if raw == 8 {
            Some(MessageKind::UserPremiumGuildSubscription)
        } else if raw == 9 {
            Some(MessageKind::UserPremiumGuildSubscriptionTier1)
        } else if raw == 10 {
            Some(MessageKind::UserPremiumGuildSubscriptionTier2)
        } else if raw == 11 {
            Some(MessageKind::UserPremiumGuildSubscriptionTier3)
        } else if raw == 12 {
            Some(MessageKind::ChannelFollowAdd)
        } else if raw == 14 {
            Some(MessageKind::GuildDiscoveryDisqualified)
        } else if raw == 15 {
            Some(MessageKind::GuildDiscoveryRequalified)
        } else if raw == 16 {
            Some(MessageKind::GuildDiscoveryGracePeriodInitialWarning)
        } else if raw == 17 {
            Some(MessageKind::GuildDiscoveryGracePeriodFinalWarning)
        } else if raw == 18 {
            Some(MessageKind::ThreadCreated)
        } else if raw == 19 {
            Some(MessageKind::Reply)
        } else if raw == 20 {
            Some(MessageKind::ApplicationCommand)
        } else if raw == 21 {
            Some(MessageKind::ThreadStarterMessage)
        } else if raw == 22 {
            Some(MessageKind::GuildInviteReminder)
        } else {
            None
        }
    }

    proof fn lemma_code_is_read_back(self) {
    }

    proof fn lemma_of_code_is_exact(raw: u64) {
    }

    fn to_wire(self) -> (raw: u64) {
        match self {
            MessageKind::Default => 0,
            MessageKind::RecipientAdd => 1,
            MessageKind::RecipientRemove => 2,
            MessageKind::Call => 3,
            MessageKind::ChannelNameChange => 4,
            MessageKind::ChannelIconChange => 5,
            MessageKind::ChannelPinnedMessage => 6,
            MessageKind::GuildMemberJoin => 7,
            MessageKind::UserPremiumGuildSubscription => 8,
            MessageKind::UserPremiumGuildSubscriptionTier1 => 9,
            MessageKind::UserPremiumGuildSubscriptionTier2 => 10,
            MessageKind::UserPremiumGuildSubscriptionTier3 => 11,
            MessageKind::ChannelFollowAdd => 12,
            MessageKind::GuildDiscoveryDisqualified => 14,
            MessageKind::GuildDiscoveryRequalified => 15,
            MessageKind::GuildDiscoveryGracePeriodInitialWarning => 16,
            MessageKind::GuildDiscoveryGracePeriodFinalWarning => 17,
            MessageKind::ThreadCreated => 18,
            MessageKind::Reply => 19,
            MessageKind::ApplicationCommand => 20,
            MessageKind::ThreadStarterMessage => 21,
            MessageKind::GuildInviteReminder => 22,
        }
    }

    fn from_wire(raw: u64) -> (r: Option<Self>) {
        match raw {
            0 => Some(MessageKind::Default),
            1 => Some(MessageKind::RecipientAdd),
            2 => Some(MessageKind::RecipientRemove),
            3 => Some(MessageKind::Call),
            4 => Some(MessageKind::ChannelNameChange),
            5 => Some(MessageKind::ChannelIconChange),
            6 => Some(MessageKind::ChannelPinnedMessage),
            7 => Some(MessageKind::GuildMemberJoin),
            8 => Some(MessageKind::UserPremiumGuildSubscription),
            9 => Some(MessageKind::UserPremiumGuildSubscriptionTier1),
            10 => Some(MessageKind::UserPremiumGuildSubscriptionTier2),
            11 => Some(MessageKind::UserPremiumGuildSubscriptionTier3),
            12 => Some(MessageKind::ChannelFollowAdd),
            14 => Some(MessageKind::GuildDiscoveryDisqualified),
            15 => Some(MessageKind::GuildDiscoveryRequalified),
            16 => Some(MessageKind::GuildDiscoveryGracePeriodInitialWarning),
            17 => Some(MessageKind::GuildDiscoveryGracePeriodFinalWarning),
            18 => Some(MessageKind::ThreadCreated),
            19 => Some(MessageKind::Reply),
            20 => Some(MessageKind::ApplicationCommand),
            21 => Some(MessageKind::ThreadStarterMessage),
            22 => Some(MessageKind::GuildInviteReminder),
            _ => None,
        }
    }
}

impl From<MessageKind> for u64 {
    fn from(u: MessageKind) -> (r: u64) {
        u.to_wire()
    }
}

impl vstd::std_specs::convert::FromSpecImpl<MessageKind> for u64 {
    open spec fn obeys_from_spec() -> bool {
        true
    }

    open spec fn from_spec(u: MessageKind) -> u64 {
        u.code()
    }
}

impl TryFrom<u64> for MessageKind {
    type Error = EnumFromIntegerError;

    fn try_from(u: u64) -> (r: Result<Self, EnumFromIntegerError>) {
        match Self::from_wire(u) {
            Some(v) => Ok(v),
            None => Err(EnumFromIntegerError::new(u)),
        }
    }
}

impl vstd::std_specs::convert::TryFromSpecImpl<u64> for MessageKind {
    open spec fn obeys_try_from_spec() -> bool {
        true
    }

    open spec fn try_from_spec(u: u64) -> Result<Self, EnumFromIntegerError> {
        match Self::of_code(u) {
            Some(v) => Ok(v),
            None => Err(EnumFromIntegerError { raw: u }),
        }
    }
}

/// A channel that a message names.
#[derive(Debug, Clone)]
pub struct ChannelMention {
    pub id: ChannelId,
    pub guild_id: GuildId,
    pub kind: IntegerEnum<ChannelKind>,
    pub name: String,
}

impl ChannelMention {
    pub fn id(&self) -> (r: ChannelId)
        ensures
            r == self.id,
    {
        self.id
    }

    pub fn guild_id(&self) -> (r: GuildId)
        ensures
            r == self.guild_id,
    {
        self.guild_id
    }

    pub fn try_kind(&self) -> (r: Result<ChannelKind, EnumFromIntegerError>)
        ensures
            r == self.kind.spec_try_unwrap(),
    {
        self.kind.try_unwrap()
    }

    pub fn kind(&self) -> (r: ChannelKind)
        requires
            self.kind.0 is Parsed,
        ensures
            self.kind.0 == Inner::<ChannelKind, u64>::Parsed(r),
    {
        self.kind.unwrap()
    }

    pub fn name(&self) -> (r: &str)
        ensures
            r@ == self.name@,
    {
        self.name.as_str()
    }
}

/// What has been done with a message and how it is shown.
#[derive(Debug, Clone, Copy, PartialEq, Eq, Structural, PartialOrd, Ord, Hash)]
pub struct MessageFlags {
    bits: u64,
}

impl MessageFlags {
    pub const CROSSPOSTED: u64 = 1 << 0;
    pub const IS_CROSSPOST: u64 = 1 << 1;
    pub const SUPRESS_EMBEDS: u64 = 1 << 2;
    pub const SOURCE_MESSAGE_DELETED: u64 = 1 << 3;
    pub const URGENT: u64 = 1 << 4;
    pub const HAS_THREAD: u64 = 1 << 5;
    pub const EPHEMERAL: u64 = 1 << 6;
    pub const LOADING: u64 = 1 << 7;

    /// Every flag that has a name.
    pub const ALL: u64 = Self::CROSSPOSTED
        | Self::IS_CROSSPOST
        | Self::SUPRESS_EMBEDS
        | Self::SOURCE_MESSAGE_DELETED
        | Self::URGENT
        | Self::HAS_THREAD
        | Self::EPHEMERAL
        | Self::LOADING;

    /// The set that holds the flags `bits`.
    pub closed spec fn of(bits: u64) -> Self {
        MessageFlags { bits }
    }

    /// The flags that the set holds.
    pub closed spec fn flags(self) -> u64 {
        self.bits
    }

    /// A set is the flags it was made of, and nothing more.
    pub broadcast proof fn lemma_of_flags(bits: u64)
        ensures
            #[trigger] Self::of(bits).flags() == bits,
    {
    }

    /// A set is made of its flags alone.
    pub broadcast proof fn lemma_flags_of(self)
        ensures
            #[trigger] Self::of(self.flags()) == self,
    {
    }
}

impl Flags for MessageFlags {
    open spec fn bits_of(self) -> u64 {
        self.flags()
    }

    open spec fn with_bits(bits: u64) -> Self {
        Self::of(bits)
    }

    open spec fn named() -> u64 {
        Self::ALL
    }

    proof fn lemma_with_bits(bits: u64) {
    }

    proof fn lemma_bits_are_all(self) {
    }

    fn named_bits() -> (r: u64) {
        Self::ALL
    }

    fn bits(&self) -> (r: u64) {
        self.bits
    }

    fn from_bits_truncate(bits: u64) -> (r: Self) {
        MessageFlags { bits: bits & Self::ALL }
    }
}

impl core::ops::BitOr for MessageFlags {
    type Output = MessageFlags;

    fn bitor(self, other: MessageFlags) -> (r: MessageFlags) {
        MessageFlags { bits: self.bits | other.bits }
    }
}

impl vstd::std_specs::ops::BitOrSpecImpl for MessageFlags {
    open spec fn obeys_bitor_spec() -> bool {
        true
    }

    open spec fn bitor_req(self, other: MessageFlags) -> bool {
        true
    }

    open spec fn bitor_spec(self, other: MessageFlags) -> MessageFlags {
        Self::of(self.flags() | other.flags())
    }
}

impl core::ops::BitAnd for MessageFlags {
    type Output = MessageFlags;

    fn bitand(self, other: MessageFlags) -> (r: MessageFlags) {
        MessageFlags { bits: self.bits & other.bits }
    }
}

impl vstd::std_specs::ops::BitAndSpecImpl for MessageFlags {
    open spec fn obeys_bitand_spec() -> bool {
        true
    }

    open spec fn bitand_req(self, other: MessageFlags) -> bool {
        true
    }

    open spec fn bitand_spec(self, other: MessageFlags) -> MessageFlags {
        Self::of(self.flags() & other.flags())
    }
}

impl core::ops::BitXor for MessageFlags {
    type Output = MessageFlags;

    fn bitxor(self, other: MessageFlags) -> (r: MessageFlags) {
        MessageFlags { bits: self.bits ^ other.bits }
    }
}

impl vstd::std_specs::ops::BitXorSpecImpl for MessageFlags {
    open spec fn obeys_bitxor_spec() -> bool {
        true
    }

    open spec fn bitxor_req(self, other: MessageFlags) -> bool {
        true
    }

    open spec fn bitxor_spec(self, other: MessageFlags) -> MessageFlags {
        Self::of(self.flags() ^ other.flags())
    }
}

impl core::ops::Not for MessageFlags {
    type Output = MessageFlags;

    fn not(self) -> (r: MessageFlags) {
        MessageFlags { bits: !self.bits & Self::ALL }
    }
}

impl vstd::std_specs::ops::NotSpecImpl for MessageFlags {
    open spec fn obeys_not_spec() -> bool {
        true
    }

    open spec fn not_req(self) -> bool {
        true
    }

    open spec fn not_spec(self) -> MessageFlags {
        Self::of(!self.flags() & Self::ALL)
    }
}

impl From<MessageFlags> for u64 {
    fn from(f: MessageFlags) -> (r: u64) {
        f.bits
    }
}

impl vstd::std_specs::convert::FromSpecImpl<MessageFlags> for u64 {
    open spec fn obeys_from_spec() -> bool {
        true
    }

    open spec fn from_spec(f: MessageFlags) -> u64 {
        f.flags()
    }
}

impl TryFrom<u64> for MessageFlags {
    type Error = EnumFromIntegerError;

    fn try_from(u: u64) -> (r: Result<Self, EnumFromIntegerError>) {
        if u & !Self::ALL == 0 {
            Ok(MessageFlags { bits: u })
        } else {
            Err(EnumFromIntegerError::new(u))
        }
    }
}

impl vstd::std_specs::convert::TryFromSpecImpl<u64> for MessageFlags {
    open spec fn obeys_try_from_spec() -> bool {
        true
    }

    open spec fn try_from_spec(u: u64) -> Result<Self, EnumFromIntegerError> {
        match spec_from_bits::<Self>(u) {
            Some(f) => Ok(f),
            None => Err(EnumFromIntegerError { raw: u }),
        }
    }
}

impl WireInteger for MessageFlags {
    open spec fn valid(self) -> bool {
        self.flags() & !Self::ALL == 0
    }

    open spec fn code(self) -> u64 {
        self.flags()
    }

    open spec fn of_code(raw: u64) -> Option<Self> {
        spec_from_bits::<Self>(raw)
    }

    proof fn lemma_code_is_read_back(self) {
    }

    proof fn lemma_of_code_is_exact(raw: u64) {
    }

    fn to_wire(self) -> (raw: u64) {
        self.bits
    }

    fn from_wire(raw: u64) -> (r: Option<Self>) {
        if raw & !Self::ALL == 0 {
            Some(MessageFlags { bits: raw })
        } else {
            None
        }
    }
}

/// The identifier of a message.
pub type MessageId = Id<entity::Message>;

/// A message in a channel.
#[derive(Debug)]
pub struct Message {
    pub id: MessageId,
    pub channel_id: ChannelId,
    pub guild_id: Option<GuildId>,
    pub author: Option<User>,
    pub member: Option<GuildMember>,
    pub content: String,
    pub timestamp: DateTime,
    pub edited_timestamp: Option<DateTime>,
    pub tts: bool,
    pub mention_everyone: bool,
    pub mentions: Vec<Mention>,
    pub mention_roles: Vec<RoleId>,
    pub mention_channels: Option<Vec<ChannelMention>>,
    pub attachments: Vec<Attachment>,
    pub embeds: Vec<Embed>,
    pub reactions: Option<Vec<Reaction>>,
    pub nonce: Option<Nonce>,
    pub pinned: bool,
    pub webhook_id: Option<WebhookId>,
    pub kind: IntegerEnum<MessageKind>,
    pub activity: Option<MessageActivity>,
    pub application: Option<Application>,
    pub application_id: Option<ApplicationId>,
    pub message_reference: Option<MessageReference>,
    pub flags: Option<IntegerEnum<MessageFlags>>,
    pub stickers: Option<Vec<Sticker>>,
    pub referenced_message: Option<Box<Message>>,
    pub interaction: Option<MessageInteraction>,
    pub thread: Option<Channel>,
}

impl Message {
    pub fn id(&self) -> (r: MessageId)
        ensures
            r == self.id,
    {
        self.id
    }

    pub fn channel_id(&self) -> (r: ChannelId)
        ensures
            r == self.channel_id,
    {
        self.channel_id
    }

    pub fn guild_id(&self) -> (r: Option<GuildId>)
        ensures
            r == self.guild_id,
    {
        self.guild_id
    }

    pub fn author(&self) -> (r: Option<&User>)
        ensures
            same_value(r, self.author),
    {
        opt_ref(&self.author)
    }

    pub fn member(&self) -> (r: Option<&GuildMember>)
        ensures
            same_value(r, self.member),
    {
        opt_ref(&self.member)
    }

    pub fn content(&self) -> (r: &str)
        ensures
            r@ == self.content@,
    {
        self.content.as_str()
    }

    pub fn timestamp(&self) -> (r: DateTime)
        ensures
            r == self.timestamp,
    {
        self.timestamp
    }

    pub fn edited_timestamp(&self) -> (r: Option<DateTime>)
        ensures
            r == self.edited_timestamp,
    {
        self.edited_timestamp
    }

    pub fn tts(&self) -> (r: bool)
        ensures
            r == self.tts,
    {
        self.tts
    }

    pub fn mention_everyone(&self) -> (r: bool)
        ensures
            r == self.mention_everyone,
    {
        self.mention_everyone
    }

    pub fn mentions(&self) -> (r: &[Mention])
        ensures
            r@ == self.mentions@,
    {
        self.mentions.as_slice()
    }

    pub fn mention_roles(&self) -> (r: &[RoleId])
        ensures
            r@ == self.mention_roles@,
    {
        self.mention_roles.as_slice()
    }

    pub fn mention_channels(&self) -> (r: Option<&[ChannelMention]>)
        ensures
            same_items(r, self.mention_channels),
    {
        opt_slice(&self.mention_channels)
    }

    pub fn attachments(&self) -> (r: &[Attachment])
        ensures
            r@ == self.attachments@,
    {
        self.attachments.as_slice()
    }

    pub fn embeds(&self) -> (r: &[Embed])
        ensures
            r@ == self.embeds@,
    {
        self.embeds.as_slice()
    }

    pub fn reactions(&self) -> (r: Option<&[Reaction]>)
        ensures
            same_items(r, self.reactions),
    {
        opt_slice(&self.reactions)
    }

    pub fn nonce(&self) -> (r: Option<&Nonce>)
        ensures
            same_value(r, self.nonce),
    {
        opt_ref(&self.nonce)
    }

    pub fn pinned(&self) -> (r: bool)
        ensures
            r == self.pinned,
    {
        self.pinned
    }

    pub fn webhook_id(&self) -> (r: Option<WebhookId>)
        ensures
            r == self.webhook_id,
    {
        self.webhook_id
    }

    pub fn try_kind(&self) -> (r: Result<MessageKind, EnumFromIntegerError>)
        ensures
            r == self.kind.spec_try_unwrap(),
    {
        self.kind.try_unwrap()
    }

    pub fn kind(&self) -> (r: MessageKind)
        requires
            self.kind.0 is Parsed,
        ensures
            self.kind.0 == Inner::<MessageKind, u64>::Parsed(r),
    {
        self.kind.unwrap()
    }

    pub fn activity(&self) -> (r: Option<&MessageActivity>)
        ensures
            same_value(r, self.activity),
    {
        opt_ref(&self.activity)
    }

    pub fn application(&self) -> (r: Option<&Application>)
        ensures
            same_value(r, self.application),
    {
        opt_ref(&self.application)
    }

    pub fn application_id(&self) -> (r: Option<ApplicationId>)
        ensures
            r == self.application_id,
    {
        self.application_id
    }

    pub fn message_reference(&self) -> (r: Option<&MessageReference>)
        ensures
            same_value(r, self.message_reference),
    {
        opt_ref(&self.message_reference)
    }

    pub fn try_flags(&self) -> (r: Option<Result<MessageFlags, EnumFromIntegerError>>)
        ensures
            r == match self.flags {
                Some(e) => Some(e.spec_try_unwrap()),
                None => None,
            },
    {
        match self.flags {
            Some(e) => Some(e.try_unwrap()),
            None => None,
        }
    }

    pub fn flags(&self) -> (r: Option<MessageFlags>)
        requires
            self.flags matches Some(e) ==> e.0 is Parsed,
        ensures
            r == match self.flags {
                Some(e) => Some(e.0->Parsed_0),
                None => None,
            },
    {
        match self.flags {
            Some(e) => Some(e.unwrap()),
            None => None,
        }
    }

    pub fn stickers(&self) -> (r: Option<&[Sticker]>)
        ensures
            same_items(r, self.stickers),
    {
        opt_slice(&self.stickers)
    }

    pub fn referenced_message(&self) -> (r: Option<&Message>)
        ensures
            same_boxed(r, self.referenced_message),
    {
        opt_boxed(&self.referenced_message)
    }

    pub fn interaction(&self) -> (r: Option<&MessageInteraction>)
        ensures
            same_value(r, self.interaction),
    {
        opt_ref(&self.interaction)
    }

    pub fn thread(&self) -> (r: Option<&Channel>)
        ensures
            same_value(r, self.thread),
    {
        opt_ref(&self.thread)
    }
}

impl Clone for Message {
    fn clone(&self) -> (r: Self)
        decreases self,
    {
        let referenced_message = match &self.referenced_message {
            Some(b) => Some(Box::new((**b).clone())),
            None => None,
        };
        Message {
            id: self.id.clone(),
            channel_id: self.channel_id.clone(),
            guild_id: self.guild_id.clone(),
            author: self.author.clone(),
            member: self.member.clone(),
            content: self.content.clone(),
            timestamp: self.timestamp.clone(),
            edited_timestamp: self.edited_timestamp.clone(),
            tts: self.tts.clone(),
            mention_everyone: self.mention_everyone.clone(),
            mentions: self.mentions.clone(),
            mention_roles: self.mention_roles.clone(),
            mention_channels: self.mention_channels.clone(),
            attachments: self.attachments.clone(),
            embeds: self.embeds.clone(),
            reactions: self.reactions.clone(),
            nonce: self.nonce.clone(),
            pinned: self.pinned.clone(),
            webhook_id: self.webhook_id.clone(),
            kind: self.kind.clone(),
            activity: self.activity.clone(),
            application: self.application.clone(),
            application_id: self.application_id.clone(),
            message_reference: self.message_reference.clone(),
            flags: self.flags.clone(),
            stickers: self.stickers.clone(),
            referenced_message,
            interaction: self.interaction.clone(),
            thread: self.thread.clone(),
        }
    }
}

/// What a message invites to.
#[derive(Debug, Clone, Eq, PartialEq, Hash, Copy, Structural)]
pub enum MessageActivityKind {
    Join,
    Spectate,
    Listen,
    JoinRequest,
}

impl WireInteger for MessageActivityKind {
    open spec fn valid(self) -> bool {
        true
    }

    open spec fn code(self) -> u64 {
        match self {
            MessageActivityKind::Join => 1,
            MessageActivityKind::Spectate => 2,
            MessageActivityKind::Listen => 3,
            MessageActivityKind::JoinRequest => 5,
        }
    }

    open spec fn of_code(raw: u64) -> Option<Self> {
        if raw == 1 {
            Some(MessageActivityKind::Join)
        } else if raw == 2 {
            Some(MessageActivityKind::Spectate)
        } else if raw == 3 {
            Some(MessageActivityKind::Listen)
        } else if raw == 5 {
            Some(MessageActivityKind::JoinRequest)
        } else {
            None
        }
    }

    proof fn lemma_code_is_read_back(self) {
    }

    proof fn lemma_of_code_is_exact(raw: u64) {
    }

    fn to_wire(self) -> (raw: u64) {
        match self {
            MessageActivityKind::Join => 1,
            MessageActivityKind::Spectate => 2,
            MessageActivityKind::Listen => 3,
            MessageActivityKind::JoinRequest => 5,
        }
    }

    fn from_wire(raw: u64) -> (r: Option<Self>) {
        match raw {
            1 => Some(MessageActivityKind::Join),
            2 => Some(MessageActivityKind::Spectate),
            3 => Some(MessageActivityKind::Listen),
            5 => Some(MessageActivityKind::JoinRequest),
            _ => None,
        }
    }
}

impl From<MessageActivityKind> for u64 {
    fn from(u: MessageActivityKind) -> (r: u64) {
        u.to_wire()
    }
}

impl vstd::std_specs::convert::FromSpecImpl<MessageActivityKind> for u64 {
    open spec fn obeys_from_spec() -> bool {
        true
    }

    open spec fn from_spec(u: MessageActivityKind) -> u64 {
        u.code()
    }
}

impl TryFrom<u64> for MessageActivityKind {
    type Error = EnumFromIntegerError;

    fn try_from(u: u64) -> (r: Result<Self, EnumFromIntegerError>) {
        match Self::from_wire(u) {
            Some(v) => Ok(v),
            None => Err(EnumFromIntegerError::new(u)),
        }
    }
}

impl vstd::std_specs::convert::TryFromSpecImpl<u64> for MessageActivityKind {
    open spec fn obeys_try_from_spec() -> bool {
        true
    }

    open spec fn try_from_spec(u: u64) -> Result<Self, EnumFromIntegerError> {
        match Self::of_code(u) {
            Some(v) => Ok(v),
            None => Err(EnumFromIntegerError { raw: u }),
        }
    }
}

/// An invitation, sent with a message, to join in what the sender does.
#[derive(Debug, Clone)]
pub struct MessageActivity {
    pub kind: IntegerEnum<MessageActivityKind>,
    pub party_id: Option<String>,
}

impl MessageActivity {
    pub fn try_kind(&self) -> (r: Result<MessageActivityKind, EnumFromIntegerError>)
        ensures
            r == self.kind.spec_try_unwrap(),
    {
        self.kind.try_unwrap()
    }

    pub fn kind(&self) -> (r: MessageActivityKind)
        requires
            self.kind.0 is Parsed,
        ensures
            self.kind.0 == Inner::<MessageActivityKind, u64>::Parsed(r),
    {
        self.kind.unwrap()
    }

    pub fn party_id(&self) -> (r: Option<&str>)
        ensures
            same_text(r, self.party_id),
    {
        opt_str(&self.party_id)
    }
}

/// The message that a message answers, or was carried over from.
#[derive(Debug, Clone)]
pub struct MessageReference {
    pub message_id: Option<MessageId>,
    pub channel_id: Option<ChannelId>,
    pub guild_id: Option<GuildId>,
    pub fail_if_not_exist: Option<bool>,
}

impl MessageReference {
    pub fn message_id(&self) -> (r: Option<MessageId>)
        ensures
            r == self.message_id,
    {
        self.message_id
    }

    pub fn channel_id(&self) -> (r: Option<ChannelId>)
        ensures
            r == self.channel_id,
    {
        self.channel_id
    }

    pub fn guild_id(&self) -> (r: Option<GuildId>)
        ensures
            r == self.guild_id,
    {
        self.guild_id
    }

    pub fn fail_if_not_exist(&self) -> (r: Option<bool>)
        ensures
            r == self.fail_if_not_exist,
    {
        self.fail_if_not_exist
    }
}

/// How an application was called on.
#[derive(Debug, Clone, Copy, Eq, PartialEq, Hash, Structural)]
pub enum InteractionKind {
    Ping,
    ApplicationCommand,
}

impl WireInteger for InteractionKind {
    open spec fn valid(self) -> bool {
        true
    }

    open spec fn code(self) -> u64 {
        match self {
            InteractionKind::Ping => 1,
            InteractionKind::ApplicationCommand => 2,
        }
    }

    open spec fn of_code(raw: u64) -> Option<Self> {
        if raw == 1 {
            Some(InteractionKind::Ping)
        } else if raw == 2 {
            Some(InteractionKind::ApplicationCommand)
        } else {
            None
        }
    }

    proof fn lemma_code_is_read_back(self) {
    }

    proof fn lemma_of_code_is_exact(raw: u64) {
    }

    fn to_wire(self) -> (raw: u64) {
        match self {
            InteractionKind::Ping => 1,
            InteractionKind::ApplicationCommand => 2,
        }
    }

    fn from_wire(raw: u64) -> (r: Option<Self>) {
        match raw {
            1 => Some(InteractionKind::Ping),
            2 => Some(InteractionKind::ApplicationCommand),
            _ => None,
        }
    }
}

impl From<InteractionKind> for u64 {
    fn from(u: InteractionKind) -> (r: u64) {
        u.to_wire()
    }
}

impl vstd::std_specs::convert::FromSpecImpl<InteractionKind> for u64 {
    open spec fn obeys_from_spec() -> bool {
        true
    }

    open spec fn from_spec(u: InteractionKind) -> u64 {
        u.code()
    }
}

impl TryFrom<u64> for InteractionKind {
    type Error = EnumFromIntegerError;

    fn try_from(u: u64) -> (r: Result<Self, EnumFromIntegerError>) {
        match Self::from_wire(u) {
            Some(v) => Ok(v),
            None => Err(EnumFromIntegerError::new(u)),
        }
    }
}

impl vstd::std_specs::convert::TryFromSpecImpl<u64> for InteractionKind {
    open spec fn obeys_try_from_spec() -> bool {
        true
    }

    open spec fn try_from_spec(u: u64) -> Result<Self, EnumFromIntegerError> {
        match Self::of_code(u) {
            Some(v) => Ok(v),
            None => Err(EnumFromIntegerError { raw: u }),
        }
    }
}

/// The identifier of the use of a command.
pub type MessageInteractionId = Id<entity::MessageInteraction>;

/// The use of a command that a message answers.
#[derive(Debug, Clone)]
pub struct MessageInteraction {
    pub id: MessageInteractionId,
    pub kind: IntegerEnum<InteractionKind>,
    pub name: String,
    pub user: User,
}

impl MessageInteraction {
    pub fn id(&self) -> (r: MessageInteractionId)
        ensures
            r == self.id,
    {
        self.id
    }

    pub fn try_kind(&self) -> (r: Result<InteractionKind, EnumFromIntegerError>)
        ensures
            r == self.kind.spec_try_unwrap(),
    {
        self.kind.try_unwrap()
    }

    pub fn kind(&self) -> (r: InteractionKind)
        requires
            self.kind.0 is Parsed,
        ensures
            self.kind.0 == Inner::<InteractionKind, u64>::Parsed(r),
    {
        self.kind.unwrap()
    }

    pub fn name(&self) -> (r: &str)
        ensures
            r@ == self.name@,
    {
        self.name.as_str()
    }

    pub fn user(&self) -> (r: &User)
        ensures
            *r == self.user,
    {
        &self.user
    }
}

/// The identifier of a sticker.
pub type StickerId = Id<entity::Sticker>;

/// The identifier of a pack of stickers.
pub type StickerPackId = Id<StickerPack>;

/// The kind of thing that the identifier of a pack of stickers names. No
/// value of it is ever made.
#[derive(Debug, Clone, Copy, PartialEq, Eq, PartialOrd, Ord, Hash)]
pub struct StickerPack {
    _p: (),
}

/// A sticker sent with a message.
#[derive(Debug, Clone)]
pub struct Sticker {
    pub id: StickerId,
    pub pack_id: StickerPackId,
    pub name: String,
    pub description: String,
    pub tags: Option<String>,
    pub asset: String,
    pub format_kind: IntegerEnum<StickerFormat>,
}

impl Sticker {
    pub fn id(&self) -> (r: StickerId)
        ensures
            r == self.id,
    {
        self.id
    }

    pub fn pack_id(&self) -> (r: StickerPackId)
        ensures
            r == self.pack_id,
    {
        self.pack_id
    }

    pub fn name(&self) -> (r: &str)
        ensures
            r@ == self.name@,
    {
        self.name.as_str()
    }

    pub fn description(&self) -> (r: &str)
        ensures
            r@ == self.description@,
    {
        self.description.as_str()
    }

    pub fn tags(&self) -> (r: Option<&str>)
        ensures
            same_text(r, self.tags),
    {
        opt_str(&self.tags)
    }

    pub fn asset(&self) -> (r: &str)
        ensures
            r@ == self.asset@,
    {
        self.asset.as_str()
    }

    pub fn try_format_kind(&self) -> (r: Result<StickerFormat, EnumFromIntegerError>)
        ensures
            r == self.format_kind.spec_try_unwrap(),
    {
        self.format_kind.try_unwrap()
    }

    pub fn format_kind(&self) -> (r: StickerFormat)
        requires
            self.format_kind.0 is Parsed,
        ensures
            self.format_kind.0 == Inner::<StickerFormat, u64>::Parsed(r),
    {
        self.format_kind.unwrap()
    }
}

/// The format of a sticker's image.
#[derive(Debug, Clone, Copy, Eq, PartialEq, Hash, Structural)]
pub enum StickerFormat {
    Png,
    APng,
    Lottie,
}

impl WireInteger for StickerFormat {
    open spec fn valid(self) -> bool {
        true
    }

    open spec fn code(self) -> u64 {
        match self {
            StickerFormat::Png => 1,
            StickerFormat::APng => 2,
            StickerFormat::Lottie => 3,
        }
    }

    open spec fn of_code(raw: u64) -> Option<Self> {
        if raw == 1 {
            Some(StickerFormat::Png)
        } else if raw == 2 {
            Some(StickerFormat::APng)
        } else if raw == 3 {
            Some(StickerFormat::Lottie)
        } else {
            None
        }
    }

    proof fn lemma_code_is_read_back(self) {
    }

    proof fn lemma_of_code_is_exact(raw: u64) {
    }

    fn to_wire(self) -> (raw: u64) {
        match self {
            StickerFormat::Png => 1,
            StickerFormat::APng => 2,
            StickerFormat::Lottie => 3,
        }
    }

    fn from_wire(raw: u64) -> (r: Option<Self>) {
        match raw {
            1 => Some(StickerFormat::Png),
            2 => Some(StickerFormat::APng),
            3 => Some(StickerFormat::Lottie),
            _ => None,
        }
    }
}

impl From<StickerFormat> for u64 {
    fn from(u: StickerFormat) -> (r: u64) {
        u.to_wire()
    }
}

impl vstd::std_specs::convert::FromSpecImpl<StickerFormat> for u64 {
    open spec fn obeys_from_spec() -> bool {
        true
    }

    open spec fn from_spec(u: StickerFormat) -> u64 {
        u.code()
    }
}

impl TryFrom<u64> for StickerFormat {
    type Error = EnumFromIntegerError;

    fn try_from(u: u64) -> (r: Result<Self, EnumFromIntegerError>) {
        match Self::from_wire(u) {
            Some(v) => Ok(v),
            None => Err(EnumFromIntegerError::new(u)),
        }
    }
}

impl vstd::std_specs::convert::TryFromSpecImpl<u64> for StickerFormat {
    open spec fn obeys_try_from_spec() -> bool {
        true
    }

    open spec fn try_from_spec(u: u64) -> Result<Self, EnumFromIntegerError> {
        match Self::of_code(u) {
            Some(v) => Ok(v),
            None => Err(EnumFromIntegerError { raw: u }),
        }
    }
}

/// An emoji under a message, with the number of those who put it there.
#[derive(Debug, Clone)]
pub struct Reaction {
    pub count: u64,
    pub me: bool,
    pub emoji: Emoji,
}

impl Reaction {
    pub fn count(&self) -> (r: u64)
        ensures
            r == self.count,
    {
        self.count
    }

    pub fn me(&self) -> (r: bool)
        ensures
            r == self.me,
    {
        self.me
    }

    pub fn emoji(&self) -> (r: &Emoji)
        ensures
            *r == self.emoji,
    {
        &self.emoji
    }
}

/// A group of those whom a message may notify.
#[derive(Debug, Clone, Eq, Copy, PartialEq, Hash, Structural)]
pub enum MentionKind {
    Roles,
    Users,
    Everyone,
}

impl ReadWireString for MentionKind {
    open spec fn of_text(text: Seq<char>) -> Option<Self> {
        if text == "roles"@ {
            Some(MentionKind::Roles)
        } else if text == "users"@ {
            Some(MentionKind::Users)
        } else if text == "everyone"@ {
            Some(MentionKind::Everyone)
        } else {
            None
        }
    }

    fn read_wire(text: &str) -> (r: Option<Self>) {
        if str_eq(text, "roles") {
            Some(MentionKind::Roles)
        } else if str_eq(text, "users") {
            Some(MentionKind::Users)
        } else if str_eq(text, "everyone") {
            Some(MentionKind::Everyone)
        } else {
            None
        }
    }
}

impl WireString for MentionKind {
    open spec fn text(self) -> Seq<char> {
        match self {
            MentionKind::Roles => "roles"@,
            MentionKind::Users => "users"@,
            MentionKind::Everyone => "everyone"@,
        }
    }

    proof fn lemma_text_is_read_back(self) {
        reveal_strlit("roles");
        reveal_strlit("users");
        reveal_strlit("everyone");
        assert("roles"@.len() == 5 && "roles"@[0] == 'r');
        assert("users"@.len() == 5 && "users"@[0] == 'u');
        assert("everyone"@.len() == 8 && "everyone"@[0] == 'e');
    }

    proof fn lemma_of_text_is_exact(text: Seq<char>) {
    }

    fn as_wire(&self) -> (r: &str) {
        match self {
            MentionKind::Roles => "roles",
            MentionKind::Users => "users",
            MentionKind::Everyone => "everyone",
        }
    }
}

impl MentionKind {
    /// The string that the value travels as.
    pub fn as_ref(&self) -> (r: &str)
        ensures
            r@ == self.text(),
    {
        self.as_wire()
    }

    /// As it is shown: the string that the value travels as.
    pub fn to_string(&self) -> (r: String)
        ensures
            r@ == self.text(),
    {
        self.as_wire().to_owned()
    }

    /// The value that `txt` names, or `txt` back where it names none.
    pub fn parse(txt: &str) -> (r: Result<Self, ParseEnumError>)
        ensures
            match r {
                Ok(v) => Self::of_text(txt@) == Some(v),
                Err(e) => Self::of_text(txt@) is None && e.raw@ == txt@,
            },
    {
        match Self::read_wire(txt) {
            Some(v) => Ok(v),
            None => Err(ParseEnumError::new(txt.to_owned())),
        }
    }
}

impl FromStr for MentionKind {
    type Err = ParseEnumError;

    fn from_str(txt: &str) -> (r: Result<Self, ParseEnumError>)
        ensures
            match r {
                Ok(v) => Self::of_text(txt@) == Some(v),
                Err(e) => Self::of_text(txt@) is None && e.raw@ == txt@,
            },
    {
        Self::parse(txt)
    }
}

/// Whom a message may notify.
#[derive(Debug, Clone)]
pub struct AllowedMentions {
    pub parse: Vec<StringEnum<MentionKind>>,
    pub roles: Vec<RoleId>,
    pub users: Vec<UserId>,
    pub replied_user: bool,
}

impl AllowedMentions {
    /// A new value with what must be given; the rest is left out.
    pub fn new(parse: Vec<StringEnum<MentionKind>>, roles: Vec<RoleId>, users: Vec<UserId>) -> (r: Self)
        ensures
            r == (AllowedMentions {
                parse,
                roles,
                users,
                replied_user: false,
            }),
    {
        AllowedMentions {
            parse,
            roles,
            users,
            replied_user: false,
        }
    }

    /// The same with `replied_user` set.
    pub fn replied_user(self, replied_user: bool) -> (r: Self)
        ensures
            r == (AllowedMentions { replied_user: replied_user, ..self }),
    {
        AllowedMentions { replied_user: replied_user, ..self }
    }
}

} // verus!
