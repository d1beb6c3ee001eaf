//! Messages and what comes with them, with their kinds held in enumerations
//! that have a place for what they do not know.

use vstd::prelude::*;

use crate::application::{Application, ApplicationId};
use crate::borrow::{
    opt_boxed, opt_ref, opt_slice, opt_str, same_boxed, same_items, same_text, same_value,
};
use crate::channel::embed::Embed;
use crate::emoji::Emoji;
use crate::entity;
use crate::guild::{GuildId, GuildMember};
use crate::permissions::RoleId;
use crate::resources::channel::{Channel, ChannelId, ChannelKind};
use crate::resources::webhook::WebhookId;
use crate::snowflake::Id;
use crate::time::DateTime;
use crate::user::User;
use crate::wire::{DecodeError, Primitive};

verus! {

/// The identifier of an attachment.
pub type AttachmentId = Id<entity::Attachment>;

/// A file that came with a message.
#[derive(Debug, Clone)]
pub struct Attachment {
    pub id: AttachmentId,
    pub filename: String,
    pub content_type: Option<String>,
    pub size: u64,
    pub url: String,
    pub proxy_url: String,
    pub height: Option<u64>,
    pub width: Option<u64>,
}

impl Attachment {
    pub fn id(&self) -> (r: AttachmentId)
        ensures
            r == self.id,
    {
        self.id
    }

    pub fn filename(&self) -> (r: &str)
        ensures
            r@ == self.filename@,
    {
        self.filename.as_str()
    }

    pub fn content_type(&self) -> (r: Option<&str>)
        ensures
            same_text(r, self.content_type),
    {
        opt_str(&self.content_type)
    }

    pub fn size(&self) -> (r: u64)
        ensures
            r == self.size,
    {
        self.size
    }

    pub fn url(&self) -> (r: &str)
        ensures
            r@ == self.url@,
    {
        self.url.as_str()
    }

    pub fn proxy_url(&self) -> (r: &str)
        ensures
            r@ == self.proxy_url@,
    {
        self.proxy_url.as_str()
    }

    pub fn height(&self) -> (r: Option<u64>)
        ensures
            r == self.height,
    {
        self.height
    }
}

/// A user whom a message names.
#[derive(Debug, Clone)]
pub struct Mention {
    pub user: User,
    pub member: Option<GuildMember>,
}

impl Mention {
    pub fn user(&self) -> (r: &User)
        ensures
            *r == self.user,
    {
        &self.user
    }

    pub fn member(&self) -> (r: Option<&GuildMember>)
        ensures
            same_value(r, self.member),
    {
        opt_ref(&self.member)
    }
}

/// What the sender put on a message to know it again: a number or text.
#[derive(Debug, Clone)]
pub enum Nonce {
    Integer(u64),
    String(String),
}

/// What a message is: one that a user wrote, or a notice of something that
/// happened.
#[derive(Debug, Clone, Copy, Eq, PartialEq, Hash, Structural)]
pub enum MessageKind {
    Default,
    RecipientAdd,
    RecipientRemove,
    Call,
    ChannelNameChange,
    ChannelIconChange,
    ChannelPinnedMessage,
    GuildMemberJoin,
    UserPremiumGuildSubscription,
    UserPremiumGuildSubscriptionTier1,
    UserPremiumGuildSubscriptionTier2,
    UserPremiumGuildSubscriptionTier3,
    ChannelFollowAdd,
    GuildDiscoveryDisqualified,
    GuildDiscoveryRequalified,
    GuildDiscoveryGracePeriodInitialWarning,
    GuildDiscoveryGracePeriodFinalWarning,
    ThreadCreated,
    Reply,
    ApplicationCommand,
    ThreadStarterMessage,
    GuildInviteReminder,
    Other(u64),
}

impl MessageKind {
    /// The integer that each value travels as.
    pub open spec fn code(self) -> u64 {
        match self {
            MessageKind::Default => 0,
            MessageKind::RecipientAdd => 1,
            MessageKind::RecipientRemove => 2,
            MessageKind::Call => 3,
            MessageKind::ChannelNameChange => 4,
            MessageKind::ChannelIconChange => 5,
            MessageKind::ChannelPinnedMessage => 6,
            MessageKind::GuildMemberJoin => 7,
            MessageKind::UserPremiumGuildSubscription => 8,
            MessageKind::UserPremiumGuildSubscriptionTier1 => 9,
            MessageKind::UserPremiumGuildSubscriptionTier2 => 10,
            MessageKind::UserPremiumGuildSubscriptionTier3 => 11,
            MessageKind::ChannelFollowAdd => 12,
            MessageKind::GuildDiscoveryDisqualified => 14,
            MessageKind::GuildDiscoveryRequalified => 15,
            MessageKind::GuildDiscoveryGracePeriodInitialWarning => 16,
            MessageKind::GuildDiscoveryGracePeriodFinalWarning => 17,
            MessageKind::ThreadCreated => 18,
            MessageKind::Reply => 19,
            MessageKind::ApplicationCommand => 20,
            MessageKind::ThreadStarterMessage => 21,
            MessageKind::GuildInviteReminder => 22,
            MessageKind::Other(other) => other,
        }
    }

    /// The value that travels as `raw`: the one named for it, or `Other`
    /// with the integer inside.
    pub open spec fn of_code(raw: u64) -> Self {
        if raw == 0 {
            MessageKind::Default
        } else if raw == 1 {
            MessageKind::RecipientAdd
        } else if raw == 2 {
            MessageKind::RecipientRemove
        } else if raw == 3 {
            MessageKind::Call
        } else if raw == 4 {
            MessageKind::ChannelNameChange
        } else if raw == 5 {
            MessageKind::ChannelIconChange
        } else if raw == 6 {
            MessageKind::ChannelPinnedMessage
        } else if raw == 7 {
            MessageKind::GuildMemberJoin
        } else if raw == 8 {
            MessageKind::UserPremiumGuildSubscription
        } else if raw == 9 {
            MessageKind::UserPremiumGuildSubscriptionTier1
        } else if raw == 10 {
            MessageKind::UserPremiumGuildSubscriptionTier2
        } else if raw == 11 {
            MessageKind::UserPremiumGuildSubscriptionTier3
        } else if raw == 12 {
            MessageKind::ChannelFollowAdd
        } else if raw == 14 {
            MessageKind::GuildDiscoveryDisqualified
        } else if raw == 15 {
            MessageKind::GuildDiscoveryRequalified
        } else if raw == 16 {
            MessageKind::GuildDiscoveryGracePeriodInitialWarning
        } else if raw == 17 {
            MessageKind::GuildDiscoveryGracePeriodFinalWarning
        } else if raw == 18 {
            MessageKind::ThreadCreated
        } else if raw == 19 {
            MessageKind::Reply
        } else if raw == 20 {
            MessageKind::ApplicationCommand
        } else if raw == 21 {
            MessageKind::ThreadStarterMessage
        } else if raw == 22 {
            MessageKind::GuildInviteReminder
        } else {
            MessageKind::Other(raw)
        }
    }

    /// Whether the value is one that was read or could have been: a
    /// named one, or `Other` with an integer that no name stands for.
    pub open spec fn canonical(self) -> bool {
        self matches MessageKind::Other(other) ==> Self::of_code(other) is Other
    }

    /// Whatever integer comes in goes out again.
    pub proof fn lemma_round_trip(raw: u64)
        ensures
            Self::of_code(raw).code() == raw,
            Self::of_code(raw).canonical(),
    {
    }

    /// A value that is written and read again is the same value.
    pub proof fn lemma_read_back(self)
        requires
            self.canonical(),
        ensures
            Self::of_code(self.code()) == self,
    {
    }

    /// An integer that no name stands for is kept inside `Other`.
    pub proof fn lemma_unknown(raw: u64)
        requires
            raw != 0,
            raw != 1,
            raw != 2,
            raw != 3,
            raw != 4,
            raw != 5,
            raw != 6,
            raw != 7,
            raw != 8,
            raw != 9,
            raw != 10,
            raw != 11,
            raw != 12,
            raw != 14,
            raw != 15,
            raw != 16,
            raw != 17,
            raw != 18,
            raw != 19,
            raw != 20,
            raw != 21,
            raw != 22,
        ensures
            Self::of_code(raw) == MessageKind::Other(raw),
    {
    }

    /// Reads a value from the wire, where it must stand as an integer that
    /// is not negative.
    pub fn deserialize(value: &Primitive) -> (r: Result<Self, DecodeError>)
        ensures
            r == match *value {
                Primitive::Unsigned(raw) => Ok::<Self, DecodeError>(Self::of_code(raw)),
                Primitive::Signed(raw) => if raw >= 0 {
                    Ok(Self::of_code(raw as u64))
                } else {
                    Err(DecodeError::InvalidFormat)
                },
                _ => Err(DecodeError::TypeMismatch),
            },
    {
        match value {
            Primitive::Unsigned(raw) => Ok(Self::from(*raw)),
            Primitive::Signed(raw) => if *raw >= 0 {
                Ok(Self::from(*raw as u64))
            } else {
                Err(DecodeError::InvalidFormat)
            },
            _ => Err(DecodeError::TypeMismatch),
        }
    }

    /// The wire form: an integer.
    pub fn serialize(&self) -> (r: Primitive)
        ensures
            r == Primitive::Unsigned(self.code()),
    {
        Primitive::Unsigned(u64::from(*self))
    }
}

impl From<MessageKind> for u64 {
    fn from(u: MessageKind) -> (r: u64) {
        match u {
            MessageKind::Default => 0,
            MessageKind::RecipientAdd => 1,
            MessageKind::RecipientRemove => 2,
            MessageKind::Call => 3,
            MessageKind::ChannelNameChange => 4,
            MessageKind::ChannelIconChange => 5,
            MessageKind::ChannelPinnedMessage => 6,
            MessageKind::GuildMemberJoin => 7,
            MessageKind::UserPremiumGuildSubscription => 8,
            MessageKind::UserPremiumGuildSubscriptionTier1 => 9,
            MessageKind::UserPremiumGuildSubscriptionTier2 => 10,
            MessageKind::UserPremiumGuildSubscriptionTier3 => 11,
            MessageKind::ChannelFollowAdd => 12,
            MessageKind::GuildDiscoveryDisqualified => 14,
            MessageKind::GuildDiscoveryRequalified => 15,
            MessageKind::GuildDiscoveryGracePeriodInitialWarning => 16,
            MessageKind::GuildDiscoveryGracePeriodFinalWarning => 17,
            MessageKind::ThreadCreated => 18,
            MessageKind::Reply => 19,
            MessageKind::ApplicationCommand => 20,
            MessageKind::ThreadStarterMessage => 21,
            MessageKind::GuildInviteReminder => 22,
            MessageKind::Other(other) => other,
        }
    }
}

impl vstd::std_specs::convert::FromSpecImpl<MessageKind> for u64 {
    open spec fn obeys_from_spec() -> bool {
        true
    }

    open spec fn from_spec(u: MessageKind) -> u64 {
        u.code()
    }
}

impl From<u64> for MessageKind {
    fn from(u: u64) -> (r: Self) {
        match u {
            0 => MessageKind::Default,
            1 => MessageKind::RecipientAdd,
            2 => MessageKind::RecipientRemove,
            3 => MessageKind::Call,
            4 => MessageKind::ChannelNameChange,
            5 => MessageKind::ChannelIconChange,
            6 => MessageKind::ChannelPinnedMessage,
            7 => MessageKind::GuildMemberJoin,
            8 => MessageKind::UserPremiumGuildSubscription,
            9 => MessageKind::UserPremiumGuildSubscriptionTier1,
            10 => MessageKind::UserPremiumGuildSubscriptionTier2,
            11 => MessageKind::UserPremiumGuildSubscriptionTier3,
            12 => MessageKind::ChannelFollowAdd,
            14 => MessageKind::GuildDiscoveryDisqualified,
            15 => MessageKind::GuildDiscoveryRequalified,
            16 => MessageKind::GuildDiscoveryGracePeriodInitialWarning,
            17 => MessageKind::GuildDiscoveryGracePeriodFinalWarning,
            18 => MessageKind::ThreadCreated,
            19 => MessageKind::Reply,
            20 => MessageKind::ApplicationCommand,
            21 => MessageKind::ThreadStarterMessage,
            22 => MessageKind::GuildInviteReminder,
            other => MessageKind::Other(other),
        }
    }
}

impl vstd::std_specs::convert::FromSpecImpl<u64> for MessageKind {
    open spec fn obeys_from_spec() -> bool {
        true
    }

    open spec fn from_spec(u: u64) -> Self {
        Self::of_code(u)
    }
}

/// A channel that a message names.
#[derive(Debug, Clone)]
pub struct ChannelMention {
    pub id: ChannelId,
    pub guild_id: GuildId,
    pub kind: ChannelKind,
    pub name: String,
}

impl ChannelMention {
    pub fn id(&self) -> (r: ChannelId)
        ensures
            r == self.id,
    {
        self.id
    }

    pub fn guild_id(&self) -> (r: GuildId)
        ensures
            r == self.guild_id,
    {
        self.guild_id
    }

    pub fn kind(&self) -> (r: ChannelKind)
        ensures
            r == self.kind,
    {
        self.kind
    }

    pub fn name(&self) -> (r: &str)
        ensures
            r@ == self.name@,
    {
        self.name.as_str()
    }
}

/// The identifier of a message.
pub type MessageId = Id<entity::Message>;

/// A message in a channel.
#[derive(Debug)]
pub struct Message {
    pub id: MessageId,
    pub channel_id: ChannelId,
    pub guild_id: Option<GuildId>,
    pub author: Option<User>,
    pub member: Option<GuildMember>,
    pub content: String,
    pub timestamp: DateTime,
    pub edited_timestamp: Option<DateTime>,
    pub tts: bool,
    pub mention_everyone: bool,
    pub mentions: Vec<Mention>,
    pub mention_roles: Vec<RoleId>,
    pub mention_channels: Option<Vec<ChannelMention>>,
    pub attachments: Vec<Attachment>,
    pub embeds: Vec<Embed>,
    pub reactions: Option<Vec<Reaction>>,
    pub nonce: Option<Nonce>,
    pub pinned: bool,
    pub webhook_id: Option<WebhookId>,
    pub kind: MessageKind,
    pub activity: Option<MessageActivity>,
    pub application: Option<Application>,
    pub application_id: Option<ApplicationId>,
    pub message_reference: Option<MessageReference>,
    pub flags: Option<u64>,
    pub stickers: Option<Vec<Sticker>>,
    pub referenced_message: Option<Box<Message>>,
    pub interaction: Option<MessageInteraction>,
    pub thread: Option<Channel>,
}

impl Message {
    pub fn id(&self) -> (r: MessageId)
        ensures
            r == self.id,
    {
        self.id
    }

    pub fn channel_id(&self) -> (r: ChannelId)
        ensures
            r == self.channel_id,
    {
        self.channel_id
    }

    pub fn guild_id(&self) -> (r: Option<GuildId>)
        ensures
            r == self.guild_id,
    {
        self.guild_id
    }

    pub fn author(&self) -> (r: Option<&User>)
        ensures
            same_value(r, self.author),
    {
        opt_ref(&self.author)
    }

    pub fn member(&self) -> (r: Option<&GuildMember>)
        ensures
            same_value(r, self.member),
    {
        opt_ref(&self.member)
    }

    pub fn content(&self) -> (r: &str)
        ensures
            r@ == self.content@,
    {
        self.content.as_str()
    }

    pub fn timestamp(&self) -> (r: DateTime)
        ensures
            r == self.timestamp,
    {
        self.timestamp
    }

    pub fn edited_timestamp(&self) -> (r: Option<DateTime>)
        ensures
            r == self.edited_timestamp,
    {
        self.edited_timestamp
    }

    pub fn tts(&self) -> (r: bool)
        ensures
            r == self.tts,
    {
        self.tts
    }

    pub fn mention_everyone(&self) -> (r: bool)
        ensures
            r == self.mention_everyone,
    {
        self.mention_everyone
    }

    pub fn mentions(&self) -> (r: &[Mention])
        ensures
            r@ == self.mentions@,
    {
        self.mentions.as_slice()
    }

    pub fn mention_roles(&self) -> (r: &[RoleId])
        ensures
            r@ == self.mention_roles@,
    {
        self.mention_roles.as_slice()
    }

    pub fn mention_channels(&self) -> (r: Option<&[ChannelMention]>)
        ensures
            same_items(r, self.mention_channels),
    {
        opt_slice(&self.mention_channels)
    }

    pub fn attachments(&self) -> (r: &[Attachment])
        ensures
            r@ == self.attachments@,
    {
        self.attachments.as_slice()
    }

    pub fn embeds(&self) -> (r: &[Embed])
        ensures
            r@ == self.embeds@,
    {
        self.embeds.as_slice()
    }

    pub fn reactions(&self) -> (r: Option<&[Reaction]>)
        ensures
            same_items(r, self.reactions),
    {
        opt_slice(&self.reactions)
    }

    pub fn nonce(&self) -> (r: Option<&Nonce>)
        ensures
            same_value(r, self.nonce),
    {
        opt_ref(&self.nonce)
    }

    pub fn pinned(&self) -> (r: bool)
        ensures
            r == self.pinned,
    {
        self.pinned
    }

    pub fn webhook_id(&self) -> (r: Option<WebhookId>)
        ensures
            r == self.webhook_id,
    {
        self.webhook_id
    }

    pub fn kind(&self) -> (r: MessageKind)
        ensures
            r == self.kind,
    {
        self.kind
    }

    pub fn activity(&self) -> (r: Option<&MessageActivity>)
        ensures
            same_value(r, self.activity),
    {
        opt_ref(&self.activity)
    }

    pub fn application(&self) -> (r: Option<&Application>)
        ensures
            same_value(r, self.application),
    {
        opt_ref(&self.application)
    }

    pub fn application_id(&self) -> (r: Option<ApplicationId>)
        ensures
            r == self.application_id,
    {
        self.application_id
    }

    pub fn message_reference(&self) -> (r: Option<&MessageReference>)
        ensures
            same_value(r, self.message_reference),
    {
        opt_ref(&self.message_reference)
    }

    pub fn flags(&self) -> (r: Option<u64>)
        ensures
            r == self.flags,
    {
        self.flags
    }

    pub fn stickers(&self) -> (r: Option<&[Sticker]>)
        ensures
            same_items(r, self.stickers),
    {
        opt_slice(&self.stickers)
    }

    pub fn referenced_message(&self) -> (r: Option<&Message>)
        ensures
            same_boxed(r, self.referenced_message),
    {
        opt_boxed(&self.referenced_message)
    }

    pub fn interaction(&self) -> (r: Option<&MessageInteraction>)
        ensures
            same_value(r, self.interaction),
    {
        opt_ref(&self.interaction)
    }

    pub fn thread(&self) -> (r: Option<&Channel>)
        ensures
            same_value(r, self.thread),
    {
        opt_ref(&self.thread)
    }
}

impl Clone for Message {
    fn clone(&self) -> (r: Self)
        decreases self,
    {
        let referenced_message = match &self.referenced_message {
            Some(b) => Some(Box::new((**b).clone())),
            None => None,
        };
        Message {
            id: self.id.clone(),
            channel_id: self.channel_id.clone(),
            guild_id: self.guild_id.clone(),
            author: self.author.clone(),
            member: self.member.clone(),
            content: self.content.clone(),
            timestamp: self.timestamp.clone(),
            edited_timestamp: self.edited_timestamp.clone(),
            tts: self.tts.clone(),
            mention_everyone: self.mention_everyone.clone(),
            mentions: self.mentions.clone(),
            mention_roles: self.mention_roles.clone(),
            mention_channels: self.mention_channels.clone(),
            attachments: self.attachments.clone(),
            embeds: self.embeds.clone(),
            reactions: self.reactions.clone(),
            nonce: self.nonce.clone(),
            pinned: self.pinned.clone(),
            webhook_id: self.webhook_id.clone(),
            kind: self.kind.clone(),
            activity: self.activity.clone(),
            application: self.application.clone(),
            application_id: self.application_id.clone(),
            message_reference: self.message_reference.clone(),
            flags: self.flags.clone(),
            stickers: self.stickers.clone(),
            referenced_message,
            interaction: self.interaction.clone(),
            thread: self.thread.clone(),
        }
    }
}

/// What a message invites to.
#[derive(Debug, Clone, Eq, PartialEq, Hash, Copy, Structural)]
pub enum MessageActivityKind {
    Join,
    Spectate,
    Listen,
    JoinRequest,
    Other(u64),
}

impl MessageActivityKind {
    /// The integer that each value travels as.
    pub open spec fn code(self) -> u64 {
        match self {
            MessageActivityKind::Join => 1,
            MessageActivityKind::Spectate => 2,
            MessageActivityKind::Listen => 3,
            MessageActivityKind::JoinRequest => 5,
            MessageActivityKind::Other(other) => other,
        }
    }

    /// The value that travels as `raw`: the one named for it, or `Other`
    /// with the integer inside.
    pub open spec fn of_code(raw: u64) -> Self {
        if raw == 1 {
            MessageActivityKind::Join
        } else if raw == 2 {
            MessageActivityKind::Spectate
        } else if raw == 3 {
            MessageActivityKind::Listen
        } else if raw == 5 {
            MessageActivityKind::JoinRequest
        } else {
            MessageActivityKind::Other(raw)
        }
    }

    /// Whether the value is one that was read or could have been: a
    /// named one, or `Other` with an integer that no name stands for.
    pub open spec fn canonical(self) -> bool {
        self matches MessageActivityKind::Other(other) ==> Self::of_code(other) is Other
    }

    /// Whatever integer comes in goes out again.
    pub proof fn lemma_round_trip(raw: u64)
        ensures
            Self::of_code(raw).code() == raw,
            Self::of_code(raw).canonical(),
    {
    }

    /// A value that is written and read again is the same value.
    pub proof fn lemma_read_back(self)
        requires
            self.canonical(),
        ensures
            Self::of_code(self.code()) == self,
    {
    }

    /// An integer that no name stands for is kept inside `Other`.
    pub proof fn lemma_unknown(raw: u64)
        requires
            raw != 1,
            raw != 2,
            raw != 3,
            raw != 5,
        ensures
            Self::of_code(raw) == MessageActivityKind::Other(raw),
    {
    }

    /// Reads a value from the wire, where it must stand as an integer that
    /// is not negative.
    pub fn deserialize(value: &Primitive) -> (r: Result<Self, DecodeError>)
        ensures
            r == match *value {
                Primitive::Unsigned(raw) => Ok::<Self, DecodeError>(Self::of_code(raw)),
                Primitive::Signed(raw) => if raw >= 0 {
                    Ok(Self::of_code(raw as u64))
                } else {
                    Err(DecodeError::InvalidFormat)
                },
                _ => Err(DecodeError::TypeMismatch),
            },
    {
        match value {
            Primitive::Unsigned(raw) => Ok(Self::from(*raw)),
            Primitive::Signed(raw) => if *raw >= 0 {
                Ok(Self::from(*raw as u64))
            } else {
                Err(DecodeError::InvalidFormat)
            },
            _ => Err(DecodeError::TypeMismatch),
        }
    }

    /// The wire form: an integer.
    pub fn serialize(&self) -> (r: Primitive)
        ensures
            r == Primitive::Unsigned(self.code()),
    {
        Primitive::Unsigned(u64::from(*self))
    }
}

impl From<MessageActivityKind> for u64 {
    fn from(u: MessageActivityKind) -> (r: u64) {
        match u {
            MessageActivityKind::Join => 1,
            MessageActivityKind::Spectate => 2,
            MessageActivityKind::Listen => 3,
            MessageActivityKind::JoinRequest => 5,
            MessageActivityKind::Other(other) => other,
        }
    }
}

impl vstd::std_specs::convert::FromSpecImpl<MessageActivityKind> for u64 {
    open spec fn obeys_from_spec() -> bool {
        true
    }

    open spec fn from_spec(u: MessageActivityKind) -> u64 {
        u.code()
    }
}

impl From<u64> for MessageActivityKind {
    fn from(u: u64) -> (r: Self) {
        match u {
            1 => MessageActivityKind::Join,
            2 => MessageActivityKind::Spectate,
            3 => MessageActivityKind::Listen,
            5 => MessageActivityKind::JoinRequest,
            other => MessageActivityKind::Other(other),
        }
    }
}

impl vstd::std_specs::convert::FromSpecImpl<u64> for MessageActivityKind {
    open spec fn obeys_from_spec() -> bool {
        true
    }

    open spec fn from_spec(u: u64) -> Self {
        Self::of_code(u)
    }
}

/// An invitation, sent with a message, to join in what the sender does.
#[derive(Debug, Clone)]
pub struct MessageActivity {
    pub kind: MessageActivityKind,
    pub party_id: Option<String>,
}

/// The message that a message answers, or was carried over from.
#[derive(Debug, Clone)]
pub struct MessageReference {
    pub message_id: Option<MessageId>,
    pub channel_id: Option<ChannelId>,
    pub guild_id: Option<GuildId>,
    pub fail_if_not_exist: Option<bool>,
}

impl MessageReference {
    pub fn message_id(&self) -> (r: Option<MessageId>)
        ensures
            r == self.message_id,
    {
        self.message_id
    }

    pub fn channel_id(&self) -> (r: Option<ChannelId>)
        ensures
            r == self.channel_id,
    {
        self.channel_id
    }

    pub fn guild_id(&self) -> (r: Option<GuildId>)
        ensures
            r == self.guild_id,
    {
        self.guild_id
    }

    pub fn fail_if_not_exist(&self) -> (r: Option<bool>)
        ensures
            r == self.fail_if_not_exist,
    {
        self.fail_if_not_exist
    }
}

/// How an application was called on.
#[derive(Debug, Clone, Copy, Eq, PartialEq, Hash, Structural)]
pub enum InteractionKind {
    Ping,
    ApplicationCommand,
    Other(u64),
}

impl InteractionKind {
    /// The integer that each value travels as.
    pub open spec fn code(self) -> u64 {
        match self {
            InteractionKind::Ping => 1,
            InteractionKind::ApplicationCommand => 2,
            InteractionKind::Other(other) => other,
        }
    }

    /// The value that travels as `raw`: the one named for it, or `Other`
    /// with the integer inside.
    pub open spec fn of_code(raw: u64) -> Self {
        if raw == 1 {
            InteractionKind::Ping
        } else if raw == 2 {
            InteractionKind::ApplicationCommand
        } else {
            InteractionKind::Other(raw)
        }
    }

    /// Whether the value is one that was read or could have been: a
    /// named one, or `Other` with an integer that no name stands for.
    pub open spec fn canonical(self) -> bool {
        self matches InteractionKind::Other(other) ==> Self::of_code(other) is Other
    }

    /// Whatever integer comes in goes out again.
    pub proof fn lemma_round_trip(raw: u64)
        ensures
            Self::of_code(raw).code() == raw,
            Self::of_code(raw).canonical(),
    {
    }

    /// A value that is written and read again is the same value.
    pub proof fn lemma_read_back(self)
        requires
            self.canonical(),
        ensures
            Self::of_code(self.code()) == self,
    {
    }

    /// An integer that no name stands for is kept inside `Other`.
    pub proof fn lemma_unknown(raw: u64)
        requires
            raw != 1,
            raw != 2,
        ensures
            Self::of_code(raw) == InteractionKind::Other(raw),
    {
    }

    /// Reads a value from the wire, where it must stand as an integer that
    /// is not negative.
    pub fn deserialize(value: &Primitive) -> (r: Result<Self, DecodeError>)
        ensures
            r == match *value {
                Primitive::Unsigned(raw) => Ok::<Self, DecodeError>(Self::of_code(raw)),
                Primitive::Signed(raw) => if raw >= 0 {
                    Ok(Self::of_code(raw as u64))
                } else {
                    Err(DecodeError::InvalidFormat)
                },
                _ => Err(DecodeError::TypeMismatch),
            },
    {
        match value {
            Primitive::Unsigned(raw) => Ok(Self::from(*raw)),
            Primitive::Signed(raw) => if *raw >= 0 {
                Ok(Self::from(*raw as u64))
            } else {
                Err(DecodeError::InvalidFormat)
            },
            _ => Err(DecodeError::TypeMismatch),
        }
    }

    /// The wire form: an integer.
    pub fn serialize(&self) -> (r: Primitive)
        ensures
            r == Primitive::Unsigned(self.code()),
    {
        Primitive::Unsigned(u64::from(*self))
    }
}

impl From<InteractionKind> for u64 {
    fn from(u: InteractionKind) -> (r: u64) {
        match u {
            InteractionKind::Ping => 1,
            InteractionKind::ApplicationCommand => 2,
            InteractionKind::Other(other) => other,
        }
    }
}

impl vstd::std_specs::convert::FromSpecImpl<InteractionKind> for u64 {
    open spec fn obeys_from_spec() -> bool {
        true
    }

    open spec fn from_spec(u: InteractionKind) -> u64 {
        u.code()
    }
}

impl From<u64> for InteractionKind {
    fn from(u: u64) -> (r: Self) {
        match u {
            1 => InteractionKind::Ping,
            2 => InteractionKind::ApplicationCommand,
            other => InteractionKind::Other(other),
        }
    }
}

impl vstd::std_specs::convert::FromSpecImpl<u64> for InteractionKind {
    open spec fn obeys_from_spec() -> bool {
        true
    }

    open spec fn from_spec(u: u64) -> Self {
        Self::of_code(u)
    }
}

/// The identifier of the use of a command.
pub type MessageInteractionId = Id<entity::MessageInteraction>;

/// The use of a command that a message answers.
#[derive(Debug, Clone)]
pub struct MessageInteraction {
    pub id: MessageInteractionId,
    pub kind: InteractionKind,
    pub name: String,
    pub user: User,
}

/// The identifier of a sticker.
pub type StickerId = Id<entity::Sticker>;

/// The identifier of a pack of stickers.
pub type StickerPackId = Id<StickerPack>;

/// The kind of thing that the identifier of a pack of stickers names. No
/// value of it is ever made.
#[derive(Debug, Clone, Copy, PartialEq, Eq, PartialOrd, Ord, Hash)]
pub struct StickerPack {
    _p: (),
}

/// A sticker sent with a message.
#[derive(Debug, Clone)]
pub struct Sticker {
    pub id: StickerId,
    pub pack_id: StickerPackId,
    pub name: String,
    pub description: String,
    pub tags: Option<String>,
    pub asset: String,
    pub format_kind: StickerFormat,
}

/// The format of a sticker's image.
#[derive(Debug, Clone, Copy, Eq, PartialEq, Hash, Structural)]
pub enum StickerFormat {
    Png,
    APng,
    Lottie,
    Other(u64),
}

impl StickerFormat {
    /// The integer that each value travels as.
    pub open spec fn code(self) -> u64 {
        match self {
            StickerFormat::Png => 1,
            StickerFormat::APng => 2,
            StickerFormat::Lottie => 3,
            StickerFormat::Other(other) => other,
        }
    }

    /// The value that travels as `raw`: the one named for it, or `Other`
    /// with the integer inside.
    pub open spec fn of_code(raw: u64) -> Self {
        if raw == 1 {
            StickerFormat::Png
        } else if raw == 2 {
            StickerFormat::APng
        } else if raw == 3 {
            StickerFormat::Lottie
        } else {
            StickerFormat::Other(raw)
        }
    }

    /// Whether the value is one that was read or could have been: a
    /// named one, or `Other` with an integer that no name stands for.
    pub open spec fn canonical(self) -> bool {
        self matches StickerFormat::Other(other) ==> Self::of_code(other) is Other
    }

    /// Whatever integer comes in goes out again.
    pub proof fn lemma_round_trip(raw: u64)
        ensures
            Self::of_code(raw).code() == raw,
            Self::of_code(raw).canonical(),
    {
    }

    /// A value that is written and read again is the same value.
    pub proof fn lemma_read_back(self)
        requires
            self.canonical(),
        ensures
            Self::of_code(self.code()) == self,
    {
    }

    /// An integer that no name stands for is kept inside `Other`.
    pub proof fn lemma_unknown(raw: u64)
        requires
            raw != 1,
            raw != 2,
            raw != 3,
        ensures
            Self::of_code(raw) == StickerFormat::Other(raw),
    {
    }

    /// Reads a value from the wire, where it must stand as an integer that
    /// is not negative.
    pub fn deserialize(value: &Primitive) -> (r: Result<Self, DecodeError>)
        ensures
            r == match *value {
                Primitive::Unsigned(raw) => Ok::<Self, DecodeError>(Self::of_code(raw)),
                Primitive::Signed(raw) => if raw >= 0 {
                    Ok(Self::of_code(raw as u64))
                } else {
                    Err(DecodeError::InvalidFormat)
                },
                _ => Err(DecodeError::TypeMismatch),
            },
    {
        match value {
            Primitive::Unsigned(raw) => Ok(Self::from(*raw)),
            Primitive::Signed(raw) => if *raw >= 0 {
                Ok(Self::from(*raw as u64))
            } else {
                Err(DecodeError::InvalidFormat)
            },
            _ => Err(DecodeError::TypeMismatch),
        }
    }

    /// The wire form: an integer.
    pub fn serialize(&self) -> (r: Primitive)
        ensures
            r == Primitive::Unsigned(self.code()),
    {
        Primitive::Unsigned(u64::from(*self))
    }
}

impl From<StickerFormat> for u64 {
    fn from(u: StickerFormat) -> (r: u64) {
        match u {
            StickerFormat::Png => 1,
            StickerFormat::APng => 2,
            StickerFormat::Lottie => 3,
            StickerFormat::Other(other) => other,
        }
    }
}

impl vstd::std_specs::convert::FromSpecImpl<StickerFormat> for u64 {
    open spec fn obeys_from_spec() -> bool {
        true
    }

    open spec fn from_spec(u: StickerFormat) -> u64 {
        u.code()
    }
}

impl From<u64> for StickerFormat {
    fn from(u: u64) -> (r: Self) {
        match u {
            1 => StickerFormat::Png,
            2 => StickerFormat::APng,
            3 => StickerFormat::Lottie,
            other => StickerFormat::Other(other),
        }
    }
}

impl vstd::std_specs::convert::FromSpecImpl<u64> for StickerFormat {
    open spec fn obeys_from_spec() -> bool {
        true
    }

    open spec fn from_spec(u: u64) -> Self {
        Self::of_code(u)
    }
}

/// An emoji under a message, with the number of those who put it there.
#[derive(Debug, Clone)]
pub struct Reaction {
    pub count: u64,
    pub me: bool,
    pub emoji: Emoji,
}

impl Reaction {
    pub fn count(&self) -> (r: u64)
        ensures
            r == self.count,
    {
        self.count
    }

    pub fn me(&self) -> (r: bool)
        ensures
            r == self.me,
    {
        self.me
    }

    pub fn emoji(&self) -> (r: &Emoji)
        ensures
            *r == self.emoji,
    {
        &self.emoji
    }
}

} // verus!
