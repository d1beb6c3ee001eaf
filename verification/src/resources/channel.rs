//! Channels and what is in them.

pub mod message;

use vstd::prelude::*;

use crate::borrow::{opt_ref, opt_slice, opt_str, same_items, same_text, same_value};
use crate::enums::{EnumFromIntegerError, Inner, IntegerEnum, WireInteger};
use crate::entity;
use crate::flags::{spec_from_bits, Flags};
use crate::image::UploadImage;
use crate::permissions::RoleId;
use crate::resources::application::ApplicationId;
use crate::resources::guild::GuildId;
use crate::resources::user::{User, UserId};
use crate::snowflake::{AnyId, Id};
use crate::time::DateTime;

pub use crate::channel::embed::{
    Embed, EmbedAuthor, EmbedField, EmbedFooter, EmbedImage, EmbedProvider, EmbedThumbnail,
    EmbedVideo,
};
pub use self::message::{
    AllowedMentions, Attachment, AttachmentId, ChannelMention, InteractionKind, Mention,
    MentionKind, Message, MessageActivity, MessageActivityKind, MessageFlags, MessageId,
    MessageInteraction, MessageInteractionId, MessageKind, MessageReference, Nonce, Reaction,
    Sticker, StickerFormat, StickerId, StickerPack, StickerPackId,
};

verus! {

/// What a thread has and other channels have not.
#[derive(Debug, Clone)]
pub struct ThreadMetadata {
    pub archived: bool,
    pub archiver_id: Option<UserId>,
    pub auto_archive_duration: u64,
    pub archive_timestamp: DateTime,
    pub locked: Option<bool>,
}

impl ThreadMetadata {
    pub fn archived(&self) -> (r: bool)
        ensures
            r == self.archived,
    {
        self.archived
    }

    pub fn archiver_id(&self) -> (r: Option<UserId>)
        ensures
            r == self.archiver_id,
    {
        self.archiver_id
    }

    pub fn auto_archive_duration(&self) -> (r: u64)
        ensures
            r == self.auto_archive_duration,
    {
        self.auto_archive_duration
    }

    pub fn archive_timestamp(&self) -> (r: DateTime)
        ensures
            r == self.archive_timestamp,
    {
        self.archive_timestamp
    }

    pub fn locked(&self) -> (r: Option<bool>)
        ensures
            r == self.locked,
    {
        self.locked
    }
}

/// A user who has joined a thread.
#[derive(Debug, Clone)]
pub struct ThreadMember {
    pub id: ChannelId,
    pub user_id: UserId,
    pub join_timestamp: DateTime,
    pub flags: IntegerEnum<ThreadMemberFlags>,
}

impl ThreadMember {
    pub fn id(&self) -> (r: ChannelId)
        ensures
            r == self.id,
    {
        self.id
    }

    pub fn user_id(&self) -> (r: UserId)
        ensures
            r == self.user_id,
    {
        self.user_id
    }

    pub fn join_timestamp(&self) -> (r: DateTime)
        ensures
            r == self.join_timestamp,
    {
        self.join_timestamp
    }

    pub fn try_flags(&self) -> (r: Result<ThreadMemberFlags, EnumFromIntegerError>)
        ensures
            r == self.flags.spec_try_unwrap(),
    {
        self.flags.try_unwrap()
    }

    pub fn flags(&self) -> (r: ThreadMemberFlags)
        requires
            self.flags.0 is Parsed,
        ensures
            self.flags.0 == Inner::<ThreadMemberFlags, u64>::Parsed(r),
    {
        self.flags.unwrap()
    }
}

/// A thread member's settings. None has a name yet.
#[derive(Debug, Clone, Copy, PartialEq, Eq, Structural, PartialOrd, Ord, Hash)]
pub struct ThreadMemberFlags {
    bits: u64,
}

impl ThreadMemberFlags {
    pub const NONE: u64 = 0;

    /// Every flag that has a name.
    pub const ALL: u64 = Self::NONE;

    /// The set that holds the flags `bits`.
    pub closed spec fn of(bits: u64) -> Self {
        ThreadMemberFlags { bits }
    }

    /// The flags that the set holds.
    pub closed spec fn flags(self) -> u64 {
        self.bits
    }

    /// A set is the flags it was made of, and nothing more.
    pub broadcast proof fn lemma_of_flags(bits: u64)
        ensures
            #[trigger] Self::of(bits).flags() == bits,
    {
    }

    /// A set is made of its flags alone.
    pub broadcast proof fn lemma_flags_of(self)
        ensures
            #[trigger] Self::of(self.flags()) == self,
    {
    }
}

impl Flags for ThreadMemberFlags {
    open spec fn bits_of(self) -> u64 {
        self.flags()
    }

    open spec fn with_bits(bits: u64) -> Self {
        Self::of(bits)
    }

    open spec fn named() -> u64 {
        Self::ALL
    }

    proof fn lemma_with_bits(bits: u64) {
    }

    proof fn lemma_bits_are_all(self) {
    }

    fn named_bits() -> (r: u64) {
        Self::ALL
    }

    fn bits(&self) -> (r: u64) {
        self.bits
    }

    fn from_bits_truncate(bits: u64) -> (r: Self) {
        ThreadMemberFlags { bits: bits & Self::ALL }
    }
}

impl core::ops::BitOr for ThreadMemberFlags {
    type Output = ThreadMemberFlags;

    fn bitor(self, other: ThreadMemberFlags) -> (r: ThreadMemberFlags) {
        ThreadMemberFlags { bits: self.bits | other.bits }
    }
}

impl vstd::std_specs::ops::BitOrSpecImpl for ThreadMemberFlags {
    open spec fn obeys_bitor_spec() -> bool {
        true
    }

    open spec fn bitor_req(self, other: ThreadMemberFlags) -> bool {
        true
    }

    open spec fn bitor_spec(self, other: ThreadMemberFlags) -> ThreadMemberFlags {
        Self::of(self.flags() | other.flags())
    }
}

impl core::ops::BitAnd for ThreadMemberFlags {
    type Output = ThreadMemberFlags;

    fn bitand(self, other: ThreadMemberFlags) -> (r: ThreadMemberFlags) {
        ThreadMemberFlags { bits: self.bits & other.bits }
    }
}

impl vstd::std_specs::ops::BitAndSpecImpl for ThreadMemberFlags {
    open spec fn obeys_bitand_spec() -> bool {
        true
    }

    open spec fn bitand_req(self, other: ThreadMemberFlags) -> bool {
        true
    }

    open spec fn bitand_spec(self, other: ThreadMemberFlags) -> ThreadMemberFlags {
        Self::of(self.flags() & other.flags())
    }
}

impl core::ops::BitXor for ThreadMemberFlags {
    type Output = ThreadMemberFlags;

    fn bitxor(self, other: ThreadMemberFlags) -> (r: ThreadMemberFlags) {
        ThreadMemberFlags { bits: self.bits ^ other.bits }
    }
}

impl vstd::std_specs::ops::BitXorSpecImpl for ThreadMemberFlags {
    open spec fn obeys_bitxor_spec() -> bool {
        true
    }

    open spec fn bitxor_req(self, other: ThreadMemberFlags) -> bool {
        true
    }

    open spec fn bitxor_spec(self, other: ThreadMemberFlags) -> ThreadMemberFlags {
        Self::of(self.flags() ^ other.flags())
    }
}

impl core::ops::Not for ThreadMemberFlags {
    type Output = ThreadMemberFlags;

    fn not(self) -> (r: ThreadMemberFlags) {
        ThreadMemberFlags { bits: !self.bits & Self::ALL }
    }
}

impl vstd::std_specs::ops::NotSpecImpl for ThreadMemberFlags {
    open spec fn obeys_not_spec() -> bool {
        true
    }

    open spec fn not_req(self) -> bool {
        true
    }

    open spec fn not_spec(self) -> ThreadMemberFlags {
        Self::of(!self.flags() & Self::ALL)
    }
}

impl From<ThreadMemberFlags> for u64 {
    fn from(f: ThreadMemberFlags) -> (r: u64) {
        f.bits
    }
}

impl vstd::std_specs::convert::FromSpecImpl<ThreadMemberFlags> for u64 {
    open spec fn obeys_from_spec() -> bool {
        true
    }

    open spec fn from_spec(f: ThreadMemberFlags) -> u64 {
        f.flags()
    }
}

impl TryFrom<u64> for ThreadMemberFlags {
    type Error = EnumFromIntegerError;

    fn try_from(u: u64) -> (r: Result<Self, EnumFromIntegerError>) {
        if u & !Self::ALL == 0 {
            Ok(ThreadMemberFlags { bits: u })
        } else {
            Err(EnumFromIntegerError::new(u))
        }
    }
}

impl vstd::std_specs::convert::TryFromSpecImpl<u64> for ThreadMemberFlags {
    open spec fn obeys_try_from_spec() -> bool {
        true
    }

    open spec fn try_from_spec(u: u64) -> Result<Self, EnumFromIntegerError> {
        match spec_from_bits::<Self>(u) {
            Some(f) => Ok(f),
            None => Err(EnumFromIntegerError { raw: u }),
        }
    }
}

impl WireInteger for ThreadMemberFlags {
    open spec fn valid(self) -> bool {
        self.flags() & !Self::ALL == 0
    }

    open spec fn code(self) -> u64 {
        self.flags()
    }

    open spec fn of_code(raw: u64) -> Option<Self> {
        spec_from_bits::<Self>(raw)
    }

    proof fn lemma_code_is_read_back(self) {
    }

    proof fn lemma_of_code_is_exact(raw: u64) {
    }

    fn to_wire(self) -> (raw: u64) {
        self.bits
    }

    fn from_wire(raw: u64) -> (r: Option<Self>) {
        if raw & !Self::ALL == 0 {
            Some(ThreadMemberFlags { bits: raw })
        } else {
            None
        }
    }
}

/// The camera quality of a voice channel.
#[derive(Debug, Clone, Eq, PartialEq, Copy, Hash, Structural)]
pub enum VideoQualityMode {
    Auto,
    Full,
}

impl WireInteger for VideoQualityMode {
    open spec fn valid(self) -> bool {
        true
    }

    open spec fn code(self) -> u64 {
        match self {
            VideoQualityMode::Auto => 1,
            VideoQualityMode::Full => 2,
        }
    }

    open spec fn of_code(raw: u64) -> Option<Self> {
        if raw == 1 {
            Some(VideoQualityMode::Auto)
        } else if raw == 2 {
            Some(VideoQualityMode::Full)
        } else {
            None
        }
    }

    proof fn lemma_code_is_read_back(self) {
    }

    proof fn lemma_of_code_is_exact(raw: u64) {
    }

    fn to_wire(self) -> (raw: u64) {
        match self {
            VideoQualityMode::Auto => 1,
            VideoQualityMode::Full => 2,
        }
    }

    fn from_wire(raw: u64) -> (r: Option<Self>) {
        match raw {
            1 => Some(VideoQualityMode::Auto),
            2 => Some(VideoQualityMode::Full),
            _ => None,
        }
    }
}

impl From<VideoQualityMode> for u64 {
    fn from(u: VideoQualityMode) -> (r: u64) {
        u.to_wire()
    }
}

impl vstd::std_specs::convert::FromSpecImpl<VideoQualityMode> for u64 {
    open spec fn obeys_from_spec() -> bool {
        true
    }

    open spec fn from_spec(u: VideoQualityMode) -> u64 {
        u.code()
    }
}

impl TryFrom<u64> for VideoQualityMode {
    type Error = EnumFromIntegerError;

    fn try_from(u: u64) -> (r: Result<Self, EnumFromIntegerError>) {
        match Self::from_wire(u) {
            Some(v) => Ok(v),
            None => Err(EnumFromIntegerError::new(u)),
        }
    }
}

impl vstd::std_specs::convert::TryFromSpecImpl<u64> for VideoQualityMode {
    open spec fn obeys_try_from_spec() -> bool {
        true
    }

    open spec fn try_from_spec(u: u64) -> Result<Self, EnumFromIntegerError> {
        match Self::of_code(u) {
            Some(v) => Ok(v),
            None => Err(EnumFromIntegerError { raw: u }),
        }
    }
}

/// The one a permission overwrite is for: a role or a member.
#[derive(Debug, PartialEq, Eq, Clone, Copy, Hash)]
pub enum OverwriteId {
    Role(RoleId),
    Member(UserId),
}

impl OverwriteId {
    /// Whether the identifier is that of a member.
    pub fn is_member(self) -> (r: bool)
        ensures
            r == (self is Member),
    {
        matches!(self, Self::Member(_))
    }

    /// Whether the identifier is that of a role.
    pub fn is_role(self) -> (r: bool)
        ensures
            r == (self is Role),
    {
        matches!(self, Self::Role(_))
    }
}

impl From<UserId> for OverwriteId {
    fn from(id: UserId) -> (r: Self) {
        OverwriteId::Member(id)
    }
}

impl vstd::std_specs::convert::FromSpecImpl<UserId> for OverwriteId {
    open spec fn obeys_from_spec() -> bool {
        true
    }

    open spec fn from_spec(id: UserId) -> Self {
        OverwriteId::Member(id)
    }
}

impl From<RoleId> for OverwriteId {
    fn from(id: RoleId) -> (r: Self) {
        OverwriteId::Role(id)
    }
}

impl vstd::std_specs::convert::FromSpecImpl<RoleId> for OverwriteId {
    open spec fn obeys_from_spec() -> bool {
        true
    }

    open spec fn from_spec(id: RoleId) -> Self {
        OverwriteId::Role(id)
    }
}

/// The one a permission overwrite is for as it travels: the number of the identifier, and beside it a
/// number that says which kind it is of.
#[derive(Debug, Clone, Copy, Eq, PartialEq, Hash)]
pub struct OverwriteIdHelper {
    pub id: AnyId,
    pub kind: u64,
}

impl OverwriteIdHelper {
    /// The identifier that the pair stands for; none where `kind` is no
    /// number that a kind travels as.
    pub open spec fn spec_id(self) -> Option<OverwriteId> {
        if self.kind == 0 {
            Some(OverwriteId::Role(Id::of(self.id.value())))
        } else if self.kind == 1 {
            Some(OverwriteId::Member(Id::of(self.id.value())))
        } else {
            None
        }
    }

    /// The identifier that the pair stands for; none where `kind` is no
    /// number that a kind travels as.
    pub fn try_into_id(self) -> (r: Option<OverwriteId>)
        ensures
            r == self.spec_id(),
    {
        if self.kind == 0 {
            Some(OverwriteId::Role(self.id.into()))
        } else if self.kind == 1 {
            Some(OverwriteId::Member(self.id.into()))
        } else {
            None
        }
    }

    /// The identifier that the pair stands for. Only for a pair whose
    /// `kind` is known to be one of the two.
    pub fn into_id(self) -> (r: OverwriteId)
        requires
            self.kind == 0 || self.kind == 1,
        ensures
            Some(r) == self.spec_id(),
    {
        if self.kind == 0 {
            OverwriteId::Role(self.id.into())
        } else {
            OverwriteId::Member(self.id.into())
        }
    }
}

impl From<OverwriteId> for OverwriteIdHelper {
    fn from(id: OverwriteId) -> (r: Self) {
        match id {
            OverwriteId::Role(i) => OverwriteIdHelper { id: i.into(), kind: 0 },
            OverwriteId::Member(i) => OverwriteIdHelper { id: i.into(), kind: 1 },
        }
    }
}

impl vstd::std_specs::convert::FromSpecImpl<OverwriteId> for OverwriteIdHelper {
    open spec fn obeys_from_spec() -> bool {
        true
    }

    open spec fn from_spec(id: OverwriteId) -> Self {
        match id {
            OverwriteId::Role(i) => OverwriteIdHelper { id: AnyId::of(i.value()), kind: 0 },
            OverwriteId::Member(i) => OverwriteIdHelper { id: AnyId::of(i.value()), kind: 1 },
        }
    }
}

/// An identifier that is written as a pair and read again is the same
/// identifier.
pub proof fn lemma_overwrite_id_helper_round_trip(id: OverwriteId)
    ensures
        <OverwriteIdHelper as vstd::std_specs::convert::FromSpec<OverwriteId>>::from_spec(id).spec_id()
            == Some(id),
{
    broadcast use {Id::lemma_value_of, AnyId::lemma_of_value};

}

/// The permissions that a channel grants to or takes from a role or a member.
#[derive(Debug, Clone)]
pub struct Overwrite {
    pub id: OverwriteId,
    pub allow: String,
    pub deny: String,
}

impl Overwrite {
    pub fn id(&self) -> (r: OverwriteId)
        ensures
            r == self.id,
    {
        self.id
    }

    pub fn allow(&self) -> (r: &str)
        ensures
            r@ == self.allow@,
    {
        self.allow.as_str()
    }

    pub fn deny(&self) -> (r: &str)
        ensures
            r@ == self.deny@,
    {
        self.deny.as_str()
    }
}

/// The identifier of a channel.
pub type ChannelId = Id<entity::Channel>;

/// What a channel is for.
#[derive(Debug, Clone, Copy, Eq, PartialEq, Hash, Structural)]
pub enum ChannelKind {
    GuildText,
    Dm,
    GuildVoice,
    GroupDm,
    GuildCategory,
    GuildNews,
    GuildStore,
    GuildNewsThread,
    GuildPublicThread,
    GuildPrivateThread,
    GuildStageVoice,
}

impl WireInteger for ChannelKind {
    open spec fn valid(self) -> bool {
        true
    }

    open spec fn code(self) -> u64 {
        match self {
            ChannelKind::GuildText => 0,
            ChannelKind::Dm => 1,
            ChannelKind::GuildVoice => 2,
            ChannelKind::GroupDm => 3,
            ChannelKind::GuildCategory => 4,
            ChannelKind::GuildNews => 5,
            ChannelKind::GuildStore => 6,
            ChannelKind::GuildNewsThread => 10,
            ChannelKind::GuildPublicThread => 11,
            ChannelKind::GuildPrivateThread => 12,
            ChannelKind::GuildStageVoice => 13,
        }
    }

    open spec fn of_code(raw: u64) -> Option<Self> {
        if raw == 0 {
            Some(ChannelKind::GuildText)
        } else if raw == 1 {
            Some(ChannelKind::Dm)
        } else if raw == 2 {
            Some(ChannelKind::GuildVoice)
        } else if raw == 3 {
            Some(ChannelKind::GroupDm)
        } else if raw == 4 {
            Some(ChannelKind::GuildCategory)
        } else if raw == 5 {
            Some(ChannelKind::GuildNews)
        } else if raw == 6 {
            Some(ChannelKind::GuildStore)
        } else if raw == 10 {
            Some(ChannelKind::GuildNewsThread)
        } else if raw == 11 {
            Some(ChannelKind::GuildPublicThread)
        } else if raw == 12 {
            Some(ChannelKind::GuildPrivateThread)
        } else if raw == 13 {
            Some(ChannelKind::GuildStageVoice)
        } else {
            None
        }
    }

    proof fn lemma_code_is_read_back(self) {
    }

    proof fn lemma_of_code_is_exact(raw: u64) {
    }

    fn to_wire(self) -> (raw: u64) {
        match self {
            ChannelKind::GuildText => 0,
            ChannelKind::Dm => 1,
            ChannelKind::GuildVoice => 2,
            ChannelKind::GroupDm => 3,
            ChannelKind::GuildCategory => 4,
            ChannelKind::GuildNews => 5,
            ChannelKind::GuildStore => 6,
            ChannelKind::GuildNewsThread => 10,
            ChannelKind::GuildPublicThread => 11,
            ChannelKind::GuildPrivateThread => 12,
            ChannelKind::GuildStageVoice => 13,
        }
    }

    fn from_wire(raw: u64) -> (r: Option<Self>) {
        match raw {
            0 => Some(ChannelKind::GuildText),
            1 => Some(ChannelKind::Dm),
            2 => Some(ChannelKind::GuildVoice),
            3 => Some(ChannelKind::GroupDm),
            4 => Some(ChannelKind::GuildCategory),
            5 => Some(ChannelKind::GuildNews),
            6 => Some(ChannelKind::GuildStore),
            10 => Some(ChannelKind::GuildNewsThread),
            11 => Some(ChannelKind::GuildPublicThread),
            12 => Some(ChannelKind::GuildPrivateThread),
            13 => Some(ChannelKind::GuildStageVoice),
            _ => None,
        }
    }
}

impl From<ChannelKind> for u64 {
    fn from(u: ChannelKind) -> (r: u64) {
        u.to_wire()
    }
}

impl vstd::std_specs::convert::FromSpecImpl<ChannelKind> for u64 {
    open spec fn obeys_from_spec() -> bool {
        true
    }

    open spec fn from_spec(u: ChannelKind) -> u64 {
        u.code()
    }
}

impl TryFrom<u64> for ChannelKind {
    type Error = EnumFromIntegerError;

    fn try_from(u: u64) -> (r: Result<Self, EnumFromIntegerError>) {
        match Self::from_wire(u) {
            Some(v) => Ok(v),
            None => Err(EnumFromIntegerError::new(u)),
        }
    }
}

impl vstd::std_specs::convert::TryFromSpecImpl<u64> for ChannelKind {
    open spec fn obeys_try_from_spec() -> bool {
        true
    }

    open spec fn try_from_spec(u: u64) -> Result<Self, EnumFromIntegerError> {
        match Self::of_code(u) {
            Some(v) => Ok(v),
            None => Err(EnumFromIntegerError { raw: u }),
        }
    }
}

/// A channel of a guild, a conversation between users, or a thread.
#[derive(Debug, Clone)]
pub struct Channel {
    pub id: ChannelId,
    pub kind: Option<IntegerEnum<ChannelKind>>,
    pub guild_id: Option<GuildId>,
    pub position: Option<u64>,
    pub permission_overwrites: Option<Vec<Overwrite>>,
    pub name: Option<String>,
    pub topic: Option<String>,
    pub nsfw: Option<bool>,
    pub last_message_id: Option<MessageId>,
    pub bitrate: Option<u64>,
    pub user_limit: Option<u64>,
    pub rate_limit_per_user: Option<u64>,
    pub recipients: Option<Vec<User>>,
    pub icon: Option<String>,
    pub owner_id: Option<UserId>,
    pub application_id: Option<ApplicationId>,
    pub parent_id: Option<ChannelId>,
    pub last_pin_timestamp: Option<DateTime>,
    pub rtc_region: Option<String>,
    pub video_quality_mode: Option<IntegerEnum<VideoQualityMode>>,
    pub message_count: Option<u64>,
    pub member_count: Option<u64>,
    pub thread_metadata: Option<ThreadMetadata>,
    pub member: Option<ThreadMember>,
}

impl Channel {
    pub fn id(&self) -> (r: ChannelId)
        ensures
            r == self.id,
    {
        self.id
    }

    pub fn try_kind(&self) -> (r: Option<Result<ChannelKind, EnumFromIntegerError>>)
        ensures
            r == match self.kind {
                Some(e) => Some(e.spec_try_unwrap()),
                None => None,
            },
    {
        match self.kind {
            Some(e) => Some(e.try_unwrap()),
            None => None,
        }
    }

    pub fn kind(&self) -> (r: Option<ChannelKind>)
        requires
            self.kind matches Some(e) ==> e.0 is Parsed,
        ensures
            r == match self.kind {
                Some(e) => Some(e.0->Parsed_0),
                None => None,
            },
    {
        match self.kind {
            Some(e) => Some(e.unwrap()),
            None => None,
        }
    }

    pub fn guild_id(&self) -> (r: Option<GuildId>)
        ensures
            r == self.guild_id,
    {
        self.guild_id
    }

    pub fn position(&self) -> (r: Option<u64>)
        ensures
            r == self.position,
    {
        self.position
    }

    pub fn permission_overwrites(&self) -> (r: Option<&[Overwrite]>)
        ensures
            same_items(r, self.permission_overwrites),
    {
        opt_slice(&self.permission_overwrites)
    }

    pub fn name(&self) -> (r: Option<&str>)
        ensures
            same_text(r, self.name),
    {
        opt_str(&self.name)
    }

    pub fn topic(&self) -> (r: Option<&str>)
        ensures
            same_text(r, self.topic),
    {
        opt_str(&self.topic)
    }

    pub fn nsfw(&self) -> (r: Option<bool>)
        ensures
            r == self.nsfw,
    {
        self.nsfw
    }

    pub fn last_message_id(&self) -> (r: Option<MessageId>)
        ensures
            r == self.last_message_id,
    {
        self.last_message_id
    }

    pub fn bitrate(&self) -> (r: Option<u64>)
        ensures
            r == self.bitrate,
    {
        self.bitrate
    }

    pub fn user_limit(&self) -> (r: Option<u64>)
        ensures
            r == self.user_limit,
    {
        self.user_limit
    }

    pub fn rate_limit_per_user(&self) -> (r: Option<u64>)
        ensures
            r == self.rate_limit_per_user,
    {
        self.rate_limit_per_user
    }

    pub fn recipients(&self) -> (r: Option<&[User]>)
        ensures
            same_items(r, self.recipients),
    {
        opt_slice(&self.recipients)
    }

    pub fn icon(&self) -> (r: Option<&str>)
        ensures
            same_text(r, self.icon),
    {
        opt_str(&self.icon)
    }

    pub fn owner_id(&self) -> (r: Option<UserId>)
        ensures
            r == self.owner_id,
    {
        self.owner_id
    }

    pub fn last_pin_timestamp(&self) -> (r: Option<DateTime>)
        ensures
            r == self.last_pin_timestamp,
    {
        self.last_pin_timestamp
    }

    pub fn rtc_region(&self) -> (r: Option<&str>)
        ensures
            same_text(r, self.rtc_region),
    {
        opt_str(&self.rtc_region)
    }

    pub fn try_video_quality_mode(&self) -> (r: Option<Result<VideoQualityMode, EnumFromIntegerError>>)
        ensures
            r == match self.video_quality_mode {
                Some(e) => Some(e.spec_try_unwrap()),
                None => None,
            },
    {
        match self.video_quality_mode {
            Some(e) => Some(e.try_unwrap()),
            None => None,
        }
    }

    pub fn video_quality_mode(&self) -> (r: Option<VideoQualityMode>)
        requires
            self.video_quality_mode matches Some(e) ==> e.0 is Parsed,
        ensures
            r == match self.video_quality_mode {
                Some(e) => Some(e.0->Parsed_0),
                None => None,
            },
    {
        match self.video_quality_mode {
            Some(e) => Some(e.unwrap()),
            None => None,
        }
    }

    pub fn message_count(&self) -> (r: Option<u64>)
        ensures
            r == self.message_count,
    {
        self.message_count
    }

    pub fn member_count(&self) -> (r: Option<u64>)
        ensures
            r == self.member_count,
    {
        self.member_count
    }

    pub fn thread_metadata(&self) -> (r: Option<&ThreadMetadata>)
        ensures
            same_value(r, self.thread_metadata),
    {
        opt_ref(&self.thread_metadata)
    }

    pub fn member(&self) -> (r: Option<&ThreadMember>)
        ensures
            same_value(r, self.member),
    {
        opt_ref(&self.member)
    }

    pub fn parent_id(&self) -> (r: Option<ChannelId>)
        ensures
            r == self.parent_id,
    {
        self.parent_id
    }
}

/// The changes to make to a channel. What is left out stays.
#[derive(Debug, Clone)]
pub struct EditChannel {
    pub name: Option<String>,
    pub icon: Option<UploadImage>,
    pub kind: Option<IntegerEnum<ChannelKind>>,
    pub position: Option<u64>,
    pub topic: Option<String>,
    pub nsfw: Option<bool>,
    pub rate_limit_per_user: Option<u64>,
    pub bitrate: Option<u64>,
    pub user_limit: Option<u64>,
    pub permission_overwrites: Option<Vec<Overwrite>>,
    pub parent_id: Option<ChannelId>,
    pub rtc_region: Option<String>,
    pub video_quality_mode: Option<IntegerEnum<VideoQualityMode>>,
    pub archived: Option<bool>,
    pub auto_archive_duration: Option<u64>,
    pub locked: Option<bool>,
}

} // verus!
