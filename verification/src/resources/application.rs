//! Applications and what they offer.

pub mod commands;

use vstd::prelude::*;
use vstd::string::*;

use crate::borrow::{opt_ref, opt_slice, opt_str, same_items, same_text, same_value};
use crate::decimal::decimal;
use crate::enums::{EnumFromIntegerError, IntegerEnum, WireInteger};
use crate::entity;
use crate::flags::{spec_from_bits, Flags};
use crate::game_sdk::SkuId;
use crate::image::{Format, Image};
use crate::resources::guild::GuildId;
use crate::resources::user::User;
use crate::snowflake::Id;
use crate::teams::Team;

pub use self::commands::{
    ApplicationCommand, ApplicationCommandId, ApplicationCommandOption,
    ApplicationCommandOptionChoice, ApplicationCommandOptionKind, ApplicationCommandPermission,
    ChoiceValue, CmdPermIdHelper, CommandPermissionId, EditApplicationCommand,
    EditGuildApplicationCommandPermissions, GuildApplicationCommandPermissions,
    InteractionApplicationCommandCallbackData, InteractionCallbackFlags, InteractionCallbackKind,
    InteractionResponse, NewApplicationCommand,
};

verus! {

/// What an application has been granted or has done.
#[derive(Debug, Clone, Copy, PartialEq, Eq, Structural, PartialOrd, Ord, Hash)]
pub struct ApplicationFlags {
    bits: u64,
}

impl ApplicationFlags {
    pub const MANAGED_EMOJI: u64 = 1 << 2;
    pub const GROUP_DM_CREATE: u64 = 1 << 4;
    pub const RPC_HAS_CONNECTED: u64 = 1 << 11;
    pub const GATEWAY_PRESENCE: u64 = 1 << 12;
    pub const GATEWAY_PRESENCE_LIMITED: u64 = 1 << 13;
    pub const GATEWAY_GUILD_MEMBERS: u64 = 1 << 14;
    pub const GATEWAY_GUILD_MEMBERS_LIMITED: u64 = 1 << 15;
    pub const VERIFICATION_PENDING_GUILD_LIMIT: u64 = 1 << 16;
    pub const EMBEDDED: u64 = 1 << 17;

    /// Every flag that has a name.
    pub const ALL: u64 = Self::MANAGED_EMOJI
        | Self::GROUP_DM_CREATE
        | Self::RPC_HAS_CONNECTED
        | Self::GATEWAY_PRESENCE
        | Self::GATEWAY_PRESENCE_LIMITED
        | Self::GATEWAY_GUILD_MEMBERS
        | Self::GATEWAY_GUILD_MEMBERS_LIMITED
        | Self::VERIFICATION_PENDING_GUILD_LIMIT
        | Self::EMBEDDED;

    /// The set that holds the flags `bits`.
    pub closed spec fn of(bits: u64) -> Self {
        ApplicationFlags { bits }
    }

    /// The flags that the set holds.
    pub closed spec fn flags(self) -> u64 {
        self.bits
    }

    /// A set is the flags it was made of, and nothing more.
    pub broadcast proof fn lemma_of_flags(bits: u64)
        ensures
            #[trigger] Self::of(bits).flags() == bits,
    {
    }

    /// A set is made of its flags alone.
    pub broadcast proof fn lemma_flags_of(self)
        ensures
            #[trigger] Self::of(self.flags()) == self,
    {
    }
}

impl Flags for ApplicationFlags {
    open spec fn bits_of(self) -> u64 {
        self.flags()
    }

    open spec fn with_bits(bits: u64) -> Self {
        Self::of(bits)
    }

    open spec fn named() -> u64 {
        Self::ALL
    }

    proof fn lemma_with_bits(bits: u64) {
    }

    proof fn lemma_bits_are_all(self) {
    }

    fn named_bits() -> (r: u64) {
        Self::ALL
    }

    fn bits(&self) -> (r: u64) {
        self.bits
    }

    fn from_bits_truncate(bits: u64) -> (r: Self) {
        ApplicationFlags { bits: bits & Self::ALL }
    }
}

impl core::ops::BitOr for ApplicationFlags {
    type Output = ApplicationFlags;

    fn bitor(self, other: ApplicationFlags) -> (r: ApplicationFlags) {
        ApplicationFlags { bits: self.bits | other.bits }
    }
}

impl vstd::std_specs::ops::BitOrSpecImpl for ApplicationFlags {
    open spec fn obeys_bitor_spec() -> bool {
        true
    }

    open spec fn bitor_req(self, other: ApplicationFlags) -> bool {
        true
    }

    open spec fn bitor_spec(self, other: ApplicationFlags) -> ApplicationFlags {
        Self::of(self.flags() | other.flags())
    }
}

impl core::ops::BitAnd for ApplicationFlags {
    type Output = ApplicationFlags;

    fn bitand(self, other: ApplicationFlags) -> (r: ApplicationFlags) {
        ApplicationFlags { bits: self.bits & other.bits }
    }
}

impl vstd::std_specs::ops::BitAndSpecImpl for ApplicationFlags {
    open spec fn obeys_bitand_spec() -> bool {
        true
    }

    open spec fn bitand_req(self, other: ApplicationFlags) -> bool {
        true
    }

    open spec fn bitand_spec(self, other: ApplicationFlags) -> ApplicationFlags {
        Self::of(self.flags() & other.flags())
    }
}

impl core::ops::BitXor for ApplicationFlags {
    type Output = ApplicationFlags;

    fn bitxor(self, other: ApplicationFlags) -> (r: ApplicationFlags) {
        ApplicationFlags { bits: self.bits ^ other.bits }
    }
}

impl vstd::std_specs::ops::BitXorSpecImpl for ApplicationFlags {
    open spec fn obeys_bitxor_spec() -> bool {
        true
    }

    open spec fn bitxor_req(self, other: ApplicationFlags) -> bool {
        true
    }

    open spec fn bitxor_spec(self, other: ApplicationFlags) -> ApplicationFlags {
        Self::of(self.flags() ^ other.flags())
    }
}

impl core::ops::Not for ApplicationFlags {
    type Output = ApplicationFlags;

    fn not(self) -> (r: ApplicationFlags) {
        ApplicationFlags { bits: !self.bits & Self::ALL }
    }
}

impl vstd::std_specs::ops::NotSpecImpl for ApplicationFlags {
    open spec fn obeys_not_spec() -> bool {
        true
    }

    open spec fn not_req(self) -> bool {
        true
    }

    open spec fn not_spec(self) -> ApplicationFlags {
        Self::of(!self.flags() & Self::ALL)
    }
}

impl From<ApplicationFlags> for u64 {
    fn from(f: ApplicationFlags) -> (r: u64) {
        f.bits
    }
}

impl vstd::std_specs::convert::FromSpecImpl<ApplicationFlags> for u64 {
    open spec fn obeys_from_spec() -> bool {
        true
    }

    open spec fn from_spec(f: ApplicationFlags) -> u64 {
        f.flags()
    }
}

impl TryFrom<u64> for ApplicationFlags {
    type Error = EnumFromIntegerError;

    fn try_from(u: u64) -> (r: Result<Self, EnumFromIntegerError>) {
        if u & !Self::ALL == 0 {
            Ok(ApplicationFlags { bits: u })
        } else {
            Err(EnumFromIntegerError::new(u))
        }
    }
}

impl vstd::std_specs::convert::TryFromSpecImpl<u64> for ApplicationFlags {
    open spec fn obeys_try_from_spec() -> bool {
        true
    }

    open spec fn try_from_spec(u: u64) -> Result<Self, EnumFromIntegerError> {
        match spec_from_bits::<Self>(u) {
            Some(f) => Ok(f),
            None => Err(EnumFromIntegerError { raw: u }),
        }
    }
}

impl WireInteger for ApplicationFlags {
    open spec fn valid(self) -> bool {
        self.flags() & !Self::ALL == 0
    }

    open spec fn code(self) -> u64 {
        self.flags()
    }

    open spec fn of_code(raw: u64) -> Option<Self> {
        spec_from_bits::<Self>(raw)
    }

    proof fn lemma_code_is_read_back(self) {
    }

    proof fn lemma_of_code_is_exact(raw: u64) {
    }

    fn to_wire(self) -> (raw: u64) {
        self.bits
    }

    fn from_wire(raw: u64) -> (r: Option<Self>) {
        if raw & !Self::ALL == 0 {
            Some(ApplicationFlags { bits: raw })
        } else {
            None
        }
    }
}

/// Where the icon of the application is served.
#[derive(Debug, Clone)]
pub struct ApplicationIcon {
    pub bare_path: String,
}

impl ApplicationIcon {
    /// The path, without extension, of the icon with the hash `hash` of
    /// the application `id`.
    pub open spec fn spec_bare_path_of(id: ApplicationId, hash: Seq<char>) -> Seq<char> {
        "app-icons/"@ + decimal(id.value() as nat) + "/"@ + hash
    }

    /// The icon with the hash `hash` of the application `id`.
    pub fn new(id: ApplicationId, hash: &str) -> (r: Self)
        ensures
            r.bare_path@ == Self::spec_bare_path_of(id, hash@),
    {
        let mut bare_path = String::from_str("app-icons/");
        bare_path.append(id.to_string().as_str());
        bare_path.append("/");
        bare_path.append(hash);
        ApplicationIcon { bare_path }
    }
}

impl Image for ApplicationIcon {
    open spec fn spec_supports(&self, format: Format) -> bool {
        format is Jpeg || format is Png || format is WebP
    }

    open spec fn spec_bare_path(&self) -> Seq<char> {
        self.bare_path@
    }

    fn supports(&self, format: Format) -> (r: bool) {
        matches!(format, Format::Jpeg | Format::Png | Format::WebP)
    }

    fn bare_path(&self) -> (r: &str) {
        self.bare_path.as_str()
    }
}

/// The identifier of an application.
pub type ApplicationId = Id<entity::Application>;

/// An application that has been registered with the platform.
#[derive(Debug, Clone)]
pub struct Application {
    pub id: ApplicationId,
    pub name: String,
    pub icon: Option<String>,
    pub description: String,
    pub rpc_origins: Option<Vec<String>>,
    pub bot_public: bool,
    pub bot_require_code_grant: bool,
    pub terms_of_service_url: Option<String>,
    pub privacy_policy_url: Option<String>,
    pub owner: User,
    pub summary: String,
    pub verify_key: String,
    pub team: Option<Team>,
    pub guild_id: Option<GuildId>,
    pub primary_sku_id: Option<SkuId>,
    pub slug: Option<String>,
    pub cover_image: Option<String>,
    pub flags: Option<IntegerEnum<ApplicationFlags>>,
}

impl Application {
    pub fn id(&self) -> (r: ApplicationId)
        ensures
            r == self.id,
    {
        self.id
    }

    pub fn name(&self) -> (r: &str)
        ensures
            r@ == self.name@,
    {
        self.name.as_str()
    }

    /// Where the application's icon is served, where there is one.
    pub fn icon(&self) -> (r: Option<ApplicationIcon>)
        ensures
            match r {
                Some(i) => self.icon matches Some(hash) && i.bare_path@
                    == ApplicationIcon::spec_bare_path_of(self.id, hash@),
                None => self.icon is None,
            },
    {
        match &self.icon {
            Some(hash) => Some(ApplicationIcon::new(self.id, hash.as_str())),
            None => None,
        }
    }

    pub fn description(&self) -> (r: &str)
        ensures
            r@ == self.description@,
    {
        self.description.as_str()
    }

    pub fn rpc_origins(&self) -> (r: Option<&[String]>)
        ensures
            same_items(r, self.rpc_origins),
    {
        opt_slice(&self.rpc_origins)
    }

    pub fn bot_public(&self) -> (r: bool)
        ensures
            r == self.bot_public,
    {
        self.bot_public
    }

    pub fn bot_require_code_grant(&self) -> (r: bool)
        ensures
            r == self.bot_require_code_grant,
    {
        self.bot_require_code_grant
    }

    pub fn terms_of_service_url(&self) -> (r: Option<&str>)
        ensures
            same_text(r, self.terms_of_service_url),
    {
        opt_str(&self.terms_of_service_url)
    }

    pub fn privacy_policy_url(&self) -> (r: Option<&str>)
        ensures
            same_text(r, self.privacy_policy_url),
    {
        opt_str(&self.privacy_policy_url)
    }

    pub fn owner(&self) -> (r: &User)
        ensures
            *r == self.owner,
    {
        &self.owner
    }

    pub fn summary(&self) -> (r: &str)
        ensures
            r@ == self.summary@,
    {
        self.summary.as_str()
    }

    pub fn verify_key(&self) -> (r: &str)
        ensures
            r@ == self.verify_key@,
    {
        self.verify_key.as_str()
    }

    pub fn team(&self) -> (r: Option<&Team>)
        ensures
            same_value(r, self.team),
    {
        opt_ref(&self.team)
    }

    pub fn guild_id(&self) -> (r: Option<GuildId>)
        ensures
            r == self.guild_id,
    {
        self.guild_id
    }

    pub fn primary_sku_id(&self) -> (r: Option<SkuId>)
        ensures
            r == self.primary_sku_id,
    {
        self.primary_sku_id
    }

    pub fn slug(&self) -> (r: Option<&str>)
        ensures
            same_text(r, self.slug),
    {
        opt_str(&self.slug)
    }

    /// Where the application's cover image is served, where there is one.
    pub fn cover_image(&self) -> (r: Option<ApplicationIcon>)
        ensures
            match r {
                Some(i) => self.cover_image matches Some(hash) && i.bare_path@
                    == ApplicationIcon::spec_bare_path_of(self.id, hash@),
                None => self.cover_image is None,
            },
    {
        match &self.cover_image {
            Some(hash) => Some(ApplicationIcon::new(self.id, hash.as_str())),
            None => None,
        }
    }

    pub fn try_flags(&self) -> (r: Option<Result<ApplicationFlags, EnumFromIntegerError>>)
        ensures
            r == match self.flags {
                Some(e) => Some(e.spec_try_unwrap()),
                None => None,
            },
    {
        match self.flags {
            Some(e) => Some(e.try_unwrap()),
            None => None,
        }
    }

    pub fn flags(&self) -> (r: Option<ApplicationFlags>)
        requires
            self.flags matches Some(e) ==> e.0 is Parsed,
        ensures
            r == match self.flags {
                Some(e) => Some(e.0->Parsed_0),
                None => None,
            },
    {
        match self.flags {
            Some(e) => Some(e.unwrap()),
            None => None,
        }
    }
}

} // verus!
