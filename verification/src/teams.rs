//! Teams of developers, which own applications.

use vstd::prelude::*;
use vstd::string::*;

use crate::borrow::{opt_str, same_text};
use crate::decimal::decimal;
use crate::entity;
use crate::enums::{EnumFromIntegerError, Inner, IntegerEnum, WireInteger};
use crate::image::{Format, Image};
use crate::resources::user::{User, UserId};
use crate::snowflake::Id;

verus! {

/// The identifier of a team.
pub type TeamId = Id<entity::Team>;

/// How far a user has come into a team.
#[derive(Debug, Clone, Copy, Eq, PartialEq, Structural)]
pub enum MembershipState {
    Invited,
    Accepted,
}

impl WireInteger for MembershipState {
    open spec fn valid(self) -> bool {
        true
    }

    open spec fn code(self) -> u64 {
        match self {
            MembershipState::Invited => 1,
            MembershipState::Accepted => 2,
        }
    }

    open spec fn of_code(raw: u64) -> Option<Self> {
        if raw == 1 {
            Some(MembershipState::Invited)
        } else if raw == 2 {
            Some(MembershipState::Accepted)
        } else {
            None
        }
    }

    proof fn lemma_code_is_read_back(self) {
    }

    proof fn lemma_of_code_is_exact(raw: u64) {
    }

    fn to_wire(self) -> (raw: u64) {
        match self {
            MembershipState::Invited => 1,
            MembershipState::Accepted => 2,
        }
    }

    fn from_wire(raw: u64) -> (r: Option<Self>) {
        match raw {
            1 => Some(MembershipState::Invited),
            2 => Some(MembershipState::Accepted),
            _ => None,
        }
    }
}

impl From<MembershipState> for u64 {
    fn from(u: MembershipState) -> (r: u64) {
        u.to_wire()
    }
}

impl vstd::std_specs::convert::FromSpecImpl<MembershipState> for u64 {
    open spec fn obeys_from_spec() -> bool {
        true
    }

    open spec fn from_spec(u: MembershipState) -> u64 {
        u.code()
    }
}

impl TryFrom<u64> for MembershipState {
    type Error = EnumFromIntegerError;

    fn try_from(u: u64) -> (r: Result<Self, EnumFromIntegerError>) {
        match Self::from_wire(u) {
            Some(v) => Ok(v),
            None => Err(EnumFromIntegerError::new(u)),
        }
    }
}

impl vstd::std_specs::convert::TryFromSpecImpl<u64> for MembershipState {
    open spec fn obeys_try_from_spec() -> bool {
        true
    }

    open spec fn try_from_spec(u: u64) -> Result<Self, EnumFromIntegerError> {
        match Self::of_code(u) {
            Some(v) => Ok(v),
            None => Err(EnumFromIntegerError { raw: u }),
        }
    }
}

/// A user as a member of a team.
#[derive(Debug, Clone)]
pub struct TeamMember {
    pub membership_state: IntegerEnum<MembershipState>,
    pub permissions: Vec<String>,
    pub team_id: TeamId,
    pub user: User,
}

impl TeamMember {
    pub fn try_membership_state(&self) -> (r: Result<MembershipState, EnumFromIntegerError>)
        ensures
            r == self.membership_state.spec_try_unwrap(),
    {
        self.membership_state.try_unwrap()
    }

    pub fn membership_state(&self) -> (r: MembershipState)
        requires
            self.membership_state.0 is Parsed,
        ensures
            self.membership_state.0 == Inner::<MembershipState, u64>::Parsed(r),
    {
        self.membership_state.unwrap()
    }

    pub fn permissions(&self) -> (r: &[String])
        ensures
            r@ == self.permissions@,
    {
        self.permissions.as_slice()
    }

    pub fn team_id(&self) -> (r: TeamId)
        ensures
            r == self.team_id,
    {
        self.team_id
    }

    pub fn user(&self) -> (r: &User)
        ensures
            *r == self.user,
    {
        &self.user
    }
}

/// Where the icon of the team is served.
#[derive(Debug, Clone)]
pub struct TeamIcon {
    pub bare_path: String,
}

impl TeamIcon {
    /// The path, without extension, of the icon with the hash `hash` of
    /// the team `id`.
    pub open spec fn spec_bare_path_of(id: TeamId, hash: Seq<char>) -> Seq<char> {
        "team-icons/"@ + decimal(id.value() as nat) + "/"@ + hash
    }

    /// The icon with the hash `hash` of the team `id`.
    pub fn new(id: TeamId, hash: &str) -> (r: Self)
        ensures
            r.bare_path@ == Self::spec_bare_path_of(id, hash@),
    {
        let mut bare_path = String::from_str("team-icons/");
        bare_path.append(id.to_string().as_str());
        bare_path.append("/");
        bare_path.append(hash);
        TeamIcon { bare_path }
    }
}

impl Image for TeamIcon {
    open spec fn spec_supports(&self, format: Format) -> bool {
        format is Jpeg || format is Png || format is WebP
    }

    open spec fn spec_bare_path(&self) -> Seq<char> {
        self.bare_path@
    }

    fn supports(&self, format: Format) -> (r: bool) {
        matches!(format, Format::Jpeg | Format::Png | Format::WebP)
    }

    fn bare_path(&self) -> (r: &str) {
        self.bare_path.as_str()
    }
}

/// A team of developers.
#[derive(Debug, Clone)]
pub struct Team {
    pub id: TeamId,
    pub icon: Option<String>,
    pub members: Vec<TeamMember>,
    pub name: Option<String>,
    pub owner_user_id: Option<UserId>,
}

impl Team {
    pub fn id(&self) -> (r: TeamId)
        ensures
            r == self.id,
    {
        self.id
    }

    /// Where the team's icon is served, where there is one.
    pub fn icon(&self) -> (r: Option<TeamIcon>)
        ensures
            match r {
                Some(i) => self.icon matches Some(hash) && i.bare_path@
                    == TeamIcon::spec_bare_path_of(self.id, hash@),
                None => self.icon is None,
            },
    {
        match &self.icon {
            Some(hash) => Some(TeamIcon::new(self.id, hash.as_str())),
            None => None,
        }
    }

    pub fn members(&self) -> (r: &[TeamMember])
        ensures
            r@ == self.members@,
    {
        self.members.as_slice()
    }

    pub fn name(&self) -> (r: Option<&str>)
        ensures
            same_text(r, self.name),
    {
        opt_str(&self.name)
    }

    pub fn owner_user_id(&self) -> (r: Option<UserId>)
        ensures
            r == self.owner_user_id,
    {
        self.owner_user_id
    }
}

} // verus!
