//! The commands that an application offers.

use vstd::prelude::*;

use crate::application::ApplicationId;
use crate::borrow::{opt_slice, same_items};
use crate::entity;
use crate::enums::{EnumFromIntegerError, IntegerEnum, WireInteger};
use crate::snowflake::Id;

verus! {

/// What a choice stands for: a number or text.
#[derive(Debug, Clone, Eq, PartialEq, Hash)]
pub enum ChoiceValue {
    Integer(u64),
    String(String),
}

impl ChoiceValue {
    /// The text, where the value is text.
    pub fn into_string(self) -> (r: Option<String>)
        ensures
            r == match self {
                ChoiceValue::String(u) => Some(u),
                _ => None,
            },
    {
        match self {
            Self::String(u) => Some(u),
            _ => None,
        }
    }

    /// The text, where the value is text.
    pub fn as_str(&self) -> (r: Option<&str>)
        ensures
            match r {
                Some(s) => self matches ChoiceValue::String(u) && s@ == u@,
                None => !(self is String),
            },
    {
        match self {
            Self::String(u) => Some(u.as_str()),
            _ => None,
        }
    }

    /// The number, where the value is a number.
    pub fn into_u64(self) -> (r: Option<u64>)
        ensures
            r == match self {
                ChoiceValue::Integer(u) => Some(u),
                _ => None,
            },
    {
        match self {
            Self::Integer(u) => Some(u),
            _ => None,
        }
    }

    /// The number, where the value is a number.
    pub fn as_u64(&self) -> (r: Option<u64>)
        ensures
            r == match *self {
                ChoiceValue::Integer(u) => Some(u),
                _ => None,
            },
    {
        match self {
            Self::Integer(u) => Some(*u),
            _ => None,
        }
    }
}

impl From<&str> for ChoiceValue {
    fn from(u: &str) -> (r: Self)
        ensures
            r matches ChoiceValue::String(s) && s@ == u@,
    {
        Self::String(u.to_owned())
    }
}

impl vstd::std_specs::convert::FromSpecImpl<&str> for ChoiceValue {
    open spec fn obeys_from_spec() -> bool {
        false
    }

    open spec fn from_spec(u: &str) -> Self {
        arbitrary()
    }
}

impl From<String> for ChoiceValue {
    fn from(u: String) -> (r: Self) {
        Self::String(u)
    }
}

impl vstd::std_specs::convert::FromSpecImpl<String> for ChoiceValue {
    open spec fn obeys_from_spec() -> bool {
        true
    }

    open spec fn from_spec(u: String) -> Self {
        ChoiceValue::String(u)
    }
}

impl From<u64> for ChoiceValue {
    fn from(u: u64) -> (r: Self) {
        Self::Integer(u)
    }
}

impl vstd::std_specs::convert::FromSpecImpl<u64> for ChoiceValue {
    open spec fn obeys_from_spec() -> bool {
        true
    }

    open spec fn from_spec(u: u64) -> Self {
        ChoiceValue::Integer(u)
    }
}

/// One of the values that a user may pick for an option.
#[derive(Debug, Clone)]
pub struct ApplicationCommandOptionChoice {
    pub name: String,
    pub value: ChoiceValue,
}

impl ApplicationCommandOptionChoice {
    /// A new value made of its parts.
    pub fn new(name: String, value: ChoiceValue) -> (r: Self)
        ensures
            r == (ApplicationCommandOptionChoice {
                name,
                value,
            }),
    {
        ApplicationCommandOptionChoice {
            name,
            value,
        }
    }
}

/// What an option of a command takes.
#[derive(Debug, Clone, Copy, Eq, PartialEq, Structural)]
pub enum ApplicationCommandOptionKind {
    SubCommand,
    SubCommandGroup,
    String,
    Integer,
    Boolean,
    User,
    Channel,
    Role,
    Mentionable,
}

impl WireInteger for ApplicationCommandOptionKind {
    open spec fn valid(self) -> bool {
        true
    }

    open spec fn code(self) -> u64 {
        match self {
            ApplicationCommandOptionKind::SubCommand => 1,
            ApplicationCommandOptionKind::SubCommandGroup => 2,
            ApplicationCommandOptionKind::String => 3,
            ApplicationCommandOptionKind::Integer => 4,
            ApplicationCommandOptionKind::Boolean => 5,
            ApplicationCommandOptionKind::User => 6,
            ApplicationCommandOptionKind::Channel => 7,
            ApplicationCommandOptionKind::Role => 8,
            ApplicationCommandOptionKind::Mentionable => 9,
        }
    }

    open spec fn of_code(raw: u64) -> Option<Self> {
        if raw == 1 {
            Some(ApplicationCommandOptionKind::SubCommand)
        } else if raw == 2 {
            Some(ApplicationCommandOptionKind::SubCommandGroup)
        } else if raw == 3 {
            Some(ApplicationCommandOptionKind::String)
        } else if raw == 4 {
            Some(ApplicationCommandOptionKind::Integer)
        } else if raw == 5 {
            Some(ApplicationCommandOptionKind::Boolean)
        } else if raw == 6 {
            Some(ApplicationCommandOptionKind::User)
        } else if raw == 7 {
            Some(ApplicationCommandOptionKind::Channel)
        } else if raw == 8 {
            Some(ApplicationCommandOptionKind::Role)
        } else if raw == 9 {
            Some(ApplicationCommandOptionKind::Mentionable)
        } else {
            None
        }
    }

    proof fn lemma_code_is_read_back(self) {
    }

    proof fn lemma_of_code_is_exact(raw: u64) {
    }

    fn to_wire(self) -> (raw: u64) {
        match self {
            ApplicationCommandOptionKind::SubCommand => 1,
            ApplicationCommandOptionKind::SubCommandGroup => 2,
            ApplicationCommandOptionKind::String => 3,
            ApplicationCommandOptionKind::Integer => 4,
            ApplicationCommandOptionKind::Boolean => 5,
            ApplicationCommandOptionKind::User => 6,
            ApplicationCommandOptionKind::Channel => 7,
            ApplicationCommandOptionKind::Role => 8,
            ApplicationCommandOptionKind::Mentionable => 9,
        }
    }

    fn from_wire(raw: u64) -> (r: Option<Self>) {
        match raw {
            1 => Some(ApplicationCommandOptionKind::SubCommand),
            2 => Some(ApplicationCommandOptionKind::SubCommandGroup),
            3 => Some(ApplicationCommandOptionKind::String),
            4 => Some(ApplicationCommandOptionKind::Integer),
            5 => Some(ApplicationCommandOptionKind::Boolean),
            6 => Some(ApplicationCommandOptionKind::User),
            7 => Some(ApplicationCommandOptionKind::Channel),
            8 => Some(ApplicationCommandOptionKind::Role),
            9 => Some(ApplicationCommandOptionKind::Mentionable),
            _ => None,
        }
    }
}

impl From<ApplicationCommandOptionKind> for u64 {
    fn from(u: ApplicationCommandOptionKind) -> (r: u64) {
        u.to_wire()
    }
}

impl vstd::std_specs::convert::FromSpecImpl<ApplicationCommandOptionKind> for u64 {
    open spec fn obeys_from_spec() -> bool {
        true
    }

    open spec fn from_spec(u: ApplicationCommandOptionKind) -> u64 {
        u.code()
    }
}

impl TryFrom<u64> for ApplicationCommandOptionKind {
    type Error = EnumFromIntegerError;

    fn try_from(u: u64) -> (r: Result<Self, EnumFromIntegerError>) {
        match Self::from_wire(u) {
            Some(v) => Ok(v),
            None => Err(EnumFromIntegerError::new(u)),
        }
    }
}

impl vstd::std_specs::convert::TryFromSpecImpl<u64> for ApplicationCommandOptionKind {
    open spec fn obeys_try_from_spec() -> bool {
        true
    }

    open spec fn try_from_spec(u: u64) -> Result<Self, EnumFromIntegerError> {
        match Self::of_code(u) {
            Some(v) => Ok(v),
            None => Err(EnumFromIntegerError { raw: u }),
        }
    }
}

/// A parameter of a command, or a command below it.
#[derive(Debug)]
pub struct ApplicationCommandOption {
    pub kind: IntegerEnum<ApplicationCommandOptionKind>,
    pub name: String,
    pub description: String,
    pub required: Option<bool>,
    pub choices: Option<Vec<ApplicationCommandOptionChoice>>,
    pub options: Option<Vec<ApplicationCommandOption>>,
}

impl ApplicationCommandOption {
    /// A new value with what must be given; the rest is left out.
    pub fn new(kind: IntegerEnum<ApplicationCommandOptionKind>, name: String, description: String) -> (r: Self)
        ensures
            r == (ApplicationCommandOption {
                kind,
                name,
                description,
                required: None,
                choices: None,
                options: None,
            }),
    {
        ApplicationCommandOption {
            kind,
            name,
            description,
            required: None,
            choices: None,
            options: None,
        }
    }

    /// The same with `required` set.
    pub fn required(self, required: bool) -> (r: Self)
        ensures
            r == (ApplicationCommandOption { required: Some(required), ..self }),
    {
        ApplicationCommandOption { required: Some(required), ..self }
    }

    /// The same with `choices` set.
    pub fn choices(self, choices: Vec<ApplicationCommandOptionChoice>) -> (r: Self)
        ensures
            r == (ApplicationCommandOption { choices: Some(choices), ..self }),
    {
        ApplicationCommandOption { choices: Some(choices), ..self }
    }

    /// The same with `options` set.
    pub fn options(self, options: Vec<ApplicationCommandOption>) -> (r: Self)
        ensures
            r == (ApplicationCommandOption { options: Some(options), ..self }),
    {
        ApplicationCommandOption { options: Some(options), ..self }
    }
}

impl Clone for ApplicationCommandOption {
    fn clone(&self) -> (r: Self)
        decreases self,
    {
        let options = match &self.options {
            Some(v) => {
                let mut out: Vec<ApplicationCommandOption> = Vec::new();
                let mut i: usize = 0;
                while i < v.len()
                    invariant
                        self.options == Some(*v),
                    decreases v.len() - i,
                {
                    proof {
                        vstd::std_specs::vec::axiom_vec_index_decreases(*v, i as int);
                        assert(decreases_to!(self.options => self.options->Some_0));
                    }
                    out.push(v[i].clone());
                    i += 1;
                }
                Some(out)
            },
            None => None,
        };
        ApplicationCommandOption {
            kind: self.kind.clone(),
            name: self.name.clone(),
            description: self.description.clone(),
            required: self.required.clone(),
            choices: self.choices.clone(),
            options,
        }
    }
}

/// The identifier of a command.
pub type ApplicationCommandId = Id<entity::ApplicationCommand>;

/// A command that an application offers.
#[derive(Debug, Clone)]
pub struct ApplicationCommand {
    pub id: ApplicationCommandId,
    pub application_id: ApplicationId,
    pub name: String,
    pub description: String,
    pub options: Option<Vec<ApplicationCommandOption>>,
    pub default_permission: Option<bool>,
}

impl ApplicationCommand {
    pub fn id(&self) -> (r: ApplicationCommandId)
        ensures
            r == self.id,
    {
        self.id
    }

    pub fn application_id(&self) -> (r: ApplicationId)
        ensures
            r == self.application_id,
    {
        self.application_id
    }

    pub fn name(&self) -> (r: &str)
        ensures
            r@ == self.name@,
    {
        self.name.as_str()
    }

    pub fn description(&self) -> (r: &str)
        ensures
            r@ == self.description@,
    {
        self.description.as_str()
    }

    pub fn options(&self) -> (r: Option<&[ApplicationCommandOption]>)
        ensures
            same_items(r, self.options),
    {
        opt_slice(&self.options)
    }

    pub fn default_permission(&self) -> (r: Option<bool>)
        ensures
            r == self.default_permission,
    {
        self.default_permission
    }
}

/// A command to register.
#[derive(Debug, Clone)]
pub struct NewApplicationCommand {
    pub name: String,
    pub description: String,
    pub options: Option<Vec<ApplicationCommandOption>>,
    pub default_permission: Option<bool>,
}

impl NewApplicationCommand {
    /// A new value with what must be given; the rest is left out.
    pub fn new(name: String, description: String) -> (r: Self)
        ensures
            r == (NewApplicationCommand {
                name,
                description,
                options: None,
                default_permission: None,
            }),
    {
        NewApplicationCommand {
            name,
            description,
            options: None,
            default_permission: None,
        }
    }

    /// The same with `options` set.
    pub fn options(self, options: Vec<ApplicationCommandOption>) -> (r: Self)
        ensures
            r == (NewApplicationCommand { options: Some(options), ..self }),
    {
        NewApplicationCommand { options: Some(options), ..self }
    }
}

/// The changes to make to a command. What is left out stays.
#[derive(Debug, Clone)]
pub struct EditApplicationCommand {
    pub name: Option<String>,
    pub description: Option<String>,
    pub options: Option<Vec<ApplicationCommandOption>>,
    pub default_permission: Option<bool>,
}

impl EditApplicationCommand {
    /// A new value made of its parts.
    pub fn new() -> (r: Self)
        ensures
            r == (EditApplicationCommand {
                name: None,
                description: None,
                options: None,
                default_permission: None,
            }),
    {
        EditApplicationCommand {
            name: None,
            description: None,
            options: None,
            default_permission: None,
        }
    }
}

} // verus!
