//! The requests: for each, the verb, the path and what it carries.
//!
//! Sending is left to the one who holds the connection.

use vstd::prelude::*;
use vstd::string::*;

use crate::audit_log::{AuditLogEntryId, AuditLogEvent};
use crate::decimal::{decimal, u64_to_string};
use crate::discord::Method;
use crate::enums::IntegerEnum;
use crate::image::UploadImage;
use crate::resources::application::{
    ApplicationCommandId, ApplicationCommandOption, ApplicationCommandPermission, ApplicationId,
    EditApplicationCommand, EditGuildApplicationCommandPermissions, NewApplicationCommand,
};
use crate::resources::channel::{
    ChannelId, ChannelKind, EditChannel, MessageId, Overwrite, VideoQualityMode,
};
use crate::resources::guild::GuildId;
use crate::resources::user::UserId;
use crate::text::{join, spec_join, texts_of};

verus! {

/// Asks for the commands that an application offers everywhere.
#[derive(Debug, Clone)]
pub struct GetGlobalApplicationCommands {
    pub application_id: ApplicationId,
}

impl GetGlobalApplicationCommands {
    /// A new value made of its parts.
    pub fn new(application_id: ApplicationId) -> (r: Self)
        ensures
            r == (GetGlobalApplicationCommands {
                application_id,
            }),
    {
        GetGlobalApplicationCommands {
            application_id,
        }
    }

    /// The verb of the request.
    pub fn method(&self) -> (r: Method)
        ensures
            r == Method::Get,
    {
        Method::Get
    }

    /// The path that the request goes to, below the root of the interface.
    pub open spec fn spec_path(&self) -> Seq<char> {
        "applications/"@ + decimal(self.application_id.value() as nat) + "/commands"@
    }

    /// The path that the request goes to, below the root of the interface.
    pub fn path(&self) -> (r: String)
        ensures
            r@ == self.spec_path(),
    {
        let mut p = String::from_str("applications/");
        p.append(self.application_id.to_string().as_str());
        p.append("/commands");
        p
    }
}

/// Asks for one command that an application offers everywhere.
#[derive(Debug, Clone)]
pub struct GetGlobalApplicationCommand {
    pub application_id: ApplicationId,
    pub command_id: ApplicationCommandId,
}

impl GetGlobalApplicationCommand {
    /// A new value made of its parts.
    pub fn new(application_id: ApplicationId, command_id: ApplicationCommandId) -> (r: Self)
        ensures
            r == (GetGlobalApplicationCommand {
                application_id,
                command_id,
            }),
    {
        GetGlobalApplicationCommand {
            application_id,
            command_id,
        }
    }

    /// The verb of the request.
    pub fn method(&self) -> (r: Method)
        ensures
            r == Method::Get,
    {
        Method::Get
    }

    /// The path that the request goes to, below the root of the interface.
    pub open spec fn spec_path(&self) -> Seq<char> {
        "applications/"@ + decimal(self.application_id.value() as nat) + "/commands/"@ + decimal(self.command_id.value() as nat)
    }

    /// The path that the request goes to, below the root of the interface.
    pub fn path(&self) -> (r: String)
        ensures
            r@ == self.spec_path(),
    {
        let mut p = String::from_str("applications/");
        p.append(self.application_id.to_string().as_str());
        p.append("/commands/");
        p.append(self.command_id.to_string().as_str());
        p
    }
}

/// Puts a list of commands in the place of all that an application offers
/// everywhere.
#[derive(Debug, Clone)]
pub struct BulkOverwriteGlobalApplicationCommands {
    pub application_id: ApplicationId,
    pub commands: Vec<NewApplicationCommand>,
}

impl BulkOverwriteGlobalApplicationCommands {
    /// A new value made of its parts.
    pub fn new(application_id: ApplicationId, commands: Vec<NewApplicationCommand>) -> (r: Self)
        ensures
            r == (BulkOverwriteGlobalApplicationCommands {
                application_id,
                commands,
            }),
    {
        BulkOverwriteGlobalApplicationCommands {
            application_id,
            commands,
        }
    }

    /// The verb of the request.
    pub fn method(&self) -> (r: Method)
        ensures
            r == Method::Put,
    {
        Method::Put
    }

    /// The path that the request goes to, below the root of the interface.
    pub open spec fn spec_path(&self) -> Seq<char> {
        "applications/"@ + decimal(self.application_id.value() as nat) + "/commands"@
    }

    /// The path that the request goes to, below the root of the interface.
    pub fn path(&self) -> (r: String)
        ensures
            r@ == self.spec_path(),
    {
        let mut p = String::from_str("applications/");
        p.append(self.application_id.to_string().as_str());
        p.append("/commands");
        p
    }

    /// What the request carries.
    pub fn body(&self) -> (r: &[NewApplicationCommand])
        ensures
            r@ == self.commands@,
    {
        self.commands.as_slice()
    }
}

/// Registers a command that an application offers everywhere.
#[derive(Debug, Clone)]
pub struct CreateGlobalApplicationCommand {
    pub application_id: ApplicationId,
    pub name: String,
    pub description: String,
    pub options: Option<Vec<ApplicationCommandOption>>,
    pub default_permission: Option<bool>,
}

impl CreateGlobalApplicationCommand {
    /// A new value with what must be given; the rest is left out.
    pub fn new(application_id: ApplicationId, name: String, description: String) -> (r: Self)
        ensures
            r == (CreateGlobalApplicationCommand {
                application_id,
                name,
                description,
                options: None,
                default_permission: None,
            }),
    {
        CreateGlobalApplicationCommand {
            application_id,
            name,
            description,
            options: None,
            default_permission: None,
        }
    }

    /// The verb of the request.
    pub fn method(&self) -> (r: Method)
        ensures
            r == Method::Post,
    {
        Method::Post
    }

    /// The path that the request goes to, below the root of the interface.
    pub open spec fn spec_path(&self) -> Seq<char> {
        "applications/"@ + decimal(self.application_id.value() as nat) + "/commands"@
    }

    /// The path that the request goes to, below the root of the interface.
    pub fn path(&self) -> (r: String)
        ensures
            r@ == self.spec_path(),
    {
        let mut p = String::from_str("applications/");
        p.append(self.application_id.to_string().as_str());
        p.append("/commands");
        p
    }

    /// What the request carries.
    pub fn into_body(self) -> (r: NewApplicationCommand)
        ensures
            r == (NewApplicationCommand {
                name: self.name,
                description: self.description,
                options: self.options,
                default_permission: self.default_permission,
            }),
    {
        NewApplicationCommand {
            name: self.name,
            description: self.description,
            options: self.options,
            default_permission: self.default_permission,
        }
    }

    /// The same with `options` set.
    pub fn options(self, options: Vec<ApplicationCommandOption>) -> (r: Self)
        ensures
            r == (CreateGlobalApplicationCommand { options: Some(options), ..self }),
    {
        CreateGlobalApplicationCommand { options: Some(options), ..self }
    }

    /// The same with `default_permission` set.
    pub fn default_permission(self, default_permission: bool) -> (r: Self)
        ensures
            r == (CreateGlobalApplicationCommand { default_permission: Some(default_permission), ..self }),
    {
        CreateGlobalApplicationCommand { default_permission: Some(default_permission), ..self }
    }
}

/// Changes a command that an application offers everywhere.
#[derive(Debug, Clone)]
pub struct EditGlobalApplicationCommand {
    pub application_id: ApplicationId,
    pub command_id: ApplicationCommandId,
    pub name: Option<String>,
    pub description: Option<String>,
    pub options: Option<Vec<ApplicationCommandOption>>,
    pub default_permission: Option<bool>,
}

impl EditGlobalApplicationCommand {
    /// A new value with what must be given; the rest is left out.
    pub fn new(application_id: ApplicationId, command_id: ApplicationCommandId) -> (r: Self)
        ensures
            r == (EditGlobalApplicationCommand {
                application_id,
                command_id,
                name: None,
                description: None,
                options: None,
                default_permission: None,
            }),
    {
        EditGlobalApplicationCommand {
            application_id,
            command_id,
            name: None,
            description: None,
            options: None,
            default_permission: None,
        }
    }

    /// The verb of the request.
    pub fn method(&self) -> (r: Method)
        ensures
            r == Method::Patch,
    {
        Method::Patch
    }

    /// The path that the request goes to, below the root of the interface.
    pub open spec fn spec_path(&self) -> Seq<char> {
        "applications/"@ + decimal(self.application_id.value() as nat) + "/commands/"@ + decimal(self.command_id.value() as nat)
    }

    /// The path that the request goes to, below the root of the interface.
    pub fn path(&self) -> (r: String)
        ensures
            r@ == self.spec_path(),
    {
        let mut p = String::from_str("applications/");
        p.append(self.application_id.to_string().as_str());
        p.append("/commands/");
        p.append(self.command_id.to_string().as_str());
        p
    }

    /// What the request carries.
    pub fn into_body(self) -> (r: EditApplicationCommand)
        ensures
            r == (EditApplicationCommand {
                name: self.name,
                description: self.description,
                options: self.options,
                default_permission: self.default_permission,
            }),
    {
        EditApplicationCommand {
            name: self.name,
            description: self.description,
            options: self.options,
            default_permission: self.default_permission,
        }
    }

    /// The same with `name` set.
    pub fn name(self, name: String) -> (r: Self)
        ensures
            r == (EditGlobalApplicationCommand { name: Some(name), ..self }),
    {
        EditGlobalApplicationCommand { name: Some(name), ..self }
    }

    /// The same with `description` set.
    pub fn description(self, description: String) -> (r: Self)
        ensures
            r == (EditGlobalApplicationCommand { description: Some(description), ..self }),
    {
        EditGlobalApplicationCommand { description: Some(description), ..self }
    }

    /// The same with `options` set.
    pub fn options(self, options: Vec<ApplicationCommandOption>) -> (r: Self)
        ensures
            r == (EditGlobalApplicationCommand { options: Some(options), ..self }),
    {
        EditGlobalApplicationCommand { options: Some(options), ..self }
    }

    /// The same with `default_permission` set.
    pub fn default_permission(self, default_permission: bool) -> (r: Self)
        ensures
            r == (EditGlobalApplicationCommand { default_permission: Some(default_permission), ..self }),
    {
        EditGlobalApplicationCommand { default_permission: Some(default_permission), ..self }
    }
}

/// Removes a command that an application offers everywhere.
#[derive(Debug, Clone)]
pub struct DeleteGlobalApplicationCommand {
    pub application_id: ApplicationId,
    pub command_id: ApplicationCommandId,
}

impl DeleteGlobalApplicationCommand {
    /// A new value made of its parts.
    pub fn new(application_id: ApplicationId, command_id: ApplicationCommandId) -> (r: Self)
        ensures
            r == (DeleteGlobalApplicationCommand {
                application_id,
                command_id,
            }),
    {
        DeleteGlobalApplicationCommand {
            application_id,
            command_id,
        }
    }

    /// The verb of the request.
    pub fn method(&self) -> (r: Method)
        ensures
            r == Method::Delete,
    {
        Method::Delete
    }

    /// The path that the request goes to, below the root of the interface.
    pub open spec fn spec_path(&self) -> Seq<char> {
        "applications/"@ + decimal(self.application_id.value() as nat) + "/commands/"@ + decimal(self.command_id.value() as nat)
    }

    /// The path that the request goes to, below the root of the interface.
    pub fn path(&self) -> (r: String)
        ensures
            r@ == self.spec_path(),
    {
        let mut p = String::from_str("applications/");
        p.append(self.application_id.to_string().as_str());
        p.append("/commands/");
        p.append(self.command_id.to_string().as_str());
        p
    }
}

/// Asks for the commands that an application offers in one guild.
#[derive(Debug, Clone)]
pub struct GetGuildApplicationCommands {
    pub application_id: ApplicationId,
    pub guild_id: GuildId,
}

impl GetGuildApplicationCommands {
    /// A new value made of its parts.
    pub fn new(application_id: ApplicationId, guild_id: GuildId) -> (r: Self)
        ensures
            r == (GetGuildApplicationCommands {
                application_id,
                guild_id,
            }),
    {
        GetGuildApplicationCommands {
            application_id,
            guild_id,
        }
    }

    /// The verb of the request.
    pub fn method(&self) -> (r: Method)
        ensures
            r == Method::Get,
    {
        Method::Get
    }

    /// The path that the request goes to, below the root of the interface.
    pub open spec fn spec_path(&self) -> Seq<char> {
        "applications/"@ + decimal(self.application_id.value() as nat) + "/guilds/"@ + decimal(self.guild_id.value() as nat) + "/commands"@
    }

    /// The path that the request goes to, below the root of the interface.
    pub fn path(&self) -> (r: String)
        ensures
            r@ == self.spec_path(),
    {
        let mut p = String::from_str("applications/");
        p.append(self.application_id.to_string().as_str());
        p.append("/guilds/");
        p.append(self.guild_id.to_string().as_str());
        p.append("/commands");
        p
    }
}

/// Asks for one command that an application offers in one guild.
#[derive(Debug, Clone)]
pub struct GetGuildApplicationCommand {
    pub application_id: ApplicationId,
    pub command_id: ApplicationCommandId,
    pub guild_id: GuildId,
}

impl GetGuildApplicationCommand {
    /// A new value made of its parts.
    pub fn new(application_id: ApplicationId, command_id: ApplicationCommandId, guild_id: GuildId) -> (r: Self)
        ensures
            r == (GetGuildApplicationCommand {
                application_id,
                command_id,
                guild_id,
            }),
    {
        GetGuildApplicationCommand {
            application_id,
            command_id,
            guild_id,
        }
    }

    /// The verb of the request.
    pub fn method(&self) -> (r: Method)
        ensures
            r == Method::Get,
    {
        Method::Get
    }

    /// The path that the request goes to, below the root of the interface.
    pub open spec fn spec_path(&self) -> Seq<char> {
        "applications/"@ + decimal(self.application_id.value() as nat) + "/guilds/"@ + decimal(self.guild_id.value() as nat) + "/commands/"@ + decimal(self.command_id.value() as nat)
    }

    /// The path that the request goes to, below the root of the interface.
    pub fn path(&self) -> (r: String)
        ensures
            r@ == self.spec_path(),
    {
        let mut p = String::from_str("applications/");
        p.append(self.application_id.to_string().as_str());
        p.append("/guilds/");
        p.append(self.guild_id.to_string().as_str());
        p.append("/commands/");
        p.append(self.command_id.to_string().as_str());
        p
    }
}

/// Puts a list of commands in the place of all that an application offers in
/// one guild.
#[derive(Debug, Clone)]
pub struct BulkOverwriteGuildApplicationCommands {
    pub application_id: ApplicationId,
    pub guild_id: GuildId,
    pub commands: Vec<NewApplicationCommand>,
}

impl BulkOverwriteGuildApplicationCommands {
    /// A new value made of its parts.
    pub fn new(application_id: ApplicationId, guild_id: GuildId, commands: Vec<NewApplicationCommand>) -> (r: Self)
        ensures
            r == (BulkOverwriteGuildApplicationCommands {
                application_id,
                guild_id,
                commands,
            }),
    {
        BulkOverwriteGuildApplicationCommands {
            application_id,
            guild_id,
            commands,
        }
    }

    /// The verb of the request.
    pub fn method(&self) -> (r: Method)
        ensures
            r == Method::Put,
    {
        Method::Put
    }

    /// The path that the request goes to, below the root of the interface.
    pub open spec fn spec_path(&self) -> Seq<char> {
        "applications/"@ + decimal(self.application_id.value() as nat) + "/guilds/"@ + decimal(self.guild_id.value() as nat) + "/commands"@
    }

    /// The path that the request goes to, below the root of the interface.
    pub fn path(&self) -> (r: String)
        ensures
            r@ == self.spec_path(),
    {
        let mut p = String::from_str("applications/");
        p.append(self.application_id.to_string().as_str());
        p.append("/guilds/");
        p.append(self.guild_id.to_string().as_str());
        p.append("/commands");
        p
    }

    /// What the request carries.
    pub fn body(&self) -> (r: &[NewApplicationCommand])
        ensures
            r@ == self.commands@,
    {
        self.commands.as_slice()
    }
}

/// Registers a command that an application offers in one guild.
#[derive(Debug, Clone)]
pub struct CreateGuildApplicationCommand {
    pub application_id: ApplicationId,
    pub guild_id: GuildId,
    pub name: String,
    pub description: String,
    pub options: Option<Vec<ApplicationCommandOption>>,
    pub default_permission: Option<bool>,
}

impl CreateGuildApplicationCommand {
    /// A new value with what must be given; the rest is left out.
    pub fn new(application_id: ApplicationId, guild_id: GuildId, name: String, description: String) -> (r: Self)
        ensures
            r == (CreateGuildApplicationCommand {
                application_id,
                guild_id,
                name,
                description,
                options: None,
                default_permission: None,
            }),
    {
        CreateGuildApplicationCommand {
            application_id,
            guild_id,
            name,
            description,
            options: None,
            default_permission: None,
        }
    }

    /// The verb of the request.
    pub fn method(&self) -> (r: Method)
        ensures
            r == Method::Post,
    {
        Method::Post
    }

    /// The path that the request goes to, below the root of the interface.
    pub open spec fn spec_path(&self) -> Seq<char> {
        "applications/"@ + decimal(self.application_id.value() as nat) + "/guilds/"@ + decimal(self.guild_id.value() as nat) + "/commands"@
    }

    /// The path that the request goes to, below the root of the interface.
    pub fn path(&self) -> (r: String)
        ensures
            r@ == self.spec_path(),
    {
        let mut p = String::from_str("applications/");
        p.append(self.application_id.to_string().as_str());
        p.append("/guilds/");
        p.append(self.guild_id.to_string().as_str());
        p.append("/commands");
        p
    }

    /// What the request carries.
    pub fn into_body(self) -> (r: NewApplicationCommand)
        ensures
            r == (NewApplicationCommand {
                name: self.name,
                description: self.description,
                options: self.options,
                default_permission: self.default_permission,
            }),
    {
        NewApplicationCommand {
            name: self.name,
            description: self.description,
            options: self.options,
            default_permission: self.default_permission,
        }
    }

    /// The same with `options` set.
    pub fn options(self, options: Vec<ApplicationCommandOption>) -> (r: Self)
        ensures
            r == (CreateGuildApplicationCommand { options: Some(options), ..self }),
    {
        CreateGuildApplicationCommand { options: Some(options), ..self }
    }

    /// The same with `default_permission` set.
    pub fn default_permission(self, default_permission: bool) -> (r: Self)
        ensures
            r == (CreateGuildApplicationCommand { default_permission: Some(default_permission), ..self }),
    {
        CreateGuildApplicationCommand { default_permission: Some(default_permission), ..self }
    }
}

/// Changes a command that an application offers in one guild.
#[derive(Debug, Clone)]
pub struct EditGuildApplicationCommand {
    pub application_id: ApplicationId,
    pub guild_id: GuildId,
    pub command_id: ApplicationCommandId,
    pub name: Option<String>,
    pub description: Option<String>,
    pub options: Option<Vec<ApplicationCommandOption>>,
    pub default_permission: Option<bool>,
}

impl EditGuildApplicationCommand {
    /// A new value with what must be given; the rest is left out.
    pub fn new(application_id: ApplicationId, guild_id: GuildId, command_id: ApplicationCommandId) -> (r: Self)
        ensures
            r == (EditGuildApplicationCommand {
                application_id,
                guild_id,
                command_id,
                name: None,
                description: None,
                options: None,
                default_permission: None,
            }),
    {
        EditGuildApplicationCommand {
            application_id,
            guild_id,
            command_id,
            name: None,
            description: None,
            options: None,
            default_permission: None,
        }
    }

    /// The verb of the request.
    pub fn method(&self) -> (r: Method)
        ensures
            r == Method::Patch,
    {
        Method::Patch
    }

    /// The path that the request goes to, below the root of the interface.
    pub open spec fn spec_path(&self) -> Seq<char> {
        "applications/"@ + decimal(self.application_id.value() as nat) + "/guilds/"@ + decimal(self.guild_id.value() as nat) + "/commands/"@ + decimal(self.command_id.value() as nat)
    }

    /// The path that the request goes to, below the root of the interface.
    pub fn path(&self) -> (r: String)
        ensures
            r@ == self.spec_path(),
    {
        let mut p = String::from_str("applications/");
        p.append(self.application_id.to_string().as_str());
        p.append("/guilds/");
        p.append(self.guild_id.to_string().as_str());
        p.append("/commands/");
        p.append(self.command_id.to_string().as_str());
        p
    }

    /// What the request carries.
    pub fn into_body(self) -> (r: EditApplicationCommand)
        ensures
            r == (EditApplicationCommand {
                name: self.name,
                description: self.description,
                options: self.options,
                default_permission: self.default_permission,
            }),
    {
        EditApplicationCommand {
            name: self.name,
            description: self.description,
            options: self.options,
            default_permission: self.default_permission,
        }
    }

    /// The same with `name` set.
    pub fn name(self, name: String) -> (r: Self)
        ensures
            r == (EditGuildApplicationCommand { name: Some(name), ..self }),
    {
        EditGuildApplicationCommand { name: Some(name), ..self }
    }

    /// The same with `description` set.
    pub fn description(self, description: String) -> (r: Self)
        ensures
            r == (EditGuildApplicationCommand { description: Some(description), ..self }),
    {
        EditGuildApplicationCommand { description: Some(description), ..self }
    }

    /// The same with `options` set.
    pub fn options(self, options: Vec<ApplicationCommandOption>) -> (r: Self)
        ensures
            r == (EditGuildApplicationCommand { options: Some(options), ..self }),
    {
        EditGuildApplicationCommand { options: Some(options), ..self }
    }

    /// The same with `default_permission` set.
    pub fn default_permission(self, default_permission: bool) -> (r: Self)
        ensures
            r == (EditGuildApplicationCommand { default_permission: Some(default_permission), ..self }),
    {
        EditGuildApplicationCommand { default_permission: Some(default_permission), ..self }
    }
}

/// Removes a command that an application offers in one guild.
#[derive(Debug, Clone)]
pub struct DeleteGuildApplicationCommand {
    pub application_id: ApplicationId,
    pub guild_id: GuildId,
    pub command_id: ApplicationCommandId,
}

impl DeleteGuildApplicationCommand {
    /// A new value made of its parts.
    pub fn new(application_id: ApplicationId, guild_id: GuildId, command_id: ApplicationCommandId) -> (r: Self)
        ensures
            r == (DeleteGuildApplicationCommand {
                application_id,
                guild_id,
                command_id,
            }),
    {
        DeleteGuildApplicationCommand {
            application_id,
            guild_id,
            command_id,
        }
    }

    /// The verb of the request.
    pub fn method(&self) -> (r: Method)
        ensures
            r == Method::Delete,
    {
        Method::Delete
    }

    /// The path that the request goes to, below the root of the interface.
    pub open spec fn spec_path(&self) -> Seq<char> {
        "applications/"@ + decimal(self.application_id.value() as nat) + "/guilds/"@ + decimal(self.guild_id.value() as nat) + "/commands/"@ + decimal(self.command_id.value() as nat)
    }

    /// The path that the request goes to, below the root of the interface.
    pub fn path(&self) -> (r: String)
        ensures
            r@ == self.spec_path(),
    {
        let mut p = String::from_str("applications/");
        p.append(self.application_id.to_string().as_str());
        p.append("/guilds/");
        p.append(self.guild_id.to_string().as_str());
        p.append("/commands/");
        p.append(self.command_id.to_string().as_str());
        p
    }
}

/// Asks for the permissions on all commands of an application in a guild.
#[derive(Debug, Clone)]
pub struct GetGuildApplicationCommandPermissions {
    pub application_id: ApplicationId,
    pub guild_id: GuildId,
}

impl GetGuildApplicationCommandPermissions {
    /// A new value made of its parts.
    pub fn new(application_id: ApplicationId, guild_id: GuildId) -> (r: Self)
        ensures
            r == (GetGuildApplicationCommandPermissions {
                application_id,
                guild_id,
            }),
    {
        GetGuildApplicationCommandPermissions {
            application_id,
            guild_id,
        }
    }

    /// The verb of the request.
    pub fn method(&self) -> (r: Method)
        ensures
            r == Method::Get,
    {
        Method::Get
    }

    /// The path that the request goes to, below the root of the interface.
    pub open spec fn spec_path(&self) -> Seq<char> {
        "applications/"@ + decimal(self.application_id.value() as nat) + "/guilds/"@ + decimal(self.guild_id.value() as nat) + "/commands/permissions"@
    }

    /// The path that the request goes to, below the root of the interface.
    pub fn path(&self) -> (r: String)
        ensures
            r@ == self.spec_path(),
    {
        let mut p = String::from_str("applications/");
        p.append(self.application_id.to_string().as_str());
        p.append("/guilds/");
        p.append(self.guild_id.to_string().as_str());
        p.append("/commands/permissions");
        p
    }
}

/// Asks for the permissions on one command of an application in a guild.
#[derive(Debug, Clone)]
pub struct GetApplicationCommandPermissions {
    pub application_id: ApplicationId,
    pub guild_id: GuildId,
    pub command_id: ApplicationCommandId,
}

impl GetApplicationCommandPermissions {
    /// A new value made of its parts.
    pub fn new(application_id: ApplicationId, guild_id: GuildId, command_id: ApplicationCommandId) -> (r: Self)
        ensures
            r == (GetApplicationCommandPermissions {
                application_id,
                guild_id,
                command_id,
            }),
    {
        GetApplicationCommandPermissions {
            application_id,
            guild_id,
            command_id,
        }
    }

    /// The verb of the request.
    pub fn method(&self) -> (r: Method)
        ensures
            r == Method::Get,
    {
        Method::Get
    }

    /// The path that the request goes to, below the root of the interface.
    pub open spec fn spec_path(&self) -> Seq<char> {
        "applications/"@ + decimal(self.application_id.value() as nat) + "/guilds/"@ + decimal(self.guild_id.value() as nat) + "/commands/"@ + decimal(self.command_id.value() as nat) + "/permissions"@
    }

    /// The path that the request goes to, below the root of the interface.
    pub fn path(&self) -> (r: String)
        ensures
            r@ == self.spec_path(),
    {
        let mut p = String::from_str("applications/");
        p.append(self.application_id.to_string().as_str());
        p.append("/guilds/");
        p.append(self.guild_id.to_string().as_str());
        p.append("/commands/");
        p.append(self.command_id.to_string().as_str());
        p.append("/permissions");
        p
    }
}

/// Sets the permissions on one command of an application in a guild.
#[derive(Debug, Clone)]
pub struct EditApplicationCommandPermissions {
    pub application_id: ApplicationId,
    pub guild_id: GuildId,
    pub command_id: ApplicationCommandId,
    pub permissions: Vec<ApplicationCommandPermission>,
}

impl EditApplicationCommandPermissions {
    /// A new value made of its parts.
    pub fn new(application_id: ApplicationId, guild_id: GuildId, command_id: ApplicationCommandId, permissions: Vec<ApplicationCommandPermission>) -> (r: Self)
        ensures
            r == (EditApplicationCommandPermissions {
                application_id,
                guild_id,
                command_id,
                permissions,
            }),
    {
        EditApplicationCommandPermissions {
            application_id,
            guild_id,
            command_id,
            permissions,
        }
    }

    /// The verb of the request.
    pub fn method(&self) -> (r: Method)
        ensures
            r == Method::Put,
    {
        Method::Put
    }

    /// The path that the request goes to, below the root of the interface.
    pub open spec fn spec_path(&self) -> Seq<char> {
        "applications/"@ + decimal(self.application_id.value() as nat) + "/guilds/"@ + decimal(self.guild_id.value() as nat) + "/commands/"@ + decimal(self.command_id.value() as nat) + "/permissions"@
    }

    /// The path that the request goes to, below the root of the interface.
    pub fn path(&self) -> (r: String)
        ensures
            r@ == self.spec_path(),
    {
        let mut p = String::from_str("applications/");
        p.append(self.application_id.to_string().as_str());
        p.append("/guilds/");
        p.append(self.guild_id.to_string().as_str());
        p.append("/commands/");
        p.append(self.command_id.to_string().as_str());
        p.append("/permissions");
        p
    }

    /// What the request carries.
    pub fn body(&self) -> (r: &[ApplicationCommandPermission])
        ensures
            r@ == self.permissions@,
    {
        self.permissions.as_slice()
    }
}

/// Sets the permissions on several commands of an application in a guild.
#[derive(Debug, Clone)]
pub struct BatchEditApplicationCommandPermissions {
    pub application_id: ApplicationId,
    pub guild_id: GuildId,
    pub command_permissions: Vec<EditGuildApplicationCommandPermissions>,
}

impl BatchEditApplicationCommandPermissions {
    /// A new value made of its parts.
    pub fn new(application_id: ApplicationId, guild_id: GuildId, command_permissions: Vec<EditGuildApplicationCommandPermissions>) -> (r: Self)
        ensures
            r == (BatchEditApplicationCommandPermissions {
                application_id,
                guild_id,
                command_permissions,
            }),
    {
        BatchEditApplicationCommandPermissions {
            application_id,
            guild_id,
            command_permissions,
        }
    }

    /// The verb of the request.
    pub fn method(&self) -> (r: Method)
        ensures
            r == Method::Put,
    {
        Method::Put
    }

    /// The path that the request goes to, below the root of the interface.
    pub open spec fn spec_path(&self) -> Seq<char> {
        "applications/"@ + decimal(self.application_id.value() as nat) + "/guilds/"@ + decimal(self.guild_id.value() as nat) + "/commands/permissions"@
    }

    /// The path that the request goes to, below the root of the interface.
    pub fn path(&self) -> (r: String)
        ensures
            r@ == self.spec_path(),
    {
        let mut p = String::from_str("applications/");
        p.append(self.application_id.to_string().as_str());
        p.append("/guilds/");
        p.append(self.guild_id.to_string().as_str());
        p.append("/commands/permissions");
        p
    }

    /// What the request carries.
    pub fn body(&self) -> (r: &[EditGuildApplicationCommandPermissions])
        ensures
            r@ == self.command_permissions@,
    {
        self.command_permissions.as_slice()
    }
}

/// Asks for a stretch of a guild's audit log.
#[derive(Debug, Clone)]
pub struct GetGuildAuditLog {
    pub guild_id: GuildId,
    pub user_id: Option<UserId>,
    pub action_kind: Option<IntegerEnum<AuditLogEvent>>,
    pub before: Option<AuditLogEntryId>,
    pub limit: Option<u64>,
}

impl GetGuildAuditLog {
    /// A new value with what must be given; the rest is left out.
    pub fn new(guild_id: GuildId) -> (r: Self)
        ensures
            r == (GetGuildAuditLog {
                guild_id,
                user_id: None,
                action_kind: None,
                before: None,
                limit: None,
            }),
    {
        GetGuildAuditLog {
            guild_id,
            user_id: None,
            action_kind: None,
            before: None,
            limit: None,
        }
    }

    /// The verb of the request.
    pub fn method(&self) -> (r: Method)
        ensures
            r == Method::Get,
    {
        Method::Get
    }

    /// What narrows the request, each as `name=value`, in the order user,
    /// action, entry before which to look, number of entries. What is not
    /// set is left out.
    pub open spec fn spec_query(&self) -> Seq<Seq<char>> {
        (match self.user_id {
            Some(u) => seq!["user_id="@ + decimal(u.value() as nat)],
            None => seq![],
        }) + (match self.action_kind {
            Some(a) => seq!["action_type="@ + decimal(a.spec_encode() as nat)],
            None => seq![],
        }) + (match self.before {
            Some(b) => seq!["before="@ + decimal(b.value() as nat)],
            None => seq![],
        }) + (match self.limit {
            Some(l) => seq!["limit="@ + decimal(l as nat)],
            None => seq![],
        })
    }

    /// The path that the request goes to, below the root of the interface:
    /// the audit log of the guild and, where anything narrows the request,
    /// a question mark and all that does with `&` between.
    pub open spec fn spec_path(&self) -> Seq<char> {
        let base = "guilds/"@ + decimal(self.guild_id.value() as nat) + "/audit-logs"@;
        if self.spec_query().len() == 0 {
            base
        } else {
            base + "?"@ + spec_join(self.spec_query(), "&"@)
        }
    }

    /// The path that the request goes to, below the root of the interface.
    pub fn path(&self) -> (r: String)
        ensures
            r@ == self.spec_path(),
    {
        let mut path = String::from_str("guilds/");
        path.append(self.guild_id.to_string().as_str());
        path.append("/audit-logs");
        let mut query: Vec<String> = Vec::new();
        if let Some(u) = self.user_id {
            let mut part = String::from_str("user_id=");
            part.append(u.to_string().as_str());
            query.push(part);
        }
        assert(texts_of(query@) =~= match self.user_id {
            Some(u) => seq!["user_id="@ + decimal(u.value() as nat)],
            None => seq![],
        });
        let ghost q1 = texts_of(query@);
        if let Some(a) = self.action_kind {
            let mut part = String::from_str("action_type=");
            part.append(u64_to_string(a.encode()).as_str());
            query.push(part);
        }
        assert(texts_of(query@) =~= q1 + (match self.action_kind {
            Some(a) => seq!["action_type="@ + decimal(a.spec_encode() as nat)],
            None => seq![],
        }));
        let ghost q2 = texts_of(query@);
        if let Some(b) = self.before {
            let mut part = String::from_str("before=");
            part.append(b.to_string().as_str());
            query.push(part);
        }
        assert(texts_of(query@) =~= q2 + (match self.before {
            Some(b) => seq!["before="@ + decimal(b.value() as nat)],
            None => seq![],
        }));
        let ghost q3 = texts_of(query@);
        if let Some(l) = self.limit {
            let mut part = String::from_str("limit=");
            part.append(u64_to_string(l).as_str());
            query.push(part);
        }
        assert(texts_of(query@) =~= q3 + (match self.limit {
            Some(l) => seq!["limit="@ + decimal(l as nat)],
            None => seq![],
        }));
        assert(texts_of(query@) == self.spec_query());
        if query.len() > 0 {
            path.append("?");
            path.append(join(&query, "&").as_str());
        }
        path
    }

    /// The same with `user_id` set.
    pub fn user_id(self, user_id: UserId) -> (r: Self)
        ensures
            r == (GetGuildAuditLog { user_id: Some(user_id), ..self }),
    {
        GetGuildAuditLog { user_id: Some(user_id), ..self }
    }

    /// The same with `action_kind` set.
    pub fn action_kind(self, action_kind: IntegerEnum<AuditLogEvent>) -> (r: Self)
        ensures
            r == (GetGuildAuditLog { action_kind: Some(action_kind), ..self }),
    {
        GetGuildAuditLog { action_kind: Some(action_kind), ..self }
    }

    /// The same with `before` set.
    pub fn before(self, before: AuditLogEntryId) -> (r: Self)
        ensures
            r == (GetGuildAuditLog { before: Some(before), ..self }),
    {
        GetGuildAuditLog { before: Some(before), ..self }
    }

    /// The same with `limit` set.
    pub fn limit(self, limit: u64) -> (r: Self)
        ensures
            r == (GetGuildAuditLog { limit: Some(limit), ..self }),
    {
        GetGuildAuditLog { limit: Some(limit), ..self }
    }
}

/// Asks for the user that the token belongs to.
#[derive(Debug, Clone, Copy)]
pub struct GetCurrentUser;

impl GetCurrentUser {
    pub fn new() -> (r: Self) {
        GetCurrentUser
    }

    /// The verb of the request.
    pub fn method(&self) -> (r: Method)
        ensures
            r == Method::Get,
    {
        Method::Get
    }

    /// The path that the request goes to, below the root of the interface.
    pub open spec fn spec_path(&self) -> Seq<char> {
        "users/@me"@
    }

    /// The path that the request goes to, below the root of the interface.
    pub fn path(&self) -> (r: String)
        ensures
            r@ == self.spec_path(),
    {
        let mut p = String::from_str("users/@me");
        p
    }
}

/// Asks for a channel.
#[derive(Debug, Clone)]
pub struct GetChannel {
    pub channel_id: ChannelId,
}

impl GetChannel {
    /// A new value made of its parts.
    pub fn new(channel_id: ChannelId) -> (r: Self)
        ensures
            r == (GetChannel {
                channel_id,
            }),
    {
        GetChannel {
            channel_id,
        }
    }

    /// The verb of the request.
    pub fn method(&self) -> (r: Method)
        ensures
            r == Method::Get,
    {
        Method::Get
    }

    /// The path that the request goes to, below the root of the interface.
    pub open spec fn spec_path(&self) -> Seq<char> {
        "channels/"@ + decimal(self.channel_id.value() as nat)
    }

    /// The path that the request goes to, below the root of the interface.
    pub fn path(&self) -> (r: String)
        ensures
            r@ == self.spec_path(),
    {
        let mut p = String::from_str("channels/");
        p.append(self.channel_id.to_string().as_str());
        p
    }
}

/// Asks for one message of a channel.
#[derive(Debug, Clone)]
pub struct GetChannelMessage {
    pub channel_id: ChannelId,
    pub message_id: MessageId,
}

impl GetChannelMessage {
    /// A new value made of its parts.
    pub fn new(channel_id: ChannelId, message_id: MessageId) -> (r: Self)
        ensures
            r == (GetChannelMessage {
                channel_id,
                message_id,
            }),
    {
        GetChannelMessage {
            channel_id,
            message_id,
        }
    }

    /// The verb of the request.
    pub fn method(&self) -> (r: Method)
        ensures
            r == Method::Get,
    {
        Method::Get
    }

    /// The path that the request goes to, below the root of the interface.
    pub open spec fn spec_path(&self) -> Seq<char> {
        "channels/"@ + decimal(self.channel_id.value() as nat) + "/messages/"@ + decimal(self.message_id.value() as nat)
    }

    /// The path that the request goes to, below the root of the interface.
    pub fn path(&self) -> (r: String)
        ensures
            r@ == self.spec_path(),
    {
        let mut p = String::from_str("channels/");
        p.append(self.channel_id.to_string().as_str());
        p.append("/messages/");
        p.append(self.message_id.to_string().as_str());
        p
    }
}

/// Changes a channel.
#[derive(Debug, Clone)]
pub struct ModifyChannel {
    pub channel_id: ChannelId,
    pub name: Option<String>,
    pub icon: Option<UploadImage>,
    pub kind: Option<IntegerEnum<ChannelKind>>,
    pub position: Option<u64>,
    pub topic: Option<String>,
    pub nsfw: Option<bool>,
    pub rate_limit_per_user: Option<u64>,
    pub bitrate: Option<u64>,
    pub user_limit: Option<u64>,
    pub permission_overwrites: Option<Vec<Overwrite>>,
    pub parent_id: Option<ChannelId>,
    pub rtc_region: Option<String>,
    pub video_quality_mode: Option<IntegerEnum<VideoQualityMode>>,
    pub archived: Option<bool>,
    pub auto_archive_duration: Option<u64>,
    pub locked: Option<bool>,
}

impl ModifyChannel {
    /// A new value with what must be given; the rest is left out.
    pub fn new(channel_id: ChannelId) -> (r: Self)
        ensures
            r == (ModifyChannel {
                channel_id,
                name: None,
                icon: None,
                kind: None,
                position: None,
                topic: None,
                nsfw: None,
                rate_limit_per_user: None,
                bitrate: None,
                user_limit: None,
                permission_overwrites: None,
                parent_id: None,
                rtc_region: None,
                video_quality_mode: None,
                archived: None,
                auto_archive_duration: None,
                locked: None,
            }),
    {
        ModifyChannel {
            channel_id,
            name: None,
            icon: None,
            kind: None,
            position: None,
            topic: None,
            nsfw: None,
            rate_limit_per_user: None,
            bitrate: None,
            user_limit: None,
            permission_overwrites: None,
            parent_id: None,
            rtc_region: None,
            video_quality_mode: None,
            archived: None,
            auto_archive_duration: None,
            locked: None,
        }
    }

    /// The verb of the request.
    pub fn method(&self) -> (r: Method)
        ensures
            r == Method::Patch,
    {
        Method::Patch
    }

    /// The path that the request goes to, below the root of the interface.
    pub open spec fn spec_path(&self) -> Seq<char> {
        "channels/"@ + decimal(self.channel_id.value() as nat)
    }

    /// The path that the request goes to, below the root of the interface.
    pub fn path(&self) -> (r: String)
        ensures
            r@ == self.spec_path(),
    {
        let mut p = String::from_str("channels/");
        p.append(self.channel_id.to_string().as_str());
        p
    }

    /// What the request carries.
    pub fn into_body(self) -> (r: EditChannel)
        ensures
            r == (EditChannel {
                name: self.name,
                icon: self.icon,
                kind: self.kind,
                position: self.position,
                topic: self.topic,
                nsfw: self.nsfw,
                rate_limit_per_user: self.rate_limit_per_user,
                bitrate: self.bitrate,
                user_limit: self.user_limit,
                permission_overwrites: self.permission_overwrites,
                parent_id: self.parent_id,
                rtc_region: self.rtc_region,
                video_quality_mode: self.video_quality_mode,
                archived: self.archived,
                auto_archive_duration: self.auto_archive_duration,
                locked: self.locked,
            }),
    {
        EditChannel {
            name: self.name,
            icon: self.icon,
            kind: self.kind,
            position: self.position,
            topic: self.topic,
            nsfw: self.nsfw,
            rate_limit_per_user: self.rate_limit_per_user,
            bitrate: self.bitrate,
            user_limit: self.user_limit,
            permission_overwrites: self.permission_overwrites,
            parent_id: self.parent_id,
            rtc_region: self.rtc_region,
            video_quality_mode: self.video_quality_mode,
            archived: self.archived,
            auto_archive_duration: self.auto_archive_duration,
            locked: self.locked,
        }
    }

    /// The same with `name` set.
    pub fn name(self, name: String) -> (r: Self)
        ensures
            r == (ModifyChannel { name: Some(name), ..self }),
    {
        ModifyChannel { name: Some(name), ..self }
    }

    /// The same with `icon` set.
    pub fn icon(self, icon: UploadImage) -> (r: Self)
        ensures
            r == (ModifyChannel { icon: Some(icon), ..self }),
    {
        ModifyChannel { icon: Some(icon), ..self }
    }

    /// The same with `kind` set.
    pub fn kind(self, kind: IntegerEnum<ChannelKind>) -> (r: Self)
        ensures
            r == (ModifyChannel { kind: Some(kind), ..self }),
    {
        ModifyChannel { kind: Some(kind), ..self }
    }

    /// The same with `position` set.
    pub fn position(self, position: u64) -> (r: Self)
        ensures
            r == (ModifyChannel { position: Some(position), ..self }),
    {
        ModifyChannel { position: Some(position), ..self }
    }

    /// The same with `topic` set.
    pub fn topic(self, topic: String) -> (r: Self)
        ensures
            r == (ModifyChannel { topic: Some(topic), ..self }),
    {
        ModifyChannel { topic: Some(topic), ..self }
    }

    /// The same with `nsfw` set.
    pub fn nsfw(self, nsfw: bool) -> (r: Self)
        ensures
            r == (ModifyChannel { nsfw: Some(nsfw), ..self }),
    {
        ModifyChannel { nsfw: Some(nsfw), ..self }
    }

    /// The same with `rate_limit_per_user` set.
    pub fn rate_limit_per_user(self, rate_limit_per_user: u64) -> (r: Self)
        ensures
            r == (ModifyChannel { rate_limit_per_user: Some(rate_limit_per_user), ..self }),
    {
        ModifyChannel { rate_limit_per_user: Some(rate_limit_per_user), ..self }
    }

    /// The same with `bitrate` set.
    pub fn bitrate(self, bitrate: u64) -> (r: Self)
        ensures
            r == (ModifyChannel { bitrate: Some(bitrate), ..self }),
    {
        ModifyChannel { bitrate: Some(bitrate), ..self }
    }

    /// The same with `user_limit` set.
    pub fn user_limit(self, user_limit: u64) -> (r: Self)
        ensures
            r == (ModifyChannel { user_limit: Some(user_limit), ..self }),
    {
        ModifyChannel { user_limit: Some(user_limit), ..self }
    }

    /// The same with `permission_overwrites` set.
    pub fn permission_overwrites(self, permission_overwrites: Vec<Overwrite>) -> (r: Self)
        ensures
            r == (ModifyChannel { permission_overwrites: Some(permission_overwrites), ..self }),
    {
        ModifyChannel { permission_overwrites: Some(permission_overwrites), ..self }
    }

    /// The same with `parent_id` set.
    pub fn parent_id(self, parent_id: ChannelId) -> (r: Self)
        ensures
            r == (ModifyChannel { parent_id: Some(parent_id), ..self }),
    {
        ModifyChannel { parent_id: Some(parent_id), ..self }
    }

    /// The same with `rtc_region` set.
    pub fn rtc_region(self, rtc_region: String) -> (r: Self)
        ensures
            r == (ModifyChannel { rtc_region: Some(rtc_region), ..self }),
    {
        ModifyChannel { rtc_region: Some(rtc_region), ..self }
    }

    /// The same with `video_quality_mode` set.
    pub fn video_quality_mode(self, video_quality_mode: IntegerEnum<VideoQualityMode>) -> (r: Self)
        ensures
            r == (ModifyChannel { video_quality_mode: Some(video_quality_mode), ..self }),
    {
        ModifyChannel { video_quality_mode: Some(video_quality_mode), ..self }
    }

    /// The same with `archived` set.
    pub fn archived(self, archived: bool) -> (r: Self)
        ensures
            r == (ModifyChannel { archived: Some(archived), ..self }),
    {
        ModifyChannel { archived: Some(archived), ..self }
    }

    /// The same with `auto_archive_duration` set.
    pub fn auto_archive_duration(self, auto_archive_duration: u64) -> (r: Self)
        ensures
            r == (ModifyChannel { auto_archive_duration: Some(auto_archive_duration), ..self }),
    {
        ModifyChannel { auto_archive_duration: Some(auto_archive_duration), ..self }
    }

    /// The same with `locked` set.
    pub fn locked(self, locked: bool) -> (r: Self)
        ensures
            r == (ModifyChannel { locked: Some(locked), ..self }),
    {
        ModifyChannel { locked: Some(locked), ..self }
    }
}

} // verus!
