use discord2::audit_log::{
    AuditLogChangeKey, AuditLogEntryId, AuditLogEvent, FromRawAuditLogChangeError,
    RawAuditLogChange,
};
use discord2::discord::requests::{
    BatchEditApplicationCommandPermissions, BulkOverwriteGlobalApplicationCommands,
    BulkOverwriteGuildApplicationCommands, CreateGlobalApplicationCommand,
    CreateGuildApplicationCommand, DeleteGlobalApplicationCommand, DeleteGuildApplicationCommand,
    EditApplicationCommandPermissions, EditGlobalApplicationCommand, EditGuildApplicationCommand,
    GetApplicationCommandPermissions, GetChannel, GetChannelMessage, GetCurrentUser,
    GetGlobalApplicationCommand, GetGlobalApplicationCommands, GetGuildApplicationCommand,
    GetGuildApplicationCommandPermissions, GetGuildApplicationCommands, GetGuildAuditLog,
    ModifyChannel,
};
use discord2::discord::{Method, DEFAULT_API_ROOT, DEFAULT_NAME, DEFAULT_URL, DEFAULT_VERSION};
use discord2::enums::IntegerEnum;
use discord2::permissions::RoleId;
use discord2::resources::application::{
    ApplicationCommandId, ApplicationCommandPermission, ApplicationId, CmdPermIdHelper,
    CommandPermissionId, EditGuildApplicationCommandPermissions, NewApplicationCommand,
};
use discord2::resources::channel::{
    ChannelId, ChannelKind, MessageId, OverwriteId, OverwriteIdHelper,
};
use discord2::resources::guild::GuildId;
use discord2::resources::user::{BotId, UserId};
use discord2::snowflake::AnyId;
use discord2::{Config, Token};

use std::str::FromStr;

fn app() -> ApplicationId {
    ApplicationId::from(172150183260323840)
}

fn guild() -> GuildId {
    GuildId::from(41771983423143937)
}

fn command() -> ApplicationCommandId {
    ApplicationCommandId::from(61771983423143937)
}

#[test]
fn paths_of_global_commands() {
    let r = GetGlobalApplicationCommands::new(app());
    assert_eq!((r.method(), r.path().as_str()), (Method::Get, "applications/172150183260323840/commands"));
    let r = GetGlobalApplicationCommand::new(app(), command());
    assert_eq!(
        (r.method(), r.path().as_str()),
        (Method::Get, "applications/172150183260323840/commands/61771983423143937")
    );
    let r = BulkOverwriteGlobalApplicationCommands::new(app(), Vec::new());
    assert_eq!((r.method(), r.path().as_str()), (Method::Put, "applications/172150183260323840/commands"));
    assert!(r.body().is_empty());
    let r = CreateGlobalApplicationCommand::new(app(), "ping".to_owned(), "Pings".to_owned())
        .default_permission(true);
    assert_eq!((r.method(), r.path().as_str()), (Method::Post, "applications/172150183260323840/commands"));
    let body = r.into_body();
    assert_eq!(body.name, "ping");
    assert_eq!(body.description, "Pings");
    assert!(body.options.is_none());
    assert_eq!(body.default_permission, Some(true));
    let r = EditGlobalApplicationCommand::new(app(), command()).name("pong".to_owned());
    assert_eq!(
        (r.method(), r.path().as_str()),
        (Method::Patch, "applications/172150183260323840/commands/61771983423143937")
    );
    let body = r.into_body();
    assert_eq!(body.name.as_deref(), Some("pong"));
    assert_eq!(body.description, None);
    let r = DeleteGlobalApplicationCommand::new(app(), command());
    assert_eq!(
        (r.method(), r.path().as_str()),
        (Method::Delete, "applications/172150183260323840/commands/61771983423143937")
    );
}

#[test]
fn paths_of_guild_commands() {
    let base = "applications/172150183260323840/guilds/41771983423143937/commands";
    let one = format!("{}/61771983423143937", base);
    let r = GetGuildApplicationCommands::new(app(), guild());
    assert_eq!((r.method(), r.path()), (Method::Get, base.to_owned()));
    let r = GetGuildApplicationCommand::new(app(), command(), guild());
    assert_eq!((r.method(), r.path()), (Method::Get, one.clone()));
    let new = NewApplicationCommand::new("a".to_owned(), "b".to_owned());
    let r = BulkOverwriteGuildApplicationCommands::new(app(), guild(), vec![new]);
    assert_eq!((r.method(), r.path()), (Method::Put, base.to_owned()));
    assert_eq!(r.body().len(), 1);
    assert_eq!(r.body()[0].name, "a");
    let r = CreateGuildApplicationCommand::new(app(), guild(), "a".to_owned(), "b".to_owned());
    assert_eq!((r.method(), r.path()), (Method::Post, base.to_owned()));
    let r = EditGuildApplicationCommand::new(app(), guild(), command()).description("d".to_owned());
    assert_eq!((r.method(), r.path()), (Method::Patch, one.clone()));
    assert_eq!(r.into_body().description.as_deref(), Some("d"));
    let r = DeleteGuildApplicationCommand::new(app(), guild(), command());
    assert_eq!((r.method(), r.path()), (Method::Delete, one.clone()));
    let r = GetGuildApplicationCommandPermissions::new(app(), guild());
    assert_eq!((r.method(), r.path()), (Method::Get, format!("{}/permissions", base)));
    let r = GetApplicationCommandPermissions::new(app(), guild(), command());
    assert_eq!((r.method(), r.path()), (Method::Get, format!("{}/permissions", one)));
    let permission =
        ApplicationCommandPermission::new(CommandPermissionId::User(UserId::from(7)), true);
    let r = EditApplicationCommandPermissions::new(app(), guild(), command(), vec![permission.clone()]);
    assert_eq!((r.method(), r.path()), (Method::Put, format!("{}/permissions", one)));
    assert_eq!(r.body().len(), 1);
    assert_eq!(r.body()[0].id(), CommandPermissionId::User(UserId::from(7)));
    assert!(r.body()[0].permission());
    let edit = EditGuildApplicationCommandPermissions::new(command(), vec![permission]);
    let r = BatchEditApplicationCommandPermissions::new(app(), guild(), vec![edit]);
    assert_eq!((r.method(), r.path()), (Method::Put, format!("{}/permissions", base)));
    assert_eq!(r.body()[0].id, command());
}

#[test]
fn paths_of_channels_and_users() {
    let r = GetCurrentUser::new();
    assert_eq!((r.method(), r.path().as_str()), (Method::Get, "users/@me"));
    let r = GetChannel::new(ChannelId::from(5));
    assert_eq!((r.method(), r.path().as_str()), (Method::Get, "channels/5"));
    let r = GetChannelMessage::new(ChannelId::from(5), MessageId::from(u64::MAX));
    assert_eq!(
        (r.method(), r.path().as_str()),
        (Method::Get, "channels/5/messages/18446744073709551615")
    );
    let r = ModifyChannel::new(ChannelId::from(0))
        .name("general".to_owned())
        .kind(IntegerEnum::from(ChannelKind::GuildNews))
        .nsfw(false)
        .parent_id(ChannelId::from(9));
    assert_eq!((r.method(), r.path().as_str()), (Method::Patch, "channels/0"));
    let body = r.into_body();
    assert_eq!(body.name.as_deref(), Some("general"));
    assert_eq!(body.kind.map(|k| k.encode()), Some(5));
    assert_eq!(body.nsfw, Some(false));
    assert_eq!(body.parent_id, Some(ChannelId::from(9)));
    assert_eq!(body.topic, None);
    assert_eq!(body.position, None);
    assert!(body.icon.is_none());
}

#[test]
fn audit_log_query() {
    let r = GetGuildAuditLog::new(guild());
    assert_eq!(r.method(), Method::Get);
    assert_eq!(r.path(), "guilds/41771983423143937/audit-logs");
    let r = GetGuildAuditLog::new(guild()).limit(50);
    assert_eq!(r.path(), "guilds/41771983423143937/audit-logs?limit=50");
    let r = GetGuildAuditLog::new(guild()).user_id(UserId::from(12));
    assert_eq!(r.path(), "guilds/41771983423143937/audit-logs?user_id=12");
    let r = GetGuildAuditLog::new(guild()).action_kind(IntegerEnum::from(AuditLogEvent::ChannelCreate));
    assert_eq!(r.path(), "guilds/41771983423143937/audit-logs?action_type=10");
    let r = GetGuildAuditLog::new(guild()).action_kind(IntegerEnum::custom(9999));
    assert_eq!(r.path(), "guilds/41771983423143937/audit-logs?action_type=9999");
    let r = GetGuildAuditLog::new(guild()).before(AuditLogEntryId::from(3)).user_id(UserId::from(12));
    assert_eq!(r.path(), "guilds/41771983423143937/audit-logs?user_id=12&before=3");
    let r = GetGuildAuditLog::new(guild())
        .limit(0)
        .before(AuditLogEntryId::from(3))
        .action_kind(IntegerEnum::from(AuditLogEvent::IntegrationDelete))
        .user_id(UserId::from(12));
    assert_eq!(
        r.path(),
        "guilds/41771983423143937/audit-logs?user_id=12&action_type=82&before=3&limit=0"
    );
}

#[test]
fn token_and_settings() {
    let token = Token::bot("abc.def".to_owned());
    assert_eq!(token.to_header_text(), "Bot abc.def");
    assert_eq!(token.obscured(), "Bot(*******)");
    let token = Token::bearer("xyz".to_owned());
    assert_eq!(token.to_header_text(), "Bearer xyz");
    assert_eq!(token.obscured(), "Bearer(***)");
    assert_eq!(Token::bot(String::new()).obscured(), "Bot()");

    let config = Config::new(token);
    assert_eq!(config.name, DEFAULT_NAME);
    assert_eq!(config.url, DEFAULT_URL);
    assert_eq!(config.version, DEFAULT_VERSION);
    assert_eq!(config.api_root, DEFAULT_API_ROOT);
    assert_eq!(config.api_root, "https://discord.com/api/v9/");
    assert_eq!(config.user_agent(), "RustDiscord2Bot (, 0.1.0)");
    let config = config
        .name("Bot".to_owned())
        .url("https://example.org".to_owned())
        .version("1.2".to_owned())
        .api_root("http://localhost/".to_owned());
    assert_eq!(config.user_agent(), "Bot (https://example.org, 1.2)");
    assert_eq!(config.api_root, "http://localhost/");
    assert_eq!(config.token.to_header_text(), "Bearer xyz");
}

#[test]
fn change_keys() {
    let keys = [
        ("name", AuditLogChangeKey::Name),
        ("icon_hash", AuditLogChangeKey::IconHash),
        ("$add", AuditLogChangeKey::RoleAdd),
        ("$remove", AuditLogChangeKey::RoleRemove),
        ("type", AuditLogChangeKey::Kind),
        ("id", AuditLogChangeKey::Id),
        ("deny", AuditLogChangeKey::Deny),
        ("default_message_notifications", AuditLogChangeKey::DefaultMessageNotifications),
        ("user_limit", AuditLogChangeKey::UserLimit),
        ("permission_overwrites", AuditLogChangeKey::PermissionOverwrites),
    ];
    for (text, key) in keys {
        assert_eq!(AuditLogChangeKey::from_str(text), Ok(key));
        assert_eq!(key.as_ref(), text);
        let raw = RawAuditLogChange { key: text.to_owned(), new_value: None, old_value: None };
        assert_eq!(raw.key(), text);
        let (found, back) = raw.kind().unwrap();
        assert_eq!(found, key);
        assert_eq!(back.key, text);
    }
    for text in ["", "Name", "names", "unknown", "$ADD"] {
        let raw = RawAuditLogChange {
            key: text.to_owned(),
            new_value: Some(serde_json::Value::from(5)),
            old_value: None,
        };
        match raw.kind() {
            Err(FromRawAuditLogChangeError::UnrecognizedKind { change }) => {
                assert_eq!(change.key, text);
                assert_eq!(change.new_value, Some(serde_json::Value::from(5)));
                assert_eq!(change.old_value, None);
            }
            other => panic!("{:?}", other),
        }
    }
}

#[test]
fn identifiers_of_two_kinds() {
    let role = OverwriteId::Role(RoleId::from(5));
    let member = OverwriteId::Member(UserId::from(6));
    assert!(role.is_role() && !role.is_member());
    assert!(member.is_member() && !member.is_role());
    assert_eq!(OverwriteIdHelper::from(role), OverwriteIdHelper { id: AnyId::from(5), kind: 0 });
    assert_eq!(OverwriteIdHelper::from(member), OverwriteIdHelper { id: AnyId::from(6), kind: 1 });
    assert_eq!(OverwriteIdHelper { id: AnyId::from(5), kind: 0 }.try_into_id(), Some(role));
    assert_eq!(OverwriteIdHelper { id: AnyId::from(6), kind: 1 }.into_id(), member);
    assert_eq!(OverwriteIdHelper { id: AnyId::from(6), kind: 2 }.try_into_id(), None);
    assert_eq!(OverwriteId::from(UserId::from(6)), member);
    assert_eq!(OverwriteId::from(RoleId::from(5)), role);

    let role = CommandPermissionId::Role(RoleId::from(5));
    let user = CommandPermissionId::User(UserId::from(6));
    assert!(role.is_role() && !role.is_user());
    assert!(user.is_user() && !user.is_role());
    assert_eq!(CmdPermIdHelper::from(role), CmdPermIdHelper { id: AnyId::from(5), kind: 1 });
    assert_eq!(CmdPermIdHelper::from(user), CmdPermIdHelper { id: AnyId::from(6), kind: 2 });
    assert_eq!(CmdPermIdHelper { id: AnyId::from(5), kind: 1 }.try_into_id(), Some(role));
    assert_eq!(CmdPermIdHelper { id: AnyId::from(6), kind: 2 }.into_id(), user);
    assert_eq!(CmdPermIdHelper { id: AnyId::from(6), kind: 0 }.try_into_id(), None);
    assert_eq!(CmdPermIdHelper { id: AnyId::from(6), kind: 3 }.try_into_id(), None);

    assert_eq!(RoleId::everyone(guild()), RoleId::from(41771983423143937));
    assert_eq!(UserId::from(BotId::from(8)), UserId::from(8));
    assert_eq!(BotId::from(UserId::from(8)), BotId::from(8));
    assert_eq!(ApplicationId::from(UserId::from(8)), ApplicationId::from(8));
}
