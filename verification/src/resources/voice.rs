//! Voice connections.

use vstd::prelude::*;

use crate::borrow::{opt_ref, same_value};
use crate::resources::channel::ChannelId;
use crate::resources::guild::{GuildId, GuildMember};
use crate::resources::user::UserId;
use crate::time::DateTime;

verus! {

/// How a user is connected to a voice channel.
#[derive(Debug, Clone)]
pub struct VoiceState {
    pub guild_id: Option<GuildId>,
    pub channel_id: Option<ChannelId>,
    pub user_id: UserId,
    pub member: Option<GuildMember>,
    pub session_id: String,
    pub deaf: bool,
    pub mute: bool,
    pub self_deaf: bool,
    pub self_mute: bool,
    pub self_stream: Option<bool>,
    pub self_video: Option<bool>,
    pub suppress: bool,
    pub request_to_speak_timestamp: Option<DateTime>,
}

impl VoiceState {
    pub fn guild_id(&self) -> (r: Option<GuildId>)
        ensures
            r == self.guild_id,
    {
        self.guild_id
    }

    pub fn channel_id(&self) -> (r: Option<ChannelId>)
        ensures
            r == self.channel_id,
    {
        self.channel_id
    }

    pub fn user_id(&self) -> (r: UserId)
        ensures
            r == self.user_id,
    {
        self.user_id
    }

    pub fn member(&self) -> (r: Option<&GuildMember>)
        ensures
            same_value(r, self.member),
    {
        opt_ref(&self.member)
    }

    pub fn session_id(&self) -> (r: &str)
        ensures
            r@ == self.session_id@,
    {
        self.session_id.as_str()
    }

    pub fn deaf(&self) -> (r: bool)
        ensures
            r == self.deaf,
    {
        self.deaf
    }

    pub fn mute(&self) -> (r: bool)
        ensures
            r == self.mute,
    {
        self.mute
    }

    pub fn self_deaf(&self) -> (r: bool)
        ensures
            r == self.self_deaf,
    {
        self.self_deaf
    }

    pub fn self_mute(&self) -> (r: bool)
        ensures
            r == self.self_mute,
    {
        self.self_mute
    }

    pub fn self_stream(&self) -> (r: Option<bool>)
        ensures
            r == self.self_stream,
    {
        self.self_stream
    }

    pub fn self_video(&self) -> (r: Option<bool>)
        ensures
            r == self.self_video,
    {
        self.self_video
    }

    pub fn suppress(&self) -> (r: bool)
        ensures
            r == self.suppress,
    {
        self.suppress
    }

    pub fn request_to_speak_timestamp(&self) -> (r: Option<DateTime>)
        ensures
            r == self.request_to_speak_timestamp,
    {
        self.request_to_speak_timestamp
    }
}

} // verus!
