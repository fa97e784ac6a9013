//! Voice-related models.
use vstd::prelude::*;
use vstd::std_specs::convert::FromSpecImpl;
use crate::guild::Member;
use crate::id::{ChannelId, GuildId, UserId};

verus! {
/// Represents a user's voice connection status.
#[derive(Clone, Debug)]
pub struct VoiceState {
    /// Guild ID this voice state is for.
    pub guild_id: Option<GuildId>,
    /// Channel ID this user is connected to.
    pub channel_id: Option<ChannelId>,
    /// User ID this voice state is for.
    pub user_id: UserId,
    /// Guild member this voice state is for.
    pub member: Option<Member>,
    /// Session ID for this voice state.
    pub session_id: String,
    /// Whether this user is deafened by the server.
    pub deaf: bool,
    /// Whether this user is muted by the server.
    pub mute: bool,
    /// Whether this user is locally deafened.
    pub self_deaf: bool,
    /// Whether this user is locally muted.
    pub self_mute: bool,
    /// Whether this user is streaming using "Go Live".
    pub self_stream: bool,
    /// Whether this user's camera is enabled.
    pub self_video: bool,
    /// Whether this user's permission to speak is denied.
    pub suppress: bool,
    /// Time at which the user requested to speak.
    pub request_to_speak_timestamp: Option<String>,
}

/// Represents a voice region.
#[derive(Clone, Debug)]
pub struct VoiceRegion {
    /// Unique ID for the region.
    pub id: String,
    /// Name of the region.
    pub name: String,
    /// True for a single server that is closest to the current user's client.
    pub optimal: bool,
    /// Whether this is a deprecated voice region.
    pub deprecated: bool,
    /// Whether this is a custom voice region (used for events/etc).
    pub custom: bool,
}

/// Stage instance structure.
#[derive(Clone, Debug)]
pub struct StageInstance {
    /// ID of this Stage instance.
    pub id: String,
    /// Guild ID of the associated Stage channel.
    pub guild_id: GuildId,
    /// ID of the associated Stage channel.
    pub channel_id: ChannelId,
    /// Topic of the Stage instance (1-120 characters).
    pub topic: String,
    /// Privacy level of the Stage instance.
    pub privacy_level: StagePrivacyLevel,
    /// Whether or not Stage Discovery is disabled.
    pub discoverable_disabled: bool,
    /// ID of the scheduled event for this Stage instance.
    pub guild_scheduled_event_id: Option<String>,
}

/// Stage privacy level.
#[derive(Clone, Copy, Debug, Default, PartialEq, Eq, Structural)]
pub enum StagePrivacyLevel {
    /// The Stage instance is visible publicly.
    Public,
    /// The Stage instance is visible to only guild members.
    #[default]
    GuildOnly,
}

impl VoiceState {
    /// Returns true if the user is connected to a voice channel.
    pub fn is_connected(&self) -> (r: bool)
        ensures
            r == self.channel_id is Some,
    {
        self.channel_id.is_some()
    }

    /// Returns true if the user is deafened (server or self).
    pub fn is_deafened(&self) -> (r: bool)
        ensures
            r == (self.deaf || self.self_deaf),
    {
        self.deaf || self.self_deaf
    }

    /// Returns true if the user is muted (server or self).
    pub fn is_muted(&self) -> (r: bool)
        ensures
            r == (self.mute || self.self_mute),
    {
        self.mute || self.self_mute
    }
}

/// The privacy level that a number decodes to: 1 is public, anything else guild-only.
pub open spec fn stage_privacy_of(value: u8) -> StagePrivacyLevel {
    if value == 1 {
        StagePrivacyLevel::Public
    } else {
        StagePrivacyLevel::GuildOnly
    }
}

/// The number that encodes a privacy level.
pub open spec fn stage_privacy_code(value: StagePrivacyLevel) -> u8 {
    match value {
        StagePrivacyLevel::Public => 1,
        StagePrivacyLevel::GuildOnly => 2,
    }
}

impl From<u8> for StagePrivacyLevel {
    fn from(value: u8) -> (r: Self)
        ensures
            r == stage_privacy_of(value),
    {
        if value == 1 {
            StagePrivacyLevel::Public
        } else {
            StagePrivacyLevel::GuildOnly
        }
    }
}

impl FromSpecImpl<u8> for StagePrivacyLevel {
    open spec fn obeys_from_spec() -> bool {
        true
    }

    open spec fn from_spec(value: u8) -> StagePrivacyLevel {
        stage_privacy_of(value)
    }
}

impl From<StagePrivacyLevel> for u8 {
    fn from(value: StagePrivacyLevel) -> (r: Self)
        ensures
            r == stage_privacy_code(value),
    {
        match value {
            StagePrivacyLevel::Public => 1,
            StagePrivacyLevel::GuildOnly => 2,
        }
    }
}

impl FromSpecImpl<StagePrivacyLevel> for u8 {
    open spec fn obeys_from_spec() -> bool {
        true
    }

    open spec fn from_spec(value: StagePrivacyLevel) -> u8 {
        stage_privacy_code(value)
    }
}

/// Encoding a privacy level and decoding the number gives the level back.
pub proof fn law_stage_privacy_round_trip(level: StagePrivacyLevel)
    ensures
        stage_privacy_of(stage_privacy_code(level)) == level,
{
}

/// A Stage instance's privacy level has its number in the Discord API: public
/// is 1 and guild-only is 2; a received 1 is public and every other number is
/// read as guild-only.
pub proof fn law_stage_privacy_numbers(v: u8)
    ensures
        stage_privacy_code(StagePrivacyLevel::Public) == 1,
        stage_privacy_code(StagePrivacyLevel::GuildOnly) == 2,
        (stage_privacy_of(v) == StagePrivacyLevel::Public) <==> v == 1,
        v != 1 ==> stage_privacy_of(v) == StagePrivacyLevel::GuildOnly,
{
}

/// A voice connection. Voice support is not implemented yet; this is its placeholder.
#[derive(Debug)]
pub struct VoiceConnection {
    _private: (),
}

impl VoiceConnection {
    /// Create a new voice connection (placeholder).
    pub fn new() -> (r: Self) {
        VoiceConnection { _private: () }
    }
}

impl Default for VoiceConnection {
    fn default() -> (r: Self) {
        Self::new()
    }
}

} // verus!
