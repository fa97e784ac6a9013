//! Shard protocol logic for the Discord Gateway.
//!
//! A shard follows the gateway protocol: it identifies or resumes after Hello,
//! keeps the last sequence number, heartbeats and watches for acknowledgements,
//! and records the session of Ready. The caller owns the socket: it hands each
//! received payload to the shard and performs the actions that come back.
use vstd::prelude::*;
use crate::error::Error;
use crate::gateway::{
    opcode_of, GatewayEvent, GatewayOpcode, GatewayPayload, HelloEvent, Intents,
};
use crate::text::{owned, push_decimal, str_eq, dec_str};

verus! {

/// Configuration for a shard.
#[derive(Clone, Debug)]
pub struct ShardConfig {
    /// The bot token.
    pub token: String,
    /// The shard ID.
    pub shard_id: u32,
    /// Total number of shards.
    pub total_shards: u32,
    /// Gateway intents.
    pub intents: Intents,
    /// Large threshold for guild member chunking.
    pub large_threshold: u8,
}

impl ShardConfig {
    /// Create a new shard config: shard 0 of 1, large threshold 50.
    pub fn new(token: String, intents: Intents) -> (r: Self)
        ensures
            r.token == token,
            r.shard_id == 0,
            r.total_shards == 1,
            r.intents == intents,
            r.large_threshold == 50,
    {
        ShardConfig { token, shard_id: 0, total_shards: 1, intents, large_threshold: 50 }
    }

    /// Set the shard ID and total shards.
    pub fn with_sharding(self, shard_id: u32, total_shards: u32) -> (r: Self)
        ensures
            r == (ShardConfig { shard_id, total_shards, ..self }),
    {
        let mut s = self;
        s.shard_id = shard_id;
        s.total_shards = total_shards;
        s
    }

    /// Set the large threshold.
    pub fn with_large_threshold(self, threshold: u8) -> (r: Self)
        ensures
            r == (ShardConfig { large_threshold: threshold, ..self }),
    {
        let mut s = self;
        s.large_threshold = threshold;
        s
    }
}

/// The data of an Identify payload (opcode 2).
#[derive(Clone, Debug)]
pub struct IdentifyPayload {
    /// The bot token.
    pub token: String,
    /// The raw intent bits.
    pub intents: u32,
    /// Whether payload compression is asked for.
    pub compress: bool,
    /// Large threshold for guild member chunking.
    pub large_threshold: u8,
    /// The shard ID.
    pub shard_id: u32,
    /// Total number of shards.
    pub total_shards: u32,
}

/// The data of a Resume payload (opcode 6).
#[derive(Clone, Debug)]
pub struct ResumePayload {
    /// The bot token.
    pub token: String,
    /// The session to resume.
    pub session_id: String,
    /// The last sequence number received.
    pub seq: Option<u64>,
}

/// The data of a Presence Update payload (opcode 3).
#[derive(Debug)]
pub struct PresencePayload {
    /// The status ("online", "idle", "dnd" or "offline").
    pub status: String,
    /// The activities shown.
    pub activities: Vec<serde_json::Value>,
    /// Whether the client is away.
    pub afk: bool,
}

/// The data of a Request Guild Members payload (opcode 8).
#[derive(Clone, Debug)]
pub struct GuildMembersRequest {
    /// The guild, as decimal text.
    pub guild_id: String,
    /// Prefix that usernames must start with; empty for all members.
    pub query: String,
    /// Most members to send.
    pub limit: u32,
}

/// What the caller must do for the shard.
#[derive(Debug)]
pub enum ShardAction {
    /// Send a Heartbeat payload (opcode 1) carrying the sequence number.
    SendHeartbeat {
        /// The last sequence number received.
        sequence: Option<u64>,
    },
    /// Send an Identify payload.
    SendIdentify(IdentifyPayload),
    /// Send a Resume payload.
    SendResume(ResumePayload),
    /// Pass an event on to the event consumer.
    Emit(GatewayEvent),
}

/// What one turn of a shard's run loop came to.
#[derive(Clone, Copy, Debug, PartialEq, Eq, Structural)]
pub enum RunOutcome {
    /// The heartbeat was sent.
    HeartbeatSent,
    /// Sending the heartbeat failed, or it was refused.
    HeartbeatFailed,
    /// A payload was received and handled.
    PayloadHandled,
    /// A payload was received and handling it failed.
    PayloadFailed,
    /// The connection gave no payload; `disconnected` tells whether it is closed.
    NoPayload { disconnected: bool },
    /// Receiving from the connection failed.
    ReceiveFailed,
}

/// Whether a run loop goes on after `o`: it stops when a heartbeat fails, when
/// receiving fails, and when the connection is closed; a payload whose handling
/// failed does not stop it.
pub open spec fn run_continues(o: RunOutcome) -> bool {
    match o {
        RunOutcome::HeartbeatFailed => false,
        RunOutcome::ReceiveFailed => false,
        RunOutcome::NoPayload { disconnected } => !disconnected,
        _ => true,
    }
}

/// Decide whether a shard's run loop takes another turn after `outcome`.
pub fn continue_running(outcome: RunOutcome) -> (r: bool)
    ensures
        r == run_continues(outcome),
{
    match outcome {
        RunOutcome::HeartbeatFailed => false,
        RunOutcome::ReceiveFailed => false,
        RunOutcome::NoPayload { disconnected } => !disconnected,
        RunOutcome::HeartbeatSent => true,
        RunOutcome::PayloadHandled => true,
        RunOutcome::PayloadFailed => true,
    }
}

/// What remains to do with a payload after the shard has looked at it.
#[derive(Debug)]
pub enum PayloadStep {
    /// The payload is handled; perform these actions in order.
    Done(Vec<ShardAction>),
    /// A Hello: parse the data as a `HelloEvent` and pass it to `handle_hello`.
    Hello(serde_json::Value),
    /// A Dispatch: parse the data as the event that `kind` names and pass it to
    /// `record_dispatch`.
    Dispatch {
        /// The event name (`UNKNOWN` when the payload had none).
        name: String,
        /// Which event the name names.
        kind: DispatchKind,
        /// The event data (JSON null when the payload had none).
        data: serde_json::Value,
    },
}

/// The dispatch events that the shard parses into their own variants.
#[derive(Clone, Copy, Debug, PartialEq, Eq, Structural)]
pub enum DispatchKind {
    /// `READY`.
    Ready,
    /// `RESUMED`.
    Resumed,
    /// `MESSAGE_CREATE`.
    MessageCreate,
    /// `MESSAGE_UPDATE`.
    MessageUpdate,
    /// `MESSAGE_DELETE`.
    MessageDelete,
    /// `GUILD_CREATE`.
    GuildCreate,
    /// `GUILD_UPDATE`.
    GuildUpdate,
    /// `GUILD_DELETE`.
    GuildDelete,
    /// `CHANNEL_CREATE`.
    ChannelCreate,
    /// `CHANNEL_UPDATE`.
    ChannelUpdate,
    /// `CHANNEL_DELETE`.
    ChannelDelete,
    /// `GUILD_MEMBER_ADD`.
    GuildMemberAdd,
    /// `GUILD_MEMBER_REMOVE`.
    GuildMemberRemove,
    /// `GUILD_MEMBER_UPDATE`.
    GuildMemberUpdate,
    /// `INTERACTION_CREATE`.
    InteractionCreate,
    /// `TYPING_START`.
    TypingStart,
    /// `VOICE_STATE_UPDATE`.
    VoiceStateUpdate,
    /// `VOICE_SERVER_UPDATE`.
    VoiceServerUpdate,
    /// `PRESENCE_UPDATE`.
    PresenceUpdate,
    /// Any other name: passed on as `GatewayEvent::Unknown`.
    Unknown,
}

/// Which dispatch event a name names.
pub open spec fn dispatch_kind_of(name: Seq<char>) -> DispatchKind {
    if name == "READY"@ {
        DispatchKind::Ready
    } else if name == "RESUMED"@ {
        DispatchKind::Resumed
    } else if name == "MESSAGE_CREATE"@ {
        DispatchKind::MessageCreate
    } else if name == "MESSAGE_UPDATE"@ {
        DispatchKind::MessageUpdate
    } else if name == "MESSAGE_DELETE"@ {
        DispatchKind::MessageDelete
    } else if name == "GUILD_CREATE"@ {
        DispatchKind::GuildCreate
    } else if name == "GUILD_UPDATE"@ {
        DispatchKind::GuildUpdate
    } else if name == "GUILD_DELETE"@ {
        DispatchKind::GuildDelete
    } else if name == "CHANNEL_CREATE"@ {
        DispatchKind::ChannelCreate
    } else if name == "CHANNEL_UPDATE"@ {
        DispatchKind::ChannelUpdate
    } else if name == "CHANNEL_DELETE"@ {
        DispatchKind::ChannelDelete
    } else if name == "GUILD_MEMBER_ADD"@ {
        DispatchKind::GuildMemberAdd
    } else if name == "GUILD_MEMBER_REMOVE"@ {
        DispatchKind::GuildMemberRemove
    } else if name == "GUILD_MEMBER_UPDATE"@ {
        DispatchKind::GuildMemberUpdate
    } else if name == "INTERACTION_CREATE"@ {
        DispatchKind::InteractionCreate
    } else if name == "TYPING_START"@ {
        DispatchKind::TypingStart
    } else if name == "VOICE_STATE_UPDATE"@ {
        DispatchKind::VoiceStateUpdate
    } else if name == "VOICE_SERVER_UPDATE"@ {
        DispatchKind::VoiceServerUpdate
    } else if name == "PRESENCE_UPDATE"@ {
        DispatchKind::PresenceUpdate
    } else {
        DispatchKind::Unknown
    }
}

/// Which dispatch event a name names.
pub fn dispatch_kind(name: &str) -> (r: DispatchKind)
    ensures
        r == dispatch_kind_of(name@),
{
    if str_eq(name, "READY") {
        DispatchKind::Ready
    } else if str_eq(name, "RESUMED") {
        DispatchKind::Resumed
    } else if str_eq(name, "MESSAGE_CREATE") {
        DispatchKind::MessageCreate
    } else if str_eq(name, "MESSAGE_UPDATE") {
        DispatchKind::MessageUpdate
    } else if str_eq(name, "MESSAGE_DELETE") {
        DispatchKind::MessageDelete
    } else if str_eq(name, "GUILD_CREATE") {
        DispatchKind::GuildCreate
    } else if str_eq(name, "GUILD_UPDATE") {
        DispatchKind::GuildUpdate
    } else if str_eq(name, "GUILD_DELETE") {
        DispatchKind::GuildDelete
    } else if str_eq(name, "CHANNEL_CREATE") {
        DispatchKind::ChannelCreate
    } else if str_eq(name, "CHANNEL_UPDATE") {
        DispatchKind::ChannelUpdate
    } else if str_eq(name, "CHANNEL_DELETE") {
        DispatchKind::ChannelDelete
    } else if str_eq(name, "GUILD_MEMBER_ADD") {
        DispatchKind::GuildMemberAdd
    } else if str_eq(name, "GUILD_MEMBER_REMOVE") {
        DispatchKind::GuildMemberRemove
    } else if str_eq(name, "GUILD_MEMBER_UPDATE") {
        DispatchKind::GuildMemberUpdate
    } else if str_eq(name, "INTERACTION_CREATE") {
        DispatchKind::InteractionCreate
    } else if str_eq(name, "TYPING_START") {
        DispatchKind::TypingStart
    } else if str_eq(name, "VOICE_STATE_UPDATE") {
        DispatchKind::VoiceStateUpdate
    } else if str_eq(name, "VOICE_SERVER_UPDATE") {
        DispatchKind::VoiceServerUpdate
    } else if str_eq(name, "PRESENCE_UPDATE") {
        DispatchKind::PresenceUpdate
    } else {
        DispatchKind::Unknown
    }
}

/// Each gateway dispatch name selects its own kind of event: `READY` is a
/// ready event, `CHANNEL_UPDATE` a channel update, and so on for every name
/// the gateway sends; a name that is none of these is an unknown event.
pub proof fn law_dispatch_names(name: Seq<char>)
    ensures
        dispatch_kind_of("READY"@) == DispatchKind::Ready,
        dispatch_kind_of("RESUMED"@) == DispatchKind::Resumed,
        dispatch_kind_of("MESSAGE_CREATE"@) == DispatchKind::MessageCreate,
        dispatch_kind_of("MESSAGE_UPDATE"@) == DispatchKind::MessageUpdate,
        dispatch_kind_of("MESSAGE_DELETE"@) == DispatchKind::MessageDelete,
        dispatch_kind_of("GUILD_CREATE"@) == DispatchKind::GuildCreate,
        dispatch_kind_of("GUILD_UPDATE"@) == DispatchKind::GuildUpdate,
        dispatch_kind_of("GUILD_DELETE"@) == DispatchKind::GuildDelete,
        dispatch_kind_of("CHANNEL_CREATE"@) == DispatchKind::ChannelCreate,
        dispatch_kind_of("CHANNEL_UPDATE"@) == DispatchKind::ChannelUpdate,
        dispatch_kind_of("CHANNEL_DELETE"@) == DispatchKind::ChannelDelete,
        dispatch_kind_of("GUILD_MEMBER_ADD"@) == DispatchKind::GuildMemberAdd,
        dispatch_kind_of("GUILD_MEMBER_REMOVE"@) == DispatchKind::GuildMemberRemove,
        dispatch_kind_of("GUILD_MEMBER_UPDATE"@) == DispatchKind::GuildMemberUpdate,
        dispatch_kind_of("INTERACTION_CREATE"@) == DispatchKind::InteractionCreate,
        dispatch_kind_of("TYPING_START"@) == DispatchKind::TypingStart,
        dispatch_kind_of("VOICE_STATE_UPDATE"@) == DispatchKind::VoiceStateUpdate,
        dispatch_kind_of("VOICE_SERVER_UPDATE"@) == DispatchKind::VoiceServerUpdate,
        dispatch_kind_of("PRESENCE_UPDATE"@) == DispatchKind::PresenceUpdate,
        (dispatch_kind_of(name) == DispatchKind::Unknown) <==> !(name == "READY"@ || name == "RESUMED"@ || name == "MESSAGE_CREATE"@ || name == "MESSAGE_UPDATE"@ || name == "MESSAGE_DELETE"@ || name == "GUILD_CREATE"@ || name == "GUILD_UPDATE"@ || name == "GUILD_DELETE"@ || name == "CHANNEL_CREATE"@ || name == "CHANNEL_UPDATE"@ || name == "CHANNEL_DELETE"@ || name == "GUILD_MEMBER_ADD"@ || name == "GUILD_MEMBER_REMOVE"@ || name == "GUILD_MEMBER_UPDATE"@ || name == "INTERACTION_CREATE"@ || name == "TYPING_START"@ || name == "VOICE_STATE_UPDATE"@ || name == "VOICE_SERVER_UPDATE"@ || name == "PRESENCE_UPDATE"@),
{
    reveal_strlit("READY");
    reveal_strlit("RESUMED");
    reveal_strlit("MESSAGE_CREATE");
    reveal_strlit("MESSAGE_UPDATE");
    reveal_strlit("MESSAGE_DELETE");
    reveal_strlit("GUILD_CREATE");
    reveal_strlit("GUILD_UPDATE");
    reveal_strlit("GUILD_DELETE");
    reveal_strlit("CHANNEL_CREATE");
    reveal_strlit("CHANNEL_UPDATE");
    reveal_strlit("CHANNEL_DELETE");
    reveal_strlit("GUILD_MEMBER_ADD");
    reveal_strlit("GUILD_MEMBER_REMOVE");
    reveal_strlit("GUILD_MEMBER_UPDATE");
    reveal_strlit("INTERACTION_CREATE");
    reveal_strlit("TYPING_START");
    reveal_strlit("VOICE_STATE_UPDATE");
    reveal_strlit("VOICE_SERVER_UPDATE");
    reveal_strlit("PRESENCE_UPDATE");
    // the names are told apart by their lengths, or by a character
    assert("RESUMED"@.len() != "READY"@.len());
    assert("MESSAGE_CREATE"@.len() != "READY"@.len());
    assert("MESSAGE_CREATE"@.len() != "RESUMED"@.len());
    assert("MESSAGE_UPDATE"@.len() != "READY"@.len());
    assert("MESSAGE_UPDATE"@.len() != "RESUMED"@.len());
    assert("MESSAGE_UPDATE"@[8] != "MESSAGE_CREATE"@[8]);
    assert("MESSAGE_DELETE"@.len() != "READY"@.len());
    assert("MESSAGE_DELETE"@.len() != "RESUMED"@.len());
    assert("MESSAGE_DELETE"@[8] != "MESSAGE_CREATE"@[8]);
    assert("MESSAGE_DELETE"@[8] != "MESSAGE_UPDATE"@[8]);
    assert("GUILD_CREATE"@.len() != "READY"@.len());
    assert("GUILD_CREATE"@.len() != "RESUMED"@.len());
    assert("GUILD_CREATE"@.len() != "MESSAGE_CREATE"@.len());
    assert("GUILD_CREATE"@.len() != "MESSAGE_UPDATE"@.len());
    assert("GUILD_CREATE"@.len() != "MESSAGE_DELETE"@.len());
    assert("GUILD_UPDATE"@.len() != "READY"@.len());
    assert("GUILD_UPDATE"@.len() != "RESUMED"@.len());
    assert("GUILD_UPDATE"@.len() != "MESSAGE_CREATE"@.len());
    assert("GUILD_UPDATE"@.len() != "MESSAGE_UPDATE"@.len());
    assert("GUILD_UPDATE"@.len() != "MESSAGE_DELETE"@.len());
    assert("GUILD_UPDATE"@[6] != "GUILD_CREATE"@[6]);
    assert("GUILD_DELETE"@.len() != "READY"@.len());
    assert("GUILD_DELETE"@.len() != "RESUMED"@.len());
    assert("GUILD_DELETE"@.len() != "MESSAGE_CREATE"@.len());
    assert("GUILD_DELETE"@.len() != "MESSAGE_UPDATE"@.len());
    assert("GUILD_DELETE"@.len() != "MESSAGE_DELETE"@.len());
    assert("GUILD_DELETE"@[6] != "GUILD_CREATE"@[6]);
    assert("GUILD_DELETE"@[6] != "GUILD_UPDATE"@[6]);
    assert("CHANNEL_CREATE"@.len() != "READY"@.len());
    assert("CHANNEL_CREATE"@.len() != "RESUMED"@.len());
    assert("CHANNEL_CREATE"@[0] != "MESSAGE_CREATE"@[0]);
    assert("CHANNEL_CREATE"@[0] != "MESSAGE_UPDATE"@[0]);
    assert("CHANNEL_CREATE"@[0] != "MESSAGE_DELETE"@[0]);
    assert("CHANNEL_CREATE"@.len() != "GUILD_CREATE"@.len());
    assert("CHANNEL_CREATE"@.len() != "GUILD_UPDATE"@.len());
    assert("CHANNEL_CREATE"@.len() != "GUILD_DELETE"@.len());
    assert("CHANNEL_UPDATE"@.len() != "READY"@.len());
    assert("CHANNEL_UPDATE"@.len() != "RESUMED"@.len());
    assert("CHANNEL_UPDATE"@[0] != "MESSAGE_CREATE"@[0]);
    assert("CHANNEL_UPDATE"@[0] != "MESSAGE_UPDATE"@[0]);
    assert("CHANNEL_UPDATE"@[0] != "MESSAGE_DELETE"@[0]);
    assert("CHANNEL_UPDATE"@.len() != "GUILD_CREATE"@.len());
    assert("CHANNEL_UPDATE"@.len() != "GUILD_UPDATE"@.len());
    assert("CHANNEL_UPDATE"@.len() != "GUILD_DELETE"@.len());
    assert("CHANNEL_UPDATE"@[8] != "CHANNEL_CREATE"@[8]);
    assert("CHANNEL_DELETE"@.len() != "READY"@.len());
    assert("CHANNEL_DELETE"@.len() != "RESUMED"@.len());
    assert("CHANNEL_DELETE"@[0] != "MESSAGE_CREATE"@[0]);
    assert("CHANNEL_DELETE"@[0] != "MESSAGE_UPDATE"@[0]);
    assert("CHANNEL_DELETE"@[0] != "MESSAGE_DELETE"@[0]);
    assert("CHANNEL_DELETE"@.len() != "GUILD_CREATE"@.len());
    assert("CHANNEL_DELETE"@.len() != "GUILD_UPDATE"@.len());
    assert("CHANNEL_DELETE"@.len() != "GUILD_DELETE"@.len());
    assert("CHANNEL_DELETE"@[8] != "CHANNEL_CREATE"@[8]);
    assert("CHANNEL_DELETE"@[8] != "CHANNEL_UPDATE"@[8]);
    assert("GUILD_MEMBER_ADD"@.len() != "READY"@.len());
    assert("GUILD_MEMBER_ADD"@.len() != "RESUMED"@.len());
    assert("GUILD_MEMBER_ADD"@.len() != "MESSAGE_CREATE"@.len());
    assert("GUILD_MEMBER_ADD"@.len() != "MESSAGE_UPDATE"@.len());
    assert("GUILD_MEMBER_ADD"@.len() != "MESSAGE_DELETE"@.len());
    assert("GUILD_MEMBER_ADD"@.len() != "GUILD_CREATE"@.len());
    assert("GUILD_MEMBER_ADD"@.len() != "GUILD_UPDATE"@.len());
    assert("GUILD_MEMBER_ADD"@.len() != "GUILD_DELETE"@.len());
    assert("GUILD_MEMBER_ADD"@.len() != "CHANNEL_CREATE"@.len());
    assert("GUILD_MEMBER_ADD"@.len() != "CHANNEL_UPDATE"@.len());
    assert("GUILD_MEMBER_ADD"@.len() != "CHANNEL_DELETE"@.len());
    assert("GUILD_MEMBER_REMOVE"@.len() != "READY"@.len());
    assert("GUILD_MEMBER_REMOVE"@.len() != "RESUMED"@.len());
    assert("GUILD_MEMBER_REMOVE"@.len() != "MESSAGE_CREATE"@.len());
    assert("GUILD_MEMBER_REMOVE"@.len() != "MESSAGE_UPDATE"@.len());
    assert("GUILD_MEMBER_REMOVE"@.len() != "MESSAGE_DELETE"@.len());
    assert("GUILD_MEMBER_REMOVE"@.len() != "GUILD_CREATE"@.len());
    assert("GUILD_MEMBER_REMOVE"@.len() != "GUILD_UPDATE"@.len());
    assert("GUILD_MEMBER_REMOVE"@.len() != "GUILD_DELETE"@.len());
    assert("GUILD_MEMBER_REMOVE"@.len() != "CHANNEL_CREATE"@.len());
    assert("GUILD_MEMBER_REMOVE"@.len() != "CHANNEL_UPDATE"@.len());
    assert("GUILD_MEMBER_REMOVE"@.len() != "CHANNEL_DELETE"@.len());
    assert("GUILD_MEMBER_REMOVE"@.len() != "GUILD_MEMBER_ADD"@.len());
    assert("GUILD_MEMBER_UPDATE"@.len() != "READY"@.len());
    assert("GUILD_MEMBER_UPDATE"@.len() != "RESUMED"@.len());
    assert("GUILD_MEMBER_UPDATE"@.len() != "MESSAGE_CREATE"@.len());
    assert("GUILD_MEMBER_UPDATE"@.len() != "MESSAGE_UPDATE"@.len());
    assert("GUILD_MEMBER_UPDATE"@.len() != "MESSAGE_DELETE"@.len());
    assert("GUILD_MEMBER_UPDATE"@.len() != "GUILD_CREATE"@.len());
    assert("GUILD_MEMBER_UPDATE"@.len() != "GUILD_UPDATE"@.len());
    assert("GUILD_MEMBER_UPDATE"@.len() != "GUILD_DELETE"@.len());
    assert("GUILD_MEMBER_UPDATE"@.len() != "CHANNEL_CREATE"@.len());
    assert("GUILD_MEMBER_UPDATE"@.len() != "CHANNEL_UPDATE"@.len());
    assert("GUILD_MEMBER_UPDATE"@.len() != "CHANNEL_DELETE"@.len());
    assert("GUILD_MEMBER_UPDATE"@.len() != "GUILD_MEMBER_ADD"@.len());
    assert("GUILD_MEMBER_UPDATE"@[13] != "GUILD_MEMBER_REMOVE"@[13]);
    assert("INTERACTION_CREATE"@.len() != "READY"@.len());
    assert("INTERACTION_CREATE"@.len() != "RESUMED"@.len());
    assert("INTERACTION_CREATE"@.len() != "MESSAGE_CREATE"@.len());
    assert("INTERACTION_CREATE"@.len() != "MESSAGE_UPDATE"@.len());
    assert("INTERACTION_CREATE"@.len() != "MESSAGE_DELETE"@.len());
    assert("INTERACTION_CREATE"@.len() != "GUILD_CREATE"@.len());
    assert("INTERACTION_CREATE"@.len() != "GUILD_UPDATE"@.len());
    assert("INTERACTION_CREATE"@.len() != "GUILD_DELETE"@.len());
    assert("INTERACTION_CREATE"@.len() != "CHANNEL_CREATE"@.len());
    assert("INTERACTION_CREATE"@.len() != "CHANNEL_UPDATE"@.len());
    assert("INTERACTION_CREATE"@.len() != "CHANNEL_DELETE"@.len());
    assert("INTERACTION_CREATE"@.len() != "GUILD_MEMBER_ADD"@.len());
    assert("INTERACTION_CREATE"@.len() != "GUILD_MEMBER_REMOVE"@.len());
    assert("INTERACTION_CREATE"@.len() != "GUILD_MEMBER_UPDATE"@.len());
    assert("TYPING_START"@.len() != "READY"@.len());
    assert("TYPING_START"@.len() != "RESUMED"@.len());
    assert("TYPING_START"@.len() != "MESSAGE_CREATE"@.len());
    assert("TYPING_START"@.len() != "MESSAGE_UPDATE"@.len());
    assert("TYPING_START"@.len() != "MESSAGE_DELETE"@.len());
    assert("TYPING_START"@[0] != "GUILD_CREATE"@[0]);
    assert("TYPING_START"@[0] != "GUILD_UPDATE"@[0]);
    assert("TYPING_START"@[0] != "GUILD_DELETE"@[0]);
    assert("TYPING_START"@.len() != "CHANNEL_CREATE"@.len());
    assert("TYPING_START"@.len() != "CHANNEL_UPDATE"@.len());
    assert("TYPING_START"@.len() != "CHANNEL_DELETE"@.len());
    assert("TYPING_START"@.len() != "GUILD_MEMBER_ADD"@.len());
    assert("TYPING_START"@.len() != "GUILD_MEMBER_REMOVE"@.len());
    assert("TYPING_START"@.len() != "GUILD_MEMBER_UPDATE"@.len());
    assert("TYPING_START"@.len() != "INTERACTION_CREATE"@.len());
    assert("VOICE_STATE_UPDATE"@.len() != "READY"@.len());
    assert("VOICE_STATE_UPDATE"@.len() != "RESUMED"@.len());
    assert("VOICE_STATE_UPDATE"@.len() != "MESSAGE_CREATE"@.len());
    assert("VOICE_STATE_UPDATE"@.len() != "MESSAGE_UPDATE"@.len());
    assert("VOICE_STATE_UPDATE"@.len() != "MESSAGE_DELETE"@.len());
    assert("VOICE_STATE_UPDATE"@.len() != "GUILD_CREATE"@.len());
    assert("VOICE_STATE_UPDATE"@.len() != "GUILD_UPDATE"@.len());
    assert("VOICE_STATE_UPDATE"@.len() != "GUILD_DELETE"@.len());
    assert("VOICE_STATE_UPDATE"@.len() != "CHANNEL_CREATE"@.len());
    assert("VOICE_STATE_UPDATE"@.len() != "CHANNEL_UPDATE"@.len());
    assert("VOICE_STATE_UPDATE"@.len() != "CHANNEL_DELETE"@.len());
    assert("VOICE_STATE_UPDATE"@.len() != "GUILD_MEMBER_ADD"@.len());
    assert("VOICE_STATE_UPDATE"@.len() != "GUILD_MEMBER_REMOVE"@.len());
    assert("VOICE_STATE_UPDATE"@.len() != "GUILD_MEMBER_UPDATE"@.len());
    assert("VOICE_STATE_UPDATE"@[0] != "INTERACTION_CREATE"@[0]);
    assert("VOICE_STATE_UPDATE"@.len() != "TYPING_START"@.len());
    assert("VOICE_SERVER_UPDATE"@.len() != "READY"@.len());
    assert("VOICE_SERVER_UPDATE"@.len() != "RESUMED"@.len());
    assert("VOICE_SERVER_UPDATE"@.len() != "MESSAGE_CREATE"@.len());
    assert("VOICE_SERVER_UPDATE"@.len() != "MESSAGE_UPDATE"@.len());
    assert("VOICE_SERVER_UPDATE"@.len() != "MESSAGE_DELETE"@.len());
    assert("VOICE_SERVER_UPDATE"@.len() != "GUILD_CREATE"@.len());
    assert("VOICE_SERVER_UPDATE"@.len() != "GUILD_UPDATE"@.len());
    assert("VOICE_SERVER_UPDATE"@.len() != "GUILD_DELETE"@.len());
    assert("VOICE_SERVER_UPDATE"@.len() != "CHANNEL_CREATE"@.len());
    assert("VOICE_SERVER_UPDATE"@.len() != "CHANNEL_UPDATE"@.len());
    assert("VOICE_SERVER_UPDATE"@.len() != "CHANNEL_DELETE"@.len());
    assert("VOICE_SERVER_UPDATE"@.len() != "GUILD_MEMBER_ADD"@.len());
    assert("VOICE_SERVER_UPDATE"@[0] != "GUILD_MEMBER_REMOVE"@[0]);
    assert("VOICE_SERVER_UPDATE"@[0] != "GUILD_MEMBER_UPDATE"@[0]);
    assert("VOICE_SERVER_UPDATE"@.len() != "INTERACTION_CREATE"@.len());
    assert("VOICE_SERVER_UPDATE"@.len() != "TYPING_START"@.len());
    assert("VOICE_SERVER_UPDATE"@.len() != "VOICE_STATE_UPDATE"@.len());
    assert("PRESENCE_UPDATE"@.len() != "READY"@.len());
    assert("PRESENCE_UPDATE"@.len() != "RESUMED"@.len());
    assert("PRESENCE_UPDATE"@.len() != "MESSAGE_CREATE"@.len());
    assert("PRESENCE_UPDATE"@.len() != "MESSAGE_UPDATE"@.len());
    assert("PRESENCE_UPDATE"@.len() != "MESSAGE_DELETE"@.len());
    assert("PRESENCE_UPDATE"@.len() != "GUILD_CREATE"@.len());
    assert("PRESENCE_UPDATE"@.len() != "GUILD_UPDATE"@.len());
    assert("PRESENCE_UPDATE"@.len() != "GUILD_DELETE"@.len());
    assert("PRESENCE_UPDATE"@.len() != "CHANNEL_CREATE"@.len());
    assert("PRESENCE_UPDATE"@.len() != "CHANNEL_UPDATE"@.len());
    assert("PRESENCE_UPDATE"@.len() != "CHANNEL_DELETE"@.len());
    assert("PRESENCE_UPDATE"@.len() != "GUILD_MEMBER_ADD"@.len());
    assert("PRESENCE_UPDATE"@.len() != "GUILD_MEMBER_REMOVE"@.len());
    assert("PRESENCE_UPDATE"@.len() != "GUILD_MEMBER_UPDATE"@.len());
    assert("PRESENCE_UPDATE"@.len() != "INTERACTION_CREATE"@.len());
    assert("PRESENCE_UPDATE"@.len() != "TYPING_START"@.len());
    assert("PRESENCE_UPDATE"@.len() != "VOICE_STATE_UPDATE"@.len());
    assert("PRESENCE_UPDATE"@.len() != "VOICE_SERVER_UPDATE"@.len());
}

/// `serde_json::Value::default()`, JSON null: the data handed on for a payload
/// that carries none. Nothing is stated of it: Verus sees nothing inside a
/// JSON value.
#[verifier::external_body]
fn json_null() -> serde_json::Value {
    serde_json::Value::default()
}

/// The protocol state of a shard.
pub struct ShardView {
    /// Session ID for resuming.
    pub session_id: Option<Seq<char>>,
    /// Resume gateway URL.
    pub resume_gateway_url: Option<Seq<char>>,
    /// Last sequence number received.
    pub sequence: Option<u64>,
    /// Heartbeat interval in milliseconds.
    pub heartbeat_interval: Option<u64>,
    /// When the last heartbeat was sent.
    pub last_heartbeat: Option<u64>,
    /// Whether the last heartbeat was acknowledged.
    pub heartbeat_ack: bool,
}

/// The state of a new shard: no session, no sequence, nothing awaiting acknowledgement.
pub open spec fn initial_shard() -> ShardView {
    ShardView {
        session_id: None,
        resume_gateway_url: None,
        sequence: None,
        heartbeat_interval: None,
        last_heartbeat: None,
        heartbeat_ack: true,
    }
}

/// The state after a heartbeat is sent at `now`: it awaits its acknowledgement.
pub open spec fn after_heartbeat(v: ShardView, now: u64) -> ShardView {
    ShardView { heartbeat_ack: false, last_heartbeat: Some(now), ..v }
}

/// The state after a payload that carries sequence number `seq`, if any.
pub open spec fn after_sequence(v: ShardView, seq: Option<u64>) -> ShardView {
    match seq {
        Some(n) => ShardView { sequence: Some(n), ..v },
        None => v,
    }
}

/// The state after Invalid Session: a session that cannot be resumed is forgotten.
pub open spec fn after_invalid_session(v: ShardView, resumable: bool) -> ShardView {
    if resumable {
        v
    } else {
        ShardView { session_id: None, sequence: None, ..v }
    }
}

/// The state after Ready: its session is kept for resuming.
pub open spec fn after_ready(v: ShardView, session_id: Seq<char>, resume_url: Seq<char>) -> ShardView {
    ShardView { session_id: Some(session_id), resume_gateway_url: Some(resume_url), ..v }
}

/// The Identify data for a configuration.
pub open spec fn identify_of(config: ShardConfig) -> IdentifyPayload {
    IdentifyPayload {
        token: config.token,
        intents: config.intents@,
        compress: true,
        large_threshold: config.large_threshold,
        shard_id: config.shard_id,
        total_shards: config.total_shards,
    }
}

/// A single shard connection to the Discord Gateway.
#[derive(Debug)]
pub struct Shard {
    config: ShardConfig,
    session_id: Option<String>,
    resume_gateway_url: Option<String>,
    sequence: Option<u64>,
    heartbeat_interval: Option<u64>,
    last_heartbeat: Option<u64>,
    heartbeat_ack: bool,
}

/// The text of an optional string.
pub open spec fn opt_text(s: Option<String>) -> Option<Seq<char>> {
    match s {
        Some(t) => Some(t@),
        None => None,
    }
}

impl View for Shard {
    type V = ShardView;

    closed spec fn view(&self) -> ShardView {
        ShardView {
            session_id: opt_text(self.session_id),
            resume_gateway_url: opt_text(self.resume_gateway_url),
            sequence: self.sequence,
            heartbeat_interval: self.heartbeat_interval,
            last_heartbeat: self.last_heartbeat,
            heartbeat_ack: self.heartbeat_ack,
        }
    }
}

impl Shard {
    /// The configuration of this shard.
    pub closed spec fn configuration(&self) -> ShardConfig {
        self.config
    }

    /// Create a new shard.
    pub fn new(config: ShardConfig) -> (r: Self)
        ensures
            r@ == initial_shard(),
            r.configuration() == config,
    {
        Shard {
            config,
            session_id: None,
            resume_gateway_url: None,
            sequence: None,
            heartbeat_interval: None,
            last_heartbeat: None,
            heartbeat_ack: true,
        }
    }

    /// Get the shard ID.
    pub fn id(&self) -> (r: u32)
        ensures
            r == self.configuration().shard_id,
    {
        self.config.shard_id
    }

    /// Milliseconds to wait before the next heartbeat: the interval from Hello,
    /// or a minute before Hello has arrived.
    pub fn heartbeat_delay_ms(&self) -> (r: u64)
        ensures
            r == match self@.heartbeat_interval {
                Some(i) => i,
                None => 60000,
            },
    {
        match self.heartbeat_interval {
            Some(i) => i,
            None => 60000,
        }
    }

    /// Send a heartbeat at `now`: refused when the previous one was not acknowledged.
    pub fn send_heartbeat(&mut self, now: u64) -> (r: Result<ShardAction, Error>)
        ensures
            final(self).configuration() == old(self).configuration(),
            old(self)@.heartbeat_ack ==> final(self)@ == after_heartbeat(old(self)@, now)
                && r == Ok::<ShardAction, Error>(
                ShardAction::SendHeartbeat { sequence: old(self)@.sequence },
            ),
            !old(self)@.heartbeat_ack ==> final(self)@ == old(self)@,
            !old(self)@.heartbeat_ack ==> (r matches Err(Error::Gateway(m)) && m@
                == "Heartbeat ACK not received"@),
    {
        if !self.heartbeat_ack {
            return Err(Error::gateway("Heartbeat ACK not received"));
        }
        self.heartbeat_ack = false;
        self.last_heartbeat = Some(now);
        Ok(ShardAction::SendHeartbeat { sequence: self.sequence })
    }

    /// The Identify payload of this shard.
    pub fn identify(&self) -> (r: IdentifyPayload)
        ensures
            r == identify_of(self.configuration()),
    {
        IdentifyPayload {
            token: self.config.token.clone(),
            intents: self.config.intents.bits(),
            compress: true,
            large_threshold: self.config.large_threshold,
            shard_id: self.config.shard_id,
            total_shards: self.config.total_shards,
        }
    }

    /// The Resume payload of this shard; an error when there is no session.
    pub fn resume(&self) -> (r: Result<ResumePayload, Error>)
        ensures
            match self@.session_id {
                Some(id) => r matches Ok(p) && p.token == self.configuration().token && p.session_id@
                    == id && p.seq == self@.sequence,
                None => r matches Err(Error::Gateway(m)) && m@ == "No session ID for resume"@,
            },
    {
        match &self.session_id {
            Some(id) => Ok(
                ResumePayload {
                    token: self.config.token.clone(),
                    session_id: id.clone(),
                    seq: self.sequence,
                },
            ),
            None => Err(Error::gateway("No session ID for resume")),
        }
    }

    /// Handle a gateway payload received at `now`. The sequence number is kept
    /// first; an unknown opcode is then an error. Hello and Dispatch payloads need
    /// their data parsed and come back as steps carrying the payload's data; the
    /// rest are handled here. An Invalid Session is resumable only when its data
    /// is the boolean `true`.
    pub fn handle_payload(&mut self, payload: GatewayPayload, now: u64) -> (r: Result<
        PayloadStep,
        Error,
    >)
        ensures
            final(self).configuration() == old(self).configuration(),
            ({
                let v = after_sequence(old(self)@, payload.s);
                match opcode_of(payload.op) {
                    Err(_) => {
                        &&& final(self)@ == v
                        &&& r matches Err(Error::Gateway(m)) && m@ == "Unknown opcode: "@ + dec_str(
                            payload.op as nat,
                        )
                    },
                    Ok(GatewayOpcode::Dispatch) => {
                        &&& final(self)@ == v
                        &&& r matches Ok(PayloadStep::Dispatch { name, kind, data }) && name@ == (
                        match payload.t {
                            Some(t) => t@,
                            None => "UNKNOWN"@,
                        }) && kind == dispatch_kind_of(name@) && (payload.d matches Some(d) ==> data
                            == d)
                    },
                    Ok(GatewayOpcode::Hello) => {
                        &&& final(self)@ == v
                        &&& r matches Ok(PayloadStep::Hello(data)) && (payload.d matches Some(d)
                            ==> data == d)
                    },
                    Ok(GatewayOpcode::Heartbeat) => if v.heartbeat_ack {
                        &&& final(self)@ == after_heartbeat(v, now)
                        &&& r matches Ok(PayloadStep::Done(a)) && a@ == seq![
                            ShardAction::SendHeartbeat { sequence: v.sequence },
                        ]
                    } else {
                        &&& final(self)@ == v
                        &&& r matches Err(Error::Gateway(m)) && m@ == "Heartbeat ACK not received"@
                    },
                    Ok(GatewayOpcode::Reconnect) => {
                        &&& final(self)@ == v
                        &&& r matches Ok(PayloadStep::Done(a)) && a@ == seq![
                            ShardAction::Emit(GatewayEvent::Reconnect),
                        ]
                    },
                    Ok(GatewayOpcode::InvalidSession) => {
                        &&& r matches Ok(PayloadStep::Done(a))
                        &&& r->Ok_0->Done_0@.len() == 1
                        &&& r->Ok_0->Done_0@[0] == ShardAction::Emit(
                            GatewayEvent::InvalidSession(payload.d_bool == Some(true)),
                        )
                        &&& final(self)@ == after_invalid_session(v, payload.d_bool == Some(true))
                    },
                    Ok(GatewayOpcode::HeartbeatAck) => {
                        &&& final(self)@ == (ShardView { heartbeat_ack: true, ..v })
                        &&& r matches Ok(PayloadStep::Done(a)) && a@.len() == 0
                    },
                    Ok(_) => {
                        &&& final(self)@ == v
                        &&& r matches Ok(PayloadStep::Done(a)) && a@.len() == 0
                    },
                }
            }),
    {
        match payload.s {
            Some(seq) => {
                self.sequence = Some(seq);
            },
            None => {},
        }
        let op = payload.op;
        let opcode = match GatewayOpcode::from_u8(op) {
            Some(o) => o,
            None => {
                let mut msg = String::from_str("Unknown opcode: ");
                push_decimal(&mut msg, op as u64);
                return Err(Error::Gateway(msg));
            },
        };
        match opcode {
            GatewayOpcode::Dispatch => {
                let name = match payload.t {
                    Some(t) => t,
                    None => String::from_str("UNKNOWN"),
                };
                let kind = dispatch_kind(name.as_str());
                let data = match payload.d {
                    Some(d) => d,
                    None => json_null(),
                };
                Ok(PayloadStep::Dispatch { name, kind, data })
            },
            GatewayOpcode::Heartbeat => {
                let action = self.send_heartbeat(now)?;
                let mut actions = Vec::new();
                actions.push(action);
                Ok(PayloadStep::Done(actions))
            },
            GatewayOpcode::Reconnect => {
                let mut actions = Vec::new();
                actions.push(ShardAction::Emit(GatewayEvent::Reconnect));
                Ok(PayloadStep::Done(actions))
            },
            GatewayOpcode::InvalidSession => {
                let resumable = match payload.d_bool {
                    Some(b) => b,
                    None => false,
                };
                if !resumable {
                    self.session_id = None;
                    self.sequence = None;
                }
                let mut actions = Vec::new();
                actions.push(ShardAction::Emit(GatewayEvent::InvalidSession(resumable)));
                Ok(PayloadStep::Done(actions))
            },
            GatewayOpcode::Hello => {
                let data = match payload.d {
                    Some(d) => d,
                    None => json_null(),
                };
                Ok(PayloadStep::Hello(data))
            },
            GatewayOpcode::HeartbeatAck => {
                self.heartbeat_ack = true;
                Ok(PayloadStep::Done(Vec::new()))
            },
            _ => Ok(PayloadStep::Done(Vec::new())),
        }
    }

    /// Handle a parsed Hello: keep the heartbeat interval, pass the event on, and
    /// resume the session if there is one, else identify.
    pub fn handle_hello(&mut self, hello: HelloEvent) -> (r: Vec<ShardAction>)
        ensures
            final(self).configuration() == old(self).configuration(),
            final(self)@ == (ShardView {
                heartbeat_interval: Some(hello.heartbeat_interval),
                ..old(self)@
            }),
            r@.len() == 2,
            r@[0] == ShardAction::Emit(GatewayEvent::Hello(hello)),
            match old(self)@.session_id {
                Some(id) => r@[1] matches ShardAction::SendResume(p) && p.token == old(
                    self,
                ).configuration().token && p.session_id@ == id && p.seq == old(self)@.sequence,
                None => r@[1] == ShardAction::SendIdentify(identify_of(old(self).configuration())),
            },
    {
        self.heartbeat_interval = Some(hello.heartbeat_interval);
        let mut actions = Vec::new();
        actions.push(ShardAction::Emit(GatewayEvent::Hello(hello)));
        match &self.session_id {
            Some(id) => {
                actions.push(
                    ShardAction::SendResume(
                        ResumePayload {
                            token: self.config.token.clone(),
                            session_id: id.clone(),
                            seq: self.sequence,
                        },
                    ),
                );
            },
            None => {
                let p = self.identify();
                actions.push(ShardAction::SendIdentify(p));
            },
        }
        actions
    }

    /// Record a parsed dispatch event and return it for passing on: Ready
    /// starts a session that can later be resumed.
    pub fn record_dispatch(&mut self, event: GatewayEvent) -> (r: GatewayEvent)
        ensures
            r == event,
            final(self).configuration() == old(self).configuration(),
            match event {
                GatewayEvent::Ready(ready) => final(self)@ == after_ready(
                    old(self)@,
                    ready.session_id@,
                    ready.resume_gateway_url@,
                ),
                _ => final(self)@ == old(self)@,
            },
    {
        match &event {
            GatewayEvent::Ready(ready) => {
                self.session_id = Some(ready.session_id.clone());
                self.resume_gateway_url = Some(ready.resume_gateway_url.clone());
            },
            _ => {},
        }
        event
    }

    /// The Presence Update payload for `status` and an optional activity.
    pub fn update_presence(&self, status: &str, activity: Option<serde_json::Value>) -> (r:
        PresencePayload)
        ensures
            r.status@ == status@,
            !r.afk,
            r.activities@.len() == (if activity is Some {
                1int
            } else {
                0int
            }),
            activity matches Some(a) ==> r.activities@[0] == a,
    {
        let mut activities = Vec::new();
        match activity {
            Some(a) => activities.push(a),
            None => {},
        }
        PresencePayload { status: owned(status), activities, afk: false }
    }

    /// The Request Guild Members payload for a guild, an optional name prefix and a limit.
    pub fn request_guild_members(&self, guild_id: u64, query: Option<&str>, limit: u32) -> (r:
        GuildMembersRequest)
        ensures
            r.guild_id@ == dec_str(guild_id as nat),
            r.query@ == match query {
                Some(q) => q@,
                None => Seq::<char>::empty(),
            },
            r.limit == limit,
    {
        let mut id = String::new();
        push_decimal(&mut id, guild_id);
        let q = match query {
            Some(q) => owned(q),
            None => String::new(),
        };
        GuildMembersRequest { guild_id: id, query: q, limit }
    }
}

/// Two heartbeats with no acknowledgement between them: the second is refused
/// and the shard is left as the first one left it.
pub proof fn law_unacknowledged_heartbeat_fails(v: ShardView, now: u64)
    requires
        v.heartbeat_ack,
    ensures
        !after_heartbeat(v, now).heartbeat_ack,
{
}

/// A session that Invalid Session says cannot be resumed is forgotten, so the
/// next Hello identifies afresh.
pub proof fn law_invalid_session_forces_identify(v: ShardView, seq: Option<u64>)
    ensures
        after_invalid_session(after_sequence(v, seq), false).session_id is None,
        after_invalid_session(after_sequence(v, seq), false).sequence is None,
{
}

/// After Ready, a Hello resumes the session that Ready started, whatever
/// sequence numbers arrive in between.
pub proof fn law_ready_then_resume(v: ShardView, session_id: Seq<char>, url: Seq<char>, seq: Option<u64>)
    ensures
        after_sequence(after_ready(v, session_id, url), seq).session_id == Some(session_id),
{
}

} // verus!
