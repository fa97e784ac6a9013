//! Gateway models: intents, opcodes, payloads and events.
use vstd::prelude::*;
use vstd::std_specs::convert::TryFromSpecImpl;
use vstd::std_specs::ops::{BitAndSpecImpl, BitOrSpecImpl};
use crate::channel::{Channel, ThreadMember};
use crate::guild::{Emoji, Guild, Member, Role};
use crate::id::{ChannelId, GuildId, MessageId, RoleId, UserId};
use crate::message::Message;
use crate::user::{CurrentUser, User};
use crate::voice::VoiceState;

verus! {

/// A JSON value, carried through unchanged.
#[verifier::external_type_specification]
#[verifier::external_body]
pub struct ExJsonValue(serde_json::Value);

/// Gateway intents for filtering events.
#[derive(Clone, Copy, Debug, Default, PartialEq, Eq, Hash, Structural)]
pub struct Intents {
    bits: u32,
}

impl View for Intents {
    type V = u32;

    /// The raw bits of the set.
    closed spec fn view(&self) -> u32 {
        self.bits
    }
}

/// The bits of the default intents: every intent that is not privileged.
pub const DEFAULT_INTENT_BITS: u32 = 0x3317efd;

/// The bits of the privileged intents.
pub const PRIVILEGED_INTENT_BITS: u32 = 0x8102;

/// Every intent flag bit.
pub const INTENTS_ALL_BITS: u32 = 0x331ffff;

impl Intents {
    /// Guild create, update and delete, role, channel, thread and stage instance events.
    pub fn guilds() -> (r: Intents)
        ensures
            r@ == 0x1,
    {
        Intents { bits: 0x1 }
    }
    /// Guild member add, update and remove events (privileged).
    pub fn guild_members() -> (r: Intents)
        ensures
            r@ == 0x2,
    {
        Intents { bits: 0x2 }
    }
    /// Audit log entry create, ban add and ban remove events.
    pub fn guild_moderation() -> (r: Intents)
        ensures
            r@ == 0x4,
    {
        Intents { bits: 0x4 }
    }
    /// Guild emoji and sticker update events.
    pub fn guild_emojis_and_stickers() -> (r: Intents)
        ensures
            r@ == 0x8,
    {
        Intents { bits: 0x8 }
    }
    /// Guild integration and integration events.
    pub fn guild_integrations() -> (r: Intents)
        ensures
            r@ == 0x10,
    {
        Intents { bits: 0x10 }
    }
    /// Webhook update events.
    pub fn guild_webhooks() -> (r: Intents)
        ensures
            r@ == 0x20,
    {
        Intents { bits: 0x20 }
    }
    /// Invite create and delete events.
    pub fn guild_invites() -> (r: Intents)
        ensures
            r@ == 0x40,
    {
        Intents { bits: 0x40 }
    }
    /// Voice state update events.
    pub fn guild_voice_states() -> (r: Intents)
        ensures
            r@ == 0x80,
    {
        Intents { bits: 0x80 }
    }
    /// Presence update events (privileged).
    pub fn guild_presences() -> (r: Intents)
        ensures
            r@ == 0x100,
    {
        Intents { bits: 0x100 }
    }
    /// Guild message create, update and delete events.
    pub fn guild_messages() -> (r: Intents)
        ensures
            r@ == 0x200,
    {
        Intents { bits: 0x200 }
    }
    /// Guild message reaction events.
    pub fn guild_message_reactions() -> (r: Intents)
        ensures
            r@ == 0x400,
    {
        Intents { bits: 0x400 }
    }
    /// Guild typing start events.
    pub fn guild_message_typing() -> (r: Intents)
        ensures
            r@ == 0x800,
    {
        Intents { bits: 0x800 }
    }
    /// Direct message create, update, delete and pin events.
    pub fn direct_messages() -> (r: Intents)
        ensures
            r@ == 0x1000,
    {
        Intents { bits: 0x1000 }
    }
    /// Direct message reaction events.
    pub fn direct_message_reactions() -> (r: Intents)
        ensures
            r@ == 0x2000,
    {
        Intents { bits: 0x2000 }
    }
    /// Direct message typing start events.
    pub fn direct_message_typing() -> (r: Intents)
        ensures
            r@ == 0x4000,
    {
        Intents { bits: 0x4000 }
    }
    /// Message content in message create and update events (privileged).
    pub fn message_content() -> (r: Intents)
        ensures
            r@ == 0x8000,
    {
        Intents { bits: 0x8000 }
    }
    /// Guild scheduled event events.
    pub fn guild_scheduled_events() -> (r: Intents)
        ensures
            r@ == 0x10000,
    {
        Intents { bits: 0x10000 }
    }
    /// Auto moderation rule events.
    pub fn auto_moderation_configuration() -> (r: Intents)
        ensures
            r@ == 0x100000,
    {
        Intents { bits: 0x100000 }
    }
    /// Auto moderation action execution events.
    pub fn auto_moderation_execution() -> (r: Intents)
        ensures
            r@ == 0x200000,
    {
        Intents { bits: 0x200000 }
    }
    /// Guild message poll vote events.
    pub fn guild_message_polls() -> (r: Intents)
        ensures
            r@ == 0x1000000,
    {
        Intents { bits: 0x1000000 }
    }
    /// Direct message poll vote events.
    pub fn direct_message_polls() -> (r: Intents)
        ensures
            r@ == 0x2000000,
    {
        Intents { bits: 0x2000000 }
    }

    /// The raw bits of the set.
    pub fn bits(&self) -> (r: u32)
        ensures
            r == self@,
    {
        self.bits
    }

    /// The set with exactly the given bits, known or not.
    pub fn from_bits_retain(bits: u32) -> (r: Self)
        ensures
            r@ == bits,
    {
        Intents { bits }
    }

    /// The set of the known flags among the given bits; unknown bits are dropped.
    pub fn from_bits_truncate(bits: u32) -> (r: Self)
        ensures
            r@ == bits & INTENTS_ALL_BITS,
    {
        Intents { bits: bits & INTENTS_ALL_BITS }
    }

    /// The set with the given bits if every one of them is a known flag.
    pub fn from_bits(bits: u32) -> (r: Option<Self>)
        ensures
            match r {
                Some(p) => bits & !INTENTS_ALL_BITS == 0 && p@ == bits,
                None => bits & !INTENTS_ALL_BITS != 0,
            },
    {
        if bits & !INTENTS_ALL_BITS == 0 {
            Some(Intents { bits })
        } else {
            None
        }
    }

    /// The empty set.
    pub fn empty() -> (r: Self)
        ensures
            r@ == 0,
    {
        Intents { bits: 0 }
    }

    /// The set of every known flag.
    pub fn all() -> (r: Self)
        ensures
            r@ == INTENTS_ALL_BITS,
    {
        Intents { bits: INTENTS_ALL_BITS }
    }

    /// Whether no bit is set.
    pub fn is_empty(&self) -> (r: bool)
        ensures
            r == (self@ == 0),
    {
        self.bits == 0
    }

    /// Whether every known flag is set.
    pub fn is_all(&self) -> (r: bool)
        ensures
            r == (self@ & INTENTS_ALL_BITS == INTENTS_ALL_BITS),
    {
        self.bits & INTENTS_ALL_BITS == INTENTS_ALL_BITS
    }

    /// Whether every bit of `other` is set in `self`.
    pub fn contains(&self, other: Self) -> (r: bool)
        ensures
            r == (self@ & other@ == other@),
    {
        self.bits & other.bits == other.bits
    }

    /// Whether `self` and `other` share a bit.
    pub fn intersects(&self, other: Self) -> (r: bool)
        ensures
            r == (self@ & other@ != 0),
    {
        self.bits & other.bits != 0
    }

    /// The bits of either set.
    pub fn union(self, other: Self) -> (r: Self)
        ensures
            r@ == self@ | other@,
    {
        Intents { bits: self.bits | other.bits }
    }

    /// The bits of both sets.
    pub fn intersection(self, other: Self) -> (r: Self)
        ensures
            r@ == self@ & other@,
    {
        Intents { bits: self.bits & other.bits }
    }

    /// The bits of `self` that `other` does not have.
    pub fn difference(self, other: Self) -> (r: Self)
        ensures
            r@ == self@ & !other@,
    {
        Intents { bits: self.bits & !other.bits }
    }

    /// The bits of exactly one of the two sets.
    pub fn symmetric_difference(self, other: Self) -> (r: Self)
        ensures
            r@ == self@ ^ other@,
    {
        Intents { bits: self.bits ^ other.bits }
    }

    /// The known flags that `self` does not have.
    pub fn complement(self) -> (r: Self)
        ensures
            r@ == !self@ & INTENTS_ALL_BITS,
    {
        Intents { bits: !self.bits & INTENTS_ALL_BITS }
    }

    /// Set every bit of `other`.
    pub fn insert(&mut self, other: Self)
        ensures
            final(self)@ == old(self)@ | other@,
    {
        self.bits = self.bits | other.bits;
    }

    /// Clear every bit of `other`.
    pub fn remove(&mut self, other: Self)
        ensures
            final(self)@ == old(self)@ & !other@,
    {
        self.bits = self.bits & !other.bits;
    }

    /// Flip every bit of `other`.
    pub fn toggle(&mut self, other: Self)
        ensures
            final(self)@ == old(self)@ ^ other@,
    {
        self.bits = self.bits ^ other.bits;
    }

    /// Set (`value`) or clear (`!value`) every bit of `other`.
    pub fn set(&mut self, other: Self, value: bool)
        ensures
            final(self)@ == if value { old(self)@ | other@ } else { old(self)@ & !other@ },
    {
        if value {
            self.insert(other);
        } else {
            self.remove(other);
        }
    }

    /// Returns the default set of intents: all non-privileged intents.
    pub fn default_intents() -> (r: Self)
        ensures
            r@ == DEFAULT_INTENT_BITS,
            r@ == INTENTS_ALL_BITS & !PRIVILEGED_INTENT_BITS,
    {
        let r = Self::guilds()
            .union(Self::guild_moderation())
            .union(Self::guild_emojis_and_stickers())
            .union(Self::guild_integrations())
            .union(Self::guild_webhooks())
            .union(Self::guild_invites())
            .union(Self::guild_voice_states())
            .union(Self::guild_messages())
            .union(Self::guild_message_reactions())
            .union(Self::guild_message_typing())
            .union(Self::direct_messages())
            .union(Self::direct_message_reactions())
            .union(Self::direct_message_typing())
            .union(Self::guild_scheduled_events())
            .union(Self::auto_moderation_configuration())
            .union(Self::auto_moderation_execution())
            .union(Self::guild_message_polls())
            .union(Self::direct_message_polls());
        let b: u32 = r.bits;
        assert(b == 0x3317efdu32 && b == 0x331ffffu32 & !0x8102u32) by (bit_vector)
            requires
                b == 0x1u32 | 0x4 | 0x8 | 0x10 | 0x20 | 0x40 | 0x80 | 0x200 | 0x400 | 0x800 | 0x1000 | 0x2000 | 0x4000 | 0x10000 | 0x100000 | 0x200000 | 0x1000000 | 0x2000000;
        r
    }

    /// Returns all intents including privileged ones.
    pub fn all_intents() -> (r: Self)
        ensures
            r@ == INTENTS_ALL_BITS,
    {
        Self::all()
    }

    /// Returns no intents.
    pub fn none_intents() -> (r: Self)
        ensures
            r@ == 0,
    {
        Self::empty()
    }

    /// Returns the privileged intents.
    pub fn privileged() -> (r: Self)
        ensures
            r@ == PRIVILEGED_INTENT_BITS,
    {
        let r = Self::guild_members().union(Self::guild_presences()).union(Self::message_content());
        let b: u32 = r.bits;
        assert(b == PRIVILEGED_INTENT_BITS) by (bit_vector)
            requires
                b == 0x2u32 | 0x100 | 0x8000;
        r
    }

    /// Check if any privileged intents are enabled.
    pub fn has_privileged(&self) -> (r: bool)
        ensures
            r == (self@ & PRIVILEGED_INTENT_BITS != 0),
    {
        self.intersects(Self::privileged())
    }
}

/// The default intents hold no privileged intent, and every privileged
/// intent is among all intents.
pub proof fn law_default_intents_not_privileged()
    ensures
        DEFAULT_INTENT_BITS & PRIVILEGED_INTENT_BITS == 0,
        INTENTS_ALL_BITS & PRIVILEGED_INTENT_BITS == PRIVILEGED_INTENT_BITS,
        DEFAULT_INTENT_BITS & INTENTS_ALL_BITS == DEFAULT_INTENT_BITS,
{
    assert(0x3317efdu32 & 0x8102u32 == 0) by (bit_vector);
    assert(0x331ffffu32 & 0x8102u32 == 0x8102u32) by (bit_vector);
    assert(0x3317efdu32 & 0x331ffffu32 == 0x3317efdu32) by (bit_vector);
}

/// Adding any privileged intent to a set makes it privileged; removing all
/// privileged intents makes it unprivileged.
pub proof fn law_privileged_insert_remove(bits: u32, other: u32)
    ensures
        other & PRIVILEGED_INTENT_BITS != 0 ==> (bits | other) & PRIVILEGED_INTENT_BITS != 0,
        (bits & !PRIVILEGED_INTENT_BITS) & PRIVILEGED_INTENT_BITS == 0,
{
    assert(other & 0x8102u32 != 0 ==> (bits | other) & 0x8102u32 != 0) by (bit_vector);
    assert((bits & !0x8102u32) & 0x8102u32 == 0) by (bit_vector);
}

impl core::ops::BitOr for Intents {
    type Output = Intents;

    fn bitor(self, other: Self) -> (r: Self)
        ensures
            r@ == self@ | other@,
    {
        Intents { bits: self.bits | other.bits }
    }
}

impl BitOrSpecImpl for Intents {
    open spec fn obeys_bitor_spec() -> bool {
        true
    }

    open spec fn bitor_req(self, other: Self) -> bool {
        true
    }

    closed spec fn bitor_spec(self, other: Self) -> Self {
        Intents { bits: self.bits | other.bits }
    }
}

impl core::ops::BitAnd for Intents {
    type Output = Intents;

    fn bitand(self, other: Self) -> (r: Self)
        ensures
            r@ == self@ & other@,
    {
        Intents { bits: self.bits & other.bits }
    }
}

impl BitAndSpecImpl for Intents {
    open spec fn obeys_bitand_spec() -> bool {
        true
    }

    open spec fn bitand_req(self, other: Self) -> bool {
        true
    }

    closed spec fn bitand_spec(self, other: Self) -> Self {
        Intents { bits: self.bits & other.bits }
    }
}

/// Gateway event types.
#[derive(Debug)]
pub enum GatewayEvent {
    /// Defines the heartbeat interval.
    Hello(HelloEvent),
    /// Contains the initial state information.
    Ready(ReadyEvent),
    /// Response to Resume, replayed missed events.
    Resumed,
    /// Server is going away, client should reconnect.
    Reconnect,
    /// Failure response to Identify or Resume.
    InvalidSession(bool),
    /// New guild channel created.
    ChannelCreate(Box<Channel>),
    /// Channel was updated.
    ChannelUpdate(Box<Channel>),
    /// Channel was deleted.
    ChannelDelete(Box<Channel>),
    /// Message was pinned or unpinned.
    ChannelPinsUpdate(ChannelPinsUpdateEvent),
    /// Thread created, also sent when being added to a private thread.
    ThreadCreate(Box<Channel>),
    /// Thread was updated.
    ThreadUpdate(Box<Channel>),
    /// Thread was deleted.
    ThreadDelete(ThreadDeleteEvent),
    /// Sent when gaining access to a channel, contains all active threads.
    ThreadListSync(ThreadListSyncEvent),
    /// Thread member for the current user was updated.
    ThreadMemberUpdate(ThreadMemberUpdateEvent),
    /// Some user(s) were added to or removed from a thread.
    ThreadMembersUpdate(ThreadMembersUpdateEvent),
    /// Lazy-load for unavailable guild, guild became available, or user joined a new guild.
    GuildCreate(Box<Guild>),
    /// Guild was updated.
    GuildUpdate(Box<Guild>),
    /// Guild became unavailable, or user left/was removed from a guild.
    GuildDelete(UnavailableGuild),
    /// A guild audit log entry was created.
    GuildAuditLogEntryCreate(serde_json::Value),
    /// User was banned from a guild.
    GuildBanAdd(GuildBanEvent),
    /// User was unbanned from a guild.
    GuildBanRemove(GuildBanEvent),
    /// Guild emojis were updated.
    GuildEmojisUpdate(GuildEmojisUpdateEvent),
    /// Guild stickers were updated.
    GuildStickersUpdate(GuildStickersUpdateEvent),
    /// Guild integration was updated.
    GuildIntegrationsUpdate(GuildIntegrationsUpdateEvent),
    /// New user joined a guild.
    GuildMemberAdd(GuildMemberAddEvent),
    /// User was removed from a guild.
    GuildMemberRemove(GuildMemberRemoveEvent),
    /// Guild member was updated.
    GuildMemberUpdate(GuildMemberUpdateEvent),
    /// Response to Request Guild Members.
    GuildMembersChunk(GuildMembersChunkEvent),
    /// Guild role was created.
    GuildRoleCreate(GuildRoleEvent),
    /// Guild role was updated.
    GuildRoleUpdate(GuildRoleEvent),
    /// Guild role was deleted.
    GuildRoleDelete(GuildRoleDeleteEvent),
    /// Guild scheduled event was created.
    GuildScheduledEventCreate(serde_json::Value),
    /// Guild scheduled event was updated.
    GuildScheduledEventUpdate(serde_json::Value),
    /// Guild scheduled event was deleted.
    GuildScheduledEventDelete(serde_json::Value),
    /// User subscribed to a guild scheduled event.
    GuildScheduledEventUserAdd(serde_json::Value),
    /// User unsubscribed from a guild scheduled event.
    GuildScheduledEventUserRemove(serde_json::Value),
    /// Guild integration was created.
    IntegrationCreate(serde_json::Value),
    /// Guild integration was updated.
    IntegrationUpdate(serde_json::Value),
    /// Guild integration was deleted.
    IntegrationDelete(serde_json::Value),
    /// Invite to a channel was created.
    InviteCreate(Box<InviteCreateEvent>),
    /// Invite to a channel was deleted.
    InviteDelete(InviteDeleteEvent),
    /// Message was created.
    MessageCreate(Box<Message>),
    /// Message was edited.
    MessageUpdate(MessageUpdateEvent),
    /// Message was deleted.
    MessageDelete(MessageDeleteEvent),
    /// Multiple messages were deleted at once.
    MessageDeleteBulk(MessageDeleteBulkEvent),
    /// User reacted to a message.
    MessageReactionAdd(Box<MessageReactionAddEvent>),
    /// User removed a reaction from a message.
    MessageReactionRemove(MessageReactionRemoveEvent),
    /// All reactions were explicitly removed from a message.
    MessageReactionRemoveAll(MessageReactionRemoveAllEvent),
    /// All reactions for a given emoji were explicitly removed from a message.
    MessageReactionRemoveEmoji(MessageReactionRemoveEmojiEvent),
    /// User's presence or info was updated.
    PresenceUpdate(PresenceUpdateEvent),
    /// Stage instance was created.
    StageInstanceCreate(serde_json::Value),
    /// Stage instance was updated.
    StageInstanceUpdate(serde_json::Value),
    /// Stage instance was deleted.
    StageInstanceDelete(serde_json::Value),
    /// User started typing in a channel.
    TypingStart(TypingStartEvent),
    /// Properties about the user changed.
    UserUpdate(CurrentUser),
    /// Someone joined, left, or moved a voice channel.
    VoiceStateUpdate(VoiceState),
    /// Guild's voice server was updated.
    VoiceServerUpdate(VoiceServerUpdateEvent),
    /// Guild channel webhook was created, updated, or deleted.
    WebhooksUpdate(WebhooksUpdateEvent),
    /// User used an interaction.
    InteractionCreate(serde_json::Value),
    /// Auto moderation rule was created.
    AutoModerationRuleCreate(serde_json::Value),
    /// Auto moderation rule was updated.
    AutoModerationRuleUpdate(serde_json::Value),
    /// Auto moderation rule was deleted.
    AutoModerationRuleDelete(serde_json::Value),
    /// Auto moderation rule was triggered.
    AutoModerationActionExecution(serde_json::Value),
    /// Unknown event type.
    Unknown(String, serde_json::Value),
}

/// Hello event data.
#[derive(Clone, Debug)]
pub struct HelloEvent {
    /// Interval (in milliseconds) an app should heartbeat with.
    pub heartbeat_interval: u64,
}

/// Ready event data.
#[derive(Clone, Debug)]
pub struct ReadyEvent {
    /// API version.
    pub version: u8,
    /// Information about the user including email.
    pub user: CurrentUser,
    /// Guilds the user is in.
    pub guilds: Vec<UnavailableGuild>,
    /// Used for resuming connections.
    pub session_id: String,
    /// Gateway URL for resuming connections.
    pub resume_gateway_url: String,
    /// Shard information associated with this session.
    pub shard: Option<[u32; 2]>,
    /// Contains id and flags.
    pub application: Option<PartialApplication>,
}

/// Partial application data.
#[derive(Clone, Debug)]
pub struct PartialApplication {
    /// Application ID.
    pub id: UserId,
    /// Application flags.
    pub flags: u32,
}

/// Unavailable guild.
#[derive(Clone, Debug)]
pub struct UnavailableGuild {
    /// Guild ID.
    pub id: GuildId,
    /// Whether the guild is unavailable.
    pub unavailable: bool,
}

/// Channel pins update event.
#[derive(Clone, Debug)]
pub struct ChannelPinsUpdateEvent {
    /// Guild ID.
    pub guild_id: Option<GuildId>,
    /// Channel ID.
    pub channel_id: ChannelId,
    /// Time at which the most recent pinned message was pinned.
    pub last_pin_timestamp: Option<String>,
}

/// Thread delete event.
#[derive(Clone, Debug)]
pub struct ThreadDeleteEvent {
    /// Thread ID.
    pub id: ChannelId,
    /// Guild ID.
    pub guild_id: GuildId,
    /// Parent channel ID.
    pub parent_id: ChannelId,
    /// Thread type.
    pub kind: u8,
}

/// Thread list sync event.
#[derive(Clone, Debug)]
pub struct ThreadListSyncEvent {
    /// Guild ID.
    pub guild_id: GuildId,
    /// Parent channel IDs whose threads are being synced.
    pub channel_ids: Vec<ChannelId>,
    /// All active threads in the given channels.
    pub threads: Vec<Channel>,
    /// All thread member objects from the synced threads.
    pub members: Vec<ThreadMember>,
}

/// Thread member update event.
#[derive(Clone, Debug)]
pub struct ThreadMemberUpdateEvent {
    /// Thread ID.
    pub id: ChannelId,
    /// Guild ID.
    pub guild_id: GuildId,
    /// ID of the user.
    pub user_id: UserId,
    /// Time the user last joined the thread.
    pub join_timestamp: String,
    /// Any user-thread settings.
    pub flags: u32,
}

/// Thread members update event.
#[derive(Clone, Debug)]
pub struct ThreadMembersUpdateEvent {
    /// Thread ID.
    pub id: ChannelId,
    /// Guild ID.
    pub guild_id: GuildId,
    /// Approximate number of members in the thread.
    pub member_count: u32,
    /// Users who were added to the thread.
    pub added_members: Vec<ThreadMember>,
    /// ID of the users who were removed from the thread.
    pub removed_member_ids: Vec<UserId>,
}

/// Guild ban event.
#[derive(Clone, Debug)]
pub struct GuildBanEvent {
    /// Guild ID.
    pub guild_id: GuildId,
    /// The banned user.
    pub user: User,
}

/// Guild emojis update event.
#[derive(Clone, Debug)]
pub struct GuildEmojisUpdateEvent {
    /// Guild ID.
    pub guild_id: GuildId,
    /// Array of emojis.
    pub emojis: Vec<Emoji>,
}

/// Guild stickers update event.
#[derive(Debug)]
pub struct GuildStickersUpdateEvent {
    /// Guild ID.
    pub guild_id: GuildId,
    /// Array of stickers.
    pub stickers: Vec<serde_json::Value>,
}

/// Guild integrations update event.
#[derive(Clone, Debug)]
pub struct GuildIntegrationsUpdateEvent {
    /// Guild ID.
    pub guild_id: GuildId,
}

/// Guild member add event.
#[derive(Clone, Debug)]
pub struct GuildMemberAddEvent {
    /// Guild ID.
    pub guild_id: GuildId,
    /// The member that joined.
    pub member: Member,
}

/// Guild member remove event.
#[derive(Clone, Debug)]
pub struct GuildMemberRemoveEvent {
    /// Guild ID.
    pub guild_id: GuildId,
    /// The user who was removed.
    pub user: User,
}

/// Guild member update event.
#[derive(Clone, Debug)]
pub struct GuildMemberUpdateEvent {
    /// Guild ID.
    pub guild_id: GuildId,
    /// User role IDs.
    pub roles: Vec<RoleId>,
    /// The user.
    pub user: User,
    /// Nickname of the user in the guild.
    pub nick: Option<String>,
    /// Member's guild avatar hash.
    pub avatar: Option<String>,
    /// When the user joined the guild.
    pub joined_at: Option<String>,
    /// When the user started boosting the guild.
    pub premium_since: Option<String>,
    /// Whether the user is deafened in voice channels.
    pub deaf: Option<bool>,
    /// Whether the user is muted in voice channels.
    pub mute: Option<bool>,
    /// Whether the user has not yet passed the guild's Membership Screening.
    pub pending: Option<bool>,
    /// When the user's timeout will expire.
    pub communication_disabled_until: Option<String>,
}

/// Guild members chunk event.
#[derive(Debug)]
pub struct GuildMembersChunkEvent {
    /// Guild ID.
    pub guild_id: GuildId,
    /// Set of guild members.
    pub members: Vec<Member>,
    /// Chunk index in the expected chunks for this response.
    pub chunk_index: u32,
    /// Total number of expected chunks for this response.
    pub chunk_count: u32,
    /// If passing an invalid ID to REQUEST_GUILD_MEMBERS, it will be returned here.
    pub not_found: Vec<UserId>,
    /// If passing true to REQUEST_GUILD_MEMBERS, presences of the returned members will be here.
    pub presences: Vec<serde_json::Value>,
    /// Nonce used in the Guild Members Request.
    pub nonce: Option<String>,
}

/// Guild role event.
#[derive(Clone, Debug)]
pub struct GuildRoleEvent {
    /// Guild ID.
    pub guild_id: GuildId,
    /// The role.
    pub role: Role,
}

/// Guild role delete event.
#[derive(Clone, Debug)]
pub struct GuildRoleDeleteEvent {
    /// Guild ID.
    pub guild_id: GuildId,
    /// Role ID.
    pub role_id: RoleId,
}

/// Invite create event.
#[derive(Debug)]
pub struct InviteCreateEvent {
    /// Channel the invite is for.
    pub channel_id: ChannelId,
    /// Unique invite code.
    pub code: String,
    /// Time at which the invite was created.
    pub created_at: String,
    /// Guild of the invite.
    pub guild_id: Option<GuildId>,
    /// User that created the invite.
    pub inviter: Option<User>,
    /// How long the invite is valid for (in seconds).
    pub max_age: u32,
    /// Maximum number of times the invite can be used.
    pub max_uses: u32,
    /// Type of target for this voice channel invite.
    pub target_type: Option<u8>,
    /// User whose stream to display for this voice channel stream invite.
    pub target_user: Option<User>,
    /// Embedded application to open for this voice channel embedded application invite.
    pub target_application: Option<serde_json::Value>,
    /// Whether or not the invite is temporary.
    pub temporary: bool,
    /// How many times the invite has been used.
    pub uses: u32,
}

/// Invite delete event.
#[derive(Clone, Debug)]
pub struct InviteDeleteEvent {
    /// Channel of the invite.
    pub channel_id: ChannelId,
    /// Guild of the invite.
    pub guild_id: Option<GuildId>,
    /// Unique invite code.
    pub code: String,
}

/// Message update event.
#[derive(Debug)]
pub struct MessageUpdateEvent {
    /// Message ID.
    pub id: MessageId,
    /// Channel ID.
    pub channel_id: ChannelId,
    /// Guild ID.
    pub guild_id: Option<GuildId>,
    /// Other fields are optional and may be present.
    pub fields: serde_json::Value,
}

/// Message delete event.
#[derive(Clone, Debug)]
pub struct MessageDeleteEvent {
    /// Message ID.
    pub id: MessageId,
    /// Channel ID.
    pub channel_id: ChannelId,
    /// Guild ID.
    pub guild_id: Option<GuildId>,
}

/// Message delete bulk event.
#[derive(Clone, Debug)]
pub struct MessageDeleteBulkEvent {
    /// IDs of the messages.
    pub ids: Vec<MessageId>,
    /// Channel ID.
    pub channel_id: ChannelId,
    /// Guild ID.
    pub guild_id: Option<GuildId>,
}

/// Message reaction add event.
#[derive(Clone, Debug)]
pub struct MessageReactionAddEvent {
    /// User ID.
    pub user_id: UserId,
    /// Channel ID.
    pub channel_id: ChannelId,
    /// Message ID.
    pub message_id: MessageId,
    /// Guild ID.
    pub guild_id: Option<GuildId>,
    /// Member who reacted if this happened in a guild.
    pub member: Option<Member>,
    /// Emoji used to react.
    pub emoji: Emoji,
    /// ID of the user who authored the message.
    pub message_author_id: Option<UserId>,
    /// True if this is a super-reaction.
    pub burst: bool,
    /// Colors used for super-reaction animation.
    pub burst_colors: Vec<String>,
    /// Type of reaction.
    pub kind: u8,
}

/// Message reaction remove event.
#[derive(Clone, Debug)]
pub struct MessageReactionRemoveEvent {
    /// User ID.
    pub user_id: UserId,
    /// Channel ID.
    pub channel_id: ChannelId,
    /// Message ID.
    pub message_id: MessageId,
    /// Guild ID.
    pub guild_id: Option<GuildId>,
    /// Emoji used to react.
    pub emoji: Emoji,
    /// True if this was a super-reaction.
    pub burst: bool,
    /// Type of reaction.
    pub kind: u8,
}

/// Message reaction remove all event.
#[derive(Clone, Debug)]
pub struct MessageReactionRemoveAllEvent {
    /// Channel ID.
    pub channel_id: ChannelId,
    /// Message ID.
    pub message_id: MessageId,
    /// Guild ID.
    pub guild_id: Option<GuildId>,
}

/// Message reaction remove emoji event.
#[derive(Clone, Debug)]
pub struct MessageReactionRemoveEmojiEvent {
    /// Channel ID.
    pub channel_id: ChannelId,
    /// Message ID.
    pub message_id: MessageId,
    /// Guild ID.
    pub guild_id: Option<GuildId>,
    /// Emoji that was removed.
    pub emoji: Emoji,
}

/// Presence update event.
#[derive(Debug)]
pub struct PresenceUpdateEvent {
    /// User whose presence is being updated.
    pub user: PartialUser,
    /// Guild ID.
    pub guild_id: GuildId,
    /// Either "idle", "dnd", "online", or "offline".
    pub status: String,
    /// User's current activities.
    pub activities: Vec<serde_json::Value>,
    /// User's platform-dependent status.
    pub client_status: ClientStatus,
}

/// Partial user for presence updates.
#[derive(Debug)]
pub struct PartialUser {
    /// User ID.
    pub id: UserId,
    /// Other fields may be present.
    pub fields: serde_json::Value,
}

/// Client status.
#[derive(Clone, Debug)]
pub struct ClientStatus {
    /// User's status set for an active desktop application session.
    pub desktop: Option<String>,
    /// User's status set for an active mobile application session.
    pub mobile: Option<String>,
    /// User's status set for an active web application session.
    pub web: Option<String>,
}

/// Typing start event.
#[derive(Clone, Debug)]
pub struct TypingStartEvent {
    /// Channel ID.
    pub channel_id: ChannelId,
    /// Guild ID.
    pub guild_id: Option<GuildId>,
    /// User ID.
    pub user_id: UserId,
    /// Unix time (in seconds) of when the user started typing.
    pub timestamp: u64,
    /// Member who started typing if this happened in a guild.
    pub member: Option<Member>,
}

/// Voice server update event.
#[derive(Clone, Debug)]
pub struct VoiceServerUpdateEvent {
    /// Voice connection token.
    pub token: String,
    /// Guild this voice server update is for.
    pub guild_id: GuildId,
    /// Voice server host.
    pub endpoint: Option<String>,
}

/// Webhooks update event.
#[derive(Clone, Debug)]
pub struct WebhooksUpdateEvent {
    /// Guild ID.
    pub guild_id: GuildId,
    /// Channel ID.
    pub channel_id: ChannelId,
}

/// Gateway payload structure.
#[derive(Debug)]
pub struct GatewayPayload {
    /// Opcode for the payload.
    pub op: u8,
    /// Event data.
    pub d: Option<serde_json::Value>,
    /// The event data when it is a JSON boolean, as read with `d`: the
    /// resumable flag of an Invalid Session payload.
    pub d_bool: Option<bool>,
    /// Sequence number, used for resuming sessions and heartbeats.
    pub s: Option<u64>,
    /// Event name for this payload.
    pub t: Option<String>,
}

/// Gateway opcodes.
#[derive(Clone, Copy, Debug, PartialEq, Eq, Structural)]
pub enum GatewayOpcode {
    /// An event was dispatched.
    Dispatch,
    /// Fired periodically by the client to keep the connection alive.
    Heartbeat,
    /// Starts a new session during the initial handshake.
    Identify,
    /// Update the client's presence.
    PresenceUpdate,
    /// Used to join/leave or move between voice channels.
    VoiceStateUpdate,
    /// Resume a previous session that was disconnected.
    Resume,
    /// You should attempt to reconnect and resume immediately.
    Reconnect,
    /// Request information about offline guild members in a large guild.
    RequestGuildMembers,
    /// The session has been invalidated.
    InvalidSession,
    /// Sent immediately after connecting.
    Hello,
    /// Sent in response to receiving a heartbeat.
    HeartbeatAck,
}

impl GatewayOpcode {
    /// The number that encodes this value in the Discord API.
    pub open spec fn code(self) -> u8 {
        match self {
            GatewayOpcode::Dispatch => 0,
            GatewayOpcode::Heartbeat => 1,
            GatewayOpcode::Identify => 2,
            GatewayOpcode::PresenceUpdate => 3,
            GatewayOpcode::VoiceStateUpdate => 4,
            GatewayOpcode::Resume => 6,
            GatewayOpcode::Reconnect => 7,
            GatewayOpcode::RequestGuildMembers => 8,
            GatewayOpcode::InvalidSession => 9,
            GatewayOpcode::Hello => 10,
            GatewayOpcode::HeartbeatAck => 11,
        }
    }

    /// The opcode that `value` encodes, if any.
    pub open spec fn from_u8_spec(value: u8) -> Option<GatewayOpcode> {
        if value == 0 { Some(GatewayOpcode::Dispatch) } else if value == 1 { Some(GatewayOpcode::Heartbeat) } else if value == 2 { Some(GatewayOpcode::Identify) } else if value == 3 { Some(GatewayOpcode::PresenceUpdate) } else if value == 4 { Some(GatewayOpcode::VoiceStateUpdate) } else if value == 6 { Some(GatewayOpcode::Resume) } else if value == 7 { Some(GatewayOpcode::Reconnect) } else if value == 8 { Some(GatewayOpcode::RequestGuildMembers) } else if value == 9 { Some(GatewayOpcode::InvalidSession) } else if value == 10 { Some(GatewayOpcode::Hello) } else if value == 11 { Some(GatewayOpcode::HeartbeatAck) } else { None }
    }

    /// Whether `v` encodes some value of this type.
    pub open spec fn is_code(v: u8) -> bool {
        v == 0 || v == 1 || v == 2 || v == 3 || v == 4 || v == 6 || v == 7 || v == 8 || v == 9 || v == 10 || v == 11
    }

    /// The number that encodes this value in the Discord API.
    pub fn to_u8(self) -> (r: u8)
        ensures
            r == self.code(),
    {
        match self {
            GatewayOpcode::Dispatch => 0,
            GatewayOpcode::Heartbeat => 1,
            GatewayOpcode::Identify => 2,
            GatewayOpcode::PresenceUpdate => 3,
            GatewayOpcode::VoiceStateUpdate => 4,
            GatewayOpcode::Resume => 6,
            GatewayOpcode::Reconnect => 7,
            GatewayOpcode::RequestGuildMembers => 8,
            GatewayOpcode::InvalidSession => 9,
            GatewayOpcode::Hello => 10,
            GatewayOpcode::HeartbeatAck => 11,
        }
    }

    /// The value that `v` encodes, if any.
    pub fn from_u8(v: u8) -> (r: Option<Self>)
        ensures
            match r {
                Some(t) => t.code() == v && r == Self::from_u8_spec(v),
                None => !Self::is_code(v) && Self::from_u8_spec(v) is None,
            },
    {
        if v == 0 {
            Some(GatewayOpcode::Dispatch)
        } else if v == 1 {
            Some(GatewayOpcode::Heartbeat)
        } else if v == 2 {
            Some(GatewayOpcode::Identify)
        } else if v == 3 {
            Some(GatewayOpcode::PresenceUpdate)
        } else if v == 4 {
            Some(GatewayOpcode::VoiceStateUpdate)
        } else if v == 6 {
            Some(GatewayOpcode::Resume)
        } else if v == 7 {
            Some(GatewayOpcode::Reconnect)
        } else if v == 8 {
            Some(GatewayOpcode::RequestGuildMembers)
        } else if v == 9 {
            Some(GatewayOpcode::InvalidSession)
        } else if v == 10 {
            Some(GatewayOpcode::Hello)
        } else if v == 11 {
            Some(GatewayOpcode::HeartbeatAck)
        } else {
            None
        }
    }
}

/// Reading a `GatewayOpcode` back from its number gives the same value: distinct
/// values have distinct numbers, and each value's number is one that
/// `from_u8` accepts.
pub proof fn law_gateway_opcode_code_round_trip(a: GatewayOpcode, b: GatewayOpcode)
    ensures
        a.code() == b.code() ==> a == b,
        GatewayOpcode::is_code(a.code()),
{
}

/// The opcode that a number names, or the number back when it names none.
pub open spec fn opcode_of(value: u8) -> Result<GatewayOpcode, u8> {
    match GatewayOpcode::from_u8_spec(value) {
        Some(op) => Ok(op),
        None => Err(value),
    }
}

/// Each gateway opcode has its number in the Discord API: Dispatch 0,
/// Heartbeat 1, Identify 2, Presence Update 3, Voice State Update 4, Resume 6,
/// Reconnect 7, Request Guild Members 8, Invalid Session 9, Hello 10 and
/// Heartbeat ACK 11; a received number names the opcode with that number, and
/// any other number (5, or above 11) names none.
pub proof fn law_gateway_opcode_numbers(v: u8)
    ensures
        GatewayOpcode::Dispatch.code() == 0,
        GatewayOpcode::Heartbeat.code() == 1,
        GatewayOpcode::Identify.code() == 2,
        GatewayOpcode::PresenceUpdate.code() == 3,
        GatewayOpcode::VoiceStateUpdate.code() == 4,
        GatewayOpcode::Resume.code() == 6,
        GatewayOpcode::Reconnect.code() == 7,
        GatewayOpcode::RequestGuildMembers.code() == 8,
        GatewayOpcode::InvalidSession.code() == 9,
        GatewayOpcode::Hello.code() == 10,
        GatewayOpcode::HeartbeatAck.code() == 11,
        opcode_of(v) == match v {
            0 => Ok(GatewayOpcode::Dispatch),
            1 => Ok(GatewayOpcode::Heartbeat),
            2 => Ok(GatewayOpcode::Identify),
            3 => Ok(GatewayOpcode::PresenceUpdate),
            4 => Ok(GatewayOpcode::VoiceStateUpdate),
            6 => Ok(GatewayOpcode::Resume),
            7 => Ok(GatewayOpcode::Reconnect),
            8 => Ok(GatewayOpcode::RequestGuildMembers),
            9 => Ok(GatewayOpcode::InvalidSession),
            10 => Ok(GatewayOpcode::Hello),
            11 => Ok(GatewayOpcode::HeartbeatAck),
            _ => Err::<GatewayOpcode, u8>(v),
        },
{
}

impl TryFrom<u8> for GatewayOpcode {
    type Error = u8;

    fn try_from(value: u8) -> (r: Result<Self, Self::Error>)
        ensures
            r == opcode_of(value),
    {
        match GatewayOpcode::from_u8(value) {
            Some(op) => Ok(op),
            None => Err(value),
        }
    }
}

impl TryFromSpecImpl<u8> for GatewayOpcode {
    open spec fn obeys_try_from_spec() -> bool {
        true
    }

    open spec fn try_from_spec(value: u8) -> Result<Self, u8> {
        opcode_of(value)
    }
}

} // verus!
