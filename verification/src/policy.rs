//! Cache policy definitions.
//!
//! A policy decides what data the cache keeps and how much of it: which guilds,
//! channels, members and messages are stored, and how many messages per channel
//! and members per guild.
use vstd::prelude::*;
use crate::id::{ChannelId, GuildId, UserId};

verus! {

/// Kind of cache policy.
#[derive(Clone, Copy, Debug, Default, PartialEq, Eq, Structural)]
pub enum CachePolicyKind {
    /// Cache nothing except the current user.
    NoCache,
    /// Cache only recently active guilds and channels.
    Partial,
    /// Cache everything.
    #[default]
    Full,
    /// Custom caching rules.
    Custom,
}

/// Trait for defining cache policies.
///
/// Each decision has a spec function that names it; the executable method
/// returns exactly that decision, so the cache's contracts can speak of it.
pub trait CachePolicy: Send + Sync {
    /// The kind of this policy.
    spec fn policy_kind(&self) -> CachePolicyKind;

    /// Whether the policy keeps the guild `guild_id`.
    spec fn keeps_guild(&self, guild_id: GuildId) -> bool;

    /// Whether the policy keeps the channel `channel_id`.
    spec fn keeps_channel(&self, channel_id: ChannelId) -> bool;

    /// Whether the policy keeps the member `user_id` of `guild_id`.
    spec fn keeps_member(&self, guild_id: GuildId, user_id: UserId) -> bool;

    /// Whether the policy keeps messages of `channel_id`.
    spec fn keeps_message(&self, channel_id: ChannelId) -> bool;

    /// The most messages kept per channel.
    spec fn message_limit(&self) -> usize;

    /// The most members kept per guild, if there is a limit.
    spec fn member_limit(&self) -> Option<usize>;

    /// Returns the kind of cache policy.
    fn kind(&self) -> (r: CachePolicyKind)
        ensures
            r == self.policy_kind(),
    ;

    /// Whether to cache a guild.
    fn should_cache_guild(&self, guild_id: GuildId) -> (r: bool)
        ensures
            r == self.keeps_guild(guild_id),
    ;

    /// Whether to cache a channel.
    fn should_cache_channel(&self, channel_id: ChannelId) -> (r: bool)
        ensures
            r == self.keeps_channel(channel_id),
    ;

    /// Whether to cache a member.
    fn should_cache_member(&self, guild_id: GuildId, user_id: UserId) -> (r: bool)
        ensures
            r == self.keeps_member(guild_id, user_id),
    ;

    /// Whether to cache a message.
    fn should_cache_message(&self, channel_id: ChannelId) -> (r: bool)
        ensures
            r == self.keeps_message(channel_id),
    ;

    /// Maximum number of messages to cache per channel.
    fn max_messages_per_channel(&self) -> (r: usize)
        ensures
            r == self.message_limit(),
    ;

    /// Maximum number of members to cache per guild.
    fn max_members_per_guild(&self) -> (r: Option<usize>)
        ensures
            r == self.member_limit(),
    ;
}

/// No caching policy - only caches the current user.
#[derive(Clone, Debug, Default)]
pub struct NonePolicy;

impl CachePolicy for NonePolicy {
    open spec fn policy_kind(&self) -> CachePolicyKind {
        CachePolicyKind::NoCache
    }

    open spec fn keeps_guild(&self, guild_id: GuildId) -> bool {
        false
    }

    open spec fn keeps_channel(&self, channel_id: ChannelId) -> bool {
        false
    }

    open spec fn keeps_member(&self, guild_id: GuildId, user_id: UserId) -> bool {
        false
    }

    open spec fn keeps_message(&self, channel_id: ChannelId) -> bool {
        false
    }

    open spec fn message_limit(&self) -> usize {
        0
    }

    open spec fn member_limit(&self) -> Option<usize> {
        Some(0)
    }

    fn kind(&self) -> (r: CachePolicyKind) {
        CachePolicyKind::NoCache
    }

    fn should_cache_guild(&self, _guild_id: GuildId) -> (r: bool) {
        false
    }

    fn should_cache_channel(&self, _channel_id: ChannelId) -> (r: bool) {
        false
    }

    fn should_cache_member(&self, _guild_id: GuildId, _user_id: UserId) -> (r: bool) {
        false
    }

    fn should_cache_message(&self, _channel_id: ChannelId) -> (r: bool) {
        false
    }

    fn max_messages_per_channel(&self) -> (r: usize) {
        0
    }

    fn max_members_per_guild(&self) -> (r: Option<usize>) {
        Some(0)
    }
}

/// Partial caching policy - caches recently active data.
#[derive(Clone, Debug)]
pub struct PartialPolicy {
    /// Maximum messages per channel.
    pub max_messages: usize,
    /// Maximum members per guild.
    pub max_members: usize,
}

impl Default for PartialPolicy {
    fn default() -> (r: Self)
        ensures
            r.max_messages == 100,
            r.max_members == 1000,
    {
        PartialPolicy { max_messages: 100, max_members: 1000 }
    }
}

impl CachePolicy for PartialPolicy {
    open spec fn policy_kind(&self) -> CachePolicyKind {
        CachePolicyKind::Partial
    }

    open spec fn keeps_guild(&self, guild_id: GuildId) -> bool {
        true
    }

    open spec fn keeps_channel(&self, channel_id: ChannelId) -> bool {
        true
    }

    open spec fn keeps_member(&self, guild_id: GuildId, user_id: UserId) -> bool {
        true
    }

    open spec fn keeps_message(&self, channel_id: ChannelId) -> bool {
        true
    }

    open spec fn message_limit(&self) -> usize {
        self.max_messages
    }

    open spec fn member_limit(&self) -> Option<usize> {
        Some(self.max_members)
    }

    fn kind(&self) -> (r: CachePolicyKind) {
        CachePolicyKind::Partial
    }

    fn should_cache_guild(&self, _guild_id: GuildId) -> (r: bool) {
        true
    }

    fn should_cache_channel(&self, _channel_id: ChannelId) -> (r: bool) {
        true
    }

    fn should_cache_member(&self, _guild_id: GuildId, _user_id: UserId) -> (r: bool) {
        true
    }

    fn should_cache_message(&self, _channel_id: ChannelId) -> (r: bool) {
        true
    }

    fn max_messages_per_channel(&self) -> (r: usize) {
        self.max_messages
    }

    fn max_members_per_guild(&self) -> (r: Option<usize>) {
        Some(self.max_members)
    }
}

/// Full caching policy - caches everything.
#[derive(Clone, Debug)]
pub struct FullPolicy {
    /// Maximum messages per channel.
    pub max_messages: usize,
}

impl Default for FullPolicy {
    fn default() -> (r: Self)
        ensures
            r.max_messages == 1000,
    {
        FullPolicy { max_messages: 1000 }
    }
}

impl CachePolicy for FullPolicy {
    open spec fn policy_kind(&self) -> CachePolicyKind {
        CachePolicyKind::Full
    }

    open spec fn keeps_guild(&self, guild_id: GuildId) -> bool {
        true
    }

    open spec fn keeps_channel(&self, channel_id: ChannelId) -> bool {
        true
    }

    open spec fn keeps_member(&self, guild_id: GuildId, user_id: UserId) -> bool {
        true
    }

    open spec fn keeps_message(&self, channel_id: ChannelId) -> bool {
        true
    }

    open spec fn message_limit(&self) -> usize {
        self.max_messages
    }

    open spec fn member_limit(&self) -> Option<usize> {
        None
    }

    fn kind(&self) -> (r: CachePolicyKind) {
        CachePolicyKind::Full
    }

    fn should_cache_guild(&self, _guild_id: GuildId) -> (r: bool) {
        true
    }

    fn should_cache_channel(&self, _channel_id: ChannelId) -> (r: bool) {
        true
    }

    fn should_cache_member(&self, _guild_id: GuildId, _user_id: UserId) -> (r: bool) {
        true
    }

    fn should_cache_message(&self, _channel_id: ChannelId) -> (r: bool) {
        true
    }

    fn max_messages_per_channel(&self) -> (r: usize) {
        self.max_messages
    }

    fn max_members_per_guild(&self) -> (r: Option<usize>) {
        None
    }
}

/// The settings of a custom policy.
#[derive(Clone, Copy, Debug, PartialEq, Eq, Structural)]
pub struct PolicyRules {
    /// Whether guilds are kept.
    pub cache_guilds: bool,
    /// Whether channels are kept.
    pub cache_channels: bool,
    /// Whether members are kept.
    pub cache_members: bool,
    /// Whether messages are kept.
    pub cache_messages: bool,
    /// The most messages kept per channel.
    pub max_messages: usize,
    /// The most members kept per guild, if there is a limit.
    pub max_members: Option<usize>,
}

/// Builder for creating custom cache policies.
#[derive(Clone, Debug)]
pub struct CustomPolicyBuilder {
    cache_guilds: bool,
    cache_channels: bool,
    cache_members: bool,
    cache_messages: bool,
    max_messages: usize,
    max_members: Option<usize>,
}

impl View for CustomPolicyBuilder {
    type V = PolicyRules;

    closed spec fn view(&self) -> PolicyRules {
        PolicyRules {
            cache_guilds: self.cache_guilds,
            cache_channels: self.cache_channels,
            cache_members: self.cache_members,
            cache_messages: self.cache_messages,
            max_messages: self.max_messages,
            max_members: self.max_members,
        }
    }
}

/// The settings a builder starts from: keep everything, 1000 messages per
/// channel, no member limit.
pub open spec fn default_rules() -> PolicyRules {
    PolicyRules {
        cache_guilds: true,
        cache_channels: true,
        cache_members: true,
        cache_messages: true,
        max_messages: 1000,
        max_members: None,
    }
}

impl Default for CustomPolicyBuilder {
    fn default() -> (r: Self)
        ensures
            r@ == default_rules(),
    {
        CustomPolicyBuilder {
            cache_guilds: true,
            cache_channels: true,
            cache_members: true,
            cache_messages: true,
            max_messages: 1000,
            max_members: None,
        }
    }
}

impl CustomPolicyBuilder {
    /// Create a new custom policy builder.
    pub fn new() -> (r: Self)
        ensures
            r@ == default_rules(),
    {
        Self::default()
    }

    /// Set whether to cache guilds.
    pub fn cache_guilds(self, cache: bool) -> (r: Self)
        ensures
            r@ == (PolicyRules { cache_guilds: cache, ..self@ }),
    {
        let mut s = self;
        s.cache_guilds = cache;
        s
    }

    /// Set whether to cache channels.
    pub fn cache_channels(self, cache: bool) -> (r: Self)
        ensures
            r@ == (PolicyRules { cache_channels: cache, ..self@ }),
    {
        let mut s = self;
        s.cache_channels = cache;
        s
    }

    /// Set whether to cache members.
    pub fn cache_members(self, cache: bool) -> (r: Self)
        ensures
            r@ == (PolicyRules { cache_members: cache, ..self@ }),
    {
        let mut s = self;
        s.cache_members = cache;
        s
    }

    /// Set whether to cache messages.
    pub fn cache_messages(self, cache: bool) -> (r: Self)
        ensures
            r@ == (PolicyRules { cache_messages: cache, ..self@ }),
    {
        let mut s = self;
        s.cache_messages = cache;
        s
    }

    /// Set the maximum messages per channel.
    pub fn max_messages(self, max: usize) -> (r: Self)
        ensures
            r@ == (PolicyRules { max_messages: max, ..self@ }),
    {
        let mut s = self;
        s.max_messages = max;
        s
    }

    /// Set the maximum members per guild.
    pub fn max_members(self, max: Option<usize>) -> (r: Self)
        ensures
            r@ == (PolicyRules { max_members: max, ..self@ }),
    {
        let mut s = self;
        s.max_members = max;
        s
    }

    /// Build the custom policy.
    pub fn build(self) -> (r: CustomPolicy)
        ensures
            r@ == self@,
    {
        CustomPolicy {
            cache_guilds: self.cache_guilds,
            cache_channels: self.cache_channels,
            cache_members: self.cache_members,
            cache_messages: self.cache_messages,
            max_messages: self.max_messages,
            max_members: self.max_members,
        }
    }
}

/// Custom caching policy with user-defined rules.
#[derive(Clone, Debug)]
pub struct CustomPolicy {
    cache_guilds: bool,
    cache_channels: bool,
    cache_members: bool,
    cache_messages: bool,
    max_messages: usize,
    max_members: Option<usize>,
}

impl View for CustomPolicy {
    type V = PolicyRules;

    closed spec fn view(&self) -> PolicyRules {
        PolicyRules {
            cache_guilds: self.cache_guilds,
            cache_channels: self.cache_channels,
            cache_members: self.cache_members,
            cache_messages: self.cache_messages,
            max_messages: self.max_messages,
            max_members: self.max_members,
        }
    }
}

impl CachePolicy for CustomPolicy {
    open spec fn policy_kind(&self) -> CachePolicyKind {
        CachePolicyKind::Custom
    }

    open spec fn keeps_guild(&self, guild_id: GuildId) -> bool {
        self@.cache_guilds
    }

    open spec fn keeps_channel(&self, channel_id: ChannelId) -> bool {
        self@.cache_channels
    }

    open spec fn keeps_member(&self, guild_id: GuildId, user_id: UserId) -> bool {
        self@.cache_members
    }

    open spec fn keeps_message(&self, channel_id: ChannelId) -> bool {
        self@.cache_messages
    }

    open spec fn message_limit(&self) -> usize {
        self@.max_messages
    }

    open spec fn member_limit(&self) -> Option<usize> {
        self@.max_members
    }

    fn kind(&self) -> (r: CachePolicyKind) {
        CachePolicyKind::Custom
    }

    fn should_cache_guild(&self, _guild_id: GuildId) -> (r: bool) {
        self.cache_guilds
    }

    fn should_cache_channel(&self, _channel_id: ChannelId) -> (r: bool) {
        self.cache_channels
    }

    fn should_cache_member(&self, _guild_id: GuildId, _user_id: UserId) -> (r: bool) {
        self.cache_members
    }

    fn should_cache_message(&self, _channel_id: ChannelId) -> (r: bool) {
        self.cache_messages
    }

    fn max_messages_per_channel(&self) -> (r: usize) {
        self.max_messages
    }

    fn max_members_per_guild(&self) -> (r: Option<usize>) {
        self.max_members
    }
}

/// What each built-in policy keeps: the one that caches nothing keeps no
/// guild, channel, member or message; the partial policy keeps them all, up
/// to its message and member limits; the full policy keeps them all, up to its
/// message limit and with no member limit; a custom policy keeps what its
/// rules say, and a builder starts from keeping everything, 1000 messages per
/// channel and no member limit.
pub proof fn law_builtin_policies(
    none: NonePolicy,
    partial: PartialPolicy,
    full: FullPolicy,
    custom: CustomPolicy,
    g: GuildId,
    c: ChannelId,
    u: UserId,
)
    ensures
        none.policy_kind() == CachePolicyKind::NoCache,
        !none.keeps_guild(g) && !none.keeps_channel(c) && !none.keeps_member(g, u) && !none.keeps_message(c),
        none.message_limit() == 0,
        partial.policy_kind() == CachePolicyKind::Partial,
        partial.keeps_guild(g) && partial.keeps_channel(c) && partial.keeps_member(g, u) && partial.keeps_message(c),
        partial.message_limit() == partial.max_messages,
        partial.member_limit() == Some(partial.max_members),
        full.policy_kind() == CachePolicyKind::Full,
        full.keeps_guild(g) && full.keeps_channel(c) && full.keeps_member(g, u) && full.keeps_message(c),
        full.message_limit() == full.max_messages,
        full.member_limit() is None,
        custom.policy_kind() == CachePolicyKind::Custom,
        custom.keeps_guild(g) == custom@.cache_guilds,
        custom.keeps_channel(c) == custom@.cache_channels,
        custom.keeps_member(g, u) == custom@.cache_members,
        custom.keeps_message(c) == custom@.cache_messages,
        custom.message_limit() == custom@.max_messages,
        custom.member_limit() == custom@.max_members,
        default_rules().cache_guilds && default_rules().cache_channels && default_rules().cache_members
            && default_rules().cache_messages,
        default_rules().max_messages == 1000,
        default_rules().max_members is None,
{
}

} // verus!
