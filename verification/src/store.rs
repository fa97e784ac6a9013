//! Cache storage for Discord data.
//!
//! The cache keeps guilds, channels, users, members, roles, messages and the
//! direct-message channel of each user, as its policy allows. Its state is
//! given by [`CacheView`]; every operation says how it changes that view.
use vstd::prelude::*;
use std::sync::Arc;
use crate::channel::Channel;
use crate::guild::{Guild, Member, Role};
use crate::id::{ChannelId, GuildId, MessageId, RoleId, UserId};
use crate::message::Message;
use crate::policy::{CachePolicy, CachePolicyKind, FullPolicy};
use crate::tables;
use crate::tables::{
    ChannelListTable, ChannelTable, DmTable, GuildTable, MemberTable, MessageTable, RoleTable,
    UserTable, lru_get, lru_has, lru_index, lru_keys_unique, lru_pop, lru_put,
};
use crate::text::{dec_str, push_decimal};
use crate::user::{CurrentUser, User};

verus! {

/// What a cache holds.
pub struct CacheView {
    /// The current authenticated user.
    pub current_user: Option<CurrentUser>,
    /// Guilds by guild ID.
    pub guilds: Map<u64, Guild>,
    /// Channels by channel ID.
    pub channels: Map<u64, Channel>,
    /// Users by user ID.
    pub users: Map<u64, User>,
    /// Members by guild ID, then user ID.
    pub members: Map<u64, Map<u64, Member>>,
    /// Roles by guild ID, then role ID.
    pub roles: Map<u64, Map<u64, Role>>,
    /// Messages by channel ID: (message ID, message), most recently used first.
    pub messages: Map<u64, Seq<(u64, Message)>>,
    /// How many messages each channel's list holds at most.
    pub message_caps: Map<u64, nat>,
    /// The channel IDs recorded for each guild.
    pub guild_channels: Map<u64, Seq<u64>>,
    /// The direct-message channel ID of each user.
    pub dm_channels: Map<u64, u64>,
}

/// A cache that holds nothing.
pub open spec fn empty_view() -> CacheView {
    CacheView {
        current_user: None,
        guilds: Map::empty(),
        channels: Map::empty(),
        users: Map::empty(),
        members: Map::empty(),
        roles: Map::empty(),
        messages: Map::empty(),
        message_caps: Map::empty(),
        guild_channels: Map::empty(),
        dm_channels: Map::empty(),
    }
}

/// The table of guild `g` in a map of per-guild tables, empty if it has none.
pub open spec fn table_of<V>(m: Map<u64, Map<u64, V>>, g: u64) -> Map<u64, V> {
    if m.contains_key(g) {
        m[g]
    } else {
        Map::empty()
    }
}

/// The number of entries guild `g` has in a map of per-guild tables.
pub open spec fn count_of<V>(m: Map<u64, Map<u64, V>>, g: u64) -> nat {
    if m.contains_key(g) {
        m[g].len()
    } else {
        0
    }
}

/// Per-guild tables after storing `x` under `k` for guild `g`, creating the
/// guild's table if needed.
pub open spec fn with_entry<V>(m: Map<u64, Map<u64, V>>, g: u64, k: u64, x: V) -> Map<u64, Map<u64, V>> {
    m.insert(g, table_of(m, g).insert(k, x))
}

/// Per-guild tables after dropping `k` from guild `g`'s table, if it has one.
pub open spec fn without_entry<V>(m: Map<u64, Map<u64, V>>, g: u64, k: u64) -> Map<u64, Map<u64, V>> {
    if m.contains_key(g) {
        m.insert(g, m[g].remove(k))
    } else {
        m
    }
}

/// Role tables after storing each role of `rs`, in order, for guild `g`.
pub open spec fn with_roles(m: Map<u64, Map<u64, Role>>, g: u64, rs: Seq<Role>) -> Map<u64, Map<u64, Role>>
    decreases rs.len(),
{
    if rs.len() == 0 {
        m
    } else {
        with_entry(with_roles(m, g, rs.drop_last()), g, rs.last().id.0, rs.last())
    }
}

/// A map after dropping each key of `ks`.
pub open spec fn without_keys<V>(m: Map<u64, V>, ks: Seq<u64>) -> Map<u64, V>
    decreases ks.len(),
{
    if ks.len() == 0 {
        m
    } else {
        without_keys(m, ks.drop_last()).remove(ks.last())
    }
}

/// The values `m` holds for the keys of `ks`, in that order, skipping keys it
/// does not hold.
pub open spec fn values_for<V>(m: Map<u64, V>, ks: Seq<u64>) -> Seq<V>
    decreases ks.len(),
{
    if ks.len() == 0 {
        Seq::empty()
    } else if m.contains_key(ks.last()) {
        values_for(m, ks.drop_last()).push(m[ks.last()])
    } else {
        values_for(m, ks.drop_last())
    }
}

/// `ks` without any occurrence of `k`, the others in order.
pub open spec fn seq_without(ks: Seq<u64>, k: u64) -> Seq<u64>
    decreases ks.len(),
{
    if ks.len() == 0 {
        Seq::empty()
    } else if ks.last() == k {
        seq_without(ks.drop_last(), k)
    } else {
        seq_without(ks.drop_last(), k).push(ks.last())
    }
}

/// The user ID a member is stored under: its user's ID, or 0 when the member
/// carries no user.
pub open spec fn member_key(m: Member) -> u64 {
    match m.user {
        Some(u) => u.id.0,
        None => 0,
    }
}

/// The cache after a guild is inserted under policy `p`.
pub open spec fn after_insert_guild<P: CachePolicy>(p: P, v: CacheView, guild: Guild) -> CacheView {
    if p.keeps_guild(guild.id) {
        CacheView {
            guilds: v.guilds.insert(guild.id.0, guild),
            roles: with_roles(v.roles, guild.id.0, guild.roles@),
            guild_channels: v.guild_channels.insert(guild.id.0, Seq::empty()),
            ..v
        }
    } else {
        v
    }
}

/// The cache after the guild `g` is removed.
pub open spec fn after_remove_guild(v: CacheView, g: u64) -> CacheView {
    CacheView {
        guilds: v.guilds.remove(g),
        members: v.members.remove(g),
        roles: v.roles.remove(g),
        guild_channels: v.guild_channels.remove(g),
        channels: if v.guild_channels.contains_key(g) {
            without_keys(v.channels, v.guild_channels[g])
        } else {
            v.channels
        },
        messages: if v.guild_channels.contains_key(g) {
            without_keys(v.messages, v.guild_channels[g])
        } else {
            v.messages
        },
        message_caps: if v.guild_channels.contains_key(g) {
            without_keys(v.message_caps, v.guild_channels[g])
        } else {
            v.message_caps
        },
        ..v
    }
}

/// The channel list of guild `g`, empty if it has none.
pub open spec fn channel_list_of(lists: Map<u64, Seq<u64>>, g: u64) -> Seq<u64> {
    if lists.contains_key(g) {
        lists[g]
    } else {
        Seq::empty()
    }
}

/// A channel list with the channel `c` on it: appended when it is not yet
/// listed, unchanged when it is.
pub open spec fn with_channel_id(list: Seq<u64>, c: u64) -> Seq<u64> {
    if list.contains(c) {
        list
    } else {
        list.push(c)
    }
}

/// Whether the ID list `ids` holds `c`.
fn ids_contain(ids: &Vec<u64>, c: u64) -> (r: bool)
    ensures
        r == ids@.contains(c),
{
    let mut i: usize = 0;
    while i < ids.len()
        invariant
            i <= ids@.len(),
            forall|j: int| 0 <= j < i ==> ids@[j] != c,
        decreases ids@.len() - i,
    {
        if ids[i] == c {
            return true;
        }
        i = i + 1;
    }
    false
}

/// Whether policy `p` keeps users other than the current one: every policy
/// but the one that caches nothing.
pub open spec fn keeps_users<P: CachePolicy>(p: P) -> bool {
    p.policy_kind() != CachePolicyKind::NoCache
}

/// The users after `u` is offered to the cache under policy `p`.
pub open spec fn users_with<P: CachePolicy>(p: P, users: Map<u64, User>, u: User) -> Map<u64, User> {
    if keeps_users(p) {
        users.insert(u.id.0, u)
    } else {
        users
    }
}

/// The cache after a channel is inserted under policy `p`.
pub open spec fn after_insert_channel<P: CachePolicy>(p: P, v: CacheView, channel: Channel) -> CacheView {
    if p.keeps_channel(channel.id) {
        CacheView {
            channels: v.channels.insert(channel.id.0, channel),
            guild_channels: match channel.guild_id {
                Some(g) => v.guild_channels.insert(
                    g.0,
                    with_channel_id(channel_list_of(v.guild_channels, g.0), channel.id.0),
                ),
                None => v.guild_channels,
            },
            ..v
        }
    } else {
        v
    }
}

/// The cache after the channel `c` is removed.
pub open spec fn after_remove_channel(v: CacheView, c: u64) -> CacheView {
    CacheView {
        channels: v.channels.remove(c),
        guild_channels: if v.channels.contains_key(c) {
            match v.channels[c].guild_id {
                Some(g) => if v.guild_channels.contains_key(g.0) {
                    v.guild_channels.insert(g.0, seq_without(v.guild_channels[g.0], c))
                } else {
                    v.guild_channels
                },
                None => v.guild_channels,
            }
        } else {
            v.guild_channels
        },
        messages: v.messages.remove(c),
        message_caps: v.message_caps.remove(c),
        ..v
    }
}

/// Whether policy `p` lets a member into guild `g` of cache `v`: the policy
/// keeps it, and, if there is a member limit, the guild is below it or the
/// member is already cached there (an update).
pub open spec fn admits_member<P: CachePolicy>(p: P, v: CacheView, g: GuildId, member: Member) -> bool {
    &&& p.keeps_member(g, UserId(member_key(member)))
    &&& match p.member_limit() {
        Some(max) => count_of(v.members, g.0) < max || table_of(v.members, g.0).contains_key(member_key(member)),
        None => true,
    }
}

/// The cache after a member of guild `g` is inserted under policy `p`.
pub open spec fn after_insert_member<P: CachePolicy>(p: P, v: CacheView, g: GuildId, member: Member) -> CacheView {
    if admits_member(p, v, g, member) {
        CacheView {
            users: match member.user {
                Some(u) => users_with(p, v.users, u),
                None => v.users,
            },
            members: with_entry(v.members, g.0, member_key(member), member),
            ..v
        }
    } else {
        v
    }
}

/// Whether policy `p` lets messages of the message's channel in at all.
pub open spec fn admits_message<P: CachePolicy>(p: P, message: Message) -> bool {
    p.keeps_message(message.channel_id) && p.message_limit() > 0
}

/// The cache after a message is inserted under policy `p`.
pub open spec fn after_insert_message<P: CachePolicy>(p: P, v: CacheView, message: Message) -> CacheView {
    let c = message.channel_id.0;
    let had = v.messages.contains_key(c);
    if admits_message(p, message) {
        CacheView {
            messages: v.messages.insert(
                c,
                lru_put(
                    if had { v.messages[c] } else { Seq::empty() },
                    if had { v.message_caps[c] } else { p.message_limit() as nat },
                    message.id.0,
                    message,
                ),
            ),
            message_caps: if had { v.message_caps } else { v.message_caps.insert(c, p.message_limit() as nat) },
            ..v
        }
    } else {
        v
    }
}

/// The main cache for Discord data.
///
/// Methods that change the cache take `&mut self`; share a cache between
/// tasks behind a lock.
pub struct Cache<P: CachePolicy = FullPolicy> {
    policy: P,
    current_user: Option<CurrentUser>,
    guilds: GuildTable,
    channels: ChannelTable,
    users: UserTable,
    members: MemberTable,
    roles: RoleTable,
    messages: MessageTable,
    guild_channels: ChannelListTable,
    dm_channels: DmTable,
}

impl<P: CachePolicy> View for Cache<P> {
    type V = CacheView;

    closed spec fn view(&self) -> CacheView {
        CacheView {
            current_user: self.current_user,
            guilds: tables::guild_entries(self.guilds),
            channels: tables::channel_entries(self.channels),
            users: tables::user_entries(self.users),
            members: tables::member_entries(self.members),
            roles: tables::role_entries(self.roles),
            messages: tables::message_entries(self.messages),
            message_caps: tables::message_capacities(self.messages),
            guild_channels: tables::channel_list_entries(self.guild_channels),
            dm_channels: tables::dm_entries(self.dm_channels),
        }
    }
}

/// The invariant of a cache's contents: every table is finite; guilds,
/// channels, users and roles are stored under their own IDs; each channel's
/// message list has a capacity of at least one, holds no more than it, and
/// holds each message ID once.
pub open spec fn view_wf(v: CacheView) -> bool {
    &&& v.guilds.dom().finite()
    &&& v.channels.dom().finite()
    &&& v.users.dom().finite()
    &&& v.members.dom().finite()
    &&& v.roles.dom().finite()
    &&& v.messages.dom().finite()
    &&& v.guild_channels.dom().finite()
    &&& v.dm_channels.dom().finite()
    &&& forall|g: u64| #[trigger] v.members.contains_key(g) ==> v.members[g].dom().finite()
    &&& forall|g: u64| #[trigger] v.roles.contains_key(g) ==> v.roles[g].dom().finite()
    &&& forall|k: u64| #[trigger] v.guilds.contains_key(k) ==> v.guilds[k].id.0 == k
    &&& forall|k: u64| #[trigger] v.channels.contains_key(k) ==> v.channels[k].id.0 == k
    &&& forall|k: u64| #[trigger] v.users.contains_key(k) ==> v.users[k].id.0 == k
    &&& forall|g: u64, k: u64|
        v.roles.contains_key(g) && #[trigger] v.roles[g].contains_key(k) ==> v.roles[g][k].id.0 == k
    &&& forall|c: u64| #[trigger] v.messages.contains_key(c) <==> v.message_caps.contains_key(c)
    &&& forall|c: u64| #[trigger] v.messages.contains_key(c) ==> {
        &&& v.message_caps[c] >= 1
        &&& v.messages[c].len() <= v.message_caps[c]
        &&& lru_keys_unique(v.messages[c])
    }
}

impl<P: CachePolicy> Cache<P> {
    /// The policy the cache follows.
    pub closed spec fn policy(&self) -> P {
        self.policy
    }

    /// The cache's invariant.
    pub open spec fn wf(&self) -> bool {
        view_wf(self@)
    }

    /// Create a new cache with a custom policy.
    pub fn with_policy(policy: P) -> (r: Self)
        ensures
            r.wf(),
            r@ == empty_view(),
            r.policy() == policy,
    {
        let r = Cache {
            policy,
            current_user: None,
            guilds: tables::guilds_new(),
            channels: tables::channels_new(),
            users: tables::users_new(),
            members: tables::members_new(),
            roles: tables::roles_new(),
            messages: tables::messages_new(),
            guild_channels: tables::channel_lists_new(),
            dm_channels: tables::dms_new(),
        };
        assert(r@.guilds =~= Map::empty());
        assert(r@.channels =~= Map::empty());
        assert(r@.users =~= Map::empty());
        assert(r@.members =~= Map::empty());
        assert(r@.roles =~= Map::empty());
        assert(r@.messages =~= Map::empty());
        assert(r@.message_caps =~= Map::empty());
        assert(r@.guild_channels =~= Map::empty());
        assert(r@.dm_channels =~= Map::empty());
        r
    }

    // ========== Current User ==========

    /// Get the current user.
    pub fn current_user(&self) -> (r: Option<CurrentUser>)
        ensures
            r == self@.current_user,
    {
        match &self.current_user {
            Some(u) => Some(u.clone()),
            None => None,
        }
    }

    /// Set the current user.
    pub fn set_current_user(&mut self, user: CurrentUser)
        ensures
            final(self)@ == (CacheView { current_user: Some(user), ..old(self)@ }),
            final(self).policy() == old(self).policy(),
    {
        self.current_user = Some(user);
    }
}

impl<P: CachePolicy> Cache<P> {
    // ========== Guilds ==========

    /// Get a guild by ID.
    pub fn guild(&self, guild_id: GuildId) -> (r: Option<Arc<Guild>>)
        ensures
            r is Some <==> self@.guilds.contains_key(guild_id.0),
            r matches Some(g) ==> *g == self@.guilds[guild_id.0],
    {
        tables::guilds_get(&self.guilds, guild_id.0)
    }

    /// Get all cached guilds, each once, in no particular order.
    pub fn guilds(&self) -> (r: Vec<Arc<Guild>>)
        requires
            self.wf(),
        ensures
            r@.len() == self@.guilds.len(),
            forall|i: int| 0 <= i < r@.len() ==> #[trigger] self@.guilds.contains_key(r@[i].id.0)
                && self@.guilds[r@[i].id.0] == *r@[i],
            forall|i: int, j: int| 0 <= i < j < r@.len() ==> #[trigger] r@[i].id != #[trigger] r@[j].id,
            forall|k: u64| #[trigger] self@.guilds.contains_key(k) ==>
                exists|i: int| 0 <= i < r@.len() && #[trigger] r@[i].id.0 == k,
    {
        let pairs = tables::guilds_entries(&self.guilds);
        let ghost ps = pairs@.map_values(|p: (u64, Arc<Guild>)| (p.0, *p.1));
        let mut out: Vec<Arc<Guild>> = Vec::new();
        let mut i: usize = 0;
        while i < pairs.len()
            invariant
                i <= pairs@.len(),
                ps == pairs@.map_values(|p: (u64, Arc<Guild>)| (p.0, *p.1)),
                out@.len() == i,
                forall|j: int| 0 <= j < i ==> #[trigger] out@[j] == pairs@[j].1,
            decreases pairs@.len() - i,
        {
            out.push(Arc::clone(&pairs[i].1));
            i = i + 1;
        }
        proof {
            let gs = self@.guilds;
            assert forall|i: int| 0 <= i < out@.len() implies #[trigger] gs.contains_key(out@[i].id.0)
                && gs[out@[i].id.0] == *out@[i] by {
                assert(ps[i] == (pairs@[i].0, *pairs@[i].1));
                assert(gs.contains_key(ps[i].0));
            }
            assert forall|i: int, j: int| 0 <= i < j < out@.len() implies #[trigger] out@[i].id
                != #[trigger] out@[j].id by {
                assert(ps[i] == (pairs@[i].0, *pairs@[i].1));
                assert(ps[j] == (pairs@[j].0, *pairs@[j].1));
                assert(gs.contains_key(ps[i].0));
                assert(gs.contains_key(ps[j].0));
            }
            assert forall|k: u64| #[trigger] gs.contains_key(k) implies exists|i: int|
                0 <= i < out@.len() && #[trigger] out@[i].id.0 == k by {
                let i = choose|i: int| 0 <= i < ps.len() && #[trigger] ps[i].0 == k;
                assert(ps[i] == (pairs@[i].0, *pairs@[i].1));
                assert(gs.contains_key(ps[i].0));
                assert(out@[i].id.0 == k);
            }
        }
        out
    }

    /// Get the number of cached guilds.
    pub fn guild_count(&self) -> (r: usize)
        ensures
            r == self@.guilds.len(),
    {
        tables::guilds_len(&self.guilds)
    }

    /// Insert or update a guild: unless the policy refuses it, the guild's
    /// channel list starts empty, its roles are stored in order, and the
    /// guild is stored under its ID.
    pub fn insert_guild(&mut self, guild: Guild)
        requires
            old(self).wf(),
        ensures
            final(self).wf(),
            final(self).policy() == old(self).policy(),
            final(self)@ == after_insert_guild(old(self).policy(), old(self)@, guild),
    {
        if !self.policy.should_cache_guild(guild.id) {
            return;
        }
        let guild_id = guild.id;
        let channel_ids: Vec<u64> = Vec::new();
        tables::channel_lists_insert(&mut self.guild_channels, guild_id.0, channel_ids);
        let ghost v0 = self@;
        let mut i: usize = 0;
        while i < guild.roles.len()
            invariant
                i <= guild.roles@.len(),
                self.wf(),
                self.policy() == old(self).policy(),
                self@ == (CacheView { roles: with_roles(v0.roles, guild_id.0, guild.roles@.take(i as int)), ..v0 }),
            decreases guild.roles@.len() - i,
        {
            let role = guild.roles[i].clone();
            proof {
                assert(guild.roles@.take(i as int + 1).drop_last() =~= guild.roles@.take(i as int));
            }
            self.insert_role(guild_id, role);
            i = i + 1;
        }
        proof {
            assert(guild.roles@.take(i as int) =~= guild.roles@);
        }
        tables::guilds_insert(&mut self.guilds, guild_id.0, Arc::new(guild));
    }

    /// Remove a guild from the cache, with its members, roles, channel list,
    /// and the channels and message lists of the channels on that list.
    pub fn remove_guild(&mut self, guild_id: GuildId)
        requires
            old(self).wf(),
        ensures
            final(self).wf(),
            final(self).policy() == old(self).policy(),
            final(self)@ == after_remove_guild(old(self)@, guild_id.0),
    {
        let g = guild_id.0;
        tables::guilds_remove(&mut self.guilds, g);
        tables::members_remove_guild(&mut self.members, g);
        tables::roles_remove_guild(&mut self.roles, g);
        match tables::channel_lists_remove(&mut self.guild_channels, g) {
            Some(channel_ids) => {
                let ghost v0 = self@;
                let mut i: usize = 0;
                while i < channel_ids.len()
                    invariant
                        i <= channel_ids@.len(),
                        self.policy() == old(self).policy(),
                        view_wf(v0),
                        view_wf(self@),
                        self@ == (CacheView {
                            channels: without_keys(v0.channels, channel_ids@.take(i as int)),
                            messages: without_keys(v0.messages, channel_ids@.take(i as int)),
                            message_caps: without_keys(v0.message_caps, channel_ids@.take(i as int)),
                            ..v0
                        }),
                    decreases channel_ids@.len() - i,
                {
                    let c = channel_ids[i];
                    proof {
                        assert(channel_ids@.take(i as int + 1).drop_last() =~= channel_ids@.take(i as int));
                    }
                    tables::channels_remove(&mut self.channels, c);
                    tables::messages_remove_channel(&mut self.messages, c);
                    i = i + 1;
                }
                proof {
                    assert(channel_ids@.take(i as int) =~= channel_ids@);
                }
            },
            None => {},
        }
    }
}

impl<P: CachePolicy> Cache<P> {
    // ========== Roles ==========

    /// Get a role by guild and role ID.
    pub fn role(&self, guild_id: GuildId, role_id: RoleId) -> (r: Option<Arc<Role>>)
        ensures
            r is Some <==> table_of(self@.roles, guild_id.0).contains_key(role_id.0),
            r matches Some(x) ==> *x == self@.roles[guild_id.0][role_id.0],
    {
        if tables::roles_has_guild(&self.roles, guild_id.0) {
            tables::roles_get(&self.roles, guild_id.0, role_id.0)
        } else {
            None
        }
    }

    /// Get all roles in a guild, each once, in no particular order; none when
    /// the guild has no role table.
    pub fn guild_roles(&self, guild_id: GuildId) -> (r: Vec<Arc<Role>>)
        requires
            self.wf(),
        ensures
            r@.len() == count_of(self@.roles, guild_id.0),
            forall|i: int| 0 <= i < r@.len() ==>
                #[trigger] table_of(self@.roles, guild_id.0).contains_key(r@[i].id.0)
                && self@.roles[guild_id.0][r@[i].id.0] == *r@[i],
            forall|i: int, j: int| 0 <= i < j < r@.len() ==> #[trigger] r@[i].id != #[trigger] r@[j].id,
            forall|k: u64| #[trigger] table_of(self@.roles, guild_id.0).contains_key(k) ==>
                exists|i: int| 0 <= i < r@.len() && #[trigger] r@[i].id.0 == k,
    {
        let g = guild_id.0;
        if !tables::roles_has_guild(&self.roles, g) {
            return Vec::new();
        }
        let pairs = tables::roles_entries(&self.roles, g);
        let ghost ps = pairs@.map_values(|p: (u64, Arc<Role>)| (p.0, *p.1));
        let mut out: Vec<Arc<Role>> = Vec::new();
        let mut i: usize = 0;
        while i < pairs.len()
            invariant
                i <= pairs@.len(),
                ps == pairs@.map_values(|p: (u64, Arc<Role>)| (p.0, *p.1)),
                out@.len() == i,
                forall|j: int| 0 <= j < i ==> #[trigger] out@[j] == pairs@[j].1,
            decreases pairs@.len() - i,
        {
            out.push(Arc::clone(&pairs[i].1));
            i = i + 1;
        }
        proof {
            let rs = self@.roles[g];
            assert forall|i: int| 0 <= i < out@.len() implies #[trigger] table_of(self@.roles, g).contains_key(out@[i].id.0)
                && self@.roles[g][out@[i].id.0] == *out@[i] by {
                assert(ps[i] == (pairs@[i].0, *pairs@[i].1));
                assert(rs.contains_key(ps[i].0));
            }
            assert forall|i: int, j: int| 0 <= i < j < out@.len() implies #[trigger] out@[i].id
                != #[trigger] out@[j].id by {
                assert(ps[i] == (pairs@[i].0, *pairs@[i].1));
                assert(ps[j] == (pairs@[j].0, *pairs@[j].1));
                assert(rs.contains_key(ps[i].0));
                assert(rs.contains_key(ps[j].0));
            }
            assert forall|k: u64| #[trigger] table_of(self@.roles, g).contains_key(k) implies exists|i: int|
                0 <= i < out@.len() && #[trigger] out@[i].id.0 == k by {
                assert(rs.contains_key(k));
                let i = choose|i: int| 0 <= i < ps.len() && #[trigger] ps[i].0 == k;
                assert(ps[i] == (pairs@[i].0, *pairs@[i].1));
                assert(rs.contains_key(ps[i].0));
                assert(out@[i].id.0 == k);
            }
        }
        out
    }

    /// Insert or update a role of a guild, creating the guild's role table
    /// if needed.
    pub fn insert_role(&mut self, guild_id: GuildId, role: Role)
        requires
            old(self).wf(),
        ensures
            final(self).wf(),
            final(self).policy() == old(self).policy(),
            final(self)@ == (CacheView {
                roles: with_entry(old(self)@.roles, guild_id.0, role.id.0, role),
                ..old(self)@
            }),
    {
        let g = guild_id.0;
        let role_id = role.id.0;
        if !tables::roles_has_guild(&self.roles, g) {
            tables::roles_add_guild(&mut self.roles, g);
        }
        tables::roles_insert(&mut self.roles, g, role_id, Arc::new(role));
        proof {
            assert(self@.roles =~= with_entry(old(self)@.roles, g, role_id, role));
        }
    }

    /// Remove a role from a guild's role table, if the guild has one.
    pub fn remove_role(&mut self, guild_id: GuildId, role_id: RoleId)
        requires
            old(self).wf(),
        ensures
            final(self).wf(),
            final(self).policy() == old(self).policy(),
            final(self)@ == (CacheView {
                roles: without_entry(old(self)@.roles, guild_id.0, role_id.0),
                ..old(self)@
            }),
    {
        if tables::roles_has_guild(&self.roles, guild_id.0) {
            tables::roles_remove(&mut self.roles, guild_id.0, role_id.0);
        }
    }
}

impl<P: CachePolicy> Cache<P> {
    // ========== Users ==========

    /// Get a user by ID.
    pub fn user(&self, user_id: UserId) -> (r: Option<Arc<User>>)
        ensures
            r is Some <==> self@.users.contains_key(user_id.0),
            r matches Some(u) ==> *u == self@.users[user_id.0],
    {
        tables::users_get(&self.users, user_id.0)
    }

    /// Insert or update a user, stored under its ID, unless the policy is the
    /// one that caches nothing but the current user.
    pub fn insert_user(&mut self, user: User)
        requires
            old(self).wf(),
        ensures
            final(self).wf(),
            final(self).policy() == old(self).policy(),
            final(self)@ == (CacheView { users: users_with(old(self).policy(), old(self)@.users, user), ..old(self)@ }),
    {
        if self.policy.kind() == CachePolicyKind::NoCache {
            return;
        }
        let user_id = user.id.0;
        tables::users_insert(&mut self.users, user_id, Arc::new(user));
    }

    // ========== Members ==========

    /// Get a member by guild and user ID.
    pub fn member(&self, guild_id: GuildId, user_id: UserId) -> (r: Option<Arc<Member>>)
        ensures
            r is Some <==> table_of(self@.members, guild_id.0).contains_key(user_id.0),
            r matches Some(m) ==> *m == self@.members[guild_id.0][user_id.0],
    {
        if tables::members_has_guild(&self.members, guild_id.0) {
            tables::members_get(&self.members, guild_id.0, user_id.0)
        } else {
            None
        }
    }

    /// Get all members of a guild: the member of each user ID of the guild's
    /// table once, in no particular order; none when the guild has no table.
    pub fn guild_members(&self, guild_id: GuildId) -> (r: Vec<Arc<Member>>)
        requires
            self.wf(),
        ensures
            exists|ks: Seq<u64>| {
                &&& tables::lists_keys_of(ks, table_of(self@.members, guild_id.0))
                &&& ks.len() == r@.len()
                &&& forall|i: int| 0 <= i < ks.len() ==> *r@[i] == table_of(self@.members, guild_id.0)[#[trigger] ks[i]]
            },
    {
        let g = guild_id.0;
        if !tables::members_has_guild(&self.members, g) {
            let out: Vec<Arc<Member>> = Vec::new();
            proof {
                let ks = Seq::<u64>::empty();
                assert(tables::lists_keys_of(ks, table_of(self@.members, g)));
            }
            return out;
        }
        let pairs = tables::members_entries(&self.members, g);
        let ghost ps = pairs@.map_values(|p: (u64, Arc<Member>)| (p.0, *p.1));
        let mut out: Vec<Arc<Member>> = Vec::new();
        let mut i: usize = 0;
        while i < pairs.len()
            invariant
                i <= pairs@.len(),
                ps == pairs@.map_values(|p: (u64, Arc<Member>)| (p.0, *p.1)),
                out@.len() == i,
                forall|j: int| 0 <= j < i ==> #[trigger] out@[j] == pairs@[j].1,
            decreases pairs@.len() - i,
        {
            out.push(Arc::clone(&pairs[i].1));
            i = i + 1;
        }
        proof {
            let ms = self@.members[g];
            let ks = ps.map_values(|p: (u64, Member)| p.0);
            assert forall|a: int, b: int| 0 <= a < ks.len() && 0 <= b < ks.len() && a != b implies ks[a] != ks[b] by {
                if a < b {
                    assert(ps[a].0 != ps[b].0);
                } else {
                    assert(ps[b].0 != ps[a].0);
                }
            }
            assert forall|k: u64| #[trigger] ms.contains_key(k) <==> ks.contains(k) by {
                if ms.contains_key(k) {
                    let i = choose|i: int| 0 <= i < ps.len() && #[trigger] ps[i].0 == k;
                    assert(ks[i] == k);
                }
                if ks.contains(k) {
                    let i = choose|i: int| 0 <= i < ks.len() && ks[i] == k;
                    assert(ks[i] == ps[i].0);
                    assert(ms.contains_key(ps[i].0));
                }
            }
            assert forall|i: int| 0 <= i < ks.len() implies *out@[i] == table_of(self@.members, g)[#[trigger] ks[i]] by {
                assert(ps[i] == (pairs@[i].0, *pairs@[i].1));
                assert(ms.contains_key(ps[i].0));
            }
            assert(tables::lists_keys_of(ks, table_of(self@.members, g)));
        }
        out
    }

    /// Get the number of cached members in a guild.
    pub fn member_count(&self, guild_id: GuildId) -> (r: usize)
        ensures
            r == count_of(self@.members, guild_id.0),
    {
        if tables::members_has_guild(&self.members, guild_id.0) {
            tables::members_len(&self.members, guild_id.0)
        } else {
            0
        }
    }

    /// Insert or update a member of a guild, stored under its user's ID (0
    /// when it carries no user). The policy decides whether the member is
    /// kept; when the policy limits members per guild, a guild that already
    /// has that many takes no new member, while one already cached is still
    /// updated. A kept member's user is stored too (under a policy that keeps
    /// users).
    pub fn insert_member(&mut self, guild_id: GuildId, member: Member)
        requires
            old(self).wf(),
        ensures
            final(self).wf(),
            final(self).policy() == old(self).policy(),
            final(self)@ == after_insert_member(old(self).policy(), old(self)@, guild_id, member),
            match old(self).policy().member_limit() {
                Some(max) => count_of(old(self)@.members, guild_id.0) <= max
                    ==> count_of(final(self)@.members, guild_id.0) <= max,
                None => true,
            },
    {
        let g = guild_id.0;
        let user_id: u64 = match &member.user {
            Some(u) => u.id.0,
            None => 0,
        };
        if !self.policy.should_cache_member(guild_id, UserId(user_id)) {
            return;
        }
        match self.policy.max_members_per_guild() {
            Some(max) => {
                if self.member_count(guild_id) >= max && self.member(guild_id, UserId(user_id)).is_none() {
                    return;
                }
            },
            None => {},
        }
        match &member.user {
            Some(u) => {
                self.insert_user(u.clone());
            },
            None => {},
        }
        let ghost v1 = self@;
        if !tables::members_has_guild(&self.members, g) {
            tables::members_add_guild(&mut self.members, g);
        }
        tables::members_insert(&mut self.members, g, user_id, Arc::new(member));
        proof {
            assert(self@.members =~= with_entry(v1.members, g, user_id, member));
            let t = table_of(v1.members, g);
            assert(t.dom().finite());
            assert(self@.members[g] == t.insert(user_id, member));
            assert(self@.members[g].dom() =~= t.dom().insert(user_id));
            if t.contains_key(user_id) {
                assert(t.dom().insert(user_id) =~= t.dom());
            }
        }
    }

    /// Remove a member from a guild's member table, if the guild has one.
    pub fn remove_member(&mut self, guild_id: GuildId, user_id: UserId)
        requires
            old(self).wf(),
        ensures
            final(self).wf(),
            final(self).policy() == old(self).policy(),
            final(self)@ == (CacheView {
                members: without_entry(old(self)@.members, guild_id.0, user_id.0),
                ..old(self)@
            }),
    {
        if tables::members_has_guild(&self.members, guild_id.0) {
            tables::members_remove(&mut self.members, guild_id.0, user_id.0);
        }
    }

    // ========== Channels ==========

    /// Get a channel by ID.
    pub fn channel(&self, channel_id: ChannelId) -> (r: Option<Arc<Channel>>)
        ensures
            r is Some <==> self@.channels.contains_key(channel_id.0),
            r matches Some(c) ==> *c == self@.channels[channel_id.0],
    {
        tables::channels_get(&self.channels, channel_id.0)
    }

    /// Get the cached channels on a guild's channel list, in list order;
    /// IDs with no cached channel are skipped.
    pub fn guild_channels(&self, guild_id: GuildId) -> (r: Vec<Arc<Channel>>)
        ensures
            r@.map_values(|c: Arc<Channel>| *c) == if self@.guild_channels.contains_key(guild_id.0) {
                values_for(self@.channels, self@.guild_channels[guild_id.0])
            } else {
                Seq::empty()
            },
    {
        match tables::channel_lists_get(&self.guild_channels, guild_id.0) {
            Some(ids) => {
                let mut out: Vec<Arc<Channel>> = Vec::new();
                let mut i: usize = 0;
                while i < ids.len()
                    invariant
                        i <= ids@.len(),
                        out@.map_values(|c: Arc<Channel>| *c) == values_for(self@.channels, ids@.take(i as int)),
                    decreases ids@.len() - i,
                {
                    proof {
                        assert(ids@.take(i as int + 1).drop_last() =~= ids@.take(i as int));
                    }
                    match self.channel(ChannelId(ids[i])) {
                        Some(c) => {
                            out.push(c);
                        },
                        None => {},
                    }
                    proof {
                        assert(out@.map_values(|c: Arc<Channel>| *c) =~= values_for(self@.channels, ids@.take(i as int + 1)));
                    }
                    i = i + 1;
                }
                proof {
                    assert(ids@.take(i as int) =~= ids@);
                }
                out
            },
            None => {
                let out: Vec<Arc<Channel>> = Vec::new();
                proof {
                    assert(out@.map_values(|c: Arc<Channel>| *c) =~= Seq::empty());
                }
                out
            },
        }
    }

    /// Insert or update a channel: unless the policy refuses it, a guild
    /// channel's ID is appended to its guild's channel list (which is created
    /// if needed) when it is not listed there yet, and the channel is stored
    /// under its ID.
    pub fn insert_channel(&mut self, channel: Channel)
        requires
            old(self).wf(),
        ensures
            final(self).wf(),
            final(self).policy() == old(self).policy(),
            final(self)@ == after_insert_channel(old(self).policy(), old(self)@, channel),
    {
        if !self.policy.should_cache_channel(channel.id) {
            return;
        }
        let channel_id = channel.id.0;
        match channel.guild_id {
            Some(g) => {
                let ghost gc0 = self@.guild_channels;
                if !tables::channel_lists_has(&self.guild_channels, g.0) {
                    tables::channel_lists_insert(&mut self.guild_channels, g.0, Vec::new());
                }
                let listed = match tables::channel_lists_get(&self.guild_channels, g.0) {
                    Some(ids) => ids_contain(&ids, channel_id),
                    None => false,
                };
                if !listed {
                    tables::channel_lists_push(&mut self.guild_channels, g.0, channel_id);
                }
                proof {
                    let prior = channel_list_of(gc0, g.0);
                    if listed {
                        assert(self@.guild_channels =~= gc0.insert(g.0, prior));
                    } else {
                        assert(self@.guild_channels =~= gc0.insert(g.0, prior.push(channel_id)));
                    }
                }
            },
            None => {},
        }
        tables::channels_insert(&mut self.channels, channel_id, Arc::new(channel));
    }

    /// Remove a channel from the cache: its ID leaves its guild's channel
    /// list (when the channel was cached and its guild has a list), and its
    /// message list is dropped.
    pub fn remove_channel(&mut self, channel_id: ChannelId)
        requires
            old(self).wf(),
        ensures
            final(self).wf(),
            final(self).policy() == old(self).policy(),
            final(self)@ == after_remove_channel(old(self)@, channel_id.0),
    {
        let c = channel_id.0;
        match tables::channels_remove(&mut self.channels, c) {
            Some(channel) => match channel.guild_id {
                Some(g) => match tables::channel_lists_get(&self.guild_channels, g.0) {
                    Some(ids) => {
                        let mut kept: Vec<u64> = Vec::new();
                        let mut i: usize = 0;
                        while i < ids.len()
                            invariant
                                i <= ids@.len(),
                                kept@ == seq_without(ids@.take(i as int), c),
                            decreases ids@.len() - i,
                        {
                            proof {
                                assert(ids@.take(i as int + 1).drop_last() =~= ids@.take(i as int));
                            }
                            if ids[i] != c {
                                kept.push(ids[i]);
                            }
                            i = i + 1;
                        }
                        proof {
                            assert(ids@.take(i as int) =~= ids@);
                        }
                        tables::channel_lists_insert(&mut self.guild_channels, g.0, kept);
                    },
                    None => {},
                },
                None => {},
            },
            None => {},
        }
        tables::messages_remove_channel(&mut self.messages, c);
    }
}

/// The sum of the sizes of the per-guild tables of `ks`.
pub open spec fn total_entries<V>(m: Map<u64, Map<u64, V>>, ks: Seq<u64>) -> nat
    decreases ks.len(),
{
    if ks.len() == 0 {
        0
    } else {
        total_entries(m, ks.drop_last()) + count_of(m, ks.last())
    }
}

/// The sum of the lengths of the message lists of `ks`.
pub open spec fn total_messages(m: Map<u64, Seq<(u64, Message)>>, ks: Seq<u64>) -> nat
    decreases ks.len(),
{
    if ks.len() == 0 {
        0
    } else {
        total_messages(m, ks.drop_last()) + if m.contains_key(ks.last()) {
            m[ks.last()].len()
        } else {
            0
        }
    }
}

/// `n`, or the largest `usize` when `n` is larger.
pub open spec fn clamp_usize(n: nat) -> usize {
    if n <= usize::MAX {
        n as usize
    } else {
        usize::MAX
    }
}

/// Cache statistics.
#[derive(Clone, Debug)]
pub struct CacheStats {
    /// Number of cached guilds.
    pub guilds: usize,
    /// Number of cached channels.
    pub channels: usize,
    /// Number of cached users.
    pub users: usize,
    /// Number of cached members.
    pub members: usize,
    /// Number of cached roles.
    pub roles: usize,
    /// Number of cached messages.
    pub messages: usize,
}

impl Default for CacheStats {
    fn default() -> (r: Self)
        ensures
            r.guilds == 0 && r.channels == 0 && r.users == 0,
            r.members == 0 && r.roles == 0 && r.messages == 0,
    {
        CacheStats { guilds: 0, channels: 0, users: 0, members: 0, roles: 0, messages: 0 }
    }
}

/// The one-line summary of cache statistics.
pub open spec fn stats_text(s: CacheStats) -> Seq<char> {
    "Guilds: "@ + dec_str(s.guilds as nat) + ", Channels: "@ + dec_str(s.channels as nat)
        + ", Users: "@ + dec_str(s.users as nat) + ", Members: "@ + dec_str(s.members as nat)
        + ", Roles: "@ + dec_str(s.roles as nat) + ", Messages: "@ + dec_str(s.messages as nat)
}

impl CacheStats {
    /// The statistics as one line:
    /// `Guilds: G, Channels: C, Users: U, Members: M, Roles: R, Messages: N`.
    pub fn to_string(&self) -> (r: String)
        ensures
            r@ == stats_text(*self),
    {
        let mut out = String::new();
        out.append("Guilds: ");
        push_decimal(&mut out, self.guilds as u64);
        out.append(", Channels: ");
        push_decimal(&mut out, self.channels as u64);
        out.append(", Users: ");
        push_decimal(&mut out, self.users as u64);
        out.append(", Members: ");
        push_decimal(&mut out, self.members as u64);
        out.append(", Roles: ");
        push_decimal(&mut out, self.roles as u64);
        out.append(", Messages: ");
        push_decimal(&mut out, self.messages as u64);
        proof {
            reveal_strlit("Guilds: ");
            reveal_strlit(", Channels: ");
            reveal_strlit(", Users: ");
            reveal_strlit(", Members: ");
            reveal_strlit(", Roles: ");
            reveal_strlit(", Messages: ");
        }
        out
    }
}

impl<P: CachePolicy> Cache<P> {
    // ========== Messages ==========

    /// Get a message by channel and message ID, without changing which
    /// messages are most recently used.
    pub fn message(&self, channel_id: ChannelId, message_id: MessageId) -> (r: Option<Arc<Message>>)
        ensures
            r is Some <==> self@.messages.contains_key(channel_id.0)
                && lru_get(self@.messages[channel_id.0], message_id.0) is Some,
            r matches Some(m) ==> lru_get(self@.messages[channel_id.0], message_id.0) == Some(*m),
    {
        if tables::messages_has_channel(&self.messages, channel_id.0) {
            tables::messages_peek(&self.messages, channel_id.0, message_id.0)
        } else {
            None
        }
    }

    /// Insert or update a message: unless the policy refuses the channel's
    /// messages or keeps none, the message is put at the front of its
    /// channel's list, which is created with the policy's capacity if needed;
    /// a full list drops its least recently used message. The message can
    /// then be read back.
    pub fn insert_message(&mut self, message: Message)
        requires
            old(self).wf(),
        ensures
            final(self).wf(),
            final(self).policy() == old(self).policy(),
            final(self)@ == after_insert_message(old(self).policy(), old(self)@, message),
            admits_message(old(self).policy(), message)
                ==> lru_get(final(self)@.messages[message.channel_id.0], message.id.0) == Some(message),
    {
        let channel_id = message.channel_id;
        if !self.policy.should_cache_message(channel_id) {
            return;
        }
        let message_id = message.id.0;
        let max_messages = self.policy.max_messages_per_channel();
        if max_messages == 0 {
            return;
        }
        let c = channel_id.0;
        if !tables::messages_has_channel(&self.messages, c) {
            tables::messages_add_channel(&mut self.messages, c, max_messages);
        }
        let ghost v1 = self@;
        proof {
            lemma_lru_put(v1.messages[c], v1.message_caps[c], message_id, message);
        }
        tables::messages_put(&mut self.messages, c, message_id, Arc::new(message));
        proof {
            assert(self@.message_caps =~= if old(self)@.messages.contains_key(c) {
                old(self)@.message_caps
            } else {
                old(self)@.message_caps.insert(c, max_messages as nat)
            });
            let had = old(self)@.messages.contains_key(c);
            assert(self@.messages =~= old(self)@.messages.insert(
                c,
                lru_put(
                    if had { old(self)@.messages[c] } else { Seq::empty() },
                    if had { old(self)@.message_caps[c] } else { max_messages as nat },
                    message_id,
                    message,
                ),
            ));
        }
    }

    /// Remove a message from its channel's list, if the channel has one.
    pub fn remove_message(&mut self, channel_id: ChannelId, message_id: MessageId)
        requires
            old(self).wf(),
        ensures
            final(self).wf(),
            final(self).policy() == old(self).policy(),
            !old(self)@.messages.contains_key(channel_id.0) ==> final(self)@ == old(self)@,
            old(self)@.messages.contains_key(channel_id.0) ==> final(self)@ == (CacheView {
                messages: old(self)@.messages.insert(
                    channel_id.0,
                    lru_pop(old(self)@.messages[channel_id.0], message_id.0),
                ),
                ..old(self)@
            }),
    {
        if tables::messages_has_channel(&self.messages, channel_id.0) {
            proof {
                lemma_lru_pop(self@.messages[channel_id.0], message_id.0);
            }
            tables::messages_pop(&mut self.messages, channel_id.0, message_id.0);
        }
    }

    // ========== DM Channels ==========

    /// Get the DM channel ID of a user.
    pub fn dm_channel(&self, user_id: UserId) -> (r: Option<ChannelId>)
        ensures
            r is Some <==> self@.dm_channels.contains_key(user_id.0),
            r matches Some(c) ==> c.0 == self@.dm_channels[user_id.0],
    {
        match tables::dms_get(&self.dm_channels, user_id.0) {
            Some(c) => Some(ChannelId(c)),
            None => None,
        }
    }

    /// Set the DM channel of a user.
    pub fn set_dm_channel(&mut self, user_id: UserId, channel_id: ChannelId)
        requires
            old(self).wf(),
        ensures
            final(self).wf(),
            final(self).policy() == old(self).policy(),
            final(self)@ == (CacheView {
                dm_channels: old(self)@.dm_channels.insert(user_id.0, channel_id.0),
                ..old(self)@
            }),
    {
        tables::dms_insert(&mut self.dm_channels, user_id.0, channel_id.0);
    }

    // ========== Statistics ==========

    /// Get cache statistics: the numbers of guilds, channels and users, and
    /// the totals of members over all guilds, roles over all guilds and
    /// messages over all channels (each total capped at `usize::MAX`).
    pub fn stats(&self) -> (r: CacheStats)
        requires
            self.wf(),
        ensures
            r.guilds == self@.guilds.len(),
            r.channels == self@.channels.len(),
            r.users == self@.users.len(),
            exists|ks: Seq<u64>| tables::lists_keys_of(ks, self@.members)
                && r.members == clamp_usize(#[trigger] total_entries(self@.members, ks)),
            exists|ks: Seq<u64>| tables::lists_keys_of(ks, self@.roles)
                && r.roles == clamp_usize(#[trigger] total_entries(self@.roles, ks)),
            exists|ks: Seq<u64>| tables::lists_keys_of(ks, self@.messages)
                && r.messages == clamp_usize(#[trigger] total_messages(self@.messages, ks)),
    {
        let guild_ids = tables::members_guilds(&self.members);
        let mut members: usize = 0;
        let mut i: usize = 0;
        while i < guild_ids.len()
            invariant
                i <= guild_ids@.len(),
                tables::lists_keys_of(guild_ids@, self@.members),
                members == clamp_usize(total_entries(self@.members, guild_ids@.take(i as int))),
            decreases guild_ids@.len() - i,
        {
            proof {
                assert(guild_ids@.take(i as int + 1).drop_last() =~= guild_ids@.take(i as int));
                assert(self@.members.contains_key(guild_ids@[i as int]));
            }
            let n = tables::members_len(&self.members, guild_ids[i]);
            members = members.saturating_add(n);
            i = i + 1;
        }
        proof {
            assert(guild_ids@.take(i as int) =~= guild_ids@);
        }
        let guild_ids = tables::roles_guilds(&self.roles);
        let mut roles: usize = 0;
        let mut i: usize = 0;
        while i < guild_ids.len()
            invariant
                i <= guild_ids@.len(),
                tables::lists_keys_of(guild_ids@, self@.roles),
                roles == clamp_usize(total_entries(self@.roles, guild_ids@.take(i as int))),
            decreases guild_ids@.len() - i,
        {
            proof {
                assert(guild_ids@.take(i as int + 1).drop_last() =~= guild_ids@.take(i as int));
                assert(self@.roles.contains_key(guild_ids@[i as int]));
            }
            let n = tables::roles_len(&self.roles, guild_ids[i]);
            roles = roles.saturating_add(n);
            i = i + 1;
        }
        proof {
            assert(guild_ids@.take(i as int) =~= guild_ids@);
        }
        let channel_ids = tables::messages_channels(&self.messages);
        let mut messages: usize = 0;
        let mut i: usize = 0;
        while i < channel_ids.len()
            invariant
                i <= channel_ids@.len(),
                tables::lists_keys_of(channel_ids@, self@.messages),
                messages == clamp_usize(total_messages(self@.messages, channel_ids@.take(i as int))),
            decreases channel_ids@.len() - i,
        {
            proof {
                assert(channel_ids@.take(i as int + 1).drop_last() =~= channel_ids@.take(i as int));
                assert(self@.messages.contains_key(channel_ids@[i as int]));
            }
            let n = tables::messages_len(&self.messages, channel_ids[i]);
            messages = messages.saturating_add(n);
            i = i + 1;
        }
        proof {
            assert(channel_ids@.take(i as int) =~= channel_ids@);
        }
        CacheStats {
            guilds: tables::guilds_len(&self.guilds),
            channels: tables::channels_len(&self.channels),
            users: tables::users_len(&self.users),
            members,
            roles,
            messages,
        }
    }

    /// Clear all cached data except the current user.
    pub fn clear(&mut self)
        requires
            old(self).wf(),
        ensures
            final(self).wf(),
            final(self).policy() == old(self).policy(),
            final(self)@ == (CacheView { current_user: old(self)@.current_user, ..empty_view() }),
    {
        tables::guilds_clear(&mut self.guilds);
        tables::channels_clear(&mut self.channels);
        tables::users_clear(&mut self.users);
        tables::members_clear(&mut self.members);
        tables::roles_clear(&mut self.roles);
        tables::messages_clear(&mut self.messages);
        tables::channel_lists_clear(&mut self.guild_channels);
        tables::dms_clear(&mut self.dm_channels);
        assert(self@.guilds =~= Map::empty());
        assert(self@.channels =~= Map::empty());
        assert(self@.users =~= Map::empty());
        assert(self@.members =~= Map::empty());
        assert(self@.roles =~= Map::empty());
        assert(self@.messages =~= Map::empty());
        assert(self@.message_caps =~= Map::empty());
        assert(self@.guild_channels =~= Map::empty());
        assert(self@.dm_channels =~= Map::empty());
    }
}

/// A key of `ks` followed by one more key is a key of `ks` or that key.
proof fn lemma_contains_drop_last(ks: Seq<u64>, k: u64)
    requires
        ks.len() > 0,
    ensures
        ks.contains(k) <==> (ks.drop_last().contains(k) || ks.last() == k),
{
    if ks.drop_last().contains(k) {
        let i = choose|i: int| 0 <= i < ks.drop_last().len() && ks.drop_last()[i] == k;
        assert(ks[i] == k);
    }
    if ks.last() == k {
        assert(ks[ks.len() - 1] == k);
    }
    if ks.contains(k) {
        let i = choose|i: int| 0 <= i < ks.len() && ks[i] == k;
        if i < ks.len() - 1 {
            assert(ks.drop_last()[i] == k);
        }
    }
}

/// Dropping the keys of `ks` from a map drops exactly those keys and keeps
/// the values of the others.
pub proof fn lemma_without_keys<V>(m: Map<u64, V>, ks: Seq<u64>, k: u64)
    ensures
        without_keys(m, ks).contains_key(k) <==> (m.contains_key(k) && !ks.contains(k)),
        without_keys(m, ks).contains_key(k) ==> without_keys(m, ks)[k] == m[k],
    decreases ks.len(),
{
    if ks.len() > 0 {
        lemma_without_keys(m, ks.drop_last(), k);
        lemma_contains_drop_last(ks, k);
    }
}

/// `seq_without(ks, k)` holds exactly the elements of `ks` other than `k`.
pub proof fn lemma_seq_without(ks: Seq<u64>, k: u64, x: u64)
    ensures
        seq_without(ks, k).contains(x) <==> (ks.contains(x) && x != k),
    decreases ks.len(),
{
    if ks.len() > 0 {
        lemma_seq_without(ks.drop_last(), k, x);
        lemma_contains_drop_last(ks, x);
        let rest = seq_without(ks.drop_last(), k);
        if ks.last() != k {
            lemma_contains_drop_last(rest.push(ks.last()), x);
            assert(rest.push(ks.last()).drop_last() =~= rest);
        }
    }
}

/// A guild the policy keeps can be read back after it is inserted, and its
/// channel list starts empty.
pub proof fn law_guild_insert_then_get<P: CachePolicy>(p: P, v: CacheView, guild: Guild)
    requires
        p.keeps_guild(guild.id),
    ensures
        after_insert_guild(p, v, guild).guilds.contains_key(guild.id.0),
        after_insert_guild(p, v, guild).guilds[guild.id.0] == guild,
        after_insert_guild(p, v, guild).guild_channels[guild.id.0] == Seq::<u64>::empty(),
{
}

/// Removing a guild removes it, its members and roles, and every channel
/// on its channel list together with that channel's messages.
pub proof fn law_remove_guild_drops_its_channels(v: CacheView, g: u64, c: u64)
    requires
        v.guild_channels.contains_key(g),
        v.guild_channels[g].contains(c),
    ensures
        !after_remove_guild(v, g).guilds.contains_key(g),
        !after_remove_guild(v, g).members.contains_key(g),
        !after_remove_guild(v, g).roles.contains_key(g),
        !after_remove_guild(v, g).channels.contains_key(c),
        !after_remove_guild(v, g).messages.contains_key(c),
{
    lemma_without_keys(v.channels, v.guild_channels[g], c);
    lemma_without_keys(v.messages, v.guild_channels[g], c);
}

/// Removing a guild leaves every channel that is not on its channel list.
pub proof fn law_remove_guild_keeps_other_channels(v: CacheView, g: u64, c: u64)
    requires
        v.channels.contains_key(c),
        !(v.guild_channels.contains_key(g) && v.guild_channels[g].contains(c)),
    ensures
        after_remove_guild(v, g).channels.contains_key(c),
        after_remove_guild(v, g).channels[c] == v.channels[c],
{
    if v.guild_channels.contains_key(g) {
        lemma_without_keys(v.channels, v.guild_channels[g], c);
    }
}

/// A channel the policy keeps can be read back after it is inserted, and a
/// guild channel is then on its guild's channel list.
pub proof fn law_channel_insert_then_get<P: CachePolicy>(p: P, v: CacheView, channel: Channel)
    requires
        p.keeps_channel(channel.id),
    ensures
        after_insert_channel(p, v, channel).channels.contains_key(channel.id.0),
        after_insert_channel(p, v, channel).channels[channel.id.0] == channel,
        match channel.guild_id {
            Some(g) => after_insert_channel(p, v, channel).guild_channels[g.0].contains(channel.id.0),
            None => true,
        },
{
    match channel.guild_id {
        Some(g) => {
            let prior = if v.guild_channels.contains_key(g.0) { v.guild_channels[g.0] } else { Seq::empty() };
            assert(prior.push(channel.id.0)[prior.len() as int] == channel.id.0);
        },
        None => {},
    }
}

/// Inserting a channel lists no channel twice: when no guild's channel list
/// holds an ID twice before, none does after, so re-inserting a channel
/// leaves its guild's list as it was.
pub proof fn law_insert_channel_keeps_lists_distinct<P: CachePolicy>(
    p: P,
    v: CacheView,
    channel: Channel,
)
    requires
        forall|g: u64| #[trigger] v.guild_channels.contains_key(g) ==> v.guild_channels[g].no_duplicates(),
    ensures
        forall|g: u64| #[trigger] after_insert_channel(p, v, channel).guild_channels.contains_key(g)
            ==> after_insert_channel(p, v, channel).guild_channels[g].no_duplicates(),
        match channel.guild_id {
            Some(g) => v.guild_channels.contains_key(g.0) && v.guild_channels[g.0].contains(channel.id.0)
                ==> after_insert_channel(p, v, channel).guild_channels[g.0] == v.guild_channels[g.0],
            None => true,
        },
{
    if p.keeps_channel(channel.id) {
        match channel.guild_id {
            Some(g) => {
                let prior = channel_list_of(v.guild_channels, g.0);
                let c = channel.id.0;
                assert(prior.no_duplicates());
                if !prior.contains(c) {
                    let l = prior.push(c);
                    assert forall|i: int, j: int| 0 <= i < l.len() && 0 <= j < l.len() && i != j
                        implies l[i] != l[j] by {
                        if i < prior.len() && j < prior.len() {
                        } else if i == prior.len() {
                            assert(l[j] == prior[j]);
                        } else {
                            assert(l[i] == prior[i]);
                        }
                    }
                }
            },
            None => {},
        }
    }
}

/// Removing a cached channel removes it, its messages, and its ID from its
/// guild's channel list.
pub proof fn law_remove_channel_leaves_guild_list(v: CacheView, c: u64)
    requires
        v.channels.contains_key(c),
    ensures
        !after_remove_channel(v, c).channels.contains_key(c),
        !after_remove_channel(v, c).messages.contains_key(c),
        match v.channels[c].guild_id {
            Some(g) => v.guild_channels.contains_key(g.0) ==> !after_remove_channel(v, c).guild_channels[g.0].contains(c),
            None => true,
        },
{
    match v.channels[c].guild_id {
        Some(g) => {
            if v.guild_channels.contains_key(g.0) {
                lemma_seq_without(v.guild_channels[g.0], c, c);
            }
        },
        None => {},
    }
}

/// A member the policy admits can be read back after it is inserted, under
/// its user's ID.
pub proof fn law_member_insert_then_get<P: CachePolicy>(p: P, v: CacheView, g: GuildId, member: Member)
    requires
        admits_member(p, v, g, member),
    ensures
        table_of(after_insert_member(p, v, g, member).members, g.0).contains_key(member_key(member)),
        after_insert_member(p, v, g, member).members[g.0][member_key(member)] == member,
{
}

/// Inserting a member keeps a guild within the policy's member limit, and
/// updating a member who is already cached leaves the guild's member count
/// as it was.
pub proof fn law_member_limit_kept<P: CachePolicy>(p: P, v: CacheView, g: GuildId, member: Member)
    requires
        table_of(v.members, g.0).dom().finite(),
        p.member_limit() matches Some(max) ==> count_of(v.members, g.0) <= max,
    ensures
        p.member_limit() matches Some(max) ==> count_of(after_insert_member(p, v, g, member).members, g.0)
            <= max,
        table_of(v.members, g.0).contains_key(member_key(member)) ==> count_of(
            after_insert_member(p, v, g, member).members,
            g.0,
        ) == count_of(v.members, g.0),
{
    let t = table_of(v.members, g.0);
    let k = member_key(member);
    assert(count_of(v.members, g.0) == t.len());
    if admits_member(p, v, g, member) {
        let after = after_insert_member(p, v, g, member);
        assert(after.members[g.0] == t.insert(k, member));
        assert(count_of(after.members, g.0) == t.insert(k, member).len());
        if t.contains_key(k) {
            assert(t.insert(k, member).dom() =~= t.dom());
        } else {
            assert(t.insert(k, member).dom() =~= t.dom().insert(k));
        }
    }
}

/// Putting an entry in an LRU list keeps its keys unique and its length
/// within the capacity, and the entry can be read back.
pub proof fn lemma_lru_put(s: Seq<(u64, Message)>, cap: nat, k: u64, v: Message)
    requires
        lru_keys_unique(s),
        s.len() <= cap,
        cap >= 1,
    ensures
        lru_keys_unique(lru_put(s, cap, k, v)),
        lru_put(s, cap, k, v).len() <= cap,
        lru_get(lru_put(s, cap, k, v), k) == Some(v),
{
    let rest = if lru_has(s, k) {
        s.remove(lru_index(s, k))
    } else if s.len() == cap {
        s.drop_last()
    } else {
        s
    };
    let r = lru_put(s, cap, k, v);
    assert(r =~= seq![(k, v)] + rest);
    // entry `j` of `rest` is entry `pos(j)` of `s`, which does not have key `k`
    let has = lru_has(s, k);
    let i = lru_index(s, k);
    let pos = |j: int| if has && j >= i { j + 1 } else { j };
    assert forall|j: int| 0 <= j < rest.len() implies 0 <= #[trigger] pos(j) < s.len() && rest[j] == s[pos(j)]
        && s[pos(j)].0 != k by {
        if has && pos(j) != i {
            assert(s[i].0 == k);
            if pos(j) < i {
                assert(s[pos(j)].0 != s[i].0);
            } else {
                assert(s[i].0 != s[pos(j)].0);
            }
        }
    }
    assert forall|a: int, b: int| 0 <= a < b < r.len() implies #[trigger] r[a].0 != #[trigger] r[b].0 by {
        assert(r[b] == rest[b - 1]);
        assert(0 <= pos(b - 1) < s.len());
        if a > 0 {
            assert(r[a] == rest[a - 1]);
            assert(0 <= pos(a - 1) < s.len());
            assert(s[pos(a - 1)].0 != s[pos(b - 1)].0);
        }
    }
    assert(r[0].0 == k);
    assert(lru_has(r, k));
    let idx = lru_index(r, k);
    if idx != 0 {
        assert(r[0].0 != r[idx].0);
    }
}

/// After a message leaves its list, reading it gives nothing.
pub proof fn law_message_pop_then_get(s: Seq<(u64, Message)>, k: u64)
    requires
        lru_keys_unique(s),
    ensures
        lru_get(lru_pop(s, k), k) is None,
{
    if lru_has(s, k) {
        let i = lru_index(s, k);
        let r = s.remove(i);
        if lru_has(r, k) {
            let j = choose|j: int| 0 <= j < r.len() && #[trigger] r[j].0 == k;
            let sj = if j < i { j } else { j + 1 };
            assert(r[j] == s[sj]);
            if sj < i {
                assert(s[sj].0 != s[i].0);
            } else {
                assert(s[i].0 != s[sj].0);
            }
        }
    }
}

/// A full list that takes a new message drops its least recently used one
/// (the last) and keeps every other.
pub proof fn law_full_list_evicts_least_recent(s: Seq<(u64, Message)>, cap: nat, k: u64, v: Message)
    requires
        lru_keys_unique(s),
        s.len() == cap,
        cap >= 1,
        !lru_has(s, k),
    ensures
        !lru_has(lru_put(s, cap, k, v), s.last().0),
        forall|i: int| 0 <= i < s.len() - 1 ==> lru_has(lru_put(s, cap, k, v), #[trigger] s[i].0),
{
    let r = lru_put(s, cap, k, v);
    assert(r =~= seq![(k, v)] + s.drop_last());
    assert(s[s.len() - 1].0 != k);
    if lru_has(r, s.last().0) {
        let j = choose|j: int| 0 <= j < r.len() && #[trigger] r[j].0 == s.last().0;
        if j > 0 {
            assert(r[j] == s[j - 1]);
            assert(s[j - 1].0 != s[s.len() - 1].0);
        }
    }
    assert forall|i: int| 0 <= i < s.len() - 1 implies lru_has(r, #[trigger] s[i].0) by {
        assert(r[i + 1] == s[i]);
    }
}

/// Removing an entry from an LRU list keeps its keys unique and does not
/// make it longer.
pub proof fn lemma_lru_pop(s: Seq<(u64, Message)>, k: u64)
    requires
        lru_keys_unique(s),
    ensures
        lru_keys_unique(lru_pop(s, k)),
        lru_pop(s, k).len() <= s.len(),
{
    if lru_has(s, k) {
        let i = lru_index(s, k);
        let r = s.remove(i);
        assert forall|a: int, b: int| 0 <= a < b < r.len() implies #[trigger] r[a].0 != #[trigger] r[b].0 by {
            let ma = if a < i { a } else { a + 1 };
            let mb = if b < i { b } else { b + 1 };
            assert(r[a] == s[ma]);
            assert(r[b] == s[mb]);
        }
    }
}

impl Cache<FullPolicy> {
    /// Create a new cache with the default policy: keep everything, up to
    /// 1000 messages per channel.
    pub fn new() -> (r: Self)
        ensures
            r.wf(),
            r@ == empty_view(),
            r.policy().max_messages == 1000,
    {
        Self::with_policy(FullPolicy::default())
    }
}

impl Default for Cache<FullPolicy> {
    fn default() -> (r: Self)
        ensures
            r.wf(),
            r@ == empty_view(),
            r.policy().max_messages == 1000,
    {
        Self::new()
    }
}

} // verus!
