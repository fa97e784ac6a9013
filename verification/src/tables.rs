//! The concurrent maps and LRU lists that hold the cache's data.
//!
//! The cache keeps its entries in `dashmap::DashMap`s (and, for messages, one
//! `lru::LruCache` per channel). Each kind of table has a name for its
//! contents, a map of plain values, and each operation the cache performs on
//! it is a small trusted function whose contract says, over that name, what
//! the operation does to the contents and what it returns.
use vstd::prelude::*;
use std::num::NonZeroUsize;
use std::sync::Arc;
use dashmap::DashMap;
use lru::LruCache;
use crate::channel::Channel;
use crate::guild::{Guild, Member, Role};
use crate::message::Message;
use crate::user::User;

verus! {

#[verifier::external_type_specification]
#[verifier::external_body]
#[verifier::reject_recursive_types(K)]
#[verifier::reject_recursive_types(V)]
#[verifier::reject_recursive_types(S)]
pub struct ExDashMap<K, V, S>(DashMap<K, V, S>);

#[verifier::external_type_specification]
#[verifier::external_body]
#[verifier::reject_recursive_types(K)]
#[verifier::reject_recursive_types(V)]
#[verifier::reject_recursive_types(S)]
pub struct ExLruCache<K, V, S>(LruCache<K, V, S>);

#[verifier::external_type_specification]
#[verifier::external_body]
pub struct ExLruHasher(lru::DefaultHasher);

/// Guild table: guild ID to guild.
pub type GuildTable = DashMap<u64, Arc<Guild>>;
/// Channel table: channel ID to channel.
pub type ChannelTable = DashMap<u64, Arc<Channel>>;
/// User table: user ID to user.
pub type UserTable = DashMap<u64, Arc<User>>;
/// Member tables: guild ID to (user ID to member).
pub type MemberTable = DashMap<u64, DashMap<u64, Arc<Member>>>;
/// Role tables: guild ID to (role ID to role).
pub type RoleTable = DashMap<u64, DashMap<u64, Arc<Role>>>;
/// Message lists: channel ID to an LRU list of (message ID, message).
pub type MessageTable = DashMap<u64, LruCache<u64, Arc<Message>>>;
/// Channel lists: guild ID to the IDs of its channels.
pub type ChannelListTable = DashMap<u64, Vec<u64>>;
/// Direct-message channels: user ID to channel ID.
pub type DmTable = DashMap<u64, u64>;

/// What a guild table holds.
pub uninterp spec fn guild_entries(t: GuildTable) -> Map<u64, Guild>;
/// What a channel table holds.
pub uninterp spec fn channel_entries(t: ChannelTable) -> Map<u64, Channel>;
/// What a user table holds.
pub uninterp spec fn user_entries(t: UserTable) -> Map<u64, User>;
/// What the member tables hold, per guild.
pub uninterp spec fn member_entries(t: MemberTable) -> Map<u64, Map<u64, Member>>;
/// What the role tables hold, per guild.
pub uninterp spec fn role_entries(t: RoleTable) -> Map<u64, Map<u64, Role>>;
/// What the message lists hold, per channel, most recently used first.
pub uninterp spec fn message_entries(t: MessageTable) -> Map<u64, Seq<(u64, Message)>>;
/// The capacity each channel's message list was made with.
pub uninterp spec fn message_capacities(t: MessageTable) -> Map<u64, nat>;
/// What the channel lists hold, per guild.
pub uninterp spec fn channel_list_entries(t: ChannelListTable) -> Map<u64, Seq<u64>>;
/// What the direct-message table holds.
pub uninterp spec fn dm_entries(t: DmTable) -> Map<u64, u64>;

// ---------- LRU lists ----------

/// Whether an LRU list holds the key `k`.
pub open spec fn lru_has(s: Seq<(u64, Message)>, k: u64) -> bool {
    exists|i: int| 0 <= i < s.len() && #[trigger] s[i].0 == k
}

/// The position of the key `k` in an LRU list that holds it.
pub open spec fn lru_index(s: Seq<(u64, Message)>, k: u64) -> int {
    choose|i: int| 0 <= i < s.len() && #[trigger] s[i].0 == k
}

/// The value an LRU list holds for `k`, without changing its order.
pub open spec fn lru_get(s: Seq<(u64, Message)>, k: u64) -> Option<Message> {
    if lru_has(s, k) {
        Some(s[lru_index(s, k)].1)
    } else {
        None
    }
}

/// An LRU list after putting `(k, v)`: the pair moves to the front; an entry
/// with the same key leaves, and when the list is full and has no such entry,
/// the least recently used entry (the last) leaves.
pub open spec fn lru_put(s: Seq<(u64, Message)>, cap: nat, k: u64, v: Message) -> Seq<(u64, Message)> {
    seq![(k, v)] + if lru_has(s, k) {
        s.remove(lru_index(s, k))
    } else if s.len() == cap {
        s.drop_last()
    } else {
        s
    }
}

/// An LRU list after removing the entry with key `k`, if there is one.
pub open spec fn lru_pop(s: Seq<(u64, Message)>, k: u64) -> Seq<(u64, Message)> {
    if lru_has(s, k) {
        s.remove(lru_index(s, k))
    } else {
        s
    }
}

/// No key occurs twice in an LRU list.
pub open spec fn lru_keys_unique(s: Seq<(u64, Message)>) -> bool {
    forall|i: int, j: int| 0 <= i < j < s.len() ==> #[trigger] s[i].0 != #[trigger] s[j].0
}

/// The keys of a table, listed in the order a walk over it gives: each key
/// of the domain once.
pub open spec fn lists_keys_of<V>(ks: Seq<u64>, m: Map<u64, V>) -> bool {
    &&& ks.no_duplicates()
    &&& forall|k: u64| #[trigger] m.contains_key(k) <==> ks.contains(k)
}

/// Pairs read out of a table in the order a walk over it gives: each entry
/// once.
pub open spec fn lists_entries_of<V>(ps: Seq<(u64, V)>, m: Map<u64, V>) -> bool {
    &&& forall|i: int, j: int| 0 <= i < j < ps.len() ==> #[trigger] ps[i].0 != #[trigger] ps[j].0
    &&& forall|i: int| 0 <= i < ps.len() ==> #[trigger] m.contains_key(ps[i].0) && m[ps[i].0] == ps[i].1
    &&& forall|k: u64| #[trigger] m.contains_key(k) ==> exists|i: int| 0 <= i < ps.len() && #[trigger] ps[i].0 == k
}

// ---------- guilds ----------

/// `DashMap::new`: an empty guild table.
#[verifier::external_body]
pub(crate) fn guilds_new() -> (t: GuildTable)
    ensures
        guild_entries(t).dom().is_empty(),
{
    DashMap::new()
}

/// `DashMap::get` on the guild table: the guild stored under `id`, if any.
#[verifier::external_body]
pub(crate) fn guilds_get(t: &GuildTable, id: u64) -> (r: Option<Arc<Guild>>)
    ensures
        r is Some <==> guild_entries(*t).contains_key(id),
        r matches Some(g) ==> *g == guild_entries(*t)[id],
{
    match t.get(&id) {
        Some(g) => Some(Arc::clone(g.value())),
        None => None,
    }
}

/// `DashMap::insert` on the guild table: stores `g` under `id`.
#[verifier::external_body]
pub(crate) fn guilds_insert(t: &mut GuildTable, id: u64, g: Arc<Guild>)
    ensures
        guild_entries(*final(t)) == guild_entries(*old(t)).insert(id, *g),
{
    t.insert(id, g);
}

/// `DashMap::remove` on the guild table: drops the entry for `id`.
#[verifier::external_body]
pub(crate) fn guilds_remove(t: &mut GuildTable, id: u64)
    ensures
        guild_entries(*final(t)) == guild_entries(*old(t)).remove(id),
{
    t.remove(&id);
}

/// `DashMap::len` on the guild table.
#[verifier::external_body]
pub(crate) fn guilds_len(t: &GuildTable) -> (r: usize)
    ensures
        r == guild_entries(*t).len(),
{
    t.len()
}

/// `DashMap::clear` on the guild table.
#[verifier::external_body]
pub(crate) fn guilds_clear(t: &mut GuildTable)
    ensures
        guild_entries(*final(t)).dom().is_empty(),
{
    t.clear()
}

/// `DashMap::iter` on the guild table: every entry once, in the table's order.
#[verifier::external_body]
pub(crate) fn guilds_entries(t: &GuildTable) -> (r: Vec<(u64, Arc<Guild>)>)
    ensures
        r@.len() == guild_entries(*t).len(),
        lists_entries_of(r@.map_values(|p: (u64, Arc<Guild>)| (p.0, *p.1)), guild_entries(*t)),
{
    t.iter().map(|e| (*e.key(), Arc::clone(e.value()))).collect()
}

// ---------- channels ----------

/// `DashMap::new`: an empty channel table.
#[verifier::external_body]
pub(crate) fn channels_new() -> (t: ChannelTable)
    ensures
        channel_entries(t).dom().is_empty(),
{
    DashMap::new()
}

/// `DashMap::get` on the channel table: the channel stored under `id`, if any.
#[verifier::external_body]
pub(crate) fn channels_get(t: &ChannelTable, id: u64) -> (r: Option<Arc<Channel>>)
    ensures
        r is Some <==> channel_entries(*t).contains_key(id),
        r matches Some(c) ==> *c == channel_entries(*t)[id],
{
    match t.get(&id) {
        Some(c) => Some(Arc::clone(c.value())),
        None => None,
    }
}

/// `DashMap::insert` on the channel table: stores `c` under `id`.
#[verifier::external_body]
pub(crate) fn channels_insert(t: &mut ChannelTable, id: u64, c: Arc<Channel>)
    ensures
        channel_entries(*final(t)) == channel_entries(*old(t)).insert(id, *c),
{
    t.insert(id, c);
}

/// `DashMap::remove` on the channel table: drops the entry for `id` and
/// returns the channel it held.
#[verifier::external_body]
pub(crate) fn channels_remove(t: &mut ChannelTable, id: u64) -> (r: Option<Arc<Channel>>)
    ensures
        channel_entries(*final(t)) == channel_entries(*old(t)).remove(id),
        r is Some <==> channel_entries(*old(t)).contains_key(id),
        r matches Some(c) ==> *c == channel_entries(*old(t))[id],
{
    match t.remove(&id) {
        Some((_, c)) => Some(c),
        None => None,
    }
}

/// `DashMap::len` on the channel table.
#[verifier::external_body]
pub(crate) fn channels_len(t: &ChannelTable) -> (r: usize)
    ensures
        r == channel_entries(*t).len(),
{
    t.len()
}

/// `DashMap::clear` on the channel table.
#[verifier::external_body]
pub(crate) fn channels_clear(t: &mut ChannelTable)
    ensures
        channel_entries(*final(t)).dom().is_empty(),
{
    t.clear()
}

// ---------- users ----------

/// `DashMap::new`: an empty user table.
#[verifier::external_body]
pub(crate) fn users_new() -> (t: UserTable)
    ensures
        user_entries(t).dom().is_empty(),
{
    DashMap::new()
}

/// `DashMap::get` on the user table: the user stored under `id`, if any.
#[verifier::external_body]
pub(crate) fn users_get(t: &UserTable, id: u64) -> (r: Option<Arc<User>>)
    ensures
        r is Some <==> user_entries(*t).contains_key(id),
        r matches Some(u) ==> *u == user_entries(*t)[id],
{
    match t.get(&id) {
        Some(u) => Some(Arc::clone(u.value())),
        None => None,
    }
}

/// `DashMap::insert` on the user table: stores `u` under `id`.
#[verifier::external_body]
pub(crate) fn users_insert(t: &mut UserTable, id: u64, u: Arc<User>)
    ensures
        user_entries(*final(t)) == user_entries(*old(t)).insert(id, *u),
{
    t.insert(id, u);
}

/// `DashMap::len` on the user table.
#[verifier::external_body]
pub(crate) fn users_len(t: &UserTable) -> (r: usize)
    ensures
        r == user_entries(*t).len(),
{
    t.len()
}

/// `DashMap::clear` on the user table.
#[verifier::external_body]
pub(crate) fn users_clear(t: &mut UserTable)
    ensures
        user_entries(*final(t)).dom().is_empty(),
{
    t.clear()
}


// ---------- members ----------

/// `DashMap::new`: empty member tables.
#[verifier::external_body]
pub(crate) fn members_new() -> (t: MemberTable)
    ensures
        member_entries(t).dom().is_empty(),
{
    DashMap::new()
}

/// `DashMap::contains_key` on the member tables: whether guild `g` has a table.
#[verifier::external_body]
pub(crate) fn members_has_guild(t: &MemberTable, g: u64) -> (r: bool)
    ensures
        r == member_entries(*t).contains_key(g),
{
    t.contains_key(&g)
}

/// `DashMap::insert` of a new, empty `DashMap` for guild `g`.
#[verifier::external_body]
pub(crate) fn members_add_guild(t: &mut MemberTable, g: u64)
    ensures
        member_entries(*final(t)) == member_entries(*old(t)).insert(g, Map::empty()),
{
    t.insert(g, DashMap::new());
}

/// `DashMap::remove` of guild `g`'s table.
#[verifier::external_body]
pub(crate) fn members_remove_guild(t: &mut MemberTable, g: u64)
    ensures
        member_entries(*final(t)) == member_entries(*old(t)).remove(g),
{
    t.remove(&g);
}

/// `DashMap::get` of guild `g`'s table, then `DashMap::get` of `user` in it.
#[verifier::external_body]
pub(crate) fn members_get(t: &MemberTable, g: u64, user: u64) -> (r: Option<Arc<Member>>)
    requires
        member_entries(*t).contains_key(g),
    ensures
        r is Some <==> member_entries(*t)[g].contains_key(user),
        r matches Some(x) ==> *x == member_entries(*t)[g][user],
{
    match t.get(&g) {
        Some(inner) => match inner.get(&user) {
            Some(x) => Some(Arc::clone(x.value())),
            None => None,
        },
        None => None,
    }
}

/// `DashMap::get` of guild `g`'s table, then `DashMap::insert` of `x` under
/// `user` in it.
#[verifier::external_body]
pub(crate) fn members_insert(t: &mut MemberTable, g: u64, user: u64, x: Arc<Member>)
    requires
        member_entries(*old(t)).contains_key(g),
    ensures
        member_entries(*final(t)) == member_entries(*old(t)).insert(g, member_entries(*old(t))[g].insert(user, *x)),
{
    if let Some(inner) = t.get(&g) {
        inner.insert(user, x);
    }
}

/// `DashMap::get` of guild `g`'s table, then `DashMap::remove` of `user` in it.
#[verifier::external_body]
pub(crate) fn members_remove(t: &mut MemberTable, g: u64, user: u64)
    requires
        member_entries(*old(t)).contains_key(g),
    ensures
        member_entries(*final(t)) == member_entries(*old(t)).insert(g, member_entries(*old(t))[g].remove(user)),
{
    if let Some(inner) = t.get(&g) {
        inner.remove(&user);
    }
}

/// `DashMap::get` of guild `g`'s table, then `DashMap::len` of it.
#[verifier::external_body]
pub(crate) fn members_len(t: &MemberTable, g: u64) -> (r: usize)
    requires
        member_entries(*t).contains_key(g),
    ensures
        r == member_entries(*t)[g].len(),
{
    match t.get(&g) {
        Some(inner) => inner.len(),
        None => 0,
    }
}

/// `DashMap::get` of guild `g`'s table, then `DashMap::iter` over it: every
/// entry once, in the table's order.
#[verifier::external_body]
pub(crate) fn members_entries(t: &MemberTable, g: u64) -> (r: Vec<(u64, Arc<Member>)>)
    requires
        member_entries(*t).contains_key(g),
    ensures
        r@.len() == member_entries(*t)[g].len(),
        lists_entries_of(r@.map_values(|p: (u64, Arc<Member>)| (p.0, *p.1)), member_entries(*t)[g]),
{
    match t.get(&g) {
        Some(inner) => inner.iter().map(|e| (*e.key(), Arc::clone(e.value()))).collect(),
        None => Vec::new(),
    }
}

/// `DashMap::iter` over the member tables, reading each guild ID once.
#[verifier::external_body]
pub(crate) fn members_guilds(t: &MemberTable) -> (r: Vec<u64>)
    ensures
        lists_keys_of(r@, member_entries(*t)),
{
    t.iter().map(|e| *e.key()).collect()
}

/// `DashMap::clear` on the member tables.
#[verifier::external_body]
pub(crate) fn members_clear(t: &mut MemberTable)
    ensures
        member_entries(*final(t)).dom().is_empty(),
{
    t.clear()
}

// ---------- roles ----------

/// `DashMap::new`: empty role tables.
#[verifier::external_body]
pub(crate) fn roles_new() -> (t: RoleTable)
    ensures
        role_entries(t).dom().is_empty(),
{
    DashMap::new()
}

/// `DashMap::contains_key` on the role tables: whether guild `g` has a table.
#[verifier::external_body]
pub(crate) fn roles_has_guild(t: &RoleTable, g: u64) -> (r: bool)
    ensures
        r == role_entries(*t).contains_key(g),
{
    t.contains_key(&g)
}

/// `DashMap::insert` of a new, empty `DashMap` for guild `g`.
#[verifier::external_body]
pub(crate) fn roles_add_guild(t: &mut RoleTable, g: u64)
    ensures
        role_entries(*final(t)) == role_entries(*old(t)).insert(g, Map::empty()),
{
    t.insert(g, DashMap::new());
}

/// `DashMap::remove` of guild `g`'s table.
#[verifier::external_body]
pub(crate) fn roles_remove_guild(t: &mut RoleTable, g: u64)
    ensures
        role_entries(*final(t)) == role_entries(*old(t)).remove(g),
{
    t.remove(&g);
}

/// `DashMap::get` of guild `g`'s table, then `DashMap::get` of `role` in it.
#[verifier::external_body]
pub(crate) fn roles_get(t: &RoleTable, g: u64, role: u64) -> (r: Option<Arc<Role>>)
    requires
        role_entries(*t).contains_key(g),
    ensures
        r is Some <==> role_entries(*t)[g].contains_key(role),
        r matches Some(x) ==> *x == role_entries(*t)[g][role],
{
    match t.get(&g) {
        Some(inner) => match inner.get(&role) {
            Some(x) => Some(Arc::clone(x.value())),
            None => None,
        },
        None => None,
    }
}

/// `DashMap::get` of guild `g`'s table, then `DashMap::insert` of `x` under
/// `role` in it.
#[verifier::external_body]
pub(crate) fn roles_insert(t: &mut RoleTable, g: u64, role: u64, x: Arc<Role>)
    requires
        role_entries(*old(t)).contains_key(g),
    ensures
        role_entries(*final(t)) == role_entries(*old(t)).insert(g, role_entries(*old(t))[g].insert(role, *x)),
{
    if let Some(inner) = t.get(&g) {
        inner.insert(role, x);
    }
}

/// `DashMap::get` of guild `g`'s table, then `DashMap::remove` of `role` in it.
#[verifier::external_body]
pub(crate) fn roles_remove(t: &mut RoleTable, g: u64, role: u64)
    requires
        role_entries(*old(t)).contains_key(g),
    ensures
        role_entries(*final(t)) == role_entries(*old(t)).insert(g, role_entries(*old(t))[g].remove(role)),
{
    if let Some(inner) = t.get(&g) {
        inner.remove(&role);
    }
}

/// `DashMap::get` of guild `g`'s table, then `DashMap::len` of it.
#[verifier::external_body]
pub(crate) fn roles_len(t: &RoleTable, g: u64) -> (r: usize)
    requires
        role_entries(*t).contains_key(g),
    ensures
        r == role_entries(*t)[g].len(),
{
    match t.get(&g) {
        Some(inner) => inner.len(),
        None => 0,
    }
}

/// `DashMap::get` of guild `g`'s table, then `DashMap::iter` over it: every
/// entry once, in the table's order.
#[verifier::external_body]
pub(crate) fn roles_entries(t: &RoleTable, g: u64) -> (r: Vec<(u64, Arc<Role>)>)
    requires
        role_entries(*t).contains_key(g),
    ensures
        r@.len() == role_entries(*t)[g].len(),
        lists_entries_of(r@.map_values(|p: (u64, Arc<Role>)| (p.0, *p.1)), role_entries(*t)[g]),
{
    match t.get(&g) {
        Some(inner) => inner.iter().map(|e| (*e.key(), Arc::clone(e.value()))).collect(),
        None => Vec::new(),
    }
}

/// `DashMap::iter` over the role tables, reading each guild ID once.
#[verifier::external_body]
pub(crate) fn roles_guilds(t: &RoleTable) -> (r: Vec<u64>)
    ensures
        lists_keys_of(r@, role_entries(*t)),
{
    t.iter().map(|e| *e.key()).collect()
}

/// `DashMap::clear` on the role tables.
#[verifier::external_body]
pub(crate) fn roles_clear(t: &mut RoleTable)
    ensures
        role_entries(*final(t)).dom().is_empty(),
{
    t.clear()
}

// ---------- messages ----------

/// `DashMap::new`: empty message lists.
#[verifier::external_body]
pub(crate) fn messages_new() -> (t: MessageTable)
    ensures
        message_entries(t).dom().is_empty(),
        message_capacities(t).dom().is_empty(),
{
    DashMap::new()
}

/// `DashMap::contains_key`: whether channel `ch` has a message list.
#[verifier::external_body]
pub(crate) fn messages_has_channel(t: &MessageTable, ch: u64) -> (r: bool)
    ensures
        r == message_entries(*t).contains_key(ch),
        r == message_capacities(*t).contains_key(ch),
{
    t.contains_key(&ch)
}

/// `DashMap::insert` of a new `LruCache` of capacity `cap` for channel `ch`.
#[verifier::external_body]
pub(crate) fn messages_add_channel(t: &mut MessageTable, ch: u64, cap: usize)
    requires
        cap > 0,
    ensures
        message_entries(*final(t)) == message_entries(*old(t)).insert(ch, Seq::empty()),
        message_capacities(*final(t)) == message_capacities(*old(t)).insert(ch, cap as nat),
{
    match NonZeroUsize::new(cap) {
        Some(c) => {
            t.insert(ch, LruCache::new(c));
        },
        None => {},
    }
}

/// `DashMap::get`, then `LruCache::peek`: the message `id` of channel `ch`,
/// without changing the list's order.
#[verifier::external_body]
pub(crate) fn messages_peek(t: &MessageTable, ch: u64, id: u64) -> (r: Option<Arc<Message>>)
    requires
        message_entries(*t).contains_key(ch),
    ensures
        r is Some <==> lru_get(message_entries(*t)[ch], id) is Some,
        r matches Some(m) ==> lru_get(message_entries(*t)[ch], id) == Some(*m),
{
    match t.get(&ch) {
        Some(list) => list.peek(&id).cloned(),
        None => None,
    }
}

/// `DashMap::get_mut`, then `LruCache::put` of `(id, m)` in channel `ch`'s list.
#[verifier::external_body]
pub(crate) fn messages_put(t: &mut MessageTable, ch: u64, id: u64, m: Arc<Message>)
    requires
        message_entries(*old(t)).contains_key(ch),
    ensures
        message_entries(*final(t)) == message_entries(*old(t)).insert(
            ch,
            lru_put(message_entries(*old(t))[ch], message_capacities(*old(t))[ch], id, *m),
        ),
        message_capacities(*final(t)) == message_capacities(*old(t)),
{
    if let Some(mut list) = t.get_mut(&ch) {
        list.put(id, m);
    }
}

/// `DashMap::get_mut`, then `LruCache::pop` of `id` from channel `ch`'s list.
#[verifier::external_body]
pub(crate) fn messages_pop(t: &mut MessageTable, ch: u64, id: u64)
    requires
        message_entries(*old(t)).contains_key(ch),
    ensures
        message_entries(*final(t)) == message_entries(*old(t)).insert(
            ch,
            lru_pop(message_entries(*old(t))[ch], id),
        ),
        message_capacities(*final(t)) == message_capacities(*old(t)),
{
    if let Some(mut list) = t.get_mut(&ch) {
        list.pop(&id);
    }
}

/// `DashMap::get`, then `LruCache::len` of channel `ch`'s list.
#[verifier::external_body]
pub(crate) fn messages_len(t: &MessageTable, ch: u64) -> (r: usize)
    requires
        message_entries(*t).contains_key(ch),
    ensures
        r == message_entries(*t)[ch].len(),
{
    match t.get(&ch) {
        Some(list) => list.len(),
        None => 0,
    }
}

/// `DashMap::remove` of channel `ch`'s list.
#[verifier::external_body]
pub(crate) fn messages_remove_channel(t: &mut MessageTable, ch: u64)
    ensures
        message_entries(*final(t)) == message_entries(*old(t)).remove(ch),
        message_capacities(*final(t)) == message_capacities(*old(t)).remove(ch),
{
    t.remove(&ch);
}

/// `DashMap::iter` over the message lists, reading each channel ID once.
#[verifier::external_body]
pub(crate) fn messages_channels(t: &MessageTable) -> (r: Vec<u64>)
    ensures
        lists_keys_of(r@, message_entries(*t)),
{
    t.iter().map(|e| *e.key()).collect()
}

/// `DashMap::clear` on the message lists.
#[verifier::external_body]
pub(crate) fn messages_clear(t: &mut MessageTable)
    ensures
        message_entries(*final(t)).dom().is_empty(),
        message_capacities(*final(t)).dom().is_empty(),
{
    t.clear()
}

// ---------- channel lists ----------

/// `DashMap::new`: empty channel lists.
#[verifier::external_body]
pub(crate) fn channel_lists_new() -> (t: ChannelListTable)
    ensures
        channel_list_entries(t).dom().is_empty(),
{
    DashMap::new()
}

/// `DashMap::contains_key`: whether guild `g` has a channel list.
#[verifier::external_body]
pub(crate) fn channel_lists_has(t: &ChannelListTable, g: u64) -> (r: bool)
    ensures
        r == channel_list_entries(*t).contains_key(g),
{
    t.contains_key(&g)
}

/// `DashMap::get`: a copy of guild `g`'s channel list, if it has one.
#[verifier::external_body]
pub(crate) fn channel_lists_get(t: &ChannelListTable, g: u64) -> (r: Option<Vec<u64>>)
    ensures
        r is Some <==> channel_list_entries(*t).contains_key(g),
        r matches Some(v) ==> v@ == channel_list_entries(*t)[g],
{
    match t.get(&g) {
        Some(v) => Some(v.value().clone()),
        None => None,
    }
}

/// `DashMap::insert` of the list `ids` for guild `g`.
#[verifier::external_body]
pub(crate) fn channel_lists_insert(t: &mut ChannelListTable, g: u64, ids: Vec<u64>)
    ensures
        channel_list_entries(*final(t)) == channel_list_entries(*old(t)).insert(g, ids@),
{
    t.insert(g, ids);
}

/// `DashMap::get_mut`, then `Vec::push` of `ch` on guild `g`'s list.
#[verifier::external_body]
pub(crate) fn channel_lists_push(t: &mut ChannelListTable, g: u64, ch: u64)
    requires
        channel_list_entries(*old(t)).contains_key(g),
    ensures
        channel_list_entries(*final(t)) == channel_list_entries(*old(t)).insert(
            g,
            channel_list_entries(*old(t))[g].push(ch),
        ),
{
    if let Some(mut v) = t.get_mut(&g) {
        v.push(ch);
    }
}

/// `DashMap::remove` of guild `g`'s list, returning the list it held.
#[verifier::external_body]
pub(crate) fn channel_lists_remove(t: &mut ChannelListTable, g: u64) -> (r: Option<Vec<u64>>)
    ensures
        channel_list_entries(*final(t)) == channel_list_entries(*old(t)).remove(g),
        r is Some <==> channel_list_entries(*old(t)).contains_key(g),
        r matches Some(v) ==> v@ == channel_list_entries(*old(t))[g],
{
    match t.remove(&g) {
        Some((_, v)) => Some(v),
        None => None,
    }
}

/// `DashMap::clear` on the channel lists.
#[verifier::external_body]
pub(crate) fn channel_lists_clear(t: &mut ChannelListTable)
    ensures
        channel_list_entries(*final(t)).dom().is_empty(),
{
    t.clear()
}

// ---------- direct-message channels ----------

/// `DashMap::new`: an empty direct-message table.
#[verifier::external_body]
pub(crate) fn dms_new() -> (t: DmTable)
    ensures
        dm_entries(t).dom().is_empty(),
{
    DashMap::new()
}

/// `DashMap::get`: the direct-message channel of user `u`, if any.
#[verifier::external_body]
pub(crate) fn dms_get(t: &DmTable, u: u64) -> (r: Option<u64>)
    ensures
        r == dm_entries(*t).get(u),
{
    match t.get(&u) {
        Some(c) => Some(*c.value()),
        None => None,
    }
}

/// `DashMap::insert` of channel `ch` for user `u`.
#[verifier::external_body]
pub(crate) fn dms_insert(t: &mut DmTable, u: u64, ch: u64)
    ensures
        dm_entries(*final(t)) == dm_entries(*old(t)).insert(u, ch),
{
    t.insert(u, ch);
}

/// `DashMap::clear` on the direct-message table.
#[verifier::external_body]
pub(crate) fn dms_clear(t: &mut DmTable)
    ensures
        dm_entries(*final(t)).dom().is_empty(),
{
    t.clear()
}

} // verus!
