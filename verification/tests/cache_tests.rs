use ferricord::events::{HandlerCall, event_key, handler_call};
use ferricord::channel::Channel;
use ferricord::events::{HandlerArg, HandlerName, handler_args, handler_for};
use ferricord::gateway::{GatewayEvent, GuildMemberRemoveEvent, UnavailableGuild};
use ferricord::guild::{Guild, Member, Role};
use ferricord::id::{ChannelId, GuildId, MessageId, RoleId, UserId};
use ferricord::message::Message;
use ferricord::permissions::Permissions;
use ferricord::policy::{CachePolicy, CustomPolicyBuilder, NonePolicy, PartialPolicy};
use ferricord::store::{Cache, CacheStats};
use ferricord::user::User;

fn user(id: u64) -> User {
    User {
        id: UserId::new(id),
        username: format!("user{}", id),
        discriminator: "0".to_string(),
        global_name: None,
        avatar: None,
        bot: false,
        system: false,
        mfa_enabled: None,
        banner: None,
        accent_color: None,
        locale: None,
        verified: None,
        email: None,
        flags: None,
        premium_type: None,
        public_flags: None,
        avatar_decoration: None,
    }
}

fn role(id: u64) -> Role {
    Role {
        id: RoleId::new(id),
        name: format!("role{}", id),
        color: 0,
        hoist: false,
        icon: None,
        unicode_emoji: None,
        position: 0,
        permissions: Permissions::empty(),
        managed: false,
        mentionable: false,
        tags: None,
        flags: 0,
    }
}

fn guild(id: u64, roles: Vec<Role>) -> Guild {
    Guild {
        id: GuildId::new(id),
        name: format!("guild{}", id),
        icon: None,
        icon_hash: None,
        splash: None,
        discovery_splash: None,
        owner: false,
        owner_id: UserId::new(1),
        permissions: None,
        afk_channel_id: None,
        afk_timeout: 0,
        widget_enabled: None,
        widget_channel_id: None,
        verification_level: Default::default(),
        default_message_notifications: Default::default(),
        explicit_content_filter: Default::default(),
        roles,
        emojis: Vec::new(),
        features: Vec::new(),
        mfa_level: Default::default(),
        application_id: None,
        system_channel_id: None,
        system_channel_flags: 0,
        rules_channel_id: None,
        max_presences: None,
        max_members: None,
        vanity_url_code: None,
        description: None,
        banner: None,
        premium_tier: Default::default(),
        premium_subscription_count: None,
        preferred_locale: "en-US".to_string(),
        public_updates_channel_id: None,
        max_video_channel_users: None,
        max_stage_video_channel_users: None,
        approximate_member_count: None,
        approximate_presence_count: None,
        nsfw_level: Default::default(),
        premium_progress_bar_enabled: false,
        safety_alerts_channel_id: None,
    }
}

fn channel(id: u64, guild_id: Option<u64>) -> Channel {
    Channel {
        id: ChannelId::new(id),
        kind: Default::default(),
        guild_id: guild_id.map(GuildId::new),
        position: None,
        permission_overwrites: Vec::new(),
        name: Some(format!("channel{}", id)),
        topic: None,
        nsfw: false,
        last_message_id: None,
        bitrate: None,
        user_limit: None,
        rate_limit_per_user: None,
        recipients: Vec::new(),
        icon: None,
        owner_id: None,
        application_id: None,
        managed: None,
        parent_id: None,
        last_pin_timestamp: None,
        rtc_region: None,
        video_quality_mode: None,
        message_count: None,
        member_count: None,
        thread_metadata: None,
        member: None,
        default_auto_archive_duration: None,
        permissions: None,
        flags: 0,
        total_message_sent: None,
        available_tags: Vec::new(),
        applied_tags: Vec::new(),
        default_reaction_emoji: None,
        default_thread_rate_limit_per_user: None,
        default_sort_order: None,
        default_forum_layout: None,
    }
}

fn member(user_id: Option<u64>) -> Member {
    Member {
        user: user_id.map(user),
        nick: None,
        avatar: None,
        roles: Vec::new(),
        joined_at: "2024-01-01T00:00:00Z".to_string(),
        premium_since: None,
        deaf: false,
        mute: false,
        flags: 0,
        pending: None,
        permissions: None,
        communication_disabled_until: None,
    }
}

fn message(id: u64, channel_id: u64, content: &str) -> Message {
    Message {
        id: MessageId::new(id),
        channel_id: ChannelId::new(channel_id),
        guild_id: None,
        author: user(1),
        member: None,
        content: content.to_string(),
        timestamp: "2024-01-01T00:00:00Z".to_string(),
        edited_timestamp: None,
        tts: false,
        mention_everyone: false,
        mentions: Vec::new(),
        mention_roles: Vec::new(),
        attachments: Vec::new(),
        embeds: Vec::new(),
        pinned: false,
        webhook_id: None,
        kind: 0,
        flags: None,
    }
}

#[test]
fn guild_insert_then_get() {
    let mut cache = Cache::new();
    cache.insert_guild(guild(10, vec![role(100), role(101)]));
    let g = cache.guild(GuildId::new(10)).unwrap();
    assert_eq!(g.name, "guild10");
    assert_eq!(cache.guild_count(), 1);
    assert_eq!(cache.guilds().len(), 1);
    assert_eq!(cache.role(GuildId::new(10), RoleId::new(101)).unwrap().name, "role101");
    assert_eq!(cache.guild_roles(GuildId::new(10)).len(), 2);
    assert!(cache.guild_channels(GuildId::new(10)).is_empty());
    assert!(cache.guild(GuildId::new(11)).is_none());
}

#[test]
fn none_policy_keeps_nothing() {
    let mut cache = Cache::with_policy(NonePolicy);
    cache.insert_guild(guild(10, vec![role(100)]));
    cache.insert_channel(channel(20, Some(10)));
    cache.insert_member(GuildId::new(10), member(Some(5)));
    cache.insert_message(message(1, 20, "hi"));
    assert_eq!(cache.guild_count(), 0);
    assert!(cache.channel(ChannelId::new(20)).is_none());
    assert_eq!(cache.member_count(GuildId::new(10)), 0);
    assert!(cache.message(ChannelId::new(20), MessageId::new(1)).is_none());
    // the current user is cached whatever the policy
    assert!(cache.current_user().is_none());
}

#[test]
fn remove_guild_drops_its_channels_and_messages() {
    let mut cache = Cache::new();
    cache.insert_guild(guild(10, vec![role(100)]));
    cache.insert_channel(channel(20, Some(10)));
    cache.insert_channel(channel(21, Some(10)));
    cache.insert_channel(channel(30, None));
    cache.insert_message(message(1, 20, "hello"));
    cache.insert_member(GuildId::new(10), member(Some(5)));
    assert_eq!(cache.guild_channels(GuildId::new(10)).len(), 2);
    cache.remove_guild(GuildId::new(10));
    assert!(cache.guild(GuildId::new(10)).is_none());
    assert!(cache.channel(ChannelId::new(20)).is_none());
    assert!(cache.channel(ChannelId::new(21)).is_none());
    assert!(cache.channel(ChannelId::new(30)).is_some());
    assert!(cache.message(ChannelId::new(20), MessageId::new(1)).is_none());
    assert_eq!(cache.member_count(GuildId::new(10)), 0);
    assert!(cache.role(GuildId::new(10), RoleId::new(100)).is_none());
    // the member's user stays cached
    assert!(cache.user(UserId::new(5)).is_some());
}

#[test]
fn remove_channel_leaves_guild_list() {
    let mut cache = Cache::new();
    cache.insert_guild(guild(10, Vec::new()));
    cache.insert_channel(channel(20, Some(10)));
    cache.insert_channel(channel(21, Some(10)));
    cache.insert_message(message(1, 21, "x"));
    cache.remove_channel(ChannelId::new(21));
    let left = cache.guild_channels(GuildId::new(10));
    assert_eq!(left.len(), 1);
    assert_eq!(left[0].id, ChannelId::new(20));
    assert!(cache.message(ChannelId::new(21), MessageId::new(1)).is_none());
}

#[test]
fn messages_are_kept_least_recently_used_first_out() {
    let policy = CustomPolicyBuilder::new().max_messages(2).build();
    let mut cache = Cache::with_policy(policy);
    cache.insert_message(message(1, 20, "one"));
    cache.insert_message(message(2, 20, "two"));
    cache.insert_message(message(3, 20, "three"));
    assert!(cache.message(ChannelId::new(20), MessageId::new(1)).is_none());
    assert_eq!(cache.message(ChannelId::new(20), MessageId::new(3)).unwrap().content, "three");
    // putting an existing message again refreshes it
    cache.insert_message(message(2, 20, "two again"));
    cache.insert_message(message(4, 20, "four"));
    assert!(cache.message(ChannelId::new(20), MessageId::new(3)).is_none());
    assert_eq!(cache.message(ChannelId::new(20), MessageId::new(2)).unwrap().content, "two again");
    assert_eq!(cache.stats().messages, 2);
    cache.remove_message(ChannelId::new(20), MessageId::new(2));
    assert!(cache.message(ChannelId::new(20), MessageId::new(2)).is_none());
    assert_eq!(cache.stats().messages, 1);
}

#[test]
fn zero_message_limit_keeps_no_messages() {
    let policy = CustomPolicyBuilder::new().max_messages(0).build();
    let mut cache = Cache::with_policy(policy);
    cache.insert_message(message(1, 20, "one"));
    assert!(cache.message(ChannelId::new(20), MessageId::new(1)).is_none());
}

#[test]
fn member_limit_is_respected() {
    let policy = PartialPolicy { max_messages: 10, max_members: 2 };
    assert_eq!(policy.max_members_per_guild(), Some(2));
    let mut cache = Cache::with_policy(policy);
    let g = GuildId::new(10);
    cache.insert_member(g, member(Some(1)));
    cache.insert_member(g, member(Some(2)));
    cache.insert_member(g, member(Some(3)));
    assert_eq!(cache.member_count(g), 2);
    assert!(cache.member(g, UserId::new(3)).is_none());
    assert!(cache.user(UserId::new(3)).is_none());
    assert_eq!(cache.guild_members(g).len(), 2);
    cache.remove_member(g, UserId::new(1));
    assert_eq!(cache.member_count(g), 1);
    cache.insert_member(g, member(Some(3)));
    assert!(cache.member(g, UserId::new(3)).is_some());
}

#[test]
fn member_without_user_is_stored_under_zero() {
    let mut cache = Cache::new();
    cache.insert_member(GuildId::new(10), member(None));
    assert!(cache.member(GuildId::new(10), UserId::new(0)).is_some());
}

#[test]
fn roles_insert_and_remove() {
    let mut cache = Cache::new();
    let g = GuildId::new(10);
    cache.insert_role(g, role(5));
    assert!(cache.role(g, RoleId::new(5)).is_some());
    cache.remove_role(g, RoleId::new(5));
    assert!(cache.role(g, RoleId::new(5)).is_none());
    cache.remove_role(GuildId::new(99), RoleId::new(5));
}

#[test]
fn dm_channels_and_users() {
    let mut cache = Cache::new();
    assert!(cache.dm_channel(UserId::new(7)).is_none());
    cache.set_dm_channel(UserId::new(7), ChannelId::new(70));
    assert_eq!(cache.dm_channel(UserId::new(7)), Some(ChannelId::new(70)));
    cache.insert_user(user(7));
    assert_eq!(cache.user(UserId::new(7)).unwrap().username, "user7");
}

#[test]
fn stats_and_clear() {
    let mut cache = Cache::new();
    cache.insert_guild(guild(10, vec![role(1), role(2)]));
    cache.insert_guild(guild(11, vec![role(3)]));
    cache.insert_channel(channel(20, Some(10)));
    cache.insert_member(GuildId::new(10), member(Some(5)));
    cache.insert_member(GuildId::new(11), member(Some(6)));
    cache.insert_message(message(1, 20, "a"));
    let stats = cache.stats();
    assert_eq!(stats.guilds, 2);
    assert_eq!(stats.channels, 1);
    assert_eq!(stats.users, 2);
    assert_eq!(stats.members, 2);
    assert_eq!(stats.roles, 3);
    assert_eq!(stats.messages, 1);
    assert_eq!(
        stats.to_string(),
        "Guilds: 2, Channels: 1, Users: 2, Members: 2, Roles: 3, Messages: 1"
    );
    cache.clear();
    let empty = cache.stats();
    assert_eq!(empty.to_string(), CacheStats::default().to_string());
    assert_eq!(cache.guild_count(), 0);
}

#[test]
fn events_update_the_cache() {
    let mut cache = Cache::new();
    let create = GatewayEvent::GuildCreate(Box::new(guild(10, Vec::new())));
    assert_eq!(handler_for(&create), Some(HandlerName::GuildJoin));
    cache.apply_event(create);
    assert!(cache.guild(GuildId::new(10)).is_some());

    let msg = GatewayEvent::MessageCreate(Box::new(message(1, 20, "hey")));
    assert_eq!(handler_for(&msg).unwrap().name(), "message");
    cache.apply_event(msg);
    assert_eq!(cache.message(ChannelId::new(20), MessageId::new(1)).unwrap().content, "hey");

    let removal = GatewayEvent::GuildMemberRemove(GuildMemberRemoveEvent {
        guild_id: GuildId::new(10),
        user: user(5),
    });
    assert_eq!(handler_for(&removal).unwrap().name(), "member_remove");
    cache.apply_event(removal);

    let delete = GatewayEvent::GuildDelete(UnavailableGuild { id: GuildId::new(10), unavailable: true });
    assert_eq!(handler_for(&delete).unwrap().name(), "guild_remove");
    cache.apply_event(delete);
    assert!(cache.guild(GuildId::new(10)).is_none());

    assert_eq!(handler_for(&GatewayEvent::Resumed), Some(HandlerName::Resumed));
    assert_eq!(handler_for(&GatewayEvent::Reconnect), None);
}

#[test]
fn event_keys_and_handler_calls() {
    assert_eq!(event_key("on_message"), "message");
    assert_eq!(event_key("on_"), "");
    assert_eq!(event_key("ready"), "ready");
    assert_eq!(event_key("xon_ready"), "xon_ready");
    match handler_call(GatewayEvent::MessageCreate(Box::new(message(9, 2, "m")))) {
        Some(HandlerCall::MessageCreate(m)) => assert_eq!(m.content, "m"),
        other => panic!("unexpected {:?}", other),
    }
    assert!(matches!(handler_call(GatewayEvent::Resumed), Some(HandlerCall::Resumed)));
    assert!(handler_call(GatewayEvent::Reconnect).is_none());
    match handler_call(GatewayEvent::Unknown("X".to_string(), serde_json::Value::Null)) {
        Some(HandlerCall::UnknownEvent(name, _)) => assert_eq!(name, "X"),
        other => panic!("unexpected {:?}", other),
    }
}

#[test]
fn none_policy_caches_no_user() {
    let mut cache = Cache::with_policy(NonePolicy);
    cache.insert_user(user(7));
    assert!(cache.user(UserId::new(7)).is_none());
    assert_eq!(cache.stats().users, 0);
}

#[test]
fn reinserting_a_channel_lists_it_once() {
    let mut cache = Cache::new();
    cache.insert_guild(guild(10, Vec::new()));
    cache.insert_channel(channel(20, Some(10)));
    cache.insert_channel(channel(20, Some(10)));
    cache.insert_channel(channel(21, Some(10)));
    let listed = cache.guild_channels(GuildId::new(10));
    assert_eq!(listed.len(), 2);
    assert_eq!(listed[0].id, ChannelId::new(20));
    assert_eq!(listed[1].id, ChannelId::new(21));
}

#[test]
fn member_at_limit_is_still_updated() {
    let policy = PartialPolicy { max_messages: 10, max_members: 2 };
    let mut cache = Cache::with_policy(policy);
    let g = GuildId::new(10);
    cache.insert_member(g, member(Some(1)));
    cache.insert_member(g, member(Some(2)));
    let mut updated = member(Some(2));
    updated.nick = Some("renamed".to_string());
    cache.insert_member(g, updated);
    assert_eq!(cache.member_count(g), 2);
    assert_eq!(cache.member(g, UserId::new(2)).unwrap().nick.as_deref(), Some("renamed"));
}

#[test]
fn handler_arguments_follow_the_event() {
    let msg = GatewayEvent::MessageCreate(Box::new(message(1, 20, "hey")));
    let args = handler_args(&msg);
    assert_eq!(args.len(), 1);
    assert!(matches!(args[0], HandlerArg::Message(m) if m.content == "hey"));
    let removal = GatewayEvent::GuildMemberRemove(GuildMemberRemoveEvent {
        guild_id: GuildId::new(10),
        user: user(5),
    });
    let args = handler_args(&removal);
    assert_eq!(args.len(), 2);
    assert!(matches!(args[0], HandlerArg::Id(10)));
    assert!(matches!(args[1], HandlerArg::User(u) if u.id == UserId::new(5)));
    let delete = GatewayEvent::GuildDelete(UnavailableGuild { id: GuildId::new(10), unavailable: true });
    assert!(matches!(handler_args(&delete)[..], [HandlerArg::Id(10)]));
    assert!(handler_args(&GatewayEvent::Resumed).is_empty());
    assert!(handler_args(&GatewayEvent::Reconnect).is_empty());
}
