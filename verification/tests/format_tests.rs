use ferricord::error::Error;
use ferricord::guild::{Emoji, Member, Role};
use ferricord::id::{ChannelId, EmojiId, GuildId, MessageId, RoleId, UserId};
use ferricord::permissions::Permissions;
use ferricord::text::push_hex_padded;
use ferricord::user::User;

fn user(id: u64, name: &str, discriminator: &str, avatar: Option<&str>) -> User {
    User {
        id: UserId::new(id),
        username: name.to_string(),
        discriminator: discriminator.to_string(),
        global_name: None,
        avatar: avatar.map(|a| a.to_string()),
        bot: false,
        system: false,
        mfa_enabled: None,
        banner: None,
        accent_color: None,
        locale: None,
        verified: None,
        email: None,
        flags: None,
        premium_type: None,
        public_flags: None,
        avatar_decoration: None,
    }
}

fn emoji(id: Option<u64>, name: Option<&str>, animated: bool) -> Emoji {
    Emoji {
        id: id.map(EmojiId::new),
        name: name.map(|n| n.to_string()),
        roles: Vec::new(),
        user: None,
        require_colons: false,
        managed: false,
        animated,
        available: true,
    }
}

#[test]
fn user_tags_and_mentions() {
    let u = user(80351110224678912, "Nelly", "1337", None);
    assert_eq!(u.tag(), "Nelly#1337");
    assert_eq!(u.mention(), "<@80351110224678912>");
    assert_eq!(u.display_name(), "Nelly");
    let v = user(5, "new_user", "0", None);
    assert_eq!(v.tag(), "new_user");
}

#[test]
fn user_avatar_urls() {
    let u = user(123, "a", "0", Some("abcdef"));
    assert_eq!(u.avatar_url().unwrap(), "https://cdn.discordapp.com/avatars/123/abcdef.png");
    let g = user(123, "a", "0", Some("a_abcdef"));
    assert_eq!(g.avatar_url().unwrap(), "https://cdn.discordapp.com/avatars/123/a_abcdef.gif");
    assert_eq!(g.display_avatar_url(), "https://cdn.discordapp.com/avatars/123/a_abcdef.gif");
    // new username system: (id >> 22) % 6
    let n = user(80351110224678912, "a", "0", None);
    assert_eq!(n.default_avatar_url(), format!("https://cdn.discordapp.com/embed/avatars/{}.png", (80351110224678912u64 >> 22) % 6));
    // legacy discriminator: discriminator % 5
    let l = user(1, "a", "1337", None);
    assert_eq!(l.default_avatar_url(), "https://cdn.discordapp.com/embed/avatars/2.png");
    assert_eq!(l.display_avatar_url(), "https://cdn.discordapp.com/embed/avatars/2.png");
    let bad = user(1, "a", "xyz", None);
    assert_eq!(bad.default_avatar_url(), "https://cdn.discordapp.com/embed/avatars/0.png");
}

#[test]
fn role_and_emoji_formats() {
    let role = Role {
        id: RoleId::new(41771983423143936),
        name: "WE DEM BOYZZ!!!!!!".to_string(),
        color: 3447003,
        hoist: true,
        icon: None,
        unicode_emoji: None,
        position: 1,
        permissions: Permissions::empty(),
        managed: false,
        mentionable: false,
        tags: None,
        flags: 0,
    };
    assert_eq!(role.mention(), "<@&41771983423143936>");
    assert_eq!(role.color_hex(), "#3498DB");
    assert_eq!(emoji(Some(41771983429993937), Some("LUL"), false).to_reaction_string(), "<:LUL:41771983429993937>");
    assert_eq!(emoji(Some(7), Some("dance"), true).to_reaction_string(), "<a:dance:7>");
    assert_eq!(emoji(None, Some("🔥"), false).to_reaction_string(), "🔥");
    assert_eq!(emoji(None, None, false).to_reaction_string(), "");
    assert_eq!(emoji(Some(7), Some("dance"), true).url().unwrap(), "https://cdn.discordapp.com/emojis/7.gif");
    assert!(emoji(None, Some("x"), false).url().is_none());
}

#[test]
fn member_display_names() {
    let mut m = Member {
        user: Some(user(9, "name", "0", None)),
        nick: Some("nick".to_string()),
        avatar: None,
        roles: Vec::new(),
        joined_at: String::new(),
        premium_since: None,
        deaf: false,
        mute: false,
        flags: 0,
        pending: None,
        permissions: None,
        communication_disabled_until: None,
    };
    assert_eq!(m.display_name(), "nick");
    assert_eq!(m.mention().unwrap(), "<@9>");
    m.nick = None;
    assert_eq!(m.display_name(), "name");
    m.user = None;
    assert_eq!(m.display_name(), "Unknown");
    assert!(m.mention().is_none());
}

#[test]
fn member_display_name_falls_back_to_username_not_global_name() {
    let mut u = user(9, "name", "0", None);
    u.global_name = Some("Global".to_string());
    let m = Member {
        user: Some(u),
        nick: None,
        avatar: None,
        roles: Vec::new(),
        joined_at: String::new(),
        premium_since: None,
        deaf: false,
        mute: false,
        flags: 0,
        pending: None,
        permissions: None,
        communication_disabled_until: None,
    };
    assert_eq!(m.display_name(), "name");
}

#[test]
fn error_texts_and_kinds() {
    assert_eq!(Error::http("boom").message(), "HTTP error: boom");
    assert_eq!(Error::gateway("x").message(), "Gateway error: x");
    assert_eq!(Error::discord(-5, "bad").message(), "Discord API error -5: bad");
    assert_eq!(Error::discord(50035, "Invalid").message(), "Discord API error 50035: Invalid");
    let limited = Error::RateLimited { retry_after_ms: 1500, global: false };
    assert_eq!(limited.message(), "Rate limited: retry after 1500ms");
    assert!(limited.is_rate_limited());
    assert!(limited.is_retryable());
    assert!(Error::websocket("w").is_retryable());
    assert!(!Error::auth("a").is_retryable());
    assert!(!Error::cache_miss("c").is_rate_limited());
    assert_eq!(Error::invalid_data("d").message(), "Invalid data: d");
    assert_eq!(Error::internal("i").message(), "Internal error: i");
    let json_error = serde_json::from_str::<u8>("x").unwrap_err();
    assert!(Error::from(json_error).message().starts_with("JSON error: "));
}

#[test]
fn ids_in_texts() {
    let c = ChannelId::new(42);
    assert_eq!(c.to_string(), "42");
    assert_eq!(GuildId::new(1).to_string(), "1");
    assert_eq!(MessageId::new(0).to_string(), "0");
}

#[test]
fn hex_padding_to_any_width() {
    let mut out = String::from("#");
    push_hex_padded(&mut out, 0xAB, 8);
    assert_eq!(out, "#000000AB");
    let mut wide = String::new();
    push_hex_padded(&mut wide, 0x1234567, 3);
    assert_eq!(wide, "1234567");
}
