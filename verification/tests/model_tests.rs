use ferricord::channel::ChannelType;
use ferricord::guild::VerificationLevel;
use ferricord::interaction::{ApplicationCommandInteractionDataOption, ApplicationCommandOptionType, InteractionData};
use ferricord::gateway::{GatewayOpcode, Intents};
use ferricord::id::{ChannelId, GuildId, MessageId, RoleId, UserId, snowflake_timestamp_ms};
use ferricord::permissions::{PermissionOverwrite, Permissions};
use ferricord::text::decimal;

#[test]
fn test_id_from_str() {
    let id: UserId = "123456789012345678".parse().unwrap();
    assert_eq!(id.get(), 123456789012345678);
}

#[test]
fn test_id_serialization() {
    let id = UserId::new(123456789012345678);
    let json = serde_json::to_string(&id.to_string()).unwrap();
    assert_eq!(json, "\"123456789012345678\"");
}

#[test]
fn test_id_deserialization() {
    let json = "\"123456789012345678\"";
    let text: String = serde_json::from_str(json).unwrap();
    let id = UserId::parse_str(&text).unwrap();
    assert_eq!(id.get(), 123456789012345678);
}

#[test]
fn test_administrator_check() {
    let admin = Permissions::administrator();
    assert!(admin.is_administrator());

    let non_admin = Permissions::send_messages();
    assert!(!non_admin.is_administrator());
}

#[test]
fn test_permissions_serialization() {
    let perms = Permissions::send_messages() | Permissions::view_channel();
    let json = serde_json::to_string(&perms.bits_string()).unwrap();
    assert_eq!(json, "\"3072\"");
}

#[test]
fn test_permissions_deserialization() {
    let json = "\"3072\"";
    let text: String = serde_json::from_str(json).unwrap();
    let perms = Permissions::from_bits_str(&text).unwrap();
    assert!(perms.contains(Permissions::send_messages()));
    assert!(perms.contains(Permissions::view_channel()));
}

#[test]
fn test_intents_default() {
    let intents = Intents::default_intents();
    assert!(intents.contains(Intents::guilds()));
    assert!(intents.contains(Intents::guild_messages()));
    assert!(!intents.contains(Intents::guild_members()));
    assert!(!intents.contains(Intents::message_content()));
}

#[test]
fn test_intents_privileged() {
    let intents = Intents::privileged();
    assert!(intents.contains(Intents::guild_members()));
    assert!(intents.contains(Intents::guild_presences()));
    assert!(intents.contains(Intents::message_content()));
}

#[test]
fn test_intents_serialization() {
    let intents = Intents::guilds() | Intents::guild_messages();
    let json = serde_json::to_string(&intents.bits()).unwrap();
    assert_eq!(json, "513");
}

#[test]
fn id_round_trips_through_text() {
    for n in [0u64, 7, 10, 99, 4096, 123456789012345678, u64::MAX] {
        let id = GuildId::new(n);
        let back = GuildId::parse_str(&id.to_string()).unwrap();
        assert_eq!(back, id);
    }
}

#[test]
fn id_parse_rejects_bad_text() {
    assert!(UserId::parse_str("").is_err());
    assert!(UserId::parse_str("12a").is_err());
    assert!(UserId::parse_str("-1").is_err());
    assert!(UserId::parse_str("18446744073709551616").is_err());
    assert_eq!(UserId::parse_str("+42").unwrap().get(), 42);
}

#[test]
fn id_conversions() {
    let id: ChannelId = ChannelId::from(55u64);
    assert_eq!(u64::from(id), 55);
    assert_eq!(MessageId::new(9).to_string(), "9");
    assert_eq!(RoleId::new(12).get(), 12);
}

#[test]
fn snowflake_timestamp_formula() {
    // 175928847299117063 >> 22 is 41944705796; plus the Discord epoch.
    assert_eq!(snowflake_timestamp_ms(175928847299117063), 41944705796 + 1420070400000);
    assert_eq!(UserId::new(0).created_at_millis(), 1420070400000);
}

#[test]
fn decimal_text() {
    assert_eq!(decimal(0), "0");
    assert_eq!(decimal(1234567890), "1234567890");
    assert_eq!(decimal(u64::MAX), "18446744073709551615");
}

#[test]
fn permission_set_operations() {
    let mut p = Permissions::empty();
    assert!(p.is_empty());
    p.insert(Permissions::kick_members());
    assert!(p.contains(Permissions::kick_members()));
    p.insert(Permissions::ban_members());
    assert_eq!(p.bits(), 0x6);
    p.remove(Permissions::kick_members());
    assert!(!p.intersects(Permissions::kick_members()));
    assert_eq!(p.bits(), 0x4);
    p.toggle(Permissions::ban_members());
    assert!(p.is_empty());
    p.set(Permissions::administrator(), true);
    assert!(p.is_administrator());
    p.set(Permissions::administrator(), false);
    assert!(!p.is_administrator());
    let a = Permissions::send_messages();
    let b = Permissions::view_channel();
    assert_eq!(a.union(b).bits(), 3072);
    assert_eq!(a.intersection(b).bits(), 0);
    assert_eq!(a.union(b).difference(b).bits(), 2048);
    assert_eq!(a.symmetric_difference(a.union(b)).bits(), 1024);
    assert_eq!((a & b).bits(), 0);
}

#[test]
fn permission_constants() {
    assert_eq!(Permissions::default_permissions().bits(), 0x40e08635cc41);
    assert_eq!(Permissions::all_permissions().bits(), 0x67fffffffffff);
    assert!(Permissions::all().is_all());
    assert_eq!(Permissions::none_permissions().bits(), 0);
    assert_eq!(Permissions::from_bits_truncate(u64::MAX).bits(), 0x67fffffffffff);
    assert!(Permissions::from_bits(1u64 << 63).is_none());
    assert_eq!(Permissions::from_bits(8).unwrap().bits(), 8);
    assert_eq!(Permissions::from_bits_retain(1u64 << 63).bits(), 1u64 << 63);
    assert_eq!(Permissions::empty().complement().bits(), 0x67fffffffffff);
}

#[test]
fn permissions_wire_round_trip() {
    let p = Permissions::default_permissions();
    let back = Permissions::from_bits_str(&p.bits_string()).unwrap();
    assert_eq!(back, p);
    assert!(Permissions::from_bits_str("not a number").is_err());
    // unknown bits are dropped when read back
    let q = Permissions::from_bits_str("9223372036854775816").unwrap();
    assert_eq!(q.bits(), 8);
}

#[test]
fn permission_overwrites() {
    let allow = Permissions::send_messages();
    let deny = Permissions::view_channel();
    let role = PermissionOverwrite::role(RoleId::new(42), allow, deny);
    assert_eq!(role.id, "42");
    assert!(role.is_role());
    assert!(!role.is_member());
    let member = PermissionOverwrite::member(UserId::new(7), allow, deny);
    assert_eq!(member.kind, 1);
    assert!(member.is_member());
    assert_eq!(member.allow, allow);
    assert_eq!(member.deny, deny);
}

#[test]
fn intent_sets() {
    assert_eq!(Intents::default_intents().bits(), 0x3317efd);
    assert_eq!(Intents::privileged().bits(), 0x8102);
    assert_eq!(Intents::all_intents().bits(), 0x331ffff);
    assert_eq!(Intents::none_intents().bits(), 0);
    assert!(!Intents::default_intents().has_privileged());
    assert!(Intents::all_intents().has_privileged());
    let mut i = Intents::default_intents();
    i.insert(Intents::message_content());
    assert!(i.has_privileged());
    i.remove(Intents::privileged());
    assert!(!i.has_privileged());
    assert_eq!(i.bits(), 0x3317efd);
}

#[test]
fn gateway_opcodes() {
    assert_eq!(GatewayOpcode::try_from(10u8).unwrap(), GatewayOpcode::Hello);
    assert_eq!(GatewayOpcode::try_from(11u8).unwrap(), GatewayOpcode::HeartbeatAck);
    assert_eq!(GatewayOpcode::try_from(0u8).unwrap(), GatewayOpcode::Dispatch);
    assert_eq!(GatewayOpcode::try_from(5u8).unwrap_err(), 5);
    assert_eq!(GatewayOpcode::Resume.to_u8(), 6);
}

#[test]
fn interaction_options_are_found_by_name() {
    let option = |name: &str, v: i64| ApplicationCommandInteractionDataOption {
        name: name.to_string(),
        kind: ApplicationCommandOptionType::Integer,
        value: Some(serde_json::Value::from(v)),
        options: Vec::new(),
        focused: false,
    };
    let data = InteractionData {
        id: None,
        name: Some("cmd".to_string()),
        kind: None,
        resolved: None,
        options: vec![option("a", 1), option("b", 2), option("a", 3)],
        guild_id: None,
        target_id: None,
        custom_id: None,
        component_type: None,
        values: Vec::new(),
        components: Vec::new(),
    };
    assert_eq!(data.find_option("a"), Some(0));
    assert_eq!(data.find_option("b"), Some(1));
    assert_eq!(data.find_option("c"), None);
}

#[test]
fn enum_codes_round_trip() {
    for v in 0u8..=255 {
        if let Some(t) = ChannelType::from_u8(v) {
            assert_eq!(t.to_u8(), v);
        }
        if let Some(l) = VerificationLevel::from_u8(v) {
            assert_eq!(l.to_u8(), v);
        }
    }
    assert_eq!(ChannelType::from_u8(15), Some(ChannelType::GuildForum));
    assert_eq!(ChannelType::from_u8(6), None);
}
