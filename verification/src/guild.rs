//! Guild (server) related models.
use vstd::prelude::*;
use crate::id::{ChannelId, EmojiId, GuildId, RoleId, UserId};
use crate::permissions::Permissions;
use crate::text::{
    clone_opt_string, dec_str, hex_str, image_ext, image_ext_of, push_decimal, push_hex_padded,
    zero_pad,
};
use crate::user::{user_mention_text, User};

verus! {

/// The URL of a guild image kept under `kind` (`icons`, `banners`), with the
/// extension that the hash calls for.
pub open spec fn guild_image_url_text(kind: Seq<char>, id: u64, hash: Seq<char>) -> Seq<char> {
    "https://cdn.discordapp.com/"@ + kind + "/"@ + dec_str(id as nat) + "/"@ + hash + "."@
        + image_ext(hash)
}

/// The URL of a guild splash image, always a PNG.
pub open spec fn splash_url_text(id: u64, hash: Seq<char>) -> Seq<char> {
    "https://cdn.discordapp.com/splashes/"@ + dec_str(id as nat) + "/"@ + hash + ".png"@
}

/// The mention text of a role: `<@&id>`.
pub open spec fn role_mention_text(id: u64) -> Seq<char> {
    "<@&"@ + dec_str(id as nat) + ">"@
}

/// The color of a role as `#` and at least six uppercase hexadecimal digits.
pub open spec fn color_hex_text(color: u32) -> Seq<char> {
    "#"@ + zero_pad(hex_str(color as nat), 6)
}

/// The URL of a custom emoji image.
pub open spec fn emoji_url_text(id: u64, animated: bool) -> Seq<char> {
    "https://cdn.discordapp.com/emojis/"@ + dec_str(id as nat) + "."@ + (if animated {
        "gif"@
    } else {
        "png"@
    })
}

/// The text that puts a custom emoji in a message: `<:name:id>`, or `<a:name:id>` when animated.
pub open spec fn custom_emoji_text(name: Seq<char>, id: u64, animated: bool) -> Seq<char> {
    (if animated {
        "<a:"@
    } else {
        "<:"@
    }) + name + ":"@ + dec_str(id as nat) + ">"@
}

/// Builds the URL of a guild image under `kind`.
fn guild_image_url(kind: &str, id: u64, hash: &str) -> (r: String)
    ensures
        r@ == guild_image_url_text(kind@, id, hash@),
{
    let mut s = String::from_str("https://cdn.discordapp.com/");
    s.append(kind);
    s.append("/");
    push_decimal(&mut s, id);
    s.append("/");
    s.append(hash);
    s.append(".");
    s.append(image_ext_of(hash));
    s
}

/// The default for a missing `available` flag of an emoji.
pub fn default_true() -> (r: bool)
    ensures
        r,
{
    true
}

/// Represents a Discord guild (server).
#[derive(Clone, Debug)]
pub struct Guild {
    /// Guild ID.
    pub id: GuildId,
    /// Guild name (2-100 characters).
    pub name: String,
    /// Icon hash.
    pub icon: Option<String>,
    /// Icon hash, returned when in the template object.
    pub icon_hash: Option<String>,
    /// Splash hash.
    pub splash: Option<String>,
    /// Discovery splash hash.
    pub discovery_splash: Option<String>,
    /// True if the user is the owner of the guild.
    pub owner: bool,
    /// ID of owner.
    pub owner_id: UserId,
    /// Total permissions for the user in the guild.
    pub permissions: Option<Permissions>,
    /// ID of AFK channel.
    pub afk_channel_id: Option<ChannelId>,
    /// AFK timeout in seconds.
    pub afk_timeout: u32,
    /// True if the server widget is enabled.
    pub widget_enabled: Option<bool>,
    /// The channel ID that the widget will generate an invite to.
    pub widget_channel_id: Option<ChannelId>,
    /// Verification level required for the guild.
    pub verification_level: VerificationLevel,
    /// Default message notifications level.
    pub default_message_notifications: DefaultMessageNotificationLevel,
    /// Explicit content filter level.
    pub explicit_content_filter: ExplicitContentFilterLevel,
    /// Roles in the guild.
    pub roles: Vec<Role>,
    /// Custom guild emojis.
    pub emojis: Vec<Emoji>,
    /// Enabled guild features.
    pub features: Vec<String>,
    /// Required MFA level for the guild.
    pub mfa_level: MfaLevel,
    /// Application ID of the guild creator if it is bot-created.
    pub application_id: Option<UserId>,
    /// The ID of the channel where guild notices are posted.
    pub system_channel_id: Option<ChannelId>,
    /// System channel flags.
    pub system_channel_flags: u32,
    /// The ID of the channel where Community guilds can display rules.
    pub rules_channel_id: Option<ChannelId>,
    /// The maximum number of presences for the guild.
    pub max_presences: Option<u32>,
    /// The maximum number of members for the guild.
    pub max_members: Option<u32>,
    /// The vanity URL code for the guild.
    pub vanity_url_code: Option<String>,
    /// The description of a guild.
    pub description: Option<String>,
    /// Banner hash.
    pub banner: Option<String>,
    /// Premium tier (Server Boost level).
    pub premium_tier: PremiumTier,
    /// The number of boosts this guild currently has.
    pub premium_subscription_count: Option<u32>,
    /// The preferred locale of a Community guild.
    pub preferred_locale: String,
    /// The ID of the channel where admins and moderators receive notices.
    pub public_updates_channel_id: Option<ChannelId>,
    /// The maximum amount of users in a video channel.
    pub max_video_channel_users: Option<u32>,
    /// The maximum amount of users in a stage video channel.
    pub max_stage_video_channel_users: Option<u32>,
    /// Approximate number of members in this guild.
    pub approximate_member_count: Option<u32>,
    /// Approximate number of non-offline members in this guild.
    pub approximate_presence_count: Option<u32>,
    /// The NSFW level of the guild.
    pub nsfw_level: NsfwLevel,
    /// Whether the guild has the boost progress bar enabled.
    pub premium_progress_bar_enabled: bool,
    /// The ID of the channel where admins and moderators receive safety alerts.
    pub safety_alerts_channel_id: Option<ChannelId>,
}

/// Partial guild object.
#[derive(Clone, Debug)]
pub struct PartialGuild {
    /// Guild ID.
    pub id: GuildId,
    /// Guild name.
    pub name: String,
    /// Icon hash.
    pub icon: Option<String>,
    /// Whether the user is the owner.
    pub owner: bool,
    /// Permissions for the user.
    pub permissions: Option<Permissions>,
    /// Guild features.
    pub features: Vec<String>,
}

/// Represents a guild member.
#[derive(Debug)]
pub struct Member {
    /// The user this guild member represents.
    pub user: Option<User>,
    /// This user's guild nickname.
    pub nick: Option<String>,
    /// The member's guild avatar hash.
    pub avatar: Option<String>,
    /// Array of role object IDs.
    pub roles: Vec<RoleId>,
    /// When the user joined the guild.
    pub joined_at: String,
    /// When the user started boosting the guild.
    pub premium_since: Option<String>,
    /// Whether the user is deafened in voice channels.
    pub deaf: bool,
    /// Whether the user is muted in voice channels.
    pub mute: bool,
    /// Guild member flags.
    pub flags: u32,
    /// Whether the user has not yet passed the guild's Membership Screening.
    pub pending: Option<bool>,
    /// Total permissions of the member in the channel.
    pub permissions: Option<Permissions>,
    /// When the user's timeout will expire.
    pub communication_disabled_until: Option<String>,
}

/// Represents a role within a guild.
#[derive(Debug)]
pub struct Role {
    /// Role ID.
    pub id: RoleId,
    /// Role name.
    pub name: String,
    /// Integer representation of hexadecimal color code.
    pub color: u32,
    /// If this role is pinned in the user listing.
    pub hoist: bool,
    /// Role icon hash.
    pub icon: Option<String>,
    /// Role unicode emoji.
    pub unicode_emoji: Option<String>,
    /// Position of this role.
    pub position: i32,
    /// Permission bit set.
    pub permissions: Permissions,
    /// Whether this role is managed by an integration.
    pub managed: bool,
    /// Whether this role is mentionable.
    pub mentionable: bool,
    /// The tags this role has.
    pub tags: Option<RoleTags>,
    /// Role flags.
    pub flags: u32,
}

/// Tags for a role.
#[derive(Debug)]
pub struct RoleTags {
    /// The ID of the bot this role belongs to.
    pub bot_id: Option<UserId>,
    /// The ID of the integration this role belongs to.
    pub integration_id: Option<UserId>,
    /// Whether this is the guild's Booster role.
    pub premium_subscriber: Option<()>,
    /// The ID of this role's subscription sku and listing.
    pub subscription_listing_id: Option<UserId>,
    /// Whether this role is available for purchase.
    pub available_for_purchase: Option<()>,
    /// Whether this role is a guild's linked role.
    pub guild_connections: Option<()>,
}

/// Represents a custom emoji.
#[derive(Clone, Debug)]
pub struct Emoji {
    /// Emoji ID.
    pub id: Option<EmojiId>,
    /// Emoji name.
    pub name: Option<String>,
    /// Roles allowed to use this emoji.
    pub roles: Vec<RoleId>,
    /// User that created this emoji.
    pub user: Option<User>,
    /// Whether this emoji must be wrapped in colons.
    pub require_colons: bool,
    /// Whether this emoji is managed.
    pub managed: bool,
    /// Whether this emoji is animated.
    pub animated: bool,
    /// Whether this emoji can be used.
    pub available: bool,
}

/// Verification level required for a guild.
#[derive(Clone, Copy, Debug, Default, PartialEq, Eq, Structural)]
pub enum VerificationLevel {
    /// Unrestricted.
    #[default]
    Unrestricted,
    /// Must have verified email on account.
    Low,
    /// Must be registered on Discord for longer than 5 minutes.
    Medium,
    /// Must be a member of the server for longer than 10 minutes.
    High,
    /// Must have a verified phone number.
    VeryHigh,
}

/// Default message notification level.
#[derive(Clone, Copy, Debug, Default, PartialEq, Eq, Structural)]
pub enum DefaultMessageNotificationLevel {
    /// Members will receive notifications for all messages.
    #[default]
    AllMessages,
    /// Members will receive notifications only for messages that @mention them.
    OnlyMentions,
}

/// Explicit content filter level.
#[derive(Clone, Copy, Debug, Default, PartialEq, Eq, Structural)]
pub enum ExplicitContentFilterLevel {
    /// Media content will not be scanned.
    #[default]
    Disabled,
    /// Media content sent by members without roles will be scanned.
    MembersWithoutRoles,
    /// Media content sent by all members will be scanned.
    AllMembers,
}

/// MFA level required for the guild.
#[derive(Clone, Copy, Debug, Default, PartialEq, Eq, Structural)]
pub enum MfaLevel {
    /// Guild has no MFA/2FA requirement for moderation actions.
    #[default]
    NoRequirement,
    /// Guild has a 2FA requirement for moderation actions.
    Elevated,
}

/// Premium tier (Server Boost level).
#[derive(Clone, Copy, Debug, Default, PartialEq, Eq, Structural)]
pub enum PremiumTier {
    /// Guild has not unlocked any Server Boost perks.
    #[default]
    Tier0,
    /// Guild has unlocked Server Boost level 1 perks.
    Tier1,
    /// Guild has unlocked Server Boost level 2 perks.
    Tier2,
    /// Guild has unlocked Server Boost level 3 perks.
    Tier3,
}

/// NSFW level of a guild.
#[derive(Clone, Copy, Debug, Default, PartialEq, Eq, Structural)]
pub enum NsfwLevel {
    /// Default.
    #[default]
    Default,
    /// Explicit.
    Explicit,
    /// Safe.
    Safe,
    /// Age restricted.
    AgeRestricted,
}

impl Guild {
    /// Returns the URL to the guild's icon.
    pub fn icon_url(&self) -> (r: Option<String>)
        ensures
            match self.icon {
                Some(h) => r is Some && r->0@ == guild_image_url_text("icons"@, self.id.0, h@),
                None => r is None,
            },
    {
        match &self.icon {
            Some(hash) => Some(guild_image_url("icons", self.id.0, hash.as_str())),
            None => None,
        }
    }

    /// Returns the URL to the guild's banner.
    pub fn banner_url(&self) -> (r: Option<String>)
        ensures
            match self.banner {
                Some(h) => r is Some && r->0@ == guild_image_url_text("banners"@, self.id.0, h@),
                None => r is None,
            },
    {
        match &self.banner {
            Some(hash) => Some(guild_image_url("banners", self.id.0, hash.as_str())),
            None => None,
        }
    }

    /// Returns the URL to the guild's splash.
    pub fn splash_url(&self) -> (r: Option<String>)
        ensures
            match self.splash {
                Some(h) => r is Some && r->0@ == splash_url_text(self.id.0, h@),
                None => r is None,
            },
    {
        match &self.splash {
            Some(hash) => {
                let mut s = String::from_str("https://cdn.discordapp.com/splashes/");
                push_decimal(&mut s, self.id.0);
                s.append("/");
                s.append(hash.as_str());
                s.append(".png");
                Some(s)
            },
            None => None,
        }
    }
}

impl Clone for Member {
    fn clone(&self) -> (r: Self)
        ensures
            r.user == self.user,
            r.nick == self.nick,
            r.avatar == self.avatar,
            r.roles@ == self.roles@,
            r.joined_at == self.joined_at,
            r.premium_since == self.premium_since,
            r.deaf == self.deaf,
            r.mute == self.mute,
            r.flags == self.flags,
            r.pending == self.pending,
            r.permissions == self.permissions,
            r.communication_disabled_until == self.communication_disabled_until,
    {
        let user = match &self.user {
            Some(u) => Some(u.clone()),
            None => None,
        };
        let roles = self.roles.clone();
        assert(roles@ =~= self.roles@);
        Member {
            user,
            nick: clone_opt_string(&self.nick),
            avatar: clone_opt_string(&self.avatar),
            roles,
            joined_at: self.joined_at.clone(),
            premium_since: clone_opt_string(&self.premium_since),
            deaf: self.deaf,
            mute: self.mute,
            flags: self.flags,
            pending: self.pending,
            permissions: self.permissions,
            communication_disabled_until: clone_opt_string(&self.communication_disabled_until),
        }
    }
}

impl Member {
    /// The member's display name: the nickname, else the user's username, else `Unknown`.
    pub open spec fn display_name_text(&self) -> Seq<char> {
        match self.nick {
            Some(n) => n@,
            None => match self.user {
                Some(u) => u.username@,
                None => "Unknown"@,
            },
        }
    }

    /// Returns the member's display name (nick if set, otherwise username).
    pub fn display_name(&self) -> (r: &str)
        ensures
            r@ == self.display_name_text(),
    {
        match &self.nick {
            Some(n) => n.as_str(),
            None => match &self.user {
                Some(u) => u.username.as_str(),
                None => "Unknown",
            },
        }
    }

    /// Returns the member's mention string.
    pub fn mention(&self) -> (r: Option<String>)
        ensures
            match self.user {
                Some(u) => r is Some && r->0@ == user_mention_text(u.id.0),
                None => r is None,
            },
    {
        match &self.user {
            Some(u) => Some(u.mention()),
            None => None,
        }
    }
}

impl Clone for RoleTags {
    fn clone(&self) -> (r: Self)
        ensures
            r == *self,
    {
        RoleTags {
            bot_id: self.bot_id,
            integration_id: self.integration_id,
            premium_subscriber: self.premium_subscriber,
            subscription_listing_id: self.subscription_listing_id,
            available_for_purchase: self.available_for_purchase,
            guild_connections: self.guild_connections,
        }
    }
}

impl Clone for Role {
    fn clone(&self) -> (r: Self)
        ensures
            r == *self,
    {
        let tags = match &self.tags {
            Some(t) => Some(t.clone()),
            None => None,
        };
        Role {
            id: self.id,
            name: self.name.clone(),
            color: self.color,
            hoist: self.hoist,
            icon: clone_opt_string(&self.icon),
            unicode_emoji: clone_opt_string(&self.unicode_emoji),
            position: self.position,
            permissions: self.permissions,
            managed: self.managed,
            mentionable: self.mentionable,
            tags,
            flags: self.flags,
        }
    }
}

impl Role {
    /// Returns the role's mention string.
    pub fn mention(&self) -> (r: String)
        ensures
            r@ == role_mention_text(self.id.0),
    {
        let mut s = String::from_str("<@&");
        push_decimal(&mut s, self.id.0);
        s.append(">");
        s
    }

    /// Returns the role's color as a hex string.
    pub fn color_hex(&self) -> (r: String)
        ensures
            r@ == color_hex_text(self.color),
    {
        let mut s = String::from_str("#");
        push_hex_padded(&mut s, self.color as u64, 6);
        s
    }
}

impl Emoji {
    /// Returns the emoji's URL if it's a custom emoji.
    pub fn url(&self) -> (r: Option<String>)
        ensures
            match self.id {
                Some(id) => r is Some && r->0@ == emoji_url_text(id.0, self.animated),
                None => r is None,
            },
    {
        match self.id {
            Some(id) => {
                let mut s = String::from_str("https://cdn.discordapp.com/emojis/");
                push_decimal(&mut s, id.0);
                s.append(".");
                if self.animated {
                    s.append("gif");
                } else {
                    s.append("png");
                }
                Some(s)
            },
            None => None,
        }
    }

    /// The text of this emoji in a message.
    pub open spec fn reaction_text(&self) -> Seq<char> {
        match (self.id, self.name) {
            (Some(id), Some(name)) => custom_emoji_text(name@, id.0, self.animated),
            (None, Some(name)) => name@,
            _ => Seq::empty(),
        }
    }

    /// Returns the emoji's string representation for use in messages.
    pub fn to_reaction_string(&self) -> (r: String)
        ensures
            r@ == self.reaction_text(),
    {
        match (self.id, &self.name) {
            (Some(id), Some(name)) => {
                let mut s = if self.animated {
                    String::from_str("<a:")
                } else {
                    String::from_str("<:")
                };
                s.append(name.as_str());
                s.append(":");
                push_decimal(&mut s, id.0);
                s.append(">");
                s
            },
            (None, Some(name)) => name.clone(),
            _ => String::new(),
        }
    }
}

impl VerificationLevel {
    /// The number that encodes this value in the Discord API.
    pub open spec fn code(self) -> u8 {
        match self {
            VerificationLevel::Unrestricted => 0,
            VerificationLevel::Low => 1,
            VerificationLevel::Medium => 2,
            VerificationLevel::High => 3,
            VerificationLevel::VeryHigh => 4,
        }
    }

    /// Whether `v` encodes some value of this type.
    pub open spec fn is_code(v: u8) -> bool {
        v == 0 || v == 1 || v == 2 || v == 3 || v == 4
    }

    /// The number that encodes this value in the Discord API.
    pub fn to_u8(self) -> (r: u8)
        ensures
            r == self.code(),
    {
        match self {
            VerificationLevel::Unrestricted => 0,
            VerificationLevel::Low => 1,
            VerificationLevel::Medium => 2,
            VerificationLevel::High => 3,
            VerificationLevel::VeryHigh => 4,
        }
    }

    /// The value that `v` encodes, if any.
    pub fn from_u8(v: u8) -> (r: Option<Self>)
        ensures
            match r {
                Some(t) => t.code() == v,
                None => !Self::is_code(v),
            },
    {
        if v == 0 {
            Some(VerificationLevel::Unrestricted)
        } else if v == 1 {
            Some(VerificationLevel::Low)
        } else if v == 2 {
            Some(VerificationLevel::Medium)
        } else if v == 3 {
            Some(VerificationLevel::High)
        } else if v == 4 {
            Some(VerificationLevel::VeryHigh)
        } else {
            None
        }
    }
}

/// Reading a `VerificationLevel` back from its number gives the same value: distinct
/// values have distinct numbers, and each value's number is one that
/// `from_u8` accepts.
pub proof fn law_verification_level_code_round_trip(a: VerificationLevel, b: VerificationLevel)
    ensures
        a.code() == b.code() ==> a == b,
        VerificationLevel::is_code(a.code()),
{
}

/// Each `VerificationLevel` has its number in the Discord API: Unrestricted 0,
/// Low 1, Medium 2, High 3, Very High 4. These are the only numbers that name
/// one.
pub proof fn law_verification_level_numbers(v: u8)
    ensures
        VerificationLevel::Unrestricted.code() == 0,
        VerificationLevel::Low.code() == 1,
        VerificationLevel::Medium.code() == 2,
        VerificationLevel::High.code() == 3,
        VerificationLevel::VeryHigh.code() == 4,
        VerificationLevel::is_code(v) <==> (v == 0 || v == 1 || v == 2 || v == 3 || v == 4),
{
}

impl DefaultMessageNotificationLevel {
    /// The number that encodes this value in the Discord API.
    pub open spec fn code(self) -> u8 {
        match self {
            DefaultMessageNotificationLevel::AllMessages => 0,
            DefaultMessageNotificationLevel::OnlyMentions => 1,
        }
    }

    /// Whether `v` encodes some value of this type.
    pub open spec fn is_code(v: u8) -> bool {
        v == 0 || v == 1
    }

    /// The number that encodes this value in the Discord API.
    pub fn to_u8(self) -> (r: u8)
        ensures
            r == self.code(),
    {
        match self {
            DefaultMessageNotificationLevel::AllMessages => 0,
            DefaultMessageNotificationLevel::OnlyMentions => 1,
        }
    }

    /// The value that `v` encodes, if any.
    pub fn from_u8(v: u8) -> (r: Option<Self>)
        ensures
            match r {
                Some(t) => t.code() == v,
                None => !Self::is_code(v),
            },
    {
        if v == 0 {
            Some(DefaultMessageNotificationLevel::AllMessages)
        } else if v == 1 {
            Some(DefaultMessageNotificationLevel::OnlyMentions)
        } else {
            None
        }
    }
}

/// Reading a `DefaultMessageNotificationLevel` back from its number gives the same value: distinct
/// values have distinct numbers, and each value's number is one that
/// `from_u8` accepts.
pub proof fn law_default_message_notification_level_code_round_trip(a: DefaultMessageNotificationLevel, b: DefaultMessageNotificationLevel)
    ensures
        a.code() == b.code() ==> a == b,
        DefaultMessageNotificationLevel::is_code(a.code()),
{
}

/// Each `DefaultMessageNotificationLevel` has its number in the Discord API:
/// All Messages 0, Only Mentions 1. These are the only numbers that name one.
pub proof fn law_default_message_notification_level_numbers(v: u8)
    ensures
        DefaultMessageNotificationLevel::AllMessages.code() == 0,
        DefaultMessageNotificationLevel::OnlyMentions.code() == 1,
        DefaultMessageNotificationLevel::is_code(v) <==> (v == 0 || v == 1),
{
}

impl ExplicitContentFilterLevel {
    /// The number that encodes this value in the Discord API.
    pub open spec fn code(self) -> u8 {
        match self {
            ExplicitContentFilterLevel::Disabled => 0,
            ExplicitContentFilterLevel::MembersWithoutRoles => 1,
            ExplicitContentFilterLevel::AllMembers => 2,
        }
    }

    /// Whether `v` encodes some value of this type.
    pub open spec fn is_code(v: u8) -> bool {
        v == 0 || v == 1 || v == 2
    }

    /// The number that encodes this value in the Discord API.
    pub fn to_u8(self) -> (r: u8)
        ensures
            r == self.code(),
    {
        match self {
            ExplicitContentFilterLevel::Disabled => 0,
            ExplicitContentFilterLevel::MembersWithoutRoles => 1,
            ExplicitContentFilterLevel::AllMembers => 2,
        }
    }

    /// The value that `v` encodes, if any.
    pub fn from_u8(v: u8) -> (r: Option<Self>)
        ensures
            match r {
                Some(t) => t.code() == v,
                None => !Self::is_code(v),
            },
    {
        if v == 0 {
            Some(ExplicitContentFilterLevel::Disabled)
        } else if v == 1 {
            Some(ExplicitContentFilterLevel::MembersWithoutRoles)
        } else if v == 2 {
            Some(ExplicitContentFilterLevel::AllMembers)
        } else {
            None
        }
    }
}

/// Reading a `ExplicitContentFilterLevel` back from its number gives the same value: distinct
/// values have distinct numbers, and each value's number is one that
/// `from_u8` accepts.
pub proof fn law_explicit_content_filter_level_code_round_trip(a: ExplicitContentFilterLevel, b: ExplicitContentFilterLevel)
    ensures
        a.code() == b.code() ==> a == b,
        ExplicitContentFilterLevel::is_code(a.code()),
{
}

/// Each `ExplicitContentFilterLevel` has its number in the Discord API:
/// Disabled 0, Members Without Roles 1, All Members 2. These are the only
/// numbers that name one.
pub proof fn law_explicit_content_filter_level_numbers(v: u8)
    ensures
        ExplicitContentFilterLevel::Disabled.code() == 0,
        ExplicitContentFilterLevel::MembersWithoutRoles.code() == 1,
        ExplicitContentFilterLevel::AllMembers.code() == 2,
        ExplicitContentFilterLevel::is_code(v) <==> (v == 0 || v == 1 || v == 2),
{
}

impl MfaLevel {
    /// The number that encodes this value in the Discord API.
    pub open spec fn code(self) -> u8 {
        match self {
            MfaLevel::NoRequirement => 0,
            MfaLevel::Elevated => 1,
        }
    }

    /// Whether `v` encodes some value of this type.
    pub open spec fn is_code(v: u8) -> bool {
        v == 0 || v == 1
    }

    /// The number that encodes this value in the Discord API.
    pub fn to_u8(self) -> (r: u8)
        ensures
            r == self.code(),
    {
        match self {
            MfaLevel::NoRequirement => 0,
            MfaLevel::Elevated => 1,
        }
    }

    /// The value that `v` encodes, if any.
    pub fn from_u8(v: u8) -> (r: Option<Self>)
        ensures
            match r {
                Some(t) => t.code() == v,
                None => !Self::is_code(v),
            },
    {
        if v == 0 {
            Some(MfaLevel::NoRequirement)
        } else if v == 1 {
            Some(MfaLevel::Elevated)
        } else {
            None
        }
    }
}

/// Reading a `MfaLevel` back from its number gives the same value: distinct
/// values have distinct numbers, and each value's number is one that
/// `from_u8` accepts.
pub proof fn law_mfa_level_code_round_trip(a: MfaLevel, b: MfaLevel)
    ensures
        a.code() == b.code() ==> a == b,
        MfaLevel::is_code(a.code()),
{
}

/// Each `MfaLevel` has its number in the Discord API: No Requirement 0,
/// Elevated 1. These are the only numbers that name one.
pub proof fn law_mfa_level_numbers(v: u8)
    ensures
        MfaLevel::NoRequirement.code() == 0,
        MfaLevel::Elevated.code() == 1,
        MfaLevel::is_code(v) <==> (v == 0 || v == 1),
{
}

impl PremiumTier {
    /// The number that encodes this value in the Discord API.
    pub open spec fn code(self) -> u8 {
        match self {
            PremiumTier::Tier0 => 0,
            PremiumTier::Tier1 => 1,
            PremiumTier::Tier2 => 2,
            PremiumTier::Tier3 => 3,
        }
    }

    /// Whether `v` encodes some value of this type.
    pub open spec fn is_code(v: u8) -> bool {
        v == 0 || v == 1 || v == 2 || v == 3
    }

    /// The number that encodes this value in the Discord API.
    pub fn to_u8(self) -> (r: u8)
        ensures
            r == self.code(),
    {
        match self {
            PremiumTier::Tier0 => 0,
            PremiumTier::Tier1 => 1,
            PremiumTier::Tier2 => 2,
            PremiumTier::Tier3 => 3,
        }
    }

    /// The value that `v` encodes, if any.
    pub fn from_u8(v: u8) -> (r: Option<Self>)
        ensures
            match r {
                Some(t) => t.code() == v,
                None => !Self::is_code(v),
            },
    {
        if v == 0 {
            Some(PremiumTier::Tier0)
        } else if v == 1 {
            Some(PremiumTier::Tier1)
        } else if v == 2 {
            Some(PremiumTier::Tier2)
        } else if v == 3 {
            Some(PremiumTier::Tier3)
        } else {
            None
        }
    }
}

/// Reading a `PremiumTier` back from its number gives the same value: distinct
/// values have distinct numbers, and each value's number is one that
/// `from_u8` accepts.
pub proof fn law_premium_tier_code_round_trip(a: PremiumTier, b: PremiumTier)
    ensures
        a.code() == b.code() ==> a == b,
        PremiumTier::is_code(a.code()),
{
}

/// Each `PremiumTier` has its number in the Discord API: Tier0 0, Tier1 1,
/// Tier2 2, Tier3 3. These are the only numbers that name one.
pub proof fn law_premium_tier_numbers(v: u8)
    ensures
        PremiumTier::Tier0.code() == 0,
        PremiumTier::Tier1.code() == 1,
        PremiumTier::Tier2.code() == 2,
        PremiumTier::Tier3.code() == 3,
        PremiumTier::is_code(v) <==> (v == 0 || v == 1 || v == 2 || v == 3),
{
}

impl NsfwLevel {
    /// The number that encodes this value in the Discord API.
    pub open spec fn code(self) -> u8 {
        match self {
            NsfwLevel::Default => 0,
            NsfwLevel::Explicit => 1,
            NsfwLevel::Safe => 2,
            NsfwLevel::AgeRestricted => 3,
        }
    }

    /// Whether `v` encodes some value of this type.
    pub open spec fn is_code(v: u8) -> bool {
        v == 0 || v == 1 || v == 2 || v == 3
    }

    /// The number that encodes this value in the Discord API.
    pub fn to_u8(self) -> (r: u8)
        ensures
            r == self.code(),
    {
        match self {
            NsfwLevel::Default => 0,
            NsfwLevel::Explicit => 1,
            NsfwLevel::Safe => 2,
            NsfwLevel::AgeRestricted => 3,
        }
    }

    /// The value that `v` encodes, if any.
    pub fn from_u8(v: u8) -> (r: Option<Self>)
        ensures
            match r {
                Some(t) => t.code() == v,
                None => !Self::is_code(v),
            },
    {
        if v == 0 {
            Some(NsfwLevel::Default)
        } else if v == 1 {
            Some(NsfwLevel::Explicit)
        } else if v == 2 {
            Some(NsfwLevel::Safe)
        } else if v == 3 {
            Some(NsfwLevel::AgeRestricted)
        } else {
            None
        }
    }
}

/// Reading a `NsfwLevel` back from its number gives the same value: distinct
/// values have distinct numbers, and each value's number is one that
/// `from_u8` accepts.
pub proof fn law_nsfw_level_code_round_trip(a: NsfwLevel, b: NsfwLevel)
    ensures
        a.code() == b.code() ==> a == b,
        NsfwLevel::is_code(a.code()),
{
}

/// Each `NsfwLevel` has its number in the Discord API: Default 0, Explicit 1,
/// Safe 2, Age Restricted 3. These are the only numbers that name one.
pub proof fn law_nsfw_level_numbers(v: u8)
    ensures
        NsfwLevel::Default.code() == 0,
        NsfwLevel::Explicit.code() == 1,
        NsfwLevel::Safe.code() == 2,
        NsfwLevel::AgeRestricted.code() == 3,
        NsfwLevel::is_code(v) <==> (v == 0 || v == 1 || v == 2 || v == 3),
{
}

} // verus!
