//! Channel-related models.
use vstd::prelude::*;
use crate::id::{ChannelId, GuildId, MessageId, UserId};
use crate::permissions::PermissionOverwrite;
use crate::text::{dec_str, push_decimal};
use crate::user::User;

verus! {

/// The mention text of a channel: `<#id>`.
pub open spec fn channel_mention_text(id: u64) -> Seq<char> {
    "<#"@ + dec_str(id as nat) + ">"@
}

/// Represents a Discord channel.
#[derive(Clone, Debug)]
pub struct Channel {
    /// The ID of this channel.
    pub id: ChannelId,
    /// The type of channel.
    pub kind: ChannelType,
    /// The ID of the guild (may be missing for some channel objects).
    pub guild_id: Option<GuildId>,
    /// Sorting position of the channel.
    pub position: Option<i32>,
    /// Explicit permission overwrites for members and roles.
    pub permission_overwrites: Vec<PermissionOverwrite>,
    /// The name of the channel (1-100 characters).
    pub name: Option<String>,
    /// The channel topic (0-4096 characters for forum/media channels, 0-1024 for others).
    pub topic: Option<String>,
    /// Whether the channel is NSFW.
    pub nsfw: bool,
    /// The ID of the last message sent in this channel.
    pub last_message_id: Option<MessageId>,
    /// The bitrate (in bits) of the voice channel.
    pub bitrate: Option<u32>,
    /// The user limit of the voice channel.
    pub user_limit: Option<u32>,
    /// Amount of seconds a user has to wait before sending another message.
    pub rate_limit_per_user: Option<u32>,
    /// The recipients of the DM.
    pub recipients: Vec<User>,
    /// Icon hash of the group DM.
    pub icon: Option<String>,
    /// ID of the creator of the group DM or thread.
    pub owner_id: Option<UserId>,
    /// Application ID of the group DM creator if it is bot-created.
    pub application_id: Option<UserId>,
    /// Whether the channel is managed by an application via the gdm.join OAuth2 scope.
    pub managed: Option<bool>,
    /// For group DM channels: the ID of the parent category.
    /// For threads: the ID of the text channel this thread was created.
    pub parent_id: Option<ChannelId>,
    /// When the last pinned message was pinned.
    pub last_pin_timestamp: Option<String>,
    /// Voice region ID for the voice channel.
    pub rtc_region: Option<String>,
    /// The camera video quality mode of the voice channel.
    pub video_quality_mode: Option<VideoQualityMode>,
    /// Number of messages in a thread.
    pub message_count: Option<u32>,
    /// Approximate count of users in a thread.
    pub member_count: Option<u32>,
    /// Thread-specific fields.
    pub thread_metadata: Option<ThreadMetadata>,
    /// Thread member object for the current user.
    pub member: Option<ThreadMember>,
    /// Default duration for newly created threads.
    pub default_auto_archive_duration: Option<u32>,
    /// Computed permissions for the invoking user in the channel.
    pub permissions: Option<String>,
    /// Channel flags.
    pub flags: u32,
    /// Number of messages ever sent in a thread.
    pub total_message_sent: Option<u32>,
    /// The set of tags that can be used in a forum/media channel.
    pub available_tags: Vec<ForumTag>,
    /// The IDs of the set of tags that have been applied to a thread.
    pub applied_tags: Vec<String>,
    /// The emoji to show in the add reaction button on a thread.
    pub default_reaction_emoji: Option<DefaultReaction>,
    /// The initial rate_limit_per_user to set on newly created threads.
    pub default_thread_rate_limit_per_user: Option<u32>,
    /// The default sort order type used to order posts in forum/media channels.
    pub default_sort_order: Option<SortOrderType>,
    /// The default forum layout view used to display posts in forum channels.
    pub default_forum_layout: Option<ForumLayoutType>,
}

/// Type of channel.
#[derive(Clone, Copy, Debug, Default, PartialEq, Eq, Structural)]
pub enum ChannelType {
    /// A text channel within a server.
    #[default]
    GuildText,
    /// A direct message between users.
    Dm,
    /// A voice channel within a server.
    GuildVoice,
    /// A direct message between multiple users.
    GroupDm,
    /// An organizational category that contains up to 50 channels.
    GuildCategory,
    /// A channel that users can follow and crosspost into their own server.
    GuildAnnouncement,
    /// A temporary sub-channel within a GUILD_ANNOUNCEMENT channel.
    AnnouncementThread,
    /// A temporary sub-channel within a GUILD_TEXT or GUILD_FORUM channel.
    PublicThread,
    /// A temporary sub-channel within a GUILD_TEXT channel.
    PrivateThread,
    /// A voice channel for hosting events with an audience.
    GuildStageVoice,
    /// The channel in a hub containing the listed servers.
    GuildDirectory,
    /// Channel that can only contain threads.
    GuildForum,
    /// Channel that can only contain threads, similar to GUILD_FORUM channels.
    GuildMedia,
}

/// Video quality mode.
#[derive(Clone, Copy, Debug, Default, PartialEq, Eq, Structural)]
pub enum VideoQualityMode {
    /// Discord chooses the quality for optimal performance.
    #[default]
    Auto,
    /// 720p.
    Full,
}

/// Thread metadata.
#[derive(Clone, Debug)]
pub struct ThreadMetadata {
    /// Whether the thread is archived.
    pub archived: bool,
    /// The thread will stop showing in the channel list after auto_archive_duration minutes.
    pub auto_archive_duration: u32,
    /// Timestamp when the thread's archive status was last changed.
    pub archive_timestamp: String,
    /// Whether the thread is locked.
    pub locked: bool,
    /// Whether non-moderators can add other non-moderators to a thread.
    pub invitable: bool,
    /// Timestamp when the thread was created.
    pub create_timestamp: Option<String>,
}

/// Thread member.
#[derive(Clone, Debug)]
pub struct ThreadMember {
    /// ID of the thread.
    pub id: Option<ChannelId>,
    /// ID of the user.
    pub user_id: Option<UserId>,
    /// Time the user last joined the thread.
    pub join_timestamp: String,
    /// Any user-thread settings.
    pub flags: u32,
    /// Additional information about the user.
    pub member: Option<crate::guild::Member>,
}

/// Forum tag.
#[derive(Clone, Debug)]
pub struct ForumTag {
    /// The ID of the tag.
    pub id: String,
    /// The name of the tag (0-20 characters).
    pub name: String,
    /// Whether this tag can only be added to or removed from threads by a member with the MANAGE_THREADS permission.
    pub moderated: bool,
    /// The ID of a guild's custom emoji.
    pub emoji_id: Option<String>,
    /// The unicode character of the emoji.
    pub emoji_name: Option<String>,
}

/// Default reaction emoji.
#[derive(Clone, Debug)]
pub struct DefaultReaction {
    /// The ID of a guild's custom emoji.
    pub emoji_id: Option<String>,
    /// The unicode character of the emoji.
    pub emoji_name: Option<String>,
}

/// Sort order type for forum channels.
#[derive(Clone, Copy, Debug, Default, PartialEq, Eq, Structural)]
pub enum SortOrderType {
    /// Sort forum posts by activity.
    #[default]
    LatestActivity,
    /// Sort forum posts by creation time (from most recent to oldest).
    CreationDate,
}

/// Forum layout type.
#[derive(Clone, Copy, Debug, Default, PartialEq, Eq, Structural)]
pub enum ForumLayoutType {
    /// No default has been set for forum channel.
    #[default]
    NotSet,
    /// Display posts as a list.
    ListView,
    /// Display posts as a collection of tiles.
    GalleryView,
}

impl ChannelType {
    /// Whether channels of this type carry text messages.
    pub open spec fn text_based(self) -> bool {
        match self {
            ChannelType::GuildText | ChannelType::Dm | ChannelType::GroupDm
            | ChannelType::GuildAnnouncement | ChannelType::AnnouncementThread
            | ChannelType::PublicThread | ChannelType::PrivateThread | ChannelType::GuildVoice
            | ChannelType::GuildStageVoice => true,
            _ => false,
        }
    }

    /// Whether channels of this type carry voice.
    pub open spec fn voice_based(self) -> bool {
        match self {
            ChannelType::GuildVoice | ChannelType::GuildStageVoice => true,
            _ => false,
        }
    }

    /// Whether channels of this type are threads.
    pub open spec fn thread(self) -> bool {
        match self {
            ChannelType::AnnouncementThread | ChannelType::PublicThread
            | ChannelType::PrivateThread => true,
            _ => false,
        }
    }

    /// Whether channels of this type are direct messages.
    pub open spec fn direct(self) -> bool {
        match self {
            ChannelType::Dm | ChannelType::GroupDm => true,
            _ => false,
        }
    }
}

impl Channel {
    /// Returns the channel's mention string.
    pub fn mention(&self) -> (r: String)
        ensures
            r@ == channel_mention_text(self.id.0),
    {
        let mut s = String::from_str("<#");
        push_decimal(&mut s, self.id.0);
        s.append(">");
        s
    }

    /// Returns true if this is a text-based channel.
    pub fn is_text_based(&self) -> (r: bool)
        ensures
            r == self.kind.text_based(),
    {
        match self.kind {
            ChannelType::GuildText | ChannelType::Dm | ChannelType::GroupDm
            | ChannelType::GuildAnnouncement | ChannelType::AnnouncementThread
            | ChannelType::PublicThread | ChannelType::PrivateThread | ChannelType::GuildVoice
            | ChannelType::GuildStageVoice => true,
            _ => false,
        }
    }

    /// Returns true if this is a voice-based channel.
    pub fn is_voice_based(&self) -> (r: bool)
        ensures
            r == self.kind.voice_based(),
    {
        match self.kind {
            ChannelType::GuildVoice | ChannelType::GuildStageVoice => true,
            _ => false,
        }
    }

    /// Returns true if this is a thread.
    pub fn is_thread(&self) -> (r: bool)
        ensures
            r == self.kind.thread(),
    {
        match self.kind {
            ChannelType::AnnouncementThread | ChannelType::PublicThread
            | ChannelType::PrivateThread => true,
            _ => false,
        }
    }

    /// Returns true if this is a DM channel.
    pub fn is_dm(&self) -> (r: bool)
        ensures
            r == self.kind.direct(),
    {
        match self.kind {
            ChannelType::Dm | ChannelType::GroupDm => true,
            _ => false,
        }
    }
}

impl ChannelType {
    /// The number that encodes this value in the Discord API.
    pub open spec fn code(self) -> u8 {
        match self {
            ChannelType::GuildText => 0,
            ChannelType::Dm => 1,
            ChannelType::GuildVoice => 2,
            ChannelType::GroupDm => 3,
            ChannelType::GuildCategory => 4,
            ChannelType::GuildAnnouncement => 5,
            ChannelType::AnnouncementThread => 10,
            ChannelType::PublicThread => 11,
            ChannelType::PrivateThread => 12,
            ChannelType::GuildStageVoice => 13,
            ChannelType::GuildDirectory => 14,
            ChannelType::GuildForum => 15,
            ChannelType::GuildMedia => 16,
        }
    }

    /// Whether `v` encodes some value of this type.
    pub open spec fn is_code(v: u8) -> bool {
        v == 0 || v == 1 || v == 2 || v == 3 || v == 4 || v == 5 || v == 10 || v == 11 || v == 12 || v == 13 || v == 14 || v == 15 || v == 16
    }

    /// The number that encodes this value in the Discord API.
    pub fn to_u8(self) -> (r: u8)
        ensures
            r == self.code(),
    {
        match self {
            ChannelType::GuildText => 0,
            ChannelType::Dm => 1,
            ChannelType::GuildVoice => 2,
            ChannelType::GroupDm => 3,
            ChannelType::GuildCategory => 4,
            ChannelType::GuildAnnouncement => 5,
            ChannelType::AnnouncementThread => 10,
            ChannelType::PublicThread => 11,
            ChannelType::PrivateThread => 12,
            ChannelType::GuildStageVoice => 13,
            ChannelType::GuildDirectory => 14,
            ChannelType::GuildForum => 15,
            ChannelType::GuildMedia => 16,
        }
    }

    /// The value that `v` encodes, if any.
    pub fn from_u8(v: u8) -> (r: Option<Self>)
        ensures
            match r {
                Some(t) => t.code() == v,
                None => !Self::is_code(v),
            },
    {
        if v == 0 {
            Some(ChannelType::GuildText)
        } else if v == 1 {
            Some(ChannelType::Dm)
        } else if v == 2 {
            Some(ChannelType::GuildVoice)
        } else if v == 3 {
            Some(ChannelType::GroupDm)
        } else if v == 4 {
            Some(ChannelType::GuildCategory)
        } else if v == 5 {
            Some(ChannelType::GuildAnnouncement)
        } else if v == 10 {
            Some(ChannelType::AnnouncementThread)
        } else if v == 11 {
            Some(ChannelType::PublicThread)
        } else if v == 12 {
            Some(ChannelType::PrivateThread)
        } else if v == 13 {
            Some(ChannelType::GuildStageVoice)
        } else if v == 14 {
            Some(ChannelType::GuildDirectory)
        } else if v == 15 {
            Some(ChannelType::GuildForum)
        } else if v == 16 {
            Some(ChannelType::GuildMedia)
        } else {
            None
        }
    }
}

/// Reading a `ChannelType` back from its number gives the same value: distinct
/// values have distinct numbers, and each value's number is one that
/// `from_u8` accepts.
pub proof fn law_channel_type_code_round_trip(a: ChannelType, b: ChannelType)
    ensures
        a.code() == b.code() ==> a == b,
        ChannelType::is_code(a.code()),
{
}

/// Each `ChannelType` has its number in the Discord API: Guild Text 0, Dm 1,
/// Guild Voice 2, Group Dm 3, Guild Category 4, Guild Announcement 5,
/// Announcement Thread 10, Public Thread 11, Private Thread 12, Guild Stage
/// Voice 13, Guild Directory 14, Guild Forum 15, Guild Media 16. These are the
/// only numbers that name one.
pub proof fn law_channel_type_numbers(v: u8)
    ensures
        ChannelType::GuildText.code() == 0,
        ChannelType::Dm.code() == 1,
        ChannelType::GuildVoice.code() == 2,
        ChannelType::GroupDm.code() == 3,
        ChannelType::GuildCategory.code() == 4,
        ChannelType::GuildAnnouncement.code() == 5,
        ChannelType::AnnouncementThread.code() == 10,
        ChannelType::PublicThread.code() == 11,
        ChannelType::PrivateThread.code() == 12,
        ChannelType::GuildStageVoice.code() == 13,
        ChannelType::GuildDirectory.code() == 14,
        ChannelType::GuildForum.code() == 15,
        ChannelType::GuildMedia.code() == 16,
        ChannelType::is_code(v) <==> (v == 0 || v == 1 || v == 2 || v == 3 || v == 4 || v == 5 || v == 10 || v == 11 || v == 12 || v == 13 || v == 14 || v == 15 || v == 16),
{
}

impl VideoQualityMode {
    /// The number that encodes this value in the Discord API.
    pub open spec fn code(self) -> u8 {
        match self {
            VideoQualityMode::Auto => 1,
            VideoQualityMode::Full => 2,
        }
    }

    /// Whether `v` encodes some value of this type.
    pub open spec fn is_code(v: u8) -> bool {
        v == 1 || v == 2
    }

    /// The number that encodes this value in the Discord API.
    pub fn to_u8(self) -> (r: u8)
        ensures
            r == self.code(),
    {
        match self {
            VideoQualityMode::Auto => 1,
            VideoQualityMode::Full => 2,
        }
    }

    /// The value that `v` encodes, if any.
    pub fn from_u8(v: u8) -> (r: Option<Self>)
        ensures
            match r {
                Some(t) => t.code() == v,
                None => !Self::is_code(v),
            },
    {
        if v == 1 {
            Some(VideoQualityMode::Auto)
        } else if v == 2 {
            Some(VideoQualityMode::Full)
        } else {
            None
        }
    }
}

/// Reading a `VideoQualityMode` back from its number gives the same value: distinct
/// values have distinct numbers, and each value's number is one that
/// `from_u8` accepts.
pub proof fn law_video_quality_mode_code_round_trip(a: VideoQualityMode, b: VideoQualityMode)
    ensures
        a.code() == b.code() ==> a == b,
        VideoQualityMode::is_code(a.code()),
{
}

/// Each `VideoQualityMode` has its number in the Discord API: Auto 1, Full 2.
/// These are the only numbers that name one.
pub proof fn law_video_quality_mode_numbers(v: u8)
    ensures
        VideoQualityMode::Auto.code() == 1,
        VideoQualityMode::Full.code() == 2,
        VideoQualityMode::is_code(v) <==> (v == 1 || v == 2),
{
}

impl SortOrderType {
    /// The number that encodes this value in the Discord API.
    pub open spec fn code(self) -> u8 {
        match self {
            SortOrderType::LatestActivity => 0,
            SortOrderType::CreationDate => 1,
        }
    }

    /// Whether `v` encodes some value of this type.
    pub open spec fn is_code(v: u8) -> bool {
        v == 0 || v == 1
    }

    /// The number that encodes this value in the Discord API.
    pub fn to_u8(self) -> (r: u8)
        ensures
            r == self.code(),
    {
        match self {
            SortOrderType::LatestActivity => 0,
            SortOrderType::CreationDate => 1,
        }
    }

    /// The value that `v` encodes, if any.
    pub fn from_u8(v: u8) -> (r: Option<Self>)
        ensures
            match r {
                Some(t) => t.code() == v,
                None => !Self::is_code(v),
            },
    {
        if v == 0 {
            Some(SortOrderType::LatestActivity)
        } else if v == 1 {
            Some(SortOrderType::CreationDate)
        } else {
            None
        }
    }
}

/// Reading a `SortOrderType` back from its number gives the same value: distinct
/// values have distinct numbers, and each value's number is one that
/// `from_u8` accepts.
pub proof fn law_sort_order_type_code_round_trip(a: SortOrderType, b: SortOrderType)
    ensures
        a.code() == b.code() ==> a == b,
        SortOrderType::is_code(a.code()),
{
}

/// Each `SortOrderType` has its number in the Discord API: Latest Activity 0,
/// Creation Date 1. These are the only numbers that name one.
pub proof fn law_sort_order_type_numbers(v: u8)
    ensures
        SortOrderType::LatestActivity.code() == 0,
        SortOrderType::CreationDate.code() == 1,
        SortOrderType::is_code(v) <==> (v == 0 || v == 1),
{
}

impl ForumLayoutType {
    /// The number that encodes this value in the Discord API.
    pub open spec fn code(self) -> u8 {
        match self {
            ForumLayoutType::NotSet => 0,
            ForumLayoutType::ListView => 1,
            ForumLayoutType::GalleryView => 2,
        }
    }

    /// Whether `v` encodes some value of this type.
    pub open spec fn is_code(v: u8) -> bool {
        v == 0 || v == 1 || v == 2
    }

    /// The number that encodes this value in the Discord API.
    pub fn to_u8(self) -> (r: u8)
        ensures
            r == self.code(),
    {
        match self {
            ForumLayoutType::NotSet => 0,
            ForumLayoutType::ListView => 1,
            ForumLayoutType::GalleryView => 2,
        }
    }

    /// The value that `v` encodes, if any.
    pub fn from_u8(v: u8) -> (r: Option<Self>)
        ensures
            match r {
                Some(t) => t.code() == v,
                None => !Self::is_code(v),
            },
    {
        if v == 0 {
            Some(ForumLayoutType::NotSet)
        } else if v == 1 {
            Some(ForumLayoutType::ListView)
        } else if v == 2 {
            Some(ForumLayoutType::GalleryView)
        } else {
            None
        }
    }
}

/// Reading a `ForumLayoutType` back from its number gives the same value: distinct
/// values have distinct numbers, and each value's number is one that
/// `from_u8` accepts.
pub proof fn law_forum_layout_type_code_round_trip(a: ForumLayoutType, b: ForumLayoutType)
    ensures
        a.code() == b.code() ==> a == b,
        ForumLayoutType::is_code(a.code()),
{
}

/// Each `ForumLayoutType` has its number in the Discord API: Not Set 0, List
/// View 1, Gallery View 2. These are the only numbers that name one.
pub proof fn law_forum_layout_type_numbers(v: u8)
    ensures
        ForumLayoutType::NotSet.code() == 0,
        ForumLayoutType::ListView.code() == 1,
        ForumLayoutType::GalleryView.code() == 2,
        ForumLayoutType::is_code(v) <==> (v == 0 || v == 1 || v == 2),
{
}

} // verus!
