//! Message-related models.
use vstd::prelude::*;
use crate::guild::Member;
use crate::id::{AttachmentId, ChannelId, GuildId, MessageId, RoleId, WebhookId};
use crate::text::{dec_str, push_decimal};
use crate::user::User;

verus! {

/// The URL that opens a message in the Discord client; direct messages,
/// which have no guild, use `@me` in place of the guild ID.
pub open spec fn jump_url_text(guild_id: Option<GuildId>, channel_id: u64, id: u64) -> Seq<char> {
    "https://discord.com/channels/"@ + (match guild_id {
        Some(g) => dec_str(g.0 as nat),
        None => "@me"@,
    }) + "/"@ + dec_str(channel_id as nat) + "/"@ + dec_str(id as nat)
}

/// A file attached to a message.
#[derive(Clone, Debug)]
pub struct Attachment {
    /// Attachment ID.
    pub id: AttachmentId,
    /// Name of the attached file.
    pub filename: String,
    /// Size of the file in bytes.
    pub size: u64,
    /// Source URL of the file.
    pub url: String,
    /// A proxied URL of the file.
    pub proxy_url: String,
    /// The media type of the file.
    pub content_type: Option<String>,
}

/// Rich embedded content of a message.
#[derive(Clone, Debug, Default)]
pub struct Embed {
    /// Title of the embed.
    pub title: Option<String>,
    /// Description of the embed.
    pub description: Option<String>,
    /// URL of the embed.
    pub url: Option<String>,
    /// Timestamp of the embed content.
    pub timestamp: Option<String>,
    /// Color code of the embed.
    pub color: Option<u32>,
}

/// An interactive component of a message (button, select menu, text input, or a row of them).
#[derive(Debug)]
pub struct Component {
    /// Type of component.
    pub kind: u8,
    /// Developer-defined identifier of the component.
    pub custom_id: Option<String>,
    /// Text on the component.
    pub label: Option<String>,
    /// Value of a text input.
    pub value: Option<String>,
    /// Child components of an action row.
    pub components: Vec<Component>,
}

/// Represents a message sent in a channel.
#[derive(Clone, Debug)]
pub struct Message {
    /// ID of the message.
    pub id: MessageId,
    /// ID of the channel the message was sent in.
    pub channel_id: ChannelId,
    /// ID of the guild the message was sent in, if any.
    pub guild_id: Option<GuildId>,
    /// The author of this message.
    pub author: User,
    /// Member properties for the author, for messages in guilds.
    pub member: Option<Member>,
    /// Contents of the message.
    pub content: String,
    /// When this message was sent.
    pub timestamp: String,
    /// When this message was edited, if it was.
    pub edited_timestamp: Option<String>,
    /// Whether this was a TTS message.
    pub tts: bool,
    /// Whether this message mentions everyone.
    pub mention_everyone: bool,
    /// Users specifically mentioned in the message.
    pub mentions: Vec<User>,
    /// Roles specifically mentioned in this message.
    pub mention_roles: Vec<RoleId>,
    /// Attached files.
    pub attachments: Vec<Attachment>,
    /// Embedded content.
    pub embeds: Vec<Embed>,
    /// Whether this message is pinned.
    pub pinned: bool,
    /// If the message was generated by a webhook, the webhook's ID.
    pub webhook_id: Option<WebhookId>,
    /// Type of message.
    pub kind: u8,
    /// Message flags.
    pub flags: Option<u64>,
}

impl Message {
    /// A URL that links to this message.
    pub fn jump_url(&self) -> (r: String)
        ensures
            r@ == jump_url_text(self.guild_id, self.channel_id.0, self.id.0),
    {
        let mut s = String::from_str("https://discord.com/channels/");
        match self.guild_id {
            Some(g) => push_decimal(&mut s, g.0),
            None => s.append("@me"),
        }
        s.append("/");
        push_decimal(&mut s, self.channel_id.0);
        s.append("/");
        push_decimal(&mut s, self.id.0);
        s
    }
}

} // verus!
