//! Discord ID types.
//!
//! Every Discord ID is a newtype over the 64-bit snowflake value. The decimal
//! text of an ID is what the API sends and receives.
use vstd::prelude::*;
use std::num::ParseIntError;
use vstd::std_specs::convert::FromSpecImpl;
use crate::text::{dec_str, decimal, parse_u64, parse_u64_spec};

verus! {

/// Milliseconds from the UNIX epoch to the Discord epoch (2015-01-01T00:00:00.000Z).
pub const DISCORD_EPOCH: u64 = 1420070400000;

/// The creation time, in UNIX milliseconds, that a snowflake encodes:
/// its top 42 bits count milliseconds since the Discord epoch.
pub open spec fn snowflake_millis(id: u64) -> int {
    (id / 0x400000) + DISCORD_EPOCH
}

/// The creation time, in UNIX milliseconds, of the snowflake `id`.
pub fn snowflake_timestamp_ms(id: u64) -> (r: u64)
    ensures
        r == snowflake_millis(id),
{
    let high: u64 = id >> 22;
    assert(high == id / 0x400000) by (bit_vector)
        requires high == id >> 22;
    assert(high < 0x40000000000) by (bit_vector)
        requires high == id >> 22;
    high + DISCORD_EPOCH
}


/// A unique identifier for a Discord user.
#[derive(Clone, Copy, Debug, Eq, Hash, Ord, PartialEq, PartialOrd, Default, Structural)]
pub struct UserId(pub u64);

impl UserId {
    /// Create a new ID from a u64 value.
    pub fn new(id: u64) -> (r: Self)
        ensures
            r.0 == id,
    {
        UserId(id)
    }

    /// Get the inner u64 value.
    pub fn get(self) -> (r: u64)
        ensures
            r == self.0,
    {
        self.0
    }

    /// The creation time of this snowflake in UNIX milliseconds.
    pub fn created_at_millis(self) -> (r: u64)
        ensures
            r == snowflake_millis(self.0),
    {
        snowflake_timestamp_ms(self.0)
    }

    /// The decimal text of this ID, as `Display` writes it.
    pub fn to_string(&self) -> (s: String)
        ensures
            s@ == dec_str(self.0 as nat),
    {
        decimal(self.0)
    }

    /// Parse an ID from its decimal text, as `FromStr` does.
    pub fn parse_str(s: &str) -> (r: Result<Self, ParseIntError>)
        ensures
            match r {
                Ok(id) => parse_u64_spec(s@) == Some(id.0),
                Err(_) => parse_u64_spec(s@) is None,
            },
    {
        match parse_u64(s) {
            Ok(v) => Ok(UserId(v)),
            Err(e) => Err(e),
        }
    }
}

impl From<u64> for UserId {
    fn from(id: u64) -> (r: Self) {
        UserId(id)
    }
}

impl FromSpecImpl<u64> for UserId {
    open spec fn obeys_from_spec() -> bool {
        true
    }

    open spec fn from_spec(id: u64) -> Self {
        UserId(id)
    }
}

impl From<UserId> for u64 {
    fn from(id: UserId) -> (r: Self) {
        id.0
    }
}

impl FromSpecImpl<UserId> for u64 {
    open spec fn obeys_from_spec() -> bool {
        true
    }

    open spec fn from_spec(id: UserId) -> u64 {
        id.0
    }
}

impl std::str::FromStr for UserId {
    type Err = ParseIntError;

    fn from_str(s: &str) -> (r: Result<Self, Self::Err>)
        ensures
            match r {
                Ok(id) => parse_u64_spec(s@) == Some(id.0),
                Err(_) => parse_u64_spec(s@) is None,
            },
    {
        Self::parse_str(s)
    }
}

/// A unique identifier for a Discord guild (server).
#[derive(Clone, Copy, Debug, Eq, Hash, Ord, PartialEq, PartialOrd, Default, Structural)]
pub struct GuildId(pub u64);

impl GuildId {
    /// Create a new ID from a u64 value.
    pub fn new(id: u64) -> (r: Self)
        ensures
            r.0 == id,
    {
        GuildId(id)
    }

    /// Get the inner u64 value.
    pub fn get(self) -> (r: u64)
        ensures
            r == self.0,
    {
        self.0
    }

    /// The creation time of this snowflake in UNIX milliseconds.
    pub fn created_at_millis(self) -> (r: u64)
        ensures
            r == snowflake_millis(self.0),
    {
        snowflake_timestamp_ms(self.0)
    }

    /// The decimal text of this ID, as `Display` writes it.
    pub fn to_string(&self) -> (s: String)
        ensures
            s@ == dec_str(self.0 as nat),
    {
        decimal(self.0)
    }

    /// Parse an ID from its decimal text, as `FromStr` does.
    pub fn parse_str(s: &str) -> (r: Result<Self, ParseIntError>)
        ensures
            match r {
                Ok(id) => parse_u64_spec(s@) == Some(id.0),
                Err(_) => parse_u64_spec(s@) is None,
            },
    {
        match parse_u64(s) {
            Ok(v) => Ok(GuildId(v)),
            Err(e) => Err(e),
        }
    }
}

impl From<u64> for GuildId {
    fn from(id: u64) -> (r: Self) {
        GuildId(id)
    }
}

impl FromSpecImpl<u64> for GuildId {
    open spec fn obeys_from_spec() -> bool {
        true
    }

    open spec fn from_spec(id: u64) -> Self {
        GuildId(id)
    }
}

impl From<GuildId> for u64 {
    fn from(id: GuildId) -> (r: Self) {
        id.0
    }
}

impl FromSpecImpl<GuildId> for u64 {
    open spec fn obeys_from_spec() -> bool {
        true
    }

    open spec fn from_spec(id: GuildId) -> u64 {
        id.0
    }
}

impl std::str::FromStr for GuildId {
    type Err = ParseIntError;

    fn from_str(s: &str) -> (r: Result<Self, Self::Err>)
        ensures
            match r {
                Ok(id) => parse_u64_spec(s@) == Some(id.0),
                Err(_) => parse_u64_spec(s@) is None,
            },
    {
        Self::parse_str(s)
    }
}

/// A unique identifier for a Discord channel.
#[derive(Clone, Copy, Debug, Eq, Hash, Ord, PartialEq, PartialOrd, Default, Structural)]
pub struct ChannelId(pub u64);

impl ChannelId {
    /// Create a new ID from a u64 value.
    pub fn new(id: u64) -> (r: Self)
        ensures
            r.0 == id,
    {
        ChannelId(id)
    }

    /// Get the inner u64 value.
    pub fn get(self) -> (r: u64)
        ensures
            r == self.0,
    {
        self.0
    }

    /// The creation time of this snowflake in UNIX milliseconds.
    pub fn created_at_millis(self) -> (r: u64)
        ensures
            r == snowflake_millis(self.0),
    {
        snowflake_timestamp_ms(self.0)
    }

    /// The decimal text of this ID, as `Display` writes it.
    pub fn to_string(&self) -> (s: String)
        ensures
            s@ == dec_str(self.0 as nat),
    {
        decimal(self.0)
    }

    /// Parse an ID from its decimal text, as `FromStr` does.
    pub fn parse_str(s: &str) -> (r: Result<Self, ParseIntError>)
        ensures
            match r {
                Ok(id) => parse_u64_spec(s@) == Some(id.0),
                Err(_) => parse_u64_spec(s@) is None,
            },
    {
        match parse_u64(s) {
            Ok(v) => Ok(ChannelId(v)),
            Err(e) => Err(e),
        }
    }
}

impl From<u64> for ChannelId {
    fn from(id: u64) -> (r: Self) {
        ChannelId(id)
    }
}

impl FromSpecImpl<u64> for ChannelId {
    open spec fn obeys_from_spec() -> bool {
        true
    }

    open spec fn from_spec(id: u64) -> Self {
        ChannelId(id)
    }
}

impl From<ChannelId> for u64 {
    fn from(id: ChannelId) -> (r: Self) {
        id.0
    }
}

impl FromSpecImpl<ChannelId> for u64 {
    open spec fn obeys_from_spec() -> bool {
        true
    }

    open spec fn from_spec(id: ChannelId) -> u64 {
        id.0
    }
}

impl std::str::FromStr for ChannelId {
    type Err = ParseIntError;

    fn from_str(s: &str) -> (r: Result<Self, Self::Err>)
        ensures
            match r {
                Ok(id) => parse_u64_spec(s@) == Some(id.0),
                Err(_) => parse_u64_spec(s@) is None,
            },
    {
        Self::parse_str(s)
    }
}

/// A unique identifier for a Discord message.
#[derive(Clone, Copy, Debug, Eq, Hash, Ord, PartialEq, PartialOrd, Default, Structural)]
pub struct MessageId(pub u64);

impl MessageId {
    /// Create a new ID from a u64 value.
    pub fn new(id: u64) -> (r: Self)
        ensures
            r.0 == id,
    {
        MessageId(id)
    }

    /// Get the inner u64 value.
    pub fn get(self) -> (r: u64)
        ensures
            r == self.0,
    {
        self.0
    }

    /// The creation time of this snowflake in UNIX milliseconds.
    pub fn created_at_millis(self) -> (r: u64)
        ensures
            r == snowflake_millis(self.0),
    {
        snowflake_timestamp_ms(self.0)
    }

    /// The decimal text of this ID, as `Display` writes it.
    pub fn to_string(&self) -> (s: String)
        ensures
            s@ == dec_str(self.0 as nat),
    {
        decimal(self.0)
    }

    /// Parse an ID from its decimal text, as `FromStr` does.
    pub fn parse_str(s: &str) -> (r: Result<Self, ParseIntError>)
        ensures
            match r {
                Ok(id) => parse_u64_spec(s@) == Some(id.0),
                Err(_) => parse_u64_spec(s@) is None,
            },
    {
        match parse_u64(s) {
            Ok(v) => Ok(MessageId(v)),
            Err(e) => Err(e),
        }
    }
}

impl From<u64> for MessageId {
    fn from(id: u64) -> (r: Self) {
        MessageId(id)
    }
}

impl FromSpecImpl<u64> for MessageId {
    open spec fn obeys_from_spec() -> bool {
        true
    }

    open spec fn from_spec(id: u64) -> Self {
        MessageId(id)
    }
}

impl From<MessageId> for u64 {
    fn from(id: MessageId) -> (r: Self) {
        id.0
    }
}

impl FromSpecImpl<MessageId> for u64 {
    open spec fn obeys_from_spec() -> bool {
        true
    }

    open spec fn from_spec(id: MessageId) -> u64 {
        id.0
    }
}

impl std::str::FromStr for MessageId {
    type Err = ParseIntError;

    fn from_str(s: &str) -> (r: Result<Self, Self::Err>)
        ensures
            match r {
                Ok(id) => parse_u64_spec(s@) == Some(id.0),
                Err(_) => parse_u64_spec(s@) is None,
            },
    {
        Self::parse_str(s)
    }
}

/// A unique identifier for a Discord role.
#[derive(Clone, Copy, Debug, Eq, Hash, Ord, PartialEq, PartialOrd, Default, Structural)]
pub struct RoleId(pub u64);

impl RoleId {
    /// Create a new ID from a u64 value.
    pub fn new(id: u64) -> (r: Self)
        ensures
            r.0 == id,
    {
        RoleId(id)
    }

    /// Get the inner u64 value.
    pub fn get(self) -> (r: u64)
        ensures
            r == self.0,
    {
        self.0
    }

    /// The creation time of this snowflake in UNIX milliseconds.
    pub fn created_at_millis(self) -> (r: u64)
        ensures
            r == snowflake_millis(self.0),
    {
        snowflake_timestamp_ms(self.0)
    }

    /// The decimal text of this ID, as `Display` writes it.
    pub fn to_string(&self) -> (s: String)
        ensures
            s@ == dec_str(self.0 as nat),
    {
        decimal(self.0)
    }

    /// Parse an ID from its decimal text, as `FromStr` does.
    pub fn parse_str(s: &str) -> (r: Result<Self, ParseIntError>)
        ensures
            match r {
                Ok(id) => parse_u64_spec(s@) == Some(id.0),
                Err(_) => parse_u64_spec(s@) is None,
            },
    {
        match parse_u64(s) {
            Ok(v) => Ok(RoleId(v)),
            Err(e) => Err(e),
        }
    }
}

impl From<u64> for RoleId {
    fn from(id: u64) -> (r: Self) {
        RoleId(id)
    }
}

impl FromSpecImpl<u64> for RoleId {
    open spec fn obeys_from_spec() -> bool {
        true
    }

    open spec fn from_spec(id: u64) -> Self {
        RoleId(id)
    }
}

impl From<RoleId> for u64 {
    fn from(id: RoleId) -> (r: Self) {
        id.0
    }
}

impl FromSpecImpl<RoleId> for u64 {
    open spec fn obeys_from_spec() -> bool {
        true
    }

    open spec fn from_spec(id: RoleId) -> u64 {
        id.0
    }
}

impl std::str::FromStr for RoleId {
    type Err = ParseIntError;

    fn from_str(s: &str) -> (r: Result<Self, Self::Err>)
        ensures
            match r {
                Ok(id) => parse_u64_spec(s@) == Some(id.0),
                Err(_) => parse_u64_spec(s@) is None,
            },
    {
        Self::parse_str(s)
    }
}

/// A unique identifier for a Discord custom emoji.
#[derive(Clone, Copy, Debug, Eq, Hash, Ord, PartialEq, PartialOrd, Default, Structural)]
pub struct EmojiId(pub u64);

impl EmojiId {
    /// Create a new ID from a u64 value.
    pub fn new(id: u64) -> (r: Self)
        ensures
            r.0 == id,
    {
        EmojiId(id)
    }

    /// Get the inner u64 value.
    pub fn get(self) -> (r: u64)
        ensures
            r == self.0,
    {
        self.0
    }

    /// The creation time of this snowflake in UNIX milliseconds.
    pub fn created_at_millis(self) -> (r: u64)
        ensures
            r == snowflake_millis(self.0),
    {
        snowflake_timestamp_ms(self.0)
    }

    /// The decimal text of this ID, as `Display` writes it.
    pub fn to_string(&self) -> (s: String)
        ensures
            s@ == dec_str(self.0 as nat),
    {
        decimal(self.0)
    }

    /// Parse an ID from its decimal text, as `FromStr` does.
    pub fn parse_str(s: &str) -> (r: Result<Self, ParseIntError>)
        ensures
            match r {
                Ok(id) => parse_u64_spec(s@) == Some(id.0),
                Err(_) => parse_u64_spec(s@) is None,
            },
    {
        match parse_u64(s) {
            Ok(v) => Ok(EmojiId(v)),
            Err(e) => Err(e),
        }
    }
}

impl From<u64> for EmojiId {
    fn from(id: u64) -> (r: Self) {
        EmojiId(id)
    }
}

impl FromSpecImpl<u64> for EmojiId {
    open spec fn obeys_from_spec() -> bool {
        true
    }

    open spec fn from_spec(id: u64) -> Self {
        EmojiId(id)
    }
}

impl From<EmojiId> for u64 {
    fn from(id: EmojiId) -> (r: Self) {
        id.0
    }
}

impl FromSpecImpl<EmojiId> for u64 {
    open spec fn obeys_from_spec() -> bool {
        true
    }

    open spec fn from_spec(id: EmojiId) -> u64 {
        id.0
    }
}

impl std::str::FromStr for EmojiId {
    type Err = ParseIntError;

    fn from_str(s: &str) -> (r: Result<Self, Self::Err>)
        ensures
            match r {
                Ok(id) => parse_u64_spec(s@) == Some(id.0),
                Err(_) => parse_u64_spec(s@) is None,
            },
    {
        Self::parse_str(s)
    }
}

/// A unique identifier for a Discord application.
#[derive(Clone, Copy, Debug, Eq, Hash, Ord, PartialEq, PartialOrd, Default, Structural)]
pub struct ApplicationId(pub u64);

impl ApplicationId {
    /// Create a new ID from a u64 value.
    pub fn new(id: u64) -> (r: Self)
        ensures
            r.0 == id,
    {
        ApplicationId(id)
    }

    /// Get the inner u64 value.
    pub fn get(self) -> (r: u64)
        ensures
            r == self.0,
    {
        self.0
    }

    /// The creation time of this snowflake in UNIX milliseconds.
    pub fn created_at_millis(self) -> (r: u64)
        ensures
            r == snowflake_millis(self.0),
    {
        snowflake_timestamp_ms(self.0)
    }

    /// The decimal text of this ID, as `Display` writes it.
    pub fn to_string(&self) -> (s: String)
        ensures
            s@ == dec_str(self.0 as nat),
    {
        decimal(self.0)
    }

    /// Parse an ID from its decimal text, as `FromStr` does.
    pub fn parse_str(s: &str) -> (r: Result<Self, ParseIntError>)
        ensures
            match r {
                Ok(id) => parse_u64_spec(s@) == Some(id.0),
                Err(_) => parse_u64_spec(s@) is None,
            },
    {
        match parse_u64(s) {
            Ok(v) => Ok(ApplicationId(v)),
            Err(e) => Err(e),
        }
    }
}

impl From<u64> for ApplicationId {
    fn from(id: u64) -> (r: Self) {
        ApplicationId(id)
    }
}

impl FromSpecImpl<u64> for ApplicationId {
    open spec fn obeys_from_spec() -> bool {
        true
    }

    open spec fn from_spec(id: u64) -> Self {
        ApplicationId(id)
    }
}

impl From<ApplicationId> for u64 {
    fn from(id: ApplicationId) -> (r: Self) {
        id.0
    }
}

impl FromSpecImpl<ApplicationId> for u64 {
    open spec fn obeys_from_spec() -> bool {
        true
    }

    open spec fn from_spec(id: ApplicationId) -> u64 {
        id.0
    }
}

impl std::str::FromStr for ApplicationId {
    type Err = ParseIntError;

    fn from_str(s: &str) -> (r: Result<Self, Self::Err>)
        ensures
            match r {
                Ok(id) => parse_u64_spec(s@) == Some(id.0),
                Err(_) => parse_u64_spec(s@) is None,
            },
    {
        Self::parse_str(s)
    }
}

/// A unique identifier for a Discord webhook.
#[derive(Clone, Copy, Debug, Eq, Hash, Ord, PartialEq, PartialOrd, Default, Structural)]
pub struct WebhookId(pub u64);

impl WebhookId {
    /// Create a new ID from a u64 value.
    pub fn new(id: u64) -> (r: Self)
        ensures
            r.0 == id,
    {
        WebhookId(id)
    }

    /// Get the inner u64 value.
    pub fn get(self) -> (r: u64)
        ensures
            r == self.0,
    {
        self.0
    }

    /// The creation time of this snowflake in UNIX milliseconds.
    pub fn created_at_millis(self) -> (r: u64)
        ensures
            r == snowflake_millis(self.0),
    {
        snowflake_timestamp_ms(self.0)
    }

    /// The decimal text of this ID, as `Display` writes it.
    pub fn to_string(&self) -> (s: String)
        ensures
            s@ == dec_str(self.0 as nat),
    {
        decimal(self.0)
    }

    /// Parse an ID from its decimal text, as `FromStr` does.
    pub fn parse_str(s: &str) -> (r: Result<Self, ParseIntError>)
        ensures
            match r {
                Ok(id) => parse_u64_spec(s@) == Some(id.0),
                Err(_) => parse_u64_spec(s@) is None,
            },
    {
        match parse_u64(s) {
            Ok(v) => Ok(WebhookId(v)),
            Err(e) => Err(e),
        }
    }
}

impl From<u64> for WebhookId {
    fn from(id: u64) -> (r: Self) {
        WebhookId(id)
    }
}

impl FromSpecImpl<u64> for WebhookId {
    open spec fn obeys_from_spec() -> bool {
        true
    }

    open spec fn from_spec(id: u64) -> Self {
        WebhookId(id)
    }
}

impl From<WebhookId> for u64 {
    fn from(id: WebhookId) -> (r: Self) {
        id.0
    }
}

impl FromSpecImpl<WebhookId> for u64 {
    open spec fn obeys_from_spec() -> bool {
        true
    }

    open spec fn from_spec(id: WebhookId) -> u64 {
        id.0
    }
}

impl std::str::FromStr for WebhookId {
    type Err = ParseIntError;

    fn from_str(s: &str) -> (r: Result<Self, Self::Err>)
        ensures
            match r {
                Ok(id) => parse_u64_spec(s@) == Some(id.0),
                Err(_) => parse_u64_spec(s@) is None,
            },
    {
        Self::parse_str(s)
    }
}

/// A unique identifier for a Discord attachment.
#[derive(Clone, Copy, Debug, Eq, Hash, Ord, PartialEq, PartialOrd, Default, Structural)]
pub struct AttachmentId(pub u64);

impl AttachmentId {
    /// Create a new ID from a u64 value.
    pub fn new(id: u64) -> (r: Self)
        ensures
            r.0 == id,
    {
        AttachmentId(id)
    }

    /// Get the inner u64 value.
    pub fn get(self) -> (r: u64)
        ensures
            r == self.0,
    {
        self.0
    }

    /// The creation time of this snowflake in UNIX milliseconds.
    pub fn created_at_millis(self) -> (r: u64)
        ensures
            r == snowflake_millis(self.0),
    {
        snowflake_timestamp_ms(self.0)
    }

    /// The decimal text of this ID, as `Display` writes it.
    pub fn to_string(&self) -> (s: String)
        ensures
            s@ == dec_str(self.0 as nat),
    {
        decimal(self.0)
    }

    /// Parse an ID from its decimal text, as `FromStr` does.
    pub fn parse_str(s: &str) -> (r: Result<Self, ParseIntError>)
        ensures
            match r {
                Ok(id) => parse_u64_spec(s@) == Some(id.0),
                Err(_) => parse_u64_spec(s@) is None,
            },
    {
        match parse_u64(s) {
            Ok(v) => Ok(AttachmentId(v)),
            Err(e) => Err(e),
        }
    }
}

impl From<u64> for AttachmentId {
    fn from(id: u64) -> (r: Self) {
        AttachmentId(id)
    }
}

impl FromSpecImpl<u64> for AttachmentId {
    open spec fn obeys_from_spec() -> bool {
        true
    }

    open spec fn from_spec(id: u64) -> Self {
        AttachmentId(id)
    }
}

impl From<AttachmentId> for u64 {
    fn from(id: AttachmentId) -> (r: Self) {
        id.0
    }
}

impl FromSpecImpl<AttachmentId> for u64 {
    open spec fn obeys_from_spec() -> bool {
        true
    }

    open spec fn from_spec(id: AttachmentId) -> u64 {
        id.0
    }
}

impl std::str::FromStr for AttachmentId {
    type Err = ParseIntError;

    fn from_str(s: &str) -> (r: Result<Self, Self::Err>)
        ensures
            match r {
                Ok(id) => parse_u64_spec(s@) == Some(id.0),
                Err(_) => parse_u64_spec(s@) is None,
            },
    {
        Self::parse_str(s)
    }
}

/// A unique identifier for a Discord sticker pack.
#[derive(Clone, Copy, Debug, Eq, Hash, Ord, PartialEq, PartialOrd, Default, Structural)]
pub struct StickerPackId(pub u64);

impl StickerPackId {
    /// Create a new ID from a u64 value.
    pub fn new(id: u64) -> (r: Self)
        ensures
            r.0 == id,
    {
        StickerPackId(id)
    }

    /// Get the inner u64 value.
    pub fn get(self) -> (r: u64)
        ensures
            r == self.0,
    {
        self.0
    }

    /// The creation time of this snowflake in UNIX milliseconds.
    pub fn created_at_millis(self) -> (r: u64)
        ensures
            r == snowflake_millis(self.0),
    {
        snowflake_timestamp_ms(self.0)
    }

    /// The decimal text of this ID, as `Display` writes it.
    pub fn to_string(&self) -> (s: String)
        ensures
            s@ == dec_str(self.0 as nat),
    {
        decimal(self.0)
    }

    /// Parse an ID from its decimal text, as `FromStr` does.
    pub fn parse_str(s: &str) -> (r: Result<Self, ParseIntError>)
        ensures
            match r {
                Ok(id) => parse_u64_spec(s@) == Some(id.0),
                Err(_) => parse_u64_spec(s@) is None,
            },
    {
        match parse_u64(s) {
            Ok(v) => Ok(StickerPackId(v)),
            Err(e) => Err(e),
        }
    }
}

impl From<u64> for StickerPackId {
    fn from(id: u64) -> (r: Self) {
        StickerPackId(id)
    }
}

impl FromSpecImpl<u64> for StickerPackId {
    open spec fn obeys_from_spec() -> bool {
        true
    }

    open spec fn from_spec(id: u64) -> Self {
        StickerPackId(id)
    }
}

impl From<StickerPackId> for u64 {
    fn from(id: StickerPackId) -> (r: Self) {
        id.0
    }
}

impl FromSpecImpl<StickerPackId> for u64 {
    open spec fn obeys_from_spec() -> bool {
        true
    }

    open spec fn from_spec(id: StickerPackId) -> u64 {
        id.0
    }
}

impl std::str::FromStr for StickerPackId {
    type Err = ParseIntError;

    fn from_str(s: &str) -> (r: Result<Self, Self::Err>)
        ensures
            match r {
                Ok(id) => parse_u64_spec(s@) == Some(id.0),
                Err(_) => parse_u64_spec(s@) is None,
            },
    {
        Self::parse_str(s)
    }
}

/// A unique identifier for a Discord sticker.
#[derive(Clone, Copy, Debug, Eq, Hash, Ord, PartialEq, PartialOrd, Default, Structural)]
pub struct StickerId(pub u64);

impl StickerId {
    /// Create a new ID from a u64 value.
    pub fn new(id: u64) -> (r: Self)
        ensures
            r.0 == id,
    {
        StickerId(id)
    }

    /// Get the inner u64 value.
    pub fn get(self) -> (r: u64)
        ensures
            r == self.0,
    {
        self.0
    }

    /// The creation time of this snowflake in UNIX milliseconds.
    pub fn created_at_millis(self) -> (r: u64)
        ensures
            r == snowflake_millis(self.0),
    {
        snowflake_timestamp_ms(self.0)
    }

    /// The decimal text of this ID, as `Display` writes it.
    pub fn to_string(&self) -> (s: String)
        ensures
            s@ == dec_str(self.0 as nat),
    {
        decimal(self.0)
    }

    /// Parse an ID from its decimal text, as `FromStr` does.
    pub fn parse_str(s: &str) -> (r: Result<Self, ParseIntError>)
        ensures
            match r {
                Ok(id) => parse_u64_spec(s@) == Some(id.0),
                Err(_) => parse_u64_spec(s@) is None,
            },
    {
        match parse_u64(s) {
            Ok(v) => Ok(StickerId(v)),
            Err(e) => Err(e),
        }
    }
}

impl From<u64> for StickerId {
    fn from(id: u64) -> (r: Self) {
        StickerId(id)
    }
}

impl FromSpecImpl<u64> for StickerId {
    open spec fn obeys_from_spec() -> bool {
        true
    }

    open spec fn from_spec(id: u64) -> Self {
        StickerId(id)
    }
}

impl From<StickerId> for u64 {
    fn from(id: StickerId) -> (r: Self) {
        id.0
    }
}

impl FromSpecImpl<StickerId> for u64 {
    open spec fn obeys_from_spec() -> bool {
        true
    }

    open spec fn from_spec(id: StickerId) -> u64 {
        id.0
    }
}

impl std::str::FromStr for StickerId {
    type Err = ParseIntError;

    fn from_str(s: &str) -> (r: Result<Self, Self::Err>)
        ensures
            match r {
                Ok(id) => parse_u64_spec(s@) == Some(id.0),
                Err(_) => parse_u64_spec(s@) is None,
            },
    {
        Self::parse_str(s)
    }
}

/// A unique identifier for a Discord interaction.
#[derive(Clone, Copy, Debug, Eq, Hash, Ord, PartialEq, PartialOrd, Default, Structural)]
pub struct InteractionId(pub u64);

impl InteractionId {
    /// Create a new ID from a u64 value.
    pub fn new(id: u64) -> (r: Self)
        ensures
            r.0 == id,
    {
        InteractionId(id)
    }

    /// Get the inner u64 value.
    pub fn get(self) -> (r: u64)
        ensures
            r == self.0,
    {
        self.0
    }

    /// The creation time of this snowflake in UNIX milliseconds.
    pub fn created_at_millis(self) -> (r: u64)
        ensures
            r == snowflake_millis(self.0),
    {
        snowflake_timestamp_ms(self.0)
    }

    /// The decimal text of this ID, as `Display` writes it.
    pub fn to_string(&self) -> (s: String)
        ensures
            s@ == dec_str(self.0 as nat),
    {
        decimal(self.0)
    }

    /// Parse an ID from its decimal text, as `FromStr` does.
    pub fn parse_str(s: &str) -> (r: Result<Self, ParseIntError>)
        ensures
            match r {
                Ok(id) => parse_u64_spec(s@) == Some(id.0),
                Err(_) => parse_u64_spec(s@) is None,
            },
    {
        match parse_u64(s) {
            Ok(v) => Ok(InteractionId(v)),
            Err(e) => Err(e),
        }
    }
}

impl From<u64> for InteractionId {
    fn from(id: u64) -> (r: Self) {
        InteractionId(id)
    }
}

impl FromSpecImpl<u64> for InteractionId {
    open spec fn obeys_from_spec() -> bool {
        true
    }

    open spec fn from_spec(id: u64) -> Self {
        InteractionId(id)
    }
}

impl From<InteractionId> for u64 {
    fn from(id: InteractionId) -> (r: Self) {
        id.0
    }
}

impl FromSpecImpl<InteractionId> for u64 {
    open spec fn obeys_from_spec() -> bool {
        true
    }

    open spec fn from_spec(id: InteractionId) -> u64 {
        id.0
    }
}

impl std::str::FromStr for InteractionId {
    type Err = ParseIntError;

    fn from_str(s: &str) -> (r: Result<Self, Self::Err>)
        ensures
            match r {
                Ok(id) => parse_u64_spec(s@) == Some(id.0),
                Err(_) => parse_u64_spec(s@) is None,
            },
    {
        Self::parse_str(s)
    }
}

/// A unique identifier for an application command.
#[derive(Clone, Copy, Debug, Eq, Hash, Ord, PartialEq, PartialOrd, Default, Structural)]
pub struct CommandId(pub u64);

impl CommandId {
    /// Create a new ID from a u64 value.
    pub fn new(id: u64) -> (r: Self)
        ensures
            r.0 == id,
    {
        CommandId(id)
    }

    /// Get the inner u64 value.
    pub fn get(self) -> (r: u64)
        ensures
            r == self.0,
    {
        self.0
    }

    /// The creation time of this snowflake in UNIX milliseconds.
    pub fn created_at_millis(self) -> (r: u64)
        ensures
            r == snowflake_millis(self.0),
    {
        snowflake_timestamp_ms(self.0)
    }

    /// The decimal text of this ID, as `Display` writes it.
    pub fn to_string(&self) -> (s: String)
        ensures
            s@ == dec_str(self.0 as nat),
    {
        decimal(self.0)
    }

    /// Parse an ID from its decimal text, as `FromStr` does.
    pub fn parse_str(s: &str) -> (r: Result<Self, ParseIntError>)
        ensures
            match r {
                Ok(id) => parse_u64_spec(s@) == Some(id.0),
                Err(_) => parse_u64_spec(s@) is None,
            },
    {
        match parse_u64(s) {
            Ok(v) => Ok(CommandId(v)),
            Err(e) => Err(e),
        }
    }
}

impl From<u64> for CommandId {
    fn from(id: u64) -> (r: Self) {
        CommandId(id)
    }
}

impl FromSpecImpl<u64> for CommandId {
    open spec fn obeys_from_spec() -> bool {
        true
    }

    open spec fn from_spec(id: u64) -> Self {
        CommandId(id)
    }
}

impl From<CommandId> for u64 {
    fn from(id: CommandId) -> (r: Self) {
        id.0
    }
}

impl FromSpecImpl<CommandId> for u64 {
    open spec fn obeys_from_spec() -> bool {
        true
    }

    open spec fn from_spec(id: CommandId) -> u64 {
        id.0
    }
}

impl std::str::FromStr for CommandId {
    type Err = ParseIntError;

    fn from_str(s: &str) -> (r: Result<Self, Self::Err>)
        ensures
            match r {
                Ok(id) => parse_u64_spec(s@) == Some(id.0),
                Err(_) => parse_u64_spec(s@) is None,
            },
    {
        Self::parse_str(s)
    }
}

/// A unique identifier for a Discord integration.
#[derive(Clone, Copy, Debug, Eq, Hash, Ord, PartialEq, PartialOrd, Default, Structural)]
pub struct IntegrationId(pub u64);

impl IntegrationId {
    /// Create a new ID from a u64 value.
    pub fn new(id: u64) -> (r: Self)
        ensures
            r.0 == id,
    {
        IntegrationId(id)
    }

    /// Get the inner u64 value.
    pub fn get(self) -> (r: u64)
        ensures
            r == self.0,
    {
        self.0
    }

    /// The creation time of this snowflake in UNIX milliseconds.
    pub fn created_at_millis(self) -> (r: u64)
        ensures
            r == snowflake_millis(self.0),
    {
        snowflake_timestamp_ms(self.0)
    }

    /// The decimal text of this ID, as `Display` writes it.
    pub fn to_string(&self) -> (s: String)
        ensures
            s@ == dec_str(self.0 as nat),
    {
        decimal(self.0)
    }

    /// Parse an ID from its decimal text, as `FromStr` does.
    pub fn parse_str(s: &str) -> (r: Result<Self, ParseIntError>)
        ensures
            match r {
                Ok(id) => parse_u64_spec(s@) == Some(id.0),
                Err(_) => parse_u64_spec(s@) is None,
            },
    {
        match parse_u64(s) {
            Ok(v) => Ok(IntegrationId(v)),
            Err(e) => Err(e),
        }
    }
}

impl From<u64> for IntegrationId {
    fn from(id: u64) -> (r: Self) {
        IntegrationId(id)
    }
}

impl FromSpecImpl<u64> for IntegrationId {
    open spec fn obeys_from_spec() -> bool {
        true
    }

    open spec fn from_spec(id: u64) -> Self {
        IntegrationId(id)
    }
}

impl From<IntegrationId> for u64 {
    fn from(id: IntegrationId) -> (r: Self) {
        id.0
    }
}

impl FromSpecImpl<IntegrationId> for u64 {
    open spec fn obeys_from_spec() -> bool {
        true
    }

    open spec fn from_spec(id: IntegrationId) -> u64 {
        id.0
    }
}

impl std::str::FromStr for IntegrationId {
    type Err = ParseIntError;

    fn from_str(s: &str) -> (r: Result<Self, Self::Err>)
        ensures
            match r {
                Ok(id) => parse_u64_spec(s@) == Some(id.0),
                Err(_) => parse_u64_spec(s@) is None,
            },
    {
        Self::parse_str(s)
    }
}

/// A unique identifier for a stage instance.
#[derive(Clone, Copy, Debug, Eq, Hash, Ord, PartialEq, PartialOrd, Default, Structural)]
pub struct StageInstanceId(pub u64);

impl StageInstanceId {
    /// Create a new ID from a u64 value.
    pub fn new(id: u64) -> (r: Self)
        ensures
            r.0 == id,
    {
        StageInstanceId(id)
    }

    /// Get the inner u64 value.
    pub fn get(self) -> (r: u64)
        ensures
            r == self.0,
    {
        self.0
    }

    /// The creation time of this snowflake in UNIX milliseconds.
    pub fn created_at_millis(self) -> (r: u64)
        ensures
            r == snowflake_millis(self.0),
    {
        snowflake_timestamp_ms(self.0)
    }

    /// The decimal text of this ID, as `Display` writes it.
    pub fn to_string(&self) -> (s: String)
        ensures
            s@ == dec_str(self.0 as nat),
    {
        decimal(self.0)
    }

    /// Parse an ID from its decimal text, as `FromStr` does.
    pub fn parse_str(s: &str) -> (r: Result<Self, ParseIntError>)
        ensures
            match r {
                Ok(id) => parse_u64_spec(s@) == Some(id.0),
                Err(_) => parse_u64_spec(s@) is None,
            },
    {
        match parse_u64(s) {
            Ok(v) => Ok(StageInstanceId(v)),
            Err(e) => Err(e),
        }
    }
}

impl From<u64> for StageInstanceId {
    fn from(id: u64) -> (r: Self) {
        StageInstanceId(id)
    }
}

impl FromSpecImpl<u64> for StageInstanceId {
    open spec fn obeys_from_spec() -> bool {
        true
    }

    open spec fn from_spec(id: u64) -> Self {
        StageInstanceId(id)
    }
}

impl From<StageInstanceId> for u64 {
    fn from(id: StageInstanceId) -> (r: Self) {
        id.0
    }
}

impl FromSpecImpl<StageInstanceId> for u64 {
    open spec fn obeys_from_spec() -> bool {
        true
    }

    open spec fn from_spec(id: StageInstanceId) -> u64 {
        id.0
    }
}

impl std::str::FromStr for StageInstanceId {
    type Err = ParseIntError;

    fn from_str(s: &str) -> (r: Result<Self, Self::Err>)
        ensures
            match r {
                Ok(id) => parse_u64_spec(s@) == Some(id.0),
                Err(_) => parse_u64_spec(s@) is None,
            },
    {
        Self::parse_str(s)
    }
}

/// A unique identifier for a scheduled event.
#[derive(Clone, Copy, Debug, Eq, Hash, Ord, PartialEq, PartialOrd, Default, Structural)]
pub struct ScheduledEventId(pub u64);

impl ScheduledEventId {
    /// Create a new ID from a u64 value.
    pub fn new(id: u64) -> (r: Self)
        ensures
            r.0 == id,
    {
        ScheduledEventId(id)
    }

    /// Get the inner u64 value.
    pub fn get(self) -> (r: u64)
        ensures
            r == self.0,
    {
        self.0
    }

    /// The creation time of this snowflake in UNIX milliseconds.
    pub fn created_at_millis(self) -> (r: u64)
        ensures
            r == snowflake_millis(self.0),
    {
        snowflake_timestamp_ms(self.0)
    }

    /// The decimal text of this ID, as `Display` writes it.
    pub fn to_string(&self) -> (s: String)
        ensures
            s@ == dec_str(self.0 as nat),
    {
        decimal(self.0)
    }

    /// Parse an ID from its decimal text, as `FromStr` does.
    pub fn parse_str(s: &str) -> (r: Result<Self, ParseIntError>)
        ensures
            match r {
                Ok(id) => parse_u64_spec(s@) == Some(id.0),
                Err(_) => parse_u64_spec(s@) is None,
            },
    {
        match parse_u64(s) {
            Ok(v) => Ok(ScheduledEventId(v)),
            Err(e) => Err(e),
        }
    }
}

impl From<u64> for ScheduledEventId {
    fn from(id: u64) -> (r: Self) {
        ScheduledEventId(id)
    }
}

impl FromSpecImpl<u64> for ScheduledEventId {
    open spec fn obeys_from_spec() -> bool {
        true
    }

    open spec fn from_spec(id: u64) -> Self {
        ScheduledEventId(id)
    }
}

impl From<ScheduledEventId> for u64 {
    fn from(id: ScheduledEventId) -> (r: Self) {
        id.0
    }
}

impl FromSpecImpl<ScheduledEventId> for u64 {
    open spec fn obeys_from_spec() -> bool {
        true
    }

    open spec fn from_spec(id: ScheduledEventId) -> u64 {
        id.0
    }
}

impl std::str::FromStr for ScheduledEventId {
    type Err = ParseIntError;

    fn from_str(s: &str) -> (r: Result<Self, Self::Err>)
        ensures
            match r {
                Ok(id) => parse_u64_spec(s@) == Some(id.0),
                Err(_) => parse_u64_spec(s@) is None,
            },
    {
        Self::parse_str(s)
    }
}

/// A unique identifier for an audit log entry.
#[derive(Clone, Copy, Debug, Eq, Hash, Ord, PartialEq, PartialOrd, Default, Structural)]
pub struct AuditLogEntryId(pub u64);

impl AuditLogEntryId {
    /// Create a new ID from a u64 value.
    pub fn new(id: u64) -> (r: Self)
        ensures
            r.0 == id,
    {
        AuditLogEntryId(id)
    }

    /// Get the inner u64 value.
    pub fn get(self) -> (r: u64)
        ensures
            r == self.0,
    {
        self.0
    }

    /// The creation time of this snowflake in UNIX milliseconds.
    pub fn created_at_millis(self) -> (r: u64)
        ensures
            r == snowflake_millis(self.0),
    {
        snowflake_timestamp_ms(self.0)
    }

    /// The decimal text of this ID, as `Display` writes it.
    pub fn to_string(&self) -> (s: String)
        ensures
            s@ == dec_str(self.0 as nat),
    {
        decimal(self.0)
    }

    /// Parse an ID from its decimal text, as `FromStr` does.
    pub fn parse_str(s: &str) -> (r: Result<Self, ParseIntError>)
        ensures
            match r {
                Ok(id) => parse_u64_spec(s@) == Some(id.0),
                Err(_) => parse_u64_spec(s@) is None,
            },
    {
        match parse_u64(s) {
            Ok(v) => Ok(AuditLogEntryId(v)),
            Err(e) => Err(e),
        }
    }
}

impl From<u64> for AuditLogEntryId {
    fn from(id: u64) -> (r: Self) {
        AuditLogEntryId(id)
    }
}

impl FromSpecImpl<u64> for AuditLogEntryId {
    open spec fn obeys_from_spec() -> bool {
        true
    }

    open spec fn from_spec(id: u64) -> Self {
        AuditLogEntryId(id)
    }
}

impl From<AuditLogEntryId> for u64 {
    fn from(id: AuditLogEntryId) -> (r: Self) {
        id.0
    }
}

impl FromSpecImpl<AuditLogEntryId> for u64 {
    open spec fn obeys_from_spec() -> bool {
        true
    }

    open spec fn from_spec(id: AuditLogEntryId) -> u64 {
        id.0
    }
}

impl std::str::FromStr for AuditLogEntryId {
    type Err = ParseIntError;

    fn from_str(s: &str) -> (r: Result<Self, Self::Err>)
        ensures
            match r {
                Ok(id) => parse_u64_spec(s@) == Some(id.0),
                Err(_) => parse_u64_spec(s@) is None,
            },
    {
        Self::parse_str(s)
    }
}

} // verus!
