//! Discord permission flags and channel permission overwrites.
use vstd::prelude::*;
use vstd::std_specs::ops::{BitAndSpecImpl, BitOrSpecImpl};
use crate::id::{RoleId, UserId};
use std::num::ParseIntError;
use crate::text::{dec_str, decimal, parse_u64, parse_u64_spec};

verus! {

/// A set of Discord permission flags.
#[derive(Clone, Copy, Debug, Default, PartialEq, Eq, Hash, Structural)]
pub struct Permissions {
    bits: u64,
}

impl View for Permissions {
    type V = u64;

    /// The raw bits of the set.
    closed spec fn view(&self) -> u64 {
        self.bits
    }
}

/// The bits of the default permissions of the @everyone role.
pub const DEFAULT_PERMISSION_BITS: u64 = 0x40e08635cc41;

/// Every permission flag bit.
pub const PERMISSIONS_ALL_BITS: u64 = 0x67fffffffffff;

impl Permissions {
    /// Allows creation of instant invites.
    pub fn create_instant_invite() -> (r: Permissions)
        ensures
            r@ == 0x1,
    {
        Permissions { bits: 0x1 }
    }
    /// Allows kicking members.
    pub fn kick_members() -> (r: Permissions)
        ensures
            r@ == 0x2,
    {
        Permissions { bits: 0x2 }
    }
    /// Allows banning members.
    pub fn ban_members() -> (r: Permissions)
        ensures
            r@ == 0x4,
    {
        Permissions { bits: 0x4 }
    }
    /// Allows all permissions and bypasses channel permission overwrites.
    pub fn administrator() -> (r: Permissions)
        ensures
            r@ == 0x8,
    {
        Permissions { bits: 0x8 }
    }
    /// Allows management and editing of channels.
    pub fn manage_channels() -> (r: Permissions)
        ensures
            r@ == 0x10,
    {
        Permissions { bits: 0x10 }
    }
    /// Allows management and editing of the guild.
    pub fn manage_guild() -> (r: Permissions)
        ensures
            r@ == 0x20,
    {
        Permissions { bits: 0x20 }
    }
    /// Allows for the addition of reactions to messages.
    pub fn add_reactions() -> (r: Permissions)
        ensures
            r@ == 0x40,
    {
        Permissions { bits: 0x40 }
    }
    /// Allows for viewing of audit logs.
    pub fn view_audit_log() -> (r: Permissions)
        ensures
            r@ == 0x80,
    {
        Permissions { bits: 0x80 }
    }
    /// Allows for using priority speaker in a voice channel.
    pub fn priority_speaker() -> (r: Permissions)
        ensures
            r@ == 0x100,
    {
        Permissions { bits: 0x100 }
    }
    /// Allows the user to go live.
    pub fn stream() -> (r: Permissions)
        ensures
            r@ == 0x200,
    {
        Permissions { bits: 0x200 }
    }
    /// Allows guild members to view a channel.
    pub fn view_channel() -> (r: Permissions)
        ensures
            r@ == 0x400,
    {
        Permissions { bits: 0x400 }
    }
    /// Allows for sending messages in a channel.
    pub fn send_messages() -> (r: Permissions)
        ensures
            r@ == 0x800,
    {
        Permissions { bits: 0x800 }
    }
    /// Allows for sending of /tts messages.
    pub fn send_tts_messages() -> (r: Permissions)
        ensures
            r@ == 0x1000,
    {
        Permissions { bits: 0x1000 }
    }
    /// Allows for deletion of other users messages.
    pub fn manage_messages() -> (r: Permissions)
        ensures
            r@ == 0x2000,
    {
        Permissions { bits: 0x2000 }
    }
    /// Links sent by users with this permission will be auto-embedded.
    pub fn embed_links() -> (r: Permissions)
        ensures
            r@ == 0x4000,
    {
        Permissions { bits: 0x4000 }
    }
    /// Allows for uploading images and files.
    pub fn attach_files() -> (r: Permissions)
        ensures
            r@ == 0x8000,
    {
        Permissions { bits: 0x8000 }
    }
    /// Allows for reading of message history.
    pub fn read_message_history() -> (r: Permissions)
        ensures
            r@ == 0x10000,
    {
        Permissions { bits: 0x10000 }
    }
    /// Allows for using the @everyone tag to notify all users in a channel.
    pub fn mention_everyone() -> (r: Permissions)
        ensures
            r@ == 0x20000,
    {
        Permissions { bits: 0x20000 }
    }
    /// Allows the usage of custom emojis from other servers.
    pub fn use_external_emojis() -> (r: Permissions)
        ensures
            r@ == 0x40000,
    {
        Permissions { bits: 0x40000 }
    }
    /// Allows for viewing guild insights.
    pub fn view_guild_insights() -> (r: Permissions)
        ensures
            r@ == 0x80000,
    {
        Permissions { bits: 0x80000 }
    }
    /// Allows for joining of a voice channel.
    pub fn connect() -> (r: Permissions)
        ensures
            r@ == 0x100000,
    {
        Permissions { bits: 0x100000 }
    }
    /// Allows for speaking in a voice channel.
    pub fn speak() -> (r: Permissions)
        ensures
            r@ == 0x200000,
    {
        Permissions { bits: 0x200000 }
    }
    /// Allows for muting members in a voice channel.
    pub fn mute_members() -> (r: Permissions)
        ensures
            r@ == 0x400000,
    {
        Permissions { bits: 0x400000 }
    }
    /// Allows for deafening of members in a voice channel.
    pub fn deafen_members() -> (r: Permissions)
        ensures
            r@ == 0x800000,
    {
        Permissions { bits: 0x800000 }
    }
    /// Allows for moving of members between voice channels.
    pub fn move_members() -> (r: Permissions)
        ensures
            r@ == 0x1000000,
    {
        Permissions { bits: 0x1000000 }
    }
    /// Allows for using voice-activity-detection in a voice channel.
    pub fn use_vad() -> (r: Permissions)
        ensures
            r@ == 0x2000000,
    {
        Permissions { bits: 0x2000000 }
    }
    /// Allows for modification of own nickname.
    pub fn change_nickname() -> (r: Permissions)
        ensures
            r@ == 0x4000000,
    {
        Permissions { bits: 0x4000000 }
    }
    /// Allows for modification of other users nicknames.
    pub fn manage_nicknames() -> (r: Permissions)
        ensures
            r@ == 0x8000000,
    {
        Permissions { bits: 0x8000000 }
    }
    /// Allows management and editing of roles.
    pub fn manage_roles() -> (r: Permissions)
        ensures
            r@ == 0x10000000,
    {
        Permissions { bits: 0x10000000 }
    }
    /// Allows management and editing of webhooks.
    pub fn manage_webhooks() -> (r: Permissions)
        ensures
            r@ == 0x20000000,
    {
        Permissions { bits: 0x20000000 }
    }
    /// Allows management and editing of emojis, stickers, and soundboard sounds.
    pub fn manage_guild_expressions() -> (r: Permissions)
        ensures
            r@ == 0x40000000,
    {
        Permissions { bits: 0x40000000 }
    }
    /// Allows members to use application commands.
    pub fn use_application_commands() -> (r: Permissions)
        ensures
            r@ == 0x80000000,
    {
        Permissions { bits: 0x80000000 }
    }
    /// Allows for requesting to speak in stage channels.
    pub fn request_to_speak() -> (r: Permissions)
        ensures
            r@ == 0x100000000,
    {
        Permissions { bits: 0x100000000 }
    }
    /// Allows for creating, editing, and deleting scheduled events.
    pub fn manage_events() -> (r: Permissions)
        ensures
            r@ == 0x200000000,
    {
        Permissions { bits: 0x200000000 }
    }
    /// Allows for deleting and archiving threads, and viewing all private threads.
    pub fn manage_threads() -> (r: Permissions)
        ensures
            r@ == 0x400000000,
    {
        Permissions { bits: 0x400000000 }
    }
    /// Allows for creating public and announcement threads.
    pub fn create_public_threads() -> (r: Permissions)
        ensures
            r@ == 0x800000000,
    {
        Permissions { bits: 0x800000000 }
    }
    /// Allows for creating private threads.
    pub fn create_private_threads() -> (r: Permissions)
        ensures
            r@ == 0x1000000000,
    {
        Permissions { bits: 0x1000000000 }
    }
    /// Allows the usage of custom stickers from other servers.
    pub fn use_external_stickers() -> (r: Permissions)
        ensures
            r@ == 0x2000000000,
    {
        Permissions { bits: 0x2000000000 }
    }
    /// Allows for sending messages in threads.
    pub fn send_messages_in_threads() -> (r: Permissions)
        ensures
            r@ == 0x4000000000,
    {
        Permissions { bits: 0x4000000000 }
    }
    /// Allows for using Activities in a voice channel.
    pub fn use_embedded_activities() -> (r: Permissions)
        ensures
            r@ == 0x8000000000,
    {
        Permissions { bits: 0x8000000000 }
    }
    /// Allows for timing out users to prevent them from sending or reacting to messages.
    pub fn moderate_members() -> (r: Permissions)
        ensures
            r@ == 0x10000000000,
    {
        Permissions { bits: 0x10000000000 }
    }
    /// Allows for viewing role subscription insights.
    pub fn view_creator_monetization_analytics() -> (r: Permissions)
        ensures
            r@ == 0x20000000000,
    {
        Permissions { bits: 0x20000000000 }
    }
    /// Allows for using soundboard in a voice channel.
    pub fn use_soundboard() -> (r: Permissions)
        ensures
            r@ == 0x40000000000,
    {
        Permissions { bits: 0x40000000000 }
    }
    /// Allows for creating emojis, stickers, and soundboard sounds.
    pub fn create_guild_expressions() -> (r: Permissions)
        ensures
            r@ == 0x80000000000,
    {
        Permissions { bits: 0x80000000000 }
    }
    /// Allows for creating scheduled events.
    pub fn create_events() -> (r: Permissions)
        ensures
            r@ == 0x100000000000,
    {
        Permissions { bits: 0x100000000000 }
    }
    /// Allows the usage of custom soundboard sounds from other servers.
    pub fn use_external_sounds() -> (r: Permissions)
        ensures
            r@ == 0x200000000000,
    {
        Permissions { bits: 0x200000000000 }
    }
    /// Allows sending voice messages.
    pub fn send_voice_messages() -> (r: Permissions)
        ensures
            r@ == 0x400000000000,
    {
        Permissions { bits: 0x400000000000 }
    }
    /// Allows sending polls.
    pub fn send_polls() -> (r: Permissions)
        ensures
            r@ == 0x2000000000000,
    {
        Permissions { bits: 0x2000000000000 }
    }
    /// Allows user-installed apps to send public responses.
    pub fn use_external_apps() -> (r: Permissions)
        ensures
            r@ == 0x4000000000000,
    {
        Permissions { bits: 0x4000000000000 }
    }

    /// The raw bits of the set.
    pub fn bits(&self) -> (r: u64)
        ensures
            r == self@,
    {
        self.bits
    }

    /// The set with exactly the given bits, known or not.
    pub fn from_bits_retain(bits: u64) -> (r: Self)
        ensures
            r@ == bits,
    {
        Permissions { bits }
    }

    /// The set of the known flags among the given bits; unknown bits are dropped.
    pub fn from_bits_truncate(bits: u64) -> (r: Self)
        ensures
            r@ == bits & PERMISSIONS_ALL_BITS,
    {
        Permissions { bits: bits & PERMISSIONS_ALL_BITS }
    }

    /// The set with the given bits if every one of them is a known flag.
    pub fn from_bits(bits: u64) -> (r: Option<Self>)
        ensures
            match r {
                Some(p) => bits & !PERMISSIONS_ALL_BITS == 0 && p@ == bits,
                None => bits & !PERMISSIONS_ALL_BITS != 0,
            },
    {
        if bits & !PERMISSIONS_ALL_BITS == 0 {
            Some(Permissions { bits })
        } else {
            None
        }
    }

    /// The empty set.
    pub fn empty() -> (r: Self)
        ensures
            r@ == 0,
    {
        Permissions { bits: 0 }
    }

    /// The set of every known flag.
    pub fn all() -> (r: Self)
        ensures
            r@ == PERMISSIONS_ALL_BITS,
    {
        Permissions { bits: PERMISSIONS_ALL_BITS }
    }

    /// Whether no bit is set.
    pub fn is_empty(&self) -> (r: bool)
        ensures
            r == (self@ == 0),
    {
        self.bits == 0
    }

    /// Whether every known flag is set.
    pub fn is_all(&self) -> (r: bool)
        ensures
            r == (self@ & PERMISSIONS_ALL_BITS == PERMISSIONS_ALL_BITS),
    {
        self.bits & PERMISSIONS_ALL_BITS == PERMISSIONS_ALL_BITS
    }

    /// Whether every bit of `other` is set in `self`.
    pub fn contains(&self, other: Self) -> (r: bool)
        ensures
            r == (self@ & other@ == other@),
    {
        self.bits & other.bits == other.bits
    }

    /// Whether `self` and `other` share a bit.
    pub fn intersects(&self, other: Self) -> (r: bool)
        ensures
            r == (self@ & other@ != 0),
    {
        self.bits & other.bits != 0
    }

    /// The bits of either set.
    pub fn union(self, other: Self) -> (r: Self)
        ensures
            r@ == self@ | other@,
    {
        Permissions { bits: self.bits | other.bits }
    }

    /// The bits of both sets.
    pub fn intersection(self, other: Self) -> (r: Self)
        ensures
            r@ == self@ & other@,
    {
        Permissions { bits: self.bits & other.bits }
    }

    /// The bits of `self` that `other` does not have.
    pub fn difference(self, other: Self) -> (r: Self)
        ensures
            r@ == self@ & !other@,
    {
        Permissions { bits: self.bits & !other.bits }
    }

    /// The bits of exactly one of the two sets.
    pub fn symmetric_difference(self, other: Self) -> (r: Self)
        ensures
            r@ == self@ ^ other@,
    {
        Permissions { bits: self.bits ^ other.bits }
    }

    /// The known flags that `self` does not have.
    pub fn complement(self) -> (r: Self)
        ensures
            r@ == !self@ & PERMISSIONS_ALL_BITS,
    {
        Permissions { bits: !self.bits & PERMISSIONS_ALL_BITS }
    }

    /// Set every bit of `other`.
    pub fn insert(&mut self, other: Self)
        ensures
            final(self)@ == old(self)@ | other@,
    {
        self.bits = self.bits | other.bits;
    }

    /// Clear every bit of `other`.
    pub fn remove(&mut self, other: Self)
        ensures
            final(self)@ == old(self)@ & !other@,
    {
        self.bits = self.bits & !other.bits;
    }

    /// Flip every bit of `other`.
    pub fn toggle(&mut self, other: Self)
        ensures
            final(self)@ == old(self)@ ^ other@,
    {
        self.bits = self.bits ^ other.bits;
    }

    /// Set (`value`) or clear (`!value`) every bit of `other`.
    pub fn set(&mut self, other: Self, value: bool)
        ensures
            final(self)@ == if value { old(self)@ | other@ } else { old(self)@ & !other@ },
    {
        if value {
            self.insert(other);
        } else {
            self.remove(other);
        }
    }

    /// Returns all permissions.
    pub fn all_permissions() -> (r: Self)
        ensures
            r@ == PERMISSIONS_ALL_BITS,
    {
        Self::all()
    }

    /// Returns no permissions.
    pub fn none_permissions() -> (r: Self)
        ensures
            r@ == 0,
    {
        Self::empty()
    }

    /// Returns the default permissions for @everyone role.
    pub fn default_permissions() -> (r: Self)
        ensures
            r@ == DEFAULT_PERMISSION_BITS,
    {
        let r = Self::view_channel()
            .union(Self::create_instant_invite())
            .union(Self::change_nickname())
            .union(Self::send_messages())
            .union(Self::send_messages_in_threads())
            .union(Self::embed_links())
            .union(Self::attach_files())
            .union(Self::add_reactions())
            .union(Self::use_external_emojis())
            .union(Self::use_external_stickers())
            .union(Self::read_message_history())
            .union(Self::connect())
            .union(Self::speak())
            .union(Self::use_vad())
            .union(Self::use_application_commands())
            .union(Self::use_embedded_activities())
            .union(Self::send_voice_messages());
        let b: u64 = r.bits;
        assert(b == DEFAULT_PERMISSION_BITS) by (bit_vector)
            requires
                b == 0x400u64 | 0x1 | 0x4000000 | 0x800 | 0x4000000000 | 0x4000 | 0x8000 | 0x40 | 0x40000 | 0x2000000000 | 0x10000 | 0x100000 | 0x200000 | 0x2000000 | 0x80000000 | 0x8000000000 | 0x400000000000;
        r
    }

    /// Check if the administrator permission is set.
    pub fn is_administrator(&self) -> (r: bool)
        ensures
            r == (self@ & 0x8 == 0x8),
    {
        self.contains(Self::administrator())
    }
}

impl Permissions {
    /// The wire form of the set: the decimal text of its bits.
    pub fn bits_string(&self) -> (r: String)
        ensures
            r@ == dec_str(self@ as nat),
    {
        decimal(self.bits)
    }

    /// Read the wire form of a set: decimal text of a `u64`; bits that are
    /// no known flag are dropped. Text that is no such number is an error.
    pub fn from_bits_str(s: &str) -> (r: Result<Self, ParseIntError>)
        ensures
            match r {
                Ok(p) => parse_u64_spec(s@) is Some && p@ == parse_u64_spec(s@).unwrap() & PERMISSIONS_ALL_BITS,
                Err(_) => parse_u64_spec(s@) is None,
            },
    {
        match parse_u64(s) {
            Ok(bits) => Ok(Self::from_bits_truncate(bits)),
            Err(e) => Err(e),
        }
    }
}

/// After `a.insert(b)`, `a` contains `b`.
pub proof fn law_insert_then_contains(a: u64, b: u64)
    ensures
        (a | b) & b == b,
{
    assert((a | b) & b == b) by (bit_vector);
}

/// After `a.remove(b)`, `a` shares no bit with `b`, and keeps its other bits.
pub proof fn law_remove_then_disjoint(a: u64, b: u64)
    ensures
        (a & !b) & b == 0,
        (a & !b) | (a & b) == a,
{
    assert((a & !b) & b == 0) by (bit_vector);
    assert((a & !b) | (a & b) == a) by (bit_vector);
}

/// A union contains both sets, and an intersection is contained in both.
pub proof fn law_union_intersection(a: u64, b: u64)
    ensures
        (a | b) & a == a,
        (a | b) & b == b,
        a & (a & b) == a & b,
        b & (a & b) == a & b,
{
    assert((a | b) & a == a) by (bit_vector);
    assert((a | b) & b == b) by (bit_vector);
    assert(a & (a & b) == a & b) by (bit_vector);
    assert(b & (a & b) == a & b) by (bit_vector);
}

/// Toggling the same flags twice gives the set back.
pub proof fn law_toggle_twice(a: u64, b: u64)
    ensures
        (a ^ b) ^ b == a,
{
    assert((a ^ b) ^ b == a) by (bit_vector);
}

/// A set of known flags survives its wire form: reading back the decimal
/// text of its bits gives the same set.
pub proof fn law_permissions_wire_round_trip(bits: u64)
    requires
        bits & !PERMISSIONS_ALL_BITS == 0,
    ensures
        parse_u64_spec(dec_str(bits as nat)) == Some(bits),
        bits & PERMISSIONS_ALL_BITS == bits,
{
    crate::text::law_decimal_parse_round_trip(bits);
    assert(bits & 0x67fffffffffffu64 == bits) by (bit_vector)
        requires
            bits & !0x67fffffffffffu64 == 0,
    ;
}

/// The complement of the complement is the set's known flags.
pub proof fn law_permissions_complement_twice(bits: u64)
    ensures
        !(!bits & PERMISSIONS_ALL_BITS) & PERMISSIONS_ALL_BITS == bits & PERMISSIONS_ALL_BITS,
{
    assert(!(!bits & 0x67fffffffffffu64) & 0x67fffffffffffu64 == bits & 0x67fffffffffffu64) by (bit_vector);
}

impl core::ops::BitOr for Permissions {
    type Output = Permissions;

    fn bitor(self, other: Self) -> (r: Self)
        ensures
            r@ == self@ | other@,
    {
        Permissions { bits: self.bits | other.bits }
    }
}

impl BitOrSpecImpl for Permissions {
    open spec fn obeys_bitor_spec() -> bool {
        true
    }

    open spec fn bitor_req(self, other: Self) -> bool {
        true
    }

    closed spec fn bitor_spec(self, other: Self) -> Self {
        Permissions { bits: self.bits | other.bits }
    }
}

impl core::ops::BitAnd for Permissions {
    type Output = Permissions;

    fn bitand(self, other: Self) -> (r: Self)
        ensures
            r@ == self@ & other@,
    {
        Permissions { bits: self.bits & other.bits }
    }
}

impl BitAndSpecImpl for Permissions {
    open spec fn obeys_bitand_spec() -> bool {
        true
    }

    open spec fn bitand_req(self, other: Self) -> bool {
        true
    }

    closed spec fn bitand_spec(self, other: Self) -> Self {
        Permissions { bits: self.bits & other.bits }
    }
}

/// Permission overwrite for a channel.
#[derive(Clone, Debug)]
pub struct PermissionOverwrite {
    /// Role or user ID.
    pub id: String,
    /// Either 0 (role) or 1 (member).
    pub kind: u8,
    /// Permission bit set for allowed permissions.
    pub allow: Permissions,
    /// Permission bit set for denied permissions.
    pub deny: Permissions,
}

impl PermissionOverwrite {
    /// Create a new role permission overwrite.
    pub fn role(role_id: RoleId, allow: Permissions, deny: Permissions) -> (r: Self)
        ensures
            r.id@ == dec_str(role_id.0 as nat),
            r.kind == 0,
            r.allow == allow,
            r.deny == deny,
    {
        PermissionOverwrite { id: role_id.to_string(), kind: 0, allow, deny }
    }

    /// Create a new member permission overwrite.
    pub fn member(user_id: UserId, allow: Permissions, deny: Permissions) -> (r: Self)
        ensures
            r.id@ == dec_str(user_id.0 as nat),
            r.kind == 1,
            r.allow == allow,
            r.deny == deny,
    {
        PermissionOverwrite { id: user_id.to_string(), kind: 1, allow, deny }
    }

    /// Returns true if this is a role overwrite.
    pub fn is_role(&self) -> (r: bool)
        ensures
            r == (self.kind == 0),
    {
        self.kind == 0
    }

    /// Returns true if this is a member overwrite.
    pub fn is_member(&self) -> (r: bool)
        ensures
            r == (self.kind == 1),
    {
        self.kind == 1
    }
}

} // verus!
