//! User-related models.
use vstd::prelude::*;
use vstd::std_specs::convert::FromSpecImpl;
use crate::id::UserId;
use crate::text::{
    clone_opt_string, dec_str, image_ext, image_ext_of, parse_u64, parse_u64_spec, push_decimal,
    str_eq,
};

verus! {

/// A user's tag: the username alone for users on the new username system
/// (discriminator `"0"`), else `username#discriminator`.
pub open spec fn tag_text(username: Seq<char>, discriminator: Seq<char>) -> Seq<char> {
    if discriminator == seq!['0'] {
        username
    } else {
        username + seq!['#'] + discriminator
    }
}

/// The mention text of a user: `<@id>`.
pub open spec fn user_mention_text(id: u64) -> Seq<char> {
    "<@"@ + dec_str(id as nat) + ">"@
}

/// The URL of an uploaded avatar.
pub open spec fn avatar_url_text(id: u64, hash: Seq<char>) -> Seq<char> {
    "https://cdn.discordapp.com/avatars/"@ + dec_str(id as nat) + "/"@ + hash + "."@ + image_ext(hash)
}

/// The index of the default avatar of a user: for the new username system the
/// creation time bits of the ID modulo 6, else the numeric discriminator modulo 5
/// (0 when the discriminator is not a number).
pub open spec fn default_avatar_index(id: u64, discriminator: Seq<char>) -> nat {
    if discriminator == seq!['0'] {
        ((id / 0x400000) % 6) as nat
    } else {
        match parse_u64_spec(discriminator) {
            Some(v) => (v % 5) as nat,
            None => 0,
        }
    }
}

/// The URL of a default avatar.
pub open spec fn default_avatar_url_text(id: u64, discriminator: Seq<char>) -> Seq<char> {
    "https://cdn.discordapp.com/embed/avatars/"@ + dec_str(default_avatar_index(id, discriminator))
        + ".png"@
}

/// Builds the tag text.
fn make_tag(username: &String, discriminator: &String) -> (r: String)
    ensures
        r@ == tag_text(username@, discriminator@),
{
    proof {
        reveal_strlit("0");
        reveal_strlit("#");
        assert("0"@ =~= seq!['0']);
        assert("#"@ =~= seq!['#']);
    }
    if str_eq(discriminator.as_str(), "0") {
        username.clone()
    } else {
        let mut s = username.clone();
        s.append("#");
        s.append(discriminator.as_str());
        s
    }
}

/// Builds the mention text.
fn make_user_mention(id: u64) -> (r: String)
    ensures
        r@ == user_mention_text(id),
{
    let mut s = String::from_str("<@");
    push_decimal(&mut s, id);
    s.append(">");
    s
}

/// Represents a Discord user.
#[derive(Debug)]
pub struct User {
    /// The user's ID.
    pub id: UserId,
    /// The user's username, not unique across the platform.
    pub username: String,
    /// The user's Discord-tag (discriminator).
    pub discriminator: String,
    /// The user's display name, if set.
    pub global_name: Option<String>,
    /// The user's avatar hash.
    pub avatar: Option<String>,
    /// Whether the user is a bot.
    pub bot: bool,
    /// Whether the user is an Official Discord System user.
    pub system: bool,
    /// Whether the user has two factor enabled.
    pub mfa_enabled: Option<bool>,
    /// The user's banner hash.
    pub banner: Option<String>,
    /// The user's banner color encoded as an integer.
    pub accent_color: Option<u32>,
    /// The user's chosen language option.
    pub locale: Option<String>,
    /// Whether the email on this account has been verified.
    pub verified: Option<bool>,
    /// The user's email.
    pub email: Option<String>,
    /// The flags on a user's account.
    pub flags: Option<u64>,
    /// The type of Nitro subscription on a user's account.
    pub premium_type: Option<u8>,
    /// The public flags on a user's account.
    pub public_flags: Option<u64>,
    /// The user's avatar decoration hash.
    pub avatar_decoration: Option<String>,
}

impl Clone for User {
    fn clone(&self) -> (r: Self)
        ensures
            r == *self,
    {
        User {
            id: self.id,
            username: self.username.clone(),
            discriminator: self.discriminator.clone(),
            global_name: clone_opt_string(&self.global_name),
            avatar: clone_opt_string(&self.avatar),
            bot: self.bot,
            system: self.system,
            mfa_enabled: self.mfa_enabled,
            banner: clone_opt_string(&self.banner),
            accent_color: self.accent_color,
            locale: clone_opt_string(&self.locale),
            verified: self.verified,
            email: clone_opt_string(&self.email),
            flags: self.flags,
            premium_type: self.premium_type,
            public_flags: self.public_flags,
            avatar_decoration: clone_opt_string(&self.avatar_decoration),
        }
    }
}

impl User {
    /// The user's display name: the global name if set, otherwise the username.
    pub open spec fn display_name_text(&self) -> Seq<char> {
        match self.global_name {
            Some(g) => g@,
            None => self.username@,
        }
    }

    /// The URL of the avatar the user shows: the uploaded one if any, else the default one.
    pub open spec fn display_avatar_url_text(&self) -> Seq<char> {
        match self.avatar {
            Some(h) => avatar_url_text(self.id.0, h@),
            None => default_avatar_url_text(self.id.0, self.discriminator@),
        }
    }

    /// Returns the user's tag (username#discriminator).
    pub fn tag(&self) -> (r: String)
        ensures
            r@ == tag_text(self.username@, self.discriminator@),
    {
        make_tag(&self.username, &self.discriminator)
    }

    /// Returns the user's display name (global_name if set, otherwise username).
    pub fn display_name(&self) -> (r: &str)
        ensures
            r@ == self.display_name_text(),
    {
        match &self.global_name {
            Some(g) => g.as_str(),
            None => self.username.as_str(),
        }
    }

    /// Returns the URL to the user's avatar.
    pub fn avatar_url(&self) -> (r: Option<String>)
        ensures
            match self.avatar {
                Some(h) => r is Some && r->0@ == avatar_url_text(self.id.0, h@),
                None => r is None,
            },
    {
        match &self.avatar {
            Some(hash) => {
                let mut s = String::from_str("https://cdn.discordapp.com/avatars/");
                push_decimal(&mut s, self.id.0);
                s.append("/");
                s.append(hash.as_str());
                s.append(".");
                s.append(image_ext_of(hash.as_str()));
                Some(s)
            },
            None => None,
        }
    }

    /// The index of the user's default avatar.
    pub fn default_avatar_index(&self) -> (r: u64)
        ensures
            r == default_avatar_index(self.id.0, self.discriminator@),
    {
        proof {
            reveal_strlit("0");
            assert("0"@ =~= seq!['0']);
        }
        if str_eq(self.discriminator.as_str(), "0") {
            let id = self.id.0;
            let high = id >> 22;
            assert(high == id / 0x400000) by (bit_vector)
                requires high == id >> 22;
            high % 6
        } else {
            match parse_u64(self.discriminator.as_str()) {
                Ok(v) => v % 5,
                Err(_) => 0,
            }
        }
    }

    /// Returns the URL to the user's default avatar.
    pub fn default_avatar_url(&self) -> (r: String)
        ensures
            r@ == default_avatar_url_text(self.id.0, self.discriminator@),
    {
        let index = self.default_avatar_index();
        let mut s = String::from_str("https://cdn.discordapp.com/embed/avatars/");
        push_decimal(&mut s, index);
        s.append(".png");
        s
    }

    /// Returns the URL to the user's avatar, or their default avatar if none is set.
    pub fn display_avatar_url(&self) -> (r: String)
        ensures
            r@ == self.display_avatar_url_text(),
    {
        match self.avatar_url() {
            Some(url) => url,
            None => self.default_avatar_url(),
        }
    }

    /// Returns the user's mention string.
    pub fn mention(&self) -> (r: String)
        ensures
            r@ == user_mention_text(self.id.0),
    {
        make_user_mention(self.id.0)
    }
}

/// Represents the current authenticated user.
#[derive(Debug)]
pub struct CurrentUser {
    /// The user's ID.
    pub id: UserId,
    /// The user's username.
    pub username: String,
    /// The user's discriminator.
    pub discriminator: String,
    /// The user's display name.
    pub global_name: Option<String>,
    /// The user's avatar hash.
    pub avatar: Option<String>,
    /// Whether the user is a bot.
    pub bot: bool,
    /// Whether the user has two factor enabled.
    pub mfa_enabled: Option<bool>,
    /// The user's banner hash.
    pub banner: Option<String>,
    /// The user's banner color.
    pub accent_color: Option<u32>,
    /// The user's locale.
    pub locale: Option<String>,
    /// Whether the email is verified.
    pub verified: Option<bool>,
    /// The user's email.
    pub email: Option<String>,
    /// The user's flags.
    pub flags: Option<u64>,
    /// The user's premium type.
    pub premium_type: Option<u8>,
    /// The user's public flags.
    pub public_flags: Option<u64>,
}

impl Clone for CurrentUser {
    fn clone(&self) -> (r: Self)
        ensures
            r == *self,
    {
        CurrentUser {
            id: self.id,
            username: self.username.clone(),
            discriminator: self.discriminator.clone(),
            global_name: clone_opt_string(&self.global_name),
            avatar: clone_opt_string(&self.avatar),
            bot: self.bot,
            mfa_enabled: self.mfa_enabled,
            banner: clone_opt_string(&self.banner),
            accent_color: self.accent_color,
            locale: clone_opt_string(&self.locale),
            verified: self.verified,
            email: clone_opt_string(&self.email),
            flags: self.flags,
            premium_type: self.premium_type,
            public_flags: self.public_flags,
        }
    }
}

impl CurrentUser {
    /// Returns the user's tag.
    pub fn tag(&self) -> (r: String)
        ensures
            r@ == tag_text(self.username@, self.discriminator@),
    {
        make_tag(&self.username, &self.discriminator)
    }

    /// Returns the user's mention string.
    pub fn mention(&self) -> (r: String)
        ensures
            r@ == user_mention_text(self.id.0),
    {
        make_user_mention(self.id.0)
    }
}

/// The `User` that a `CurrentUser` is: every shared field is kept, `system` is
/// false and there is no avatar decoration.
pub open spec fn user_of_current(current: CurrentUser) -> User {
    User {
        id: current.id,
        username: current.username,
        discriminator: current.discriminator,
        global_name: current.global_name,
        avatar: current.avatar,
        bot: current.bot,
        system: false,
        mfa_enabled: current.mfa_enabled,
        banner: current.banner,
        accent_color: current.accent_color,
        locale: current.locale,
        verified: current.verified,
        email: current.email,
        flags: current.flags,
        premium_type: current.premium_type,
        public_flags: current.public_flags,
        avatar_decoration: None,
    }
}

impl From<CurrentUser> for User {
    fn from(current: CurrentUser) -> (r: Self)
        ensures
            r == user_of_current(current),
    {
        User {
            id: current.id,
            username: current.username,
            discriminator: current.discriminator,
            global_name: current.global_name,
            avatar: current.avatar,
            bot: current.bot,
            system: false,
            mfa_enabled: current.mfa_enabled,
            banner: current.banner,
            accent_color: current.accent_color,
            locale: current.locale,
            verified: current.verified,
            email: current.email,
            flags: current.flags,
            premium_type: current.premium_type,
            public_flags: current.public_flags,
            avatar_decoration: None,
        }
    }
}

impl FromSpecImpl<CurrentUser> for User {
    open spec fn obeys_from_spec() -> bool {
        true
    }

    open spec fn from_spec(current: CurrentUser) -> User {
        user_of_current(current)
    }
}

} // verus!
