//! Interaction-related models.
use vstd::prelude::*;
use std::collections::HashMap;
use crate::channel::{Channel, ChannelType};
use crate::guild::{Member, Role};
use crate::id::{ChannelId, CommandId, GuildId, InteractionId, UserId};
use crate::message::{Attachment, Component, Embed, Message};
use crate::permissions::Permissions;
use crate::text::str_eq;
use crate::user::User;

verus! {

/// A JSON number, carried through unchanged.
#[verifier::external_type_specification]
#[verifier::external_body]
pub struct ExJsonNumber(serde_json::Number);

/// Represents an interaction from a user.
#[derive(Debug)]
pub struct Interaction {
    /// ID of the interaction.
    pub id: InteractionId,
    /// ID of the application this interaction is for.
    pub application_id: UserId,
    /// Type of interaction.
    pub kind: InteractionType,
    /// Interaction data payload.
    pub data: Option<InteractionData>,
    /// Guild that the interaction was sent from.
    pub guild_id: Option<GuildId>,
    /// Channel that the interaction was sent from.
    pub channel: Option<Channel>,
    /// Channel that the interaction was sent from.
    pub channel_id: Option<ChannelId>,
    /// Guild member data for the invoking user.
    pub member: Option<Member>,
    /// User object for the invoking user.
    pub user: Option<User>,
    /// Continuation token for responding to the interaction.
    pub token: String,
    /// Read-only property, always 1.
    pub version: u8,
    /// For components, the message they were attached to.
    pub message: Option<Message>,
    /// Bitwise set of permissions the app has in the source location.
    pub app_permissions: Option<Permissions>,
    /// Selected language of the invoking user.
    pub locale: Option<String>,
    /// Guild's preferred locale.
    pub guild_locale: Option<String>,
    /// For monetized apps, any entitlements for the invoking user.
    pub entitlements: Vec<serde_json::Value>,
    /// Mapping of installation contexts that the interaction was authorized for.
    pub authorizing_integration_owners: Option<serde_json::Value>,
    /// Context where the interaction was triggered from.
    pub context: Option<InteractionContextType>,
}

/// Type of interaction.
#[derive(Clone, Copy, Debug, Default, PartialEq, Eq, Structural)]
pub enum InteractionType {
    /// A ping.
    #[default]
    Ping,
    /// A slash command.
    ApplicationCommand,
    /// A message component (button, select menu).
    MessageComponent,
    /// An autocomplete interaction.
    ApplicationCommandAutocomplete,
    /// A modal submit.
    ModalSubmit,
}

/// Interaction context type.
#[derive(Clone, Copy, Debug, Default, PartialEq, Eq, Structural)]
pub enum InteractionContextType {
    /// Interaction can be used within servers.
    #[default]
    Guild,
    /// Interaction can be used within DMs with the app's bot user.
    BotDm,
    /// Interaction can be used within Group DMs and DMs other than the app's bot user.
    PrivateChannel,
}

/// Interaction data.
#[derive(Debug)]
pub struct InteractionData {
    /// ID of the invoked command.
    pub id: Option<CommandId>,
    /// Name of the invoked command.
    pub name: Option<String>,
    /// Type of the invoked command.
    pub kind: Option<ApplicationCommandType>,
    /// Converted users + roles + channels + attachments.
    pub resolved: Option<ResolvedData>,
    /// Params + values from the user.
    pub options: Vec<ApplicationCommandInteractionDataOption>,
    /// ID of the guild the command is registered to.
    pub guild_id: Option<GuildId>,
    /// ID of the user or message targeted by a user or message command.
    pub target_id: Option<UserId>,
    /// Custom ID of the component.
    pub custom_id: Option<String>,
    /// Type of the component.
    pub component_type: Option<u8>,
    /// Values the user selected in a select menu.
    pub values: Vec<String>,
    /// Components from a modal submit.
    pub components: Vec<Component>,
}

/// Application command type.
#[derive(Clone, Copy, Debug, Default, PartialEq, Eq, Structural)]
pub enum ApplicationCommandType {
    /// Slash commands.
    #[default]
    ChatInput,
    /// A UI-based command that shows up when you right click or tap on a user.
    User,
    /// A UI-based command that shows up when you right click or tap on a message.
    Message,
}

/// Resolved data from an interaction.
#[derive(Clone, Debug, Default)]
pub struct ResolvedData {
    /// IDs and User objects.
    pub users: HashMap<String, User>,
    /// IDs and partial Member objects.
    pub members: HashMap<String, Member>,
    /// IDs and Role objects.
    pub roles: HashMap<String, Role>,
    /// IDs and partial Channel objects.
    pub channels: HashMap<String, Channel>,
    /// IDs and partial Message objects.
    pub messages: HashMap<String, Message>,
    /// IDs and attachment objects.
    pub attachments: HashMap<String, Attachment>,
}

/// Application command interaction data option.
#[derive(Debug)]
pub struct ApplicationCommandInteractionDataOption {
    /// Name of the parameter.
    pub name: String,
    /// Value of application command option type.
    pub kind: ApplicationCommandOptionType,
    /// Value of the option resulting from user input.
    pub value: Option<serde_json::Value>,
    /// Present if this option is a group or subcommand.
    pub options: Vec<ApplicationCommandInteractionDataOption>,
    /// True if this option is the currently focused option for autocomplete.
    pub focused: bool,
}

/// Application command option type.
#[derive(Clone, Copy, Debug, Default, PartialEq, Eq, Structural)]
pub enum ApplicationCommandOptionType {
    #[default]
    SubCommand,
    SubCommandGroup,
    String,
    Integer,
    Boolean,
    User,
    Channel,
    Role,
    Mentionable,
    Number,
    Attachment,
}

/// Application command structure.
#[derive(Debug)]
pub struct ApplicationCommand {
    /// Unique ID of command.
    pub id: CommandId,
    /// Type of command.
    pub kind: ApplicationCommandType,
    /// ID of the parent application.
    pub application_id: UserId,
    /// Guild ID of the command, if not global.
    pub guild_id: Option<GuildId>,
    /// Name of command, 1-32 characters.
    pub name: String,
    /// Localization dictionary for name field.
    pub name_localizations: Option<HashMap<String, String>>,
    /// Description for CHAT_INPUT commands, 1-100 characters.
    pub description: String,
    /// Localization dictionary for description field.
    pub description_localizations: Option<HashMap<String, String>>,
    /// Parameters for the command, max of 25.
    pub options: Vec<ApplicationCommandOption>,
    /// Set of permissions represented as a bit set.
    pub default_member_permissions: Option<Permissions>,
    /// Indicates whether the command is available in DMs with the app.
    pub dm_permission: Option<bool>,
    /// Whether the command is enabled by default when the app is added to a guild.
    pub default_permission: Option<bool>,
    /// Indicates whether the command is age-restricted.
    pub nsfw: bool,
    /// Installation contexts where the command is available.
    pub integration_types: Vec<u8>,
    /// Interaction context(s) where the command can be used.
    pub contexts: Vec<InteractionContextType>,
    /// Autoincrementing version identifier.
    pub version: String,
}

/// Application command option.
#[derive(Debug)]
pub struct ApplicationCommandOption {
    /// Type of option.
    pub kind: ApplicationCommandOptionType,
    /// 1-32 character name.
    pub name: String,
    /// Localization dictionary for the name field.
    pub name_localizations: Option<HashMap<String, String>>,
    /// 1-100 character description.
    pub description: String,
    /// Localization dictionary for the description field.
    pub description_localizations: Option<HashMap<String, String>>,
    /// If the parameter is required or optional.
    pub required: bool,
    /// Choices for STRING, INTEGER, and NUMBER types for the user to pick from.
    pub choices: Vec<ApplicationCommandOptionChoice>,
    /// If the option is a subcommand or subcommand group type, these nested options.
    pub options: Vec<ApplicationCommandOption>,
    /// If the option is a channel type, the channels shown will be restricted to these types.
    pub channel_types: Vec<ChannelType>,
    /// If the option is an INTEGER or NUMBER type, the minimum value permitted.
    pub min_value: Option<serde_json::Number>,
    /// If the option is an INTEGER or NUMBER type, the maximum value permitted.
    pub max_value: Option<serde_json::Number>,
    /// For option type STRING, the minimum allowed length.
    pub min_length: Option<u32>,
    /// For option type STRING, the maximum allowed length.
    pub max_length: Option<u32>,
    /// If autocomplete interactions are enabled for this STRING, INTEGER, or NUMBER type option.
    pub autocomplete: bool,
}

/// Application command option choice.
#[derive(Debug)]
pub struct ApplicationCommandOptionChoice {
    /// 1-100 character choice name.
    pub name: String,
    /// Localization dictionary for the name field.
    pub name_localizations: Option<HashMap<String, String>>,
    /// Value for the choice.
    pub value: serde_json::Value,
}

/// Interaction response type.
#[derive(Clone, Copy, Debug, Default, PartialEq, Eq, Structural)]
pub enum InteractionResponseType {
    /// ACK a Ping.
    #[default]
    Pong,
    /// Respond to an interaction with a message.
    ChannelMessageWithSource,
    /// ACK an interaction and edit a response later.
    DeferredChannelMessageWithSource,
    /// For components, ACK an interaction and edit the original message later.
    DeferredUpdateMessage,
    /// For components, edit the message the component was attached to.
    UpdateMessage,
    /// Respond to an autocomplete interaction with suggested choices.
    ApplicationCommandAutocompleteResult,
    /// Respond to an interaction with a popup modal.
    Modal,
    /// Respond to an interaction with an upgrade button.
    PremiumRequired,
}

/// Interaction response.
#[derive(Debug)]
pub struct InteractionResponse {
    /// Type of response.
    pub kind: InteractionResponseType,
    /// An optional response message.
    pub data: Option<InteractionCallbackData>,
}

/// Interaction callback data.
#[derive(Debug, Default)]
pub struct InteractionCallbackData {
    /// Is the response TTS.
    pub tts: Option<bool>,
    /// Message content.
    pub content: Option<String>,
    /// Supports up to 10 embeds.
    pub embeds: Vec<Embed>,
    /// Allowed mentions object.
    pub allowed_mentions: Option<AllowedMentions>,
    /// Message flags.
    pub flags: Option<u32>,
    /// Message components.
    pub components: Vec<Component>,
    /// Attachment objects with filename and description.
    pub attachments: Vec<Attachment>,
    /// Autocomplete choices (max of 25 choices).
    pub choices: Vec<ApplicationCommandOptionChoice>,
    /// Custom ID for modal.
    pub custom_id: Option<String>,
    /// Title for modal.
    pub title: Option<String>,
}

/// Allowed mentions structure.
#[derive(Clone, Debug, Default)]
pub struct AllowedMentions {
    /// An array of allowed mention types to parse from the content.
    pub parse: Vec<String>,
    /// Array of role_ids to mention.
    pub roles: Vec<String>,
    /// Array of user_ids to mention.
    pub users: Vec<String>,
    /// For replies, whether to mention the author of the message being replied to.
    pub replied_user: bool,
}

impl Interaction {
    /// The user who invoked the interaction: the `user` field, else the member's user.
    pub open spec fn invoker(&self) -> Option<User> {
        match self.user {
            Some(u) => Some(u),
            None => match self.member {
                Some(m) => m.user,
                None => None,
            },
        }
    }

    /// Returns the user who invoked this interaction.
    pub fn user(&self) -> (r: Option<&User>)
        ensures
            match self.invoker() {
                Some(u) => r is Some && *r->0 == u,
                None => r is None,
            },
    {
        match &self.user {
            Some(u) => Some(u),
            None => match &self.member {
                Some(m) => match &m.user {
                    Some(u) => Some(u),
                    None => None,
                },
                None => None,
            },
        }
    }

    /// Returns the user ID of who invoked this interaction.
    pub fn user_id(&self) -> (r: Option<UserId>)
        ensures
            match self.invoker() {
                Some(u) => r == Some(u.id),
                None => r is None,
            },
    {
        match self.user() {
            Some(u) => Some(u.id),
            None => None,
        }
    }

    /// Returns true if this interaction was invoked in a guild.
    pub fn is_guild(&self) -> (r: bool)
        ensures
            r == self.guild_id is Some,
    {
        self.guild_id.is_some()
    }

    /// Returns true if this interaction was invoked in a DM.
    pub fn is_dm(&self) -> (r: bool)
        ensures
            r == self.guild_id is None,
    {
        self.guild_id.is_none()
    }
}

impl InteractionData {
    /// The position of the first option named `name`, if any.
    pub fn find_option(&self, name: &str) -> (r: Option<usize>)
        ensures
            match r {
                Some(i) => i < self.options@.len() && self.options@[i as int].name@ == name@
                    && forall|j: int| 0 <= j < i ==> #[trigger] self.options@[j].name@ != name@,
                None => forall|j: int| 0 <= j < self.options@.len() ==> #[trigger] self.options@[j].name@ != name@,
            },
    {
        let mut i: usize = 0;
        while i < self.options.len()
            invariant
                i <= self.options@.len(),
                forall|j: int| 0 <= j < i ==> #[trigger] self.options@[j].name@ != name@,
            decreases self.options@.len() - i,
        {
            if str_eq(self.options[i].name.as_str(), name) {
                return Some(i);
            }
            i = i + 1;
        }
        None
    }
}

impl InteractionType {
    /// The number that encodes this value in the Discord API.
    pub open spec fn code(self) -> u8 {
        match self {
            InteractionType::Ping => 1,
            InteractionType::ApplicationCommand => 2,
            InteractionType::MessageComponent => 3,
            InteractionType::ApplicationCommandAutocomplete => 4,
            InteractionType::ModalSubmit => 5,
        }
    }

    /// Whether `v` encodes some value of this type.
    pub open spec fn is_code(v: u8) -> bool {
        v == 1 || v == 2 || v == 3 || v == 4 || v == 5
    }

    /// The number that encodes this value in the Discord API.
    pub fn to_u8(self) -> (r: u8)
        ensures
            r == self.code(),
    {
        match self {
            InteractionType::Ping => 1,
            InteractionType::ApplicationCommand => 2,
            InteractionType::MessageComponent => 3,
            InteractionType::ApplicationCommandAutocomplete => 4,
            InteractionType::ModalSubmit => 5,
        }
    }

    /// The value that `v` encodes, if any.
    pub fn from_u8(v: u8) -> (r: Option<Self>)
        ensures
            match r {
                Some(t) => t.code() == v,
                None => !Self::is_code(v),
            },
    {
        if v == 1 {
            Some(InteractionType::Ping)
        } else if v == 2 {
            Some(InteractionType::ApplicationCommand)
        } else if v == 3 {
            Some(InteractionType::MessageComponent)
        } else if v == 4 {
            Some(InteractionType::ApplicationCommandAutocomplete)
        } else if v == 5 {
            Some(InteractionType::ModalSubmit)
        } else {
            None
        }
    }
}

/// Reading a `InteractionType` back from its number gives the same value: distinct
/// values have distinct numbers, and each value's number is one that
/// `from_u8` accepts.
pub proof fn law_interaction_type_code_round_trip(a: InteractionType, b: InteractionType)
    ensures
        a.code() == b.code() ==> a == b,
        InteractionType::is_code(a.code()),
{
}

/// Each `InteractionType` has its number in the Discord API: Ping 1,
/// Application Command 2, Message Component 3, Application Command Autocomplete
/// 4, Modal Submit 5. These are the only numbers that name one.
pub proof fn law_interaction_type_numbers(v: u8)
    ensures
        InteractionType::Ping.code() == 1,
        InteractionType::ApplicationCommand.code() == 2,
        InteractionType::MessageComponent.code() == 3,
        InteractionType::ApplicationCommandAutocomplete.code() == 4,
        InteractionType::ModalSubmit.code() == 5,
        InteractionType::is_code(v) <==> (v == 1 || v == 2 || v == 3 || v == 4 || v == 5),
{
}

impl InteractionContextType {
    /// The number that encodes this value in the Discord API.
    pub open spec fn code(self) -> u8 {
        match self {
            InteractionContextType::Guild => 0,
            InteractionContextType::BotDm => 1,
            InteractionContextType::PrivateChannel => 2,
        }
    }

    /// Whether `v` encodes some value of this type.
    pub open spec fn is_code(v: u8) -> bool {
        v == 0 || v == 1 || v == 2
    }

    /// The number that encodes this value in the Discord API.
    pub fn to_u8(self) -> (r: u8)
        ensures
            r == self.code(),
    {
        match self {
            InteractionContextType::Guild => 0,
            InteractionContextType::BotDm => 1,
            InteractionContextType::PrivateChannel => 2,
        }
    }

    /// The value that `v` encodes, if any.
    pub fn from_u8(v: u8) -> (r: Option<Self>)
        ensures
            match r {
                Some(t) => t.code() == v,
                None => !Self::is_code(v),
            },
    {
        if v == 0 {
            Some(InteractionContextType::Guild)
        } else if v == 1 {
            Some(InteractionContextType::BotDm)
        } else if v == 2 {
            Some(InteractionContextType::PrivateChannel)
        } else {
            None
        }
    }
}

/// Reading a `InteractionContextType` back from its number gives the same value: distinct
/// values have distinct numbers, and each value's number is one that
/// `from_u8` accepts.
pub proof fn law_interaction_context_type_code_round_trip(a: InteractionContextType, b: InteractionContextType)
    ensures
        a.code() == b.code() ==> a == b,
        InteractionContextType::is_code(a.code()),
{
}

/// Each `InteractionContextType` has its number in the Discord API: Guild 0,
/// Bot Dm 1, Private Channel 2. These are the only numbers that name one.
pub proof fn law_interaction_context_type_numbers(v: u8)
    ensures
        InteractionContextType::Guild.code() == 0,
        InteractionContextType::BotDm.code() == 1,
        InteractionContextType::PrivateChannel.code() == 2,
        InteractionContextType::is_code(v) <==> (v == 0 || v == 1 || v == 2),
{
}

impl ApplicationCommandType {
    /// The number that encodes this value in the Discord API.
    pub open spec fn code(self) -> u8 {
        match self {
            ApplicationCommandType::ChatInput => 1,
            ApplicationCommandType::User => 2,
            ApplicationCommandType::Message => 3,
        }
    }

    /// Whether `v` encodes some value of this type.
    pub open spec fn is_code(v: u8) -> bool {
        v == 1 || v == 2 || v == 3
    }

    /// The number that encodes this value in the Discord API.
    pub fn to_u8(self) -> (r: u8)
        ensures
            r == self.code(),
    {
        match self {
            ApplicationCommandType::ChatInput => 1,
            ApplicationCommandType::User => 2,
            ApplicationCommandType::Message => 3,
        }
    }

    /// The value that `v` encodes, if any.
    pub fn from_u8(v: u8) -> (r: Option<Self>)
        ensures
            match r {
                Some(t) => t.code() == v,
                None => !Self::is_code(v),
            },
    {
        if v == 1 {
            Some(ApplicationCommandType::ChatInput)
        } else if v == 2 {
            Some(ApplicationCommandType::User)
        } else if v == 3 {
            Some(ApplicationCommandType::Message)
        } else {
            None
        }
    }
}

/// Reading a `ApplicationCommandType` back from its number gives the same value: distinct
/// values have distinct numbers, and each value's number is one that
/// `from_u8` accepts.
pub proof fn law_application_command_type_code_round_trip(a: ApplicationCommandType, b: ApplicationCommandType)
    ensures
        a.code() == b.code() ==> a == b,
        ApplicationCommandType::is_code(a.code()),
{
}

/// Each `ApplicationCommandType` has its number in the Discord API: Chat Input
/// 1, User 2, Message 3. These are the only numbers that name one.
pub proof fn law_application_command_type_numbers(v: u8)
    ensures
        ApplicationCommandType::ChatInput.code() == 1,
        ApplicationCommandType::User.code() == 2,
        ApplicationCommandType::Message.code() == 3,
        ApplicationCommandType::is_code(v) <==> (v == 1 || v == 2 || v == 3),
{
}

impl ApplicationCommandOptionType {
    /// The number that encodes this value in the Discord API.
    pub open spec fn code(self) -> u8 {
        match self {
            ApplicationCommandOptionType::SubCommand => 1,
            ApplicationCommandOptionType::SubCommandGroup => 2,
            ApplicationCommandOptionType::String => 3,
            ApplicationCommandOptionType::Integer => 4,
            ApplicationCommandOptionType::Boolean => 5,
            ApplicationCommandOptionType::User => 6,
            ApplicationCommandOptionType::Channel => 7,
            ApplicationCommandOptionType::Role => 8,
            ApplicationCommandOptionType::Mentionable => 9,
            ApplicationCommandOptionType::Number => 10,
            ApplicationCommandOptionType::Attachment => 11,
        }
    }

    /// Whether `v` encodes some value of this type.
    pub open spec fn is_code(v: u8) -> bool {
        v == 1 || v == 2 || v == 3 || v == 4 || v == 5 || v == 6 || v == 7 || v == 8 || v == 9 || v == 10 || v == 11
    }

    /// The number that encodes this value in the Discord API.
    pub fn to_u8(self) -> (r: u8)
        ensures
            r == self.code(),
    {
        match self {
            ApplicationCommandOptionType::SubCommand => 1,
            ApplicationCommandOptionType::SubCommandGroup => 2,
            ApplicationCommandOptionType::String => 3,
            ApplicationCommandOptionType::Integer => 4,
            ApplicationCommandOptionType::Boolean => 5,
            ApplicationCommandOptionType::User => 6,
            ApplicationCommandOptionType::Channel => 7,
            ApplicationCommandOptionType::Role => 8,
            ApplicationCommandOptionType::Mentionable => 9,
            ApplicationCommandOptionType::Number => 10,
            ApplicationCommandOptionType::Attachment => 11,
        }
    }

    /// The value that `v` encodes, if any.
    pub fn from_u8(v: u8) -> (r: Option<Self>)
        ensures
            match r {
                Some(t) => t.code() == v,
                None => !Self::is_code(v),
            },
    {
        if v == 1 {
            Some(ApplicationCommandOptionType::SubCommand)
        } else if v == 2 {
            Some(ApplicationCommandOptionType::SubCommandGroup)
        } else if v == 3 {
            Some(ApplicationCommandOptionType::String)
        } else if v == 4 {
            Some(ApplicationCommandOptionType::Integer)
        } else if v == 5 {
            Some(ApplicationCommandOptionType::Boolean)
        } else if v == 6 {
            Some(ApplicationCommandOptionType::User)
        } else if v == 7 {
            Some(ApplicationCommandOptionType::Channel)
        } else if v == 8 {
            Some(ApplicationCommandOptionType::Role)
        } else if v == 9 {
            Some(ApplicationCommandOptionType::Mentionable)
        } else if v == 10 {
            Some(ApplicationCommandOptionType::Number)
        } else if v == 11 {
            Some(ApplicationCommandOptionType::Attachment)
        } else {
            None
        }
    }
}

/// Reading a `ApplicationCommandOptionType` back from its number gives the same value: distinct
/// values have distinct numbers, and each value's number is one that
/// `from_u8` accepts.
pub proof fn law_application_command_option_type_code_round_trip(a: ApplicationCommandOptionType, b: ApplicationCommandOptionType)
    ensures
        a.code() == b.code() ==> a == b,
        ApplicationCommandOptionType::is_code(a.code()),
{
}

/// Each `ApplicationCommandOptionType` has its number in the Discord API: Sub
/// Command 1, Sub Command Group 2, String 3, Integer 4, Boolean 5, User 6,
/// Channel 7, Role 8, Mentionable 9, Number 10, Attachment 11. These are the
/// only numbers that name one.
pub proof fn law_application_command_option_type_numbers(v: u8)
    ensures
        ApplicationCommandOptionType::SubCommand.code() == 1,
        ApplicationCommandOptionType::SubCommandGroup.code() == 2,
        ApplicationCommandOptionType::String.code() == 3,
        ApplicationCommandOptionType::Integer.code() == 4,
        ApplicationCommandOptionType::Boolean.code() == 5,
        ApplicationCommandOptionType::User.code() == 6,
        ApplicationCommandOptionType::Channel.code() == 7,
        ApplicationCommandOptionType::Role.code() == 8,
        ApplicationCommandOptionType::Mentionable.code() == 9,
        ApplicationCommandOptionType::Number.code() == 10,
        ApplicationCommandOptionType::Attachment.code() == 11,
        ApplicationCommandOptionType::is_code(v) <==> (v == 1 || v == 2 || v == 3 || v == 4 || v == 5 || v == 6 || v == 7 || v == 8 || v == 9 || v == 10 || v == 11),
{
}

impl InteractionResponseType {
    /// The number that encodes this value in the Discord API.
    pub open spec fn code(self) -> u8 {
        match self {
            InteractionResponseType::Pong => 1,
            InteractionResponseType::ChannelMessageWithSource => 4,
            InteractionResponseType::DeferredChannelMessageWithSource => 5,
            InteractionResponseType::DeferredUpdateMessage => 6,
            InteractionResponseType::UpdateMessage => 7,
            InteractionResponseType::ApplicationCommandAutocompleteResult => 8,
            InteractionResponseType::Modal => 9,
            InteractionResponseType::PremiumRequired => 10,
        }
    }

    /// Whether `v` encodes some value of this type.
    pub open spec fn is_code(v: u8) -> bool {
        v == 1 || v == 4 || v == 5 || v == 6 || v == 7 || v == 8 || v == 9 || v == 10
    }

    /// The number that encodes this value in the Discord API.
    pub fn to_u8(self) -> (r: u8)
        ensures
            r == self.code(),
    {
        match self {
            InteractionResponseType::Pong => 1,
            InteractionResponseType::ChannelMessageWithSource => 4,
            InteractionResponseType::DeferredChannelMessageWithSource => 5,
            InteractionResponseType::DeferredUpdateMessage => 6,
            InteractionResponseType::UpdateMessage => 7,
            InteractionResponseType::ApplicationCommandAutocompleteResult => 8,
            InteractionResponseType::Modal => 9,
            InteractionResponseType::PremiumRequired => 10,
        }
    }

    /// The value that `v` encodes, if any.
    pub fn from_u8(v: u8) -> (r: Option<Self>)
        ensures
            match r {
                Some(t) => t.code() == v,
                None => !Self::is_code(v),
            },
    {
        if v == 1 {
            Some(InteractionResponseType::Pong)
        } else if v == 4 {
            Some(InteractionResponseType::ChannelMessageWithSource)
        } else if v == 5 {
            Some(InteractionResponseType::DeferredChannelMessageWithSource)
        } else if v == 6 {
            Some(InteractionResponseType::DeferredUpdateMessage)
        } else if v == 7 {
            Some(InteractionResponseType::UpdateMessage)
        } else if v == 8 {
            Some(InteractionResponseType::ApplicationCommandAutocompleteResult)
        } else if v == 9 {
            Some(InteractionResponseType::Modal)
        } else if v == 10 {
            Some(InteractionResponseType::PremiumRequired)
        } else {
            None
        }
    }
}

/// Reading a `InteractionResponseType` back from its number gives the same value: distinct
/// values have distinct numbers, and each value's number is one that
/// `from_u8` accepts.
pub proof fn law_interaction_response_type_code_round_trip(a: InteractionResponseType, b: InteractionResponseType)
    ensures
        a.code() == b.code() ==> a == b,
        InteractionResponseType::is_code(a.code()),
{
}

/// Each `InteractionResponseType` has its number in the Discord API: Pong 1,
/// Channel Message With Source 4, Deferred Channel Message With Source 5,
/// Deferred Update Message 6, Update Message 7, Application Command
/// Autocomplete Result 8, Modal 9, Premium Required 10. These are the only
/// numbers that name one.
pub proof fn law_interaction_response_type_numbers(v: u8)
    ensures
        InteractionResponseType::Pong.code() == 1,
        InteractionResponseType::ChannelMessageWithSource.code() == 4,
        InteractionResponseType::DeferredChannelMessageWithSource.code() == 5,
        InteractionResponseType::DeferredUpdateMessage.code() == 6,
        InteractionResponseType::UpdateMessage.code() == 7,
        InteractionResponseType::ApplicationCommandAutocompleteResult.code() == 8,
        InteractionResponseType::Modal.code() == 9,
        InteractionResponseType::PremiumRequired.code() == 10,
        InteractionResponseType::is_code(v) <==> (v == 1 || v == 4 || v == 5 || v == 6 || v == 7 || v == 8 || v == 9 || v == 10),
{
}

/// The user who invoked an interaction is its top-level user when it has one
/// (a direct message); otherwise, as for an interaction in a guild, it is the
/// user its member carries; with neither, there is none.
pub proof fn law_invoker_is_user_else_members_user(i: Interaction)
    ensures
        i.user matches Some(u) ==> i.invoker() == Some(u),
        i.user is None ==> (i.member matches Some(m) ==> i.invoker() == m.user),
        i.user is None && i.member is None ==> i.invoker() is None,
{
}

} // verus!
