//! Discord interactions.
//!
//! Interactions arrive via the `INTERACTION_CREATE` gateway dispatch event
//! when a user invokes a slash command, clicks a button, submits a modal,
//! etc.

use std::collections::HashMap;
use vstd::prelude::*;
use vstd::std_specs::convert::{FromSpecImpl, TryFromSpecImpl};
use crate::json::{JsonValue, json_same};
use crate::models::channel::Channel;
use crate::models::embed::Embed;
use crate::models::member::Member;
use crate::models::message::Message;
use crate::models::role::Role;
use crate::models::user::User;
use crate::snowflake::Snowflake;
use crate::text::{code_message, decimal};

verus! {

/// The type of an incoming interaction.
#[derive(Debug, Clone, Copy, PartialEq, Eq, Hash, Structural)]
pub enum InteractionType {
    /// Sent by Discord to test webhook connectivity.
    Ping,
    /// A slash command, user command, or message command was invoked.
    ApplicationCommand,
    /// An interactive component (button, select menu, …) was used.
    MessageComponent,
    /// The user typed an option with autocomplete enabled.
    ApplicationCommandAutocomplete,
    /// A modal was submitted.
    ModalSubmit,
}

impl InteractionType {
    /// The wire code of this interaction type.
    pub open spec fn code_spec(self) -> u8 {
        match self {
            InteractionType::Ping => 1u8,
            InteractionType::ApplicationCommand => 2u8,
            InteractionType::MessageComponent => 3u8,
            InteractionType::ApplicationCommandAutocomplete => 4u8,
            InteractionType::ModalSubmit => 5u8,
        }
    }

    /// The value with wire code `v`, if there is one.
    pub open spec fn from_code_spec(v: u8) -> Option<InteractionType> {
        if v == 1u8 {
            Some(InteractionType::Ping)
        } else if v == 2u8 {
            Some(InteractionType::ApplicationCommand)
        } else if v == 3u8 {
            Some(InteractionType::MessageComponent)
        } else if v == 4u8 {
            Some(InteractionType::ApplicationCommandAutocomplete)
        } else if v == 5u8 {
            Some(InteractionType::ModalSubmit)
        } else {
            None
        }
    }
}

impl TryFrom<u8> for InteractionType {
    type Error = String;

    fn try_from(v: u8) -> (r: Result<Self, String>)
        ensures
            match InteractionType::from_code_spec(v) {
                Some(k) => r == Ok::<InteractionType, String>(k),
                None => r is Err && r->Err_0@ == "unknown interaction type: "@ + decimal(v as nat),
            },
    {
        match v {
            1 => Ok(InteractionType::Ping),
            2 => Ok(InteractionType::ApplicationCommand),
            3 => Ok(InteractionType::MessageComponent),
            4 => Ok(InteractionType::ApplicationCommandAutocomplete),
            5 => Ok(InteractionType::ModalSubmit),
            _ => Err(code_message("unknown interaction type: ", v)),
        }
    }
}

/// The contract of `try_from` is stated on the function itself, error text
/// included; this spec is not relied on.
impl TryFromSpecImpl<u8> for InteractionType {
    open spec fn obeys_try_from_spec() -> bool {
        false
    }

    open spec fn try_from_spec(v: u8) -> Result<InteractionType, String> {
        match InteractionType::from_code_spec(v) {
            Some(k) => Ok(k),
            None => Err(arbitrary()),
        }
    }
}

impl From<InteractionType> for u8 {
    fn from(v: InteractionType) -> (r: u8)
        ensures
            r == v.code_spec(),
    {
        match v {
            InteractionType::Ping => 1,
            InteractionType::ApplicationCommand => 2,
            InteractionType::MessageComponent => 3,
            InteractionType::ApplicationCommandAutocomplete => 4,
            InteractionType::ModalSubmit => 5,
        }
    }
}

impl FromSpecImpl<InteractionType> for u8 {
    open spec fn obeys_from_spec() -> bool {
        true
    }

    open spec fn from_spec(v: InteractionType) -> u8 {
        v.code_spec()
    }
}

/// Every interaction type has exactly one wire code: decoding a value's code gives the
/// value back, and a code that decodes names a value with that code.
pub proof fn lemma_interaction_type_code_roundtrip(k: InteractionType, v: u8)
    ensures
        InteractionType::from_code_spec(k.code_spec()) == Some(k),
        InteractionType::from_code_spec(v) matches Some(j) ==> j.code_spec() == v,
{
}

/// Discriminates between chat-input (`/command`), user, and message commands.
#[derive(Debug, Clone, Copy, PartialEq, Eq, Hash, Structural)]
pub enum ApplicationCommandType {
    /// A `/slash` command.
    ChatInput,
    /// Right-click → Apps on a user.
    User,
    /// Right-click → Apps on a message.
    Message,
}

impl ApplicationCommandType {
    /// The wire code of this command type.
    pub open spec fn code_spec(self) -> u8 {
        match self {
            ApplicationCommandType::ChatInput => 1u8,
            ApplicationCommandType::User => 2u8,
            ApplicationCommandType::Message => 3u8,
        }
    }

    /// The value with wire code `v`, if there is one.
    pub open spec fn from_code_spec(v: u8) -> Option<ApplicationCommandType> {
        if v == 1u8 {
            Some(ApplicationCommandType::ChatInput)
        } else if v == 2u8 {
            Some(ApplicationCommandType::User)
        } else if v == 3u8 {
            Some(ApplicationCommandType::Message)
        } else {
            None
        }
    }
}

impl TryFrom<u8> for ApplicationCommandType {
    type Error = String;

    fn try_from(v: u8) -> (r: Result<Self, String>)
        ensures
            match ApplicationCommandType::from_code_spec(v) {
                Some(k) => r == Ok::<ApplicationCommandType, String>(k),
                None => r is Err && r->Err_0@ == "unknown application command type: "@ + decimal(v as nat),
            },
    {
        match v {
            1 => Ok(ApplicationCommandType::ChatInput),
            2 => Ok(ApplicationCommandType::User),
            3 => Ok(ApplicationCommandType::Message),
            _ => Err(code_message("unknown application command type: ", v)),
        }
    }
}

/// The contract of `try_from` is stated on the function itself, error text
/// included; this spec is not relied on.
impl TryFromSpecImpl<u8> for ApplicationCommandType {
    open spec fn obeys_try_from_spec() -> bool {
        false
    }

    open spec fn try_from_spec(v: u8) -> Result<ApplicationCommandType, String> {
        match ApplicationCommandType::from_code_spec(v) {
            Some(k) => Ok(k),
            None => Err(arbitrary()),
        }
    }
}

impl From<ApplicationCommandType> for u8 {
    fn from(v: ApplicationCommandType) -> (r: u8)
        ensures
            r == v.code_spec(),
    {
        match v {
            ApplicationCommandType::ChatInput => 1,
            ApplicationCommandType::User => 2,
            ApplicationCommandType::Message => 3,
        }
    }
}

impl FromSpecImpl<ApplicationCommandType> for u8 {
    open spec fn obeys_from_spec() -> bool {
        true
    }

    open spec fn from_spec(v: ApplicationCommandType) -> u8 {
        v.code_spec()
    }
}

impl Default for ApplicationCommandType {
    fn default() -> (r: Self)
        ensures
            r == ApplicationCommandType::ChatInput,
    {
        ApplicationCommandType::ChatInput
    }
}

/// Every command type has exactly one wire code: decoding a value's code gives the
/// value back, and a code that decodes names a value with that code.
pub proof fn lemma_application_command_type_code_roundtrip(k: ApplicationCommandType, v: u8)
    ensures
        ApplicationCommandType::from_code_spec(k.code_spec()) == Some(k),
        ApplicationCommandType::from_code_spec(v) matches Some(j) ==> j.code_spec() == v,
{
}

/// The type of a command option (parameter).
#[derive(Debug, Clone, Copy, PartialEq, Eq, Hash, Structural)]
pub enum CommandOptionType {
    /// A sub-command.
    SubCommand,
    /// A group of sub-commands.
    SubCommandGroup,
    /// A string.
    String,
    /// An integer.
    Integer,
    /// A boolean.
    Boolean,
    /// A user.
    User,
    /// A channel.
    Channel,
    /// A role.
    Role,
    /// A user or role.
    Mentionable,
    /// A floating-point number.
    Number,
    /// A file attachment.
    Attachment,
}

impl CommandOptionType {
    /// The wire code of this option type.
    pub open spec fn code_spec(self) -> u8 {
        match self {
            CommandOptionType::SubCommand => 1u8,
            CommandOptionType::SubCommandGroup => 2u8,
            CommandOptionType::String => 3u8,
            CommandOptionType::Integer => 4u8,
            CommandOptionType::Boolean => 5u8,
            CommandOptionType::User => 6u8,
            CommandOptionType::Channel => 7u8,
            CommandOptionType::Role => 8u8,
            CommandOptionType::Mentionable => 9u8,
            CommandOptionType::Number => 10u8,
            CommandOptionType::Attachment => 11u8,
        }
    }

    /// The value with wire code `v`, if there is one.
    pub open spec fn from_code_spec(v: u8) -> Option<CommandOptionType> {
        if v == 1u8 {
            Some(CommandOptionType::SubCommand)
        } else if v == 2u8 {
            Some(CommandOptionType::SubCommandGroup)
        } else if v == 3u8 {
            Some(CommandOptionType::String)
        } else if v == 4u8 {
            Some(CommandOptionType::Integer)
        } else if v == 5u8 {
            Some(CommandOptionType::Boolean)
        } else if v == 6u8 {
            Some(CommandOptionType::User)
        } else if v == 7u8 {
            Some(CommandOptionType::Channel)
        } else if v == 8u8 {
            Some(CommandOptionType::Role)
        } else if v == 9u8 {
            Some(CommandOptionType::Mentionable)
        } else if v == 10u8 {
            Some(CommandOptionType::Number)
        } else if v == 11u8 {
            Some(CommandOptionType::Attachment)
        } else {
            None
        }
    }
}

impl TryFrom<u8> for CommandOptionType {
    type Error = String;

    fn try_from(v: u8) -> (r: Result<Self, String>)
        ensures
            match CommandOptionType::from_code_spec(v) {
                Some(k) => r == Ok::<CommandOptionType, String>(k),
                None => r is Err && r->Err_0@ == "unknown command option type: "@ + decimal(v as nat),
            },
    {
        match v {
            1 => Ok(CommandOptionType::SubCommand),
            2 => Ok(CommandOptionType::SubCommandGroup),
            3 => Ok(CommandOptionType::String),
            4 => Ok(CommandOptionType::Integer),
            5 => Ok(CommandOptionType::Boolean),
            6 => Ok(CommandOptionType::User),
            7 => Ok(CommandOptionType::Channel),
            8 => Ok(CommandOptionType::Role),
            9 => Ok(CommandOptionType::Mentionable),
            10 => Ok(CommandOptionType::Number),
            11 => Ok(CommandOptionType::Attachment),
            _ => Err(code_message("unknown command option type: ", v)),
        }
    }
}

/// The contract of `try_from` is stated on the function itself, error text
/// included; this spec is not relied on.
impl TryFromSpecImpl<u8> for CommandOptionType {
    open spec fn obeys_try_from_spec() -> bool {
        false
    }

    open spec fn try_from_spec(v: u8) -> Result<CommandOptionType, String> {
        match CommandOptionType::from_code_spec(v) {
            Some(k) => Ok(k),
            None => Err(arbitrary()),
        }
    }
}

impl From<CommandOptionType> for u8 {
    fn from(v: CommandOptionType) -> (r: u8)
        ensures
            r == v.code_spec(),
    {
        match v {
            CommandOptionType::SubCommand => 1,
            CommandOptionType::SubCommandGroup => 2,
            CommandOptionType::String => 3,
            CommandOptionType::Integer => 4,
            CommandOptionType::Boolean => 5,
            CommandOptionType::User => 6,
            CommandOptionType::Channel => 7,
            CommandOptionType::Role => 8,
            CommandOptionType::Mentionable => 9,
            CommandOptionType::Number => 10,
            CommandOptionType::Attachment => 11,
        }
    }
}

impl FromSpecImpl<CommandOptionType> for u8 {
    open spec fn obeys_from_spec() -> bool {
        true
    }

    open spec fn from_spec(v: CommandOptionType) -> u8 {
        v.code_spec()
    }
}

/// Every option type has exactly one wire code: decoding a value's code gives the
/// value back, and a code that decodes names a value with that code.
pub proof fn lemma_command_option_type_code_roundtrip(k: CommandOptionType, v: u8)
    ensures
        CommandOptionType::from_code_spec(k.code_spec()) == Some(k),
        CommandOptionType::from_code_spec(v) matches Some(j) ==> j.code_spec() == v,
{
}

/// Entities resolved from snowflake IDs in an application command invocation.
#[derive(Debug, Clone)]
pub struct ResolvedData {
    /// Users resolved from option values.
    pub users: HashMap<Snowflake, User>,
    /// Guild members resolved from option values.
    pub members: HashMap<Snowflake, Member>,
    /// Roles resolved from option values.
    pub roles: HashMap<Snowflake, Role>,
    /// Channels resolved from option values.
    pub channels: HashMap<Snowflake, Channel>,
    /// Messages resolved from option values (context-menu message commands).
    pub messages: HashMap<Snowflake, Message>,
    /// Attachments resolved from option values.
    pub attachments: HashMap<Snowflake, JsonValue>,
}

/// A single option value provided to an application command.
#[derive(Debug)]
pub struct CommandInteractionOption {
    /// The option name.
    pub name: String,
    /// The option type.
    pub kind: CommandOptionType,
    /// The resolved value (string, integer, boolean, snowflake, …).
    pub value: Option<JsonValue>,
    /// Nested options for sub-commands or sub-command groups.
    pub options: Vec<CommandInteractionOption>,
    /// `true` when this option triggered autocomplete.
    pub focused: Option<bool>,
}

/// Whether option `a` holds the same data as option `b`: name, type,
/// focus, the same JSON value, and nested options that are pairwise the
/// same.
pub open spec fn option_same(a: CommandInteractionOption, b: CommandInteractionOption) -> bool
    decreases a,
{
    &&& a.name == b.name
    &&& a.kind == b.kind
    &&& a.focused == b.focused
    &&& match (a.value, b.value) {
        (Some(x), Some(y)) => json_same(x, y),
        (None, None) => true,
        _ => false,
    }
    &&& a.options@.len() == b.options@.len()
    &&& forall|k: int| 0 <= k < a.options@.len() ==> option_same(#[trigger] a.options@[k], b.options@[k])
}

impl CommandInteractionOption {
    /// A copy of the option and of all its nested options.
    pub fn deep_copy(&self) -> (r: CommandInteractionOption)
        ensures
            option_same(r, *self),
        decreases self,
    {
        let mut options: Vec<CommandInteractionOption> = Vec::new();
        let n = self.options.len();
        let mut i: usize = 0;
        while i < n
            invariant
                n == self.options@.len(),
                i <= n,
                options@.len() == i,
                forall|k: int| 0 <= k < i ==> option_same(#[trigger] options@[k], self.options@[k]),
            decreases n - i,
        {
            assert(decreases_to!(*self => self.options));
            assert(decreases_to!(self.options => self.options@));
            assert(decreases_to!(self.options@ => self.options@[i as int]));
            let o = self.options[i].deep_copy();
            options.push(o);
            i = i + 1;
        }
        let value = match &self.value {
            Some(v) => Some(v.deep_clone()),
            None => None,
        };
        CommandInteractionOption {
            name: self.name.clone(),
            kind: self.kind,
            value,
            options,
            focused: self.focused,
        }
    }
}

impl Clone for CommandInteractionOption {
    fn clone(&self) -> (r: Self)
        ensures
            option_same(r, *self),
    {
        self.deep_copy()
    }
}

/// Interaction data for an application command (slash, user, or message).
#[derive(Debug, Clone)]
pub struct ApplicationCommandData {
    /// The ID of the command that was invoked.
    pub id: Snowflake,
    /// The name of the command.
    pub name: String,
    /// The kind of command.
    pub kind: ApplicationCommandType,
    /// Options (arguments) provided by the user.
    pub options: Vec<CommandInteractionOption>,
    /// Resolved entities referenced by options.
    pub resolved: Option<ResolvedData>,
    /// Target entity ID for user/message commands.
    pub target_id: Option<Snowflake>,
}

/// Interaction data for a message component (button, select menu, …).
#[derive(Debug, Clone)]
pub struct MessageComponentData {
    /// The developer-defined `custom_id` of the component.
    pub custom_id: String,
    /// The component type (2 = button, 3 = string select, …).
    pub component_type: u8,
    /// Selected values (for select menus).
    pub values: Vec<String>,
}

/// Interaction data for a modal submission.
#[derive(Debug, Clone)]
pub struct ModalSubmitData {
    /// The developer-defined `custom_id` of the modal.
    pub custom_id: String,
    /// Action row components containing the submitted text inputs.
    pub components: Vec<JsonValue>,
}

/// The data payload of an interaction.
#[derive(Debug, Clone)]
pub enum InteractionData {
    /// Data from an application command invocation.
    ApplicationCommand(ApplicationCommandData),
    /// Data from a message component interaction.
    MessageComponent(MessageComponentData),
    /// Data from a modal submission.
    ModalSubmit(ModalSubmitData),
}

/// An incoming Discord interaction.
///
/// Interactions are delivered as `INTERACTION_CREATE` gateway dispatch
/// events and must be acknowledged within 3 seconds.
#[derive(Debug, Clone)]
pub struct Interaction {
    /// Unique ID of this interaction instance.
    pub id: Snowflake,
    /// The application this interaction belongs to.
    pub application_id: Snowflake,
    /// The kind of interaction.
    pub kind: InteractionType,
    /// Type-specific data payload.
    pub data: Option<InteractionData>,
    /// The guild this interaction was sent from (absent for DMs).
    pub guild_id: Option<Snowflake>,
    /// The channel this interaction was sent from.
    pub channel_id: Option<Snowflake>,
    /// The guild member who triggered the interaction (guild-only).
    pub member: Option<Member>,
    /// The user who triggered the interaction (DM-only; use [`Self::author`]).
    pub user: Option<User>,
    /// Continuation token used for responding to the interaction.
    pub token: String,
    /// Always `1`.
    pub version: u8,
    /// The message the component was attached to (component interactions only).
    pub message: Option<Message>,
    /// Bitwise set of permissions the app has in the source channel.
    pub app_permissions: Option<String>,
    /// The selected language of the invoking user.
    pub locale: Option<String>,
    /// The guild's preferred locale (guild-only).
    pub guild_locale: Option<String>,
    /// For monetized apps, any entitlements for the invoking user.
    pub entitlements: Vec<JsonValue>,
    /// Installation contexts that the interaction was authorized for, keyed
    /// by integration type (`"0"` = GUILD_INSTALL, `"1"` = USER_INSTALL).
    pub authorizing_integration_owners: Option<HashMap<String, Snowflake>>,
    /// Context where the interaction was triggered from.
    /// `0` = GUILD, `1` = BOT_DM, `2` = PRIVATE_CHANNEL.
    pub context: Option<u8>,
    /// The channel object for the channel the interaction was sent from.
    pub channel: Option<Channel>,
}

impl Interaction {
    /// The user who triggered the interaction: `user` when present,
    /// otherwise the user of `member`.
    pub open spec fn author_spec(self) -> Option<User> {
        match self.user {
            Some(u) => Some(u),
            None => match self.member {
                Some(m) => m.user,
                None => None,
            },
        }
    }

    /// Return the user who triggered this interaction, whether it came from
    /// a guild (via `member.user`) or a DM (via `user`).
    pub fn author(&self) -> (r: Option<&User>)
        ensures
            match r {
                Some(u) => self.author_spec() == Some(*u),
                None => self.author_spec() is None,
            },
    {
        match &self.user {
            Some(u) => Some(u),
            None => match &self.member {
                Some(m) => match &m.user {
                    Some(u) => Some(u),
                    None => None,
                },
                None => None,
            },
        }
    }

    /// Return the application command data, if applicable.
    pub fn command_data(&self) -> (r: Option<&ApplicationCommandData>)
        ensures
            match r {
                Some(d) => self.data == Some(InteractionData::ApplicationCommand(*d)),
                None => !(self.data matches Some(InteractionData::ApplicationCommand(_))),
            },
    {
        match &self.data {
            Some(InteractionData::ApplicationCommand(d)) => Some(d),
            _ => None,
        }
    }

    /// Return the message component data, if applicable.
    pub fn component_data(&self) -> (r: Option<&MessageComponentData>)
        ensures
            match r {
                Some(d) => self.data == Some(InteractionData::MessageComponent(*d)),
                None => !(self.data matches Some(InteractionData::MessageComponent(_))),
            },
    {
        match &self.data {
            Some(InteractionData::MessageComponent(d)) => Some(d),
            _ => None,
        }
    }

    /// Return the modal submit data, if applicable.
    pub fn modal_data(&self) -> (r: Option<&ModalSubmitData>)
        ensures
            match r {
                Some(d) => self.data == Some(InteractionData::ModalSubmit(*d)),
                None => !(self.data matches Some(InteractionData::ModalSubmit(_))),
            },
    {
        match &self.data {
            Some(InteractionData::ModalSubmit(d)) => Some(d),
            _ => None,
        }
    }
}

/// How the bot responds to an interaction.
#[derive(Debug, Clone, Copy, PartialEq, Eq, Structural)]
pub enum InteractionResponseType {
    /// ACK a `Ping` (webhook endpoint verification).
    Pong,
    /// Send a message as the response, shown immediately.
    ChannelMessageWithSource,
    /// Acknowledge the interaction with a loading state; edit the response later.
    DeferredChannelMessageWithSource,
    /// For component interactions: acknowledge without sending a message.
    DeferredUpdateMessage,
    /// For component interactions: edit the message the component is on.
    UpdateMessage,
    /// Respond to an autocomplete request with choices.
    ApplicationCommandAutocompleteResult,
    /// Respond with a modal dialog.
    Modal,
    /// Respond with an upgrade prompt for premium (deprecated: use `Modal` or a custom premium flow instead).
    PremiumRequired,
    /// Launch an activity associated with the app.
    LaunchActivity,
}

impl InteractionResponseType {
    /// The wire code of this response type.
    pub open spec fn code_spec(self) -> u8 {
        match self {
            InteractionResponseType::Pong => 1u8,
            InteractionResponseType::ChannelMessageWithSource => 4u8,
            InteractionResponseType::DeferredChannelMessageWithSource => 5u8,
            InteractionResponseType::DeferredUpdateMessage => 6u8,
            InteractionResponseType::UpdateMessage => 7u8,
            InteractionResponseType::ApplicationCommandAutocompleteResult => 8u8,
            InteractionResponseType::Modal => 9u8,
            InteractionResponseType::PremiumRequired => 10u8,
            InteractionResponseType::LaunchActivity => 12u8,
        }
    }

    /// The value with wire code `v`, if there is one.
    pub open spec fn from_code_spec(v: u8) -> Option<InteractionResponseType> {
        if v == 1u8 {
            Some(InteractionResponseType::Pong)
        } else if v == 4u8 {
            Some(InteractionResponseType::ChannelMessageWithSource)
        } else if v == 5u8 {
            Some(InteractionResponseType::DeferredChannelMessageWithSource)
        } else if v == 6u8 {
            Some(InteractionResponseType::DeferredUpdateMessage)
        } else if v == 7u8 {
            Some(InteractionResponseType::UpdateMessage)
        } else if v == 8u8 {
            Some(InteractionResponseType::ApplicationCommandAutocompleteResult)
        } else if v == 9u8 {
            Some(InteractionResponseType::Modal)
        } else if v == 10u8 {
            Some(InteractionResponseType::PremiumRequired)
        } else if v == 12u8 {
            Some(InteractionResponseType::LaunchActivity)
        } else {
            None
        }
    }
}

impl TryFrom<u8> for InteractionResponseType {
    type Error = String;

    fn try_from(v: u8) -> (r: Result<Self, String>)
        ensures
            match InteractionResponseType::from_code_spec(v) {
                Some(k) => r == Ok::<InteractionResponseType, String>(k),
                None => r is Err && r->Err_0@ == "unknown interaction response type: "@ + decimal(v as nat),
            },
    {
        match v {
            1 => Ok(InteractionResponseType::Pong),
            4 => Ok(InteractionResponseType::ChannelMessageWithSource),
            5 => Ok(InteractionResponseType::DeferredChannelMessageWithSource),
            6 => Ok(InteractionResponseType::DeferredUpdateMessage),
            7 => Ok(InteractionResponseType::UpdateMessage),
            8 => Ok(InteractionResponseType::ApplicationCommandAutocompleteResult),
            9 => Ok(InteractionResponseType::Modal),
            10 => Ok(InteractionResponseType::PremiumRequired),
            12 => Ok(InteractionResponseType::LaunchActivity),
            _ => Err(code_message("unknown interaction response type: ", v)),
        }
    }
}

/// The contract of `try_from` is stated on the function itself, error text
/// included; this spec is not relied on.
impl TryFromSpecImpl<u8> for InteractionResponseType {
    open spec fn obeys_try_from_spec() -> bool {
        false
    }

    open spec fn try_from_spec(v: u8) -> Result<InteractionResponseType, String> {
        match InteractionResponseType::from_code_spec(v) {
            Some(k) => Ok(k),
            None => Err(arbitrary()),
        }
    }
}

impl From<InteractionResponseType> for u8 {
    fn from(v: InteractionResponseType) -> (r: u8)
        ensures
            r == v.code_spec(),
    {
        match v {
            InteractionResponseType::Pong => 1,
            InteractionResponseType::ChannelMessageWithSource => 4,
            InteractionResponseType::DeferredChannelMessageWithSource => 5,
            InteractionResponseType::DeferredUpdateMessage => 6,
            InteractionResponseType::UpdateMessage => 7,
            InteractionResponseType::ApplicationCommandAutocompleteResult => 8,
            InteractionResponseType::Modal => 9,
            InteractionResponseType::PremiumRequired => 10,
            InteractionResponseType::LaunchActivity => 12,
        }
    }
}

impl FromSpecImpl<InteractionResponseType> for u8 {
    open spec fn obeys_from_spec() -> bool {
        true
    }

    open spec fn from_spec(v: InteractionResponseType) -> u8 {
        v.code_spec()
    }
}

/// Every response type has exactly one wire code: decoding a value's code gives the
/// value back, and a code that decodes names a value with that code.
pub proof fn lemma_interaction_response_type_code_roundtrip(k: InteractionResponseType, v: u8)
    ensures
        InteractionResponseType::from_code_spec(k.code_spec()) == Some(k),
        InteractionResponseType::from_code_spec(v) matches Some(j) ==> j.code_spec() == v,
{
}

/// The message flag that makes a response visible only to the invoking user.
pub const EPHEMERAL: u64 = 64;

/// Data payload for an interaction response.
///
/// Fields are shared across message, autocomplete, and modal response
/// types; unused fields are omitted from the request body.
#[derive(Debug, Clone)]
pub struct InteractionCallbackData {
    /// Text content of the message.
    pub content: Option<String>,
    /// Message flags. Bit 6 (`64`) for ephemeral, bit 15 (`32768`) for
    /// components v2.
    pub flags: Option<u64>,
    /// Embeds to include in the response.
    pub embeds: Vec<Embed>,
    /// Components to include (action rows, v2 layout primitives, etc.).
    pub components: Vec<JsonValue>,
    /// Whether this is a TTS message.
    pub tts: Option<bool>,
    /// Allowed mentions configuration.
    pub allowed_mentions: Option<JsonValue>,
    /// Attachment objects to include.
    pub attachments: Vec<JsonValue>,
    /// A poll object attached to the response.
    pub poll: Option<JsonValue>,
    /// Choices shown to the user (autocomplete responses only).
    pub choices: Vec<AutocompleteChoice>,
    /// Developer-defined ID for the modal.
    pub custom_id: Option<String>,
    /// Title shown at the top of the modal (max 45 characters).
    pub title: Option<String>,
}

impl InteractionCallbackData {
    /// Whether the data sets nothing.
    pub open spec fn is_blank(self) -> bool {
        &&& self.content is None
        &&& self.flags is None
        &&& self.embeds@.len() == 0
        &&& self.components@.len() == 0
        &&& self.tts is None
        &&& self.allowed_mentions is None
        &&& self.attachments@.len() == 0
        &&& self.poll is None
        &&& self.choices@.len() == 0
        &&& self.custom_id is None
        &&& self.title is None
    }

    /// Whether the data sets nothing, its embeds and components aside.
    pub open spec fn blank_but_lists(self) -> bool {
        &&& self.content is None
        &&& self.flags is None
        &&& self.tts is None
        &&& self.allowed_mentions is None
        &&& self.attachments@.len() == 0
        &&& self.poll is None
        &&& self.choices@.len() == 0
        &&& self.custom_id is None
        &&& self.title is None
    }

    /// A simple text response.
    pub fn message(content: String) -> (r: Self)
        ensures
            r == (InteractionCallbackData { content: Some(content), ..r }),
            (InteractionCallbackData { content: None, ..r }).is_blank(),
    {
        Self { content: Some(content), ..Default::default() }
    }

    /// An ephemeral text response visible only to the invoking user.
    pub fn ephemeral(content: String) -> (r: Self)
        ensures
            r.content == Some(content),
            r.flags == Some(EPHEMERAL),
            (InteractionCallbackData { content: None, flags: None, ..r }).is_blank(),
    {
        Self { content: Some(content), flags: Some(EPHEMERAL), ..Default::default() }
    }

    /// Append an embed to this callback data.
    pub fn embed(self, embed: Embed) -> (r: Self)
        ensures
            r.embeds@ == self.embeds@.push(embed),
            r == (InteractionCallbackData { embeds: r.embeds, ..self }),
    {
        let mut s = self;
        s.embeds.push(embed);
        s
    }

    /// Append a component, given as its JSON value.
    pub fn component(self, component: JsonValue) -> (r: Self)
        ensures
            r.components@ == self.components@.push(component),
            r == (InteractionCallbackData { components: r.components, ..self }),
    {
        let mut s = self;
        s.components.push(component);
        s
    }
}

impl Default for InteractionCallbackData {
    fn default() -> (r: Self)
        ensures
            r.is_blank(),
    {
        InteractionCallbackData {
            content: None,
            flags: None,
            embeds: Vec::new(),
            components: Vec::new(),
            tts: None,
            allowed_mentions: None,
            attachments: Vec::new(),
            poll: None,
            choices: Vec::new(),
            custom_id: None,
            title: None,
        }
    }
}

/// Body sent to `POST /interactions/{id}/{token}/callback`.
#[derive(Debug, Clone)]
pub struct InteractionResponse {
    /// How to respond.
    pub kind: InteractionResponseType,
    /// Optional data payload.
    pub data: Option<InteractionCallbackData>,
}

impl InteractionResponse {
    /// Reply with a visible message.
    pub fn message(content: String) -> (r: Self)
        ensures
            r.kind == InteractionResponseType::ChannelMessageWithSource,
            r.data matches Some(d) && d.content == Some(content)
                && (InteractionCallbackData { content: None, ..d }).is_blank(),
    {
        Self {
            kind: InteractionResponseType::ChannelMessageWithSource,
            data: Some(InteractionCallbackData::message(content)),
        }
    }

    /// Reply with an ephemeral message visible only to the invoking user.
    pub fn ephemeral(content: String) -> (r: Self)
        ensures
            r.kind == InteractionResponseType::ChannelMessageWithSource,
            r.data matches Some(d) && d.content == Some(content) && d.flags == Some(EPHEMERAL)
                && (InteractionCallbackData { content: None, flags: None, ..d }).is_blank(),
    {
        Self {
            kind: InteractionResponseType::ChannelMessageWithSource,
            data: Some(InteractionCallbackData::ephemeral(content)),
        }
    }

    /// Acknowledge with a loading state; edit the response later.
    pub fn defer() -> (r: Self)
        ensures
            r == (InteractionResponse {
                kind: InteractionResponseType::DeferredChannelMessageWithSource,
                data: None,
            }),
    {
        Self { kind: InteractionResponseType::DeferredChannelMessageWithSource, data: None }
    }

    /// For component interactions: acknowledge without editing the message.
    pub fn ack_component() -> (r: Self)
        ensures
            r == (InteractionResponse { kind: InteractionResponseType::DeferredUpdateMessage, data: None }),
    {
        Self { kind: InteractionResponseType::DeferredUpdateMessage, data: None }
    }

    /// For component interactions: edit the message the component was on.
    pub fn update_message(content: String) -> (r: Self)
        ensures
            r.kind == InteractionResponseType::UpdateMessage,
            r.data matches Some(d) && d.content == Some(content)
                && (InteractionCallbackData { content: None, ..d }).is_blank(),
    {
        Self {
            kind: InteractionResponseType::UpdateMessage,
            data: Some(InteractionCallbackData::message(content)),
        }
    }

    /// Respond with autocomplete choices.
    pub fn autocomplete(choices: Vec<AutocompleteChoice>) -> (r: Self)
        ensures
            r.kind == InteractionResponseType::ApplicationCommandAutocompleteResult,
            r.data matches Some(d) && d.choices == choices && d.content is None && d.flags is None
                && d.embeds@.len() == 0 && d.components@.len() == 0 && d.tts is None
                && d.allowed_mentions is None && d.attachments@.len() == 0 && d.poll is None
                && d.custom_id is None && d.title is None,
    {
        let mut data = InteractionCallbackData::default();
        data.choices = choices;
        Self { kind: InteractionResponseType::ApplicationCommandAutocompleteResult, data: Some(data) }
    }

    /// Respond with a modal dialog.
    ///
    /// `components` should be action rows containing text inputs, given as
    /// their JSON values.
    pub fn modal(custom_id: String, title: String, components: Vec<JsonValue>) -> (r: Self)
        ensures
            r.kind == InteractionResponseType::Modal,
            r.data matches Some(d) && d.custom_id == Some(custom_id) && d.title == Some(title)
                && d.components == components && d.content is None && d.flags is None
                && d.embeds@.len() == 0 && d.tts is None && d.allowed_mentions is None
                && d.attachments@.len() == 0 && d.poll is None && d.choices@.len() == 0,
    {
        let mut data = InteractionCallbackData::default();
        data.custom_id = Some(custom_id);
        data.title = Some(title);
        data.components = components;
        Self { kind: InteractionResponseType::Modal, data: Some(data) }
    }

    /// Append an embed to the response, creating empty data first if there
    /// is none.
    pub fn embed(self, embed: Embed) -> (r: Self)
        ensures
            r.kind == self.kind,
            r.data matches Some(d) && match self.data {
                Some(old_d) => d.embeds@ == old_d.embeds@.push(embed)
                    && d == (InteractionCallbackData { embeds: d.embeds, ..old_d }),
                None => d.embeds@ == seq![embed] && d.components@.len() == 0 && d.blank_but_lists(),
            },
    {
        let mut data = match self.data {
            Some(d) => d,
            None => InteractionCallbackData::default(),
        };
        data.embeds.push(embed);
        Self { kind: self.kind, data: Some(data) }
    }

    /// Append a component (given as its JSON value) to the response,
    /// creating empty data first if there is none.
    pub fn component(self, component: JsonValue) -> (r: Self)
        ensures
            r.kind == self.kind,
            r.data matches Some(d) && match self.data {
                Some(old_d) => d.components@ == old_d.components@.push(component)
                    && d == (InteractionCallbackData { components: d.components, ..old_d }),
                None => d.components@ == seq![component] && d.embeds@.len() == 0 && d.blank_but_lists(),
            },
    {
        let mut data = match self.data {
            Some(d) => d,
            None => InteractionCallbackData::default(),
        };
        data.components.push(component);
        Self { kind: self.kind, data: Some(data) }
    }
}

/// A single choice shown in an autocomplete dropdown.
#[derive(Debug, Clone)]
pub struct AutocompleteChoice {
    /// The display name shown to the user (max 100 chars).
    pub name: String,
    /// The value submitted when the user selects this choice.
    pub value: JsonValue,
}

/// The JSON number for a signed integer.
pub open spec fn json_integer(value: i64) -> JsonValue {
    if value >= 0 {
        JsonValue::UInt(value as u64)
    } else {
        JsonValue::Int(value)
    }
}

/// The JSON number for a signed integer.
pub fn json_integer_value(value: i64) -> (r: JsonValue)
    ensures
        r == json_integer(value),
{
    if value >= 0 {
        JsonValue::UInt(value as u64)
    } else {
        JsonValue::Int(value)
    }
}

impl AutocompleteChoice {
    /// A choice with a string value.
    pub fn string(name: String, value: String) -> (r: Self)
        ensures
            r == (AutocompleteChoice { name, value: JsonValue::Str(value) }),
    {
        Self { name, value: JsonValue::Str(value) }
    }

    /// A choice with an integer value.
    pub fn integer(name: String, value: i64) -> (r: Self)
        ensures
            r == (AutocompleteChoice { name, value: json_integer(value) }),
    {
        Self { name, value: json_integer_value(value) }
    }
}

/// The invoker of an interaction is never lost: a DM interaction names it in
/// `user`; a guild interaction, which has no `user`, names it in
/// `member.user`. The author is absent only when neither is present.
pub proof fn lemma_author_falls_back_to_member(i: Interaction)
    ensures
        i.user matches Some(u) ==> i.author_spec() == Some(u),
        i.user is None ==> (i.member matches Some(m) ==> i.author_spec() == m.user),
        i.author_spec() is None <==> (i.user is None && (i.member is None || i.member.unwrap().user is None)),
        i.author_spec() matches Some(a) ==> (i.user == Some(a) || (i.member is Some && i.member.unwrap().user == Some(a))),
{
}

} // verus!
