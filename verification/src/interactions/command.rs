//! Slash command definition types and builder.
//!
//! Use [`SlashCommandBuilder`] to construct an [`ApplicationCommand`] that
//! can be registered with Discord via the HTTP client.  Numbers that Discord
//! takes as JSON numbers of any kind (choice values, option bounds) are held
//! as [`JsonValue`]s.

use std::collections::HashMap;
use vstd::prelude::*;
use crate::json::{JsonValue, json_same};
use crate::models::interaction::{ApplicationCommandType, CommandOptionType};
use crate::snowflake::Snowflake;

verus! {

/// A predefined choice for a string, integer or number option.
#[derive(Debug, Clone)]
pub struct CommandChoice {
    pub name: String,
    pub value: JsonValue,
    pub name_localizations: HashMap<String, String>,
}

impl CommandChoice {
    /// A choice whose value is a string.
    pub fn string(name: String, value: String) -> (r: Self)
        ensures
            r.name == name,
            r.value == JsonValue::Str(value),
            r.name_localizations@.len() == 0,
    {
        CommandChoice { name, value: JsonValue::Str(value), name_localizations: HashMap::new() }
    }

    /// A choice whose value is an integer.
    pub fn integer(name: String, value: i64) -> (r: Self)
        ensures
            r.name == name,
            r.value.model() == crate::json::int_json(value),
            r.name_localizations@.len() == 0,
    {
        CommandChoice { name, value: crate::json::int_value(value), name_localizations: HashMap::new() }
    }

    /// Set the choice's name in other locales.
    pub fn name_localizations(self, map: HashMap<String, String>) -> (r: Self)
        ensures
            r == (CommandChoice { name_localizations: map, ..self }),
    {
        CommandChoice { name_localizations: map, ..self }
    }
}

/// An option (parameter) of a slash command.
#[derive(Debug)]
pub struct CommandOption {
    pub kind: CommandOptionType,
    pub name: String,
    pub description: String,
    pub name_localizations: HashMap<String, String>,
    pub description_localizations: HashMap<String, String>,
    pub required: bool,
    pub choices: Vec<CommandChoice>,
    pub options: Vec<CommandOption>,
    /// The least value of a number option, as a JSON number.
    pub min_value: Option<JsonValue>,
    /// The greatest value of a number option, as a JSON number.
    pub max_value: Option<JsonValue>,
    pub min_length: Option<u32>,
    pub max_length: Option<u32>,
    pub autocomplete: bool,
}

/// Whether two optional JSON values hold the same data.
pub open spec fn opt_json_same(a: Option<JsonValue>, b: Option<JsonValue>) -> bool {
    match (a, b) {
        (Some(x), Some(y)) => json_same(x, y),
        (None, None) => true,
        _ => false,
    }
}

/// Whether option `a` holds the same definition as option `b`: every
/// field the same, each choice what `Clone::clone` gives on the other's,
/// the same bounds, and nested options that are pairwise the same.
pub open spec fn command_option_same(a: CommandOption, b: CommandOption) -> bool
    decreases a,
{
    &&& a.kind == b.kind
    &&& a.name == b.name
    &&& a.description == b.description
    &&& a.name_localizations@ == b.name_localizations@
    &&& a.description_localizations@ == b.description_localizations@
    &&& a.required == b.required
    &&& a.choices@.len() == b.choices@.len()
    &&& forall|k: int| 0 <= k < a.choices@.len() ==> cloned(b.choices@[k], #[trigger] a.choices@[k])
    &&& opt_json_same(a.min_value, b.min_value)
    &&& opt_json_same(a.max_value, b.max_value)
    &&& a.min_length == b.min_length
    &&& a.max_length == b.max_length
    &&& a.autocomplete == b.autocomplete
    &&& a.options@.len() == b.options@.len()
    &&& forall|k: int| 0 <= k < a.options@.len() ==> command_option_same(#[trigger] a.options@[k], b.options@[k])
}

impl CommandOption {
    /// A copy of the option and of all its nested options.
    pub fn deep_copy(&self) -> (r: CommandOption)
        ensures
            command_option_same(r, *self),
        decreases self,
    {
        let mut options: Vec<CommandOption> = Vec::new();
        let n = self.options.len();
        let mut i: usize = 0;
        while i < n
            invariant
                n == self.options@.len(),
                i <= n,
                options@.len() == i,
                forall|k: int| 0 <= k < i ==> command_option_same(#[trigger] options@[k], self.options@[k]),
            decreases n - i,
        {
            assert(decreases_to!(*self => self.options));
            assert(decreases_to!(self.options => self.options@));
            assert(decreases_to!(self.options@ => self.options@[i as int]));
            let o = self.options[i].deep_copy();
            options.push(o);
            i = i + 1;
        }
        let min_value = match &self.min_value {
            Some(v) => Some(v.deep_clone()),
            None => None,
        };
        let max_value = match &self.max_value {
            Some(v) => Some(v.deep_clone()),
            None => None,
        };
        CommandOption {
            kind: self.kind,
            name: self.name.clone(),
            description: self.description.clone(),
            name_localizations: self.name_localizations.clone(),
            description_localizations: self.description_localizations.clone(),
            required: self.required,
            choices: self.choices.clone(),
            options,
            min_value,
            max_value,
            min_length: self.min_length,
            max_length: self.max_length,
            autocomplete: self.autocomplete,
        }
    }
}

impl Clone for CommandOption {
    fn clone(&self) -> (r: Self)
        ensures
            command_option_same(r, *self),
    {
        self.deep_copy()
    }
}

/// Builder for a [`CommandOption`].
pub struct CommandOptionBuilder {
    kind: CommandOptionType,
    name: String,
    description: String,
    name_localizations: HashMap<String, String>,
    description_localizations: HashMap<String, String>,
    required: bool,
    choices: Vec<CommandChoice>,
    options: Vec<CommandOption>,
    min_value: Option<JsonValue>,
    max_value: Option<JsonValue>,
    min_length: Option<u32>,
    max_length: Option<u32>,
    autocomplete: bool,
}

impl CommandOptionBuilder {
    /// The option the builder describes so far.
    pub closed spec fn option_spec(self) -> CommandOption {
        CommandOption {
            kind: self.kind,
            name: self.name,
            description: self.description,
            name_localizations: self.name_localizations,
            description_localizations: self.description_localizations,
            required: self.required,
            choices: self.choices,
            options: self.options,
            min_value: self.min_value,
            max_value: self.max_value,
            min_length: self.min_length,
            max_length: self.max_length,
            autocomplete: self.autocomplete,
        }
    }

    /// Start an option of type `kind`: optional, with no choices, nested
    /// options, bounds or localizations.
    pub fn new(kind: CommandOptionType, name: String, description: String) -> (r: Self)
        ensures
            r.option_spec().kind == kind,
            r.option_spec().name == name,
            r.option_spec().description == description,
            r.option_spec().name_localizations@.len() == 0,
            r.option_spec().description_localizations@.len() == 0,
            !r.option_spec().required,
            r.option_spec().choices@.len() == 0,
            r.option_spec().options@.len() == 0,
            r.option_spec().min_value is None,
            r.option_spec().max_value is None,
            r.option_spec().min_length is None,
            r.option_spec().max_length is None,
            !r.option_spec().autocomplete,
    {
        CommandOptionBuilder {
            kind,
            name,
            description,
            name_localizations: HashMap::new(),
            description_localizations: HashMap::new(),
            required: false,
            choices: Vec::new(),
            options: Vec::new(),
            min_value: None,
            max_value: None,
            min_length: None,
            max_length: None,
            autocomplete: false,
        }
    }

    /// Make the option required.
    pub fn required(self) -> (r: Self)
        ensures
            r.option_spec() == (CommandOption { required: true, ..self.option_spec() }),
    {
        CommandOptionBuilder { required: true, ..self }
    }

    /// Add a predefined choice at the end.
    pub fn choice(self, c: CommandChoice) -> (r: Self)
        ensures
            r.option_spec().choices@ == self.option_spec().choices@.push(c),
            r.option_spec() == (CommandOption { choices: r.option_spec().choices, ..self.option_spec() }),
    {
        let mut b = self;
        b.choices.push(c);
        b
    }

    /// Add a nested option (for sub-commands and groups) at the end.
    pub fn option(self, o: CommandOption) -> (r: Self)
        ensures
            r.option_spec().options@ == self.option_spec().options@.push(o),
            r.option_spec() == (CommandOption { options: r.option_spec().options, ..self.option_spec() }),
    {
        let mut b = self;
        b.options.push(o);
        b
    }

    /// Set the least value of a number option (a JSON number).
    pub fn min_value(self, v: JsonValue) -> (r: Self)
        ensures
            r.option_spec() == (CommandOption { min_value: Some(v), ..self.option_spec() }),
    {
        CommandOptionBuilder { min_value: Some(v), ..self }
    }

    /// Set the greatest value of a number option (a JSON number).
    pub fn max_value(self, v: JsonValue) -> (r: Self)
        ensures
            r.option_spec() == (CommandOption { max_value: Some(v), ..self.option_spec() }),
    {
        CommandOptionBuilder { max_value: Some(v), ..self }
    }

    /// Set the least length of a string option.
    pub fn min_length(self, n: u32) -> (r: Self)
        ensures
            r.option_spec() == (CommandOption { min_length: Some(n), ..self.option_spec() }),
    {
        CommandOptionBuilder { min_length: Some(n), ..self }
    }

    /// Set the greatest length of a string option.
    pub fn max_length(self, n: u32) -> (r: Self)
        ensures
            r.option_spec() == (CommandOption { max_length: Some(n), ..self.option_spec() }),
    {
        CommandOptionBuilder { max_length: Some(n), ..self }
    }

    /// Offer autocomplete for the option.
    pub fn autocomplete(self) -> (r: Self)
        ensures
            r.option_spec() == (CommandOption { autocomplete: true, ..self.option_spec() }),
    {
        CommandOptionBuilder { autocomplete: true, ..self }
    }

    /// Set the option's name in other locales.
    pub fn name_localizations(self, map: HashMap<String, String>) -> (r: Self)
        ensures
            r.option_spec() == (CommandOption { name_localizations: map, ..self.option_spec() }),
    {
        CommandOptionBuilder { name_localizations: map, ..self }
    }

    /// Set the option's description in other locales.
    pub fn description_localizations(self, map: HashMap<String, String>) -> (r: Self)
        ensures
            r.option_spec() == (CommandOption { description_localizations: map, ..self.option_spec() }),
    {
        CommandOptionBuilder { description_localizations: map, ..self }
    }

    /// The option described.
    pub fn build(self) -> (r: CommandOption)
        ensures
            r == self.option_spec(),
    {
        CommandOption {
            kind: self.kind,
            name: self.name,
            description: self.description,
            name_localizations: self.name_localizations,
            description_localizations: self.description_localizations,
            required: self.required,
            choices: self.choices,
            options: self.options,
            min_value: self.min_value,
            max_value: self.max_value,
            min_length: self.min_length,
            max_length: self.max_length,
            autocomplete: self.autocomplete,
        }
    }
}

/// An application command as Discord registers it.
#[derive(Debug, Clone)]
pub struct ApplicationCommand {
    pub name: String,
    pub name_localizations: HashMap<String, String>,
    pub description: String,
    pub description_localizations: HashMap<String, String>,
    pub kind: ApplicationCommandType,
    pub options: Vec<CommandOption>,
    pub default_member_permissions: Option<String>,
    pub dm_permission: Option<bool>,
    pub nsfw: Option<bool>,
    pub integration_types: Vec<u8>,
    pub contexts: Vec<u8>,
    pub id: Option<Snowflake>,
    pub application_id: Option<Snowflake>,
    pub guild_id: Option<Snowflake>,
    pub version: Option<Snowflake>,
}

/// Builder for a slash (chat input) [`ApplicationCommand`].
pub struct SlashCommandBuilder {
    name: String,
    name_localizations: HashMap<String, String>,
    description: String,
    description_localizations: HashMap<String, String>,
    options: Vec<CommandOption>,
    default_member_permissions: Option<String>,
    dm_permission: Option<bool>,
    nsfw: Option<bool>,
    integration_types: Vec<u8>,
    contexts: Vec<u8>,
}

impl SlashCommandBuilder {
    /// The command the builder describes so far.
    pub closed spec fn command_spec(self) -> ApplicationCommand {
        ApplicationCommand {
            name: self.name,
            name_localizations: self.name_localizations,
            description: self.description,
            description_localizations: self.description_localizations,
            kind: ApplicationCommandType::ChatInput,
            options: self.options,
            default_member_permissions: self.default_member_permissions,
            dm_permission: self.dm_permission,
            nsfw: self.nsfw,
            integration_types: self.integration_types,
            contexts: self.contexts,
            id: None,
            application_id: None,
            guild_id: None,
            version: None,
        }
    }

    /// Start a slash command with no options or restrictions.
    pub fn new(name: String, description: String) -> (r: Self)
        ensures
            r.command_spec().name == name,
            r.command_spec().description == description,
            r.command_spec().name_localizations@.len() == 0,
            r.command_spec().description_localizations@.len() == 0,
            r.command_spec().options@.len() == 0,
            r.command_spec().default_member_permissions is None,
            r.command_spec().dm_permission is None,
            r.command_spec().nsfw is None,
            r.command_spec().integration_types@.len() == 0,
            r.command_spec().contexts@.len() == 0,
    {
        SlashCommandBuilder {
            name,
            name_localizations: HashMap::new(),
            description,
            description_localizations: HashMap::new(),
            options: Vec::new(),
            default_member_permissions: None,
            dm_permission: None,
            nsfw: None,
            integration_types: Vec::new(),
            contexts: Vec::new(),
        }
    }

    /// Add an option at the end.
    pub fn option(self, option: CommandOption) -> (r: Self)
        ensures
            r.command_spec().options@ == self.command_spec().options@.push(option),
            r.command_spec() == (ApplicationCommand { options: r.command_spec().options, ..self.command_spec() }),
    {
        let mut b = self;
        b.options.push(option);
        b
    }

    /// Set the permissions a member needs by default (a permission bit set
    /// as decimal text).
    pub fn default_member_permissions(self, perms: String) -> (r: Self)
        ensures
            r.command_spec() == (ApplicationCommand { default_member_permissions: Some(perms), ..self.command_spec() }),
    {
        SlashCommandBuilder { default_member_permissions: Some(perms), ..self }
    }

    /// Allow or forbid the command in DMs.
    pub fn dm_permission(self, allowed: bool) -> (r: Self)
        ensures
            r.command_spec() == (ApplicationCommand { dm_permission: Some(allowed), ..self.command_spec() }),
    {
        SlashCommandBuilder { dm_permission: Some(allowed), ..self }
    }

    /// Set the command's name in other locales.
    pub fn name_localizations(self, map: HashMap<String, String>) -> (r: Self)
        ensures
            r.command_spec() == (ApplicationCommand { name_localizations: map, ..self.command_spec() }),
    {
        SlashCommandBuilder { name_localizations: map, ..self }
    }

    /// Set the command's description in other locales.
    pub fn description_localizations(self, map: HashMap<String, String>) -> (r: Self)
        ensures
            r.command_spec() == (ApplicationCommand { description_localizations: map, ..self.command_spec() }),
    {
        SlashCommandBuilder { description_localizations: map, ..self }
    }

    /// Mark the command age-restricted or not.
    pub fn nsfw(self, nsfw: bool) -> (r: Self)
        ensures
            r.command_spec() == (ApplicationCommand { nsfw: Some(nsfw), ..self.command_spec() }),
    {
        SlashCommandBuilder { nsfw: Some(nsfw), ..self }
    }

    /// Set where the command can be installed (`0` guild, `1` user).
    pub fn integration_types(self, types: Vec<u8>) -> (r: Self)
        ensures
            r.command_spec() == (ApplicationCommand { integration_types: types, ..self.command_spec() }),
    {
        SlashCommandBuilder { integration_types: types, ..self }
    }

    /// Set where the command can be used (`0` guild, `1` bot DM, `2`
    /// private channel).
    pub fn contexts(self, ctx: Vec<u8>) -> (r: Self)
        ensures
            r.command_spec() == (ApplicationCommand { contexts: ctx, ..self.command_spec() }),
    {
        SlashCommandBuilder { contexts: ctx, ..self }
    }

    /// The command described, a chat-input command not yet registered
    /// (no ID, application, guild or version).
    pub fn build(self) -> (r: ApplicationCommand)
        ensures
            r == self.command_spec(),
    {
        ApplicationCommand {
            name: self.name,
            name_localizations: self.name_localizations,
            description: self.description,
            description_localizations: self.description_localizations,
            kind: ApplicationCommandType::ChatInput,
            options: self.options,
            default_member_permissions: self.default_member_permissions,
            dm_permission: self.dm_permission,
            nsfw: self.nsfw,
            integration_types: self.integration_types,
            contexts: self.contexts,
            id: None,
            application_id: None,
            guild_id: None,
            version: None,
        }
    }
}

} // verus!
