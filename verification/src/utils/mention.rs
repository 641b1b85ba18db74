//! Discord mention string formatters.
//!
//! These produce the raw Discord markdown strings that Discord renders as
//! formatted mentions in message content.

use vstd::prelude::*;
use crate::text::{decimal, push_decimal};

verus! {

/// Mention a user: `<@user_id>`
pub fn user(id: u64) -> (r: String)
    ensures
        r@ == "<@"@ + decimal(id as nat) + ">"@,
{
    let mut s = "<@".to_owned();
    push_decimal(&mut s, id);
    s.append(">");
    s
}

/// Mention a role: `<@&role_id>`
pub fn role(id: u64) -> (r: String)
    ensures
        r@ == "<@&"@ + decimal(id as nat) + ">"@,
{
    let mut s = "<@&".to_owned();
    push_decimal(&mut s, id);
    s.append(">");
    s
}

/// Mention a channel: `<#channel_id>`
pub fn channel(id: u64) -> (r: String)
    ensures
        r@ == "<#"@ + decimal(id as nat) + ">"@,
{
    let mut s = "<#".to_owned();
    push_decimal(&mut s, id);
    s.append(">");
    s
}

/// Mention a top-level slash command: `</name:command_id>`
pub fn slash_command(name: &str, id: u64) -> (r: String)
    ensures
        r@ == "</"@ + name@ + ":"@ + decimal(id as nat) + ">"@,
{
    let mut s = "</".to_owned();
    s.append(name);
    s.append(":");
    push_decimal(&mut s, id);
    s.append(">");
    s
}

/// Mention a slash command subcommand: `</command subcommand:command_id>`
pub fn slash_subcommand(command: &str, subcommand: &str, id: u64) -> (r: String)
    ensures
        r@ == "</"@ + command@ + " "@ + subcommand@ + ":"@ + decimal(id as nat) + ">"@,
{
    let mut s = "</".to_owned();
    s.append(command);
    s.append(" ");
    s.append(subcommand);
    s.append(":");
    push_decimal(&mut s, id);
    s.append(">");
    s
}

/// Mention a slash command subcommand group:
/// `</command group subcommand:command_id>`
pub fn slash_subcommand_group(command: &str, group: &str, subcommand: &str, id: u64) -> (r: String)
    ensures
        r@ == "</"@ + command@ + " "@ + group@ + " "@ + subcommand@ + ":"@ + decimal(id as nat) + ">"@,
{
    let mut s = "</".to_owned();
    s.append(command);
    s.append(" ");
    s.append(group);
    s.append(" ");
    s.append(subcommand);
    s.append(":");
    push_decimal(&mut s, id);
    s.append(">");
    s
}

/// A static custom emoji: `<:name:emoji_id>`
pub fn custom_emoji(name: &str, id: u64) -> (r: String)
    ensures
        r@ == "<:"@ + name@ + ":"@ + decimal(id as nat) + ">"@,
{
    let mut s = "<:".to_owned();
    s.append(name);
    s.append(":");
    push_decimal(&mut s, id);
    s.append(">");
    s
}

/// An animated custom emoji: `<a:name:emoji_id>`
pub fn animated_emoji(name: &str, id: u64) -> (r: String)
    ensures
        r@ == "<a:"@ + name@ + ":"@ + decimal(id as nat) + ">"@,
{
    let mut s = "<a:".to_owned();
    s.append(name);
    s.append(":");
    push_decimal(&mut s, id);
    s.append(">");
    s
}

} // verus!
