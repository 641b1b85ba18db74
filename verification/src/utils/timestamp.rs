//! Discord timestamp utilities.
//!
//! Covers two things:
//! 1. Extracting the UTC creation time from a Discord snowflake ID.
//! 2. Formatting Unix timestamps as Discord's markdown `<t:unix:style>` strings.

use vstd::prelude::*;
use crate::snowflake::lemma_timestamp_bits_bound;
use crate::text::{decimal, push_char, push_decimal};

verus! {

/// Discord's epoch offset in milliseconds (2015-01-01T00:00:00.000Z).
pub const DISCORD_EPOCH_MS: u64 = 1_420_070_400_000;

/// Extract the UTC creation time in **milliseconds** from a Discord snowflake ID.
///
/// All Discord snowflake IDs encode their creation time in the top 42 bits.
pub fn creation_ms(snowflake: u64) -> (r: u64)
    ensures
        r == (snowflake >> 22u64) + DISCORD_EPOCH_MS,
{
    proof {
        lemma_timestamp_bits_bound(snowflake);
    }
    (snowflake >> 22u64) + DISCORD_EPOCH_MS
}

/// Extract the UTC creation time in **seconds** from a Discord snowflake ID.
pub fn creation_secs(snowflake: u64) -> (r: u64)
    ensures
        r == ((snowflake >> 22u64) + DISCORD_EPOCH_MS) / 1000,
{
    creation_ms(snowflake) / 1000
}

/// Discord timestamp display styles.
#[derive(Debug, Clone, Copy, PartialEq, Eq, Structural)]
pub enum TimestampStyle {
    /// Short time, e.g. `16:20`
    ShortTime,
    /// Long time, e.g. `16:20:30`
    LongTime,
    /// Short date, e.g. `20/04/2021`
    ShortDate,
    /// Long date, e.g. `20 April 2021`
    LongDate,
    /// Short date/time, e.g. `20 April 2021 16:20`
    ShortDateTime,
    /// Long date/time, e.g. `Tuesday, 20 April 2021 16:20`
    LongDateTime,
    /// Relative, e.g. `2 months ago`
    Relative,
}

impl Default for TimestampStyle {
    fn default() -> (r: Self)
        ensures
            r == TimestampStyle::ShortDateTime,
    {
        TimestampStyle::ShortDateTime
    }
}

impl TimestampStyle {
    /// The style letter Discord reads in `<t:unix:style>`.
    pub open spec fn flag_spec(self) -> char {
        match self {
            TimestampStyle::ShortTime => 't',
            TimestampStyle::LongTime => 'T',
            TimestampStyle::ShortDate => 'd',
            TimestampStyle::LongDate => 'D',
            TimestampStyle::ShortDateTime => 'f',
            TimestampStyle::LongDateTime => 'F',
            TimestampStyle::Relative => 'R',
        }
    }

    fn flag(self) -> (r: char)
        ensures
            r == self.flag_spec(),
    {
        match self {
            TimestampStyle::ShortTime => 't',
            TimestampStyle::LongTime => 'T',
            TimestampStyle::ShortDate => 'd',
            TimestampStyle::LongDate => 'D',
            TimestampStyle::ShortDateTime => 'f',
            TimestampStyle::LongDateTime => 'F',
            TimestampStyle::Relative => 'R',
        }
    }
}

/// The markdown text `<t:unix_secs:style>`.
pub open spec fn markdown_timestamp(unix_secs: u64, style: TimestampStyle) -> Seq<char> {
    "<t:"@ + decimal(unix_secs as nat) + ":"@ + seq![style.flag_spec()] + ">"@
}

/// Format a Unix timestamp (seconds) as a Discord markdown timestamp string,
/// e.g. `<t:1618953600:R>`.
pub fn format(unix_secs: u64, style: TimestampStyle) -> (r: String)
    ensures
        r@ == markdown_timestamp(unix_secs, style),
{
    let mut s = "<t:".to_owned();
    push_decimal(&mut s, unix_secs);
    s.append(":");
    push_char(&mut s, style.flag());
    s.append(">");
    s
}

/// Format the creation timestamp of a Discord snowflake ID as a markdown
/// timestamp string.
pub fn snowflake_timestamp(snowflake: u64, style: TimestampStyle) -> (r: String)
    ensures
        r@ == markdown_timestamp((((snowflake >> 22u64) + DISCORD_EPOCH_MS) / 1000) as u64, style),
{
    format(creation_secs(snowflake), style)
}

} // verus!
