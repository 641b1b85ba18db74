//! Discord snowflake identifiers.

use core::cmp::Ordering;
use vstd::prelude::*;
use vstd::std_specs::cmp::{PartialOrdIs, PartialOrdSpecImpl};
use crate::text::{decimal, parse_u64_spec, push_decimal};

verus! {

/// Discord epoch: 2015-01-01T00:00:00.000Z as milliseconds since the Unix epoch.
pub const DISCORD_EPOCH_MS: u64 = 1_420_070_400_000;

/// A Discord snowflake ID.
///
/// Snowflakes are 64-bit integers whose top 42 bits hold the creation time
/// in milliseconds since the Discord epoch; the low 22 bits hold the worker
/// ID, process ID and sequence number.  Discord transmits them as decimal
/// strings.
#[derive(Debug, Clone, Copy, PartialEq, Eq, Ord, Hash, Structural)]
pub struct Snowflake(u64);

impl View for Snowflake {
    type V = u64;

    closed spec fn view(&self) -> u64 {
        self.0
    }
}

/// Snowflakes are ordered by their raw values.
impl PartialOrd for Snowflake {
    fn partial_cmp(&self, other: &Self) -> (r: Option<Ordering>) {
        if self.0 < other.0 {
            Some(Ordering::Less)
        } else if self.0 == other.0 {
            Some(Ordering::Equal)
        } else {
            Some(Ordering::Greater)
        }
    }
}

impl PartialOrdSpecImpl for Snowflake {
    open spec fn obeys_partial_cmp_spec() -> bool {
        true
    }

    open spec fn partial_cmp_spec(&self, other: &Self) -> Option<Ordering> {
        if self@ < other@ {
            Some(Ordering::Less)
        } else if self@ == other@ {
            Some(Ordering::Equal)
        } else {
            Some(Ordering::Greater)
        }
    }
}

/// Snowflakes compare as their raw values do, and a larger raw value was
/// created no earlier: its creation time is at least as late.
pub proof fn lemma_snowflake_order(a: Snowflake, b: Snowflake)
    ensures
        a.is_lt(&b) == (a@ < b@),
        a.is_le(&b) == (a@ <= b@),
        a.is_gt(&b) == (a@ > b@),
        a.is_ge(&b) == (a@ >= b@),
        (a == b) == (a@ == b@),
        a@ <= b@ ==> creation_ms_spec(a@) <= creation_ms_spec(b@),
{
    let x = a@;
    let y = b@;
    assert(x <= y ==> (x >> 22u64) <= (y >> 22u64)) by (bit_vector);
}

/// A snowflake is its raw value: two snowflakes are equal exactly when
/// their raw values are.
pub proof fn lemma_snowflake_view_injective(a: Snowflake, b: Snowflake)
    ensures
        a@ == b@ <==> a == b,
{
}

/// The error `str::parse` reports for malformed integer text.
#[verifier::external_type_specification]
#[verifier::external_body]
pub struct ExParseIntError(std::num::ParseIntError);

/// A point in time on the system clock.
#[verifier::external_type_specification]
#[verifier::external_body]
pub struct ExSystemTime(std::time::SystemTime);

/// Milliseconds since the Unix epoch at which a snowflake with raw value
/// `id` was created.
pub open spec fn creation_ms_spec(id: u64) -> int {
    (id >> 22u64) + DISCORD_EPOCH_MS
}

/// The timestamp part of any snowflake is below 2^42.
pub proof fn lemma_timestamp_bits_bound(id: u64)
    ensures
        id >> 22u64 <= 0x3ff_ffff_ffffu64,
{
    assert(id >> 22u64 <= 0x3ff_ffff_ffffu64) by (bit_vector);
}

/// The system clock time of a number of milliseconds after the Unix epoch,
/// or `None` when the platform's `SystemTime` cannot represent it.
///
/// Calls `SystemTime::checked_add` on `UNIX_EPOCH`.  Whether the sum fits
/// depends on the platform's `SystemTime` range, so nothing is stated of the
/// result.
#[verifier::external_body]
fn system_time_after_epoch_ms(ms: u64) -> (r: Option<std::time::SystemTime>) {
    std::time::UNIX_EPOCH.checked_add(std::time::Duration::from_millis(ms))
}

/// Parses a `u64` with `str::parse`.
///
/// `str::parse::<u64>` accepts exactly an optional `+` followed by one or
/// more decimal digits whose value fits in 64 bits, and reports a
/// `ParseIntError` otherwise; the contract states that grammar.
#[verifier::external_body]
fn std_parse_u64(s: &str) -> (r: Result<u64, std::num::ParseIntError>)
    ensures
        r matches Ok(v) ==> parse_u64_spec(s@) == Some(v),
        r is Err ==> parse_u64_spec(s@) is None,
{
    s.parse::<u64>()
}

impl Snowflake {
    /// Create a snowflake from a raw `u64`.
    pub fn new(id: u64) -> (r: Self)
        ensures
            r@ == id,
    {
        Snowflake(id)
    }

    /// Return the raw inner `u64`.
    pub fn get(self) -> (r: u64)
        ensures
            r == self@,
    {
        self.0
    }

    /// Extract the creation time encoded in the snowflake.
    ///
    /// The millisecond count is `created_at_ms`; the result is `None` when
    /// the platform's clock type cannot hold it.
    pub fn created_at(self) -> (r: Option<std::time::SystemTime>) {
        let ms = self.created_at_ms();
        system_time_after_epoch_ms(ms)
    }

    /// Return the creation timestamp as milliseconds since the Unix epoch.
    pub fn created_at_ms(self) -> (r: u64)
        ensures
            r == creation_ms_spec(self@),
    {
        proof {
            lemma_timestamp_bits_bound(self.0);
        }
        (self.0 >> 22u64) + DISCORD_EPOCH_MS
    }

    /// Return `true` if this snowflake is the zero value.
    pub fn is_null(self) -> (r: bool)
        ensures
            r == (self@ == 0),
    {
        self.0 == 0
    }

    /// The decimal text of the snowflake, as Discord transmits it.
    pub fn to_string(&self) -> (r: String)
        ensures
            r@ == decimal(self@ as nat),
    {
        let mut s = String::new();
        push_decimal(&mut s, self.0);
        assert(s@ =~= decimal(self.0 as nat));
        s
    }

    /// Parse a snowflake from its decimal text.
    pub fn from_str(s: &str) -> (r: Result<Snowflake, std::num::ParseIntError>)
        ensures
            r matches Ok(v) ==> parse_u64_spec(s@) == Some(v@),
            r is Err ==> parse_u64_spec(s@) is None,
    {
        match std_parse_u64(s) {
            Ok(v) => Ok(Snowflake(v)),
            Err(e) => Err(e),
        }
    }
}

impl From<u64> for Snowflake {
    fn from(id: u64) -> (r: Self) {
        Snowflake(id)
    }
}

impl vstd::std_specs::convert::FromSpecImpl<u64> for Snowflake {
    open spec fn obeys_from_spec() -> bool {
        true
    }

    closed spec fn from_spec(v: u64) -> Snowflake {
        Snowflake(v)
    }
}

impl From<Snowflake> for u64 {
    fn from(s: Snowflake) -> (r: u64) {
        s.0
    }
}

impl vstd::std_specs::convert::FromSpecImpl<Snowflake> for u64 {
    open spec fn obeys_from_spec() -> bool {
        true
    }

    closed spec fn from_spec(v: Snowflake) -> u64 {
        v.0
    }
}

/// Rendering a snowflake as text and parsing it back gives the same
/// snowflake.
pub proof fn lemma_snowflake_text_roundtrip(id: Snowflake)
    ensures
        parse_u64_spec(decimal(id@ as nat)) == Some(id@),
{
    crate::text::lemma_parse_decimal(id@);
}

/// Converting a `u64` to a snowflake and back gives the same number, and
/// the other way round.
pub proof fn lemma_snowflake_u64_roundtrip(id: u64, s: Snowflake)
    ensures
        <u64 as vstd::std_specs::convert::FromSpec<Snowflake>>::from_spec(
            <Snowflake as vstd::std_specs::convert::FromSpec<u64>>::from_spec(id),
        ) == id,
        <Snowflake as vstd::std_specs::convert::FromSpec<u64>>::from_spec(
            <u64 as vstd::std_specs::convert::FromSpec<Snowflake>>::from_spec(s),
        ) == s,
{
}

} // verus!
