//! Discord permission flags (v2).
//!
//! Permissions are a `u64` bitfield. Discord sends them as JSON strings.

use vstd::prelude::*;
use crate::text::{decimal, parse_u64, parse_u64_spec, push_decimal};

verus! {

/// Discord permission flags (v2), a `u64` bitfield.
///
/// Discord sends permissions in JSON as decimal strings.
///
/// Each flag constant is the flag's raw bit; combine them with `|` and
/// build the set with [`Permissions::from_bits_truncate`], or combine sets
/// with `|`.
#[derive(Debug, Clone, Copy, PartialEq, Eq, Hash, Structural)]
pub struct Permissions(u64);

/// The bits of every defined flag of [`Permissions`].
pub const PERMISSIONS_KNOWN_BITS: u64 = 0x67fffffffffff;

impl View for Permissions {
    type V = u64;

    /// The raw bits.
    closed spec fn view(&self) -> u64 {
        self.0
    }
}

impl Permissions {
    pub const CREATE_INSTANT_INVITE: u64 = 0x1;

    pub const KICK_MEMBERS: u64 = 0x2;

    pub const BAN_MEMBERS: u64 = 0x4;

    pub const ADMINISTRATOR: u64 = 0x8;

    pub const MANAGE_CHANNELS: u64 = 0x10;

    pub const MANAGE_GUILD: u64 = 0x20;

    pub const ADD_REACTIONS: u64 = 0x40;

    pub const VIEW_AUDIT_LOG: u64 = 0x80;

    pub const PRIORITY_SPEAKER: u64 = 0x100;

    pub const STREAM: u64 = 0x200;

    pub const VIEW_CHANNEL: u64 = 0x400;

    pub const SEND_MESSAGES: u64 = 0x800;

    pub const SEND_TTS_MESSAGES: u64 = 0x1000;

    pub const MANAGE_MESSAGES: u64 = 0x2000;

    pub const EMBED_LINKS: u64 = 0x4000;

    pub const ATTACH_FILES: u64 = 0x8000;

    pub const READ_MESSAGE_HISTORY: u64 = 0x10000;

    pub const MENTION_EVERYONE: u64 = 0x20000;

    pub const USE_EXTERNAL_EMOJIS: u64 = 0x40000;

    pub const VIEW_GUILD_INSIGHTS: u64 = 0x80000;

    pub const CONNECT: u64 = 0x100000;

    pub const SPEAK: u64 = 0x200000;

    pub const MUTE_MEMBERS: u64 = 0x400000;

    pub const DEAFEN_MEMBERS: u64 = 0x800000;

    pub const MOVE_MEMBERS: u64 = 0x1000000;

    pub const USE_VAD: u64 = 0x2000000;

    pub const CHANGE_NICKNAME: u64 = 0x4000000;

    pub const MANAGE_NICKNAMES: u64 = 0x8000000;

    pub const MANAGE_ROLES: u64 = 0x10000000;

    pub const MANAGE_WEBHOOKS: u64 = 0x20000000;

    pub const MANAGE_GUILD_EXPRESSIONS: u64 = 0x40000000;

    pub const USE_APPLICATION_COMMANDS: u64 = 0x80000000;

    pub const REQUEST_TO_SPEAK: u64 = 0x100000000;

    pub const MANAGE_EVENTS: u64 = 0x200000000;

    pub const MANAGE_THREADS: u64 = 0x400000000;

    pub const CREATE_PUBLIC_THREADS: u64 = 0x800000000;

    pub const CREATE_PRIVATE_THREADS: u64 = 0x1000000000;

    pub const USE_EXTERNAL_STICKERS: u64 = 0x2000000000;

    pub const SEND_MESSAGES_IN_THREADS: u64 = 0x4000000000;

    pub const USE_EMBEDDED_ACTIVITIES: u64 = 0x8000000000;

    pub const MODERATE_MEMBERS: u64 = 0x10000000000;

    pub const VIEW_CREATOR_MONETIZATION_ANALYTICS: u64 = 0x20000000000;

    pub const USE_SOUNDBOARD: u64 = 0x40000000000;

    pub const CREATE_GUILD_EXPRESSIONS: u64 = 0x80000000000;

    pub const CREATE_EVENTS: u64 = 0x100000000000;

    pub const USE_EXTERNAL_SOUNDS: u64 = 0x200000000000;

    pub const SEND_VOICE_MESSAGES: u64 = 0x400000000000;

    pub const SEND_POLLS: u64 = 0x2000000000000;

    pub const USE_EXTERNAL_APPS: u64 = 0x4000000000000;
    /// The set with no flag.
    pub fn empty() -> (r: Self)
        ensures
            r@ == 0,
    {
        Permissions(0)
    }

    /// The set of every defined flag.
    pub fn all() -> (r: Self)
        ensures
            r@ == PERMISSIONS_KNOWN_BITS,
    {
        Permissions(PERMISSIONS_KNOWN_BITS)
    }

    /// The raw bits.
    pub fn bits(&self) -> (r: u64)
        ensures
            r == self@,
    {
        self.0
    }

    /// The set with exactly these bits, if every bit names a defined flag.
    pub fn from_bits(bits: u64) -> (r: Option<Self>)
        ensures
            match r {
                Some(f) => bits & !PERMISSIONS_KNOWN_BITS == 0 && f@ == bits,
                None => bits & !PERMISSIONS_KNOWN_BITS != 0,
            },
    {
        if bits & !PERMISSIONS_KNOWN_BITS == 0 {
            Some(Permissions(bits))
        } else {
            None
        }
    }

    /// The set of the defined flags among `bits`; other bits are dropped.
    pub fn from_bits_truncate(bits: u64) -> (r: Self)
        ensures
            r@ == bits & PERMISSIONS_KNOWN_BITS,
    {
        Permissions(bits & PERMISSIONS_KNOWN_BITS)
    }

    /// The set with exactly these bits, defined flags or not.
    pub fn from_bits_retain(bits: u64) -> (r: Self)
        ensures
            r@ == bits,
    {
        Permissions(bits)
    }

    /// Whether no bit is set.
    pub fn is_empty(&self) -> (r: bool)
        ensures
            r == (self@ == 0),
    {
        self.0 == 0
    }

    /// Whether every defined flag is set.
    pub fn is_all(&self) -> (r: bool)
        ensures
            r == (self@ & PERMISSIONS_KNOWN_BITS == PERMISSIONS_KNOWN_BITS),
    {
        self.0 & PERMISSIONS_KNOWN_BITS == PERMISSIONS_KNOWN_BITS
    }

    /// Whether every flag of `other` is set in `self`.
    pub fn contains(&self, other: Self) -> (r: bool)
        ensures
            r == (self@ & other@ == other@),
    {
        self.0 & other.0 == other.0
    }

    /// Whether `self` and `other` share a flag.
    pub fn intersects(&self, other: Self) -> (r: bool)
        ensures
            r == (self@ & other@ != 0),
    {
        self.0 & other.0 != 0
    }

    /// Set the flags of `other`.
    pub fn insert(&mut self, other: Self)
        ensures
            final(self)@ == old(self)@ | other@,
    {
        self.0 = self.0 | other.0;
    }

    /// Clear the flags of `other`.
    pub fn remove(&mut self, other: Self)
        ensures
            final(self)@ == old(self)@ & !other@,
    {
        self.0 = self.0 & !other.0;
    }

    /// Flip the flags of `other`.
    pub fn toggle(&mut self, other: Self)
        ensures
            final(self)@ == old(self)@ ^ other@,
    {
        self.0 = self.0 ^ other.0;
    }

    /// Set or clear the flags of `other`.
    pub fn set(&mut self, other: Self, value: bool)
        ensures
            final(self)@ == if value {
                old(self)@ | other@
            } else {
                old(self)@ & !other@
            },
    {
        if value {
            self.insert(other);
        } else {
            self.remove(other);
        }
    }

    /// The flags set in `self` or in `other`.
    pub fn union(self, other: Self) -> (r: Self)
        ensures
            r@ == self@ | other@,
    {
        Permissions(self.0 | other.0)
    }

    /// The flags set in both `self` and `other`.
    pub fn intersection(self, other: Self) -> (r: Self)
        ensures
            r@ == self@ & other@,
    {
        Permissions(self.0 & other.0)
    }

    /// The flags set in `self` but not in `other`.
    pub fn difference(self, other: Self) -> (r: Self)
        ensures
            r@ == self@ & !other@,
    {
        Permissions(self.0 & !other.0)
    }

    /// The flags set in exactly one of `self` and `other`.
    pub fn symmetric_difference(self, other: Self) -> (r: Self)
        ensures
            r@ == self@ ^ other@,
    {
        Permissions(self.0 ^ other.0)
    }

    /// The defined flags not set in `self`.
    pub fn complement(self) -> (r: Self)
        ensures
            r@ == !self@ & PERMISSIONS_KNOWN_BITS,
    {
        Permissions(!self.0 & PERMISSIONS_KNOWN_BITS)
    }

    /// Parse a permissions string (as Discord sends them in JSON) into a
    /// `Permissions` bitfield: text that is not a `u64` gives no flag, and
    /// bits of undefined flags are dropped.
    pub fn from_string(s: &str) -> (r: Self)
        ensures
            r@ == match parse_u64_spec(s@) {
                Some(bits) => bits,
                None => 0u64,
            } & PERMISSIONS_KNOWN_BITS,
    {
        let bits = match parse_u64(s) {
            Some(b) => b,
            None => 0,
        };
        Self::from_bits_truncate(bits)
    }

    /// Serialize this permissions bitfield into the string format Discord
    /// expects: the decimal rendering of the bits.
    pub fn to_string_value(&self) -> (r: String)
        ensures
            r@ == decimal(self@ as nat),
    {
        let mut s = String::new();
        push_decimal(&mut s, self.0);
        assert(s@ =~= decimal(self.0 as nat));
        s
    }
}

impl core::ops::BitOr for Permissions {
    type Output = Permissions;

    /// The union of two flag sets.
    fn bitor(self, rhs: Permissions) -> (r: Permissions)
        ensures
            r@ == self@ | rhs@,
    {
        Permissions(self.0 | rhs.0)
    }
}

impl vstd::std_specs::ops::BitOrSpecImpl for Permissions {
    open spec fn obeys_bitor_spec() -> bool {
        true
    }

    open spec fn bitor_req(self, rhs: Permissions) -> bool {
        true
    }

    closed spec fn bitor_spec(self, rhs: Permissions) -> Permissions {
        Permissions(self.0 | rhs.0)
    }
}

impl core::ops::BitAnd for Permissions {
    type Output = Permissions;

    /// The intersection of two flag sets.
    fn bitand(self, rhs: Permissions) -> (r: Permissions)
        ensures
            r@ == self@ & rhs@,
    {
        Permissions(self.0 & rhs.0)
    }
}

impl vstd::std_specs::ops::BitAndSpecImpl for Permissions {
    open spec fn obeys_bitand_spec() -> bool {
        true
    }

    open spec fn bitand_req(self, rhs: Permissions) -> bool {
        true
    }

    closed spec fn bitand_spec(self, rhs: Permissions) -> Permissions {
        Permissions(self.0 & rhs.0)
    }
}

impl core::ops::BitXor for Permissions {
    type Output = Permissions;

    /// The symmetric difference of two flag sets.
    fn bitxor(self, rhs: Permissions) -> (r: Permissions)
        ensures
            r@ == self@ ^ rhs@,
    {
        Permissions(self.0 ^ rhs.0)
    }
}

impl vstd::std_specs::ops::BitXorSpecImpl for Permissions {
    open spec fn obeys_bitxor_spec() -> bool {
        true
    }

    open spec fn bitxor_req(self, rhs: Permissions) -> bool {
        true
    }

    closed spec fn bitxor_spec(self, rhs: Permissions) -> Permissions {
        Permissions(self.0 ^ rhs.0)
    }
}

/// Writing a permission set of defined flags as Discord's string and
/// parsing it back gives the same set.
pub proof fn lemma_permissions_string_roundtrip(p: Permissions)
    requires
        p@ & !PERMISSIONS_KNOWN_BITS == 0,
    ensures
        parse_u64_spec(decimal(p@ as nat)) == Some(p@),
        (match parse_u64_spec(decimal(p@ as nat)) {
            Some(bits) => bits,
            None => 0u64,
        }) & PERMISSIONS_KNOWN_BITS == p@,
{
    crate::text::lemma_parse_decimal(p@);
    let b = p@;
    assert(b & !0x6_7fff_ffff_ffffu64 == 0 ==> b & 0x6_7fff_ffff_ffffu64 == b) by (bit_vector);
}

/// A set built from flags contains each of them, and adding flags never
/// removes one.
pub proof fn lemma_permissions_union_contains(a: Permissions, b: Permissions)
    ensures
        (a@ | b@) & a@ == a@,
        (a@ | b@) & b@ == b@,
{
    let x = a@;
    let y = b@;
    assert((x | y) & x == x) by (bit_vector);
    assert((x | y) & y == y) by (bit_vector);
}

} // verus!
