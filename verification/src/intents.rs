//! Gateway intents as a type-safe bitflag set.

use vstd::prelude::*;
use vstd::std_specs::convert::FromSpecImpl;

verus! {

/// Discord Gateway Intents control which events the gateway sends to your
/// bot.  Combine intents with the `|` operator.
///
/// Each flag constant is the flag's raw bit; combine them with `|` and
/// build the set with [`Intents::from_bits_truncate`], or combine sets
/// with `|`.
#[derive(Debug, Clone, Copy, PartialEq, Eq, Hash, Structural)]
pub struct Intents(u64);

/// The bits of every defined flag of [`Intents`].
pub const INTENTS_KNOWN_BITS: u64 = 0x331ffff;

impl View for Intents {
    type V = u64;

    /// The raw bits.
    closed spec fn view(&self) -> u64 {
        self.0
    }
}

impl Intents {
    /// Guild create/update/delete, role/channel events, thread list sync.
    pub const GUILDS: u64 = 0x1;

    /// Guild member add/update/remove events.
    pub const GUILD_MEMBERS: u64 = 0x2;

    /// Guild ban add/remove events.
    pub const GUILD_MODERATION: u64 = 0x4;

    /// Guild emoji/sticker update events.
    pub const GUILD_EMOJIS_AND_STICKERS: u64 = 0x8;

    /// Guild integration update events.
    pub const GUILD_INTEGRATIONS: u64 = 0x10;

    /// Webhook update events.
    pub const GUILD_WEBHOOKS: u64 = 0x20;

    /// Invite create/delete events.
    pub const GUILD_INVITES: u64 = 0x40;

    /// Voice state update events.
    pub const GUILD_VOICE_STATES: u64 = 0x80;

    /// Presence update events.
    pub const GUILD_PRESENCES: u64 = 0x100;

    /// Message create/update/delete in guild channels.
    pub const GUILD_MESSAGES: u64 = 0x200;

    /// Message reaction add/remove/clear in guild channels.
    pub const GUILD_MESSAGE_REACTIONS: u64 = 0x400;

    /// Typing start events in guild channels.
    pub const GUILD_MESSAGE_TYPING: u64 = 0x800;

    /// Message create/update/delete in DMs.
    pub const DIRECT_MESSAGES: u64 = 0x1000;

    /// Reaction add/remove/clear in DMs.
    pub const DIRECT_MESSAGE_REACTIONS: u64 = 0x2000;

    /// Typing start events in DMs.
    pub const DIRECT_MESSAGE_TYPING: u64 = 0x4000;

    /// Access to message content (privileged).
    pub const MESSAGE_CONTENT: u64 = 0x8000;

    /// Scheduled event create/update/delete and user add/remove.
    pub const GUILD_SCHEDULED_EVENTS: u64 = 0x10000;

    /// Auto moderation configuration events.
    pub const AUTO_MODERATION_CONFIGURATION: u64 = 0x100000;

    /// Auto moderation action execution events.
    pub const AUTO_MODERATION_EXECUTION: u64 = 0x200000;

    /// Guild message poll vote add/remove.
    pub const GUILD_MESSAGE_POLLS: u64 = 0x1000000;

    /// DM message poll vote add/remove.
    pub const DIRECT_MESSAGE_POLLS: u64 = 0x2000000;

    /// All non-privileged intents.
    pub const NON_PRIVILEGED: u64 = 0x3317efd;

    /// All intents, including privileged ones (GUILD_MEMBERS, GUILD_PRESENCES, MESSAGE_CONTENT).
    pub const ALL: u64 = 0x331ffff;
    /// The set with no flag.
    pub fn empty() -> (r: Self)
        ensures
            r@ == 0,
    {
        Intents(0)
    }

    /// The set of every defined flag.
    pub fn all() -> (r: Self)
        ensures
            r@ == INTENTS_KNOWN_BITS,
    {
        Intents(INTENTS_KNOWN_BITS)
    }

    /// The raw bits.
    pub fn bits(&self) -> (r: u64)
        ensures
            r == self@,
    {
        self.0
    }

    /// The set with exactly these bits, if every bit names a defined flag.
    pub fn from_bits(bits: u64) -> (r: Option<Self>)
        ensures
            match r {
                Some(f) => bits & !INTENTS_KNOWN_BITS == 0 && f@ == bits,
                None => bits & !INTENTS_KNOWN_BITS != 0,
            },
    {
        if bits & !INTENTS_KNOWN_BITS == 0 {
            Some(Intents(bits))
        } else {
            None
        }
    }

    /// The set of the defined flags among `bits`; other bits are dropped.
    pub fn from_bits_truncate(bits: u64) -> (r: Self)
        ensures
            r@ == bits & INTENTS_KNOWN_BITS,
    {
        Intents(bits & INTENTS_KNOWN_BITS)
    }

    /// The set with exactly these bits, defined flags or not.
    pub fn from_bits_retain(bits: u64) -> (r: Self)
        ensures
            r@ == bits,
    {
        Intents(bits)
    }

    /// Whether no bit is set.
    pub fn is_empty(&self) -> (r: bool)
        ensures
            r == (self@ == 0),
    {
        self.0 == 0
    }

    /// Whether every defined flag is set.
    pub fn is_all(&self) -> (r: bool)
        ensures
            r == (self@ & INTENTS_KNOWN_BITS == INTENTS_KNOWN_BITS),
    {
        self.0 & INTENTS_KNOWN_BITS == INTENTS_KNOWN_BITS
    }

    /// Whether every flag of `other` is set in `self`.
    pub fn contains(&self, other: Self) -> (r: bool)
        ensures
            r == (self@ & other@ == other@),
    {
        self.0 & other.0 == other.0
    }

    /// Whether `self` and `other` share a flag.
    pub fn intersects(&self, other: Self) -> (r: bool)
        ensures
            r == (self@ & other@ != 0),
    {
        self.0 & other.0 != 0
    }

    /// Set the flags of `other`.
    pub fn insert(&mut self, other: Self)
        ensures
            final(self)@ == old(self)@ | other@,
    {
        self.0 = self.0 | other.0;
    }

    /// Clear the flags of `other`.
    pub fn remove(&mut self, other: Self)
        ensures
            final(self)@ == old(self)@ & !other@,
    {
        self.0 = self.0 & !other.0;
    }

    /// Flip the flags of `other`.
    pub fn toggle(&mut self, other: Self)
        ensures
            final(self)@ == old(self)@ ^ other@,
    {
        self.0 = self.0 ^ other.0;
    }

    /// Set or clear the flags of `other`.
    pub fn set(&mut self, other: Self, value: bool)
        ensures
            final(self)@ == if value {
                old(self)@ | other@
            } else {
                old(self)@ & !other@
            },
    {
        if value {
            self.insert(other);
        } else {
            self.remove(other);
        }
    }

    /// The flags set in `self` or in `other`.
    pub fn union(self, other: Self) -> (r: Self)
        ensures
            r@ == self@ | other@,
    {
        Intents(self.0 | other.0)
    }

    /// The flags set in both `self` and `other`.
    pub fn intersection(self, other: Self) -> (r: Self)
        ensures
            r@ == self@ & other@,
    {
        Intents(self.0 & other.0)
    }

    /// The flags set in `self` but not in `other`.
    pub fn difference(self, other: Self) -> (r: Self)
        ensures
            r@ == self@ & !other@,
    {
        Intents(self.0 & !other.0)
    }

    /// The flags set in exactly one of `self` and `other`.
    pub fn symmetric_difference(self, other: Self) -> (r: Self)
        ensures
            r@ == self@ ^ other@,
    {
        Intents(self.0 ^ other.0)
    }

    /// The defined flags not set in `self`.
    pub fn complement(self) -> (r: Self)
        ensures
            r@ == !self@ & INTENTS_KNOWN_BITS,
    {
        Intents(!self.0 & INTENTS_KNOWN_BITS)
    }

    /// Convert to raw `u64` for the gateway Identify payload.
    pub fn to_u64(self) -> (r: u64)
        ensures
            r == self@,
    {
        self.0
    }
}

impl core::ops::BitOr for Intents {
    type Output = Intents;

    /// The union of two flag sets.
    fn bitor(self, rhs: Intents) -> (r: Intents)
        ensures
            r@ == self@ | rhs@,
    {
        Intents(self.0 | rhs.0)
    }
}

impl vstd::std_specs::ops::BitOrSpecImpl for Intents {
    open spec fn obeys_bitor_spec() -> bool {
        true
    }

    open spec fn bitor_req(self, rhs: Intents) -> bool {
        true
    }

    closed spec fn bitor_spec(self, rhs: Intents) -> Intents {
        Intents(self.0 | rhs.0)
    }
}

impl core::ops::BitAnd for Intents {
    type Output = Intents;

    /// The intersection of two flag sets.
    fn bitand(self, rhs: Intents) -> (r: Intents)
        ensures
            r@ == self@ & rhs@,
    {
        Intents(self.0 & rhs.0)
    }
}

impl vstd::std_specs::ops::BitAndSpecImpl for Intents {
    open spec fn obeys_bitand_spec() -> bool {
        true
    }

    open spec fn bitand_req(self, rhs: Intents) -> bool {
        true
    }

    closed spec fn bitand_spec(self, rhs: Intents) -> Intents {
        Intents(self.0 & rhs.0)
    }
}

impl core::ops::BitXor for Intents {
    type Output = Intents;

    /// The symmetric difference of two flag sets.
    fn bitxor(self, rhs: Intents) -> (r: Intents)
        ensures
            r@ == self@ ^ rhs@,
    {
        Intents(self.0 ^ rhs.0)
    }
}

impl vstd::std_specs::ops::BitXorSpecImpl for Intents {
    open spec fn obeys_bitxor_spec() -> bool {
        true
    }

    open spec fn bitxor_req(self, rhs: Intents) -> bool {
        true
    }

    closed spec fn bitxor_spec(self, rhs: Intents) -> Intents {
        Intents(self.0 ^ rhs.0)
    }
}

impl From<u64> for Intents {
    /// The defined intents among `bits`.
    fn from(bits: u64) -> (r: Self)
        ensures
            r@ == bits & INTENTS_KNOWN_BITS,
    {
        Self::from_bits_truncate(bits)
    }
}

impl FromSpecImpl<u64> for Intents {
    open spec fn obeys_from_spec() -> bool {
        true
    }

    closed spec fn from_spec(v: u64) -> Intents {
        Intents(v & INTENTS_KNOWN_BITS)
    }
}

impl From<Intents> for u64 {
    fn from(intents: Intents) -> (r: u64)
        ensures
            r == intents@,
    {
        intents.0
    }
}

impl FromSpecImpl<Intents> for u64 {
    open spec fn obeys_from_spec() -> bool {
        true
    }

    closed spec fn from_spec(v: Intents) -> u64 {
        v.0
    }
}

/// `ALL` is the non-privileged intents plus the three privileged ones, and
/// it is every defined intent.
pub proof fn lemma_intents_all()
    ensures
        Intents::ALL == Intents::NON_PRIVILEGED | Intents::GUILD_MEMBERS | Intents::GUILD_PRESENCES
            | Intents::MESSAGE_CONTENT,
        Intents::ALL == INTENTS_KNOWN_BITS,
        Intents::NON_PRIVILEGED & (Intents::GUILD_MEMBERS | Intents::GUILD_PRESENCES | Intents::MESSAGE_CONTENT) == 0,
{
    assert(0x331_ffffu64 == 0x331_7efdu64 | 0x2u64 | 0x100u64 | 0x8000u64) by (bit_vector);
    assert(0x331_7efdu64 & (0x2u64 | 0x100u64 | 0x8000u64) == 0) by (bit_vector);
}

/// Converting bits to intents and back keeps exactly the defined intents.
pub proof fn lemma_intents_u64_roundtrip(bits: u64)
    ensures
        (bits & INTENTS_KNOWN_BITS) & INTENTS_KNOWN_BITS == bits & INTENTS_KNOWN_BITS,
{
    assert((bits & 0x331_ffffu64) & 0x331_ffffu64 == bits & 0x331_ffffu64) by (bit_vector);
}

} // verus!
