use vstd::prelude::*;

verus! {

pub const GUILDS: u64 = 0x0001;

pub const GUILD_MEMBERS: u64 = 0x0002;

pub const GUILD_BANS: u64 = 0x0004;

pub const GUILD_EMOJIS: u64 = 0x0008;

pub const GUILD_INTEGRATIONS: u64 = 0x0010;

pub const GUILD_WEBHOOKS: u64 = 0x0020;

pub const GUILD_INVITES: u64 = 0x0040;

pub const GUILD_VOICE_STATES: u64 = 0x0080;

pub const GUILD_PRESENCES: u64 = 0x0100;

pub const GUILD_MESSAGES: u64 = 0x0200;

pub const GUILD_MESSAGE_REACTIONS: u64 = 0x0400;

pub const GUILD_MESSAGE_TYPING: u64 = 0x0800;

pub const DIRECT_MESSAGES: u64 = 0x1000;

pub const DIRECT_MESSAGE_REACTIONS: u64 = 0x2000;

pub const DIRECT_MESSAGE_TYPING: u64 = 0x4000;

/// The kinds of event that a client asks the gateway for, as a bitmask.
#[derive(Debug, Copy, Clone, PartialEq, Eq, Structural)]
pub struct GatewayIntents {
    pub bits: u64,
}

impl GatewayIntents {
    /// No intent at all.
    pub fn empty() -> (r: GatewayIntents)
        ensures
            r.bits == 0,
    {
        GatewayIntents { bits: 0 }
    }

    /// The intents that a bitmask names.
    pub fn from_bits(bits: u64) -> (r: GatewayIntents)
        ensures
            r.bits == bits,
    {
        GatewayIntents { bits }
    }

    /// The intents of `self` together with those of `other`.
    pub fn union(self, other: GatewayIntents) -> (r: GatewayIntents)
        ensures
            r.bits == self.bits | other.bits,
    {
        GatewayIntents { bits: self.bits | other.bits }
    }

    /// The intents of `self` together with those that the bitmask `bits`
    /// names.
    pub fn with(self, bits: u64) -> (r: GatewayIntents)
        ensures
            r.bits == self.bits | bits,
    {
        GatewayIntents { bits: self.bits | bits }
    }

    /// Whether every intent of `other` is among those of `self`.
    pub fn contains(self, other: GatewayIntents) -> (r: bool)
        ensures
            r == (self.bits & other.bits == other.bits),
    {
        self.bits & other.bits == other.bits
    }
}

/// A union holds the intents of both sides, and it does not matter in which
/// order they are joined.
pub proof fn lemma_union(a: GatewayIntents, b: GatewayIntents)
    ensures
        (a.bits | b.bits) & a.bits == a.bits,
        (a.bits | b.bits) & b.bits == b.bits,
        a.bits | b.bits == b.bits | a.bits,
        a.bits | a.bits == a.bits,
        a.bits | 0 == a.bits,
{
    let x = a.bits;
    let y = b.bits;
    assert((x | y) & x == x) by (bit_vector);
    assert((x | y) & y == y) by (bit_vector);
    assert(x | y == y | x) by (bit_vector);
    assert(x | x == x) by (bit_vector);
    assert(x | 0 == x) by (bit_vector);
}

} // verus!
