use vstd::prelude::*;

verus! {

/// The set of event categories a shard subscribes to, as a bitmask sent with
/// Identify.
#[derive(Debug, Clone, Copy, PartialEq, Eq, Structural)]
pub struct Intents {
    pub bits: u64,
}

/// Guild lifecycle: create, update, delete, channels and roles.
pub const GUILDS: u64 = 1;

/// Member joins, updates and leaves.
pub const GUILD_MEMBERS: u64 = 2;

/// Messages sent in guild channels.
pub const GUILD_MESSAGES: u64 = 512;

/// Typing indicators in guild channels.
pub const GUILD_MESSAGE_TYPING: u64 = 2048;

/// Messages sent in direct conversations.
pub const DIRECT_MESSAGES: u64 = 4096;

impl Intents {
    /// No category.
    pub fn empty() -> (r: Intents)
        ensures
            r.bits == 0,
    {
        Intents { bits: 0 }
    }

    /// Every category of `self` and of `other`.
    pub fn union(self, other: Intents) -> (r: Intents)
        ensures
            r.bits == self.bits | other.bits,
            r.contains_spec(self) && r.contains_spec(other),
    {
        let a = self.bits;
        let b = other.bits;
        let bits = a | b;
        assert(bits & a == a && bits & b == b) by (bit_vector)
            requires
                bits == a | b,
        ;
        Intents { bits }
    }

    /// The categories of `self` without those of `other`.
    pub fn remove(self, other: Intents) -> (r: Intents)
        ensures
            r.bits == self.bits & !other.bits,
            r.bits & other.bits == 0,
    {
        let a = self.bits;
        let b = other.bits;
        let bits = a & !b;
        assert(bits & b == 0) by (bit_vector)
            requires
                bits == a & !b,
        ;
        Intents { bits }
    }

    pub open spec fn contains_spec(self, other: Intents) -> bool {
        self.bits & other.bits == other.bits
    }

    /// True when every category of `other` is in `self`.
    pub fn contains(self, other: Intents) -> (r: bool)
        ensures
            r == self.contains_spec(other),
    {
        self.bits & other.bits == other.bits
    }
}

} // verus!
