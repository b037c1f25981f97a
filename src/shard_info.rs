use vstd::prelude::*;

verus! {

/// Number of low bits of a snowflake that do not take part in shard routing.
pub const SNOWFLAKE_SHARD_SHIFT: u64 = 22;

/// The shard that owns guild `guild_id` when there are `total_shards` shards.
pub open spec fn spec_shard_of(guild_id: u64, total_shards: u64) -> int
    recommends
        total_shards > 0,
{
    (guild_id / 0x40_0000) as int % (total_shards as int)
}

/// Maps a guild id to the shard that owns it: `(guild_id >> 22) mod total_shards`.
pub fn shard_of(guild_id: u64, total_shards: u64) -> (r: u64)
    requires
        total_shards > 0,
    ensures
        r as int == spec_shard_of(guild_id, total_shards),
        r < total_shards,
{
    let high: u64 = guild_id >> SNOWFLAKE_SHARD_SHIFT;
    assert(high == guild_id / 0x40_0000) by (bit_vector)
        requires
            high == guild_id >> 22u64,
    ;
    high % total_shards
}

/// Each guild has exactly one owning shard among `0..total_shards`, and the
/// owner depends on the guild id and the shard count alone, so repeated calls
/// agree.
pub proof fn lemma_exactly_one_owner(guild_id: u64, total_shards: u64, a: u64, b: u64)
    requires
        total_shards > 0,
        a < total_shards,
        b < total_shards,
        spec_shard_of(guild_id, total_shards) == a,
        spec_shard_of(guild_id, total_shards) == b,
    ensures
        a == b,
        0 <= spec_shard_of(guild_id, total_shards) < total_shards,
{
}

/// Why a shard layout was refused.
#[derive(Debug, Clone, Copy, PartialEq, Eq, Structural)]
pub enum ShardInfoError {
    /// There must be at least one shard.
    NoShards,
    /// The shard id must be below the shard count.
    ShardOutOfRange,
}

/// One shard's place in the layout: its id and the number of shards.
#[derive(Debug, Clone, Copy, PartialEq, Eq, Structural)]
pub struct ShardInfo {
    shard_id: u64,
    total_shards: u64,
}

impl ShardInfo {
    pub closed spec fn spec_shard_id(&self) -> u64 {
        self.shard_id
    }

    pub closed spec fn spec_total_shards(&self) -> u64 {
        self.total_shards
    }

    pub open spec fn well_formed(&self) -> bool {
        self.spec_shard_id() < self.spec_total_shards()
    }

    /// Checks a layout when it is configured: the count must be positive and
    /// the id below it.
    pub fn new(shard_id: u64, total_shards: u64) -> (r: Result<ShardInfo, ShardInfoError>)
        ensures
            total_shards == 0 <==> r == Err::<ShardInfo, ShardInfoError>(ShardInfoError::NoShards),
            0 < total_shards <= shard_id <==> r == Err::<ShardInfo, ShardInfoError>(
                ShardInfoError::ShardOutOfRange,
            ),
            r matches Ok(i) ==> i.well_formed() && i.spec_shard_id() == shard_id
                && i.spec_total_shards() == total_shards,
            r is Ok <==> shard_id < total_shards,
    {
        if total_shards == 0 {
            Err(ShardInfoError::NoShards)
        } else if shard_id >= total_shards {
            Err(ShardInfoError::ShardOutOfRange)
        } else {
            Ok(ShardInfo { shard_id, total_shards })
        }
    }

    pub fn shard_id(&self) -> (r: u64)
        ensures
            r == self.spec_shard_id(),
    {
        self.shard_id
    }

    pub fn total_shards(&self) -> (r: u64)
        ensures
            r == self.spec_total_shards(),
    {
        self.total_shards
    }

    /// True when this shard owns guild `guild_id`.
    pub open spec fn owns_spec(&self, guild_id: u64) -> bool {
        spec_shard_of(guild_id, self.spec_total_shards()) == self.spec_shard_id()
    }

    /// True when this shard owns guild `guild_id`.
    pub fn owns(&self, guild_id: u64) -> (r: bool)
        requires
            self.well_formed(),
        ensures
            r == (spec_shard_of(guild_id, self.spec_total_shards()) == self.spec_shard_id()),
    {
        shard_of(guild_id, self.total_shards) == self.shard_id
    }
}

} // verus!
