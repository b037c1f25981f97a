use sharder::guild_state::{GuildEntry, GuildEvent, GuildState};
use sharder::shard_info::{shard_of, ShardInfo, ShardInfoError};
use std::collections::HashMap;

fn guild(name: &str) -> GuildEntry {
    GuildEntry {
        name: name.to_string(),
        member_count: 3,
        channels: HashMap::new(),
        roles: HashMap::new(),
    }
}

#[test]
fn shard_of_uses_high_bits() {
    assert_eq!(shard_of(123, 4), 0);
    assert_eq!(shard_of(2 << 22, 4), 2);
    assert_eq!(shard_of((7 << 22) | 0x3f_ffff, 4), 3);
    assert_eq!(shard_of(u64::MAX, 1), 0);
    assert_eq!(shard_of(u64::MAX, 1000), ((u64::MAX >> 22) % 1000));
}

#[test]
fn shard_of_is_stable_across_calls() {
    for g in [0u64, 123, 81384788765712384, u64::MAX] {
        for n in [1u64, 2, 4, 16, 1000] {
            let first = shard_of(g, n);
            for _ in 0..5 {
                assert_eq!(shard_of(g, n), first);
            }
            assert!(first < n);
        }
    }
}

#[test]
fn shard_info_rejects_bad_layouts() {
    assert_eq!(ShardInfo::new(0, 0), Err(ShardInfoError::NoShards));
    assert_eq!(ShardInfo::new(4, 4), Err(ShardInfoError::ShardOutOfRange));
    let info = ShardInfo::new(3, 4).unwrap();
    assert_eq!(info.shard_id(), 3);
    assert_eq!(info.total_shards(), 4);
}

#[test]
fn exactly_one_shard_owns_a_guild() {
    let g = (2u64 << 22) | 123;
    let owners: Vec<u64> = (0..4).filter(|s| ShardInfo::new(*s, 4).unwrap().owns(g)).collect();
    assert_eq!(owners, vec![2]);
    // Guild 123 itself has no bits above the low 22, so it routes to shard 0.
    let owners: Vec<u64> = (0..4).filter(|s| ShardInfo::new(*s, 4).unwrap().owns(123)).collect();
    assert_eq!(owners, vec![0]);
}

#[test]
fn only_owning_shard_applies_dispatch() {
    let g = (2u64 << 22) | 123;
    let mut caches: Vec<GuildState> = (0..4).map(|s| GuildState::new(s, 4)).collect();
    for cache in caches.iter_mut() {
        let applied = cache.apply(GuildEvent::GuildCreate { guild_id: g, guild: guild("a") });
        assert_eq!(applied, shard_of(g, 4) == 2 && cache.is_owner(g));
    }
    for (s, cache) in caches.iter().enumerate() {
        assert_eq!(cache.get(g).is_some(), s == 2);
        assert_eq!(cache.len(), if s == 2 { 1 } else { 0 });
    }
}

#[test]
fn guild_create_is_idempotent() {
    let mut once = GuildState::new(0, 1);
    let mut twice = GuildState::new(0, 1);
    let mut entry = guild("guild");
    entry.channels.insert(10, "general".to_string());
    once.apply(GuildEvent::GuildCreate { guild_id: 5, guild: entry.clone() });
    twice.apply(GuildEvent::GuildCreate { guild_id: 5, guild: entry.clone() });
    twice.apply(GuildEvent::GuildCreate { guild_id: 5, guild: entry.clone() });
    let a = once.get(5).unwrap();
    let b = twice.get(5).unwrap();
    assert_eq!(a.name, b.name);
    assert_eq!(a.member_count, b.member_count);
    assert_eq!(a.channels, b.channels);
    assert_eq!(a.roles, b.roles);
    assert_eq!(once.len(), twice.len());
}

#[test]
fn guild_entities_last_writer_wins() {
    let mut cache = GuildState::new(0, 1);
    assert!(cache.apply(GuildEvent::ChannelUpsert { guild_id: 5, channel_id: 1, name: "x".to_string() }));
    assert!(cache.get(5).is_none());
    cache.apply(GuildEvent::GuildCreate { guild_id: 5, guild: guild("g") });
    cache.apply(GuildEvent::ChannelUpsert { guild_id: 5, channel_id: 1, name: "x".to_string() });
    cache.apply(GuildEvent::ChannelUpsert { guild_id: 5, channel_id: 1, name: "y".to_string() });
    cache.apply(GuildEvent::RoleUpsert { guild_id: 5, role_id: 2, name: "mod".to_string() });
    assert_eq!(cache.get(5).unwrap().channels.get(&1).unwrap(), "y");
    assert_eq!(cache.get(5).unwrap().roles.get(&2).unwrap(), "mod");
    cache.apply(GuildEvent::ChannelDelete { guild_id: 5, channel_id: 1 });
    cache.apply(GuildEvent::RoleDelete { guild_id: 5, role_id: 2 });
    assert!(cache.get(5).unwrap().channels.is_empty());
    assert!(cache.get(5).unwrap().roles.is_empty());
    cache.apply(GuildEvent::GuildUpdate { guild_id: 5, guild: guild("renamed") });
    assert_eq!(cache.get(5).unwrap().name, "renamed");
    cache.apply(GuildEvent::GuildDelete { guild_id: 5, unavailable: true });
    assert!(cache.get(5).is_none());
}

#[test]
fn guild_eviction() {
    let mut cache = GuildState::new(0, 1);
    cache.apply(GuildEvent::GuildCreate { guild_id: 1, guild: guild("a") });
    cache.apply(GuildEvent::GuildCreate { guild_id: 2, guild: guild("b") });
    cache.evict(1);
    assert!(cache.get(1).is_none());
    assert_eq!(cache.len(), 1);
    cache.evict_all();
    assert_eq!(cache.len(), 0);
}
