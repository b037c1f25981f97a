use sharder::config::parse_public_key;
use sharder::forwarder::{ForwardItem, ForwardRule, RuleEffect};
use sharder::guild_state::{GuildEntry, GuildEvent};
use sharder::shard::{ShardAction, ShardEvent, ShardState};
use sharder::shard_info::{shard_of, ShardInfo, ShardInfoError};
use sharder::supervisor::{BotIdentity, IdentityShards};
use sharder::worker::{DispatchOutcome, ShardWorker};
use std::collections::HashMap;

fn item(event_type: &str, seq: u64) -> ForwardItem {
    ForwardItem { event_type: event_type.to_string(), guild_id: Some(1), channel_id: None, sequence: seq, payload: vec![] }
}

fn create(guild_id: u64) -> GuildEvent {
    GuildEvent::GuildCreate {
        guild_id,
        guild: GuildEntry { name: "g".to_string(), member_count: 1, channels: HashMap::new(), roles: HashMap::new() },
    }
}

fn connected_worker(capacity: usize) -> ShardWorker {
    let rules = vec![ForwardRule {
        effect: RuleEffect::Deny,
        event_type: "TYPING_START".to_string(),
        guild_id: None,
        channel_id: None,
    }];
    let mut w = ShardWorker::new(ShardInfo::new(0, 1).unwrap(), 3, capacity, rules, true);
    w.handle(ShardEvent::Connect);
    w.handle(ShardEvent::TransportOpened);
    w.handle(ShardEvent::Hello { heartbeat_interval_ms: 1000 });
    w.handle(ShardEvent::Ready { session_id: "s".to_string(), resume_url: "u".to_string() });
    w
}

#[test]
fn dispatch_updates_sequence_cache_and_queue() {
    let mut w = ShardWorker::new(ShardInfo::new(0, 1).unwrap(), 3, 4, vec![], true);
    assert_eq!(w.dispatch(1, Some(create(1)), item("GUILD_CREATE", 1)), DispatchOutcome::NotConnected);
    assert_eq!(w.cache().len(), 0);
    let mut w = connected_worker(4);
    assert_eq!(w.dispatch(3, Some(create(1)), item("GUILD_CREATE", 3)), DispatchOutcome::Queued { shed: None });
    assert_eq!(w.dispatch(4, None, item("TYPING_START", 4)), DispatchOutcome::Filtered);
    assert_eq!(w.shard().session().as_ref().unwrap().sequence, 4);
    assert!(w.cache().get(1).is_some());
    assert_eq!(w.next_to_publish().unwrap().sequence, 3);
    assert_eq!(w.next_to_publish(), None);
}

#[test]
fn outage_sheds_oldest_while_heartbeats_continue() {
    let mut w = connected_worker(2);
    for seq in 1..=10u64 {
        w.dispatch(seq, None, item("MESSAGE_CREATE", seq));
        let beat = w.handle(ShardEvent::HeartbeatDue);
        assert_eq!(beat, ShardAction::SendHeartbeat { last_sequence: Some(seq) });
        w.handle(ShardEvent::HeartbeatAck);
        assert_eq!(w.shard().state(), ShardState::Connected);
    }
    assert_eq!(w.dropped(), 8);
    assert_eq!(w.next_to_publish().unwrap().sequence, 9);
    assert_eq!(w.next_to_publish().unwrap().sequence, 10);
}

#[test]
fn disconnect_empties_cache() {
    let mut w = connected_worker(2);
    w.dispatch(1, Some(create(1)), item("GUILD_CREATE", 1));
    assert_eq!(w.cache().len(), 1);
    w.handle(ShardEvent::TransportClosed);
    assert_eq!(w.shard().state(), ShardState::Disconnected);
    assert_eq!(w.cache().len(), 0);
}

#[test]
fn identity_spawns_one_worker_per_shard() {
    let identity = || BotIdentity {
        token: "bot-token".to_string(),
        application_id: 7,
        public_key: parse_public_key("5866666666666666666666666666666666666666666666666666666666666666").unwrap(),
    };
    assert!(matches!(
        IdentityShards::spawn(identity(), 0, 1, 5000, 3, 8, &vec![], true),
        Err(ShardInfoError::NoShards)
    ));
    let set = IdentityShards::spawn(identity(), 4, 2, 5000, 3, 8, &vec![], true).unwrap();
    assert_eq!(set.workers.len(), 4);
    let g = (2u64 << 22) | 123;
    for (i, w) in set.workers.iter().enumerate() {
        assert_eq!(w.shard().state(), ShardState::Disconnected);
        assert_eq!(w.cache().is_owner(g), i as u64 == shard_of(g, 4));
    }
    assert_eq!(set.coordinator.bucket_of(3), 1);
}

#[test]
fn dispatch_reports_the_shed_item() {
    let mut w = connected_worker(2);
    assert_eq!(w.dispatch(1, None, item("MESSAGE_CREATE", 1)), DispatchOutcome::Queued { shed: None });
    assert_eq!(w.dispatch(2, None, item("MESSAGE_CREATE", 2)), DispatchOutcome::Queued { shed: None });
    assert_eq!(w.dropped(), 0);
    assert_eq!(
        w.dispatch(3, None, item("MESSAGE_CREATE", 3)),
        DispatchOutcome::Queued { shed: Some(item("MESSAGE_CREATE", 1)) }
    );
    assert_eq!(w.dropped(), 1);
    assert_eq!(w.dispatch(4, None, item("TYPING_START", 4)), DispatchOutcome::Filtered);
    assert_eq!(w.dropped(), 1);
}
