use sharder::shard::{Shard, ShardAction, ShardEvent, ShardState};
use sharder::supervisor::{count_shards_in, on_failure, reconnect_delay_ms, GatewayError, SupervisorAction};

fn ready(id: &str) -> ShardEvent {
    ShardEvent::Ready { session_id: id.to_string(), resume_url: "wss://resume".to_string() }
}

fn connect(shard: &mut Shard) -> Vec<ShardAction> {
    vec![
        shard.step(ShardEvent::Connect),
        shard.step(ShardEvent::TransportOpened),
        shard.step(ShardEvent::Hello { heartbeat_interval_ms: 41250 }),
    ]
}

#[test]
fn hello_then_ready_identifies_once() {
    let mut shard = Shard::new(3);
    assert_eq!(shard.state(), ShardState::Disconnected);
    let mut actions = connect(&mut shard);
    assert_eq!(shard.state(), ShardState::Identifying);
    actions.push(shard.step(ready("abc")));
    assert_eq!(shard.state(), ShardState::Connected);
    assert_eq!(shard.heartbeat_interval_ms(), 41250);
    let acquires = actions.iter().filter(|a| **a == ShardAction::AcquireAndIdentify).count();
    assert_eq!(acquires, 1);
    assert_eq!(shard.session().as_ref().unwrap().session_id, "abc");
}

#[test]
fn two_missed_acks_make_a_zombie() {
    let mut shard = Shard::new(3);
    connect(&mut shard);
    shard.step(ready("abc"));
    assert_eq!(shard.step(ShardEvent::HeartbeatDue), ShardAction::SendHeartbeat { last_sequence: Some(0) });
    assert_eq!(shard.step(ShardEvent::HeartbeatDue), ShardAction::SendHeartbeat { last_sequence: Some(0) });
    assert_eq!(shard.missed_acks(), 1);
    assert_eq!(shard.state(), ShardState::Connected);
    assert_eq!(shard.step(ShardEvent::HeartbeatDue), ShardAction::CloseTransport);
    assert_eq!(shard.state(), ShardState::Zombie);
    assert_eq!(
        shard.step(ShardEvent::TransportClosed),
        ShardAction::ScheduleReconnect { attempt: 0, alert: false }
    );
    assert_eq!(shard.state(), ShardState::Disconnected);
    assert_eq!(shard.step(ShardEvent::Connect), ShardAction::OpenTransport);
    assert_eq!(shard.state(), ShardState::Connecting);
}

#[test]
fn one_missed_ack_is_tolerated() {
    let mut shard = Shard::new(3);
    connect(&mut shard);
    shard.step(ready("abc"));
    shard.step(ShardEvent::HeartbeatDue);
    shard.step(ShardEvent::HeartbeatDue);
    assert_eq!(shard.step(ShardEvent::HeartbeatAck), ShardAction::Nothing);
    assert_eq!(shard.missed_acks(), 0);
    assert_eq!(shard.step(ShardEvent::HeartbeatDue), ShardAction::SendHeartbeat { last_sequence: Some(0) });
    assert_eq!(shard.state(), ShardState::Connected);
}

#[test]
fn resumable_invalid_session_resumes_once() {
    let mut shard = Shard::new(3);
    connect(&mut shard);
    shard.step(ready("sess-1"));
    assert_eq!(shard.step(ShardEvent::Dispatch { sequence: 7 }), ShardAction::Forward { sequence: 7 });
    assert_eq!(shard.step(ShardEvent::Dispatch { sequence: 5 }), ShardAction::Forward { sequence: 5 });
    let mut actions = vec![shard.step(ShardEvent::InvalidSession { resumable: true })];
    actions.extend(connect(&mut shard));
    actions.push(shard.step(ShardEvent::Resumed));
    let resumes: Vec<&ShardAction> =
        actions.iter().filter(|a| matches!(a, ShardAction::SendResume { .. })).collect();
    assert_eq!(resumes, vec![&ShardAction::SendResume { session_id: "sess-1".to_string(), sequence: 7 }]);
    assert!(!actions.contains(&ShardAction::AcquireAndIdentify));
    assert_eq!(shard.state(), ShardState::Connected);
}

#[test]
fn non_resumable_invalid_session_identifies_afresh() {
    let mut shard = Shard::new(3);
    connect(&mut shard);
    shard.step(ready("sess-1"));
    shard.step(ShardEvent::InvalidSession { resumable: false });
    assert!(shard.session().is_none());
    let actions = connect(&mut shard);
    assert_eq!(actions[2], ShardAction::AcquireAndIdentify);
}

#[test]
fn handshake_timeouts_alert_and_keep_retrying() {
    let mut shard = Shard::new(2);
    shard.step(ShardEvent::Connect);
    assert_eq!(
        shard.step(ShardEvent::HandshakeTimeout),
        ShardAction::ScheduleReconnect { attempt: 0, alert: false }
    );
    shard.step(ShardEvent::Connect);
    shard.step(ShardEvent::TransportOpened);
    assert_eq!(
        shard.step(ShardEvent::HandshakeTimeout),
        ShardAction::ScheduleReconnect { attempt: 1, alert: true }
    );
    assert_eq!(shard.step(ShardEvent::Connect), ShardAction::OpenTransport);
}

#[test]
fn malformed_frames_are_dropped_and_shutdown_is_terminal() {
    let mut shard = Shard::new(3);
    connect(&mut shard);
    shard.step(ready("s"));
    assert_eq!(shard.step(ShardEvent::Malformed), ShardAction::Nothing);
    assert_eq!(shard.state(), ShardState::Connected);
    assert_eq!(shard.step(ShardEvent::Shutdown), ShardAction::CloseTransport);
    assert_eq!(shard.step(ShardEvent::Connect), ShardAction::Nothing);
    assert_eq!(shard.state(), ShardState::Stopped);
}

#[test]
fn reconnect_backoff_is_capped() {
    assert_eq!(reconnect_delay_ms(0, 0), 1000);
    assert_eq!(reconnect_delay_ms(3, 250), 8250);
    assert_eq!(reconnect_delay_ms(6, 1999), 60_999);
    assert_eq!(reconnect_delay_ms(u32::MAX, 5), 60_005);
}

#[test]
fn auth_failure_is_fatal() {
    assert_eq!(on_failure(GatewayError::AuthFailure, 0, 0, 3, 0), SupervisorAction::Surface);
    assert_eq!(
        on_failure(GatewayError::TransportError, 2, 0, 3, 10),
        SupervisorAction::Restart { delay_ms: 4010 }
    );
    assert_eq!(
        on_failure(GatewayError::HandshakeTimeout, 1, 3, 3, 0),
        SupervisorAction::AlertAndRestart { delay_ms: 2000 }
    );
    assert!(GatewayError::RateLimiterUnavailable.is_retryable());
    assert!(!GatewayError::AuthFailure.is_retryable());
}

#[test]
fn health_counts_states() {
    let states = vec![ShardState::Connected, ShardState::Zombie, ShardState::Connected];
    assert_eq!(count_shards_in(&states, ShardState::Connected), 2);
    assert_eq!(count_shards_in(&states, ShardState::Stopped), 0);
}
