use sharder::forwarder::{after_publish, should_forward, ForwardItem, ForwardQueue, ForwardRule, PublishStep, RuleEffect};
use sharder::identify::{after_lease_reply, IdentifyCoordinator, LeaseStep};

fn item(seq: u64) -> ForwardItem {
    ForwardItem {
        event_type: "MESSAGE_CREATE".to_string(),
        guild_id: Some(1),
        channel_id: Some(2),
        sequence: seq,
        payload: vec![1, 2, 3],
    }
}

#[test]
fn identify_leases_never_overlap() {
    let spacing = 5000;
    let mut c = IdentifyCoordinator::new(2, spacing);
    // Eight simulated callers, shards 0..8, all asking at once.
    for shard in 0..8 {
        c.request(shard);
    }
    let mut grants: Vec<(u64, u64)> = Vec::new();
    let mut now = 0u64;
    while grants.len() < 8 {
        while let Some(shard) = c.poll(now) {
            grants.push((c.bucket_of(shard), now));
        }
        now += 1000;
    }
    for i in 0..grants.len() {
        for j in (i + 1)..grants.len() {
            if grants[i].0 == grants[j].0 {
                assert!(grants[j].1 >= grants[i].1 + spacing);
            }
        }
    }
    assert!(!c.try_acquire(0, now - 1000));
}

#[test]
fn identify_serves_bucket_in_order() {
    let mut c = IdentifyCoordinator::new(1, 5000);
    c.request(3);
    c.request(1);
    assert_eq!(c.poll(0), Some(3));
    assert_eq!(c.poll(4999), None);
    assert_eq!(c.poll(5000), Some(1));
    assert_eq!(c.poll(20000), None);
    assert!(c.try_acquire(0, 20000));
    assert!(!c.try_acquire(0, 24999));
    assert!(!c.try_acquire(0, u64::MAX));
}

#[test]
fn queue_sheds_oldest_under_outage() {
    let mut q = ForwardQueue::new(3);
    for seq in 0..3 {
        assert_eq!(q.enqueue(item(seq)), None);
    }
    assert_eq!(q.len(), 3);
    // Downstream is down: nothing is drained, arrivals keep coming.
    for seq in 3..10 {
        let shed = q.enqueue(item(seq)).unwrap();
        assert_eq!(shed.sequence, seq - 3);
        assert_eq!(q.len(), 3);
    }
    assert_eq!(q.dropped(), 7);
    let kept: Vec<u64> = std::iter::from_fn(|| q.pop_front()).map(|i| i.sequence).collect();
    assert_eq!(kept, vec![7, 8, 9]);
    assert_eq!(q.pop_front(), None);
}

#[test]
fn rules_first_match_decides() {
    let rules = vec![
        ForwardRule { effect: RuleEffect::Deny, event_type: "MESSAGE_CREATE".to_string(), guild_id: Some(9), channel_id: None },
        ForwardRule { effect: RuleEffect::Allow, event_type: "MESSAGE_CREATE".to_string(), guild_id: None, channel_id: None },
    ];
    assert!(should_forward(&rules, false, &item(0)));
    let mut denied = item(0);
    denied.guild_id = Some(9);
    assert!(!should_forward(&rules, true, &denied));
    let mut other = item(0);
    other.event_type = "TYPING_START".to_string();
    assert!(!should_forward(&rules, false, &other));
    assert!(should_forward(&rules, true, &other));
    assert!(should_forward(&Vec::new(), true, &item(0)));
}

#[test]
fn publish_retries_then_fails() {
    assert_eq!(after_publish(0, true, 3), PublishStep::Delivered);
    assert_eq!(after_publish(0, false, 3), PublishStep::Retry { attempt: 1, delay_ms: 100 });
    assert_eq!(after_publish(1, false, 3), PublishStep::Retry { attempt: 2, delay_ms: 200 });
    assert_eq!(after_publish(2, false, 3), PublishStep::Failed);
    assert_eq!(after_publish(9, false, 20), PublishStep::Retry { attempt: 10, delay_ms: 2000 });
    assert_eq!(after_publish(0, false, 0), PublishStep::Failed);
}

#[test]
fn lease_store_outage_is_retried_never_bypassed() {
    assert_eq!(after_lease_reply(Some(true), 0, 0), LeaseStep::Proceed);
    assert_eq!(after_lease_reply(Some(false), 0, 0), LeaseStep::WaitForTurn);
    assert_eq!(after_lease_reply(None, 2, 1300), LeaseStep::RetryAfter { attempt: 3, delay_ms: 4300 });
    assert_eq!(after_lease_reply(None, u32::MAX, 0), LeaseStep::RetryAfter { attempt: u32::MAX, delay_ms: 60_000 });
}
