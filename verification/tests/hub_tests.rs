use player_purchases::data::PlayerInfo;
use player_purchases::hub::{
    kind_label, worker_decision, BroadcastHub, RecvOutcome, Topics, WorkerAction,
};

fn roster_event(name: &str) -> Topics {
    Topics::PlayerInfo(vec![PlayerInfo {
        champion_name: format!("champion of {}", name),
        summoner_name: name.to_string(),
        skin_id: 0,
    }])
}

fn label_of(t: &Topics) -> &'static str {
    kind_label(t)
}

fn drain(hub: &mut BroadcastHub, id: usize) -> Vec<&'static str> {
    let mut seen = Vec::new();
    loop {
        let label = match hub.next_event(id) {
            Some(e) => label_of(e),
            None => break,
        };
        seen.push(label);
        hub.acknowledge(id);
    }
    seen
}

#[test]
fn both_subscribers_observe_the_event() {
    let mut hub = BroadcastHub::new();
    assert_eq!(hub.subscriber_count(), 0);
    let a = hub.subscribe();
    let b = hub.subscribe();
    assert_eq!(hub.subscriber_count(), 2);
    hub.publish(Topics::GameStart);
    let ea = hub.next_event(a).expect("first subscriber must see the event");
    assert_eq!(label_of(ea), "GameStart");
    let eb = hub.next_event(b).expect("second subscriber must see the event");
    assert_eq!(label_of(eb), "GameStart");
}

#[test]
fn subscribers_observe_the_same_order() {
    let mut hub = BroadcastHub::new();
    let a = hub.subscribe();
    let b = hub.subscribe();
    hub.publish(roster_event("A"));
    hub.publish(Topics::GoldInformation(Vec::new()));
    hub.publish(Topics::GameStart);
    let seen_a = drain(&mut hub, a);
    let seen_b = drain(&mut hub, b);
    assert_eq!(seen_a, vec!["PlayerInfo", "GoldInformation", "GameStart"]);
    assert_eq!(seen_a, seen_b);
}

#[test]
fn slow_subscriber_blocks_nobody() {
    let mut hub = BroadcastHub::new();
    let slow = hub.subscribe();
    let fast = hub.subscribe();
    hub.publish(Topics::GameStart);
    hub.publish(roster_event("A"));
    let seen_fast = drain(&mut hub, fast);
    assert_eq!(seen_fast.len(), 2);
    let seen_slow = drain(&mut hub, slow);
    assert_eq!(seen_slow.len(), 2);
}

#[test]
fn late_subscriber_gets_no_backfill() {
    let mut hub = BroadcastHub::new();
    let early = hub.subscribe();
    hub.publish(Topics::GameStart);
    hub.publish(roster_event("A"));
    let late = hub.subscribe();
    assert!(hub.next_event(late).is_none());
    hub.publish(Topics::GoldInformation(Vec::new()));
    let seen_late = drain(&mut hub, late);
    assert_eq!(seen_late, vec!["GoldInformation"]);
    let seen_early = drain(&mut hub, early);
    assert_eq!(seen_early, vec!["GameStart", "PlayerInfo", "GoldInformation"]);
}

#[test]
fn acknowledge_consumes_exactly_one() {
    let mut hub = BroadcastHub::new();
    let a = hub.subscribe();
    hub.publish(Topics::GameStart);
    hub.publish(roster_event("A"));
    assert_eq!(label_of(hub.next_event(a).unwrap()), "GameStart");
    hub.acknowledge(a);
    assert_eq!(label_of(hub.next_event(a).unwrap()), "PlayerInfo");
    hub.acknowledge(a);
    assert!(hub.next_event(a).is_none());
}

#[test]
fn kind_labels_match_the_wire_protocol() {
    assert_eq!(kind_label(&Topics::ItemInformation(Vec::new())), "ItemInformation");
    assert_eq!(kind_label(&Topics::GoldInformation(Vec::new())), "GoldInformation");
    assert_eq!(kind_label(&Topics::PlayerInfo(Vec::new())), "PlayerInfo");
    assert_eq!(kind_label(&Topics::GameStart), "GameStart");
}

#[test]
fn worker_closes_when_peer_is_gone() {
    assert!(matches!(worker_decision(false, RecvOutcome::TimedOut), WorkerAction::Close));
    assert!(matches!(
        worker_decision(false, RecvOutcome::Received(Topics::GameStart)),
        WorkerAction::Close
    ));
}

#[test]
fn worker_keeps_waiting_on_timeout() {
    assert!(matches!(worker_decision(true, RecvOutcome::TimedOut), WorkerAction::KeepWaiting));
}

#[test]
fn worker_delivers_what_arrives() {
    match worker_decision(true, RecvOutcome::Received(Topics::GameStart)) {
        WorkerAction::Deliver(Topics::GameStart) => {},
        _ => panic!("a received event must be delivered"),
    }
}

#[test]
fn worker_closes_on_disconnect() {
    assert!(matches!(worker_decision(true, RecvOutcome::Disconnected), WorkerAction::Close));
}
