use chrono::Utc;
use uuid::Uuid;

use stellar_tipjar::cqrs::commands::{Command, CommandResult};
use stellar_tipjar::cqrs::projections::{projection_for, ProjectionStatement, TRUNCATE_READ_MODEL};
use stellar_tipjar::events::replay::Replayer;
use stellar_tipjar::events::types::Event;
use stellar_tipjar::identity::UtcTimestamp;

fn now() -> UtcTimestamp {
    let t = Utc::now();
    UtcTimestamp { secs: t.timestamp(), subsec_nanos: t.timestamp_subsec_nanos() }
}

fn creator_event() -> Event {
    Event::CreatorRegistered {
        id: Uuid::nil(),
        username: "alice".into(),
        wallet_address: "GABC".into(),
        timestamp: now(),
    }
}

fn tip(id: u128, creator: Uuid, amount: &str) -> Event {
    Event::TipReceived {
        id: Uuid::from_u128(id),
        creator_id: creator,
        amount: amount.into(),
        transaction_hash: format!("HASH{id}"),
        timestamp: UtcTimestamp { secs: id as i64, subsec_nanos: 0 },
    }
}

fn amounts(es: &[Event]) -> Vec<String> {
    es.iter()
        .map(|e| match e {
            Event::TipReceived { amount, .. } => amount.clone(),
            Event::CreatorRegistered { username, .. } => username.clone(),
        })
        .collect()
}

#[test]
fn test_event_type_label() {
    assert_eq!(creator_event().event_type(), "creator_registered");
}

#[test]
fn test_aggregate_id() {
    assert_eq!(creator_event().aggregate_id(), Uuid::nil());
}

#[test]
fn tip_event_accessors() {
    let creator = Uuid::from_u128(7);
    let e = tip(3, creator, "1.5");
    assert_eq!(e.event_type(), "tip_received");
    assert_eq!(e.aggregate_id(), creator);
    assert_eq!(e.timestamp(), UtcTimestamp { secs: 3, subsec_nanos: 0 });
}

#[test]
fn replay_uses_all_stored_events_when_cap_reaches_them() {
    let a = Uuid::from_u128(1);
    let stored = vec![tip(1, a, "s1"), tip(2, a, "s2")];
    let replayed = vec![tip(3, a, "r1")];
    let es = Replayer::new(&()).events_at(stored, replayed, a, 2);
    assert_eq!(amounts(&es), vec!["s1", "s2"]);
}

#[test]
fn replay_caps_the_creators_events_in_order() {
    let a = Uuid::from_u128(1);
    let b = Uuid::from_u128(2);
    let stored = vec![tip(1, a, "s1"), tip(2, a, "s2"), tip(3, a, "s3")];
    let replayed = vec![tip(4, b, "b1"), tip(5, a, "a1"), tip(6, b, "b2"), tip(7, a, "a2"), tip(8, a, "a3")];
    let es = Replayer::new(&()).events_at(stored, replayed, a, 2);
    assert_eq!(amounts(&es), vec!["a1", "a2"]);
}

#[test]
fn replay_with_non_positive_cap_is_empty() {
    let a = Uuid::from_u128(1);
    let es = Replayer::new(&()).events_at(vec![tip(1, a, "s1")], vec![tip(2, a, "a1")], a, 0);
    assert!(es.is_empty());
    let es = Replayer::new(&()).events_at(vec![tip(1, a, "s1")], vec![tip(2, a, "a1")], a, -3);
    assert!(es.is_empty());
}

#[test]
fn replayer_holds_its_store() {
    let store = vec![1, 2, 3];
    let r = Replayer::new(&store);
    assert_eq!(r.event_store().len(), 3);
}

#[test]
fn projection_statements() {
    let st = projection_for(creator_event());
    assert!(st.sql().starts_with("INSERT INTO creator_read_model"));
    match st {
        ProjectionStatement::RegisterCreator { id, username, wallet_address, .. } => {
            assert_eq!(id, Uuid::nil());
            assert_eq!(username, "alice");
            assert_eq!(wallet_address, "GABC");
        }
        _ => panic!("expected a registration"),
    }
    let creator = Uuid::from_u128(9);
    let st = projection_for(tip(1, creator, "2"));
    assert_eq!(st.sql(), "UPDATE creator_read_model SET tip_count = tip_count + 1 WHERE id = $1");
    assert!(matches!(st, ProjectionStatement::CountTip { creator_id } if creator_id == creator));
    assert_eq!(TRUNCATE_READ_MODEL, "TRUNCATE creator_read_model");
}

#[test]
fn commands_carry_their_fields() {
    let c = Command::RecordTip {
        creator_username: "bob".into(),
        amount: "5".into(),
        transaction_hash: "H".into(),
    };
    assert!(matches!(c, Command::RecordTip { ref amount, .. } if amount == "5"));
    let r = CommandResult::TipRecorded { id: Uuid::nil() };
    assert!(matches!(r, CommandResult::TipRecorded { id } if id.is_nil()));
}
