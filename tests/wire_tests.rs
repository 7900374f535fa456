use cim_domain_location::envelope::{check_continuation, derive_routing_keys, CimDomainEvent};
use cim_domain_location::identity::{ActorId, EventMetadata, MessageId, MessageIdentity};
use cim_domain_location::repository::RepositoryError;
use cim_domain_location::wire::{decode_envelope, encode_envelope};

fn envelope(seq: u64, actor: Option<ActorId>, payload: &[u8]) -> CimDomainEvent {
    let root = MessageIdentity::root_with_id(MessageId(0xabcdef));
    let id = MessageIdentity::caused_with_id(&root, MessageId(0x123456));
    let mut e = CimDomainEvent::new(
        "loc-1".to_string(),
        seq,
        "LocationDefined".to_string(),
        payload.to_vec(),
        None,
        actor.clone(),
    );
    e.metadata = EventMetadata::with_identity(id, -5_000, actor);
    e
}

#[test]
fn envelope_round_trips_through_wire_form() {
    let e = envelope(3, Some(ActorId::system("location-service")), br#"{"name":"HQ"}"#)
        .with_cid(vec![1, 2, 3], Some(vec![]));
    let bytes = encode_envelope(&e);
    let d = decode_envelope(&bytes).unwrap();
    assert_eq!(d.aggregate_id, e.aggregate_id);
    assert_eq!(d.sequence, 3);
    assert_eq!(d.event_type, e.event_type);
    assert_eq!(d.metadata.identity, e.metadata.identity);
    assert_eq!(d.metadata.timestamp, -5_000);
    assert_eq!(d.metadata.actor, e.metadata.actor);
    assert_eq!(d.metadata.schema_version, "1.0");
    assert_eq!(d.payload, e.payload);
    assert_eq!(d.event_cid, Some(vec![1, 2, 3]));
    assert_eq!(d.previous_cid, Some(vec![]));
}

#[test]
fn user_actor_round_trips() {
    let e = envelope(1, Some(ActorId::user(77)), b"");
    let d = decode_envelope(&encode_envelope(&e)).unwrap();
    assert_eq!(d.metadata.actor, Some(ActorId::User(77)));
    assert_eq!(d.event_cid, None);
}

#[test]
fn malformed_wire_form_is_rejected() {
    let bytes = encode_envelope(&envelope(1, None, b"x"));
    assert!(decode_envelope(&bytes[..bytes.len() - 1]).is_none());
    assert!(decode_envelope(&[1, 2, 3]).is_none());
    assert!(decode_envelope(&[]).is_none());
}

#[test]
fn routing_keys_per_aggregate_and_user() {
    let plain = derive_routing_keys(&envelope(1, None, b"a"));
    assert_eq!(plain, vec!["events.location.loc-1.LocationDefined".to_string()]);
    let by_user = derive_routing_keys(&envelope(1, Some(ActorId::user(1)), b"a"));
    assert_eq!(
        by_user,
        vec![
            "events.location.loc-1.LocationDefined".to_string(),
            "events.location.user.00000000-0000-0000-0000-000000000001.LocationDefined.loc-1".to_string(),
        ]
    );
    let other_payload = derive_routing_keys(&envelope(9, Some(ActorId::user(1)), b"different"));
    assert_eq!(by_user, other_payload);
}

#[test]
fn batch_must_continue_history() {
    let batch = vec![envelope(4, None, b""), envelope(5, None, b"")];
    assert!(check_continuation("loc-1", 3, &batch).is_ok());
    assert_eq!(
        check_continuation("loc-1", 2, &batch),
        Err(RepositoryError::SequenceMismatch { expected: 3, found: 4 })
    );
    let gap = vec![envelope(4, None, b""), envelope(6, None, b"")];
    assert_eq!(
        check_continuation("loc-1", 3, &gap),
        Err(RepositoryError::SequenceMismatch { expected: 5, found: 6 })
    );
}
