use cim_domain_location::envelope::{CimDomainEvent, MessageFactory};
use cim_domain_location::identity::{
    causal_depth, millis_since_epoch, validate_chain, ActorId, CausationId, CorrelationId, EventMetadata, IdentityError, MessageId,
    MessageIdentity,
};

#[derive(Clone)]
struct TestPayload {
    data: String,
}

#[test]
fn test_root_message_identity() {
    let identity = MessageIdentity::new_root();

    assert_eq!(identity.message_id.0, identity.correlation_id.0);
    assert_eq!(identity.correlation_id.0, identity.causation_id.0);
    assert!(identity.is_root());
    assert_eq!(identity.chain_depth(), 0);
    assert!(identity.validate().is_ok());
}

#[test]
fn test_caused_message_identity() {
    let root = MessageIdentity::new_root();
    let caused = MessageIdentity::new_caused_by(&root);

    assert_ne!(caused.message_id.0, root.message_id.0);
    assert_eq!(caused.correlation_id.0, root.correlation_id.0);
    assert_eq!(caused.causation_id.0, root.message_id.0);
    assert!(!caused.is_root());
    assert_eq!(caused.chain_depth(), 1);
    assert!(caused.validate().is_ok());
}

#[test]
fn test_event_metadata_creation() {
    let metadata = EventMetadata::new_root(Some(ActorId::system("location-service")));

    assert!(metadata.identity.is_root());
    assert!(metadata.actor.is_some());
    assert!(metadata.validate().is_ok());
}

#[test]
fn test_message_factory() {
    let payload = TestPayload { data: "test".to_string() };
    let root_msg = MessageFactory::create_root(payload.clone());

    assert!(root_msg.identity().is_root());
    assert_eq!(root_msg.payload.data, "test");

    let caused_msg = MessageFactory::create_caused_by(payload, root_msg.identity());

    assert!(!caused_msg.identity().is_root());
    assert_eq!(caused_msg.identity().correlation_id, root_msg.identity().correlation_id);
    assert_eq!(caused_msg.identity().causation_id.0, root_msg.identity().message_id.0);
}

#[test]
fn test_domain_event_creation() {
    let event = CimDomainEvent::new(
        "location-123".to_string(),
        1,
        "LocationDefined".to_string(),
        br#"{"name":"Test Location"}"#.to_vec(),
        None,
        Some(ActorId::user(uuid::Uuid::new_v4().as_u128())),
    );

    assert!(event.validate().is_ok());
    assert!(event.is_root_event());
    assert_eq!(event.aggregate_id, "location-123");
    assert_eq!(event.sequence, 1);
    assert_eq!(event.event_type, "LocationDefined");
}

#[test]
fn test_location_specific_actor_ids() {
    let user_id = uuid::Uuid::new_v4();
    let user_actor = ActorId::user(user_id.as_u128());
    let tracker_actor = ActorId::location_tracker("gps-tracker");
    let geocoder_actor = ActorId::geocoder("google-maps");

    assert_eq!(user_actor.to_string(), format!("user:{}", user_id));
    assert_eq!(tracker_actor.to_string(), "location-tracker:gps-tracker");
    assert_eq!(geocoder_actor.to_string(), "geocoder:google-maps");
}

#[test]
fn test_correlation_chain() {
    let root = MessageIdentity::new_root();
    let child1 = MessageIdentity::new_caused_by(&root);
    let child2 = MessageIdentity::new_caused_by(&child1);

    assert_eq!(root.correlation_id, child1.correlation_id);
    assert_eq!(child1.correlation_id, child2.correlation_id);

    assert_eq!(child1.causation_id.0, root.message_id.0);
    assert_eq!(child2.causation_id.0, child1.message_id.0);

    assert!(root.is_root());
    assert!(!child1.is_root());
    assert!(!child2.is_root());
}

#[test]
fn test_cim_message_to_domain_event() {
    let mut fields = serde_json::Map::new();
    fields.insert("name".to_string(), serde_json::Value::from("Test Location"));
    fields.insert("latitude".to_string(), serde_json::Value::from(37.7749));
    fields.insert("longitude".to_string(), serde_json::Value::from(-122.4194));
    let payload = serde_json::Value::Object(fields);

    let msg = MessageFactory::create_root_with_actor(
        payload.clone(),
        ActorId::system("location-service"),
    );
    let bytes = serde_json::to_vec(&msg.payload).unwrap();

    let domain_event = msg.to_domain_event(
        "location-aggregate".to_string(),
        1,
        "LocationDefined".to_string(),
        bytes,
    );

    assert_eq!(domain_event.aggregate_id, "location-aggregate");
    assert_eq!(domain_event.sequence, 1);
    assert_eq!(domain_event.event_type, "LocationDefined");
    let back: serde_json::Value = serde_json::from_slice(&domain_event.payload).unwrap();
    assert_eq!(back["name"], "Test Location");
    assert_eq!(back["latitude"], 37.7749);
    assert_eq!(back["longitude"], -122.4194);
    assert!(domain_event.validate().is_ok());
}

#[test]
fn root_identity_scenario_with_fixed_ids() {
    let r = MessageIdentity::root_with_id(MessageId::from_uuid(7));
    assert_eq!(r.message_id.0, 7);
    assert_eq!(r.correlation_id, CorrelationId(7));
    assert_eq!(r.causation_id, CausationId(7));

    let c1 = MessageIdentity::caused_with_id(&r, MessageId(8));
    assert_eq!(c1.correlation_id, r.correlation_id);
    assert_eq!(c1.causation_id.0, r.message_id.0);
    assert_ne!(c1.message_id, r.message_id);

    let c2 = MessageIdentity::caused_with_id(&c1, MessageId(9));
    assert_eq!(c2.correlation_id, r.correlation_id);
    assert_eq!(c2.causation_id.0, c1.message_id.0);
    assert!(r.is_root() && !c1.is_root() && !c2.is_root());
}

#[test]
fn malformed_identity_is_rejected() {
    let bad = MessageIdentity {
        message_id: MessageId(1),
        correlation_id: CorrelationId(2),
        causation_id: CausationId(1),
    };
    assert_eq!(
        bad.validate(),
        Err(IdentityError::InvalidIdentityStructure {
            message_id: 1,
            correlation_id: 2,
            causation_id: 1
        })
    );
    let caused = MessageIdentity {
        message_id: MessageId(3),
        correlation_id: CorrelationId(2),
        causation_id: CausationId(1),
    };
    assert_eq!(caused.validate(), Ok(()));
}

#[test]
fn future_timestamp_is_rejected() {
    let id = MessageIdentity::root_with_id(MessageId(5));
    let meta = EventMetadata::with_identity(id, 1_000_000 + 300_001, None);
    assert_eq!(
        meta.validate_at(1_000_000, 300_000),
        Err(IdentityError::FutureTimestamp { timestamp: 1_300_001, now: 1_000_000 })
    );
    let ok = EventMetadata::with_identity(id, 1_000_000 + 300_000, None);
    assert_eq!(ok.validate_at(1_000_000, 300_000), Ok(()));
    assert_eq!(ok.schema_version, "1.0");
}

#[test]
fn envelope_structural_errors() {
    let id = MessageIdentity::root_with_id(MessageId(5));
    let meta = EventMetadata::with_identity(id, 10, None);
    let mut e = CimDomainEvent::new(String::new(), 1, "LocationDefined".to_string(), vec![], None, None);
    e.metadata = meta;
    assert_eq!(e.validate_at(10, 300_000), Err(IdentityError::EmptyAggregateId));
    e.aggregate_id = "loc".to_string();
    e.event_type = String::new();
    assert_eq!(e.validate_at(10, 300_000), Err(IdentityError::EmptyEventType));
    e.event_type = "LocationDefined".to_string();
    assert_eq!(e.validate_at(10, 300_000), Ok(()));
}

#[test]
fn identifier_text_is_hyphenated_uuid() {
    let u = uuid::Uuid::new_v4();
    assert_eq!(MessageId(u.as_u128()).to_string(), u.to_string());
    assert_eq!(
        MessageId(0x0123_4567_89ab_cdef_0011_2233_4455_6677).to_string(),
        "01234567-89ab-cdef-0011-223344556677"
    );
}

#[test]
fn causal_chains_are_checked() {
    let r = MessageIdentity::root_with_id(MessageId(1));
    let c1 = MessageIdentity::caused_with_id(&r, MessageId(2));
    let c2 = MessageIdentity::caused_with_id(&c1, MessageId(3));
    assert_eq!(validate_chain(&vec![r, c1, c2]), Ok(()));
    assert_eq!(validate_chain(&vec![]), Ok(()));

    let back = MessageIdentity::caused_with_id(&c2, MessageId(1));
    assert_eq!(validate_chain(&vec![r, c1, c2, back]), Err(IdentityError::CausationCycle));

    assert_eq!(
        validate_chain(&vec![c1]),
        Err(IdentityError::InvalidIdentityStructure { message_id: 2, correlation_id: 1, causation_id: 1 })
    );
    assert_eq!(
        validate_chain(&vec![r, c2]),
        Err(IdentityError::InvalidIdentityStructure { message_id: 3, correlation_id: 1, causation_id: 2 })
    );
}

#[test]
fn caused_identity_never_repeats_parent_id() {
    assert_eq!(MessageIdentity::distinct_from(MessageId(5), MessageId(5)), MessageId(6));
    assert_eq!(MessageIdentity::distinct_from(MessageId(u128::MAX), MessageId(u128::MAX)), MessageId(0));
    assert_eq!(MessageIdentity::distinct_from(MessageId(4), MessageId(5)), MessageId(4));

    let root = MessageIdentity::new_root();
    let child = MessageIdentity::new_caused_by(&root);
    assert_ne!(child.message_id, root.message_id);
    let meta = EventMetadata::new_caused_by(&child, None);
    assert_ne!(meta.identity.message_id, child.message_id);

    assert_eq!(millis_since_epoch(true, 1_500), 1_500);
    assert_eq!(millis_since_epoch(false, 1_500), -1_500);
    assert_eq!(millis_since_epoch(true, u128::MAX), i64::MAX);
    assert_eq!(millis_since_epoch(false, u128::MAX), -i64::MAX);

    let r = MessageIdentity::root_with_id(MessageId(1));
    let c1 = MessageIdentity::caused_with_id(&r, MessageId(2));
    let c2 = MessageIdentity::caused_with_id(&c1, MessageId(3));
    let chain = vec![r, c1, c2];
    assert_eq!(causal_depth(&chain, MessageId(1)), Some(0));
    assert_eq!(causal_depth(&chain, MessageId(3)), Some(2));
    assert_eq!(causal_depth(&chain, MessageId(9)), None);
}
