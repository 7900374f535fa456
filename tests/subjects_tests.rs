use cim_domain_location::subjects::{
    micro_degrees_string,
    CommandType, EventType, LocationAggregate, LocationSubject, QueryType, SubjectBuilder,
    SubjectError, SubjectNamespace, SubjectOperation, SubjectPatterns, SubjectScope,
};

#[test]
fn test_location_subject_creation() {
    let location_id = uuid::Uuid::new_v4();
    let subject = LocationSubject::event(
        LocationAggregate::Location,
        EventType::Defined,
        location_id.to_string(),
    );

    assert_eq!(subject.namespace, SubjectNamespace::Events);
    assert!(matches!(subject.scope, SubjectScope::Aggregate(LocationAggregate::Location)));
    assert!(matches!(subject.operation, SubjectOperation::Event(EventType::Defined)));
    assert_eq!(subject.entity_id, Some(location_id.to_string()));
}

#[test]
fn test_subject_to_string() {
    let location_id = uuid::Uuid::new_v4();
    let subject = LocationSubject::event(
        LocationAggregate::Location,
        EventType::Defined,
        location_id.to_string(),
    );

    let subject_str = subject.to_subject();
    assert_eq!(subject_str, format!("events.location.location.defined.{}", location_id));
}

#[test]
fn test_user_subject() {
    let user_id = uuid::Uuid::new_v4();
    let subject = LocationSubject::user_event(
        user_id.as_u128(),
        EventType::CheckedIn,
        Some(LocationAggregate::History),
    );

    let subject_str = subject.to_subject();
    assert_eq!(subject_str, format!("events.location.user.{}.history.checked_in", user_id));
}

#[test]
fn test_hierarchy_subject() {
    let parent_id = uuid::Uuid::new_v4();
    let child_id = uuid::Uuid::new_v4();
    let subject = LocationSubject::hierarchy_event(
        parent_id.as_u128(),
        child_id.as_u128(),
        EventType::ChildAdded,
    );

    let subject_str = subject.to_subject();
    assert_eq!(
        subject_str,
        format!("events.location.hierarchy.{}.child.{}.child_added", parent_id, child_id)
    );
}

#[test]
fn test_subject_builder() {
    let location_id = uuid::Uuid::new_v4();

    let subject = SubjectBuilder::new()
        .namespace(SubjectNamespace::Commands)
        .aggregate(LocationAggregate::Location)
        .operation(SubjectOperation::Command(CommandType::Update))
        .location_id(location_id.as_u128())
        .build()
        .unwrap();

    assert_eq!(subject.namespace, SubjectNamespace::Commands);
    assert!(matches!(subject.scope, SubjectScope::Aggregate(LocationAggregate::Location)));
    assert!(matches!(subject.operation, SubjectOperation::Command(CommandType::Update)));
    assert_eq!(subject.entity_id, Some(location_id.to_string()));
}

#[test]
fn test_wildcard_patterns() {
    let subject = LocationSubject::event(
        LocationAggregate::Location,
        EventType::Defined,
        "loc123".to_string(),
    );

    let wildcard = subject.wildcard_pattern();
    assert_eq!(wildcard, "events.location.location.defined.>");
}

#[test]
fn test_predefined_patterns() {
    let location_id = uuid::Uuid::new_v4();
    let user_id = uuid::Uuid::new_v4();

    assert_eq!(SubjectPatterns::all_location_events(), "events.location.>");
    assert_eq!(SubjectPatterns::address_events(), "events.location.address.>");
    assert_eq!(
        SubjectPatterns::location_events(location_id.as_u128()),
        format!("events.location.location.*.{}", location_id)
    );
    assert_eq!(
        SubjectPatterns::user_events(user_id.as_u128()),
        format!("events.location.user.{}.>", user_id)
    );
    assert_eq!(
        SubjectPatterns::coordinate_events(37_774_900, -122_419_400),
        "events.location.coordinates.37.774900.-122.419400.>"
    );
}

#[test]
fn test_coordinate_subject() {
    let subject = LocationSubject::coordinate_event(
        37_774_900,
        -122_419_400,
        EventType::LocationMoved,
        Some(LocationAggregate::Coordinates),
    );

    let subject_str = subject.to_subject();
    assert_eq!(subject_str, "events.location.coordinates.37.774900.-122.419400.coordinates.location_moved");
}

#[test]
fn micro_degree_text_edges() {
    assert_eq!(micro_degrees_string(0), "0.000000");
    assert_eq!(micro_degrees_string(-5), "-0.000005");
    assert_eq!(micro_degrees_string(180_000_000), "180.000000");
    assert_eq!(micro_degrees_string(i64::MIN), "-9223372036854.775808");
    let b = SubjectBuilder::new()
        .namespace(SubjectNamespace::Events)
        .coordinate_scope(1_500_000, -2_000_001, None)
        .operation(SubjectOperation::Event(EventType::Indexed))
        .build()
        .unwrap();
    assert_eq!(b.to_subject(), "events.location.coordinates.1.500000.-2.000001.indexed");
    assert_eq!(SubjectPatterns::geographic_area_events(0, 1, 2, 3), "events.location.coordinates.*.*.>");
}

#[test]
fn test_subject_builder_validation() {
    let result = SubjectBuilder::new().aggregate(LocationAggregate::Location).build();

    assert!(result.is_err());
    assert!(matches!(result.unwrap_err(), SubjectError::MissingNamespace));

    let result2 = SubjectBuilder::new().namespace(SubjectNamespace::Events).build();

    assert!(result2.is_err());
    assert!(matches!(result2.unwrap_err(), SubjectError::MissingScope));
}

#[test]
fn test_all_event_types_have_string_representation() {
    let event_types = vec![
        EventType::Defined,
        EventType::Updated,
        EventType::Archived,
        EventType::AddressUpdated,
        EventType::CoordinatesUpdated,
        EventType::ParentSet,
        EventType::MetadataAdded,
        EventType::CheckedIn,
        EventType::RegionCreated,
    ];

    for event_type in event_types {
        let str_repr = event_type.as_str();
        assert!(!str_repr.is_empty());
        assert!(!str_repr.contains(' '));
        assert!(!str_repr.contains('.'));
    }
}

#[test]
fn test_all_command_types_have_string_representation() {
    let command_types = vec![
        CommandType::Define,
        CommandType::Update,
        CommandType::Archive,
        CommandType::UpdateAddress,
        CommandType::UpdateCoordinates,
        CommandType::SetParent,
        CommandType::AddMetadata,
        CommandType::CheckIn,
        CommandType::CreateRegion,
    ];

    for command_type in command_types {
        let str_repr = command_type.as_str();
        assert!(!str_repr.is_empty());
        assert!(!str_repr.contains(' '));
        assert!(!str_repr.contains('.'));
    }
}

#[test]
fn test_subject_uniqueness() {
    let location_id_1 = uuid::Uuid::new_v4();
    let location_id_2 = uuid::Uuid::new_v4();

    let subject_1 = LocationSubject::event(
        LocationAggregate::Location,
        EventType::Defined,
        location_id_1.to_string(),
    );
    let subject_2 = LocationSubject::event(
        LocationAggregate::Location,
        EventType::Defined,
        location_id_2.to_string(),
    );

    assert_ne!(subject_1.to_subject(), subject_2.to_subject());
}

#[test]
fn missing_operation_is_reported() {
    let r = SubjectBuilder::new()
        .namespace(SubjectNamespace::Queries)
        .aggregate(LocationAggregate::Search)
        .build();
    assert_eq!(r.unwrap_err(), SubjectError::MissingOperation);
}

#[test]
fn query_subject_without_entity_uses_single_level_wildcard() {
    let s = LocationSubject::query(LocationAggregate::Search, QueryType::FindNearby, None);
    assert_eq!(s.to_subject(), "queries.location.search.find_nearby");
    assert_eq!(s.wildcard_pattern(), "queries.location.search.find_nearby.*");
}

#[test]
fn compound_scopes_render_in_order() {
    let region = LocationSubject::new(
        SubjectNamespace::Events,
        SubjectScope::RegionUser { region_id: "r1".to_string(), user_id: "u1".to_string() },
        SubjectOperation::Event(EventType::Shared),
        Some("e1".to_string()),
    );
    assert_eq!(region.to_subject(), "events.location.region.r1.user.u1.shared.e1");
    let coords = LocationSubject::new(
        SubjectNamespace::Events,
        SubjectScope::Coordinates {
            latitude: "37.774900".to_string(),
            longitude: "-122.419400".to_string(),
            aggregate: Some(LocationAggregate::Coordinates),
        },
        SubjectOperation::Event(EventType::LocationMoved),
        None,
    );
    assert_eq!(
        coords.to_subject(),
        "events.location.coordinates.37.774900.-122.419400.coordinates.location_moved"
    );
    let user_loc = SubjectBuilder::new()
        .namespace(SubjectNamespace::Events)
        .user_location_scope(1, 2)
        .operation(SubjectOperation::Event(EventType::CheckedOut))
        .build()
        .unwrap();
    assert_eq!(
        user_loc.to_subject(),
        "events.location.user.00000000-0000-0000-0000-000000000001.location.00000000-0000-0000-0000-000000000002.checked_out"
    );
}

#[test]
fn pattern_texts() {
    assert_eq!(SubjectPatterns::checkin_events(), "events.location.history.{checked_in,checked_out}");
    assert_eq!(SubjectPatterns::search_queries(), "queries.location.search.*");
    assert_eq!(
        SubjectPatterns::hierarchy_relationship_events(1, 2),
        "events.location.hierarchy.00000000-0000-0000-0000-000000000001.child.00000000-0000-0000-0000-000000000002.>"
    );
    assert_eq!(
        SubjectPatterns::region_location_events(255),
        "events.location.region.00000000-0000-0000-0000-0000000000ff.location.*"
    );
    assert_eq!(QueryType::GetAccessList.as_str(), "get_access_list");
    assert_eq!(
        SubjectOperation::Query(QueryType::ReverseGeocode).as_str(),
        "reverse_geocode"
    );
}
