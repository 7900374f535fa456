use cim_domain_location::events::{
    event_to_subject, LocationArchived, LocationDefined, LocationDomainEvent, LocationMetadataAdded,
    LocationUpdated, ParentLocationRemoved, ParentLocationSet,
};
use cim_domain_location::repository::{
    create_from_defined_event, reconstruct, LocationRepository, MissingDetails, RepositoryError,
};
use cim_domain_location::value_objects::{Address, DomainError, GeoCoordinates, LocationType, ValidationRule};

const ID: u128 = 0x1111_2222_3333_4444_5555_6666_7777_8888;

fn s(x: &str) -> String {
    x.to_string()
}

fn defined() -> LocationDomainEvent {
    LocationDomainEvent::LocationDefined(LocationDefined {
        location_id: ID,
        name: s("HQ"),
        location_type: LocationType::Physical,
        address: Some(Address::new(s("1 Main St"), s("Springfield"), s("IL"), s("USA"), s("62701"))),
        coordinates: None,
        virtual_location: None,
        parent_id: None,
    })
}

fn updated(name: &str) -> LocationDomainEvent {
    LocationDomainEvent::LocationUpdated(LocationUpdated {
        location_id: ID,
        previous_name: None,
        name: Some(s(name)),
        previous_address: None,
        address: None,
        previous_coordinates: None,
        coordinates: None,
        previous_virtual_location: None,
        virtual_location: None,
        reason: s("rename"),
    })
}

#[test]
fn defined_then_two_updates_reflects_both() {
    let mut second = updated("ignored");
    if let LocationDomainEvent::LocationUpdated(u) = &mut second {
        u.name = None;
        u.coordinates = Some(GeoCoordinates::new(1_000_000, 2_000_000));
    }
    let loc = reconstruct(vec![defined(), updated("HQ North"), second]).unwrap().unwrap();
    assert_eq!(loc.name, "HQ North");
    assert_eq!(loc.coordinates, Some(GeoCoordinates::new(1_000_000, 2_000_000)));
    assert_eq!(loc.version, 3);
    assert_eq!(loc.id, ID);
}

#[test]
fn update_without_definition_is_invalid_sequence() {
    assert_eq!(
        reconstruct(vec![updated("x")]).unwrap_err(),
        RepositoryError::InvalidEventSequence
    );
}

#[test]
fn empty_history_is_no_location() {
    assert!(reconstruct(Vec::new()).unwrap().is_none());
}

#[test]
fn replay_twice_gives_equal_states() {
    let a = reconstruct(vec![defined(), updated("A"), updated("B")]).unwrap().unwrap();
    let b = reconstruct(vec![defined(), updated("A"), updated("B")]).unwrap().unwrap();
    assert_eq!(a.name, b.name);
    assert_eq!(a.version, b.version);
    assert_eq!(a.address, b.address);
    assert_eq!(a.metadata, b.metadata);
    assert_eq!(a.archived, b.archived);
}

#[test]
fn full_lifecycle_replays() {
    let events = vec![
        defined(),
        LocationDomainEvent::ParentLocationSet(ParentLocationSet {
            location_id: ID,
            parent_id: 42,
            previous_parent_id: None,
            reason: s("org"),
        }),
        LocationDomainEvent::LocationMetadataAdded(LocationMetadataAdded {
            location_id: ID,
            added_metadata: vec![(s("floor"), s("3")), (s("wifi"), s("yes"))],
            current_metadata: vec![],
            reason: s("info"),
        }),
        LocationDomainEvent::ParentLocationRemoved(ParentLocationRemoved {
            location_id: ID,
            previous_parent_id: 42,
            reason: s("org"),
        }),
        LocationDomainEvent::LocationArchived(LocationArchived {
            location_id: ID,
            name: s("HQ"),
            location_type: LocationType::Physical,
            reason: s("closed"),
        }),
    ];
    let loc = LocationRepository::new().load(events).unwrap().unwrap();
    assert!(loc.archived);
    assert_eq!(loc.parent_id, None);
    assert_eq!(loc.metadata, vec![(s("floor"), s("3")), (s("wifi"), s("yes"))]);
    assert_eq!(loc.version, 5);
}

#[test]
fn rejected_event_aborts_replay() {
    let archived = LocationDomainEvent::LocationArchived(LocationArchived {
        location_id: ID,
        name: s("HQ"),
        location_type: LocationType::Physical,
        reason: s("closed"),
    });
    let again = LocationDomainEvent::LocationArchived(LocationArchived {
        location_id: ID,
        name: s("HQ"),
        location_type: LocationType::Physical,
        reason: s("closed"),
    });
    assert_eq!(
        reconstruct(vec![defined(), archived, again]).unwrap_err(),
        RepositoryError::EventApplicationFailed(DomainError::ValidationError(
            ValidationRule::AlreadyArchived
        ))
    );
    assert_eq!(
        reconstruct(vec![defined(), defined()]).unwrap_err(),
        RepositoryError::EventApplicationFailed(DomainError::AlreadyDefined)
    );
    let mut foreign = updated("x");
    if let LocationDomainEvent::LocationUpdated(u) = &mut foreign {
        u.location_id = 9;
    }
    assert_eq!(
        reconstruct(vec![defined(), foreign]).unwrap_err(),
        RepositoryError::EventApplicationFailed(DomainError::AggregateMismatch { expected: ID, found: 9 })
    );
    let own_parent = LocationDomainEvent::ParentLocationSet(ParentLocationSet {
        location_id: ID,
        parent_id: ID,
        previous_parent_id: None,
        reason: s("loop"),
    });
    assert_eq!(
        reconstruct(vec![defined(), own_parent]).unwrap_err(),
        RepositoryError::EventApplicationFailed(DomainError::ValidationError(ValidationRule::OwnParent))
    );
}

#[test]
fn defining_event_requirements() {
    let bare = LocationDefined {
        location_id: ID,
        name: s("Nowhere"),
        location_type: LocationType::Logical,
        address: None,
        coordinates: None,
        virtual_location: None,
        parent_id: Some(7),
    };
    assert_eq!(
        create_from_defined_event(bare.clone()).unwrap_err(),
        RepositoryError::InvalidEvent(MissingDetails::AddressOrCoordinates)
    );
    let mut virt = bare.clone();
    virt.location_type = LocationType::Virtual;
    assert_eq!(
        create_from_defined_event(virt).unwrap_err(),
        RepositoryError::InvalidEvent(MissingDetails::VirtualLocation)
    );
    let mut bad = bare.clone();
    bad.coordinates = Some(GeoCoordinates::new(0, 190_000_000));
    assert_eq!(
        create_from_defined_event(bad).unwrap_err(),
        RepositoryError::AggregateCreationFailed(DomainError::ValidationError(
            ValidationRule::LongitudeOutOfRange
        ))
    );
    let mut virt_placed = bare.clone();
    virt_placed.location_type = LocationType::Virtual;
    virt_placed.virtual_location = Some(
        cim_domain_location::virtual_location::VirtualLocation::cloud_service(s("AWS"), s("eu"), s("i-1"))
            .unwrap(),
    );
    virt_placed.coordinates = Some(GeoCoordinates::new(0, 0));
    assert_eq!(
        create_from_defined_event(virt_placed).unwrap_err(),
        RepositoryError::AggregateCreationFailed(DomainError::ValidationError(
            ValidationRule::CoordinatesOnVirtualLocation
        ))
    );
    let mut good = bare;
    good.coordinates = Some(GeoCoordinates::new(0, 0));
    let loc = create_from_defined_event(good).unwrap();
    assert_eq!(loc.location_type, LocationType::Logical);
    assert_eq!(loc.parent_id, Some(7));
    assert_eq!(loc.version, 1);
}

#[test]
fn event_subjects() {
    let e = defined();
    assert_eq!(e.event_type(), "LocationDefined");
    assert_eq!(e.aggregate_id(), ID);
    assert_eq!(
        event_to_subject(&e),
        "events.location.11112222-3333-4444-5555-666677778888.defined"
    );
    let p = LocationDomainEvent::ParentLocationSet(ParentLocationSet {
        location_id: ID,
        parent_id: 1,
        previous_parent_id: None,
        reason: s("r"),
    });
    assert_eq!(
        event_to_subject(&p),
        "events.location.11112222-3333-4444-5555-666677778888.parent.set"
    );
    assert_eq!(
        p.storage_subject(),
        "events.location.11112222-3333-4444-5555-666677778888.parent_set"
    );
}

#[test]
fn snapshot_policy() {
    let r = LocationRepository::new();
    assert_eq!(r.snapshot_frequency(), 100);
    assert!(!r.snapshot_due(99));
    assert!(r.snapshot_due(100));
    let never = r.with_snapshot_frequency(0);
    assert!(!never.snapshot_due(1_000_000));
}
