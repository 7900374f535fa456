use cim_domain_location::events::{
    LocationArchived, LocationDefined, LocationMetadataAdded, LocationUpdated,
    ParentLocationRemoved, ParentLocationSet,
};
use cim_domain_location::value_objects::{Address, LocationType};
use cim_domain_location::virtual_location::VirtualLocation;

fn s(x: &str) -> String {
    x.to_string()
}

#[test]
fn test_location_defined_event() {
    let uuid = uuid::Uuid::new_v4();
    let location_id = uuid.as_u128();
    let address = Address::new(s("123 Main St"), s("City"), s("State"), s("Country"), s("12345"));

    let event = LocationDefined {
        location_id,
        name: s("Test Location"),
        location_type: LocationType::Physical,
        address: Some(address.clone()),
        coordinates: None,
        virtual_location: None,
        parent_id: None,
    };

    assert_eq!(event.location_id(), location_id);
    assert_eq!(event.aggregate_id(), location_id);
    assert_eq!(event.event_type(), "LocationDefined");
    assert_eq!(event.subject(), format!("location.{uuid}.defined"));
    assert_eq!(event.name, "Test Location");
    assert_eq!(event.address, Some(address));
}

#[test]
fn test_location_updated_event() {
    let uuid = uuid::Uuid::new_v4();
    let location_id = uuid.as_u128();
    let old_address = Address::new(s("123 Main St"), s("Old City"), s("OS"), s("Country"), s("11111"));
    let new_address = Address::new(s("456 Oak Ave"), s("New City"), s("NS"), s("Country"), s("22222"));

    let event = LocationUpdated {
        location_id,
        previous_name: Some(s("Old Name")),
        name: Some(s("New Name")),
        previous_address: Some(old_address),
        address: Some(new_address),
        previous_coordinates: None,
        coordinates: None,
        previous_virtual_location: None,
        virtual_location: None,
        reason: s("Office relocation"),
    };

    assert_eq!(event.location_id(), location_id);
    assert_eq!(event.aggregate_id(), location_id);
    assert_eq!(event.event_type(), "LocationUpdated");
    assert_eq!(event.subject(), format!("location.{uuid}.updated"));
    assert_eq!(event.reason, "Office relocation");
}

#[test]
fn test_parent_location_set_event() {
    let uuid = uuid::Uuid::new_v4();
    let location_id = uuid.as_u128();
    let parent_id = uuid::Uuid::new_v4().as_u128();
    let previous_parent_id = uuid::Uuid::new_v4().as_u128();

    let event = ParentLocationSet {
        location_id,
        parent_id,
        previous_parent_id: Some(previous_parent_id),
        reason: s("Organizational restructure"),
    };

    assert_eq!(event.location_id(), location_id);
    assert_eq!(event.aggregate_id(), location_id);
    assert_eq!(event.event_type(), "ParentLocationSet");
    assert_eq!(event.subject(), format!("location.{uuid}.parent_set"));
    assert_eq!(event.parent_id, parent_id);
    assert_eq!(event.previous_parent_id, Some(previous_parent_id));
}

#[test]
fn test_parent_location_removed_event() {
    let uuid = uuid::Uuid::new_v4();
    let location_id = uuid.as_u128();
    let previous_parent_id = uuid::Uuid::new_v4().as_u128();

    let event = ParentLocationRemoved {
        location_id,
        previous_parent_id,
        reason: s("Made independent location"),
    };

    assert_eq!(event.location_id(), location_id);
    assert_eq!(event.aggregate_id(), location_id);
    assert_eq!(event.event_type(), "ParentLocationRemoved");
    assert_eq!(event.subject(), format!("location.{uuid}.parent_removed"));
    assert_eq!(event.previous_parent_id, previous_parent_id);
}

#[test]
fn test_location_metadata_added_event() {
    let uuid = uuid::Uuid::new_v4();
    let location_id = uuid.as_u128();
    let added_metadata = vec![(s("capacity"), s("100")), (s("wifi"), s("available"))];
    let current_metadata = vec![
        (s("capacity"), s("100")),
        (s("wifi"), s("available")),
        (s("parking"), s("free")),
    ];

    let event = LocationMetadataAdded {
        location_id,
        added_metadata: added_metadata.clone(),
        current_metadata: current_metadata.clone(),
        reason: s("Added facility information"),
    };

    assert_eq!(event.location_id(), location_id);
    assert_eq!(event.aggregate_id(), location_id);
    assert_eq!(event.event_type(), "LocationMetadataAdded");
    assert_eq!(event.subject(), format!("location.{uuid}.metadata_added"));
    assert_eq!(event.added_metadata.len(), 2);
    assert_eq!(event.current_metadata.len(), 3);
}

#[test]
fn test_location_archived_event() {
    let uuid = uuid::Uuid::new_v4();
    let location_id = uuid.as_u128();

    let event = LocationArchived {
        location_id,
        name: s("Old Office"),
        location_type: LocationType::Physical,
        reason: s("Office closed permanently"),
    };

    assert_eq!(event.location_id(), location_id);
    assert_eq!(event.aggregate_id(), location_id);
    assert_eq!(event.event_type(), "LocationArchived");
    assert_eq!(event.subject(), format!("location.{uuid}.archived"));
    assert_eq!(event.name, "Old Office");
    assert_eq!(event.location_type, LocationType::Physical);
}

#[test]
fn test_virtual_location_event() {
    let location_id = uuid::Uuid::new_v4().as_u128();
    let virtual_loc =
        VirtualLocation::website("https://discord.gg/abc123", s("Community Voice Channel")).unwrap();

    let event = LocationDefined {
        location_id,
        name: s("Community Voice Channel"),
        location_type: LocationType::Virtual,
        address: None,
        coordinates: None,
        virtual_location: Some(virtual_loc.clone()),
        parent_id: None,
    };

    assert_eq!(event.location_type, LocationType::Virtual);
    assert!(event.address.is_none());
    assert!(event.coordinates.is_none());
    assert_eq!(event.virtual_location, Some(virtual_loc));
}
