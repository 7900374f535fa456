use cim_domain_location::location::Location;
use cim_domain_location::value_objects::{
    Address, BoundingBox, DomainError, GeoCoordinates, LocationType, ValidationRule,
};
use cim_domain_location::virtual_location::{
    UrlType, VirtualLocation, VirtualLocationType, VirtualUrl,
};

fn s(x: &str) -> String {
    x.to_string()
}

fn new_id() -> u128 {
    uuid::Uuid::new_v4().as_u128()
}

fn meta(l: &Location, k: &str) -> Option<String> {
    l.get_metadata().iter().find(|(key, _)| key == k).map(|(_, v)| v.clone())
}

#[test]
fn location_test_address_validation() {
    let valid_address = Address::new(s("123 Main St"), s("Springfield"), s("IL"), s("USA"), s("62701"));
    assert!(valid_address.validate().is_ok());

    let invalid_address = Address::new(s(""), s("Springfield"), s("IL"), s("USA"), s("62701"));
    assert!(invalid_address.validate().is_err());

    let invalid_locality = Address::new(s("123 Main St"), s(""), s("IL"), s("USA"), s("62701"));
    assert!(invalid_locality.validate().is_err());

    let invalid_region = Address::new(s("123 Main St"), s("Springfield"), s(""), s("USA"), s("62701"));
    assert!(invalid_region.validate().is_err());

    let invalid_country = Address::new(s("123 Main St"), s("Springfield"), s("IL"), s(""), s("62701"));
    assert!(invalid_country.validate().is_err());

    let invalid_postal = Address::new(s("123 Main St"), s("Springfield"), s("IL"), s("USA"), s(""));
    assert!(invalid_postal.validate().is_err());
}

#[test]
fn test_address_with_street2() {
    let address = Address::new(s("123 Main St"), s("Springfield"), s("IL"), s("USA"), s("62701"))
        .with_street2(s("Apt 4B"));

    assert_eq!(address.street2, Some(s("Apt 4B")));

    let formatted = address.format_single_line();
    assert!(formatted.contains("123 Main St"));
    assert!(formatted.contains("Apt 4B"));
    assert!(formatted.contains("Springfield, IL 62701"));
    assert!(formatted.contains("USA"));
}

#[test]
fn address_formats_exactly() {
    let a = Address::new(s("1 Elm"), s("Town"), s("ST"), s("Land"), s("123"));
    assert_eq!(a.format_single_line(), "1 Elm, Town, ST 123, Land");
    let b = a.with_street2(s("Unit 2"));
    assert_eq!(b.format_multi_line(), "1 Elm\nUnit 2\nTown, ST 123\nLand");
    let blank = Address::new(s("  \t"), s("Town"), s("ST"), s("Land"), s("123"));
    assert_eq!(
        blank.validate(),
        Err(DomainError::ValidationError(ValidationRule::StreetAddressEmpty))
    );
}

#[test]
fn test_geo_coordinates_validation() {
    let valid_coords = GeoCoordinates::new(40_712_800, -74_006_000);
    assert!(valid_coords.validate().is_ok());

    assert!(GeoCoordinates::new(90_000_000, 0).validate().is_ok());
    assert!(GeoCoordinates::new(-90_000_000, 0).validate().is_ok());
    assert!(GeoCoordinates::new(0, 180_000_000).validate().is_ok());
    assert!(GeoCoordinates::new(0, -180_000_000).validate().is_ok());

    assert!(GeoCoordinates::new(91_000_000, -74_006_000).validate().is_err());
    assert!(GeoCoordinates::new(-91_000_000, -74_006_000).validate().is_err());
    assert!(GeoCoordinates::new(40_712_800, -181_000_000).validate().is_err());
    assert!(GeoCoordinates::new(40_712_800, 181_000_000).validate().is_err());
    assert_eq!(
        GeoCoordinates::new(90_000_001, 0).validate(),
        Err(DomainError::ValidationError(ValidationRule::LatitudeOutOfRange))
    );
}

#[test]
fn test_coordinates_with_altitude() {
    let coords = GeoCoordinates::new(40_712_800, -74_006_000)
        .with_altitude(100_500)
        .with_coordinate_system(s("NAD83"));

    assert_eq!(coords.altitude, Some(100_500));
    assert_eq!(coords.coordinate_system, "NAD83");
}

#[test]
fn test_location_creation() {
    let location_id = new_id();
    let address = Address::new(s("1 Infinite Loop"), s("Cupertino"), s("CA"), s("USA"), s("95014"));

    let location = Location::new_physical(location_id, s("Apple Park"), address.clone()).unwrap();

    assert_eq!(location.name, "Apple Park");
    assert_eq!(location.location_type, LocationType::Physical);
    assert_eq!(location.address, Some(address));
    assert!(location.coordinates.is_none());
    assert!(location.virtual_location.is_none());
    assert!(!location.archived);
    assert_eq!(location.version, 0);
}

#[test]
fn test_virtual_location_creation() {
    let location_id = new_id();

    let virtual_loc = VirtualLocation {
        location_type: VirtualLocationType::MeetingRoom { platform: s("Zoom") },
        primary_identifier: s("meeting-123"),
        urls: vec![VirtualUrl::new(s("https://zoom.us/j/123"), UrlType::Primary).unwrap()],
        ip_addresses: Vec::new(),
        network_info: None,
        metadata: vec![(s("passcode"), s("abc123"))],
    };

    let location = Location::new_virtual(location_id, s("Team Standup Room"), virtual_loc.clone()).unwrap();

    assert_eq!(location.name, "Team Standup Room");
    assert_eq!(location.location_type, LocationType::Virtual);
    assert!(location.address.is_none());
    assert!(location.coordinates.is_none());
    assert_eq!(location.virtual_location, Some(virtual_loc));
}

#[test]
fn test_location_from_coordinates() {
    let coords = GeoCoordinates::new(37_774_900, -122_419_400);

    let location = Location::new_from_coordinates(new_id(), s("Golden Gate Bridge"), coords.clone()).unwrap();

    assert_eq!(location.name, "Golden Gate Bridge");
    assert_eq!(location.location_type, LocationType::Physical);
    assert!(location.address.is_none());
    assert_eq!(location.coordinates, Some(coords));
}

#[test]
fn test_location_updates() {
    let mut location = Location::new_from_coordinates(new_id(), s("Test Location"), GeoCoordinates::new(0, 0)).unwrap();

    location.update_details(Some(s("Updated Location")), None, None, None).unwrap();
    assert_eq!(location.name, "Updated Location");

    let address = Address::new(s("456 Oak Ave"), s("Oakland"), s("CA"), s("USA"), s("94612"));
    location.update_details(None, Some(address.clone()), None, None).unwrap();
    assert_eq!(location.address, Some(address));
}

#[test]
fn test_location_hierarchy() {
    let parent_id = new_id();
    let child_id = new_id();

    let mut child_location = Location::new_physical(
        child_id,
        s("Conference Room A"),
        Address::new(s("123 Main St"), s("City"), s("State"), s("Country"), s("12345")),
    )
    .unwrap();

    child_location.set_parent(parent_id).unwrap();
    assert_eq!(child_location.parent_id, Some(parent_id));

    child_location.remove_parent().unwrap();
    assert_eq!(child_location.parent_id, None);

    let result = child_location.set_parent(child_id);
    assert!(result.is_err());
}

#[test]
fn test_metadata_operations() {
    let mut location = Location::new_physical(
        new_id(),
        s("Office"),
        Address::new(s("789 Tech Blvd"), s("Tech City"), s("TC"), s("Techland"), s("00000")),
    )
    .unwrap();

    location.add_metadata(s("capacity"), s("50"));
    assert_eq!(meta(&location, "capacity"), Some(s("50")));

    let bulk_metadata = vec![
        (s("wifi"), s("available")),
        (s("parking"), s("free")),
        (s("accessibility"), s("wheelchair")),
    ];
    location.add_metadata_bulk(bulk_metadata);

    assert_eq!(location.metadata.len(), 4);
    assert_eq!(meta(&location, "wifi"), Some(s("available")));
    assert_eq!(meta(&location, "parking"), Some(s("free")));
    assert_eq!(meta(&location, "accessibility"), Some(s("wheelchair")));
}

#[test]
fn metadata_key_is_replaced_in_place() {
    let mut location = Location::new_from_coordinates(1, s("X"), GeoCoordinates::new(0, 0)).unwrap();
    location.add_metadata(s("a"), s("1"));
    location.add_metadata(s("b"), s("2"));
    location.add_metadata(s("a"), s("3"));
    assert_eq!(location.metadata, vec![(s("a"), s("3")), (s("b"), s("2"))]);
}

#[test]
fn test_location_archival() {
    let mut location = Location::new_physical(
        new_id(),
        s("Old Office"),
        Address::new(s("999 Legacy Lane"), s("History Town"), s("HT"), s("Pastland"), s("99999")),
    )
    .unwrap();

    assert!(!location.is_archived());
    location.archive().unwrap();
    assert!(location.is_archived());

    let result = location.archive();
    assert!(result.is_err());

    let result = location.update_details(Some(s("New Name")), None, None, None);
    assert!(result.is_err());

    let result = location.remove_parent();
    assert!(result.is_err());
}

#[test]
fn test_virtual_location_constraints() {
    let mut location = Location::new_virtual(
        new_id(),
        s("Virtual Meeting"),
        VirtualLocation {
            location_type: VirtualLocationType::MeetingRoom { platform: s("Teams") },
            primary_identifier: s("meeting-456"),
            urls: Vec::new(),
            ip_addresses: Vec::new(),
            network_info: None,
            metadata: Vec::new(),
        },
    )
    .unwrap();

    let address = Address::new(s("123 Main St"), s("City"), s("State"), s("Country"), s("12345"));
    let result = location.set_address(address);
    assert!(result.is_err());

    let result = location.set_coordinates(GeoCoordinates::new(0, 0));
    assert!(result.is_err());
    assert_eq!(
        result,
        Err(DomainError::ValidationError(ValidationRule::CoordinatesOnVirtualLocation))
    );
}

#[test]
fn test_aggregate_root_implementation() {
    let location_id = new_id();
    let mut location = Location::new_physical(
        location_id,
        s("Test"),
        Address::new(s("1 Test St"), s("Test City"), s("TS"), s("Testland"), s("00000")),
    )
    .unwrap();

    assert_eq!(location.id(), location_id);
    assert_eq!(location.version(), 0);

    location.increment_version();
    assert_eq!(location.version(), 1);

    location.increment_version();
    assert_eq!(location.version(), 2);
}

#[test]
fn test_l1_define_physical_location() {
    let address = Address::new(
        s("1600 Pennsylvania Avenue NW"),
        s("Washington"),
        s("DC"),
        s("USA"),
        s("20500"),
    );

    let location = Location::new_physical(new_id(), s("White House"), address.clone()).unwrap();

    assert_eq!(location.name, "White House");
    assert_eq!(location.location_type, LocationType::Physical);
    assert_eq!(location.address, Some(address));
    assert!(!location.is_archived());
}

#[test]
fn test_l2_define_virtual_location() {
    let virtual_location = VirtualLocation {
        location_type: VirtualLocationType::MeetingRoom { platform: s("Zoom") },
        primary_identifier: s("123-456-789"),
        urls: vec![VirtualUrl::new(s("https://zoom.us/j/123456789"), UrlType::Primary).unwrap()],
        ip_addresses: Vec::new(),
        network_info: None,
        metadata: Vec::new(),
    };

    let location = Location::new_virtual(new_id(), s("Daily Standup"), virtual_location.clone()).unwrap();

    assert_eq!(location.name, "Daily Standup");
    assert_eq!(location.location_type, LocationType::Virtual);
    assert_eq!(location.virtual_location, Some(virtual_location));
}

#[test]
fn test_l3_geographic_calculations() {
    let nyc = GeoCoordinates::new(40_712_800, -74_006_000);
    assert!(nyc.validate().is_ok());

    let la = GeoCoordinates::new(34_052_200, -118_243_700);
    assert!(la.validate().is_ok());

    let invalid_lat = GeoCoordinates::new(91_000_000, -74_006_000);
    assert!(invalid_lat.validate().is_err());

    let invalid_lon = GeoCoordinates::new(40_712_800, -181_000_000);
    assert!(invalid_lon.validate().is_err());
}

#[test]
fn test_l4_location_hierarchy() {
    let parent_id = new_id();
    let child_id = new_id();

    let _parent = Location::new_physical(
        parent_id,
        s("Main Building"),
        Address::new(s("1 Main St"), s("Springfield"), s("IL"), s("USA"), s("62701")),
    )
    .unwrap();

    let mut child = Location::new_physical(
        child_id,
        s("Suite 100"),
        Address::new(s("1 Main St, Suite 100"), s("Springfield"), s("IL"), s("USA"), s("62701")),
    )
    .unwrap();

    child.set_parent(parent_id).unwrap();
    assert_eq!(child.parent_id, Some(parent_id));

    child.remove_parent().unwrap();
    assert_eq!(child.parent_id, None);
}

#[test]
fn test_l5_metadata_management() {
    let mut location =
        Location::new_from_coordinates(new_id(), s("Test Location"), GeoCoordinates::new(37_774_900, -122_419_400))
            .unwrap();

    location.add_metadata(s("building_code"), s("B-123"));
    assert_eq!(meta(&location, "building_code"), Some(s("B-123")));

    let bulk_metadata = vec![(s("floor"), s("3")), (s("capacity"), s("50"))];
    location.add_metadata_bulk(bulk_metadata);

    assert_eq!(meta(&location, "floor"), Some(s("3")));
    assert_eq!(meta(&location, "capacity"), Some(s("50")));
    assert_eq!(location.get_metadata().len(), 3);
}

#[test]
fn test_l6_location_archiving() {
    let mut location =
        Location::new_from_coordinates(new_id(), s("Test Location"), GeoCoordinates::new(40_712_800, -74_006_000))
            .unwrap();

    assert!(!location.is_archived());
    location.archive().unwrap();
    assert!(location.is_archived());
    assert!(location.archive().is_err());

    let new_coords = GeoCoordinates::new(34_052_200, -118_243_700);
    assert!(location
        .update_details(Some(s("New Name")), None, Some(new_coords), None)
        .is_err());
}

#[test]
fn location_type_attributes() {
    assert!(LocationType::Hybrid.can_have_physical_attributes());
    assert!(LocationType::Hybrid.can_have_virtual_attributes());
    assert!(!LocationType::Virtual.can_have_physical_attributes());
    assert!(!LocationType::Logical.can_have_virtual_attributes());
    assert_eq!(LocationType::Logical.to_string(), "Logical");
}

#[test]
fn test_website_creation() {
    let website = VirtualLocation::website("https://example.com", s("Example Website")).unwrap();

    assert_eq!(website.location_type, VirtualLocationType::Website);
    assert_eq!(website.primary_identifier, "example.com");
    assert_eq!(website.primary_url(), Some("https://example.com"));
}

#[test]
fn test_url_validation() {
    let url = VirtualUrl::new(s("https://api.example.com/v1"), UrlType::Api).unwrap();

    assert!(url.is_secure());
    assert_eq!(url.domain(), Some(s("api.example.com")));
}

#[test]
fn invalid_url_is_rejected() {
    assert_eq!(
        VirtualUrl::new(s("not a url"), UrlType::Api),
        Err(DomainError::ValidationError(ValidationRule::InvalidUrl))
    );
    let plain = VirtualUrl::new(s("http://example.com"), UrlType::Primary).unwrap();
    assert!(!plain.is_secure());
}

#[test]
fn test_cloud_service_location() {
    let cloud = VirtualLocation::cloud_service(s("AWS"), s("us-east-1"), s("i-1234567890abcdef0")).unwrap();

    match cloud.location_type {
        VirtualLocationType::CloudService { provider, region } => {
            assert_eq!(provider, "AWS");
            assert_eq!(region, "us-east-1");
        }
        _ => panic!("Wrong location type"),
    }
}

#[test]
fn primary_url_prefers_lowest_priority_then_first() {
    let mut v = VirtualLocation::api_endpoint("https://api.example.com", s("api")).unwrap();
    assert_eq!(v.primary_url(), None);
    let mut a = VirtualUrl::new(s("https://a.example.com"), UrlType::Primary).unwrap();
    a.priority = 5;
    let mut b = VirtualUrl::new(s("https://b.example.com"), UrlType::Primary).unwrap();
    b.priority = 2;
    let mut c = VirtualUrl::new(s("https://c.example.com"), UrlType::Primary).unwrap();
    c.priority = 2;
    v.add_url(a).unwrap();
    v.add_url(b).unwrap();
    v.add_url(c).unwrap();
    assert_eq!(v.primary_url(), Some("https://b.example.com"));
}

#[test]
fn bounding_box_contains_and_center() {
    let b = BoundingBox { min_lat: -3, max_lat: 4, min_lon: -10, max_lon: -5 };
    assert!(b.contains(&GeoCoordinates::new(4, -5)));
    assert!(!b.contains(&GeoCoordinates::new(5, -5)));
    let c = b.center();
    assert_eq!((c.latitude, c.longitude), (0, -8));
    assert_eq!(c.coordinate_system, "WGS84");
}
