//! Events of the location aggregate, and the subject each one is stored under.
use vstd::prelude::*;
use crate::identity::{uuid_text, uuid_text_of};
use crate::value_objects::{Address, GeoCoordinates, LocationType};
use crate::virtual_location::VirtualLocation;

verus! {

/// A location was defined: the first event of every location's history.
#[derive(Clone, Debug)]
pub struct LocationDefined {
    pub location_id: u128,
    pub name: String,
    pub location_type: LocationType,
    pub address: Option<Address>,
    pub coordinates: Option<GeoCoordinates>,
    pub virtual_location: Option<VirtualLocation>,
    pub parent_id: Option<u128>,
}

/// Location details changed; each new value that is present replaces the old one.
#[derive(Clone, Debug)]
pub struct LocationUpdated {
    pub location_id: u128,
    pub previous_name: Option<String>,
    pub name: Option<String>,
    pub previous_address: Option<Address>,
    pub address: Option<Address>,
    pub previous_coordinates: Option<GeoCoordinates>,
    pub coordinates: Option<GeoCoordinates>,
    pub previous_virtual_location: Option<VirtualLocation>,
    pub virtual_location: Option<VirtualLocation>,
    pub reason: String,
}

/// A parent location was set.
#[derive(Clone, Debug)]
pub struct ParentLocationSet {
    pub location_id: u128,
    pub parent_id: u128,
    pub previous_parent_id: Option<u128>,
    pub reason: String,
}

/// The parent was removed; the location is top-level.
#[derive(Clone, Debug)]
pub struct ParentLocationRemoved {
    pub location_id: u128,
    pub previous_parent_id: u128,
    pub reason: String,
}

/// Metadata entries were added, in this order.
#[derive(Clone, Debug)]
pub struct LocationMetadataAdded {
    pub location_id: u128,
    pub added_metadata: Vec<(String, String)>,
    /// All metadata after the addition.
    pub current_metadata: Vec<(String, String)>,
    pub reason: String,
}

/// The location was archived (its end of life; history is kept).
#[derive(Clone, Debug)]
pub struct LocationArchived {
    pub location_id: u128,
    pub name: String,
    pub location_type: LocationType,
    pub reason: String,
}

/// The closed set of events of a location.
#[derive(Clone, Debug)]
pub enum LocationDomainEvent {
    LocationDefined(LocationDefined),
    LocationUpdated(LocationUpdated),
    ParentLocationSet(ParentLocationSet),
    ParentLocationRemoved(ParentLocationRemoved),
    LocationMetadataAdded(LocationMetadataAdded),
    LocationArchived(LocationArchived),
}

impl LocationDefined {
    pub fn aggregate_id(&self) -> (r: u128)
        ensures
            r == self.location_id,
    {
        self.location_id
    }

    pub fn location_id(&self) -> (r: u128)
        ensures
            r == self.location_id,
    {
        self.location_id
    }

    pub fn event_type(&self) -> (r: &'static str)
        ensures
            r@ == "LocationDefined"@,
    {
        "LocationDefined"
    }

    /// The event's domain subject: `location.{location_id}.defined`.
    pub fn subject(&self) -> (r: String)
        ensures
            r@ == "location."@ + uuid_text_of(self.location_id) + ".defined"@,
    {
        String::from_str("location.").concat(uuid_text(self.location_id).as_str()).concat(".defined")
    }
}

impl LocationUpdated {
    pub fn aggregate_id(&self) -> (r: u128)
        ensures
            r == self.location_id,
    {
        self.location_id
    }

    pub fn location_id(&self) -> (r: u128)
        ensures
            r == self.location_id,
    {
        self.location_id
    }

    pub fn event_type(&self) -> (r: &'static str)
        ensures
            r@ == "LocationUpdated"@,
    {
        "LocationUpdated"
    }

    /// The event's domain subject: `location.{location_id}.updated`.
    pub fn subject(&self) -> (r: String)
        ensures
            r@ == "location."@ + uuid_text_of(self.location_id) + ".updated"@,
    {
        String::from_str("location.").concat(uuid_text(self.location_id).as_str()).concat(".updated")
    }
}

impl ParentLocationSet {
    pub fn aggregate_id(&self) -> (r: u128)
        ensures
            r == self.location_id,
    {
        self.location_id
    }

    pub fn location_id(&self) -> (r: u128)
        ensures
            r == self.location_id,
    {
        self.location_id
    }

    pub fn event_type(&self) -> (r: &'static str)
        ensures
            r@ == "ParentLocationSet"@,
    {
        "ParentLocationSet"
    }

    /// The event's domain subject: `location.{location_id}.parent_set`.
    pub fn subject(&self) -> (r: String)
        ensures
            r@ == "location."@ + uuid_text_of(self.location_id) + ".parent_set"@,
    {
        String::from_str("location.").concat(uuid_text(self.location_id).as_str()).concat(".parent_set")
    }
}

impl ParentLocationRemoved {
    pub fn aggregate_id(&self) -> (r: u128)
        ensures
            r == self.location_id,
    {
        self.location_id
    }

    pub fn location_id(&self) -> (r: u128)
        ensures
            r == self.location_id,
    {
        self.location_id
    }

    pub fn event_type(&self) -> (r: &'static str)
        ensures
            r@ == "ParentLocationRemoved"@,
    {
        "ParentLocationRemoved"
    }

    /// The event's domain subject: `location.{location_id}.parent_removed`.
    pub fn subject(&self) -> (r: String)
        ensures
            r@ == "location."@ + uuid_text_of(self.location_id) + ".parent_removed"@,
    {
        String::from_str("location.").concat(uuid_text(self.location_id).as_str()).concat(".parent_removed")
    }
}

impl LocationMetadataAdded {
    pub fn aggregate_id(&self) -> (r: u128)
        ensures
            r == self.location_id,
    {
        self.location_id
    }

    pub fn location_id(&self) -> (r: u128)
        ensures
            r == self.location_id,
    {
        self.location_id
    }

    pub fn event_type(&self) -> (r: &'static str)
        ensures
            r@ == "LocationMetadataAdded"@,
    {
        "LocationMetadataAdded"
    }

    /// The event's domain subject: `location.{location_id}.metadata_added`.
    pub fn subject(&self) -> (r: String)
        ensures
            r@ == "location."@ + uuid_text_of(self.location_id) + ".metadata_added"@,
    {
        String::from_str("location.").concat(uuid_text(self.location_id).as_str()).concat(".metadata_added")
    }
}

impl LocationArchived {
    pub fn aggregate_id(&self) -> (r: u128)
        ensures
            r == self.location_id,
    {
        self.location_id
    }

    pub fn location_id(&self) -> (r: u128)
        ensures
            r == self.location_id,
    {
        self.location_id
    }

    pub fn event_type(&self) -> (r: &'static str)
        ensures
            r@ == "LocationArchived"@,
    {
        "LocationArchived"
    }

    /// The event's domain subject: `location.{location_id}.archived`.
    pub fn subject(&self) -> (r: String)
        ensures
            r@ == "location."@ + uuid_text_of(self.location_id) + ".archived"@,
    {
        String::from_str("location.").concat(uuid_text(self.location_id).as_str()).concat(".archived")
    }
}

impl LocationDomainEvent {
    /// The location the event belongs to.
    pub open spec fn spec_aggregate_id(self) -> u128 {
        match self {
            LocationDomainEvent::LocationDefined(e) => e.location_id,
            LocationDomainEvent::LocationUpdated(e) => e.location_id,
            LocationDomainEvent::ParentLocationSet(e) => e.location_id,
            LocationDomainEvent::ParentLocationRemoved(e) => e.location_id,
            LocationDomainEvent::LocationMetadataAdded(e) => e.location_id,
            LocationDomainEvent::LocationArchived(e) => e.location_id,
        }
    }

    /// The name of the event type.
    pub open spec fn event_type_name(self) -> Seq<char> {
        match self {
            LocationDomainEvent::LocationDefined(_) => "LocationDefined"@,
            LocationDomainEvent::LocationUpdated(_) => "LocationUpdated"@,
            LocationDomainEvent::ParentLocationSet(_) => "ParentLocationSet"@,
            LocationDomainEvent::ParentLocationRemoved(_) => "ParentLocationRemoved"@,
            LocationDomainEvent::LocationMetadataAdded(_) => "LocationMetadataAdded"@,
            LocationDomainEvent::LocationArchived(_) => "LocationArchived"@,
        }
    }

    /// The trailing segments of the event's published subject.
    pub open spec fn subject_suffix(self) -> Seq<char> {
        match self {
            LocationDomainEvent::LocationDefined(_) => "defined"@,
            LocationDomainEvent::LocationUpdated(_) => "updated"@,
            LocationDomainEvent::ParentLocationSet(_) => "parent.set"@,
            LocationDomainEvent::ParentLocationRemoved(_) => "parent.removed"@,
            LocationDomainEvent::LocationMetadataAdded(_) => "metadata.added"@,
            LocationDomainEvent::LocationArchived(_) => "archived"@,
        }
    }

    /// The last segment of the subject the event is stored under.
    pub open spec fn storage_suffix(self) -> Seq<char> {
        match self {
            LocationDomainEvent::LocationDefined(_) => "defined"@,
            LocationDomainEvent::LocationUpdated(_) => "updated"@,
            LocationDomainEvent::ParentLocationSet(_) => "parent_set"@,
            LocationDomainEvent::ParentLocationRemoved(_) => "parent_removed"@,
            LocationDomainEvent::LocationMetadataAdded(_) => "metadata_added"@,
            LocationDomainEvent::LocationArchived(_) => "archived"@,
        }
    }

    pub fn aggregate_id(&self) -> (r: u128)
        ensures
            r == self.spec_aggregate_id(),
    {
        match self {
            LocationDomainEvent::LocationDefined(e) => e.location_id,
            LocationDomainEvent::LocationUpdated(e) => e.location_id,
            LocationDomainEvent::ParentLocationSet(e) => e.location_id,
            LocationDomainEvent::ParentLocationRemoved(e) => e.location_id,
            LocationDomainEvent::LocationMetadataAdded(e) => e.location_id,
            LocationDomainEvent::LocationArchived(e) => e.location_id,
        }
    }

    pub fn event_type(&self) -> (r: &'static str)
        ensures
            r@ == self.event_type_name(),
    {
        match self {
            LocationDomainEvent::LocationDefined(e) => e.event_type(),
            LocationDomainEvent::LocationUpdated(e) => e.event_type(),
            LocationDomainEvent::ParentLocationSet(e) => e.event_type(),
            LocationDomainEvent::ParentLocationRemoved(e) => e.event_type(),
            LocationDomainEvent::LocationMetadataAdded(e) => e.event_type(),
            LocationDomainEvent::LocationArchived(e) => e.event_type(),
        }
    }

    fn subject_suffix_str(&self) -> (r: &'static str)
        ensures
            r@ == self.subject_suffix(),
    {
        match self {
            LocationDomainEvent::LocationDefined(_) => "defined",
            LocationDomainEvent::LocationUpdated(_) => "updated",
            LocationDomainEvent::ParentLocationSet(_) => "parent.set",
            LocationDomainEvent::ParentLocationRemoved(_) => "parent.removed",
            LocationDomainEvent::LocationMetadataAdded(_) => "metadata.added",
            LocationDomainEvent::LocationArchived(_) => "archived",
        }
    }

    fn storage_suffix_str(&self) -> (r: &'static str)
        ensures
            r@ == self.storage_suffix(),
    {
        match self {
            LocationDomainEvent::LocationDefined(_) => "defined",
            LocationDomainEvent::LocationUpdated(_) => "updated",
            LocationDomainEvent::ParentLocationSet(_) => "parent_set",
            LocationDomainEvent::ParentLocationRemoved(_) => "parent_removed",
            LocationDomainEvent::LocationMetadataAdded(_) => "metadata_added",
            LocationDomainEvent::LocationArchived(_) => "archived",
        }
    }

    /// The event's domain subject: `location.{location_id}.{type}`.
    pub fn subject(&self) -> (r: String)
        ensures
            r@ == "location."@ + uuid_text_of(self.spec_aggregate_id()) + "."@ + self.storage_suffix(),
    {
        String::from_str("location.").concat(uuid_text(self.aggregate_id()).as_str()).concat(
            ".",
        ).concat(self.storage_suffix_str())
    }

    /// The subject the event is appended to in the event log:
    /// `events.location.{location_id}.{type}`.
    pub fn storage_subject(&self) -> (r: String)
        ensures
            r@ == "events.location."@ + uuid_text_of(self.spec_aggregate_id()) + "."@
                + self.storage_suffix(),
    {
        String::from_str("events.location.").concat(uuid_text(self.aggregate_id()).as_str()).concat(
            ".",
        ).concat(self.storage_suffix_str())
    }
}

/// The subject an event is published under: `events.location.{location_id}.{type}`.
pub fn event_to_subject(event: &LocationDomainEvent) -> (r: String)
    ensures
        r@ == "events.location."@ + uuid_text_of(event.spec_aggregate_id()) + "."@
            + event.subject_suffix(),
{
    String::from_str("events.location.").concat(uuid_text(event.aggregate_id()).as_str()).concat(
        ".",
    ).concat(event.subject_suffix_str())
}

} // verus!
