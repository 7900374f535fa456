//! Subject algebra of the location domain: the hierarchical routing keys
//! `{namespace}.location.{scope}.{operation}[.{entity_id}]` under which
//! messages are published and subscribed to.
//!
//! A scope is either a plain aggregate, or a compound view over the same
//! message: per user, per region, per coordinate cell, per user and location,
//! per region and user, or per hierarchy edge.
use vstd::prelude::*;
use crate::identity::{hex_digit, uuid_text, uuid_text_of};

verus! {

/// Kind of message a subject carries.
#[derive(Clone, Copy, Debug, PartialEq, Eq, Hash, Structural)]
pub enum SubjectNamespace {
    /// Domain-internal operations
    Domain,
    /// Event publications (past tense)
    Events,
    /// Command requests (imperative)
    Commands,
    /// Query requests (interrogative)
    Queries,
    /// Cross-domain integration
    Integration,
}

impl SubjectNamespace {
    /// The subject segment of this value.
    pub open spec fn text(self) -> Seq<char> {
        match self {
            SubjectNamespace::Domain => "domain"@,
            SubjectNamespace::Events => "events"@,
            SubjectNamespace::Commands => "commands"@,
            SubjectNamespace::Queries => "queries"@,
            SubjectNamespace::Integration => "integration"@,
        }
    }

    pub fn as_str(&self) -> (r: &'static str)
        ensures
            r@ == self.text(),
    {
        match self {
            SubjectNamespace::Domain => "domain",
            SubjectNamespace::Events => "events",
            SubjectNamespace::Commands => "commands",
            SubjectNamespace::Queries => "queries",
            SubjectNamespace::Integration => "integration",
        }
    }
}

/// The domain segment of every subject.
#[derive(Clone, Copy, Debug, PartialEq, Eq, Hash, Structural)]
pub enum LocationDomain {
    Location,
}

impl LocationDomain {
    /// The subject segment of this value.
    pub open spec fn text(self) -> Seq<char> {
        match self {
            LocationDomain::Location => "location"@,
        }
    }

    pub fn as_str(&self) -> (r: &'static str)
        ensures
            r@ == self.text(),
    {
        match self {
            LocationDomain::Location => "location",
        }
    }
}

/// Aggregates of the location domain.
#[derive(Clone, Copy, Debug, PartialEq, Eq, Hash, Structural)]
pub enum LocationAggregate {
    /// Core location aggregate
    Location,
    /// Physical addresses
    Address,
    /// Geographic coordinates
    Coordinates,
    /// Virtual locations (URLs, platforms)
    Virtual,
    /// Location hierarchies and relationships
    Hierarchy,
    /// Location metadata and attributes
    Metadata,
    /// Location-based regions and boundaries
    Region,
    /// Location access and permissions
    Access,
    /// Location history and tracking
    History,
    /// Location search and indexing
    Search,
}

impl LocationAggregate {
    /// The subject segment of this value.
    pub open spec fn text(self) -> Seq<char> {
        match self {
            LocationAggregate::Location => "location"@,
            LocationAggregate::Address => "address"@,
            LocationAggregate::Coordinates => "coordinates"@,
            LocationAggregate::Virtual => "virtual"@,
            LocationAggregate::Hierarchy => "hierarchy"@,
            LocationAggregate::Metadata => "metadata"@,
            LocationAggregate::Region => "region"@,
            LocationAggregate::Access => "access"@,
            LocationAggregate::History => "history"@,
            LocationAggregate::Search => "search"@,
        }
    }

    pub fn as_str(&self) -> (r: &'static str)
        ensures
            r@ == self.text(),
    {
        match self {
            LocationAggregate::Location => "location",
            LocationAggregate::Address => "address",
            LocationAggregate::Coordinates => "coordinates",
            LocationAggregate::Virtual => "virtual",
            LocationAggregate::Hierarchy => "hierarchy",
            LocationAggregate::Metadata => "metadata",
            LocationAggregate::Region => "region",
            LocationAggregate::Access => "access",
            LocationAggregate::History => "history",
            LocationAggregate::Search => "search",
        }
    }
}

/// Event types of the location domain (past tense: things that happened).
#[derive(Clone, Copy, Debug, PartialEq, Eq, Hash, Structural)]
pub enum EventType {
    // Core location events
    Defined,
    Updated,
    Archived,
    Restored,
    Deleted,

    // Address events
    AddressUpdated,
    AddressValidated,
    AddressGeocoded,

    // Coordinate events
    CoordinatesUpdated,
    CoordinatesValidated,
    LocationMoved,

    // Hierarchy events
    ParentSet,
    ParentRemoved,
    ChildAdded,
    ChildRemoved,
    HierarchyReorganized,

    // Metadata events
    MetadataAdded,
    MetadataUpdated,
    MetadataRemoved,
    Tagged,
    Categorized,

    // Virtual location events
    VirtualLocationCreated,
    VirtualLocationUpdated,
    PlatformChanged,
    UrlUpdated,

    // Region events
    RegionCreated,
    RegionUpdated,
    BoundaryChanged,
    RegionMerged,
    RegionSplit,

    // Access events
    AccessGranted,
    AccessRevoked,
    PermissionChanged,
    Shared,

    // History events
    VisitRecorded,
    CheckedIn,
    CheckedOut,
    TrackingStarted,
    TrackingStopped,

    // Search events
    Indexed,
    SearchPerformed,
    NearbySearched,

    // Verification events
    Verified,
    VerificationFailed,

    // Integration events
    ExternalSystemLinked,
    ExternalSystemUnlinked,
    DataSynchronized,
}

impl EventType {
    /// The subject segment of this value.
    pub open spec fn text(self) -> Seq<char> {
        match self {
            EventType::Defined => "defined"@,
            EventType::Updated => "updated"@,
            EventType::Archived => "archived"@,
            EventType::Restored => "restored"@,
            EventType::Deleted => "deleted"@,
            EventType::AddressUpdated => "address_updated"@,
            EventType::AddressValidated => "address_validated"@,
            EventType::AddressGeocoded => "address_geocoded"@,
            EventType::CoordinatesUpdated => "coordinates_updated"@,
            EventType::CoordinatesValidated => "coordinates_validated"@,
            EventType::LocationMoved => "location_moved"@,
            EventType::ParentSet => "parent_set"@,
            EventType::ParentRemoved => "parent_removed"@,
            EventType::ChildAdded => "child_added"@,
            EventType::ChildRemoved => "child_removed"@,
            EventType::HierarchyReorganized => "hierarchy_reorganized"@,
            EventType::MetadataAdded => "metadata_added"@,
            EventType::MetadataUpdated => "metadata_updated"@,
            EventType::MetadataRemoved => "metadata_removed"@,
            EventType::Tagged => "tagged"@,
            EventType::Categorized => "categorized"@,
            EventType::VirtualLocationCreated => "virtual_location_created"@,
            EventType::VirtualLocationUpdated => "virtual_location_updated"@,
            EventType::PlatformChanged => "platform_changed"@,
            EventType::UrlUpdated => "url_updated"@,
            EventType::RegionCreated => "region_created"@,
            EventType::RegionUpdated => "region_updated"@,
            EventType::BoundaryChanged => "boundary_changed"@,
            EventType::RegionMerged => "region_merged"@,
            EventType::RegionSplit => "region_split"@,
            EventType::AccessGranted => "access_granted"@,
            EventType::AccessRevoked => "access_revoked"@,
            EventType::PermissionChanged => "permission_changed"@,
            EventType::Shared => "shared"@,
            EventType::VisitRecorded => "visit_recorded"@,
            EventType::CheckedIn => "checked_in"@,
            EventType::CheckedOut => "checked_out"@,
            EventType::TrackingStarted => "tracking_started"@,
            EventType::TrackingStopped => "tracking_stopped"@,
            EventType::Indexed => "indexed"@,
            EventType::SearchPerformed => "search_performed"@,
            EventType::NearbySearched => "nearby_searched"@,
            EventType::Verified => "verified"@,
            EventType::VerificationFailed => "verification_failed"@,
            EventType::ExternalSystemLinked => "external_system_linked"@,
            EventType::ExternalSystemUnlinked => "external_system_unlinked"@,
            EventType::DataSynchronized => "data_synchronized"@,
        }
    }

    pub fn as_str(&self) -> (r: &'static str)
        ensures
            r@ == self.text(),
    {
        match self {
            EventType::Defined => "defined",
            EventType::Updated => "updated",
            EventType::Archived => "archived",
            EventType::Restored => "restored",
            EventType::Deleted => "deleted",
            EventType::AddressUpdated => "address_updated",
            EventType::AddressValidated => "address_validated",
            EventType::AddressGeocoded => "address_geocoded",
            EventType::CoordinatesUpdated => "coordinates_updated",
            EventType::CoordinatesValidated => "coordinates_validated",
            EventType::LocationMoved => "location_moved",
            EventType::ParentSet => "parent_set",
            EventType::ParentRemoved => "parent_removed",
            EventType::ChildAdded => "child_added",
            EventType::ChildRemoved => "child_removed",
            EventType::HierarchyReorganized => "hierarchy_reorganized",
            EventType::MetadataAdded => "metadata_added",
            EventType::MetadataUpdated => "metadata_updated",
            EventType::MetadataRemoved => "metadata_removed",
            EventType::Tagged => "tagged",
            EventType::Categorized => "categorized",
            EventType::VirtualLocationCreated => "virtual_location_created",
            EventType::VirtualLocationUpdated => "virtual_location_updated",
            EventType::PlatformChanged => "platform_changed",
            EventType::UrlUpdated => "url_updated",
            EventType::RegionCreated => "region_created",
            EventType::RegionUpdated => "region_updated",
            EventType::BoundaryChanged => "boundary_changed",
            EventType::RegionMerged => "region_merged",
            EventType::RegionSplit => "region_split",
            EventType::AccessGranted => "access_granted",
            EventType::AccessRevoked => "access_revoked",
            EventType::PermissionChanged => "permission_changed",
            EventType::Shared => "shared",
            EventType::VisitRecorded => "visit_recorded",
            EventType::CheckedIn => "checked_in",
            EventType::CheckedOut => "checked_out",
            EventType::TrackingStarted => "tracking_started",
            EventType::TrackingStopped => "tracking_stopped",
            EventType::Indexed => "indexed",
            EventType::SearchPerformed => "search_performed",
            EventType::NearbySearched => "nearby_searched",
            EventType::Verified => "verified",
            EventType::VerificationFailed => "verification_failed",
            EventType::ExternalSystemLinked => "external_system_linked",
            EventType::ExternalSystemUnlinked => "external_system_unlinked",
            EventType::DataSynchronized => "data_synchronized",
        }
    }
}

/// Command types of the location domain (imperative: things to do).
#[derive(Clone, Copy, Debug, PartialEq, Eq, Hash, Structural)]
pub enum CommandType {
    // Core location commands
    Define,
    Update,
    Archive,
    Restore,
    Delete,

    // Address commands
    UpdateAddress,
    ValidateAddress,
    GeocodeAddress,

    // Coordinate commands
    UpdateCoordinates,
    ValidateCoordinates,
    MoveLocation,

    // Hierarchy commands
    SetParent,
    RemoveParent,
    AddChild,
    RemoveChild,
    ReorganizeHierarchy,

    // Metadata commands
    AddMetadata,
    UpdateMetadata,
    RemoveMetadata,
    Tag,
    Categorize,

    // Virtual location commands
    CreateVirtualLocation,
    UpdateVirtualLocation,
    ChangePlatform,
    UpdateUrl,

    // Region commands
    CreateRegion,
    UpdateRegion,
    ChangeBoundary,
    MergeRegion,
    SplitRegion,

    // Access commands
    GrantAccess,
    RevokeAccess,
    ChangePermission,
    Share,

    // History commands
    RecordVisit,
    CheckIn,
    CheckOut,
    StartTracking,
    StopTracking,

    // Search commands
    Index,
    Search,
    SearchNearby,

    // Verification commands
    Verify,

    // Integration commands
    LinkExternalSystem,
    UnlinkExternalSystem,
    SynchronizeData,
}

impl CommandType {
    /// The subject segment of this value.
    pub open spec fn text(self) -> Seq<char> {
        match self {
            CommandType::Define => "define"@,
            CommandType::Update => "update"@,
            CommandType::Archive => "archive"@,
            CommandType::Restore => "restore"@,
            CommandType::Delete => "delete"@,
            CommandType::UpdateAddress => "update_address"@,
            CommandType::ValidateAddress => "validate_address"@,
            CommandType::GeocodeAddress => "geocode_address"@,
            CommandType::UpdateCoordinates => "update_coordinates"@,
            CommandType::ValidateCoordinates => "validate_coordinates"@,
            CommandType::MoveLocation => "move_location"@,
            CommandType::SetParent => "set_parent"@,
            CommandType::RemoveParent => "remove_parent"@,
            CommandType::AddChild => "add_child"@,
            CommandType::RemoveChild => "remove_child"@,
            CommandType::ReorganizeHierarchy => "reorganize_hierarchy"@,
            CommandType::AddMetadata => "add_metadata"@,
            CommandType::UpdateMetadata => "update_metadata"@,
            CommandType::RemoveMetadata => "remove_metadata"@,
            CommandType::Tag => "tag"@,
            CommandType::Categorize => "categorize"@,
            CommandType::CreateVirtualLocation => "create_virtual_location"@,
            CommandType::UpdateVirtualLocation => "update_virtual_location"@,
            CommandType::ChangePlatform => "change_platform"@,
            CommandType::UpdateUrl => "update_url"@,
            CommandType::CreateRegion => "create_region"@,
            CommandType::UpdateRegion => "update_region"@,
            CommandType::ChangeBoundary => "change_boundary"@,
            CommandType::MergeRegion => "merge_region"@,
            CommandType::SplitRegion => "split_region"@,
            CommandType::GrantAccess => "grant_access"@,
            CommandType::RevokeAccess => "revoke_access"@,
            CommandType::ChangePermission => "change_permission"@,
            CommandType::Share => "share"@,
            CommandType::RecordVisit => "record_visit"@,
            CommandType::CheckIn => "check_in"@,
            CommandType::CheckOut => "check_out"@,
            CommandType::StartTracking => "start_tracking"@,
            CommandType::StopTracking => "stop_tracking"@,
            CommandType::Index => "index"@,
            CommandType::Search => "search"@,
            CommandType::SearchNearby => "search_nearby"@,
            CommandType::Verify => "verify"@,
            CommandType::LinkExternalSystem => "link_external_system"@,
            CommandType::UnlinkExternalSystem => "unlink_external_system"@,
            CommandType::SynchronizeData => "synchronize_data"@,
        }
    }

    pub fn as_str(&self) -> (r: &'static str)
        ensures
            r@ == self.text(),
    {
        match self {
            CommandType::Define => "define",
            CommandType::Update => "update",
            CommandType::Archive => "archive",
            CommandType::Restore => "restore",
            CommandType::Delete => "delete",
            CommandType::UpdateAddress => "update_address",
            CommandType::ValidateAddress => "validate_address",
            CommandType::GeocodeAddress => "geocode_address",
            CommandType::UpdateCoordinates => "update_coordinates",
            CommandType::ValidateCoordinates => "validate_coordinates",
            CommandType::MoveLocation => "move_location",
            CommandType::SetParent => "set_parent",
            CommandType::RemoveParent => "remove_parent",
            CommandType::AddChild => "add_child",
            CommandType::RemoveChild => "remove_child",
            CommandType::ReorganizeHierarchy => "reorganize_hierarchy",
            CommandType::AddMetadata => "add_metadata",
            CommandType::UpdateMetadata => "update_metadata",
            CommandType::RemoveMetadata => "remove_metadata",
            CommandType::Tag => "tag",
            CommandType::Categorize => "categorize",
            CommandType::CreateVirtualLocation => "create_virtual_location",
            CommandType::UpdateVirtualLocation => "update_virtual_location",
            CommandType::ChangePlatform => "change_platform",
            CommandType::UpdateUrl => "update_url",
            CommandType::CreateRegion => "create_region",
            CommandType::UpdateRegion => "update_region",
            CommandType::ChangeBoundary => "change_boundary",
            CommandType::MergeRegion => "merge_region",
            CommandType::SplitRegion => "split_region",
            CommandType::GrantAccess => "grant_access",
            CommandType::RevokeAccess => "revoke_access",
            CommandType::ChangePermission => "change_permission",
            CommandType::Share => "share",
            CommandType::RecordVisit => "record_visit",
            CommandType::CheckIn => "check_in",
            CommandType::CheckOut => "check_out",
            CommandType::StartTracking => "start_tracking",
            CommandType::StopTracking => "stop_tracking",
            CommandType::Index => "index",
            CommandType::Search => "search",
            CommandType::SearchNearby => "search_nearby",
            CommandType::Verify => "verify",
            CommandType::LinkExternalSystem => "link_external_system",
            CommandType::UnlinkExternalSystem => "unlink_external_system",
            CommandType::SynchronizeData => "synchronize_data",
        }
    }
}

/// Query types of the location domain (interrogative: things to ask).
#[derive(Clone, Copy, Debug, PartialEq, Eq, Hash, Structural)]
pub enum QueryType {
    // Location queries
    Get,
    GetHistory,
    List,
    Search,

    // Geographic queries
    FindNearby,
    FindWithinRadius,
    FindInRegion,
    GetCoordinates,
    GetDistance,

    // Hierarchy queries
    GetParent,
    GetChildren,
    GetAncestors,
    GetDescendants,
    GetHierarchy,

    // Address queries
    GetAddress,
    ValidateAddress,
    GeocodeAddress,
    ReverseGeocode,

    // Metadata queries
    GetMetadata,
    GetTags,
    GetCategory,
    SearchByTag,
    SearchByCategory,

    // Virtual location queries
    GetVirtualLocation,
    GetByUrl,
    GetByPlatform,

    // Region queries
    GetRegion,
    GetRegions,
    GetBoundary,

    // Access queries
    GetPermissions,
    GetAccessList,
    CheckAccess,

    // History queries
    GetVisitHistory,
    GetTracking,
    GetActivity,

    // Statistics queries
    GetStats,
    GetUsage,
    GetPopularity,
}

impl QueryType {
    /// The subject segment of this value.
    pub open spec fn text(self) -> Seq<char> {
        match self {
            QueryType::Get => "get"@,
            QueryType::GetHistory => "get_history"@,
            QueryType::List => "list"@,
            QueryType::Search => "search"@,
            QueryType::FindNearby => "find_nearby"@,
            QueryType::FindWithinRadius => "find_within_radius"@,
            QueryType::FindInRegion => "find_in_region"@,
            QueryType::GetCoordinates => "get_coordinates"@,
            QueryType::GetDistance => "get_distance"@,
            QueryType::GetParent => "get_parent"@,
            QueryType::GetChildren => "get_children"@,
            QueryType::GetAncestors => "get_ancestors"@,
            QueryType::GetDescendants => "get_descendants"@,
            QueryType::GetHierarchy => "get_hierarchy"@,
            QueryType::GetAddress => "get_address"@,
            QueryType::ValidateAddress => "validate_address"@,
            QueryType::GeocodeAddress => "geocode_address"@,
            QueryType::ReverseGeocode => "reverse_geocode"@,
            QueryType::GetMetadata => "get_metadata"@,
            QueryType::GetTags => "get_tags"@,
            QueryType::GetCategory => "get_category"@,
            QueryType::SearchByTag => "search_by_tag"@,
            QueryType::SearchByCategory => "search_by_category"@,
            QueryType::GetVirtualLocation => "get_virtual_location"@,
            QueryType::GetByUrl => "get_by_url"@,
            QueryType::GetByPlatform => "get_by_platform"@,
            QueryType::GetRegion => "get_region"@,
            QueryType::GetRegions => "get_regions"@,
            QueryType::GetBoundary => "get_boundary"@,
            QueryType::GetPermissions => "get_permissions"@,
            QueryType::GetAccessList => "get_access_list"@,
            QueryType::CheckAccess => "check_access"@,
            QueryType::GetVisitHistory => "get_visit_history"@,
            QueryType::GetTracking => "get_tracking"@,
            QueryType::GetActivity => "get_activity"@,
            QueryType::GetStats => "get_stats"@,
            QueryType::GetUsage => "get_usage"@,
            QueryType::GetPopularity => "get_popularity"@,
        }
    }

    pub fn as_str(&self) -> (r: &'static str)
        ensures
            r@ == self.text(),
    {
        match self {
            QueryType::Get => "get",
            QueryType::GetHistory => "get_history",
            QueryType::List => "list",
            QueryType::Search => "search",
            QueryType::FindNearby => "find_nearby",
            QueryType::FindWithinRadius => "find_within_radius",
            QueryType::FindInRegion => "find_in_region",
            QueryType::GetCoordinates => "get_coordinates",
            QueryType::GetDistance => "get_distance",
            QueryType::GetParent => "get_parent",
            QueryType::GetChildren => "get_children",
            QueryType::GetAncestors => "get_ancestors",
            QueryType::GetDescendants => "get_descendants",
            QueryType::GetHierarchy => "get_hierarchy",
            QueryType::GetAddress => "get_address",
            QueryType::ValidateAddress => "validate_address",
            QueryType::GeocodeAddress => "geocode_address",
            QueryType::ReverseGeocode => "reverse_geocode",
            QueryType::GetMetadata => "get_metadata",
            QueryType::GetTags => "get_tags",
            QueryType::GetCategory => "get_category",
            QueryType::SearchByTag => "search_by_tag",
            QueryType::SearchByCategory => "search_by_category",
            QueryType::GetVirtualLocation => "get_virtual_location",
            QueryType::GetByUrl => "get_by_url",
            QueryType::GetByPlatform => "get_by_platform",
            QueryType::GetRegion => "get_region",
            QueryType::GetRegions => "get_regions",
            QueryType::GetBoundary => "get_boundary",
            QueryType::GetPermissions => "get_permissions",
            QueryType::GetAccessList => "get_access_list",
            QueryType::CheckAccess => "check_access",
            QueryType::GetVisitHistory => "get_visit_history",
            QueryType::GetTracking => "get_tracking",
            QueryType::GetActivity => "get_activity",
            QueryType::GetStats => "get_stats",
            QueryType::GetUsage => "get_usage",
            QueryType::GetPopularity => "get_popularity",
        }
    }
}

/// The operation segment: an event, a command or a query type.
#[derive(Clone, Copy, Debug, PartialEq, Eq, Hash, Structural)]
pub enum SubjectOperation {
    Event(EventType),
    Command(CommandType),
    Query(QueryType),
}

impl SubjectOperation {
    /// The subject segment of this operation.
    pub open spec fn text(self) -> Seq<char> {
        match self {
            SubjectOperation::Event(e) => e.text(),
            SubjectOperation::Command(c) => c.text(),
            SubjectOperation::Query(q) => q.text(),
        }
    }

    pub fn as_str(&self) -> (r: String)
        ensures
            r@ == self.text(),
    {
        match self {
            SubjectOperation::Event(e) => String::from_str(e.as_str()),
            SubjectOperation::Command(c) => String::from_str(c.as_str()),
            SubjectOperation::Query(q) => String::from_str(q.as_str()),
        }
    }
}

/// Scope of a subject: which view of the domain it addresses.
#[derive(Clone, Debug, PartialEq, Eq, Hash)]
pub enum SubjectScope {
    /// Standard aggregate-based scope.
    Aggregate(LocationAggregate),
    /// User-scoped events and operations.
    User { user_id: String, aggregate: Option<LocationAggregate> },
    /// Region-scoped events (hierarchical location boundaries).
    Region { region_id: String, aggregate: Option<LocationAggregate> },
    /// Geographic coordinate cell.
    Coordinates { latitude: String, longitude: String, aggregate: Option<LocationAggregate> },
    /// Combined user and location scope.
    UserLocation { user_id: String, location_id: String },
    /// Combined region and user scope.
    RegionUser { region_id: String, user_id: String },
    /// Parent-child edge of the location hierarchy.
    Hierarchy { parent_id: String, child_id: String },
}

/// A subject of the location domain.
#[derive(Clone, Debug, PartialEq, Eq, Hash)]
pub struct LocationSubject {
    pub namespace: SubjectNamespace,
    pub domain: LocationDomain,
    pub scope: SubjectScope,
    pub operation: SubjectOperation,
    /// Entity identifier; absent for broadcasts.
    pub entity_id: Option<String>,
}

/// Decimal text of `n`, without leading zeros.
pub open spec fn decimal_text(n: nat) -> Seq<char>
    decreases n,
{
    if n < 10 {
        seq![hex_digit(n as int)]
    } else {
        decimal_text(n / 10) + seq![hex_digit((n % 10) as int)]
    }
}

/// The last `k` decimal digits of `n`, zero-padded.
pub open spec fn fixed_digits(n: nat, k: nat) -> Seq<char>
    decreases k,
{
    if k == 0 {
        Seq::empty()
    } else {
        fixed_digits(n / 10, (k - 1) as nat) + seq![hex_digit((n % 10) as int)]
    }
}

/// Millionths of a degree as decimal degrees with six decimals (`-122.419400`).
pub open spec fn micro_degrees_text(v: int) -> Seq<char> {
    let a = if v < 0 {
        -v
    } else {
        v
    };
    (if v < 0 {
        "-"@
    } else {
        Seq::empty()
    }) + decimal_text((a / 1_000_000) as nat) + "."@ + fixed_digits((a % 1_000_000) as nat, 6)
}

fn digit_str(d: u64) -> (r: &'static str)
    requires
        d < 10,
    ensures
        r@ == seq![hex_digit(d as int)],
{
    proof {
        reveal_strlit("0");
        reveal_strlit("1");
        reveal_strlit("2");
        reveal_strlit("3");
        reveal_strlit("4");
        reveal_strlit("5");
        reveal_strlit("6");
        reveal_strlit("7");
        reveal_strlit("8");
        reveal_strlit("9");
    }
    let r = if d == 0 {
        "0"
    } else if d == 1 {
        "1"
    } else if d == 2 {
        "2"
    } else if d == 3 {
        "3"
    } else if d == 4 {
        "4"
    } else if d == 5 {
        "5"
    } else if d == 6 {
        "6"
    } else if d == 7 {
        "7"
    } else if d == 8 {
        "8"
    } else {
        "9"
    };
    assert(r@ =~= seq![hex_digit(d as int)]);
    r
}

fn decimal_string(n: u64) -> (r: String)
    ensures
        r@ == decimal_text(n as nat),
    decreases n,
{
    if n < 10 {
        String::from_str(digit_str(n))
    } else {
        decimal_string(n / 10).concat(digit_str(n % 10))
    }
}

fn fixed_string(n: u64, k: u64) -> (r: String)
    ensures
        r@ == fixed_digits(n as nat, k as nat),
    decreases k,
{
    if k == 0 {
        String::new()
    } else {
        fixed_string(n / 10, k - 1).concat(digit_str(n % 10))
    }
}

/// Millionths of a degree as decimal degrees with six decimals.
pub fn micro_degrees_string(v: i64) -> (r: String)
    ensures
        r@ == micro_degrees_text(v as int),
{
    let a: u64 = if v < 0 {
        (-(v as i128)) as u64
    } else {
        v as u64
    };
    let sign = if v < 0 {
        String::from_str("-")
    } else {
        String::new()
    };
    sign.concat(decimal_string(a / 1_000_000).as_str()).concat(".").concat(
        fixed_string(a % 1_000_000, 6).as_str(),
    )
}

/// `a.b`: two segments joined by a dot.
pub open spec fn dot(a: Seq<char>, b: Seq<char>) -> Seq<char> {
    a + "."@ + b
}

/// The segments that a scope contributes between the domain and the operation.
pub open spec fn scope_text(scope: SubjectScope) -> Seq<char> {
    match scope {
        SubjectScope::Aggregate(a) => a.text(),
        SubjectScope::User { user_id, aggregate } => match aggregate {
            Some(a) => dot(dot("user"@, user_id@), a.text()),
            None => dot("user"@, user_id@),
        },
        SubjectScope::Region { region_id, aggregate } => match aggregate {
            Some(a) => dot(dot("region"@, region_id@), a.text()),
            None => dot("region"@, region_id@),
        },
        SubjectScope::Coordinates { latitude, longitude, aggregate } => match aggregate {
            Some(a) => dot(dot(dot("coordinates"@, latitude@), longitude@), a.text()),
            None => dot(dot("coordinates"@, latitude@), longitude@),
        },
        SubjectScope::UserLocation { user_id, location_id } => dot(
            dot(dot("user"@, user_id@), "location"@),
            location_id@,
        ),
        SubjectScope::RegionUser { region_id, user_id } => dot(
            dot(dot("region"@, region_id@), "user"@),
            user_id@,
        ),
        SubjectScope::Hierarchy { parent_id, child_id } => dot(
            dot(dot("hierarchy"@, parent_id@), "child"@),
            child_id@,
        ),
    }
}

impl LocationSubject {
    /// The subject without its entity id.
    pub open spec fn base_text(self) -> Seq<char> {
        dot(
            dot(dot(self.namespace.text(), self.domain.text()), scope_text(self.scope)),
            self.operation.text(),
        )
    }

    /// The full subject string.
    pub open spec fn subject_text(self) -> Seq<char> {
        match self.entity_id {
            Some(id) => dot(self.base_text(), id@),
            None => self.base_text(),
        }
    }

    /// The subscription pattern: every entity (`.>`) when the subject names
    /// one, else every next segment (`.*`).
    pub open spec fn wildcard_text(self) -> Seq<char> {
        match self.entity_id {
            Some(_) => self.base_text() + ".>"@,
            None => self.base_text() + ".*"@,
        }
    }

    pub fn new(
        namespace: SubjectNamespace,
        scope: SubjectScope,
        operation: SubjectOperation,
        entity_id: Option<String>,
    ) -> (r: LocationSubject)
        ensures
            r == (LocationSubject {
                namespace,
                domain: LocationDomain::Location,
                scope,
                operation,
                entity_id,
            }),
    {
        LocationSubject { namespace, domain: LocationDomain::Location, scope, operation, entity_id }
    }

    /// An event subject with an aggregate scope.
    pub fn event(aggregate: LocationAggregate, event_type: EventType, entity_id: String) -> (r:
        LocationSubject)
        ensures
            r == LocationSubject::new_spec(
                SubjectNamespace::Events,
                SubjectScope::Aggregate(aggregate),
                SubjectOperation::Event(event_type),
                Some(entity_id),
            ),
    {
        Self::new(
            SubjectNamespace::Events,
            SubjectScope::Aggregate(aggregate),
            SubjectOperation::Event(event_type),
            Some(entity_id),
        )
    }

    /// A command subject with an aggregate scope.
    pub fn command(aggregate: LocationAggregate, command_type: CommandType, entity_id: String) -> (r:
        LocationSubject)
        ensures
            r == LocationSubject::new_spec(
                SubjectNamespace::Commands,
                SubjectScope::Aggregate(aggregate),
                SubjectOperation::Command(command_type),
                Some(entity_id),
            ),
    {
        Self::new(
            SubjectNamespace::Commands,
            SubjectScope::Aggregate(aggregate),
            SubjectOperation::Command(command_type),
            Some(entity_id),
        )
    }

    /// A query subject with an aggregate scope.
    pub fn query(aggregate: LocationAggregate, query_type: QueryType, entity_id: Option<String>) -> (r:
        LocationSubject)
        ensures
            r == LocationSubject::new_spec(
                SubjectNamespace::Queries,
                SubjectScope::Aggregate(aggregate),
                SubjectOperation::Query(query_type),
                entity_id,
            ),
    {
        Self::new(
            SubjectNamespace::Queries,
            SubjectScope::Aggregate(aggregate),
            SubjectOperation::Query(query_type),
            entity_id,
        )
    }

    /// The subject value that [`LocationSubject::new`] builds.
    pub open spec fn new_spec(
        namespace: SubjectNamespace,
        scope: SubjectScope,
        operation: SubjectOperation,
        entity_id: Option<String>,
    ) -> LocationSubject {
        LocationSubject { namespace, domain: LocationDomain::Location, scope, operation, entity_id }
    }

    /// A user-scoped event subject.
    pub fn user_event(user_id: u128, event_type: EventType, aggregate: Option<LocationAggregate>) -> (r:
        LocationSubject)
        ensures
            r.namespace == SubjectNamespace::Events,
            r.domain == LocationDomain::Location,
            r.operation == SubjectOperation::Event(event_type),
            r.entity_id is None,
            r.scope matches SubjectScope::User { user_id: u, aggregate: a } && u@ == uuid_text_of(
                user_id,
            ) && a == aggregate,
    {
        Self::new(
            SubjectNamespace::Events,
            SubjectScope::User { user_id: uuid_text(user_id), aggregate },
            SubjectOperation::Event(event_type),
            None,
        )
    }

    /// A region-scoped event subject.
    pub fn region_event(
        region_id: u128,
        event_type: EventType,
        aggregate: Option<LocationAggregate>,
    ) -> (r: LocationSubject)
        ensures
            r.namespace == SubjectNamespace::Events,
            r.domain == LocationDomain::Location,
            r.operation == SubjectOperation::Event(event_type),
            r.entity_id is None,
            r.scope matches SubjectScope::Region { region_id: g, aggregate: a } && g@
                == uuid_text_of(region_id) && a == aggregate,
    {
        Self::new(
            SubjectNamespace::Events,
            SubjectScope::Region { region_id: uuid_text(region_id), aggregate },
            SubjectOperation::Event(event_type),
            None,
        )
    }

    /// A coordinate-scoped event subject; coordinates in millionths of a degree.
    pub fn coordinate_event(
        latitude: i64,
        longitude: i64,
        event_type: EventType,
        aggregate: Option<LocationAggregate>,
    ) -> (r: LocationSubject)
        ensures
            r.namespace == SubjectNamespace::Events,
            r.domain == LocationDomain::Location,
            r.operation == SubjectOperation::Event(event_type),
            r.entity_id is None,
            r.scope matches SubjectScope::Coordinates { latitude: la, longitude: lo, aggregate: a }
                && la@ == micro_degrees_text(latitude as int) && lo@ == micro_degrees_text(
                longitude as int,
            ) && a == aggregate,
    {
        Self::new(
            SubjectNamespace::Events,
            SubjectScope::Coordinates {
                latitude: micro_degrees_string(latitude),
                longitude: micro_degrees_string(longitude),
                aggregate,
            },
            SubjectOperation::Event(event_type),
            None,
        )
    }

    /// A user-and-location scoped event subject.
    pub fn user_location_event(user_id: u128, location_id: u128, event_type: EventType) -> (r:
        LocationSubject)
        ensures
            r.namespace == SubjectNamespace::Events,
            r.domain == LocationDomain::Location,
            r.operation == SubjectOperation::Event(event_type),
            r.entity_id is None,
            r.scope matches SubjectScope::UserLocation { user_id: u, location_id: l } && u@
                == uuid_text_of(user_id) && l@ == uuid_text_of(location_id),
    {
        Self::new(
            SubjectNamespace::Events,
            SubjectScope::UserLocation {
                user_id: uuid_text(user_id),
                location_id: uuid_text(location_id),
            },
            SubjectOperation::Event(event_type),
            None,
        )
    }

    /// A hierarchy-edge scoped event subject.
    pub fn hierarchy_event(parent_id: u128, child_id: u128, event_type: EventType) -> (r:
        LocationSubject)
        ensures
            r.namespace == SubjectNamespace::Events,
            r.domain == LocationDomain::Location,
            r.operation == SubjectOperation::Event(event_type),
            r.entity_id is None,
            r.scope matches SubjectScope::Hierarchy { parent_id: p, child_id: c } && p@
                == uuid_text_of(parent_id) && c@ == uuid_text_of(child_id),
    {
        Self::new(
            SubjectNamespace::Events,
            SubjectScope::Hierarchy { parent_id: uuid_text(parent_id), child_id: uuid_text(child_id) },
            SubjectOperation::Event(event_type),
            None,
        )
    }

    /// The subscription pattern for this subject.
    pub fn wildcard_pattern(&self) -> (r: String)
        ensures
            r@ == self.wildcard_text(),
    {
        let base = self.build_base_subject();
        match &self.entity_id {
            Some(_) => base.concat(".>"),
            None => base.concat(".*"),
        }
    }

    /// The subject string.
    pub fn to_subject(&self) -> (r: String)
        ensures
            r@ == self.subject_text(),
    {
        let base = self.build_base_subject();
        match &self.entity_id {
            Some(id) => base.concat(".").concat(id.as_str()),
            None => base,
        }
    }

    fn build_base_subject(&self) -> (r: String)
        ensures
            r@ == self.base_text(),
    {
        let op = self.operation.as_str();
        let head = String::from_str(self.namespace.as_str()).concat(".").concat(
            self.domain.as_str(),
        ).concat(".");
        let scope = match &self.scope {
            SubjectScope::Aggregate(a) => String::from_str(a.as_str()),
            SubjectScope::User { user_id, aggregate } => match aggregate {
                Some(a) => String::from_str("user").concat(".").concat(user_id.as_str()).concat(
                    ".",
                ).concat(a.as_str()),
                None => String::from_str("user").concat(".").concat(user_id.as_str()),
            },
            SubjectScope::Region { region_id, aggregate } => match aggregate {
                Some(a) => String::from_str("region").concat(".").concat(
                    region_id.as_str(),
                ).concat(".").concat(a.as_str()),
                None => String::from_str("region").concat(".").concat(region_id.as_str()),
            },
            SubjectScope::Coordinates { latitude, longitude, aggregate } => {
                let cell = String::from_str("coordinates").concat(".").concat(
                    latitude.as_str(),
                ).concat(".").concat(longitude.as_str());
                match aggregate {
                    Some(a) => cell.concat(".").concat(a.as_str()),
                    None => cell,
                }
            },
            SubjectScope::UserLocation { user_id, location_id } => String::from_str(
                "user",
            ).concat(".").concat(user_id.as_str()).concat(".").concat("location").concat(
                ".",
            ).concat(location_id.as_str()),
            SubjectScope::RegionUser { region_id, user_id } => String::from_str("region").concat(
                ".",
            ).concat(region_id.as_str()).concat(".").concat("user").concat(".").concat(
                user_id.as_str(),
            ),
            SubjectScope::Hierarchy { parent_id, child_id } => String::from_str(
                "hierarchy",
            ).concat(".").concat(parent_id.as_str()).concat(".").concat("child").concat(
                ".",
            ).concat(child_id.as_str()),
        };
        head.concat(scope.as_str()).concat(".").concat(op.as_str())
    }
}

/// Predefined subscription patterns.
pub struct SubjectPatterns;

impl SubjectPatterns {
    /// Events of one coordinate cell; coordinates in millionths of a degree.
    pub fn coordinate_events(lat: i64, lng: i64) -> (r: String)
        ensures
            r@ == "events.location.coordinates."@ + micro_degrees_text(lat as int) + "."@
                + micro_degrees_text(lng as int) + ".>"@,
    {
        String::from_str("events.location.coordinates.").concat(
            micro_degrees_string(lat).as_str(),
        ).concat(".").concat(micro_degrees_string(lng).as_str()).concat(".>")
    }

    /// Events within a geographic area: every coordinate cell, whatever the
    /// bounds (cells carry no wildcard ranges).
    pub fn geographic_area_events(min_lat: i64, max_lat: i64, min_lng: i64, max_lng: i64) -> (r:
        String)
        ensures
            r@ == "events.location.coordinates.*.*.>"@,
    {
        String::from_str("events.location.coordinates.*.*.>")
    }

    /// All location events.
    pub fn all_location_events() -> (r: String)
        ensures
            r@ == "events.location.>"@,
    {
        String::from_str("events.location.>")
    }

    /// Address-related events.
    pub fn address_events() -> (r: String)
        ensures
            r@ == "events.location.address.>"@,
    {
        String::from_str("events.location.address.>")
    }

    /// Hierarchy-related events.
    pub fn hierarchy_events() -> (r: String)
        ensures
            r@ == "events.location.hierarchy.>"@,
    {
        String::from_str("events.location.hierarchy.>")
    }

    /// Virtual location events.
    pub fn virtual_location_events() -> (r: String)
        ensures
            r@ == "events.location.virtual.>"@,
    {
        String::from_str("events.location.virtual.>")
    }

    /// Region-related events.
    pub fn region_events() -> (r: String)
        ensures
            r@ == "events.location.region.>"@,
    {
        String::from_str("events.location.region.>")
    }

    /// Search queries.
    pub fn search_queries() -> (r: String)
        ensures
            r@ == "queries.location.search.*"@,
    {
        String::from_str("queries.location.search.*")
    }

    /// Cross-domain integration subjects.
    pub fn integration_events() -> (r: String)
        ensures
            r@ == "integration.location.>"@,
    {
        String::from_str("integration.location.>")
    }

    /// All coordinate-scoped events.
    pub fn all_coordinate_activity() -> (r: String)
        ensures
            r@ == "events.location.coordinates.*.*.>"@,
    {
        String::from_str("events.location.coordinates.*.*.>")
    }

    /// All hierarchy modification events.
    pub fn all_hierarchy_modifications() -> (r: String)
        ensures
            r@ == "events.location.hierarchy.>"@,
    {
        String::from_str("events.location.hierarchy.>")
    }

    /// Events of moved locations or changed coordinates.
    pub fn location_movement_events() -> (r: String)
        ensures
            r@ == "events.location.*.{location_moved,coordinates_updated}"@,
    {
        String::from_str("events.location.*.{location_moved,coordinates_updated}")
    }

    /// Access and permission events.
    pub fn access_events() -> (r: String)
        ensures
            r@ == "events.location.access.>"@,
    {
        String::from_str("events.location.access.>")
    }

    /// Check-in and check-out events across all locations.
    pub fn checkin_events() -> (r: String)
        ensures
            r@ == "events.location.history.{checked_in,checked_out}"@,
    {
        String::from_str("events.location.history.{checked_in,checked_out}")
    }

    /// All commands for one location.
    pub fn location_commands(location_id: u128) -> (r: String)
        ensures
            r@ == "commands.location.location.*."@ + uuid_text_of(location_id),
    {
        String::from_str("commands.location.location.*.").concat(uuid_text(location_id).as_str())
    }

    /// All events for one location.
    pub fn location_events(location_id: u128) -> (r: String)
        ensures
            r@ == "events.location.location.*."@ + uuid_text_of(location_id),
    {
        String::from_str("events.location.location.*.").concat(uuid_text(location_id).as_str())
    }

    /// All events for one user.
    pub fn user_events(user_id: u128) -> (r: String)
        ensures
            r@ == "events.location.user."@ + uuid_text_of(user_id) + ".>"@,
    {
        String::from_str("events.location.user.").concat(uuid_text(user_id).as_str()).concat(".>")
    }

    /// Location-related events of one user.
    pub fn user_location_events(user_id: u128) -> (r: String)
        ensures
            r@ == "events.location.user."@ + uuid_text_of(user_id) + ".location.*"@,
    {
        String::from_str("events.location.user.").concat(uuid_text(user_id).as_str()).concat(".location.*")
    }

    /// All events for one region.
    pub fn region_activity(region_id: u128) -> (r: String)
        ensures
            r@ == "events.location.region."@ + uuid_text_of(region_id) + ".>"@,
    {
        String::from_str("events.location.region.").concat(uuid_text(region_id).as_str()).concat(".>")
    }

    /// Location events within one region.
    pub fn region_location_events(region_id: u128) -> (r: String)
        ensures
            r@ == "events.location.region."@ + uuid_text_of(region_id) + ".location.*"@,
    {
        String::from_str("events.location.region.").concat(uuid_text(region_id).as_str()).concat(".location.*")
    }

    /// All events of one user at one location.
    pub fn user_location_activity(user_id: u128, location_id: u128) -> (r: String)
        ensures
            r@ == "events.location.user."@ + uuid_text_of(user_id) + ".location."@ + uuid_text_of(location_id) + ".>"@,
    {
        String::from_str("events.location.user.").concat(uuid_text(user_id).as_str()).concat(".location.").concat(
            uuid_text(location_id).as_str(),
        ).concat(".>")
    }

    /// Events of one parent-child edge.
    pub fn hierarchy_relationship_events(parent_id: u128, child_id: u128) -> (r: String)
        ensures
            r@ == "events.location.hierarchy."@ + uuid_text_of(parent_id) + ".child."@ + uuid_text_of(child_id) + ".>"@,
    {
        String::from_str("events.location.hierarchy.").concat(uuid_text(parent_id).as_str()).concat(".child.").concat(
            uuid_text(child_id).as_str(),
        ).concat(".>")
    }
}

/// Builds a subject step by step; namespace, scope and operation are required.
pub struct SubjectBuilder {
    namespace: Option<SubjectNamespace>,
    scope: Option<SubjectScope>,
    operation: Option<SubjectOperation>,
    entity_id: Option<String>,
}

impl SubjectBuilder {
    pub closed spec fn spec_namespace(self) -> Option<SubjectNamespace> {
        self.namespace
    }

    pub closed spec fn spec_scope(self) -> Option<SubjectScope> {
        self.scope
    }

    pub closed spec fn spec_operation(self) -> Option<SubjectOperation> {
        self.operation
    }

    pub closed spec fn spec_entity_id(self) -> Option<String> {
        self.entity_id
    }

    /// What [`SubjectBuilder::build`] returns.
    pub open spec fn build_result(self) -> Result<LocationSubject, SubjectError> {
        match (self.spec_namespace(), self.spec_scope(), self.spec_operation()) {
            (None, _, _) => Err(SubjectError::MissingNamespace),
            (Some(_), None, _) => Err(SubjectError::MissingScope),
            (Some(_), Some(_), None) => Err(SubjectError::MissingOperation),
            (Some(n), Some(s), Some(o)) => Ok(
                LocationSubject::new_spec(n, s, o, self.spec_entity_id()),
            ),
        }
    }

    /// A builder with nothing set.
    pub fn new() -> (r: SubjectBuilder)
        ensures
            r.spec_namespace() is None,
            r.spec_scope() is None,
            r.spec_operation() is None,
            r.spec_entity_id() is None,
    {
        SubjectBuilder { namespace: None, scope: None, operation: None, entity_id: None }
    }

    pub fn namespace(self, namespace: SubjectNamespace) -> (r: SubjectBuilder)
        ensures
            r.spec_namespace() == Some(namespace),
            r.spec_scope() == self.spec_scope(),
            r.spec_operation() == self.spec_operation(),
            r.spec_entity_id() == self.spec_entity_id(),
    {
        SubjectBuilder { namespace: Some(namespace), ..self }
    }

    /// Sets an aggregate scope.
    pub fn aggregate(self, aggregate: LocationAggregate) -> (r: SubjectBuilder)
        ensures
            r.spec_namespace() == self.spec_namespace(),
            r.spec_scope() == Some(SubjectScope::Aggregate(aggregate)),
            r.spec_operation() == self.spec_operation(),
            r.spec_entity_id() == self.spec_entity_id(),
    {
        self.with_scope(SubjectScope::Aggregate(aggregate))
    }

    /// Sets any scope.
    pub fn with_scope(self, scope: SubjectScope) -> (r: SubjectBuilder)
        ensures
            r.spec_namespace() == self.spec_namespace(),
            r.spec_scope() == Some(scope),
            r.spec_operation() == self.spec_operation(),
            r.spec_entity_id() == self.spec_entity_id(),
    {
        SubjectBuilder { scope: Some(scope), ..self }
    }

    /// Sets a user scope.
    pub fn user_scope(self, user_id: u128, aggregate: Option<LocationAggregate>) -> (r:
        SubjectBuilder)
        ensures
            r.spec_namespace() == self.spec_namespace(),
            r.spec_scope() matches Some(SubjectScope::User { user_id: u, aggregate: a }) && u@
                == uuid_text_of(user_id) && a == aggregate,
            r.spec_operation() == self.spec_operation(),
            r.spec_entity_id() == self.spec_entity_id(),
    {
        self.with_scope(SubjectScope::User { user_id: uuid_text(user_id), aggregate })
    }

    /// Sets a region scope.
    pub fn region_scope(self, region_id: u128, aggregate: Option<LocationAggregate>) -> (r:
        SubjectBuilder)
        ensures
            r.spec_namespace() == self.spec_namespace(),
            r.spec_scope() matches Some(SubjectScope::Region { region_id: g, aggregate: a }) && g@
                == uuid_text_of(region_id) && a == aggregate,
            r.spec_operation() == self.spec_operation(),
            r.spec_entity_id() == self.spec_entity_id(),
    {
        self.with_scope(SubjectScope::Region { region_id: uuid_text(region_id), aggregate })
    }

    /// Sets a coordinate scope; coordinates in millionths of a degree.
    pub fn coordinate_scope(self, latitude: i64, longitude: i64, aggregate: Option<LocationAggregate>) -> (r:
        SubjectBuilder)
        ensures
            r.spec_namespace() == self.spec_namespace(),
            r.spec_scope() matches Some(
                SubjectScope::Coordinates { latitude: la, longitude: lo, aggregate: a },
            ) && la@ == micro_degrees_text(latitude as int) && lo@ == micro_degrees_text(
                longitude as int,
            ) && a == aggregate,
            r.spec_operation() == self.spec_operation(),
            r.spec_entity_id() == self.spec_entity_id(),
    {
        self.with_scope(
            SubjectScope::Coordinates {
                latitude: micro_degrees_string(latitude),
                longitude: micro_degrees_string(longitude),
                aggregate,
            },
        )
    }

    /// Sets a user-and-location scope.
    pub fn user_location_scope(self, user_id: u128, location_id: u128) -> (r: SubjectBuilder)
        ensures
            r.spec_namespace() == self.spec_namespace(),
            r.spec_scope() matches Some(SubjectScope::UserLocation { user_id: u, location_id: l })
                && u@ == uuid_text_of(user_id) && l@ == uuid_text_of(location_id),
            r.spec_operation() == self.spec_operation(),
            r.spec_entity_id() == self.spec_entity_id(),
    {
        self.with_scope(
            SubjectScope::UserLocation {
                user_id: uuid_text(user_id),
                location_id: uuid_text(location_id),
            },
        )
    }

    /// Sets a hierarchy-edge scope.
    pub fn hierarchy_scope(self, parent_id: u128, child_id: u128) -> (r: SubjectBuilder)
        ensures
            r.spec_namespace() == self.spec_namespace(),
            r.spec_scope() matches Some(SubjectScope::Hierarchy { parent_id: p, child_id: c }) && p@
                == uuid_text_of(parent_id) && c@ == uuid_text_of(child_id),
            r.spec_operation() == self.spec_operation(),
            r.spec_entity_id() == self.spec_entity_id(),
    {
        self.with_scope(
            SubjectScope::Hierarchy { parent_id: uuid_text(parent_id), child_id: uuid_text(child_id) },
        )
    }

    pub fn operation(self, operation: SubjectOperation) -> (r: SubjectBuilder)
        ensures
            r.spec_namespace() == self.spec_namespace(),
            r.spec_scope() == self.spec_scope(),
            r.spec_operation() == Some(operation),
            r.spec_entity_id() == self.spec_entity_id(),
    {
        SubjectBuilder { operation: Some(operation), ..self }
    }

    pub fn entity_id(self, entity_id: &str) -> (r: SubjectBuilder)
        ensures
            r.spec_namespace() == self.spec_namespace(),
            r.spec_scope() == self.spec_scope(),
            r.spec_operation() == self.spec_operation(),
            r.spec_entity_id() matches Some(e) && e@ == entity_id@,
    {
        SubjectBuilder { entity_id: Some(String::from_str(entity_id)), ..self }
    }

    /// Sets the entity id to the text of a location id.
    pub fn location_id(self, location_id: u128) -> (r: SubjectBuilder)
        ensures
            r.spec_namespace() == self.spec_namespace(),
            r.spec_scope() == self.spec_scope(),
            r.spec_operation() == self.spec_operation(),
            r.spec_entity_id() matches Some(e) && e@ == uuid_text_of(location_id),
    {
        SubjectBuilder { entity_id: Some(uuid_text(location_id)), ..self }
    }

    /// Sets the entity id to the text of any UUID.
    pub fn uuid(self, uuid: u128) -> (r: SubjectBuilder)
        ensures
            r.spec_namespace() == self.spec_namespace(),
            r.spec_scope() == self.spec_scope(),
            r.spec_operation() == self.spec_operation(),
            r.spec_entity_id() matches Some(e) && e@ == uuid_text_of(uuid),
    {
        SubjectBuilder { entity_id: Some(uuid_text(uuid)), ..self }
    }

    /// The subject, or the first required part that is missing.
    pub fn build(self) -> (r: Result<LocationSubject, SubjectError>)
        ensures
            r == self.build_result(),
    {
        let namespace = match self.namespace {
            Some(n) => n,
            None => return Err(SubjectError::MissingNamespace),
        };
        let scope = match self.scope {
            Some(s) => s,
            None => return Err(SubjectError::MissingScope),
        };
        let operation = match self.operation {
            Some(o) => o,
            None => return Err(SubjectError::MissingOperation),
        };
        Ok(LocationSubject::new(namespace, scope, operation, self.entity_id))
    }
}

/// Errors in subject construction.
#[derive(Clone, Debug, PartialEq, Eq)]
pub enum SubjectError {
    MissingNamespace,
    MissingScope,
    MissingOperation,
    InvalidFormat(String),
}

} // verus!
