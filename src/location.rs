//! The location aggregate: its state, the changes it accepts, and the pure
//! fold step that applies one event to it.
use vstd::prelude::*;
use crate::events::LocationDomainEvent;
use crate::value_objects::{Address, DomainError, GeoCoordinates, LocationType, ValidationRule};
use crate::virtual_location::VirtualLocation;

verus! {

/// Marker for identifiers of locations.
#[derive(Clone, Copy, Debug, PartialEq, Eq, Hash, Structural)]
pub struct LocationMarker;

/// A location: any identifiable place, physical, virtual or logical.
#[derive(Clone, Debug)]
pub struct Location {
    pub id: u128,
    /// The number of events applied to build this state.
    pub version: u64,
    pub name: String,
    pub location_type: LocationType,
    pub address: Option<Address>,
    pub coordinates: Option<GeoCoordinates>,
    pub virtual_location: Option<VirtualLocation>,
    pub parent_id: Option<u128>,
    /// Metadata entries in order of first insertion.
    pub metadata: Vec<(String, String)>,
    /// Archived locations are kept, flagged at the end of their life.
    pub archived: bool,
}

/// The state of a location, as values.
pub struct LocationState {
    pub id: u128,
    pub version: nat,
    pub name: String,
    pub location_type: LocationType,
    pub address: Option<Address>,
    pub coordinates: Option<GeoCoordinates>,
    pub virtual_location: Option<VirtualLocation>,
    pub parent_id: Option<u128>,
    pub metadata: Seq<(String, String)>,
    pub archived: bool,
}

impl View for Location {
    type V = LocationState;

    open spec fn view(&self) -> LocationState {
        LocationState {
            id: self.id,
            version: self.version as nat,
            name: self.name,
            location_type: self.location_type,
            address: self.address,
            coordinates: self.coordinates,
            virtual_location: self.virtual_location,
            parent_id: self.parent_id,
            metadata: self.metadata@,
            archived: self.archived,
        }
    }
}

/// Index of the first entry whose key is `k`, or -1.
pub open spec fn key_index(m: Seq<(String, String)>, k: Seq<char>) -> int
    decreases m.len(),
{
    if m.len() == 0 {
        -1
    } else {
        let j = key_index(m.drop_last(), k);
        if j >= 0 {
            j
        } else if m.last().0@ == k {
            m.len() - 1
        } else {
            -1
        }
    }
}

/// No two metadata entries share a key: the invariant of a location's metadata.
pub open spec fn keys_unique(m: Seq<(String, String)>) -> bool {
    forall|i: int, j: int|
        0 <= i < m.len() && 0 <= j < m.len() && i != j ==> #[trigger] m[i].0@ != #[trigger] m[j].0@
}

proof fn lemma_key_index_found(m: Seq<(String, String)>, k: Seq<char>)
    ensures
        key_index(m, k) == -1 ==> forall|i: int| 0 <= i < m.len() ==> #[trigger] m[i].0@ != k,
        key_index(m, k) >= 0 ==> key_index(m, k) < m.len() && m[key_index(m, k)].0@ == k,
    decreases m.len(),
{
    if m.len() > 0 {
        let p = m.drop_last();
        lemma_key_index_found(p, k);
        if key_index(m, k) == -1 {
            assert forall|i: int| 0 <= i < m.len() implies #[trigger] m[i].0@ != k by {
                if i < m.len() - 1 {
                    assert(p[i] == m[i]);
                }
            }
        }
    }
}

/// Setting one key keeps keys unique.
pub proof fn lemma_upsert_keeps_keys_unique(m: Seq<(String, String)>, k: String, v: String)
    requires
        keys_unique(m),
    ensures
        keys_unique(upsert(m, k, v)),
{
    lemma_key_index_found(m, k@);
    let r = upsert(m, k, v);
    let x = key_index(m, k@);
    assert forall|i: int, j: int|
        0 <= i < r.len() && 0 <= j < r.len() && i != j implies #[trigger] r[i].0@ != #[trigger] r[j].0@ by {
        if x < 0 {
            if i < m.len() && j < m.len() {
                assert(m[i].0@ != m[j].0@);
            }
        } else if i != x && j != x {
            assert(m[i].0@ != m[j].0@);
        } else if i == x {
            assert(m[x].0@ != m[j].0@);
        } else {
            assert(m[i].0@ != m[x].0@);
        }
    }
}

/// Setting keys in turn keeps them unique.
pub proof fn lemma_upsert_all_keeps_keys_unique(m: Seq<(String, String)>, added: Seq<(String, String)>)
    requires
        keys_unique(m),
    ensures
        keys_unique(upsert_all(m, added)),
    decreases added.len(),
{
    if added.len() > 0 {
        lemma_upsert_all_keeps_keys_unique(m, added.drop_last());
        let l = added.last();
        lemma_upsert_keeps_keys_unique(upsert_all(m, added.drop_last()), l.0, l.1);
    }
}

/// Sets `k` to `v`: in place when the key is present, else at the end.
pub open spec fn upsert(m: Seq<(String, String)>, k: String, v: String) -> Seq<(String, String)> {
    let j = key_index(m, k@);
    if j >= 0 {
        m.update(j, (k, v))
    } else {
        m.push((k, v))
    }
}

/// Sets each entry of `added` in turn.
pub open spec fn upsert_all(m: Seq<(String, String)>, added: Seq<(String, String)>) -> Seq<
    (String, String),
>
    decreases added.len(),
{
    if added.len() == 0 {
        m
    } else {
        let l = added.last();
        upsert(upsert_all(m, added.drop_last()), l.0, l.1)
    }
}

/// Index of the first entry of `m` whose key is `k`.
fn find_key(m: &Vec<(String, String)>, k: &String) -> (r: Option<usize>)
    ensures
        r is None ==> key_index(m@, k@) == -1,
        r matches Some(i) ==> key_index(m@, k@) == i && i < m@.len(),
{
    let mut i: usize = 0;
    while i < m.len()
        invariant
            i <= m@.len(),
            key_index(m@.take(i as int), k@) == -1,
        decreases m@.len() - i,
    {
        assert(m@.take(i + 1).drop_last() =~= m@.take(i as int));
        if m[i].0 == *k {
            proof {
                assert(key_index(m@.take(i + 1), k@) == i);
                lemma_key_index_prefix(m@, k@, i as int + 1);
            }
            return Some(i);
        }
        i = i + 1;
    }
    assert(m@.take(m@.len() as int) =~= m@);
    None
}

/// Sets `k` to `v` in `m`.
fn upsert_entry(m: &mut Vec<(String, String)>, k: String, v: String)
    ensures
        final(m)@ == upsert(old(m)@, k, v),
{
    match find_key(m, &k) {
        Some(i) => {
            m.set(i, (k, v));
        },
        None => {
            m.push((k, v));
        },
    }
}

/// A key found in a prefix is found at the same index in the whole sequence.
proof fn lemma_key_index_prefix(m: Seq<(String, String)>, k: Seq<char>, n: int)
    requires
        0 <= n <= m.len(),
        key_index(m.take(n), k) >= 0,
    ensures
        key_index(m, k) == key_index(m.take(n), k),
    decreases m.len() - n,
{
    if n < m.len() {
        assert(m.take(n + 1).drop_last() =~= m.take(n));
        lemma_key_index_prefix(m, k, n + 1);
    } else {
        assert(m.take(n) =~= m);
    }
}

/// Sets each entry of `added` in turn.
fn upsert_entries(m: &mut Vec<(String, String)>, added: &Vec<(String, String)>)
    ensures
        final(m)@ == upsert_all(old(m)@, added@),
{
    let ghost m0 = m@;
    let mut i: usize = 0;
    while i < added.len()
        invariant
            i <= added@.len(),
            m@ == upsert_all(m0, added@.take(i as int)),
        decreases added@.len() - i,
    {
        assert(added@.take(i + 1).drop_last() =~= added@.take(i as int));
        let k = added[i].0.clone();
        let v = added[i].1.clone();
        upsert_entry(m, k, v);
        i = i + 1;
    }
    assert(added@.take(added@.len() as int) =~= added@);
}

/// What a change of the location does: the new state, or the error that
/// leaves it unchanged.
pub open spec fn change_outcome(
    r: Result<(), DomainError>,
    before: LocationState,
    after: LocationState,
    expected: Result<LocationState, DomainError>,
) -> bool {
    match expected {
        Ok(s) => r is Ok && after == s,
        Err(e) => r == Err::<(), DomainError>(e) && after == before,
    }
}

/// The state with `address` set, or why it cannot be.
pub open spec fn set_address_spec(s: LocationState, address: Address) -> Result<
    LocationState,
    DomainError,
> {
    if !address.is_valid() {
        Err(DomainError::ValidationError(address.first_blank_field().unwrap()))
    } else if s.location_type == LocationType::Virtual {
        Err(DomainError::ValidationError(ValidationRule::AddressOnVirtualLocation))
    } else {
        Ok(LocationState { address: Some(address), ..s })
    }
}

/// The state with `coordinates` set, or why it cannot be.
pub open spec fn set_coordinates_spec(s: LocationState, coordinates: GeoCoordinates) -> Result<
    LocationState,
    DomainError,
> {
    if coordinates.validate_result() is Err {
        Err(coordinates.validate_result()->Err_0)
    } else if s.location_type == LocationType::Virtual {
        Err(DomainError::ValidationError(ValidationRule::CoordinatesOnVirtualLocation))
    } else {
        Ok(LocationState { coordinates: Some(coordinates), ..s })
    }
}

/// The state with parent `parent_id`, or why it cannot be.
pub open spec fn set_parent_spec(s: LocationState, parent_id: u128) -> Result<
    LocationState,
    DomainError,
> {
    if parent_id == s.id {
        Err(DomainError::ValidationError(ValidationRule::OwnParent))
    } else {
        Ok(LocationState { parent_id: Some(parent_id), ..s })
    }
}

/// The state with each present value replacing the old one, or why it cannot be.
pub open spec fn update_details_spec(
    s: LocationState,
    name: Option<String>,
    address: Option<Address>,
    coordinates: Option<GeoCoordinates>,
    virtual_location: Option<VirtualLocation>,
) -> Result<LocationState, DomainError> {
    if s.archived {
        Err(DomainError::ValidationError(ValidationRule::UpdateArchived))
    } else if address is Some && !address->Some_0.is_valid() {
        Err(DomainError::ValidationError(address->Some_0.first_blank_field().unwrap()))
    } else if coordinates is Some && coordinates->Some_0.validate_result() is Err {
        Err(coordinates->Some_0.validate_result()->Err_0)
    } else {
        Ok(
            LocationState {
                name: if name is Some {
                    name->Some_0
                } else {
                    s.name
                },
                address: if address is Some {
                    address
                } else {
                    s.address
                },
                coordinates: if coordinates is Some {
                    coordinates
                } else {
                    s.coordinates
                },
                virtual_location: if virtual_location is Some {
                    virtual_location
                } else {
                    s.virtual_location
                },
                ..s
            },
        )
    }
}

/// The top-level state, or why it cannot be.
pub open spec fn remove_parent_spec(s: LocationState) -> Result<LocationState, DomainError> {
    if s.archived {
        Err(DomainError::ValidationError(ValidationRule::ModifyArchived))
    } else {
        Ok(LocationState { parent_id: None, ..s })
    }
}

/// The archived state, or why it cannot be.
pub open spec fn archive_spec(s: LocationState) -> Result<LocationState, DomainError> {
    if s.archived {
        Err(DomainError::ValidationError(ValidationRule::AlreadyArchived))
    } else {
        Ok(LocationState { archived: true, ..s })
    }
}

/// The fold step: the state after `event`, with the version counting it, or
/// the error that rejects the event.
pub open spec fn apply_spec(s: LocationState, event: LocationDomainEvent) -> Result<
    LocationState,
    DomainError,
> {
    if event.spec_aggregate_id() != s.id {
        Err(DomainError::AggregateMismatch { expected: s.id, found: event.spec_aggregate_id() })
    } else {
        let changed = match event {
            LocationDomainEvent::LocationDefined(_) => Err(DomainError::AlreadyDefined),
            LocationDomainEvent::LocationUpdated(u) => update_details_spec(
                s,
                u.name,
                u.address,
                u.coordinates,
                u.virtual_location,
            ),
            LocationDomainEvent::ParentLocationSet(p) => set_parent_spec(s, p.parent_id),
            LocationDomainEvent::ParentLocationRemoved(_) => remove_parent_spec(s),
            LocationDomainEvent::LocationMetadataAdded(m) => Ok(
                LocationState { metadata: upsert_all(s.metadata, m.added_metadata@), ..s },
            ),
            LocationDomainEvent::LocationArchived(_) => archive_spec(s),
        };
        match changed {
            Ok(t) => Ok(LocationState { version: t.version + 1, ..t }),
            Err(e) => Err(e),
        }
    }
}

/// The fold step keeps metadata keys unique.
pub proof fn lemma_apply_keeps_keys_unique(s: LocationState, event: LocationDomainEvent)
    requires
        keys_unique(s.metadata),
    ensures
        apply_spec(s, event) matches Ok(t) ==> keys_unique(t.metadata),
{
    if let LocationDomainEvent::LocationMetadataAdded(m) = event {
        lemma_upsert_all_keeps_keys_unique(s.metadata, m.added_metadata@);
    }
}

/// The state a result holds, or its error.
pub open spec fn state_of(r: Result<Location, DomainError>) -> Result<LocationState, DomainError> {
    match r {
        Ok(l) => Ok(l@),
        Err(e) => Err(e),
    }
}

/// A fresh location of `location_type` at version 0, with no parent or metadata.
pub open spec fn fresh_state(
    id: u128,
    name: String,
    location_type: LocationType,
    address: Option<Address>,
    coordinates: Option<GeoCoordinates>,
    virtual_location: Option<VirtualLocation>,
) -> LocationState {
    LocationState {
        id,
        version: 0,
        name,
        location_type,
        address,
        coordinates,
        virtual_location,
        parent_id: None,
        metadata: Seq::empty(),
        archived: false,
    }
}

impl Location {
    /// A physical location at `address`; fails when the address is invalid.
    pub fn new_physical(id: u128, name: String, address: Address) -> (r: Result<
        Location,
        DomainError,
    >)
        ensures
            state_of(r) == match address.validate_result() {
                Ok(_) => Ok(
                    fresh_state(id, name, LocationType::Physical, Some(address), None, None),
                ),
                Err(e) => Err::<LocationState, DomainError>(e),
            },
    {
        match address.validate() {
            Err(e) => Err(e),
            Ok(()) => Ok(
                Location {
                    id,
                    version: 0,
                    name,
                    location_type: LocationType::Physical,
                    address: Some(address),
                    coordinates: None,
                    virtual_location: None,
                    parent_id: None,
                    metadata: Vec::new(),
                    archived: false,
                },
            ),
        }
    }

    /// A virtual location.
    pub fn new_virtual(id: u128, name: String, virtual_location: VirtualLocation) -> (r: Result<
        Location,
        DomainError,
    >)
        ensures
            state_of(r) == Ok::<LocationState, DomainError>(
                fresh_state(id, name, LocationType::Virtual, None, None, Some(virtual_location)),
            ),
    {
        Ok(
            Location {
                id,
                version: 0,
                name,
                location_type: LocationType::Virtual,
                address: None,
                coordinates: None,
                virtual_location: Some(virtual_location),
                parent_id: None,
                metadata: Vec::new(),
                archived: false,
            },
        )
    }

    /// A physical location known by its coordinates; fails when they are out of range.
    pub fn new_from_coordinates(id: u128, name: String, coordinates: GeoCoordinates) -> (r: Result<
        Location,
        DomainError,
    >)
        ensures
            state_of(r) == match coordinates.validate_result() {
                Ok(_) => Ok(
                    fresh_state(id, name, LocationType::Physical, None, Some(coordinates), None),
                ),
                Err(e) => Err::<LocationState, DomainError>(e),
            },
    {
        match coordinates.validate() {
            Err(e) => Err(e),
            Ok(()) => Ok(
                Location {
                    id,
                    version: 0,
                    name,
                    location_type: LocationType::Physical,
                    address: None,
                    coordinates: Some(coordinates),
                    virtual_location: None,
                    parent_id: None,
                    metadata: Vec::new(),
                    archived: false,
                },
            ),
        }
    }

    pub fn set_address(&mut self, address: Address) -> (r: Result<(), DomainError>)
        ensures
            change_outcome(r, old(self)@, final(self)@, set_address_spec(old(self)@, address)),
    {
        let v = address.validate();
        if let Err(e) = v {
            return Err(e);
        }
        if matches!(self.location_type, LocationType::Virtual) {
            return Err(DomainError::ValidationError(ValidationRule::AddressOnVirtualLocation));
        }
        self.address = Some(address);
        Ok(())
    }

    pub fn set_coordinates(&mut self, coordinates: GeoCoordinates) -> (r: Result<(), DomainError>)
        ensures
            change_outcome(
                r,
                old(self)@,
                final(self)@,
                set_coordinates_spec(old(self)@, coordinates),
            ),
    {
        let v = coordinates.validate();
        if let Err(e) = v {
            return Err(e);
        }
        if matches!(self.location_type, LocationType::Virtual) {
            return Err(DomainError::ValidationError(ValidationRule::CoordinatesOnVirtualLocation));
        }
        self.coordinates = Some(coordinates);
        Ok(())
    }

    pub fn set_parent(&mut self, parent_id: u128) -> (r: Result<(), DomainError>)
        ensures
            change_outcome(r, old(self)@, final(self)@, set_parent_spec(old(self)@, parent_id)),
    {
        if parent_id == self.id {
            return Err(DomainError::ValidationError(ValidationRule::OwnParent));
        }
        self.parent_id = Some(parent_id);
        Ok(())
    }

    /// Sets the metadata entry `key` to `value`.
    pub fn add_metadata(&mut self, key: String, value: String)
        ensures
            final(self)@ == (LocationState {
                metadata: upsert(old(self)@.metadata, key, value),
                ..old(self)@
            }),
            keys_unique(old(self).metadata@) ==> keys_unique(final(self).metadata@),
    {
        proof {
            if keys_unique(self.metadata@) {
                lemma_upsert_keeps_keys_unique(self.metadata@, key, value);
            }
        }
        upsert_entry(&mut self.metadata, key, value);
    }

    /// Replaces each detail that is given; fails on an archived location or an invalid value.
    pub fn update_details(
        &mut self,
        name: Option<String>,
        address: Option<Address>,
        coordinates: Option<GeoCoordinates>,
        virtual_location: Option<VirtualLocation>,
    ) -> (r: Result<(), DomainError>)
        ensures
            change_outcome(
                r,
                old(self)@,
                final(self)@,
                update_details_spec(old(self)@, name, address, coordinates, virtual_location),
            ),
    {
        if self.archived {
            return Err(DomainError::ValidationError(ValidationRule::UpdateArchived));
        }
        if let Some(a) = &address {
            let v = a.validate();
            if let Err(e) = v {
                return Err(e);
            }
        }
        if let Some(c) = &coordinates {
            let v = c.validate();
            if let Err(e) = v {
                return Err(e);
            }
        }
        if let Some(n) = name {
            self.name = n;
        }
        if address.is_some() {
            self.address = address;
        }
        if coordinates.is_some() {
            self.coordinates = coordinates;
        }
        if virtual_location.is_some() {
            self.virtual_location = virtual_location;
        }
        Ok(())
    }

    /// Sets each entry of `metadata` in turn.
    pub fn add_metadata_bulk(&mut self, metadata: Vec<(String, String)>)
        ensures
            final(self)@ == (LocationState {
                metadata: upsert_all(old(self)@.metadata, metadata@),
                ..old(self)@
            }),
            keys_unique(old(self).metadata@) ==> keys_unique(final(self).metadata@),
    {
        proof {
            if keys_unique(self.metadata@) {
                lemma_upsert_all_keeps_keys_unique(self.metadata@, metadata@);
            }
        }
        upsert_entries(&mut self.metadata, &metadata);
    }

    /// Makes the location top-level; fails when it is archived.
    pub fn remove_parent(&mut self) -> (r: Result<(), DomainError>)
        ensures
            change_outcome(r, old(self)@, final(self)@, remove_parent_spec(old(self)@)),
    {
        if self.archived {
            return Err(DomainError::ValidationError(ValidationRule::ModifyArchived));
        }
        self.parent_id = None;
        Ok(())
    }

    /// Archives the location; fails when it already is.
    pub fn archive(&mut self) -> (r: Result<(), DomainError>)
        ensures
            change_outcome(r, old(self)@, final(self)@, archive_spec(old(self)@)),
    {
        if self.archived {
            return Err(DomainError::ValidationError(ValidationRule::AlreadyArchived));
        }
        self.archived = true;
        Ok(())
    }

    pub fn is_archived(&self) -> (r: bool)
        ensures
            r == self.archived,
    {
        self.archived
    }

    pub fn get_metadata(&self) -> (r: &Vec<(String, String)>)
        ensures
            r@ == self.metadata@,
    {
        &self.metadata
    }

    pub fn id(&self) -> (r: u128)
        ensures
            r == self.id,
    {
        self.id
    }

    pub fn version(&self) -> (r: u64)
        ensures
            r == self.version,
    {
        self.version
    }

    pub fn increment_version(&mut self)
        requires
            old(self).version < u64::MAX,
        ensures
            final(self)@ == (LocationState { version: old(self)@.version + 1, ..old(self)@ }),
    {
        self.version = self.version + 1;
    }

    /// Applies one event: the fold step of reconstruction. The event must
    /// belong to this location; a defining event is rejected, as is any
    /// change the location refuses.
    pub fn apply_event_pure(self, event: LocationDomainEvent) -> (r: Result<Location, DomainError>)
        requires
            self.version < u64::MAX,
        ensures
            state_of(r) == apply_spec(self@, event),
    {
        let mut loc = self;
        let found = event.aggregate_id();
        if found != loc.id {
            return Err(DomainError::AggregateMismatch { expected: loc.id, found });
        }
        let changed = match event {
            LocationDomainEvent::LocationDefined(_) => Err(DomainError::AlreadyDefined),
            LocationDomainEvent::LocationUpdated(u) => loc.update_details(
                u.name,
                u.address,
                u.coordinates,
                u.virtual_location,
            ),
            LocationDomainEvent::ParentLocationSet(p) => loc.set_parent(p.parent_id),
            LocationDomainEvent::ParentLocationRemoved(_) => loc.remove_parent(),
            LocationDomainEvent::LocationMetadataAdded(m) => {
                loc.add_metadata_bulk(m.added_metadata);
                Ok(())
            },
            LocationDomainEvent::LocationArchived(_) => loc.archive(),
        };
        match changed {
            Ok(()) => {
                loc.increment_version();
                Ok(loc)
            },
            Err(e) => Err(e),
        }
    }
}

} // verus!
