//! Reconstruction of locations from their ordered event history, and the
//! repository's snapshot policy.
//!
//! Reading and appending the history is the event log's work; this module
//! decides what a history means.
use vstd::prelude::*;
use crate::events::{LocationDefined, LocationDomainEvent};
use crate::location::{
    apply_spec, keys_unique, lemma_apply_keeps_keys_unique, Location, LocationState,
};
use crate::identity::IdentityError;
use crate::value_objects::{DomainError, LocationType, ValidationRule};

verus! {

/// What a defining event lacks.
#[derive(Clone, Copy, Debug, PartialEq, Eq, Structural)]
pub enum MissingDetails {
    /// A physical, logical or hybrid location needs an address or coordinates.
    AddressOrCoordinates,
    /// A virtual location needs its virtual details.
    VirtualLocation,
}

/// Errors of loading and saving locations.
#[derive(Clone, Debug, PartialEq, Eq)]
pub enum RepositoryError {
    /// The event log failed; the text is its report. Transient.
    EventStoreFailed(String),
    /// The history does not start with a defining event.
    InvalidEventSequence,
    /// A later event was rejected by the state built so far.
    EventApplicationFailed(DomainError),
    /// The defining event lacks what its location type needs.
    InvalidEvent(MissingDetails),
    /// The defining event holds an invalid value.
    AggregateCreationFailed(DomainError),
    AggregateNotFound,
    /// A batch to append does not continue the history gaplessly.
    SequenceMismatch { expected: u64, found: u64 },
    /// An envelope to append is structurally invalid.
    InvalidEnvelope(IdentityError),
}

/// Errors of the event log.
#[derive(Clone, Debug, PartialEq, Eq)]
pub enum NatsError {
    StreamCreationFailed(String),
    PublishFailed(String),
    ConsumerCreationFailed(String),
    FetchFailed(String),
    AckFailed(String),
    SerializationError(String),
    DeserializationError(String),
    ConnectionError(String),
}

/// Errors of publishing to the event log.
#[derive(Clone, Debug, PartialEq, Eq)]
pub enum PublishError {
    ConnectionError(String),
    PublishFailed(String),
    StreamNotFound(String),
    SerializationError(String),
}

/// Errors of querying the event log.
#[derive(Clone, Debug, PartialEq, Eq)]
pub enum QueryError {
    QueryFailed(String),
    ConsumerError(String),
    DeserializationError(String),
}

/// The state a defining event builds (version 1, no metadata, not archived),
/// or why it cannot. A virtual location takes no address or coordinates, as
/// the aggregate itself refuses them; a definition that carries them fails.
pub open spec fn defined_state(e: LocationDefined) -> Result<LocationState, RepositoryError> {
    let placed = e.address is Some || e.coordinates is Some;
    if e.location_type == LocationType::Virtual && e.virtual_location is None {
        Err(RepositoryError::InvalidEvent(MissingDetails::VirtualLocation))
    } else if e.location_type != LocationType::Virtual && !placed {
        Err(RepositoryError::InvalidEvent(MissingDetails::AddressOrCoordinates))
    } else if e.location_type == LocationType::Virtual && e.address is Some {
        Err(
            RepositoryError::AggregateCreationFailed(
                DomainError::ValidationError(ValidationRule::AddressOnVirtualLocation),
            ),
        )
    } else if e.location_type == LocationType::Virtual && e.coordinates is Some {
        Err(
            RepositoryError::AggregateCreationFailed(
                DomainError::ValidationError(ValidationRule::CoordinatesOnVirtualLocation),
            ),
        )
    } else if e.address is Some && e.address->Some_0.validate_result() is Err {
        Err(RepositoryError::AggregateCreationFailed(e.address->Some_0.validate_result()->Err_0))
    } else if e.coordinates is Some && e.coordinates->Some_0.validate_result() is Err {
        Err(
            RepositoryError::AggregateCreationFailed(e.coordinates->Some_0.validate_result()->Err_0),
        )
    } else {
        Ok(
            LocationState {
                id: e.location_id,
                version: 1,
                name: e.name,
                location_type: e.location_type,
                address: e.address,
                coordinates: e.coordinates,
                virtual_location: e.virtual_location,
                parent_id: e.parent_id,
                metadata: Seq::empty(),
                archived: false,
            },
        )
    }
}

/// Folds `events` into `s` in order, stopping at the first rejected event.
pub open spec fn fold_events(s: LocationState, events: Seq<LocationDomainEvent>) -> Result<
    LocationState,
    DomainError,
>
    decreases events.len(),
{
    if events.len() == 0 {
        Ok(s)
    } else {
        match fold_events(s, events.drop_last()) {
            Ok(t) => apply_spec(t, events.last()),
            Err(e) => Err(e),
        }
    }
}

/// What a history means: no location when it is empty; else the state its
/// defining first event builds with every later event folded in; or the
/// first error met.
pub open spec fn replay(events: Seq<LocationDomainEvent>) -> Result<
    Option<LocationState>,
    RepositoryError,
> {
    if events.len() == 0 {
        Ok(None)
    } else {
        match events[0] {
            LocationDomainEvent::LocationDefined(d) => match defined_state(d) {
                Err(e) => Err(e),
                Ok(s) => match fold_events(s, events.subrange(1, events.len() as int)) {
                    Ok(t) => Ok(Some(t)),
                    Err(e) => Err(RepositoryError::EventApplicationFailed(e)),
                },
            },
            _ => Err(RepositoryError::InvalidEventSequence),
        }
    }
}

/// The states a reconstruction result holds.
pub open spec fn replay_outcome(r: Result<Option<Location>, RepositoryError>) -> Result<
    Option<LocationState>,
    RepositoryError,
> {
    match r {
        Ok(Some(l)) => Ok(Some(l@)),
        Ok(None) => Ok(None),
        Err(e) => Err(e),
    }
}

/// Folding events into a state with unique metadata keys keeps them unique.
pub proof fn lemma_fold_keeps_keys_unique(s: LocationState, events: Seq<LocationDomainEvent>)
    requires
        keys_unique(s.metadata),
    ensures
        fold_events(s, events) matches Ok(t) ==> keys_unique(t.metadata),
    decreases events.len(),
{
    if events.len() > 0 {
        lemma_fold_keeps_keys_unique(s, events.drop_last());
        if let Ok(t) = fold_events(s, events.drop_last()) {
            lemma_apply_keeps_keys_unique(t, events.last());
        }
    }
}

/// Every replayed location has unique metadata keys.
pub proof fn lemma_replay_keys_unique(events: Seq<LocationDomainEvent>)
    ensures
        replay(events) matches Ok(Some(t)) ==> keys_unique(t.metadata),
{
    if events.len() > 0 {
        if let LocationDomainEvent::LocationDefined(d) = events[0] {
            if let Ok(s) = defined_state(d) {
                lemma_fold_keeps_keys_unique(s, events.subrange(1, events.len() as int));
            }
        }
    }
}

/// Builds the initial state from a defining event.
pub fn create_from_defined_event(event: LocationDefined) -> (r: Result<Location, RepositoryError>)
    ensures
        match (r, defined_state(event)) {
            (Ok(l), Ok(s)) => l@ == s,
            (Err(e), Err(f)) => e == f,
            _ => false,
        },
{
    let placed = event.address.is_some() || event.coordinates.is_some();
    if matches!(event.location_type, LocationType::Virtual) && event.virtual_location.is_none() {
        return Err(RepositoryError::InvalidEvent(MissingDetails::VirtualLocation));
    }
    if !matches!(event.location_type, LocationType::Virtual) && !placed {
        return Err(RepositoryError::InvalidEvent(MissingDetails::AddressOrCoordinates));
    }
    if matches!(event.location_type, LocationType::Virtual) && event.address.is_some() {
        return Err(
            RepositoryError::AggregateCreationFailed(
                DomainError::ValidationError(ValidationRule::AddressOnVirtualLocation),
            ),
        );
    }
    if matches!(event.location_type, LocationType::Virtual) && event.coordinates.is_some() {
        return Err(
            RepositoryError::AggregateCreationFailed(
                DomainError::ValidationError(ValidationRule::CoordinatesOnVirtualLocation),
            ),
        );
    }
    if let Some(a) = &event.address {
        if let Err(e) = a.validate() {
            return Err(RepositoryError::AggregateCreationFailed(e));
        }
    }
    if let Some(c) = &event.coordinates {
        if let Err(e) = c.validate() {
            return Err(RepositoryError::AggregateCreationFailed(e));
        }
    }
    Ok(
        Location {
            id: event.location_id,
            version: 1,
            name: event.name,
            location_type: event.location_type,
            address: event.address,
            coordinates: event.coordinates,
            virtual_location: event.virtual_location,
            parent_id: event.parent_id,
            metadata: Vec::new(),
            archived: false,
        },
    )
}

/// Once a fold fails on a prefix, it fails with the same error on the whole.
proof fn lemma_fold_error_persists(s: LocationState, events: Seq<LocationDomainEvent>, n: int)
    requires
        0 <= n <= events.len(),
        fold_events(s, events.take(n)) is Err,
    ensures
        fold_events(s, events) == fold_events(s, events.take(n)),
    decreases events.len() - n,
{
    if n < events.len() {
        assert(events.take(n + 1).drop_last() =~= events.take(n));
        lemma_fold_error_persists(s, events, n + 1);
    } else {
        assert(events.take(n) =~= events);
    }
}

/// Rebuilds a location from its ordered history: `None` for an empty one,
/// else the state that replaying every event gives; never a partial state.
pub fn reconstruct(events: Vec<LocationDomainEvent>) -> (r: Result<
    Option<Location>,
    RepositoryError,
>)
    ensures
        replay_outcome(r) == replay(events@),
        r matches Ok(Some(l)) ==> keys_unique(l.metadata@),
{
    proof {
        lemma_replay_keys_unique(events@);
    }
    let ghost evs = events@;
    let n = events.len();
    if n == 0 {
        return Ok(None);
    }
    let mut later = events;
    let first = later.remove(0);
    let ghost rest = later@;
    assert(rest =~= evs.subrange(1, evs.len() as int));
    let defined = match first {
        LocationDomainEvent::LocationDefined(d) => d,
        _ => return Err(RepositoryError::InvalidEventSequence),
    };
    let ghost d0 = defined;
    let mut loc = match create_from_defined_event(defined) {
        Ok(l) => l,
        Err(e) => return Err(e),
    };
    let ghost s0 = loc@;
    let mut i: usize = 0;
    for ev in it: later.into_iter()
        invariant
            it.seq() == rest,
            rest == evs.subrange(1, evs.len() as int),
            evs == events@,
            evs[0] == LocationDomainEvent::LocationDefined(d0),
            evs.len() == n,
            rest.len() < n,
            n <= usize::MAX,
            defined_state(d0) == Ok::<LocationState, RepositoryError>(s0),
            fold_events(s0, rest.take(it.index() as int)) == Ok::<LocationState, DomainError>(
                loc@,
            ),
            loc.version == it.index() + 1,
    {
        let ghost idx = it.index() as int;
        let ghost before = loc@;
        proof {
            assert(rest.take(idx + 1).drop_last() =~= rest.take(idx));
            assert(ev == rest[idx]);
            assert(rest.take(idx + 1).last() == rest[idx]);
        }
        match loc.apply_event_pure(ev) {
            Ok(next) => {
                loc = next;
            },
            Err(e) => {
                proof {
                    assert(fold_events(s0, rest.take(idx + 1)) == apply_spec(before, rest[idx]));
                    lemma_fold_error_persists(s0, rest, idx + 1);
                }
                return Err(RepositoryError::EventApplicationFailed(e));
            },
        }
    }
    assert(rest.take(rest.len() as int) =~= rest);
    Ok(Some(loc))
}

/// Replaying one history twice gives equal results: two results that each
/// meet [`reconstruct`]'s contract for the same events hold the same state.
pub proof fn lemma_replay_deterministic(
    events: Seq<LocationDomainEvent>,
    first: Result<Option<Location>, RepositoryError>,
    second: Result<Option<Location>, RepositoryError>,
)
    requires
        replay_outcome(first) == replay(events),
        replay_outcome(second) == replay(events),
    ensures
        replay_outcome(first) == replay_outcome(second),
{
}

/// A non-empty history that does not start with a defining event is always
/// rejected as an invalid sequence, never turned into a location.
pub proof fn lemma_leading_event(events: Seq<LocationDomainEvent>)
    requires
        events.len() > 0,
        !(events[0] is LocationDefined),
    ensures
        replay(events) == Err::<Option<LocationState>, RepositoryError>(
            RepositoryError::InvalidEventSequence,
        ),
{
}

/// Default number of appended events between snapshots.
pub const DEFAULT_SNAPSHOT_FREQUENCY: u64 = 100;

/// The repository's policy: how many appended events may pass before the
/// folded state should be checkpointed (0: never). Reconstruction always
/// replays the full history; the policy only says when a checkpoint is due.
pub struct LocationRepository {
    snapshot_frequency: u64,
}

impl LocationRepository {
    pub closed spec fn spec_snapshot_frequency(self) -> u64 {
        self.snapshot_frequency
    }

    /// A repository that checkpoints every 100 events.
    pub fn new() -> (r: LocationRepository)
        ensures
            r.spec_snapshot_frequency() == DEFAULT_SNAPSHOT_FREQUENCY,
    {
        LocationRepository { snapshot_frequency: DEFAULT_SNAPSHOT_FREQUENCY }
    }

    pub fn with_snapshot_frequency(self, frequency: u64) -> (r: LocationRepository)
        ensures
            r.spec_snapshot_frequency() == frequency,
    {
        LocationRepository { snapshot_frequency: frequency }
    }

    pub fn snapshot_frequency(&self) -> (r: u64)
        ensures
            r == self.spec_snapshot_frequency(),
    {
        self.snapshot_frequency
    }

    /// Whether a checkpoint is due after `appended_since_checkpoint` events.
    pub fn snapshot_due(&self, appended_since_checkpoint: u64) -> (r: bool)
        ensures
            r == (self.spec_snapshot_frequency() != 0 && appended_since_checkpoint
                >= self.spec_snapshot_frequency()),
    {
        self.snapshot_frequency != 0 && appended_since_checkpoint >= self.snapshot_frequency
    }

    /// Rebuilds the location whose history is `events`.
    pub fn load(&self, events: Vec<LocationDomainEvent>) -> (r: Result<
        Option<Location>,
        RepositoryError,
    >)
        ensures
            replay_outcome(r) == replay(events@),
    {
        reconstruct(events)
    }
}

} // verus!
