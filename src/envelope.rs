//! The event envelope: the durable unit of record (identity, time, actor,
//! aggregate id, sequence, event type and payload), the messages that carry a
//! payload before it becomes an envelope, and the routing keys an envelope is
//! delivered under.
use vstd::prelude::*;
use crate::identity::{
    caused_identity, root_identity, uuid_text, uuid_text_of, wall_clock_millis, ActorId,
    CausationId, CorrelationId, EventMetadata, IdentityError, MessageId, MessageIdentity,
    FUTURE_TOLERANCE_MS,
};

verus! {

/// An event as recorded in the log. The payload is the event's serialized
/// form (JSON); content identifiers are kept in their binary form.
#[derive(Clone, Debug)]
pub struct CimDomainEvent {
    pub metadata: EventMetadata,
    pub aggregate_id: String,
    /// Position in the aggregate's history, from 1, without gaps.
    pub sequence: u64,
    pub event_cid: Option<Vec<u8>>,
    pub previous_cid: Option<Vec<u8>>,
    pub event_type: String,
    pub payload: Vec<u8>,
}

impl CimDomainEvent {
    /// What [`CimDomainEvent::validate_at`] returns.
    pub open spec fn validate_result(self, now: i64, tolerance_ms: i64) -> Result<(), IdentityError> {
        if !self.metadata.identity.well_formed() {
            self.metadata.identity.validate_result()
        } else if self.metadata.too_far_ahead(now, tolerance_ms) {
            Err(IdentityError::FutureTimestamp { timestamp: self.metadata.timestamp, now })
        } else if self.aggregate_id@.len() == 0 {
            Err(IdentityError::EmptyAggregateId)
        } else if self.event_type@.len() == 0 {
            Err(IdentityError::EmptyEventType)
        } else {
            Ok(())
        }
    }

    /// An envelope stamped now: a root identity without a parent, else one
    /// caused by the parent.
    pub fn new(
        aggregate_id: String,
        sequence: u64,
        event_type: String,
        payload: Vec<u8>,
        parent_identity: Option<&MessageIdentity>,
        actor: Option<ActorId>,
    ) -> (r: CimDomainEvent)
        ensures
            r.aggregate_id == aggregate_id,
            r.sequence == sequence,
            r.event_type == event_type,
            r.payload@ == payload@,
            r.event_cid is None,
            r.previous_cid is None,
            r.metadata.actor == actor,
            r.metadata.identity == match parent_identity {
                Some(p) => caused_identity(*p, r.metadata.identity.message_id),
                None => root_identity(r.metadata.identity.message_id),
            },
            parent_identity matches Some(p) ==> r.metadata.identity.message_id != p.message_id,
    {
        let metadata = match parent_identity {
            Some(parent) => EventMetadata::new_caused_by(parent, actor),
            None => EventMetadata::new_root(actor),
        };
        CimDomainEvent {
            metadata,
            aggregate_id,
            sequence,
            event_cid: None,
            previous_cid: None,
            event_type,
            payload,
        }
    }

    /// Sets the content identifiers of the event and of its predecessor.
    pub fn with_cid(self, event_cid: Vec<u8>, previous_cid: Option<Vec<u8>>) -> (r: CimDomainEvent)
        ensures
            r == (CimDomainEvent {
                event_cid: Some(event_cid),
                previous_cid: previous_cid,
                ..self
            }),
    {
        CimDomainEvent { event_cid: Some(event_cid), previous_cid, ..self }
    }

    /// Checks the metadata against `now`, then that the aggregate id and the
    /// event type are not empty.
    pub fn validate_at(&self, now: i64, tolerance_ms: i64) -> (r: Result<(), IdentityError>)
        ensures
            r == self.validate_result(now, tolerance_ms),
    {
        let m = self.metadata.validate_at(now, tolerance_ms);
        if m.is_err() {
            return m;
        }
        if self.aggregate_id.as_str().is_empty() {
            return Err(IdentityError::EmptyAggregateId);
        }
        if self.event_type.as_str().is_empty() {
            return Err(IdentityError::EmptyEventType);
        }
        Ok(())
    }

    /// Checks the envelope against the current wall-clock time with a
    /// tolerance of five minutes.
    pub fn validate(&self) -> (r: Result<(), IdentityError>)
        ensures
            exists|now: i64| r == self.validate_result(now, FUTURE_TOLERANCE_MS),
    {
        self.validate_at(wall_clock_millis(), FUTURE_TOLERANCE_MS)
    }

    pub fn correlation_id(&self) -> (r: CorrelationId)
        ensures
            r == self.metadata.identity.correlation_id,
    {
        self.metadata.identity.correlation_id
    }

    pub fn causation_id(&self) -> (r: CausationId)
        ensures
            r == self.metadata.identity.causation_id,
    {
        self.metadata.identity.causation_id
    }

    pub fn message_id(&self) -> (r: MessageId)
        ensures
            r == self.metadata.identity.message_id,
    {
        self.metadata.identity.message_id
    }

    pub fn is_root_event(&self) -> (r: bool)
        ensures
            r == self.metadata.identity.spec_is_root(),
    {
        self.metadata.identity.is_root()
    }
}

/// A payload with its metadata, before it is recorded.
#[derive(Clone, Debug)]
pub struct CimMessage<T> {
    pub metadata: EventMetadata,
    pub payload: T,
}

impl<T> CimMessage<T> {
    pub fn identity(&self) -> (r: &MessageIdentity)
        ensures
            *r == self.metadata.identity,
    {
        &self.metadata.identity
    }

    /// The envelope of this message, given its payload's serialized form.
    pub fn to_domain_event(
        self,
        aggregate_id: String,
        sequence: u64,
        event_type: String,
        payload: Vec<u8>,
    ) -> (r: CimDomainEvent)
        ensures
            r == (CimDomainEvent {
                metadata: self.metadata,
                aggregate_id,
                sequence,
                event_cid: None,
                previous_cid: None,
                event_type,
                payload,
            }),
    {
        CimDomainEvent {
            metadata: self.metadata,
            aggregate_id,
            sequence,
            event_cid: None,
            previous_cid: None,
            event_type,
            payload,
        }
    }
}

/// Creates messages with properly correlated identities.
pub struct MessageFactory;

impl MessageFactory {
    /// A message that starts a new correlation chain.
    pub fn create_root<T>(payload: T) -> (r: CimMessage<T>)
        ensures
            r.payload == payload,
            r.metadata.identity == root_identity(r.metadata.identity.message_id),
            r.metadata.actor is None,
    {
        CimMessage { metadata: EventMetadata::new_root(None), payload }
    }

    /// A message that starts a new correlation chain, produced by `actor`.
    pub fn create_root_with_actor<T>(payload: T, actor: ActorId) -> (r: CimMessage<T>)
        ensures
            r.payload == payload,
            r.metadata.identity == root_identity(r.metadata.identity.message_id),
            r.metadata.actor == Some(actor),
    {
        CimMessage { metadata: EventMetadata::new_root(Some(actor)), payload }
    }

    /// A message caused by `parent`.
    pub fn create_caused_by<T>(payload: T, parent: &MessageIdentity) -> (r: CimMessage<T>)
        ensures
            r.payload == payload,
            r.metadata.identity == caused_identity(*parent, r.metadata.identity.message_id),
            r.metadata.identity.message_id != parent.message_id,
            r.metadata.actor is None,
    {
        CimMessage { metadata: EventMetadata::new_caused_by(parent, None), payload }
    }

    /// A message caused by `parent`, produced by `actor`.
    pub fn create_caused_by_with_actor<T>(payload: T, parent: &MessageIdentity, actor: ActorId) -> (r:
        CimMessage<T>)
        ensures
            r.payload == payload,
            r.metadata.identity == caused_identity(*parent, r.metadata.identity.message_id),
            r.metadata.identity.message_id != parent.message_id,
            r.metadata.actor == Some(actor),
    {
        CimMessage { metadata: EventMetadata::new_caused_by(parent, Some(actor)), payload }
    }
}

/// The routing keys of an envelope: the per-aggregate key
/// `events.location.{aggregate_id}.{event_type}`, and, when a user produced
/// the event, the user-scoped view `events.location.user.{user}.{event_type}.{aggregate_id}`.
pub open spec fn routing_keys_of(
    aggregate_id: Seq<char>,
    event_type: Seq<char>,
    actor: Option<ActorId>,
) -> Seq<Seq<char>> {
    let aggregate_key = "events.location."@ + aggregate_id + "."@ + event_type;
    match actor {
        Some(ActorId::User(u)) => seq![
            aggregate_key,
            "events.location.user."@ + uuid_text_of(u) + "."@ + event_type + "."@ + aggregate_id,
        ],
        _ => seq![aggregate_key],
    }
}

/// The routing keys of `e`.
pub open spec fn envelope_routing_keys(e: CimDomainEvent) -> Seq<Seq<char>> {
    routing_keys_of(e.aggregate_id@, e.event_type@, e.metadata.actor)
}

/// Derives the routing keys an envelope is delivered under; the first is the
/// per-aggregate key, the others are views over the same event.
pub fn derive_routing_keys(envelope: &CimDomainEvent) -> (r: Vec<String>)
    ensures
        r@.map_values(|k: String| k@) == envelope_routing_keys(*envelope),
{
    let mut keys: Vec<String> = Vec::new();
    let aggregate_key = String::from_str("events.location.").concat(
        envelope.aggregate_id.as_str(),
    ).concat(".").concat(envelope.event_type.as_str());
    keys.push(aggregate_key);
    if let Some(ActorId::User(u)) = &envelope.metadata.actor {
        let user_key = String::from_str("events.location.user.").concat(uuid_text(*u).as_str()).concat(
            ".",
        ).concat(envelope.event_type.as_str()).concat(".").concat(envelope.aggregate_id.as_str());
        keys.push(user_key);
    }
    assert(keys@.map_values(|k: String| k@) =~= envelope_routing_keys(*envelope));
    keys
}

/// Routing keys depend only on the aggregate id, the event type and the
/// actor: two envelopes that agree on those (for instance byte-identical
/// envelopes, or envelopes that differ only in their payload, sequence,
/// identity or time) get the same keys.
pub proof fn lemma_routing_keys_pure(a: CimDomainEvent, b: CimDomainEvent)
    requires
        a.aggregate_id@ == b.aggregate_id@,
        a.event_type@ == b.event_type@,
        a.metadata.actor == b.metadata.actor,
    ensures
        envelope_routing_keys(a) == envelope_routing_keys(b),
{
}

/// `events` continue a history whose last sequence is `last`: one aggregate,
/// sequences `last + 1, last + 2, ...` in order.
pub open spec fn continues_history(
    aggregate_id: Seq<char>,
    last: u64,
    events: Seq<CimDomainEvent>,
) -> bool {
    forall|i: int|
        0 <= i < events.len() ==> #[trigger] events[i].sequence == last + 1 + i
            && events[i].aggregate_id@ == aggregate_id
}

/// Index of the first envelope that breaks the continuation of the history.
pub open spec fn first_break(aggregate_id: Seq<char>, last: u64, events: Seq<CimDomainEvent>, i: int) -> bool {
    &&& 0 <= i < events.len()
    &&& (events[i].sequence != last + 1 + i || events[i].aggregate_id@ != aggregate_id)
    &&& continues_history(aggregate_id, last, events.take(i))
}

/// Checks that a batch to append continues the history of `aggregate_id`
/// after sequence `last`; reports the first envelope that does not.
pub fn check_continuation(aggregate_id: &str, last: u64, events: &Vec<CimDomainEvent>) -> (r: Result<
    (),
    crate::repository::RepositoryError,
>)
    ensures
        r is Ok <==> continues_history(aggregate_id@, last, events@),
        r matches Err(e) ==> exists|i: int|
            first_break(aggregate_id@, last, events@, i) && e == (
            crate::repository::RepositoryError::SequenceMismatch {
                expected: (last + 1 + i) as u64,
                found: events@[i].sequence,
            }),
{
    let mut i: usize = 0;
    while i < events.len()
        invariant
            i <= events@.len(),
            continues_history(aggregate_id@, last, events@.take(i as int)),
        decreases events@.len() - i,
    {
        let e = &events[i];
        let expected: u128 = last as u128 + 1 + i as u128;
        if e.sequence as u128 != expected || !str_eq(e.aggregate_id.as_str(), aggregate_id) {
            assert(first_break(aggregate_id@, last, events@, i as int));
            return Err(
                crate::repository::RepositoryError::SequenceMismatch {
                    expected: expected as u64,
                    found: e.sequence,
                },
            );
        }
        assert forall|j: int| 0 <= j < i + 1 implies #[trigger] events@.take(i + 1)[j].sequence
            == last + 1 + j && events@.take(i + 1)[j].aggregate_id@ == aggregate_id@ by {
            if j < i {
                assert(events@.take(i as int)[j] == events@.take(i + 1)[j]);
            }
        }
        i = i + 1;
    }
    assert(events@.take(events@.len() as int) =~= events@);
    Ok(())
}

/// Whether two strings hold the same characters.
pub fn str_eq(a: &str, b: &str) -> (r: bool)
    ensures
        r == (a@ == b@),
{
    let n = a.unicode_len();
    if n != b.unicode_len() {
        return false;
    }
    let mut i: usize = 0;
    while i < n
        invariant
            n == a@.len(),
            n == b@.len(),
            i <= n,
            forall|j: int| 0 <= j < i ==> a@[j] == b@[j],
        decreases n - i,
    {
        if a.get_char(i) != b.get_char(i) {
            return false;
        }
        i = i + 1;
    }
    assert(a@ =~= b@);
    true
}

} // verus!
