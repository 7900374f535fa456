//! Message identity algebra.
//!
//! Every message carries a `message_id`, a `correlation_id` shared by the
//! whole workflow it belongs to, and a `causation_id` naming the message that
//! directly produced it. Identifiers are 128-bit values (random UUIDs).
use vstd::prelude::*;

verus! {

/// Relies on `uuid::Uuid::new_v4` and `Uuid::as_u128`: a fresh random
/// identifier. Nothing is promised about its value.
#[verifier::external_body]
fn fresh_uuid() -> (r: u128) {
    uuid::Uuid::new_v4().as_u128()
}

/// Unique identifier of one message.
#[derive(Clone, Copy, Debug, PartialEq, Eq, Hash, Structural)]
pub struct MessageId(pub u128);

/// Identifier shared by every message of one logical operation.
#[derive(Clone, Copy, Debug, PartialEq, Eq, Hash, Structural)]
pub struct CorrelationId(pub u128);

/// Identifier of the message that directly caused another one.
#[derive(Clone, Copy, Debug, PartialEq, Eq, Hash, Structural)]
pub struct CausationId(pub u128);

impl MessageId {
    /// A freshly generated identifier.
    pub fn new() -> (r: MessageId) {
        MessageId(fresh_uuid())
    }

    pub fn from_uuid(uuid: u128) -> (r: MessageId)
        ensures
            r.0 == uuid,
    {
        MessageId(uuid)
    }

    pub fn as_uuid(&self) -> (r: u128)
        ensures
            r == self.0,
    {
        self.0
    }
}

impl CorrelationId {
    /// A freshly generated identifier.
    pub fn new() -> (r: CorrelationId) {
        CorrelationId(fresh_uuid())
    }

    pub fn from_uuid(uuid: u128) -> (r: CorrelationId)
        ensures
            r.0 == uuid,
    {
        CorrelationId(uuid)
    }

    pub fn as_uuid(&self) -> (r: u128)
        ensures
            r == self.0,
    {
        self.0
    }
}

impl CausationId {
    /// A freshly generated identifier.
    pub fn new() -> (r: CausationId) {
        CausationId(fresh_uuid())
    }

    pub fn from_uuid(uuid: u128) -> (r: CausationId)
        ensures
            r.0 == uuid,
    {
        CausationId(uuid)
    }

    pub fn as_uuid(&self) -> (r: u128)
        ensures
            r == self.0,
    {
        self.0
    }
}

impl From<MessageId> for CorrelationId {
    fn from(message_id: MessageId) -> (r: CorrelationId) {
        CorrelationId(message_id.0)
    }
}

impl vstd::std_specs::convert::FromSpecImpl<MessageId> for CorrelationId {
    open spec fn obeys_from_spec() -> bool {
        true
    }

    open spec fn from_spec(v: MessageId) -> CorrelationId {
        CorrelationId(v.0)
    }
}

impl From<MessageId> for CausationId {
    fn from(message_id: MessageId) -> (r: CausationId) {
        CausationId(message_id.0)
    }
}

impl vstd::std_specs::convert::FromSpecImpl<MessageId> for CausationId {
    open spec fn obeys_from_spec() -> bool {
        true
    }

    open spec fn from_spec(v: MessageId) -> CausationId {
        CausationId(v.0)
    }
}

/// The identity triple carried by every event, command and query.
#[derive(Clone, Copy, Debug, PartialEq, Eq, Hash, Structural)]
pub struct MessageIdentity {
    pub message_id: MessageId,
    pub correlation_id: CorrelationId,
    pub causation_id: CausationId,
}

/// The root identity built from `id`: all three identifiers equal `id`.
pub open spec fn root_identity(id: MessageId) -> MessageIdentity {
    MessageIdentity {
        message_id: id,
        correlation_id: CorrelationId(id.0),
        causation_id: CausationId(id.0),
    }
}

/// The identity caused by `parent` whose own identifier is `id`.
pub open spec fn caused_identity(parent: MessageIdentity, id: MessageId) -> MessageIdentity {
    MessageIdentity {
        message_id: id,
        correlation_id: parent.correlation_id,
        causation_id: CausationId(parent.message_id.0),
    }
}

impl MessageIdentity {
    /// All three identifiers are equal.
    pub open spec fn spec_is_root(self) -> bool {
        self.message_id.0 == self.correlation_id.0 && self.correlation_id.0 == self.causation_id.0
    }

    /// A valid root, or a valid caused identity (`causation_id != message_id`).
    pub open spec fn well_formed(self) -> bool {
        self.spec_is_root() || self.causation_id.0 != self.message_id.0
    }

    /// The identity that opens a new workflow, with a fresh identifier.
    pub fn new_root() -> (r: MessageIdentity)
        ensures
            r == root_identity(r.message_id),
            r.spec_is_root(),
            r.well_formed(),
    {
        Self::root_with_id(MessageId::new())
    }

    /// The root identity whose identifiers all equal `id`.
    pub fn root_with_id(id: MessageId) -> (r: MessageIdentity)
        ensures
            r == root_identity(id),
    {
        MessageIdentity {
            message_id: id,
            correlation_id: CorrelationId::from(id),
            causation_id: CausationId::from(id),
        }
    }

    /// The identity of a message produced by `parent`, with a fresh identifier:
    /// the correlation is inherited and the causation is the parent's message.
    /// A drawn identifier that equals the parent's message id is moved to the
    /// next value, so the new message never repeats its parent's id.
    pub fn new_caused_by(parent: &MessageIdentity) -> (r: MessageIdentity)
        ensures
            r == caused_identity(*parent, r.message_id),
            r.correlation_id == parent.correlation_id,
            r.causation_id.0 == parent.message_id.0,
            r.message_id != parent.message_id,
            !r.spec_is_root(),
    {
        let drawn = MessageId::new();
        Self::caused_with_id(parent, Self::distinct_from(drawn, parent.message_id))
    }

    /// `drawn`, unless it equals `taken`: then the next identifier (wrapping).
    pub fn distinct_from(drawn: MessageId, taken: MessageId) -> (r: MessageId)
        ensures
            r != taken,
            drawn != taken ==> r == drawn,
    {
        if drawn.0 != taken.0 {
            drawn
        } else if drawn.0 == u128::MAX {
            MessageId(0)
        } else {
            MessageId(drawn.0 + 1)
        }
    }

    /// The identity of a message produced by `parent` whose identifier is `id`.
    pub fn caused_with_id(parent: &MessageIdentity, id: MessageId) -> (r: MessageIdentity)
        ensures
            r == caused_identity(*parent, id),
    {
        MessageIdentity {
            message_id: id,
            correlation_id: parent.correlation_id,
            causation_id: CausationId::from(parent.message_id),
        }
    }

    /// What [`MessageIdentity::validate`] returns.
    pub open spec fn validate_result(self) -> Result<(), IdentityError> {
        if self.well_formed() {
            Ok(())
        } else {
            Err(
                IdentityError::InvalidIdentityStructure {
                    message_id: self.message_id.0,
                    correlation_id: self.correlation_id.0,
                    causation_id: self.causation_id.0,
                },
            )
        }
    }

    /// Succeeds exactly on well-formed identities.
    pub fn validate(&self) -> (r: Result<(), IdentityError>)
        ensures
            r == self.validate_result(),
    {
        if self.message_id.0 == self.correlation_id.0 && self.correlation_id.0 == self.causation_id.0 {
            return Ok(());
        }
        if self.causation_id.0 != self.message_id.0 {
            return Ok(());
        }
        Err(
            IdentityError::InvalidIdentityStructure {
                message_id: self.message_id.0,
                correlation_id: self.correlation_id.0,
                causation_id: self.causation_id.0,
            },
        )
    }

    pub fn is_root(&self) -> (r: bool)
        ensures
            r == self.spec_is_root(),
    {
        self.message_id.0 == self.correlation_id.0 && self.correlation_id.0 == self.causation_id.0
    }

    /// 0 for a root, 1 for any other identity: a non-root identity alone does
    /// not show how far from its root it sits, only that it is not the root.
    /// [`causal_depth`] gives the exact depth within a checked chain.
    pub fn chain_depth(&self) -> (r: u32)
        ensures
            r == (if self.spec_is_root() { 0u32 } else { 1u32 }),
    {
        if self.is_root() {
            0
        } else {
            1
        }
    }
}

/// A root identity has its three identifiers equal, is a root, and validates.
pub proof fn lemma_root_invariant(id: MessageId)
    ensures
        root_identity(id).message_id.0 == root_identity(id).correlation_id.0,
        root_identity(id).correlation_id.0 == root_identity(id).causation_id.0,
        root_identity(id).spec_is_root(),
        root_identity(id).validate_result() is Ok,
{
}

/// `chain` starts with a root identity and each later identity was caused by
/// the one before it.
pub open spec fn is_causal_chain(chain: Seq<MessageIdentity>) -> bool {
    &&& chain.len() >= 1
    &&& chain[0] == root_identity(chain[0].message_id)
    &&& forall|i: int|
        1 <= i < chain.len() ==> #[trigger] chain[i] == caused_identity(
            chain[i - 1],
            chain[i].message_id,
        )
}

/// Along a causal chain every identity shares the root's correlation id, each
/// causation id is the previous message id, and only the root is a root
/// (given that each fresh identifier differs from its parent's, which
/// [`MessageIdentity::new_caused_by`] ensures).
pub proof fn lemma_causal_propagation(chain: Seq<MessageIdentity>)
    requires
        is_causal_chain(chain),
        forall|i: int|
            1 <= i < chain.len() ==> #[trigger] chain[i].message_id != chain[i - 1].message_id,
    ensures
        forall|i: int|
            0 <= i < chain.len() ==> #[trigger] chain[i].correlation_id == chain[0].correlation_id,
        forall|i: int|
            1 <= i < chain.len() ==> #[trigger] chain[i].causation_id.0 == chain[i
                - 1].message_id.0,
        chain[0].spec_is_root(),
        forall|i: int| 1 <= i < chain.len() ==> !#[trigger] chain[i].spec_is_root(),
{
    lemma_chain_correlation(chain, chain.len() as int);
    assert forall|i: int| 1 <= i < chain.len() implies !#[trigger] chain[i].spec_is_root() by {
        assert(chain[i] == caused_identity(chain[i - 1], chain[i].message_id));
        if i >= 2 {
            assert(chain[i - 1] == caused_identity(chain[i - 2], chain[i - 1].message_id));
        }
    }
}

proof fn lemma_chain_correlation(chain: Seq<MessageIdentity>, n: int)
    requires
        is_causal_chain(chain),
        1 <= n <= chain.len(),
    ensures
        forall|i: int| 0 <= i < n ==> #[trigger] chain[i].correlation_id == chain[0].correlation_id,
    decreases n,
{
    if n > 1 {
        lemma_chain_correlation(chain, n - 1);
        assert(chain[n - 1] == caused_identity(chain[n - 2], chain[n - 1].message_id));
    }
}

/// Whether the identity at `i` fits the chain: the first is a root, each
/// later one is caused by the one before it, and no message id comes back.
pub open spec fn link_check(chain: Seq<MessageIdentity>, i: int) -> Result<(), IdentityError> {
    let c = chain[i];
    if (i == 0 && !c.spec_is_root()) || (i > 0 && c != caused_identity(chain[i - 1], c.message_id)) {
        Err(
            IdentityError::InvalidIdentityStructure {
                message_id: c.message_id.0,
                correlation_id: c.correlation_id.0,
                causation_id: c.causation_id.0,
            },
        )
    } else if exists|j: int| 0 <= j < i && #[trigger] chain[j].message_id == c.message_id {
        Err(IdentityError::CausationCycle)
    } else {
        Ok(())
    }
}

/// The first problem of a chain of identities, checked from its root.
pub open spec fn chain_check(chain: Seq<MessageIdentity>) -> Result<(), IdentityError>
    decreases chain.len(),
{
    if chain.len() == 0 {
        Ok(())
    } else {
        match chain_check(chain.drop_last()) {
            Err(e) => Err(e),
            Ok(()) => link_check(chain, chain.len() - 1),
        }
    }
}

proof fn lemma_chain_check_error_persists(chain: Seq<MessageIdentity>, n: int)
    requires
        0 <= n <= chain.len(),
        chain_check(chain.take(n)) is Err,
    ensures
        chain_check(chain) == chain_check(chain.take(n)),
    decreases chain.len() - n,
{
    if n < chain.len() {
        assert(chain.take(n + 1).drop_last() =~= chain.take(n));
        lemma_chain_check_error_persists(chain, n + 1);
    } else {
        assert(chain.take(n) =~= chain);
    }
}

/// Checks a chain of identities from its root: fails at the first identity
/// that is not a root (first place) or not caused by its predecessor, or
/// whose message id already occurred (a causation cycle).
pub fn validate_chain(chain: &Vec<MessageIdentity>) -> (r: Result<(), IdentityError>)
    ensures
        r == chain_check(chain@),
{
    let n = chain.len();
    let mut i: usize = 0;
    while i < n
        invariant
            n == chain@.len(),
            i <= n,
            chain_check(chain@.take(i as int)) is Ok,
        decreases n - i,
    {
        let ghost pre = chain@.take(i + 1);
        assert(pre.drop_last() =~= chain@.take(i as int));
        assert(forall|j: int| 0 <= j <= i ==> pre[j] == chain@[j]);
        let c = chain[i];
        let linked = if i == 0 {
            c.is_root()
        } else {
            c == MessageIdentity::caused_with_id(&chain[i - 1], c.message_id)
        };
        if !linked {
            proof {
                lemma_chain_check_error_persists(chain@, i + 1);
            }
            return Err(
                IdentityError::InvalidIdentityStructure {
                    message_id: c.message_id.0,
                    correlation_id: c.correlation_id.0,
                    causation_id: c.causation_id.0,
                },
            );
        }
        let mut j: usize = 0;
        while j < i
            invariant
                i < n,
                n == chain@.len(),
                j <= i,
                c == chain@[i as int],
                forall|k: int| 0 <= k < j ==> chain@[k].message_id != c.message_id,
                pre == chain@.take(i + 1),
                pre.drop_last() == chain@.take(i as int),
                chain_check(chain@.take(i as int)) is Ok,
                i == 0 ==> c.spec_is_root(),
                i > 0 ==> c == caused_identity(chain@[i - 1], c.message_id),
            decreases i - j,
        {
            if chain[j].message_id == c.message_id {
                proof {
                    assert(pre[j as int].message_id == pre[i as int].message_id);
                    lemma_chain_check_error_persists(chain@, i + 1);
                }
                return Err(IdentityError::CausationCycle);
            }
            j = j + 1;
        }
        proof {
            assert(!exists|k: int| 0 <= k < i && #[trigger] pre[k].message_id == pre[i as int].message_id);
        }
        i = i + 1;
    }
    assert(chain@.take(n as int) =~= chain@);
    Ok(())
}

/// A chain that passes the check is a causal chain whose message ids are all
/// distinct, so the causal-propagation law applies to it.
pub proof fn lemma_checked_chain_is_causal(chain: Seq<MessageIdentity>)
    requires
        chain.len() >= 1,
        chain_check(chain) is Ok,
    ensures
        is_causal_chain(chain),
        forall|i: int, j: int|
            0 <= j < i < chain.len() ==> #[trigger] chain[j].message_id != #[trigger] chain[
                i
            ].message_id,
    decreases chain.len(),
{
    let n = chain.len() as int;
    let p = chain.drop_last();
    if n > 1 {
        lemma_checked_chain_is_causal(p);
        assert forall|i: int| 1 <= i < n implies #[trigger] chain[i] == caused_identity(
            chain[i - 1],
            chain[i].message_id,
        ) by {
            if i < n - 1 {
                assert(p[i] == caused_identity(p[i - 1], p[i].message_id));
            }
        }
        assert forall|i: int, j: int| 0 <= j < i < n implies #[trigger] chain[j].message_id
            != #[trigger] chain[i].message_id by {
            if i < n - 1 {
                assert(p[j].message_id != p[i].message_id);
            } else {
                assert(!(chain[j].message_id == chain[i].message_id));
            }
        }
    }
}

/// The depth of message `id` in `chain`: its position, which in a chain that
/// passes [`validate_chain`] is the number of causation steps from the root
/// (see [`lemma_depth_is_causation_steps`]); none when no identity of the chain
/// has that message id.
pub fn causal_depth(chain: &Vec<MessageIdentity>, id: MessageId) -> (r: Option<usize>)
    ensures
        r is None <==> forall|j: int| 0 <= j < chain@.len() ==> (#[trigger] chain@[j]).message_id != id,
        r matches Some(d) ==> d < chain@.len() && chain@[d as int].message_id == id && forall|j: int|
            0 <= j < d ==> (#[trigger] chain@[j]).message_id != id,
{
    let mut i: usize = 0;
    while i < chain.len()
        invariant
            i <= chain@.len(),
            forall|j: int| 0 <= j < i ==> (#[trigger] chain@[j]).message_id != id,
        decreases chain@.len() - i,
    {
        if chain[i].message_id == id {
            return Some(i);
        }
        i = i + 1;
    }
    None
}

/// `d` causation steps lead from `chain[i]` back to `chain[i - d]`.
pub open spec fn steps_back(chain: Seq<MessageIdentity>, i: int, d: int) -> bool
    decreases d,
{
    if d <= 0 {
        true
    } else {
        chain[i].causation_id.0 == chain[i - 1].message_id.0 && steps_back(chain, i - 1, d - 1)
    }
}

/// In a chain that passes the check, the identity at position `i` reaches the
/// root in exactly `i` causation steps, every step lands on the previous
/// identity, and only the root is a root: its position is its causal depth.
pub proof fn lemma_depth_is_causation_steps(chain: Seq<MessageIdentity>, i: int)
    requires
        chain.len() >= 1,
        chain_check(chain) is Ok,
        0 <= i < chain.len(),
    ensures
        steps_back(chain, i, i),
        chain[0].spec_is_root(),
        chain[i].spec_is_root() <==> i == 0,
    decreases i,
{
    lemma_checked_chain_is_causal(chain);
    lemma_causal_propagation(chain);
    if i > 0 {
        lemma_depth_is_causation_steps(chain, i - 1);
    }
}

/// Errors in message identity handling.
#[derive(Clone, Copy, Debug, PartialEq, Eq, Structural)]
pub enum IdentityError {
    InvalidIdentityStructure { message_id: u128, correlation_id: u128, causation_id: u128 },
    /// Timestamps in milliseconds since the Unix epoch.
    FutureTimestamp { timestamp: i64, now: i64 },
    EmptyAggregateId,
    EmptyEventType,
    CausationCycle,
    DuplicateMessage(u128),
}


/// Lower-case hexadecimal digit for `n` in `0..16`.
pub open spec fn hex_digit(n: int) -> char {
    seq!['0', '1', '2', '3', '4', '5', '6', '7', '8', '9', 'a', 'b', 'c', 'd', 'e', 'f'][n]
}

/// The `k`-th hexadecimal digit of `x`, counted from the most significant one.
pub open spec fn nibble(x: u128, k: int) -> int {
    ((x >> ((124 - 4 * k) as u128)) & 15u128) as int
}

/// Position among the 32 digits of the character at `i` of the hyphenated text.
pub open spec fn digit_position(i: int) -> int {
    if i < 8 {
        i
    } else if i < 13 {
        i - 1
    } else if i < 18 {
        i - 2
    } else if i < 23 {
        i - 3
    } else {
        i - 4
    }
}

/// The hyphenated lower-case text of a UUID (`8-4-4-4-12` hexadecimal digits).
pub open spec fn uuid_text_of(x: u128) -> Seq<char> {
    Seq::new(
        36,
        |i: int|
            if i == 8 || i == 13 || i == 18 || i == 23 {
                '-'
            } else {
                hex_digit(nibble(x, digit_position(i)))
            },
    )
}

/// Relies on `uuid::Uuid::from_u128` and its `Display` impl, which writes the
/// hyphenated lower-case form, most significant digit first.
#[verifier::external_body]
pub(crate) fn uuid_text(x: u128) -> (r: String)
    ensures
        r@ == uuid_text_of(x),
{
    uuid::Uuid::from_u128(x).to_string()
}

impl MessageId {
    /// The hyphenated text of the identifier.
    pub fn to_string(&self) -> (r: String)
        ensures
            r@ == uuid_text_of(self.0),
    {
        uuid_text(self.0)
    }
}

impl CorrelationId {
    /// The hyphenated text of the identifier.
    pub fn to_string(&self) -> (r: String)
        ensures
            r@ == uuid_text_of(self.0),
    {
        uuid_text(self.0)
    }
}

impl CausationId {
    /// The hyphenated text of the identifier.
    pub fn to_string(&self) -> (r: String)
        ensures
            r@ == uuid_text_of(self.0),
    {
        uuid_text(self.0)
    }
}

/// Who or what produced a message.
#[derive(Clone, Debug, PartialEq, Eq, Hash)]
pub enum ActorId {
    /// A human user.
    User(u128),
    /// A service of this system.
    System(String),
    /// An external system.
    External(String),
    /// A location tracking service.
    LocationTracker(String),
    /// A geocoding service.
    Geocoder(String),
}

/// The text form of an actor: a kind prefix, a colon, then the name or user id.
pub open spec fn actor_text(a: ActorId) -> Seq<char> {
    match a {
        ActorId::User(id) => "user:"@ + uuid_text_of(id),
        ActorId::System(name) => "system:"@ + name@,
        ActorId::External(name) => "external:"@ + name@,
        ActorId::LocationTracker(name) => "location-tracker:"@ + name@,
        ActorId::Geocoder(name) => "geocoder:"@ + name@,
    }
}

impl ActorId {
    pub fn user(user_id: u128) -> (r: ActorId)
        ensures
            r == ActorId::User(user_id),
    {
        ActorId::User(user_id)
    }

    pub fn system(service_name: &str) -> (r: ActorId)
        ensures
            r matches ActorId::System(n) && n@ == service_name@,
    {
        ActorId::System(String::from_str(service_name))
    }

    pub fn location_tracker(tracker_name: &str) -> (r: ActorId)
        ensures
            r matches ActorId::LocationTracker(n) && n@ == tracker_name@,
    {
        ActorId::LocationTracker(String::from_str(tracker_name))
    }

    pub fn geocoder(geocoder_name: &str) -> (r: ActorId)
        ensures
            r matches ActorId::Geocoder(n) && n@ == geocoder_name@,
    {
        ActorId::Geocoder(String::from_str(geocoder_name))
    }

    /// The text form of the actor, such as `system:location-service`.
    pub fn to_string(&self) -> (r: String)
        ensures
            r@ == actor_text(*self),
    {
        match self {
            ActorId::User(id) => String::from_str("user:").concat(uuid_text(*id).as_str()),
            ActorId::System(name) => String::from_str("system:").concat(name.as_str()),
            ActorId::External(name) => String::from_str("external:").concat(name.as_str()),
            ActorId::LocationTracker(name) => String::from_str("location-tracker:").concat(
                name.as_str(),
            ),
            ActorId::Geocoder(name) => String::from_str("geocoder:").concat(name.as_str()),
        }
    }
}

/// Relies on `std::time::SystemTime::now` and `SystemTime::duration_since`
/// with `UNIX_EPOCH`, neither of which panics: whether the clock reads at or
/// after the Unix epoch, and its distance from the epoch in milliseconds.
/// Nothing is promised about the values.
#[verifier::external_body]
fn system_clock() -> (r: (bool, u128)) {
    match std::time::SystemTime::now().duration_since(std::time::UNIX_EPOCH) {
        Ok(d) => (true, d.as_millis()),
        Err(e) => (false, e.duration().as_millis()),
    }
}

/// The signed count of milliseconds since the epoch, saturated to `i64`.
pub open spec fn signed_millis(after_epoch: bool, distance_ms: u128) -> int {
    let d: int = if distance_ms > i64::MAX as u128 {
        i64::MAX as int
    } else {
        distance_ms as int
    };
    if after_epoch {
        d
    } else {
        -d
    }
}

/// A clock reading (at or after the epoch, and distance from it in
/// milliseconds) as signed milliseconds since the epoch, saturated to `i64`.
pub fn millis_since_epoch(after_epoch: bool, distance_ms: u128) -> (r: i64)
    ensures
        r as int == signed_millis(after_epoch, distance_ms),
{
    let d: i64 = if distance_ms > i64::MAX as u128 {
        i64::MAX
    } else {
        distance_ms as i64
    };
    if after_epoch {
        d
    } else {
        -d
    }
}

/// The wall-clock time in milliseconds since the Unix epoch (negative before it).
pub(crate) fn wall_clock_millis() -> (r: i64) {
    let (after_epoch, distance_ms) = system_clock();
    millis_since_epoch(after_epoch, distance_ms)
}

/// How far ahead of the validator's clock a timestamp may lie: five minutes.
pub const FUTURE_TOLERANCE_MS: i64 = 300_000;

/// The schema version stamped on new metadata.
pub open spec fn current_schema_version() -> Seq<char> {
    "1.0"@
}

/// Identity, wall-clock time, producer and schema version of an event.
#[derive(Clone, Debug)]
pub struct EventMetadata {
    pub identity: MessageIdentity,
    /// Milliseconds since the Unix epoch; never used for ordering.
    pub timestamp: i64,
    pub actor: Option<ActorId>,
    pub schema_version: String,
}

impl EventMetadata {
    /// Metadata of an event that opens a new workflow, stamped now.
    pub fn new_root(actor: Option<ActorId>) -> (r: EventMetadata)
        ensures
            r.identity == root_identity(r.identity.message_id),
            r.actor == actor,
            r.schema_version@ == current_schema_version(),
    {
        Self::with_identity(MessageIdentity::new_root(), wall_clock_millis(), actor)
    }

    /// Metadata of an event caused by `parent`, stamped now.
    pub fn new_caused_by(parent: &MessageIdentity, actor: Option<ActorId>) -> (r: EventMetadata)
        ensures
            r.identity == caused_identity(*parent, r.identity.message_id),
            r.identity.message_id != parent.message_id,
            r.actor == actor,
            r.schema_version@ == current_schema_version(),
    {
        Self::with_identity(MessageIdentity::new_caused_by(parent), wall_clock_millis(), actor)
    }

    /// Metadata with the given identity and time, at the current schema version.
    pub fn with_identity(identity: MessageIdentity, timestamp: i64, actor: Option<ActorId>) -> (r:
        EventMetadata)
        ensures
            r.identity == identity,
            r.timestamp == timestamp,
            r.actor == actor,
            r.schema_version@ == current_schema_version(),
    {
        EventMetadata { identity, timestamp, actor, schema_version: String::from_str("1.0") }
    }

    /// The timestamp lies more than `tolerance_ms` after `now`.
    pub open spec fn too_far_ahead(self, now: i64, tolerance_ms: i64) -> bool {
        self.timestamp - now > tolerance_ms
    }

    /// Checks the identity, then that the timestamp is at most `tolerance_ms`
    /// ahead of `now`.
    pub fn validate_at(&self, now: i64, tolerance_ms: i64) -> (r: Result<(), IdentityError>)
        ensures
            r == self.validate_at_result(now, tolerance_ms),
    {
        let v = self.identity.validate();
        if v.is_err() {
            return v;
        }
        if (self.timestamp as i128) - (now as i128) > tolerance_ms as i128 {
            return Err(IdentityError::FutureTimestamp { timestamp: self.timestamp, now });
        }
        Ok(())
    }

    /// What [`EventMetadata::validate_at`] returns.
    pub open spec fn validate_at_result(self, now: i64, tolerance_ms: i64) -> Result<
        (),
        IdentityError,
    > {
        if !self.identity.well_formed() {
            self.identity.validate_result()
        } else if self.too_far_ahead(now, tolerance_ms) {
            Err(IdentityError::FutureTimestamp { timestamp: self.timestamp, now })
        } else {
            Ok(())
        }
    }

    /// Checks the identity, then that the timestamp is at most five minutes
    /// ahead of the current wall-clock time.
    pub fn validate(&self) -> (r: Result<(), IdentityError>)
        ensures
            exists|now: i64| r == self.validate_at_result(now, FUTURE_TOLERANCE_MS),
    {
        self.validate_at(wall_clock_millis(), FUTURE_TOLERANCE_MS)
    }
}

} // verus!
