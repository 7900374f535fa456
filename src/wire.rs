//! The wire form of an envelope: ten length-prefixed fields (identity,
//! timestamp, sequence, actor, schema version, aggregate id, event type, the
//! two content identifiers, payload). Decoding a wire form gives back the
//! envelope it was encoded from.
use vstd::prelude::*;
use vstd::bytes::{
    lemma_auto_spec_u128_to_from_le_bytes, lemma_auto_spec_u64_to_from_le_bytes,
    spec_u128_from_le_bytes, spec_u128_to_le_bytes, spec_u64_from_le_bytes, spec_u64_to_le_bytes,
    u128_from_le_bytes, u128_to_le_bytes, u64_from_le_bytes, u64_to_le_bytes,
};
use vstd::utf8::{decode_utf8, encode_utf8, encode_utf8_decode_utf8, encode_utf8_valid_utf8, valid_utf8};
use vstd::string::StringSliceAdditionalSpecFns;
use vstd::slice::slice_subrange;
use crate::identity::{ActorId, CausationId, CorrelationId, EventMetadata, MessageId, MessageIdentity};
use crate::envelope::CimDomainEvent;

verus! {

/// Relies on `String::from_utf8`: the text of the bytes when they are valid
/// UTF-8, which it then holds exactly.
#[verifier::external_body]
fn utf8_text(b: Vec<u8>) -> (r: Option<String>)
    ensures
        r is Some <==> valid_utf8(b@),
        r matches Some(s) ==> s@ == decode_utf8(b@),
{
    String::from_utf8(b).ok()
}

/// An actor, as values.
pub enum ActorKey {
    User(u128),
    System(Seq<char>),
    External(Seq<char>),
    LocationTracker(Seq<char>),
    Geocoder(Seq<char>),
}

pub open spec fn actor_key(a: ActorId) -> ActorKey {
    match a {
        ActorId::User(u) => ActorKey::User(u),
        ActorId::System(n) => ActorKey::System(n@),
        ActorId::External(n) => ActorKey::External(n@),
        ActorId::LocationTracker(n) => ActorKey::LocationTracker(n@),
        ActorId::Geocoder(n) => ActorKey::Geocoder(n@),
    }
}

/// An envelope, as values.
pub struct EnvelopeView {
    pub identity: MessageIdentity,
    pub timestamp: i64,
    pub actor: Option<ActorKey>,
    pub schema_version: Seq<char>,
    pub aggregate_id: Seq<char>,
    pub sequence: u64,
    pub event_type: Seq<char>,
    pub event_cid: Option<Seq<u8>>,
    pub previous_cid: Option<Seq<u8>>,
    pub payload: Seq<u8>,
}

pub open spec fn opt_bytes_view(o: Option<Vec<u8>>) -> Option<Seq<u8>> {
    match o {
        Some(v) => Some(v@),
        None => None,
    }
}

impl View for CimDomainEvent {
    type V = EnvelopeView;

    open spec fn view(&self) -> EnvelopeView {
        EnvelopeView {
            identity: self.metadata.identity,
            timestamp: self.metadata.timestamp,
            actor: match self.metadata.actor {
                Some(a) => Some(actor_key(a)),
                None => None,
            },
            schema_version: self.metadata.schema_version@,
            aggregate_id: self.aggregate_id@,
            sequence: self.sequence,
            event_type: self.event_type@,
            event_cid: opt_bytes_view(self.event_cid),
            previous_cid: opt_bytes_view(self.previous_cid),
            payload: self.payload@,
        }
    }
}

/// One field with its length in front (8 bytes, little-endian).
pub open spec fn frame_piece(f: Seq<u8>) -> Seq<u8> {
    spec_u64_to_le_bytes(f.len() as u64) + f
}

/// Fields one after the other, each with its length in front.
pub open spec fn frame(fields: Seq<Seq<u8>>) -> Seq<u8>
    decreases fields.len(),
{
    if fields.len() == 0 {
        Seq::empty()
    } else {
        frame(fields.drop_last()) + frame_piece(fields.last())
    }
}

/// The fields of a frame; none when the bytes are no frame.
pub open spec fn unframe(s: Seq<u8>) -> Option<Seq<Seq<u8>>>
    decreases s.len(),
{
    if s.len() == 0 {
        Some(Seq::empty())
    } else if s.len() < 8 {
        None
    } else {
        let n = spec_u64_from_le_bytes(s.take(8)) as int;
        if 8 + n > s.len() {
            None
        } else {
            match unframe(s.skip(8 + n)) {
                Some(rest) => Some(seq![s.subrange(8, 8 + n)] + rest),
                None => None,
            }
        }
    }
}

/// Every field length fits in the 8-byte prefix.
pub open spec fn fields_fit(fields: Seq<Seq<u8>>) -> bool {
    forall|i: int| 0 <= i < fields.len() ==> (#[trigger] fields[i]).len() <= u64::MAX
}

proof fn lemma_frame_front(fields: Seq<Seq<u8>>)
    requires
        fields.len() > 0,
    ensures
        frame(fields) =~= frame_piece(fields[0]) + frame(fields.skip(1)),
    decreases fields.len(),
{
    if fields.len() > 1 {
        lemma_frame_front(fields.drop_last());
        assert(fields.drop_last().skip(1) =~= fields.skip(1).drop_last());
    } else {
        assert(fields.skip(1) =~= Seq::<Seq<u8>>::empty());
        assert(fields.drop_last() =~= Seq::<Seq<u8>>::empty());
    }
}

/// Unframing a frame gives back its fields.
pub proof fn lemma_unframe_frame(fields: Seq<Seq<u8>>)
    requires
        fields_fit(fields),
    ensures
        unframe(frame(fields)) == Some(fields),
    decreases fields.len(),
{
    lemma_auto_spec_u64_to_from_le_bytes();
    if fields.len() == 0 {
        assert(fields =~= Seq::<Seq<u8>>::empty());
    } else {
        lemma_frame_front(fields);
        let f0 = fields[0];
        let rest = fields.skip(1);
        let s = frame(fields);
        let len_bytes = spec_u64_to_le_bytes(f0.len() as u64);
        assert(fields_fit(rest)) by {
            assert forall|i: int| 0 <= i < rest.len() implies (#[trigger] rest[i]).len()
                <= u64::MAX by {
                assert(rest[i] == fields[i + 1]);
            }
        }
        lemma_unframe_frame(rest);
        assert(s.take(8) =~= len_bytes);
        assert(spec_u64_from_le_bytes(s.take(8)) == f0.len() as u64);
        assert(s.subrange(8, 8 + f0.len() as int) =~= f0);
        assert(s.skip(8 + f0.len() as int) =~= frame(rest));
        assert(seq![f0] + rest =~= fields);
    }
}

/// Appends `b` to `out`.
fn append_bytes(out: &mut Vec<u8>, b: &[u8])
    ensures
        final(out)@ == old(out)@ + b@,
{
    let mut i: usize = 0;
    while i < b.len()
        invariant
            i <= b@.len(),
            out@ == old(out)@ + b@.take(i as int),
        decreases b@.len() - i,
    {
        assert(b@.take(i + 1) =~= b@.take(i as int).push(b@[i as int]));
        out.push(b[i]);
        i = i + 1;
    }
    assert(b@.take(b@.len() as int) =~= b@);
}

/// Appends one length-prefixed field.
fn put_field(out: &mut Vec<u8>, f: &[u8])
    ensures
        final(out)@ == old(out)@ + frame_piece(f@),
        f@.len() <= u64::MAX,
{
    let len = u64_to_le_bytes(f.len() as u64);
    append_bytes(out, len.as_slice());
    append_bytes(out, f);
    assert(final(out)@ =~= old(out)@ + frame_piece(f@));
}

/// A timestamp as an unsigned value: its distance from the earliest `i64`.
pub open spec fn time_bits(t: i64) -> u64 {
    (t - i64::MIN) as u64
}

/// The timestamp `time_bits` encoded.
pub open spec fn time_of_bits(x: u64) -> i64 {
    (x + i64::MIN) as i64
}

/// The identity as 48 bytes: message, correlation and causation id.
pub open spec fn identity_bytes(i: MessageIdentity) -> Seq<u8> {
    spec_u128_to_le_bytes(i.message_id.0) + spec_u128_to_le_bytes(i.correlation_id.0)
        + spec_u128_to_le_bytes(i.causation_id.0)
}

/// An actor: empty when absent, else a kind byte then the user id or the name.
pub open spec fn actor_bytes(a: Option<ActorKey>) -> Seq<u8> {
    match a {
        None => Seq::empty(),
        Some(ActorKey::User(u)) => seq![1u8] + spec_u128_to_le_bytes(u),
        Some(ActorKey::System(n)) => seq![2u8] + encode_utf8(n),
        Some(ActorKey::External(n)) => seq![3u8] + encode_utf8(n),
        Some(ActorKey::LocationTracker(n)) => seq![4u8] + encode_utf8(n),
        Some(ActorKey::Geocoder(n)) => seq![5u8] + encode_utf8(n),
    }
}

/// Optional bytes: empty when absent, else a 1 byte then the bytes.
pub open spec fn opt_bytes(o: Option<Seq<u8>>) -> Seq<u8> {
    match o {
        None => Seq::empty(),
        Some(b) => seq![1u8] + b,
    }
}

/// The ten fields of an envelope's wire form.
pub open spec fn envelope_fields(v: EnvelopeView) -> Seq<Seq<u8>> {
    seq![
        identity_bytes(v.identity),
        spec_u64_to_le_bytes(time_bits(v.timestamp)),
        spec_u64_to_le_bytes(v.sequence),
        actor_bytes(v.actor),
        encode_utf8(v.schema_version),
        encode_utf8(v.aggregate_id),
        encode_utf8(v.event_type),
        opt_bytes(v.event_cid),
        opt_bytes(v.previous_cid),
        v.payload,
    ]
}

/// The wire form of an envelope.
pub open spec fn wire_of(v: EnvelopeView) -> Seq<u8> {
    frame(envelope_fields(v))
}

pub open spec fn identity_of(f: Seq<u8>) -> Option<MessageIdentity> {
    if f.len() == 48 {
        Some(
            MessageIdentity {
                message_id: MessageId(spec_u128_from_le_bytes(f.subrange(0, 16))),
                correlation_id: CorrelationId(spec_u128_from_le_bytes(f.subrange(16, 32))),
                causation_id: CausationId(spec_u128_from_le_bytes(f.subrange(32, 48))),
            },
        )
    } else {
        None
    }
}

pub open spec fn u64_of(f: Seq<u8>) -> Option<u64> {
    if f.len() == 8 {
        Some(spec_u64_from_le_bytes(f))
    } else {
        None
    }
}

pub open spec fn text_of(f: Seq<u8>) -> Option<Seq<char>> {
    if valid_utf8(f) {
        Some(decode_utf8(f))
    } else {
        None
    }
}

pub open spec fn actor_of(f: Seq<u8>) -> Option<Option<ActorKey>> {
    if f.len() == 0 {
        Some(None)
    } else if f[0] == 1 {
        if f.len() == 17 {
            Some(Some(ActorKey::User(spec_u128_from_le_bytes(f.skip(1)))))
        } else {
            None
        }
    } else if 2 <= f[0] <= 5 && valid_utf8(f.skip(1)) {
        let n = decode_utf8(f.skip(1));
        Some(
            Some(
                if f[0] == 2 {
                    ActorKey::System(n)
                } else if f[0] == 3 {
                    ActorKey::External(n)
                } else if f[0] == 4 {
                    ActorKey::LocationTracker(n)
                } else {
                    ActorKey::Geocoder(n)
                },
            ),
        )
    } else {
        None
    }
}

pub open spec fn opt_bytes_of(f: Seq<u8>) -> Option<Option<Seq<u8>>> {
    if f.len() == 0 {
        Some(None)
    } else if f[0] == 1 {
        Some(Some(f.skip(1)))
    } else {
        None
    }
}

/// The envelope ten fields hold, if each is well formed.
pub open spec fn envelope_of_fields(f: Seq<Seq<u8>>) -> Option<EnvelopeView> {
    if f.len() == 10 && identity_of(f[0]) is Some && u64_of(f[1]) is Some && u64_of(f[2]) is Some
        && actor_of(f[3]) is Some && text_of(f[4]) is Some && text_of(f[5]) is Some && text_of(
        f[6],
    ) is Some && opt_bytes_of(f[7]) is Some && opt_bytes_of(f[8]) is Some {
        Some(
            EnvelopeView {
                identity: identity_of(f[0])->Some_0,
                timestamp: time_of_bits(u64_of(f[1])->Some_0),
                actor: actor_of(f[3])->Some_0,
                schema_version: text_of(f[4])->Some_0,
                aggregate_id: text_of(f[5])->Some_0,
                sequence: u64_of(f[2])->Some_0,
                event_type: text_of(f[6])->Some_0,
                event_cid: opt_bytes_of(f[7])->Some_0,
                previous_cid: opt_bytes_of(f[8])->Some_0,
                payload: f[9],
            },
        )
    } else {
        None
    }
}

/// The envelope a wire form holds; none when the bytes are malformed.
pub open spec fn decode_spec(s: Seq<u8>) -> Option<EnvelopeView> {
    match unframe(s) {
        Some(f) => envelope_of_fields(f),
        None => None,
    }
}

proof fn lemma_identity_round_trip(i: MessageIdentity)
    ensures
        identity_of(identity_bytes(i)) == Some(i),
{
    lemma_auto_spec_u128_to_from_le_bytes();
    let a = spec_u128_to_le_bytes(i.message_id.0);
    let b = spec_u128_to_le_bytes(i.correlation_id.0);
    let c = spec_u128_to_le_bytes(i.causation_id.0);
    let f = identity_bytes(i);
    assert(f.subrange(0, 16) =~= a);
    assert(f.subrange(16, 32) =~= b);
    assert(f.subrange(32, 48) =~= c);
}

proof fn lemma_text_round_trip(c: Seq<char>)
    ensures
        text_of(encode_utf8(c)) == Some(c),
{
    encode_utf8_valid_utf8(c);
    encode_utf8_decode_utf8(c);
}

proof fn lemma_actor_round_trip(a: Option<ActorKey>)
    ensures
        actor_of(actor_bytes(a)) == Some(a),
{
    lemma_auto_spec_u128_to_from_le_bytes();
    match a {
        None => {},
        Some(ActorKey::User(u)) => {
            assert((seq![1u8] + spec_u128_to_le_bytes(u)).skip(1) =~= spec_u128_to_le_bytes(u));
        },
        Some(ActorKey::System(n)) => {
            assert((seq![2u8] + encode_utf8(n)).skip(1) =~= encode_utf8(n));
            lemma_text_round_trip(n);
        },
        Some(ActorKey::External(n)) => {
            assert((seq![3u8] + encode_utf8(n)).skip(1) =~= encode_utf8(n));
            lemma_text_round_trip(n);
        },
        Some(ActorKey::LocationTracker(n)) => {
            assert((seq![4u8] + encode_utf8(n)).skip(1) =~= encode_utf8(n));
            lemma_text_round_trip(n);
        },
        Some(ActorKey::Geocoder(n)) => {
            assert((seq![5u8] + encode_utf8(n)).skip(1) =~= encode_utf8(n));
            lemma_text_round_trip(n);
        },
    }
}

proof fn lemma_opt_bytes_round_trip(o: Option<Seq<u8>>)
    ensures
        opt_bytes_of(opt_bytes(o)) == Some(o),
{
    if let Some(b) = o {
        assert((seq![1u8] + b).skip(1) =~= b);
    }
}

proof fn lemma_timestamp_round_trip(t: i64)
    ensures
        time_of_bits(time_bits(t)) == t,
{
}

/// Decoding the wire form of an envelope gives back that envelope: its
/// identity, time, actor, schema version, aggregate id, sequence, event type,
/// content identifiers and payload.
pub proof fn lemma_wire_round_trip(v: EnvelopeView)
    requires
        fields_fit(envelope_fields(v)),
    ensures
        decode_spec(wire_of(v)) == Some(v),
{
    lemma_auto_spec_u64_to_from_le_bytes();
    let f = envelope_fields(v);
    lemma_unframe_frame(f);
    lemma_identity_round_trip(v.identity);
    lemma_timestamp_round_trip(v.timestamp);
    lemma_actor_round_trip(v.actor);
    lemma_text_round_trip(v.schema_version);
    lemma_text_round_trip(v.aggregate_id);
    lemma_text_round_trip(v.event_type);
    lemma_opt_bytes_round_trip(v.event_cid);
    lemma_opt_bytes_round_trip(v.previous_cid);
    assert(u64_of(f[1]) == Some(time_bits(v.timestamp)));
    assert(u64_of(f[2]) == Some(v.sequence));
}

proof fn lemma_frame_push(fs: Seq<Seq<u8>>, f: Seq<u8>)
    ensures
        frame(fs.push(f)) == frame(fs) + frame_piece(f),
{
    assert(fs.push(f).drop_last() =~= fs);
}

fn time_bits_exec(t: i64) -> (r: u64)
    ensures
        r == time_bits(t),
{
    (t as i128 - i64::MIN as i128) as u64
}

fn time_of_bits_exec(x: u64) -> (r: i64)
    ensures
        r == time_of_bits(x),
{
    (x as i128 + i64::MIN as i128) as i64
}

fn identity_field(i: &MessageIdentity) -> (r: Vec<u8>)
    ensures
        r@ == identity_bytes(*i),
{
    let mut out = u128_to_le_bytes(i.message_id.0);
    let c = u128_to_le_bytes(i.correlation_id.0);
    append_bytes(&mut out, c.as_slice());
    let k = u128_to_le_bytes(i.causation_id.0);
    append_bytes(&mut out, k.as_slice());
    out
}

fn tagged(tag: u8, b: &[u8]) -> (r: Vec<u8>)
    ensures
        r@ == seq![tag] + b@,
{
    let mut out: Vec<u8> = Vec::new();
    out.push(tag);
    append_bytes(&mut out, b);
    assert(out@ =~= seq![tag] + b@);
    out
}

fn actor_field(a: &Option<ActorId>) -> (r: Vec<u8>)
    ensures
        r@ == actor_bytes(
            match *a {
                Some(x) => Some(actor_key(x)),
                None => None,
            },
        ),
{
    match a {
        None => Vec::new(),
        Some(ActorId::User(u)) => {
            let b = u128_to_le_bytes(*u);
            tagged(1, b.as_slice())
        },
        Some(ActorId::System(n)) => tagged(2, n.as_str().as_bytes()),
        Some(ActorId::External(n)) => tagged(3, n.as_str().as_bytes()),
        Some(ActorId::LocationTracker(n)) => tagged(4, n.as_str().as_bytes()),
        Some(ActorId::Geocoder(n)) => tagged(5, n.as_str().as_bytes()),
    }
}

fn opt_bytes_field(o: &Option<Vec<u8>>) -> (r: Vec<u8>)
    ensures
        r@ == opt_bytes(opt_bytes_view(*o)),
{
    match o {
        None => Vec::new(),
        Some(b) => tagged(1, b.as_slice()),
    }
}

/// The wire form of an envelope; decoding it gives the envelope back.
pub fn encode_envelope(e: &CimDomainEvent) -> (r: Vec<u8>)
    ensures
        r@ == wire_of(e@),
        decode_spec(r@) == Some(e@),
{
    let mut out: Vec<u8> = Vec::new();
    let ghost mut fs: Seq<Seq<u8>> = Seq::empty();
    assert(frame(fs) =~= out@);

    let f0 = identity_field(&e.metadata.identity);
    proof { lemma_frame_push(fs, f0@); fs = fs.push(f0@); }
    put_field(&mut out, f0.as_slice());

    let f1 = u64_to_le_bytes(time_bits_exec(e.metadata.timestamp));
    proof { lemma_frame_push(fs, f1@); fs = fs.push(f1@); }
    put_field(&mut out, f1.as_slice());

    let f2 = u64_to_le_bytes(e.sequence);
    proof { lemma_frame_push(fs, f2@); fs = fs.push(f2@); }
    put_field(&mut out, f2.as_slice());

    let f3 = actor_field(&e.metadata.actor);
    proof { lemma_frame_push(fs, f3@); fs = fs.push(f3@); }
    put_field(&mut out, f3.as_slice());

    let f4 = e.metadata.schema_version.as_str().as_bytes();
    proof { lemma_frame_push(fs, f4@); fs = fs.push(f4@); }
    put_field(&mut out, f4);

    let f5 = e.aggregate_id.as_str().as_bytes();
    proof { lemma_frame_push(fs, f5@); fs = fs.push(f5@); }
    put_field(&mut out, f5);

    let f6 = e.event_type.as_str().as_bytes();
    proof { lemma_frame_push(fs, f6@); fs = fs.push(f6@); }
    put_field(&mut out, f6);

    let f7 = opt_bytes_field(&e.event_cid);
    proof { lemma_frame_push(fs, f7@); fs = fs.push(f7@); }
    put_field(&mut out, f7.as_slice());

    let f8 = opt_bytes_field(&e.previous_cid);
    proof { lemma_frame_push(fs, f8@); fs = fs.push(f8@); }
    put_field(&mut out, f8.as_slice());

    proof { lemma_frame_push(fs, e.payload@); fs = fs.push(e.payload@); }
    put_field(&mut out, e.payload.as_slice());

    assert(fs =~= envelope_fields(e@));
    proof {
        assert(fields_fit(fs));
        lemma_wire_round_trip(e@);
    }
    out
}

/// `None` stays `None`; else `acc` goes in front.
pub open spec fn prepend_fields(acc: Seq<Seq<u8>>, r: Option<Seq<Seq<u8>>>) -> Option<
    Seq<Seq<u8>>,
> {
    match r {
        Some(rest) => Some(acc + rest),
        None => None,
    }
}

/// The fields of a frame.
fn unframe_fields(b: &[u8]) -> (r: Option<Vec<Vec<u8>>>)
    ensures
        match (r, unframe(b@)) {
            (Some(v), Some(f)) => v@.map_values(|x: Vec<u8>| x@) == f,
            (None, None) => true,
            _ => false,
        },
{
    let mut fields: Vec<Vec<u8>> = Vec::new();
    let mut pos: usize = 0;
    let len = b.len();
    assert(b@.skip(0) =~= b@);
    assert(fields@.map_values(|x: Vec<u8>| x@) =~= Seq::<Seq<u8>>::empty());
    while pos < len
        invariant
            len == b@.len(),
            pos <= len,
            unframe(b@) == prepend_fields(
                fields@.map_values(|x: Vec<u8>| x@),
                unframe(b@.skip(pos as int)),
            ),
        decreases len - pos,
    {
        let ghost s = b@.skip(pos as int);
        if len - pos < 8 {
            return None;
        }
        let n = u64_from_le_bytes(slice_subrange(b, pos, pos + 8));
        assert(s.take(8) =~= b@.subrange(pos as int, pos + 8));
        if n > (len - pos - 8) as u64 {
            return None;
        }
        let n = n as usize;
        let end = pos + 8 + n;
        let field = vstd::slice::slice_to_vec(slice_subrange(b, pos + 8, end));
        assert(s.subrange(8, 8 + n) =~= field@);
        assert(s.skip(8 + n) =~= b@.skip(end as int));
        let ghost before = fields@.map_values(|x: Vec<u8>| x@);
        fields.push(field);
        assert(fields@.map_values(|x: Vec<u8>| x@) =~= before.push(field@));
        assert(before.push(field@) =~= before + seq![field@]);
        assert(forall|r: Seq<Seq<u8>>| #![auto] before + (seq![field@] + r) =~= before.push(field@) + r);
        pos = end;
    }
    assert(b@.skip(len as int) =~= Seq::<u8>::empty());
    assert(fields@.map_values(|x: Vec<u8>| x@) + Seq::<Seq<u8>>::empty() =~= fields@.map_values(
        |x: Vec<u8>| x@,
    ));
    Some(fields)
}

fn identity_from(f: &Vec<u8>) -> (r: Option<MessageIdentity>)
    ensures
        r == identity_of(f@),
{
    if f.len() != 48 {
        return None;
    }
    let s = f.as_slice();
    let m = u128_from_le_bytes(slice_subrange(s, 0, 16));
    let c = u128_from_le_bytes(slice_subrange(s, 16, 32));
    let k = u128_from_le_bytes(slice_subrange(s, 32, 48));
    Some(
        MessageIdentity {
            message_id: MessageId(m),
            correlation_id: CorrelationId(c),
            causation_id: CausationId(k),
        },
    )
}

fn u64_from(f: &Vec<u8>) -> (r: Option<u64>)
    ensures
        r == u64_of(f@),
{
    if f.len() != 8 {
        return None;
    }
    Some(u64_from_le_bytes(f.as_slice()))
}

fn text_from(f: &[u8]) -> (r: Option<String>)
    ensures
        r is Some <==> text_of(f@) is Some,
        r matches Some(t) ==> t@ == text_of(f@)->Some_0,
{
    utf8_text(vstd::slice::slice_to_vec(f))
}

fn actor_from(f: &Vec<u8>) -> (r: Option<Option<ActorId>>)
    ensures
        r is Some <==> actor_of(f@) is Some,
        r matches Some(a) ==> actor_of(f@)->Some_0 == match a {
            Some(x) => Some(actor_key(x)),
            None => None,
        },
{
    let len = f.len();
    if len == 0 {
        return Some(None);
    }
    let s = f.as_slice();
    let tag = f[0];
    if tag == 1 {
        if len != 17 {
            return None;
        }
        assert(f@.skip(1) =~= s@.subrange(1, 17));
        return Some(Some(ActorId::User(u128_from_le_bytes(slice_subrange(s, 1, 17)))));
    }
    if tag < 2 || tag > 5 {
        return None;
    }
    assert(f@.skip(1) =~= s@.subrange(1, len as int));
    let name = match text_from(slice_subrange(s, 1, len)) {
        Some(n) => n,
        None => return None,
    };
    if tag == 2 {
        Some(Some(ActorId::System(name)))
    } else if tag == 3 {
        Some(Some(ActorId::External(name)))
    } else if tag == 4 {
        Some(Some(ActorId::LocationTracker(name)))
    } else {
        Some(Some(ActorId::Geocoder(name)))
    }
}

fn opt_bytes_from(f: &Vec<u8>) -> (r: Option<Option<Vec<u8>>>)
    ensures
        r is Some <==> opt_bytes_of(f@) is Some,
        r matches Some(o) ==> opt_bytes_of(f@)->Some_0 == opt_bytes_view(o),
{
    let len = f.len();
    if len == 0 {
        return Some(None);
    }
    if f[0] != 1 {
        return None;
    }
    let s = f.as_slice();
    assert(f@.skip(1) =~= s@.subrange(1, len as int));
    Some(Some(vstd::slice::slice_to_vec(slice_subrange(s, 1, len))))
}

/// The envelope a wire form holds; `None` when the bytes are malformed.
pub fn decode_envelope(b: &[u8]) -> (r: Option<CimDomainEvent>)
    ensures
        match (r, decode_spec(b@)) {
            (Some(e), Some(v)) => e@ == v,
            (None, None) => true,
            _ => false,
        },
{
    let fields = match unframe_fields(b) {
        Some(f) => f,
        None => return None,
    };
    let ghost fv = fields@.map_values(|x: Vec<u8>| x@);
    if fields.len() != 10 {
        return None;
    }
    assert(forall|i: int| 0 <= i < 10 ==> fv[i] == #[trigger] fields@[i]@);
    let identity = match identity_from(&fields[0]) {
        Some(i) => i,
        None => return None,
    };
    let timestamp = match u64_from(&fields[1]) {
        Some(t) => time_of_bits_exec(t),
        None => return None,
    };
    let sequence = match u64_from(&fields[2]) {
        Some(q) => q,
        None => return None,
    };
    let actor = match actor_from(&fields[3]) {
        Some(a) => a,
        None => return None,
    };
    let schema_version = match text_from(fields[4].as_slice()) {
        Some(t) => t,
        None => return None,
    };
    let aggregate_id = match text_from(fields[5].as_slice()) {
        Some(t) => t,
        None => return None,
    };
    let event_type = match text_from(fields[6].as_slice()) {
        Some(t) => t,
        None => return None,
    };
    let event_cid = match opt_bytes_from(&fields[7]) {
        Some(c) => c,
        None => return None,
    };
    let previous_cid = match opt_bytes_from(&fields[8]) {
        Some(c) => c,
        None => return None,
    };
    let payload = vstd::slice::slice_to_vec(fields[9].as_slice());
    let e = CimDomainEvent {
        metadata: EventMetadata { identity, timestamp, actor, schema_version },
        aggregate_id,
        sequence,
        event_cid,
        previous_cid,
        event_type,
        payload,
    };
    assert(e@ == envelope_of_fields(fv)->Some_0);
    Some(e)
}

} // verus!
