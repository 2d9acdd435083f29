//! Typed, sortable, human-readable identifiers over a 128-bit value.
//!
//! An identifier packs a 48-bit millisecond timestamp, a 16-bit type id and
//! 58 bits of randomness into one 128-bit value that also carries the fixed
//! version (`1000`) and variant (`10`) marker bits of the version-8 layout.
//! The text form is `"<type-name>_<compact-text>"`, where the compact text is
//! the base-58 rendering of the 128-bit value.

use vstd::prelude::*;

pub mod deser;
pub mod domains;
pub mod error;
pub mod ext;

use core::marker::PhantomData;

use short_uuid::ShortUuid;
use uuid::Uuid;

use crate::deser::{
    RANDOM_MASK, TIMESTAMP_MAX, decode_payload_from_uuid, encode_payload_to_uuid,
    lemma_payload_fields, payload_of, payload_randomness, payload_timestamp, payload_type_id,
    spec_decode, spec_encode, spec_valid,
};
pub use crate::error::{ParseTtidError, TtidError};
use crate::ext::{
    now_unix_ms, random_value, short_decode, short_from_value, short_text_of, short_to_text,
    short_uuid_value, uuid_from_value, uuid_to_value, uuid_value,
};

verus! {

/// Maps a closed set of type values to stable 16-bit ids and stable names.
///
/// Both mappings must be injective: distinct type values carry distinct ids
/// and distinct names. `from_type_id` and `from_type_name` are the partial
/// inverses; they recognise exactly the ids and names the domain produces.
/// Persisted identifiers depend on this mapping staying stable.
pub trait IdType: Sized + Copy {
    /// The numeric id of this type value.
    spec fn spec_id(self) -> u16;

    /// The name of this type value.
    spec fn spec_name(self) -> Seq<char>;

    /// Distinct type values carry distinct numeric ids.
    proof fn lemma_ids_injective(a: Self, b: Self)
        ensures
            a.spec_id() == b.spec_id() ==> a == b,
    ;

    /// Distinct type values carry distinct names.
    proof fn lemma_names_injective(a: Self, b: Self)
        ensures
            a.spec_name() == b.spec_name() ==> a == b,
    ;

    /// Convert a type value to its numeric id.
    fn to_type_id(self) -> (r: u16)
        ensures
            r == self.spec_id(),
    ;

    /// Resolve a numeric id; recognises exactly the ids of this domain.
    fn from_type_id(id: u16) -> (r: Option<Self>)
        ensures
            match r {
                Some(t) => t.spec_id() == id,
                None => forall|t: Self| t.spec_id() != id,
            },
    ;

    /// Convert a type value to its stable human-readable name.
    fn as_type_name(self) -> (r: &'static str)
        ensures
            r@ == self.spec_name(),
    ;

    /// Resolve a name; recognises exactly the names of this domain.
    fn from_type_name(name: &str) -> (r: Option<Self>)
        ensures
            match r {
                Some(t) => t.spec_name() == name@,
                None => forall|t: Self| t.spec_name() != name@,
            },
    ;
}

/// `i` is the position of the first separator in `s`.
pub open spec fn is_first_sep(s: Seq<char>, i: int) -> bool {
    &&& 0 <= i < s.len()
    &&& s[i] == '_'
    &&& forall|j: int| 0 <= j < i ==> s[j] != '_'
}

/// What parsing returns once the compact text is known to denote `v` and the
/// prefix is known to name `t`: the nested binary validation decides, then
/// the prefix must agree with the embedded type id.
pub open spec fn parse_outcome<T: IdType>(
    r: Result<Ttid<T>, ParseTtidError>,
    t: T,
    v: u128,
) -> bool {
    if !spec_valid(v) {
        r == Err::<Ttid<T>, ParseTtidError>(ParseTtidError::Ttid(TtidError::InvalidUuid))
    } else if forall|t2: T| t2.spec_id() != payload_type_id(spec_decode(v)) {
        r == Err::<Ttid<T>, ParseTtidError>(
            ParseTtidError::Ttid(TtidError::UnknownTypeId(payload_type_id(spec_decode(v)))),
        )
    } else if payload_type_id(spec_decode(v)) != t.spec_id() {
        r == Err::<Ttid<T>, ParseTtidError>(ParseTtidError::TypeMismatch)
    } else {
        r matches Ok(id) && id@ == v && id.wf() && id.spec_type_id() == t.spec_id()
    }
}

/// What parsing returns when the first separator stands at `i`: the name is
/// everything before it, the compact text everything after it.
pub open spec fn parse_post<T: IdType>(
    s: Seq<char>,
    i: int,
    r: Result<Ttid<T>, ParseTtidError>,
) -> bool {
    let name = s.subrange(0, i);
    let rest = s.subrange(i + 1, s.len() as int);
    &&& ((forall|t: T| t.spec_name() != name) <==> r == Err::<Ttid<T>, ParseTtidError>(
        ParseTtidError::UnknownTypeName,
    ))
    &&& (((exists|t: T| t.spec_name() == name) && (forall|v: u128|
        rest != short_text_of(v))) <==> r == Err::<Ttid<T>, ParseTtidError>(
        ParseTtidError::InvalidShortUuid,
    ))
    &&& (r is Ok ==> exists|v: u128| rest == short_text_of(v))
    &&& (forall|t: T, v: u128|
        t.spec_name() == name && rest == short_text_of(v) ==> parse_outcome(r, t, v))
}

/// The full contract of parsing: no separator means `InvalidFormat`, and the
/// input splits at its first separator.
pub open spec fn parse_ensures<T: IdType>(s: Seq<char>, r: Result<Ttid<T>, ParseTtidError>) -> bool {
    &&& ((forall|j: int| 0 <= j < s.len() ==> s[j] != '_') <==> r == Err::<
        Ttid<T>,
        ParseTtidError,
    >(ParseTtidError::InvalidFormat))
    &&& (forall|i: int| is_first_sep(s, i) ==> parse_post(s, i, r))
}

/// A typed identifier: one 128-bit value bound to the type domain `T`.
///
/// The value always carries the fixed marker bits and a type id that `T`
/// resolves; both are checked at construction and never change.
#[derive(Copy, Debug)]
#[verifier::reject_recursive_types(T)]
pub struct Ttid<T: IdType> {
    value: u128,
    marker: PhantomData<T>,
}

impl<T: IdType> Clone for Ttid<T> {
    /// A clone is the same identifier.
    fn clone(&self) -> (r: Self)
        ensures
            r == *self,
    {
        Ttid { value: self.value, marker: PhantomData }
    }
}

impl<T: IdType> View for Ttid<T> {
    type V = u128;

    closed spec fn view(&self) -> u128 {
        self.value
    }
}

impl<T: IdType> PartialEq for Ttid<T> {
    /// Two identifiers are equal exactly when their 128-bit values are.
    fn eq(&self, other: &Self) -> (r: bool) {
        self.value == other.value
    }
}

impl<T: IdType> vstd::std_specs::cmp::PartialEqSpecImpl for Ttid<T> {
    open spec fn obeys_eq_spec() -> bool {
        true
    }

    open spec fn eq_spec(&self, other: &Self) -> bool {
        self@ == other@
    }
}

impl<T: IdType> PartialOrd for Ttid<T> {
    /// Identifiers order by their 128-bit values, which is the
    /// byte-lexicographic order of their big-endian bytes.
    fn partial_cmp(&self, other: &Self) -> (r: Option<core::cmp::Ordering>) {
        if self.value < other.value {
            Some(core::cmp::Ordering::Less)
        } else if self.value == other.value {
            Some(core::cmp::Ordering::Equal)
        } else {
            Some(core::cmp::Ordering::Greater)
        }
    }
}

impl<T: IdType> vstd::std_specs::cmp::PartialOrdSpecImpl for Ttid<T> {
    open spec fn obeys_partial_cmp_spec() -> bool {
        true
    }

    open spec fn partial_cmp_spec(&self, other: &Self) -> Option<core::cmp::Ordering> {
        if self@ < other@ {
            Some(core::cmp::Ordering::Less)
        } else if self@ == other@ {
            Some(core::cmp::Ordering::Equal)
        } else {
            Some(core::cmp::Ordering::Greater)
        }
    }
}

impl<T: IdType> Ttid<T> {
    /// Validity: the value carries the fixed markers and its embedded type id
    /// resolves in `T`. Every constructed identifier satisfies this.
    pub open spec fn wf(self) -> bool {
        spec_valid(self@) && exists|t: T| t.spec_id() == payload_type_id(spec_decode(self@))
    }

    /// The timestamp field of the identifier's payload.
    pub open spec fn spec_timestamp_ms(self) -> u64 {
        payload_timestamp(spec_decode(self@))
    }

    /// The type-id field of the identifier's payload.
    pub open spec fn spec_type_id(self) -> u16 {
        payload_type_id(spec_decode(self@))
    }

    /// The randomness field of the identifier's payload.
    pub open spec fn spec_randomness(self) -> u64 {
        payload_randomness(spec_decode(self@))
    }

    /// The type value the embedded type id resolves to.
    pub open spec fn spec_id_type(self) -> T {
        choose|t: T| t.spec_id() == self.spec_type_id()
    }

    /// Construct from explicit components.
    ///
    /// Fails exactly when the timestamp exceeds its 48-bit field; randomness
    /// above 58 bits is masked, not rejected. On success every field reads
    /// back exactly (the randomness masked to 58 bits).
    pub fn from_parts(timestamp_ms: u64, ty: T, randomness: u64) -> (r: Result<Self, TtidError>)
        ensures
            timestamp_ms > TIMESTAMP_MAX ==> r == Err::<Self, TtidError>(
                TtidError::TimestampOutOfRange,
            ),
            timestamp_ms <= TIMESTAMP_MAX ==> (r matches Ok(id) && id.wf() && id@ == spec_encode(
                payload_of(timestamp_ms, ty.spec_id(), randomness),
            ) && id.spec_timestamp_ms() == timestamp_ms && id.spec_type_id() == ty.spec_id()
                && id.spec_randomness() == randomness & RANDOM_MASK),
    {
        let type_id: u16 = ty.to_type_id();
        if timestamp_ms > TIMESTAMP_MAX {
            return Err(TtidError::TimestampOutOfRange);
        }
        proof {
            lemma_payload_fields(timestamp_ms, ty.spec_id(), randomness);
        }
        let payload: u128 = ((timestamp_ms as u128) << 74) | ((type_id as u128) << 58) | ((
        randomness & RANDOM_MASK) as u128);
        let value: u128 = encode_payload_to_uuid(payload);
        Ok(Ttid { value, marker: PhantomData })
    }

    /// Validate and wrap a raw 128-bit value.
    ///
    /// Fails with `InvalidUuid` exactly when the marker bits are wrong, and
    /// with `UnknownTypeId` (carrying the embedded id) exactly when the value
    /// is structurally valid but `T` does not resolve its type id.
    pub fn from_value(value: u128) -> (r: Result<Self, TtidError>)
        ensures
            !spec_valid(value) ==> r == Err::<Self, TtidError>(TtidError::InvalidUuid),
            spec_valid(value) && (forall|t: T| t.spec_id() != payload_type_id(spec_decode(value)))
                ==> r == Err::<Self, TtidError>(
                TtidError::UnknownTypeId(payload_type_id(spec_decode(value))),
            ),
            spec_valid(value) && (exists|t: T|
                t.spec_id() == payload_type_id(spec_decode(value))) ==> (r matches Ok(id) && id@
                == value && id.wf()),
    {
        match decode_payload_from_uuid(value) {
            None => Err(TtidError::InvalidUuid),
            Some(p) => {
                let type_id: u16 = ((p >> 58) & 0xFFFFu128) as u16;
                match T::from_type_id(type_id) {
                    None => Err(TtidError::UnknownTypeId(type_id)),
                    Some(_) => Ok(Ttid { value, marker: PhantomData }),
                }
            },
        }
    }

    /// Validate and wrap an existing uuid.
    pub fn from_uuid(uuid: Uuid) -> (r: Result<Self, TtidError>)
        ensures
            !spec_valid(uuid_value(uuid)) ==> r == Err::<Self, TtidError>(TtidError::InvalidUuid),
            spec_valid(uuid_value(uuid)) && (forall|t: T|
                t.spec_id() != payload_type_id(spec_decode(uuid_value(uuid)))) ==> r == Err::<
                Self,
                TtidError,
            >(TtidError::UnknownTypeId(payload_type_id(spec_decode(uuid_value(uuid))))),
            spec_valid(uuid_value(uuid)) && (exists|t: T|
                t.spec_id() == payload_type_id(spec_decode(uuid_value(uuid)))) ==> (r matches Ok(id)
                && id@ == uuid_value(uuid) && id.wf()),
    {
        let value: u128 = uuid_to_value(&uuid);
        Self::from_value(value)
    }

    /// Generate a fresh identifier from the current wall-clock time, `ty`,
    /// and 58 fresh random bits.
    ///
    /// Fails only when the clock-derived timestamp exceeds its 48-bit field.
    pub fn new(ty: T) -> (r: Result<Self, TtidError>)
        ensures
            r matches Ok(id) ==> id.wf() && id.spec_type_id() == ty.spec_id(),
            r matches Err(e) ==> e == TtidError::TimestampOutOfRange,
    {
        let now_ms: u64 = now_unix_ms();
        let random_bits: u64 = (random_value() as u64) & RANDOM_MASK;
        Self::from_parts(now_ms, ty, random_bits)
    }

    /// The payload read back from the stored value.
    fn payload(&self) -> (p: u128)
        ensures
            p == spec_decode(self@),
    {
        ((self.value >> 80) << 74) | (((self.value >> 64) & 0xFFFu128) << 62) | (self.value
            & 0x3FFF_FFFF_FFFF_FFFFu128)
    }

    /// The raw 128-bit value.
    pub fn as_value(&self) -> (v: u128)
        ensures
            v == self@,
    {
        self.value
    }

    /// The underlying uuid.
    pub fn as_uuid(&self) -> (u: Uuid)
        ensures
            uuid_value(u) == self@,
    {
        uuid_from_value(self.value)
    }

    /// Extract the millisecond timestamp.
    pub fn timestamp_ms(&self) -> (r: u64)
        requires
            self.wf(),
        ensures
            r == self.spec_timestamp_ms(),
    {
        let p: u128 = self.payload();
        ((p >> 74) & 0xFFFF_FFFF_FFFFu128) as u64
    }

    /// Extract the numeric type id.
    pub fn type_id(&self) -> (r: u16)
        requires
            self.wf(),
        ensures
            r == self.spec_type_id(),
    {
        let p: u128 = self.payload();
        ((p >> 58) & 0xFFFFu128) as u16
    }

    /// Extract the resolved type value.
    pub fn id_type(&self) -> (r: T)
        requires
            self.wf(),
        ensures
            r == self.spec_id_type(),
            r.spec_id() == self.spec_type_id(),
    {
        let tid: u16 = self.type_id();
        match T::from_type_id(tid) {
            Some(t) => {
                proof {
                    T::lemma_ids_injective(t, self.spec_id_type());
                }
                t
            },
            None => {
                proof {
                    assert(false);
                }
                vstd::pervasive::unreached()
            },
        }
    }

    /// Extract the 58-bit randomness.
    pub fn randomness(&self) -> (r: u64)
        requires
            self.wf(),
        ensures
            r == self.spec_randomness(),
    {
        let p: u128 = self.payload();
        (p & 0x03FF_FFFF_FFFF_FFFFu128) as u64
    }

    /// The compact form of the underlying value.
    pub fn short_uuid(&self) -> (s: ShortUuid)
        ensures
            short_uuid_value(s) == self@,
    {
        short_from_value(self.value)
    }

    /// The canonical text of this identifier: resolved type name, separator,
    /// compact text of the 128-bit value.
    pub open spec fn spec_text(self) -> Seq<char> {
        self.spec_id_type().spec_name() + seq!['_'] + short_text_of(self@)
    }

    /// Render as `<type-name>_<compact-text>`.
    pub fn to_text(&self) -> (r: String)
        requires
            self.wf(),
        ensures
            r@ == self.spec_text(),
    {
        let ty: T = self.id_type();
        let name: &'static str = ty.as_type_name();
        let compact: ShortUuid = self.short_uuid();
        let short: String = short_to_text(&compact);
        let mut out: String = name.to_owned();
        out.append("_");
        out.append(short.as_str());
        proof {
            reveal_strlit("_");
            assert("_"@ =~= seq!['_']);
            assert(out@ =~= self.spec_text());
        }
        out
    }

    /// Position of the first separator, when there is one.
    fn find_sep(s: &str) -> (r: Option<usize>)
        ensures
            r matches Some(i) ==> is_first_sep(s@, i as int),
            r is None ==> forall|j: int| 0 <= j < s@.len() ==> s@[j] != '_',
    {
        let len: usize = s.unicode_len();
        let mut i: usize = 0;
        while i < len
            invariant
                len == s@.len(),
                i <= len,
                forall|j: int| 0 <= j < i ==> s@[j] != '_',
            decreases len - i,
        {
            let c: char = s.get_char(i);
            if c == '_' {
                return Some(i);
            }
            i = i + 1;
        }
        None
    }

    /// The steps after the split: resolve the name, decode the compact text,
    /// validate the value, and check the prefix against the embedded type id.
    fn parse_tail(name: &str, rest: &str) -> (r: Result<Self, ParseTtidError>)
        ensures
            (forall|t: T| t.spec_name() != name@) <==> r == Err::<Self, ParseTtidError>(
                ParseTtidError::UnknownTypeName,
            ),
            ((exists|t: T| t.spec_name() == name@) && (forall|v: u128|
                rest@ != short_text_of(v))) <==> r == Err::<Self, ParseTtidError>(
                ParseTtidError::InvalidShortUuid,
            ),
            r is Ok ==> exists|v: u128| rest@ == short_text_of(v),
            forall|t: T, v: u128|
                t.spec_name() == name@ && rest@ == short_text_of(v) ==> parse_outcome(r, t, v),
            r != Err::<Self, ParseTtidError>(ParseTtidError::InvalidFormat),
    {
        let parsed_ty: T = match T::from_type_name(name) {
            None => {
                return Err(ParseTtidError::UnknownTypeName);
            },
            Some(t) => t,
        };
        let value: u128 = match short_decode(rest) {
            None => {
                return Err(ParseTtidError::InvalidShortUuid);
            },
            Some(v) => v,
        };
        let id: Self = match Self::from_value(value) {
            Err(e) => {
                let r = Err::<Self, ParseTtidError>(ParseTtidError::Ttid(e));
                proof {
                    assert forall|t: T, v: u128|
                        t.spec_name() == name@ && rest@ == short_text_of(v) implies parse_outcome(
                        r,
                        t,
                        v,
                    ) by {
                        assert(v == value);
                    }
                }
                return r;
            },
            Ok(id) => id,
        };
        let embedded_id: u16 = id.type_id();
        let prefix_id: u16 = parsed_ty.to_type_id();
        if embedded_id != prefix_id {
            let r = Err::<Self, ParseTtidError>(ParseTtidError::TypeMismatch);
            proof {
                assert forall|t: T, v: u128|
                    t.spec_name() == name@ && rest@ == short_text_of(v) implies parse_outcome(
                    r,
                    t,
                    v,
                ) by {
                    assert(v == value);
                    T::lemma_names_injective(parsed_ty, t);
                }
            }
            Err(ParseTtidError::TypeMismatch)
        } else {
            let r = Ok::<Self, ParseTtidError>(id);
            proof {
                assert forall|t: T, v: u128|
                    t.spec_name() == name@ && rest@ == short_text_of(v) implies parse_outcome(
                    r,
                    t,
                    v,
                ) by {
                    assert(v == value);
                    T::lemma_names_injective(parsed_ty, t);
                }
            }
            Ok(id)
        }
    }

    /// Parse `<type-name>_<compact-text>`: split at the first separator,
    /// resolve the prefix, decode the suffix, validate the value, and check
    /// that prefix and embedded type id agree.
    pub fn parse(s: &str) -> (r: Result<Self, ParseTtidError>)
        ensures
            parse_ensures(s@, r),
    {
        let sep: usize = match Self::find_sep(s) {
            None => {
                return Err(ParseTtidError::InvalidFormat);
            },
            Some(i) => i,
        };
        let len: usize = s.unicode_len();
        let name: &str = s.substring_char(0, sep);
        let rest: &str = s.substring_char(sep + 1, len);
        let r = Self::parse_tail(name, rest);
        proof {
            assert forall|i: int| is_first_sep(s@, i) implies parse_post(s@, i, r) by {
                assert(i == sep as int) by {
                    if i < sep as int {
                        assert(s@[i] != '_');
                    }
                    if i > sep as int {
                        assert(s@[sep as int] != '_');
                    }
                }
                assert(name@ =~= s@.subrange(0, i));
                assert(rest@ =~= s@.subrange(i + 1, s@.len() as int));
            }
        }
        r
    }
}

/// Law: two valid identifiers order by (timestamp, type id, randomness),
/// lexicographically. A smaller timestamp sorts first; for equal timestamps a
/// smaller type id sorts first; for equal timestamps and type ids smaller
/// randomness sorts first. The order of the 128-bit values is the
/// byte-lexicographic order of their big-endian bytes, witnessed by the
/// position of the first differing byte.
pub proof fn lemma_sort_order<T: IdType>(a: Ttid<T>, b: Ttid<T>)
    requires
        a.wf(),
        b.wf(),
        a.spec_timestamp_ms() < b.spec_timestamp_ms() || (a.spec_timestamp_ms()
            == b.spec_timestamp_ms() && a.spec_type_id() < b.spec_type_id()) || (
        a.spec_timestamp_ms() == b.spec_timestamp_ms() && a.spec_type_id() == b.spec_type_id()
            && a.spec_randomness() < b.spec_randomness()),
    ensures
        a@ < b@,
        exists|k: int| crate::deser::byte_lex_lt_at(a@, b@, k),
{
    crate::deser::lemma_decode_bounded(a@);
    crate::deser::lemma_decode_bounded(b@);
    crate::deser::lemma_payload_reassemble(spec_decode(a@));
    crate::deser::lemma_payload_reassemble(spec_decode(b@));
    let ra = a.spec_randomness();
    let rb = b.spec_randomness();
    assert(ra & RANDOM_MASK == ra) by (bit_vector)
        requires
            ra <= 0x03FF_FFFF_FFFF_FFFFu64,
    ;
    assert(rb & RANDOM_MASK == rb) by (bit_vector)
        requires
            rb <= 0x03FF_FFFF_FFFF_FFFFu64,
    ;
    crate::deser::lemma_value_order(
        a.spec_timestamp_ms(),
        a.spec_type_id(),
        a.spec_randomness(),
        b.spec_timestamp_ms(),
        b.spec_type_id(),
        b.spec_randomness(),
    );
    crate::deser::lemma_encode_decode(a@);
    crate::deser::lemma_encode_decode(b@);
    crate::deser::lemma_lt_byte_lex(a@, b@);
}

/// Law: any result meeting the parse contract on the rendered text of a
/// well-formed identifier is `Ok` with an equal identifier and the same
/// resolved type. The type's name must hold no separator, the one constraint
/// the type mapping's integrator upholds.
pub proof fn lemma_text_roundtrip<T: IdType>(id: Ttid<T>, r: Result<Ttid<T>, ParseTtidError>)
    requires
        id.wf(),
        forall|j: int|
            0 <= j < id.spec_id_type().spec_name().len() ==> id.spec_id_type().spec_name()[j]
                != '_',
        parse_ensures(id.spec_text(), r),
    ensures
        r matches Ok(p) && p@ == id@ && p.wf() && p.spec_id_type() == id.spec_id_type(),
{
    let t = id.spec_id_type();
    let name = t.spec_name();
    let s = id.spec_text();
    let i = name.len() as int;
    assert(s[i] == '_');
    assert(is_first_sep(s, i));
    assert(parse_post(s, i, r));
    assert(s.subrange(0, i) =~= name);
    assert(s.subrange(i + 1, s.len() as int) =~= short_text_of(id@));
    assert(t.spec_id() == payload_type_id(spec_decode(id@)));
    assert(parse_outcome(r, t, id@));
    let p = r->Ok_0;
    assert(p@ == id@);
    assert(p.spec_id_type() == id.spec_id_type());
}

} // verus!
