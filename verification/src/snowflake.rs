//! Snowflake identifiers: 64-bit numbers that hold the time they were made
//! at, the worker and process that made them, and a counter.

use vstd::prelude::*;
use core::cmp::Ordering;
use core::hash::{Hash, Hasher};
use core::marker::PhantomData;
use core::str::FromStr;

use crate::decimal::{decimal, spec_parse_u64, u64_to_string};
use crate::time::DateTime;
use crate::visitor::{spec_visit, StringOrInteger};
use crate::wire::{DecodeError, Primitive};

verus! {

/// The first millisecond that an identifier can hold, in milliseconds since
/// the Unix epoch: 2015-01-01T00:00:00Z.
pub const EPOCH: u64 = 1420070400000;

/// The milliseconds since the Unix epoch that `raw` holds in its bits 22 to
/// 63.
pub open spec fn timestamp_millis_of(raw: u64) -> int {
    raw / 0x40_0000 + EPOCH
}

/// The worker that `raw` holds in its bits 17 to 21.
pub open spec fn worker_id_of(raw: u64) -> u64 {
    (raw / 0x2_0000) % 32
}

/// The process that `raw` holds in its bits 12 to 16.
pub open spec fn process_id_of(raw: u64) -> u64 {
    (raw / 0x1000) % 32
}

/// The counter that `raw` holds in its bits 0 to 11.
pub open spec fn increment_of(raw: u64) -> u64 {
    raw % 0x1000
}

/// The identifier made at `millis` milliseconds since the Unix epoch, with
/// worker, process and counter all zero; none where `millis` is before
/// [`EPOCH`] or too far after it for the 42 bits that hold it.
pub open spec fn snowflake_at(millis: int) -> Option<u64> {
    if EPOCH <= millis && millis - EPOCH < 0x400_0000_0000 {
        Some(((millis - EPOCH) * 0x40_0000) as u64)
    } else {
        None
    }
}

/// What every kind of identifier offers: the raw number and the fields packed
/// into it.
pub trait Snowflake: Sized + Copy {
    /// The 64-bit number that this identifier is.
    spec fn raw(self) -> u64;

    /// Two identifiers of one kind with the same number are the same
    /// identifier.
    proof fn lemma_raw_is_all(a: Self, b: Self)
        requires
            a.raw() == b.raw(),
        ensures
            a == b,
    ;

    /// The identifier that is the number `raw`. Any number will do.
    fn from_raw(raw: u64) -> (id: Self)
        ensures
            id.raw() == raw,
    ;

    /// The number that this identifier is.
    fn into_raw(self) -> (raw: u64)
        ensures
            raw == self.raw(),
    ;

    /// The identifier for the moment `dt`, cut to the millisecond, with
    /// worker, process and counter zero. None where `dt` is before
    /// [`EPOCH`] or too late to fit.
    fn from_date_time(dt: DateTime) -> (r: Option<Self>)
        ensures
            match r {
                Some(id) => snowflake_at(dt.unix_millis()) == Some(id.raw()),
                None => snowflake_at(dt.unix_millis()) is None,
            },
    {
        let unix_ms: i128 = dt.timestamp_millis();
        if unix_ms < EPOCH as i128 {
            return None;
        }
        let discord_ms: i128 = unix_ms - EPOCH as i128;
        if discord_ms >= 0x400_0000_0000 {
            return None;
        }
        let ms: u64 = discord_ms as u64;
        assert(ms << 22 == ms * 0x40_0000) by (bit_vector)
            requires
                ms < 0x400_0000_0000,
        ;
        Some(Self::from_raw(ms << 22))
    }

    /// The moment this identifier was made, in UTC.
    fn timestamp(self) -> (t: DateTime)
        ensures
            t == DateTime::spec_from_unix_millis(timestamp_millis_of(self.raw())),
    {
        let raw: u64 = self.into_raw();
        assert(raw >> 22 == raw / 0x40_0000) by (bit_vector);
        assert(raw >> 22 < 0x400_0000_0000) by (bit_vector);
        let timestamp: u64 = (raw >> 22) + EPOCH;
        DateTime::from_timestamp_millis(timestamp)
    }

    /// The worker that made this identifier.
    fn worker_id(self) -> (id: u8)
        ensures
            id == worker_id_of(self.raw()),
    {
        let raw: u64 = self.into_raw();
        let id: u64 = (raw & 0x3E0000) >> 17;
        assert((raw & 0x3E0000) >> 17 == (raw / 0x2_0000) % 32) by (bit_vector);
        id as u8
    }

    /// The process that made this identifier.
    fn process_id(self) -> (id: u8)
        ensures
            id == process_id_of(self.raw()),
    {
        let raw: u64 = self.into_raw();
        let id: u64 = (raw & 0x1F000) >> 12;
        assert((raw & 0x1F000) >> 12 == (raw / 0x1000) % 32) by (bit_vector);
        id as u8
    }

    /// The count of identifiers that the process had made before this one.
    fn increment(self) -> (n: u16)
        ensures
            n == increment_of(self.raw()),
    {
        let raw: u64 = self.into_raw();
        let id: u64 = raw & 0xFFF;
        assert(raw & 0xFFF == raw % 0x1000) by (bit_vector);
        id as u16
    }
}

/// The identifier of one thing of the kind `For`.
///
/// `For` tells identifiers of different kinds apart where the program is
/// compiled. It holds nothing: equality, order, hash and the wire form are
/// those of the number alone.
#[derive(Debug, Ord)]
pub struct Id<For> {
    _p: PhantomData<For>,
    id: u64,
}

impl<For> Id<For> {
    /// The identifier of kind `For` that is the number `raw`.
    pub closed spec fn of(raw: u64) -> Self {
        Id { _p: PhantomData, id: raw }
    }

    /// The number that this identifier is.
    pub closed spec fn value(self) -> u64 {
        self.id
    }

    /// An identifier is the number it was made from, and nothing more.
    pub broadcast proof fn lemma_of_value(raw: u64)
        ensures
            #[trigger] Self::of(raw).value() == raw,
    {
    }

    /// An identifier is made of its number alone.
    pub broadcast proof fn lemma_value_of(self)
        ensures
            #[trigger] Self::of(self.value()) == self,
    {
    }

    /// Reads an identifier from base-ten text. The text may start with a plus
    /// sign and with zeros.
    pub fn parse(txt: &str) -> (r: Result<Self, DecodeError>)
        ensures
            r == match spec_parse_u64(txt@) {
                Some(raw) => Ok::<Self, DecodeError>(Self::of(raw)),
                None => Err(DecodeError::InvalidFormat),
            },
    {
        match StringOrInteger.visit_str(txt) {
            Ok(id) => Ok(Id { _p: PhantomData, id }),
            Err(e) => Err(e),
        }
    }

    /// The identifier in base ten, as it is shown and as it travels.
    pub fn to_string(&self) -> (r: String)
        ensures
            r@ == decimal(self.value() as nat),
    {
        u64_to_string(self.id)
    }

    /// The wire form: always text, so that no reader loses bits of it.
    pub fn serialize(&self) -> (r: Primitive)
        ensures
            r matches Primitive::Text(s) && s@ == decimal(self.value() as nat),
    {
        Primitive::Text(self.to_string())
    }

    /// Reads an identifier from the wire, where it may stand as text or as an
    /// integer.
    pub fn deserialize(value: &Primitive) -> (r: Result<Self, DecodeError>)
        ensures
            r == match spec_visit(*value) {
                Ok(raw) => Ok::<Self, DecodeError>(Self::of(raw)),
                Err(e) => Err(e),
            },
    {
        match StringOrInteger.visit(value) {
            Ok(id) => Ok(Id { _p: PhantomData, id }),
            Err(e) => Err(e),
        }
    }
}

impl<For> Clone for Id<For> {
    fn clone(&self) -> (r: Self)
        ensures
            r == *self,
    {
        Id { _p: PhantomData, id: self.id }
    }
}

impl<For> Copy for Id<For> {

}

impl<For> PartialEq for Id<For> {
    fn eq(&self, other: &Self) -> (r: bool) {
        self.id == other.id
    }
}

impl<For> vstd::std_specs::cmp::PartialEqSpecImpl for Id<For> {
    open spec fn obeys_eq_spec() -> bool {
        true
    }

    open spec fn eq_spec(&self, other: &Self) -> bool {
        self.value() == other.value()
    }
}

impl<For> Eq for Id<For> {

}

impl<For> PartialOrd for Id<For> {
    fn partial_cmp(&self, other: &Self) -> (r: Option<Ordering>) {
        if self.id < other.id {
            Some(Ordering::Less)
        } else if self.id > other.id {
            Some(Ordering::Greater)
        } else {
            Some(Ordering::Equal)
        }
    }
}

impl<For> vstd::std_specs::cmp::PartialOrdSpecImpl for Id<For> {
    open spec fn obeys_partial_cmp_spec() -> bool {
        true
    }

    open spec fn partial_cmp_spec(&self, other: &Self) -> Option<Ordering> {
        if self.value() < other.value() {
            Some(Ordering::Less)
        } else if self.value() > other.value() {
            Some(Ordering::Greater)
        } else {
            Some(Ordering::Equal)
        }
    }
}

impl<For> Hash for Id<For> {
    /// Calls `u64::hash` on the number, so that an identifier hashes as its
    /// number does whatever kind it is of. Nothing is claimed of what the
    /// hasher then holds.
    #[verifier::external_body]
    fn hash<H: Hasher>(&self, state: &mut H) {
        self.id.hash(state)
    }
}

impl<For> From<u64> for Id<For> {
    fn from(id: u64) -> (r: Self)
        ensures
            r.value() == id,
    {
        Id { _p: PhantomData, id }
    }
}

impl<For> vstd::std_specs::convert::FromSpecImpl<u64> for Id<For> {
    open spec fn obeys_from_spec() -> bool {
        true
    }

    open spec fn from_spec(id: u64) -> Self {
        Self::of(id)
    }
}

impl<For> From<Id<For>> for u64 {
    fn from(id: Id<For>) -> (r: u64) {
        id.id
    }
}

impl<For> vstd::std_specs::convert::FromSpecImpl<Id<For>> for u64 {
    open spec fn obeys_from_spec() -> bool {
        true
    }

    open spec fn from_spec(id: Id<For>) -> u64 {
        id.value()
    }
}

impl<For> FromStr for Id<For> {
    type Err = DecodeError;

    fn from_str(txt: &str) -> (r: Result<Self, DecodeError>)
        ensures
            r == match spec_parse_u64(txt@) {
                Some(raw) => Ok::<Self, DecodeError>(Self::of(raw)),
                None => Err(DecodeError::InvalidFormat),
            },
    {
        Self::parse(txt)
    }
}

impl<For> Snowflake for Id<For> {
    open spec fn raw(self) -> u64 {
        self.value()
    }

    proof fn lemma_raw_is_all(a: Self, b: Self) {
    }

    fn from_raw(raw: u64) -> (id: Self) {
        Id { _p: PhantomData, id: raw }
    }

    fn into_raw(self) -> (raw: u64) {
        self.id
    }
}

/// An identifier of a thing of any kind, for fields that name things of
/// more than one.
#[derive(Debug, Clone, Copy, PartialEq, Eq, Structural, Ord, Hash)]
pub struct AnyId {
    id: u64,
}

impl PartialOrd for AnyId {
    fn partial_cmp(&self, other: &Self) -> (r: Option<Ordering>) {
        if self.id < other.id {
            Some(Ordering::Less)
        } else if self.id > other.id {
            Some(Ordering::Greater)
        } else {
            Some(Ordering::Equal)
        }
    }
}

impl vstd::std_specs::cmp::PartialOrdSpecImpl for AnyId {
    open spec fn obeys_partial_cmp_spec() -> bool {
        true
    }

    open spec fn partial_cmp_spec(&self, other: &Self) -> Option<Ordering> {
        if self.value() < other.value() {
            Some(Ordering::Less)
        } else if self.value() > other.value() {
            Some(Ordering::Greater)
        } else {
            Some(Ordering::Equal)
        }
    }
}

impl AnyId {
    /// The identifier that is the number `raw`.
    pub closed spec fn of(raw: u64) -> Self {
        AnyId { id: raw }
    }

    /// The number that this identifier is.
    pub closed spec fn value(self) -> u64 {
        self.id
    }

    /// An identifier is the number it was made from, and nothing more.
    pub broadcast proof fn lemma_of_value(raw: u64)
        ensures
            #[trigger] Self::of(raw).value() == raw,
    {
    }

    /// An identifier is made of its number alone.
    pub broadcast proof fn lemma_value_of(self)
        ensures
            #[trigger] Self::of(self.value()) == self,
    {
    }

    /// Reads an identifier from base-ten text. The text may start with a plus
    /// sign and with zeros.
    pub fn parse(txt: &str) -> (r: Result<Self, DecodeError>)
        ensures
            r == match spec_parse_u64(txt@) {
                Some(raw) => Ok::<Self, DecodeError>(Self::of(raw)),
                None => Err(DecodeError::InvalidFormat),
            },
    {
        match StringOrInteger.visit_str(txt) {
            Ok(id) => Ok(AnyId { id }),
            Err(e) => Err(e),
        }
    }

    /// The identifier in base ten, as it is shown and as it travels.
    pub fn to_string(&self) -> (r: String)
        ensures
            r@ == decimal(self.value() as nat),
    {
        u64_to_string(self.id)
    }

    /// The wire form: always text, so that no reader loses bits of it.
    pub fn serialize(&self) -> (r: Primitive)
        ensures
            r matches Primitive::Text(s) && s@ == decimal(self.value() as nat),
    {
        Primitive::Text(self.to_string())
    }

    /// Reads an identifier from the wire, where it may stand as text or as an
    /// integer.
    pub fn deserialize(value: &Primitive) -> (r: Result<Self, DecodeError>)
        ensures
            r == match spec_visit(*value) {
                Ok(raw) => Ok::<Self, DecodeError>(Self::of(raw)),
                Err(e) => Err(e),
            },
    {
        match StringOrInteger.visit(value) {
            Ok(id) => Ok(AnyId { id }),
            Err(e) => Err(e),
        }
    }
}

impl From<u64> for AnyId {
    fn from(id: u64) -> (r: Self)
        ensures
            r.value() == id,
    {
        AnyId { id }
    }
}

impl vstd::std_specs::convert::FromSpecImpl<u64> for AnyId {
    open spec fn obeys_from_spec() -> bool {
        true
    }

    open spec fn from_spec(id: u64) -> Self {
        Self::of(id)
    }
}

impl From<AnyId> for u64 {
    fn from(id: AnyId) -> (r: u64) {
        id.id
    }
}

impl vstd::std_specs::convert::FromSpecImpl<AnyId> for u64 {
    open spec fn obeys_from_spec() -> bool {
        true
    }

    open spec fn from_spec(id: AnyId) -> u64 {
        id.value()
    }
}

impl<T> From<Id<T>> for AnyId {
    fn from(id: Id<T>) -> (r: AnyId)
        ensures
            r.value() == id.value(),
    {
        AnyId { id: id.id }
    }
}

impl<T> vstd::std_specs::convert::FromSpecImpl<Id<T>> for AnyId {
    open spec fn obeys_from_spec() -> bool {
        true
    }

    open spec fn from_spec(id: Id<T>) -> AnyId {
        AnyId::of(id.value())
    }
}

impl<T> From<AnyId> for Id<T> {
    fn from(id: AnyId) -> (r: Id<T>)
        ensures
            r.value() == id.value(),
    {
        Id { _p: PhantomData, id: id.id }
    }
}

impl<T> vstd::std_specs::convert::FromSpecImpl<AnyId> for Id<T> {
    open spec fn obeys_from_spec() -> bool {
        true
    }

    open spec fn from_spec(id: AnyId) -> Id<T> {
        Id::of(id.value())
    }
}

impl FromStr for AnyId {
    type Err = DecodeError;

    fn from_str(txt: &str) -> (r: Result<Self, DecodeError>)
        ensures
            r == match spec_parse_u64(txt@) {
                Some(raw) => Ok::<Self, DecodeError>(Self::of(raw)),
                None => Err(DecodeError::InvalidFormat),
            },
    {
        Self::parse(txt)
    }
}

impl Snowflake for AnyId {
    open spec fn raw(self) -> u64 {
        self.value()
    }

    proof fn lemma_raw_is_all(a: Self, b: Self) {
    }

    fn from_raw(raw: u64) -> (id: Self) {
        AnyId { id: raw }
    }

    fn into_raw(self) -> (raw: u64) {
        self.id
    }
}

/// The four fields of an identifier, put back at their places, make up the
/// whole of it: no bit belongs to none of them and none to two.
pub proof fn lemma_layout(raw: u64)
    ensures
        raw == (timestamp_millis_of(raw) - EPOCH) * 0x40_0000 + worker_id_of(raw) * 0x2_0000
            + process_id_of(raw) * 0x1000 + increment_of(raw),
        timestamp_millis_of(raw) - EPOCH < 0x400_0000_0000,
        worker_id_of(raw) < 32,
        process_id_of(raw) < 32,
        increment_of(raw) < 0x1000,
{
    assert(raw == (raw / 0x40_0000) * 0x40_0000 + ((raw / 0x2_0000) % 32) * 0x2_0000 + ((raw
        / 0x1000) % 32) * 0x1000 + raw % 0x1000) by (bit_vector);
    assert(raw / 0x40_0000 < 0x400_0000_0000) by (bit_vector);
}

/// An identifier made for a moment holds that moment, to the millisecond,
/// and zero for worker, process and counter.
pub proof fn lemma_timestamp_of_snowflake_at(millis: int)
    requires
        snowflake_at(millis) is Some,
    ensures
        timestamp_millis_of(snowflake_at(millis)->0) == millis,
        worker_id_of(snowflake_at(millis)->0) == 0,
        process_id_of(snowflake_at(millis)->0) == 0,
        increment_of(snowflake_at(millis)->0) == 0,
{
    let ms: u64 = (millis - EPOCH) as u64;
    let raw: u64 = (ms * 0x40_0000) as u64;
    assert(ms * 0x40_0000 <= u64::MAX) by (nonlinear_arith)
        requires
            ms < 0x400_0000_0000,
    ;
    assert(raw == snowflake_at(millis)->0);
    assert(raw / 0x40_0000 == ms && (raw / 0x2_0000) % 32 == 0 && (raw / 0x1000) % 32 == 0 && raw
        % 0x1000 == 0) by (bit_vector)
        requires
            ms < 0x400_0000_0000,
            raw == ms * 0x40_0000,
    ;
}

/// An identifier that is written to the wire and read again is the same
/// identifier: the text it travels as is read as its number.
pub proof fn lemma_wire_round_trip(raw: u64, text: String)
    requires
        text@ == decimal(raw as nat),
    ensures
        spec_visit(Primitive::Text(text)) == Ok::<u64, DecodeError>(raw),
        spec_parse_u64(text@) == Some(raw),
{
    crate::decimal::lemma_parse_decimal(raw);
}

/// Identifiers come in the order of the moments they were made for.
pub proof fn lemma_snowflake_at_grows(earlier: int, later: int)
    requires
        earlier < later,
        snowflake_at(earlier) is Some,
        snowflake_at(later) is Some,
    ensures
        snowflake_at(earlier)->0 < snowflake_at(later)->0,
{
    let a = earlier - EPOCH;
    let b = later - EPOCH;
    assert(a * 0x40_0000 < b * 0x40_0000 <= u64::MAX) by (nonlinear_arith)
        requires
            0 <= a < b < 0x400_0000_0000,
    ;
}

/// The moment read back from the identifier made for `dt` is `dt` cut to the
/// millisecond, in UTC.
pub proof fn lemma_timestamp_inverse(dt: DateTime)
    requires
        snowflake_at(dt.unix_millis()) is Some,
    ensures
        ({
            let raw = snowflake_at(dt.unix_millis())->0;
            let back = DateTime::spec_from_unix_millis(timestamp_millis_of(raw));
            &&& back == DateTime::spec_from_unix_millis(dt.unix_millis())
            &&& back.unix_millis() == dt.unix_millis()
        }),
{
    lemma_timestamp_of_snowflake_at(dt.unix_millis());
    crate::time::lemma_from_unix_millis(dt.unix_millis());
}

/// Which kind an identifier is of leaves no mark on it: two identifiers of
/// different kinds with the same number become the same identifier once the
/// kind is dropped, and an identifier put through [`AnyId`] and back keeps
/// its number.
pub proof fn lemma_kind_is_erased<A, B>(a: Id<A>, b: Id<B>)
    requires
        a.value() == b.value(),
    ensures
        AnyId::of(a.value()) == AnyId::of(b.value()),
        Id::<B>::of(AnyId::of(a.value()).value()) == b,
{
    Id::<B>::lemma_value_of(b);
    AnyId::lemma_of_value(a.value());
}

} // verus!
