//! Enumerations that survive what they do not know.
//!
//! A field that holds one of a set of named values travels as an integer or
//! as a string. The set grows: a value may arrive that had no name when this
//! was written. Such a value is kept as it came, so that the rest of what
//! came with it can be read and so that it goes out again unchanged; only
//! one who asks for the name learns that there is none.

use vstd::prelude::*;

use crate::wire::{DecodeError, Primitive};

verus! {

/// An integer arrived where a name was asked for, and it has none.
#[derive(Debug, Eq, PartialEq, Clone, Copy, Structural)]
pub struct EnumFromIntegerError {
    pub raw: u64,
}

impl EnumFromIntegerError {
    pub fn new(raw: u64) -> (r: Self)
        ensures
            r == (EnumFromIntegerError { raw }),
    {
        Self { raw }
    }

    /// The integer that has no name.
    pub fn inner(self) -> (raw: u64)
        ensures
            raw == self.raw,
    {
        self.raw
    }
}

/// A string arrived where a name was asked for, and it is none.
#[derive(Debug, Eq, PartialEq, Clone)]
pub struct ParseEnumError {
    pub raw: String,
}

impl ParseEnumError {
    pub fn new(raw: String) -> (r: Self)
        ensures
            r == (ParseEnumError { raw }),
    {
        Self { raw }
    }

    /// The string that is no name.
    pub fn into_inner(self) -> (raw: String)
        ensures
            raw == self.raw,
    {
        self.raw
    }

    /// The string that is no name.
    pub fn as_inner(&self) -> (raw: &str)
        ensures
            raw@ == self.raw@,
    {
        self.raw.as_str()
    }
}

/// A type whose values travel as unsigned integers.
pub trait WireInteger: Sized + Copy {
    /// Whether `self` is a value that can come about. Every value of an
    /// enumeration is; a set of flags is where it holds named flags only.
    spec fn valid(self) -> bool;

    /// The integer that `self` travels as.
    spec fn code(self) -> u64;

    /// The value that travels as `raw`, where there is one.
    spec fn of_code(raw: u64) -> Option<Self>;

    /// A value is read back from the integer it travels as.
    proof fn lemma_code_is_read_back(self)
        requires
            self.valid(),
        ensures
            Self::of_code(self.code()) == Some(self),
    ;

    /// What is read from an integer is valid and travels as that integer.
    proof fn lemma_of_code_is_exact(raw: u64)
        ensures
            Self::of_code(raw) matches Some(v) ==> v.valid() && v.code() == raw,
    ;

    /// The integer that `self` travels as.
    fn to_wire(self) -> (raw: u64)
        ensures
            raw == self.code(),
    ;

    /// The value that travels as `raw`, where there is one.
    fn from_wire(raw: u64) -> (r: Option<Self>)
        ensures
            r == Self::of_code(raw),
    ;
}

/// A type whose values can be read from strings.
pub trait ReadWireString: Sized {
    /// The value that `text` names, where it names one.
    spec fn of_text(text: Seq<char>) -> Option<Self>;

    /// The value that `text` names, where it names one.
    fn read_wire(text: &str) -> (r: Option<Self>)
        ensures
            r == Self::of_text(text@),
    ;
}

/// A type whose values travel as strings, each value as one string.
pub trait WireString: ReadWireString {
    /// The string that `self` travels as.
    spec fn text(self) -> Seq<char>;

    /// A value is read back from the string it travels as.
    proof fn lemma_text_is_read_back(self)
        ensures
            Self::of_text(self.text()) == Some(self),
    ;

    /// What is read from a string travels as that string.
    proof fn lemma_of_text_is_exact(text: Seq<char>)
        ensures
            Self::of_text(text) matches Some(v) ==> v.text() == text,
    ;

    /// The string that `self` travels as.
    fn as_wire(&self) -> (r: &str)
        ensures
            r@ == self.text(),
    ;
}

/// The two states of a value that came over the wire: a name was found for
/// it, or it is kept as it came.
#[derive(Debug, Clone, Copy)]
pub enum Inner<T, R> {
    Parsed(T),
    Raw(R),
}

/// A value that travels as a string and may have a name in `T`.
#[derive(Debug, Clone)]
pub struct StringEnum<T>(pub Inner<T, String>);

impl<T> StringEnum<T> {
    /// A value with no name, kept as the string `s`.
    pub fn custom(s: String) -> (r: Self)
        ensures
            r.0 == Inner::<T, String>::Raw(s),
    {
        Self(Inner::Raw(s))
    }

    /// The named value, or the string that is no name.
    pub open spec fn spec_try_unwrap(self) -> Result<T, ParseEnumError> {
        match self.0 {
            Inner::Raw(raw) => Err(ParseEnumError { raw }),
            Inner::Parsed(p) => Ok(p),
        }
    }
}

impl<T: Copy> StringEnum<T> {
    /// The named value. Only for a value that is known to have a name.
    pub fn unwrap(&self) -> (t: T)
        requires
            self.0 is Parsed,
        ensures
            self.0 == Inner::<T, String>::Parsed(t),
    {
        match &self.0 {
            Inner::Parsed(p) => *p,
            Inner::Raw(_) => vstd::pervasive::unreached(),
        }
    }

    /// The named value, or the string that is no name.
    pub fn try_unwrap(&self) -> (r: Result<T, ParseEnumError>)
        ensures
            r == self.spec_try_unwrap(),
    {
        match &self.0 {
            Inner::Raw(raw) => Err(ParseEnumError { raw: raw.clone() }),
            Inner::Parsed(p) => Ok(*p),
        }
    }
}

impl<T> From<T> for StringEnum<T> {
    fn from(t: T) -> (r: Self) {
        Self(Inner::Parsed(t))
    }
}

impl<T> vstd::std_specs::convert::FromSpecImpl<T> for StringEnum<T> {
    open spec fn obeys_from_spec() -> bool {
        true
    }

    open spec fn from_spec(t: T) -> Self {
        StringEnum(Inner::Parsed(t))
    }
}

impl<T: ReadWireString> StringEnum<T> {
    /// What the string `text` is read as: the value it names, or itself.
    pub open spec fn spec_decode(text: String) -> Self {
        match T::of_text(text@) {
            Some(t) => StringEnum(Inner::Parsed(t)),
            None => StringEnum(Inner::Raw(text)),
        }
    }

    /// Reads the string `raw`. Every string can be read.
    pub fn decode(raw: String) -> (r: Self)
        ensures
            r == Self::spec_decode(raw),
    {
        match T::read_wire(raw.as_str()) {
            Some(t) => Self(Inner::Parsed(t)),
            None => Self(Inner::Raw(raw)),
        }
    }

    /// Reads a value from the wire, where it must stand as a string.
    pub fn deserialize(value: &Primitive) -> (r: Result<Self, DecodeError>)
        ensures
            r == match *value {
                Primitive::Text(s) => Ok::<Self, DecodeError>(Self::spec_decode(s)),
                _ => Err(DecodeError::TypeMismatch),
            },
    {
        match value {
            Primitive::Text(s) => Ok(Self::decode(s.clone())),
            _ => Err(DecodeError::TypeMismatch),
        }
    }
}

impl<T: WireString> StringEnum<T> {
    /// The string that the value travels as: that of its name, or the one
    /// it came as.
    pub open spec fn spec_encode(self) -> Seq<char> {
        match self.0 {
            Inner::Parsed(t) => t.text(),
            Inner::Raw(s) => s@,
        }
    }

    /// The string that the value travels as.
    pub fn encode(&self) -> (r: &str)
        ensures
            r@ == self.spec_encode(),
    {
        match &self.0 {
            Inner::Parsed(t) => t.as_wire(),
            Inner::Raw(s) => s.as_str(),
        }
    }

    /// The wire form: a string.
    pub fn serialize(&self) -> (r: Primitive)
        ensures
            r matches Primitive::Text(s) && s@ == self.spec_encode(),
    {
        Primitive::Text(self.encode().to_owned())
    }

    /// As it is shown: the string that the value travels as.
    pub fn to_string(&self) -> (r: String)
        ensures
            r@ == self.spec_encode(),
    {
        self.encode().to_owned()
    }
}

/// A value that travels as an integer and may have a name in `T`.
#[derive(Debug, Clone, Copy)]
pub struct IntegerEnum<T>(pub Inner<T, u64>);

impl<T> IntegerEnum<T> {
    /// A value with no name, kept as the integer `value`.
    pub fn custom(value: u64) -> (r: Self)
        ensures
            r.0 == Inner::<T, u64>::Raw(value),
    {
        Self(Inner::Raw(value))
    }

    /// The named value, or the integer that has no name.
    pub open spec fn spec_try_unwrap(self) -> Result<T, EnumFromIntegerError> {
        match self.0 {
            Inner::Raw(raw) => Err(EnumFromIntegerError { raw }),
            Inner::Parsed(p) => Ok(p),
        }
    }
}

impl<T> From<T> for IntegerEnum<T> {
    fn from(t: T) -> (r: Self) {
        Self(Inner::Parsed(t))
    }
}

impl<T> vstd::std_specs::convert::FromSpecImpl<T> for IntegerEnum<T> {
    open spec fn obeys_from_spec() -> bool {
        true
    }

    open spec fn from_spec(t: T) -> Self {
        IntegerEnum(Inner::Parsed(t))
    }
}

impl<T: Copy> IntegerEnum<T> {
    /// The named value. Only for a value that is known to have a name.
    pub fn unwrap(self) -> (t: T)
        requires
            self.0 is Parsed,
        ensures
            self.0 == Inner::<T, u64>::Parsed(t),
    {
        match self.0 {
            Inner::Parsed(p) => p,
            Inner::Raw(_) => vstd::pervasive::unreached(),
        }
    }

    /// The named value, or the integer that has no name.
    pub fn try_unwrap(self) -> (r: Result<T, EnumFromIntegerError>)
        ensures
            r == self.spec_try_unwrap(),
    {
        match self.0 {
            Inner::Raw(raw) => Err(EnumFromIntegerError { raw }),
            Inner::Parsed(p) => Ok(p),
        }
    }
}

impl<T: WireInteger> IntegerEnum<T> {
    /// What the integer `raw` is read as: the value it stands for, or
    /// itself.
    pub open spec fn spec_decode(raw: u64) -> Self {
        match T::of_code(raw) {
            Some(t) => IntegerEnum(Inner::Parsed(t)),
            None => IntegerEnum(Inner::Raw(raw)),
        }
    }

    /// The integer that the value travels as: that of its name, or the one
    /// it came as.
    pub open spec fn spec_encode(self) -> u64 {
        match self.0 {
            Inner::Parsed(t) => t.code(),
            Inner::Raw(raw) => raw,
        }
    }

    /// Reads the integer `raw`. Every integer can be read.
    pub fn decode(raw: u64) -> (r: Self)
        ensures
            r == Self::spec_decode(raw),
    {
        match T::from_wire(raw) {
            Some(t) => Self(Inner::Parsed(t)),
            None => Self(Inner::Raw(raw)),
        }
    }

    /// The integer that the value travels as.
    pub fn encode(self) -> (raw: u64)
        ensures
            raw == self.spec_encode(),
    {
        match self.0 {
            Inner::Parsed(t) => t.to_wire(),
            Inner::Raw(raw) => raw,
        }
    }

    /// Reads a value from the wire, where it must stand as an integer that
    /// is not negative.
    pub fn deserialize(value: &Primitive) -> (r: Result<Self, DecodeError>)
        ensures
            r == match *value {
                Primitive::Unsigned(raw) => Ok::<Self, DecodeError>(Self::spec_decode(raw)),
                Primitive::Signed(raw) => if raw >= 0 {
                    Ok(Self::spec_decode(raw as u64))
                } else {
                    Err(DecodeError::InvalidFormat)
                },
                _ => Err(DecodeError::TypeMismatch),
            },
    {
        match value {
            Primitive::Unsigned(raw) => Ok(Self::decode(*raw)),
            Primitive::Signed(raw) => if *raw >= 0 {
                Ok(Self::decode(*raw as u64))
            } else {
                Err(DecodeError::InvalidFormat)
            },
            _ => Err(DecodeError::TypeMismatch),
        }
    }

    /// The wire form: an integer.
    pub fn serialize(&self) -> (r: Primitive)
        ensures
            r == Primitive::Unsigned(self.spec_encode()),
    {
        Primitive::Unsigned(self.encode())
    }
}

impl<T: WireInteger> From<IntegerEnum<T>> for u64 {
    fn from(enm: IntegerEnum<T>) -> (r: u64) {
        enm.encode()
    }
}

impl<T: WireInteger> vstd::std_specs::convert::FromSpecImpl<IntegerEnum<T>> for u64 {
    open spec fn obeys_from_spec() -> bool {
        true
    }

    open spec fn from_spec(enm: IntegerEnum<T>) -> u64 {
        enm.spec_encode()
    }
}

/// Whatever integer comes in goes out again: reading an integer and writing
/// the value that was read gives the integer, whether or not it has a name.
pub proof fn lemma_integer_round_trip<T: WireInteger>(raw: u64)
    ensures
        IntegerEnum::<T>::spec_decode(raw).spec_encode() == raw,
{
    T::lemma_of_code_is_exact(raw);
}

/// A named value that is written and read again is found under its name.
pub proof fn lemma_integer_known<T: WireInteger>(v: T)
    requires
        v.valid(),
    ensures
        IntegerEnum::<T>::spec_decode(v.code()).spec_try_unwrap() == Ok::<T, EnumFromIntegerError>(
            v,
        ),
        IntegerEnum(Inner::<T, u64>::Parsed(v)).spec_encode() == v.code(),
{
    v.lemma_code_is_read_back();
}

/// An integer that has no name is read all the same, and the one who asks
/// for its name is handed the integer.
pub proof fn lemma_integer_unknown<T: WireInteger>(raw: u64)
    requires
        T::of_code(raw) is None,
    ensures
        IntegerEnum::<T>::spec_decode(raw).0 == Inner::<T, u64>::Raw(raw),
        IntegerEnum::<T>::spec_decode(raw).spec_try_unwrap() == Err::<T, EnumFromIntegerError>(
            EnumFromIntegerError { raw },
        ),
{
}

/// Whatever string comes in goes out again: reading a string and writing
/// the value that was read gives the string, whether or not it is a name.
pub proof fn lemma_string_round_trip<T: WireString>(text: String)
    ensures
        StringEnum::<T>::spec_decode(text).spec_encode() == text@,
{
    T::lemma_of_text_is_exact(text@);
}

/// A named value that is written and read again is found under its name.
pub proof fn lemma_string_known<T: WireString>(v: T, text: String)
    requires
        text@ == v.text(),
    ensures
        StringEnum::<T>::spec_decode(text).spec_try_unwrap() == Ok::<T, ParseEnumError>(v),
        StringEnum(Inner::<T, String>::Parsed(v)).spec_encode() == text@,
{
    v.lemma_text_is_read_back();
}

/// A string that is no name is read all the same, and the one who asks for
/// the name is handed the string.
pub proof fn lemma_string_unknown<T: ReadWireString>(text: String)
    requires
        T::of_text(text@) is None,
    ensures
        StringEnum::<T>::spec_decode(text).0 == Inner::<T, String>::Raw(text),
        StringEnum::<T>::spec_decode(text).spec_try_unwrap() == Err::<T, ParseEnumError>(
            ParseEnumError { raw: text },
        ),
{
}

} // verus!
