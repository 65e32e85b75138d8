use vstd::prelude::*;

use super::error::FromBytesError;

verus! {

/// A data byte that holds 7 bits of information.
#[derive(Copy, Clone, Debug, Default, PartialEq, Eq, Hash, Structural)]
pub struct U7(u8);

impl U7 {
    #[verifier::type_invariant]
    spec fn inv(self) -> bool {
        self.0 < 128
    }

    /// The 7 bit value held by `self`.
    pub closed spec fn value(self) -> u8 {
        self.0
    }

    /// The data byte holding `v`. Only a valid data byte for `v < 128`.
    pub closed spec fn from_value(v: u8) -> U7 {
        U7(v)
    }

    /// True if the value fits in 7 bits.
    pub open spec fn valid(self) -> bool {
        self.value() < 128
    }

    pub broadcast proof fn lemma_value_of_from_value(v: u8)
        ensures
            #[trigger] U7::from_value(v).value() == v,
    {
    }

    pub broadcast proof fn lemma_from_value_of_value(x: U7)
        ensures
            #[trigger] U7::from_value(x.value()) == x,
    {
    }

    /// The minimum value for a 7 bit data byte.
    pub fn min_value() -> (r: U7)
        ensures
            r.value() == 0,
    {
        U7(0)
    }

    /// The maximum value for a 7 bit data byte.
    pub fn max_value() -> (r: U7)
        ensures
            r.value() == 127,
    {
        U7(127)
    }

    /// Create a new `U7` or return an error if `data` does not fit in 7 bits.
    pub fn new(data: u8) -> (r: Result<U7, FromBytesError>)
        ensures
            data < 128 ==> r == Ok::<U7, FromBytesError>(U7::from_value(data)),
            data >= 128 ==> r == Err::<U7, FromBytesError>(FromBytesError::DataByteOutOfRange),
    {
        if data > 127 {
            Err(FromBytesError::DataByteOutOfRange)
        } else {
            Ok(U7(data))
        }
    }

    /// Create a `U7` from a `u8`; only the 7 least significant bits of `data` are kept.
    pub fn from_u8_lossy(data: u8) -> (r: U7)
        ensures
            r.value() == data % 128,
    {
        U7(data % 128)
    }

    /// The value as a byte.
    pub fn to_u8(self) -> (r: u8)
        ensures
            r == self.value(),
            r < 128,
    {
        proof {
            use_type_invariant(&self);
        }
        self.0
    }
}

/// A combination of 2 data bytes that holds 14 bits of information.
#[derive(Copy, Clone, Debug, Default, PartialEq, Eq, Hash, Structural)]
pub struct U14(u16);

impl U14 {
    #[verifier::type_invariant]
    spec fn inv(self) -> bool {
        self.0 < 16384
    }

    /// The 14 bit value held by `self`.
    pub closed spec fn value(self) -> u16 {
        self.0
    }

    /// The value holding `v`. Only valid for `v < 16384`.
    pub closed spec fn from_value(v: u16) -> U14 {
        U14(v)
    }

    /// True if the value fits in 14 bits.
    pub open spec fn valid(self) -> bool {
        self.value() < 16384
    }

    pub broadcast proof fn lemma_value_of_from_value(v: u16)
        ensures
            #[trigger] U14::from_value(v).value() == v,
    {
    }

    pub broadcast proof fn lemma_from_value_of_value(x: U14)
        ensures
            #[trigger] U14::from_value(x.value()) == x,
    {
    }

    /// The minimum value for a 14 bit value.
    pub fn min_value() -> (r: U14)
        ensures
            r.value() == 0,
    {
        U14(0)
    }

    /// The maximum value for a 14 bit value.
    pub fn max_value() -> (r: U14)
        ensures
            r.value() == 16383,
    {
        U14(16383)
    }

    /// Create a new `U14` or return an error if `data` does not fit in 14 bits.
    pub fn new(data: u16) -> (r: Result<U14, FromBytesError>)
        ensures
            data < 16384 ==> r == Ok::<U14, FromBytesError>(U14::from_value(data)),
            data >= 16384 ==> r == Err::<U14, FromBytesError>(FromBytesError::U14OutOfRange),
    {
        if data > 16383 {
            Err(FromBytesError::U14OutOfRange)
        } else {
            Ok(U14(data))
        }
    }

    /// Create a `U14` from a value that is known to fit in 14 bits.
    pub(crate) fn from_unchecked(data: u16) -> (r: U14)
        requires
            data < 16384,
        ensures
            r.value() == data,
    {
        U14(data)
    }

    /// The value as a `u16`.
    pub fn to_u16(self) -> (r: u16)
        ensures
            r == self.value(),
            r < 16384,
    {
        proof {
            use_type_invariant(&self);
        }
        self.0
    }
}

pub broadcast group group_byte_lemmas {
    U7::lemma_value_of_from_value,
    U7::lemma_from_value_of_value,
    U14::lemma_value_of_from_value,
    U14::lemma_from_value_of_value,
}

} // verus!
