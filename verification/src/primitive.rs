//! What every structure of the wire format offers: a reader and a writer, held to a
//! statement of the layout over byte sequences.

use vstd::prelude::*;
use crate::error::SerialError;
use crate::wire::{behind, decoded, Taken};

verus! {

/// A structure of the wire format.
pub trait CephPrimitive<'a>: Sized + View {
    /// The fewest bytes that a value of the structure takes.
    spec fn min_size() -> nat;

    /// What decoding makes of a buffer: the value and the bytes behind it, or the failure.
    spec fn spec_read(input: Seq<u8>) -> Taken<Self::V>;

    /// The bytes that stand for a value.
    spec fn spec_write(v: Self::V) -> Seq<u8>;

    /// A buffer shorter than the structure's minimum is incomplete, whatever it holds.
    proof fn law_short_input(input: Seq<u8>)
        requires
            input.len() < Self::min_size(),
        ensures
            Self::spec_read(input) == Err::<(Self::V, Seq<u8>), SerialError>(
                SerialError::Incomplete,
            ),
    ;

    /// Decoding takes bytes off the front of the buffer, at least as many as the
    /// structure's minimum, and leaves what stood behind them.
    proof fn law_consumes(input: Seq<u8>)
        ensures
            Self::spec_read(input) matches Ok((_, rest)) ==> behind(rest, input, Self::min_size()),
    ;

    /// No value takes fewer bytes than the structure's minimum.
    proof fn law_size(v: Self::V)
        ensures
            Self::spec_write(v).len() >= Self::min_size(),
    ;

    /// Decodes a value from the front of the input, and hands back the bytes behind it.
    fn read_from_wire(input: &'a [u8]) -> (r: Result<(Self, &'a [u8]), SerialError>)
        ensures
            decoded(r) == Self::spec_read(input@),
    ;

    /// Encodes the value. Writing to memory does not fail.
    fn write_to_wire(&self) -> (r: Result<Vec<u8>, SerialError>)
        ensures
            r matches Ok(bytes) && bytes@ == Self::spec_write(self@),
    ;
}

/// A structure whose values come back from their bytes.
pub trait RoundTrip<'a>: CephPrimitive<'a> {
    /// The values that the layout can hold and a decoder can give.
    spec fn valid(v: Self::V) -> bool;

    /// Decoding the bytes of a valid value gives the value, and leaves what followed them.
    proof fn law_round_trip(v: Self::V, tail: Seq<u8>)
        requires
            Self::valid(v),
        ensures
            Self::spec_read(Self::spec_write(v) + tail) == Ok::<(Self::V, Seq<u8>), SerialError>(
                (v, tail),
            ),
    ;
}

} // verus!
