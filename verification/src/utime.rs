//! Points in time as the wire format holds them.

use vstd::prelude::*;
use crate::bytes::{le_u32, put_u32_le};
use crate::wire::{take_u32_le, u32_le_bytes};
use crate::error::SerialError;
use crate::primitive::{CephPrimitive, RoundTrip};
use crate::wire::{failed, group_behind, group_take, lemma_behind_trans, lemma_concat_assoc};
use crate::wire::{rest, value, Taken};

verus! {

/// A point in time: seconds since the epoch, and nanoseconds since that second.
#[derive(Debug, Clone, Copy, PartialEq, Eq)]
pub struct Utime {
    /// Seconds since the epoch.
    pub tv_sec: u32,
    /// Nanoseconds since the last second.
    pub tv_nsec: u32,
}

impl View for Utime {
    type V = Utime;

    open spec fn view(&self) -> Utime {
        *self
    }
}

impl<'a> CephPrimitive<'a> for Utime {
    open spec fn min_size() -> nat {
        8
    }

    open spec fn spec_read(input: Seq<u8>) -> Taken<Utime> {
        let tv_sec = take_u32_le(input);
        let tv_nsec = take_u32_le(rest(tv_sec));
        if input.len() < 8 {
            Err(SerialError::Incomplete)
        } else if tv_sec is Err {
            failed(tv_sec)
        } else if tv_nsec is Err {
            failed(tv_nsec)
        } else {
            Ok(
                (
                    Utime {
                        tv_sec: value(tv_sec),
                        tv_nsec: value(tv_nsec),
                    },
                    rest(tv_nsec),
                ),
            )
        }
    }

    open spec fn spec_write(v: Utime) -> Seq<u8> {
        u32_le_bytes(v.tv_sec) + u32_le_bytes(v.tv_nsec)
    }

    proof fn law_short_input(input: Seq<u8>) {
    }

    proof fn law_size(v: Utime) {
        broadcast use group_take;
    }

    proof fn law_consumes(input: Seq<u8>) {
        broadcast use group_behind;

        let tv_sec = take_u32_le(input);
        let tv_nsec = take_u32_le(rest(tv_sec));
        if Self::spec_read(input) is Ok {
            lemma_behind_trans(rest(tv_nsec), rest(tv_sec), input, 4, 4);
        }
    }

    fn read_from_wire(input: &'a [u8]) -> (r: Result<(Self, &'a [u8]), SerialError>) {
        if input.len() < 8 {
            return Err(SerialError::Incomplete);
        }
        let (tv_sec, rest) = le_u32(input)?;
        let (tv_nsec, rest) = le_u32(rest)?;
        Ok((Utime { tv_sec, tv_nsec }, rest))
    }

    fn write_to_wire(&self) -> (r: Result<Vec<u8>, SerialError>) {
        let mut buffer: Vec<u8> = Vec::new();
        put_u32_le(&mut buffer, self.tv_sec);
        put_u32_le(&mut buffer, self.tv_nsec);
        assert(buffer@ =~= Self::spec_write(self@));
        Ok(buffer)
    }
}

impl<'a> RoundTrip<'a> for Utime {
    open spec fn valid(v: Utime) -> bool {
        true
    }

    proof fn law_round_trip(v: Utime, tail: Seq<u8>) {
        broadcast use group_take;

        let t1 = u32_le_bytes(v.tv_nsec) + tail;
        lemma_concat_assoc(u32_le_bytes(v.tv_sec), u32_le_bytes(v.tv_nsec), tail);
    }
}

/// `time::now().to_timespec()`: the seconds and nanoseconds since the epoch by the clock
/// of this machine. The nanoseconds stay below one second.
#[verifier::external_body]
fn now_timespec() -> (r: (i64, i32))
    ensures
        0 <= r.1 < 1_000_000_000,
{
    let now = time::now().to_timespec();
    (now.sec, now.nsec)
}

impl Utime {
    /// The point in time of a clock reading: each number cut to its low 32 bits.
    pub open spec fn spec_from_timespec(sec: i64, nsec: i32) -> Utime {
        Utime { tv_sec: sec as u32, tv_nsec: nsec as u32 }
    }

    /// The point in time of a clock reading.
    pub fn from_timespec(sec: i64, nsec: i32) -> (r: Utime)
        ensures
            r == Utime::spec_from_timespec(sec, nsec),
    {
        Utime {
            tv_sec: #[verifier::truncate] (sec as u32),
            tv_nsec: #[verifier::truncate] (nsec as u32),
        }
    }

    /// The present moment, by the clock of this machine.
    pub fn new() -> (r: Utime)
        ensures
            r.tv_nsec < 1_000_000_000,
            exists|sec: i64, nsec: i32|
                0 <= nsec < 1_000_000_000 && r == Utime::spec_from_timespec(sec, nsec),
    {
        let (sec, nsec) = now_timespec();
        Utime::from_timespec(sec, nsec)
    }
}

} // verus!
