//! What is handed to a stream, and what is made of the stream's answer.

use vstd::prelude::*;
use crate::error::SerialError;

verus! {

/// The banner that opens a session: the ASCII text `ceph v027`.
pub open spec fn banner_bytes() -> Seq<u8> {
    seq![0x63u8, 0x65u8, 0x70u8, 0x68u8, 0x20u8, 0x76u8, 0x30u8, 0x32u8, 0x37u8]
}

/// The banner that opens a session.
pub fn banner() -> (r: Vec<u8>)
    ensures
        r@ == banner_bytes(),
{
    let mut out: Vec<u8> = Vec::new();
    out.push(0x63);
    out.push(0x65);
    out.push(0x70);
    out.push(0x68);
    out.push(0x20);
    out.push(0x76);
    out.push(0x30);
    out.push(0x32);
    out.push(0x37);
    assert(out@ =~= banner_bytes());
    out
}

/// What to make of the count that a stream reports for a write: the count, where the
/// stream took bytes, and a failure with the given words, where it took none.
pub fn sent(written: usize, what: &str) -> (r: Result<usize, SerialError>)
    ensures
        match r {
            Ok(count) => written > 0 && count == written,
            Err(SerialError::IoError(text)) => written == 0 && text@ == what@,
            Err(_) => false,
        },
{
    if written == 0 {
        Err(SerialError::new(what.to_owned()))
    } else {
        Ok(written)
    }
}

} // verus!
