//! Lists of the wire format: a count of four bytes, little-endian, and as many items
//! behind it, each read by the same step.

use vstd::prelude::*;
use crate::bytes::{le_u32, parse_str, put_str, put_u32_le};
use crate::enums::{auth_protocol_bytes, parse_protocol, put_auth_protocol, take_auth_protocol};
use crate::enums::{lemma_behind_take_auth_protocol, lemma_take_auth_protocol, CephAuthProtocol};
use crate::error::SerialError;
use crate::wire::{behind, lemma_behind_take_str, lemma_behind_take_u32_le, lemma_behind_trans};
use crate::wire::{decoded, lemma_concat_assoc, lemma_take_str, lemma_take_u32_le};
use crate::wire::{str_bytes, take_str, take_u32_le, u32_le_bytes, Taken};
use vstd::utf8::encode_utf8;

verus! {

/// `n` items, one behind the other.
pub open spec fn read_many<V>(step: spec_fn(Seq<u8>) -> Taken<V>, input: Seq<u8>, n: nat) -> Taken<
    Seq<V>,
>
    decreases n,
{
    if n == 0 {
        Ok((Seq::empty(), input))
    } else {
        match read_many(step, input, (n - 1) as nat) {
            Err(e) => Err(e),
            Ok((items, s)) => match step(s) {
                Err(e) => Err(e),
                Ok((item, s1)) => Ok((items.push(item), s1)),
            },
        }
    }
}

/// The bytes of the items, one behind the other.
pub open spec fn write_many<V>(bytes: spec_fn(V) -> Seq<u8>, items: Seq<V>) -> Seq<u8>
    decreases items.len(),
{
    if items.len() == 0 {
        Seq::empty()
    } else {
        write_many(bytes, items.drop_last()) + bytes(items.last())
    }
}

/// A count, and as many items behind it.
pub open spec fn take_counted<V>(step: spec_fn(Seq<u8>) -> Taken<V>, input: Seq<u8>) -> Taken<
    Seq<V>,
> {
    match take_u32_le(input) {
        Err(e) => Err(e),
        Ok((n, s1)) => read_many(step, s1, n as nat),
    }
}

/// The items behind their count.
pub open spec fn counted_bytes<V>(bytes: spec_fn(V) -> Seq<u8>, items: Seq<V>) -> Seq<u8> {
    u32_le_bytes(items.len() as u32) + write_many(bytes, items)
}

/// Once an item fails, the list fails in the same way, however many items are asked for.
pub proof fn lemma_read_many_fails<V>(
    step: spec_fn(Seq<u8>) -> Taken<V>,
    input: Seq<u8>,
    i: nat,
    n: nat,
)
    requires
        i <= n,
        read_many(step, input, i) is Err,
    ensures
        read_many(step, input, n) == read_many(step, input, i),
    decreases n,
{
    if i < n {
        lemma_read_many_fails(step, input, i, (n - 1) as nat);
    }
}

/// Where the step leaves what stood behind the bytes that it took, so do many steps.
pub proof fn lemma_behind_read_many<V>(step: spec_fn(Seq<u8>) -> Taken<V>, input: Seq<u8>, n: nat)
    requires
        forall|s: Seq<u8>| #[trigger] step(s) matches Ok((_, r)) ==> behind(r, s, 0),
    ensures
        read_many(step, input, n) matches Ok((_, r)) ==> behind(r, input, 0),
    decreases n,
{
    if n > 0 {
        lemma_behind_read_many(step, input, (n - 1) as nat);
        if let Ok((_, s)) = read_many(step, input, (n - 1) as nat) {
            if let Ok((_, r)) = step(s) {
                lemma_behind_trans(r, s, input, 0, 0);
            }
        }
    } else {
        assert(input =~= input.skip(0));
    }
}

/// Where the step leaves what stood behind the bytes that it took, a counted list leaves
/// what stood behind the count and the items.
pub proof fn lemma_behind_take_counted<V>(step: spec_fn(Seq<u8>) -> Taken<V>, input: Seq<u8>)
    requires
        forall|s: Seq<u8>| #[trigger] step(s) matches Ok((_, r)) ==> behind(r, s, 0),
    ensures
        take_counted(step, input) matches Ok((_, r)) ==> behind(r, input, 4),
{
    lemma_behind_take_u32_le(input);
    if let Ok((n, s1)) = take_u32_le(input) {
        lemma_behind_read_many(step, s1, n as nat);
        if let Ok((_, r)) = read_many(step, s1, n as nat) {
            lemma_behind_trans(r, s1, input, 0, 4);
        }
    }
}

/// Where the step undoes the bytes of each item, reading as many items as were written
/// gives them back.
pub proof fn lemma_read_many_round_trip<V>(
    step: spec_fn(Seq<u8>) -> Taken<V>,
    bytes: spec_fn(V) -> Seq<u8>,
    items: Seq<V>,
    tail: Seq<u8>,
)
    requires
        forall|i: int, t: Seq<u8>|
            0 <= i < items.len() ==> #[trigger] step(bytes(items[i]) + t) == Ok::<
                (V, Seq<u8>),
                SerialError,
            >((items[i], t)),
    ensures
        read_many(step, write_many(bytes, items) + tail, items.len()) == Ok::<
            (Seq<V>, Seq<u8>),
            SerialError,
        >((items, tail)),
    decreases items.len(),
{
    if items.len() == 0 {
        assert(write_many(bytes, items) + tail =~= tail);
        assert(items =~= Seq::empty());
    } else {
        let init = items.drop_last();
        let last = items.last();
        lemma_concat_assoc(write_many(bytes, init), bytes(last), tail);
        assert forall|i: int, t: Seq<u8>| 0 <= i < init.len() implies #[trigger] step(
            bytes(init[i]) + t,
        ) == Ok::<(V, Seq<u8>), SerialError>((init[i], t)) by {
            assert(init[i] == items[i]);
        }
        lemma_read_many_round_trip(step, bytes, init, bytes(last) + tail);
        assert(step(bytes(items[items.len() - 1]) + tail) == Ok::<(V, Seq<u8>), SerialError>(
            (last, tail),
        ));
        assert(init.push(last) =~= items);
    }
}

/// A counted list comes back from its bytes, where the step undoes the bytes of each
/// item and the count fits its four bytes.
pub proof fn lemma_take_counted<V>(
    step: spec_fn(Seq<u8>) -> Taken<V>,
    bytes: spec_fn(V) -> Seq<u8>,
    items: Seq<V>,
    tail: Seq<u8>,
)
    requires
        items.len() <= u32::MAX,
        forall|i: int, t: Seq<u8>|
            0 <= i < items.len() ==> #[trigger] step(bytes(items[i]) + t) == Ok::<
                (V, Seq<u8>),
                SerialError,
            >((items[i], t)),
    ensures
        take_counted(step, counted_bytes(bytes, items) + tail) == Ok::<
            (Seq<V>, Seq<u8>),
            SerialError,
        >((items, tail)),
{
    lemma_concat_assoc(u32_le_bytes(items.len() as u32), write_many(bytes, items), tail);
    lemma_take_u32_le(items.len() as u32, write_many(bytes, items) + tail);
    lemma_read_many_round_trip(step, bytes, items, tail);
}

// Lists of authentication protocols.

/// The step that reads one authentication protocol.
pub open spec fn auth_protocol_step() -> spec_fn(Seq<u8>) -> Taken<CephAuthProtocol> {
    |s: Seq<u8>| take_auth_protocol(s)
}

/// The bytes of one authentication protocol.
pub open spec fn auth_protocol_item() -> spec_fn(CephAuthProtocol) -> Seq<u8> {
    |e: CephAuthProtocol| auth_protocol_bytes(e)
}

pub open spec fn take_protocols(s: Seq<u8>) -> Taken<Seq<CephAuthProtocol>> {
    take_counted(auth_protocol_step(), s)
}

pub open spec fn protocols_bytes(items: Seq<CephAuthProtocol>) -> Seq<u8> {
    counted_bytes(auth_protocol_item(), items)
}

pub proof fn lemma_take_protocols(items: Seq<CephAuthProtocol>, tail: Seq<u8>)
    requires
        items.len() <= u32::MAX,
    ensures
        take_protocols(protocols_bytes(items) + tail) == Ok::<
            (Seq<CephAuthProtocol>, Seq<u8>),
            SerialError,
        >((items, tail)),
{
    assert forall|i: int, t: Seq<u8>| 0 <= i < items.len() implies #[trigger] auth_protocol_step()(
        auth_protocol_item()(items[i]) + t,
    ) == Ok::<(CephAuthProtocol, Seq<u8>), SerialError>((items[i], t)) by {
        lemma_take_auth_protocol(items[i], t);
    }
    lemma_take_counted(auth_protocol_step(), auth_protocol_item(), items, tail);
}

pub proof fn lemma_behind_take_protocols(s: Seq<u8>)
    ensures
        take_protocols(s) matches Ok((_, r)) ==> behind(r, s, 4),
{
    assert forall|t: Seq<u8>|
        (#[trigger] auth_protocol_step()(t) matches Ok((_, r)) ==> behind(r, t, 0)) by {
        lemma_behind_take_auth_protocol(t);
    }
    lemma_behind_take_counted(auth_protocol_step(), s);
}

/// A count, and as many authentication protocols behind it.
pub fn parse_protocols<'a>(input: &'a [u8]) -> (r: Result<
    (Vec<CephAuthProtocol>, &'a [u8]),
    SerialError,
>)
    ensures
        decoded(r) == take_protocols(input@),
{
    let (count, start) = le_u32(input)?;
    let ghost step = auth_protocol_step();
    let mut items: Vec<CephAuthProtocol> = Vec::new();
    let mut rest = start;
    let mut i: u32 = 0;
    while i < count
        invariant
            i <= count,
            step == auth_protocol_step(),
            take_u32_le(input@) == Ok::<(u32, Seq<u8>), SerialError>((count, start@)),
            read_many(step, start@, i as nat)
                == Ok::<(Seq<CephAuthProtocol>, Seq<u8>), SerialError>(
                (items@, rest@),
            ),
        decreases count - i,
    {
        match parse_protocol(rest) {
            Ok((item, behind)) => {
                items.push(item);
                rest = behind;
                i = i + 1;
            },
            Err(e) => {
                proof {
                    assert(read_many(step, start@, (i + 1) as nat) is Err);
                    lemma_read_many_fails(step, start@, (i + 1) as nat, count as nat);
                }
                return Err(e);
            },
        }
    }
    Ok((items, rest))
}

pub fn put_protocols(buf: &mut Vec<u8>, items: &Vec<CephAuthProtocol>)
    ensures
        final(buf)@ == old(buf)@ + protocols_bytes(items@),
{
    put_u32_le(buf, #[verifier::truncate] (items.len() as u32));
    let ghost start = buf@;
    let ghost item = auth_protocol_item();
    let mut i: usize = 0;
    while i < items.len()
        invariant
            i <= items.len(),
            item == auth_protocol_item(),
            buf@ == start + write_many(item, items@.take(i as int)),
        decreases items.len() - i,
    {
        put_auth_protocol(buf, items[i]);
        proof {
            let done = items@.take(i + 1);
            assert(done.drop_last() =~= items@.take(i as int));
            lemma_concat_assoc(start, write_many(item, done.drop_last()), item(done.last()));
        }
        i = i + 1;
    }
    proof {
        assert(items@.take(items.len() as int) =~= items@);
        lemma_concat_assoc(
            old(buf)@,
            u32_le_bytes(items@.len() as u32),
            write_many(item, items@),
        );
    }
}

// Lists of texts.

/// The texts that string slices stand for.
pub open spec fn texts(items: Seq<&str>) -> Seq<Seq<char>> {
    items.map_values(|s: &str| s@)
}

/// The step that reads one text behind its length.
pub open spec fn str_step() -> spec_fn(Seq<u8>) -> Taken<Seq<char>> {
    |s: Seq<u8>| take_str(s)
}

/// The bytes of one text behind its length.
pub open spec fn str_item() -> spec_fn(Seq<char>) -> Seq<u8> {
    |text: Seq<char>| str_bytes(text)
}

pub open spec fn take_strs(s: Seq<u8>) -> Taken<Seq<Seq<char>>> {
    take_counted(str_step(), s)
}

pub open spec fn strs_bytes(items: Seq<Seq<char>>) -> Seq<u8> {
    counted_bytes(str_item(), items)
}

/// Whether each text is short enough for its length to fit four bytes, and the list for
/// its count.
pub open spec fn strs_fit(items: Seq<Seq<char>>) -> bool {
    &&& items.len() <= u32::MAX
    &&& forall|i: int| 0 <= i < items.len() ==> encode_utf8(#[trigger] items[i]).len() <= u32::MAX
}

pub proof fn lemma_take_strs(items: Seq<Seq<char>>, tail: Seq<u8>)
    requires
        strs_fit(items),
    ensures
        take_strs(strs_bytes(items) + tail) == Ok::<(Seq<Seq<char>>, Seq<u8>), SerialError>(
            (items, tail),
        ),
{
    assert forall|i: int, t: Seq<u8>| 0 <= i < items.len() implies #[trigger] str_step()(
        str_item()(items[i]) + t,
    ) == Ok::<(Seq<char>, Seq<u8>), SerialError>((items[i], t)) by {
        lemma_take_str(items[i], t);
    }
    lemma_take_counted(str_step(), str_item(), items, tail);
}

pub proof fn lemma_behind_take_strs(s: Seq<u8>)
    ensures
        take_strs(s) matches Ok((_, r)) ==> behind(r, s, 4),
{
    assert forall|t: Seq<u8>|
        (#[trigger] str_step()(t) matches Ok((_, r)) ==> behind(r, t, 0)) by {
        lemma_behind_take_str(t);
    }
    lemma_behind_take_counted(str_step(), s);
}

/// A count, and as many texts behind it, each behind its length.
pub fn parse_strs<'a>(input: &'a [u8]) -> (r: Result<(Vec<&'a str>, &'a [u8]), SerialError>)
    ensures
        match r {
            Ok((items, rest)) => take_strs(input@) == Ok::<(Seq<Seq<char>>, Seq<u8>), SerialError>(
                (texts(items@), rest@),
            ),
            Err(e) => take_strs(input@) == Err::<(Seq<Seq<char>>, Seq<u8>), SerialError>(e),
        },
{
    let (count, start) = le_u32(input)?;
    let ghost step = str_step();
    let mut items: Vec<&'a str> = Vec::new();
    let mut rest = start;
    let mut i: u32 = 0;
    proof {
        assert(texts(items@) =~= Seq::empty());
    }
    while i < count
        invariant
            i <= count,
            step == str_step(),
            take_u32_le(input@) == Ok::<(u32, Seq<u8>), SerialError>((count, start@)),
            read_many(step, start@, i as nat) == Ok::<(Seq<Seq<char>>, Seq<u8>), SerialError>(
                (texts(items@), rest@),
            ),
        decreases count - i,
    {
        match parse_str(rest) {
            Ok((item, behind)) => {
                proof {
                    assert(texts(items@.push(item)) =~= texts(items@).push(item@));
                }
                items.push(item);
                rest = behind;
                i = i + 1;
            },
            Err(e) => {
                proof {
                    assert(read_many(step, start@, (i + 1) as nat) is Err);
                    lemma_read_many_fails(step, start@, (i + 1) as nat, count as nat);
                }
                return Err(e);
            },
        }
    }
    Ok((items, rest))
}

pub fn put_strs(buf: &mut Vec<u8>, items: &Vec<&str>)
    ensures
        final(buf)@ == old(buf)@ + strs_bytes(texts(items@)),
{
    put_u32_le(buf, #[verifier::truncate] (items.len() as u32));
    let ghost start = buf@;
    let ghost item = str_item();
    let mut i: usize = 0;
    while i < items.len()
        invariant
            i <= items.len(),
            item == str_item(),
            buf@ == start + write_many(item, texts(items@).take(i as int)),
        decreases items.len() - i,
    {
        put_str(buf, items[i]);
        proof {
            let done = texts(items@).take(i + 1);
            assert(done.drop_last() =~= texts(items@).take(i as int));
            lemma_concat_assoc(start, write_many(item, done.drop_last()), item(done.last()));
        }
        i = i + 1;
    }
    proof {
        assert(texts(items@).take(items.len() as int) =~= texts(items@));
        lemma_concat_assoc(
            old(buf)@,
            u32_le_bytes(texts(items@).len() as u32),
            write_many(item, texts(items@)),
        );
    }
}

} // verus!
