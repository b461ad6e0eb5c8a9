//! The messages that a monitor takes and gives.

use vstd::prelude::*;
use vstd::utf8::encode_utf8;
use crate::addr::EntityAddr;
use crate::bytes::{be_u128, le_i16, le_u32, le_u64, le_u8, parse_str};
use crate::bytes::{put_i16_le, put_str, put_u128_be, put_u32_le, put_u64_le, put_u8};
use crate::list::{counted_bytes, lemma_read_many_fails, lemma_take_counted, read_many};
use crate::list::{take_counted, write_many};
use crate::list::{lemma_behind_take_strs, lemma_take_strs, parse_strs, put_strs};
use crate::list::{lemma_behind_read_many, lemma_behind_take_counted, strs_bytes, strs_fit};
use crate::list::{take_strs, texts};
use crate::wire::{decoded, i16_le_bytes, str_bytes, u128_be_bytes, u32_le_bytes, u64_le_bytes};
use crate::wire::{behind, lemma_behind_take_str, lemma_behind_take_u32_le, lemma_take_str};
use crate::wire::{take_i16_le, take_str, take_u128_be, take_u32_le, take_u64_le, take_u8};
use crate::error::SerialError;
use crate::primitive::{CephPrimitive, RoundTrip};
use crate::wire::{failed, group_behind, group_take, lemma_behind_trans, lemma_concat_assoc};
use crate::wire::{rest, value, Taken};

verus! {

/// What several messages to a monitor start with: a version, the number of a monitor,
/// and the number of a transaction.
#[derive(Debug, Clone, Copy, PartialEq, Eq)]
pub struct PaxosMessage {
    pub version: u64,
    pub mon: i16,
    pub mon_tid: u64,
}

impl View for PaxosMessage {
    type V = PaxosMessage;

    open spec fn view(&self) -> PaxosMessage {
        *self
    }
}

impl<'a> CephPrimitive<'a> for PaxosMessage {
    open spec fn min_size() -> nat {
        18
    }

    open spec fn spec_read(input: Seq<u8>) -> Taken<PaxosMessage> {
        let version = take_u64_le(input);
        let mon = take_i16_le(rest(version));
        let mon_tid = take_u64_le(rest(mon));
        if input.len() < 18 {
            Err(SerialError::Incomplete)
        } else if version is Err {
            failed(version)
        } else if mon is Err {
            failed(mon)
        } else if mon_tid is Err {
            failed(mon_tid)
        } else {
            Ok(
                (
                    PaxosMessage {
                        version: value(version),
                        mon: value(mon),
                        mon_tid: value(mon_tid),
                    },
                    rest(mon_tid),
                ),
            )
        }
    }

    open spec fn spec_write(v: PaxosMessage) -> Seq<u8> {
        u64_le_bytes(v.version) + i16_le_bytes(v.mon) + u64_le_bytes(v.mon_tid)
    }

    proof fn law_short_input(input: Seq<u8>) {
    }

    proof fn law_size(v: PaxosMessage) {
        broadcast use group_take;
    }

    proof fn law_consumes(input: Seq<u8>) {
        broadcast use group_behind;

        let version = take_u64_le(input);
        let mon = take_i16_le(rest(version));
        let mon_tid = take_u64_le(rest(mon));
        if Self::spec_read(input) is Ok {
            lemma_behind_trans(rest(mon), rest(version), input, 2, 8);
            lemma_behind_trans(rest(mon_tid), rest(mon), input, 8, 10);
        }
    }

    fn read_from_wire(input: &'a [u8]) -> (r: Result<(Self, &'a [u8]), SerialError>) {
        if input.len() < 18 {
            return Err(SerialError::Incomplete);
        }
        let (version, rest) = le_u64(input)?;
        let (mon, rest) = le_i16(rest)?;
        let (mon_tid, rest) = le_u64(rest)?;
        Ok((PaxosMessage { version, mon, mon_tid }, rest))
    }

    fn write_to_wire(&self) -> (r: Result<Vec<u8>, SerialError>) {
        let mut buffer: Vec<u8> = Vec::new();
        put_u64_le(&mut buffer, self.version);
        put_i16_le(&mut buffer, self.mon);
        put_u64_le(&mut buffer, self.mon_tid);
        assert(buffer@ =~= Self::spec_write(self@));
        Ok(buffer)
    }
}

impl<'a> RoundTrip<'a> for PaxosMessage {
    open spec fn valid(v: PaxosMessage) -> bool {
        true
    }

    proof fn law_round_trip(v: PaxosMessage, tail: Seq<u8>) {
        broadcast use group_take;

        let t2 = u64_le_bytes(v.mon_tid) + tail;
        let t1 = i16_le_bytes(v.mon) + t2;
        let p2 = u64_le_bytes(v.version) + i16_le_bytes(v.mon);
        lemma_concat_assoc(p2, u64_le_bytes(v.mon_tid), tail);
        lemma_concat_assoc(u64_le_bytes(v.version), i16_le_bytes(v.mon), t2);
    }
}

/// What `uuid::Uuid::parse_str` makes of a text: the 128 bits of the identifier that the
/// text spells, or nothing where it spells none.
pub uninterp spec fn uuid_parse_str(text: Seq<char>) -> Option<u128>;

/// The text that `uuid::Uuid::hyphenated` gives for the identifier of these 128 bits.
pub uninterp spec fn uuid_hyphenated(id: u128) -> Seq<char>;

/// `uuid::Uuid::parse_str`, and `as_u128` on what it gives.
#[verifier::external_body]
fn uuid_parse(text: &str) -> (r: Option<u128>)
    ensures
        r == uuid_parse_str(text@),
{
    match uuid::Uuid::parse_str(text) {
        Ok(id) => Some(id.as_u128()),
        Err(_) => None,
    }
}

/// `uuid::Uuid::hyphenated` on the identifier that `from_u128` makes, as a string.
#[verifier::external_body]
fn uuid_text(id: u128) -> (r: String)
    ensures
        r@ == uuid_hyphenated(id),
{
    uuid::Uuid::from_u128(id).hyphenated().to_string()
}

/// The identifier that a parsed text stands for, or the failure of a text that spells
/// none.
pub open spec fn fsid_of(parsed: Option<u128>) -> Result<u128, SerialError> {
    match parsed {
        Some(id) => Ok(id),
        None => Err(SerialError::InvalidIdentifier),
    }
}

/// The identifier that a parsed text stands for, or the failure of a text that spells
/// none.
pub fn identifier(parsed: Option<u128>) -> (r: Result<u128, SerialError>)
    ensures
        r == fsid_of(parsed),
{
    match parsed {
        Some(id) => Ok(id),
        None => Err(SerialError::InvalidIdentifier),
    }
}

/// An identifier as text behind the length of the text.
pub open spec fn take_fsid(s: Seq<u8>) -> Taken<u128> {
    match take_str(s) {
        Err(e) => Err(e),
        Ok((text, s1)) => match fsid_of(uuid_parse_str(text)) {
            Err(e) => Err(e),
            Ok(id) => Ok((id, s1)),
        },
    }
}

/// The text of an identifier behind its length.
pub open spec fn fsid_bytes(id: u128) -> Seq<u8> {
    str_bytes(uuid_hyphenated(id))
}

/// An identifier as text behind the length of the text.
pub fn parse_fsid<'a>(input: &'a [u8]) -> (r: Result<(u128, &'a [u8]), SerialError>)
    ensures
        decoded(r) == take_fsid(input@),
{
    let (text, rest) = parse_str(input)?;
    let id = identifier(uuid_parse(text))?;
    Ok((id, rest))
}

pub fn put_fsid(buf: &mut Vec<u8>, id: u128)
    ensures
        final(buf)@ == old(buf)@ + fsid_bytes(id),
{
    let text = uuid_text(id);
    put_str(buf, text.as_str());
}

pub proof fn lemma_behind_take_fsid(s: Seq<u8>)
    ensures
        take_fsid(s) matches Ok((_, r)) ==> behind(r, s, 4),
{
    lemma_behind_take_str(s);
}

/// What a client asks a monitor to keep it informed of.
#[derive(Debug, PartialEq, Eq)]
pub struct Subscription<'a> {
    /// What is subscribed to, behind the length of the name.
    pub name: &'a str,
    pub start_time: u64,
    pub flags: u8,
}

/// A value of `Subscription` as mathematics.
pub struct SubscriptionView {
    pub name: Seq<char>,
    pub start_time: u64,
    pub flags: u8,
}

impl<'a> View for Subscription<'a> {
    type V = SubscriptionView;

    open spec fn view(&self) -> SubscriptionView {
        SubscriptionView {
            name: self.name@,
            start_time: self.start_time,
            flags: self.flags,
        }
    }
}

impl<'a> CephPrimitive<'a> for Subscription<'a> {
    open spec fn min_size() -> nat {
        13
    }

    open spec fn spec_read(input: Seq<u8>) -> Taken<SubscriptionView> {
        let name = take_str(input);
        let start_time = take_u64_le(rest(name));
        let flags = take_u8(rest(start_time));
        if input.len() < 13 {
            Err(SerialError::Incomplete)
        } else if name is Err {
            failed(name)
        } else if start_time is Err {
            failed(start_time)
        } else if flags is Err {
            failed(flags)
        } else {
            Ok(
                (
                    SubscriptionView {
                        name: value(name),
                        start_time: value(start_time),
                        flags: value(flags),
                    },
                    rest(flags),
                ),
            )
        }
    }

    open spec fn spec_write(v: SubscriptionView) -> Seq<u8> {
        str_bytes(v.name) + u64_le_bytes(v.start_time) + seq![v.flags]
    }

    proof fn law_short_input(input: Seq<u8>) {
    }

    proof fn law_size(v: SubscriptionView) {
        broadcast use group_take;
    }

    proof fn law_consumes(input: Seq<u8>) {
        broadcast use group_behind;

        let name = take_str(input);
        let start_time = take_u64_le(rest(name));
        let flags = take_u8(rest(start_time));
        if Self::spec_read(input) is Ok {
            lemma_behind_trans(rest(start_time), rest(name), input, 8, 4);
            lemma_behind_trans(rest(flags), rest(start_time), input, 1, 12);
        }
    }

    fn read_from_wire(input: &'a [u8]) -> (r: Result<(Self, &'a [u8]), SerialError>) {
        if input.len() < 13 {
            return Err(SerialError::Incomplete);
        }
        let (name, rest) = parse_str(input)?;
        let (start_time, rest) = le_u64(rest)?;
        let (flags, rest) = le_u8(rest)?;
        Ok((Subscription { name, start_time, flags }, rest))
    }

    fn write_to_wire(&self) -> (r: Result<Vec<u8>, SerialError>) {
        let mut buffer: Vec<u8> = Vec::new();
        put_str(&mut buffer, self.name);
        put_u64_le(&mut buffer, self.start_time);
        put_u8(&mut buffer, self.flags);
        assert(buffer@ =~= Self::spec_write(self@));
        Ok(buffer)
    }
}

impl<'a> RoundTrip<'a> for Subscription<'a> {
    open spec fn valid(v: SubscriptionView) -> bool {
        encode_utf8(v.name).len() <= u32::MAX
    }

    proof fn law_round_trip(v: SubscriptionView, tail: Seq<u8>) {
        broadcast use group_take;

        let t2 = seq![v.flags] + tail;
        let t1 = u64_le_bytes(v.start_time) + t2;
        let p2 = str_bytes(v.name) + u64_le_bytes(v.start_time);
        lemma_concat_assoc(p2, seq![v.flags], tail);
        lemma_concat_assoc(str_bytes(v.name), u64_le_bytes(v.start_time), t2);
        lemma_take_str(v.name, t1);
    }
}

/// A monitor: its name behind the length of that, and its endpoint.
#[derive(Debug, PartialEq, Eq)]
pub struct Monitor<'a> {
    pub name: &'a str,
    pub entity_addr: EntityAddr,
}

/// A value of `Monitor` as mathematics.
pub struct MonitorView {
    pub name: Seq<char>,
    pub entity_addr: EntityAddr,
}

impl<'a> View for Monitor<'a> {
    type V = MonitorView;

    open spec fn view(&self) -> MonitorView {
        MonitorView {
            name: self.name@,
            entity_addr: self.entity_addr@,
        }
    }
}

impl<'a> CephPrimitive<'a> for Monitor<'a> {
    open spec fn min_size() -> nat {
        140
    }

    open spec fn spec_read(input: Seq<u8>) -> Taken<MonitorView> {
        let name = take_str(input);
        let entity_addr = EntityAddr::spec_read(rest(name));
        if input.len() < 140 {
            Err(SerialError::Incomplete)
        } else if name is Err {
            failed(name)
        } else if entity_addr is Err {
            failed(entity_addr)
        } else {
            Ok(
                (
                    MonitorView {
                        name: value(name),
                        entity_addr: value(entity_addr),
                    },
                    rest(entity_addr),
                ),
            )
        }
    }

    open spec fn spec_write(v: MonitorView) -> Seq<u8> {
        str_bytes(v.name) + EntityAddr::spec_write(v.entity_addr)
    }

    proof fn law_short_input(input: Seq<u8>) {
    }

    proof fn law_size(v: MonitorView) {
        broadcast use group_take;

        EntityAddr::law_size(v.entity_addr);
    }

    proof fn law_consumes(input: Seq<u8>) {
        broadcast use group_behind;

        let name = take_str(input);
        let entity_addr = EntityAddr::spec_read(rest(name));
        if Self::spec_read(input) is Ok {
            EntityAddr::law_consumes(rest(name));
            lemma_behind_trans(rest(entity_addr), rest(name), input, 136, 4);
        }
    }

    fn read_from_wire(input: &'a [u8]) -> (r: Result<(Self, &'a [u8]), SerialError>) {
        if input.len() < 140 {
            return Err(SerialError::Incomplete);
        }
        let (name, rest) = parse_str(input)?;
        let (entity_addr, rest) = EntityAddr::read_from_wire(rest)?;
        Ok((Monitor { name, entity_addr }, rest))
    }

    fn write_to_wire(&self) -> (r: Result<Vec<u8>, SerialError>) {
        let mut buffer: Vec<u8> = Vec::new();
        put_str(&mut buffer, self.name);
        let mut entity_addr = self.entity_addr.write_to_wire()?;
        buffer.append(&mut entity_addr);
        assert(buffer@ =~= Self::spec_write(self@));
        Ok(buffer)
    }
}

impl<'a> RoundTrip<'a> for Monitor<'a> {
    open spec fn valid(v: MonitorView) -> bool {
        &&& encode_utf8(v.name).len() <= u32::MAX
        &&& EntityAddr::valid(v.entity_addr)
    }

    proof fn law_round_trip(v: MonitorView, tail: Seq<u8>) {
        broadcast use group_take;

        let t1 = EntityAddr::spec_write(v.entity_addr) + tail;
        lemma_concat_assoc(str_bytes(v.name), EntityAddr::spec_write(v.entity_addr), tail);
        lemma_take_str(v.name, t1);
        EntityAddr::law_size(v.entity_addr);
        EntityAddr::law_round_trip(v.entity_addr, tail);
    }
}

// Lists of subscriptions.

/// The values that subscriptions stand for.
pub open spec fn subscription_views(items: Seq<Subscription>) -> Seq<SubscriptionView> {
    items.map_values(|item: Subscription| item@)
}

/// The step that reads one subscription.
pub open spec fn subscription_step() -> spec_fn(Seq<u8>) -> Taken<SubscriptionView> {
    |s: Seq<u8>| Subscription::spec_read(s)
}

/// The bytes of one subscription.
pub open spec fn subscription_item() -> spec_fn(SubscriptionView) -> Seq<u8> {
    |v: SubscriptionView| Subscription::spec_write(v)
}

pub open spec fn take_subscriptions(s: Seq<u8>) -> Taken<Seq<SubscriptionView>> {
    take_counted(subscription_step(), s)
}

pub open spec fn subscriptions_bytes(items: Seq<SubscriptionView>) -> Seq<u8> {
    counted_bytes(subscription_item(), items)
}

/// Whether each subscription is valid, and the list is short enough for its count.
pub open spec fn subscriptions_valid(items: Seq<SubscriptionView>) -> bool {
    &&& items.len() <= u32::MAX
    &&& forall|i: int| 0 <= i < items.len() ==> Subscription::valid(#[trigger] items[i])
}

pub proof fn lemma_take_subscriptions(items: Seq<SubscriptionView>, tail: Seq<u8>)
    requires
        subscriptions_valid(items),
    ensures
        take_subscriptions(subscriptions_bytes(items) + tail) == Ok::<
            (Seq<SubscriptionView>, Seq<u8>),
            SerialError,
        >((items, tail)),
{
    assert forall|i: int, t: Seq<u8>| 0 <= i < items.len() implies #[trigger] subscription_step()(
        subscription_item()(items[i]) + t,
    ) == Ok::<(SubscriptionView, Seq<u8>), SerialError>((items[i], t)) by {
        Subscription::law_round_trip(items[i], t);
    }
    lemma_take_counted(subscription_step(), subscription_item(), items, tail);
}

pub proof fn lemma_behind_take_subscriptions(s: Seq<u8>)
    ensures
        take_subscriptions(s) matches Ok((_, r)) ==> behind(r, s, 4),
{
    assert forall|t: Seq<u8>|
        (#[trigger] subscription_step()(t) matches Ok((_, r)) ==> behind(r, t, 0)) by {
        Subscription::law_consumes(t);
    }
    lemma_behind_take_counted(subscription_step(), s);
}

/// A count, and as many subscriptions behind it.
pub fn parse_subscriptions<'a>(input: &'a [u8]) -> (r: Result<
    (Vec<Subscription<'a>>, &'a [u8]),
    SerialError,
>)
    ensures
        match r {
            Ok((items, rest)) => take_subscriptions(input@) == Ok::<
                (Seq<SubscriptionView>, Seq<u8>),
                SerialError,
            >((subscription_views(items@), rest@)),
            Err(e) => take_subscriptions(input@) == Err::<
                (Seq<SubscriptionView>, Seq<u8>),
                SerialError,
            >(e),
        },
{
    let (count, start) = le_u32(input)?;
    let ghost step = subscription_step();
    let mut items: Vec<Subscription<'a>> = Vec::new();
    let mut rest = start;
    let mut i: u32 = 0;
    proof {
        assert(subscription_views(items@) =~= Seq::empty());
    }
    while i < count
        invariant
            i <= count,
            step == subscription_step(),
            take_u32_le(input@) == Ok::<(u32, Seq<u8>), SerialError>((count, start@)),
            read_many(step, start@, i as nat)
                == Ok::<(Seq<SubscriptionView>, Seq<u8>), SerialError>(
                (subscription_views(items@), rest@),
            ),
        decreases count - i,
    {
        match Subscription::read_from_wire(rest) {
            Ok((item, behind)) => {
                proof {
                    assert(subscription_views(items@.push(item)) =~= subscription_views(
                        items@,
                    ).push(item@));
                }
                items.push(item);
                rest = behind;
                i = i + 1;
            },
            Err(e) => {
                proof {
                    assert(read_many(step, start@, (i + 1) as nat) is Err);
                    lemma_read_many_fails(step, start@, (i + 1) as nat, count as nat);
                }
                return Err(e);
            },
        }
    }
    Ok((items, rest))
}

/// The subscriptions behind their count. Writing to memory does not fail.
pub fn put_subscriptions(buf: &mut Vec<u8>, items: &Vec<Subscription>) -> (r: Result<
    (),
    SerialError,
>)
    ensures
        r is Ok,
        final(buf)@ == old(buf)@ + subscriptions_bytes(subscription_views(items@)),
{
    put_u32_le(buf, #[verifier::truncate] (items.len() as u32));
    let ghost start = buf@;
    let ghost item = subscription_item();
    let ghost views = subscription_views(items@);
    let mut i: usize = 0;
    while i < items.len()
        invariant
            i <= items.len(),
            item == subscription_item(),
            views == subscription_views(items@),
            buf@ == start + write_many(item, views.take(i as int)),
        decreases items.len() - i,
    {
        let mut bytes = items[i].write_to_wire()?;
        buf.append(&mut bytes);
        proof {
            let done = views.take(i + 1);
            assert(done.drop_last() =~= views.take(i as int));
            lemma_concat_assoc(start, write_many(item, done.drop_last()), item(done.last()));
        }
        i = i + 1;
    }
    proof {
        assert(views.take(items.len() as int) =~= views);
        lemma_concat_assoc(old(buf)@, u32_le_bytes(views.len() as u32), write_many(item, views));
    }
    Ok(())
}

// Lists of monitors.

/// The values that monitors stand for.
pub open spec fn monitor_views(items: Seq<Monitor>) -> Seq<MonitorView> {
    items.map_values(|item: Monitor| item@)
}

/// The step that reads one monitor.
pub open spec fn monitor_step() -> spec_fn(Seq<u8>) -> Taken<MonitorView> {
    |s: Seq<u8>| Monitor::spec_read(s)
}

/// The bytes of one monitor.
pub open spec fn monitor_item() -> spec_fn(MonitorView) -> Seq<u8> {
    |v: MonitorView| Monitor::spec_write(v)
}

/// A number of four bytes, little-endian, that counts 128 for each monitor, and the
/// monitors behind it.
pub open spec fn take_monitors(s: Seq<u8>) -> Taken<Seq<MonitorView>> {
    match take_u32_le(s) {
        Err(e) => Err(e),
        Ok((n, s1)) => read_many(monitor_step(), s1, (n / 128) as nat),
    }
}

/// The monitors behind the number that counts 128 for each of them.
pub open spec fn monitors_bytes(items: Seq<MonitorView>) -> Seq<u8> {
    u32_le_bytes((items.len() * 128) as u32) + write_many(monitor_item(), items)
}

pub proof fn lemma_behind_take_monitors(s: Seq<u8>)
    ensures
        take_monitors(s) matches Ok((_, r)) ==> behind(r, s, 4),
{
    assert forall|t: Seq<u8>|
        (#[trigger] monitor_step()(t) matches Ok((_, r)) ==> behind(r, t, 0)) by {
        Monitor::law_consumes(t);
    }
    lemma_behind_take_u32_le(s);
    if let Ok((n, s1)) = take_u32_le(s) {
        lemma_behind_read_many(monitor_step(), s1, (n / 128) as nat);
        if let Ok((_, r)) = read_many(monitor_step(), s1, (n / 128) as nat) {
            lemma_behind_trans(r, s1, s, 0, 4);
        }
    }
}

/// A number that counts 128 for each monitor, and the monitors behind it.
pub fn parse_monitors<'a>(input: &'a [u8]) -> (r: Result<(Vec<Monitor<'a>>, &'a [u8]), SerialError>)
    ensures
        match r {
            Ok((items, rest)) => take_monitors(input@) == Ok::<
                (Seq<MonitorView>, Seq<u8>),
                SerialError,
            >((monitor_views(items@), rest@)),
            Err(e) => take_monitors(input@) == Err::<(Seq<MonitorView>, Seq<u8>), SerialError>(e),
        },
{
    let (number, start) = le_u32(input)?;
    let count = number / 128;
    let ghost step = monitor_step();
    let mut items: Vec<Monitor<'a>> = Vec::new();
    let mut rest = start;
    let mut i: u32 = 0;
    proof {
        assert(monitor_views(items@) =~= Seq::empty());
    }
    while i < count
        invariant
            i <= count,
            count == number / 128,
            step == monitor_step(),
            take_u32_le(input@) == Ok::<(u32, Seq<u8>), SerialError>((number, start@)),
            read_many(step, start@, i as nat) == Ok::<(Seq<MonitorView>, Seq<u8>), SerialError>(
                (monitor_views(items@), rest@),
            ),
        decreases count - i,
    {
        match Monitor::read_from_wire(rest) {
            Ok((item, behind)) => {
                proof {
                    assert(monitor_views(items@.push(item)) =~= monitor_views(items@).push(item@));
                }
                items.push(item);
                rest = behind;
                i = i + 1;
            },
            Err(e) => {
                proof {
                    assert(read_many(step, start@, (i + 1) as nat) is Err);
                    lemma_read_many_fails(step, start@, (i + 1) as nat, count as nat);
                }
                return Err(e);
            },
        }
    }
    Ok((items, rest))
}

/// The monitors behind the number that counts 128 for each of them. Writing to memory
/// does not fail.
pub fn put_monitors(buf: &mut Vec<u8>, items: &Vec<Monitor>) -> (r: Result<(), SerialError>)
    ensures
        r is Ok,
        final(buf)@ == old(buf)@ + monitors_bytes(monitor_views(items@)),
{
    let number: u128 = items.len() as u128 * 128;
    put_u32_le(buf, #[verifier::truncate] (number as u32));
    let ghost start = buf@;
    let ghost item = monitor_item();
    let ghost views = monitor_views(items@);
    let mut i: usize = 0;
    while i < items.len()
        invariant
            i <= items.len(),
            item == monitor_item(),
            views == monitor_views(items@),
            buf@ == start + write_many(item, views.take(i as int)),
        decreases items.len() - i,
    {
        let mut bytes = items[i].write_to_wire()?;
        buf.append(&mut bytes);
        proof {
            let done = views.take(i + 1);
            assert(done.drop_last() =~= views.take(i as int));
            lemma_concat_assoc(start, write_many(item, done.drop_last()), item(done.last()));
        }
        i = i + 1;
    }
    proof {
        assert(views.take(items.len() as int) =~= views);
        lemma_concat_assoc(
            old(buf)@,
            u32_le_bytes((views.len() * 128) as u32),
            write_many(item, views),
        );
    }
    Ok(())
}

/// The subscriptions of a client, behind their count.
#[derive(Debug, PartialEq, Eq)]
pub struct MonitorSubscribe<'a> {
    pub subscriptions: Vec<Subscription<'a>>,
}

/// A value of `MonitorSubscribe` as mathematics.
pub struct MonitorSubscribeView {
    pub subscriptions: Seq<SubscriptionView>,
}

impl<'a> View for MonitorSubscribe<'a> {
    type V = MonitorSubscribeView;

    open spec fn view(&self) -> MonitorSubscribeView {
        MonitorSubscribeView {
            subscriptions: subscription_views(self.subscriptions@),
        }
    }
}

impl<'a> CephPrimitive<'a> for MonitorSubscribe<'a> {
    open spec fn min_size() -> nat {
        4
    }

    open spec fn spec_read(input: Seq<u8>) -> Taken<MonitorSubscribeView> {
        let subscriptions = take_subscriptions(input);
        if input.len() < 4 {
            Err(SerialError::Incomplete)
        } else if subscriptions is Err {
            failed(subscriptions)
        } else {
            Ok(
                (
                    MonitorSubscribeView {
                        subscriptions: value(subscriptions),
                    },
                    rest(subscriptions),
                ),
            )
        }
    }

    open spec fn spec_write(v: MonitorSubscribeView) -> Seq<u8> {
        subscriptions_bytes(v.subscriptions)
    }

    proof fn law_short_input(input: Seq<u8>) {
    }

    proof fn law_size(v: MonitorSubscribeView) {
        broadcast use group_take;
    }

    proof fn law_consumes(input: Seq<u8>) {
        broadcast use group_behind;

        let subscriptions = take_subscriptions(input);
        if Self::spec_read(input) is Ok {
            lemma_behind_take_subscriptions(input);
        }
    }

    fn read_from_wire(input: &'a [u8]) -> (r: Result<(Self, &'a [u8]), SerialError>) {
        if input.len() < 4 {
            return Err(SerialError::Incomplete);
        }
        let (subscriptions, rest) = parse_subscriptions(input)?;
        Ok((MonitorSubscribe { subscriptions }, rest))
    }

    fn write_to_wire(&self) -> (r: Result<Vec<u8>, SerialError>) {
        let mut buffer: Vec<u8> = Vec::new();
        put_subscriptions(&mut buffer, &self.subscriptions)?;
        assert(buffer@ =~= Self::spec_write(self@));
        Ok(buffer)
    }
}

impl<'a> RoundTrip<'a> for MonitorSubscribe<'a> {
    open spec fn valid(v: MonitorSubscribeView) -> bool {
        subscriptions_valid(v.subscriptions)
    }

    proof fn law_round_trip(v: MonitorSubscribeView, tail: Seq<u8>) {
        broadcast use group_take;

        lemma_take_subscriptions(v.subscriptions, tail);
    }
}

/// A command to a monitor.
#[derive(Debug, PartialEq, Eq)]
pub struct MonCommand<'a> {
    pub paxos: PaxosMessage,
    /// The identifier of the cluster: sixteen bytes.
    pub fsid: u128,
    /// The words of the command, behind their count, each behind its length.
    pub arguments: Vec<&'a str>,
}

/// A value of `MonCommand` as mathematics.
pub struct MonCommandView {
    pub paxos: PaxosMessage,
    pub fsid: u128,
    pub arguments: Seq<Seq<char>>,
}

impl<'a> View for MonCommand<'a> {
    type V = MonCommandView;

    open spec fn view(&self) -> MonCommandView {
        MonCommandView {
            paxos: self.paxos@,
            fsid: self.fsid,
            arguments: texts(self.arguments@),
        }
    }
}

impl<'a> CephPrimitive<'a> for MonCommand<'a> {
    open spec fn min_size() -> nat {
        38
    }

    open spec fn spec_read(input: Seq<u8>) -> Taken<MonCommandView> {
        let paxos = PaxosMessage::spec_read(input);
        let fsid = take_u128_be(rest(paxos));
        let arguments = take_strs(rest(fsid));
        if input.len() < 38 {
            Err(SerialError::Incomplete)
        } else if paxos is Err {
            failed(paxos)
        } else if fsid is Err {
            failed(fsid)
        } else if arguments is Err {
            failed(arguments)
        } else {
            Ok(
                (
                    MonCommandView {
                        paxos: value(paxos),
                        fsid: value(fsid),
                        arguments: value(arguments),
                    },
                    rest(arguments),
                ),
            )
        }
    }

    open spec fn spec_write(v: MonCommandView) -> Seq<u8> {
        PaxosMessage::spec_write(v.paxos) + u128_be_bytes(v.fsid) + strs_bytes(v.arguments)
    }

    proof fn law_short_input(input: Seq<u8>) {
    }

    proof fn law_size(v: MonCommandView) {
        broadcast use group_take;

        PaxosMessage::law_size(v.paxos);
    }

    proof fn law_consumes(input: Seq<u8>) {
        broadcast use group_behind;

        let paxos = PaxosMessage::spec_read(input);
        let fsid = take_u128_be(rest(paxos));
        let arguments = take_strs(rest(fsid));
        if Self::spec_read(input) is Ok {
            PaxosMessage::law_consumes(input);
            lemma_behind_trans(rest(fsid), rest(paxos), input, 16, 18);
            lemma_behind_take_strs(rest(fsid));
            lemma_behind_trans(rest(arguments), rest(fsid), input, 4, 34);
        }
    }

    fn read_from_wire(input: &'a [u8]) -> (r: Result<(Self, &'a [u8]), SerialError>) {
        if input.len() < 38 {
            return Err(SerialError::Incomplete);
        }
        let (paxos, rest) = PaxosMessage::read_from_wire(input)?;
        let (fsid, rest) = be_u128(rest)?;
        let (arguments, rest) = parse_strs(rest)?;
        Ok((MonCommand { paxos, fsid, arguments }, rest))
    }

    fn write_to_wire(&self) -> (r: Result<Vec<u8>, SerialError>) {
        let mut buffer: Vec<u8> = Vec::new();
        let mut paxos = self.paxos.write_to_wire()?;
        buffer.append(&mut paxos);
        put_u128_be(&mut buffer, self.fsid);
        put_strs(&mut buffer, &self.arguments);
        assert(buffer@ =~= Self::spec_write(self@));
        Ok(buffer)
    }
}

impl<'a> RoundTrip<'a> for MonCommand<'a> {
    open spec fn valid(v: MonCommandView) -> bool {
        &&& PaxosMessage::valid(v.paxos)
        &&& strs_fit(v.arguments)
    }

    proof fn law_round_trip(v: MonCommandView, tail: Seq<u8>) {
        broadcast use group_take;

        let t2 = strs_bytes(v.arguments) + tail;
        let t1 = u128_be_bytes(v.fsid) + t2;
        let p2 = PaxosMessage::spec_write(v.paxos) + u128_be_bytes(v.fsid);
        lemma_concat_assoc(p2, strs_bytes(v.arguments), tail);
        lemma_concat_assoc(PaxosMessage::spec_write(v.paxos), u128_be_bytes(v.fsid), t2);
        PaxosMessage::law_size(v.paxos);
        PaxosMessage::law_round_trip(v.paxos, t1);
        lemma_take_strs(v.arguments, tail);
    }
}

/// The monitors of a cluster.
/// Four bytes behind the versions are reserved: they are skipped when read and written as zero.
/// The identifier of the cluster stands as text behind its length, and the monitors behind a
/// number that counts 128 for each of them.
#[derive(Debug, PartialEq, Eq)]
pub struct MonMap<'a> {
    pub encoding_version: u8,
    pub min_version: u8,
    /// The identifier of the cluster.
    pub fsid: u128,
    pub epoch: u32,
    pub monitors: Vec<Monitor<'a>>,
}

/// A value of `MonMap` as mathematics.
pub struct MonMapView {
    pub encoding_version: u8,
    pub min_version: u8,
    pub fsid: u128,
    pub epoch: u32,
    pub monitors: Seq<MonitorView>,
}

impl<'a> View for MonMap<'a> {
    type V = MonMapView;

    open spec fn view(&self) -> MonMapView {
        MonMapView {
            encoding_version: self.encoding_version,
            min_version: self.min_version,
            fsid: self.fsid,
            epoch: self.epoch,
            monitors: monitor_views(self.monitors@),
        }
    }
}

impl<'a> CephPrimitive<'a> for MonMap<'a> {
    open spec fn min_size() -> nat {
        18
    }

    open spec fn spec_read(input: Seq<u8>) -> Taken<MonMapView> {
        let encoding_version = take_u8(input);
        let min_version = take_u8(rest(encoding_version));
        let reserved = take_u32_le(rest(min_version));
        let fsid = take_fsid(rest(reserved));
        let epoch = take_u32_le(rest(fsid));
        let monitors = take_monitors(rest(epoch));
        if input.len() < 18 {
            Err(SerialError::Incomplete)
        } else if encoding_version is Err {
            failed(encoding_version)
        } else if min_version is Err {
            failed(min_version)
        } else if reserved is Err {
            failed(reserved)
        } else if fsid is Err {
            failed(fsid)
        } else if epoch is Err {
            failed(epoch)
        } else if monitors is Err {
            failed(monitors)
        } else {
            Ok(
                (
                    MonMapView {
                        encoding_version: value(encoding_version),
                        min_version: value(min_version),
                        fsid: value(fsid),
                        epoch: value(epoch),
                        monitors: value(monitors),
                    },
                    rest(monitors),
                ),
            )
        }
    }

    open spec fn spec_write(v: MonMapView) -> Seq<u8> {
        seq![v.encoding_version] + seq![v.min_version] + u32_le_bytes(0) + fsid_bytes(v.fsid)
            + u32_le_bytes(v.epoch) + monitors_bytes(v.monitors)
    }

    proof fn law_short_input(input: Seq<u8>) {
    }

    proof fn law_size(v: MonMapView) {
        broadcast use group_take;
    }

    proof fn law_consumes(input: Seq<u8>) {
        broadcast use group_behind;

        let encoding_version = take_u8(input);
        let min_version = take_u8(rest(encoding_version));
        let reserved = take_u32_le(rest(min_version));
        let fsid = take_fsid(rest(reserved));
        let epoch = take_u32_le(rest(fsid));
        let monitors = take_monitors(rest(epoch));
        if Self::spec_read(input) is Ok {
            lemma_behind_trans(rest(min_version), rest(encoding_version), input, 1, 1);
            lemma_behind_trans(rest(reserved), rest(min_version), input, 4, 2);
            lemma_behind_take_fsid(rest(reserved));
            lemma_behind_trans(rest(fsid), rest(reserved), input, 4, 6);
            lemma_behind_trans(rest(epoch), rest(fsid), input, 4, 10);
            lemma_behind_take_monitors(rest(epoch));
            lemma_behind_trans(rest(monitors), rest(epoch), input, 4, 14);
        }
    }

    fn read_from_wire(input: &'a [u8]) -> (r: Result<(Self, &'a [u8]), SerialError>) {
        if input.len() < 18 {
            return Err(SerialError::Incomplete);
        }
        let (encoding_version, rest) = le_u8(input)?;
        let (min_version, rest) = le_u8(rest)?;
        let (_, rest) = le_u32(rest)?;
        let (fsid, rest) = parse_fsid(rest)?;
        let (epoch, rest) = le_u32(rest)?;
        let (monitors, rest) = parse_monitors(rest)?;
        Ok((MonMap { encoding_version, min_version, fsid, epoch, monitors }, rest))
    }

    fn write_to_wire(&self) -> (r: Result<Vec<u8>, SerialError>) {
        let mut buffer: Vec<u8> = Vec::new();
        put_u8(&mut buffer, self.encoding_version);
        put_u8(&mut buffer, self.min_version);
        put_u32_le(&mut buffer, 0);
        put_fsid(&mut buffer, self.fsid);
        put_u32_le(&mut buffer, self.epoch);
        put_monitors(&mut buffer, &self.monitors)?;
        assert(buffer@ =~= Self::spec_write(self@));
        Ok(buffer)
    }
}

} // verus!
