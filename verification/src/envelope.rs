//! The envelope that frames a message: the tag, the header, the three segments that the
//! header gives the lengths of, and the footer. Of the segments the front one is decoded.
//! A capture may end anywhere: a footer that is not in the buffer is left out, and a
//! front segment that is cut short is reported as incomplete.

use vstd::prelude::*;
use vstd::slice::slice_subrange;
use crate::bytes::take;
use crate::enums::{lemma_behind_take_tag, lemma_take_tag, put_tag, read_tag, tag_bytes, take_tag};
use crate::enums::CephMsg;
use crate::error::{SerialError, WireField};
use crate::header::{CephMsgFooter, CephMsgHeader};
use crate::list::write_many;
use crate::message::{carries, decodes, has_decoder, law_message_round_trip, message_bytes};
use crate::message::{read_message, read_messages_from_wire, write_message_to_wire};
use crate::message::{Message, MessageView};
use crate::primitive::{CephPrimitive, RoundTrip};
use crate::wire::{behind, lemma_behind_trans, lemma_concat_assoc, take_bytes, take_u8, Taken};

verus! {

/// A message in its envelope.
#[derive(Debug, PartialEq, Eq)]
pub struct CephMsgrMsg<'a> {
    /// The tag in front of the envelope: `Msg`.
    pub tag: CephMsg,
    pub header: CephMsgHeader,
    /// What was decoded of the front segment: one body.
    pub msg: Vec<Message<'a>>,
    /// The footer, or `None` where it is unavailable: the buffer ends before it.
    pub footer: Option<CephMsgFooter>,
}

/// A value of `CephMsgrMsg` as mathematics.
pub struct CephMsgrMsgView {
    pub tag: CephMsg,
    pub header: CephMsgHeader,
    pub msg: Seq<MessageView>,
    pub footer: Option<CephMsgFooter>,
}

/// The values that bodies stand for.
pub open spec fn message_views(items: Seq<Message>) -> Seq<MessageView> {
    items.map_values(|item: Message| item@)
}

impl<'a> View for CephMsgrMsg<'a> {
    type V = CephMsgrMsgView;

    open spec fn view(&self) -> CephMsgrMsgView {
        CephMsgrMsgView {
            tag: self.tag,
            header: self.header,
            msg: message_views(self.msg@),
            footer: self.footer,
        }
    }
}

impl<'a> CephMsgrMsg<'a> {
    /// The envelope of these parts, with the tag that announces a message.
    pub fn new(header: CephMsgHeader, msg: Vec<Message<'a>>, footer: CephMsgFooter) -> (r:
        CephMsgrMsg<'a>)
        ensures
            r.tag == CephMsg::Msg,
            r.header == header,
            r.msg == msg,
            r.footer == Some(footer),
    {
        CephMsgrMsg { tag: CephMsg::Msg, header, msg, footer: Some(footer) }
    }
}

/// The bytes that a footer takes.
pub const FOOTER_SIZE: u64 = 21;

/// The bytes of the three segments together, as the header declares them.
pub open spec fn body_len(header: CephMsgHeader) -> nat {
    (header.front_len + header.middle_len + header.data_len) as nat
}

/// What the front segment holds, given the header and the bytes behind it. A type
/// without a decoder gives `Nop`, whatever the bytes. A type with one needs the whole
/// segment in the buffer, and its decoder sees the segment and no byte more.
pub open spec fn front_segment(header: CephMsgHeader, s: Seq<u8>) -> Result<
    MessageView,
    SerialError,
> {
    if !has_decoder(header.msg_type) {
        Ok(MessageView::Nop)
    } else if s.len() < header.front_len {
        Err(SerialError::Incomplete)
    } else {
        match read_message(s.take(header.front_len as int), header.msg_type) {
            Err(e) => Err(e),
            Ok((body, _)) => Ok(body),
        }
    }
}

/// The footer behind the three segments and the bytes behind it, where the buffer holds
/// the segments and a footer; no footer, and nothing behind it, where it does not.
pub open spec fn take_footer(header: CephMsgHeader, s: Seq<u8>) -> (
    Option<CephMsgFooter>,
    Seq<u8>,
) {
    if s.len() >= body_len(header) + FOOTER_SIZE {
        match CephMsgFooter::spec_read(s.skip(body_len(header) as int)) {
            Ok((footer, rest)) => (Some(footer), rest),
            Err(_) => (None, Seq::empty()),
        }
    } else {
        (None, Seq::empty())
    }
}

/// The body of the message that a header announces, from the bytes behind the header.
pub fn dissect_msg_op<'a>(header: &CephMsgHeader, input: &'a [u8]) -> (r: Result<
    Vec<Message<'a>>,
    SerialError,
>)
    ensures
        match r {
            Ok(msgs) => msgs@.len() == 1 && front_segment(*header, input@) == Ok::<
                MessageView,
                SerialError,
            >(msgs@[0]@),
            Err(e) => front_segment(*header, input@) == Err::<MessageView, SerialError>(e),
        },
{
    if !decodes(&header.msg_type) {
        let mut msgs: Vec<Message<'a>> = Vec::new();
        msgs.push(Message::Nop);
        return Ok(msgs);
    }
    if input.len() < header.front_len as usize {
        return Err(SerialError::Incomplete);
    }
    proof {
        reveal(take_bytes);
    }
    let (front, _) = take(input, header.front_len as usize)?;
    let (msgs, _) = read_messages_from_wire(front, &header.msg_type)?;
    Ok(msgs)
}

/// The footer of the envelope that a header announces, from the bytes behind the header,
/// where they hold one.
pub fn read_footer<'a>(header: &CephMsgHeader, input: &'a [u8]) -> (r: (
    Option<CephMsgFooter>,
    &'a [u8],
))
    ensures
        (r.0, r.1@) == take_footer(*header, input@),
{
    let body: u64 = header.front_len as u64 + header.middle_len as u64 + header.data_len as u64;
    let end = slice_subrange(input, input.len(), input.len());
    assert(end@ =~= Seq::<u8>::empty());
    if input.len() as u64 >= body + FOOTER_SIZE {
        proof {
            reveal(take_bytes);
        }
        match take(input, body as usize) {
            Ok((_, at)) => match CephMsgFooter::read_from_wire(at) {
                Ok((footer, rest)) => (Some(footer), rest),
                Err(_) => (None, end),
            },
            Err(_) => (None, end),
        }
    } else {
        (None, end)
    }
}

/// The bytes of one body.
pub open spec fn message_item() -> spec_fn(MessageView) -> Seq<u8> {
    |msg: MessageView| message_bytes(msg)
}

/// The bytes of a footer, and none where there is no footer.
pub open spec fn footer_bytes(footer: Option<CephMsgFooter>) -> Seq<u8> {
    match footer {
        Some(footer) => CephMsgFooter::spec_write(footer),
        None => Seq::empty(),
    }
}

impl<'a> CephPrimitive<'a> for CephMsgrMsg<'a> {
    open spec fn min_size() -> nat {
        54
    }

    open spec fn spec_read(input: Seq<u8>) -> Taken<CephMsgrMsgView> {
        if input.len() < 54 {
            Err(SerialError::Incomplete)
        } else {
            match take_tag(input) {
                Err(e) => Err(e),
                Ok((tag, s1)) => if tag != CephMsg::Msg {
                    Err(
                        SerialError::InvalidEnumValue {
                            field: WireField::Tag,
                            code: tag.spec_code() as u64,
                        },
                    )
                } else {
                    match CephMsgHeader::spec_read(s1) {
                        Err(e) => Err(e),
                        Ok((header, s2)) => match front_segment(header, s2) {
                            Err(e) => Err(e),
                            Ok(body) => Ok(
                                (
                                    CephMsgrMsgView {
                                        tag,
                                        header,
                                        msg: seq![body],
                                        footer: take_footer(header, s2).0,
                                    },
                                    take_footer(header, s2).1,
                                ),
                            ),
                        },
                    }
                },
            }
        }
    }

    open spec fn spec_write(v: CephMsgrMsgView) -> Seq<u8> {
        tag_bytes(v.tag) + CephMsgHeader::spec_write(v.header) + write_many(message_item(), v.msg)
            + footer_bytes(v.footer)
    }

    proof fn law_short_input(input: Seq<u8>) {
    }

    proof fn law_consumes(input: Seq<u8>) {
        if let Ok((_, rest)) = Self::spec_read(input) {
            lemma_behind_take_tag(input);
            let s1 = input.skip(1);
            assert(take_tag(input) matches Ok((_, s)) && s == s1) by {
                reveal(take_tag);
                reveal(take_u8);
            }
            CephMsgHeader::law_consumes(s1);
            let (header, s2) = CephMsgHeader::spec_read(s1).unwrap();
            lemma_behind_trans(s2, s1, input, 53, 1);
            if s2.len() >= body_len(header) + FOOTER_SIZE {
                let at = s2.skip(body_len(header) as int);
                CephMsgFooter::law_consumes(at);
                assert(behind(at, s2, 0)) by {
                    assert(at =~= s2.skip(s2.len() - at.len()));
                }
                if CephMsgFooter::spec_read(at) is Ok {
                    lemma_behind_trans(rest, at, s2, 0, 0);
                    lemma_behind_trans(rest, s2, input, 0, 54);
                } else {
                    assert(rest =~= input.skip(input.len() as int));
                }
            } else {
                assert(rest =~= input.skip(input.len() as int));
            }
        }
    }

    proof fn law_size(v: CephMsgrMsgView) {
        CephMsgHeader::law_size(v.header);
    }

    fn read_from_wire(input: &'a [u8]) -> (r: Result<(Self, &'a [u8]), SerialError>) {
        if input.len() < 54 {
            return Err(SerialError::Incomplete);
        }
        let (tag, rest) = read_tag(input)?;
        match tag {
            CephMsg::Msg => {},
            _ => {
                return Err(
                    SerialError::InvalidEnumValue {
                        field: WireField::Tag,
                        code: tag.code() as u64,
                    },
                );
            },
        }
        let (header, rest) = CephMsgHeader::read_from_wire(rest)?;
        let msg = dissect_msg_op(&header, rest)?;
        let (footer, rest) = read_footer(&header, rest);
        assert(message_views(msg@) =~= seq![msg@[0]@]);
        Ok((CephMsgrMsg { tag, header, msg, footer }, rest))
    }

    fn write_to_wire(&self) -> (r: Result<Vec<u8>, SerialError>) {
        let mut buffer: Vec<u8> = Vec::new();
        put_tag(&mut buffer, self.tag);
        let mut header = self.header.write_to_wire()?;
        buffer.append(&mut header);
        let ghost start = buffer@;
        let ghost item = message_item();
        let ghost views = message_views(self.msg@);
        let mut i: usize = 0;
        while i < self.msg.len()
            invariant
                i <= self.msg.len(),
                item == message_item(),
                views == message_views(self.msg@),
                buffer@ == start + write_many(item, views.take(i as int)),
            decreases self.msg.len() - i,
        {
            let mut bytes = write_message_to_wire(&self.msg[i])?;
            buffer.append(&mut bytes);
            proof {
                let done = views.take(i + 1);
                assert(done.drop_last() =~= views.take(i as int));
                lemma_concat_assoc(start, write_many(item, done.drop_last()), item(done.last()));
            }
            i = i + 1;
        }
        proof {
            assert(views.take(self.msg.len() as int) =~= views);
        }
        match self.footer {
            Some(footer) => {
                let mut bytes = footer.write_to_wire()?;
                buffer.append(&mut bytes);
            },
            None => {
                assert(buffer@ + footer_bytes(self.footer) =~= buffer@);
            },
        }
        assert(buffer@ =~= Self::spec_write(self@));
        Ok(buffer)
    }
}

impl<'a> CephMsgrMsg<'a> {
    /// An envelope whose type has a decoder and whose front segment is cut short is
    /// incomplete.
    pub proof fn law_truncated_front(input: Seq<u8>, header: CephMsgHeader, behind: Seq<u8>)
        requires
            input.len() >= 54,
            input[0] == CephMsg::Msg.spec_code(),
            CephMsgHeader::spec_read(input.skip(1)) == Ok::<(CephMsgHeader, Seq<u8>), SerialError>(
                (header, behind),
            ),
            has_decoder(header.msg_type),
            behind.len() < header.front_len,
        ensures
            Self::spec_read(input) == Err::<(CephMsgrMsgView, Seq<u8>), SerialError>(
                SerialError::Incomplete,
            ),
    {
        reveal(take_tag);
        reveal(take_u8);
    }

    /// A type without a decoder does not fail on its segment: once tag and header are
    /// read, the envelope is decoded with the body `Nop`.
    pub proof fn law_opaque_body(input: Seq<u8>, header: CephMsgHeader, behind: Seq<u8>)
        requires
            input.len() >= 54,
            input[0] == CephMsg::Msg.spec_code(),
            CephMsgHeader::spec_read(input.skip(1)) == Ok::<(CephMsgHeader, Seq<u8>), SerialError>(
                (header, behind),
            ),
            !has_decoder(header.msg_type),
        ensures
            Self::spec_read(input) matches Ok((v, _)) && v.header == header && v.msg
                == seq![MessageView::Nop],
    {
        reveal(take_tag);
        reveal(take_u8);
    }
}

impl<'a> RoundTrip<'a> for CephMsgrMsg<'a> {
    open spec fn valid(v: CephMsgrMsgView) -> bool {
        &&& v.tag == CephMsg::Msg
        &&& v.msg.len() == 1
        &&& carries(v.header.msg_type, v.msg[0])
        &&& v.header.front_len == message_bytes(v.msg[0]).len()
        &&& v.header.middle_len == 0
        &&& v.header.data_len == 0
        &&& v.footer is Some
    }

    proof fn law_round_trip(v: CephMsgrMsgView, tail: Seq<u8>) {
        let tag = tag_bytes(v.tag);
        let header = CephMsgHeader::spec_write(v.header);
        let body = message_bytes(v.msg[0]);
        let footer = CephMsgFooter::spec_write(v.footer.unwrap());
        assert(write_many(message_item(), v.msg) =~= body) by {
            assert(v.msg.drop_last() =~= Seq::<MessageView>::empty());
            assert(write_many(message_item(), v.msg.drop_last()) =~= Seq::<u8>::empty());
        }
        let t3 = footer + tail;
        let t2 = body + t3;
        let t1 = header + t2;
        lemma_concat_assoc(tag + header + body, footer, tail);
        lemma_concat_assoc(tag + header, body, t3);
        lemma_concat_assoc(tag, header, t2);
        CephMsgHeader::law_size(v.header);
        CephMsgFooter::law_size(v.footer.unwrap());
        lemma_take_tag(v.tag, t1);
        CephMsgHeader::law_round_trip(v.header, t2);
        assert(t2.take(v.header.front_len as int) =~= body);
        assert(body + Seq::<u8>::empty() =~= body);
        law_message_round_trip(v.header.msg_type, v.msg[0], Seq::empty());
        assert(t2.skip(body_len(v.header) as int) =~= t3);
        CephMsgFooter::law_round_trip(v.footer.unwrap(), tail);
        assert(seq![v.msg[0]] =~= v.msg);
    }
}

} // verus!
