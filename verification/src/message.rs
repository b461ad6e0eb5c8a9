//! The body of a message: one variant for each kind, with what was decoded of it where
//! the kind has a decoder, and the choice of the decoder by the type of the message.

use vstd::prelude::*;
use crate::auth::{AuthMessage, AuthMessageView, CephAuthOperationReply, CephAuthOperationReplyView};
use crate::enums::CephMsgType;
use crate::error::SerialError;
use crate::mon::{MonCommand, MonCommandView, PaxosMessage};
use crate::osd::{CephOsdOperation, CephOsdOperationReply, CephOsdOperationReplyView};
use crate::osd::CephOsdOperationView;
use crate::primitive::{CephPrimitive, RoundTrip};
use crate::wire::Taken;

verus! {

/// The body of a message. Only some kinds have a decoder; of the others nothing but the
/// kind is known, and what a decoder is missing for is read as `Nop`.
#[derive(Debug, PartialEq, Eq)]
pub enum Message<'a> {
    Auth(AuthMessage<'a>),
    AuthReply(CephAuthOperationReply<'a>),
    Paxos(PaxosMessage),
    Command,
    CommandReply,
    WatchNotify,
    MsgForward,
    MsgRoute,
    MonCommand(MonCommand<'a>),
    MonCommandAck,
    Log,
    LogAck,
    Class,
    ClassAck,
    Getpoolstats,
    Getpoolstatsreply,
    GlobalId,
    MonScrub,
    MonElection,
    MonPaxos,
    MonProbe,
    MonJoin,
    MonSync,
    OsdAlive,
    OsdBoot,
    OsdFailure,
    OsdMarkMeDown,
    OsdMap,
    OsdOp(CephOsdOperation<'a>),
    OsdOpRepl(CephOsdOperationReply<'a>),
    OsdPing,
    OsdSubop(CephOsdOperation<'a>),
    OsdSubopReply(CephOsdOperationReply<'a>),
    OsdPgtemp,
    OsdPgNotify,
    OsdPgQuery,
    OsdPgSummary,
    OsdPgLog,
    OsdPgRemove,
    OsdPgInfo,
    OsdPgTrim,
    OsdScrub,
    OsdPgMissing,
    OsdRepScrub,
    OsdPgScan,
    OsdPgBackfill,
    Pgstats,
    Pgstatsack,
    OsdPgCreate,
    RemoveSnaps,
    OsdBackfillReserve,
    OsdRecoveryReserve,
    OsdPgPush,
    OsdPgPull,
    OsdPgPushReply,
    OsdEcWrite,
    OsdEcWriteReply,
    OsdEcRead,
    OsdEcReadReply,
    OsdRepop,
    OsdRepopreply,
    Timecheck,
    MonHealth,
    CrcData,
    CrcHeader,
    DataPing,
    Nop,
}

/// A value of `Message` as mathematics.
pub enum MessageView {
    Auth(AuthMessageView),
    AuthReply(CephAuthOperationReplyView),
    Paxos(PaxosMessage),
    Command,
    CommandReply,
    WatchNotify,
    MsgForward,
    MsgRoute,
    MonCommand(MonCommandView),
    MonCommandAck,
    Log,
    LogAck,
    Class,
    ClassAck,
    Getpoolstats,
    Getpoolstatsreply,
    GlobalId,
    MonScrub,
    MonElection,
    MonPaxos,
    MonProbe,
    MonJoin,
    MonSync,
    OsdAlive,
    OsdBoot,
    OsdFailure,
    OsdMarkMeDown,
    OsdMap,
    OsdOp(CephOsdOperationView),
    OsdOpRepl(CephOsdOperationReplyView),
    OsdPing,
    OsdSubop(CephOsdOperationView),
    OsdSubopReply(CephOsdOperationReplyView),
    OsdPgtemp,
    OsdPgNotify,
    OsdPgQuery,
    OsdPgSummary,
    OsdPgLog,
    OsdPgRemove,
    OsdPgInfo,
    OsdPgTrim,
    OsdScrub,
    OsdPgMissing,
    OsdRepScrub,
    OsdPgScan,
    OsdPgBackfill,
    Pgstats,
    Pgstatsack,
    OsdPgCreate,
    RemoveSnaps,
    OsdBackfillReserve,
    OsdRecoveryReserve,
    OsdPgPush,
    OsdPgPull,
    OsdPgPushReply,
    OsdEcWrite,
    OsdEcWriteReply,
    OsdEcRead,
    OsdEcReadReply,
    OsdRepop,
    OsdRepopreply,
    Timecheck,
    MonHealth,
    CrcData,
    CrcHeader,
    DataPing,
    Nop,
}

impl<'a> View for Message<'a> {
    type V = MessageView;

    open spec fn view(&self) -> MessageView {
        match self {
            Message::Auth(body) => MessageView::Auth(body@),
            Message::AuthReply(body) => MessageView::AuthReply(body@),
            Message::Paxos(body) => MessageView::Paxos(body@),
            Message::Command => MessageView::Command,
            Message::CommandReply => MessageView::CommandReply,
            Message::WatchNotify => MessageView::WatchNotify,
            Message::MsgForward => MessageView::MsgForward,
            Message::MsgRoute => MessageView::MsgRoute,
            Message::MonCommand(body) => MessageView::MonCommand(body@),
            Message::MonCommandAck => MessageView::MonCommandAck,
            Message::Log => MessageView::Log,
            Message::LogAck => MessageView::LogAck,
            Message::Class => MessageView::Class,
            Message::ClassAck => MessageView::ClassAck,
            Message::Getpoolstats => MessageView::Getpoolstats,
            Message::Getpoolstatsreply => MessageView::Getpoolstatsreply,
            Message::GlobalId => MessageView::GlobalId,
            Message::MonScrub => MessageView::MonScrub,
            Message::MonElection => MessageView::MonElection,
            Message::MonPaxos => MessageView::MonPaxos,
            Message::MonProbe => MessageView::MonProbe,
            Message::MonJoin => MessageView::MonJoin,
            Message::MonSync => MessageView::MonSync,
            Message::OsdAlive => MessageView::OsdAlive,
            Message::OsdBoot => MessageView::OsdBoot,
            Message::OsdFailure => MessageView::OsdFailure,
            Message::OsdMarkMeDown => MessageView::OsdMarkMeDown,
            Message::OsdMap => MessageView::OsdMap,
            Message::OsdOp(body) => MessageView::OsdOp(body@),
            Message::OsdOpRepl(body) => MessageView::OsdOpRepl(body@),
            Message::OsdPing => MessageView::OsdPing,
            Message::OsdSubop(body) => MessageView::OsdSubop(body@),
            Message::OsdSubopReply(body) => MessageView::OsdSubopReply(body@),
            Message::OsdPgtemp => MessageView::OsdPgtemp,
            Message::OsdPgNotify => MessageView::OsdPgNotify,
            Message::OsdPgQuery => MessageView::OsdPgQuery,
            Message::OsdPgSummary => MessageView::OsdPgSummary,
            Message::OsdPgLog => MessageView::OsdPgLog,
            Message::OsdPgRemove => MessageView::OsdPgRemove,
            Message::OsdPgInfo => MessageView::OsdPgInfo,
            Message::OsdPgTrim => MessageView::OsdPgTrim,
            Message::OsdScrub => MessageView::OsdScrub,
            Message::OsdPgMissing => MessageView::OsdPgMissing,
            Message::OsdRepScrub => MessageView::OsdRepScrub,
            Message::OsdPgScan => MessageView::OsdPgScan,
            Message::OsdPgBackfill => MessageView::OsdPgBackfill,
            Message::Pgstats => MessageView::Pgstats,
            Message::Pgstatsack => MessageView::Pgstatsack,
            Message::OsdPgCreate => MessageView::OsdPgCreate,
            Message::RemoveSnaps => MessageView::RemoveSnaps,
            Message::OsdBackfillReserve => MessageView::OsdBackfillReserve,
            Message::OsdRecoveryReserve => MessageView::OsdRecoveryReserve,
            Message::OsdPgPush => MessageView::OsdPgPush,
            Message::OsdPgPull => MessageView::OsdPgPull,
            Message::OsdPgPushReply => MessageView::OsdPgPushReply,
            Message::OsdEcWrite => MessageView::OsdEcWrite,
            Message::OsdEcWriteReply => MessageView::OsdEcWriteReply,
            Message::OsdEcRead => MessageView::OsdEcRead,
            Message::OsdEcReadReply => MessageView::OsdEcReadReply,
            Message::OsdRepop => MessageView::OsdRepop,
            Message::OsdRepopreply => MessageView::OsdRepopreply,
            Message::Timecheck => MessageView::Timecheck,
            Message::MonHealth => MessageView::MonHealth,
            Message::CrcData => MessageView::CrcData,
            Message::CrcHeader => MessageView::CrcHeader,
            Message::DataPing => MessageView::DataPing,
            Message::Nop => MessageView::Nop,
        }
    }
}

/// Whether messages of a type have a decoder for their body.
pub open spec fn has_decoder(msg_type: CephMsgType) -> bool {
    msg_type == CephMsgType::MsgAuth
        || msg_type == CephMsgType::MsgAuthReply
        || msg_type == CephMsgType::MsgOsdOp
        || msg_type == CephMsgType::MsgOsdOpReply
        || msg_type == CephMsgType::MsgOsdSubop
        || msg_type == CephMsgType::MsgOsdSubopReply
        || msg_type == CephMsgType::MsgMonCommand
}

/// The body that a buffer holds for a message of the given type: what the decoder of the
/// type reads, or `Nop` and the whole buffer behind it where the type has none.
pub open spec fn read_message(input: Seq<u8>, msg_type: CephMsgType) -> Taken<MessageView> {
    match msg_type {
        CephMsgType::MsgAuth => match AuthMessage::spec_read(input) {
            Err(e) => Err(e),
            Ok((body, rest)) => Ok((MessageView::Auth(body), rest)),
        },
        CephMsgType::MsgAuthReply => match CephAuthOperationReply::spec_read(input) {
            Err(e) => Err(e),
            Ok((body, rest)) => Ok((MessageView::AuthReply(body), rest)),
        },
        CephMsgType::MsgOsdOp => match CephOsdOperation::spec_read(input) {
            Err(e) => Err(e),
            Ok((body, rest)) => Ok((MessageView::OsdOp(body), rest)),
        },
        CephMsgType::MsgOsdOpReply => match CephOsdOperationReply::spec_read(input) {
            Err(e) => Err(e),
            Ok((body, rest)) => Ok((MessageView::OsdOpRepl(body), rest)),
        },
        CephMsgType::MsgOsdSubop => match CephOsdOperation::spec_read(input) {
            Err(e) => Err(e),
            Ok((body, rest)) => Ok((MessageView::OsdSubop(body), rest)),
        },
        CephMsgType::MsgOsdSubopReply => match CephOsdOperationReply::spec_read(input) {
            Err(e) => Err(e),
            Ok((body, rest)) => Ok((MessageView::OsdSubopReply(body), rest)),
        },
        CephMsgType::MsgMonCommand => match MonCommand::spec_read(input) {
            Err(e) => Err(e),
            Ok((body, rest)) => Ok((MessageView::MonCommand(body), rest)),
        },
        _ => Ok((MessageView::Nop, input)),
    }
}

/// The bytes of a body: those of what it holds, and none where it holds nothing.
pub open spec fn message_bytes(msg: MessageView) -> Seq<u8> {
    match msg {
        MessageView::Auth(body) => AuthMessage::spec_write(body),
        MessageView::AuthReply(body) => CephAuthOperationReply::spec_write(body),
        MessageView::Paxos(body) => PaxosMessage::spec_write(body),
        MessageView::MonCommand(body) => MonCommand::spec_write(body),
        MessageView::OsdOp(body) => CephOsdOperation::spec_write(body),
        MessageView::OsdOpRepl(body) => CephOsdOperationReply::spec_write(body),
        MessageView::OsdSubop(body) => CephOsdOperation::spec_write(body),
        MessageView::OsdSubopReply(body) => CephOsdOperationReply::spec_write(body),
        _ => Seq::empty(),
    }
}

/// Whether a body is what the decoder of a type can give: the variant of the type with a
/// valid value, or `Nop` for a type without a decoder.
pub open spec fn carries(msg_type: CephMsgType, msg: MessageView) -> bool {
    match msg {
        MessageView::Auth(body) => {
            msg_type == CephMsgType::MsgAuth && AuthMessage::valid(body)
        },
        MessageView::AuthReply(body) => {
            msg_type == CephMsgType::MsgAuthReply && CephAuthOperationReply::valid(body)
        },
        MessageView::OsdOp(body) => {
            msg_type == CephMsgType::MsgOsdOp && CephOsdOperation::valid(body)
        },
        MessageView::OsdOpRepl(body) => {
            msg_type == CephMsgType::MsgOsdOpReply && CephOsdOperationReply::valid(body)
        },
        MessageView::OsdSubop(body) => {
            msg_type == CephMsgType::MsgOsdSubop && CephOsdOperation::valid(body)
        },
        MessageView::OsdSubopReply(body) => {
            msg_type == CephMsgType::MsgOsdSubopReply && CephOsdOperationReply::valid(body)
        },
        MessageView::MonCommand(body) => {
            msg_type == CephMsgType::MsgMonCommand && MonCommand::valid(body)
        },
        MessageView::Nop => !has_decoder(msg_type),
        _ => false,
    }
}

/// Whether the type of a message has a decoder for the body.
pub fn decodes(msg_type: &CephMsgType) -> (r: bool)
    ensures
        r == has_decoder(*msg_type),
{
    match msg_type {
        CephMsgType::MsgAuth
        | CephMsgType::MsgAuthReply
        | CephMsgType::MsgOsdOp
        | CephMsgType::MsgOsdOpReply
        | CephMsgType::MsgOsdSubop
        | CephMsgType::MsgOsdSubopReply
        | CephMsgType::MsgMonCommand => true,
        _ => false,
    }
}

/// Decodes the body of a message of the given type from the front of the buffer, and
/// hands back the one body and the bytes behind it.
pub fn read_messages_from_wire<'a>(cursor: &'a [u8], msg_type: &CephMsgType) -> (r: Result<
    (Vec<Message<'a>>, &'a [u8]),
    SerialError,
>)
    ensures
        match r {
            Ok((msgs, rest)) => msgs@.len() == 1 && read_message(cursor@, *msg_type) == Ok::<
                (MessageView, Seq<u8>),
                SerialError,
            >((msgs@[0]@, rest@)),
            Err(e) => read_message(cursor@, *msg_type) == Err::<
                (MessageView, Seq<u8>),
                SerialError,
            >(e),
        },
{
    let mut v: Vec<Message<'a>> = Vec::new();
    match msg_type {
        CephMsgType::MsgAuth => {
            let (body, rest) = AuthMessage::read_from_wire(cursor)?;
            v.push(Message::Auth(body));
            Ok((v, rest))
        },
        CephMsgType::MsgAuthReply => {
            let (body, rest) = CephAuthOperationReply::read_from_wire(cursor)?;
            v.push(Message::AuthReply(body));
            Ok((v, rest))
        },
        CephMsgType::MsgOsdOp => {
            let (body, rest) = CephOsdOperation::read_from_wire(cursor)?;
            v.push(Message::OsdOp(body));
            Ok((v, rest))
        },
        CephMsgType::MsgOsdOpReply => {
            let (body, rest) = CephOsdOperationReply::read_from_wire(cursor)?;
            v.push(Message::OsdOpRepl(body));
            Ok((v, rest))
        },
        CephMsgType::MsgOsdSubop => {
            let (body, rest) = CephOsdOperation::read_from_wire(cursor)?;
            v.push(Message::OsdSubop(body));
            Ok((v, rest))
        },
        CephMsgType::MsgOsdSubopReply => {
            let (body, rest) = CephOsdOperationReply::read_from_wire(cursor)?;
            v.push(Message::OsdSubopReply(body));
            Ok((v, rest))
        },
        CephMsgType::MsgMonCommand => {
            let (body, rest) = MonCommand::read_from_wire(cursor)?;
            v.push(Message::MonCommand(body));
            Ok((v, rest))
        },
        _ => {
            v.push(Message::Nop);
            Ok((v, cursor))
        },
    }
}

/// Encodes the body of a message. Writing to memory does not fail.
pub fn write_message_to_wire(msg: &Message) -> (r: Result<Vec<u8>, SerialError>)
    ensures
        r matches Ok(bytes) && bytes@ == message_bytes(msg@),
{
    match msg {
        Message::Auth(body) => body.write_to_wire(),
        Message::AuthReply(body) => body.write_to_wire(),
        Message::Paxos(body) => body.write_to_wire(),
        Message::MonCommand(body) => body.write_to_wire(),
        Message::OsdOp(body) => body.write_to_wire(),
        Message::OsdOpRepl(body) => body.write_to_wire(),
        Message::OsdSubop(body) => body.write_to_wire(),
        Message::OsdSubopReply(body) => body.write_to_wire(),
        _ => Ok(Vec::new()),
    }
}

/// The body that the decoder of a type can give comes back from its bytes.
pub proof fn law_message_round_trip(msg_type: CephMsgType, msg: MessageView, tail: Seq<u8>)
    requires
        carries(msg_type, msg),
    ensures
        read_message(message_bytes(msg) + tail, msg_type) == Ok::<
            (MessageView, Seq<u8>),
            SerialError,
        >((msg, tail)),
{
    match msg {
        MessageView::Auth(body) => {
            AuthMessage::law_round_trip(body, tail);
        },
        MessageView::AuthReply(body) => {
            CephAuthOperationReply::law_round_trip(body, tail);
        },
        MessageView::OsdOp(body) => {
            CephOsdOperation::law_round_trip(body, tail);
        },
        MessageView::OsdOpRepl(body) => {
            CephOsdOperationReply::law_round_trip(body, tail);
        },
        MessageView::OsdSubop(body) => {
            CephOsdOperation::law_round_trip(body, tail);
        },
        MessageView::OsdSubopReply(body) => {
            CephOsdOperationReply::law_round_trip(body, tail);
        },
        MessageView::MonCommand(body) => {
            MonCommand::law_round_trip(body, tail);
        },
        _ => {
            assert(message_bytes(msg) + tail =~= tail);
        },
    }
}

/// A type without a decoder never fails: its body is `Nop`, and the buffer is left whole.
pub proof fn law_opaque(input: Seq<u8>, msg_type: CephMsgType)
    requires
        !has_decoder(msg_type),
    ensures
        read_message(input, msg_type) == Ok::<(MessageView, Seq<u8>), SerialError>(
            (MessageView::Nop, input),
        ),
{
}

} // verus!
