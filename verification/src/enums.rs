//! The closed sets of codes of the wire format: each variant with its code, and the code
//! that names no variant as a failure of the field that held it.

use vstd::prelude::*;
use crate::bytes::{le_u16, le_u32, le_u8, put_u16_le, put_u32_le, put_u8};
use crate::error::{SerialError, WireField};
use crate::wire::{decoded, take_u16_le, take_u32_le, take_u8, u16_le_bytes, u32_le_bytes, Taken};
use crate::wire::{lemma_take_u16_le, lemma_take_u32_le, lemma_take_u8};
use crate::wire::{behind, lemma_behind_take_u16_le, lemma_behind_take_u32_le, lemma_behind_take_u8};

verus! {

/// The role of a node.
#[derive(Debug, Clone, Copy, PartialEq, Eq, Structural)]
pub enum CephEntity {
    /// A monitor.
    Mon,
    /// A metadata server.
    Mds,
    /// An object-storage daemon.
    Osd,
    /// A client.
    Client,
    /// The authentication service, named while a session is set up.
    Auth,
    /// Any role.
    Any,
}

impl View for CephEntity {
    type V = CephEntity;

    open spec fn view(&self) -> CephEntity {
        *self
    }
}

impl CephEntity {
    /// The code of a variant.
    pub open spec fn spec_code(self) -> int {
        match self {
            CephEntity::Mon => 1,
            CephEntity::Mds => 2,
            CephEntity::Osd => 4,
            CephEntity::Client => 8,
            CephEntity::Auth => 20,
            CephEntity::Any => 255,
        }
    }

    /// The variant that a code names, if it names one.
    pub open spec fn spec_from_code(code: int) -> Option<CephEntity> {
        if code == 1 {
            Some(CephEntity::Mon)
        } else if code == 2 {
            Some(CephEntity::Mds)
        } else if code == 4 {
            Some(CephEntity::Osd)
        } else if code == 8 {
            Some(CephEntity::Client)
        } else if code == 20 {
            Some(CephEntity::Auth)
        } else if code == 255 {
            Some(CephEntity::Any)
        } else {
            None
        }
    }

    pub fn code(&self) -> (c: u8)
        ensures
            c == self.spec_code(),
    {
        match self {
            CephEntity::Mon => 1,
            CephEntity::Mds => 2,
            CephEntity::Osd => 4,
            CephEntity::Client => 8,
            CephEntity::Auth => 20,
            CephEntity::Any => 255,
        }
    }

    pub fn from_u8(code: u8) -> (r: Option<CephEntity>)
        ensures
            r == CephEntity::spec_from_code(code as int),
    {
        match code {
            1 => Some(CephEntity::Mon),
            2 => Some(CephEntity::Mds),
            4 => Some(CephEntity::Osd),
            8 => Some(CephEntity::Client),
            20 => Some(CephEntity::Auth),
            255 => Some(CephEntity::Any),
            _ => None,
        }
    }

    pub fn from_u32(code: u32) -> (r: Option<CephEntity>)
        ensures
            r == CephEntity::spec_from_code(code as int),
    {
        match code {
            1 => Some(CephEntity::Mon),
            2 => Some(CephEntity::Mds),
            4 => Some(CephEntity::Osd),
            8 => Some(CephEntity::Client),
            20 => Some(CephEntity::Auth),
            255 => Some(CephEntity::Any),
            _ => None,
        }
    }

    /// Every variant is named by its own code.
    pub proof fn law_code_names_variant(e: CephEntity)
        ensures
            CephEntity::spec_from_code(e.spec_code()) == Some(e),
    {
    }

    /// A code names no variant but the one that has it.
    pub proof fn law_variant_has_code(code: int)
        ensures
            CephEntity::spec_from_code(code) matches Some(e) ==> e.spec_code() == code,
    {
    }
}

/// A code of one byte, and the variant of `CephEntity` that it names.
#[verifier::opaque]
pub open spec fn take_entity(s: Seq<u8>) -> Taken<CephEntity> {
    match take_u8(s) {
        Err(e) => Err(e),
        Ok((code, s1)) => match CephEntity::spec_from_code(code as int) {
            Some(e) => Ok((e, s1)),
            None => Err(
                SerialError::InvalidEnumValue {
                    field: WireField::EntityRole,
                    code: code as u64,
                },
            ),
        },
    }
}

/// The bytes of a variant of `CephEntity`: its code in one byte.
pub open spec fn entity_bytes(e: CephEntity) -> Seq<u8> {
    seq![e.spec_code() as u8]
}

pub broadcast proof fn lemma_take_entity(e: CephEntity, tail: Seq<u8>)
    ensures
        #[trigger] take_entity(entity_bytes(e) + tail)
            == Ok::<(CephEntity, Seq<u8>), SerialError>((e, tail)),
{
    reveal(take_entity);
    lemma_take_u8(e.spec_code() as u8, tail);
}

pub broadcast proof fn lemma_behind_take_entity(s: Seq<u8>)
    ensures
        #[trigger] take_entity(s) matches Ok((_, r)) ==> behind(r, s, 1),
{
    reveal(take_entity);
    lemma_behind_take_u8(s);
}

pub fn read_entity<'a>(input: &'a [u8]) -> (r: Result<(CephEntity, &'a [u8]), SerialError>)
    ensures
        decoded(r) == take_entity(input@),
{
    proof {
        reveal(take_entity);
    }
    let (code, rest) = le_u8(input)?;
    match CephEntity::from_u8(code) {
        Some(e) => Ok((e, rest)),
        None => Err(
            SerialError::InvalidEnumValue {
                field: WireField::EntityRole,
                code: code as u64,
            },
        ),
    }
}

pub fn put_entity(buf: &mut Vec<u8>, e: CephEntity)
    ensures
        final(buf)@ == old(buf)@ + entity_bytes(e),
{
    put_u8(buf, e.code());
}

/// A code of four bytes, little-endian, and the variant of `CephEntity` that it names.
#[verifier::opaque]
pub open spec fn take_entity_u32(s: Seq<u8>) -> Taken<CephEntity> {
    match take_u32_le(s) {
        Err(e) => Err(e),
        Ok((code, s1)) => match CephEntity::spec_from_code(code as int) {
            Some(e) => Ok((e, s1)),
            None => Err(
                SerialError::InvalidEnumValue {
                    field: WireField::EntityRole,
                    code: code as u64,
                },
            ),
        },
    }
}

/// The bytes of a variant of `CephEntity`: its code in four bytes, little-endian.
pub open spec fn entity_u32_bytes(e: CephEntity) -> Seq<u8> {
    u32_le_bytes(e.spec_code() as u32)
}

pub broadcast proof fn lemma_take_entity_u32(e: CephEntity, tail: Seq<u8>)
    ensures
        #[trigger] take_entity_u32(entity_u32_bytes(e) + tail)
            == Ok::<(CephEntity, Seq<u8>), SerialError>((e, tail)),
{
    reveal(take_entity_u32);
    lemma_take_u32_le(e.spec_code() as u32, tail);
}

pub broadcast proof fn lemma_behind_take_entity_u32(s: Seq<u8>)
    ensures
        #[trigger] take_entity_u32(s) matches Ok((_, r)) ==> behind(r, s, 4),
{
    reveal(take_entity_u32);
    lemma_behind_take_u32_le(s);
}

pub fn read_entity_u32<'a>(input: &'a [u8]) -> (r: Result<(CephEntity, &'a [u8]), SerialError>)
    ensures
        decoded(r) == take_entity_u32(input@),
{
    proof {
        reveal(take_entity_u32);
    }
    let (code, rest) = le_u32(input)?;
    match CephEntity::from_u32(code) {
        Some(e) => Ok((e, rest)),
        None => Err(
            SerialError::InvalidEnumValue {
                field: WireField::EntityRole,
                code: code as u64,
            },
        ),
    }
}

pub fn put_entity_u32(buf: &mut Vec<u8>, e: CephEntity)
    ensures
        final(buf)@ == old(buf)@ + entity_u32_bytes(e),
{
    put_u32_le(buf, e.code() as u32);
}

/// The protocol version that the two sides of a handshake agree on.
#[derive(Debug, Clone, Copy, PartialEq, Eq, Structural)]
pub enum Protocol {
    /// Between a client and an object-storage daemon.
    OsdProtocol,
    /// Between a client and a metadata server.
    MdsProtocol,
    /// Between a client and a monitor.
    MonProtocol,
}

impl View for Protocol {
    type V = Protocol;

    open spec fn view(&self) -> Protocol {
        *self
    }
}

impl Protocol {
    /// The code of a variant.
    pub open spec fn spec_code(self) -> int {
        match self {
            Protocol::OsdProtocol => 24,
            Protocol::MdsProtocol => 32,
            Protocol::MonProtocol => 15,
        }
    }

    /// The variant that a code names, if it names one.
    pub open spec fn spec_from_code(code: int) -> Option<Protocol> {
        if code == 24 {
            Some(Protocol::OsdProtocol)
        } else if code == 32 {
            Some(Protocol::MdsProtocol)
        } else if code == 15 {
            Some(Protocol::MonProtocol)
        } else {
            None
        }
    }

    pub fn code(&self) -> (c: u32)
        ensures
            c == self.spec_code(),
    {
        match self {
            Protocol::OsdProtocol => 24,
            Protocol::MdsProtocol => 32,
            Protocol::MonProtocol => 15,
        }
    }

    pub fn from_u32(code: u32) -> (r: Option<Protocol>)
        ensures
            r == Protocol::spec_from_code(code as int),
    {
        match code {
            24 => Some(Protocol::OsdProtocol),
            32 => Some(Protocol::MdsProtocol),
            15 => Some(Protocol::MonProtocol),
            _ => None,
        }
    }

    /// Every variant is named by its own code.
    pub proof fn law_code_names_variant(e: Protocol)
        ensures
            Protocol::spec_from_code(e.spec_code()) == Some(e),
    {
    }

    /// A code names no variant but the one that has it.
    pub proof fn law_variant_has_code(code: int)
        ensures
            Protocol::spec_from_code(code) matches Some(e) ==> e.spec_code() == code,
    {
    }
}

/// A code of four bytes, little-endian, and the variant of `Protocol` that it names.
#[verifier::opaque]
pub open spec fn take_protocol(s: Seq<u8>) -> Taken<Protocol> {
    match take_u32_le(s) {
        Err(e) => Err(e),
        Ok((code, s1)) => match Protocol::spec_from_code(code as int) {
            Some(e) => Ok((e, s1)),
            None => Err(
                SerialError::InvalidEnumValue {
                    field: WireField::ProtocolVersion,
                    code: code as u64,
                },
            ),
        },
    }
}

/// The bytes of a variant of `Protocol`: its code in four bytes, little-endian.
pub open spec fn protocol_bytes(e: Protocol) -> Seq<u8> {
    u32_le_bytes(e.spec_code() as u32)
}

pub broadcast proof fn lemma_take_protocol(e: Protocol, tail: Seq<u8>)
    ensures
        #[trigger] take_protocol(protocol_bytes(e) + tail)
            == Ok::<(Protocol, Seq<u8>), SerialError>((e, tail)),
{
    reveal(take_protocol);
    lemma_take_u32_le(e.spec_code() as u32, tail);
}

pub broadcast proof fn lemma_behind_take_protocol(s: Seq<u8>)
    ensures
        #[trigger] take_protocol(s) matches Ok((_, r)) ==> behind(r, s, 4),
{
    reveal(take_protocol);
    lemma_behind_take_u32_le(s);
}

pub fn read_protocol<'a>(input: &'a [u8]) -> (r: Result<(Protocol, &'a [u8]), SerialError>)
    ensures
        decoded(r) == take_protocol(input@),
{
    proof {
        reveal(take_protocol);
    }
    let (code, rest) = le_u32(input)?;
    match Protocol::from_u32(code) {
        Some(e) => Ok((e, rest)),
        None => Err(
            SerialError::InvalidEnumValue {
                field: WireField::ProtocolVersion,
                code: code as u64,
            },
        ),
    }
}

pub fn put_protocol(buf: &mut Vec<u8>, e: Protocol)
    ensures
        final(buf)@ == old(buf)@ + protocol_bytes(e),
{
    put_u32_le(buf, e.code());
}

/// The authentication protocol.
#[derive(Debug, Clone, Copy, PartialEq, Eq, Structural)]
pub enum CephAuthProtocol {
    /// Not settled yet.
    CephAuthUnknown,
    /// No authentication.
    CephAuthNone,
    /// The cluster's own ticket protocol.
    CephAuthCephx,
}

impl View for CephAuthProtocol {
    type V = CephAuthProtocol;

    open spec fn view(&self) -> CephAuthProtocol {
        *self
    }
}

impl CephAuthProtocol {
    /// The code of a variant.
    pub open spec fn spec_code(self) -> int {
        match self {
            CephAuthProtocol::CephAuthUnknown => 0,
            CephAuthProtocol::CephAuthNone => 1,
            CephAuthProtocol::CephAuthCephx => 2,
        }
    }

    /// The variant that a code names, if it names one.
    pub open spec fn spec_from_code(code: int) -> Option<CephAuthProtocol> {
        if code == 0 {
            Some(CephAuthProtocol::CephAuthUnknown)
        } else if code == 1 {
            Some(CephAuthProtocol::CephAuthNone)
        } else if code == 2 {
            Some(CephAuthProtocol::CephAuthCephx)
        } else {
            None
        }
    }

    pub fn code(&self) -> (c: u32)
        ensures
            c == self.spec_code(),
    {
        match self {
            CephAuthProtocol::CephAuthUnknown => 0,
            CephAuthProtocol::CephAuthNone => 1,
            CephAuthProtocol::CephAuthCephx => 2,
        }
    }

    pub fn from_u32(code: u32) -> (r: Option<CephAuthProtocol>)
        ensures
            r == CephAuthProtocol::spec_from_code(code as int),
    {
        match code {
            0 => Some(CephAuthProtocol::CephAuthUnknown),
            1 => Some(CephAuthProtocol::CephAuthNone),
            2 => Some(CephAuthProtocol::CephAuthCephx),
            _ => None,
        }
    }

    /// Every variant is named by its own code.
    pub proof fn law_code_names_variant(e: CephAuthProtocol)
        ensures
            CephAuthProtocol::spec_from_code(e.spec_code()) == Some(e),
    {
    }

    /// A code names no variant but the one that has it.
    pub proof fn law_variant_has_code(code: int)
        ensures
            CephAuthProtocol::spec_from_code(code) matches Some(e) ==> e.spec_code() == code,
    {
    }
}

/// A code of four bytes, little-endian, and the variant of `CephAuthProtocol` that it names.
#[verifier::opaque]
pub open spec fn take_auth_protocol(s: Seq<u8>) -> Taken<CephAuthProtocol> {
    match take_u32_le(s) {
        Err(e) => Err(e),
        Ok((code, s1)) => match CephAuthProtocol::spec_from_code(code as int) {
            Some(e) => Ok((e, s1)),
            None => Err(
                SerialError::InvalidEnumValue {
                    field: WireField::AuthProtocol,
                    code: code as u64,
                },
            ),
        },
    }
}

/// The bytes of a variant of `CephAuthProtocol`: its code in four bytes, little-endian.
pub open spec fn auth_protocol_bytes(e: CephAuthProtocol) -> Seq<u8> {
    u32_le_bytes(e.spec_code() as u32)
}

pub broadcast proof fn lemma_take_auth_protocol(e: CephAuthProtocol, tail: Seq<u8>)
    ensures
        #[trigger] take_auth_protocol(auth_protocol_bytes(e) + tail)
            == Ok::<(CephAuthProtocol, Seq<u8>), SerialError>((e, tail)),
{
    reveal(take_auth_protocol);
    lemma_take_u32_le(e.spec_code() as u32, tail);
}

pub broadcast proof fn lemma_behind_take_auth_protocol(s: Seq<u8>)
    ensures
        #[trigger] take_auth_protocol(s) matches Ok((_, r)) ==> behind(r, s, 4),
{
    reveal(take_auth_protocol);
    lemma_behind_take_u32_le(s);
}

pub fn parse_protocol<'a>(input: &'a [u8]) -> (r: Result<(CephAuthProtocol, &'a [u8]), SerialError>)
    ensures
        decoded(r) == take_auth_protocol(input@),
{
    proof {
        reveal(take_auth_protocol);
    }
    let (code, rest) = le_u32(input)?;
    match CephAuthProtocol::from_u32(code) {
        Some(e) => Ok((e, rest)),
        None => Err(
            SerialError::InvalidEnumValue {
                field: WireField::AuthProtocol,
                code: code as u64,
            },
        ),
    }
}

pub fn put_auth_protocol(buf: &mut Vec<u8>, e: CephAuthProtocol)
    ensures
        final(buf)@ == old(buf)@ + auth_protocol_bytes(e),
{
    put_u32_le(buf, e.code());
}

/// The priority of a message.
#[derive(Debug, Clone, Copy, PartialEq, Eq, Structural)]
pub enum CephPriority {
    Low,
    Default,
    High,
    Highest,
}

impl View for CephPriority {
    type V = CephPriority;

    open spec fn view(&self) -> CephPriority {
        *self
    }
}

impl CephPriority {
    /// The code of a variant.
    pub open spec fn spec_code(self) -> int {
        match self {
            CephPriority::Low => 64,
            CephPriority::Default => 127,
            CephPriority::High => 196,
            CephPriority::Highest => 255,
        }
    }

    /// The variant that a code names, if it names one.
    pub open spec fn spec_from_code(code: int) -> Option<CephPriority> {
        if code == 64 {
            Some(CephPriority::Low)
        } else if code == 127 {
            Some(CephPriority::Default)
        } else if code == 196 {
            Some(CephPriority::High)
        } else if code == 255 {
            Some(CephPriority::Highest)
        } else {
            None
        }
    }

    pub fn code(&self) -> (c: u16)
        ensures
            c == self.spec_code(),
    {
        match self {
            CephPriority::Low => 64,
            CephPriority::Default => 127,
            CephPriority::High => 196,
            CephPriority::Highest => 255,
        }
    }

    pub fn from_u16(code: u16) -> (r: Option<CephPriority>)
        ensures
            r == CephPriority::spec_from_code(code as int),
    {
        match code {
            64 => Some(CephPriority::Low),
            127 => Some(CephPriority::Default),
            196 => Some(CephPriority::High),
            255 => Some(CephPriority::Highest),
            _ => None,
        }
    }

    /// Every variant is named by its own code.
    pub proof fn law_code_names_variant(e: CephPriority)
        ensures
            CephPriority::spec_from_code(e.spec_code()) == Some(e),
    {
    }

    /// A code names no variant but the one that has it.
    pub proof fn law_variant_has_code(code: int)
        ensures
            CephPriority::spec_from_code(code) matches Some(e) ==> e.spec_code() == code,
    {
    }
}

/// A code of two bytes, little-endian, and the variant of `CephPriority` that it names.
#[verifier::opaque]
pub open spec fn take_priority(s: Seq<u8>) -> Taken<CephPriority> {
    match take_u16_le(s) {
        Err(e) => Err(e),
        Ok((code, s1)) => match CephPriority::spec_from_code(code as int) {
            Some(e) => Ok((e, s1)),
            None => Err(
                SerialError::InvalidEnumValue {
                    field: WireField::Priority,
                    code: code as u64,
                },
            ),
        },
    }
}

/// The bytes of a variant of `CephPriority`: its code in two bytes, little-endian.
pub open spec fn priority_bytes(e: CephPriority) -> Seq<u8> {
    u16_le_bytes(e.spec_code() as u16)
}

pub broadcast proof fn lemma_take_priority(e: CephPriority, tail: Seq<u8>)
    ensures
        #[trigger] take_priority(priority_bytes(e) + tail)
            == Ok::<(CephPriority, Seq<u8>), SerialError>((e, tail)),
{
    reveal(take_priority);
    lemma_take_u16_le(e.spec_code() as u16, tail);
}

pub broadcast proof fn lemma_behind_take_priority(s: Seq<u8>)
    ensures
        #[trigger] take_priority(s) matches Ok((_, r)) ==> behind(r, s, 2),
{
    reveal(take_priority);
    lemma_behind_take_u16_le(s);
}

pub fn read_priority<'a>(input: &'a [u8]) -> (r: Result<(CephPriority, &'a [u8]), SerialError>)
    ensures
        decoded(r) == take_priority(input@),
{
    proof {
        reveal(take_priority);
    }
    let (code, rest) = le_u16(input)?;
    match CephPriority::from_u16(code) {
        Some(e) => Ok((e, rest)),
        None => Err(
            SerialError::InvalidEnumValue {
                field: WireField::Priority,
                code: code as u64,
            },
        ),
    }
}

pub fn put_priority(buf: &mut Vec<u8>, e: CephPriority)
    ensures
        final(buf)@ == old(buf)@ + priority_bytes(e),
{
    put_u16_le(buf, e.code());
}

/// The control tag in front of every frame.
#[derive(Debug, Clone, Copy, PartialEq, Eq, Structural)]
pub enum CephMsg {
    /// Server to client: ready for messages.
    Ready,
    /// Server to client: reset, try again.
    Reset,
    /// Server to client: wait for the racing incoming connection.
    Wait,
    /// Server to client: try again with a higher connect sequence.
    RetrySession,
    /// Server to client: try again with a higher global sequence.
    RetryGlobal,
    /// The pipe is closing.
    Close,
    /// A message follows.
    Msg,
    /// A message is acknowledged.
    Ack,
    /// A keepalive byte.
    KeepAlive,
    /// The protocol version was refused.
    BadProtocolVersion,
    /// The authorizer was refused.
    BadAuthorizer,
    /// The peer lacks features.
    InsufficientFeatures,
    /// A 64-bit sequence number follows.
    Sequence,
    /// A keepalive with a timestamp.
    KeepAlive2,
    /// The reply to a keepalive with a timestamp.
    KeepAlive2Ack,
    /// A tag that stands for none of the others.
    Unknown,
}

impl View for CephMsg {
    type V = CephMsg;

    open spec fn view(&self) -> CephMsg {
        *self
    }
}

impl CephMsg {
    /// The code of a variant.
    pub open spec fn spec_code(self) -> int {
        match self {
            CephMsg::Ready => 1,
            CephMsg::Reset => 2,
            CephMsg::Wait => 3,
            CephMsg::RetrySession => 4,
            CephMsg::RetryGlobal => 5,
            CephMsg::Close => 6,
            CephMsg::Msg => 7,
            CephMsg::Ack => 8,
            CephMsg::KeepAlive => 9,
            CephMsg::BadProtocolVersion => 10,
            CephMsg::BadAuthorizer => 11,
            CephMsg::InsufficientFeatures => 12,
            CephMsg::Sequence => 13,
            CephMsg::KeepAlive2 => 14,
            CephMsg::KeepAlive2Ack => 15,
            CephMsg::Unknown => 20,
        }
    }

    /// The variant that a code names, if it names one.
    pub open spec fn spec_from_code(code: int) -> Option<CephMsg> {
        if code == 1 {
            Some(CephMsg::Ready)
        } else if code == 2 {
            Some(CephMsg::Reset)
        } else if code == 3 {
            Some(CephMsg::Wait)
        } else if code == 4 {
            Some(CephMsg::RetrySession)
        } else if code == 5 {
            Some(CephMsg::RetryGlobal)
        } else if code == 6 {
            Some(CephMsg::Close)
        } else if code == 7 {
            Some(CephMsg::Msg)
        } else if code == 8 {
            Some(CephMsg::Ack)
        } else if code == 9 {
            Some(CephMsg::KeepAlive)
        } else if code == 10 {
            Some(CephMsg::BadProtocolVersion)
        } else if code == 11 {
            Some(CephMsg::BadAuthorizer)
        } else if code == 12 {
            Some(CephMsg::InsufficientFeatures)
        } else if code == 13 {
            Some(CephMsg::Sequence)
        } else if code == 14 {
            Some(CephMsg::KeepAlive2)
        } else if code == 15 {
            Some(CephMsg::KeepAlive2Ack)
        } else if code == 20 {
            Some(CephMsg::Unknown)
        } else {
            None
        }
    }

    pub fn code(&self) -> (c: u8)
        ensures
            c == self.spec_code(),
    {
        match self {
            CephMsg::Ready => 1,
            CephMsg::Reset => 2,
            CephMsg::Wait => 3,
            CephMsg::RetrySession => 4,
            CephMsg::RetryGlobal => 5,
            CephMsg::Close => 6,
            CephMsg::Msg => 7,
            CephMsg::Ack => 8,
            CephMsg::KeepAlive => 9,
            CephMsg::BadProtocolVersion => 10,
            CephMsg::BadAuthorizer => 11,
            CephMsg::InsufficientFeatures => 12,
            CephMsg::Sequence => 13,
            CephMsg::KeepAlive2 => 14,
            CephMsg::KeepAlive2Ack => 15,
            CephMsg::Unknown => 20,
        }
    }

    pub fn from_u8(code: u8) -> (r: Option<CephMsg>)
        ensures
            r == CephMsg::spec_from_code(code as int),
    {
        match code {
            1 => Some(CephMsg::Ready),
            2 => Some(CephMsg::Reset),
            3 => Some(CephMsg::Wait),
            4 => Some(CephMsg::RetrySession),
            5 => Some(CephMsg::RetryGlobal),
            6 => Some(CephMsg::Close),
            7 => Some(CephMsg::Msg),
            8 => Some(CephMsg::Ack),
            9 => Some(CephMsg::KeepAlive),
            10 => Some(CephMsg::BadProtocolVersion),
            11 => Some(CephMsg::BadAuthorizer),
            12 => Some(CephMsg::InsufficientFeatures),
            13 => Some(CephMsg::Sequence),
            14 => Some(CephMsg::KeepAlive2),
            15 => Some(CephMsg::KeepAlive2Ack),
            20 => Some(CephMsg::Unknown),
            _ => None,
        }
    }

    /// Every variant is named by its own code.
    pub proof fn law_code_names_variant(e: CephMsg)
        ensures
            CephMsg::spec_from_code(e.spec_code()) == Some(e),
    {
    }

    /// A code names no variant but the one that has it.
    pub proof fn law_variant_has_code(code: int)
        ensures
            CephMsg::spec_from_code(code) matches Some(e) ==> e.spec_code() == code,
    {
    }
}

/// A code of one byte, and the variant of `CephMsg` that it names.
#[verifier::opaque]
pub open spec fn take_tag(s: Seq<u8>) -> Taken<CephMsg> {
    match take_u8(s) {
        Err(e) => Err(e),
        Ok((code, s1)) => match CephMsg::spec_from_code(code as int) {
            Some(e) => Ok((e, s1)),
            None => Err(SerialError::InvalidEnumValue { field: WireField::Tag, code: code as u64 }),
        },
    }
}

/// The bytes of a variant of `CephMsg`: its code in one byte.
pub open spec fn tag_bytes(e: CephMsg) -> Seq<u8> {
    seq![e.spec_code() as u8]
}

pub broadcast proof fn lemma_take_tag(e: CephMsg, tail: Seq<u8>)
    ensures
        #[trigger] take_tag(tag_bytes(e) + tail)
            == Ok::<(CephMsg, Seq<u8>), SerialError>((e, tail)),
{
    reveal(take_tag);
    lemma_take_u8(e.spec_code() as u8, tail);
}

pub broadcast proof fn lemma_behind_take_tag(s: Seq<u8>)
    ensures
        #[trigger] take_tag(s) matches Ok((_, r)) ==> behind(r, s, 1),
{
    reveal(take_tag);
    lemma_behind_take_u8(s);
}

pub fn read_tag<'a>(input: &'a [u8]) -> (r: Result<(CephMsg, &'a [u8]), SerialError>)
    ensures
        decoded(r) == take_tag(input@),
{
    proof {
        reveal(take_tag);
    }
    let (code, rest) = le_u8(input)?;
    match CephMsg::from_u8(code) {
        Some(e) => Ok((e, rest)),
        None => Err(SerialError::InvalidEnumValue { field: WireField::Tag, code: code as u64 }),
    }
}

pub fn put_tag(buf: &mut Vec<u8>, e: CephMsg)
    ensures
        final(buf)@ == old(buf)@ + tag_bytes(e),
{
    put_u8(buf, e.code());
}

/// The type of the message in an envelope. Its codes overlap those of the control tags;
/// which of the two a number means follows from where it stands.
#[derive(Debug, Clone, Copy, PartialEq, Eq, Structural)]
pub enum CephMsgType {
    MsgMonMap,
    MsgMonGetMap,
    MsgMonGetOsdmap,
    MsgMonMetadata,
    MsgStatfs,
    MsgStatfsReply,
    MsgMonSubscribe,
    MsgMonSubscribeAck,
    MsgAuth,
    MsgAuthReply,
    MsgMonGetVersion,
    MsgMonGetVersionReply,
    MsgPaxos,
    MsgOsdMap,
    MsgOsdOp,
    MsgOsdOpReply,
    MsgWatchNotify,
    MsgForward,
    MsgRoute,
    MsgMonCommand,
    MsgMonCommandAck,
    MsgLog,
    MsgLogAck,
    MsgClass,
    MsgClassAck,
    MsgGetpoolstats,
    MsgGetpoolstatsreply,
    MsgMonGlobalId,
    MsgMonScrub,
    MsgMonElection,
    MsgMonPaxos,
    MsgMonProbe,
    MsgMonJoin,
    MsgMonSync,
    MsgOsdPing,
    MsgOsdBoot,
    MsgOsdFailure,
    MsgOsdAlive,
    MsgOsdMarkMeDown,
    MsgOsdSubop,
    MsgOsdSubopReply,
    MsgOsdPgtemp,
    MsgOsdPgNotify,
    MsgOsdPgQuery,
    MsgOsdPgSummary,
    MsgOsdPgLog,
    MsgOsdPgRemove,
    MsgOsdPgInfo,
    MsgOsdPgTrim,
    MsgPgstats,
    MsgPgstatsack,
    MsgOsdPgCreate,
    MsgRemoveSnaps,
    MsgOsdScrub,
    MsgOsdPgMissing,
    MsgOsdRepScrub,
    MsgOsdPgScan,
    MsgOsdPgBackfill,
    MsgCommand,
    MsgCommandReply,
    MsgOsdBackfillReserve,
    MsgOsdRecoveryReserve,
    MsgOsdPgPush,
    MsgOsdPgPull,
    MsgOsdPgPushReply,
    MsgOsdEcWrite,
    MsgOsdEcWriteReply,
    MsgOsdEcRead,
    MsgOsdEcReadReply,
    MsgOsdRepop,
    MsgOsdRepopreply,
    MsgTimecheck,
    MsgMonHealth,
    MsgCrcData,
    MsgCrcHeader,
    MsgDataPing,
    MsgNop,
}

impl View for CephMsgType {
    type V = CephMsgType;

    open spec fn view(&self) -> CephMsgType {
        *self
    }
}

impl CephMsgType {
    /// The code of a variant.
    pub open spec fn spec_code(self) -> int {
        match self {
            CephMsgType::MsgMonMap => 4,
            CephMsgType::MsgMonGetMap => 5,
            CephMsgType::MsgMonGetOsdmap => 6,
            CephMsgType::MsgMonMetadata => 7,
            CephMsgType::MsgStatfs => 13,
            CephMsgType::MsgStatfsReply => 14,
            CephMsgType::MsgMonSubscribe => 15,
            CephMsgType::MsgMonSubscribeAck => 16,
            CephMsgType::MsgAuth => 17,
            CephMsgType::MsgAuthReply => 18,
            CephMsgType::MsgMonGetVersion => 19,
            CephMsgType::MsgMonGetVersionReply => 20,
            CephMsgType::MsgPaxos => 40,
            CephMsgType::MsgOsdMap => 41,
            CephMsgType::MsgOsdOp => 42,
            CephMsgType::MsgOsdOpReply => 43,
            CephMsgType::MsgWatchNotify => 44,
            CephMsgType::MsgForward => 46,
            CephMsgType::MsgRoute => 47,
            CephMsgType::MsgMonCommand => 50,
            CephMsgType::MsgMonCommandAck => 51,
            CephMsgType::MsgLog => 52,
            CephMsgType::MsgLogAck => 53,
            CephMsgType::MsgClass => 56,
            CephMsgType::MsgClassAck => 57,
            CephMsgType::MsgGetpoolstats => 58,
            CephMsgType::MsgGetpoolstatsreply => 59,
            CephMsgType::MsgMonGlobalId => 60,
            CephMsgType::MsgMonScrub => 64,
            CephMsgType::MsgMonElection => 65,
            CephMsgType::MsgMonPaxos => 66,
            CephMsgType::MsgMonProbe => 67,
            CephMsgType::MsgMonJoin => 68,
            CephMsgType::MsgMonSync => 69,
            CephMsgType::MsgOsdPing => 70,
            CephMsgType::MsgOsdBoot => 71,
            CephMsgType::MsgOsdFailure => 72,
            CephMsgType::MsgOsdAlive => 73,
            CephMsgType::MsgOsdMarkMeDown => 74,
            CephMsgType::MsgOsdSubop => 76,
            CephMsgType::MsgOsdSubopReply => 77,
            CephMsgType::MsgOsdPgtemp => 78,
            CephMsgType::MsgOsdPgNotify => 80,
            CephMsgType::MsgOsdPgQuery => 81,
            CephMsgType::MsgOsdPgSummary => 82,
            CephMsgType::MsgOsdPgLog => 83,
            CephMsgType::MsgOsdPgRemove => 84,
            CephMsgType::MsgOsdPgInfo => 85,
            CephMsgType::MsgOsdPgTrim => 86,
            CephMsgType::MsgPgstats => 87,
            CephMsgType::MsgPgstatsack => 88,
            CephMsgType::MsgOsdPgCreate => 89,
            CephMsgType::MsgRemoveSnaps => 90,
            CephMsgType::MsgOsdScrub => 91,
            CephMsgType::MsgOsdPgMissing => 92,
            CephMsgType::MsgOsdRepScrub => 93,
            CephMsgType::MsgOsdPgScan => 94,
            CephMsgType::MsgOsdPgBackfill => 95,
            CephMsgType::MsgCommand => 97,
            CephMsgType::MsgCommandReply => 98,
            CephMsgType::MsgOsdBackfillReserve => 99,
            CephMsgType::MsgOsdRecoveryReserve => 150,
            CephMsgType::MsgOsdPgPush => 105,
            CephMsgType::MsgOsdPgPull => 106,
            CephMsgType::MsgOsdPgPushReply => 107,
            CephMsgType::MsgOsdEcWrite => 108,
            CephMsgType::MsgOsdEcWriteReply => 109,
            CephMsgType::MsgOsdEcRead => 110,
            CephMsgType::MsgOsdEcReadReply => 111,
            CephMsgType::MsgOsdRepop => 112,
            CephMsgType::MsgOsdRepopreply => 113,
            CephMsgType::MsgTimecheck => 0x600,
            CephMsgType::MsgMonHealth => 0x601,
            CephMsgType::MsgCrcData => 1,
            CephMsgType::MsgCrcHeader => 2,
            CephMsgType::MsgDataPing => 0x602,
            CephMsgType::MsgNop => 0x607,
        }
    }

    /// The variant that a code names, if it names one.
    pub open spec fn spec_from_code(code: int) -> Option<CephMsgType> {
        if code == 4 {
            Some(CephMsgType::MsgMonMap)
        } else if code == 5 {
            Some(CephMsgType::MsgMonGetMap)
        } else if code == 6 {
            Some(CephMsgType::MsgMonGetOsdmap)
        } else if code == 7 {
            Some(CephMsgType::MsgMonMetadata)
        } else if code == 13 {
            Some(CephMsgType::MsgStatfs)
        } else if code == 14 {
            Some(CephMsgType::MsgStatfsReply)
        } else if code == 15 {
            Some(CephMsgType::MsgMonSubscribe)
        } else if code == 16 {
            Some(CephMsgType::MsgMonSubscribeAck)
        } else if code == 17 {
            Some(CephMsgType::MsgAuth)
        } else if code == 18 {
            Some(CephMsgType::MsgAuthReply)
        } else if code == 19 {
            Some(CephMsgType::MsgMonGetVersion)
        } else if code == 20 {
            Some(CephMsgType::MsgMonGetVersionReply)
        } else if code == 40 {
            Some(CephMsgType::MsgPaxos)
        } else if code == 41 {
            Some(CephMsgType::MsgOsdMap)
        } else if code == 42 {
            Some(CephMsgType::MsgOsdOp)
        } else if code == 43 {
            Some(CephMsgType::MsgOsdOpReply)
        } else if code == 44 {
            Some(CephMsgType::MsgWatchNotify)
        } else if code == 46 {
            Some(CephMsgType::MsgForward)
        } else if code == 47 {
            Some(CephMsgType::MsgRoute)
        } else if code == 50 {
            Some(CephMsgType::MsgMonCommand)
        } else if code == 51 {
            Some(CephMsgType::MsgMonCommandAck)
        } else if code == 52 {
            Some(CephMsgType::MsgLog)
        } else if code == 53 {
            Some(CephMsgType::MsgLogAck)
        } else if code == 56 {
            Some(CephMsgType::MsgClass)
        } else if code == 57 {
            Some(CephMsgType::MsgClassAck)
        } else if code == 58 {
            Some(CephMsgType::MsgGetpoolstats)
        } else if code == 59 {
            Some(CephMsgType::MsgGetpoolstatsreply)
        } else if code == 60 {
            Some(CephMsgType::MsgMonGlobalId)
        } else if code == 64 {
            Some(CephMsgType::MsgMonScrub)
        } else if code == 65 {
            Some(CephMsgType::MsgMonElection)
        } else if code == 66 {
            Some(CephMsgType::MsgMonPaxos)
        } else if code == 67 {
            Some(CephMsgType::MsgMonProbe)
        } else if code == 68 {
            Some(CephMsgType::MsgMonJoin)
        } else if code == 69 {
            Some(CephMsgType::MsgMonSync)
        } else if code == 70 {
            Some(CephMsgType::MsgOsdPing)
        } else if code == 71 {
            Some(CephMsgType::MsgOsdBoot)
        } else if code == 72 {
            Some(CephMsgType::MsgOsdFailure)
        } else if code == 73 {
            Some(CephMsgType::MsgOsdAlive)
        } else if code == 74 {
            Some(CephMsgType::MsgOsdMarkMeDown)
        } else if code == 76 {
            Some(CephMsgType::MsgOsdSubop)
        } else if code == 77 {
            Some(CephMsgType::MsgOsdSubopReply)
        } else if code == 78 {
            Some(CephMsgType::MsgOsdPgtemp)
        } else if code == 80 {
            Some(CephMsgType::MsgOsdPgNotify)
        } else if code == 81 {
            Some(CephMsgType::MsgOsdPgQuery)
        } else if code == 82 {
            Some(CephMsgType::MsgOsdPgSummary)
        } else if code == 83 {
            Some(CephMsgType::MsgOsdPgLog)
        } else if code == 84 {
            Some(CephMsgType::MsgOsdPgRemove)
        } else if code == 85 {
            Some(CephMsgType::MsgOsdPgInfo)
        } else if code == 86 {
            Some(CephMsgType::MsgOsdPgTrim)
        } else if code == 87 {
            Some(CephMsgType::MsgPgstats)
        } else if code == 88 {
            Some(CephMsgType::MsgPgstatsack)
        } else if code == 89 {
            Some(CephMsgType::MsgOsdPgCreate)
        } else if code == 90 {
            Some(CephMsgType::MsgRemoveSnaps)
        } else if code == 91 {
            Some(CephMsgType::MsgOsdScrub)
        } else if code == 92 {
            Some(CephMsgType::MsgOsdPgMissing)
        } else if code == 93 {
            Some(CephMsgType::MsgOsdRepScrub)
        } else if code == 94 {
            Some(CephMsgType::MsgOsdPgScan)
        } else if code == 95 {
            Some(CephMsgType::MsgOsdPgBackfill)
        } else if code == 97 {
            Some(CephMsgType::MsgCommand)
        } else if code == 98 {
            Some(CephMsgType::MsgCommandReply)
        } else if code == 99 {
            Some(CephMsgType::MsgOsdBackfillReserve)
        } else if code == 150 {
            Some(CephMsgType::MsgOsdRecoveryReserve)
        } else if code == 105 {
            Some(CephMsgType::MsgOsdPgPush)
        } else if code == 106 {
            Some(CephMsgType::MsgOsdPgPull)
        } else if code == 107 {
            Some(CephMsgType::MsgOsdPgPushReply)
        } else if code == 108 {
            Some(CephMsgType::MsgOsdEcWrite)
        } else if code == 109 {
            Some(CephMsgType::MsgOsdEcWriteReply)
        } else if code == 110 {
            Some(CephMsgType::MsgOsdEcRead)
        } else if code == 111 {
            Some(CephMsgType::MsgOsdEcReadReply)
        } else if code == 112 {
            Some(CephMsgType::MsgOsdRepop)
        } else if code == 113 {
            Some(CephMsgType::MsgOsdRepopreply)
        } else if code == 0x600 {
            Some(CephMsgType::MsgTimecheck)
        } else if code == 0x601 {
            Some(CephMsgType::MsgMonHealth)
        } else if code == 1 {
            Some(CephMsgType::MsgCrcData)
        } else if code == 2 {
            Some(CephMsgType::MsgCrcHeader)
        } else if code == 0x602 {
            Some(CephMsgType::MsgDataPing)
        } else if code == 0x607 {
            Some(CephMsgType::MsgNop)
        } else {
            None
        }
    }

    pub fn code(&self) -> (c: u16)
        ensures
            c == self.spec_code(),
    {
        match self {
            CephMsgType::MsgMonMap => 4,
            CephMsgType::MsgMonGetMap => 5,
            CephMsgType::MsgMonGetOsdmap => 6,
            CephMsgType::MsgMonMetadata => 7,
            CephMsgType::MsgStatfs => 13,
            CephMsgType::MsgStatfsReply => 14,
            CephMsgType::MsgMonSubscribe => 15,
            CephMsgType::MsgMonSubscribeAck => 16,
            CephMsgType::MsgAuth => 17,
            CephMsgType::MsgAuthReply => 18,
            CephMsgType::MsgMonGetVersion => 19,
            CephMsgType::MsgMonGetVersionReply => 20,
            CephMsgType::MsgPaxos => 40,
            CephMsgType::MsgOsdMap => 41,
            CephMsgType::MsgOsdOp => 42,
            CephMsgType::MsgOsdOpReply => 43,
            CephMsgType::MsgWatchNotify => 44,
            CephMsgType::MsgForward => 46,
            CephMsgType::MsgRoute => 47,
            CephMsgType::MsgMonCommand => 50,
            CephMsgType::MsgMonCommandAck => 51,
            CephMsgType::MsgLog => 52,
            CephMsgType::MsgLogAck => 53,
            CephMsgType::MsgClass => 56,
            CephMsgType::MsgClassAck => 57,
            CephMsgType::MsgGetpoolstats => 58,
            CephMsgType::MsgGetpoolstatsreply => 59,
            CephMsgType::MsgMonGlobalId => 60,
            CephMsgType::MsgMonScrub => 64,
            CephMsgType::MsgMonElection => 65,
            CephMsgType::MsgMonPaxos => 66,
            CephMsgType::MsgMonProbe => 67,
            CephMsgType::MsgMonJoin => 68,
            CephMsgType::MsgMonSync => 69,
            CephMsgType::MsgOsdPing => 70,
            CephMsgType::MsgOsdBoot => 71,
            CephMsgType::MsgOsdFailure => 72,
            CephMsgType::MsgOsdAlive => 73,
            CephMsgType::MsgOsdMarkMeDown => 74,
            CephMsgType::MsgOsdSubop => 76,
            CephMsgType::MsgOsdSubopReply => 77,
            CephMsgType::MsgOsdPgtemp => 78,
            CephMsgType::MsgOsdPgNotify => 80,
            CephMsgType::MsgOsdPgQuery => 81,
            CephMsgType::MsgOsdPgSummary => 82,
            CephMsgType::MsgOsdPgLog => 83,
            CephMsgType::MsgOsdPgRemove => 84,
            CephMsgType::MsgOsdPgInfo => 85,
            CephMsgType::MsgOsdPgTrim => 86,
            CephMsgType::MsgPgstats => 87,
            CephMsgType::MsgPgstatsack => 88,
            CephMsgType::MsgOsdPgCreate => 89,
            CephMsgType::MsgRemoveSnaps => 90,
            CephMsgType::MsgOsdScrub => 91,
            CephMsgType::MsgOsdPgMissing => 92,
            CephMsgType::MsgOsdRepScrub => 93,
            CephMsgType::MsgOsdPgScan => 94,
            CephMsgType::MsgOsdPgBackfill => 95,
            CephMsgType::MsgCommand => 97,
            CephMsgType::MsgCommandReply => 98,
            CephMsgType::MsgOsdBackfillReserve => 99,
            CephMsgType::MsgOsdRecoveryReserve => 150,
            CephMsgType::MsgOsdPgPush => 105,
            CephMsgType::MsgOsdPgPull => 106,
            CephMsgType::MsgOsdPgPushReply => 107,
            CephMsgType::MsgOsdEcWrite => 108,
            CephMsgType::MsgOsdEcWriteReply => 109,
            CephMsgType::MsgOsdEcRead => 110,
            CephMsgType::MsgOsdEcReadReply => 111,
            CephMsgType::MsgOsdRepop => 112,
            CephMsgType::MsgOsdRepopreply => 113,
            CephMsgType::MsgTimecheck => 0x600,
            CephMsgType::MsgMonHealth => 0x601,
            CephMsgType::MsgCrcData => 1,
            CephMsgType::MsgCrcHeader => 2,
            CephMsgType::MsgDataPing => 0x602,
            CephMsgType::MsgNop => 0x607,
        }
    }

    pub fn from_u16(code: u16) -> (r: Option<CephMsgType>)
        ensures
            r == CephMsgType::spec_from_code(code as int),
    {
        match code {
            4 => Some(CephMsgType::MsgMonMap),
            5 => Some(CephMsgType::MsgMonGetMap),
            6 => Some(CephMsgType::MsgMonGetOsdmap),
            7 => Some(CephMsgType::MsgMonMetadata),
            13 => Some(CephMsgType::MsgStatfs),
            14 => Some(CephMsgType::MsgStatfsReply),
            15 => Some(CephMsgType::MsgMonSubscribe),
            16 => Some(CephMsgType::MsgMonSubscribeAck),
            17 => Some(CephMsgType::MsgAuth),
            18 => Some(CephMsgType::MsgAuthReply),
            19 => Some(CephMsgType::MsgMonGetVersion),
            20 => Some(CephMsgType::MsgMonGetVersionReply),
            40 => Some(CephMsgType::MsgPaxos),
            41 => Some(CephMsgType::MsgOsdMap),
            42 => Some(CephMsgType::MsgOsdOp),
            43 => Some(CephMsgType::MsgOsdOpReply),
            44 => Some(CephMsgType::MsgWatchNotify),
            46 => Some(CephMsgType::MsgForward),
            47 => Some(CephMsgType::MsgRoute),
            50 => Some(CephMsgType::MsgMonCommand),
            51 => Some(CephMsgType::MsgMonCommandAck),
            52 => Some(CephMsgType::MsgLog),
            53 => Some(CephMsgType::MsgLogAck),
            56 => Some(CephMsgType::MsgClass),
            57 => Some(CephMsgType::MsgClassAck),
            58 => Some(CephMsgType::MsgGetpoolstats),
            59 => Some(CephMsgType::MsgGetpoolstatsreply),
            60 => Some(CephMsgType::MsgMonGlobalId),
            64 => Some(CephMsgType::MsgMonScrub),
            65 => Some(CephMsgType::MsgMonElection),
            66 => Some(CephMsgType::MsgMonPaxos),
            67 => Some(CephMsgType::MsgMonProbe),
            68 => Some(CephMsgType::MsgMonJoin),
            69 => Some(CephMsgType::MsgMonSync),
            70 => Some(CephMsgType::MsgOsdPing),
            71 => Some(CephMsgType::MsgOsdBoot),
            72 => Some(CephMsgType::MsgOsdFailure),
            73 => Some(CephMsgType::MsgOsdAlive),
            74 => Some(CephMsgType::MsgOsdMarkMeDown),
            76 => Some(CephMsgType::MsgOsdSubop),
            77 => Some(CephMsgType::MsgOsdSubopReply),
            78 => Some(CephMsgType::MsgOsdPgtemp),
            80 => Some(CephMsgType::MsgOsdPgNotify),
            81 => Some(CephMsgType::MsgOsdPgQuery),
            82 => Some(CephMsgType::MsgOsdPgSummary),
            83 => Some(CephMsgType::MsgOsdPgLog),
            84 => Some(CephMsgType::MsgOsdPgRemove),
            85 => Some(CephMsgType::MsgOsdPgInfo),
            86 => Some(CephMsgType::MsgOsdPgTrim),
            87 => Some(CephMsgType::MsgPgstats),
            88 => Some(CephMsgType::MsgPgstatsack),
            89 => Some(CephMsgType::MsgOsdPgCreate),
            90 => Some(CephMsgType::MsgRemoveSnaps),
            91 => Some(CephMsgType::MsgOsdScrub),
            92 => Some(CephMsgType::MsgOsdPgMissing),
            93 => Some(CephMsgType::MsgOsdRepScrub),
            94 => Some(CephMsgType::MsgOsdPgScan),
            95 => Some(CephMsgType::MsgOsdPgBackfill),
            97 => Some(CephMsgType::MsgCommand),
            98 => Some(CephMsgType::MsgCommandReply),
            99 => Some(CephMsgType::MsgOsdBackfillReserve),
            150 => Some(CephMsgType::MsgOsdRecoveryReserve),
            105 => Some(CephMsgType::MsgOsdPgPush),
            106 => Some(CephMsgType::MsgOsdPgPull),
            107 => Some(CephMsgType::MsgOsdPgPushReply),
            108 => Some(CephMsgType::MsgOsdEcWrite),
            109 => Some(CephMsgType::MsgOsdEcWriteReply),
            110 => Some(CephMsgType::MsgOsdEcRead),
            111 => Some(CephMsgType::MsgOsdEcReadReply),
            112 => Some(CephMsgType::MsgOsdRepop),
            113 => Some(CephMsgType::MsgOsdRepopreply),
            0x600 => Some(CephMsgType::MsgTimecheck),
            0x601 => Some(CephMsgType::MsgMonHealth),
            1 => Some(CephMsgType::MsgCrcData),
            2 => Some(CephMsgType::MsgCrcHeader),
            0x602 => Some(CephMsgType::MsgDataPing),
            0x607 => Some(CephMsgType::MsgNop),
            _ => None,
        }
    }

    /// Every variant is named by its own code.
    pub proof fn law_code_names_variant(e: CephMsgType)
        ensures
            CephMsgType::spec_from_code(e.spec_code()) == Some(e),
    {
    }

    /// A code names no variant but the one that has it.
    pub proof fn law_variant_has_code(code: int)
        ensures
            CephMsgType::spec_from_code(code) matches Some(e) ==> e.spec_code() == code,
    {
    }
}

/// A code of two bytes, little-endian, and the variant of `CephMsgType` that it names.
#[verifier::opaque]
pub open spec fn take_msg_type(s: Seq<u8>) -> Taken<CephMsgType> {
    match take_u16_le(s) {
        Err(e) => Err(e),
        Ok((code, s1)) => match CephMsgType::spec_from_code(code as int) {
            Some(e) => Ok((e, s1)),
            None => Err(
                SerialError::InvalidEnumValue {
                    field: WireField::MessageType,
                    code: code as u64,
                },
            ),
        },
    }
}

/// The bytes of a variant of `CephMsgType`: its code in two bytes, little-endian.
pub open spec fn msg_type_bytes(e: CephMsgType) -> Seq<u8> {
    u16_le_bytes(e.spec_code() as u16)
}

pub broadcast proof fn lemma_take_msg_type(e: CephMsgType, tail: Seq<u8>)
    ensures
        #[trigger] take_msg_type(msg_type_bytes(e) + tail)
            == Ok::<(CephMsgType, Seq<u8>), SerialError>((e, tail)),
{
    reveal(take_msg_type);
    lemma_take_u16_le(e.spec_code() as u16, tail);
}

pub broadcast proof fn lemma_behind_take_msg_type(s: Seq<u8>)
    ensures
        #[trigger] take_msg_type(s) matches Ok((_, r)) ==> behind(r, s, 2),
{
    reveal(take_msg_type);
    lemma_behind_take_u16_le(s);
}

pub fn read_msg_type<'a>(input: &'a [u8]) -> (r: Result<(CephMsgType, &'a [u8]), SerialError>)
    ensures
        decoded(r) == take_msg_type(input@),
{
    proof {
        reveal(take_msg_type);
    }
    let (code, rest) = le_u16(input)?;
    match CephMsgType::from_u16(code) {
        Some(e) => Ok((e, rest)),
        None => Err(
            SerialError::InvalidEnumValue {
                field: WireField::MessageType,
                code: code as u64,
            },
        ),
    }
}

pub fn put_msg_type(buf: &mut Vec<u8>, e: CephMsgType)
    ensures
        final(buf)@ == old(buf)@ + msg_type_bytes(e),
{
    put_u16_le(buf, e.code());
}

/// The steps of this module, each leaving what stood behind the bytes that it took.
pub broadcast group group_behind_code {
    lemma_behind_take_entity,
    lemma_behind_take_entity_u32,
    lemma_behind_take_protocol,
    lemma_behind_take_auth_protocol,
    lemma_behind_take_priority,
    lemma_behind_take_tag,
    lemma_behind_take_msg_type,
}

/// The steps of this module, each undoing the bytes of its value.
pub broadcast group group_take_code {
    lemma_take_entity,
    lemma_take_entity_u32,
    lemma_take_protocol,
    lemma_take_auth_protocol,
    lemma_take_priority,
    lemma_take_tag,
    lemma_take_msg_type,
}

} // verus!
