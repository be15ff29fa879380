//! The closed enumerations of the protocol and their one-byte wire codes.
//!
//! The numeric value of every variant is part of the wire contract shared with
//! the firmware, so each enumeration states its code explicitly and the two
//! directions of the mapping are proved inverse to each other.

use vstd::prelude::*;

verus! {

/// Kind tag of a payload: the first byte of every encoded payload.
#[derive(Debug, Eq, PartialEq, Copy, Clone, Structural)]
pub enum PayloadType {
    PtAck,
    PtFail,
    PtPinmode,
    PtReadpin,
    PtReadpinreply,
    PtWritepin,
    PtReadmem,
    PtReadmemreply,
    PtWritemem,
    PtReadinfo,
    PtReadinforeply,
    PtReadhumidity,
    PtReadhumidityreply,
    PtReadtemperature,
    PtReadtemperaturereply,
    PtReadanalog,
    PtReadanalogreply,
    PtReadfield,
    PtReadfieldreply,
}

impl PayloadType {
    /// The wire code of the variant.
    pub open spec fn code(self) -> u8 {
        match self {
            PayloadType::PtAck => 0u8,
            PayloadType::PtFail => 1u8,
            PayloadType::PtPinmode => 2u8,
            PayloadType::PtReadpin => 3u8,
            PayloadType::PtReadpinreply => 4u8,
            PayloadType::PtWritepin => 5u8,
            PayloadType::PtReadmem => 6u8,
            PayloadType::PtReadmemreply => 7u8,
            PayloadType::PtWritemem => 8u8,
            PayloadType::PtReadinfo => 9u8,
            PayloadType::PtReadinforeply => 10u8,
            PayloadType::PtReadhumidity => 11u8,
            PayloadType::PtReadhumidityreply => 12u8,
            PayloadType::PtReadtemperature => 13u8,
            PayloadType::PtReadtemperaturereply => 14u8,
            PayloadType::PtReadanalog => 15u8,
            PayloadType::PtReadanalogreply => 16u8,
            PayloadType::PtReadfield => 17u8,
            PayloadType::PtReadfieldreply => 18u8,
        }
    }

    /// The variant that a wire code stands for, if any.
    pub open spec fn from_code(code: u8) -> Option<PayloadType> {
        if code == 0 {
            Some(PayloadType::PtAck)
        } else if code == 1 {
            Some(PayloadType::PtFail)
        } else if code == 2 {
            Some(PayloadType::PtPinmode)
        } else if code == 3 {
            Some(PayloadType::PtReadpin)
        } else if code == 4 {
            Some(PayloadType::PtReadpinreply)
        } else if code == 5 {
            Some(PayloadType::PtWritepin)
        } else if code == 6 {
            Some(PayloadType::PtReadmem)
        } else if code == 7 {
            Some(PayloadType::PtReadmemreply)
        } else if code == 8 {
            Some(PayloadType::PtWritemem)
        } else if code == 9 {
            Some(PayloadType::PtReadinfo)
        } else if code == 10 {
            Some(PayloadType::PtReadinforeply)
        } else if code == 11 {
            Some(PayloadType::PtReadhumidity)
        } else if code == 12 {
            Some(PayloadType::PtReadhumidityreply)
        } else if code == 13 {
            Some(PayloadType::PtReadtemperature)
        } else if code == 14 {
            Some(PayloadType::PtReadtemperaturereply)
        } else if code == 15 {
            Some(PayloadType::PtReadanalog)
        } else if code == 16 {
            Some(PayloadType::PtReadanalogreply)
        } else if code == 17 {
            Some(PayloadType::PtReadfield)
        } else if code == 18 {
            Some(PayloadType::PtReadfieldreply)
        } else {
            None
        }
    }

    /// The wire code of the variant as a byte.
    pub fn to_u8(self) -> (code: u8)
        ensures
            code == self.code(),
    {
        match self {
            PayloadType::PtAck => 0,
            PayloadType::PtFail => 1,
            PayloadType::PtPinmode => 2,
            PayloadType::PtReadpin => 3,
            PayloadType::PtReadpinreply => 4,
            PayloadType::PtWritepin => 5,
            PayloadType::PtReadmem => 6,
            PayloadType::PtReadmemreply => 7,
            PayloadType::PtWritemem => 8,
            PayloadType::PtReadinfo => 9,
            PayloadType::PtReadinforeply => 10,
            PayloadType::PtReadhumidity => 11,
            PayloadType::PtReadhumidityreply => 12,
            PayloadType::PtReadtemperature => 13,
            PayloadType::PtReadtemperaturereply => 14,
            PayloadType::PtReadanalog => 15,
            PayloadType::PtReadanalogreply => 16,
            PayloadType::PtReadfield => 17,
            PayloadType::PtReadfieldreply => 18,
        }
    }

    /// Reads a wire code; `None` exactly for the bytes above 18.
    pub fn from_u8(code: u8) -> (found: Option<PayloadType>)
        ensures
            found == PayloadType::from_code(code),
            found is None <==> code > 18,
    {
        match code {
            0 => Some(PayloadType::PtAck),
            1 => Some(PayloadType::PtFail),
            2 => Some(PayloadType::PtPinmode),
            3 => Some(PayloadType::PtReadpin),
            4 => Some(PayloadType::PtReadpinreply),
            5 => Some(PayloadType::PtWritepin),
            6 => Some(PayloadType::PtReadmem),
            7 => Some(PayloadType::PtReadmemreply),
            8 => Some(PayloadType::PtWritemem),
            9 => Some(PayloadType::PtReadinfo),
            10 => Some(PayloadType::PtReadinforeply),
            11 => Some(PayloadType::PtReadhumidity),
            12 => Some(PayloadType::PtReadhumidityreply),
            13 => Some(PayloadType::PtReadtemperature),
            14 => Some(PayloadType::PtReadtemperaturereply),
            15 => Some(PayloadType::PtReadanalog),
            16 => Some(PayloadType::PtReadanalogreply),
            17 => Some(PayloadType::PtReadfield),
            18 => Some(PayloadType::PtReadfieldreply),
            _ => None,
        }
    }

    /// Every variant is read back from its own code, and every code that is
    /// read gives a variant that has that code.
    pub proof fn lemma_code_round_trip(self)
        ensures
            self.code() <= 18,
            PayloadType::from_code(self.code()) == Some(self),
    {
    }

    /// A code that names a variant is that variant's code.
    pub proof fn lemma_from_code_sound(code: u8)
        ensures
            PayloadType::from_code(code) matches Some(v) ==> v.code() == code,
            PayloadType::from_code(code) is Some <==> code <= 18,
    {
    }
}

/// Outcome of an operation; carried as the single data byte of a `Fail` payload.
#[derive(Debug, Eq, PartialEq, Copy, Clone, Structural)]
pub enum ResultCode {
    RcOk,
    RcNoMessageReceived,
    RcInvalidMessageType,
    RcInvalidPinNumber,
    RcInvalidMemAddress,
    RcInvalidMemLength,
    RcInvalidReplyMessage,
    RcOperationForbidden,
    RcReplyTimeout,
    RcRhRouterErrorInvalidLength,
    RcRhRouterErrorNoRoute,
    RcRhRouterErrorTimeout,
    RcRhRouterErrorNoReply,
    RcRhRouterErrorUnableToDeliver,
    RcInvalidRhRouterError,
    RcCount,
}

impl ResultCode {
    /// The wire code of the variant.
    pub open spec fn code(self) -> u8 {
        match self {
            ResultCode::RcOk => 0u8,
            ResultCode::RcNoMessageReceived => 1u8,
            ResultCode::RcInvalidMessageType => 2u8,
            ResultCode::RcInvalidPinNumber => 3u8,
            ResultCode::RcInvalidMemAddress => 4u8,
            ResultCode::RcInvalidMemLength => 5u8,
            ResultCode::RcInvalidReplyMessage => 6u8,
            ResultCode::RcOperationForbidden => 7u8,
            ResultCode::RcReplyTimeout => 8u8,
            ResultCode::RcRhRouterErrorInvalidLength => 9u8,
            ResultCode::RcRhRouterErrorNoRoute => 10u8,
            ResultCode::RcRhRouterErrorTimeout => 11u8,
            ResultCode::RcRhRouterErrorNoReply => 12u8,
            ResultCode::RcRhRouterErrorUnableToDeliver => 13u8,
            ResultCode::RcInvalidRhRouterError => 14u8,
            ResultCode::RcCount => 15u8,
        }
    }

    /// The variant that a wire code stands for, if any.
    pub open spec fn from_code(code: u8) -> Option<ResultCode> {
        if code == 0 {
            Some(ResultCode::RcOk)
        } else if code == 1 {
            Some(ResultCode::RcNoMessageReceived)
        } else if code == 2 {
            Some(ResultCode::RcInvalidMessageType)
        } else if code == 3 {
            Some(ResultCode::RcInvalidPinNumber)
        } else if code == 4 {
            Some(ResultCode::RcInvalidMemAddress)
        } else if code == 5 {
            Some(ResultCode::RcInvalidMemLength)
        } else if code == 6 {
            Some(ResultCode::RcInvalidReplyMessage)
        } else if code == 7 {
            Some(ResultCode::RcOperationForbidden)
        } else if code == 8 {
            Some(ResultCode::RcReplyTimeout)
        } else if code == 9 {
            Some(ResultCode::RcRhRouterErrorInvalidLength)
        } else if code == 10 {
            Some(ResultCode::RcRhRouterErrorNoRoute)
        } else if code == 11 {
            Some(ResultCode::RcRhRouterErrorTimeout)
        } else if code == 12 {
            Some(ResultCode::RcRhRouterErrorNoReply)
        } else if code == 13 {
            Some(ResultCode::RcRhRouterErrorUnableToDeliver)
        } else if code == 14 {
            Some(ResultCode::RcInvalidRhRouterError)
        } else if code == 15 {
            Some(ResultCode::RcCount)
        } else {
            None
        }
    }

    /// The wire code of the variant as a byte.
    pub fn to_u8(self) -> (code: u8)
        ensures
            code == self.code(),
    {
        match self {
            ResultCode::RcOk => 0,
            ResultCode::RcNoMessageReceived => 1,
            ResultCode::RcInvalidMessageType => 2,
            ResultCode::RcInvalidPinNumber => 3,
            ResultCode::RcInvalidMemAddress => 4,
            ResultCode::RcInvalidMemLength => 5,
            ResultCode::RcInvalidReplyMessage => 6,
            ResultCode::RcOperationForbidden => 7,
            ResultCode::RcReplyTimeout => 8,
            ResultCode::RcRhRouterErrorInvalidLength => 9,
            ResultCode::RcRhRouterErrorNoRoute => 10,
            ResultCode::RcRhRouterErrorTimeout => 11,
            ResultCode::RcRhRouterErrorNoReply => 12,
            ResultCode::RcRhRouterErrorUnableToDeliver => 13,
            ResultCode::RcInvalidRhRouterError => 14,
            ResultCode::RcCount => 15,
        }
    }

    /// Reads a wire code; `None` exactly for the bytes above 15.
    pub fn from_u8(code: u8) -> (found: Option<ResultCode>)
        ensures
            found == ResultCode::from_code(code),
            found is None <==> code > 15,
    {
        match code {
            0 => Some(ResultCode::RcOk),
            1 => Some(ResultCode::RcNoMessageReceived),
            2 => Some(ResultCode::RcInvalidMessageType),
            3 => Some(ResultCode::RcInvalidPinNumber),
            4 => Some(ResultCode::RcInvalidMemAddress),
            5 => Some(ResultCode::RcInvalidMemLength),
            6 => Some(ResultCode::RcInvalidReplyMessage),
            7 => Some(ResultCode::RcOperationForbidden),
            8 => Some(ResultCode::RcReplyTimeout),
            9 => Some(ResultCode::RcRhRouterErrorInvalidLength),
            10 => Some(ResultCode::RcRhRouterErrorNoRoute),
            11 => Some(ResultCode::RcRhRouterErrorTimeout),
            12 => Some(ResultCode::RcRhRouterErrorNoReply),
            13 => Some(ResultCode::RcRhRouterErrorUnableToDeliver),
            14 => Some(ResultCode::RcInvalidRhRouterError),
            15 => Some(ResultCode::RcCount),
            _ => None,
        }
    }

    /// Every variant is read back from its own code, and every code that is
    /// read gives a variant that has that code.
    pub proof fn lemma_code_round_trip(self)
        ensures
            self.code() <= 15,
            ResultCode::from_code(self.code()) == Some(self),
    {
    }

    /// A code that names a variant is that variant's code.
    pub proof fn lemma_from_code_sound(code: u8)
        ensures
            ResultCode::from_code(code) matches Some(v) ==> v.code() == code,
            ResultCode::from_code(code) is Some <==> code <= 15,
    {
    }
}

/// In-memory layout of a named field in a remote node's memory map.
#[derive(Debug, Eq, PartialEq, Copy, Clone, Structural)]
pub enum FieldFormat {
    FfString,
    FfFloat,
    FfUint8,
    FfUint16,
    FfUint32,
    FfInt8,
    FfInt16,
    FfInt32,
    FfOther,
}

impl FieldFormat {
    /// The wire code of the variant.
    pub open spec fn code(self) -> u8 {
        match self {
            FieldFormat::FfString => 0u8,
            FieldFormat::FfFloat => 1u8,
            FieldFormat::FfUint8 => 2u8,
            FieldFormat::FfUint16 => 3u8,
            FieldFormat::FfUint32 => 4u8,
            FieldFormat::FfInt8 => 5u8,
            FieldFormat::FfInt16 => 6u8,
            FieldFormat::FfInt32 => 7u8,
            FieldFormat::FfOther => 8u8,
        }
    }

    /// The variant that a wire code stands for, if any.
    pub open spec fn from_code(code: u8) -> Option<FieldFormat> {
        if code == 0 {
            Some(FieldFormat::FfString)
        } else if code == 1 {
            Some(FieldFormat::FfFloat)
        } else if code == 2 {
            Some(FieldFormat::FfUint8)
        } else if code == 3 {
            Some(FieldFormat::FfUint16)
        } else if code == 4 {
            Some(FieldFormat::FfUint32)
        } else if code == 5 {
            Some(FieldFormat::FfInt8)
        } else if code == 6 {
            Some(FieldFormat::FfInt16)
        } else if code == 7 {
            Some(FieldFormat::FfInt32)
        } else if code == 8 {
            Some(FieldFormat::FfOther)
        } else {
            None
        }
    }

    /// The wire code of the variant as a byte.
    pub fn to_u8(self) -> (code: u8)
        ensures
            code == self.code(),
    {
        match self {
            FieldFormat::FfString => 0,
            FieldFormat::FfFloat => 1,
            FieldFormat::FfUint8 => 2,
            FieldFormat::FfUint16 => 3,
            FieldFormat::FfUint32 => 4,
            FieldFormat::FfInt8 => 5,
            FieldFormat::FfInt16 => 6,
            FieldFormat::FfInt32 => 7,
            FieldFormat::FfOther => 8,
        }
    }

    /// Reads a wire code; `None` exactly for the bytes above 8.
    pub fn from_u8(code: u8) -> (found: Option<FieldFormat>)
        ensures
            found == FieldFormat::from_code(code),
            found is None <==> code > 8,
    {
        match code {
            0 => Some(FieldFormat::FfString),
            1 => Some(FieldFormat::FfFloat),
            2 => Some(FieldFormat::FfUint8),
            3 => Some(FieldFormat::FfUint16),
            4 => Some(FieldFormat::FfUint32),
            5 => Some(FieldFormat::FfInt8),
            6 => Some(FieldFormat::FfInt16),
            7 => Some(FieldFormat::FfInt32),
            8 => Some(FieldFormat::FfOther),
            _ => None,
        }
    }

    /// Every variant is read back from its own code, and every code that is
    /// read gives a variant that has that code.
    pub proof fn lemma_code_round_trip(self)
        ensures
            self.code() <= 8,
            FieldFormat::from_code(self.code()) == Some(self),
    {
    }

    /// A code that names a variant is that variant's code.
    pub proof fn lemma_from_code_sound(code: u8)
        ensures
            FieldFormat::from_code(code) matches Some(v) ==> v.code() == code,
            FieldFormat::from_code(code) is Some <==> code <= 8,
    {
    }
}

} // verus!
