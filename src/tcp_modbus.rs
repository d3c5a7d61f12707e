use vstd::prelude::*;
use crate::error::ModbusError;
use crate::protocol::ModbusProtocol;
use vstd::slice::slice_subrange;

verus! {

/// TCP MODBUS framing.
///
/// A TCP ADU starts with the MODBUS Application Protocol header (MBAP): a 2-byte transaction
/// id, a 2-byte protocol id, a 2-byte length and a 1-byte unit id, all big-endian. The protocol
/// data unit (PDU) follows at offset 7, starting with the function code.
///
/// The length field counts the bytes after itself, so it covers the unit id (part of the MBAP)
/// and the whole PDU. The total ADU length is therefore the length field plus 6, not plus the
/// 7 bytes of the MBAP.
pub struct TcpModbus;

/// Length of the MBAP header; the PDU starts at this offset.
pub const MBAP_LENGTH: usize = 7;

/// Number of leading ADU bytes that the length field does not count.
pub const EXCLUDED_LENGTH: usize = 6;

/// Smallest length field that leaves room for a function code after the unit id.
pub const MIN_LENGTH_FIELD: u16 = 2;

/// The value of two bytes read as a big-endian 16-bit integer.
pub open spec fn be_u16(hi: u8, lo: u8) -> u16 {
    (hi as int * 256 + lo as int) as u16
}

/// The big-endian 16-bit field at offset `at`, if the buffer holds both of its bytes.
pub open spec fn field_u16(data: Seq<u8>, at: int) -> Option<u16> {
    if 0 <= at && at + 2 <= data.len() {
        Some(be_u16(data[at], data[at + 1]))
    } else {
        None
    }
}

/// The byte at offset `at`, if the buffer holds it.
pub open spec fn field_u8(data: Seq<u8>, at: int) -> Option<u8> {
    if 0 <= at && at < data.len() {
        Some(data[at])
    } else {
        None
    }
}

/// Reads the big-endian 16-bit field at offset `at`.
fn read_u16(data: &[u8], at: usize) -> (r: Option<u16>)
    ensures
        r == field_u16(data@, at as int),
{
    if at < data.len() && data.len() - at >= 2 {
        let hi = data[at];
        let lo = data[at + 1];
        Some((hi as u16) * 256 + (lo as u16))
    } else {
        None
    }
}

impl TcpModbus {
    /// The transaction id, bytes 0 and 1.
    pub fn transaction_id(data: &[u8]) -> (r: Option<u16>)
        ensures
            r == field_u16(data@, 0),
    {
        read_u16(data, 0)
    }

    /// The protocol id, bytes 2 and 3.
    pub fn protocol_id(data: &[u8]) -> (r: Option<u16>)
        ensures
            r == field_u16(data@, 2),
    {
        read_u16(data, 2)
    }

    /// The length field, bytes 4 and 5.
    pub fn length(data: &[u8]) -> (r: Option<u16>)
        ensures
            r == field_u16(data@, 4),
    {
        read_u16(data, 4)
    }

    /// The unit id, byte 6.
    pub fn unit_id(data: &[u8]) -> (r: Option<u8>)
        ensures
            r == field_u8(data@, 6),
    {
        if data.len() > 6 {
            Some(data[6])
        } else {
            None
        }
    }
}

/// TCP MODBUS header fields.
#[derive(Debug, Clone, Copy, PartialEq, Eq, Structural)]
pub struct TcpModbusHeader {
    pub transaction_id: u16,
    pub protocol_id: u16,
    pub length: u16,
    pub unit_id: u8,
}

/// The total ADU length that a length field announces.
pub open spec fn adu_length_of(length: u16) -> usize {
    (length as int + EXCLUDED_LENGTH as int) as usize
}

/// The header read from the first seven bytes, if they are all present.
pub open spec fn header_of(data: Seq<u8>) -> Option<TcpModbusHeader> {
    if data.len() >= MBAP_LENGTH {
        Some(
            TcpModbusHeader {
                transaction_id: be_u16(data[0], data[1]),
                protocol_id: be_u16(data[2], data[3]),
                length: be_u16(data[4], data[5]),
                unit_id: data[6],
            },
        )
    } else {
        None
    }
}

impl ModbusProtocol for TcpModbus {
    type Header = TcpModbusHeader;

    const ADU_MAX_LENGTH: usize = 260;

    open spec fn spec_adu_length(data: Seq<u8>) -> Result<usize, ModbusError> {
        match field_u16(data, 4) {
            Some(length) => Ok(adu_length_of(length)),
            None => Err(ModbusError::NotEnoughData),
        }
    }

    open spec fn spec_adu_header(data: Seq<u8>) -> Result<TcpModbusHeader, ModbusError> {
        match header_of(data) {
            Some(h) => Ok(h),
            None => Err(ModbusError::NotEnoughData),
        }
    }

    open spec fn spec_adu_check(data: Seq<u8>) -> Result<(), ModbusError> {
        match field_u16(data, 4) {
            None => Err(ModbusError::NotEnoughData),
            Some(length) => if length < MIN_LENGTH_FIELD {
                Err(ModbusError::InvalidLength)
            } else if data.len() < adu_length_of(length) {
                Err(ModbusError::NotEnoughData)
            } else {
                Ok(())
            },
        }
    }

    open spec fn spec_pdu_body(data: Seq<u8>) -> Result<Seq<u8>, ModbusError> {
        match Self::spec_adu_check(data) {
            Err(e) => Err(e),
            Ok(()) => {
                let end = adu_length_of(field_u16(data, 4)->Some_0);
                Ok(data.subrange(MBAP_LENGTH as int, end as int))
            },
        }
    }

    fn adu_length(data: &[u8]) -> (r: Result<usize, ModbusError>) {
        match Self::length(data) {
            None => Err(ModbusError::NotEnoughData),
            Some(v) => Ok(v as usize + EXCLUDED_LENGTH),
        }
    }

    fn adu_header(data: &[u8]) -> (r: Result<TcpModbusHeader, ModbusError>) {
        let transaction_id = match Self::transaction_id(data) {
            Some(v) => v,
            None => return Err(ModbusError::NotEnoughData),
        };
        let protocol_id = match Self::protocol_id(data) {
            Some(v) => v,
            None => return Err(ModbusError::NotEnoughData),
        };
        let length = match Self::length(data) {
            Some(v) => v,
            None => return Err(ModbusError::NotEnoughData),
        };
        let unit_id = match Self::unit_id(data) {
            Some(v) => v,
            None => return Err(ModbusError::NotEnoughData),
        };
        Ok(TcpModbusHeader { transaction_id, protocol_id, length, unit_id })
    }

    /// TCP MODBUS carries no checksum: the check is that the length field leaves room for a
    /// function code and that every byte it announces has arrived. A buffer that holds exactly
    /// the ADU passes; no byte beyond it is awaited.
    fn adu_check(data: &[u8]) -> (r: Result<(), ModbusError>) {
        let length = match Self::length(data) {
            Some(v) => v,
            None => return Err(ModbusError::NotEnoughData),
        };
        if length < MIN_LENGTH_FIELD {
            return Err(ModbusError::InvalidLength);
        }
        let adu_length = length as usize + EXCLUDED_LENGTH;
        if data.len() >= adu_length {
            Ok(())
        } else {
            Err(ModbusError::NotEnoughData)
        }
    }

    /// The PDU starts right after the MBAP and ends where the length field says the ADU ends;
    /// bytes of a following ADU are left out.
    fn pdu_body(data: &[u8]) -> (r: Result<&[u8], ModbusError>) {
        match Self::adu_check(data) {
            Err(e) => Err(e),
            Ok(()) => {
                let length = match Self::length(data) {
                    Some(v) => v,
                    None => return Err(ModbusError::NotEnoughData),
                };
                let end = length as usize + EXCLUDED_LENGTH;
                Ok(slice_subrange(data, MBAP_LENGTH, end))
            },
        }
    }
}

/// A buffer shorter than the six bytes that reach through the length field gives no ADU
/// length, and so no check and no PDU: each fails with `NotEnoughData`.
pub proof fn lemma_short_buffer_not_enough_data(data: Seq<u8>)
    requires
        data.len() < EXCLUDED_LENGTH,
    ensures
        TcpModbus::spec_adu_length(data) == Err::<usize, ModbusError>(ModbusError::NotEnoughData),
        TcpModbus::spec_adu_check(data) == Err::<(), ModbusError>(ModbusError::NotEnoughData),
        TcpModbus::spec_pdu_body(data) == Err::<Seq<u8>, ModbusError>(ModbusError::NotEnoughData),
{
}

/// Each operation is a function of the buffer's bytes alone: two calls on equal buffers give
/// equal results, since every operation's contract equates its result with these.
pub proof fn lemma_operations_repeatable(data: Seq<u8>, again: Seq<u8>)
    requires
        data == again,
    ensures
        TcpModbus::spec_adu_length(data) == TcpModbus::spec_adu_length(again),
        TcpModbus::spec_adu_header(data) == TcpModbus::spec_adu_header(again),
        TcpModbus::spec_adu_check(data) == TcpModbus::spec_adu_check(again),
        TcpModbus::spec_pdu_body(data) == TcpModbus::spec_pdu_body(again),
{
}

/// A length field below two announces no function code: the ADU length is still the field
/// plus six, but the check and the PDU fail with `InvalidLength`, however many bytes follow.
pub proof fn lemma_sub_minimum_length_rejected(data: Seq<u8>)
    requires
        data.len() >= EXCLUDED_LENGTH,
        be_u16(data[4], data[5]) < MIN_LENGTH_FIELD,
    ensures
        TcpModbus::spec_adu_length(data) == Ok::<usize, ModbusError>(
            (be_u16(data[4], data[5]) + EXCLUDED_LENGTH) as usize,
        ),
        TcpModbus::spec_adu_check(data) == Err::<(), ModbusError>(ModbusError::InvalidLength),
        TcpModbus::spec_pdu_body(data) == Err::<Seq<u8>, ModbusError>(ModbusError::InvalidLength),
{
}

/// The header needs its seven bytes and nothing more: it is read whenever they are present,
/// complete ADU or not, and bytes after them do not change it.
pub proof fn lemma_header_needs_mbap_only(data: Seq<u8>, rest: Seq<u8>)
    requires
        data.len() >= MBAP_LENGTH,
    ensures
        TcpModbus::spec_adu_header(data) is Ok,
        TcpModbus::spec_adu_header(data + rest) == TcpModbus::spec_adu_header(data),
{
}

/// Once a complete ADU is present, its PDU is exactly the bytes from offset seven up to the
/// ADU length: it holds the function code, and bytes that follow the ADU (the start of the
/// next one) neither join it nor change any result.
pub proof fn lemma_pdu_ends_at_adu_length(data: Seq<u8>, rest: Seq<u8>)
    requires
        TcpModbus::spec_adu_check(data) is Ok,
    ensures
        TcpModbus::spec_adu_length(data) is Ok,
        TcpModbus::spec_pdu_body(data) == Ok::<Seq<u8>, ModbusError>(
            data.subrange(MBAP_LENGTH as int, TcpModbus::spec_adu_length(data)->Ok_0 as int),
        ),
        TcpModbus::spec_pdu_body(data)->Ok_0.len() == TcpModbus::spec_adu_length(data)->Ok_0
            - MBAP_LENGTH,
        TcpModbus::spec_pdu_body(data)->Ok_0.len() >= 1,
        TcpModbus::spec_adu_length(data + rest) == TcpModbus::spec_adu_length(data),
        TcpModbus::spec_adu_check(data + rest) == TcpModbus::spec_adu_check(data),
        TcpModbus::spec_pdu_body(data + rest) == TcpModbus::spec_pdu_body(data),
{
    let joined = data + rest;
    let end = TcpModbus::spec_adu_length(data)->Ok_0 as int;
    assert(joined.subrange(7, end) =~= data.subrange(7, end));
}

} // verus!
