use vstd::prelude::*;
use crate::error::ModbusError;

verus! {

/// What a MODBUS transport variant provides to frame ADUs out of a received byte buffer.
///
/// Every operation is a pure function of the buffer's bytes: each contract pins the result to
/// a spec function of `data@`, so repeating a call on an unchanged buffer gives the same result.
/// None of them has a precondition: any buffer is accepted and answered with a value or an error.
pub trait ModbusProtocol {
    /// The variant's own header.
    type Header;

    /// The largest legal ADU of this variant; callers size buffers and reject oversized
    /// length fields with it.
    const ADU_MAX_LENGTH: usize;

    /// The total length of the first ADU, or why it is not known yet.
    spec fn spec_adu_length(data: Seq<u8>) -> Result<usize, ModbusError>;

    /// The header of the first ADU, or why it cannot be read yet.
    spec fn spec_adu_header(data: Seq<u8>) -> Result<Self::Header, ModbusError>;

    /// Whether the buffer starts with a complete, well-formed ADU.
    spec fn spec_adu_check(data: Seq<u8>) -> Result<(), ModbusError>;

    /// The PDU bytes of the first ADU, or the failure of the check.
    spec fn spec_pdu_body(data: Seq<u8>) -> Result<Seq<u8>, ModbusError>;

    /// Total length of the first ADU, from the bytes that determine it.
    fn adu_length(data: &[u8]) -> (r: Result<usize, ModbusError>)
        ensures
            r == Self::spec_adu_length(data@),
    ;

    /// Header of the first ADU; needs the header bytes only.
    fn adu_header(data: &[u8]) -> (r: Result<Self::Header, ModbusError>)
        ensures
            r == Self::spec_adu_header(data@),
    ;

    /// Succeeds when the buffer starts with a complete, well-formed ADU.
    fn adu_check(data: &[u8]) -> (r: Result<(), ModbusError>)
        ensures
            r == Self::spec_adu_check(data@),
    ;

    /// The PDU of the first ADU, borrowed from the buffer; fails as `adu_check` does.
    fn pdu_body(data: &[u8]) -> (r: Result<&[u8], ModbusError>)
        ensures
            match r {
                Ok(body) => Self::spec_pdu_body(data@) == Ok::<Seq<u8>, ModbusError>(body@),
                Err(e) => Self::spec_pdu_body(data@) == Err::<Seq<u8>, ModbusError>(e),
            },
    ;
}

} // verus!
