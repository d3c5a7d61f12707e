use vstd::prelude::*;

verus! {

/// Why a framing operation could not produce its result.
#[derive(Debug, Clone, Copy, PartialEq, Eq, Structural)]
pub enum ModbusError {
    /// The buffer does not yet hold the bytes the operation needs; read more and retry.
    NotEnoughData,
    /// The length field announces an ADU too short to hold a function code.
    InvalidLength,
}

} // verus!
