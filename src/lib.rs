//! Framing of MODBUS application data units (ADUs) out of a received byte buffer.

pub mod error;
pub mod protocol;
pub mod tcp_modbus;

pub use error::ModbusError;
pub use protocol::ModbusProtocol;
pub use tcp_modbus::{TcpModbus, TcpModbusHeader};
