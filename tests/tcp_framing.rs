use modbus::{ModbusError, ModbusProtocol, TcpModbus, TcpModbusHeader};

/// transaction 1, protocol 0, length 2, unit 0x11, function code 0x03
const ADU: [u8; 8] = [0x00, 0x01, 0x00, 0x00, 0x00, 0x02, 0x11, 0x03];

fn header_fields(h: &TcpModbusHeader) -> (u16, u16, u16, u8) {
    (h.transaction_id, h.protocol_id, h.length, h.unit_id)
}

#[test]
fn short_buffers_have_no_length() {
    for n in 0..6 {
        let data = &ADU[..n];
        assert_eq!(TcpModbus::adu_length(data), Err(ModbusError::NotEnoughData));
        assert_eq!(TcpModbus::adu_check(data), Err(ModbusError::NotEnoughData));
        assert_eq!(TcpModbus::pdu_body(data), Err(ModbusError::NotEnoughData));
    }
}

#[test]
fn complete_adu_frames() {
    assert_eq!(TcpModbus::adu_length(&ADU), Ok(8));
    assert_eq!(TcpModbus::adu_check(&ADU), Ok(()));
    let h = TcpModbus::adu_header(&ADU).unwrap();
    assert_eq!(header_fields(&h), (1, 0, 2, 0x11));
    assert_eq!(TcpModbus::pdu_body(&ADU), Ok(&[0x03u8][..]));
}

#[test]
fn truncated_adu_keeps_header() {
    let data = &ADU[..7];
    assert_eq!(TcpModbus::adu_length(data), Ok(8));
    assert_eq!(TcpModbus::adu_check(data), Err(ModbusError::NotEnoughData));
    assert_eq!(TcpModbus::pdu_body(data), Err(ModbusError::NotEnoughData));
    let h = TcpModbus::adu_header(data).unwrap();
    assert_eq!(header_fields(&h), (1, 0, 2, 0x11));
}

#[test]
fn header_needs_seven_bytes() {
    assert_eq!(TcpModbus::adu_header(&ADU[..6]), Err(ModbusError::NotEnoughData));
    assert_eq!(TcpModbus::adu_header(&[]), Err(ModbusError::NotEnoughData));
}

#[test]
fn trailing_byte_left_out_of_pdu() {
    let data = [0x00, 0x01, 0x00, 0x00, 0x00, 0x02, 0x11, 0x03, 0x00];
    assert_eq!(TcpModbus::adu_length(&data), Ok(8));
    assert_eq!(TcpModbus::adu_check(&data), Ok(()));
    assert_eq!(TcpModbus::pdu_body(&data), Ok(&[0x03u8][..]));
}

#[test]
fn longer_pdu_with_next_adu_following() {
    // length 6: unit, function code 0x03, four payload bytes; then the next ADU begins
    let data = [
        0x12, 0x34, 0x00, 0x00, 0x00, 0x06, 0x01, 0x03, 0x00, 0x6B, 0x00, 0x03, 0x12, 0x35,
    ];
    assert_eq!(TcpModbus::adu_length(&data), Ok(12));
    let h = TcpModbus::adu_header(&data).unwrap();
    assert_eq!(header_fields(&h), (0x1234, 0, 6, 0x01));
    assert_eq!(TcpModbus::pdu_body(&data), Ok(&[0x03u8, 0x00, 0x6B, 0x00, 0x03][..]));
}

#[test]
fn repeated_calls_agree() {
    let data = [0x00, 0x01, 0x00, 0x00, 0x00, 0x02, 0x11, 0x03, 0x00];
    assert_eq!(TcpModbus::adu_length(&data), TcpModbus::adu_length(&data));
    assert_eq!(TcpModbus::adu_check(&data), TcpModbus::adu_check(&data));
    assert_eq!(TcpModbus::pdu_body(&data), TcpModbus::pdu_body(&data));
    assert_eq!(TcpModbus::adu_header(&data), TcpModbus::adu_header(&data));
}

#[test]
fn every_small_buffer_answers() {
    let mut data: Vec<u8> = Vec::new();
    for n in 0..=300u32 {
        let _ = TcpModbus::adu_length(&data);
        let _ = TcpModbus::adu_header(&data);
        let _ = TcpModbus::adu_check(&data);
        let _ = TcpModbus::pdu_body(&data);
        data.push((n.wrapping_mul(37) % 7) as u8);
    }
}

#[test]
fn zero_length_field_is_invalid() {
    let data = [0x00, 0x01, 0x00, 0x00, 0x00, 0x00];
    assert_eq!(TcpModbus::adu_length(&data), Ok(6));
    assert_eq!(TcpModbus::adu_check(&data), Err(ModbusError::InvalidLength));
    assert_eq!(TcpModbus::pdu_body(&data), Err(ModbusError::InvalidLength));
    let longer = [0x00, 0x01, 0x00, 0x00, 0x00, 0x00, 0x11, 0x03];
    assert_eq!(TcpModbus::pdu_body(&longer), Err(ModbusError::InvalidLength));
}

#[test]
fn length_field_one_is_invalid() {
    let data = [0x00, 0x01, 0x00, 0x00, 0x00, 0x01, 0x11];
    assert_eq!(TcpModbus::adu_length(&data), Ok(7));
    assert_eq!(TcpModbus::adu_check(&data), Err(ModbusError::InvalidLength));
}

#[test]
fn largest_length_field() {
    let data = [0x00, 0x00, 0x00, 0x00, 0xFF, 0xFF, 0x01];
    assert_eq!(TcpModbus::adu_length(&data), Ok(65541));
    assert_eq!(TcpModbus::adu_check(&data), Err(ModbusError::NotEnoughData));
    let h = TcpModbus::adu_header(&data).unwrap();
    assert_eq!(header_fields(&h), (0, 0, 0xFFFF, 0x01));
}

#[test]
fn field_readers() {
    let data = [0xAB, 0xCD, 0x12, 0x34, 0x01, 0x02, 0x7F];
    assert_eq!(TcpModbus::transaction_id(&data), Some(0xABCD));
    assert_eq!(TcpModbus::protocol_id(&data), Some(0x1234));
    assert_eq!(TcpModbus::length(&data), Some(0x0102));
    assert_eq!(TcpModbus::unit_id(&data), Some(0x7F));
    assert_eq!(TcpModbus::transaction_id(&data[..1]), None);
    assert_eq!(TcpModbus::protocol_id(&data[..3]), None);
    assert_eq!(TcpModbus::length(&data[..5]), None);
    assert_eq!(TcpModbus::unit_id(&data[..6]), None);
}

#[test]
fn tcp_adu_max_length() {
    assert_eq!(<TcpModbus as ModbusProtocol>::ADU_MAX_LENGTH, 260);
}
