use epmon::codec::{BufferType, Command, DecodeError, HoldingValues, COMMAND_SIZE};

fn round_trip(c: Command) {
    let bytes = c.to_bytes();
    assert_eq!(bytes.len(), COMMAND_SIZE);
    let back = Command::try_from_bytes(&bytes).expect("frame should decode");
    assert_eq!(back, c);
}

#[test]
fn every_variant_round_trips() {
    round_trip(Command::GetVoltageIntervalms);
    round_trip(Command::GetPowerIntervalms);
    round_trip(Command::GetVoltageBufferSize);
    round_trip(Command::GetBuffer(BufferType::PVVoltage));
    round_trip(Command::GetBuffer(BufferType::PVPower));
    round_trip(Command::GetBuffer(BufferType::Battery1Voltage));
    round_trip(Command::GetBuffer(BufferType::BatteryPackVoltage));
    round_trip(Command::GetBuffer(BufferType::InverterPower));
    round_trip(Command::RetransmitBuffers);
    round_trip(Command::ModbusGetHoldings { register_address: 0x9000, size: 15 });
    round_trip(Command::ModbusGetInputRegisters { register_address: 0x3100, size: 4 });
}

#[test]
fn write_holdings_round_trips_all_fifteen_values() {
    let vals = HoldingValues {
        v0: 0,
        v1: 1,
        v2: 0xFFFF,
        v3: 2450,
        v4: 2450,
        v5: 2450,
        v6: 2400,
        v7: 2400,
        v8: 2350,
        v9: 2300,
        v10: 2250,
        v11: 2200,
        v12: 2150,
        v13: 2100,
        v14: 2050,
    };
    round_trip(Command::ModbusSetHoldings { register_address: 0x9000, new_holding_values: vals });
}

#[test]
fn frames_are_fixed_length_and_zero_padded() {
    let bytes = Command::GetVoltageIntervalms.to_bytes();
    assert_eq!(bytes.len(), 33);
    assert_eq!(bytes[0], 0);
    assert!(bytes[1..].iter().all(|b| *b == 0));

    let bytes = Command::GetBuffer(BufferType::Battery1Voltage).to_bytes();
    assert_eq!(bytes[0], 3);
    assert_eq!(bytes[1], 2);
    assert!(bytes[2..].iter().all(|b| *b == 0));

    let bytes = Command::ModbusGetHoldings { register_address: 0x1234, size: 7 }.to_bytes();
    assert_eq!(&bytes[..4], &[5, 0x12, 0x34, 7]);
    assert!(bytes[4..].iter().all(|b| *b == 0));
}

#[test]
fn discriminants_follow_declaration_order() {
    assert_eq!(Command::GetVoltageIntervalms.to_bytes()[0], 0);
    assert_eq!(Command::GetPowerIntervalms.to_bytes()[0], 1);
    assert_eq!(Command::GetVoltageBufferSize.to_bytes()[0], 2);
    assert_eq!(Command::GetBuffer(BufferType::PVVoltage).to_bytes()[0], 3);
    assert_eq!(Command::RetransmitBuffers.to_bytes()[0], 4);
    assert_eq!(Command::ModbusGetHoldings { register_address: 0, size: 0 }.to_bytes()[0], 5);
    assert_eq!(
        Command::ModbusGetInputRegisters { register_address: 0, size: 0 }.to_bytes()[0],
        6
    );
    assert_eq!(
        Command::ModbusSetHoldings {
            register_address: 0,
            new_holding_values: HoldingValues {
                v0: 0, v1: 0, v2: 0, v3: 0, v4: 0, v5: 0, v6: 0, v7: 0,
                v8: 0, v9: 0, v10: 0, v11: 0, v12: 0, v13: 0, v14: 0,
            },
        }
        .to_bytes()[0],
        7
    );
}

#[test]
fn unknown_discriminant_is_a_decode_failure_not_a_panic() {
    // A 1-byte block with an unassigned discriminant decodes to the typed
    // failure.
    assert_eq!(Command::try_from_bytes(&[9]), Err(DecodeError::Unrecognized));
    assert_eq!(Command::try_from_bytes(&[8]), Err(DecodeError::Unrecognized));
    assert_eq!(Command::try_from_bytes(&[255]), Err(DecodeError::Unrecognized));
}

#[test]
fn empty_and_short_inputs_are_decode_failures() {
    assert_eq!(Command::try_from_bytes(&[]), Err(DecodeError::Unrecognized));
    // Fetch-buffer with no buffer-kind byte.
    assert_eq!(Command::try_from_bytes(&[3]), Err(DecodeError::Unrecognized));
    // Fetch-buffer with an unassigned buffer kind.
    assert_eq!(Command::try_from_bytes(&[3, 9]), Err(DecodeError::Unrecognized));
    // Register reads shorter than address plus count.
    assert_eq!(Command::try_from_bytes(&[5, 1, 2]), Err(DecodeError::Unrecognized));
    assert_eq!(Command::try_from_bytes(&[6, 1]), Err(DecodeError::Unrecognized));
    // Write-holdings with fewer than thirty payload bytes after the
    // address.
    let short = [7u8, 0x90, 0x00, 1, 2, 3];
    assert_eq!(Command::try_from_bytes(&short), Err(DecodeError::Unrecognized));
}

#[test]
fn decode_reads_only_the_leading_bytes() {
    // Trailing padding never disturbs the decode.
    let mut long = vec![5u8, 0x12, 0x34, 9];
    long.extend(std::iter::repeat(0u8).take(40));
    assert_eq!(
        Command::try_from_bytes(&long),
        Ok(Command::ModbusGetHoldings { register_address: 0x1234, size: 9 })
    );
}

#[test]
fn size_reports_register_count() {
    assert_eq!(Command::ModbusGetHoldings { register_address: 0, size: 15 }.size(), 15);
    assert_eq!(Command::ModbusGetInputRegisters { register_address: 0, size: 3 }.size(), 3);
    assert_eq!(Command::GetVoltageIntervalms.size(), 0);
    assert_eq!(Command::RetransmitBuffers.size(), 0);
}

#[test]
fn holding_values_get_reads_in_register_order() {
    let vals = HoldingValues {
        v0: 10, v1: 11, v2: 12, v3: 13, v4: 14, v5: 15, v6: 16, v7: 17,
        v8: 18, v9: 19, v10: 20, v11: 21, v12: 22, v13: 23, v14: 24,
    };
    for i in 0..15 {
        assert_eq!(vals.get(i), 10 + i as u16);
    }
    let z = HoldingValues::zeroed();
    for i in 0..15 {
        assert_eq!(z.get(i), 0);
    }
}
