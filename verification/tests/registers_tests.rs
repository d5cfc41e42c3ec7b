use epmon::codec::Command;
use epmon::fixed::FixedPoint;
use epmon::registers::{
    BatteryType, ChargingMode, Rated, Realtime, RealtimeStatus, SettingsError, Stats,
    VoltageSettings, RATED_BASE_ADDRESS, REALTIME_BASE_ADDRESS, REALTIME_STATUS_BASE_ADDRESS,
    STATS_BASE_ADDRESS, VOLTAGE_SETTINGS_BASE_ADDRESS,
};

fn be(v: u16) -> [u8; 2] {
    v.to_be_bytes()
}

#[test]
fn rated_decodes_its_twenty_bytes() {
    let mut bytes = Vec::new();
    bytes.extend_from_slice(&be(1500)); // array rated voltage
    bytes.extend_from_slice(&be(2000)); // array rated current
    bytes.extend_from_slice(&[0x03, 0xE8, 0x00, 0x01]); // array rated power: low 1000, high 1
    bytes.extend_from_slice(&be(1200)); // battery rated voltage
    bytes.extend_from_slice(&be(2100)); // battery rated current
    bytes.extend_from_slice(&[0x00, 0x02, 0x00, 0x00]); // battery rated power: low 2, high 0
    bytes.extend_from_slice(&[0x00, 0x01]); // charging mode register: low byte 1
    bytes.extend_from_slice(&be(3000)); // rated load current
    assert_eq!(bytes.len(), 20);

    let rated = Rated::from_bytes(&bytes);
    assert_eq!(rated.array_rated_voltage.centi, 1500);
    assert_eq!(rated.array_rated_current.centi, 2000);
    assert_eq!(rated.array_rated_power.centi, (1 << 16) + 1000);
    assert_eq!(rated.battery_rated_voltage.centi, 1200);
    assert_eq!(rated.battery_rated_current.centi, 2100);
    assert_eq!(rated.battery_rated_power.centi, 2);
    assert_eq!(rated.charging_mode, ChargingMode::PWM);
    assert_eq!(rated.rated_current_load.centi, 3000);
}

#[test]
fn rated_charging_mode_codes() {
    let mut bytes = vec![0u8; 20];
    bytes[17] = 0;
    assert_eq!(Rated::from_bytes(&bytes).charging_mode, ChargingMode::ConnectDisconnect);
    bytes[17] = 1;
    assert_eq!(Rated::from_bytes(&bytes).charging_mode, ChargingMode::PWM);
    bytes[17] = 2;
    assert_eq!(Rated::from_bytes(&bytes).charging_mode, ChargingMode::MPPT);
    bytes[17] = 200;
    assert_eq!(Rated::from_bytes(&bytes).charging_mode, ChargingMode::MPPT);
}

#[test]
fn rated_requests_cover_its_data_length() {
    let commands = Rated::generate_commands();
    assert_eq!(
        commands,
        vec![
            Command::ModbusGetInputRegisters { register_address: RATED_BASE_ADDRESS, size: 9 },
            Command::ModbusGetInputRegisters {
                register_address: RATED_BASE_ADDRESS + 0x0E,
                size: 1,
            },
        ]
    );
    let total: usize = commands.iter().map(|c| c.size() as usize * 2).sum();
    assert_eq!(total, Rated::data_len());
}

#[test]
fn realtime_decodes_its_thirty_bytes() {
    let mut bytes = Vec::new();
    bytes.extend_from_slice(&be(2500)); // pv voltage
    bytes.extend_from_slice(&be(150)); // pv current
    bytes.extend_from_slice(&[0x00, 0x64, 0x00, 0x00]); // pv power: low 100
    bytes.extend_from_slice(&[0x00, 0xC8, 0x00, 0x01]); // battery power: low 200, high 1
    bytes.extend_from_slice(&be(1250)); // load voltage
    bytes.extend_from_slice(&be(300)); // load current
    bytes.extend_from_slice(&[0x01, 0x2C, 0x00, 0x00]); // load power: low 300
    bytes.extend_from_slice(&be(2055)); // battery temperature
    bytes.extend_from_slice(&be(2155)); // equipment temperature
    bytes.extend_from_slice(&be(87)); // remaining capacity percent
    bytes.extend_from_slice(&be(2255)); // remote battery temperature
    bytes.extend_from_slice(&be(9900)); // battery real rated power
    assert_eq!(bytes.len(), 30);

    let rt = Realtime::from_bytes(&bytes);
    assert_eq!(rt.pv_voltage.centi, 2500);
    assert_eq!(rt.pv_current.centi, 150);
    assert_eq!(rt.pv_power.centi, 100);
    assert_eq!(rt.battery_power.centi, (1 << 16) + 200);
    assert_eq!(rt.load_voltage.centi, 1250);
    assert_eq!(rt.load_current.centi, 300);
    assert_eq!(rt.load_power.centi, 300);
    assert_eq!(rt.battery_temperature.centi, 2055);
    assert_eq!(rt.equipment_temperature.centi, 2155);
    assert_eq!(rt.remaining_battery_capacity, 87);
    assert_eq!(rt.remote_battery_temperature.centi, 2255);
    assert_eq!(rt.battery_real_rated_power.centi, 9900);
}

#[test]
fn realtime_requests_cover_its_data_length() {
    let commands = Realtime::generate_commands();
    assert_eq!(commands.len(), 5);
    assert_eq!(
        commands[0],
        Command::ModbusGetInputRegisters { register_address: REALTIME_BASE_ADDRESS, size: 4 }
    );
    assert_eq!(
        commands[4],
        Command::ModbusGetInputRegisters {
            register_address: REALTIME_BASE_ADDRESS + 0x1D,
            size: 1,
        }
    );
    let total: usize = commands.iter().map(|c| c.size() as usize * 2).sum();
    assert_eq!(total, Realtime::data_len());
}

#[test]
fn realtime_status_decodes_three_registers() {
    let mut bytes = Vec::new();
    bytes.extend_from_slice(&be(0b1_0000_0001));
    bytes.extend_from_slice(&be(0b0000_0101));
    bytes.extend_from_slice(&be(0b0000_0011));
    let st = RealtimeStatus::from_bytes(&bytes);
    assert_eq!(st.battery_status.0, 0b1_0000_0001);
    assert_eq!(st.charging_equipment_status.0, 0b0000_0101);
    assert_eq!(st.discharging_equipment_status.0, 0b0000_0011);
    assert!(st.battery_status.is_inner_resistance_abnormal());
    assert!(st.charging_equipment_status.is_running());
    assert!(st.discharging_equipment_status.has_fault());

    assert_eq!(
        RealtimeStatus::generate_command(),
        Command::ModbusGetInputRegisters {
            register_address: REALTIME_STATUS_BASE_ADDRESS,
            size: 3,
        }
    );
    assert_eq!(RealtimeStatus::generate_command().size() as usize * 2, RealtimeStatus::data_len());
}

#[test]
fn stats_decodes_and_reads_counters() {
    let ev_regs: [u16; 20] = [
        1000, 900, 1300, 1200, // daily voltage extremes
        5, 1, // consumed day: low, high
        6, 2, // consumed month
        7, 3, // consumed year
        8, 4, // consumed total
        9, 5, // generated day
        10, 6, // generated month
        11, 7, // generated year
        12, 8, // generated total
    ];
    let battery_regs: [u16; 3] = [1280, 100, 2];
    let mut ev = Vec::new();
    for r in ev_regs {
        ev.extend_from_slice(&be(r));
    }
    let mut bat = Vec::new();
    for r in battery_regs {
        bat.extend_from_slice(&be(r));
    }
    let stats = Stats::from_bytes(&ev, &bat);

    assert_eq!(stats.max_pv_voltage_day().centi, 1000);
    assert_eq!(stats.min_pv_voltage_day().centi, 900);
    assert_eq!(stats.max_battery_voltage_day().centi, 1300);
    assert_eq!(stats.min_battery_voltage_day().centi, 1200);
    assert_eq!(stats.consumed_energy_day().centi, (1 << 16) + 5);
    assert_eq!(stats.consumed_energy_month().centi, (2 << 16) + 6);
    assert_eq!(stats.consumed_energy_year().centi, (3 << 16) + 7);
    assert_eq!(stats.consumed_energy_total().centi, (4 << 16) + 8);
    assert_eq!(stats.generated_energy_day().centi, (5 << 16) + 9);
    assert_eq!(stats.generated_energy_month().centi, (6 << 16) + 10);
    assert_eq!(stats.generated_energy_year().centi, (7 << 16) + 11);
    assert_eq!(stats.generated_energy_total().centi, (8 << 16) + 12);
    assert_eq!(stats.battery_voltage().centi, 1280);
    assert_eq!(stats.battery_current().centi, (2 << 16) + 100);
}

#[test]
fn stats_requests_fetch_both_register_blocks() {
    assert_eq!(
        Stats::generate_get_commands(),
        vec![
            Command::ModbusGetInputRegisters { register_address: STATS_BASE_ADDRESS, size: 20 },
            Command::ModbusGetInputRegisters {
                register_address: STATS_BASE_ADDRESS + 26,
                size: 3,
            },
        ]
    );
}

fn valid_settings() -> VoltageSettings {
    VoltageSettings {
        battery_type: BatteryType::UserDefined,
        battery_capacity: 200,
        temperature_compensation_coefficient: 300,
        over_voltage_disconnect: FixedPoint { centi: 1500 },
        charging_limit_voltage: FixedPoint { centi: 1470 },
        over_voltage_reconnect: FixedPoint { centi: 1470 },
        equalization_voltage: FixedPoint { centi: 1460 },
        boost_voltage: FixedPoint { centi: 1460 },
        float_voltage: FixedPoint { centi: 1380 },
        boost_reconnect_voltage: FixedPoint { centi: 1320 },
        low_voltage_reconnect_voltage: FixedPoint { centi: 1260 },
        under_voltage_recover_voltage: FixedPoint { centi: 1220 },
        under_voltage_warning_voltage: FixedPoint { centi: 1200 },
        low_voltage_disconnect_voltage: FixedPoint { centi: 1110 },
        discharging_limit_voltage: FixedPoint { centi: 1060 },
    }
}

#[test]
fn settings_decode_matches_their_bytes() {
    let s = valid_settings();
    let mut bytes = Vec::new();
    bytes.extend_from_slice(&be(0)); // user-defined battery type
    bytes.extend_from_slice(&be(200));
    bytes.extend_from_slice(&be(300));
    for centi in [1500, 1470, 1470, 1460, 1460, 1380, 1320, 1260, 1220, 1200, 1110, 1060] {
        bytes.extend_from_slice(&be(centi));
    }
    assert_eq!(bytes.len(), VoltageSettings::data_len());
    assert_eq!(VoltageSettings::from_bytes(&bytes), s);
}

#[test]
fn settings_get_and_set_commands() {
    assert_eq!(
        VoltageSettings::generate_get_command(),
        Command::ModbusGetHoldings { register_address: VOLTAGE_SETTINGS_BASE_ADDRESS, size: 15 }
    );
    let s = valid_settings();
    let command = s.generate_set_command();
    match command {
        Command::ModbusSetHoldings { register_address, new_holding_values } => {
            assert_eq!(register_address, VOLTAGE_SETTINGS_BASE_ADDRESS);
            assert_eq!(new_holding_values.v0, 0); // user-defined code
            assert_eq!(new_holding_values.v1, 200);
            assert_eq!(new_holding_values.v2, 300);
            assert_eq!(new_holding_values.v3, 1500);
            assert_eq!(new_holding_values.v14, 1060);
        }
        other => panic!("expected a write-holdings command, got {:?}", other),
    }
    // The written block decodes back to the same settings record.
    let frame = command.to_bytes();
    let decoded = Command::try_from_bytes(&frame).expect("set command frame should decode");
    assert_eq!(decoded, command);
}

#[test]
fn settings_check_accepts_a_consistent_block() {
    assert_eq!(valid_settings().check_settings_lifepo4(), Ok(()));
}

#[test]
fn settings_check_reports_each_broken_rule() {
    let base = valid_settings;

    let mut s = base();
    s.over_voltage_disconnect = FixedPoint { centi: 1470 };
    assert_eq!(
        s.check_settings_lifepo4(),
        Err(SettingsError::OverVoltageDisconnectNotAboveReconnect)
    );

    let mut s = base();
    s.over_voltage_reconnect = FixedPoint { centi: 1460 };
    assert_eq!(
        s.check_settings_lifepo4(),
        Err(SettingsError::OverVoltageReconnectNotChargingLimit)
    );

    let mut s = base();
    s.equalization_voltage = FixedPoint { centi: 1480 };
    assert_eq!(s.check_settings_lifepo4(), Err(SettingsError::ChargingLimitBelowEqualization));

    let mut s = base();
    s.boost_voltage = FixedPoint { centi: 1450 };
    assert_eq!(s.check_settings_lifepo4(), Err(SettingsError::EqualizationNotBoost));

    let mut s = base();
    s.equalization_voltage = FixedPoint { centi: 1300 };
    s.boost_voltage = FixedPoint { centi: 1300 };
    assert_eq!(s.check_settings_lifepo4(), Err(SettingsError::BoostBelowFloat));

    let mut s = base();
    s.float_voltage = FixedPoint { centi: 1320 };
    assert_eq!(s.check_settings_lifepo4(), Err(SettingsError::FloatNotAboveBoostReconnect));

    let mut s = base();
    s.boost_reconnect_voltage = FixedPoint { centi: 1260 };
    assert_eq!(
        s.check_settings_lifepo4(),
        Err(SettingsError::BoostReconnectNotAboveLowVoltageReconnect)
    );

    let mut s = base();
    s.low_voltage_reconnect_voltage = FixedPoint { centi: 1110 };
    assert_eq!(
        s.check_settings_lifepo4(),
        Err(SettingsError::LowVoltageReconnectNotAboveDisconnect)
    );

    let mut s = base();
    s.low_voltage_disconnect_voltage = FixedPoint { centi: 1050 };
    assert_eq!(
        s.check_settings_lifepo4(),
        Err(SettingsError::LowVoltageDisconnectBelowDischargingLimit)
    );

    let mut s = base();
    s.under_voltage_recover_voltage = FixedPoint { centi: 1200 };
    assert_eq!(
        s.check_settings_lifepo4(),
        Err(SettingsError::UnderVoltageRecoverNotAboveWarning)
    );

    let mut s = base();
    s.under_voltage_warning_voltage = FixedPoint { centi: 1050 };
    assert_eq!(
        s.check_settings_lifepo4(),
        Err(SettingsError::UnderVoltageWarningBelowDischargingLimit)
    );

    let mut s = base();
    s.low_voltage_disconnect_voltage = FixedPoint { centi: 1070 };
    assert_eq!(
        s.check_settings_lifepo4(),
        Err(SettingsError::LowVoltageDisconnectMarginTooSmall)
    );

    let mut s = base();
    s.over_voltage_disconnect = FixedPoint { centi: 1480 };
    assert_eq!(
        s.check_settings_lifepo4(),
        Err(SettingsError::OverVoltageDisconnectMarginTooSmall)
    );

    let mut s = base();
    s.battery_type = BatteryType::Sealed;
    assert_eq!(s.check_settings_lifepo4(), Err(SettingsError::BatteryTypeNotUserDefined));
}

#[test]
fn battery_type_codes_round_trip() {
    for (ty, code) in [
        (BatteryType::UserDefined, 0u16),
        (BatteryType::Sealed, 1),
        (BatteryType::Gel, 2),
        (BatteryType::Flooded, 3),
        (BatteryType::LFP8S, 5),
    ] {
        assert_eq!(ty.code(), code);
        assert_eq!(BatteryType::from_raw(code), ty);
    }
    assert_eq!(BatteryType::from_raw(4), BatteryType::OutOfBounds);
    assert_eq!(BatteryType::from_raw(6), BatteryType::OutOfBounds);
    assert_eq!(BatteryType::from_raw(999), BatteryType::OutOfBounds);
    assert_eq!(BatteryType::OutOfBounds.code(), 6);
}
