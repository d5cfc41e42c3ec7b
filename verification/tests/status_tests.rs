use epmon::status::{
    BatteryStatus, BatteryTemperatureStatus, BatteryVoltageStatus, ChargingEquipmentStatus,
    ChargingStatus, DischargeStatus, DischargingEquipmentStatus, InputVoltStatus, OutputPower,
};

#[test]
fn battery_status_bits() {
    let s = BatteryStatus(0b1_0000_0000);
    assert!(s.is_inner_resistance_abnormal());
    assert!(!s.is_wrong_rated_voltage());

    let s = BatteryStatus(0b1000_0000_0000_0000);
    assert!(!s.is_inner_resistance_abnormal());
    assert!(s.is_wrong_rated_voltage());

    let s = BatteryStatus(0);
    assert!(!s.is_inner_resistance_abnormal());
    assert!(!s.is_wrong_rated_voltage());
}

#[test]
fn battery_voltage_sub_field() {
    assert_eq!(BatteryStatus(0).voltage_status(), BatteryVoltageStatus::Normal);
    assert_eq!(BatteryStatus(1).voltage_status(), BatteryVoltageStatus::OverVolt);
    assert_eq!(BatteryStatus(2).voltage_status(), BatteryVoltageStatus::UnderVolt);
    assert_eq!(BatteryStatus(3).voltage_status(), BatteryVoltageStatus::LowVoltDisconnect);
    assert_eq!(BatteryStatus(4).voltage_status(), BatteryVoltageStatus::Fault);
    assert_eq!(BatteryStatus(0xF).voltage_status(), BatteryVoltageStatus::Fault);
    // Only the low four bits select the voltage status.
    assert_eq!(BatteryStatus(0xFFF0).voltage_status(), BatteryVoltageStatus::Normal);
}

#[test]
fn battery_temperature_sub_field() {
    assert_eq!(BatteryStatus(0x00).temperature_status(), BatteryTemperatureStatus::Normal);
    assert_eq!(BatteryStatus(0x10).temperature_status(), BatteryTemperatureStatus::OverTemp);
    assert_eq!(BatteryStatus(0x20).temperature_status(), BatteryTemperatureStatus::LowTemp);
    assert_eq!(BatteryStatus(0xF0).temperature_status(), BatteryTemperatureStatus::LowTemp);
}

#[test]
fn charging_equipment_bits() {
    let s = ChargingEquipmentStatus(0b01);
    assert!(s.is_running());
    assert!(!s.has_fault());

    let s = ChargingEquipmentStatus(0b10);
    assert!(!s.is_running());
    assert!(s.has_fault());

    assert!(ChargingEquipmentStatus(1 << 4).is_pv_input_short());
    assert!(ChargingEquipmentStatus(1 << 7).is_load_mosfet_short());
    assert!(ChargingEquipmentStatus(1 << 8).is_load_short());
    assert!(ChargingEquipmentStatus(1 << 9).is_load_over_current());
    assert!(ChargingEquipmentStatus(1 << 10).is_input_over_current());
    assert!(ChargingEquipmentStatus(1 << 11).is_anti_reverse_mosfet_short());
    assert!(ChargingEquipmentStatus(1 << 12).is_charging_or_anti_reverse_mosfet_short());
    assert!(ChargingEquipmentStatus(1 << 13).is_charging_mosfet_short());

    let clear = ChargingEquipmentStatus(0);
    assert!(!clear.is_pv_input_short());
    assert!(!clear.is_load_mosfet_short());
    assert!(!clear.is_load_short());
    assert!(!clear.is_load_over_current());
    assert!(!clear.is_input_over_current());
    assert!(!clear.is_anti_reverse_mosfet_short());
    assert!(!clear.is_charging_or_anti_reverse_mosfet_short());
    assert!(!clear.is_charging_mosfet_short());
}

#[test]
fn charging_sub_fields_shift_right_two() {
    assert_eq!(ChargingEquipmentStatus(0b00).charging_status(), ChargingStatus::Off);
    assert_eq!(ChargingEquipmentStatus(0b100).charging_status(), ChargingStatus::Float);
    assert_eq!(ChargingEquipmentStatus(0b1000).charging_status(), ChargingStatus::Boost);
    assert_eq!(ChargingEquipmentStatus(0b1100).charging_status(), ChargingStatus::Equalization);

    assert_eq!(ChargingEquipmentStatus(0b00).input_volt_status(), InputVoltStatus::Normal);
    assert_eq!(
        ChargingEquipmentStatus(0b100).input_volt_status(),
        InputVoltStatus::NoPowerConnected
    );
    assert_eq!(
        ChargingEquipmentStatus(0b1000).input_volt_status(),
        InputVoltStatus::HigherVoltInput
    );
    assert_eq!(ChargingEquipmentStatus(0b1100).input_volt_status(), InputVoltStatus::Error);
}

#[test]
fn discharging_equipment_bits() {
    let s = DischargingEquipmentStatus(0b01);
    assert!(s.is_running());
    assert!(!s.has_fault());

    let s = DischargingEquipmentStatus(0b10);
    assert!(!s.is_running());
    assert!(s.has_fault());

    assert!(DischargingEquipmentStatus(1 << 4).is_output_overpressure());
    assert!(DischargingEquipmentStatus(1 << 5).is_boost_overpressure());
    assert!(DischargingEquipmentStatus(1 << 6).is_high_voltage_side_short_circuit());
    assert!(DischargingEquipmentStatus(1 << 7).is_input_over_pressure());
    assert!(DischargingEquipmentStatus(1 << 8).is_output_voltage_abnormal());
    assert!(DischargingEquipmentStatus(1 << 9).is_unable_to_stop_discharging());
    assert!(DischargingEquipmentStatus(1 << 10).is_unable_to_discharge());
    assert!(DischargingEquipmentStatus(1 << 11).is_short_circuit());

    let clear = DischargingEquipmentStatus(0);
    assert!(!clear.is_output_overpressure());
    assert!(!clear.is_boost_overpressure());
    assert!(!clear.is_high_voltage_side_short_circuit());
    assert!(!clear.is_input_over_pressure());
    assert!(!clear.is_output_voltage_abnormal());
    assert!(!clear.is_unable_to_stop_discharging());
    assert!(!clear.is_unable_to_discharge());
    assert!(!clear.is_short_circuit());
}

#[test]
fn discharging_sub_fields_bits_twelve_and_thirteen() {
    assert_eq!(DischargingEquipmentStatus(0).output_power(), OutputPower::LightLoad);
    assert_eq!(DischargingEquipmentStatus(1 << 12).output_power(), OutputPower::Moderate);
    assert_eq!(DischargingEquipmentStatus(2 << 12).output_power(), OutputPower::Rated);
    assert_eq!(DischargingEquipmentStatus(3 << 12).output_power(), OutputPower::OverLoad);

    assert_eq!(DischargingEquipmentStatus(0).discharge_status(), DischargeStatus::Normal);
    assert_eq!(DischargingEquipmentStatus(1 << 12).discharge_status(), DischargeStatus::Low);
    assert_eq!(DischargingEquipmentStatus(2 << 12).discharge_status(), DischargeStatus::High);
    assert_eq!(
        DischargingEquipmentStatus(3 << 12).discharge_status(),
        DischargeStatus::NoAccessInputVoltError
    );
}
