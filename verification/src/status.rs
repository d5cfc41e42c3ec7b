//! Status bit-field views.
//!
//! Each status value is one 16-bit register read from the device. The
//! named predicates and multi-bit sub-fields below are pure functions of
//! the stored integer, recomputed on every read and never cached; the bit
//! positions follow the device's register documentation.

use vstd::prelude::*;

verus! {

/// The battery status register.
#[derive(Default, Debug, Copy, Clone, PartialEq, Eq, Structural)]
pub struct BatteryStatus(pub u16);

/// The 4-bit battery voltage sub-field of [`BatteryStatus`].
#[derive(Debug, Copy, Clone, PartialEq, Eq, Structural)]
pub enum BatteryVoltageStatus {
    Normal,
    OverVolt,
    UnderVolt,
    LowVoltDisconnect,
    Fault,
}

/// The 4-bit battery temperature sub-field of [`BatteryStatus`].
#[derive(Debug, Copy, Clone, PartialEq, Eq, Structural)]
pub enum BatteryTemperatureStatus {
    Normal,
    OverTemp,
    LowTemp,
}

/// The voltage sub-field spelled by the low four bits of the register.
pub open spec fn spec_battery_voltage_status(raw: u16) -> BatteryVoltageStatus {
    if raw & 0b1111 == 0 {
        BatteryVoltageStatus::Normal
    } else if raw & 0b1111 == 1 {
        BatteryVoltageStatus::OverVolt
    } else if raw & 0b1111 == 2 {
        BatteryVoltageStatus::UnderVolt
    } else if raw & 0b1111 == 3 {
        BatteryVoltageStatus::LowVoltDisconnect
    } else {
        BatteryVoltageStatus::Fault
    }
}

/// The temperature sub-field spelled by bits four to seven.
pub open spec fn spec_battery_temperature_status(raw: u16) -> BatteryTemperatureStatus {
    if (raw >> 4) & 0b1111 == 0 {
        BatteryTemperatureStatus::Normal
    } else if (raw >> 4) & 0b1111 == 1 {
        BatteryTemperatureStatus::OverTemp
    } else {
        BatteryTemperatureStatus::LowTemp
    }
}

impl BatteryStatus {
    /// Whether the inner-resistance-abnormal bit (bit eight) is set.
    pub fn is_inner_resistance_abnormal(&self) -> (r: bool)
        ensures
            r == ((self.0 & 0b1_0000_0000) != 0),
    {
        (self.0 & 0b1_0000_0000) != 0
    }

    /// Whether the wrong-rated-voltage bit (bit fifteen) is set.
    pub fn is_wrong_rated_voltage(&self) -> (r: bool)
        ensures
            r == ((self.0 & 0b1000_0000_0000_0000) != 0),
    {
        (self.0 & 0b1000_0000_0000_0000) != 0
    }

    /// Reads the battery voltage sub-field (low four bits).
    pub fn voltage_status(&self) -> (r: BatteryVoltageStatus)
        ensures
            r == spec_battery_voltage_status(self.0),
    {
        match self.0 & 0b1111 {
            0 => BatteryVoltageStatus::Normal,
            1 => BatteryVoltageStatus::OverVolt,
            2 => BatteryVoltageStatus::UnderVolt,
            3 => BatteryVoltageStatus::LowVoltDisconnect,
            _ => BatteryVoltageStatus::Fault,
        }
    }

    /// Reads the battery temperature sub-field (bits four to seven).
    pub fn temperature_status(&self) -> (r: BatteryTemperatureStatus)
        ensures
            r == spec_battery_temperature_status(self.0),
    {
        match (self.0 >> 4) & 0b1111 {
            0 => BatteryTemperatureStatus::Normal,
            1 => BatteryTemperatureStatus::OverTemp,
            _ => BatteryTemperatureStatus::LowTemp,
        }
    }
}

/// The charging equipment status register.
#[derive(Default, Debug, Copy, Clone, PartialEq, Eq, Structural)]
pub struct ChargingEquipmentStatus(pub u16);

/// The charging-state sub-field of [`ChargingEquipmentStatus`].
#[derive(Debug, Copy, Clone, PartialEq, Eq, Structural)]
pub enum ChargingStatus {
    Off,
    Float,
    Boost,
    Equalization,
}

/// The input-voltage sub-field of [`ChargingEquipmentStatus`].
#[derive(Debug, Copy, Clone, PartialEq, Eq, Structural)]
pub enum InputVoltStatus {
    Normal,
    NoPowerConnected,
    HigherVoltInput,
    Error,
}

/// The charging state spelled by the register shifted right two bits.
pub open spec fn spec_charging_status(raw: u16) -> ChargingStatus {
    if raw >> 2 == 0 {
        ChargingStatus::Off
    } else if raw >> 2 == 1 {
        ChargingStatus::Float
    } else if raw >> 2 == 2 {
        ChargingStatus::Boost
    } else {
        ChargingStatus::Equalization
    }
}

/// The input-voltage state spelled by the register shifted right two bits.
pub open spec fn spec_input_volt_status(raw: u16) -> InputVoltStatus {
    if raw >> 2 == 0 {
        InputVoltStatus::Normal
    } else if raw >> 2 == 1 {
        InputVoltStatus::NoPowerConnected
    } else if raw >> 2 == 2 {
        InputVoltStatus::HigherVoltInput
    } else {
        InputVoltStatus::Error
    }
}

impl ChargingEquipmentStatus {
    /// Whether the running bit (bit zero) is set.
    pub fn is_running(&self) -> (r: bool)
        ensures
            r == ((self.0 & 1) != 0),
    {
        (self.0 & 1) != 0
    }

    /// Whether the fault bit (bit one) is set.
    pub fn has_fault(&self) -> (r: bool)
        ensures
            r == ((self.0 & 2) != 0),
    {
        (self.0 & 2) != 0
    }

    /// Whether the PV-input-short bit (bit four) is set.
    pub fn is_pv_input_short(&self) -> (r: bool)
        ensures
            r == (((self.0 >> 4) & 1) != 0),
    {
        ((self.0 >> 4) & 1) != 0
    }

    /// Whether the load-MOSFET-short bit (bit seven) is set.
    pub fn is_load_mosfet_short(&self) -> (r: bool)
        ensures
            r == (((self.0 >> 7) & 1) != 0),
    {
        ((self.0 >> 7) & 1) != 0
    }

    /// Whether the load-short bit (bit eight) is set.
    pub fn is_load_short(&self) -> (r: bool)
        ensures
            r == (((self.0 >> 8) & 1) != 0),
    {
        ((self.0 >> 8) & 1) != 0
    }

    /// Whether the load-over-current bit (bit nine) is set.
    pub fn is_load_over_current(&self) -> (r: bool)
        ensures
            r == (((self.0 >> 9) & 1) != 0),
    {
        ((self.0 >> 9) & 1) != 0
    }

    /// Whether the input-over-current bit (bit ten) is set.
    pub fn is_input_over_current(&self) -> (r: bool)
        ensures
            r == (((self.0 >> 10) & 1) != 0),
    {
        ((self.0 >> 10) & 1) != 0
    }

    /// Whether the anti-reverse-MOSFET-short bit (bit eleven) is set.
    pub fn is_anti_reverse_mosfet_short(&self) -> (r: bool)
        ensures
            r == (((self.0 >> 11) & 1) != 0),
    {
        ((self.0 >> 11) & 1) != 0
    }

    /// Whether the charging-or-anti-reverse-MOSFET-short bit (bit twelve)
    /// is set.
    pub fn is_charging_or_anti_reverse_mosfet_short(&self) -> (r: bool)
        ensures
            r == (((self.0 >> 12) & 1) != 0),
    {
        ((self.0 >> 12) & 1) != 0
    }

    /// Whether the charging-MOSFET-short bit (bit thirteen) is set.
    pub fn is_charging_mosfet_short(&self) -> (r: bool)
        ensures
            r == (((self.0 >> 13) & 1) != 0),
    {
        ((self.0 >> 13) & 1) != 0
    }

    /// Reads the charging-state sub-field.
    pub fn charging_status(&self) -> (r: ChargingStatus)
        ensures
            r == spec_charging_status(self.0),
    {
        match self.0 >> 2 {
            0 => ChargingStatus::Off,
            1 => ChargingStatus::Float,
            2 => ChargingStatus::Boost,
            _ => ChargingStatus::Equalization,
        }
    }

    /// Reads the input-voltage sub-field.
    pub fn input_volt_status(&self) -> (r: InputVoltStatus)
        ensures
            r == spec_input_volt_status(self.0),
    {
        match self.0 >> 2 {
            0 => InputVoltStatus::Normal,
            1 => InputVoltStatus::NoPowerConnected,
            2 => InputVoltStatus::HigherVoltInput,
            _ => InputVoltStatus::Error,
        }
    }
}

/// The discharging equipment status register.
#[derive(Default, Debug, Copy, Clone, PartialEq, Eq, Structural)]
pub struct DischargingEquipmentStatus(pub u16);

/// The output-power sub-field of [`DischargingEquipmentStatus`].
#[derive(Debug, Copy, Clone, PartialEq, Eq, Structural)]
pub enum OutputPower {
    LightLoad,
    Moderate,
    Rated,
    OverLoad,
}

/// The discharge-voltage sub-field of [`DischargingEquipmentStatus`].
#[derive(Debug, Copy, Clone, PartialEq, Eq, Structural)]
pub enum DischargeStatus {
    Normal,
    Low,
    High,
    NoAccessInputVoltError,
}

/// The output-power class spelled by bits twelve and thirteen.
pub open spec fn spec_output_power(raw: u16) -> OutputPower {
    if (raw >> 12) & 0b11 == 0 {
        OutputPower::LightLoad
    } else if (raw >> 12) & 0b11 == 1 {
        OutputPower::Moderate
    } else if (raw >> 12) & 0b11 == 2 {
        OutputPower::Rated
    } else {
        OutputPower::OverLoad
    }
}

/// The discharge-voltage class spelled by bits twelve and thirteen.
pub open spec fn spec_discharge_status(raw: u16) -> DischargeStatus {
    if (raw >> 12) & 0b11 == 0 {
        DischargeStatus::Normal
    } else if (raw >> 12) & 0b11 == 1 {
        DischargeStatus::Low
    } else if (raw >> 12) & 0b11 == 2 {
        DischargeStatus::High
    } else {
        DischargeStatus::NoAccessInputVoltError
    }
}

impl DischargingEquipmentStatus {
    /// Whether the running bit (bit zero) is set.
    pub fn is_running(&self) -> (r: bool)
        ensures
            r == ((self.0 & 1) != 0),
    {
        (self.0 & 1) != 0
    }

    /// Whether the fault bit (bit one) is set.
    pub fn has_fault(&self) -> (r: bool)
        ensures
            r == ((self.0 & 2) != 0),
    {
        (self.0 & 2) != 0
    }

    /// Whether the output-overpressure bit (bit four) is set.
    pub fn is_output_overpressure(&self) -> (r: bool)
        ensures
            r == (((self.0 >> 4) & 1) != 0),
    {
        ((self.0 >> 4) & 1) != 0
    }

    /// Whether the boost-overpressure bit (bit five) is set.
    pub fn is_boost_overpressure(&self) -> (r: bool)
        ensures
            r == (((self.0 >> 5) & 1) != 0),
    {
        ((self.0 >> 5) & 1) != 0
    }

    /// Whether the high-voltage-side-short bit (bit six) is set.
    pub fn is_high_voltage_side_short_circuit(&self) -> (r: bool)
        ensures
            r == (((self.0 >> 6) & 1) != 0),
    {
        ((self.0 >> 6) & 1) != 0
    }

    /// Whether the input-overpressure bit (bit seven) is set.
    pub fn is_input_over_pressure(&self) -> (r: bool)
        ensures
            r == (((self.0 >> 7) & 1) != 0),
    {
        ((self.0 >> 7) & 1) != 0
    }

    /// Whether the output-voltage-abnormal bit (bit eight) is set.
    pub fn is_output_voltage_abnormal(&self) -> (r: bool)
        ensures
            r == (((self.0 >> 8) & 1) != 0),
    {
        ((self.0 >> 8) & 1) != 0
    }

    /// Whether the unable-to-stop-discharging bit (bit nine) is set.
    pub fn is_unable_to_stop_discharging(&self) -> (r: bool)
        ensures
            r == (((self.0 >> 9) & 1) != 0),
    {
        ((self.0 >> 9) & 1) != 0
    }

    /// Whether the unable-to-discharge bit (bit ten) is set.
    pub fn is_unable_to_discharge(&self) -> (r: bool)
        ensures
            r == (((self.0 >> 10) & 1) != 0),
    {
        ((self.0 >> 10) & 1) != 0
    }

    /// Whether the short-circuit bit (bit eleven) is set.
    pub fn is_short_circuit(&self) -> (r: bool)
        ensures
            r == (((self.0 >> 11) & 1) != 0),
    {
        ((self.0 >> 11) & 1) != 0
    }

    /// Reads the output-power sub-field.
    pub fn output_power(&self) -> (r: OutputPower)
        ensures
            r == spec_output_power(self.0),
    {
        match (self.0 >> 12) & 0b11 {
            0 => OutputPower::LightLoad,
            1 => OutputPower::Moderate,
            2 => OutputPower::Rated,
            _ => OutputPower::OverLoad,
        }
    }

    /// Reads the discharge-voltage sub-field.
    pub fn discharge_status(&self) -> (r: DischargeStatus)
        ensures
            r == spec_discharge_status(self.0),
    {
        match (self.0 >> 12) & 0b11 {
            0 => DischargeStatus::Normal,
            1 => DischargeStatus::Low,
            2 => DischargeStatus::High,
            _ => DischargeStatus::NoAccessInputVoltError,
        }
    }
}

} // verus!
