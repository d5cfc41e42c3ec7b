//! Register decoder for one charge-controller device family.
//!
//! Each domain snapshot owns a fixed base register address, the exact
//! ordered requests that fetch its byte range, and a pure decode from the
//! concatenated response bytes to the typed record. The requests and the
//! decode agree on byte count: the registers fetched, two bytes each,
//! cover exactly the snapshot's declared data length. Quantities follow
//! the fixed-point scaling of [`crate::fixed`].

use vstd::prelude::*;
use crate::codec::{Command, spec_word_at};
use crate::fixed::{FixedPoint, FixedPoint32, word_from_be_pair};
use crate::status::{BatteryStatus, ChargingEquipmentStatus, DischargingEquipmentStatus};

verus! {

/// Base register address of the rated-values block.
pub const RATED_BASE_ADDRESS: u16 = 0x3000;

/// Base register address of the realtime block.
pub const REALTIME_BASE_ADDRESS: u16 = 0x3100;

/// Base register address of the realtime-status block.
pub const REALTIME_STATUS_BASE_ADDRESS: u16 = 0x3200;

/// Base register address of the statistics block.
pub const STATS_BASE_ADDRESS: u16 = 0x3300;

/// Base register address of the voltage-settings block.
pub const VOLTAGE_SETTINGS_BASE_ADDRESS: u16 = 0x9000;

/// The 16-bit fixed-point quantity at byte offset `i`.
pub open spec fn spec_fixed_at(s: Seq<u8>, i: int) -> FixedPoint {
    FixedPoint { centi: spec_word_at(s, i) }
}

/// The 32-bit split-register fixed-point quantity at byte offset `i`:
/// low-order word first, each word big-endian.
pub open spec fn spec_fixed32_at(s: Seq<u8>, i: int) -> FixedPoint32 {
    FixedPoint32 { centi: (spec_word_at(s, i + 2) * 0x10000 + spec_word_at(s, i)) as u32 }
}

/// Reads the 16-bit fixed-point quantity at byte offset `i`.
pub fn fixed_at(bytes: &[u8], i: usize) -> (r: FixedPoint)
    requires
        i + 2 <= bytes@.len(),
    ensures
        r == spec_fixed_at(bytes@, i as int),
{
    FixedPoint { centi: word_from_be_pair(bytes[i], bytes[i + 1]) }
}

/// Reads the 32-bit split-register fixed-point quantity at byte offset `i`.
pub fn fixed32_at(bytes: &[u8], i: usize) -> (r: FixedPoint32)
    requires
        i + 4 <= bytes@.len(),
    ensures
        r == spec_fixed32_at(bytes@, i as int),
{
    proof {
        // The slice itself bounds the offsets: its length is a machine
        // word, so the index arithmetic below cannot overflow.
        assert(i + 4 <= bytes.len());
    }
    FixedPoint32 {
        centi: (word_from_be_pair(bytes[i + 2], bytes[i + 3]) as u32) * 0x10000
            + (word_from_be_pair(bytes[i], bytes[i + 1]) as u32),
    }
}

/// Reads the big-endian 16-bit register at byte offset `i`.
pub fn word_at(bytes: &[u8], i: usize) -> (r: u16)
    requires
        i + 2 <= bytes@.len(),
    ensures
        r == spec_word_at(bytes@, i as int),
{
    word_from_be_pair(bytes[i], bytes[i + 1])
}

/// The charge regulation scheme the controller is rated for.
#[derive(Debug, Copy, Clone, PartialEq, Eq, Structural)]
pub enum ChargingMode {
    ConnectDisconnect,
    PWM,
    MPPT,
}

impl Default for ChargingMode {
    fn default() -> (r: Self)
        ensures
            r == ChargingMode::MPPT,
    {
        ChargingMode::MPPT
    }
}

/// The charging mode spelled by its wire byte.
pub open spec fn spec_charging_mode(b: u8) -> ChargingMode {
    if b == 0 {
        ChargingMode::ConnectDisconnect
    } else if b == 1 {
        ChargingMode::PWM
    } else {
        ChargingMode::MPPT
    }
}

/// Rated (nameplate) values of the controller.
#[derive(Debug, Copy, Clone, PartialEq, Eq, Structural)]
pub struct Rated {
    pub array_rated_voltage: FixedPoint,
    pub array_rated_current: FixedPoint,
    pub array_rated_power: FixedPoint32,
    pub battery_rated_voltage: FixedPoint,
    pub battery_rated_current: FixedPoint,
    pub battery_rated_power: FixedPoint32,
    pub charging_mode: ChargingMode,
    pub rated_current_load: FixedPoint,
}

/// The rated-values record spelled by its twenty data bytes.
pub open spec fn spec_rated_from_bytes(s: Seq<u8>) -> Rated {
    Rated {
        array_rated_voltage: spec_fixed_at(s, 0),
        array_rated_current: spec_fixed_at(s, 2),
        array_rated_power: spec_fixed32_at(s, 4),
        battery_rated_voltage: spec_fixed_at(s, 8),
        battery_rated_current: spec_fixed_at(s, 10),
        battery_rated_power: spec_fixed32_at(s, 12),
        charging_mode: spec_charging_mode(s[17]),
        rated_current_load: spec_fixed_at(s, 18),
    }
}

impl Rated {
    /// Decodes the record from the concatenated response bytes of
    /// [`Rated::generate_commands`]. The buffer must hold at least
    /// [`Rated::data_len`] bytes; a shorter one is a caller error, not a
    /// recoverable condition.
    pub fn from_bytes(bytes: &[u8]) -> (r: Self)
        requires
            bytes@.len() >= 20,
        ensures
            r == spec_rated_from_bytes(bytes@),
    {
        Rated {
            array_rated_voltage: fixed_at(bytes, 0),
            array_rated_current: fixed_at(bytes, 2),
            array_rated_power: fixed32_at(bytes, 4),
            battery_rated_voltage: fixed_at(bytes, 8),
            battery_rated_current: fixed_at(bytes, 10),
            battery_rated_power: fixed32_at(bytes, 12),
            charging_mode: {
                let b = bytes[17];
                if b == 0 {
                    ChargingMode::ConnectDisconnect
                } else if b == 1 {
                    ChargingMode::PWM
                } else {
                    ChargingMode::MPPT
                }
            },
            rated_current_load: fixed_at(bytes, 18),
        }
    }

    /// The ordered requests that fetch this record's byte range. The
    /// registers requested, two bytes each, total [`Rated::data_len`].
    pub fn generate_commands() -> (r: Vec<Command>)
        ensures
            r@ =~= seq![
                Command::ModbusGetInputRegisters { register_address: RATED_BASE_ADDRESS, size: 9 },
                Command::ModbusGetInputRegisters {
                    register_address: (RATED_BASE_ADDRESS + 0x0E) as u16,
                    size: 1,
                },
            ],
            2 * (r@[0].spec_size() + r@[1].spec_size()) == 20,
    {
        let mut r: Vec<Command> = Vec::new();
        r.push(Command::ModbusGetInputRegisters { register_address: RATED_BASE_ADDRESS, size: 9 });
        r.push(Command::ModbusGetInputRegisters {
            register_address: RATED_BASE_ADDRESS + 0x0E,
            size: 1,
        });
        r
    }

    /// The number of data bytes the record decodes from.
    pub fn data_len() -> (r: usize)
        ensures
            r == 20,
    {
        20
    }
}

/// Instantaneous measurements of the controller.
#[derive(Debug, Copy, Clone, PartialEq, Eq, Structural)]
pub struct Realtime {
    pub pv_voltage: FixedPoint,
    pub pv_current: FixedPoint,
    pub pv_power: FixedPoint32,
    pub battery_power: FixedPoint32,
    pub load_voltage: FixedPoint,
    pub load_current: FixedPoint,
    pub load_power: FixedPoint32,
    pub battery_temperature: FixedPoint,
    pub equipment_temperature: FixedPoint,
    /// Remaining battery capacity in whole percent.
    pub remaining_battery_capacity: u16,
    pub remote_battery_temperature: FixedPoint,
    pub battery_real_rated_power: FixedPoint,
}

/// The realtime record spelled by its thirty data bytes.
pub open spec fn spec_realtime_from_bytes(s: Seq<u8>) -> Realtime {
    Realtime {
        pv_voltage: spec_fixed_at(s, 0),
        pv_current: spec_fixed_at(s, 2),
        pv_power: spec_fixed32_at(s, 4),
        battery_power: spec_fixed32_at(s, 8),
        load_voltage: spec_fixed_at(s, 12),
        load_current: spec_fixed_at(s, 14),
        load_power: spec_fixed32_at(s, 16),
        battery_temperature: spec_fixed_at(s, 20),
        equipment_temperature: spec_fixed_at(s, 22),
        remaining_battery_capacity: spec_word_at(s, 24),
        remote_battery_temperature: spec_fixed_at(s, 26),
        battery_real_rated_power: spec_fixed_at(s, 28),
    }
}

impl Realtime {
    /// Decodes the record from the concatenated response bytes of
    /// [`Realtime::generate_commands`]. The buffer must hold at least
    /// [`Realtime::data_len`] bytes.
    pub fn from_bytes(bytes: &[u8]) -> (r: Self)
        requires
            bytes@.len() >= 30,
        ensures
            r == spec_realtime_from_bytes(bytes@),
    {
        Realtime {
            pv_voltage: fixed_at(bytes, 0),
            pv_current: fixed_at(bytes, 2),
            pv_power: fixed32_at(bytes, 4),
            battery_power: fixed32_at(bytes, 8),
            load_voltage: fixed_at(bytes, 12),
            load_current: fixed_at(bytes, 14),
            load_power: fixed32_at(bytes, 16),
            battery_temperature: fixed_at(bytes, 20),
            equipment_temperature: fixed_at(bytes, 22),
            remaining_battery_capacity: word_at(bytes, 24),
            remote_battery_temperature: fixed_at(bytes, 26),
            battery_real_rated_power: fixed_at(bytes, 28),
        }
    }

    /// The number of data bytes the record decodes from.
    pub fn data_len() -> (r: usize)
        ensures
            r == 30,
    {
        30
    }

    /// The ordered requests that fetch this record's byte range. The
    /// registers requested, two bytes each, total [`Realtime::data_len`].
    pub fn generate_commands() -> (r: Vec<Command>)
        ensures
            r@ =~= seq![
                Command::ModbusGetInputRegisters {
                    register_address: REALTIME_BASE_ADDRESS,
                    size: 4,
                },
                Command::ModbusGetInputRegisters {
                    register_address: (REALTIME_BASE_ADDRESS + 0x06) as u16,
                    size: 2,
                },
                Command::ModbusGetInputRegisters {
                    register_address: (REALTIME_BASE_ADDRESS + 0x0C) as u16,
                    size: 6,
                },
                Command::ModbusGetInputRegisters {
                    register_address: (REALTIME_BASE_ADDRESS + 0x1A) as u16,
                    size: 2,
                },
                Command::ModbusGetInputRegisters {
                    register_address: (REALTIME_BASE_ADDRESS + 0x1D) as u16,
                    size: 1,
                },
            ],
            2 * (r@[0].spec_size() + r@[1].spec_size() + r@[2].spec_size() + r@[3].spec_size()
                + r@[4].spec_size()) == 30,
    {
        let mut r: Vec<Command> = Vec::new();
        r.push(Command::ModbusGetInputRegisters { register_address: REALTIME_BASE_ADDRESS, size: 4 });
        r.push(Command::ModbusGetInputRegisters {
            register_address: REALTIME_BASE_ADDRESS + 0x06,
            size: 2,
        });
        r.push(Command::ModbusGetInputRegisters {
            register_address: REALTIME_BASE_ADDRESS + 0x0C,
            size: 6,
        });
        r.push(Command::ModbusGetInputRegisters {
            register_address: REALTIME_BASE_ADDRESS + 0x1A,
            size: 2,
        });
        r.push(Command::ModbusGetInputRegisters {
            register_address: REALTIME_BASE_ADDRESS + 0x1D,
            size: 1,
        });
        r
    }
}

/// The three live status bit-field registers.
#[derive(Default, Debug, Copy, Clone, PartialEq, Eq, Structural)]
pub struct RealtimeStatus {
    pub battery_status: BatteryStatus,
    pub charging_equipment_status: ChargingEquipmentStatus,
    pub discharging_equipment_status: DischargingEquipmentStatus,
}

/// The status record spelled by its six data bytes.
pub open spec fn spec_realtime_status_from_bytes(s: Seq<u8>) -> RealtimeStatus {
    RealtimeStatus {
        battery_status: BatteryStatus(spec_word_at(s, 0)),
        charging_equipment_status: ChargingEquipmentStatus(spec_word_at(s, 2)),
        discharging_equipment_status: DischargingEquipmentStatus(spec_word_at(s, 4)),
    }
}

impl RealtimeStatus {
    /// Decodes the record from the response bytes of
    /// [`RealtimeStatus::generate_command`]. The buffer must hold at
    /// least [`RealtimeStatus::data_len`] bytes.
    pub fn from_bytes(bytes: &[u8]) -> (r: Self)
        requires
            bytes@.len() >= 6,
        ensures
            r == spec_realtime_status_from_bytes(bytes@),
    {
        RealtimeStatus {
            battery_status: BatteryStatus(word_at(bytes, 0)),
            charging_equipment_status: ChargingEquipmentStatus(word_at(bytes, 2)),
            discharging_equipment_status: DischargingEquipmentStatus(word_at(bytes, 4)),
        }
    }

    /// The number of data bytes the record decodes from.
    pub fn data_len() -> (r: usize)
        ensures
            r == 6,
    {
        6
    }

    /// The single request that fetches this record's byte range: three
    /// registers, two bytes each, totalling [`RealtimeStatus::data_len`].
    pub fn generate_command() -> (r: Command)
        ensures
            r == (Command::ModbusGetInputRegisters {
                register_address: REALTIME_STATUS_BASE_ADDRESS,
                size: 3,
            }),
            2 * r.spec_size() == 6,
    {
        Command::ModbusGetInputRegisters { register_address: REALTIME_STATUS_BASE_ADDRESS, size: 3 }
    }
}

/// Energy counters and daily voltage extremes.
///
/// `energy_voltage_data` holds the twenty registers at
/// [`STATS_BASE_ADDRESS`]; `battery_data` the three registers twenty-six
/// registers above it. The named getters read the documented fields out
/// of those registers.
#[derive(Debug, Clone, PartialEq, Eq)]
pub struct Stats {
    pub energy_voltage_data: Vec<u16>,
    pub battery_data: Vec<u16>,
}

/// The sequence of 16-bit registers spelled by `2 * n` data bytes.
pub open spec fn spec_words(s: Seq<u8>, n: nat) -> Seq<u16> {
    Seq::new(n, |i: int| spec_word_at(s, 2 * i))
}

/// Reads the first `n` big-endian 16-bit registers of a byte block.
pub fn words_from_bytes(bytes: &[u8], n: usize) -> (r: Vec<u16>)
    requires
        2 * n <= bytes@.len(),
    ensures
        r@ == spec_words(bytes@, n as nat),
{
    let len = bytes.len();
    let mut r: Vec<u16> = Vec::new();
    let mut i: usize = 0;
    while i < n
        invariant
            i <= n,
            2 * n <= bytes@.len() <= usize::MAX,
            r@ == spec_words(bytes@, i as nat),
        decreases n - i,
    {
        r.push(word_from_be_pair(bytes[2 * i], bytes[2 * i + 1]));
        i = i + 1;
        proof {
            assert(r@ =~= spec_words(bytes@, i as nat));
        }
    }
    r
}

impl Stats {
    /// Whether the record holds its full register complement.
    pub open spec fn wf(self) -> bool {
        self.energy_voltage_data@.len() == 20 && self.battery_data@.len() == 3
    }

    /// Decodes the record from the two response byte blocks of
    /// [`Stats::generate_get_commands`]: forty bytes of energy and
    /// voltage registers, six bytes of battery registers.
    pub fn from_bytes(ev_bytes: &[u8], battery_bytes: &[u8]) -> (r: Self)
        requires
            ev_bytes@.len() >= 40,
            battery_bytes@.len() >= 6,
        ensures
            r.wf(),
            r.energy_voltage_data@ == spec_words(ev_bytes@, 20),
            r.battery_data@ == spec_words(battery_bytes@, 3),
    {
        Stats {
            energy_voltage_data: words_from_bytes(ev_bytes, 20),
            battery_data: words_from_bytes(battery_bytes, 3),
        }
    }

    /// The ordered requests that fetch this record's registers: twenty
    /// registers at the base address and three more at offset twenty-six.
    pub fn generate_get_commands() -> (r: Vec<Command>)
        ensures
            r@ =~= seq![
                Command::ModbusGetInputRegisters { register_address: STATS_BASE_ADDRESS, size: 20 },
                Command::ModbusGetInputRegisters {
                    register_address: (STATS_BASE_ADDRESS + 26) as u16,
                    size: 3,
                },
            ],
    {
        let mut r: Vec<Command> = Vec::new();
        r.push(Command::ModbusGetInputRegisters { register_address: STATS_BASE_ADDRESS, size: 20 });
        r.push(Command::ModbusGetInputRegisters {
            register_address: STATS_BASE_ADDRESS + 26,
            size: 3,
        });
        r
    }

    /// Today's maximum photovoltaic voltage.
    pub fn max_pv_voltage_day(&self) -> (r: FixedPoint)
        requires
            self.wf(),
        ensures
            r.centi == self.energy_voltage_data@[0],
    {
        FixedPoint { centi: self.energy_voltage_data[0] }
    }

    /// Today's minimum photovoltaic voltage.
    pub fn min_pv_voltage_day(&self) -> (r: FixedPoint)
        requires
            self.wf(),
        ensures
            r.centi == self.energy_voltage_data@[1],
    {
        FixedPoint { centi: self.energy_voltage_data[1] }
    }

    /// Today's maximum battery voltage.
    pub fn max_battery_voltage_day(&self) -> (r: FixedPoint)
        requires
            self.wf(),
        ensures
            r.centi == self.energy_voltage_data@[2],
    {
        FixedPoint { centi: self.energy_voltage_data[2] }
    }

    /// Today's minimum battery voltage.
    pub fn min_battery_voltage_day(&self) -> (r: FixedPoint)
        requires
            self.wf(),
        ensures
            r.centi == self.energy_voltage_data@[3],
    {
        FixedPoint { centi: self.energy_voltage_data[3] }
    }

    /// The 32-bit counter split across registers `lo` (low word) and
    /// `lo + 1` (high word) of the energy block.
    pub open spec fn spec_energy_counter(self, lo: int) -> FixedPoint32 {
        FixedPoint32 {
            centi: (self.energy_voltage_data@[lo + 1] * 0x10000
                + self.energy_voltage_data@[lo]) as u32,
        }
    }

    /// Reads the 32-bit counter at low-word register `lo`.
    fn energy_counter(&self, lo: usize) -> (r: FixedPoint32)
        requires
            self.wf(),
            lo + 1 < 20,
        ensures
            r == self.spec_energy_counter(lo as int),
    {
        FixedPoint32 {
            centi: (self.energy_voltage_data[lo + 1] as u32) * 0x10000
                + (self.energy_voltage_data[lo] as u32),
        }
    }

    /// Energy consumed today.
    pub fn consumed_energy_day(&self) -> (r: FixedPoint32)
        requires
            self.wf(),
        ensures
            r == self.spec_energy_counter(4),
    {
        self.energy_counter(4)
    }

    /// Energy consumed this month.
    pub fn consumed_energy_month(&self) -> (r: FixedPoint32)
        requires
            self.wf(),
        ensures
            r == self.spec_energy_counter(6),
    {
        self.energy_counter(6)
    }

    /// Energy consumed this year.
    pub fn consumed_energy_year(&self) -> (r: FixedPoint32)
        requires
            self.wf(),
        ensures
            r == self.spec_energy_counter(8),
    {
        self.energy_counter(8)
    }

    /// Energy consumed over the device's lifetime.
    pub fn consumed_energy_total(&self) -> (r: FixedPoint32)
        requires
            self.wf(),
        ensures
            r == self.spec_energy_counter(10),
    {
        self.energy_counter(10)
    }

    /// Energy generated today.
    pub fn generated_energy_day(&self) -> (r: FixedPoint32)
        requires
            self.wf(),
        ensures
            r == self.spec_energy_counter(12),
    {
        self.energy_counter(12)
    }

    /// Energy generated this month.
    pub fn generated_energy_month(&self) -> (r: FixedPoint32)
        requires
            self.wf(),
        ensures
            r == self.spec_energy_counter(14),
    {
        self.energy_counter(14)
    }

    /// Energy generated this year.
    pub fn generated_energy_year(&self) -> (r: FixedPoint32)
        requires
            self.wf(),
        ensures
            r == self.spec_energy_counter(16),
    {
        self.energy_counter(16)
    }

    /// Energy generated over the device's lifetime.
    pub fn generated_energy_total(&self) -> (r: FixedPoint32)
        requires
            self.wf(),
        ensures
            r == self.spec_energy_counter(18),
    {
        self.energy_counter(18)
    }

    /// The battery voltage register of the battery block.
    pub fn battery_voltage(&self) -> (r: FixedPoint)
        requires
            self.wf(),
        ensures
            r.centi == self.battery_data@[0],
    {
        FixedPoint { centi: self.battery_data[0] }
    }

    /// The battery current, split across the second (low word) and third
    /// (high word) registers of the battery block.
    pub fn battery_current(&self) -> (r: FixedPoint32)
        requires
            self.wf(),
        ensures
            r.centi == self.battery_data@[2] * 0x10000 + self.battery_data@[1],
    {
        FixedPoint32 {
            centi: (self.battery_data[2] as u32) * 0x10000 + (self.battery_data[1] as u32),
        }
    }
}

/// The battery chemistry code of the settings block.
#[derive(Debug, Copy, Clone, PartialEq, Eq, Structural)]
pub enum BatteryType {
    UserDefined,
    Sealed,
    Gel,
    Flooded,
    LFP8S,
    OutOfBounds,
}

impl Default for BatteryType {
    fn default() -> (r: Self)
        ensures
            r == BatteryType::UserDefined,
    {
        BatteryType::UserDefined
    }
}

/// The battery type spelled by its register value.
pub open spec fn spec_battery_type(raw: u16) -> BatteryType {
    if raw == 0 {
        BatteryType::UserDefined
    } else if raw == 1 {
        BatteryType::Sealed
    } else if raw == 2 {
        BatteryType::Gel
    } else if raw == 3 {
        BatteryType::Flooded
    } else if raw == 5 {
        BatteryType::LFP8S
    } else {
        BatteryType::OutOfBounds
    }
}

impl BatteryType {
    /// The register value that encodes this battery type.
    pub open spec fn spec_code(self) -> u16 {
        match self {
            BatteryType::UserDefined => 0,
            BatteryType::Sealed => 1,
            BatteryType::Gel => 2,
            BatteryType::Flooded => 3,
            BatteryType::LFP8S => 5,
            BatteryType::OutOfBounds => 6,
        }
    }

    /// Decodes a battery type from its register value; every unassigned
    /// value reads as out-of-bounds.
    pub fn from_raw(raw: u16) -> (r: Self)
        ensures
            r == spec_battery_type(raw),
    {
        match raw {
            0 => BatteryType::UserDefined,
            1 => BatteryType::Sealed,
            2 => BatteryType::Gel,
            3 => BatteryType::Flooded,
            5 => BatteryType::LFP8S,
            _ => BatteryType::OutOfBounds,
        }
    }

    /// Writes the register value for this battery type.
    pub fn code(&self) -> (r: u16)
        ensures
            r == self.spec_code(),
    {
        match self {
            BatteryType::UserDefined => 0,
            BatteryType::Sealed => 1,
            BatteryType::Gel => 2,
            BatteryType::Flooded => 3,
            BatteryType::LFP8S => 5,
            BatteryType::OutOfBounds => 6,
        }
    }
}

/// Battery type plus the threshold voltages of the settings block, one
/// holding register each in block order.
#[derive(Debug, Copy, Clone, PartialEq, Eq, Structural)]
pub struct VoltageSettings {
    pub battery_type: BatteryType,
    pub battery_capacity: u16,
    pub temperature_compensation_coefficient: u16,
    pub over_voltage_disconnect: FixedPoint,
    pub charging_limit_voltage: FixedPoint,
    pub over_voltage_reconnect: FixedPoint,
    pub equalization_voltage: FixedPoint,
    pub boost_voltage: FixedPoint,
    pub float_voltage: FixedPoint,
    pub boost_reconnect_voltage: FixedPoint,
    pub low_voltage_reconnect_voltage: FixedPoint,
    pub under_voltage_recover_voltage: FixedPoint,
    pub under_voltage_warning_voltage: FixedPoint,
    pub low_voltage_disconnect_voltage: FixedPoint,
    pub discharging_limit_voltage: FixedPoint,
}

/// The first settings consistency rule broken by a block, if any, for a
/// lithium-iron battery on user-defined thresholds.
#[derive(Debug, Copy, Clone, PartialEq, Eq, Structural)]
pub enum SettingsError {
    /// Over-voltage disconnect does not exceed over-voltage reconnect.
    OverVoltageDisconnectNotAboveReconnect,
    /// Over-voltage reconnect differs from the charging limit.
    OverVoltageReconnectNotChargingLimit,
    /// Charging limit lies below the equalization voltage.
    ChargingLimitBelowEqualization,
    /// Equalization voltage differs from the boost voltage.
    EqualizationNotBoost,
    /// Boost voltage lies below the float voltage.
    BoostBelowFloat,
    /// Float voltage does not exceed the boost reconnect voltage.
    FloatNotAboveBoostReconnect,
    /// Boost reconnect does not exceed the low-voltage reconnect.
    BoostReconnectNotAboveLowVoltageReconnect,
    /// Low-voltage reconnect does not exceed the low-voltage disconnect.
    LowVoltageReconnectNotAboveDisconnect,
    /// Low-voltage disconnect lies below the discharging limit.
    LowVoltageDisconnectBelowDischargingLimit,
    /// Under-voltage recover does not exceed the under-voltage warning.
    UnderVoltageRecoverNotAboveWarning,
    /// Under-voltage warning lies below the discharging limit.
    UnderVoltageWarningBelowDischargingLimit,
    /// Low-voltage disconnect sits within 0.20 of the discharging limit.
    LowVoltageDisconnectMarginTooSmall,
    /// Over-voltage disconnect sits within 0.20 of the charging limit.
    OverVoltageDisconnectMarginTooSmall,
    /// Battery type is not user-defined, so the thresholds do not apply.
    BatteryTypeNotUserDefined,
}

/// The settings block spelled by its thirty data bytes.
pub open spec fn spec_voltage_settings_from_bytes(s: Seq<u8>) -> VoltageSettings {
    VoltageSettings {
        battery_type: spec_battery_type(spec_word_at(s, 0)),
        battery_capacity: spec_word_at(s, 2),
        temperature_compensation_coefficient: spec_word_at(s, 4),
        over_voltage_disconnect: spec_fixed_at(s, 6),
        charging_limit_voltage: spec_fixed_at(s, 8),
        over_voltage_reconnect: spec_fixed_at(s, 10),
        equalization_voltage: spec_fixed_at(s, 12),
        boost_voltage: spec_fixed_at(s, 14),
        float_voltage: spec_fixed_at(s, 16),
        boost_reconnect_voltage: spec_fixed_at(s, 18),
        low_voltage_reconnect_voltage: spec_fixed_at(s, 20),
        under_voltage_recover_voltage: spec_fixed_at(s, 22),
        under_voltage_warning_voltage: spec_fixed_at(s, 24),
        low_voltage_disconnect_voltage: spec_fixed_at(s, 26),
        discharging_limit_voltage: spec_fixed_at(s, 28),
    }
}

/// The first broken consistency rule of a settings block, checked in the
/// order below; a block that breaks none of them and names a user-defined
/// battery type passes.
pub open spec fn spec_check_settings(s: VoltageSettings) -> Result<(), SettingsError> {
    if !(s.over_voltage_disconnect.centi > s.over_voltage_reconnect.centi) {
        Err(SettingsError::OverVoltageDisconnectNotAboveReconnect)
    } else if !(s.over_voltage_reconnect.centi == s.charging_limit_voltage.centi) {
        Err(SettingsError::OverVoltageReconnectNotChargingLimit)
    } else if !(s.charging_limit_voltage.centi >= s.equalization_voltage.centi) {
        Err(SettingsError::ChargingLimitBelowEqualization)
    } else if !(s.equalization_voltage.centi == s.boost_voltage.centi) {
        Err(SettingsError::EqualizationNotBoost)
    } else if !(s.boost_voltage.centi >= s.float_voltage.centi) {
        Err(SettingsError::BoostBelowFloat)
    } else if !(s.float_voltage.centi > s.boost_reconnect_voltage.centi) {
        Err(SettingsError::FloatNotAboveBoostReconnect)
    } else if !(s.boost_reconnect_voltage.centi > s.low_voltage_reconnect_voltage.centi) {
        Err(SettingsError::BoostReconnectNotAboveLowVoltageReconnect)
    } else if !(s.low_voltage_reconnect_voltage.centi > s.low_voltage_disconnect_voltage.centi) {
        Err(SettingsError::LowVoltageReconnectNotAboveDisconnect)
    } else if !(s.low_voltage_disconnect_voltage.centi >= s.discharging_limit_voltage.centi) {
        Err(SettingsError::LowVoltageDisconnectBelowDischargingLimit)
    } else if !(s.under_voltage_recover_voltage.centi > s.under_voltage_warning_voltage.centi) {
        Err(SettingsError::UnderVoltageRecoverNotAboveWarning)
    } else if !(s.under_voltage_warning_voltage.centi >= s.discharging_limit_voltage.centi) {
        Err(SettingsError::UnderVoltageWarningBelowDischargingLimit)
    } else if !(s.low_voltage_disconnect_voltage.centi
        >= s.discharging_limit_voltage.centi + 20) {
        Err(SettingsError::LowVoltageDisconnectMarginTooSmall)
    } else if !(s.over_voltage_disconnect.centi > s.charging_limit_voltage.centi + 20) {
        Err(SettingsError::OverVoltageDisconnectMarginTooSmall)
    } else if !(s.battery_type == BatteryType::UserDefined) {
        Err(SettingsError::BatteryTypeNotUserDefined)
    } else {
        Ok(())
    }
}

impl VoltageSettings {
    /// Decodes the block from the response bytes of
    /// [`VoltageSettings::generate_get_command`]. The buffer must hold at
    /// least [`VoltageSettings::data_len`] bytes.
    pub fn from_bytes(bytes: &[u8]) -> (r: Self)
        requires
            bytes@.len() >= 30,
        ensures
            r == spec_voltage_settings_from_bytes(bytes@),
    {
        VoltageSettings {
            battery_type: BatteryType::from_raw(word_at(bytes, 0)),
            battery_capacity: word_at(bytes, 2),
            temperature_compensation_coefficient: word_at(bytes, 4),
            over_voltage_disconnect: fixed_at(bytes, 6),
            charging_limit_voltage: fixed_at(bytes, 8),
            over_voltage_reconnect: fixed_at(bytes, 10),
            equalization_voltage: fixed_at(bytes, 12),
            boost_voltage: fixed_at(bytes, 14),
            float_voltage: fixed_at(bytes, 16),
            boost_reconnect_voltage: fixed_at(bytes, 18),
            low_voltage_reconnect_voltage: fixed_at(bytes, 20),
            under_voltage_recover_voltage: fixed_at(bytes, 22),
            under_voltage_warning_voltage: fixed_at(bytes, 24),
            low_voltage_disconnect_voltage: fixed_at(bytes, 26),
            discharging_limit_voltage: fixed_at(bytes, 28),
        }
    }

    /// The number of data bytes the block decodes from.
    pub fn data_len() -> (r: usize)
        ensures
            r == 30,
    {
        30
    }

    /// The single request that fetches the block: fifteen holding
    /// registers, two bytes each, totalling [`VoltageSettings::data_len`].
    pub fn generate_get_command() -> (r: Command)
        ensures
            r == (Command::ModbusGetHoldings {
                register_address: VOLTAGE_SETTINGS_BASE_ADDRESS,
                size: 15,
            }),
            2 * r.spec_size() == 30,
    {
        Command::ModbusGetHoldings { register_address: VOLTAGE_SETTINGS_BASE_ADDRESS, size: 15 }
    }

    /// The write-holdings command that stores this block on the device,
    /// one register per field in block order.
    pub fn generate_set_command(&self) -> (r: Command)
        ensures
            r == (Command::ModbusSetHoldings {
                register_address: VOLTAGE_SETTINGS_BASE_ADDRESS,
                new_holding_values: crate::codec::HoldingValues {
                    v0: self.battery_type.spec_code(),
                    v1: self.battery_capacity,
                    v2: self.temperature_compensation_coefficient,
                    v3: self.over_voltage_disconnect.centi,
                    v4: self.charging_limit_voltage.centi,
                    v5: self.over_voltage_reconnect.centi,
                    v6: self.equalization_voltage.centi,
                    v7: self.boost_voltage.centi,
                    v8: self.float_voltage.centi,
                    v9: self.boost_reconnect_voltage.centi,
                    v10: self.low_voltage_reconnect_voltage.centi,
                    v11: self.under_voltage_recover_voltage.centi,
                    v12: self.under_voltage_warning_voltage.centi,
                    v13: self.low_voltage_disconnect_voltage.centi,
                    v14: self.discharging_limit_voltage.centi,
                },
            }),
    {
        Command::ModbusSetHoldings {
            register_address: VOLTAGE_SETTINGS_BASE_ADDRESS,
            new_holding_values: crate::codec::HoldingValues {
                v0: self.battery_type.code(),
                v1: self.battery_capacity,
                v2: self.temperature_compensation_coefficient,
                v3: self.over_voltage_disconnect.centi,
                v4: self.charging_limit_voltage.centi,
                v5: self.over_voltage_reconnect.centi,
                v6: self.equalization_voltage.centi,
                v7: self.boost_voltage.centi,
                v8: self.float_voltage.centi,
                v9: self.boost_reconnect_voltage.centi,
                v10: self.low_voltage_reconnect_voltage.centi,
                v11: self.under_voltage_recover_voltage.centi,
                v12: self.under_voltage_warning_voltage.centi,
                v13: self.low_voltage_disconnect_voltage.centi,
                v14: self.discharging_limit_voltage.centi,
            },
        }
    }

    /// Checks the block against the consistency rules for a
    /// lithium-iron-phosphate battery on user-defined thresholds,
    /// reporting the first broken rule in checking order
    /// (see [`spec_check_settings`]).
    pub fn check_settings_lifepo4(&self) -> (r: Result<(), SettingsError>)
        ensures
            r == spec_check_settings(*self),
    {
        if !(self.over_voltage_disconnect.centi > self.over_voltage_reconnect.centi) {
            Err(SettingsError::OverVoltageDisconnectNotAboveReconnect)
        } else if !(self.over_voltage_reconnect.centi == self.charging_limit_voltage.centi) {
            Err(SettingsError::OverVoltageReconnectNotChargingLimit)
        } else if !(self.charging_limit_voltage.centi >= self.equalization_voltage.centi) {
            Err(SettingsError::ChargingLimitBelowEqualization)
        } else if !(self.equalization_voltage.centi == self.boost_voltage.centi) {
            Err(SettingsError::EqualizationNotBoost)
        } else if !(self.boost_voltage.centi >= self.float_voltage.centi) {
            Err(SettingsError::BoostBelowFloat)
        } else if !(self.float_voltage.centi > self.boost_reconnect_voltage.centi) {
            Err(SettingsError::FloatNotAboveBoostReconnect)
        } else if !(self.boost_reconnect_voltage.centi > self.low_voltage_reconnect_voltage.centi) {
            Err(SettingsError::BoostReconnectNotAboveLowVoltageReconnect)
        } else if !(self.low_voltage_reconnect_voltage.centi
            > self.low_voltage_disconnect_voltage.centi) {
            Err(SettingsError::LowVoltageReconnectNotAboveDisconnect)
        } else if !(self.low_voltage_disconnect_voltage.centi
            >= self.discharging_limit_voltage.centi) {
            Err(SettingsError::LowVoltageDisconnectBelowDischargingLimit)
        } else if !(self.under_voltage_recover_voltage.centi
            > self.under_voltage_warning_voltage.centi) {
            Err(SettingsError::UnderVoltageRecoverNotAboveWarning)
        } else if !(self.under_voltage_warning_voltage.centi
            >= self.discharging_limit_voltage.centi) {
            Err(SettingsError::UnderVoltageWarningBelowDischargingLimit)
        } else if !(self.low_voltage_disconnect_voltage.centi as u32
            >= self.discharging_limit_voltage.centi as u32 + 20) {
            Err(SettingsError::LowVoltageDisconnectMarginTooSmall)
        } else if !(self.over_voltage_disconnect.centi as u32
            > self.charging_limit_voltage.centi as u32 + 20) {
            Err(SettingsError::OverVoltageDisconnectMarginTooSmall)
        } else if !(matches!(self.battery_type, BatteryType::UserDefined)) {
            Err(SettingsError::BatteryTypeNotUserDefined)
        } else {
            Ok(())
        }
    }
}

/// Everything the decoder knows about the device: one record of each
/// snapshot kind.
#[derive(Debug, Clone, PartialEq, Eq)]
pub struct Tracer {
    pub rated: Rated,
    pub realtime: Realtime,
    pub realtime_status: RealtimeStatus,
    pub stats: Stats,
    pub settings: VoltageSettings,
}

} // verus!
