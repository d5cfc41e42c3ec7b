//! Wire codec for the fixed-format command frames.
//!
//! Every command occupies exactly [`COMMAND_SIZE`] bytes on the wire: a
//! 1-byte discriminant followed by a payload whose layout depends on the
//! discriminant, zero-padded to the frame length. Responses carry no
//! self-description, so the reader must know from the issued command how
//! many bytes to read back.

use vstd::prelude::*;

verus! {

/// Exact length in bytes of every encoded command frame.
pub const COMMAND_SIZE: usize = 33;

/// Number of 16-bit values carried by a write-holdings command.
pub const HOLDING_COUNT: usize = 15;

/// Selects which streamed sample buffer a fetch-buffer command names.
#[derive(Debug, Clone, Copy, PartialEq, Eq, Structural)]
pub enum BufferType {
    PVVoltage,
    PVPower,
    Battery1Voltage,
    BatteryPackVoltage,
    InverterPower,
}

impl BufferType {
    /// The wire code of this buffer kind (payload byte 0 of fetch-buffer).
    pub open spec fn spec_code(self) -> u8 {
        match self {
            BufferType::PVVoltage => 0,
            BufferType::PVPower => 1,
            BufferType::Battery1Voltage => 2,
            BufferType::BatteryPackVoltage => 3,
            BufferType::InverterPower => 4,
        }
    }

    /// Writes the wire code for this buffer kind.
    pub fn code(&self) -> (r: u8)
        ensures
            r == self.spec_code(),
    {
        match self {
            BufferType::PVVoltage => 0,
            BufferType::PVPower => 1,
            BufferType::Battery1Voltage => 2,
            BufferType::BatteryPackVoltage => 3,
            BufferType::InverterPower => 4,
        }
    }
}

/// The fifteen 16-bit values carried by a write-holdings command, one
/// register each, in ascending register order.
#[derive(Debug, Clone, Copy, PartialEq, Eq, Structural)]
pub struct HoldingValues {
    pub v0: u16,
    pub v1: u16,
    pub v2: u16,
    pub v3: u16,
    pub v4: u16,
    pub v5: u16,
    pub v6: u16,
    pub v7: u16,
    pub v8: u16,
    pub v9: u16,
    pub v10: u16,
    pub v11: u16,
    pub v12: u16,
    pub v13: u16,
    pub v14: u16,
}

impl HoldingValues {
    /// The values in register order.
    pub open spec fn as_seq(self) -> Seq<u16> {
        seq![
            self.v0, self.v1, self.v2, self.v3, self.v4, self.v5, self.v6, self.v7, self.v8,
            self.v9, self.v10, self.v11, self.v12, self.v13, self.v14,
        ]
    }

    /// Reads the value of the `i`th register of the block.
    pub fn get(&self, i: usize) -> (r: u16)
        requires
            i < HOLDING_COUNT,
        ensures
            r == self.as_seq()[i as int],
    {
        match i {
            0 => self.v0,
            1 => self.v1,
            2 => self.v2,
            3 => self.v3,
            4 => self.v4,
            5 => self.v5,
            6 => self.v6,
            7 => self.v7,
            8 => self.v8,
            9 => self.v9,
            10 => self.v10,
            11 => self.v11,
            12 => self.v12,
            13 => self.v13,
            _ => self.v14,
        }
    }

    /// A block with every register zero.
    pub fn zeroed() -> (r: Self)
        ensures
            r.as_seq() == Seq::new(HOLDING_COUNT as nat, |i: int| 0u16),
    {
        let r = HoldingValues {
            v0: 0, v1: 0, v2: 0, v3: 0, v4: 0, v5: 0, v6: 0, v7: 0,
            v8: 0, v9: 0, v10: 0, v11: 0, v12: 0, v13: 0, v14: 0,
        };
        proof {
            assert(r.as_seq() =~= Seq::new(HOLDING_COUNT as nat, |i: int| 0u16));
        }
        r
    }
}

/// Every request the transport session can issue, one variant per wire
/// discriminant, in discriminant order.
#[derive(Debug, Clone, Copy, PartialEq, Eq, Structural)]
pub enum Command {
    GetVoltageIntervalms,
    GetPowerIntervalms,
    GetVoltageBufferSize,
    GetBuffer(BufferType),
    RetransmitBuffers,
    ModbusGetHoldings { register_address: u16, size: u8 },
    ModbusGetInputRegisters { register_address: u16, size: u8 },
    ModbusSetHoldings { register_address: u16, new_holding_values: HoldingValues },
}

/// Decoding a byte block that spells no known command fails with this
/// typed error; it never panics.
#[derive(Debug, Clone, Copy, PartialEq, Eq, Structural)]
pub enum DecodeError {
    /// The leading bytes match no command layout.
    Unrecognized,
}

/// A sequence of `n` zero bytes.
pub open spec fn spec_zeros(n: nat) -> Seq<u8> {
    Seq::new(n, |i: int| 0u8)
}

/// The thirty bytes that spell a holdings block: each value big-endian,
/// in register order.
pub open spec fn spec_holding_bytes(h: HoldingValues) -> Seq<u8> {
    Seq::new(30, |i: int|
        if i % 2 == 0 {
            (h.as_seq()[i / 2] / 256) as u8
        } else {
            (h.as_seq()[i / 2] % 256) as u8
        })
}

/// The wire discriminant of a command (byte 0 of its frame).
pub open spec fn spec_discriminant(c: Command) -> u8 {
    match c {
        Command::GetVoltageIntervalms => 0,
        Command::GetPowerIntervalms => 1,
        Command::GetVoltageBufferSize => 2,
        Command::GetBuffer(_) => 3,
        Command::RetransmitBuffers => 4,
        Command::ModbusGetHoldings { .. } => 5,
        Command::ModbusGetInputRegisters { .. } => 6,
        Command::ModbusSetHoldings { .. } => 7,
    }
}

/// The full frame a command encodes to: discriminant, payload, zero
/// padding up to [`COMMAND_SIZE`] bytes.
pub open spec fn spec_encode(c: Command) -> Seq<u8> {
    match c {
        Command::GetBuffer(bt) => seq![3u8, bt.spec_code()] + spec_zeros(31),
        Command::ModbusGetHoldings { register_address, size } =>
            seq![5u8, (register_address / 256) as u8, (register_address % 256) as u8, size]
                + spec_zeros(29),
        Command::ModbusGetInputRegisters { register_address, size } =>
            seq![6u8, (register_address / 256) as u8, (register_address % 256) as u8, size]
                + spec_zeros(29),
        Command::ModbusSetHoldings { register_address, new_holding_values } =>
            seq![7u8, (register_address / 256) as u8, (register_address % 256) as u8]
                + spec_holding_bytes(new_holding_values),
        _ => seq![spec_discriminant(c)] + spec_zeros(32),
    }
}

/// The command spelled by a byte block, if any. Dispatches purely on
/// byte 0; unmatched leading bytes (including empty input) decode to
/// nothing. A write-holdings block with fewer than thirty payload bytes
/// after the address decodes to nothing as well.
pub open spec fn spec_decode(s: Seq<u8>) -> Option<Command> {
    if s.len() == 0 {
        None
    } else if s[0] == 0 {
        Some(Command::GetVoltageIntervalms)
    } else if s[0] == 1 {
        Some(Command::GetPowerIntervalms)
    } else if s[0] == 2 {
        Some(Command::GetVoltageBufferSize)
    } else if s[0] == 3 {
        if s.len() >= 2 && s[1] == 0 {
            Some(Command::GetBuffer(BufferType::PVVoltage))
        } else if s.len() >= 2 && s[1] == 1 {
            Some(Command::GetBuffer(BufferType::PVPower))
        } else if s.len() >= 2 && s[1] == 2 {
            Some(Command::GetBuffer(BufferType::Battery1Voltage))
        } else if s.len() >= 2 && s[1] == 3 {
            Some(Command::GetBuffer(BufferType::BatteryPackVoltage))
        } else if s.len() >= 2 && s[1] == 4 {
            Some(Command::GetBuffer(BufferType::InverterPower))
        } else {
            None
        }
    } else if s[0] == 4 {
        Some(Command::RetransmitBuffers)
    } else if s[0] == 5 && s.len() >= 4 {
        Some(Command::ModbusGetHoldings {
            register_address: spec_word_at(s, 1),
            size: s[3],
        })
    } else if s[0] == 6 && s.len() >= 4 {
        Some(Command::ModbusGetInputRegisters {
            register_address: spec_word_at(s, 1),
            size: s[3],
        })
    } else if s[0] == 7 && s.len() >= 33 {
        Some(Command::ModbusSetHoldings {
            register_address: spec_word_at(s, 1),
            new_holding_values: spec_holdings_at(s, 3),
        })
    } else {
        None
    }
}

/// The big-endian 16-bit value at byte offset `i`.
pub open spec fn spec_word_at(s: Seq<u8>, i: int) -> u16 {
    (s[i] * 256 + s[i + 1]) as u16
}

/// The holdings block spelled by thirty bytes starting at offset `i`.
pub open spec fn spec_holdings_at(s: Seq<u8>, i: int) -> HoldingValues {
    HoldingValues {
        v0: spec_word_at(s, i),
        v1: spec_word_at(s, i + 2),
        v2: spec_word_at(s, i + 4),
        v3: spec_word_at(s, i + 6),
        v4: spec_word_at(s, i + 8),
        v5: spec_word_at(s, i + 10),
        v6: spec_word_at(s, i + 12),
        v7: spec_word_at(s, i + 14),
        v8: spec_word_at(s, i + 16),
        v9: spec_word_at(s, i + 18),
        v10: spec_word_at(s, i + 20),
        v11: spec_word_at(s, i + 22),
        v12: spec_word_at(s, i + 24),
        v13: spec_word_at(s, i + 26),
        v14: spec_word_at(s, i + 28),
    }
}

/// Appends zero bytes until the block reaches `n` bytes.
fn pad_to(v: &mut Vec<u8>, n: usize)
    requires
        old(v)@.len() <= n,
    ensures
        final(v)@ == old(v)@ + spec_zeros((n - old(v)@.len()) as nat),
{
    let start: usize = v.len();
    proof {
        assert(v@ =~= old(v)@ + spec_zeros(0));
    }
    while v.len() < n
        invariant
            start == old(v)@.len(),
            start <= v@.len() <= n,
            v@ == old(v)@ + spec_zeros((v@.len() - start) as nat),
        decreases n - v@.len(),
    {
        v.push(0);
        proof {
            assert(v@ =~= old(v)@ + spec_zeros((v@.len() - start) as nat));
        }
    }
    proof {
        assert(v@ =~= old(v)@ + spec_zeros((n - start) as nat));
    }
}

impl Command {
    /// Encodes this command as its fixed-length wire frame: discriminant
    /// byte, payload, zero padding to [`COMMAND_SIZE`] bytes.
    pub fn to_bytes(&self) -> (r: Vec<u8>)
        ensures
            r@ == spec_encode(*self),
            r@.len() == COMMAND_SIZE,
    {
        let mut r: Vec<u8> = Vec::new();
        match self {
            Command::GetBuffer(bt) => {
                r.push(3);
                r.push(bt.code());
            }
            Command::ModbusGetHoldings { register_address, size } => {
                r.push(5);
                let (hi, lo) = crate::fixed::word_to_be_pair(*register_address);
                r.push(hi);
                r.push(lo);
                r.push(*size);
            }
            Command::ModbusGetInputRegisters { register_address, size } => {
                r.push(6);
                let (hi, lo) = crate::fixed::word_to_be_pair(*register_address);
                r.push(hi);
                r.push(lo);
                r.push(*size);
            }
            Command::ModbusSetHoldings { register_address, new_holding_values } => {
                r.push(7);
                let (hi, lo) = crate::fixed::word_to_be_pair(*register_address);
                r.push(hi);
                r.push(lo);
                let mut i: usize = 0;
                proof {
                    assert(r@ =~= (seq![
                        7u8,
                        ((*register_address) / 256) as u8,
                        ((*register_address) % 256) as u8,
                    ]) + spec_holding_bytes(*new_holding_values).take(0));
                }
                while i < HOLDING_COUNT
                    invariant
                        i <= HOLDING_COUNT,
                        r@ == (seq![
                            7u8,
                            ((*register_address) / 256) as u8,
                            ((*register_address) % 256) as u8,
                        ]) + spec_holding_bytes(*new_holding_values).take(2 * i),
                    decreases HOLDING_COUNT - i,
                {
                    let (vhi, vlo) = crate::fixed::word_to_be_pair(new_holding_values.get(i));
                    r.push(vhi);
                    r.push(vlo);
                    i = i + 1;
                    proof {
                        assert(r@ =~= (seq![
                            7u8,
                            ((*register_address) / 256) as u8,
                            ((*register_address) % 256) as u8,
                        ]) + spec_holding_bytes(*new_holding_values).take(2 * i));
                    }
                }
            }
            Command::GetVoltageIntervalms => {
                r.push(0);
            }
            Command::GetPowerIntervalms => {
                r.push(1);
            }
            Command::GetVoltageBufferSize => {
                r.push(2);
            }
            Command::RetransmitBuffers => {
                r.push(4);
            }
        }
        pad_to(&mut r, COMMAND_SIZE);
        proof {
            assert(r@ =~= spec_encode(*self));
        }
        r
    }

    /// The number of 16-bit registers this command reads back: the
    /// requested count for register reads, zero for everything else.
    pub open spec fn spec_size(self) -> u8 {
        match self {
            Command::ModbusGetHoldings { size, .. } => size,
            Command::ModbusGetInputRegisters { size, .. } => size,
            _ => 0,
        }
    }

    /// Reads the register count of this command (see [`Self::spec_size`]).
    pub fn size(&self) -> (r: u8)
        ensures
            r == self.spec_size(),
    {
        match self {
            Command::ModbusGetHoldings { size, .. } => *size,
            Command::ModbusGetInputRegisters { size, .. } => *size,
            _ => 0,
        }
    }

    /// Decodes the command spelled by a byte block, dispatching on byte 0.
    /// Returns the typed decode failure on unmatched leading bytes — an
    /// unknown discriminant, empty input, or a block too short for the
    /// discriminant's payload — and never panics.
    pub fn try_from_bytes(value: &[u8]) -> (r: Result<Command, DecodeError>)
        ensures
            (match spec_decode(value@) {
                Some(c) => r == Ok::<Command, DecodeError>(c),
                None => r == Err::<Command, DecodeError>(DecodeError::Unrecognized),
            }),
    {
        if value.len() == 0 {
            return Err(DecodeError::Unrecognized);
        }
        match value[0] {
            0 => Ok(Command::GetVoltageIntervalms),
            1 => Ok(Command::GetPowerIntervalms),
            2 => Ok(Command::GetVoltageBufferSize),
            3 => {
                if value.len() < 2 {
                    return Err(DecodeError::Unrecognized);
                }
                match value[1] {
                    0 => Ok(Command::GetBuffer(BufferType::PVVoltage)),
                    1 => Ok(Command::GetBuffer(BufferType::PVPower)),
                    2 => Ok(Command::GetBuffer(BufferType::Battery1Voltage)),
                    3 => Ok(Command::GetBuffer(BufferType::BatteryPackVoltage)),
                    4 => Ok(Command::GetBuffer(BufferType::InverterPower)),
                    _ => Err(DecodeError::Unrecognized),
                }
            }
            4 => Ok(Command::RetransmitBuffers),
            5 => {
                if value.len() < 4 {
                    return Err(DecodeError::Unrecognized);
                }
                Ok(Command::ModbusGetHoldings {
                    register_address: crate::fixed::word_from_be_pair(value[1], value[2]),
                    size: value[3],
                })
            }
            6 => {
                if value.len() < 4 {
                    return Err(DecodeError::Unrecognized);
                }
                Ok(Command::ModbusGetInputRegisters {
                    register_address: crate::fixed::word_from_be_pair(value[1], value[2]),
                    size: value[3],
                })
            }
            7 => {
                if value.len() < 33 {
                    return Err(DecodeError::Unrecognized);
                }
                let vals = HoldingValues {
                    v0: crate::fixed::word_from_be_pair(value[3], value[4]),
                    v1: crate::fixed::word_from_be_pair(value[5], value[6]),
                    v2: crate::fixed::word_from_be_pair(value[7], value[8]),
                    v3: crate::fixed::word_from_be_pair(value[9], value[10]),
                    v4: crate::fixed::word_from_be_pair(value[11], value[12]),
                    v5: crate::fixed::word_from_be_pair(value[13], value[14]),
                    v6: crate::fixed::word_from_be_pair(value[15], value[16]),
                    v7: crate::fixed::word_from_be_pair(value[17], value[18]),
                    v8: crate::fixed::word_from_be_pair(value[19], value[20]),
                    v9: crate::fixed::word_from_be_pair(value[21], value[22]),
                    v10: crate::fixed::word_from_be_pair(value[23], value[24]),
                    v11: crate::fixed::word_from_be_pair(value[25], value[26]),
                    v12: crate::fixed::word_from_be_pair(value[27], value[28]),
                    v13: crate::fixed::word_from_be_pair(value[29], value[30]),
                    v14: crate::fixed::word_from_be_pair(value[31], value[32]),
                };
                Ok(Command::ModbusSetHoldings {
                    register_address: crate::fixed::word_from_be_pair(value[1], value[2]),
                    new_holding_values: vals,
                })
            }
            _ => Err(DecodeError::Unrecognized),
        }
    }
}

/// Law: every command decodes back to itself from its own frame — the
/// codec round-trips every variant, all fifteen write-holdings values
/// included.
pub proof fn lemma_command_round_trip(c: Command)
    ensures
        spec_decode(spec_encode(c)) == Some(c),
{
    let s = spec_encode(c);
    match c {
        Command::GetBuffer(bt) => {
            assert(s.len() == 33);
            assert(s[0] == 3);
            match bt {
                BufferType::PVVoltage => assert(s[1] == 0),
                BufferType::PVPower => assert(s[1] == 1),
                BufferType::Battery1Voltage => assert(s[1] == 2),
                BufferType::BatteryPackVoltage => assert(s[1] == 3),
                BufferType::InverterPower => assert(s[1] == 4),
            }
        }
        Command::ModbusGetHoldings { register_address, size } => {
            assert(s.len() == 33);
            assert(s[0] == 5);
            assert(spec_word_at(s, 1) == register_address);
            assert(s[3] == size);
        }
        Command::ModbusGetInputRegisters { register_address, size } => {
            assert(s.len() == 33);
            assert(s[0] == 6);
            assert(spec_word_at(s, 1) == register_address);
            assert(s[3] == size);
        }
        Command::ModbusSetHoldings { register_address, new_holding_values } => {
            assert(s.len() == 33);
            assert(s[0] == 7);
            assert(spec_word_at(s, 1) == register_address);
            let h = new_holding_values;
            let d = spec_holdings_at(s, 3);
            assert(d.v0 == h.v0);
            assert(d.v1 == h.v1);
            assert(d.v2 == h.v2);
            assert(d.v3 == h.v3);
            assert(d.v4 == h.v4);
            assert(d.v5 == h.v5);
            assert(d.v6 == h.v6);
            assert(d.v7 == h.v7);
            assert(d.v8 == h.v8);
            assert(d.v9 == h.v9);
            assert(d.v10 == h.v10);
            assert(d.v11 == h.v11);
            assert(d.v12 == h.v12);
            assert(d.v13 == h.v13);
            assert(d.v14 == h.v14);
        }
        _ => {
            assert(s.len() == 33);
        }
    }
}

} // verus!
