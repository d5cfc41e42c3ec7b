//! Telemetry transport session.
//!
//! The session owns the one device connection and drives the cycle
//! `Listening -> handshake -> polling -> (on error) Disconnected ->
//! Listening`. All decisions live here as a pure state machine: the
//! caller performs each returned [`SessionAction`] (accept, write a
//! request and read its response, push a value to the consumer, poll the
//! inbound queue, sleep, tear the socket down) and reports the outcome
//! through the matching event handler. Every transport failure is fatal
//! to the current connection — nothing retries in place — except the
//! best-effort PV voltage poll; the inbound queue lives outside the
//! session, so it survives a reconnect.

use vstd::prelude::*;
use crate::codec::{Command, HoldingValues};
use crate::registers::{Rated, Realtime, RealtimeStatus, Stats, VoltageSettings};
use crate::registers::{spec_rated_from_bytes, spec_realtime_from_bytes,
    spec_realtime_status_from_bytes, spec_voltage_settings_from_bytes, spec_words};
use crate::registers::VOLTAGE_SETTINGS_BASE_ADDRESS;
use crate::remote::{RemoteData, buffer_words, spec_le_words, spec_be_words};
use crate::fixed::{word_from_be_pair, quad_from_be, spec_word_be, spec_quad_be};

verus! {

/// Milliseconds the session rests between polling rounds.
pub const POLL_INTERVAL_MS: u64 = 500;

/// One request the display layer can queue for the session to serve
/// against the device connection.
#[derive(Debug, Copy, Clone, PartialEq, Eq, Structural)]
pub enum ServerMessage {
    /// Serve a raw register read; commands of any other kind are ignored.
    Command(Command),
    ReadRealtime,
    ReadRealtimeStatus,
    ReadVoltageSettings,
    ReadRated,
    ReadStats,
    SetVoltageSettings(VoltageSettings),
}

/// Why the session gave up on the current connection.
#[derive(Debug, Copy, Clone, PartialEq, Eq, Structural)]
pub enum ServerError {
    /// A socket read or write failed or came up short.
    IoError,
    /// The consumer dropped its end of the outbound channel.
    SendError,
}

/// How many bytes a request reads back, known from the request itself:
/// responses carry no self-description.
#[derive(Debug, Copy, Clone, PartialEq, Eq, Structural)]
pub enum ReadPlan {
    /// Read exactly this many bytes.
    FixedLen(usize),
    /// Read a 4-byte big-endian length, then that many bytes.
    LengthPrefixed,
    /// The request reads nothing back.
    NoReply,
}

/// One request frame to write and the read that must follow it.
#[derive(Debug, Copy, Clone, PartialEq, Eq, Structural)]
pub struct ExchangeStep {
    pub request: Command,
    pub read: ReadPlan,
}

/// One complete request/response unit the session can run against the
/// device connection, named by what it fetches or stores.
#[derive(Debug, Copy, Clone, PartialEq, Eq, Structural)]
pub enum Exchange {
    BatteryVoltage,
    BatteryPackVoltage,
    PvVoltage,
    PvPower,
    VoltageInterval,
    PowerInterval,
    VoltageBufferSize,
    Retransmit,
    Holdings { register_address: u16, size: u8 },
    InputRegisters { register_address: u16, size: u8 },
    Realtime,
    RealtimeStatus,
    VoltageSettings,
    Rated,
    Stats,
    SetHoldings { register_address: u16, new_holding_values: HoldingValues },
}

/// The ordered steps of an exchange: which frames to write and how many
/// bytes each reads back.
pub open spec fn spec_steps(e: Exchange) -> Seq<ExchangeStep> {
    match e {
        Exchange::BatteryVoltage => seq![ExchangeStep {
            request: Command::GetBuffer(crate::codec::BufferType::Battery1Voltage),
            read: ReadPlan::LengthPrefixed,
        }],
        Exchange::BatteryPackVoltage => seq![ExchangeStep {
            request: Command::GetBuffer(crate::codec::BufferType::BatteryPackVoltage),
            read: ReadPlan::LengthPrefixed,
        }],
        Exchange::PvVoltage => seq![ExchangeStep {
            request: Command::GetBuffer(crate::codec::BufferType::PVVoltage),
            read: ReadPlan::LengthPrefixed,
        }],
        Exchange::PvPower => seq![ExchangeStep {
            request: Command::GetBuffer(crate::codec::BufferType::PVPower),
            read: ReadPlan::LengthPrefixed,
        }],
        Exchange::VoltageInterval => seq![ExchangeStep {
            request: Command::GetVoltageIntervalms,
            read: ReadPlan::FixedLen(2),
        }],
        Exchange::PowerInterval => seq![ExchangeStep {
            request: Command::GetPowerIntervalms,
            read: ReadPlan::FixedLen(2),
        }],
        Exchange::VoltageBufferSize => seq![ExchangeStep {
            request: Command::GetVoltageBufferSize,
            read: ReadPlan::FixedLen(4),
        }],
        Exchange::Retransmit => seq![ExchangeStep {
            request: Command::RetransmitBuffers,
            read: ReadPlan::NoReply,
        }],
        Exchange::Holdings { register_address, size } => seq![ExchangeStep {
            request: Command::ModbusGetHoldings { register_address, size },
            read: ReadPlan::FixedLen((2 * size) as usize),
        }],
        Exchange::InputRegisters { register_address, size } => seq![ExchangeStep {
            request: Command::ModbusGetInputRegisters { register_address, size },
            read: ReadPlan::FixedLen((2 * size) as usize),
        }],
        Exchange::Realtime => seq![
            ExchangeStep {
                request: Command::ModbusGetInputRegisters {
                    register_address: crate::registers::REALTIME_BASE_ADDRESS,
                    size: 4,
                },
                read: ReadPlan::FixedLen(8),
            },
            ExchangeStep {
                request: Command::ModbusGetInputRegisters {
                    register_address: (crate::registers::REALTIME_BASE_ADDRESS + 0x06) as u16,
                    size: 2,
                },
                read: ReadPlan::FixedLen(4),
            },
            ExchangeStep {
                request: Command::ModbusGetInputRegisters {
                    register_address: (crate::registers::REALTIME_BASE_ADDRESS + 0x0C) as u16,
                    size: 6,
                },
                read: ReadPlan::FixedLen(12),
            },
            ExchangeStep {
                request: Command::ModbusGetInputRegisters {
                    register_address: (crate::registers::REALTIME_BASE_ADDRESS + 0x1A) as u16,
                    size: 2,
                },
                read: ReadPlan::FixedLen(4),
            },
            ExchangeStep {
                request: Command::ModbusGetInputRegisters {
                    register_address: (crate::registers::REALTIME_BASE_ADDRESS + 0x1D) as u16,
                    size: 1,
                },
                read: ReadPlan::FixedLen(2),
            },
        ],
        Exchange::RealtimeStatus => seq![ExchangeStep {
            request: Command::ModbusGetInputRegisters {
                register_address: crate::registers::REALTIME_STATUS_BASE_ADDRESS,
                size: 3,
            },
            read: ReadPlan::FixedLen(6),
        }],
        Exchange::VoltageSettings => seq![ExchangeStep {
            request: Command::ModbusGetHoldings {
                register_address: VOLTAGE_SETTINGS_BASE_ADDRESS,
                size: 15,
            },
            read: ReadPlan::FixedLen(30),
        }],
        Exchange::Rated => seq![
            ExchangeStep {
                request: Command::ModbusGetInputRegisters {
                    register_address: crate::registers::RATED_BASE_ADDRESS,
                    size: 9,
                },
                read: ReadPlan::FixedLen(18),
            },
            ExchangeStep {
                request: Command::ModbusGetInputRegisters {
                    register_address: (crate::registers::RATED_BASE_ADDRESS + 0x0E) as u16,
                    size: 1,
                },
                read: ReadPlan::FixedLen(2),
            },
        ],
        Exchange::Stats => seq![
            ExchangeStep {
                request: Command::ModbusGetInputRegisters {
                    register_address: crate::registers::STATS_BASE_ADDRESS,
                    size: 20,
                },
                read: ReadPlan::FixedLen(40),
            },
            ExchangeStep {
                request: Command::ModbusGetInputRegisters {
                    register_address: (crate::registers::STATS_BASE_ADDRESS + 26) as u16,
                    size: 3,
                },
                read: ReadPlan::FixedLen(6),
            },
        ],
        Exchange::SetHoldings { register_address, new_holding_values } => seq![ExchangeStep {
            request: Command::ModbusSetHoldings { register_address, new_holding_values },
            read: ReadPlan::NoReply,
        }],
    }
}

impl Exchange {
    /// Writes out the ordered steps of this exchange
    /// (see [`spec_steps`]).
    pub fn steps(&self) -> (r: Vec<ExchangeStep>)
        ensures
            r@ =~= spec_steps(*self),
    {
        let mut r: Vec<ExchangeStep> = Vec::new();
        match self {
            Exchange::BatteryVoltage => {
                r.push(ExchangeStep {
                    request: Command::GetBuffer(crate::codec::BufferType::Battery1Voltage),
                    read: ReadPlan::LengthPrefixed,
                });
            }
            Exchange::BatteryPackVoltage => {
                r.push(ExchangeStep {
                    request: Command::GetBuffer(crate::codec::BufferType::BatteryPackVoltage),
                    read: ReadPlan::LengthPrefixed,
                });
            }
            Exchange::PvVoltage => {
                r.push(ExchangeStep {
                    request: Command::GetBuffer(crate::codec::BufferType::PVVoltage),
                    read: ReadPlan::LengthPrefixed,
                });
            }
            Exchange::PvPower => {
                r.push(ExchangeStep {
                    request: Command::GetBuffer(crate::codec::BufferType::PVPower),
                    read: ReadPlan::LengthPrefixed,
                });
            }
            Exchange::VoltageInterval => {
                r.push(ExchangeStep {
                    request: Command::GetVoltageIntervalms,
                    read: ReadPlan::FixedLen(2),
                });
            }
            Exchange::PowerInterval => {
                r.push(ExchangeStep {
                    request: Command::GetPowerIntervalms,
                    read: ReadPlan::FixedLen(2),
                });
            }
            Exchange::VoltageBufferSize => {
                r.push(ExchangeStep {
                    request: Command::GetVoltageBufferSize,
                    read: ReadPlan::FixedLen(4),
                });
            }
            Exchange::Retransmit => {
                r.push(ExchangeStep {
                    request: Command::RetransmitBuffers,
                    read: ReadPlan::NoReply,
                });
            }
            Exchange::Holdings { register_address, size } => {
                r.push(ExchangeStep {
                    request: Command::ModbusGetHoldings {
                        register_address: *register_address,
                        size: *size,
                    },
                    read: ReadPlan::FixedLen(2 * (*size as usize)),
                });
            }
            Exchange::InputRegisters { register_address, size } => {
                r.push(ExchangeStep {
                    request: Command::ModbusGetInputRegisters {
                        register_address: *register_address,
                        size: *size,
                    },
                    read: ReadPlan::FixedLen(2 * (*size as usize)),
                });
            }
            Exchange::Realtime => {
                let commands = Realtime::generate_commands();
                let mut i: usize = 0;
                r.push(ExchangeStep { request: commands[0], read: ReadPlan::FixedLen(8) });
                r.push(ExchangeStep { request: commands[1], read: ReadPlan::FixedLen(4) });
                r.push(ExchangeStep { request: commands[2], read: ReadPlan::FixedLen(12) });
                r.push(ExchangeStep { request: commands[3], read: ReadPlan::FixedLen(4) });
                r.push(ExchangeStep { request: commands[4], read: ReadPlan::FixedLen(2) });
            }
            Exchange::RealtimeStatus => {
                r.push(ExchangeStep {
                    request: RealtimeStatus::generate_command(),
                    read: ReadPlan::FixedLen(6),
                });
            }
            Exchange::VoltageSettings => {
                r.push(ExchangeStep {
                    request: VoltageSettings::generate_get_command(),
                    read: ReadPlan::FixedLen(30),
                });
            }
            Exchange::Rated => {
                let commands = Rated::generate_commands();
                r.push(ExchangeStep { request: commands[0], read: ReadPlan::FixedLen(18) });
                r.push(ExchangeStep { request: commands[1], read: ReadPlan::FixedLen(2) });
            }
            Exchange::Stats => {
                let commands = Stats::generate_get_commands();
                r.push(ExchangeStep { request: commands[0], read: ReadPlan::FixedLen(40) });
                r.push(ExchangeStep { request: commands[1], read: ReadPlan::FixedLen(6) });
            }
            Exchange::SetHoldings { register_address, new_holding_values } => {
                r.push(ExchangeStep {
                    request: Command::ModbusSetHoldings {
                        register_address: *register_address,
                        new_holding_values: *new_holding_values,
                    },
                    read: ReadPlan::NoReply,
                });
            }
        }
        r
    }
}

/// Why a response payload could not be decoded: the caller handed the
/// wrong number of payload blocks for the exchange, or a fixed-length
/// payload of the wrong length.
#[derive(Debug, Copy, Clone, PartialEq, Eq, Structural)]
pub enum ProtocolError {
    WrongPayloadCount,
    PayloadLengthMismatch,
}

/// The payload lengths an exchange demands, one entry per reading step:
/// an exact byte count for a fixed-length read, nothing for a
/// length-prefixed read (the prefix already declared the length).
pub open spec fn spec_expected_lens(e: Exchange) -> Seq<Option<nat>> {
    match e {
        Exchange::BatteryVoltage => seq![None],
        Exchange::BatteryPackVoltage => seq![None],
        Exchange::PvVoltage => seq![None],
        Exchange::PvPower => seq![None],
        Exchange::VoltageInterval => seq![Some(2nat)],
        Exchange::PowerInterval => seq![Some(2nat)],
        Exchange::VoltageBufferSize => seq![Some(4nat)],
        Exchange::Retransmit => seq![],
        Exchange::Holdings { size, .. } => seq![Some(2 * size as nat)],
        Exchange::InputRegisters { size, .. } => seq![Some(2 * size as nat)],
        Exchange::Realtime => seq![Some(8nat), Some(4nat), Some(12nat), Some(4nat), Some(2nat)],
        Exchange::RealtimeStatus => seq![Some(6nat)],
        Exchange::VoltageSettings => seq![Some(30nat)],
        Exchange::Rated => seq![Some(18nat), Some(2nat)],
        Exchange::Stats => seq![Some(40nat), Some(6nat)],
        Exchange::SetHoldings { .. } => seq![],
    }
}

/// The views of a sequence of payload blocks.
pub open spec fn spec_views(ps: Seq<Vec<u8>>) -> Seq<Seq<u8>> {
    ps.map_values(|p: Vec<u8>| p@)
}

/// The decode failure a payload set earns, if any: a count other than
/// one block per reading step, or a fixed-length block of the wrong
/// length.
pub open spec fn spec_payload_fault(e: Exchange, vs: Seq<Seq<u8>>) -> Option<ProtocolError> {
    let exp = spec_expected_lens(e);
    if vs.len() != exp.len() {
        Some(ProtocolError::WrongPayloadCount)
    } else if exists|i: int|
        0 <= i < exp.len() && exp[i] is Some && vs[i].len() != exp[i].unwrap() {
        Some(ProtocolError::PayloadLengthMismatch)
    } else {
        None
    }
}

/// What a successful decode of an exchange's payloads holds: the value
/// each exchange produces, stated over the payload bytes. Sample batches
/// are the payload's byte pairs in the machine's native order; register
/// blocks pass through; snapshots decode per their register layout.
pub open spec fn spec_decoded_matches(e: Exchange, vs: Seq<Seq<u8>>, d: RemoteData) -> bool {
    match e {
        Exchange::BatteryVoltage => d matches RemoteData::BatteryVoltage(w)
            && (w@ == spec_le_words(vs[0]) || w@ == spec_be_words(vs[0])),
        Exchange::BatteryPackVoltage => d matches RemoteData::BatteryPackVoltage(w)
            && (w@ == spec_le_words(vs[0]) || w@ == spec_be_words(vs[0])),
        Exchange::PvVoltage => d matches RemoteData::PVVoltage(w)
            && (w@ == spec_le_words(vs[0]) || w@ == spec_be_words(vs[0])),
        Exchange::PvPower => d matches RemoteData::PVPower(w)
            && (w@ == spec_le_words(vs[0]) || w@ == spec_be_words(vs[0])),
        Exchange::VoltageInterval => d matches RemoteData::VoltageIntervalms(x)
            && x == spec_word_be(vs[0][0], vs[0][1]),
        Exchange::PowerInterval => d matches RemoteData::PowerIntervalms(x)
            && x == spec_word_be(vs[0][0], vs[0][1]),
        Exchange::VoltageBufferSize => d matches RemoteData::VoltageBufferSize(n)
            && n == spec_quad_be(vs[0][0], vs[0][1], vs[0][2], vs[0][3]) as usize,
        Exchange::Retransmit => d is NoData,
        Exchange::Holdings { .. } => d matches RemoteData::Holdings(b) && b@ == vs[0],
        Exchange::InputRegisters { .. } => d matches RemoteData::InputRegisters(b) && b@ == vs[0],
        Exchange::Realtime => d matches RemoteData::Realtime(rt)
            && rt == spec_realtime_from_bytes(vs[0] + vs[1] + vs[2] + vs[3] + vs[4]),
        Exchange::RealtimeStatus => d matches RemoteData::RealtimeStatus(st)
            && st == spec_realtime_status_from_bytes(vs[0]),
        Exchange::VoltageSettings => d matches RemoteData::VoltageSettings(vsg)
            && vsg == spec_voltage_settings_from_bytes(vs[0]),
        Exchange::Rated => d matches RemoteData::Rated(rt)
            && rt == spec_rated_from_bytes(vs[0] + vs[1]),
        Exchange::Stats => d matches RemoteData::Stats(st)
            && st.energy_voltage_data@ == spec_words(vs[0], 20)
            && st.battery_data@ == spec_words(vs[1], 3),
        Exchange::SetHoldings { .. } => d is NoData,
    }
}

/// Appends a copy of a byte block to another.
fn append_bytes(dst: &mut Vec<u8>, src: &Vec<u8>)
    ensures
        final(dst)@ == old(dst)@ + src@,
{
    let mut j: usize = 0;
    while j < src.len()
        invariant
            j <= src@.len(),
            dst@ == old(dst)@ + src@.take(j as int),
        decreases src@.len() - j,
    {
        dst.push(src[j]);
        j = j + 1;
        proof {
            assert(dst@ =~= old(dst)@ + src@.take(j as int));
        }
    }
    proof {
        assert(dst@ =~= old(dst)@ + src@);
    }
}

/// Decodes the payload blocks an exchange read back — one block per
/// reading step, in step order — into the value the exchange produces
/// (see [`spec_decoded_matches`]); write-only exchanges produce no-data.
/// Fails exactly on a wrong block count or a wrong fixed-length block
/// length (see [`spec_payload_fault`]).
pub fn decode_exchange(e: &Exchange, payloads: &Vec<Vec<u8>>) -> (r: Result<
    RemoteData,
    ProtocolError,
>)
    ensures
        (match spec_payload_fault(*e, spec_views(payloads@)) {
            Some(pe) => r == Err::<RemoteData, ProtocolError>(pe),
            None => r matches Ok(d) && spec_decoded_matches(*e, spec_views(payloads@), d),
        }),
{
    let ghost vs = spec_views(payloads@);
    match e {
        Exchange::BatteryVoltage => {
            if payloads.len() != 1 {
                return Err(ProtocolError::WrongPayloadCount);
            }
            Ok(RemoteData::BatteryVoltage(buffer_words(payloads[0].as_slice())))
        }
        Exchange::BatteryPackVoltage => {
            if payloads.len() != 1 {
                return Err(ProtocolError::WrongPayloadCount);
            }
            Ok(RemoteData::BatteryPackVoltage(buffer_words(payloads[0].as_slice())))
        }
        Exchange::PvVoltage => {
            if payloads.len() != 1 {
                return Err(ProtocolError::WrongPayloadCount);
            }
            Ok(RemoteData::PVVoltage(buffer_words(payloads[0].as_slice())))
        }
        Exchange::PvPower => {
            if payloads.len() != 1 {
                return Err(ProtocolError::WrongPayloadCount);
            }
            Ok(RemoteData::PVPower(buffer_words(payloads[0].as_slice())))
        }
        Exchange::VoltageInterval => {
            if payloads.len() != 1 {
                return Err(ProtocolError::WrongPayloadCount);
            }
            let p = &payloads[0];
            if p.len() != 2 {
                proof {
                    let exp = spec_expected_lens(*e);
                    assert(0 <= 0 < exp.len() && exp[0] is Some && vs[0].len()
                        != exp[0].unwrap());
                }
                return Err(ProtocolError::PayloadLengthMismatch);
            }
            Ok(RemoteData::VoltageIntervalms(word_from_be_pair(p[0], p[1])))
        }
        Exchange::PowerInterval => {
            if payloads.len() != 1 {
                return Err(ProtocolError::WrongPayloadCount);
            }
            let p = &payloads[0];
            if p.len() != 2 {
                proof {
                    let exp = spec_expected_lens(*e);
                    assert(0 <= 0 < exp.len() && exp[0] is Some && vs[0].len()
                        != exp[0].unwrap());
                }
                return Err(ProtocolError::PayloadLengthMismatch);
            }
            Ok(RemoteData::PowerIntervalms(word_from_be_pair(p[0], p[1])))
        }
        Exchange::VoltageBufferSize => {
            if payloads.len() != 1 {
                return Err(ProtocolError::WrongPayloadCount);
            }
            let p = &payloads[0];
            if p.len() != 4 {
                proof {
                    let exp = spec_expected_lens(*e);
                    assert(0 <= 0 < exp.len() && exp[0] is Some && vs[0].len()
                        != exp[0].unwrap());
                }
                return Err(ProtocolError::PayloadLengthMismatch);
            }
            Ok(RemoteData::VoltageBufferSize(quad_from_be(p[0], p[1], p[2], p[3]) as usize))
        }
        Exchange::Retransmit => {
            if payloads.len() != 0 {
                return Err(ProtocolError::WrongPayloadCount);
            }
            Ok(RemoteData::NoData)
        }
        Exchange::Holdings { size, .. } => {
            if payloads.len() != 1 {
                return Err(ProtocolError::WrongPayloadCount);
            }
            let p = &payloads[0];
            if p.len() != 2 * (*size as usize) {
                proof {
                    let exp = spec_expected_lens(*e);
                    assert(0 <= 0 < exp.len() && exp[0] is Some && vs[0].len()
                        != exp[0].unwrap());
                }
                return Err(ProtocolError::PayloadLengthMismatch);
            }
            Ok(RemoteData::Holdings(p.clone()))
        }
        Exchange::InputRegisters { size, .. } => {
            if payloads.len() != 1 {
                return Err(ProtocolError::WrongPayloadCount);
            }
            let p = &payloads[0];
            if p.len() != 2 * (*size as usize) {
                proof {
                    let exp = spec_expected_lens(*e);
                    assert(0 <= 0 < exp.len() && exp[0] is Some && vs[0].len()
                        != exp[0].unwrap());
                }
                return Err(ProtocolError::PayloadLengthMismatch);
            }
            Ok(RemoteData::InputRegisters(p.clone()))
        }
        Exchange::Realtime => {
            if payloads.len() != 5 {
                return Err(ProtocolError::WrongPayloadCount);
            }
            if payloads[0].len() != 8 || payloads[1].len() != 4 || payloads[2].len() != 12
                || payloads[3].len() != 4 || payloads[4].len() != 2 {
                proof {
                    let exp = spec_expected_lens(*e);
                    if vs[0].len() != 8 {
                        assert(exp[0] is Some && vs[0].len() != exp[0].unwrap());
                    } else if vs[1].len() != 4 {
                        assert(exp[1] is Some && vs[1].len() != exp[1].unwrap());
                    } else if vs[2].len() != 12 {
                        assert(exp[2] is Some && vs[2].len() != exp[2].unwrap());
                    } else if vs[3].len() != 4 {
                        assert(exp[3] is Some && vs[3].len() != exp[3].unwrap());
                    } else {
                        assert(exp[4] is Some && vs[4].len() != exp[4].unwrap());
                    }
                }
                return Err(ProtocolError::PayloadLengthMismatch);
            }
            let mut bytes: Vec<u8> = Vec::new();
            append_bytes(&mut bytes, &payloads[0]);
            append_bytes(&mut bytes, &payloads[1]);
            append_bytes(&mut bytes, &payloads[2]);
            append_bytes(&mut bytes, &payloads[3]);
            append_bytes(&mut bytes, &payloads[4]);
            proof {
                assert(bytes@ =~= vs[0] + vs[1] + vs[2] + vs[3] + vs[4]);
            }
            Ok(RemoteData::Realtime(Realtime::from_bytes(bytes.as_slice())))
        }
        Exchange::RealtimeStatus => {
            if payloads.len() != 1 {
                return Err(ProtocolError::WrongPayloadCount);
            }
            let p = &payloads[0];
            if p.len() != 6 {
                proof {
                    let exp = spec_expected_lens(*e);
                    assert(0 <= 0 < exp.len() && exp[0] is Some && vs[0].len()
                        != exp[0].unwrap());
                }
                return Err(ProtocolError::PayloadLengthMismatch);
            }
            Ok(RemoteData::RealtimeStatus(RealtimeStatus::from_bytes(p.as_slice())))
        }
        Exchange::VoltageSettings => {
            if payloads.len() != 1 {
                return Err(ProtocolError::WrongPayloadCount);
            }
            let p = &payloads[0];
            if p.len() != 30 {
                proof {
                    let exp = spec_expected_lens(*e);
                    assert(0 <= 0 < exp.len() && exp[0] is Some && vs[0].len()
                        != exp[0].unwrap());
                }
                return Err(ProtocolError::PayloadLengthMismatch);
            }
            Ok(RemoteData::VoltageSettings(VoltageSettings::from_bytes(p.as_slice())))
        }
        Exchange::Rated => {
            if payloads.len() != 2 {
                return Err(ProtocolError::WrongPayloadCount);
            }
            if payloads[0].len() != 18 || payloads[1].len() != 2 {
                proof {
                    let exp = spec_expected_lens(*e);
                    if vs[0].len() != 18 {
                        assert(exp[0] is Some && vs[0].len() != exp[0].unwrap());
                    } else {
                        assert(exp[1] is Some && vs[1].len() != exp[1].unwrap());
                    }
                }
                return Err(ProtocolError::PayloadLengthMismatch);
            }
            let mut bytes: Vec<u8> = Vec::new();
            append_bytes(&mut bytes, &payloads[0]);
            append_bytes(&mut bytes, &payloads[1]);
            proof {
                assert(bytes@ =~= vs[0] + vs[1]);
            }
            Ok(RemoteData::Rated(Rated::from_bytes(bytes.as_slice())))
        }
        Exchange::Stats => {
            if payloads.len() != 2 {
                return Err(ProtocolError::WrongPayloadCount);
            }
            if payloads[0].len() != 40 || payloads[1].len() != 6 {
                proof {
                    let exp = spec_expected_lens(*e);
                    if vs[0].len() != 40 {
                        assert(exp[0] is Some && vs[0].len() != exp[0].unwrap());
                    } else {
                        assert(exp[1] is Some && vs[1].len() != exp[1].unwrap());
                    }
                }
                return Err(ProtocolError::PayloadLengthMismatch);
            }
            Ok(RemoteData::Stats(Stats::from_bytes(
                payloads[0].as_slice(),
                payloads[1].as_slice(),
            )))
        }
        Exchange::SetHoldings { .. } => {
            if payloads.len() != 0 {
                return Err(ProtocolError::WrongPayloadCount);
            }
            Ok(RemoteData::NoData)
        }
    }
}

/// Where the session stands in its connection cycle.
#[derive(Debug, Copy, Clone, PartialEq, Eq, Structural)]
pub enum SessionPhase {
    /// Waiting to accept the single inbound connection.
    Listening,
    /// Handshake: the voltage sampling interval read is in flight.
    HsVoltageInterval,
    /// Handshake: the sample-buffer capacity read is in flight.
    HsBufferSize,
    /// Handshake: the retransmit command that primes streaming is in
    /// flight.
    HsRetransmit,
    /// Polling: the battery voltage batch is in flight (a failure here is
    /// fatal to the connection).
    PollBattery,
    /// Polling: the battery-pack voltage batch is in flight (a failure
    /// here is fatal to the connection).
    PollBatteryPack,
    /// Polling: the PV voltage batch is in flight (best effort: a failure
    /// here only skips the batch).
    PollPv,
    /// Polling: draining the inbound queue, one queued request at a time.
    Draining,
    /// Polling: resting for [`POLL_INTERVAL_MS`] before the next round.
    Resting,
    /// The connection is being torn down.
    Disconnected,
}

/// What the caller must do next on the session's behalf.
#[derive(Debug, Clone, PartialEq, Eq)]
pub enum SessionAction {
    /// Wait for one inbound connection, then report it accepted.
    Accept,
    /// Write the exchange's request frames, read each response per its
    /// plan, decode, and report success with the value or failure.
    Run(Exchange),
    /// Push the value to the consumer; report a send failure.
    Emit(RemoteData),
    /// Poll the inbound queue without blocking; report one message or
    /// that it is empty.
    PollQueue,
    /// Sleep [`POLL_INTERVAL_MS`], then report the sleep elapsed.
    Sleep,
    /// Close the socket, then report the teardown complete.
    Teardown,
}

/// The decision state of the transport session: its phase and the shared
/// connected indicator it publishes.
#[derive(Debug, Copy, Clone, PartialEq, Eq, Structural)]
pub struct Session {
    pub phase: SessionPhase,
    pub connected: bool,
}

/// Whether the session has an exchange in flight, so an exchange outcome
/// is the event it expects.
pub open spec fn spec_awaits_exchange(s: Session) -> bool {
    match s.phase {
        SessionPhase::HsVoltageInterval => true,
        SessionPhase::HsBufferSize => true,
        SessionPhase::HsRetransmit => true,
        SessionPhase::PollBattery => true,
        SessionPhase::PollBatteryPack => true,
        SessionPhase::PollPv => true,
        SessionPhase::Draining => true,
        _ => false,
    }
}

/// The session after a successful exchange, with the actions to run: the
/// handshake emits its value and moves to its next step, each poll step
/// emits its batch and requests the next series, and a served queue
/// request emits its value (if it produced one) and returns to draining.
pub open spec fn spec_on_exchange_success(s: Session, data: RemoteData) -> (Session, Seq<
    SessionAction,
>) {
    match s.phase {
        SessionPhase::HsVoltageInterval => (
            Session { phase: SessionPhase::HsBufferSize, ..s },
            seq![
                SessionAction::Emit(data),
                SessionAction::Run(Exchange::VoltageBufferSize),
            ],
        ),
        SessionPhase::HsBufferSize => (
            Session { phase: SessionPhase::HsRetransmit, ..s },
            seq![SessionAction::Emit(data), SessionAction::Run(Exchange::Retransmit)],
        ),
        SessionPhase::HsRetransmit => (
            Session { phase: SessionPhase::PollBattery, ..s },
            seq![SessionAction::Run(Exchange::BatteryVoltage)],
        ),
        SessionPhase::PollBattery => (
            Session { phase: SessionPhase::PollBatteryPack, ..s },
            seq![
                SessionAction::Emit(data),
                SessionAction::Run(Exchange::BatteryPackVoltage),
            ],
        ),
        SessionPhase::PollBatteryPack => (
            Session { phase: SessionPhase::PollPv, ..s },
            seq![SessionAction::Emit(data), SessionAction::Run(Exchange::PvVoltage)],
        ),
        SessionPhase::PollPv => (
            Session { phase: SessionPhase::Draining, ..s },
            seq![SessionAction::Emit(data), SessionAction::PollQueue],
        ),
        SessionPhase::Draining => (
            s,
            if data is NoData {
                seq![SessionAction::PollQueue]
            } else {
                seq![SessionAction::Emit(data), SessionAction::PollQueue]
            },
        ),
        _ => (s, seq![]),
    }
}

/// The session after a failed exchange: a PV voltage failure only skips
/// the batch and moves on to the queue; any other failure clears the
/// connected indicator and tears the connection down.
pub open spec fn spec_on_exchange_failure(s: Session) -> (Session, Seq<SessionAction>) {
    if s.phase is PollPv {
        (Session { phase: SessionPhase::Draining, ..s }, seq![SessionAction::PollQueue])
    } else {
        (
            Session { phase: SessionPhase::Disconnected, connected: false },
            seq![SessionAction::Teardown],
        )
    }
}

/// The exchange that serves one queued request, or nothing for a raw
/// command of a kind the session does not serve.
pub open spec fn spec_exchange_for_message(m: ServerMessage) -> Option<Exchange> {
    match m {
        ServerMessage::Command(c) => match c {
            Command::ModbusGetHoldings { register_address, size } => Some(
                Exchange::Holdings { register_address, size },
            ),
            Command::ModbusGetInputRegisters { register_address, size } => Some(
                Exchange::InputRegisters { register_address, size },
            ),
            _ => None,
        },
        ServerMessage::ReadRealtime => Some(Exchange::Realtime),
        ServerMessage::ReadRealtimeStatus => Some(Exchange::RealtimeStatus),
        ServerMessage::ReadVoltageSettings => Some(Exchange::VoltageSettings),
        ServerMessage::ReadRated => Some(Exchange::Rated),
        ServerMessage::ReadStats => Some(Exchange::Stats),
        ServerMessage::SetVoltageSettings(vs) => Some(
            Exchange::SetHoldings {
                register_address: VOLTAGE_SETTINGS_BASE_ADDRESS,
                new_holding_values: HoldingValues {
                    v0: vs.battery_type.spec_code(),
                    v1: vs.battery_capacity,
                    v2: vs.temperature_compensation_coefficient,
                    v3: vs.over_voltage_disconnect.centi,
                    v4: vs.charging_limit_voltage.centi,
                    v5: vs.over_voltage_reconnect.centi,
                    v6: vs.equalization_voltage.centi,
                    v7: vs.boost_voltage.centi,
                    v8: vs.float_voltage.centi,
                    v9: vs.boost_reconnect_voltage.centi,
                    v10: vs.low_voltage_reconnect_voltage.centi,
                    v11: vs.under_voltage_recover_voltage.centi,
                    v12: vs.under_voltage_warning_voltage.centi,
                    v13: vs.low_voltage_disconnect_voltage.centi,
                    v14: vs.discharging_limit_voltage.centi,
                },
            },
        ),
    }
}

impl Session {
    /// A fresh session: listening, with the connected indicator clear.
    pub fn new() -> (r: Self)
        ensures
            r.phase is Listening,
            !r.connected,
    {
        Session { phase: SessionPhase::Listening, connected: false }
    }

    /// A connection was accepted: publish the connected indicator and
    /// open the handshake with the voltage-interval read.
    pub fn on_connection_accepted(&mut self) -> (r: SessionAction)
        requires
            old(self).phase is Listening,
        ensures
            final(self).phase is HsVoltageInterval,
            final(self).connected,
            r == SessionAction::Run(Exchange::VoltageInterval),
    {
        self.phase = SessionPhase::HsVoltageInterval;
        self.connected = true;
        SessionAction::Run(Exchange::VoltageInterval)
    }

    /// The exchange in flight succeeded and decoded to `data`
    /// (see [`spec_on_exchange_success`]).
    pub fn on_exchange_success(&mut self, data: RemoteData) -> (r: Vec<SessionAction>)
        requires
            spec_awaits_exchange(*old(self)),
        ensures
            *final(self) == spec_on_exchange_success(*old(self), data).0,
            r@ =~= spec_on_exchange_success(*old(self), data).1,
    {
        let mut actions: Vec<SessionAction> = Vec::new();
        match self.phase {
            SessionPhase::HsVoltageInterval => {
                self.phase = SessionPhase::HsBufferSize;
                actions.push(SessionAction::Emit(data));
                actions.push(SessionAction::Run(Exchange::VoltageBufferSize));
            }
            SessionPhase::HsBufferSize => {
                self.phase = SessionPhase::HsRetransmit;
                actions.push(SessionAction::Emit(data));
                actions.push(SessionAction::Run(Exchange::Retransmit));
            }
            SessionPhase::HsRetransmit => {
                self.phase = SessionPhase::PollBattery;
                actions.push(SessionAction::Run(Exchange::BatteryVoltage));
            }
            SessionPhase::PollBattery => {
                self.phase = SessionPhase::PollBatteryPack;
                actions.push(SessionAction::Emit(data));
                actions.push(SessionAction::Run(Exchange::BatteryPackVoltage));
            }
            SessionPhase::PollBatteryPack => {
                self.phase = SessionPhase::PollPv;
                actions.push(SessionAction::Emit(data));
                actions.push(SessionAction::Run(Exchange::PvVoltage));
            }
            SessionPhase::PollPv => {
                self.phase = SessionPhase::Draining;
                actions.push(SessionAction::Emit(data));
                actions.push(SessionAction::PollQueue);
            }
            SessionPhase::Draining => {
                let emit = match &data {
                    RemoteData::NoData => false,
                    _ => true,
                };
                if emit {
                    actions.push(SessionAction::Emit(data));
                }
                actions.push(SessionAction::PollQueue);
            }
            _ => {}
        }
        actions
    }

    /// The exchange in flight failed (see [`spec_on_exchange_failure`]):
    /// fatal to the connection unless it was the best-effort PV poll.
    pub fn on_exchange_failure(&mut self) -> (r: Vec<SessionAction>)
        requires
            spec_awaits_exchange(*old(self)),
        ensures
            *final(self) == spec_on_exchange_failure(*old(self)).0,
            r@ =~= spec_on_exchange_failure(*old(self)).1,
    {
        let mut actions: Vec<SessionAction> = Vec::new();
        match self.phase {
            SessionPhase::PollPv => {
                self.phase = SessionPhase::Draining;
                actions.push(SessionAction::PollQueue);
            }
            _ => {
                self.phase = SessionPhase::Disconnected;
                self.connected = false;
                actions.push(SessionAction::Teardown);
            }
        }
        actions
    }

    /// The queue poll produced one request: serve it against the same
    /// connection, or skip a raw command of a kind the session does not
    /// serve.
    pub fn on_queue_message(&mut self, message: ServerMessage) -> (r: Vec<SessionAction>)
        requires
            old(self).phase is Draining,
        ensures
            *final(self) == *old(self),
            (match spec_exchange_for_message(message) {
                Some(e) => r@ =~= seq![SessionAction::Run(e)],
                None => r@ =~= seq![SessionAction::PollQueue],
            }),
    {
        let mut actions: Vec<SessionAction> = Vec::new();
        match message {
            ServerMessage::Command(c) => match c {
                Command::ModbusGetHoldings { register_address, size } => {
                    actions.push(SessionAction::Run(Exchange::Holdings {
                        register_address,
                        size,
                    }));
                }
                Command::ModbusGetInputRegisters { register_address, size } => {
                    actions.push(SessionAction::Run(Exchange::InputRegisters {
                        register_address,
                        size,
                    }));
                }
                _ => {
                    actions.push(SessionAction::PollQueue);
                }
            },
            ServerMessage::ReadRealtime => {
                actions.push(SessionAction::Run(Exchange::Realtime));
            }
            ServerMessage::ReadRealtimeStatus => {
                actions.push(SessionAction::Run(Exchange::RealtimeStatus));
            }
            ServerMessage::ReadVoltageSettings => {
                actions.push(SessionAction::Run(Exchange::VoltageSettings));
            }
            ServerMessage::ReadRated => {
                actions.push(SessionAction::Run(Exchange::Rated));
            }
            ServerMessage::ReadStats => {
                actions.push(SessionAction::Run(Exchange::Stats));
            }
            ServerMessage::SetVoltageSettings(vs) => {
                let command = vs.generate_set_command();
                match command {
                    Command::ModbusSetHoldings { register_address, new_holding_values } => {
                        actions.push(SessionAction::Run(Exchange::SetHoldings {
                            register_address,
                            new_holding_values,
                        }));
                    }
                    _ => {}
                }
            }
        }
        actions
    }

    /// The queue is drained: rest before the next polling round.
    pub fn on_queue_empty(&mut self) -> (r: SessionAction)
        requires
            old(self).phase is Draining,
        ensures
            final(self).phase is Resting,
            final(self).connected == old(self).connected,
            r == SessionAction::Sleep,
    {
        self.phase = SessionPhase::Resting;
        SessionAction::Sleep
    }

    /// The rest elapsed: open the next polling round with the battery
    /// voltage batch.
    pub fn on_sleep_elapsed(&mut self) -> (r: SessionAction)
        requires
            old(self).phase is Resting,
        ensures
            final(self).phase is PollBattery,
            final(self).connected == old(self).connected,
            r == SessionAction::Run(Exchange::BatteryVoltage),
    {
        self.phase = SessionPhase::PollBattery;
        SessionAction::Run(Exchange::BatteryVoltage)
    }

    /// Pushing a value to the consumer failed: no delivery path remains,
    /// so clear the connected indicator and tear the connection down.
    pub fn on_send_failed(&mut self) -> (r: SessionAction)
        ensures
            final(self).phase is Disconnected,
            !final(self).connected,
            r == SessionAction::Teardown,
    {
        self.phase = SessionPhase::Disconnected;
        self.connected = false;
        SessionAction::Teardown
    }

    /// The socket is closed: listen for a new inbound connection; the
    /// inbound queue is untouched by the teardown, so requests queued
    /// before the failure are served on the next connection.
    pub fn on_torn_down(&mut self) -> (r: SessionAction)
        requires
            old(self).phase is Disconnected,
        ensures
            final(self).phase is Listening,
            !final(self).connected,
            r == SessionAction::Accept,
    {
        self.phase = SessionPhase::Listening;
        self.connected = false;
        SessionAction::Accept
    }
}

/// Law: a device disconnect mid-poll — a failed battery-voltage read
/// while polling — clears the connected indicator, tears the socket
/// down, and returns the session to listening; no step panics and the
/// inbound queue, which lives outside the session, is untouched.
pub proof fn lemma_disconnect_recovers(s: Session)
    requires
        s.phase is PollBattery,
    ensures
        ({
            let (down, acts) = spec_on_exchange_failure(s);
            &&& !down.connected
            &&& down.phase is Disconnected
            &&& acts == seq![SessionAction::Teardown]
        }),
{
}

} // verus!
