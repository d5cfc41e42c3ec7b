//! Everything the transport session can produce for its consumer.
//!
//! Streamed sample batches arrive as raw byte blocks that the device
//! wrote from its own 16-bit sample memory; they are reinterpreted as
//! words in the machine's native byte order. Each batch is moved out to
//! the consumer exactly once: the take operations leave the no-data
//! placeholder behind, so the same batch is never delivered twice.

use vstd::prelude::*;
use crate::registers::{Rated, Realtime, RealtimeStatus, Stats, VoltageSettings};

verus! {

/// The value of the byte at `i`, reading zero beyond the end of the block.
pub open spec fn spec_byte_or_zero(s: Seq<u8>, i: int) -> u8 {
    if 0 <= i < s.len() {
        s[i]
    } else {
        0
    }
}

/// The 16-bit words spelled by adjacent byte pairs, low byte first; a
/// missing final byte reads as zero.
pub open spec fn spec_le_words(s: Seq<u8>) -> Seq<u16> {
    Seq::new((s.len() + 1) / 2, |i: int|
        (spec_byte_or_zero(s, 2 * i) + spec_byte_or_zero(s, 2 * i + 1) * 256) as u16)
}

/// The 16-bit words spelled by adjacent byte pairs, high byte first; a
/// missing final byte reads as zero.
pub open spec fn spec_be_words(s: Seq<u8>) -> Seq<u16> {
    Seq::new((s.len() + 1) / 2, |i: int|
        (spec_byte_or_zero(s, 2 * i) * 256 + spec_byte_or_zero(s, 2 * i + 1)) as u16)
}

/// Relies on bytemuck::pod_collect_to_vec to reinterpret a byte block as
/// 16-bit words in the machine's native byte order, padding a missing
/// final byte with zero. Whichever order the machine uses, the result is
/// the block's byte pairs read uniformly low-byte-first or uniformly
/// high-byte-first; the call copies and never panics.
#[verifier::external_body]
fn collect_native_words(bytes: &[u8]) -> (r: Vec<u16>)
    ensures
        r@.len() == (bytes@.len() + 1) / 2,
        r@ == spec_le_words(bytes@) || r@ == spec_be_words(bytes@),
{
    bytemuck::pod_collect_to_vec(bytes)
}

/// Reads a streamed sample batch out of its raw byte block: one 16-bit
/// word per adjacent byte pair in the machine's native byte order, a
/// missing final byte padded with zero.
pub fn buffer_words(bytes: &[u8]) -> (r: Vec<u16>)
    ensures
        r@.len() == (bytes@.len() + 1) / 2,
        r@ == spec_le_words(bytes@) || r@ == spec_be_words(bytes@),
{
    collect_native_words(bytes)
}

/// One value the transport session hands its consumer: nothing, a raw
/// sample batch per series, a device constant, a raw register block, or a
/// decoded snapshot.
#[derive(Debug, Clone, PartialEq, Eq)]
pub enum RemoteData {
    NoData,
    BatteryVoltage(Vec<u16>),
    BatteryPackVoltage(Vec<u16>),
    PVVoltage(Vec<u16>),
    PVPower(Vec<u16>),
    VoltageBufferSize(usize),
    VoltageIntervalms(u16),
    PowerIntervalms(u16),
    Holdings(Vec<u8>),
    InputRegisters(Vec<u8>),
    Realtime(Realtime),
    RealtimeStatus(RealtimeStatus),
    VoltageSettings(VoltageSettings),
    Rated(Rated),
    Stats(Stats),
}

impl Default for RemoteData {
    fn default() -> (r: Self)
        ensures
            r is NoData,
    {
        RemoteData::NoData
    }
}

impl RemoteData {
    /// Moves a voltage-series sample batch (battery, battery-pack or PV
    /// voltage) out of the container, leaving no-data behind; any other
    /// content is discarded and yields an empty batch.
    pub fn take_adc_readings(&mut self) -> (r: Vec<u16>)
        ensures
            *final(self) is NoData,
            (*old(self) matches RemoteData::BatteryVoltage(v) ==> r@ == v@),
            (*old(self) matches RemoteData::BatteryPackVoltage(v) ==> r@ == v@),
            (*old(self) matches RemoteData::PVVoltage(v) ==> r@ == v@),
            (!(*old(self) is BatteryVoltage) && !(*old(self) is BatteryPackVoltage)
                && !(*old(self) is PVVoltage) ==> r@.len() == 0),
    {
        let mut taken = RemoteData::NoData;
        core::mem::swap(self, &mut taken);
        match taken {
            RemoteData::BatteryVoltage(v) => v,
            RemoteData::BatteryPackVoltage(v) => v,
            RemoteData::PVVoltage(v) => v,
            _ => Vec::new(),
        }
    }

    /// Moves a power-series sample batch out of the container, leaving
    /// no-data behind; any other content is discarded and yields an empty
    /// batch.
    pub fn take_power_readings(&mut self) -> (r: Vec<u16>)
        ensures
            *final(self) is NoData,
            (*old(self) matches RemoteData::PVPower(v) ==> r@ == v@),
            (!(*old(self) is PVPower) ==> r@.len() == 0),
    {
        let mut taken = RemoteData::NoData;
        core::mem::swap(self, &mut taken);
        match taken {
            RemoteData::PVPower(v) => v,
            _ => Vec::new(),
        }
    }
}

} // verus!
