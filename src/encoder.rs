//! The TCode v0.3 encoder.
//!
//! Axis `i` of a position list is the linear channel `L{i}` for `i < 3` and
//! the rotational channel `R{i - 3}` from there on. Positions are written with
//! at least three digits, vibration speeds with at least two; durations and
//! channel numbers are written as they are. Values are not range-checked: a
//! position of 1000 is written with four digits.

use buttplug_core::errors::ButtplugDeviceError;
use buttplug_server_device_config::Endpoint;
use uuid::Uuid;
use vstd::prelude::*;

use crate::decimal::{decimal, push_decimal, push_zero_padded, zero_padded};
use crate::hardware::{HardwareCommand, HardwareWriteCmd};
use crate::protocol::ProtocolHandler;

verus! {

/// The channel name of axis `i`: `L0`..`L2`, then `R0`, `R1`, ...
pub open spec fn axis_label(i: nat) -> Seq<u8> {
    if i < 3 {
        seq![76u8] + decimal(i)
    } else {
        seq![82u8] + decimal((i - 3) as nat)
    }
}

/// `L{i}{position:03}\n`, or `R{i-3}{position:03}\n` from the fourth axis on.
pub open spec fn position_line(i: nat, position: u32) -> Seq<u8> {
    axis_label(i) + zero_padded(position as nat, 3) + seq![10u8]
}

/// `L{i}{position:03}I{duration}\n`, or its `R` form from the fourth axis on.
pub open spec fn timed_position_line(i: nat, position: u32, duration: u32) -> Seq<u8> {
    axis_label(i) + zero_padded(position as nat, 3) + seq![73u8] + decimal(duration as nat) + seq![
        10u8,
    ]
}

/// `V{feature_index}{speed:02}\n`.
pub open spec fn vibrate_payload(feature_index: u32, speed: u32) -> Seq<u8> {
    seq![86u8] + decimal(feature_index as nat) + zero_padded(speed as nat, 2) + seq![10u8]
}

/// The lines of the first `n` axes of `positions`, in order.
pub open spec fn position_lines(positions: Seq<u32>, n: nat) -> Seq<u8>
    decreases n,
{
    if n == 0 {
        seq![]
    } else {
        position_lines(positions, (n - 1) as nat) + position_line(
            (n - 1) as nat,
            positions[n - 1],
        )
    }
}

/// The payload of a position command: one line per axis.
pub open spec fn position_payload(positions: Seq<u32>) -> Seq<u8> {
    position_lines(positions, positions.len())
}

/// The number of (position, duration) pairs: the shorter list's length.
pub open spec fn pair_count(positions: Seq<u32>, durations: Seq<u32>) -> nat {
    if positions.len() <= durations.len() {
        positions.len()
    } else {
        durations.len()
    }
}

/// The timed lines of the first `n` (position, duration) pairs, in order.
pub open spec fn timed_position_lines(positions: Seq<u32>, durations: Seq<u32>, n: nat) -> Seq<u8>
    decreases n,
{
    if n == 0 {
        seq![]
    } else {
        timed_position_lines(positions, durations, (n - 1) as nat) + timed_position_line(
            (n - 1) as nat,
            positions[n - 1],
            durations[n - 1],
        )
    }
}

/// The payload of a timed position command: one line per pair, the surplus
/// of the longer list left out.
pub open spec fn timed_position_payload(positions: Seq<u32>, durations: Seq<u32>) -> Seq<u8> {
    timed_position_lines(positions, durations, pair_count(positions, durations))
}

/// Appends the channel name of axis `i`.
fn push_axis_label(out: &mut Vec<u8>, i: usize)
    ensures
        final(out)@ == old(out)@ + axis_label(i as nat),
{
    let ghost start = out@;
    if i < 3 {
        out.push(76u8);
        push_decimal(out, i as u64);
    } else {
        out.push(82u8);
        push_decimal(out, (i - 3) as u64);
    }
    assert(out@ =~= start + axis_label(i as nat));
}

/// Appends the position line of axis `i`.
fn push_position_line(out: &mut Vec<u8>, i: usize, position: u32)
    ensures
        final(out)@ == old(out)@ + position_line(i as nat, position),
{
    let ghost start = out@;
    push_axis_label(out, i);
    push_zero_padded(out, position as u64, 3);
    out.push(10u8);
    assert(out@ =~= start + position_line(i as nat, position));
}

/// Appends the timed position line of axis `i`.
fn push_timed_position_line(out: &mut Vec<u8>, i: usize, position: u32, duration: u32)
    ensures
        final(out)@ == old(out)@ + timed_position_line(i as nat, position, duration),
{
    let ghost start = out@;
    push_axis_label(out, i);
    push_zero_padded(out, position as u64, 3);
    out.push(73u8);
    push_decimal(out, duration as u64);
    out.push(10u8);
    assert(out@ =~= start + timed_position_line(i as nat, position, duration));
}

/// The single write request of a command: `data` to the transmit endpoint
/// of `feature_id`, without acknowledgement.
fn tx_write(feature_id: Uuid, data: Vec<u8>) -> (r: Vec<HardwareCommand>)
    ensures
        r@.len() == 1,
        r@[0].is_tx_write(feature_id, data@),
{
    let ids: [Uuid; 1] = [feature_id];
    let cmd = HardwareWriteCmd::new(ids.as_slice(), Endpoint::Tx, data, false);
    let mut cmds: Vec<HardwareCommand> = Vec::new();
    cmds.push(HardwareCommand::from(cmd));
    assert(cmds@[0].is_tx_write(feature_id, data@)) by {
        assert(ids@ =~= seq![feature_id]);
    }
    cmds
}

/// The TCode v0.3 protocol handler. It holds no state: equal inputs always
/// give equal commands.
pub struct TCodeV03 {}

impl Default for TCodeV03 {
    fn default() -> (r: TCodeV03)
        ensures
            r == (TCodeV03 {}),
    {
        TCodeV03 {}
    }
}

impl ProtocolHandler for TCodeV03 {
    /// Moves each axis to its position: one line per entry of `positions`,
    /// all sent in one write.
    fn handle_output_position_cmd(
        &self,
        _feature_index: u32,
        feature_id: Uuid,
        positions: Vec<u32>,
    ) -> (r: Result<Vec<HardwareCommand>, ButtplugDeviceError>)
        ensures
            r is Ok,
            r->Ok_0@.len() == 1,
            r->Ok_0@[0].is_tx_write(feature_id, position_payload(positions@)),
    {
        let mut command: Vec<u8> = Vec::new();
        for i in 0..positions.len()
            invariant
                command@ == position_lines(positions@, i as nat),
        {
            push_position_line(&mut command, i, positions[i]);
        }
        Ok(tx_write(feature_id, command))
    }

    /// Moves each axis to its position over its duration in milliseconds:
    /// one line per (position, duration) pair, all sent in one write. Pairs
    /// are taken while both lists last.
    fn handle_hw_position_with_duration_cmd(
        &self,
        _feature_index: u32,
        feature_id: Uuid,
        positions: Vec<u32>,
        durations: Vec<u32>,
    ) -> (r: Result<Vec<HardwareCommand>, ButtplugDeviceError>)
        ensures
            r is Ok,
            r->Ok_0@.len() == 1,
            r->Ok_0@[0].is_tx_write(feature_id, timed_position_payload(positions@, durations@)),
    {
        let pairs: usize = if positions.len() <= durations.len() {
            positions.len()
        } else {
            durations.len()
        };
        let mut command: Vec<u8> = Vec::new();
        for i in 0..pairs
            invariant
                pairs == pair_count(positions@, durations@),
                command@ == timed_position_lines(positions@, durations@, i as nat),
        {
            push_timed_position_line(&mut command, i, positions[i], durations[i]);
        }
        Ok(tx_write(feature_id, command))
    }

    /// Sets vibration motor `feature_index` to `speed`: a single line.
    fn handle_output_vibrate_cmd(
        &self,
        feature_index: u32,
        feature_id: Uuid,
        speed: u32,
    ) -> (r: Result<Vec<HardwareCommand>, ButtplugDeviceError>)
        ensures
            r is Ok,
            r->Ok_0@.len() == 1,
            r->Ok_0@[0].is_tx_write(feature_id, vibrate_payload(feature_index, speed)),
    {
        let mut command: Vec<u8> = Vec::new();
        command.push(86u8);
        push_decimal(&mut command, feature_index as u64);
        push_zero_padded(&mut command, speed as u64, 2);
        command.push(10u8);
        assert(command@ =~= vibrate_payload(feature_index, speed));
        Ok(tx_write(feature_id, command))
    }
}

} // verus!
