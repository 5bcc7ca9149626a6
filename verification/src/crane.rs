//! Crane-style gimbal protocol: per-axis packets with the plain CRC
//! variant, a cubic axis curve, and the send-command state machine. Unlike
//! the Ronin format, each rotation axis travels in its own 14-byte packet
//! with a single sequence byte.

use vstd::prelude::*;

use crate::bytes::{push_u16_le, spec_u16_le};
use crate::config::{CapabilitySet, CraneConfig};
use crate::crc::{crane_checksum, crane_crc};
use crate::device::Command;
use crate::ronin::{spec_configured_options, spec_reversed, GimbalOptions};

verus! {

/// A frame with the crane CRC appended little-endian.
pub open spec fn spec_with_checksum(payload: Seq<u8>) -> Seq<u8> {
    payload + spec_u16_le(crane_crc(payload))
}

/// Appends the 2-byte little-endian crane CRC to `b`.
pub fn add_checksum(b: &[u8]) -> (r: Vec<u8>)
    ensures
        r@ == spec_with_checksum(b@),
{
    let mut out = vstd::slice::slice_to_vec(b);
    let checksum = crane_checksum(b);
    push_u16_le(&mut out, checksum);
    out
}

/// The cubic axis curve: an axis value in thousandths maps to `v^3 * 2048`
/// in whole counts, and any motion at all moves at least the minimum rate.
/// Zero stays zero; anything else is clamped to [2, 2047] and signed.
pub open spec fn spec_scale_ptr(v: int) -> int {
    if v == 0 {
        0
    } else {
        let mag = (v * v * (if v >= 0 {
            v
        } else {
            -v
        }) * 2048) / 1000000000;
        let clamped = if mag < 2 {
            2
        } else if mag > 2047 {
            2047
        } else {
            mag
        };
        if v >= 0 {
            clamped
        } else {
            -clamped
        }
    }
}

/// Scales an axis value in thousandths onto the crane wire range. A nonzero
/// result always lies in [2, 2047] in magnitude.
pub fn scale_ptr_value(val: i16) -> (r: i16)
    requires
        -1000 <= val <= 1000,
    ensures
        r == spec_scale_ptr(val as int),
        -2047 <= r <= 2047,
        val == 0 ==> r == 0,
{
    if val == 0 {
        return 0;
    }
    let mag: u64 = if val < 0 {
        (-(val as i32)) as u64
    } else {
        val as u64
    };
    proof {
        assert(mag * mag <= 1000000) by (nonlinear_arith)
            requires
                mag <= 1000,
        ;
        assert(mag * mag * mag <= 1000000000) by (nonlinear_arith)
            requires
                mag <= 1000,
        ;
        assert((val as int) * (val as int) * (if val as int >= 0 {
            val as int
        } else {
            -(val as int)
        }) == mag * mag * mag) by (nonlinear_arith)
            requires
                mag == if val < 0 {
                    -(val as int)
                } else {
                    val as int
                },
        ;
    }
    let cubed: u64 = mag * mag * mag;
    let raw: u64 = cubed * 2048 / 1000000000;
    let clamped: u64 = if raw < 2 {
        2
    } else if raw > 2047 {
        2047
    } else {
        raw
    };
    if val < 0 {
        -(clamped as i16)
    } else {
        clamped as i16
    }
}

/// An axis value encoded for the crane wire: 2048 plus the value,
/// little-endian.
pub open spec fn spec_encode_value(v: int) -> Seq<u8> {
    spec_u16_le((2048 + v) as u16)
}

/// Encodes an axis value as the little-endian pair of `2048 + val`.
pub fn encode_value(val: i16) -> (r: Vec<u8>)
    requires
        -2048 <= val <= 2047,
    ensures
        r@ == spec_encode_value(val as int),
{
    let x: u16 = (2048 + val as i32) as u16;
    let mut out: Vec<u8> = Vec::new();
    push_u16_le(&mut out, x);
    assert(out@ =~= spec_encode_value(val as int));
    out
}

/// One per-axis crane packet: header, sequence byte, the axis selector in
/// the midfix, the encoded value, and the CRC. The selector is 0x01 for
/// tilt, 0x02 for roll, 0x03 for pan.
pub open spec fn spec_axis_packet(seq_num: u8, axis: u8, v: int) -> Seq<u8> {
    spec_with_checksum(
        seq![0x24u8, 0x3c, 0x08, 0x00, 0x18, 0x12] + seq![seq_num] + seq![0x01u8, axis, 0x10]
            + spec_encode_value(v),
    )
}

/// Builds one crane axis packet from a scaled value.
fn create_axis_packet(seq_num: u8, axis: u8, val: i16) -> (r: Vec<u8>)
    requires
        -2048 <= val <= 2047,
    ensures
        r@ == spec_axis_packet(seq_num, axis, val as int),
        r@.len() == 14,
{
    let mut payload: Vec<u8> = Vec::new();
    payload.push(0x24);
    payload.push(0x3c);
    payload.push(0x08);
    payload.push(0x00);
    payload.push(0x18);
    payload.push(0x12);
    payload.push(seq_num);
    payload.push(0x01);
    payload.push(axis);
    payload.push(0x10);
    let mut value_bytes = encode_value(val);
    payload.append(&mut value_bytes);
    assert(payload@ =~= seq![0x24u8, 0x3c, 0x08, 0x00, 0x18, 0x12] + seq![seq_num] + seq![
        0x01u8,
        axis,
        0x10,
    ] + spec_encode_value(val as int));
    add_checksum(payload.as_slice())
}

/// Builds the tilt packet for an axis value in thousandths.
pub fn create_tilt_packet(seq_num: u8, tilt: i16) -> (r: Vec<u8>)
    requires
        -1000 <= tilt <= 1000,
    ensures
        r@ == spec_axis_packet(seq_num, 0x01, spec_scale_ptr(tilt as int)),
{
    create_axis_packet(seq_num, 0x01, scale_ptr_value(tilt))
}

/// Builds the roll packet for an axis value in thousandths.
pub fn create_roll_packet(seq_num: u8, roll: i16) -> (r: Vec<u8>)
    requires
        -1000 <= roll <= 1000,
    ensures
        r@ == spec_axis_packet(seq_num, 0x02, spec_scale_ptr(roll as int)),
{
    create_axis_packet(seq_num, 0x02, scale_ptr_value(roll))
}

/// Builds the pan packet for an axis value in thousandths.
pub fn create_pan_packet(seq_num: u8, pan: i16) -> (r: Vec<u8>)
    requires
        -1000 <= pan <= 1000,
    ensures
        r@ == spec_axis_packet(seq_num, 0x03, spec_scale_ptr(pan as int)),
{
    create_axis_packet(seq_num, 0x03, scale_ptr_value(pan))
}

/// An 8-bit counter advanced by one, wrapping at the top.
pub open spec fn spec_wrap_inc8(s: u8) -> u8 {
    if s == 0xff {
        0
    } else {
        (s + 1) as u8
    }
}

/// Fetches the next sequence byte and advances the shared counter.
pub fn get_seq(next_seq: &mut u8) -> (r: u8)
    ensures
        r == *old(next_seq),
        *final(next_seq) == spec_wrap_inc8(*old(next_seq)),
{
    let seq = *next_seq;
    *next_seq = next_seq.wrapping_add(1);
    seq
}

/// One step the crane driver asks its transport to take.
#[derive(Clone, Debug, PartialEq)]
pub enum CraneAction {
    /// Drop the stale link before reconnecting.
    ForceDisconnect,
    /// Reconnect the peripheral, bounded by the reconnect timeout.
    Reconnect,
    /// Rediscover the command characteristic after a reconnect.
    RediscoverCharacteristic,
    /// Write this packet to the command characteristic.
    WritePacket(Vec<u8>),
}

/// The crane driver state: identity, the shared sequence counter, and the
/// configured capability set and axis reversals.
pub struct Crane {
    pub id: String,
    pub name: String,
    pub next_seq: u8,
    pub capabilities: CapabilitySet,
    pub options: GimbalOptions,
}

/// A PTR burst goes out when some reversed axis is live and the device has
/// the capability.
pub open spec fn spec_send_ptr(s: Crane, cmd: Command) -> bool {
    s.capabilities.ptr && !(cmd.pan == 0 && cmd.tilt == 0 && cmd.roll == 0)
}

impl Crane {
    /// The stable id.
    pub fn id(&self) -> (r: String)
        ensures
            r@ == self.id@,
    {
        self.id.clone()
    }

    /// The advertised local name scanned for.
    pub fn name(&self) -> (r: String)
        ensures
            r@ == self.name@,
    {
        self.name.clone()
    }
}

/// Builds a crane driver from its config fields, with the sequence counter
/// at rest.
pub fn create(id: &str, config: &CraneConfig) -> (r: Crane)
    ensures
        r.id@ == id@,
        r.name@ == config.name@,
        r.next_seq == 0,
        r.capabilities == crate::config::spec_configured_caps(config.capabilities),
        r.options == spec_configured_options(config.options),
{
    Crane {
        id: id.to_owned(),
        name: config.name.clone(),
        next_seq: 0,
        capabilities: CapabilitySet::from_config(&config.capabilities),
        options: GimbalOptions::from_config(&config.options),
    }
}

impl Crane {
    /// Decides what one command means for this gimbal: nothing while
    /// disconnected or when no rotation axis is live; otherwise recovery
    /// steps when the link has dropped, then the tilt, roll and pan packets
    /// in that order, each with its own sequence byte.
    pub fn plan_send(&mut self, connected: bool, link_connected: bool, cmd: &Command) -> (plan: Vec<
        CraneAction,
    >)
        requires
            cmd.valid(),
        ensures
            final(self).id == old(self).id,
            final(self).name == old(self).name,
            final(self).capabilities == old(self).capabilities,
            final(self).options == old(self).options,
            !connected || !spec_send_ptr(*old(self), *cmd) ==> plan@.len() == 0 && *final(self)
                == *old(self),
            connected && spec_send_ptr(*old(self), *cmd) ==> ({
                let k: int = if link_connected {
                    0
                } else {
                    3
                };
                let s0 = old(self).next_seq;
                let s1 = spec_wrap_inc8(s0);
                let s2 = spec_wrap_inc8(s1);
                let tilt = spec_scale_ptr(
                    spec_reversed(old(self).options.reverse_tilt, cmd.tilt as int),
                );
                let roll = spec_scale_ptr(
                    spec_reversed(old(self).options.reverse_roll, cmd.roll as int),
                );
                let pan = spec_scale_ptr(
                    spec_reversed(old(self).options.reverse_pan, cmd.pan as int),
                );
                &&& plan@.len() == k + 3
                &&& !link_connected ==> plan@[0] == CraneAction::ForceDisconnect && plan@[1]
                    == CraneAction::Reconnect && plan@[2] == CraneAction::RediscoverCharacteristic
                &&& (plan@[k] matches CraneAction::WritePacket(f) && f@ == spec_axis_packet(
                    s0,
                    0x01,
                    tilt,
                ))
                &&& (plan@[k + 1] matches CraneAction::WritePacket(f) && f@ == spec_axis_packet(
                    s1,
                    0x02,
                    roll,
                ))
                &&& (plan@[k + 2] matches CraneAction::WritePacket(f) && f@ == spec_axis_packet(
                    s2,
                    0x03,
                    pan,
                ))
                &&& final(self).next_seq == spec_wrap_inc8(s2)
            }),
    {
        let mut plan: Vec<CraneAction> = Vec::new();
        if !connected {
            return plan;
        }
        let pan = if self.options.reverse_pan {
            -cmd.pan
        } else {
            cmd.pan
        };
        let tilt = if self.options.reverse_tilt {
            -cmd.tilt
        } else {
            cmd.tilt
        };
        let roll = if self.options.reverse_roll {
            -cmd.roll
        } else {
            cmd.roll
        };
        let send_ptr = self.capabilities.ptr && !(cmd.pan == 0 && cmd.tilt == 0 && cmd.roll == 0);
        if !send_ptr {
            return plan;
        }
        if !link_connected {
            plan.push(CraneAction::ForceDisconnect);
            plan.push(CraneAction::Reconnect);
            plan.push(CraneAction::RediscoverCharacteristic);
        }
        let seq_tilt = get_seq(&mut self.next_seq);
        plan.push(CraneAction::WritePacket(create_tilt_packet(seq_tilt, tilt)));
        let seq_roll = get_seq(&mut self.next_seq);
        plan.push(CraneAction::WritePacket(create_roll_packet(seq_roll, roll)));
        let seq_pan = get_seq(&mut self.next_seq);
        plan.push(CraneAction::WritePacket(create_pan_packet(seq_pan, pan)));
        plan
    }
}

} // verus!
