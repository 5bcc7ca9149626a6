//! Ronin gimbal protocol: PTR frame construction with its reflected CRC,
//! the squared-magnitude axis curve, the zoom subprotocol, and the
//! send-command state machine. The BLE transport itself lives outside the
//! crate; this module decides what bytes go on the wire and how the driver
//! state advances.

use vstd::prelude::*;

use crate::bytes::{push_u16_le, spec_u16_le};
use crate::config::{CapabilitySet, GimbalOption, RoninConfig};
use crate::crc::{ronin_checksum, ronin_crc};
use crate::device::Command;

verus! {

/// A frame with the Ronin CRC appended little-endian.
pub open spec fn spec_with_checksum(payload: Seq<u8>) -> Seq<u8> {
    payload + spec_u16_le(ronin_crc(payload))
}

/// Appends the 2-byte little-endian Ronin CRC to `b`.
pub fn add_checksum(b: &[u8]) -> (r: Vec<u8>)
    ensures
        r@ == spec_with_checksum(b@),
{
    let mut out = vstd::slice::slice_to_vec(b);
    let checksum = ronin_checksum(b);
    push_u16_le(&mut out, checksum);
    out
}

/// The squared-magnitude axis curve: an axis value in thousandths maps to
/// `v * |v| * 256` in whole counts, which flattens the response near rest.
pub open spec fn spec_scale(v: int) -> int {
    if v >= 0 {
        (v * v * 256) / 1000000
    } else {
        -((v * v * 256) / 1000000)
    }
}

/// Scales an axis value in thousandths onto the wire range. The result
/// always lies in [-256, 256].
pub fn scale_value(val: i16) -> (r: i16)
    requires
        -1000 <= val <= 1000,
    ensures
        r == spec_scale(val as int),
        -256 <= r <= 256,
{
    let mag: u32 = if val < 0 {
        (-(val as i32)) as u32
    } else {
        val as u32
    };
    proof {
        assert(mag * mag <= 1000000) by (nonlinear_arith)
            requires
                mag <= 1000,
        ;
        assert((val as int) * (val as int) == (mag as int) * (mag as int)) by (nonlinear_arith)
            requires
                mag == if val < 0 { -(val as int) } else { val as int },
        ;
    }
    let sq: u32 = mag * mag;
    let scaled: u32 = sq * 256 / 1000000;
    assert(scaled <= 256);
    if val < 0 {
        -(scaled as i16)
    } else {
        scaled as i16
    }
}

/// Every axis value within full deflection scales into [-256, 256], so its
/// wire encoding, 1024 plus the scaled value, lies in [768, 1280].
pub proof fn lemma_scale_range(v: int)
    requires
        -1000 <= v <= 1000,
    ensures
        -256 <= spec_scale(v) <= 256,
        768 <= 1024 + spec_scale(v) <= 1280,
{
    assert(0 <= v * v * 256 <= 256000000) by (nonlinear_arith)
        requires
            -1000 <= v <= 1000,
    ;
    assert(0 <= (v * v * 256) / 1000000 <= 256) by (nonlinear_arith)
        requires
            0 <= v * v * 256 <= 256000000,
    ;
}

/// An axis value encoded for the wire: 1024 plus the value, little-endian.
pub open spec fn spec_encode_value(v: int) -> Seq<u8> {
    spec_u16_le((1024 + v) as u16)
}

/// Encodes an axis value as the little-endian pair of `1024 + val`.
pub fn encode_value(val: i16) -> (r: Vec<u8>)
    requires
        -1024 <= val <= 1024,
    ensures
        r@ == spec_encode_value(val as int),
{
    let x: u16 = (1024 + val as i32) as u16;
    let mut out: Vec<u8> = Vec::new();
    push_u16_le(&mut out, x);
    assert(out@ =~= spec_encode_value(val as int));
    out
}

/// The PTR frame payload: header, sequence number, a fixed midfix, the
/// three encoded axes (tilt, roll, pan on the wire), and a fixed suffix.
pub open spec fn spec_ptr_payload(seq_num: u16, pan: int, tilt: int, roll: int) -> Seq<u8> {
    seq![0x55u8, 0x16, 0x04, 0xfc, 0x02, 0x04] + spec_u16_le(seq_num) + seq![0x40u8, 0x04, 0x01]
        + spec_encode_value(tilt) + spec_encode_value(roll) + spec_encode_value(pan) + seq![
        0x00u8,
        0x00,
        0x02,
    ]
}

/// A complete PTR frame: the payload with its CRC.
pub open spec fn spec_ptr_frame(seq_num: u16, pan: int, tilt: int, roll: int) -> Seq<u8> {
    spec_with_checksum(spec_ptr_payload(seq_num, pan, tilt, roll))
}

/// Builds one 22-byte PTR frame from scaled axis values.
pub fn create_packet(seq_num: u16, pan: i16, tilt: i16, roll: i16) -> (r: Vec<u8>)
    requires
        -1024 <= pan <= 1024,
        -1024 <= tilt <= 1024,
        -1024 <= roll <= 1024,
    ensures
        r@ == spec_ptr_frame(seq_num, pan as int, tilt as int, roll as int),
        r@.len() == 22,
{
    let mut payload: Vec<u8> = Vec::new();
    payload.push(0x55);
    payload.push(0x16);
    payload.push(0x04);
    payload.push(0xfc);
    payload.push(0x02);
    payload.push(0x04);
    push_u16_le(&mut payload, seq_num);
    payload.push(0x40);
    payload.push(0x04);
    payload.push(0x01);
    let mut tilt_bytes = encode_value(tilt);
    payload.append(&mut tilt_bytes);
    let mut roll_bytes = encode_value(roll);
    payload.append(&mut roll_bytes);
    let mut pan_bytes = encode_value(pan);
    payload.append(&mut pan_bytes);
    payload.push(0x00);
    payload.push(0x00);
    payload.push(0x02);
    assert(payload@ =~= spec_ptr_payload(seq_num, pan as int, tilt as int, roll as int));
    add_checksum(payload.as_slice())
}

/// The integer square root: the largest `r` with `r * r <= n`.
pub open spec fn spec_isqrt(n: nat) -> nat
    decreases n,
{
    if n == 0 {
        0
    } else {
        let p = spec_isqrt((n - 1) as nat);
        if (p + 1) * (p + 1) <= n {
            p + 1
        } else {
            p
        }
    }
}

/// The integer square root squares to at most its argument, and the next
/// integer up squares past it.
pub proof fn lemma_isqrt_bounds(n: nat)
    ensures
        (spec_isqrt(n) as int) * (spec_isqrt(n) as int) <= n,
        n < (spec_isqrt(n) as int + 1) * (spec_isqrt(n) as int + 1),
    decreases n,
{
    if n > 0 {
        lemma_isqrt_bounds((n - 1) as nat);
        let p = spec_isqrt((n - 1) as nat) as int;
        let s = spec_isqrt(n) as int;
        if (spec_isqrt((n - 1) as nat) + 1) * (spec_isqrt((n - 1) as nat) + 1) <= n {
            assert(s == p + 1);
            assert(s * s == (p + 1) * (p + 1)) by (nonlinear_arith)
                requires
                    s == p + 1,
            ;
            assert(s * s <= n);
            assert(n <= s * s);
            assert(n < (s + 1) * (s + 1)) by (nonlinear_arith)
                requires
                    s * s <= n,
                    n <= s * s,
                    0 <= s,
            ;
        } else {
            assert(s == p);
            assert(s * s <= n - 1);
            assert(n < (s + 1) * (s + 1));
        }
    } else {
        assert(spec_isqrt(0) == 0);
    }
}

/// Any `r` bracketing `n` the way the integer square root does is it.
pub proof fn lemma_isqrt_unique(n: nat, r: int)
    requires
        0 <= r,
        r * r <= n,
        n < (r + 1) * (r + 1),
    ensures
        r == spec_isqrt(n),
{
    lemma_isqrt_bounds(n);
    let s = spec_isqrt(n) as int;
    if r < s {
        assert((r + 1) * (r + 1) <= s * s) by (nonlinear_arith)
            requires
                r + 1 <= s,
                0 <= r,
        ;
    }
    if s < r {
        assert((s + 1) * (s + 1) <= r * r) by (nonlinear_arith)
            requires
                s + 1 <= r,
                0 <= s,
        ;
    }
}

/// Computes the integer square root of `n`.
pub fn isqrt(n: u32) -> (r: u32)
    requires
        n <= 1000000,
    ensures
        r == spec_isqrt(n as nat),
        r <= 1000,
{
    let mut r: u32 = 0;
    loop
        invariant
            r <= 1000,
            n <= 1000000,
            r * r <= n,
        decreases 1000 - r,
    {
        proof {
            assert((r + 1) * (r + 1) <= 1002001) by (nonlinear_arith)
                requires
                    r <= 1000,
            ;
        }
        let next = (r + 1) * (r + 1);
        if next <= n {
            proof {
                assert(r < 1000) by (nonlinear_arith)
                    requires
                        (r + 1) * (r + 1) <= 1000000,
                ;
            }
            r = r + 1;
        } else {
            proof {
                lemma_isqrt_unique(n as nat, r as int);
            }
            return r;
        }
    }
}

/// The zoom increment magnitude for a nonzero speed `k` in thousandths:
/// `1000 * |k/1000|^2.5` in counter units, clamped to [3, 1000]. The 2.5th
/// power is `k * k * sqrt(10 * k) / 100000` over the integers.
pub open spec fn spec_zoom_magnitude(k: int) -> int {
    let raw = (k * k * spec_isqrt((10 * k) as nat)) / 100000;
    if raw < 3 {
        3
    } else if raw > 1000 {
        1000
    } else {
        raw
    }
}

/// The signed zoom increment for a commanded speed in thousandths: zero at
/// rest, otherwise sign of the speed with magnitude in [3, 1000].
pub fn zoom_increment(v: i16) -> (r: i32)
    requires
        -1000 <= v <= 1000,
    ensures
        v == 0 ==> r == 0,
        v > 0 ==> r == spec_zoom_magnitude(v as int) && 3 <= r <= 1000,
        v < 0 ==> r == -spec_zoom_magnitude(-v as int) && -1000 <= r <= -3,
{
    if v == 0 {
        return 0;
    }
    let mag: u32 = if v < 0 {
        (-(v as i32)) as u32
    } else {
        v as u32
    };
    let root = isqrt(10 * mag);
    proof {
        assert(mag * mag <= 1000000) by (nonlinear_arith)
            requires
                mag <= 1000,
        ;
        assert(mag * mag * root <= 1000000000) by (nonlinear_arith)
            requires
                mag * mag <= 1000000,
                root <= 1000,
        ;
    }
    let raw: u64 = (mag as u64) * (mag as u64) * (root as u64) / 100000;
    let clamped: u32 = if raw < 3 {
        3
    } else if raw > 1000 {
        1000
    } else {
        raw as u32
    };
    if v < 0 {
        -(clamped as i32)
    } else {
        clamped as i32
    }
}

/// The next zoom target: on a burst start it restarts from the reported
/// level, otherwise it advances only when the gimbal has moved recently,
/// and it is clamped to the counter range [0, 4095].
pub open spec fn spec_next_target(
    burst_start: bool,
    prev_target: int,
    current_zoom: int,
    increment: int,
    moved_recently: bool,
) -> int {
    let raw = if burst_start {
        current_zoom + increment
    } else if moved_recently {
        prev_target + increment
    } else {
        prev_target
    };
    if raw < 0 {
        0
    } else if raw > 4095 {
        4095
    } else {
        raw
    }
}

/// Whether a zoom frame for `target` should go out at all: motion toward an
/// endpoint stops within 20 counts of it.
pub open spec fn spec_emit_target(target: int, increment: int) -> bool {
    &&& !(increment > 0 && 4095 - target <= 20)
    &&& !(increment < 0 && target <= 20)
}

/// Advances the zoom target and decides whether to emit a frame for it.
pub fn next_zoom_target(
    burst_start: bool,
    prev_target: u16,
    current_zoom: u16,
    increment: i32,
    moved_recently: bool,
) -> (r: (u16, bool))
    requires
        prev_target <= 4095,
        current_zoom <= 4095,
        -1000 <= increment <= 1000,
    ensures
        r.0 == spec_next_target(
            burst_start,
            prev_target as int,
            current_zoom as int,
            increment as int,
            moved_recently,
        ),
        r.1 == spec_emit_target(r.0 as int, increment as int),
{
    let raw: i32 = if burst_start {
        current_zoom as i32 + increment
    } else if moved_recently {
        prev_target as i32 + increment
    } else {
        prev_target as i32
    };
    let target: u16 = if raw < 0 {
        0
    } else if raw > 4095 {
        4095
    } else {
        raw as u16
    };
    let emit = !(increment > 0 && 4095 - target <= 20) && !(increment < 0 && target <= 20);
    (target, emit)
}

/// The zoom frame payload: header, sequence number, a fixed midfix, and the
/// target counter little-endian.
pub open spec fn spec_zoom_payload(seq_num: u16, target: u16) -> Seq<u8> {
    seq![0x55u8, 0x12, 0x04, 0xc7, 0x02, 0xdf] + spec_u16_le(seq_num) + seq![
        0x00u8,
        0x04,
        0x2f,
        0x01,
        0x00,
        0x02,
    ] + spec_u16_le(target)
}

/// A complete zoom target frame: the payload with its CRC.
pub open spec fn spec_zoom_frame(seq_num: u16, target: u16) -> Seq<u8> {
    spec_with_checksum(spec_zoom_payload(seq_num, target))
}

/// Builds one 18-byte zoom target frame.
pub fn create_zoom_packet(seq_num: u16, target: u16) -> (r: Vec<u8>)
    requires
        target <= 4095,
    ensures
        r@ == spec_zoom_frame(seq_num, target),
        r@.len() == 18,
{
    let mut payload: Vec<u8> = Vec::new();
    payload.push(0x55);
    payload.push(0x12);
    payload.push(0x04);
    payload.push(0xc7);
    payload.push(0x02);
    payload.push(0xdf);
    push_u16_le(&mut payload, seq_num);
    payload.push(0x00);
    payload.push(0x04);
    payload.push(0x2f);
    payload.push(0x01);
    payload.push(0x00);
    payload.push(0x02);
    push_u16_le(&mut payload, target);
    assert(payload@ =~= spec_zoom_payload(seq_num, target));
    add_checksum(payload.as_slice())
}

/// A notification is a status frame when it opens with the six-byte status
/// header and is long enough to carry the zoom level.
pub open spec fn spec_is_status_frame(s: Seq<u8>) -> bool {
    &&& s.len() >= 16
    &&& s[0] == 0x55
    &&& s[1] == 0x1c
    &&& s[2] == 0x04
    &&& s[3] == 0x1b
    &&& s[4] == 0xdf
    &&& s[5] == 0x02
}

/// The zoom level a status frame reports: the little-endian 16-bit value at
/// offset 14.
pub open spec fn spec_status_zoom(s: Seq<u8>) -> u16 {
    (s[14] + s[15] * 256) as u16
}

/// A zoom burst starts when the task was at rest or the commanded
/// direction flipped.
pub open spec fn spec_burst_start(prev_speed: int, speed: int) -> bool {
    prev_speed == 0 || (prev_speed > 0) != (speed > 0)
}

/// One tick of the zoom task, run every 50 ms while the commanded speed is
/// nonzero: advances the target by the speed's increment and, unless the
/// target sits against the stop it is moving toward, emits one zoom frame
/// for it.
pub fn zoom_tick(
    seq_num: u16,
    prev_speed: i16,
    speed: i16,
    prev_target: u16,
    current_zoom: u16,
    moved_recently: bool,
) -> (r: (u16, Option<Vec<u8>>))
    requires
        -1000 <= prev_speed <= 1000,
        -1000 <= speed <= 1000,
        speed != 0,
        prev_target <= 4095,
        current_zoom <= 4095,
    ensures
        ({
            let inc: int = if speed > 0 {
                spec_zoom_magnitude(speed as int)
            } else {
                -spec_zoom_magnitude(-speed as int)
            };
            let target = spec_next_target(
                spec_burst_start(prev_speed as int, speed as int),
                prev_target as int,
                current_zoom as int,
                inc,
                moved_recently,
            );
            &&& r.0 == target
            &&& spec_emit_target(target, inc) ==> (r.1 matches Some(f) && f@ == spec_zoom_frame(
                seq_num,
                r.0,
            ))
            &&& !spec_emit_target(target, inc) ==> r.1 is None
        }),
{
    let increment = zoom_increment(speed);
    let burst_start = prev_speed == 0 || (prev_speed > 0) != (speed > 0);
    let (target, emit) = next_zoom_target(
        burst_start,
        prev_target,
        current_zoom,
        increment,
        moved_recently,
    );
    if emit {
        (target, Some(create_zoom_packet(seq_num, target)))
    } else {
        (target, None)
    }
}

/// The axis reversals a gimbal is configured with.
#[derive(Clone, Copy, Debug, PartialEq, Eq, Structural)]
pub struct GimbalOptions {
    pub reverse_pan: bool,
    pub reverse_tilt: bool,
    pub reverse_roll: bool,
}

/// The reversals a config entry yields: none when the entry omits the list,
/// else exactly what the list names.
pub open spec fn spec_configured_options(options: Option<Vec<GimbalOption>>) -> GimbalOptions {
    match options {
        None => GimbalOptions { reverse_pan: false, reverse_tilt: false, reverse_roll: false },
        Some(list) => GimbalOptions {
            reverse_pan: list@.contains(GimbalOption::ReversePan),
            reverse_tilt: list@.contains(GimbalOption::ReverseTilt),
            reverse_roll: list@.contains(GimbalOption::ReverseRoll),
        },
    }
}

impl GimbalOptions {
    /// The configured reversals; an omitted list reverses nothing.
    pub fn from_config(options: &Option<Vec<GimbalOption>>) -> (r: GimbalOptions)
        ensures
            r == spec_configured_options(*options),
    {
        match options {
            None => GimbalOptions { reverse_pan: false, reverse_tilt: false, reverse_roll: false },
            Some(list) => {
                let mut r = GimbalOptions {
                    reverse_pan: false,
                    reverse_tilt: false,
                    reverse_roll: false,
                };
                let mut i: usize = 0;
                while i < list.len()
                    invariant
                        i <= list.len(),
                        r.reverse_pan == exists|m: int|
                            0 <= m < i && list@[m] == GimbalOption::ReversePan,
                        r.reverse_tilt == exists|m: int|
                            0 <= m < i && list@[m] == GimbalOption::ReverseTilt,
                        r.reverse_roll == exists|m: int|
                            0 <= m < i && list@[m] == GimbalOption::ReverseRoll,
                    decreases list.len() - i,
                {
                    match list[i] {
                        GimbalOption::ReversePan => {
                            r.reverse_pan = true;
                        },
                        GimbalOption::ReverseTilt => {
                            r.reverse_tilt = true;
                        },
                        GimbalOption::ReverseRoll => {
                            r.reverse_roll = true;
                        },
                    }
                    i = i + 1;
                }
                r
            },
        }
    }
}

/// An axis value with its configured reversal applied.
pub open spec fn spec_reversed(reverse: bool, v: int) -> int {
    if reverse {
        -v
    } else {
        v
    }
}

/// A 16-bit counter advanced by one, wrapping at the top.
pub open spec fn spec_wrap_inc(s: u16) -> u16 {
    if s == 0xffff {
        0
    } else {
        (s + 1) as u16
    }
}

/// One step the driver asks its transport to take.
#[derive(Clone, Debug, PartialEq)]
pub enum RoninAction {
    /// Drop the stale link before reconnecting.
    ForceDisconnect,
    /// Reconnect the peripheral, bounded by the reconnect timeout.
    Reconnect,
    /// Rediscover the command characteristic after a reconnect.
    RediscoverCharacteristic,
    /// Resubscribe to status notifications after a reconnect.
    Resubscribe,
    /// Write this PTR frame to the command characteristic.
    WritePtr(Vec<u8>),
    /// Hand this commanded zoom speed, in thousandths, to the zoom task.
    PublishZoomSpeed(i16),
}

/// The Ronin driver state: identity, the frame sequence counter, the zoom
/// speed last handed to the zoom task, and the configured capability set
/// and axis reversals. The transport handle lives with the caller.
pub struct Ronin {
    pub id: String,
    pub name: String,
    pub seq: u16,
    pub zoom_speed: i16,
    pub capabilities: CapabilitySet,
    pub options: GimbalOptions,
}

/// A command with no motion on any axis, arriving while the zoom task is
/// already at rest: nothing to do.
pub open spec fn spec_idle(s: Ronin, cmd: Command) -> bool {
    cmd.pan == 0 && cmd.tilt == 0 && cmd.roll == 0 && cmd.zoom == 0 && s.zoom_speed == 0
}

/// A PTR frame goes out when some rotation axis is live and the device has
/// the capability.
pub open spec fn spec_ptr_active(s: Ronin, cmd: Command) -> bool {
    s.capabilities.ptr && !(cmd.pan == 0 && cmd.tilt == 0 && cmd.roll == 0)
}

/// A new speed goes to the zoom task when it differs from the one last
/// published and the device has the capability.
pub open spec fn spec_zoom_changed(s: Ronin, cmd: Command) -> bool {
    s.capabilities.zoom && cmd.zoom != s.zoom_speed
}

/// The number of recovery steps a send begins with: none on a live link,
/// else the full reconnect sequence.
pub open spec fn spec_resume_len(link_connected: bool) -> int {
    if link_connected {
        0
    } else {
        4
    }
}

/// The PTR frame a state and command produce: reversals applied, axes
/// scaled, current sequence number stamped.
pub open spec fn spec_command_frame(s: Ronin, cmd: Command) -> Seq<u8> {
    spec_ptr_frame(
        s.seq,
        spec_scale(spec_reversed(s.options.reverse_pan, cmd.pan as int)),
        spec_scale(spec_reversed(s.options.reverse_tilt, cmd.tilt as int)),
        spec_scale(spec_reversed(s.options.reverse_roll, cmd.roll as int)),
    )
}

impl Ronin {
    /// The stable id.
    pub fn id(&self) -> (r: String)
        ensures
            r@ == self.id@,
    {
        self.id.clone()
    }

    /// The advertised local name scanned for.
    pub fn name(&self) -> (r: String)
        ensures
            r@ == self.name@,
    {
        self.name.clone()
    }
}

/// Builds a Ronin driver from its config entry, disconnected, with the
/// sequence counter and zoom speed at rest.
pub fn create(id: &str, config: &RoninConfig) -> (r: Ronin)
    ensures
        r.id@ == id@,
        r.name@ == config.name@,
        r.seq == 0,
        r.zoom_speed == 0,
        r.capabilities == crate::config::spec_configured_caps(config.capabilities),
        r.options == spec_configured_options(config.options),
{
    Ronin {
        id: id.to_owned(),
        name: config.name.clone(),
        seq: 0,
        zoom_speed: 0,
        capabilities: CapabilitySet::from_config(&config.capabilities),
        options: GimbalOptions::from_config(&config.options),
    }
}

impl Ronin {
    /// Advances the frame sequence counter, wrapping at the top.
    pub fn inc_seq(&mut self)
        ensures
            final(self).seq == spec_wrap_inc(old(self).seq),
            final(self).id == old(self).id,
            final(self).name == old(self).name,
            final(self).zoom_speed == old(self).zoom_speed,
            final(self).capabilities == old(self).capabilities,
            final(self).options == old(self).options,
    {
        self.seq = self.seq.wrapping_add(1);
    }

    /// Decides what one command means for this gimbal: nothing while
    /// disconnected, nothing for an all-zero command with the zoom task at
    /// rest; otherwise recovery steps when the link has dropped, then one
    /// PTR frame when a rotation axis is live, then the new zoom speed when
    /// it changed. The sequence counter advances with the PTR frame and the
    /// published speed is recorded.
    pub fn plan_send(&mut self, connected: bool, link_connected: bool, cmd: &Command) -> (plan: Vec<
        RoninAction,
    >)
        requires
            cmd.valid(),
        ensures
            final(self).id == old(self).id,
            final(self).name == old(self).name,
            final(self).capabilities == old(self).capabilities,
            final(self).options == old(self).options,
            !connected || spec_idle(*old(self), *cmd) ==> plan@.len() == 0 && *final(self) == *old(
                self,
            ),
            connected && !spec_idle(*old(self), *cmd) ==> ({
                let k = spec_resume_len(link_connected);
                let p: int = if spec_ptr_active(*old(self), *cmd) {
                    1
                } else {
                    0
                };
                let z: int = if spec_zoom_changed(*old(self), *cmd) {
                    1
                } else {
                    0
                };
                &&& plan@.len() == k + p + z
                &&& !link_connected ==> plan@[0] == RoninAction::ForceDisconnect && plan@[1]
                    == RoninAction::Reconnect && plan@[2] == RoninAction::RediscoverCharacteristic
                    && plan@[3] == RoninAction::Resubscribe
                &&& spec_ptr_active(*old(self), *cmd) ==> (plan@[k] matches RoninAction::WritePtr(f)
                    && f@ == spec_command_frame(*old(self), *cmd))
                &&& spec_zoom_changed(*old(self), *cmd) ==> plan@[k + p]
                    == RoninAction::PublishZoomSpeed(cmd.zoom)
                &&& final(self).seq == if spec_ptr_active(*old(self), *cmd) {
                    spec_wrap_inc(old(self).seq)
                } else {
                    old(self).seq
                }
                &&& final(self).zoom_speed == if spec_zoom_changed(*old(self), *cmd) {
                    cmd.zoom
                } else {
                    old(self).zoom_speed
                }
            }),
    {
        let mut plan: Vec<RoninAction> = Vec::new();
        if !connected {
            return plan;
        }
        if cmd.pan == 0 && cmd.tilt == 0 && cmd.roll == 0 && cmd.zoom == 0 && self.zoom_speed == 0 {
            return plan;
        }
        if !link_connected {
            plan.push(RoninAction::ForceDisconnect);
            plan.push(RoninAction::Reconnect);
            plan.push(RoninAction::RediscoverCharacteristic);
            plan.push(RoninAction::Resubscribe);
        }
        if self.capabilities.ptr && !(cmd.pan == 0 && cmd.tilt == 0 && cmd.roll == 0) {
            let pan = if self.options.reverse_pan {
                -cmd.pan
            } else {
                cmd.pan
            };
            let tilt = if self.options.reverse_tilt {
                -cmd.tilt
            } else {
                cmd.tilt
            };
            let roll = if self.options.reverse_roll {
                -cmd.roll
            } else {
                cmd.roll
            };
            let frame = create_packet(
                self.seq,
                scale_value(pan),
                scale_value(tilt),
                scale_value(roll),
            );
            plan.push(RoninAction::WritePtr(frame));
            self.inc_seq();
        }
        if self.capabilities.zoom && cmd.zoom != self.zoom_speed {
            plan.push(RoninAction::PublishZoomSpeed(cmd.zoom));
            self.zoom_speed = cmd.zoom;
        }
        plan
    }
}

/// Decodes a notification: the reported zoom level of a status frame,
/// nothing for any other notification.
pub fn decode_status_frame(frame: &[u8]) -> (r: Option<u16>)
    ensures
        spec_is_status_frame(frame@) ==> r == Some(spec_status_zoom(frame@)),
        !spec_is_status_frame(frame@) ==> r is None,
{
    if frame.len() < 16 {
        return None;
    }
    if *vstd::slice::slice_index_get(frame, 0) != 0x55 || *vstd::slice::slice_index_get(frame, 1)
        != 0x1c || *vstd::slice::slice_index_get(frame, 2) != 0x04 || *vstd::slice::slice_index_get(
        frame,
        3,
    ) != 0x1b || *vstd::slice::slice_index_get(frame, 4) != 0xdf || *vstd::slice::slice_index_get(
        frame,
        5,
    ) != 0x02 {
        return None;
    }
    let lo = *vstd::slice::slice_index_get(frame, 14);
    let hi = *vstd::slice::slice_index_get(frame, 15);
    Some(lo as u16 + (hi as u16) * 256)
}

} // verus!
