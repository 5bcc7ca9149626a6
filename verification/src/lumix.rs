//! Lumix camera protocol, a PTP-over-IP dialect: command and data packet
//! framing, the session handshake payloads, and the zoom/focus/autofocus
//! state machine. The HTTP handshake and the TCP sockets live outside the
//! crate; this module builds every byte that goes onto them and decides
//! which transactions a command turns into.

use vstd::prelude::*;
use vstd::string::StrSliceExecFns;

use crate::bytes::{push_u16_le, push_u32_le, push_u64_le, spec_u16_le, spec_u32_le, spec_u64_le};
use crate::config::{CapabilitySet, LumixConfig};
use crate::device::Command;

verus! {

/// A PTP command packet: fixed length 0x26, type 0x06, a phase marker, the
/// operation code, the transaction id and five parameters.
#[derive(Clone, Copy, Debug, PartialEq, Eq, Structural)]
pub struct CommandPacket {
    pub length: u32,
    pub packet_type: u32,
    pub phase_info: u32,
    pub opcode: u16,
    pub transaction_id: u32,
    pub param1: u32,
    pub param2: u32,
    pub param3: u32,
    pub param4: u32,
    pub param5: u32,
}

/// The 38 bytes of a command packet, every field little-endian in
/// declaration order.
pub open spec fn spec_command_packet_bytes(p: CommandPacket) -> Seq<u8> {
    spec_u32_le(p.length) + spec_u32_le(p.packet_type) + spec_u32_le(p.phase_info) + spec_u16_le(
        p.opcode,
    ) + spec_u32_le(p.transaction_id) + spec_u32_le(p.param1) + spec_u32_le(p.param2) + spec_u32_le(
        p.param3,
    ) + spec_u32_le(p.param4) + spec_u32_le(p.param5)
}

/// The session-opening command: opcode 0x1002, single-phase, parameter
/// 0x00010001.
pub open spec fn spec_open_session(transaction_id: u32) -> CommandPacket {
    CommandPacket {
        length: 0x26,
        packet_type: 0x06,
        phase_info: 0x01,
        opcode: 0x1002,
        transaction_id,
        param1: 0x00010001,
        param2: 0,
        param3: 0,
        param4: 0,
        param5: 0,
    }
}

/// The zoom-start command: opcode 0x9416, data phase, parameter 0x03000081.
pub open spec fn spec_start_zoom(transaction_id: u32) -> CommandPacket {
    CommandPacket {
        length: 0x26,
        packet_type: 0x06,
        phase_info: 0x02,
        opcode: 0x9416,
        transaction_id,
        param1: 0x03000081,
        param2: 0,
        param3: 0,
        param4: 0,
        param5: 0,
    }
}

/// The zoom-stop command: opcode 0x9416, data phase, parameter 0x03000082.
pub open spec fn spec_stop_zoom(transaction_id: u32) -> CommandPacket {
    CommandPacket {
        length: 0x26,
        packet_type: 0x06,
        phase_info: 0x02,
        opcode: 0x9416,
        transaction_id,
        param1: 0x03000082,
        param2: 0,
        param3: 0,
        param4: 0,
        param5: 0,
    }
}

/// The one-shot autofocus command: opcode 0x9405, single-phase, parameter
/// 0x03000024.
pub open spec fn spec_one_shot_af(transaction_id: u32) -> CommandPacket {
    CommandPacket {
        length: 0x26,
        packet_type: 0x06,
        phase_info: 0x01,
        opcode: 0x9405,
        transaction_id,
        param1: 0x03000024,
        param2: 0,
        param3: 0,
        param4: 0,
        param5: 0,
    }
}

/// The focus-adjust command: opcode 0x9416, data phase, parameter
/// 0x03010011.
pub open spec fn spec_adjust_focus(transaction_id: u32) -> CommandPacket {
    CommandPacket {
        length: 0x26,
        packet_type: 0x06,
        phase_info: 0x02,
        opcode: 0x9416,
        transaction_id,
        param1: 0x03010011,
        param2: 0,
        param3: 0,
        param4: 0,
        param5: 0,
    }
}

impl CommandPacket {
    /// The session-opening command for this transaction.
    pub fn open_session(transaction_id: u32) -> (r: CommandPacket)
        ensures
            r == spec_open_session(transaction_id),
    {
        CommandPacket {
            length: 0x26,
            packet_type: 0x06,
            phase_info: 0x01,
            opcode: 0x1002,
            transaction_id,
            param1: 0x00010001,
            param2: 0,
            param3: 0,
            param4: 0,
            param5: 0,
        }
    }

    /// The zoom-start command for this transaction.
    pub fn start_zoom(transaction_id: u32) -> (r: CommandPacket)
        ensures
            r == spec_start_zoom(transaction_id),
    {
        CommandPacket {
            length: 0x26,
            packet_type: 0x06,
            phase_info: 0x02,
            opcode: 0x9416,
            transaction_id,
            param1: 0x03000081,
            param2: 0,
            param3: 0,
            param4: 0,
            param5: 0,
        }
    }

    /// The zoom-stop command for this transaction.
    pub fn stop_zoom(transaction_id: u32) -> (r: CommandPacket)
        ensures
            r == spec_stop_zoom(transaction_id),
    {
        CommandPacket {
            length: 0x26,
            packet_type: 0x06,
            phase_info: 0x02,
            opcode: 0x9416,
            transaction_id,
            param1: 0x03000082,
            param2: 0,
            param3: 0,
            param4: 0,
            param5: 0,
        }
    }

    /// The one-shot autofocus command for this transaction.
    pub fn one_shot_af(transaction_id: u32) -> (r: CommandPacket)
        ensures
            r == spec_one_shot_af(transaction_id),
    {
        CommandPacket {
            length: 0x26,
            packet_type: 0x06,
            phase_info: 0x01,
            opcode: 0x9405,
            transaction_id,
            param1: 0x03000024,
            param2: 0,
            param3: 0,
            param4: 0,
            param5: 0,
        }
    }

    /// The focus-adjust command for this transaction.
    pub fn adjust_focus(transaction_id: u32) -> (r: CommandPacket)
        ensures
            r == spec_adjust_focus(transaction_id),
    {
        CommandPacket {
            length: 0x26,
            packet_type: 0x06,
            phase_info: 0x02,
            opcode: 0x9416,
            transaction_id,
            param1: 0x03010011,
            param2: 0,
            param3: 0,
            param4: 0,
            param5: 0,
        }
    }

    /// Serialises the packet for the wire.
    #[verifier::rlimit(50)]
    pub fn to_bytes(&self) -> (r: Vec<u8>)
        ensures
            r@ == spec_command_packet_bytes(*self),
            r@.len() == 38,
    {
        let mut out: Vec<u8> = Vec::new();
        push_u32_le(&mut out, self.length);
        push_u32_le(&mut out, self.packet_type);
        push_u32_le(&mut out, self.phase_info);
        push_u16_le(&mut out, self.opcode);
        push_u32_le(&mut out, self.transaction_id);
        push_u32_le(&mut out, self.param1);
        push_u32_le(&mut out, self.param2);
        push_u32_le(&mut out, self.param3);
        push_u32_le(&mut out, self.param4);
        push_u32_le(&mut out, self.param5);
        assert(out@ =~= spec_command_packet_bytes(*self));
        out
    }
}

/// The direction a powered zoom moves: toward wide angle or telephoto.
#[derive(Clone, Copy, Debug, PartialEq, Eq, Structural)]
pub enum ZoomDirection {
    Wide,
    Tele,
}

/// The wire code of a zoom direction: wide 0, tele 1.
pub open spec fn spec_zoom_dir_code(d: ZoomDirection) -> u16 {
    match d {
        ZoomDirection::Wide => 0x00,
        ZoomDirection::Tele => 0x01,
    }
}

impl ZoomDirection {
    /// The wire code of this direction.
    pub fn code(self) -> (r: u16)
        ensures
            r == spec_zoom_dir_code(self),
    {
        match self {
            ZoomDirection::Wide => 0x00,
            ZoomDirection::Tele => 0x01,
        }
    }
}

/// How fast a powered zoom moves: at rest, slow, or fast.
#[derive(Clone, Copy, Debug, PartialEq, Eq, Structural)]
pub enum ZoomSpeed {
    Off,
    Low,
    High,
}

/// The wire code of a zoom speed: off 0, low 1, high 2.
pub open spec fn spec_zoom_speed_code(s: ZoomSpeed) -> u16 {
    match s {
        ZoomSpeed::Off => 0x00,
        ZoomSpeed::Low => 0x01,
        ZoomSpeed::High => 0x02,
    }
}

impl ZoomSpeed {
    /// The wire code of this speed.
    pub fn code(self) -> (r: u16)
        ensures
            r == spec_zoom_speed_code(self),
    {
        match self {
            ZoomSpeed::Off => 0x00,
            ZoomSpeed::Low => 0x01,
            ZoomSpeed::High => 0x02,
        }
    }
}

/// A focus adjustment rate and direction.
#[derive(Clone, Copy, Debug, PartialEq, Eq, Structural)]
pub enum FocusAdjustSpeed {
    Stop,
    FarFast,
    FarSlow,
    NearSlow,
    NearFast,
}

/// The wire code of a focus adjustment: stop 0, then far fast 1, far slow
/// 2, near slow 3, near fast 4.
pub open spec fn spec_focus_speed_code(s: FocusAdjustSpeed) -> u16 {
    match s {
        FocusAdjustSpeed::Stop => 0x00,
        FocusAdjustSpeed::FarFast => 0x01,
        FocusAdjustSpeed::FarSlow => 0x02,
        FocusAdjustSpeed::NearSlow => 0x03,
        FocusAdjustSpeed::NearFast => 0x04,
    }
}

impl FocusAdjustSpeed {
    /// The wire code of this adjustment.
    pub fn code(self) -> (r: u16)
        ensures
            r == spec_focus_speed_code(self),
    {
        match self {
            FocusAdjustSpeed::Stop => 0x00,
            FocusAdjustSpeed::FarFast => 0x01,
            FocusAdjustSpeed::FarSlow => 0x02,
            FocusAdjustSpeed::NearSlow => 0x03,
            FocusAdjustSpeed::NearFast => 0x04,
        }
    }
}

/// The data packet that follows a zoom-start command: the PTP data header,
/// the repeated transaction id and parameter, then the direction and speed
/// codes.
#[derive(Clone, Copy, Debug, PartialEq, Eq, Structural)]
pub struct ZoomStartDataPacket {
    pub length: u32,
    pub packet_type: u32,
    pub transaction_id: u32,
    pub data_length: u64,
    pub unknown1: u64,
    pub transaction_id2: u32,
    pub param1: u32,
    pub unknown2: u32,
    pub dir: u16,
    pub speed: u16,
}

/// The 44 bytes of a zoom-start data packet, every field little-endian in
/// declaration order.
pub open spec fn spec_zoom_start_data_bytes(p: ZoomStartDataPacket) -> Seq<u8> {
    spec_u32_le(p.length) + spec_u32_le(p.packet_type) + spec_u32_le(p.transaction_id)
        + spec_u64_le(p.data_length) + spec_u64_le(p.unknown1) + spec_u32_le(p.transaction_id2)
        + spec_u32_le(p.param1) + spec_u32_le(p.unknown2) + spec_u16_le(p.dir) + spec_u16_le(
        p.speed,
    )
}

/// The zoom-start data for one transaction: data length 0x0C and the
/// direction and speed codes at the tail.
pub open spec fn spec_zoom_start_data(
    transaction_id: u32,
    param1: u32,
    dir: ZoomDirection,
    speed: ZoomSpeed,
) -> ZoomStartDataPacket {
    ZoomStartDataPacket {
        length: 0x14,
        packet_type: 0x09,
        transaction_id,
        data_length: 0x0C,
        unknown1: 0x0000000C_00000018,
        transaction_id2: transaction_id,
        param1,
        unknown2: 0x04,
        dir: spec_zoom_dir_code(dir),
        speed: spec_zoom_speed_code(speed),
    }
}

impl ZoomStartDataPacket {
    /// Builds the zoom-start data for one transaction.
    pub fn create(transaction_id: u32, param1: u32, dir: ZoomDirection, speed: ZoomSpeed) -> (r:
        ZoomStartDataPacket)
        ensures
            r == spec_zoom_start_data(transaction_id, param1, dir, speed),
    {
        ZoomStartDataPacket {
            length: 0x14,
            packet_type: 0x09,
            transaction_id,
            data_length: 0x0C,
            unknown1: 0x0000000C_00000018,
            transaction_id2: transaction_id,
            param1,
            unknown2: 0x04,
            dir: dir.code(),
            speed: speed.code(),
        }
    }

    /// Serialises the packet for the wire.
    #[verifier::rlimit(50)]
    pub fn to_bytes(&self) -> (r: Vec<u8>)
        ensures
            r@ == spec_zoom_start_data_bytes(*self),
            r@.len() == 44,
    {
        let mut out: Vec<u8> = Vec::new();
        push_u32_le(&mut out, self.length);
        push_u32_le(&mut out, self.packet_type);
        push_u32_le(&mut out, self.transaction_id);
        push_u64_le(&mut out, self.data_length);
        push_u64_le(&mut out, self.unknown1);
        push_u32_le(&mut out, self.transaction_id2);
        push_u32_le(&mut out, self.param1);
        push_u32_le(&mut out, self.unknown2);
        push_u16_le(&mut out, self.dir);
        push_u16_le(&mut out, self.speed);
        assert(out@ =~= spec_zoom_start_data_bytes(*self));
        out
    }
}

/// The data packet that follows a zoom-stop command.
#[derive(Clone, Copy, Debug, PartialEq, Eq, Structural)]
pub struct ZoomStopDataPacket {
    pub length: u32,
    pub packet_type: u32,
    pub transaction_id: u32,
    pub data_length: u64,
    pub unknown1: u64,
    pub transaction_id2: u32,
    pub param1: u32,
    pub unknown2: u32,
}

/// The 40 bytes of a zoom-stop data packet, every field little-endian in
/// declaration order.
pub open spec fn spec_zoom_stop_data_bytes(p: ZoomStopDataPacket) -> Seq<u8> {
    spec_u32_le(p.length) + spec_u32_le(p.packet_type) + spec_u32_le(p.transaction_id)
        + spec_u64_le(p.data_length) + spec_u64_le(p.unknown1) + spec_u32_le(p.transaction_id2)
        + spec_u32_le(p.param1) + spec_u32_le(p.unknown2)
}

/// The zoom-stop data for one transaction: data length 0x08 and no tail.
pub open spec fn spec_zoom_stop_data(transaction_id: u32, param1: u32) -> ZoomStopDataPacket {
    ZoomStopDataPacket {
        length: 0x14,
        packet_type: 0x09,
        transaction_id,
        data_length: 0x08,
        unknown1: 0x0000000C_00000014,
        transaction_id2: transaction_id,
        param1,
        unknown2: 0x00,
    }
}

impl ZoomStopDataPacket {
    /// Builds the zoom-stop data for one transaction.
    pub fn create(transaction_id: u32, param1: u32) -> (r: ZoomStopDataPacket)
        ensures
            r == spec_zoom_stop_data(transaction_id, param1),
    {
        ZoomStopDataPacket {
            length: 0x14,
            packet_type: 0x09,
            transaction_id,
            data_length: 0x08,
            unknown1: 0x0000000C_00000014,
            transaction_id2: transaction_id,
            param1,
            unknown2: 0x00,
        }
    }

    /// Serialises the packet for the wire.
    #[verifier::rlimit(50)]
    pub fn to_bytes(&self) -> (r: Vec<u8>)
        ensures
            r@ == spec_zoom_stop_data_bytes(*self),
            r@.len() == 40,
    {
        let mut out: Vec<u8> = Vec::new();
        push_u32_le(&mut out, self.length);
        push_u32_le(&mut out, self.packet_type);
        push_u32_le(&mut out, self.transaction_id);
        push_u64_le(&mut out, self.data_length);
        push_u64_le(&mut out, self.unknown1);
        push_u32_le(&mut out, self.transaction_id2);
        push_u32_le(&mut out, self.param1);
        push_u32_le(&mut out, self.unknown2);
        assert(out@ =~= spec_zoom_stop_data_bytes(*self));
        out
    }
}

/// The data packet that follows a focus-adjust command: the PTP data
/// header, then the focus speed code.
#[derive(Clone, Copy, Debug, PartialEq, Eq, Structural)]
pub struct FocusAdjustDataPacket {
    pub length: u32,
    pub packet_type: u32,
    pub transaction_id: u32,
    pub data_length: u64,
    pub unknown1: u64,
    pub transaction_id2: u32,
    pub param1: u32,
    pub unknown2: u32,
    pub speed: u16,
}

/// The 42 bytes of a focus-adjust data packet, every field little-endian
/// in declaration order.
pub open spec fn spec_focus_adjust_data_bytes(p: FocusAdjustDataPacket) -> Seq<u8> {
    spec_u32_le(p.length) + spec_u32_le(p.packet_type) + spec_u32_le(p.transaction_id)
        + spec_u64_le(p.data_length) + spec_u64_le(p.unknown1) + spec_u32_le(p.transaction_id2)
        + spec_u32_le(p.param1) + spec_u32_le(p.unknown2) + spec_u16_le(p.speed)
}

/// The focus-adjust data for one transaction: data length 0x0a and the
/// speed code at the tail.
pub open spec fn spec_focus_adjust_data(
    transaction_id: u32,
    param1: u32,
    speed: FocusAdjustSpeed,
) -> FocusAdjustDataPacket {
    FocusAdjustDataPacket {
        length: 0x14,
        packet_type: 0x09,
        transaction_id,
        data_length: 0x0a,
        unknown1: 0x0000000C_00000016,
        transaction_id2: transaction_id,
        param1,
        unknown2: 0x02,
        speed: spec_focus_speed_code(speed),
    }
}

impl FocusAdjustDataPacket {
    /// Builds the focus-adjust data for one transaction.
    pub fn create(transaction_id: u32, param1: u32, speed: FocusAdjustSpeed) -> (r:
        FocusAdjustDataPacket)
        ensures
            r == spec_focus_adjust_data(transaction_id, param1, speed),
    {
        FocusAdjustDataPacket {
            length: 0x14,
            packet_type: 0x09,
            transaction_id,
            data_length: 0x0a,
            unknown1: 0x0000000C_00000016,
            transaction_id2: transaction_id,
            param1,
            unknown2: 0x02,
            speed: speed.code(),
        }
    }

    /// Serialises the packet for the wire.
    #[verifier::rlimit(50)]
    pub fn to_bytes(&self) -> (r: Vec<u8>)
        ensures
            r@ == spec_focus_adjust_data_bytes(*self),
            r@.len() == 42,
    {
        let mut out: Vec<u8> = Vec::new();
        push_u32_le(&mut out, self.length);
        push_u32_le(&mut out, self.packet_type);
        push_u32_le(&mut out, self.transaction_id);
        push_u64_le(&mut out, self.data_length);
        push_u64_le(&mut out, self.unknown1);
        push_u32_le(&mut out, self.transaction_id2);
        push_u32_le(&mut out, self.param1);
        push_u32_le(&mut out, self.unknown2);
        push_u16_le(&mut out, self.speed);
        assert(out@ =~= spec_focus_adjust_data_bytes(*self));
        out
    }
}

/// The UTF-16 little-endian bytes of one character: most characters are one
/// 16-bit unit; characters beyond the basic plane become a surrogate pair.
pub open spec fn spec_char_utf16le(c: char) -> Seq<u8> {
    let v = c as u32;
    if v < 0x10000 {
        spec_u16_le(v as u16)
    } else {
        spec_u16_le((0xD800 + ((v - 0x10000) / 0x400)) as u16) + spec_u16_le(
            (0xDC00 + ((v - 0x10000) % 0x400)) as u16,
        )
    }
}

/// The UTF-16 little-endian bytes of a character sequence.
pub open spec fn spec_utf16le(chars: Seq<char>) -> Seq<u8>
    decreases chars.len(),
{
    if chars.len() == 0 {
        Seq::empty()
    } else {
        spec_utf16le(chars.drop_last()) + spec_char_utf16le(chars.last())
    }
}

/// The UTF-16 little-endian bytes of a string followed by one NUL unit.
pub open spec fn spec_utf16le_nul(chars: Seq<char>) -> Seq<u8> {
    spec_utf16le(chars) + seq![0u8, 0u8]
}

/// Encodes a string as NUL-terminated UTF-16 little-endian, as the session
/// init packet carries the application name.
pub fn encode_str(s: &str) -> (r: Vec<u8>)
    ensures
        r@ == spec_utf16le_nul(s@),
{
    let n = s.unicode_len();
    let mut out: Vec<u8> = Vec::new();
    let mut i: usize = 0;
    while i < n
        invariant
            i <= n,
            n == s@.len(),
            out@ == spec_utf16le(s@.subrange(0, i as int)),
        decreases n - i,
    {
        let c = s.get_char(i);
        proof {
            vstd::utf8::char_is_scalar(c);
        }
        let v = c as u32;
        if v < 0x10000 {
            push_u16_le(&mut out, v as u16);
        } else {
            let off = v - 0x10000;
            push_u16_le(&mut out, (0xD800 + off / 0x400) as u16);
            push_u16_le(&mut out, (0xDC00 + off % 0x400) as u16);
        }
        i = i + 1;
        proof {
            let pre = s@.subrange(0, i as int);
            assert(pre.drop_last() =~= s@.subrange(0, i - 1));
            assert(pre.last() == s@[i - 1]);
            assert(out@ =~= spec_utf16le(pre));
        }
    }
    proof {
        assert(s@.subrange(0, s@.len() as int) =~= s@);
    }
    push_u16_le(&mut out, 0);
    assert(out@ =~= spec_utf16le_nul(s@));
    out
}

/// The needle occurs in the haystack at offset `i`.
pub open spec fn spec_match_at(haystack: Seq<u8>, needle: Seq<u8>, i: int) -> bool {
    &&& 0 <= i
    &&& i + needle.len() <= haystack.len()
    &&& haystack.subrange(i, i + needle.len()) == needle
}

/// The needle occurs somewhere in the haystack.
pub open spec fn spec_contains(haystack: Seq<u8>, needle: Seq<u8>) -> bool {
    exists|i: int| spec_match_at(haystack, needle, i)
}

/// Finds the first occurrence of `needle` in `haystack` at or after `from`.
pub fn find_subslice(haystack: &[u8], needle: &[u8], from: usize) -> (r: Option<usize>)
    ensures
        r matches Some(i) ==> ({
            &&& from <= i
            &&& spec_match_at(haystack@, needle@, i as int)
            &&& forall|j: int| from <= j < i ==> !spec_match_at(haystack@, needle@, j)
        }),
        r is None ==> forall|j: int| j >= from ==> !spec_match_at(haystack@, needle@, j),
{
    if needle.len() > haystack.len() {
        return None;
    }
    if needle.len() == 0 {
        if from > haystack.len() {
            return None;
        }
        assert(haystack@.subrange(from as int, from as int) =~= needle@);
        return Some(from);
    }
    let last = haystack.len() - needle.len();
    if from > last {
        assert forall|j: int| j >= from implies !spec_match_at(haystack@, needle@, j) by {}
        return None;
    }
    let mut i: usize = from;
    while i <= last
        invariant
            from <= i <= last + 1,
            1 <= needle@.len(),
            last == haystack@.len() - needle@.len(),
            haystack@.len() <= usize::MAX,
            forall|j: int| from <= j < i ==> !spec_match_at(haystack@, needle@, j),
        decreases last + 1 - i,
    {
        let mut k: usize = 0;
        let mut matches_here = true;
        while k < needle.len()
            invariant
                k <= needle@.len(),
                i + needle@.len() <= haystack@.len(),
                haystack@.len() <= usize::MAX,
                matches_here == (forall|m: int| 0 <= m < k ==> haystack@[i + m] == needle@[m]),
            ensures
                k <= needle@.len(),
                matches_here ==> k == needle@.len(),
                matches_here == (forall|m: int| 0 <= m < k ==> haystack@[i + m] == needle@[m]),
            decreases needle@.len() - k,
        {
            if *vstd::slice::slice_index_get(haystack, i + k) != *vstd::slice::slice_index_get(
                needle,
                k,
            ) {
                matches_here = false;
                assert(haystack@[i + k as int] != needle@[k as int]);
                assert(!(forall|m: int| 0 <= m < k + 1 ==> haystack@[i + m] == needle@[m]));
                k = k + 1;
                break ;
            }
            k = k + 1;
        }
        if matches_here {
            assert(haystack@.subrange(i as int, i + needle@.len()) =~= needle@);
            return Some(i);
        }
        assert(!spec_match_at(haystack@, needle@, i as int)) by {
            assert(exists|m: int| 0 <= m < k && haystack@[i + m] != needle@[m]);
            let m = choose|m: int| 0 <= m < k && haystack@[i + m] != needle@[m];
            if spec_match_at(haystack@, needle@, i as int) {
                assert(haystack@.subrange(i as int, i + needle@.len())[m] == needle@[m]);
                assert(haystack@[i + m] == needle@[m]);
            }
        }
        i = i + 1;
    }
    assert forall|j: int| j >= from implies !spec_match_at(haystack@, needle@, j) by {
        if j <= last {
            assert(!spec_match_at(haystack@, needle@, j));
        } else {
            assert(j + needle@.len() > haystack@.len());
        }
    }
    None
}

/// Tests whether `needle` occurs anywhere in `haystack`.
pub fn contains_subslice(haystack: &[u8], needle: &[u8]) -> (r: bool)
    ensures
        r == spec_contains(haystack@, needle@),
{
    match find_subslice(haystack, needle, 0) {
        Some(_) => true,
        None => {
            assert(forall|j: int| !spec_match_at(haystack@, needle@, j)) by {
                assert(forall|j: int| j < 0 ==> !spec_match_at(haystack@, needle@, j));
                assert(forall|j: int| j >= 0 ==> !spec_match_at(haystack@, needle@, j));
            }
            false
        },
    }
}

/// The ASCII bytes of `<result>ok</result>`, the marker of a granted
/// access-control request.
pub open spec fn spec_result_ok_tag() -> Seq<u8> {
    seq![
        0x3cu8,
        0x72,
        0x65,
        0x73,
        0x75,
        0x6c,
        0x74,
        0x3e,
        0x6f,
        0x6b,
        0x3c,
        0x2f,
        0x72,
        0x65,
        0x73,
        0x75,
        0x6c,
        0x74,
        0x3e,
    ]
}

/// Tests whether an access-control response body reports success: it must
/// contain the literal `<result>ok</result>`.
pub fn acc_response_ok(body: &[u8]) -> (r: bool)
    ensures
        r == spec_contains(body@, spec_result_ok_tag()),
{
    let tag: Vec<u8> = vec![
        0x3c,
        0x72,
        0x65,
        0x73,
        0x75,
        0x6c,
        0x74,
        0x3e,
        0x6f,
        0x6b,
        0x3c,
        0x2f,
        0x72,
        0x65,
        0x73,
        0x75,
        0x6c,
        0x74,
        0x3e,
    ];
    assert(tag@ =~= spec_result_ok_tag());
    contains_subslice(body, tag.as_slice())
}

/// The ASCII bytes of `<friendlyName>`.
pub open spec fn spec_friendly_open_tag() -> Seq<u8> {
    seq![
        0x3cu8,
        0x66,
        0x72,
        0x69,
        0x65,
        0x6e,
        0x64,
        0x6c,
        0x79,
        0x4e,
        0x61,
        0x6d,
        0x65,
        0x3e,
    ]
}

/// The ASCII bytes of `</friendlyName>`.
pub open spec fn spec_friendly_close_tag() -> Seq<u8> {
    seq![
        0x3cu8,
        0x2f,
        0x66,
        0x72,
        0x69,
        0x65,
        0x6e,
        0x64,
        0x6c,
        0x79,
        0x4e,
        0x61,
        0x6d,
        0x65,
        0x3e,
    ]
}

/// Extracts the device's friendly name from the description document: the
/// bytes between the first `<friendlyName>` and the first `</friendlyName>`
/// after it, or nothing when either tag is missing.
pub fn parse_friendly_name(body: &[u8]) -> (r: Option<Vec<u8>>)
    ensures
        r matches Some(v) ==> (exists|i: int, j: int|
            {
                &&& spec_match_at(body@, spec_friendly_open_tag(), i)
                &&& forall|p: int| 0 <= p < i ==> !spec_match_at(body@, spec_friendly_open_tag(), p)
                &&& i + 14 <= j
                &&& spec_match_at(body@, spec_friendly_close_tag(), j)
                &&& forall|q: int|
                    i + 14 <= q < j ==> !spec_match_at(body@, spec_friendly_close_tag(), q)
                &&& v@ == body@.subrange(i + 14, j)
            }),
        r is None ==> (forall|p: int| !spec_match_at(body@, spec_friendly_open_tag(), p)) || (
        exists|i: int|
            {
                &&& spec_match_at(body@, spec_friendly_open_tag(), i)
                &&& forall|p: int| 0 <= p < i ==> !spec_match_at(body@, spec_friendly_open_tag(), p)
                &&& forall|q: int|
                    q >= i + 14 ==> !spec_match_at(body@, spec_friendly_close_tag(), q)
            }),
{
    let open_tag: Vec<u8> = vec![
        0x3c,
        0x66,
        0x72,
        0x69,
        0x65,
        0x6e,
        0x64,
        0x6c,
        0x79,
        0x4e,
        0x61,
        0x6d,
        0x65,
        0x3e,
    ];
    let close_tag: Vec<u8> = vec![
        0x3c,
        0x2f,
        0x66,
        0x72,
        0x69,
        0x65,
        0x6e,
        0x64,
        0x6c,
        0x79,
        0x4e,
        0x61,
        0x6d,
        0x65,
        0x3e,
    ];
    assert(open_tag@ =~= spec_friendly_open_tag());
    assert(close_tag@ =~= spec_friendly_close_tag());
    let total = body.len();
    let open_at = match find_subslice(body, open_tag.as_slice(), 0) {
        None => {
            assert(forall|p: int| p < 0 ==> !spec_match_at(body@, spec_friendly_open_tag(), p));
            return None;
        },
        Some(i) => i,
    };
    assert(open_at + 14 <= total);
    let start = open_at + 14;
    let close_at = match find_subslice(body, close_tag.as_slice(), start) {
        None => {
            return None;
        },
        Some(j) => j,
    };
    let name = vstd::slice::slice_to_vec(
        vstd::slice::slice_subrange(body, start, close_at),
    );
    Some(name)
}

/// The 52-byte session init packet: total length, command 1, sixteen 0xff
/// bytes, the application name as NUL-terminated UTF-16, and a version
/// trailer.
pub open spec fn spec_init_command_packet(app_name: Seq<char>) -> Seq<u8> {
    seq![0x34u8, 0x00, 0x00, 0x00, 0x01, 0x00, 0x00, 0x00] + seq![
        0xffu8,
        0xff,
        0xff,
        0xff,
        0xff,
        0xff,
        0xff,
        0xff,
        0xff,
        0xff,
        0xff,
        0xff,
        0xff,
        0xff,
        0xff,
        0xff,
    ] + spec_utf16le_nul(app_name) + seq![0x00u8, 0x00, 0x01, 0x00]
}

/// Builds the control-socket init packet carrying the application name.
pub fn init_command_packet() -> (r: Vec<u8>)
    ensures
        r@ == spec_init_command_packet("LUMIXTether"@),
{
    let mut out: Vec<u8> = Vec::new();
    out.push(0x34);
    out.push(0x00);
    out.push(0x00);
    out.push(0x00);
    out.push(0x01);
    out.push(0x00);
    out.push(0x00);
    out.push(0x00);
    let mut i: usize = 0;
    while i < 16
        invariant
            i <= 16,
            out@.len() == 8 + i,
            out@ == seq![0x34u8, 0x00, 0x00, 0x00, 0x01, 0x00, 0x00, 0x00] + Seq::new(
                i as nat,
                |k: int| 0xffu8,
            ),
        decreases 16 - i,
    {
        out.push(0xff);
        proof {
            assert(out@ =~= seq![0x34u8, 0x00, 0x00, 0x00, 0x01, 0x00, 0x00, 0x00] + Seq::new(
                (i + 1) as nat,
                |k: int| 0xffu8,
            ));
        }
        i = i + 1;
    }
    let mut name = encode_str("LUMIXTether");
    out.append(&mut name);
    out.push(0x00);
    out.push(0x00);
    out.push(0x01);
    out.push(0x00);
    proof {
        assert(Seq::new(16nat, |k: int| 0xffu8) =~= seq![
            0xffu8,
            0xff,
            0xff,
            0xff,
            0xff,
            0xff,
            0xff,
            0xff,
            0xff,
            0xff,
            0xff,
            0xff,
            0xff,
            0xff,
            0xff,
            0xff,
        ]);
        assert(out@ =~= spec_init_command_packet("LUMIXTether"@));
    }
    out
}

/// The 12-byte event-socket init packet.
pub open spec fn spec_init_event_packet() -> Seq<u8> {
    seq![0x0cu8, 0x00, 0x00, 0x00, 0x03, 0x00, 0x00, 0x00, 0x01, 0x00, 0x00, 0x00]
}

/// Builds the event-socket init packet.
pub fn init_event_packet() -> (r: Vec<u8>)
    ensures
        r@ == spec_init_event_packet(),
{
    let out: Vec<u8> = vec![
        0x0c,
        0x00,
        0x00,
        0x00,
        0x03,
        0x00,
        0x00,
        0x00,
        0x01,
        0x00,
        0x00,
        0x00,
    ];
    assert(out@ =~= spec_init_event_packet());
    out
}

/// The focus adjustment a focus axis value in thousandths calls for: fast
/// beyond three quarters deflection, slow below, at rest exactly at zero.
/// Negative values move near, positive values move far.
pub open spec fn spec_focus_speed_of(f: int) -> FocusAdjustSpeed {
    if f < -750 {
        FocusAdjustSpeed::NearFast
    } else if f < 0 {
        FocusAdjustSpeed::NearSlow
    } else if f > 750 {
        FocusAdjustSpeed::FarFast
    } else if f > 0 {
        FocusAdjustSpeed::FarSlow
    } else {
        FocusAdjustSpeed::Stop
    }
}

/// Maps a focus axis value in thousandths to its adjustment speed.
pub fn focus_adjust_speed(focus: i16) -> (r: FocusAdjustSpeed)
    ensures
        r == spec_focus_speed_of(focus as int),
{
    if focus < -750 {
        FocusAdjustSpeed::NearFast
    } else if focus < 0 {
        FocusAdjustSpeed::NearSlow
    } else if focus > 750 {
        FocusAdjustSpeed::FarFast
    } else if focus > 0 {
        FocusAdjustSpeed::FarSlow
    } else {
        FocusAdjustSpeed::Stop
    }
}

/// The direction a zoom axis value in thousandths calls for: negative is
/// wide, positive is tele, zero keeps the current direction.
pub open spec fn spec_zoom_dir_of(z: int, curr: ZoomDirection) -> ZoomDirection {
    if z < 0 {
        ZoomDirection::Wide
    } else if z > 0 {
        ZoomDirection::Tele
    } else {
        curr
    }
}

/// The speed a zoom axis value in thousandths calls for: at rest exactly at
/// zero, low up to three quarters deflection, high beyond.
pub open spec fn spec_zoom_speed_of(z: int) -> ZoomSpeed {
    if z == 0 {
        ZoomSpeed::Off
    } else if -750 <= z <= 750 {
        ZoomSpeed::Low
    } else {
        ZoomSpeed::High
    }
}

/// One wire transaction: a command packet, and for data-phase commands the
/// data packet that follows it. The transport writes the command, then the
/// data if any, then awaits one response.
#[derive(Clone, Debug, PartialEq)]
pub struct Exchange {
    pub command: Vec<u8>,
    pub data: Option<Vec<u8>>,
}

/// The per-connection protocol state: the next transaction id and the zoom
/// direction and speed the camera was last told.
#[derive(Clone, Copy, Debug, PartialEq, Eq, Structural)]
pub struct Session {
    pub transaction_id: u32,
    pub curr_dir: ZoomDirection,
    pub curr_speed: ZoomSpeed,
}

/// The state right after the session handshake: the opening transaction
/// used id 0, so the next is 1, and the zoom is at rest pointing wide.
pub fn initial_session() -> (r: Session)
    ensures
        r == (Session {
            transaction_id: 1,
            curr_dir: ZoomDirection::Wide,
            curr_speed: ZoomSpeed::Off,
        }),
{
    Session { transaction_id: 1, curr_dir: ZoomDirection::Wide, curr_speed: ZoomSpeed::Off }
}

impl Session {
    /// One autofocus trigger when the command asks for it: a single
    /// one-shot transaction, no data phase.
    pub fn handle_autofocus(&mut self, command: &Command) -> (r: Vec<Exchange>)
        requires
            command.autofocus ==> old(self).transaction_id < 0xFFFFFFFF,
        ensures
            !command.autofocus ==> r@.len() == 0 && *final(self) == *old(self),
            command.autofocus ==> ({
                &&& r@.len() == 1
                &&& r@[0].command@ == spec_command_packet_bytes(
                    spec_one_shot_af(old(self).transaction_id),
                )
                &&& r@[0].data is None
                &&& final(self).transaction_id == old(self).transaction_id + 1
                &&& final(self).curr_dir == old(self).curr_dir
                &&& final(self).curr_speed == old(self).curr_speed
            }),
    {
        let mut out: Vec<Exchange> = Vec::new();
        if command.autofocus {
            let af_cmd = CommandPacket::one_shot_af(self.transaction_id);
            self.transaction_id = self.transaction_id + 1;
            out.push(Exchange { command: af_cmd.to_bytes(), data: None });
        }
        out
    }

    /// One focus-adjust transaction when the focus axis calls for motion:
    /// command and data carry the same transaction id, and a focus at rest
    /// sends nothing.
    pub fn handle_focus(&mut self, command: &Command) -> (r: Vec<Exchange>)
        requires
            spec_focus_speed_of(command.focus as int) != FocusAdjustSpeed::Stop ==> old(
                self,
            ).transaction_id < 0xFFFFFFFF,
        ensures
            spec_focus_speed_of(command.focus as int) == FocusAdjustSpeed::Stop ==> r@.len() == 0
                && *final(self) == *old(self),
            spec_focus_speed_of(command.focus as int) != FocusAdjustSpeed::Stop ==> ({
                let speed = spec_focus_speed_of(command.focus as int);
                &&& r@.len() == 1
                &&& r@[0].command@ == spec_command_packet_bytes(
                    spec_adjust_focus(old(self).transaction_id),
                )
                &&& (r@[0].data matches Some(d) && d@ == spec_focus_adjust_data_bytes(
                    spec_focus_adjust_data(old(self).transaction_id, 0x03010011, speed),
                ))
                &&& final(self).transaction_id == old(self).transaction_id + 1
                &&& final(self).curr_dir == old(self).curr_dir
                &&& final(self).curr_speed == old(self).curr_speed
            }),
    {
        let speed = focus_adjust_speed(command.focus);
        let mut out: Vec<Exchange> = Vec::new();
        if let FocusAdjustSpeed::Stop = speed {
            return out;
        }
        let focus_cmd = CommandPacket::adjust_focus(self.transaction_id);
        let focus_data = FocusAdjustDataPacket::create(
            self.transaction_id,
            focus_cmd.param1,
            speed,
        );
        self.transaction_id = self.transaction_id + 1;
        out.push(Exchange { command: focus_cmd.to_bytes(), data: Some(focus_data.to_bytes()) });
        out
    }

    /// The zoom transactions a zoom axis value calls for: nothing when the
    /// camera is already moving that way, else a stop for any motion in
    /// progress followed by a start for any new motion, and the recorded
    /// direction and speed advance to the new pair.
    pub fn handle_zoom(&mut self, command: &Command) -> (r: Vec<Exchange>)
        requires
            !(spec_zoom_dir_of(command.zoom as int, old(self).curr_dir) == old(self).curr_dir
                && spec_zoom_speed_of(command.zoom as int) == old(self).curr_speed) ==> old(
                self,
            ).transaction_id <= 0xFFFFFFFD,
        ensures
            ({
                let dir = spec_zoom_dir_of(command.zoom as int, old(self).curr_dir);
                let speed = spec_zoom_speed_of(command.zoom as int);
                &&& (dir == old(self).curr_dir && speed == old(self).curr_speed) ==> r@.len() == 0
                    && *final(self) == *old(self)
                &&& !(dir == old(self).curr_dir && speed == old(self).curr_speed) ==> ({
                    let stops: int = if old(self).curr_speed != ZoomSpeed::Off {
                        1
                    } else {
                        0
                    };
                    let starts: int = if speed != ZoomSpeed::Off {
                        1
                    } else {
                        0
                    };
                    &&& r@.len() == stops + starts
                    &&& old(self).curr_speed != ZoomSpeed::Off ==> (r@[0].command@
                        == spec_command_packet_bytes(spec_stop_zoom(old(self).transaction_id)) && (
                    r@[0].data matches Some(d) && d@ == spec_zoom_stop_data_bytes(
                        spec_zoom_stop_data(old(self).transaction_id, 0x03000082),
                    )))
                    &&& speed != ZoomSpeed::Off ==> (r@[stops].command@
                        == spec_command_packet_bytes(
                        spec_start_zoom((old(self).transaction_id + stops) as u32),
                    ) && (r@[stops].data matches Some(d) && d@ == spec_zoom_start_data_bytes(
                        spec_zoom_start_data(
                            (old(self).transaction_id + stops) as u32,
                            0x03000081,
                            dir,
                            speed,
                        ),
                    )))
                    &&& final(self).transaction_id == old(self).transaction_id + stops + starts
                    &&& final(self).curr_dir == dir
                    &&& final(self).curr_speed == speed
                })
            }),
    {
        let dir = if command.zoom < 0 {
            ZoomDirection::Wide
        } else if command.zoom > 0 {
            ZoomDirection::Tele
        } else {
            self.curr_dir
        };
        let speed = if command.zoom == 0 {
            ZoomSpeed::Off
        } else if -750 <= command.zoom && command.zoom <= 750 {
            ZoomSpeed::Low
        } else {
            ZoomSpeed::High
        };
        let mut out: Vec<Exchange> = Vec::new();
        if dir == self.curr_dir && speed == self.curr_speed {
            return out;
        }
        if !matches!(self.curr_speed, ZoomSpeed::Off) {
            let stop_cmd = CommandPacket::stop_zoom(self.transaction_id);
            let stop_data = ZoomStopDataPacket::create(self.transaction_id, stop_cmd.param1);
            self.transaction_id = self.transaction_id + 1;
            out.push(Exchange { command: stop_cmd.to_bytes(), data: Some(stop_data.to_bytes()) });
        }
        if !matches!(speed, ZoomSpeed::Off) {
            let start_cmd = CommandPacket::start_zoom(self.transaction_id);
            let start_data = ZoomStartDataPacket::create(
                self.transaction_id,
                start_cmd.param1,
                dir,
                speed,
            );
            self.transaction_id = self.transaction_id + 1;
            out.push(Exchange { command: start_cmd.to_bytes(), data: Some(start_data.to_bytes()) });
        }
        self.curr_dir = dir;
        self.curr_speed = speed;
        out
    }
}

/// The Lumix driver state: identity, where to reach the camera, the
/// configured capability set, and the protocol state of the open session if
/// one is up. The sockets live with the caller.
pub struct Lumix {
    pub id: String,
    pub name: String,
    pub address: String,
    pub password: Option<String>,
    pub capabilities: CapabilitySet,
    pub session: Option<Session>,
}

/// Builds a Lumix driver from its config entry, disconnected; the display
/// name starts as the address until the handshake reports a friendly name.
pub fn create(id: &str, config: &LumixConfig) -> (r: Lumix)
    ensures
        r.id@ == id@,
        r.name@ == config.address@,
        r.address@ == config.address@,
        r.password == config.password,
        r.capabilities == crate::config::spec_configured_caps(config.capabilities),
        r.session is None,
{
    Lumix {
        id: id.to_owned(),
        name: config.address.clone(),
        address: config.address.clone(),
        password: config.password.clone(),
        capabilities: CapabilitySet::from_config(&config.capabilities),
        session: None,
    }
}

impl Lumix {
    /// The stable id.
    pub fn id(&self) -> (r: String)
        ensures
            r@ == self.id@,
    {
        self.id.clone()
    }

    /// The display name: the address until the handshake learns better.
    pub fn name(&self) -> (r: String)
        ensures
            r@ == self.name@,
    {
        self.name.clone()
    }

    /// Whether the driver holds an open session.
    pub fn is_connected(&self) -> (r: bool)
        ensures
            r == (self.session is Some),
    {
        self.session.is_some()
    }

    /// Decides what one command means for this camera: nothing while no
    /// session is up; an autofocus trigger alone when asked for and
    /// permitted; otherwise any focus adjustment, then any zoom
    /// transactions, each capability gated.
    pub fn plan_send(&mut self, command: &Command) -> (r: Vec<Exchange>)
        requires
            old(self).session matches Some(s) ==> s.transaction_id <= 0xFFFFFFFC,
        ensures
            final(self).id == old(self).id,
            final(self).name == old(self).name,
            final(self).address == old(self).address,
            final(self).password == old(self).password,
            final(self).capabilities == old(self).capabilities,
            old(self).session is None ==> r@.len() == 0 && *final(self) == *old(self),
            old(self).session matches Some(s) ==> (old(self).capabilities.autofocus
                && command.autofocus) ==> ({
                &&& r@.len() == 1
                &&& r@[0].command@ == spec_command_packet_bytes(spec_one_shot_af(s.transaction_id))
                &&& r@[0].data is None
                &&& final(self).session == Some(
                    Session {
                        transaction_id: (s.transaction_id + 1) as u32,
                        curr_dir: s.curr_dir,
                        curr_speed: s.curr_speed,
                    },
                )
            }),
            old(self).session matches Some(s) ==> !(old(self).capabilities.autofocus
                && command.autofocus) ==> ({
                let fs = spec_focus_speed_of(command.focus as int);
                let nf: int = if old(self).capabilities.focus && fs != FocusAdjustSpeed::Stop {
                    1
                } else {
                    0
                };
                let dir = spec_zoom_dir_of(command.zoom as int, s.curr_dir);
                let speed = spec_zoom_speed_of(command.zoom as int);
                let zoom_on = old(self).capabilities.zoom && !(dir == s.curr_dir && speed
                    == s.curr_speed);
                let stops: int = if zoom_on && s.curr_speed != ZoomSpeed::Off {
                    1
                } else {
                    0
                };
                let starts: int = if zoom_on && speed != ZoomSpeed::Off {
                    1
                } else {
                    0
                };
                &&& r@.len() == nf + stops + starts
                &&& nf == 1 ==> (r@[0].command@ == spec_command_packet_bytes(
                    spec_adjust_focus(s.transaction_id),
                ) && (r@[0].data matches Some(d) && d@ == spec_focus_adjust_data_bytes(
                    spec_focus_adjust_data(s.transaction_id, 0x03010011, fs),
                )))
                &&& stops == 1 ==> (r@[nf].command@ == spec_command_packet_bytes(
                    spec_stop_zoom((s.transaction_id + nf) as u32),
                ) && (r@[nf].data matches Some(d) && d@ == spec_zoom_stop_data_bytes(
                    spec_zoom_stop_data((s.transaction_id + nf) as u32, 0x03000082),
                )))
                &&& starts == 1 ==> (r@[nf + stops].command@ == spec_command_packet_bytes(
                    spec_start_zoom((s.transaction_id + nf + stops) as u32),
                ) && (r@[nf + stops].data matches Some(d) && d@ == spec_zoom_start_data_bytes(
                    spec_zoom_start_data((s.transaction_id + nf + stops) as u32, 0x03000081, dir, speed),
                )))
                &&& final(self).session == Some(
                    Session {
                        transaction_id: (s.transaction_id + nf + stops + starts) as u32,
                        curr_dir: if zoom_on {
                            dir
                        } else {
                            s.curr_dir
                        },
                        curr_speed: if zoom_on {
                            speed
                        } else {
                            s.curr_speed
                        },
                    },
                )
            }),
    {
        let mut out: Vec<Exchange> = Vec::new();
        if let Some(mut session) = self.session {
            if self.capabilities.autofocus && command.autofocus {
                let mut af = session.handle_autofocus(command);
                out.append(&mut af);
                self.session = Some(session);
                return out;
            }
            if self.capabilities.focus {
                let mut focus = session.handle_focus(command);
                out.append(&mut focus);
            }
            if self.capabilities.zoom {
                let mut zoom = session.handle_zoom(command);
                out.append(&mut zoom);
            }
            self.session = Some(session);
        }
        out
    }
}

} // verus!
