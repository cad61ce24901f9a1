//! The fixed-length binary `DisplayFrame` shared through tmpfs.
//!
//! Layout (88 bytes, little-endian, no implicit padding):
//!
//! | offset | field            | type     |
//! |-------:|------------------|----------|
//! |      0 | magic            | u32      |
//! |      4 | version          | u16      |
//! |      6 | reserved         | u16      |
//! |      8 | timestamp_ns     | u64      |
//! |     16 | seq              | u64      |
//! |     24 | robot_state      | u8       |
//! |     25 | pad0             | [u8; 3]  |
//! |     28 | battery_voltage  | f32      |
//! |     32 | battery_percent  | f32      |
//! |     36 | linear_vel       | f32      |
//! |     40 | angular_vel      | f32      |
//! |     44 | line1            | [u8; 20] |
//! |     64 | line2            | [u8; 20] |
//! |     84 | status_flags     | u32      |
//!
//! The four `f32` values are kept as their IEEE-754 bit patterns.

use vstd::prelude::*;
use crate::text::{field_str, field_text};

verus! {

/// Format identification magic ("DIS0" = 0x44495330, little-endian).
pub const MAGIC: u32 = 0x4449_5330;

/// Size in bytes of an encoded frame.
pub const FRAME_SIZE: usize = 88;

/// One frame of display content, as written by the container side.
#[derive(Clone, Copy, Debug)]
pub struct DisplayFrame {
    pub magic: u32,
    pub version: u16,
    pub _reserved: u16,
    /// CLOCK_REALTIME in nanoseconds.
    pub timestamp_ns: u64,
    /// Sequence number used to detect updates.
    pub seq: u64,
    /// 0=IDLE, 1=RUNNING, 2=ERROR, 3=CHARGING.
    pub robot_state: u8,
    pub _pad0: [u8; 3],
    /// Battery voltage (V), IEEE-754 single-precision bits.
    pub battery_voltage_bits: u32,
    /// Battery charge (%), IEEE-754 single-precision bits.
    pub battery_percent_bits: u32,
    /// Linear velocity (m/s), IEEE-754 single-precision bits.
    pub linear_vel_bits: u32,
    /// Angular velocity (rad/s), IEEE-754 single-precision bits.
    pub angular_vel_bits: u32,
    /// Fixed-length ASCII text, padded with spaces or NULs.
    pub line1: [u8; 20],
    pub line2: [u8; 20],
    /// Bit flags.
    pub status_flags: u32,
}

/// The little-endian value of the two bytes at `at`.
pub open spec fn le_u16(b: Seq<u8>, at: int) -> int {
    b[at] + 256 * b[at + 1]
}

/// The little-endian value of the four bytes at `at`.
pub open spec fn le_u32(b: Seq<u8>, at: int) -> int {
    b[at] + 256 * b[at + 1] + 65536 * b[at + 2] + 16777216 * b[at + 3]
}

/// The little-endian value of the eight bytes at `at`.
pub open spec fn le_u64(b: Seq<u8>, at: int) -> int {
    le_u32(b, at) + 4294967296 * le_u32(b, at + 4)
}

/// `f` is the frame whose encoding is `b`, field by field at the offsets of the layout.
pub open spec fn encodes(b: Seq<u8>, f: DisplayFrame) -> bool {
    &&& b.len() == FRAME_SIZE
    &&& f.magic == le_u32(b, 0)
    &&& f.version == le_u16(b, 4)
    &&& f._reserved == le_u16(b, 6)
    &&& f.timestamp_ns == le_u64(b, 8)
    &&& f.seq == le_u64(b, 16)
    &&& f.robot_state == b[24]
    &&& f._pad0@ == b.subrange(25, 28)
    &&& f.battery_voltage_bits == le_u32(b, 28)
    &&& f.battery_percent_bits == le_u32(b, 32)
    &&& f.linear_vel_bits == le_u32(b, 36)
    &&& f.angular_vel_bits == le_u32(b, 40)
    &&& f.line1@ == b.subrange(44, 64)
    &&& f.line2@ == b.subrange(64, 84)
    &&& f.status_flags == le_u32(b, 84)
}

/// A buffer is accepted as a frame when it has the frame's size and starts with the magic.
pub open spec fn is_frame(b: Seq<u8>) -> bool {
    b.len() == FRAME_SIZE && le_u32(b, 0) == MAGIC
}

/// The text shown for a robot state.
pub open spec fn state_name(state: u8) -> Seq<char> {
    if state == 0 {
        "IDLE"@
    } else if state == 1 {
        "RUNNING"@
    } else if state == 2 {
        "ERROR"@
    } else if state == 3 {
        "CHARGING"@
    } else {
        "UNKNOWN"@
    }
}

fn read_u16_le(b: &[u8], at: usize) -> (v: u16)
    requires
        at + 2 <= b@.len(),
    ensures
        v == le_u16(b@, at as int),
{
    (b[at] as u16) + (b[at + 1] as u16) * 256
}

fn read_u32_le(b: &[u8], at: usize) -> (v: u32)
    requires
        at + 4 <= b@.len(),
    ensures
        v == le_u32(b@, at as int),
{
    (b[at] as u32) + (b[at + 1] as u32) * 256 + (b[at + 2] as u32) * 65536 + (b[at + 3] as u32)
        * 16777216
}

fn read_u64_le(b: &[u8], at: usize) -> (v: u64)
    requires
        at + 8 <= b@.len(),
    ensures
        v == le_u64(b@, at as int),
{
    let len: usize = b.len();
    assert(at + 8 <= len);
    let lo: u32 = read_u32_le(b, at);
    let hi: u32 = read_u32_le(b, at + 4);
    (lo as u64) + (hi as u64) * 4294967296
}

/// Decodes a frame from the bytes of the shared file.
///
/// A buffer whose size is not the frame's, or whose magic does not match, is
/// no frame (`None`: drawing is skipped for it).
pub fn frame_from_bytes(bytes: &[u8]) -> (r: Option<DisplayFrame>)
    ensures
        r is Some <==> is_frame(bytes@),
        r matches Some(f) ==> encodes(bytes@, f),
{
    if bytes.len() != FRAME_SIZE {
        return None;
    }
    let magic: u32 = read_u32_le(bytes, 0);
    if magic != MAGIC {
        return None;
    }
    let b = bytes;
    let pad0: [u8; 3] = [b[25], b[26], b[27]];
    let line1: [u8; 20] = [
        b[44], b[45], b[46], b[47], b[48], b[49], b[50], b[51], b[52], b[53],
        b[54], b[55], b[56], b[57], b[58], b[59], b[60], b[61], b[62], b[63],
    ];
    let line2: [u8; 20] = [
        b[64], b[65], b[66], b[67], b[68], b[69], b[70], b[71], b[72], b[73],
        b[74], b[75], b[76], b[77], b[78], b[79], b[80], b[81], b[82], b[83],
    ];
    let f = DisplayFrame {
        magic,
        version: read_u16_le(b, 4),
        _reserved: read_u16_le(b, 6),
        timestamp_ns: read_u64_le(b, 8),
        seq: read_u64_le(b, 16),
        robot_state: b[24],
        _pad0: pad0,
        battery_voltage_bits: read_u32_le(b, 28),
        battery_percent_bits: read_u32_le(b, 32),
        linear_vel_bits: read_u32_le(b, 36),
        angular_vel_bits: read_u32_le(b, 40),
        line1,
        line2,
        status_flags: read_u32_le(b, 84),
    };
    proof {
        assert(f._pad0@ =~= b@.subrange(25, 28));
        assert(f.line1@ =~= b@.subrange(44, 64));
        assert(f.line2@ =~= b@.subrange(64, 84));
    }
    Some(f)
}

proof fn lemma_le_u16_unique(b1: Seq<u8>, b2: Seq<u8>, at: int)
    requires
        0 <= at,
        at + 2 <= b1.len(),
        at + 2 <= b2.len(),
        le_u16(b1, at) == le_u16(b2, at),
    ensures
        b1[at] == b2[at],
        b1[at + 1] == b2[at + 1],
{
}

proof fn lemma_le_u32_unique(b1: Seq<u8>, b2: Seq<u8>, at: int)
    requires
        0 <= at,
        at + 4 <= b1.len(),
        at + 4 <= b2.len(),
        le_u32(b1, at) == le_u32(b2, at),
    ensures
        forall|i: int| at <= i < at + 4 ==> b1[i] == b2[i],
{
    let (x0, x1, x2, x3) = (b1[at], b1[at + 1], b1[at + 2], b1[at + 3]);
    let (y0, y1, y2, y3) = (b2[at], b2[at + 1], b2[at + 2], b2[at + 3]);
    assert(x0 == y0 && x1 == y1 && x2 == y2 && x3 == y3) by (bit_vector)
        requires
            x0 + 256 * x1 + 65536 * x2 + 16777216 * x3 == y0 + 256 * y1 + 65536 * y2 + 16777216
                * y3,
    ;
}

proof fn lemma_le_u64_unique(b1: Seq<u8>, b2: Seq<u8>, at: int)
    requires
        0 <= at,
        at + 8 <= b1.len(),
        at + 8 <= b2.len(),
        le_u64(b1, at) == le_u64(b2, at),
    ensures
        forall|i: int| at <= i < at + 8 ==> b1[i] == b2[i],
{
    let lo1 = le_u32(b1, at);
    let lo2 = le_u32(b2, at);
    let hi1 = le_u32(b1, at + 4);
    let hi2 = le_u32(b2, at + 4);
    assert(0 <= lo1 < 4294967296 && 0 <= lo2 < 4294967296);
    assert(lo1 == lo2 && hi1 == hi2) by (nonlinear_arith)
        requires
            lo1 + 4294967296 * hi1 == lo2 + 4294967296 * hi2,
            0 <= lo1 < 4294967296,
            0 <= lo2 < 4294967296,
            0 <= hi1,
            0 <= hi2,
    ;
    lemma_le_u32_unique(b1, b2, at);
    lemma_le_u32_unique(b1, b2, at + 4);
}

/// The layout has no implicit padding: every byte of an encoded frame belongs
/// to a field, so two buffers that encode the same frame are the same bytes.
pub proof fn lemma_encoding_unique(b1: Seq<u8>, b2: Seq<u8>, f: DisplayFrame)
    requires
        encodes(b1, f),
        encodes(b2, f),
    ensures
        b1 == b2,
{
    lemma_le_u32_unique(b1, b2, 0);
    lemma_le_u16_unique(b1, b2, 4);
    lemma_le_u16_unique(b1, b2, 6);
    lemma_le_u64_unique(b1, b2, 8);
    lemma_le_u64_unique(b1, b2, 16);
    lemma_le_u32_unique(b1, b2, 28);
    lemma_le_u32_unique(b1, b2, 32);
    lemma_le_u32_unique(b1, b2, 36);
    lemma_le_u32_unique(b1, b2, 40);
    lemma_le_u32_unique(b1, b2, 84);
    assert forall|i: int| 0 <= i < 88 implies b1[i] == b2[i] by {
        if 25 <= i < 28 {
            assert(b1.subrange(25, 28)[i - 25] == b2.subrange(25, 28)[i - 25]);
        } else if 44 <= i < 64 {
            assert(b1.subrange(44, 64)[i - 44] == b2.subrange(44, 64)[i - 44]);
        } else if 64 <= i < 84 {
            assert(b1.subrange(64, 84)[i - 64] == b2.subrange(64, 84)[i - 64]);
        }
    }
    assert(b1 =~= b2);
}

/// A buffer is a frame exactly when it is 88 bytes long and starts with the
/// bytes of "0SID" (the magic 0x44495330 stored little-endian).
pub proof fn lemma_frame_starts_with_magic_bytes(b: Seq<u8>)
    ensures
        is_frame(b) <==> (b.len() == 88 && b[0] == 0x30u8 && b[1] == 0x53u8 && b[2] == 0x49u8
            && b[3] == 0x44u8),
{
    if b.len() == 88 {
        let (x0, x1, x2, x3) = (b[0], b[1], b[2], b[3]);
        assert((x0 + 256 * x1 + 65536 * x2 + 16777216 * x3 == 0x44495330) <==> (x0 == 0x30u8 && x1
            == 0x53u8 && x2 == 0x49u8 && x3 == 0x44u8)) by (bit_vector);
    }
}

/// Every field of a decoded frame is read from its documented offset, least
/// significant byte first.
pub proof fn lemma_fields_at_offsets(b: Seq<u8>, f: DisplayFrame)
    requires
        encodes(b, f),
    ensures
        f.magic == b[0] + 256 * b[1] + 65536 * b[2] + 16777216 * b[3],
        f.version == b[4] + 256 * b[5],
        f._reserved == b[6] + 256 * b[7],
        f.timestamp_ns == b[8] + 256 * b[9] + 65536 * b[10] + 16777216 * b[11] + 4294967296 * (
        b[12] + 256 * b[13] + 65536 * b[14] + 16777216 * b[15]),
        f.seq == b[16] + 256 * b[17] + 65536 * b[18] + 16777216 * b[19] + 4294967296 * (b[20] + 256
            * b[21] + 65536 * b[22] + 16777216 * b[23]),
        f.robot_state == b[24],
        f._pad0@ == seq![b[25], b[26], b[27]],
        f.battery_voltage_bits == b[28] + 256 * b[29] + 65536 * b[30] + 16777216 * b[31],
        f.battery_percent_bits == b[32] + 256 * b[33] + 65536 * b[34] + 16777216 * b[35],
        f.linear_vel_bits == b[36] + 256 * b[37] + 65536 * b[38] + 16777216 * b[39],
        f.angular_vel_bits == b[40] + 256 * b[41] + 65536 * b[42] + 16777216 * b[43],
        forall|i: int| 0 <= i < 20 ==> #[trigger] f.line1@[i] == b[44 + i],
        forall|i: int| 0 <= i < 20 ==> #[trigger] f.line2@[i] == b[64 + i],
        f.line1@.len() == 20,
        f.line2@.len() == 20,
        f.status_flags == b[84] + 256 * b[85] + 65536 * b[86] + 16777216 * b[87],
{
    assert(f._pad0@ =~= seq![b[25], b[26], b[27]]);
    assert forall|i: int| 0 <= i < 20 implies #[trigger] f.line1@[i] == b[44 + i] by {
        assert(b.subrange(44, 64)[i] == b[44 + i]);
    }
    assert forall|i: int| 0 <= i < 20 implies #[trigger] f.line2@[i] == b[64 + i] by {
        assert(b.subrange(64, 84)[i] == b[64 + i]);
    }
}

/// The text shown for each robot state: 0 IDLE, 1 RUNNING, 2 ERROR,
/// 3 CHARGING, and UNKNOWN for every other value.
pub proof fn lemma_state_names(state: u8)
    ensures
        state == 0 ==> state_name(state) == "IDLE"@,
        state == 1 ==> state_name(state) == "RUNNING"@,
        state == 2 ==> state_name(state) == "ERROR"@,
        state == 3 ==> state_name(state) == "CHARGING"@,
        state > 3 ==> state_name(state) == "UNKNOWN"@,
{
}

impl DisplayFrame {
    /// The text shown for `robot_state`.
    pub fn state_str(&self) -> (r: &'static str)
        ensures
            r@ == state_name(self.robot_state),
    {
        match self.robot_state {
            0 => "IDLE",
            1 => "RUNNING",
            2 => "ERROR",
            3 => "CHARGING",
            _ => "UNKNOWN",
        }
    }

    /// The text of `line1` without its trailing padding.
    pub fn line1_str(&self) -> (r: &str)
        ensures
            r@ == field_text(self.line1@),
    {
        field_str(self.line1.as_slice())
    }
}

} // verus!
