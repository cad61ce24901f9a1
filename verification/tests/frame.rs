use disp_writer::frame::{frame_from_bytes, DisplayFrame, FRAME_SIZE, MAGIC};
use disp_writer::text::field_str;

struct Fields {
    magic: u32,
    version: u16,
    seq: u64,
    timestamp_ns: u64,
    robot_state: u8,
    battery_voltage: f32,
    battery_percent: f32,
    linear_vel: f32,
    angular_vel: f32,
    line1: [u8; 20],
    line2: [u8; 20],
    status_flags: u32,
}

fn padded(text: &[u8], pad: u8) -> [u8; 20] {
    let mut out = [pad; 20];
    out[..text.len()].copy_from_slice(text);
    out
}

fn sample() -> Fields {
    Fields {
        magic: MAGIC,
        version: 1,
        seq: 42,
        timestamp_ns: 1_725_029_869_000_000_123,
        robot_state: 1,
        battery_voltage: 12.3,
        battery_percent: 87.0,
        linear_vel: 0.25,
        angular_vel: -0.1,
        line1: padded(b"hello bobtail", b' '),
        line2: padded(b"second", 0),
        status_flags: 0xA5A5_0001,
    }
}

fn encode(f: &Fields) -> Vec<u8> {
    let mut b = Vec::new();
    b.extend_from_slice(&f.magic.to_le_bytes());
    b.extend_from_slice(&f.version.to_le_bytes());
    b.extend_from_slice(&0u16.to_le_bytes());
    b.extend_from_slice(&f.timestamp_ns.to_le_bytes());
    b.extend_from_slice(&f.seq.to_le_bytes());
    b.push(f.robot_state);
    b.extend_from_slice(&[0, 0, 0]);
    b.extend_from_slice(&f.battery_voltage.to_le_bytes());
    b.extend_from_slice(&f.battery_percent.to_le_bytes());
    b.extend_from_slice(&f.linear_vel.to_le_bytes());
    b.extend_from_slice(&f.angular_vel.to_le_bytes());
    b.extend_from_slice(&f.line1);
    b.extend_from_slice(&f.line2);
    b.extend_from_slice(&f.status_flags.to_le_bytes());
    b
}

fn reencode(f: &DisplayFrame) -> Vec<u8> {
    let mut b = Vec::new();
    b.extend_from_slice(&f.magic.to_le_bytes());
    b.extend_from_slice(&f.version.to_le_bytes());
    b.extend_from_slice(&f._reserved.to_le_bytes());
    b.extend_from_slice(&f.timestamp_ns.to_le_bytes());
    b.extend_from_slice(&f.seq.to_le_bytes());
    b.push(f.robot_state);
    b.extend_from_slice(&f._pad0);
    b.extend_from_slice(&f.battery_voltage_bits.to_le_bytes());
    b.extend_from_slice(&f.battery_percent_bits.to_le_bytes());
    b.extend_from_slice(&f.linear_vel_bits.to_le_bytes());
    b.extend_from_slice(&f.angular_vel_bits.to_le_bytes());
    b.extend_from_slice(&f.line1);
    b.extend_from_slice(&f.line2);
    b.extend_from_slice(&f.status_flags.to_le_bytes());
    b
}

fn with_state(state: u8) -> DisplayFrame {
    let mut f = sample();
    f.robot_state = state;
    frame_from_bytes(&encode(&f)).unwrap()
}

#[test]
fn frame_size_is_88_bytes() {
    assert_eq!(FRAME_SIZE, 88);
    assert_eq!(encode(&sample()).len(), 88);
}

#[test]
fn magic_spells_dis0_little_endian() {
    assert_eq!(MAGIC, 0x4449_5330);
    assert_eq!(&MAGIC.to_le_bytes(), b"0SID");
}

#[test]
fn decodes_every_field_at_its_offset() {
    let s = sample();
    let f = frame_from_bytes(&encode(&s)).expect("a well-formed frame decodes");
    assert_eq!(f.magic, MAGIC);
    assert_eq!(f.version, 1);
    assert_eq!(f._reserved, 0);
    assert_eq!(f.timestamp_ns, 1_725_029_869_000_000_123);
    assert_eq!(f.seq, 42);
    assert_eq!(f.robot_state, 1);
    assert_eq!(f._pad0, [0, 0, 0]);
    assert_eq!(f32::from_bits(f.battery_voltage_bits), 12.3);
    assert_eq!(f32::from_bits(f.battery_percent_bits), 87.0);
    assert_eq!(f32::from_bits(f.linear_vel_bits), 0.25);
    assert_eq!(f32::from_bits(f.angular_vel_bits), -0.1);
    assert_eq!(f.line1, s.line1);
    assert_eq!(f.line2, s.line2);
    assert_eq!(f.status_flags, 0xA5A5_0001);
}

#[test]
fn decoded_frame_encodes_back_to_the_same_bytes() {
    let bytes = encode(&sample());
    let f = frame_from_bytes(&bytes).unwrap();
    assert_eq!(reencode(&f), bytes);
}

#[test]
fn multibyte_values_are_little_endian() {
    let mut bytes = encode(&sample());
    bytes[16..24].copy_from_slice(&[0x01, 0x02, 0x03, 0x04, 0x05, 0x06, 0x07, 0x08]);
    bytes[4..6].copy_from_slice(&[0x34, 0x12]);
    let f = frame_from_bytes(&bytes).unwrap();
    assert_eq!(f.seq, 0x0807_0605_0403_0201);
    assert_eq!(f.version, 0x1234);
}

#[test]
fn short_buffer_is_no_frame() {
    let bytes = encode(&sample());
    assert!(frame_from_bytes(&bytes[..87]).is_none());
    assert!(frame_from_bytes(&[]).is_none());
}

#[test]
fn long_buffer_is_no_frame() {
    let mut bytes = encode(&sample());
    bytes.push(0);
    assert!(frame_from_bytes(&bytes).is_none());
}

#[test]
fn wrong_magic_is_no_frame() {
    let mut s = sample();
    s.magic = 0x4449_5331;
    assert!(frame_from_bytes(&encode(&s)).is_none());
    s.magic = 0x3053_4944;
    assert!(frame_from_bytes(&encode(&s)).is_none());
}

#[test]
fn state_names() {
    assert_eq!(with_state(0).state_str(), "IDLE");
    assert_eq!(with_state(1).state_str(), "RUNNING");
    assert_eq!(with_state(2).state_str(), "ERROR");
    assert_eq!(with_state(3).state_str(), "CHARGING");
    assert_eq!(with_state(4).state_str(), "UNKNOWN");
    assert_eq!(with_state(255).state_str(), "UNKNOWN");
}

#[test]
fn line1_without_space_padding() {
    let f = frame_from_bytes(&encode(&sample())).unwrap();
    assert_eq!(f.line1_str(), "hello bobtail");
}

#[test]
fn line1_without_nul_padding() {
    let mut s = sample();
    s.line1 = padded(b"charging", 0);
    let f = frame_from_bytes(&encode(&s)).unwrap();
    assert_eq!(f.line1_str(), "charging");
}

#[test]
fn line1_mixed_padding_and_inner_spaces() {
    let mut s = sample();
    let mut line = padded(b"a b  c", b' ');
    line[10] = 0;
    line[15] = 0;
    s.line1 = line;
    let f = frame_from_bytes(&encode(&s)).unwrap();
    assert_eq!(f.line1_str(), "a b  c");
}

#[test]
fn line1_full_width_text() {
    let mut s = sample();
    s.line1 = *b"abcdefghijklmnopqrst";
    let f = frame_from_bytes(&encode(&s)).unwrap();
    assert_eq!(f.line1_str(), "abcdefghijklmnopqrst");
}

#[test]
fn line1_all_padding_is_empty() {
    let mut s = sample();
    s.line1 = [b' '; 20];
    let f = frame_from_bytes(&encode(&s)).unwrap();
    assert_eq!(f.line1_str(), "");
}

#[test]
fn line1_invalid_utf8_is_empty() {
    let mut s = sample();
    s.line1 = padded(&[b'o', b'k', 0xFF], b' ');
    let f = frame_from_bytes(&encode(&s)).unwrap();
    assert_eq!(f.line1_str(), "");
}

#[test]
fn line1_keeps_multibyte_text() {
    let mut s = sample();
    s.line1 = padded("héllo ✓".as_bytes(), b' ');
    let f = frame_from_bytes(&encode(&s)).unwrap();
    assert_eq!(f.line1_str(), "héllo ✓");
}

#[test]
fn field_str_keeps_leading_padding() {
    assert_eq!(field_str(b"  x  \0"), "  x");
    assert_eq!(field_str(b""), "");
    assert_eq!(field_str(b"\0\0"), "");
}
