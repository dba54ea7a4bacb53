//! Wire codec tests: round trips, exact byte layout, malformed buffers, and
//! byte-for-byte agreement with the reference serialization of the same
//! fields (bincode's legacy fixed-width little-endian form).

use player_mirror::codec::{
    decode_player_array, decode_player_info, encode_player_array, encode_player_info, CodecError,
};
use player_mirror::shared::{Action, PlayerInfo, SerializableVector3};

fn vec3(x: f32, y: f32, z: f32) -> SerializableVector3 {
    SerializableVector3 {
        x: x.to_bits(),
        y: y.to_bits(),
        z: z.to_bits(),
    }
}

fn rec(px: f32, py: f32, pz: f32, vx: f32, vy: f32, vz: f32, action: Action) -> PlayerInfo {
    PlayerInfo::new(vec3(px, py, pz), vec3(vx, vy, vz), action)
}

#[test]
fn record_round_trip() {
    let samples = vec![
        PlayerInfo::default(),
        rec(1.0, 0.0, 0.0, 0.0, 0.0, 0.0, Action::Stand),
        rec(-934.5, -1169.25, 260.0, 0.0, 90.0, -45.5, Action::Run),
        rec(11356.0, -2619.0, -204.0, 1.5, 2.5, 3.5, Action::WallrunBack),
        rec(f32::MAX, f32::MIN, f32::EPSILON, f32::INFINITY, -0.0, 0.125, Action::Jump),
    ];
    for sample in samples {
        let encoded = encode_player_info(&sample);
        assert_eq!(encoded.len(), 28);
        let decoded = decode_player_info(&encoded).unwrap();
        assert_eq!(decoded, sample);
    }
}

#[test]
fn record_known_bytes() {
    // 1.0f32 is 0x3F800000; Stand's discriminant is 2.
    let encoded = encode_player_info(&rec(1.0, 0.0, 0.0, 0.0, 0.0, 0.0, Action::Stand));
    let mut expected = vec![0u8; 28];
    expected[0] = 0x00;
    expected[1] = 0x00;
    expected[2] = 0x80;
    expected[3] = 0x3F;
    expected[24] = 2;
    assert_eq!(encoded, expected);
}

#[test]
fn truncated_record_is_malformed() {
    let encoded = encode_player_info(&rec(1.0, 2.0, 3.0, 4.0, 5.0, 6.0, Action::Crouch));
    for len in 0..28 {
        assert_eq!(decode_player_info(&encoded[..len]), Err(CodecError::Malformed));
    }
}

#[test]
fn trailing_bytes_are_ignored() {
    // The receive buffer is fixed at 32 bytes; the four spare bytes do not
    // disturb the decode.
    let sample = rec(7.0, 8.0, 9.0, 0.0, 0.0, 0.0, Action::WallrunLeft);
    let mut buffer = encode_player_info(&sample);
    buffer.extend_from_slice(&[0xAA, 0xBB, 0xCC, 0xDD]);
    assert_eq!(decode_player_info(&buffer).unwrap(), sample);
}

#[test]
fn out_of_range_discriminant_falls_back_to_stand() {
    let mut buffer = encode_player_info(&rec(1.0, 2.0, 3.0, 4.0, 5.0, 6.0, Action::Crouch));
    buffer[24] = 99;
    let decoded = decode_player_info(&buffer).unwrap();
    assert_eq!(decoded.action, Action::Stand);
    assert_eq!(decoded.position, vec3(1.0, 2.0, 3.0));
}

#[test]
fn driver_action_codes_validate_at_the_boundary() {
    assert_eq!(Action::from(0), Action::Crouch);
    assert_eq!(Action::from(2), Action::Stand);
    assert_eq!(Action::from(7), Action::WallrunBack);
    assert_eq!(Action::from(8), Action::Stand);
    assert_eq!(Action::from(-1), Action::Stand);
    assert_eq!(Action::from(i32::MAX), Action::Stand);
}

fn full_table() -> Vec<PlayerInfo> {
    let mut table = Vec::new();
    for i in 0..16 {
        table.push(rec(i as f32, -(i as f32), 0.5 * i as f32, 0.0, 1.0, 2.0, Action::from(i)));
    }
    table
}

#[test]
fn array_round_trip() {
    let table = full_table();
    let encoded = encode_player_array(&table);
    assert_eq!(encoded.len(), 456);
    let decoded = decode_player_array(&encoded).unwrap();
    assert_eq!(decoded, table);
}

#[test]
fn truncated_array_is_malformed() {
    let encoded = encode_player_array(&full_table());
    assert_eq!(decode_player_array(&encoded[..455]), Err(CodecError::Malformed));
    assert_eq!(decode_player_array(&[]), Err(CodecError::Malformed));
}

#[test]
fn wrong_element_count_is_malformed() {
    let mut encoded = encode_player_array(&full_table());
    // The first eight bytes are the little-endian element count (16).
    assert_eq!(encoded[0], 16);
    encoded[0] = 15;
    assert_eq!(decode_player_array(&encoded), Err(CodecError::Malformed));
}

#[test]
fn record_layout_matches_reference_serialization() {
    let sample = rec(1.5, -2.25, 3.0, 0.0, 90.0, -45.5, Action::Jump);
    let encoded = encode_player_info(&sample);
    // The same fields in the same order, with the action's discriminant as
    // the u32 a unit enum variant serializes to.
    let reference =
        bincode::serialize(&(1.5f32, -2.25f32, 3.0f32, 0.0f32, 90.0f32, -45.5f32, 3u32)).unwrap();
    assert_eq!(encoded, reference);
}

#[test]
fn array_layout_matches_reference_serialization() {
    let mut table = Vec::new();
    let mut reference_table: Vec<(f32, f32, f32, f32, f32, f32, u32)> = Vec::new();
    for i in 0..16u32 {
        let x = i as f32;
        table.push(rec(x, 0.0, -x, 1.0, 2.0, 3.0, Action::Stand));
        reference_table.push((x, 0.0, -x, 1.0, 2.0, 3.0, 2));
    }
    let encoded = encode_player_array(&table);
    let reference = bincode::serialize(&reference_table).unwrap();
    assert_eq!(encoded, reference);
}
