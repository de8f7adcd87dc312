use bitwise_games::bitfield::{get_bits, set_bits};
use bitwise_games::state::{from_u64, to_u64, Breakout};

#[test]
fn get_bits_reads_a_window_into_a_narrow_type() {
    let v: u8 = get_bits(0xABCD, 4, 8);
    assert_eq!(v, 0xBC);
    let w: u16 = get_bits(0xF000_0000_0000_0000, 60, 4);
    assert_eq!(w, 0xF);
    let x: u32 = get_bits(0x1234_5678_9ABC_DEF0, 16, 32);
    assert_eq!(x, 0x5678_9ABC);
}

#[test]
fn get_bits_reads_the_whole_word() {
    let v: u64 = get_bits(u64::MAX, 0, 64);
    assert_eq!(v, u64::MAX);
}

#[test]
fn set_bits_replaces_only_its_window() {
    assert_eq!(set_bits(0xFFFF, 0u8, 4, 8), 0xF00F);
    assert_eq!(set_bits(0, 0xABu8, 8, 8), 0xAB00);
    assert_eq!(set_bits(u64::MAX, 0u64, 0, 64), 0);
}

#[test]
fn set_bits_drops_the_bits_beyond_the_width() {
    assert_eq!(set_bits(0, 0xFFu8, 0, 4), 0xF);
    assert_eq!(set_bits(0, 0x1FFu16, 60, 4), 0xF000_0000_0000_0000);
}

#[test]
fn field_isolation_on_the_state_word() {
    let word = 0x0ABC_DEF0_1234_5678u64;
    let written = set_bits(word, 0x15u8, 46, 6);
    let bricks: u64 = get_bits(written, 0, 40);
    let paddle: u8 = get_bits(written, 40, 6);
    let ball_y: u8 = get_bits(written, 52, 6);
    let vel: u8 = get_bits(written, 58, 2);
    let ball_x: u8 = get_bits(written, 46, 6);
    assert_eq!(bricks, word & 0xFF_FFFF_FFFF);
    assert_eq!(paddle, ((word >> 40) & 63) as u8);
    assert_eq!(ball_y, ((word >> 52) & 63) as u8);
    assert_eq!(vel, ((word >> 58) & 3) as u8);
    assert_eq!(ball_x, 0x15);
}

#[test]
fn decode_splits_the_word_into_fields() {
    let word = (2u64 << 58) | (17u64 << 52) | (40u64 << 46) | (26u64 << 40) | 0x12_3456_789A;
    let s = from_u64(word);
    assert_eq!(
        s,
        Breakout { bricks: 0x12_3456_789A, paddle_pos: 26, ball_pos_x: 40, ball_pos_y: 17, ball_vel: 2 }
    );
}

#[test]
fn decode_ignores_reserved_bits() {
    let word = (0xFu64 << 60) | 5;
    let s = from_u64(word);
    assert_eq!(s.bricks, 5);
    assert_eq!(s.ball_vel, 0);
    assert_eq!(to_u64(&s), 5);
}

#[test]
fn encode_of_decode_is_the_word() {
    for word in [0u64, 0x0FFF_FFFF_FFFF_FFFF, 0x0ABC_DEF0_1234_5678, 0x0800_0000_0000_0001] {
        assert_eq!(to_u64(&from_u64(word)), word);
    }
}

#[test]
fn decode_of_encode_is_the_state() {
    let states = [
        Breakout { bricks: 0, paddle_pos: 0, ball_pos_x: 0, ball_pos_y: 0, ball_vel: 0 },
        Breakout { bricks: 0xFF_FFFF_FFFF, paddle_pos: 63, ball_pos_x: 63, ball_pos_y: 63, ball_vel: 3 },
        Breakout { bricks: 0x80_0000_0001, paddle_pos: 52, ball_pos_x: 31, ball_pos_y: 57, ball_vel: 1 },
    ];
    for s in states {
        assert_eq!(from_u64(to_u64(&s)), s);
    }
}
