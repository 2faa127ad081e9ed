use calculator::{as_i32, calculate, export_subtract, parse_operator, Guest, Op, Subtractor};
use calculator::adder::add;

#[test]
fn add_small_values() {
    assert_eq!(calculate(Op::Add, 2, 3), 5);
}

#[test]
fn sub_small_values() {
    assert_eq!(calculate(Op::Sub, 5, 3), 2);
}

#[test]
fn sub_wraps_below_zero() {
    assert_eq!(calculate(Op::Sub, 3, 5), 4294967294);
}

#[test]
fn add_wraps_past_max() {
    assert_eq!(calculate(Op::Add, 4294967295, 1), 0);
}

#[test]
fn add_is_sum_modulo_word() {
    let cases: [(u32, u32); 4] = [(0, 0), (7, 11), (u32::MAX, u32::MAX), (0x8000_0000, 0x8000_0000)];
    for (x, y) in cases {
        let expected = ((x as u64 + y as u64) % (1u64 << 32)) as u32;
        assert_eq!(calculate(Op::Add, x, y), expected);
    }
}

#[test]
fn sub_is_difference_modulo_word() {
    let cases: [(u32, u32); 4] = [(0, 0), (0, 1), (10, 3), (1, u32::MAX)];
    for (x, y) in cases {
        let expected = ((x as i64 - y as i64).rem_euclid(1i64 << 32)) as u32;
        assert_eq!(calculate(Op::Sub, x, y), expected);
    }
    assert_eq!(calculate(Op::Sub, 0, 1), u32::MAX);
    assert_eq!(calculate(Op::Sub, 1, u32::MAX), 2);
}

#[test]
fn add_commutes() {
    assert_eq!(calculate(Op::Add, 9, 4000000000), calculate(Op::Add, 4000000000, 9));
    assert_eq!(calculate(Op::Add, u32::MAX, 2), calculate(Op::Add, 2, u32::MAX));
}

#[test]
fn sub_zero_is_identity() {
    assert_eq!(calculate(Op::Sub, 0, 0), 0);
    assert_eq!(calculate(Op::Sub, 12345, 0), 12345);
    assert_eq!(calculate(Op::Sub, u32::MAX, 0), u32::MAX);
}

#[test]
fn components_agree_with_dispatch() {
    assert_eq!(add(40, 2), 42);
    assert_eq!(Subtractor::subtract(40, 2), 38);
    assert_eq!(Subtractor::subtract(2, 40), 4294967258);
}

#[test]
fn parse_known_operators() {
    assert!(matches!(parse_operator("add"), Ok(Op::Add)));
    assert!(matches!(parse_operator("sub"), Ok(Op::Sub)));
}

#[test]
fn parse_unknown_operator() {
    match parse_operator("mul") {
        Ok(_) => panic!("mul is no operation"),
        Err(e) => assert_eq!(e.op, "mul"),
    }
    assert!(parse_operator("").is_err());
    assert!(parse_operator("Add").is_err());
    assert!(parse_operator("adds").is_err());
    assert!(parse_operator("su").is_err());
}

#[test]
fn op_symbols() {
    assert_eq!(Op::Add.symbol(), '+');
    assert_eq!(Op::Sub.symbol(), '-');
}

#[test]
fn lift_discriminants() {
    assert_eq!(Op::lift(0), Op::Add);
    assert_eq!(Op::lift(1), Op::Sub);
}

#[test]
fn as_i32_keeps_low_bits() {
    assert_eq!(as_i32(5u32), 5);
    assert_eq!(as_i32(u32::MAX), -1);
    assert_eq!(as_i32(0x8000_0000u32), i32::MIN);
    assert_eq!(as_i32(-7i32), -7);
    assert_eq!(as_i32(-3i16), -3);
    assert_eq!(as_i32(u16::MAX), 65535);
    assert_eq!(as_i32(-128i8), -128);
    assert_eq!(as_i32(255u8), 255);
    assert_eq!(as_i32('A'), 65);
    assert_eq!(as_i32(&9u8), 9);
    assert_eq!(as_i32(0xFFFF_FFFFusize), -1);
    assert_eq!(as_i32(17usize), 17);
}

#[test]
fn export_subtract_on_i32_lanes() {
    assert_eq!(export_subtract::<Subtractor>(5, 3), 2);
    assert_eq!(export_subtract::<Subtractor>(3, 5), -2);
    assert_eq!(export_subtract::<Subtractor>(i32::MIN, 1), i32::MAX);
    assert_eq!(export_subtract::<Subtractor>(-1, -1), 0);
}
