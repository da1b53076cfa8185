use rustdv::text::{push_bool, push_dec, push_hex_padded, push_i32};

#[test]
fn decimal_matches_display() {
    for n in [0u64, 7, 10, 99, 100, 12345, u64::MAX] {
        let mut s = String::from("x=");
        push_dec(&mut s, n);
        assert_eq!(s, format!("x={n}"));
    }
    for n in [0i32, -1, 42, i32::MIN, i32::MAX] {
        let mut s = String::new();
        push_i32(&mut s, n);
        assert_eq!(s, format!("{n}"));
    }
}

#[test]
fn padded_hex_matches_format() {
    for n in [0u64, 0xf, 0xabc, 0x1234_5678_9abc_def0, u64::MAX] {
        for w in [0u64, 2, 4, 16, 20] {
            let mut s = String::new();
            push_hex_padded(&mut s, n, w);
            assert_eq!(s, format!("{n:0w$x}", w = w as usize));
        }
    }
    let mut s = String::new();
    push_bool(&mut s, true);
    push_bool(&mut s, false);
    assert_eq!(s, "truefalse");
}
