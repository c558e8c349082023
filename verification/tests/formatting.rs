use ukernel::numfmt::{push_decimal, push_hex};
use ukernel::panic_message;

fn hex(n: usize) -> String {
    let mut s = String::from("x=");
    push_hex(&mut s, n);
    s
}

fn dec(n: u32) -> String {
    let mut s = String::new();
    push_decimal(&mut s, n);
    s
}

#[test]
fn hex_digits_exact() {
    assert_eq!(hex(0), "x=0");
    assert_eq!(hex(9), "x=9");
    assert_eq!(hex(10), "x=a");
    assert_eq!(hex(255), "x=ff");
    assert_eq!(hex(0x1000), "x=1000");
    assert_eq!(hex(usize::MAX), "x=ffffffffffffffff");
}

#[test]
fn hex_matches_std_formatting() {
    for n in [1usize, 16, 0xabc, 0x8020_0000, 0xdead_beef_cafe] {
        assert_eq!(hex(n), format!("x={:x}", n));
        assert_eq!(usize::from_str_radix(&hex(n)[2..], 16).unwrap(), n);
    }
}

#[test]
fn decimal_digits_exact() {
    assert_eq!(dec(0), "0");
    assert_eq!(dec(7), "7");
    assert_eq!(dec(10), "10");
    assert_eq!(dec(4096), "4096");
    assert_eq!(dec(u32::MAX), "4294967295");
    assert_eq!(dec(1234567).parse::<u32>().unwrap(), 1234567);
}

#[test]
fn panic_message_with_location() {
    assert_eq!(
        panic_message(Some(("src/lib.rs", 42)), "oops"),
        "Aborting: line 42, file src/lib.rs: oops\r\n"
    );
}

#[test]
fn panic_message_without_location() {
    assert_eq!(panic_message(None, "ignored"), "Aborting: no information available.\r\n");
}
