use ukernel::memory::frame_alloc::{align, PageBits};
use ukernel::memory::types::{PhysAddress, VirtAddress};

fn v(x: usize) -> VirtAddress {
    VirtAddress::from(x)
}

fn p(x: usize) -> PhysAddress {
    PhysAddress::from(x)
}

fn vw(a: VirtAddress) -> usize {
    a.into()
}

fn pw(a: PhysAddress) -> usize {
    a.into()
}

#[test]
fn address_word_roundtrip() {
    assert_eq!(vw(v(0x8020_0000)), 0x8020_0000);
    assert_eq!(pw(p(usize::MAX)), usize::MAX);
    assert_eq!(vw(v(0)), 0);
}

#[test]
fn virt_arithmetic() {
    assert_eq!(vw(v(0x1000) + v(0x234)), 0x1234);
    assert_eq!(vw(v(0x1234) - v(0x234)), 0x1000);
    assert_eq!(vw(v(0x10) * v(0x100)), 0x1000);
    assert_eq!(vw(v(0x1234) / v(0x10)), 0x123);
    assert_eq!(vw(v(0x1234) % v(0x1000)), 0x234);
    assert_eq!(vw(v(0x1234) % 0x100usize), 0x34);
}

#[test]
fn phys_arithmetic() {
    assert_eq!(pw(p(0x8000_0000) + p(0x1000)), 0x8000_1000);
    assert_eq!(pw(p(0x8000_1000) - p(0x1000)), 0x8000_0000);
    assert_eq!(pw(p(3) * p(7)), 21);
    assert_eq!(pw(p(22) / p(7)), 3);
    assert_eq!(pw(p(22) % p(7)), 1);
    assert_eq!(pw(p(22) % 5usize), 2);
}

#[test]
fn bitwise_and_shifts() {
    assert_eq!(vw(v(0b1100) & v(0b1010)), 0b1000);
    assert_eq!(vw(v(0b1100) | v(0b1010)), 0b1110);
    assert_eq!(vw(v(0b1100) ^ v(0b1010)), 0b0110);
    assert_eq!(vw(!v(0)), usize::MAX);
    assert_eq!(vw(v(1) << 12usize), 0x1000);
    assert_eq!(vw(v(1) << v(12)), 0x1000);
    assert_eq!(vw(v(0x1000) >> 12usize), 1);
    assert_eq!(vw(v(0x1000) >> v(4)), 0x100);
    assert_eq!(pw(p(0b1100) & p(0b1010)), 0b1000);
    assert_eq!(pw(p(0b1100) | p(0b1010)), 0b1110);
    assert_eq!(pw(p(0b1100) ^ p(0b1010)), 0b0110);
    assert_eq!(pw(!p(usize::MAX)), 0);
    assert_eq!(pw(p(3) << 4usize), 48);
    assert_eq!(pw(p(3) << p(4)), 48);
    assert_eq!(pw(p(48) >> 4usize), 3);
    assert_eq!(pw(p(48) >> p(4)), 3);
}

#[test]
fn assigning_operators() {
    let mut a = v(0x1000);
    a += v(0x10);
    assert_eq!(vw(a), 0x1010);
    a -= v(0x1000);
    assert_eq!(vw(a), 0x10);
    a |= v(0x3);
    assert_eq!(vw(a), 0x13);
    a &= v(0x11);
    assert_eq!(vw(a), 0x11);
    a ^= v(0x1);
    assert_eq!(vw(a), 0x10);
    let mut b = p(usize::MAX);
    b += p(2);
    assert_eq!(pw(b), 1);
    b -= p(2);
    assert_eq!(pw(b), usize::MAX);
}

#[test]
fn add_then_sub_gives_back() {
    let a = v(0xdead_0000);
    let b = v(0xbeef);
    assert_eq!(vw((a + b) - b), 0xdead_0000);
    assert_eq!(vw(!!a), 0xdead_0000);
}

#[test]
fn align_rounds_up_to_page() {
    assert_eq!(vw(align(v(0x1001), 12)), 0x2000);
    assert_eq!(vw(align(v(0x1fff), 12)), 0x2000);
    assert_eq!(pw(align(p(0x8000_0001), 12)), 0x8000_1000);
    assert_eq!(pw(align(p(13), 3)), 16);
}

#[test]
fn align_keeps_aligned_addresses() {
    assert_eq!(vw(align(v(0x2000), 12)), 0x2000);
    assert_eq!(vw(align(v(0), 12)), 0);
    assert_eq!(pw(align(p(0x8000_0000), 21)), 0x8000_0000);
}

#[test]
fn align_order_zero_is_identity() {
    assert_eq!(vw(align(v(12345), 0)), 12345);
}

#[test]
fn align_is_idempotent() {
    let once = align(v(0x1234_5678), 16);
    let twice = align(once, 16);
    assert_eq!(vw(once), 0x1235_0000);
    assert_eq!(vw(twice), vw(once));
}

#[test]
fn align_at_top_of_word() {
    assert_eq!(vw(align(v(usize::MAX - 0xfff), 12)), usize::MAX - 0xfff);
    assert_eq!(vw(align(v(usize::MAX), 0)), usize::MAX);
}

#[test]
fn page_bits_patterns() {
    let e: u8 = PageBits::Empty.into();
    let t: u8 = PageBits::Taken.into();
    let l: u8 = PageBits::Last.into();
    assert_eq!((e, t, l), (0, 1, 2));
    assert_eq!(t & l, 0);
}

#[test]
fn align_keeps_order() {
    let pairs = [(0x1000usize, 0x1001usize), (0x1001, 0x1fff), (0x1fff, 0x2000), (5, 5)];
    for (a, b) in pairs.iter() {
        assert!(vw(align(v(*a), 12)) <= vw(align(v(*b), 12)));
    }
}

#[test]
fn align_twice_near_top_of_word() {
    let once = align(v(usize::MAX - 0x1ffe), 12);
    assert_eq!(vw(once), usize::MAX - 0xfff);
    assert_eq!(vw(align(once, 12)), vw(once));
}

#[test]
fn shift_left_then_right_gives_back() {
    assert_eq!(vw((v(0x1234) << 12usize) >> 12usize), 0x1234);
    assert_eq!(pw((p(0xff) << 56usize) >> 56usize), 0xff);
    assert_eq!(vw((v(1) << v(63)) >> v(63)), 1);
}
