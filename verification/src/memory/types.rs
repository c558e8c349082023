use vstd::prelude::*;
use core::ops::{
    Add, AddAssign, BitAnd, BitAndAssign, BitOr, BitOrAssign, BitXor, BitXorAssign, Div, Mul, Not,
    Rem, Shl, Shr, Sub, SubAssign,
};
use vstd::std_specs::ops::{
    AddSpec, AddSpecImpl, BitAndSpec, BitAndSpecImpl, BitOrSpec, BitOrSpecImpl, BitXorSpec,
    BitXorSpecImpl, DivSpecImpl, MulSpecImpl, NotSpec, NotSpecImpl, RemSpecImpl, ShlSpec,
    ShlSpecImpl, ShrSpec, ShrSpecImpl, SubSpec, SubSpecImpl,
};
use vstd::std_specs::convert::{FromSpec, FromSpecImpl, IntoSpec, IntoSpecImpl};
use vstd::arithmetic::power2::pow2;
use vstd::arithmetic::div_mod::lemma_div_by_multiple;
use vstd::bits::{lemma_usize_pow2_no_overflow, lemma_usize_shl_is_mul, lemma_usize_shr_is_div};

verus! {

/// A virtual address.
#[derive(Copy, Clone, Debug)]
pub struct VirtAddress {
    base: usize,
}

impl View for VirtAddress {
    type V = usize;

    /// The address as a machine word.
    closed spec fn view(&self) -> usize {
        self.base
    }
}

impl Add for VirtAddress {
    type Output = Self;

    fn add(self, rhs: Self) -> (r: Self)
        ensures
            r@ == self@ + rhs@,
    {
        VirtAddress { base: self.base + rhs.base }
    }
}

impl AddSpecImpl for VirtAddress {
    open spec fn obeys_add_spec() -> bool {
        true
    }

    open spec fn add_req(self, rhs: Self) -> bool {
        self@ + rhs@ <= usize::MAX
    }

    closed spec fn add_spec(self, rhs: Self) -> Self {
        VirtAddress { base: (self.base + rhs.base) as usize }
    }
}

impl Sub for VirtAddress {
    type Output = Self;

    fn sub(self, rhs: Self) -> (r: Self)
        ensures
            r@ == self@ - rhs@,
    {
        VirtAddress { base: self.base - rhs.base }
    }
}

impl SubSpecImpl for VirtAddress {
    open spec fn obeys_sub_spec() -> bool {
        true
    }

    open spec fn sub_req(self, rhs: Self) -> bool {
        self@ >= rhs@
    }

    closed spec fn sub_spec(self, rhs: Self) -> Self {
        VirtAddress { base: (self.base - rhs.base) as usize }
    }
}

impl Mul for VirtAddress {
    type Output = Self;

    fn mul(self, rhs: Self) -> (r: Self)
        ensures
            r@ == self@ * rhs@,
    {
        VirtAddress { base: self.base * rhs.base }
    }
}

impl MulSpecImpl for VirtAddress {
    open spec fn obeys_mul_spec() -> bool {
        true
    }

    open spec fn mul_req(self, rhs: Self) -> bool {
        self@ * rhs@ <= usize::MAX
    }

    closed spec fn mul_spec(self, rhs: Self) -> Self {
        VirtAddress { base: (self.base * rhs.base) as usize }
    }
}

impl Div for VirtAddress {
    type Output = Self;

    fn div(self, rhs: Self) -> (r: Self)
        ensures
            r@ == self@ / rhs@,
    {
        VirtAddress { base: self.base / rhs.base }
    }
}

impl DivSpecImpl for VirtAddress {
    open spec fn obeys_div_spec() -> bool {
        true
    }

    open spec fn div_req(self, rhs: Self) -> bool {
        rhs@ != 0
    }

    closed spec fn div_spec(self, rhs: Self) -> Self {
        VirtAddress { base: (self.base / rhs.base) as usize }
    }
}

impl Rem for VirtAddress {
    type Output = Self;

    fn rem(self, rhs: Self) -> (r: Self)
        ensures
            r@ == self@ % rhs@,
    {
        VirtAddress { base: self.base % rhs.base }
    }
}

impl RemSpecImpl for VirtAddress {
    open spec fn obeys_rem_spec() -> bool {
        true
    }

    open spec fn rem_req(self, rhs: Self) -> bool {
        rhs@ != 0
    }

    closed spec fn rem_spec(self, rhs: Self) -> Self {
        VirtAddress { base: (self.base % rhs.base) as usize }
    }
}

impl Rem<usize> for VirtAddress {
    type Output = Self;

    fn rem(self, rhs: usize) -> (r: Self)
        ensures
            r@ == self@ % rhs,
    {
        VirtAddress { base: self.base % rhs }
    }
}

impl RemSpecImpl<usize> for VirtAddress {
    open spec fn obeys_rem_spec() -> bool {
        true
    }

    open spec fn rem_req(self, rhs: usize) -> bool {
        rhs != 0
    }

    closed spec fn rem_spec(self, rhs: usize) -> Self {
        VirtAddress { base: (self.base % rhs) as usize }
    }
}

impl BitAnd for VirtAddress {
    type Output = Self;

    fn bitand(self, rhs: Self) -> (r: Self)
        ensures
            r@ == self@ & rhs@,
    {
        VirtAddress { base: self.base & rhs.base }
    }
}

impl BitAndSpecImpl for VirtAddress {
    open spec fn obeys_bitand_spec() -> bool {
        true
    }

    open spec fn bitand_req(self, rhs: Self) -> bool {
        true
    }

    closed spec fn bitand_spec(self, rhs: Self) -> Self {
        VirtAddress { base: (self.base & rhs.base) as usize }
    }
}

impl BitOr for VirtAddress {
    type Output = Self;

    fn bitor(self, rhs: Self) -> (r: Self)
        ensures
            r@ == self@ | rhs@,
    {
        VirtAddress { base: self.base | rhs.base }
    }
}

impl BitOrSpecImpl for VirtAddress {
    open spec fn obeys_bitor_spec() -> bool {
        true
    }

    open spec fn bitor_req(self, rhs: Self) -> bool {
        true
    }

    closed spec fn bitor_spec(self, rhs: Self) -> Self {
        VirtAddress { base: (self.base | rhs.base) as usize }
    }
}

impl BitXor for VirtAddress {
    type Output = Self;

    fn bitxor(self, rhs: Self) -> (r: Self)
        ensures
            r@ == self@ ^ rhs@,
    {
        VirtAddress { base: self.base ^ rhs.base }
    }
}

impl BitXorSpecImpl for VirtAddress {
    open spec fn obeys_bitxor_spec() -> bool {
        true
    }

    open spec fn bitxor_req(self, rhs: Self) -> bool {
        true
    }

    closed spec fn bitxor_spec(self, rhs: Self) -> Self {
        VirtAddress { base: (self.base ^ rhs.base) as usize }
    }
}

impl Shl<usize> for VirtAddress {
    type Output = Self;

    fn shl(self, rhs: usize) -> (r: Self)
        ensures
            r@ == self@ << rhs,
    {
        VirtAddress { base: self.base << rhs }
    }
}

impl ShlSpecImpl<usize> for VirtAddress {
    open spec fn obeys_shl_spec() -> bool {
        true
    }

    open spec fn shl_req(self, rhs: usize) -> bool {
        rhs < usize::BITS
    }

    closed spec fn shl_spec(self, rhs: usize) -> Self {
        VirtAddress { base: (self.base << rhs) as usize }
    }
}

impl Shl for VirtAddress {
    type Output = Self;

    fn shl(self, rhs: Self) -> (r: Self)
        ensures
            r@ == self@ << rhs@,
    {
        VirtAddress { base: self.base << rhs.base }
    }
}

impl ShlSpecImpl for VirtAddress {
    open spec fn obeys_shl_spec() -> bool {
        true
    }

    open spec fn shl_req(self, rhs: Self) -> bool {
        rhs@ < usize::BITS
    }

    closed spec fn shl_spec(self, rhs: Self) -> Self {
        VirtAddress { base: (self.base << rhs.base) as usize }
    }
}

impl Shr<usize> for VirtAddress {
    type Output = Self;

    fn shr(self, rhs: usize) -> (r: Self)
        ensures
            r@ == self@ >> rhs,
    {
        VirtAddress { base: self.base >> rhs }
    }
}

impl ShrSpecImpl<usize> for VirtAddress {
    open spec fn obeys_shr_spec() -> bool {
        true
    }

    open spec fn shr_req(self, rhs: usize) -> bool {
        rhs < usize::BITS
    }

    closed spec fn shr_spec(self, rhs: usize) -> Self {
        VirtAddress { base: (self.base >> rhs) as usize }
    }
}

impl Shr for VirtAddress {
    type Output = Self;

    fn shr(self, rhs: Self) -> (r: Self)
        ensures
            r@ == self@ >> rhs@,
    {
        VirtAddress { base: self.base >> rhs.base }
    }
}

impl ShrSpecImpl for VirtAddress {
    open spec fn obeys_shr_spec() -> bool {
        true
    }

    open spec fn shr_req(self, rhs: Self) -> bool {
        rhs@ < usize::BITS
    }

    closed spec fn shr_spec(self, rhs: Self) -> Self {
        VirtAddress { base: (self.base >> rhs.base) as usize }
    }
}

impl Not for VirtAddress {
    type Output = Self;

    fn not(self) -> (r: Self)
        ensures
            r@ == !self@,
    {
        VirtAddress { base: !self.base }
    }
}

impl NotSpecImpl for VirtAddress {
    open spec fn obeys_not_spec() -> bool {
        true
    }

    open spec fn not_req(self) -> bool {
        true
    }

    closed spec fn not_spec(self) -> Self {
        VirtAddress { base: !self.base }
    }
}

/// Unlike the operator form, which requires that the word operation not overflow, the
/// assigning form has no precondition to carry one, so it wraps around the word.
impl AddAssign for VirtAddress {
    fn add_assign(&mut self, rhs: Self)
        ensures
            final(self)@ == vstd::wrapping::usize_specs::wrapping_add(old(self)@, rhs@),
    {
        self.base = self.base.wrapping_add(rhs.base);
    }
}

/// Unlike the operator form, which requires that the word operation not overflow, the
/// assigning form has no precondition to carry one, so it wraps around the word.
impl SubAssign for VirtAddress {
    fn sub_assign(&mut self, rhs: Self)
        ensures
            final(self)@ == vstd::wrapping::usize_specs::wrapping_sub(old(self)@, rhs@),
    {
        self.base = self.base.wrapping_sub(rhs.base);
    }
}

impl BitAndAssign for VirtAddress {
    fn bitand_assign(&mut self, rhs: Self)
        ensures
            final(self)@ == old(self)@ & rhs@,
    {
        self.base = self.base & rhs.base;
    }
}

impl BitOrAssign for VirtAddress {
    fn bitor_assign(&mut self, rhs: Self)
        ensures
            final(self)@ == old(self)@ | rhs@,
    {
        self.base = self.base | rhs.base;
    }
}

impl BitXorAssign for VirtAddress {
    fn bitxor_assign(&mut self, rhs: Self)
        ensures
            final(self)@ == old(self)@ ^ rhs@,
    {
        self.base = self.base ^ rhs.base;
    }
}

impl From<usize> for VirtAddress {
    fn from(base: usize) -> (r: Self)
        ensures
            r@ == base,
    {
        VirtAddress { base }
    }
}

impl FromSpecImpl<usize> for VirtAddress {
    open spec fn obeys_from_spec() -> bool {
        true
    }

    closed spec fn from_spec(base: usize) -> Self {
        VirtAddress { base }
    }
}

impl Into<usize> for VirtAddress {
    fn into(self) -> usize {
        self.base
    }
}

impl IntoSpecImpl<usize> for VirtAddress {
    open spec fn obeys_into_spec() -> bool {
        true
    }

    closed spec fn into_spec(self) -> usize {
        self.base
    }
}

impl MemoryAddress for VirtAddress {
    proof fn lemma_add_sub(a: Self, b: Self) {
    }

    proof fn lemma_bits(a: Self, b: Self) {
    }

    proof fn lemma_shifts(a: Self, b: Self) {
    }

    proof fn lemma_conversions(v: usize, a: Self) {
    }
}

/// A physical address.
#[derive(Copy, Clone, Debug)]
pub struct PhysAddress {
    base: usize,
}

impl View for PhysAddress {
    type V = usize;

    /// The address as a machine word.
    closed spec fn view(&self) -> usize {
        self.base
    }
}

impl Add for PhysAddress {
    type Output = Self;

    fn add(self, rhs: Self) -> (r: Self)
        ensures
            r@ == self@ + rhs@,
    {
        PhysAddress { base: self.base + rhs.base }
    }
}

impl AddSpecImpl for PhysAddress {
    open spec fn obeys_add_spec() -> bool {
        true
    }

    open spec fn add_req(self, rhs: Self) -> bool {
        self@ + rhs@ <= usize::MAX
    }

    closed spec fn add_spec(self, rhs: Self) -> Self {
        PhysAddress { base: (self.base + rhs.base) as usize }
    }
}

impl Sub for PhysAddress {
    type Output = Self;

    fn sub(self, rhs: Self) -> (r: Self)
        ensures
            r@ == self@ - rhs@,
    {
        PhysAddress { base: self.base - rhs.base }
    }
}

impl SubSpecImpl for PhysAddress {
    open spec fn obeys_sub_spec() -> bool {
        true
    }

    open spec fn sub_req(self, rhs: Self) -> bool {
        self@ >= rhs@
    }

    closed spec fn sub_spec(self, rhs: Self) -> Self {
        PhysAddress { base: (self.base - rhs.base) as usize }
    }
}

impl Mul for PhysAddress {
    type Output = Self;

    fn mul(self, rhs: Self) -> (r: Self)
        ensures
            r@ == self@ * rhs@,
    {
        PhysAddress { base: self.base * rhs.base }
    }
}

impl MulSpecImpl for PhysAddress {
    open spec fn obeys_mul_spec() -> bool {
        true
    }

    open spec fn mul_req(self, rhs: Self) -> bool {
        self@ * rhs@ <= usize::MAX
    }

    closed spec fn mul_spec(self, rhs: Self) -> Self {
        PhysAddress { base: (self.base * rhs.base) as usize }
    }
}

impl Div for PhysAddress {
    type Output = Self;

    fn div(self, rhs: Self) -> (r: Self)
        ensures
            r@ == self@ / rhs@,
    {
        PhysAddress { base: self.base / rhs.base }
    }
}

impl DivSpecImpl for PhysAddress {
    open spec fn obeys_div_spec() -> bool {
        true
    }

    open spec fn div_req(self, rhs: Self) -> bool {
        rhs@ != 0
    }

    closed spec fn div_spec(self, rhs: Self) -> Self {
        PhysAddress { base: (self.base / rhs.base) as usize }
    }
}

impl Rem for PhysAddress {
    type Output = Self;

    fn rem(self, rhs: Self) -> (r: Self)
        ensures
            r@ == self@ % rhs@,
    {
        PhysAddress { base: self.base % rhs.base }
    }
}

impl RemSpecImpl for PhysAddress {
    open spec fn obeys_rem_spec() -> bool {
        true
    }

    open spec fn rem_req(self, rhs: Self) -> bool {
        rhs@ != 0
    }

    closed spec fn rem_spec(self, rhs: Self) -> Self {
        PhysAddress { base: (self.base % rhs.base) as usize }
    }
}

impl Rem<usize> for PhysAddress {
    type Output = Self;

    fn rem(self, rhs: usize) -> (r: Self)
        ensures
            r@ == self@ % rhs,
    {
        PhysAddress { base: self.base % rhs }
    }
}

impl RemSpecImpl<usize> for PhysAddress {
    open spec fn obeys_rem_spec() -> bool {
        true
    }

    open spec fn rem_req(self, rhs: usize) -> bool {
        rhs != 0
    }

    closed spec fn rem_spec(self, rhs: usize) -> Self {
        PhysAddress { base: (self.base % rhs) as usize }
    }
}

impl BitAnd for PhysAddress {
    type Output = Self;

    fn bitand(self, rhs: Self) -> (r: Self)
        ensures
            r@ == self@ & rhs@,
    {
        PhysAddress { base: self.base & rhs.base }
    }
}

impl BitAndSpecImpl for PhysAddress {
    open spec fn obeys_bitand_spec() -> bool {
        true
    }

    open spec fn bitand_req(self, rhs: Self) -> bool {
        true
    }

    closed spec fn bitand_spec(self, rhs: Self) -> Self {
        PhysAddress { base: (self.base & rhs.base) as usize }
    }
}

impl BitOr for PhysAddress {
    type Output = Self;

    fn bitor(self, rhs: Self) -> (r: Self)
        ensures
            r@ == self@ | rhs@,
    {
        PhysAddress { base: self.base | rhs.base }
    }
}

impl BitOrSpecImpl for PhysAddress {
    open spec fn obeys_bitor_spec() -> bool {
        true
    }

    open spec fn bitor_req(self, rhs: Self) -> bool {
        true
    }

    closed spec fn bitor_spec(self, rhs: Self) -> Self {
        PhysAddress { base: (self.base | rhs.base) as usize }
    }
}

impl BitXor for PhysAddress {
    type Output = Self;

    fn bitxor(self, rhs: Self) -> (r: Self)
        ensures
            r@ == self@ ^ rhs@,
    {
        PhysAddress { base: self.base ^ rhs.base }
    }
}

impl BitXorSpecImpl for PhysAddress {
    open spec fn obeys_bitxor_spec() -> bool {
        true
    }

    open spec fn bitxor_req(self, rhs: Self) -> bool {
        true
    }

    closed spec fn bitxor_spec(self, rhs: Self) -> Self {
        PhysAddress { base: (self.base ^ rhs.base) as usize }
    }
}

impl Shl<usize> for PhysAddress {
    type Output = Self;

    fn shl(self, rhs: usize) -> (r: Self)
        ensures
            r@ == self@ << rhs,
    {
        PhysAddress { base: self.base << rhs }
    }
}

impl ShlSpecImpl<usize> for PhysAddress {
    open spec fn obeys_shl_spec() -> bool {
        true
    }

    open spec fn shl_req(self, rhs: usize) -> bool {
        rhs < usize::BITS
    }

    closed spec fn shl_spec(self, rhs: usize) -> Self {
        PhysAddress { base: (self.base << rhs) as usize }
    }
}

impl Shl for PhysAddress {
    type Output = Self;

    fn shl(self, rhs: Self) -> (r: Self)
        ensures
            r@ == self@ << rhs@,
    {
        PhysAddress { base: self.base << rhs.base }
    }
}

impl ShlSpecImpl for PhysAddress {
    open spec fn obeys_shl_spec() -> bool {
        true
    }

    open spec fn shl_req(self, rhs: Self) -> bool {
        rhs@ < usize::BITS
    }

    closed spec fn shl_spec(self, rhs: Self) -> Self {
        PhysAddress { base: (self.base << rhs.base) as usize }
    }
}

impl Shr<usize> for PhysAddress {
    type Output = Self;

    fn shr(self, rhs: usize) -> (r: Self)
        ensures
            r@ == self@ >> rhs,
    {
        PhysAddress { base: self.base >> rhs }
    }
}

impl ShrSpecImpl<usize> for PhysAddress {
    open spec fn obeys_shr_spec() -> bool {
        true
    }

    open spec fn shr_req(self, rhs: usize) -> bool {
        rhs < usize::BITS
    }

    closed spec fn shr_spec(self, rhs: usize) -> Self {
        PhysAddress { base: (self.base >> rhs) as usize }
    }
}

impl Shr for PhysAddress {
    type Output = Self;

    fn shr(self, rhs: Self) -> (r: Self)
        ensures
            r@ == self@ >> rhs@,
    {
        PhysAddress { base: self.base >> rhs.base }
    }
}

impl ShrSpecImpl for PhysAddress {
    open spec fn obeys_shr_spec() -> bool {
        true
    }

    open spec fn shr_req(self, rhs: Self) -> bool {
        rhs@ < usize::BITS
    }

    closed spec fn shr_spec(self, rhs: Self) -> Self {
        PhysAddress { base: (self.base >> rhs.base) as usize }
    }
}

impl Not for PhysAddress {
    type Output = Self;

    fn not(self) -> (r: Self)
        ensures
            r@ == !self@,
    {
        PhysAddress { base: !self.base }
    }
}

impl NotSpecImpl for PhysAddress {
    open spec fn obeys_not_spec() -> bool {
        true
    }

    open spec fn not_req(self) -> bool {
        true
    }

    closed spec fn not_spec(self) -> Self {
        PhysAddress { base: !self.base }
    }
}

/// Unlike the operator form, which requires that the word operation not overflow, the
/// assigning form has no precondition to carry one, so it wraps around the word.
impl AddAssign for PhysAddress {
    fn add_assign(&mut self, rhs: Self)
        ensures
            final(self)@ == vstd::wrapping::usize_specs::wrapping_add(old(self)@, rhs@),
    {
        self.base = self.base.wrapping_add(rhs.base);
    }
}

/// Unlike the operator form, which requires that the word operation not overflow, the
/// assigning form has no precondition to carry one, so it wraps around the word.
impl SubAssign for PhysAddress {
    fn sub_assign(&mut self, rhs: Self)
        ensures
            final(self)@ == vstd::wrapping::usize_specs::wrapping_sub(old(self)@, rhs@),
    {
        self.base = self.base.wrapping_sub(rhs.base);
    }
}

impl BitAndAssign for PhysAddress {
    fn bitand_assign(&mut self, rhs: Self)
        ensures
            final(self)@ == old(self)@ & rhs@,
    {
        self.base = self.base & rhs.base;
    }
}

impl BitOrAssign for PhysAddress {
    fn bitor_assign(&mut self, rhs: Self)
        ensures
            final(self)@ == old(self)@ | rhs@,
    {
        self.base = self.base | rhs.base;
    }
}

impl BitXorAssign for PhysAddress {
    fn bitxor_assign(&mut self, rhs: Self)
        ensures
            final(self)@ == old(self)@ ^ rhs@,
    {
        self.base = self.base ^ rhs.base;
    }
}

impl From<usize> for PhysAddress {
    fn from(base: usize) -> (r: Self)
        ensures
            r@ == base,
    {
        PhysAddress { base }
    }
}

impl FromSpecImpl<usize> for PhysAddress {
    open spec fn obeys_from_spec() -> bool {
        true
    }

    closed spec fn from_spec(base: usize) -> Self {
        PhysAddress { base }
    }
}

impl Into<usize> for PhysAddress {
    fn into(self) -> usize {
        self.base
    }
}

impl IntoSpecImpl<usize> for PhysAddress {
    open spec fn obeys_into_spec() -> bool {
        true
    }

    closed spec fn into_spec(self) -> usize {
        self.base
    }
}

impl MemoryAddress for PhysAddress {
    proof fn lemma_add_sub(a: Self, b: Self) {
    }

    proof fn lemma_bits(a: Self, b: Self) {
    }

    proof fn lemma_shifts(a: Self, b: Self) {
    }

    proof fn lemma_conversions(v: usize, a: Self) {
    }
}

/// An address of either space: the arithmetic, bitwise and shift operators of `usize`,
/// conversion from and to a machine word, and a view as that word. Every implementation
/// proves that its operators act on the viewed word exactly as the `usize` operators do.
/// Both address types also implement the assigning operators (`+=`, `-=`, `&=`, `|=`,
/// `^=`), which are not bounds of this trait.
pub trait MemoryAddress:
    Add<Output = Self> + Sub<Output = Self> + Mul + Div + Rem + Shl<Output = Self> + Shr<Output = Self>
    + BitAnd<Output = Self> + BitOr<Output = Self> + BitXor<Output = Self> + Not<Output = Self>
    + From<usize> + Into<usize> + Sized + Copy + Clone + View<V = usize> {
    /// `+` and `-` act on the words, defined exactly where the word operation does not overflow.
    proof fn lemma_add_sub(a: Self, b: Self)
        ensures
            <Self as AddSpec>::obeys_add_spec(),
            a.add_req(b) <==> a@ + b@ <= usize::MAX,
            a.add_spec(b)@ == (a@ + b@) as usize,
            <Self as SubSpec>::obeys_sub_spec(),
            a.sub_req(b) <==> a@ >= b@,
            a.sub_spec(b)@ == (a@ - b@) as usize,
    ;

    /// `&`, `|`, `^` and `!` act on the words and are defined everywhere.
    proof fn lemma_bits(a: Self, b: Self)
        ensures
            <Self as BitAndSpec>::obeys_bitand_spec(),
            a.bitand_req(b),
            a.bitand_spec(b)@ == a@ & b@,
            <Self as BitOrSpec>::obeys_bitor_spec(),
            a.bitor_req(b),
            a.bitor_spec(b)@ == a@ | b@,
            <Self as BitXorSpec>::obeys_bitxor_spec(),
            a.bitxor_req(b),
            a.bitxor_spec(b)@ == a@ ^ b@,
            <Self as NotSpec>::obeys_not_spec(),
            a.not_req(),
            a.not_spec()@ == !a@,
    ;

    /// `<<` and `>>` by another address shift the word by the other word, which must be
    /// less than the word's width.
    proof fn lemma_shifts(a: Self, b: Self)
        ensures
            <Self as ShlSpec>::obeys_shl_spec(),
            a.shl_req(b) <==> b@ < usize::BITS,
            a.shl_spec(b)@ == a@ << b@,
            <Self as ShrSpec>::obeys_shr_spec(),
            a.shr_req(b) <==> b@ < usize::BITS,
            a.shr_spec(b)@ == a@ >> b@,
    ;

    /// Conversion from a word gives the address of that word, and conversion to a word
    /// gives the viewed word.
    proof fn lemma_conversions(v: usize, a: Self)
        ensures
            <Self as FromSpec<usize>>::obeys_from_spec(),
            <Self as FromSpec<usize>>::from_spec(v)@ == v,
            <Self as IntoSpec<usize>>::obeys_into_spec(),
            <Self as IntoSpec<usize>>::into_spec(a) == a@,
    ;
}

/// Converting a word to an address and back gives the word again.
pub proof fn lemma_from_into<T: MemoryAddress>(v: usize)
    ensures
        <T as IntoSpec<usize>>::into_spec(<T as FromSpec<usize>>::from_spec(v)) == v,
{
    T::lemma_conversions(v, <T as FromSpec<usize>>::from_spec(v));
}

/// Adding an address and then subtracting it again gives the first address back, where the
/// addition does not overflow.
pub proof fn lemma_add_then_sub<T: MemoryAddress>(a: T, b: T)
    requires
        a.add_req(b),
    ensures
        a.add_spec(b).sub_req(b),
        a.add_spec(b).sub_spec(b)@ == a@,
{
    T::lemma_add_sub(a, b);
    T::lemma_add_sub(a.add_spec(b), b);
}

/// Complementing an address twice gives the address again.
pub proof fn lemma_not_not<T: MemoryAddress>(a: T)
    ensures
        a.not_spec().not_spec()@ == a@,
{
    T::lemma_bits(a, a);
    T::lemma_bits(a.not_spec(), a);
    let x = a@;
    assert(!(!x) == x) by (bit_vector);
}

/// On words: shifting left by `k` and back right by `k` gives the word back, where no bit
/// is shifted out.
pub proof fn lemma_word_shl_then_shr(a: usize, k: usize)
    requires
        k < usize::BITS,
        a * pow2(k as nat) <= usize::MAX,
    ensures
        (a << k) >> k == a,
{
    lemma_usize_pow2_no_overflow(k as nat);
    lemma_usize_shl_is_mul(a, k);
    lemma_usize_shr_is_div(a << k, k);
    lemma_div_by_multiple(a as int, pow2(k as nat) as int);
}

/// Shifting a virtual address left by `k` and back right by `k` gives it back, where no
/// bit is shifted out.
pub proof fn lemma_virt_shl_then_shr(a: VirtAddress, k: usize)
    requires
        k < usize::BITS,
        a@ * pow2(k as nat) <= usize::MAX,
    ensures
        <VirtAddress as ShlSpec<usize>>::shl_req(a, k),
        <VirtAddress as ShrSpec<usize>>::shr_req(<VirtAddress as ShlSpec<usize>>::shl_spec(a, k), k),
        <VirtAddress as ShrSpec<usize>>::shr_spec(<VirtAddress as ShlSpec<usize>>::shl_spec(a, k), k)@ == a@,
{
    lemma_word_shl_then_shr(a@, k);
}

/// Shifting a physical address left by `k` and back right by `k` gives it back, where no
/// bit is shifted out.
pub proof fn lemma_phys_shl_then_shr(a: PhysAddress, k: usize)
    requires
        k < usize::BITS,
        a@ * pow2(k as nat) <= usize::MAX,
    ensures
        <PhysAddress as ShlSpec<usize>>::shl_req(a, k),
        <PhysAddress as ShrSpec<usize>>::shr_req(<PhysAddress as ShlSpec<usize>>::shl_spec(a, k), k),
        <PhysAddress as ShrSpec<usize>>::shr_spec(<PhysAddress as ShlSpec<usize>>::shl_spec(a, k), k)@ == a@,
{
    lemma_word_shl_then_shr(a@, k);
}

/// A range of addresses from `start` to `end`.
#[derive(Copy, Clone, Debug)]
pub struct MemoryRange<T: MemoryAddress> {
    pub start: T,
    pub end: T,
}

} // verus!
