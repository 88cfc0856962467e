//! Stat data types: what a stat value must offer to be added to or multiplied.
//!
//! Each operation is described by a spec function, together with the range of
//! arguments on which the executable operation is defined (outside it the
//! built-in integer operations overflow). The primitive integer types carry
//! implementations whose spec is exact integer arithmetic.

use vstd::prelude::*;

verus! {

/// Stat data types that can do addition.
pub trait Add: Sized {
    /// The value that `add` computes.
    spec fn add_spec(self, rhs: Self) -> Self;

    /// Whether `add` is defined on these arguments.
    spec fn add_defined(self, rhs: Self) -> bool;

    /// The additive identity.
    spec fn zero_spec() -> Self;

    /// Addition.
    fn add(self, rhs: Self) -> (r: Self)
        requires
            self.add_defined(rhs),
        ensures
            r == self.add_spec(rhs),
    ;

    /// Additive identity.
    fn zero() -> (r: Self)
        ensures
            r == Self::zero_spec(),
    ;

    /// Tells whether `add` is defined on these arguments.
    fn is_add_defined(&self, rhs: &Self) -> (b: bool)
        ensures
            b == self.add_defined(*rhs),
    ;

    /// `zero` is the additive identity, and adding it is always defined.
    proof fn lemma_zero_identity(x: Self)
        ensures
            x.add_spec(Self::zero_spec()) == x,
            Self::zero_spec().add_spec(x) == x,
            x.add_defined(Self::zero_spec()),
            Self::zero_spec().add_defined(x),
    ;
}

/// Stat data types that can do multiplication.
pub trait Mul: Sized {
    /// The value that `mul` computes.
    spec fn mul_spec(self, rhs: Self) -> Self;

    /// Whether `mul` is defined on these arguments.
    spec fn mul_defined(self, rhs: Self) -> bool;

    /// The multiplicative identity.
    spec fn one_spec() -> Self;

    /// Multiplication.
    fn mul(self, rhs: Self) -> (r: Self)
        requires
            self.mul_defined(rhs),
        ensures
            r == self.mul_spec(rhs),
    ;

    /// Multiplicative identity.
    fn one() -> (r: Self)
        ensures
            r == Self::one_spec(),
    ;

    /// Tells whether `mul` is defined on these arguments.
    fn is_mul_defined(&self, rhs: &Self) -> (b: bool)
        ensures
            b == self.mul_defined(*rhs),
    ;

    /// `one` is the multiplicative identity, and multiplying by it is always
    /// defined.
    proof fn lemma_one_identity(x: Self)
        ensures
            x.mul_spec(Self::one_spec()) == x,
            Self::one_spec().mul_spec(x) == x,
            x.mul_defined(Self::one_spec()),
            Self::one_spec().mul_defined(x),
    ;
}

impl Add for u8 {
    open spec fn add_spec(self, rhs: u8) -> u8 {
        (self + rhs) as u8
    }

    open spec fn add_defined(self, rhs: u8) -> bool {
        u8::MIN <= self + rhs <= u8::MAX
    }

    open spec fn zero_spec() -> u8 {
        0
    }

    fn add(self, rhs: u8) -> (r: u8) {
        self + rhs
    }

    fn zero() -> (r: u8) {
        0
    }

    fn is_add_defined(&self, rhs: &u8) -> (b: bool) {
        self.checked_add(*rhs).is_some()
    }

    proof fn lemma_zero_identity(x: u8) {
    }
}

impl Mul for u8 {
    open spec fn mul_spec(self, rhs: u8) -> u8 {
        (self * rhs) as u8
    }

    open spec fn mul_defined(self, rhs: u8) -> bool {
        u8::MIN <= self * rhs <= u8::MAX
    }

    open spec fn one_spec() -> u8 {
        1
    }

    fn mul(self, rhs: u8) -> (r: u8) {
        self * rhs
    }

    fn one() -> (r: u8) {
        1
    }

    fn is_mul_defined(&self, rhs: &u8) -> (b: bool) {
        self.checked_mul(*rhs).is_some()
    }

    proof fn lemma_one_identity(x: u8) {
    }
}

impl Add for u16 {
    open spec fn add_spec(self, rhs: u16) -> u16 {
        (self + rhs) as u16
    }

    open spec fn add_defined(self, rhs: u16) -> bool {
        u16::MIN <= self + rhs <= u16::MAX
    }

    open spec fn zero_spec() -> u16 {
        0
    }

    fn add(self, rhs: u16) -> (r: u16) {
        self + rhs
    }

    fn zero() -> (r: u16) {
        0
    }

    fn is_add_defined(&self, rhs: &u16) -> (b: bool) {
        self.checked_add(*rhs).is_some()
    }

    proof fn lemma_zero_identity(x: u16) {
    }
}

impl Mul for u16 {
    open spec fn mul_spec(self, rhs: u16) -> u16 {
        (self * rhs) as u16
    }

    open spec fn mul_defined(self, rhs: u16) -> bool {
        u16::MIN <= self * rhs <= u16::MAX
    }

    open spec fn one_spec() -> u16 {
        1
    }

    fn mul(self, rhs: u16) -> (r: u16) {
        self * rhs
    }

    fn one() -> (r: u16) {
        1
    }

    fn is_mul_defined(&self, rhs: &u16) -> (b: bool) {
        self.checked_mul(*rhs).is_some()
    }

    proof fn lemma_one_identity(x: u16) {
    }
}

impl Add for u32 {
    open spec fn add_spec(self, rhs: u32) -> u32 {
        (self + rhs) as u32
    }

    open spec fn add_defined(self, rhs: u32) -> bool {
        u32::MIN <= self + rhs <= u32::MAX
    }

    open spec fn zero_spec() -> u32 {
        0
    }

    fn add(self, rhs: u32) -> (r: u32) {
        self + rhs
    }

    fn zero() -> (r: u32) {
        0
    }

    fn is_add_defined(&self, rhs: &u32) -> (b: bool) {
        self.checked_add(*rhs).is_some()
    }

    proof fn lemma_zero_identity(x: u32) {
    }
}

impl Mul for u32 {
    open spec fn mul_spec(self, rhs: u32) -> u32 {
        (self * rhs) as u32
    }

    open spec fn mul_defined(self, rhs: u32) -> bool {
        u32::MIN <= self * rhs <= u32::MAX
    }

    open spec fn one_spec() -> u32 {
        1
    }

    fn mul(self, rhs: u32) -> (r: u32) {
        self * rhs
    }

    fn one() -> (r: u32) {
        1
    }

    fn is_mul_defined(&self, rhs: &u32) -> (b: bool) {
        self.checked_mul(*rhs).is_some()
    }

    proof fn lemma_one_identity(x: u32) {
    }
}

impl Add for u64 {
    open spec fn add_spec(self, rhs: u64) -> u64 {
        (self + rhs) as u64
    }

    open spec fn add_defined(self, rhs: u64) -> bool {
        u64::MIN <= self + rhs <= u64::MAX
    }

    open spec fn zero_spec() -> u64 {
        0
    }

    fn add(self, rhs: u64) -> (r: u64) {
        self + rhs
    }

    fn zero() -> (r: u64) {
        0
    }

    fn is_add_defined(&self, rhs: &u64) -> (b: bool) {
        self.checked_add(*rhs).is_some()
    }

    proof fn lemma_zero_identity(x: u64) {
    }
}

impl Mul for u64 {
    open spec fn mul_spec(self, rhs: u64) -> u64 {
        (self * rhs) as u64
    }

    open spec fn mul_defined(self, rhs: u64) -> bool {
        u64::MIN <= self * rhs <= u64::MAX
    }

    open spec fn one_spec() -> u64 {
        1
    }

    fn mul(self, rhs: u64) -> (r: u64) {
        self * rhs
    }

    fn one() -> (r: u64) {
        1
    }

    fn is_mul_defined(&self, rhs: &u64) -> (b: bool) {
        self.checked_mul(*rhs).is_some()
    }

    proof fn lemma_one_identity(x: u64) {
    }
}

impl Add for u128 {
    open spec fn add_spec(self, rhs: u128) -> u128 {
        (self + rhs) as u128
    }

    open spec fn add_defined(self, rhs: u128) -> bool {
        u128::MIN <= self + rhs <= u128::MAX
    }

    open spec fn zero_spec() -> u128 {
        0
    }

    fn add(self, rhs: u128) -> (r: u128) {
        self + rhs
    }

    fn zero() -> (r: u128) {
        0
    }

    fn is_add_defined(&self, rhs: &u128) -> (b: bool) {
        self.checked_add(*rhs).is_some()
    }

    proof fn lemma_zero_identity(x: u128) {
    }
}

impl Mul for u128 {
    open spec fn mul_spec(self, rhs: u128) -> u128 {
        (self * rhs) as u128
    }

    open spec fn mul_defined(self, rhs: u128) -> bool {
        u128::MIN <= self * rhs <= u128::MAX
    }

    open spec fn one_spec() -> u128 {
        1
    }

    fn mul(self, rhs: u128) -> (r: u128) {
        self * rhs
    }

    fn one() -> (r: u128) {
        1
    }

    fn is_mul_defined(&self, rhs: &u128) -> (b: bool) {
        self.checked_mul(*rhs).is_some()
    }

    proof fn lemma_one_identity(x: u128) {
    }
}

impl Add for usize {
    open spec fn add_spec(self, rhs: usize) -> usize {
        (self + rhs) as usize
    }

    open spec fn add_defined(self, rhs: usize) -> bool {
        usize::MIN <= self + rhs <= usize::MAX
    }

    open spec fn zero_spec() -> usize {
        0
    }

    fn add(self, rhs: usize) -> (r: usize) {
        self + rhs
    }

    fn zero() -> (r: usize) {
        0
    }

    fn is_add_defined(&self, rhs: &usize) -> (b: bool) {
        self.checked_add(*rhs).is_some()
    }

    proof fn lemma_zero_identity(x: usize) {
    }
}

impl Mul for usize {
    open spec fn mul_spec(self, rhs: usize) -> usize {
        (self * rhs) as usize
    }

    open spec fn mul_defined(self, rhs: usize) -> bool {
        usize::MIN <= self * rhs <= usize::MAX
    }

    open spec fn one_spec() -> usize {
        1
    }

    fn mul(self, rhs: usize) -> (r: usize) {
        self * rhs
    }

    fn one() -> (r: usize) {
        1
    }

    fn is_mul_defined(&self, rhs: &usize) -> (b: bool) {
        self.checked_mul(*rhs).is_some()
    }

    proof fn lemma_one_identity(x: usize) {
    }
}

impl Add for i8 {
    open spec fn add_spec(self, rhs: i8) -> i8 {
        (self + rhs) as i8
    }

    open spec fn add_defined(self, rhs: i8) -> bool {
        i8::MIN <= self + rhs <= i8::MAX
    }

    open spec fn zero_spec() -> i8 {
        0
    }

    fn add(self, rhs: i8) -> (r: i8) {
        self + rhs
    }

    fn zero() -> (r: i8) {
        0
    }

    fn is_add_defined(&self, rhs: &i8) -> (b: bool) {
        self.checked_add(*rhs).is_some()
    }

    proof fn lemma_zero_identity(x: i8) {
    }
}

impl Mul for i8 {
    open spec fn mul_spec(self, rhs: i8) -> i8 {
        (self * rhs) as i8
    }

    open spec fn mul_defined(self, rhs: i8) -> bool {
        i8::MIN <= self * rhs <= i8::MAX
    }

    open spec fn one_spec() -> i8 {
        1
    }

    fn mul(self, rhs: i8) -> (r: i8) {
        self * rhs
    }

    fn one() -> (r: i8) {
        1
    }

    fn is_mul_defined(&self, rhs: &i8) -> (b: bool) {
        self.checked_mul(*rhs).is_some()
    }

    proof fn lemma_one_identity(x: i8) {
    }
}

impl Add for i16 {
    open spec fn add_spec(self, rhs: i16) -> i16 {
        (self + rhs) as i16
    }

    open spec fn add_defined(self, rhs: i16) -> bool {
        i16::MIN <= self + rhs <= i16::MAX
    }

    open spec fn zero_spec() -> i16 {
        0
    }

    fn add(self, rhs: i16) -> (r: i16) {
        self + rhs
    }

    fn zero() -> (r: i16) {
        0
    }

    fn is_add_defined(&self, rhs: &i16) -> (b: bool) {
        self.checked_add(*rhs).is_some()
    }

    proof fn lemma_zero_identity(x: i16) {
    }
}

impl Mul for i16 {
    open spec fn mul_spec(self, rhs: i16) -> i16 {
        (self * rhs) as i16
    }

    open spec fn mul_defined(self, rhs: i16) -> bool {
        i16::MIN <= self * rhs <= i16::MAX
    }

    open spec fn one_spec() -> i16 {
        1
    }

    fn mul(self, rhs: i16) -> (r: i16) {
        self * rhs
    }

    fn one() -> (r: i16) {
        1
    }

    fn is_mul_defined(&self, rhs: &i16) -> (b: bool) {
        self.checked_mul(*rhs).is_some()
    }

    proof fn lemma_one_identity(x: i16) {
    }
}

impl Add for i32 {
    open spec fn add_spec(self, rhs: i32) -> i32 {
        (self + rhs) as i32
    }

    open spec fn add_defined(self, rhs: i32) -> bool {
        i32::MIN <= self + rhs <= i32::MAX
    }

    open spec fn zero_spec() -> i32 {
        0
    }

    fn add(self, rhs: i32) -> (r: i32) {
        self + rhs
    }

    fn zero() -> (r: i32) {
        0
    }

    fn is_add_defined(&self, rhs: &i32) -> (b: bool) {
        self.checked_add(*rhs).is_some()
    }

    proof fn lemma_zero_identity(x: i32) {
    }
}

impl Mul for i32 {
    open spec fn mul_spec(self, rhs: i32) -> i32 {
        (self * rhs) as i32
    }

    open spec fn mul_defined(self, rhs: i32) -> bool {
        i32::MIN <= self * rhs <= i32::MAX
    }

    open spec fn one_spec() -> i32 {
        1
    }

    fn mul(self, rhs: i32) -> (r: i32) {
        self * rhs
    }

    fn one() -> (r: i32) {
        1
    }

    fn is_mul_defined(&self, rhs: &i32) -> (b: bool) {
        self.checked_mul(*rhs).is_some()
    }

    proof fn lemma_one_identity(x: i32) {
    }
}

impl Add for i64 {
    open spec fn add_spec(self, rhs: i64) -> i64 {
        (self + rhs) as i64
    }

    open spec fn add_defined(self, rhs: i64) -> bool {
        i64::MIN <= self + rhs <= i64::MAX
    }

    open spec fn zero_spec() -> i64 {
        0
    }

    fn add(self, rhs: i64) -> (r: i64) {
        self + rhs
    }

    fn zero() -> (r: i64) {
        0
    }

    fn is_add_defined(&self, rhs: &i64) -> (b: bool) {
        self.checked_add(*rhs).is_some()
    }

    proof fn lemma_zero_identity(x: i64) {
    }
}

impl Mul for i64 {
    open spec fn mul_spec(self, rhs: i64) -> i64 {
        (self * rhs) as i64
    }

    open spec fn mul_defined(self, rhs: i64) -> bool {
        i64::MIN <= self * rhs <= i64::MAX
    }

    open spec fn one_spec() -> i64 {
        1
    }

    fn mul(self, rhs: i64) -> (r: i64) {
        self * rhs
    }

    fn one() -> (r: i64) {
        1
    }

    fn is_mul_defined(&self, rhs: &i64) -> (b: bool) {
        self.checked_mul(*rhs).is_some()
    }

    proof fn lemma_one_identity(x: i64) {
    }
}

impl Add for i128 {
    open spec fn add_spec(self, rhs: i128) -> i128 {
        (self + rhs) as i128
    }

    open spec fn add_defined(self, rhs: i128) -> bool {
        i128::MIN <= self + rhs <= i128::MAX
    }

    open spec fn zero_spec() -> i128 {
        0
    }

    fn add(self, rhs: i128) -> (r: i128) {
        self + rhs
    }

    fn zero() -> (r: i128) {
        0
    }

    fn is_add_defined(&self, rhs: &i128) -> (b: bool) {
        self.checked_add(*rhs).is_some()
    }

    proof fn lemma_zero_identity(x: i128) {
    }
}

impl Mul for i128 {
    open spec fn mul_spec(self, rhs: i128) -> i128 {
        (self * rhs) as i128
    }

    open spec fn mul_defined(self, rhs: i128) -> bool {
        i128::MIN <= self * rhs <= i128::MAX
    }

    open spec fn one_spec() -> i128 {
        1
    }

    fn mul(self, rhs: i128) -> (r: i128) {
        self * rhs
    }

    fn one() -> (r: i128) {
        1
    }

    fn is_mul_defined(&self, rhs: &i128) -> (b: bool) {
        self.checked_mul(*rhs).is_some()
    }

    proof fn lemma_one_identity(x: i128) {
    }
}

impl Add for isize {
    open spec fn add_spec(self, rhs: isize) -> isize {
        (self + rhs) as isize
    }

    open spec fn add_defined(self, rhs: isize) -> bool {
        isize::MIN <= self + rhs <= isize::MAX
    }

    open spec fn zero_spec() -> isize {
        0
    }

    fn add(self, rhs: isize) -> (r: isize) {
        self + rhs
    }

    fn zero() -> (r: isize) {
        0
    }

    fn is_add_defined(&self, rhs: &isize) -> (b: bool) {
        self.checked_add(*rhs).is_some()
    }

    proof fn lemma_zero_identity(x: isize) {
    }
}

impl Mul for isize {
    open spec fn mul_spec(self, rhs: isize) -> isize {
        (self * rhs) as isize
    }

    open spec fn mul_defined(self, rhs: isize) -> bool {
        isize::MIN <= self * rhs <= isize::MAX
    }

    open spec fn one_spec() -> isize {
        1
    }

    fn mul(self, rhs: isize) -> (r: isize) {
        self * rhs
    }

    fn one() -> (r: isize) {
        1
    }

    fn is_mul_defined(&self, rhs: &isize) -> (b: bool) {
        self.checked_mul(*rhs).is_some()
    }

    proof fn lemma_one_identity(x: isize) {
    }
}

/// Adding two `u8` values whose sum fits in `u8` gives their sum as
/// integers, and is defined; a sum that does not fit is not defined.
pub proof fn lemma_add_u8_is_sum(a: u8, b: u8)
    ensures
        u8::MIN <= a + b <= u8::MAX ==> a.add_defined(b) && a.add_spec(b) == a + b,
        !(u8::MIN <= a + b <= u8::MAX) ==> !a.add_defined(b),
        <u8 as Add>::zero_spec() == 0,
{
}

/// Multiplying two `u8` values whose product fits in `u8` gives their
/// product as integers, and is defined; a product that does not fit is not
/// defined.
pub proof fn lemma_mul_u8_is_product(a: u8, b: u8)
    ensures
        u8::MIN <= a * b <= u8::MAX ==> a.mul_defined(b) && a.mul_spec(b) == a * b,
        !(u8::MIN <= a * b <= u8::MAX) ==> !a.mul_defined(b),
        <u8 as Mul>::one_spec() == 1,
{
}

/// Adding two `u16` values whose sum fits in `u16` gives their sum as
/// integers, and is defined; a sum that does not fit is not defined.
pub proof fn lemma_add_u16_is_sum(a: u16, b: u16)
    ensures
        u16::MIN <= a + b <= u16::MAX ==> a.add_defined(b) && a.add_spec(b) == a + b,
        !(u16::MIN <= a + b <= u16::MAX) ==> !a.add_defined(b),
        <u16 as Add>::zero_spec() == 0,
{
}

/// Multiplying two `u16` values whose product fits in `u16` gives their
/// product as integers, and is defined; a product that does not fit is not
/// defined.
pub proof fn lemma_mul_u16_is_product(a: u16, b: u16)
    ensures
        u16::MIN <= a * b <= u16::MAX ==> a.mul_defined(b) && a.mul_spec(b) == a * b,
        !(u16::MIN <= a * b <= u16::MAX) ==> !a.mul_defined(b),
        <u16 as Mul>::one_spec() == 1,
{
}

/// Adding two `u32` values whose sum fits in `u32` gives their sum as
/// integers, and is defined; a sum that does not fit is not defined.
pub proof fn lemma_add_u32_is_sum(a: u32, b: u32)
    ensures
        u32::MIN <= a + b <= u32::MAX ==> a.add_defined(b) && a.add_spec(b) == a + b,
        !(u32::MIN <= a + b <= u32::MAX) ==> !a.add_defined(b),
        <u32 as Add>::zero_spec() == 0,
{
}

/// Multiplying two `u32` values whose product fits in `u32` gives their
/// product as integers, and is defined; a product that does not fit is not
/// defined.
pub proof fn lemma_mul_u32_is_product(a: u32, b: u32)
    ensures
        u32::MIN <= a * b <= u32::MAX ==> a.mul_defined(b) && a.mul_spec(b) == a * b,
        !(u32::MIN <= a * b <= u32::MAX) ==> !a.mul_defined(b),
        <u32 as Mul>::one_spec() == 1,
{
}

/// Adding two `u64` values whose sum fits in `u64` gives their sum as
/// integers, and is defined; a sum that does not fit is not defined.
pub proof fn lemma_add_u64_is_sum(a: u64, b: u64)
    ensures
        u64::MIN <= a + b <= u64::MAX ==> a.add_defined(b) && a.add_spec(b) == a + b,
        !(u64::MIN <= a + b <= u64::MAX) ==> !a.add_defined(b),
        <u64 as Add>::zero_spec() == 0,
{
}

/// Multiplying two `u64` values whose product fits in `u64` gives their
/// product as integers, and is defined; a product that does not fit is not
/// defined.
pub proof fn lemma_mul_u64_is_product(a: u64, b: u64)
    ensures
        u64::MIN <= a * b <= u64::MAX ==> a.mul_defined(b) && a.mul_spec(b) == a * b,
        !(u64::MIN <= a * b <= u64::MAX) ==> !a.mul_defined(b),
        <u64 as Mul>::one_spec() == 1,
{
}

/// Adding two `u128` values whose sum fits in `u128` gives their sum as
/// integers, and is defined; a sum that does not fit is not defined.
pub proof fn lemma_add_u128_is_sum(a: u128, b: u128)
    ensures
        u128::MIN <= a + b <= u128::MAX ==> a.add_defined(b) && a.add_spec(b) == a + b,
        !(u128::MIN <= a + b <= u128::MAX) ==> !a.add_defined(b),
        <u128 as Add>::zero_spec() == 0,
{
}

/// Multiplying two `u128` values whose product fits in `u128` gives their
/// product as integers, and is defined; a product that does not fit is not
/// defined.
pub proof fn lemma_mul_u128_is_product(a: u128, b: u128)
    ensures
        u128::MIN <= a * b <= u128::MAX ==> a.mul_defined(b) && a.mul_spec(b) == a * b,
        !(u128::MIN <= a * b <= u128::MAX) ==> !a.mul_defined(b),
        <u128 as Mul>::one_spec() == 1,
{
}

/// Adding two `usize` values whose sum fits in `usize` gives their sum as
/// integers, and is defined; a sum that does not fit is not defined.
pub proof fn lemma_add_usize_is_sum(a: usize, b: usize)
    ensures
        usize::MIN <= a + b <= usize::MAX ==> a.add_defined(b) && a.add_spec(b) == a + b,
        !(usize::MIN <= a + b <= usize::MAX) ==> !a.add_defined(b),
        <usize as Add>::zero_spec() == 0,
{
}

/// Multiplying two `usize` values whose product fits in `usize` gives their
/// product as integers, and is defined; a product that does not fit is not
/// defined.
pub proof fn lemma_mul_usize_is_product(a: usize, b: usize)
    ensures
        usize::MIN <= a * b <= usize::MAX ==> a.mul_defined(b) && a.mul_spec(b) == a * b,
        !(usize::MIN <= a * b <= usize::MAX) ==> !a.mul_defined(b),
        <usize as Mul>::one_spec() == 1,
{
}

/// Adding two `i8` values whose sum fits in `i8` gives their sum as
/// integers, and is defined; a sum that does not fit is not defined.
pub proof fn lemma_add_i8_is_sum(a: i8, b: i8)
    ensures
        i8::MIN <= a + b <= i8::MAX ==> a.add_defined(b) && a.add_spec(b) == a + b,
        !(i8::MIN <= a + b <= i8::MAX) ==> !a.add_defined(b),
        <i8 as Add>::zero_spec() == 0,
{
}

/// Multiplying two `i8` values whose product fits in `i8` gives their
/// product as integers, and is defined; a product that does not fit is not
/// defined.
pub proof fn lemma_mul_i8_is_product(a: i8, b: i8)
    ensures
        i8::MIN <= a * b <= i8::MAX ==> a.mul_defined(b) && a.mul_spec(b) == a * b,
        !(i8::MIN <= a * b <= i8::MAX) ==> !a.mul_defined(b),
        <i8 as Mul>::one_spec() == 1,
{
}

/// Adding two `i16` values whose sum fits in `i16` gives their sum as
/// integers, and is defined; a sum that does not fit is not defined.
pub proof fn lemma_add_i16_is_sum(a: i16, b: i16)
    ensures
        i16::MIN <= a + b <= i16::MAX ==> a.add_defined(b) && a.add_spec(b) == a + b,
        !(i16::MIN <= a + b <= i16::MAX) ==> !a.add_defined(b),
        <i16 as Add>::zero_spec() == 0,
{
}

/// Multiplying two `i16` values whose product fits in `i16` gives their
/// product as integers, and is defined; a product that does not fit is not
/// defined.
pub proof fn lemma_mul_i16_is_product(a: i16, b: i16)
    ensures
        i16::MIN <= a * b <= i16::MAX ==> a.mul_defined(b) && a.mul_spec(b) == a * b,
        !(i16::MIN <= a * b <= i16::MAX) ==> !a.mul_defined(b),
        <i16 as Mul>::one_spec() == 1,
{
}

/// Adding two `i32` values whose sum fits in `i32` gives their sum as
/// integers, and is defined; a sum that does not fit is not defined.
pub proof fn lemma_add_i32_is_sum(a: i32, b: i32)
    ensures
        i32::MIN <= a + b <= i32::MAX ==> a.add_defined(b) && a.add_spec(b) == a + b,
        !(i32::MIN <= a + b <= i32::MAX) ==> !a.add_defined(b),
        <i32 as Add>::zero_spec() == 0,
{
}

/// Multiplying two `i32` values whose product fits in `i32` gives their
/// product as integers, and is defined; a product that does not fit is not
/// defined.
pub proof fn lemma_mul_i32_is_product(a: i32, b: i32)
    ensures
        i32::MIN <= a * b <= i32::MAX ==> a.mul_defined(b) && a.mul_spec(b) == a * b,
        !(i32::MIN <= a * b <= i32::MAX) ==> !a.mul_defined(b),
        <i32 as Mul>::one_spec() == 1,
{
}

/// Adding two `i64` values whose sum fits in `i64` gives their sum as
/// integers, and is defined; a sum that does not fit is not defined.
pub proof fn lemma_add_i64_is_sum(a: i64, b: i64)
    ensures
        i64::MIN <= a + b <= i64::MAX ==> a.add_defined(b) && a.add_spec(b) == a + b,
        !(i64::MIN <= a + b <= i64::MAX) ==> !a.add_defined(b),
        <i64 as Add>::zero_spec() == 0,
{
}

/// Multiplying two `i64` values whose product fits in `i64` gives their
/// product as integers, and is defined; a product that does not fit is not
/// defined.
pub proof fn lemma_mul_i64_is_product(a: i64, b: i64)
    ensures
        i64::MIN <= a * b <= i64::MAX ==> a.mul_defined(b) && a.mul_spec(b) == a * b,
        !(i64::MIN <= a * b <= i64::MAX) ==> !a.mul_defined(b),
        <i64 as Mul>::one_spec() == 1,
{
}

/// Adding two `i128` values whose sum fits in `i128` gives their sum as
/// integers, and is defined; a sum that does not fit is not defined.
pub proof fn lemma_add_i128_is_sum(a: i128, b: i128)
    ensures
        i128::MIN <= a + b <= i128::MAX ==> a.add_defined(b) && a.add_spec(b) == a + b,
        !(i128::MIN <= a + b <= i128::MAX) ==> !a.add_defined(b),
        <i128 as Add>::zero_spec() == 0,
{
}

/// Multiplying two `i128` values whose product fits in `i128` gives their
/// product as integers, and is defined; a product that does not fit is not
/// defined.
pub proof fn lemma_mul_i128_is_product(a: i128, b: i128)
    ensures
        i128::MIN <= a * b <= i128::MAX ==> a.mul_defined(b) && a.mul_spec(b) == a * b,
        !(i128::MIN <= a * b <= i128::MAX) ==> !a.mul_defined(b),
        <i128 as Mul>::one_spec() == 1,
{
}

/// Adding two `isize` values whose sum fits in `isize` gives their sum as
/// integers, and is defined; a sum that does not fit is not defined.
pub proof fn lemma_add_isize_is_sum(a: isize, b: isize)
    ensures
        isize::MIN <= a + b <= isize::MAX ==> a.add_defined(b) && a.add_spec(b) == a + b,
        !(isize::MIN <= a + b <= isize::MAX) ==> !a.add_defined(b),
        <isize as Add>::zero_spec() == 0,
{
}

/// Multiplying two `isize` values whose product fits in `isize` gives their
/// product as integers, and is defined; a product that does not fit is not
/// defined.
pub proof fn lemma_mul_isize_is_product(a: isize, b: isize)
    ensures
        isize::MIN <= a * b <= isize::MAX ==> a.mul_defined(b) && a.mul_spec(b) == a * b,
        !(isize::MIN <= a * b <= isize::MAX) ==> !a.mul_defined(b),
        <isize as Mul>::one_spec() == 1,
{
}

} // verus!
