//! Carry and borrow predicates used by the flag logic, and sign extension of
//! 8-bit offsets.
use vstd::prelude::*;

verus! {

/// Carry out of bit 3 when two bytes are added.
pub open spec fn half_carry8(a: u8, b: u8) -> bool {
    (a % 16) + (b % 16) > 15
}

/// Carry out of bit 7 when two bytes are added.
pub open spec fn carry8(a: u8, b: u8) -> bool {
    a + b > 0xFF
}

/// Borrow into bit 3 when `b` is subtracted from `a`.
pub open spec fn half_borrow8(a: u8, b: u8) -> bool {
    a % 16 < b % 16
}

/// Borrow into bit 7 when `b` is subtracted from `a`.
pub open spec fn borrow8(a: u8, b: u8) -> bool {
    a < b
}

/// Carry out of bit 11 when two words are added.
pub open spec fn half_carry16(a: u16, b: u16) -> bool {
    (a % 4096) + (b % 4096) > 4095
}

/// Carry out of bit 15 when two words are added.
pub open spec fn carry16(a: u16, b: u16) -> bool {
    a + b > 0xFFFF
}

/// Borrow into bit 11 when `b` is subtracted from `a`.
pub open spec fn half_borrow16(a: u16, b: u16) -> bool {
    a % 4096 < b % 4096
}

/// Borrow into bit 15 when `b` is subtracted from `a`.
pub open spec fn borrow16(a: u16, b: u16) -> bool {
    a < b
}

/// A byte read as a two's complement number and widened to 16 bits.
pub open spec fn sign_extend(v: u8) -> u16 {
    if v < 128 {
        v as u16
    } else {
        (v + 0xFF00) as u16
    }
}

/// Addition modulo 2^16.
pub open spec fn wrap16(x: int) -> u16 {
    (x % 0x10000) as u16
}

/// Addition modulo 2^8.
pub open spec fn wrap8(x: int) -> u8 {
    (x % 0x100) as u8
}

/// Whether bit `n` of `v` is set.
pub open spec fn bit_of(v: u8, n: nat) -> bool {
    (v as nat / pow2(n)) % 2 == 1
}

pub open spec fn pow2(n: nat) -> nat
    decreases n,
{
    if n == 0 {
        1
    } else {
        2 * pow2((n - 1) as nat)
    }
}

/// The five-bit register value with the given bits, bit 4 first.
pub open spec fn pack5(b4: bool, b3: bool, b2: bool, b1: bool, b0: bool) -> u8 {
    ((if b4 { 16int } else { 0 }) + (if b3 { 8int } else { 0 }) + (if b2 { 4int } else { 0 }) + (
    if b1 { 2int } else { 0 }) + (if b0 { 1int } else { 0 })) as u8
}

/// Whether bit `n` of `v` is set.
pub fn bit_set(v: u8, n: u8) -> (r: bool)
    requires
        n < 8,
    ensures
        r == bit_of(v, n as nat),
{
    proof {
        reveal_with_fuel(pow2, 9);
    }
    let mut d: u8 = 1;
    let mut i: u8 = 0;
    while i < n
        invariant
            i <= n < 8,
            d as nat == pow2(i as nat),
        decreases n - i,
    {
        proof {
            reveal_with_fuel(pow2, 9);
            assert(pow2((i + 1) as nat) == 2 * pow2(i as nat));
        }
        d = d * 2;
        i = i + 1;
    }
    (v / d) % 2 == 1
}

pub trait ArithmeticUtil<RHS> {
    spec fn spec_half_carry(&self, rhs: RHS) -> bool;

    spec fn spec_carry(&self, rhs: RHS) -> bool;

    spec fn spec_half_borrow(&self, rhs: RHS) -> bool;

    spec fn spec_borrow(&self, rhs: RHS) -> bool;

    fn calc_half_carry(&self, rhs: RHS) -> (r: bool)
        ensures
            r == self.spec_half_carry(rhs),
    ;

    fn calc_carry(&self, rhs: RHS) -> (r: bool)
        ensures
            r == self.spec_carry(rhs),
    ;

    fn calc_half_borrow(&self, rhs: RHS) -> (r: bool)
        ensures
            r == self.spec_half_borrow(rhs),
    ;

    fn calc_borrow(&self, rhs: RHS) -> (r: bool)
        ensures
            r == self.spec_borrow(rhs),
    ;
}

impl ArithmeticUtil<u8> for u8 {
    open spec fn spec_half_carry(&self, rhs: u8) -> bool {
        half_carry8(*self, rhs)
    }

    open spec fn spec_carry(&self, rhs: u8) -> bool {
        carry8(*self, rhs)
    }

    open spec fn spec_half_borrow(&self, rhs: u8) -> bool {
        half_borrow8(*self, rhs)
    }

    open spec fn spec_borrow(&self, rhs: u8) -> bool {
        borrow8(*self, rhs)
    }

    fn calc_half_carry(&self, rhs: u8) -> (r: bool) {
        (*self % 16) + (rhs % 16) > 15
    }

    fn calc_carry(&self, rhs: u8) -> (r: bool) {
        (*self as u16) + (rhs as u16) > 0xFF
    }

    fn calc_half_borrow(&self, rhs: u8) -> (r: bool) {
        *self % 16 < rhs % 16
    }

    fn calc_borrow(&self, rhs: u8) -> (r: bool) {
        *self < rhs
    }
}

impl ArithmeticUtil<u16> for u16 {
    open spec fn spec_half_carry(&self, rhs: u16) -> bool {
        half_carry16(*self, rhs)
    }

    open spec fn spec_carry(&self, rhs: u16) -> bool {
        carry16(*self, rhs)
    }

    open spec fn spec_half_borrow(&self, rhs: u16) -> bool {
        half_borrow16(*self, rhs)
    }

    open spec fn spec_borrow(&self, rhs: u16) -> bool {
        borrow16(*self, rhs)
    }

    fn calc_half_carry(&self, rhs: u16) -> (r: bool) {
        (*self % 4096) + (rhs % 4096) > 4095
    }

    fn calc_carry(&self, rhs: u16) -> (r: bool) {
        (*self as u32) + (rhs as u32) > 0xFFFF
    }

    fn calc_half_borrow(&self, rhs: u16) -> (r: bool) {
        *self % 4096 < rhs % 4096
    }

    fn calc_borrow(&self, rhs: u16) -> (r: bool) {
        *self < rhs
    }
}

pub trait ToSigned {
    spec fn spec_to_signed_u16(&self) -> u16;

    spec fn spec_to_unsigned_u16(&self) -> u16;

    fn to_signed_u16(&self) -> (r: u16)
        ensures
            r == self.spec_to_signed_u16(),
    ;

    fn to_unsigned_u16(&self) -> (r: u16)
        ensures
            r == self.spec_to_unsigned_u16(),
    ;
}

impl ToSigned for u8 {
    open spec fn spec_to_signed_u16(&self) -> u16 {
        sign_extend(*self)
    }

    open spec fn spec_to_unsigned_u16(&self) -> u16 {
        *self as u16
    }

    fn to_signed_u16(&self) -> (r: u16) {
        if *self < 128 {
            *self as u16
        } else {
            *self as u16 + 0xFF00
        }
    }

    fn to_unsigned_u16(&self) -> (r: u16) {
        *self as u16
    }
}

pub trait AddSigned {
    spec fn spec_add_signed_u16(&self, rhs: u16) -> u16;

    spec fn spec_add_signed_u8(&self, rhs: u8) -> u16;

    fn add_signed_u16(&self, rhs: u16) -> (r: u16)
        ensures
            r == self.spec_add_signed_u16(rhs),
    ;

    fn add_signed_u8(&self, rhs: u8) -> (r: u16)
        ensures
            r == self.spec_add_signed_u8(rhs),
    ;
}

impl AddSigned for u16 {
    open spec fn spec_add_signed_u16(&self, rhs: u16) -> u16 {
        wrap16(*self + rhs)
    }

    open spec fn spec_add_signed_u8(&self, rhs: u8) -> u16 {
        wrap16(*self + sign_extend(rhs))
    }

    fn add_signed_u16(&self, rhs: u16) -> (r: u16) {
        ((*self as u32 + rhs as u32) % 0x10000) as u16
    }

    fn add_signed_u8(&self, rhs: u8) -> (r: u16) {
        let ext = rhs.to_signed_u16();
        ((*self as u32 + ext as u32) % 0x10000) as u16
    }
}

/// A byte read as two's complement and widened is the byte itself below 128
/// and the byte with the high byte set to 0xFF from 128 on.
pub proof fn lemma_sign_extend(v: u8)
    ensures
        v < 128 ==> sign_extend(v) == v as u16,
        v >= 128 ==> sign_extend(v) == (0xFF00u16 | v as u16),
{
    if v >= 128 {
        assert((v + 0xFF00) as u16 == (0xFF00u16 | v as u16)) by (bit_vector)
            requires
                v >= 128,
        ;
    }
}

} // verus!
