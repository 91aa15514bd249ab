use vstd::prelude::*;

verus! {

/// The processor status flags: zero (Z), subtract (N), half-carry (H) and carry (C).
///
/// On the hardware they occupy the upper nibble of the F register: Z is bit 7, N bit 6,
/// H bit 5 and C bit 4.
#[derive(Debug, Clone, Copy, PartialEq, Eq, Hash, Structural)]
pub struct Flags {
    /// Zero: set when the result of an operation is zero. Used in conditional jumps.
    pub z: bool,
    /// Subtract: set when the last arithmetic operation was a subtraction.
    pub n: bool,
    /// Half-carry: set when the lower half of the operand width overflowed or borrowed.
    pub h: bool,
    /// Carry: set when adding overflows or subtracting underflows the operand width.
    pub c: bool,
}

impl Flags {
    /// The flag set with every flag clear.
    pub open spec fn spec_empty() -> Flags {
        Flags { z: false, n: false, h: false, c: false }
    }

    /// Every flag of `self` together with every flag of `other`.
    pub open spec fn spec_union(self, other: Flags) -> Flags {
        Flags {
            z: self.z || other.z,
            n: self.n || other.n,
            h: self.h || other.h,
            c: self.c || other.c,
        }
    }

    /// The flags of `self` with those of `which` set to `value`, the others kept.
    pub open spec fn spec_set(self, which: Flags, value: bool) -> Flags {
        Flags {
            z: if which.z { value } else { self.z },
            n: if which.n { value } else { self.n },
            h: if which.h { value } else { self.h },
            c: if which.c { value } else { self.c },
        }
    }

    /// The flags that an addition reports.
    pub open spec fn spec_from_add(sum: int, carry: bool, half_carry: bool) -> Flags {
        Flags { z: sum == 0, n: false, h: half_carry, c: carry }
    }

    /// The flags that a subtraction reports.
    pub open spec fn spec_from_sub(result: int, borrow: bool, half_borrow: bool) -> Flags {
        Flags { z: result == 0, n: true, h: half_borrow, c: borrow }
    }

    /// The zero flag alone.
    pub fn zero() -> (r: Flags)
        ensures
            r == (Flags { z: true, n: false, h: false, c: false }),
    {
        Flags { z: true, n: false, h: false, c: false }
    }

    /// The subtract flag alone.
    pub fn subtract() -> (r: Flags)
        ensures
            r == (Flags { z: false, n: true, h: false, c: false }),
    {
        Flags { z: false, n: true, h: false, c: false }
    }

    /// The half-carry flag alone.
    pub fn half_carry() -> (r: Flags)
        ensures
            r == (Flags { z: false, n: false, h: true, c: false }),
    {
        Flags { z: false, n: false, h: true, c: false }
    }

    /// The carry flag alone.
    pub fn carry() -> (r: Flags)
        ensures
            r == (Flags { z: false, n: false, h: false, c: true }),
    {
        Flags { z: false, n: false, h: false, c: true }
    }

    /// The flag set with every flag clear.
    pub fn empty() -> (r: Flags)
        ensures
            r == Flags::spec_empty(),
    {
        Flags { z: false, n: false, h: false, c: false }
    }

    /// Whether every flag that is set in `other` is set in `self`.
    pub fn contains(&self, other: Flags) -> (r: bool)
        ensures
            r == ((other.z ==> self.z) && (other.n ==> self.n) && (
            other.h ==> self.h) && (other.c ==> self.c)),
    {
        (!other.z || self.z) && (!other.n || self.n) && (!other.h
            || self.h) && (!other.c || self.c)
    }

    /// Sets the flags of `which` to `value`, keeping the others.
    pub fn set(&mut self, which: Flags, value: bool)
        ensures
            *final(self) == old(self).spec_set(which, value),
    {
        if which.z {
            self.z = value;
        }
        if which.n {
            self.n = value;
        }
        if which.h {
            self.h = value;
        }
        if which.c {
            self.c = value;
        }
    }

    /// Create a new set of flags from the result of an addition operation.
    pub fn from_add(sum: usize, carry: bool, half_carry: bool) -> (r: Flags)
        ensures
            r == Flags::spec_from_add(sum as int, carry, half_carry),
    {
        let mut flags = Self::empty();
        flags.set(Self::carry(), carry);
        flags.set(Self::half_carry(), half_carry);
        flags.set(Self::subtract(), false);
        flags.set(Self::zero(), sum == 0);
        flags
    }

    /// Create a new set of flags from the result of a subtraction operation.
    pub fn from_sub(result: usize, borrow: bool, half_borrow: bool) -> (r: Flags)
        ensures
            r == Flags::spec_from_sub(result as int, borrow, half_borrow),
    {
        let mut flags = Self::empty();
        flags.set(Self::carry(), borrow);
        flags.set(Self::half_carry(), half_borrow);
        flags.set(Self::subtract(), true);
        flags.set(Self::zero(), result == 0);
        flags
    }
}

impl Default for Flags {
    fn default() -> (r: Flags)
        ensures
            r == Flags::spec_empty(),
    {
        Self::empty()
    }
}

impl core::ops::BitOr for Flags {
    type Output = Flags;

    fn bitor(self, other: Flags) -> (r: Flags)
        ensures
            r == self.spec_union(other),
    {
        Flags {
            z: self.z || other.z,
            n: self.n || other.n,
            h: self.h || other.h,
            c: self.c || other.c,
        }
    }
}

impl vstd::std_specs::ops::BitOrSpecImpl for Flags {
    open spec fn obeys_bitor_spec() -> bool {
        true
    }

    open spec fn bitor_req(self, other: Flags) -> bool {
        true
    }

    open spec fn bitor_spec(self, other: Flags) -> Flags {
        self.spec_union(other)
    }
}

/// The 16-bit value of a register pair, high byte first.
pub open spec fn pair_value(high: u8, low: u8) -> u16 {
    (high as int * 256 + low as int) as u16
}

fn join_pair(high: u8, low: u8) -> (r: u16)
    ensures
        r == pair_value(high, low),
{
    let r = (high as u16) << 8 | low as u16;
    assert(((high as u16) << 8 | low as u16) == high as int * 256 + low as int) by (bit_vector);
    r
}

fn split_pair(value: u16) -> (r: (u8, u8))
    ensures
        r.0 as int == value as int / 256,
        r.1 as int == value as int % 256,
        pair_value(r.0, r.1) == value,
{
    assert((value >> 8) as int == value as int / 256 && (value >> 8) < 256) by (bit_vector);
    assert((value & 0xFF) as int == value as int % 256) by (bit_vector);
    ((value >> 8) as u8, (value & 0xFF) as u8)
}

/// Registers of the SM83 CPU.
#[derive(Debug, Clone, Copy)]
pub struct Registers {
    /// Accumulator.
    pub a: u8,
    /// B through L data registers.
    pub b: u8,
    pub c: u8,
    pub d: u8,
    pub e: u8,
    pub h: u8,
    pub l: u8,
    /// Status flags.
    pub f: Flags,
    /// Stack pointer.
    pub sp: u16,
    /// Program counter.
    pub pc: u16,
}

impl Registers {
    /// Every register zero and every flag clear.
    pub open spec fn spec_zeroed() -> Registers {
        Registers {
            a: 0,
            b: 0,
            c: 0,
            d: 0,
            e: 0,
            h: 0,
            l: 0,
            f: Flags::spec_empty(),
            sp: 0,
            pc: 0,
        }
    }

    pub open spec fn spec_bc(self) -> u16 {
        pair_value(self.b, self.c)
    }

    pub open spec fn spec_de(self) -> u16 {
        pair_value(self.d, self.e)
    }

    pub open spec fn spec_hl(self) -> u16 {
        pair_value(self.h, self.l)
    }

    /// The BC pair: B is the high byte, C the low one.
    pub fn bc(&self) -> (r: u16)
        ensures
            r == self.spec_bc(),
    {
        join_pair(self.b, self.c)
    }

    /// The DE pair: D is the high byte, E the low one.
    pub fn de(&self) -> (r: u16)
        ensures
            r == self.spec_de(),
    {
        join_pair(self.d, self.e)
    }

    /// The HL pair: H is the high byte, L the low one.
    pub fn hl(&self) -> (r: u16)
        ensures
            r == self.spec_hl(),
    {
        join_pair(self.h, self.l)
    }

    /// Writes `bc` to the BC pair; every other register is kept.
    pub fn set_bc(&mut self, bc: u16)
        ensures
            *final(self) == (Registers { b: final(self).b, c: final(self).c, ..*old(self) }),
            final(self).b as int == bc as int / 256,
            final(self).c as int == bc as int % 256,
            final(self).spec_bc() == bc,
    {
        let (high, low) = split_pair(bc);
        self.b = high;
        self.c = low;
    }

    /// Writes `de` to the DE pair; every other register is kept.
    pub fn set_de(&mut self, de: u16)
        ensures
            *final(self) == (Registers { d: final(self).d, e: final(self).e, ..*old(self) }),
            final(self).d as int == de as int / 256,
            final(self).e as int == de as int % 256,
            final(self).spec_de() == de,
    {
        let (high, low) = split_pair(de);
        self.d = high;
        self.e = low;
    }

    /// Writes `hl` to the HL pair; every other register is kept.
    pub fn set_hl(&mut self, hl: u16)
        ensures
            *final(self) == (Registers { h: final(self).h, l: final(self).l, ..*old(self) }),
            final(self).h as int == hl as int / 256,
            final(self).l as int == hl as int % 256,
            final(self).spec_hl() == hl,
    {
        let (high, low) = split_pair(hl);
        self.h = high;
        self.l = low;
    }
}

impl Default for Registers {
    fn default() -> (r: Registers)
        ensures
            r == Registers::spec_zeroed(),
    {
        Registers { a: 0, b: 0, c: 0, d: 0, e: 0, h: 0, l: 0, f: Flags::empty(), sp: 0, pc: 0 }
    }
}

} // verus!
