use vstd::prelude::*;

verus! {

/// An unsigned integer that also reads as a two's complement signed integer.
pub trait AsSigned: Copy {
    /// The value read as unsigned.
    spec fn unsigned_value(&self) -> int;

    /// The value read as two's complement.
    spec fn signed_value(&self) -> int;

    fn as_unsigned(&self) -> (r: u64)
        ensures
            r as int == self.unsigned_value(),
    ;

    fn as_signed(&self) -> (r: i64)
        ensures
            r as int == self.signed_value(),
    ;
}

impl AsSigned for u32 {
    open spec fn unsigned_value(&self) -> int {
        *self as int
    }

    open spec fn signed_value(&self) -> int {
        if *self < 0x8000_0000 {
            *self as int
        } else {
            *self as int - 0x1_0000_0000
        }
    }

    fn as_unsigned(&self) -> (r: u64) {
        *self as u64
    }

    fn as_signed(&self) -> (r: i64) {
        if *self < 0x8000_0000 {
            *self as i64
        } else {
            *self as i64 - 0x1_0000_0000
        }
    }
}

impl AsSigned for u64 {
    open spec fn unsigned_value(&self) -> int {
        *self as int
    }

    open spec fn signed_value(&self) -> int {
        if *self < 0x8000_0000_0000_0000 {
            *self as int
        } else {
            *self as int - 0x1_0000_0000_0000_0000
        }
    }

    fn as_unsigned(&self) -> (r: u64) {
        *self
    }

    fn as_signed(&self) -> (r: i64) {
        if *self < 0x8000_0000_0000_0000 {
            *self as i64
        } else if *self == 0x8000_0000_0000_0000 {
            i64::MIN
        } else {
            let m: u64 = 0xFFFF_FFFF_FFFF_FFFF - *self + 1;
            -(m as i64)
        }
    }
}

} // verus!
