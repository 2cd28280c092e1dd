//! Conversions of lengths and positions between integer types and the
//! `u64` byte counts BASS works with.
use vstd::prelude::*;

verus! {

/// Converts a length or position into BASS's `u64`.
pub trait FromLenExt<T> {
    /// What the value converts to.
    spec fn converted(&self) -> T;

    /// The value converted to `T` through `u64`.
    fn from_len(self) -> (r: T)
        ensures
            r == self.converted(),
    ;
}

/// Builds a value from anything that converts into a BASS length.
pub trait FromLen: Sized {
    /// The value `n` converts to (an `as` cast, which truncates).
    spec fn from_len_value(n: u64) -> Self;

    /// Converts `t` through its `u64` length.
    fn from_len<L: IntoLen>(t: L) -> (r: Self)
        ensures
            r == Self::from_len_value(t.len_value()),
    ;
}

/// Turns a value into a BASS length.
pub trait IntoLen {
    /// The `u64` the value converts to (an `as` cast).
    spec fn len_value(&self) -> u64;

    /// The value as a `u64` length.
    fn into_len(&self) -> (r: u64)
        ensures
            r == self.len_value(),
    ;
}

impl IntoLen for u8 {
    open spec fn len_value(&self) -> u64 {
        *self as u64
    }

    fn into_len(&self) -> (r: u64) {
        *self as u64
    }
}

impl FromLen for u8 {
    open spec fn from_len_value(n: u64) -> u8 {
        n as u8
    }

    fn from_len<L: IntoLen>(t: L) -> (r: Self) {
        t.into_len() as Self
    }
}

impl IntoLen for u16 {
    open spec fn len_value(&self) -> u64 {
        *self as u64
    }

    fn into_len(&self) -> (r: u64) {
        *self as u64
    }
}

impl FromLen for u16 {
    open spec fn from_len_value(n: u64) -> u16 {
        n as u16
    }

    fn from_len<L: IntoLen>(t: L) -> (r: Self) {
        t.into_len() as Self
    }
}

impl IntoLen for u32 {
    open spec fn len_value(&self) -> u64 {
        *self as u64
    }

    fn into_len(&self) -> (r: u64) {
        *self as u64
    }
}

impl FromLen for u32 {
    open spec fn from_len_value(n: u64) -> u32 {
        n as u32
    }

    fn from_len<L: IntoLen>(t: L) -> (r: Self) {
        t.into_len() as Self
    }
}

impl IntoLen for u64 {
    open spec fn len_value(&self) -> u64 {
        *self as u64
    }

    fn into_len(&self) -> (r: u64) {
        *self as u64
    }
}

impl FromLen for u64 {
    open spec fn from_len_value(n: u64) -> u64 {
        n as u64
    }

    fn from_len<L: IntoLen>(t: L) -> (r: Self) {
        t.into_len() as Self
    }
}

impl IntoLen for u128 {
    open spec fn len_value(&self) -> u64 {
        *self as u64
    }

    fn into_len(&self) -> (r: u64) {
        *self as u64
    }
}

impl FromLen for u128 {
    open spec fn from_len_value(n: u64) -> u128 {
        n as u128
    }

    fn from_len<L: IntoLen>(t: L) -> (r: Self) {
        t.into_len() as Self
    }
}

impl IntoLen for usize {
    open spec fn len_value(&self) -> u64 {
        *self as u64
    }

    fn into_len(&self) -> (r: u64) {
        *self as u64
    }
}

impl FromLen for usize {
    open spec fn from_len_value(n: u64) -> usize {
        n as usize
    }

    fn from_len<L: IntoLen>(t: L) -> (r: Self) {
        t.into_len() as Self
    }
}

impl IntoLen for i8 {
    open spec fn len_value(&self) -> u64 {
        *self as u64
    }

    fn into_len(&self) -> (r: u64) {
        *self as u64
    }
}

impl FromLen for i8 {
    open spec fn from_len_value(n: u64) -> i8 {
        n as i8
    }

    fn from_len<L: IntoLen>(t: L) -> (r: Self) {
        t.into_len() as Self
    }
}

impl IntoLen for i16 {
    open spec fn len_value(&self) -> u64 {
        *self as u64
    }

    fn into_len(&self) -> (r: u64) {
        *self as u64
    }
}

impl FromLen for i16 {
    open spec fn from_len_value(n: u64) -> i16 {
        n as i16
    }

    fn from_len<L: IntoLen>(t: L) -> (r: Self) {
        t.into_len() as Self
    }
}

impl IntoLen for i32 {
    open spec fn len_value(&self) -> u64 {
        *self as u64
    }

    fn into_len(&self) -> (r: u64) {
        *self as u64
    }
}

impl FromLen for i32 {
    open spec fn from_len_value(n: u64) -> i32 {
        n as i32
    }

    fn from_len<L: IntoLen>(t: L) -> (r: Self) {
        t.into_len() as Self
    }
}

impl IntoLen for i64 {
    open spec fn len_value(&self) -> u64 {
        *self as u64
    }

    fn into_len(&self) -> (r: u64) {
        *self as u64
    }
}

impl FromLen for i64 {
    open spec fn from_len_value(n: u64) -> i64 {
        n as i64
    }

    fn from_len<L: IntoLen>(t: L) -> (r: Self) {
        t.into_len() as Self
    }
}

impl IntoLen for i128 {
    open spec fn len_value(&self) -> u64 {
        *self as u64
    }

    fn into_len(&self) -> (r: u64) {
        *self as u64
    }
}

impl FromLen for i128 {
    open spec fn from_len_value(n: u64) -> i128 {
        n as i128
    }

    fn from_len<L: IntoLen>(t: L) -> (r: Self) {
        t.into_len() as Self
    }
}

impl IntoLen for isize {
    open spec fn len_value(&self) -> u64 {
        *self as u64
    }

    fn into_len(&self) -> (r: u64) {
        *self as u64
    }
}

impl FromLen for isize {
    open spec fn from_len_value(n: u64) -> isize {
        n as isize
    }

    fn from_len<L: IntoLen>(t: L) -> (r: Self) {
        t.into_len() as Self
    }
}

impl<T: FromLen, U: IntoLen> FromLenExt<T> for U {
    open spec fn converted(&self) -> T {
        T::from_len_value(self.len_value())
    }

    fn from_len(self) -> (r: T) {
        T::from_len(self)
    }
}

} // verus!
