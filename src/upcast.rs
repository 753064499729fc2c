use crate::kinds::{widens, Numeric};
use vstd::prelude::*;

verus! {

/// `Self` can be built, without loss, from a value of kind `T`.
///
/// Every kind is built from itself, and a kind built from `M` is also built
/// from each kind that widens to `M` directly. Calling `from` through this
/// trait follows only the impl that names `T`; [`cast`] is the entry point that
/// callers generic over the target are meant to use.
/// The value of kind `T` that equals `v`.
pub open spec fn upcast_of<V: Numeric, T: Numeric>(v: V) -> T {
    T::from_int(v.as_int())
}

/// Widens `v` to the target kind `T`, along the widening path from `V` to `T`.
///
/// The call type-checks only where such a path exists; the result is `v`
/// itself, seen as a value of `T`.
pub fn cast<V: Numeric, T: UpCastAs<V>>(v: V) -> (r: T)
    ensures
        r == upcast_of::<V, T>(v),
        r.as_int() == v.as_int(),
        widens(V::kind(), T::kind()),
{
    proof {
        T::lemma_path();
    }
    T::from(v)
}

pub trait UpCastAs<T: Numeric>: Numeric {
    /// A widening path leads from `T` to `Self`.
    proof fn lemma_path()
        ensures
            widens(T::kind(), Self::kind()),
    ;

    fn from(t: T) -> (r: Self)
        ensures
            r.as_int() == t.as_int(),
            r == Self::from_int(t.as_int()),
    ;
}

impl UpCastAs<u8> for u8 {
    proof fn lemma_path() {
    }

    fn from(t: u8) -> (r: u8) {
        t
    }
}

impl UpCastAs<u16> for u16 {
    proof fn lemma_path() {
    }

    fn from(t: u16) -> (r: u16) {
        t
    }
}

impl UpCastAs<u32> for u32 {
    proof fn lemma_path() {
    }

    fn from(t: u32) -> (r: u32) {
        t
    }
}

impl UpCastAs<u64> for u64 {
    proof fn lemma_path() {
    }

    fn from(t: u64) -> (r: u64) {
        t
    }
}

impl UpCastAs<i8> for i8 {
    proof fn lemma_path() {
    }

    fn from(t: i8) -> (r: i8) {
        t
    }
}

impl UpCastAs<i16> for i16 {
    proof fn lemma_path() {
    }

    fn from(t: i16) -> (r: i16) {
        t
    }
}

impl UpCastAs<i32> for i32 {
    proof fn lemma_path() {
    }

    fn from(t: i32) -> (r: i32) {
        t
    }
}

impl UpCastAs<i64> for i64 {
    proof fn lemma_path() {
    }

    fn from(t: i64) -> (r: i64) {
        t
    }
}

/// `i8` widens to `i16`: whatever is built from `i16` is built from `i8`.
impl<U: UpCastAs<i16>> UpCastAs<i8> for U {
    proof fn lemma_path() {
        U::lemma_path();
    }

    fn from(t: i8) -> (r: U) {
        U::from(t as i16)
    }
}

/// `i16` widens to `i32`: whatever is built from `i32` is built from `i16`.
impl<U: UpCastAs<i32>> UpCastAs<i16> for U {
    proof fn lemma_path() {
        U::lemma_path();
    }

    fn from(t: i16) -> (r: U) {
        U::from(t as i32)
    }
}

/// `i32` widens to `i64`: whatever is built from `i64` is built from `i32`.
impl<U: UpCastAs<i64>> UpCastAs<i32> for U {
    proof fn lemma_path() {
        U::lemma_path();
    }

    fn from(t: i32) -> (r: U) {
        U::from(t as i64)
    }
}

/// `u8` widens to `u16`: whatever is built from `u16` is built from `u8`.
impl<U: UpCastAs<u16>> UpCastAs<u8> for U {
    proof fn lemma_path() {
        U::lemma_path();
    }

    fn from(t: u8) -> (r: U) {
        U::from(t as u16)
    }
}

/// `u16` widens to `u32`: whatever is built from `u32` is built from `u16`.
impl<U: UpCastAs<u32>> UpCastAs<u16> for U {
    proof fn lemma_path() {
        U::lemma_path();
    }

    fn from(t: u16) -> (r: U) {
        U::from(t as u32)
    }
}

/// `u32` widens to `u64`: whatever is built from `u64` is built from `u32`.
impl<U: UpCastAs<u64>> UpCastAs<u32> for U {
    proof fn lemma_path() {
        U::lemma_path();
    }

    fn from(t: u32) -> (r: U) {
        U::from(t as u64)
    }
}

} // verus!
