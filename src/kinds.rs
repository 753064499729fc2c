use vstd::prelude::*;

verus! {

/// The numeric kinds of the widening relation.
///
/// The two float kinds take part in the relation only; no executable
/// conversion of this library produces or consumes them.
#[derive(PartialEq, Eq, Structural, Clone, Copy, Debug)]
pub enum Kind {
    UInt8,
    UInt16,
    UInt32,
    UInt64,
    Int8,
    Int16,
    Int32,
    Int64,
    Float32,
    Float64,
}

/// Bit width of a kind.
pub open spec fn width(k: Kind) -> nat {
    match k {
        Kind::UInt8 | Kind::Int8 => 8,
        Kind::UInt16 | Kind::Int16 => 16,
        Kind::UInt32 | Kind::Int32 | Kind::Float32 => 32,
        Kind::UInt64 | Kind::Int64 | Kind::Float64 => 64,
    }
}

pub open spec fn is_signed(k: Kind) -> bool {
    matches!(k, Kind::Int8 | Kind::Int16 | Kind::Int32 | Kind::Int64)
}

pub open spec fn is_unsigned(k: Kind) -> bool {
    matches!(k, Kind::UInt8 | Kind::UInt16 | Kind::UInt32 | Kind::UInt64)
}

pub open spec fn is_float(k: Kind) -> bool {
    matches!(k, Kind::Float32 | Kind::Float64)
}

pub open spec fn is_integer(k: Kind) -> bool {
    is_signed(k) || is_unsigned(k)
}

/// Smallest value of an integer kind.
pub open spec fn min_value(k: Kind) -> int {
    match k {
        Kind::Int8 => -0x80,
        Kind::Int16 => -0x8000,
        Kind::Int32 => -0x8000_0000,
        Kind::Int64 => -0x8000_0000_0000_0000,
        _ => 0,
    }
}

/// Largest value of an integer kind.
pub open spec fn max_value(k: Kind) -> int {
    match k {
        Kind::UInt8 => 0xff,
        Kind::UInt16 => 0xffff,
        Kind::UInt32 => 0xffff_ffff,
        Kind::UInt64 => 0xffff_ffff_ffff_ffff,
        Kind::Int8 => 0x7f,
        Kind::Int16 => 0x7fff,
        Kind::Int32 => 0x7fff_ffff,
        Kind::Int64 => 0x7fff_ffff_ffff_ffff,
        _ => 0,
    }
}

/// The values that an integer kind represents.
pub open spec fn in_range(k: Kind, i: int) -> bool {
    is_integer(k) && min_value(k) <= i <= max_value(k)
}

/// The one kind that `k` widens to directly, other than itself.
pub open spec fn successor(k: Kind) -> Option<Kind> {
    match k {
        Kind::UInt8 => Some(Kind::UInt16),
        Kind::UInt16 => Some(Kind::UInt32),
        Kind::UInt32 => Some(Kind::UInt64),
        Kind::UInt64 => Some(Kind::Float32),
        Kind::Int8 => Some(Kind::Int16),
        Kind::Int16 => Some(Kind::Int32),
        Kind::Int32 => Some(Kind::Int64),
        Kind::Int64 => Some(Kind::Float32),
        Kind::Float32 => Some(Kind::Float64),
        Kind::Float64 => None,
    }
}

/// The declared direct facts: every kind widens to itself and to its successor.
pub open spec fn direct_fact(s: Kind, t: Kind) -> bool {
    s == t || successor(s) == Some(t)
}

/// Number of direct steps from `k` to the widest kind.
pub open spec fn height(k: Kind) -> nat {
    match k {
        Kind::Float64 => 0,
        Kind::Float32 => 1,
        Kind::UInt64 | Kind::Int64 => 2,
        Kind::UInt32 | Kind::Int32 => 3,
        Kind::UInt16 | Kind::Int16 => 4,
        Kind::UInt8 | Kind::Int8 => 5,
    }
}

/// A widening path leads from `s` to `t`: zero or more direct facts.
pub open spec fn widens(s: Kind, t: Kind) -> bool
    decreases height(s),
{
    s == t || match successor(s) {
        Some(m) => widens(m, t),
        None => false,
    }
}

/// A primitive integer type, seen as one of the kinds, with its values
/// modelled as mathematical integers.
pub trait Numeric: Sized {
    spec fn kind() -> Kind;

    spec fn as_int(self) -> int;

    /// The value of this type that stands for `i`, where `i` is in range.
    spec fn from_int(i: int) -> Self;

    proof fn lemma_kind()
        ensures
            is_integer(Self::kind()),
    ;

    proof fn lemma_as_int(a: Self)
        ensures
            in_range(Self::kind(), a.as_int()),
            Self::from_int(a.as_int()) == a,
    ;

    proof fn lemma_from_int(i: int)
        requires
            in_range(Self::kind(), i),
        ensures
            Self::from_int(i).as_int() == i,
    ;
}

impl Numeric for u8 {
    open spec fn kind() -> Kind {
        Kind::UInt8
    }

    open spec fn as_int(self) -> int {
        self as int
    }

    open spec fn from_int(i: int) -> u8 {
        i as u8
    }

    proof fn lemma_kind() {
    }

    proof fn lemma_as_int(a: u8) {
    }

    proof fn lemma_from_int(i: int) {
    }
}

impl Numeric for u16 {
    open spec fn kind() -> Kind {
        Kind::UInt16
    }

    open spec fn as_int(self) -> int {
        self as int
    }

    open spec fn from_int(i: int) -> u16 {
        i as u16
    }

    proof fn lemma_kind() {
    }

    proof fn lemma_as_int(a: u16) {
    }

    proof fn lemma_from_int(i: int) {
    }
}

impl Numeric for u32 {
    open spec fn kind() -> Kind {
        Kind::UInt32
    }

    open spec fn as_int(self) -> int {
        self as int
    }

    open spec fn from_int(i: int) -> u32 {
        i as u32
    }

    proof fn lemma_kind() {
    }

    proof fn lemma_as_int(a: u32) {
    }

    proof fn lemma_from_int(i: int) {
    }
}

impl Numeric for u64 {
    open spec fn kind() -> Kind {
        Kind::UInt64
    }

    open spec fn as_int(self) -> int {
        self as int
    }

    open spec fn from_int(i: int) -> u64 {
        i as u64
    }

    proof fn lemma_kind() {
    }

    proof fn lemma_as_int(a: u64) {
    }

    proof fn lemma_from_int(i: int) {
    }
}

impl Numeric for i8 {
    open spec fn kind() -> Kind {
        Kind::Int8
    }

    open spec fn as_int(self) -> int {
        self as int
    }

    open spec fn from_int(i: int) -> i8 {
        i as i8
    }

    proof fn lemma_kind() {
    }

    proof fn lemma_as_int(a: i8) {
    }

    proof fn lemma_from_int(i: int) {
    }
}

impl Numeric for i16 {
    open spec fn kind() -> Kind {
        Kind::Int16
    }

    open spec fn as_int(self) -> int {
        self as int
    }

    open spec fn from_int(i: int) -> i16 {
        i as i16
    }

    proof fn lemma_kind() {
    }

    proof fn lemma_as_int(a: i16) {
    }

    proof fn lemma_from_int(i: int) {
    }
}

impl Numeric for i32 {
    open spec fn kind() -> Kind {
        Kind::Int32
    }

    open spec fn as_int(self) -> int {
        self as int
    }

    open spec fn from_int(i: int) -> i32 {
        i as i32
    }

    proof fn lemma_kind() {
    }

    proof fn lemma_as_int(a: i32) {
    }

    proof fn lemma_from_int(i: int) {
    }
}

impl Numeric for i64 {
    open spec fn kind() -> Kind {
        Kind::Int64
    }

    open spec fn as_int(self) -> int {
        self as int
    }

    open spec fn from_int(i: int) -> i64 {
        i as i64
    }

    proof fn lemma_kind() {
    }

    proof fn lemma_as_int(a: i64) {
    }

    proof fn lemma_from_int(i: int) {
    }
}

} // verus!
