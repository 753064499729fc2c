use crate::kinds::{
    direct_fact, height, in_range, is_float, is_integer, is_signed, max_value, min_value,
    successor, widens, width, Kind, Numeric,
};
use crate::upcast::{upcast_of, UpCastAs};
use vstd::prelude::*;

verus! {

/// Every kind widens to itself.
pub proof fn lemma_widens_reflexive(k: Kind)
    ensures
        widens(k, k),
{
}

/// Each declared direct fact is a widening path of at most one step.
pub proof fn lemma_direct_fact_widens(s: Kind, t: Kind)
    requires
        direct_fact(s, t),
    ensures
        widens(s, t),
{
    reveal_with_fuel(widens, 2);
}

/// Widening paths compose: a path from `s` to `m` followed by one from `m`
/// to `t` is a path from `s` to `t`.
pub proof fn lemma_widens_transitive(s: Kind, m: Kind, t: Kind)
    requires
        widens(s, m),
        widens(m, t),
    ensures
        widens(s, t),
    decreases height(s),
{
    if s != m {
        let n = successor(s).unwrap();
        lemma_widens_transitive(n, m, t);
    }
}

/// Along a widening path the height strictly falls, unless the path is empty.
pub proof fn lemma_widens_height(s: Kind, t: Kind)
    requires
        widens(s, t),
    ensures
        height(t) <= height(s),
        s != t ==> height(t) < height(s),
    decreases height(s),
{
    if s != t {
        let n = successor(s).unwrap();
        lemma_widens_height(n, t);
    }
}

/// The relation has no cycles: two kinds that widen to each other are one kind.
pub proof fn lemma_widens_antisymmetric(s: Kind, t: Kind)
    requires
        widens(s, t),
        widens(t, s),
    ensures
        s == t,
{
    lemma_widens_height(s, t);
    lemma_widens_height(t, s);
}

/// A float kind widens to float kinds only.
pub proof fn lemma_float_widens_to_float(s: Kind, t: Kind)
    requires
        is_float(s),
        widens(s, t),
    ensures
        is_float(t),
{
    reveal_with_fuel(widens, 3);
}

/// Between integer kinds, widening keeps the signedness, never narrows the
/// width, and every value of the source lies in the range of the target.
pub proof fn lemma_widens_keeps_range(s: Kind, t: Kind)
    requires
        widens(s, t),
        is_integer(s),
        is_integer(t),
    ensures
        is_signed(s) == is_signed(t),
        width(s) <= width(t),
        min_value(t) <= min_value(s),
        max_value(s) <= max_value(t),
        forall|i: int| in_range(s, i) ==> in_range(t, i),
    decreases height(s),
{
    if s != t {
        let n = successor(s).unwrap();
        if is_float(n) {
            lemma_float_widens_to_float(n, t);
        } else {
            lemma_widens_keeps_range(n, t);
        }
    }
}

/// Narrowing, crossing the sign boundary, and narrowing a float admit no path.
pub proof fn lemma_no_path_examples()
    ensures
        !widens(Kind::UInt64, Kind::UInt32),
        !widens(Kind::Int32, Kind::UInt32),
        !widens(Kind::Float64, Kind::Float32),
{
    if widens(Kind::UInt64, Kind::UInt32) {
        lemma_widens_keeps_range(Kind::UInt64, Kind::UInt32);
    }
    if widens(Kind::Int32, Kind::UInt32) {
        lemma_widens_keeps_range(Kind::Int32, Kind::UInt32);
    }
    if widens(Kind::Float64, Kind::Float32) {
        lemma_widens_height(Kind::Float64, Kind::Float32);
    }
}

/// The two kinds that widen directly to the 32-bit float are the two 64-bit
/// integer kinds, and neither of them widens to the other: the chains that
/// meet there stay apart.
pub proof fn lemma_float32_predecessors(k: Kind)
    ensures
        successor(k) == Some(Kind::Float32) <==> (k == Kind::Int64 || k == Kind::UInt64),
        !widens(Kind::Int64, Kind::UInt64),
        !widens(Kind::UInt64, Kind::Int64),
{
    reveal_with_fuel(widens, 3);
}

/// A sequence of kinds in which each one widens directly to the next.
pub open spec fn is_path(p: Seq<Kind>) -> bool {
    &&& p.len() >= 1
    &&& forall|i: int| 0 <= i < p.len() - 1 ==> successor(#[trigger] p[i]) == Some(p[i + 1])
}

/// Wherever a widening path exists, it can be written out as a chain of
/// direct facts from the source to the target.
pub proof fn lemma_widens_has_path(s: Kind, t: Kind) -> (p: Seq<Kind>)
    requires
        widens(s, t),
    ensures
        is_path(p),
        p[0] == s,
        p.last() == t,
    decreases height(s),
{
    if s == t {
        seq![s]
    } else {
        let n = successor(s).unwrap();
        let rest = lemma_widens_has_path(n, t);
        let p = seq![s] + rest;
        assert forall|i: int| 0 <= i < p.len() - 1 implies successor(#[trigger] p[i]) == Some(
            p[i + 1],
        ) by {
            if i > 0 {
                assert(p[i] == rest[i - 1]);
            }
        }
        p
    }
}

proof fn lemma_path_heights(p: Seq<Kind>)
    requires
        is_path(p),
    ensures
        forall|i: int| 0 <= i < p.len() ==> height(#[trigger] p[i]) == height(p[0]) - i,
{
    assert forall|i: int| 0 <= i < p.len() implies height(#[trigger] p[i]) == height(p[0]) - i by {
        lemma_path_prefix_height(p, i);
    }
}

proof fn lemma_path_prefix_height(p: Seq<Kind>, i: int)
    requires
        is_path(p),
        0 <= i < p.len(),
    ensures
        height(p[i]) == height(p[0]) - i,
    decreases i,
{
    if i > 0 {
        lemma_path_prefix_height(p, i - 1);
        assert(successor(p[i - 1]) == Some(p[i]));
    }
}

/// Between two kinds there is at most one path: no two distinct chains of
/// direct facts lead from the same source to the same target.
pub proof fn lemma_path_unique(p: Seq<Kind>, q: Seq<Kind>)
    requires
        is_path(p),
        is_path(q),
        p[0] == q[0],
        p.last() == q.last(),
    ensures
        p == q,
{
    lemma_path_heights(p);
    lemma_path_heights(q);
    assert(p.len() == q.len());
    assert forall|i: int| 0 <= i < p.len() implies p[i] == q[i] by {
        lemma_paths_agree(p, q, i);
    }
    assert(p =~= q);
}

proof fn lemma_paths_agree(p: Seq<Kind>, q: Seq<Kind>, i: int)
    requires
        is_path(p),
        is_path(q),
        p[0] == q[0],
        p.len() == q.len(),
        0 <= i < p.len(),
    ensures
        p[i] == q[i],
    decreases i,
{
    if i > 0 {
        lemma_paths_agree(p, q, i - 1);
        assert(successor(p[i - 1]) == Some(p[i]));
        assert(successor(q[i - 1]) == Some(q[i]));
    }
}

/// Converting a kind to itself gives the value back.
pub proof fn lemma_cast_reflexive<K: UpCastAs<K>>(v: K)
    ensures
        upcast_of::<K, K>(v) == v,
{
    K::lemma_as_int(v);
}

/// A conversion along any path keeps the value exactly; in particular along a
/// single direct fact it is the native widening of the integer.
pub proof fn lemma_cast_lossless<S: Numeric, T: UpCastAs<S>>(v: S)
    ensures
        upcast_of::<S, T>(v).as_int() == v.as_int(),
{
    T::lemma_path();
    S::lemma_kind();
    T::lemma_kind();
    S::lemma_as_int(v);
    lemma_widens_keeps_range(S::kind(), T::kind());
    T::lemma_from_int(v.as_int());
}

/// Converting in stages through an intermediate kind gives what the direct
/// conversion gives.
pub proof fn lemma_cast_transitive<S: Numeric, M: UpCastAs<S>, T: UpCastAs<M> + UpCastAs<S>>(
    v: S,
)
    ensures
        upcast_of::<S, T>(v) == upcast_of::<M, T>(upcast_of::<S, M>(v)),
{
    lemma_cast_lossless::<S, M>(v);
}

} // verus!
