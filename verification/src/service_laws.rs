//! What holds of every [`ServiceFlags`] value, proved once for all callers.

use crate::service_flags::ServiceFlags;
use vstd::prelude::*;

verus! {

/// Bit by bit, `|` is "or", `&` is "and" and `!` is "not".
proof fn lemma_bitwise(x: u64, y: u64, i: u64)
    by (bit_vector)
    requires
        i < 64,
    ensures
        ((x | y) >> i) & 1 == 1 <==> (x >> i) & 1 == 1 || (y >> i) & 1 == 1,
        ((x & y) >> i) & 1 == 1 <==> (x >> i) & 1 == 1 && (y >> i) & 1 == 1,
        ((!x) >> i) & 1 == 1 <==> (x >> i) & 1 != 1,
{
}

/// Where something is left of `z` from bit `i` up and bit `i` is clear,
/// something is left from bit `i + 1` up.
proof fn lemma_next_bit(z: u64, i: u64)
    by (bit_vector)
    requires
        i < 64,
        z >> i != 0,
        (z >> i) & 1 != 1,
    ensures
        i < 63,
        z >> ((i + 1) as u64) != 0,
{
}

/// The lowest bit of `z` that is set at or above position `i`.
proof fn lowest_bit_from(z: u64, i: u64) -> (p: u64)
    requires
        i < 64,
        z >> i != 0,
    ensures
        i <= p < 64,
        (z >> p) & 1 == 1,
    decreases 64 - i,
{
    if (z >> i) & 1 == 1 {
        i
    } else {
        lemma_next_bit(z, i);
        lowest_bit_from(z, (i + 1) as u64)
    }
}

/// Two different fields differ in some bit.
proof fn differing_bit(x: u64, y: u64) -> (p: u64)
    requires
        x != y,
    ensures
        p < 64,
        (x >> p) & 1 == 1 <==> (y >> p) & 1 != 1,
{
    let z = x ^ y;
    assert(z >> 0 != 0) by (bit_vector)
        requires
            z == x ^ y,
            x != y,
    ;
    let p = lowest_bit_from(z, 0);
    assert((x >> p) & 1 == 1 <==> (y >> p) & 1 != 1) by (bit_vector)
        requires
            z == x ^ y,
            p < 64,
            (z >> p) & 1 == 1,
    ;
    p
}

/// The view loses nothing: two sets with the same bits set are the same value.
pub proof fn lemma_view_is_faithful(a: ServiceFlags, b: ServiceFlags)
    ensures
        a@ == b@ <==> a == b,
{
    if a@ == b@ && a.0 != b.0 {
        let p = differing_bit(a.0, b.0);
        assert(a@.contains(p as nat) == a.has_bit(p as nat));
        assert(b@.contains(p as nat) == b.has_bit(p as nat));
    }
}

/// `|` is the union of the two sets: a bit is set in the result exactly when
/// it is set in one of them.
pub proof fn lemma_or_is_union(a: ServiceFlags, b: ServiceFlags)
    ensures
        a.union(b)@ == a@.union(b@),
{
    let either = a.union(b);
    assert forall|i: nat| either.has_bit(i) == (a.has_bit(i) || b.has_bit(i)) by {
        if i < 64 {
            lemma_bitwise(a.0, b.0, i as u64);
        }
    }
    assert(either@ =~= a@.union(b@));
}

/// `&` is the intersection of the two sets.
pub proof fn lemma_and_is_intersection(a: ServiceFlags, b: ServiceFlags)
    ensures
        a.intersection(b)@ == a@.intersect(b@),
{
    let both = a.intersection(b);
    assert forall|i: nat| both.has_bit(i) == (a.has_bit(i) && b.has_bit(i)) by {
        if i < 64 {
            lemma_bitwise(a.0, b.0, i as u64);
        }
    }
    assert(both@ =~= a@.intersect(b@));
}

/// `!` is the complement within the 64 positions of the field.
pub proof fn lemma_not_is_complement(a: ServiceFlags)
    ensures
        a.complement()@ == Set::new(|i: nat| i < 64 && !a@.contains(i)),
{
    let rest = a.complement();
    assert forall|i: nat| rest.has_bit(i) == (i < 64 && !a.has_bit(i)) by {
        if i < 64 {
            lemma_bitwise(a.0, a.0, i as u64);
        }
    }
    assert(rest@ =~= Set::new(|i: nat| i < 64 && !a@.contains(i)));
}

/// `a.has(b)` says that `b` is a subset of `a`.
pub proof fn lemma_has_is_subset(a: ServiceFlags, b: ServiceFlags)
    ensures
        a.has(b) <==> b@.subset_of(a@),
{
    lemma_and_is_intersection(a, b);
    lemma_view_is_faithful(a.intersection(b), b);
    if b@.subset_of(a@) {
        assert(a@.intersect(b@) =~= b@);
    }
    if a@.intersect(b@) == b@ {
        assert(b@.subset_of(a@));
    }
}

/// `|` never clears a bit: whatever was set on either side is set in the
/// result, whether this library has a name for it or not.
pub proof fn lemma_or_keeps_every_bit(a: ServiceFlags, b: ServiceFlags)
    ensures
        a@.subset_of(a.union(b)@),
        b@.subset_of(a.union(b)@),
        a.union(b).has(a),
        a.union(b).has(b),
{
    lemma_or_is_union(a, b);
    lemma_has_is_subset(a.union(b), a);
    lemma_has_is_subset(a.union(b), b);
}

/// `NONE` is the identity of `|`, and `|` is idempotent.
pub proof fn lemma_or_identity_and_idempotence(c: ServiceFlags)
    ensures
        ServiceFlags::NONE().union(c) == c,
        c.union(ServiceFlags::NONE()) == c,
        c.union(c) == c,
{
    let x = c.0;
    assert(0u64 | x == x && x | 0u64 == x && x | x == x) by (bit_vector);
}

/// The field with bit `p` alone is the set that holds `p` alone.
pub proof fn lemma_single_bit(p: nat)
    requires
        p < 64,
    ensures
        ServiceFlags(1u64 << (p as u64))@ == set![p],
{
    let q = p as u64;
    let one = ServiceFlags(1u64 << q);
    assert forall|i: nat| one.has_bit(i) == (i == p) by {
        if i < 64 {
            let j = i as u64;
            assert((((1u64 << q) >> j) & 1 == 1) == (j == q)) by (bit_vector)
                requires
                    q < 64,
                    j < 64,
            ;
        }
    }
    assert(one@ =~= set![p]);
}

/// Each named service is one bit, at the position that the protocol gives it,
/// and `NONE` is the empty set.
pub proof fn lemma_named_constants()
    ensures
        ServiceFlags::NONE()@ == Set::<nat>::empty(),
        ServiceFlags::NETWORK()@ == set![0nat],
        ServiceFlags::GETUTXO()@ == set![1nat],
        ServiceFlags::BLOOM()@ == set![2nat],
        ServiceFlags::WITNESS()@ == set![3nat],
        ServiceFlags::COMPACT_FILTERS()@ == set![6nat],
        ServiceFlags::NETWORK_LIMITED()@ == set![10nat],
        ServiceFlags::P2P_V2()@ == set![11nat],
{
    assert(1u64 << 0u64 == 0x1 && 1u64 << 1u64 == 0x2 && 1u64 << 2u64 == 0x4 && 1u64 << 3u64 == 0x8
        && 1u64 << 6u64 == 0x40 && 1u64 << 10u64 == 0x400 && 1u64 << 11u64 == 0x800)
        by (bit_vector);
    lemma_single_bit(0);
    lemma_single_bit(1);
    lemma_single_bit(2);
    lemma_single_bit(3);
    lemma_single_bit(6);
    lemma_single_bit(10);
    lemma_single_bit(11);
    assert forall|i: nat| !ServiceFlags::NONE().has_bit(i) by {
        if i < 64 {
            let j = i as u64;
            assert((0u64 >> j) & 1 != 1) by (bit_vector);
        }
    }
    assert(ServiceFlags::NONE()@ =~= Set::<nat>::empty());
}

/// The fields of the seven named services.
spec fn is_service_bit(x: u64) -> bool {
    x == 0x1 || x == 0x2 || x == 0x4 || x == 0x8 || x == 0x40 || x == 0x400 || x == 0x800
}

/// Of two named constants, different or not, `|` holds the bits of both and
/// of no other: tested against a named service `k`, the result has `k` exactly
/// when `k` is one of the two.
pub proof fn lemma_or_of_named(a: ServiceFlags, b: ServiceFlags, k: ServiceFlags)
    requires
        a.is_named(),
        b.is_named(),
        k.is_named_service(),
    ensures
        a.union(b)@ == a@.union(b@),
        a.union(b).has(a),
        a.union(b).has(b),
        a.union(b).has(k) <==> (k == a || k == b),
{
    lemma_or_is_union(a, b);
    lemma_or_keeps_every_bit(a, b);
    let (x, y, z) = (a.0, b.0, k.0);
    assert(((x | y) & z == z) <==> (z == x || z == y)) by (bit_vector)
        requires
            x == 0 || is_service_bit(x),
            y == 0 || is_service_bit(y),
            is_service_bit(z),
    ;
}

} // verus!
