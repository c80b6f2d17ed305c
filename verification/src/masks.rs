use vstd::prelude::*;

verus! {

/// The mask with only bit `i` set.
pub open spec fn bit(i: u32) -> u32 {
    1u32 << i
}

/// The mask with the `n` lowest bits set.
pub open spec fn full_mask(n: u32) -> u32 {
    ((1u32 << n) - 1) as u32
}

/// Whether `m` is one of the feature masks that the combinatorial coverage over
/// `n` features picks: all off, all on, a single feature on, every feature but
/// one on, or a pair of distinct features on.
pub open spec fn is_combinatorial_mask(n: u32, m: u32) -> bool {
    ||| m == 0
    ||| m == full_mask(n)
    ||| exists|i: u32| i < n && (m == #[trigger] bit(i) || m == full_mask(n) & !bit(i))
    ||| exists|i: u32, j: u32| i < j < n && m == (#[trigger] bit(i) | #[trigger] bit(j))
}

/// Masks already pushed once the outer loop has handled features `0..i` and the
/// inner loop has handled partners `i+1..j` of feature `i`.
spec fn pushed_up_to(n: u32, i: int, j: int, m: u32) -> bool {
    ||| m == 0
    ||| m == full_mask(n)
    ||| exists|k: u32| k < i && (m == #[trigger] bit(k) || m == full_mask(n) & !bit(k))
    ||| exists|k: u32, l: u32| k < l < n && k < i && m == (#[trigger] bit(k) | #[trigger] bit(l))
    ||| (i < j && i < n && (m == bit(i as u32) || m == full_mask(n) & !bit(i as u32)))
    ||| exists|l: u32| i < l < j && m == (bit(i as u32) | #[trigger] bit(l))
}

/// Whether `s` is strictly increasing.
pub open spec fn strictly_increasing(s: Seq<u32>) -> bool {
    forall|a: int, b: int| 0 <= a < b < s.len() ==> s[a] < s[b]
}

/// Inserts `x` into the strictly increasing vector `v`, keeping it strictly
/// increasing; nothing changes when `x` is already there.
fn insert_sorted(v: &mut Vec<u32>, x: u32)
    requires
        strictly_increasing(old(v)@),
    ensures
        strictly_increasing(final(v)@),
        forall|m: u32| final(v)@.contains(m) <==> (old(v)@.contains(m) || m == x),
{
    let mut pos: usize = 0;
    while pos < v.len() && v[pos] < x
        invariant
            pos <= v.len(),
            v@ == old(v)@,
            strictly_increasing(v@),
            forall|a: int| 0 <= a < pos ==> v@[a] < x,
        decreases v.len() - pos,
    {
        pos = pos + 1;
    }
    if pos < v.len() && v[pos] == x {
        assert(v@[pos as int] == x);
        return;
    }
    let ghost before = v@;
    assert(before == old(v)@);
    v.insert(pos, x);
    assert forall|m: u32| v@.contains(m) <==> (before.contains(m) || m == x) by {
        if v@.contains(m) {
            let k = choose|k: int| 0 <= k < v@.len() && v@[k] == m;
            if k < pos {
                assert(before[k] == m);
            } else if k > pos {
                assert(before[k - 1] == m);
            }
        }
        if before.contains(m) {
            let k = choose|k: int| 0 <= k < before.len() && before[k] == m;
            if k < pos {
                assert(v@[k] == m);
            } else {
                assert(v@[k + 1] == m);
            }
        }
        if m == x {
            assert(v@[pos as int] == m);
        }
    }
    assert(forall|m: u32| v@.contains(m) <==> (old(v)@.contains(m) || m == x));
}

/// Combinatorial feature masks over `n` bits: all-off, all-on, every single bit
/// (on and off), and every pair of bits, sorted and without repetition. Covers
/// single-feature and pairwise interactions without the full `2^n` blow-up.
pub fn combinatorial_masks(n: u32) -> (masks: Vec<u32>)
    requires
        n < 32,
    ensures
        strictly_increasing(masks@),
        forall|m: u32| masks@.contains(m) <==> is_combinatorial_mask(n, m),
{
    assert(1u32 << n >= 1) by (bit_vector)
        requires
            n < 32,
    ;
    let full: u32 = (1u32 << n) - 1;
    let mut masks: Vec<u32> = Vec::new();
    insert_sorted(&mut masks, 0);
    insert_sorted(&mut masks, full);
    let mut i: u32 = 0;
    while i < n
        invariant
            n < 32,
            i <= n,
            full == full_mask(n),
            strictly_increasing(masks@),
            forall|m: u32| masks@.contains(m) <==> pushed_up_to(n, i as int, i as int, m),
        decreases n - i,
    {
        let bi: u32 = 1u32 << i;
        insert_sorted(&mut masks, bi);
        insert_sorted(&mut masks, full & !bi);
        assert forall|m: u32| masks@.contains(m) <==> pushed_up_to(n, i as int, i + 1, m) by {
            if exists|l: u32| i < l < i + 1 && m == (bit(i) | #[trigger] bit(l)) {
                let l = choose|l: u32| i < l < i + 1 && m == (bit(i) | #[trigger] bit(l));
                assert(false);
            }
        }
        let mut j: u32 = i + 1;
        while j < n
            invariant
                n < 32,
                i < n,
                i + 1 <= j <= n,
                full == full_mask(n),
                bi == bit(i),
                strictly_increasing(masks@),
                forall|m: u32| masks@.contains(m) <==> pushed_up_to(n, i as int, j as int, m),
            decreases n - j,
        {
            let ghost before = masks@;
            let p: u32 = bi | (1u32 << j);
            insert_sorted(&mut masks, p);
            assert forall|m: u32| masks@.contains(m) <==> pushed_up_to(n, i as int, j + 1, m) by {
                if m == p {
                    assert(i < j < j + 1 && m == (bit(i) | bit(j)));
                }
                if pushed_up_to(n, i as int, j + 1, m) && !pushed_up_to(n, i as int, j as int, m) {
                    let l = choose|l: u32| i < l < j + 1 && m == (bit(i) | #[trigger] bit(l));
                    assert(l == j);
                }
            }
            j = j + 1;
        }
        assert forall|m: u32| masks@.contains(m) <==> pushed_up_to(n, i + 1, i + 1, m) by {
            if pushed_up_to(n, i as int, n as int, m) {
                if exists|l: u32| i < l < n && m == (bit(i) | #[trigger] bit(l)) {
                    let l = choose|l: u32| i < l < n && m == (bit(i) | #[trigger] bit(l));
                    assert(i < l < n && i < i + 1 && m == (bit(i) | bit(l)));
                }
                if i < n && (m == bit(i) || m == full_mask(n) & !bit(i)) {
                    assert(i < i + 1);
                }
            }
            if pushed_up_to(n, i + 1, i + 1, m) {
                if exists|k: u32| k < i + 1 && (m == #[trigger] bit(k) || m == full_mask(n) & !bit(k)) {
                    let k = choose|k: u32| k < i + 1 && (m == #[trigger] bit(k) || m == full_mask(n) & !bit(k));
                    if k < i {
                    } else {
                        assert(k == i);
                    }
                }
                if exists|k: u32, l: u32| k < l < n && k < i + 1 && m == (#[trigger] bit(k) | #[trigger] bit(l)) {
                    let (k, l) = choose|k: u32, l: u32| k < l < n && k < i + 1 && m == (#[trigger] bit(k) | #[trigger] bit(l));
                    if k < i {
                    } else {
                        assert(k == i);
                        assert(i < l < n);
                    }
                }
                if exists|l: u32| i + 1 < l < i + 1 && m == (bit((i + 1) as u32) | #[trigger] bit(l)) {
                    let l = choose|l: u32| i + 1 < l < i + 1 && m == (bit((i + 1) as u32) | #[trigger] bit(l));
                    assert(false);
                }
            }
        }
        i = i + 1;
    }
    assert forall|m: u32| masks@.contains(m) <==> is_combinatorial_mask(n, m) by {
        if pushed_up_to(n, n as int, n as int, m) {
            if exists|l: u32| n < l < n && m == (bit(n) | #[trigger] bit(l)) {
                let l = choose|l: u32| n < l < n && m == (bit(n) | #[trigger] bit(l));
                assert(false);
            }
        }
        if is_combinatorial_mask(n, m) {
            if exists|k: u32, l: u32| k < l < n && m == (#[trigger] bit(k) | #[trigger] bit(l)) {
                let (k, l) = choose|k: u32, l: u32| k < l < n && m == (#[trigger] bit(k) | #[trigger] bit(l));
                assert(k < l < n && k < n && m == (bit(k) | bit(l)));
            }
        }
    }
    masks
}

} // verus!
