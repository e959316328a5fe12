//! Full roots of a flat tree: the subtree roots that cover a number of leaves.

use vstd::arithmetic::div_mod::lemma_fundamental_div_mod;
use vstd::arithmetic::div_mod::lemma_fundamental_div_mod_converse;
use vstd::prelude::*;

verus! {

/// Whether `n` is a power of two.
pub open spec fn is_pow2(n: nat) -> bool
    decreases n,
{
    n == 1 || (n > 1 && n % 2 == 0 && is_pow2(n / 2))
}

/// The flat index of the root of the full subtree whose leaves are the
/// blocks `[start, start + size)`.
pub open spec fn subtree_root(start: nat, size: nat) -> int {
    2 * start + size - 1
}

/// Whether `roots` is the full-root set of the blocks `[from, from + count)`:
/// each root, in order, heads the largest full subtree that starts where the
/// previous one ended and still fits into the blocks that are left.
pub open spec fn is_full_roots(roots: Seq<u64>, from: nat, count: nat) -> bool
    decreases roots.len(),
{
    if roots.len() == 0 {
        count == 0
    } else {
        let size = roots[0] + 1 - 2 * from;
        &&& size >= 1
        &&& is_pow2(size as nat)
        &&& size <= count < 2 * size
        &&& is_full_roots(roots.drop_first(), (from + size) as nat, (count - size) as nat)
    }
}

/// Calls `flat_tree::full_roots`, which is trusted to append to `nodes` the
/// full roots of the tree below the even flat index `index`, that is of the
/// blocks `[0, index / 2)`, largest subtree first, and to leave what `nodes`
/// held before in place. It panics on an odd index, which the precondition
/// leaves out.
#[verifier::external_body]
fn flat_full_roots(index: u64, nodes: &mut Vec<u64>)
    requires
        index % 2 == 0,
    ensures
        final(nodes)@.len() >= old(nodes)@.len(),
        final(nodes)@.subrange(0, old(nodes)@.len() as int) == old(nodes)@,
        is_full_roots(
            final(nodes)@.subrange(old(nodes)@.len() as int, final(nodes)@.len() as int),
            0,
            (index / 2) as nat,
        ),
{
    flat_tree::full_roots(index, nodes)
}

/// The full-root set of a feed of `blocks` blocks, by ascending flat index:
/// the roots whose subtrees cover the blocks `[0, blocks)` with no gap and
/// no overlap, each as large as fits. `None` when the flat tree of that many
/// blocks has indices beyond `u64`.
pub fn full_roots(blocks: u64) -> (r: Option<Vec<u64>>)
    ensures
        r.is_some() <==> blocks <= u64::MAX / 2,
        r matches Some(roots) ==> is_full_roots(roots@, 0, blocks as nat),
        r matches Some(roots) ==> tiles(roots@, 0, blocks as nat),
        r matches Some(roots) ==> forall|i: int, j: int|
            0 <= i < j < roots@.len() ==> roots@[i] < roots@[j],
{
    if blocks > u64::MAX / 2 {
        return None;
    }
    let mut roots: Vec<u64> = Vec::new();
    flat_full_roots(blocks * 2, &mut roots);
    assert(roots@.subrange(0, roots@.len() as int) == roots@);
    proof {
        lemma_full_roots_tile(roots@, blocks as nat);
        lemma_full_roots_ascend(roots@, 0, blocks as nat);
    }
    Some(roots)
}

/// The number of blocks below the node with flat index `index`: two to the
/// power of the number of ones at the low end of `index`.
pub open spec fn span_size(index: nat) -> nat
    decreases index,
{
    if index % 2 == 0 {
        1
    } else {
        2 * span_size(index / 2)
    }
}

/// The first block below the node with flat index `index`.
pub open spec fn span_start(index: nat) -> int {
    (index + 1 - span_size(index)) / 2
}

/// Whether the blocks below `roots`, taken in order, are the blocks
/// `[from, to)` with no gap and no overlap: each root starts at the block
/// at which the one before it ended.
pub open spec fn tiles(roots: Seq<u64>, from: nat, to: nat) -> bool
    decreases roots.len(),
{
    if roots.len() == 0 {
        from == to
    } else {
        &&& span_start(roots[0] as nat) == from
        &&& tiles(roots.drop_first(), from + span_size(roots[0] as nat), to)
    }
}

/// A multiple of `d` leaves no remainder when divided by `d`.
proof fn lemma_multiple(x: int, d: int, q: int)
    requires
        d > 0,
        x == q * d,
    ensures
        x % d == 0,
        x / d == q,
{
    lemma_fundamental_div_mod_converse(x, d, q, 0);
}

/// What `d` divides is a multiple of `d`.
proof fn lemma_divisible(x: int, d: int)
    requires
        d > 0,
        x % d == 0,
    ensures
        x == (x / d) * d,
{
    lemma_fundamental_div_mod(x, d);
    assert(d * (x / d) == (x / d) * d) by (nonlinear_arith);
}

/// Of two powers of two, the smaller is at most half of the larger.
pub proof fn lemma_pow2_gap(a: nat, b: nat)
    requires
        is_pow2(a),
        is_pow2(b),
        a < b,
    ensures
        2 * a <= b,
    decreases b,
{
    if a > 1 {
        lemma_pow2_gap(a / 2, b / 2);
    }
}

/// A power of two divides every larger power of two.
pub proof fn lemma_pow2_divides(a: nat, b: nat)
    requires
        is_pow2(a),
        is_pow2(b),
        a <= b,
    ensures
        b % a == 0,
    decreases b,
{
    if a < b {
        lemma_pow2_gap(a, b);
        lemma_pow2_divides(a, b / 2);
        let half = b / 2;
        assert(b == 2 * half);
        lemma_divisible(half as int, a as int);
        let q = half as int / a as int;
        assert(2 * (q * a) == (2 * q) * a) by (nonlinear_arith);
        lemma_multiple(b as int, a as int, 2 * q);
    } else {
        lemma_multiple(b as int, a as int, 1);
    }
}

/// The node that heads the full subtree over the blocks
/// `[start, start + size)` has exactly these blocks below it.
pub proof fn lemma_span_of_subtree_root(start: nat, size: nat)
    requires
        is_pow2(size),
        start % size == 0,
    ensures
        span_size(subtree_root(start, size) as nat) == size,
        span_start(subtree_root(start, size) as nat) == start,
    decreases size,
{
    let index = subtree_root(start, size) as nat;
    if size > 1 {
        let half = size / 2;
        let below = start / 2;
        assert(size == 2 * half);
        lemma_divisible(start as int, size as int);
        let q = start as int / size as int;
        assert(q * (2 * half) == (q * half) * 2) by (nonlinear_arith);
        lemma_multiple(start as int, 2, q * half);
        lemma_multiple(below as int, half as int, q);
        assert(index == 2 * (start + half - 1) + 1);
        assert(index / 2 == subtree_root(below, half));
        lemma_span_of_subtree_root(below, half);
    }
}

/// The full-root set of a range of blocks is unique.
pub proof fn lemma_full_roots_unique(a: Seq<u64>, b: Seq<u64>, from: nat, count: nat)
    requires
        is_full_roots(a, from, count),
        is_full_roots(b, from, count),
    ensures
        a == b,
    decreases a.len(),
{
    if a.len() == 0 || b.len() == 0 {
        assert(a =~= b);
    } else {
        let size_a = (a[0] + 1 - 2 * from) as nat;
        let size_b = (b[0] + 1 - 2 * from) as nat;
        if size_a < size_b {
            lemma_pow2_gap(size_a, size_b);
        }
        if size_b < size_a {
            lemma_pow2_gap(size_b, size_a);
        }
        lemma_full_roots_unique(
            a.drop_first(),
            b.drop_first(),
            from + size_a,
            (count - size_a) as nat,
        );
        assert(a =~= seq![a[0]] + a.drop_first());
        assert(b =~= seq![b[0]] + b.drop_first());
    }
}

/// Every full root of the blocks `[from, from + count)` lies within the flat
/// indices of these blocks, and the roots ascend.
pub proof fn lemma_full_roots_ascend(roots: Seq<u64>, from: nat, count: nat)
    requires
        is_full_roots(roots, from, count),
    ensures
        forall|k: int| 0 <= k < roots.len() ==> 2 * from <= #[trigger] roots[k] < 2 * (from + count),
        forall|i: int, j: int| 0 <= i < j < roots.len() ==> roots[i] < roots[j],
    decreases roots.len(),
{
    if roots.len() > 0 {
        let size = (roots[0] + 1 - 2 * from) as nat;
        let rest = roots.drop_first();
        lemma_full_roots_ascend(rest, from + size, (count - size) as nat);
        assert forall|k: int| 0 <= k < roots.len() implies 2 * from <= #[trigger] roots[k] < 2 * (
        from + count) by {
            if k > 0 {
                assert(roots[k] == rest[k - 1]);
            }
        }
        assert forall|i: int, j: int| 0 <= i < j < roots.len() implies roots[i] < roots[j] by {
            assert(roots[j] == rest[j - 1]);
            if i > 0 {
                assert(roots[i] == rest[i - 1]);
            }
        }
    }
}

/// The full roots of the blocks `[from, from + count)` tile these blocks,
/// where `from` is a multiple of every power of two up to `count`.
proof fn lemma_full_roots_tile_from(roots: Seq<u64>, from: nat, count: nat)
    requires
        is_full_roots(roots, from, count),
        forall|s: nat| #[trigger] is_pow2(s) && s <= count ==> from % s == 0,
    ensures
        tiles(roots, from, from + count),
    decreases roots.len(),
{
    if roots.len() > 0 {
        let size = (roots[0] + 1 - 2 * from) as nat;
        let rest = (count - size) as nat;
        assert(roots[0] as nat == subtree_root(from, size));
        lemma_span_of_subtree_root(from, size);
        assert forall|s: nat| #[trigger] is_pow2(s) && s <= rest implies (from + size) % s == 0 by {
            lemma_pow2_divides(s, size);
            lemma_divisible(from as int, s as int);
            lemma_divisible(size as int, s as int);
            let q1 = from as int / s as int;
            let q2 = size as int / s as int;
            assert((q1 + q2) * s == q1 * s + q2 * s) by (nonlinear_arith);
            lemma_multiple((from + size) as int, s as int, q1 + q2);
        }
        lemma_full_roots_tile_from(roots.drop_first(), from + size, rest);
    }
}

/// The blocks below the full roots of `count` blocks are exactly the blocks
/// `[0, count)`, with no gap and no overlap.
pub proof fn lemma_full_roots_tile(roots: Seq<u64>, count: nat)
    requires
        is_full_roots(roots, 0, count),
    ensures
        tiles(roots, 0, count),
{
    assert forall|s: nat| #[trigger] is_pow2(s) && s <= count implies 0nat % s == 0 by {
        lemma_multiple(0, s as int, 0);
    }
    lemma_full_roots_tile_from(roots, 0, count);
}

/// Whether block `block` lies below the node with flat index `root`.
pub open spec fn is_below(root: u64, block: int) -> bool {
    span_start(root as nat) <= block < span_start(root as nat) + span_size(root as nat)
}

/// Whether block `block` lies below one of `roots`.
pub open spec fn is_covered(roots: Seq<u64>, block: int) -> bool {
    exists|k: int| 0 <= k < roots.len() && #[trigger] is_below(roots[k], block)
}

/// Every node has at least one block below it.
pub proof fn lemma_span_size_positive(index: nat)
    ensures
        span_size(index) >= 1,
    decreases index,
{
    if index % 2 != 0 {
        lemma_span_size_positive(index / 2);
    }
}

/// Roots that tile the blocks `[from, to)` have each of these blocks below
/// one of them, no other block below any of them, and no block below two of
/// them.
pub proof fn lemma_tiles_cover(roots: Seq<u64>, from: nat, to: nat)
    requires
        tiles(roots, from, to),
    ensures
        from <= to,
        forall|block: int| from <= block < to ==> #[trigger] is_covered(roots, block),
        forall|k: int, block: int|
            0 <= k < roots.len() && #[trigger] is_below(roots[k], block) ==> from <= block < to,
        forall|i: int, j: int, block: int|
            0 <= i < j < roots.len() && #[trigger] is_below(roots[i], block) ==> !#[trigger] is_below(
                roots[j],
                block,
            ),
    decreases roots.len(),
{
    if roots.len() > 0 {
        let rest = roots.drop_first();
        let size = span_size(roots[0] as nat);
        lemma_span_size_positive(roots[0] as nat);
        lemma_tiles_cover(rest, from + size, to);
        assert forall|block: int| from <= block < to implies #[trigger] is_covered(
            roots,
            block,
        ) by {
            if block < from + size {
                assert(is_below(roots[0], block));
            } else {
                assert(is_covered(rest, block));
                let k = choose|k: int| 0 <= k < rest.len() && #[trigger] is_below(rest[k], block);
                assert(roots[k + 1] == rest[k]);
                assert(is_below(roots[k + 1], block));
            }
        }
        assert forall|k: int, block: int|
            0 <= k < roots.len() && #[trigger] is_below(roots[k], block) implies from <= block
            < to by {
            if k > 0 {
                assert(roots[k] == rest[k - 1]);
                assert(is_below(rest[k - 1], block));
            }
        }
        assert forall|i: int, j: int, block: int|
            0 <= i < j < roots.len() && #[trigger] is_below(roots[i], block) implies !#[trigger] is_below(
            roots[j],
            block,
        ) by {
            assert(roots[j] == rest[j - 1]);
            if is_below(roots[j], block) {
                assert(is_below(rest[j - 1], block));
                if i > 0 {
                    assert(roots[i] == rest[i - 1]);
                    assert(is_below(rest[i - 1], block));
                }
            }
        }
    }
}

/// The full roots of `count` blocks cover the blocks `[0, count)` exactly:
/// every such block lies below one root, no other block lies below a root,
/// and no block lies below two roots.
pub proof fn lemma_full_roots_cover(roots: Seq<u64>, count: nat)
    requires
        is_full_roots(roots, 0, count),
    ensures
        forall|block: int| 0 <= block < count ==> #[trigger] is_covered(roots, block),
        forall|k: int, block: int|
            0 <= k < roots.len() && #[trigger] is_below(roots[k], block) ==> 0 <= block < count,
        forall|i: int, j: int, block: int|
            0 <= i < j < roots.len() && #[trigger] is_below(roots[i], block) ==> !#[trigger] is_below(
                roots[j],
                block,
            ),
{
    lemma_full_roots_tile(roots, count);
    lemma_tiles_cover(roots, 0, count);
}

} // verus!
