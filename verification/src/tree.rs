//! The tree index of a feed: a bitfield over flat-tree nodes, kept in the
//! paged bitfield of `sparse_bitfield` and read through `tree_index`.

use vstd::prelude::*;

verus! {

/// The paged bitfield of `sparse_bitfield`, taken as it is: its contents are
/// known only through `bitfield_bytes`.
#[verifier::external_type_specification]
#[verifier::external_body]
pub struct ExBitfield(sparse_bitfield::Bitfield);

/// The tree index of `tree_index`, taken as it is: its contents are known
/// only through `tree_bytes`.
#[verifier::external_type_specification]
#[verifier::external_body]
pub struct ExTreeIndex(tree_index::TreeIndex);

/// The bytes that a bitfield holds, from byte 0 up to the last byte that was
/// ever set.
pub uninterp spec fn bitfield_bytes(bitfield: sparse_bitfield::Bitfield) -> Seq<u8>;

/// The bytes of the bitfield inside a tree index.
pub uninterp spec fn tree_bytes(tree: tree_index::TreeIndex) -> Seq<u8>;

/// The number of committed blocks that `tree_index::TreeIndex::blocks` reads
/// off a tree index whose bitfield holds `bytes`.
pub uninterp spec fn committed_blocks(bytes: Seq<u8>) -> u64;

/// Most bytes that a persisted bitfield may have on any machine. Up to
/// this size no flat index that the tree index computes leaves `u64`.
pub const MAX_BITFIELD_BYTES: u64 = 0x0100_0000_0000_0000;

/// Whether a bitfield of `len` bytes is small enough for the tree index on
/// this machine. The tree index counts the bits of the bitfield in `usize`
/// and addresses them by flat indices that it computes in `u64` and then
/// takes as `usize`; these indices stay below 64 times the number of bytes.
/// Within this bound none of them leaves `u64` or `usize`, so the count of
/// bits does not overflow and every machine reads the same bits.
pub open spec fn fits_tree_index(len: nat) -> bool {
    len <= MAX_BITFIELD_BYTES && len <= usize::MAX / 64
}

/// `bytes` after byte `index` is set to `byte`: bytes between the old end and
/// `index` read as zero.
pub open spec fn with_byte(bytes: Seq<u8>, index: nat, byte: u8) -> Seq<u8> {
    if index < bytes.len() {
        bytes.update(index as int, byte)
    } else {
        bytes + Seq::new((index - bytes.len()) as nat, |i: int| 0u8) + seq![byte]
    }
}

/// Calls `Default::default` of `sparse_bitfield::Bitfield`, trusted to make
/// a bitfield that holds no byte.
#[verifier::external_body]
fn bitfield_empty() -> (bitfield: sparse_bitfield::Bitfield)
    ensures
        bitfield_bytes(bitfield) == Seq::<u8>::empty(),
{
    sparse_bitfield::Bitfield::default()
}

/// Calls `sparse_bitfield::Bitfield::set_byte`, trusted to store `byte` at
/// `index`, to extend the bitfield with zero bytes up to `index` where it
/// was shorter, and to change no other byte.
#[verifier::external_body]
fn bitfield_set_byte(bitfield: &mut sparse_bitfield::Bitfield, index: usize, byte: u8)
    requires
        index < usize::MAX,
    ensures
        bitfield_bytes(*final(bitfield)) == with_byte(
            bitfield_bytes(*old(bitfield)),
            index as nat,
            byte,
        ),
{
    bitfield.set_byte(index, byte);
}

/// Calls `tree_index::TreeIndex::new`, trusted to keep the bitfield as it is.
#[verifier::external_body]
fn tree_new(bitfield: sparse_bitfield::Bitfield) -> (tree: tree_index::TreeIndex)
    ensures
        tree_bytes(tree) == bitfield_bytes(bitfield),
{
    tree_index::TreeIndex::new(bitfield)
}

/// Calls `tree_index::TreeIndex::blocks`, trusted to read the bitfield
/// without changing it, to return a count that the bitfield's bytes alone
/// determine, and to return 0 for a bitfield that holds no byte. The call
/// multiplies the number of bytes by 8 in `usize` and casts the flat indices
/// it walks, which stay below 64 times the number of bytes, to `usize`; the
/// precondition keeps all of them within `u64` and within `usize`, whatever
/// the width of `usize`. Beyond it the call can overflow, or read other bits
/// on a narrower machine.
#[verifier::external_body]
fn tree_blocks(tree: &mut tree_index::TreeIndex) -> (blocks: u64)
    requires
        fits_tree_index(tree_bytes(*old(tree)).len()),
    ensures
        tree_bytes(*final(tree)) == tree_bytes(*old(tree)),
        blocks == committed_blocks(tree_bytes(*old(tree))),
        tree_bytes(*old(tree)).len() == 0 ==> blocks == 0,
{
    tree.blocks()
}

/// Builds the tree index over a persisted bitfield, byte for byte.
pub fn tree_from_bytes(bytes: &Vec<u8>) -> (tree: tree_index::TreeIndex)
    ensures
        tree_bytes(tree) == bytes@,
{
    let mut bitfield = bitfield_empty();
    let mut i: usize = 0;
    while i < bytes.len()
        invariant
            i <= bytes.len(),
            bitfield_bytes(bitfield) == bytes@.subrange(0, i as int),
        decreases bytes.len() - i,
    {
        bitfield_set_byte(&mut bitfield, i, bytes[i]);
        assert(bytes@.subrange(0, i as int) + Seq::new(0, |k: int| 0u8) + seq![bytes[i as int]]
            =~= bytes@.subrange(0, i + 1));
        i += 1;
    }
    assert(bytes@.subrange(0, i as int) == bytes@);
    tree_new(bitfield)
}

/// Builds the tree index over a persisted bitfield and reads the number of
/// committed blocks off it. `None` when the bitfield has more bytes than
/// the tree index can take on this machine.
pub fn load_tree(bytes: &Vec<u8>) -> (r: Option<(tree_index::TreeIndex, u64)>)
    ensures
        r.is_some() <==> fits_tree_index(bytes@.len()),
        r matches Some((tree, blocks)) ==> {
            &&& tree_bytes(tree) == bytes@
            &&& blocks == committed_blocks(bytes@)
            &&& (bytes@.len() == 0 ==> blocks == 0)
        },
{
    if bytes.len() as u64 > MAX_BITFIELD_BYTES || bytes.len() > usize::MAX / 64 {
        return None;
    }
    let mut tree = tree_from_bytes(bytes);
    let blocks = tree_blocks(&mut tree);
    Some((tree, blocks))
}

} // verus!
