use feed_store::error::{Corruption, FeedError};
use feed_store::flat::full_roots;
use feed_store::keys::accept_secret_key;
use feed_store::roots::{byte_length, Node, RootSlots};
use feed_store::tree::{load_tree, tree_from_bytes, MAX_BITFIELD_BYTES};
use tree_index::TreeIndex;

fn node(index: u64, length: u64) -> Node {
    Node { index, hash: vec![], length }
}

/// Whether the leaves below `roots` are the blocks `[0, blocks)`, each once
/// and in order.
fn covers(roots: &[u64], blocks: u64) -> bool {
    let mut next_leaf = 0;
    for root in roots {
        if flat_tree::left_span(*root) != next_leaf {
            return false;
        }
        next_leaf = flat_tree::right_span(*root) + 2;
    }
    next_leaf == 2 * blocks
}

#[test]
fn full_roots_cover_the_blocks_without_gap_or_overlap() {
    for blocks in [0u64, 1, 2, 3, 7, 1000] {
        let roots = full_roots(blocks).unwrap();
        assert!(covers(&roots, blocks), "{} blocks: {:?}", blocks, roots);
        assert!(roots.windows(2).all(|pair| pair[0] < pair[1]));
        assert_eq!(roots.len() as u32, blocks.count_ones());
    }
}

#[test]
fn full_roots_of_seven_blocks() {
    assert_eq!(full_roots(7), Some(vec![3, 9, 12]));
}

#[test]
fn full_roots_of_a_thousand_blocks() {
    assert_eq!(full_roots(1000), Some(vec![511, 1279, 1663, 1855, 1951, 1991]));
}

#[test]
fn full_roots_of_no_block() {
    assert_eq!(full_roots(0), Some(vec![]));
}

#[test]
fn full_roots_of_a_power_of_two() {
    assert_eq!(full_roots(1), Some(vec![0]));
    assert_eq!(full_roots(8), Some(vec![7]));
}

#[test]
fn full_roots_beyond_the_index_range() {
    assert_eq!(full_roots(u64::MAX / 2 + 1), None);
    let roots = full_roots(u64::MAX / 2).unwrap();
    assert_eq!(roots.len(), 63);
    assert!(covers(&roots, u64::MAX / 2));
}

#[test]
fn signing_keys_have_32_bytes() {
    let bytes: Vec<u8> = (100u8..132).collect();
    let key = accept_secret_key(&bytes).unwrap();
    assert_eq!(key.to_vec(), bytes);
    assert_eq!(accept_secret_key(&vec![0; 31]), None);
    assert_eq!(accept_secret_key(&vec![0; 33]), None);
    assert_eq!(accept_secret_key(&vec![]), None);
}

#[test]
fn the_tree_index_holds_the_bytes_of_the_bitfield() {
    let bytes = vec![0b1010_0000, 0, 0xff, 1];
    let tree = tree_from_bytes(&bytes);
    let bitfield = tree.as_bitfield();
    assert_eq!(bitfield.byte_len(), 4);
    for (at, byte) in bytes.iter().enumerate() {
        assert_eq!(bitfield.get_byte(at), *byte);
    }
    let mut tree = tree;
    assert!(tree.get(0));
    assert!(!tree.get(1));
    assert!(tree.get(2));
    assert!(tree.get(31));
}

#[test]
fn the_tree_index_of_no_byte_is_empty() {
    let tree = tree_from_bytes(&vec![]);
    assert_eq!(tree.as_bitfield().byte_len(), 0);
    let (_, blocks) = load_tree(&vec![]).unwrap();
    assert_eq!(blocks, 0);
}

#[test]
fn the_block_count_is_read_off_the_tree_index() {
    let mut tree = TreeIndex::default();
    for block in 0..7u64 {
        tree.set(2 * block);
    }
    let bytes = tree.as_bitfield().to_bytes().unwrap();
    let (mut loaded, blocks) = load_tree(&bytes).unwrap();
    assert_eq!(blocks, 7);
    assert_eq!(loaded.blocks(), tree.blocks());
    assert_eq!(loaded.as_bitfield().to_bytes().unwrap(), bytes);

    let (_, blocks) = load_tree(&vec![0b1000_0000]).unwrap();
    assert_eq!(blocks, 1);
    let (_, blocks) = load_tree(&vec![0b0100_0000]).unwrap();
    assert_eq!(blocks, 2);
    let (_, blocks) = load_tree(&vec![0b0000_0000, 0b0000_0001]).unwrap();
    assert_eq!(blocks, 16);
    let (_, blocks) = load_tree(&vec![0b0010_0000]).unwrap();
    assert_eq!(blocks, 0);
}

#[test]
fn the_bitfield_size_limit() {
    assert_eq!(MAX_BITFIELD_BYTES, 1 << 56);
}

#[test]
fn byte_length_adds_up() {
    assert_eq!(byte_length(&vec![node(3, 10), node(9, 20), node(12, 5)]), Some(35));
    assert_eq!(byte_length(&vec![]), Some(0));
    assert_eq!(byte_length(&vec![node(1, u64::MAX), node(4, 0)]), Some(u64::MAX));
    assert_eq!(byte_length(&vec![node(1, u64::MAX), node(4, 1)]), None);
}

#[test]
fn slots_take_the_nodes_fetched_for_them() {
    let slots = RootSlots::new(vec![3, 9, 12]);
    assert_eq!(slots.len(), 3);
    assert_eq!(slots.expected_at(1), 9);
    let slots = slots.place(2, node(12, 5)).unwrap();
    let slots = slots.place(0, node(3, 10)).unwrap();
    let slots = slots.place(1, node(9, 20)).unwrap();
    assert_eq!(slots.finish(), Ok(vec![node(3, 10), node(9, 20), node(12, 5)]));
}

#[test]
fn slots_refuse_a_node_of_another_index() {
    let slots = RootSlots::new(vec![3, 9, 12]);
    assert_eq!(
        slots.place(0, node(11, 1)).unwrap_err(),
        FeedError::CorruptIndex(Corruption::WrongNode { expected: 3, found: 11 })
    );
    let slots = RootSlots::new(vec![3, 9, 12]);
    assert_eq!(
        slots.place(0, node(9, 1)).unwrap_err(),
        FeedError::CorruptIndex(Corruption::WrongNode { expected: 3, found: 9 })
    );
}

#[test]
fn swapped_nodes_are_refused_by_the_slots() {
    let slots = RootSlots::new(vec![1, 4]);
    assert_eq!(
        slots.place(0, node(4, 1)).unwrap_err(),
        FeedError::CorruptIndex(Corruption::WrongNode { expected: 1, found: 4 })
    );
    let slots = RootSlots::new(vec![1, 4]);
    assert_eq!(
        slots.place(1, node(1, 1)).unwrap_err(),
        FeedError::CorruptIndex(Corruption::WrongNode { expected: 4, found: 1 })
    );
}

#[test]
fn slots_name_the_first_root_that_is_missing() {
    let slots = RootSlots::new(vec![3, 9, 12]);
    let slots = slots.place(0, node(3, 10)).unwrap();
    assert_eq!(
        slots.finish(),
        Err(FeedError::CorruptIndex(Corruption::MissingRoot { index: 9 }))
    );
    let slots = RootSlots::new(vec![3, 9, 12]);
    let slots = slots.place(2, node(12, 10)).unwrap();
    assert_eq!(
        slots.finish(),
        Err(FeedError::CorruptIndex(Corruption::MissingRoot { index: 3 }))
    );
    assert_eq!(RootSlots::new(vec![]).finish(), Ok(vec![]));
}
