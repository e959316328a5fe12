//! Root nodes of a feed and the slots into which persisted nodes are placed.

use vstd::prelude::*;
use crate::error::Corruption;
use crate::error::FeedError;

verus! {

/// A node of the Merkle tree: its flat index, its hash and the number of
/// bytes in the blocks below it.
#[derive(Debug, Clone, PartialEq, Eq)]
pub struct Node {
    pub index: u64,
    pub hash: Vec<u8>,
    pub length: u64,
}

/// The sum of the byte lengths of `nodes`.
pub open spec fn total_length(nodes: Seq<Node>) -> nat
    decreases nodes.len(),
{
    if nodes.len() == 0 {
        0
    } else {
        total_length(nodes.drop_last()) + nodes.last().length as nat
    }
}

/// The flat indices of `nodes`, in order.
pub open spec fn indices(nodes: Seq<Node>) -> Seq<u64> {
    Seq::new(nodes.len(), |k: int| nodes[k].index)
}

/// Whether `k` is the first slot of `slots` that holds no node.
pub open spec fn is_first_empty(slots: Seq<Option<Node>>, k: int) -> bool {
    &&& 0 <= k < slots.len()
    &&& slots[k] is None
    &&& forall|j: int| 0 <= j < k ==> slots[j] is Some
}

/// Whether every slot of `slots` holds a node.
pub open spec fn all_filled(slots: Seq<Option<Node>>) -> bool {
    forall|k: int| 0 <= k < slots.len() ==> (#[trigger] slots[k]) is Some
}

/// A longer run of nodes has at least the total length of its beginning.
pub proof fn lemma_total_length_prefix(nodes: Seq<Node>, n: int)
    requires
        0 <= n <= nodes.len(),
    ensures
        total_length(nodes.subrange(0, n)) <= total_length(nodes),
    decreases nodes.len(),
{
    if n < nodes.len() {
        lemma_total_length_prefix(nodes.drop_last(), n);
        assert(nodes.drop_last().subrange(0, n) =~= nodes.subrange(0, n));
    } else {
        assert(nodes.subrange(0, n) =~= nodes);
    }
}

/// Slots that are not all filled have a first empty slot.
pub proof fn lemma_first_empty_exists(slots: Seq<Option<Node>>)
    requires
        !all_filled(slots),
    ensures
        exists|k: int| is_first_empty(slots, k),
    decreases slots.len(),
{
    let j = choose|j: int| 0 <= j < slots.len() && !(slots[j] is Some);
    if exists|i: int| 0 <= i < j && slots[i] is None {
        let i = choose|i: int| 0 <= i < j && slots[i] is None;
        let shorter = slots.subrange(0, j);
        assert(shorter[i] is None);
        lemma_first_empty_exists(shorter);
        let k = choose|k: int| is_first_empty(shorter, k);
        assert(is_first_empty(slots, k)) by {
            assert(forall|m: int| 0 <= m < k ==> shorter[m] == slots[m]);
        }
    } else {
        assert(is_first_empty(slots, j));
    }
}

/// The sum of the byte lengths of `nodes`, or `None` where it is more than
/// `u64` holds.
pub fn byte_length(nodes: &Vec<Node>) -> (r: Option<u64>)
    ensures
        r is Some <==> total_length(nodes@) <= u64::MAX,
        r matches Some(sum) ==> sum == total_length(nodes@),
{
    let mut sum: u64 = 0;
    let mut k: usize = 0;
    while k < nodes.len()
        invariant
            k <= nodes.len(),
            sum == total_length(nodes@.subrange(0, k as int)),
        decreases nodes.len() - k,
    {
        proof {
            assert(nodes@.subrange(0, k + 1).drop_last() =~= nodes@.subrange(0, k as int));
            lemma_total_length_prefix(nodes@, k + 1);
        }
        match sum.checked_add(nodes[k].length) {
            Some(next) => {
                sum = next;
            },
            None => {
                return None;
            },
        }
        k += 1;
    }
    assert(nodes@.subrange(0, k as int) =~= nodes@);
    Some(sum)
}

#[derive(Debug)]
/// One slot for each expected root, filled as the persisted nodes arrive.
/// A slot only ever holds a node of the index that the slot expects.
pub struct RootSlots {
    expected: Vec<u64>,
    slots: Vec<Option<Node>>,
}

impl RootSlots {
    #[verifier::type_invariant]
    spec fn inv(self) -> bool {
        &&& self.slots@.len() == self.expected@.len()
        &&& forall|k: int|
            0 <= k < self.slots@.len() ==> ((#[trigger] self.slots@[k]) matches Some(node)
                ==> node.index == self.expected@[k])
    }

    /// The flat indices of the roots that are expected, slot by slot.
    pub closed spec fn expected(self) -> Seq<u64> {
        self.expected@
    }

    /// What each slot holds.
    pub closed spec fn slots(self) -> Seq<Option<Node>> {
        self.slots@
    }

    /// Empty slots for the roots `expected`.
    pub fn new(expected: Vec<u64>) -> (r: RootSlots)
        ensures
            r.expected() == expected@,
            r.slots() == Seq::new(expected@.len(), |k: int| None::<Node>),
    {
        let mut slots: Vec<Option<Node>> = Vec::new();
        let mut k: usize = 0;
        while k < expected.len()
            invariant
                k <= expected.len(),
                slots@ == Seq::new(k as nat, |j: int| None::<Node>),
            decreases expected.len() - k,
        {
            slots.push(None);
            k += 1;
            assert(slots@ =~= Seq::new(k as nat, |j: int| None::<Node>));
        }
        RootSlots { expected, slots }
    }

    /// The number of slots.
    pub fn len(&self) -> (n: usize)
        ensures
            n == self.expected().len(),
            n == self.slots().len(),
    {
        proof {
            use_type_invariant(self);
        }
        self.expected.len()
    }

    /// The flat index that slot `k` expects.
    pub fn expected_at(&self, k: usize) -> (index: u64)
        requires
            k < self.expected().len(),
        ensures
            index == self.expected()[k as int],
    {
        self.expected[k]
    }

    /// Puts `node` into slot `k`, for which it was fetched. A node whose
    /// index is not the one that the slot expects is refused.
    pub fn place(self, k: usize, node: Node) -> (r: Result<RootSlots, FeedError>)
        requires
            k < self.expected().len(),
        ensures
            node.index != self.expected()[k as int] ==> r == Err::<RootSlots, FeedError>(
                FeedError::CorruptIndex(
                    Corruption::WrongNode { expected: self.expected()[k as int], found: node.index },
                ),
            ),
            node.index == self.expected()[k as int] ==> (r matches Ok(placed) && {
                &&& placed.expected() == self.expected()
                &&& placed.slots() == self.slots().update(k as int, Some(node))
            }),
    {
        proof {
            use_type_invariant(&self);
        }
        let expected_index = self.expected[k];
        if node.index != expected_index {
            return Err(
                FeedError::CorruptIndex(
                    Corruption::WrongNode { expected: expected_index, found: node.index },
                ),
            );
        }
        let RootSlots { expected, mut slots } = self;
        slots.set(k, Some(node));
        Ok(RootSlots { expected, slots })
    }

    /// The nodes of all slots, in slot order. Where a slot is empty, the
    /// error names the index that the first empty slot expects.
    pub fn finish(self) -> (r: Result<Vec<Node>, FeedError>)
        ensures
            all_filled(self.slots()) ==> (r matches Ok(nodes) && {
                &&& nodes@.len() == self.slots().len()
                &&& forall|k: int| 0 <= k < nodes@.len() ==> self.slots()[k] == Some(nodes@[k])
                &&& indices(nodes@) == self.expected()
            }),
            forall|k: int|
                is_first_empty(self.slots(), k) ==> r == Err::<Vec<Node>, FeedError>(
                    FeedError::CorruptIndex(Corruption::MissingRoot { index: self.expected()[k] }),
                ),
    {
        proof {
            use_type_invariant(&self);
        }
        let RootSlots { expected, mut slots } = self;
        let ghost before = slots@;
        let mut reversed: Vec<Node> = Vec::new();
        let mut missing: Option<usize> = None;
        while slots.len() > 0
            invariant
                slots@.len() <= before.len(),
                slots@ == before.subrange(0, slots@.len() as int),
                before.len() == expected@.len(),
                match missing {
                    Some(m) => slots@.len() <= m < before.len() && before[m as int] is None
                        && forall|j: int| slots@.len() <= j < m ==> before[j] is Some,
                    None => forall|j: int| slots@.len() <= j < before.len() ==> before[j] is Some,
                },
                missing is None ==> reversed@.len() == before.len() - slots@.len(),
                missing is None ==> forall|j: int|
                    0 <= j < reversed@.len() ==> before[before.len() - 1 - j] == Some(
                        reversed@[j],
                    ),
            decreases slots@.len(),
        {
            let n = slots.len();
            match slots.pop() {
                Some(Some(node)) => {
                    if missing.is_none() {
                        reversed.push(node);
                    }
                },
                _ => {
                    missing = Some(n - 1);
                },
            }
        }
        match missing {
            Some(m) => {
                assert(is_first_empty(before, m as int)) by {
                    assert(forall|j: int| 0 <= j < m ==> before[j] is Some);
                }
                Err(FeedError::CorruptIndex(Corruption::MissingRoot { index: expected[m] }))
            },
            None => {
                let mut nodes: Vec<Node> = Vec::new();
                let ghost rev = reversed@;
                while reversed.len() > 0
                    invariant
                        rev.len() == before.len(),
                        reversed@ == rev.subrange(0, reversed@.len() as int),
                        nodes@.len() == rev.len() - reversed@.len(),
                        forall|j: int|
                            0 <= j < nodes@.len() ==> nodes@[j] == rev[rev.len() - 1 - j],
                    decreases reversed@.len(),
                {
                    match reversed.pop() {
                        Some(node) => {
                            nodes.push(node);
                        },
                        None => {},
                    }
                }
                assert(indices(nodes@) =~= expected@);
                Ok(nodes)
            },
        }
    }
}

} // verus!
