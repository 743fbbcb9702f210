//! Recursive sizes of files and directory subtrees.
//!
//! A subtree is described by what was read of it: a file with its length, a
//! directory with its children, or something that is neither. A read that
//! failed is recorded as `None`, and counts as nothing.

use vstd::prelude::*;

verus! {

/// What was found at one path of the filesystem.
pub enum FsNode {
    /// A regular file, with its length, or `None` where its metadata could not be read.
    File(Option<u64>),
    /// A directory, with its children, or `None` where it could not be listed.
    Dir(Option<Vec<FsNode>>),
    /// Neither a file nor a directory (a broken link, a special file, nothing).
    Other,
}

/// The total size of a subtree: a file's length, the sum over a directory's
/// children, and zero for what could not be read or is neither.
pub open spec fn node_size(n: FsNode) -> nat
    decreases n, 0nat,
{
    match n {
        FsNode::File(Some(len)) => len as nat,
        FsNode::Dir(Some(children)) => children_size(children@),
        _ => 0,
    }
}

/// The sum of the sizes of a sequence of subtrees.
pub open spec fn children_size(s: Seq<FsNode>) -> nat
    decreases s, s.len(),
{
    if s.len() == 0 {
        0
    } else {
        children_size(s.drop_last()) + node_size(s.last())
    }
}

/// The size of a subtree as a `u64`, held at `u64::MAX` where the true sum is larger.
pub fn size_of(node: &FsNode) -> (r: u64)
    ensures
        r == if node_size(*node) <= u64::MAX { node_size(*node) } else { u64::MAX as nat },
    decreases node,
{
    match node {
        FsNode::File(Some(len)) => *len,
        FsNode::Dir(Some(children)) => {
            let mut total: u64 = 0;
            let mut i: usize = 0;
            while i < children.len()
                invariant
                    *node == FsNode::Dir(Some(*children)),
                    i <= children@.len(),
                    total == if children_size(children@.subrange(0, i as int)) <= u64::MAX {
                        children_size(children@.subrange(0, i as int))
                    } else {
                        u64::MAX as nat
                    },
                decreases children@.len() - i,
            {
                proof {
                    assert(decreases_to!(*node => (*node)->Dir_0));
                    assert(decreases_to!((*node)->Dir_0 => (*node)->Dir_0->Some_0));
                    assert(decreases_to!(*children => children@));
                    assert(decreases_to!(children@ => children@[i as int]));
                    assert(decreases_to!(*node => children@[i as int]));
                }
                let part = size_of(&children[i]);
                proof {
                    assert(children@.subrange(0, i + 1).drop_last() =~= children@.subrange(0, i as int));
                }
                total = total.saturating_add(part);
                i = i + 1;
            }
            assert(children@.subrange(0, children@.len() as int) =~= children@);
            total
        },
        _ => 0,
    }
}

/// The sum of a sequence of naturals.
pub open spec fn sum(s: Seq<nat>) -> nat
    decreases s.len(),
{
    if s.len() == 0 {
        0
    } else {
        sum(s.drop_last()) + s.last()
    }
}

/// The lengths of the readable files anywhere in a subtree, in listing order.
pub open spec fn leaf_lengths(n: FsNode) -> Seq<nat>
    decreases n, 0nat,
{
    match n {
        FsNode::File(Some(len)) => seq![len as nat],
        FsNode::Dir(Some(children)) => children_leaf_lengths(children@),
        _ => Seq::empty(),
    }
}

/// The lengths of the readable files anywhere under a sequence of subtrees.
pub open spec fn children_leaf_lengths(s: Seq<FsNode>) -> Seq<nat>
    decreases s, s.len(),
{
    if s.len() == 0 {
        Seq::empty()
    } else {
        children_leaf_lengths(s.drop_last()) + leaf_lengths(s.last())
    }
}

/// Whether every node of `s` is a file whose length was read.
pub open spec fn all_files(s: Seq<FsNode>) -> bool {
    forall|i: int| 0 <= i < s.len() ==> (#[trigger] s[i]) matches FsNode::File(Some(_))
}

/// The lengths of a sequence of files whose lengths were read.
pub open spec fn file_lengths(s: Seq<FsNode>) -> Seq<nat> {
    s.map_values(|c: FsNode| c->File_0->Some_0 as nat)
}

proof fn lemma_sum_concat(a: Seq<nat>, b: Seq<nat>)
    ensures
        sum(a + b) == sum(a) + sum(b),
    decreases b.len(),
{
    if b.len() > 0 {
        lemma_sum_concat(a, b.drop_last());
        assert((a + b).drop_last() =~= a + b.drop_last());
    } else {
        assert(a + b =~= a);
    }
}

proof fn lemma_sum_bounds_each(s: Seq<nat>, i: int)
    requires
        0 <= i < s.len(),
    ensures
        s[i] <= sum(s),
    decreases s.len(),
{
    if i < s.len() - 1 {
        lemma_sum_bounds_each(s.drop_last(), i);
    }
}

proof fn lemma_children_leaves(s: Seq<FsNode>)
    ensures
        children_size(s) == sum(children_leaf_lengths(s)),
    decreases s, s.len(),
{
    if s.len() > 0 {
        lemma_children_leaves(s.drop_last());
        lemma_node_leaves(s.last());
        lemma_sum_concat(children_leaf_lengths(s.drop_last()), leaf_lengths(s.last()));
    }
}

proof fn lemma_node_leaves(n: FsNode)
    ensures
        node_size(n) == sum(leaf_lengths(n)),
    decreases n, 0nat,
{
    match n {
        FsNode::File(Some(len)) => {
            let one = seq![len as nat];
            assert(one.drop_last() =~= Seq::<nat>::empty());
            assert(sum(one.drop_last()) == 0);
            assert(sum(one) == sum(one.drop_last()) + one.last());
        },
        FsNode::Dir(Some(children)) => {
            lemma_children_leaves(children@);
        },
        _ => {},
    }
}

/// A file whose length was read has that length as its size.
pub proof fn law_file_size(len: u64)
    ensures
        node_size(FsNode::File(Some(len))) == len,
{
}

/// A directory that holds only files has the sum of their lengths as its size.
pub proof fn law_flat_directory_size(children: Vec<FsNode>)
    requires
        all_files(children@),
    ensures
        node_size(FsNode::Dir(Some(children))) == sum(file_lengths(children@)),
{
    lemma_node_leaves(FsNode::Dir(Some(children)));
    lemma_flat_leaves(children@);
}

proof fn lemma_flat_leaves(s: Seq<FsNode>)
    requires
        all_files(s),
    ensures
        children_leaf_lengths(s) == file_lengths(s),
    decreases s.len(),
{
    if s.len() > 0 {
        lemma_flat_leaves(s.drop_last());
        assert(s.drop_last().map_values(|c: FsNode| c->File_0->Some_0 as nat)
            =~= file_lengths(s).drop_last());
        assert(s.last() == s[s.len() - 1]);
        assert(leaf_lengths(s.last()) =~= seq![file_lengths(s).last()]);
        assert(children_leaf_lengths(s) =~= file_lengths(s));
    } else {
        assert(file_lengths(s) =~= Seq::<nat>::empty());
    }
}

/// The size of any subtree, however deeply nested, is the sum of the lengths
/// of all the readable files in it, and so at least the length of each of them.
pub proof fn law_nested_size(n: FsNode)
    ensures
        node_size(n) == sum(leaf_lengths(n)),
        forall|i: int| 0 <= i < leaf_lengths(n).len() ==> #[trigger] leaf_lengths(n)[i] <= node_size(n),
{
    lemma_node_leaves(n);
    assert forall|i: int| 0 <= i < leaf_lengths(n).len() implies #[trigger] leaf_lengths(n)[i] <= node_size(n) by {
        lemma_sum_bounds_each(leaf_lengths(n), i);
    }
}

} // verus!
