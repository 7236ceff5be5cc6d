//! An ordered binary tree, with insertion by comparison, an in-order walk
//! that collects the elements, and a stack-based in-order cursor over a
//! borrowed tree.

use vstd::prelude::*;
use vstd::pervasive::cloned;
use vstd::std_specs::cmp::PartialOrdIs;
use vstd::std_specs::cmp::PartialOrdSpec;

verus! {

/// An ordered collection of `T`s.
pub enum BinaryTree<T> {
    Empty,
    NonEmpty(Box<TreeNode<T>>),
}

/// A part of a `BinaryTree`: one element with its two subtrees.
pub struct TreeNode<T> {
    pub element: T,
    pub left: BinaryTree<T>,
    pub right: BinaryTree<T>,
}

impl<T> BinaryTree<T> {
    /// The elements in symmetric order: those of the left subtree, then the
    /// node's own element, then those of the right subtree.
    pub open spec fn in_order(self) -> Seq<T>
        decreases self,
    {
        match self {
            BinaryTree::Empty => Seq::empty(),
            BinaryTree::NonEmpty(node) => node.left.in_order() + seq![node.element]
                + node.right.in_order(),
        }
    }
}

impl<T: Ord> BinaryTree<T> {
    /// The tree that `add` builds: the value descends into the left subtree
    /// where it compares less than or equal to the element at the node, into
    /// the right subtree otherwise, and fills the first empty spot it
    /// reaches.
    pub open spec fn spec_add(self, value: T) -> BinaryTree<T>
        decreases self,
    {
        match self {
            BinaryTree::Empty => BinaryTree::NonEmpty(
                Box::new(
                    TreeNode {
                        element: value,
                        left: BinaryTree::Empty,
                        right: BinaryTree::Empty,
                    },
                ),
            ),
            BinaryTree::NonEmpty(node) => if value.is_le(&node.element) {
                BinaryTree::NonEmpty(
                    Box::new(
                        TreeNode {
                            element: node.element,
                            left: node.left.spec_add(value),
                            right: node.right,
                        },
                    ),
                )
            } else {
                BinaryTree::NonEmpty(
                    Box::new(
                        TreeNode {
                            element: node.element,
                            left: node.left,
                            right: node.right.spec_add(value),
                        },
                    ),
                )
            },
        }
    }

    /// Insert `value` by comparison: left of elements it does not exceed,
    /// right of elements it exceeds. The in-order content gains `value` at
    /// one position and keeps every other element in its old order; where
    /// the element type's comparison obeys its specification, the resulting
    /// tree is exactly `spec_add`.
    pub fn add(&mut self, value: T)
        ensures
            final(self).in_order().len() == old(self).in_order().len() + 1,
            exists|i: int|
                0 <= i <= old(self).in_order().len() && final(self).in_order() == old(
                    self,
                ).in_order().insert(i, value),
            T::obeys_partial_cmp_spec() ==> *final(self) == old(self).spec_add(value),
        decreases *old(self),
    {
        match self {
            BinaryTree::Empty => {
                *self = BinaryTree::NonEmpty(
                    Box::new(
                        TreeNode {
                            element: value,
                            left: BinaryTree::Empty,
                            right: BinaryTree::Empty,
                        },
                    ),
                );
                proof {
                    assert(self.in_order() =~= old(self).in_order().insert(0, value));
                }
            },
            BinaryTree::NonEmpty(node) => {
                let ghost prior = **node;
                if value.le(&node.element) {
                    node.left.add(value);
                    proof {
                        let i = choose|i: int|
                            0 <= i <= prior.left.in_order().len() && node.left.in_order()
                                == prior.left.in_order().insert(i, value);
                        assert(self.in_order() =~= old(self).in_order().insert(i, value));
                    }
                } else {
                    node.right.add(value);
                    proof {
                        let i = choose|i: int|
                            0 <= i <= prior.right.in_order().len() && node.right.in_order()
                                == prior.right.in_order().insert(i, value);
                        let j = prior.left.in_order().len() + 1 + i;
                        assert(self.in_order() =~= old(self).in_order().insert(j, value));
                    }
                }
            },
        }
    }
}

impl<T: Clone> BinaryTree<T> {
    /// Collect the elements in symmetric order. Each returned element is a
    /// clone of the corresponding element of the tree.
    pub fn walk(&self) -> (r: Vec<T>)
        ensures
            r@.len() == self.in_order().len(),
            forall|i: int| 0 <= i < r@.len() ==> cloned(self.in_order()[i], #[trigger] r@[i]),
        decreases self,
    {
        match self {
            BinaryTree::Empty => Vec::new(),
            BinaryTree::NonEmpty(node) => {
                let mut result = node.left.walk();
                result.push(node.element.clone());
                let mut rest = node.right.walk();
                result.append(&mut rest);
                result
            },
        }
    }
}

/// The state of an in-order traversal of a borrowed `BinaryTree`: a stack of
/// references to tree nodes, the node to visit next on top (at the end of
/// the vector), with its still unvisited ancestors below it. When the stack
/// is empty, the traversal is over.
pub struct TreeIter<'a, T> {
    pub unvisited: Vec<&'a TreeNode<T>>,
}

impl<'a, T> TreeIter<'a, T> {
    /// The elements a stack still has to yield: for each node from the top
    /// of the stack down, its element followed by its right subtree's
    /// in-order content.
    pub open spec fn stack_remaining(stack: Seq<&'a TreeNode<T>>) -> Seq<T>
        decreases stack.len(),
    {
        if stack.len() == 0 {
            Seq::empty()
        } else {
            seq![stack.last().element] + stack.last().right.in_order()
                + Self::stack_remaining(stack.drop_last())
        }
    }

    /// The elements this traversal still has to yield.
    pub open spec fn spec_remaining(&self) -> Seq<T> {
        Self::stack_remaining(self.unvisited@)
    }

    /// Push the node at the root of `tree` and every node down its left
    /// edge: afterwards the traversal yields `tree`'s in-order content
    /// before everything it already had to yield.
    pub fn push_left_edge(&mut self, tree: &'a BinaryTree<T>)
        ensures
            final(self).spec_remaining() == tree.in_order() + old(self).spec_remaining(),
    {
        let mut t = tree;
        loop
            invariant
                t.in_order() + self.spec_remaining() == tree.in_order() + old(
                    self,
                ).spec_remaining(),
            ensures
                self.spec_remaining() == tree.in_order() + old(self).spec_remaining(),
            decreases t,
        {
            match t {
                BinaryTree::Empty => {
                    break;
                },
                BinaryTree::NonEmpty(node) => {
                    let ghost s = self.unvisited@;
                    let ghost t0 = *t;
                    self.unvisited.push(&**node);
                    t = &node.left;
                    proof {
                        assert(self.unvisited@.drop_last() =~= s);
                        assert(Self::stack_remaining(self.unvisited@) == seq![node.element]
                            + node.right.in_order() + Self::stack_remaining(s));
                        assert(t.in_order() + self.spec_remaining() =~= t0.in_order()
                            + Self::stack_remaining(s));
                    }
                },
            }
        }
    }

    /// Yield the next element in symmetric order, or `None` once every
    /// element has been yielded.
    pub fn next(&mut self) -> (r: Option<&'a T>)
        ensures
            old(self).spec_remaining().len() == 0 ==> r is None
                && final(self).spec_remaining() == old(self).spec_remaining(),
            old(self).spec_remaining().len() > 0 ==> (
                r matches Some(e) && *e == old(self).spec_remaining()[0]
                && final(self).spec_remaining() == old(self).spec_remaining().skip(1)
            ),
    {
        // Find the node this iteration must produce, or finish the
        // traversal.
        let node = match self.unvisited.pop() {
            Some(n) => n,
            None => {
                return None;
            },
        };
        // After `node`, the next elements come from the leftmost path of its
        // right subtree, so push that path.
        self.push_left_edge(&node.right);
        proof {
            assert(self.spec_remaining() =~= old(self).spec_remaining().skip(1));
        }
        Some(&node.element)
    }
}

impl<T> BinaryTree<T> {
    /// Start an in-order traversal of this tree: the cursor will yield the
    /// in-order content from the first element on.
    pub fn iter(&self) -> (it: TreeIter<'_, T>)
        ensures
            it.spec_remaining() == self.in_order(),
    {
        let mut iter = TreeIter { unvisited: Vec::new() };
        iter.push_left_edge(self);
        proof {
            assert(iter.spec_remaining() =~= self.in_order());
        }
        iter
    }
}

} // verus!
