//! The capability of producing a tree path: anything that can hand out the
//! sequence of child indices it stands for.

use vstd::prelude::*;

verus! {

/// A value that designates a node of a tree by a sequence of child indices.
///
/// Where [`crate::TreePath`] is the shape that tree navigation consumes,
/// `TreeIndex` is the shape that a caller holding some richer description of
/// a position implements to hand the plain index list out.
pub trait TreeIndex {
    /// The indices this value stands for, root first.
    spec fn path_spec(&self) -> Seq<usize>;

    /// Produce the index list, root first.
    fn path(&self) -> (p: Vec<usize>)
        ensures
            p@ == self.path_spec(),
    ;
}

impl TreeIndex for Vec<usize> {
    open spec fn path_spec(&self) -> Seq<usize> {
        self@
    }

    fn path(&self) -> (p: Vec<usize>) {
        let mut p: Vec<usize> = Vec::new();
        let n: usize = self.len();
        let mut i: usize = 0;
        #[verifier::loop_isolation(false)]
        while i < n
            invariant
                i <= n,
                p@.len() == i,
                forall|j: int| 0 <= j < i ==> p@[j] == self@[j],
            decreases n - i,
        {
            p.push(self[i]);
            i += 1;
        }
        proof {
            assert(p@ =~= self@);
        }
        p
    }
}

} // verus!
