//! The capability of locating a node in a tree: a finite sequence of
//! child indices, read from the root downward.

use vstd::prelude::*;

verus! {

/// A sequence of child indices locating a node in a widget tree.
///
/// Tree navigation ([`crate::Widget::get`], [`crate::Widget::index`]) is
/// written against this capability rather than against one concrete path
/// type.  An implementation exposes its indices through
/// [`TreePath::segments_spec`], and every executable method is pinned to that
/// one mathematical sequence.
pub trait TreePath {
    /// The indices of this path, root first.
    spec fn segments_spec(&self) -> Seq<usize>;

    /// The number of segments.
    fn segment_count(&self) -> (n: usize)
        ensures
            n == self.segments_spec().len(),
    ;

    /// The `i`-th segment, counted from the root.
    fn segment(&self, i: usize) -> (s: usize)
        requires
            i < self.segments_spec().len(),
        ensures
            s == self.segments_spec()[i as int],
    ;

    /// All segments, as a vector, root first.
    fn segments(&self) -> (v: Vec<usize>)
        ensures
            v@ == self.segments_spec(),
    ;
}

impl TreePath for Vec<usize> {
    open spec fn segments_spec(&self) -> Seq<usize> {
        self@
    }

    fn segment_count(&self) -> (n: usize) {
        self.len()
    }

    fn segment(&self, i: usize) -> (s: usize) {
        self[i]
    }

    fn segments(&self) -> (v: Vec<usize>) {
        let mut v: Vec<usize> = Vec::new();
        let n: usize = self.len();
        let mut i: usize = 0;
        #[verifier::loop_isolation(false)]
        while i < n
            invariant
                i <= n,
                v@.len() == i,
                forall|j: int| 0 <= j < i ==> v@[j] == self@[j],
            decreases n - i,
        {
            v.push(self[i]);
            i += 1;
        }
        proof {
            assert(v@ =~= self@);
        }
        v
    }
}

} // verus!
