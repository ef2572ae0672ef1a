//! The vertical container descriptor.

use vstd::prelude::*;

use crate::widget::lemma_views_of;
use crate::widget::views_of;
use crate::widget::Widget;
use crate::Kind;
use crate::Variant;

verus! {

broadcast use vstd::std_specs::vec::group_vec_axioms;

/// A container that stacks its children, in order.
///
/// The children are owned exclusively by the container: the tree shares no
/// nodes and has no cycles.
#[derive(Debug, Hash)]
pub struct Column<A> {
    /// The contained widgets, in display order.
    pub children: Vec<Widget<A>>,
}

impl<A> Default for Column<A> {
    fn default() -> (d: Self)
        ensures
            d.children@ == Seq::<Widget<A>>::empty(),
    {
        Column { children: Vec::new() }
    }
}

impl<A> Clone for Column<A> {
    /// A deep copy: the copy describes the same tree, node for node.
    fn clone(&self) -> (res: Self)
        ensures
            res.children@.len() == self.children@.len(),
            views_of(res.children@) == views_of(self.children@),
        decreases *self,
    {
        let mut children: Vec<Widget<A>> = Vec::new();
        let n: usize = self.children.len();
        let mut i: usize = 0;
        #[verifier::loop_isolation(false)]
        while i < n
            invariant
                i <= n,
                children@.len() == i,
                forall|j: int| 0 <= j < i ==> children@[j]@ == #[trigger] self.children@[j]@,
            decreases n - i,
        {
            proof {
                assert(decreases_to!(*self => self.children));
                assert(decreases_to!(self.children => self.children@[i as int]));
                assert(decreases_to!(*self => self.children@[i as int]));
            }
            let c = self.children[i].clone();
            children.push(c);
            i += 1;
        }
        proof {
            lemma_views_of(children@);
            lemma_views_of(self.children@);
            assert(views_of(children@) =~= views_of(self.children@));
        }
        Column { children }
    }
}

impl<A> PartialEq for Column<A> {
    /// Structural equality: the same number of children, pairwise equal.
    fn eq(&self, other: &Self) -> (r: bool)
        ensures
            r == (views_of(self.children@) == views_of(other.children@)),
        decreases *self,
    {
        proof {
            lemma_views_of(self.children@);
            lemma_views_of(other.children@);
        }
        let n: usize = self.children.len();
        if n != other.children.len() {
            return false;
        }
        let mut i: usize = 0;
        #[verifier::loop_isolation(false)]
        while i < n
            invariant
                i <= n,
                forall|j: int| 0 <= j < i ==> self.children@[j]@ == #[trigger] other.children@[j]@,
            decreases n - i,
        {
            proof {
                assert(decreases_to!(*self => self.children));
                assert(decreases_to!(self.children => self.children@[i as int]));
                assert(decreases_to!(*self => self.children@[i as int]));
            }
            let same: bool = self.children[i].eq(&other.children[i]);
            if !same {
                proof {
                    assert(views_of(self.children@)[i as int] != views_of(other.children@)[
                        i as int
                    ]);
                }
                return false;
            }
            i += 1;
        }
        proof {
            assert(views_of(self.children@) =~= views_of(other.children@));
        }
        true
    }
}

impl<A> Eq for Column<A> {}

impl<A> vstd::std_specs::cmp::PartialEqSpecImpl for Column<A> {
    open spec fn obeys_eq_spec() -> bool {
        true
    }

    open spec fn eq_spec(&self, other: &Self) -> bool {
        views_of(self.children@) == views_of(other.children@)
    }
}

impl<A> Kind<Widget<A>> for Column<A> {
    open spec fn widen_spec(self) -> Widget<A> {
        Widget::Column(self)
    }

    fn widen(self) -> (g: Widget<A>) {
        Widget::Column(self)
    }
}

impl<A> Variant<Widget<A>> for Column<A> {}

} // verus!
