//! The widget tree: a recursive, immutable union of five descriptor kinds,
//! with structural views, path lookup, deep copy and a structural hash.

mod button;
mod checkbox;
mod column;
mod entry;
mod row;

pub use button::Button;
pub use checkbox::Checkbox;
pub use column::Column;
pub use entry::Entry;
pub use row::Row;

use vstd::prelude::*;

use crate::handler::GenericHandler;
use crate::handler::OptionalHandler;
use crate::path::TreePath;
use crate::Kind;

verus! {

broadcast use vstd::std_specs::vec::group_vec_axioms;

/// A widget descriptor: one node of the tree a user interface is described
/// by.
///
/// Two kinds are containers holding an ordered child list; three are leaves
/// carrying a value and an optional handler.  A tree is built once and then
/// only read: every operation here is free of side effects.
#[derive(Debug, Hash)]
pub enum Widget<A> {
    /// A horizontal container.
    Row(Row<A>),
    /// A vertical container.
    Column(Column<A>),
    /// A button.
    Button(Button<A>),
    /// A text entry.
    Entry(Entry<A>),
    /// A checkbox.
    Checkbox(Checkbox<A>),
}

/// The mathematical shape of a widget tree: child lists as sequences, text
/// as character sequences, handlers as their stored shape and identity.
///
/// Structural statements about trees — what a deep copy preserves, what a
/// hash folds in — are made over this type.
#[verifier::ext_equal]
pub enum WidgetView {
    /// A horizontal container.
    Row {
        /// The children's views, in order.
        children: Seq<WidgetView>,
    },
    /// A vertical container.
    Column {
        /// The children's views, in order.
        children: Seq<WidgetView>,
    },
    /// A button.
    Button {
        /// The label text.
        label: Seq<char>,
        /// The stored click handler, if present.
        handler: Option<GenericHandler>,
    },
    /// A text entry.
    Entry {
        /// The current text.
        value: Seq<char>,
        /// The stored text handler, if present.
        handler: Option<GenericHandler>,
    },
    /// A checkbox.
    Checkbox {
        /// The label text.
        label: Seq<char>,
        /// The current state.
        value: bool,
        /// The stored toggle handler, if present.
        handler: Option<GenericHandler>,
    },
}

/// The stored shape and identity of an optional handler, if one is present.
pub open spec fn handler_view<W, E, A>(h: OptionalHandler<W, E, A>) -> Option<GenericHandler> {
    match h {
        OptionalHandler::Present(hh) => Some(hh.storage_spec()),
        OptionalHandler::Absent => None,
    }
}

/// The views of a sequence of widgets, in order.
pub open spec fn views_of<A>(s: Seq<Widget<A>>) -> Seq<WidgetView>
    decreases s,
{
    if s.len() == 0 {
        Seq::empty()
    } else {
        views_of(s.drop_last()).push(s.last()@)
    }
}

/// `views_of` maps a sequence pointwise: it keeps the length, and the view
/// at each position is the view of the widget there.
pub proof fn lemma_views_of<A>(s: Seq<Widget<A>>)
    ensures
        views_of(s).len() == s.len(),
        forall|i: int| 0 <= i < s.len() ==> views_of(s)[i] == s[i]@,
    decreases s.len(),
{
    if s.len() == 0 {
        assert(views_of(s) == Seq::<WidgetView>::empty());
    } else {
        lemma_views_of(s.drop_last());
        assert(views_of(s) == views_of(s.drop_last()).push(s.last()@));
        assert(views_of(s).len() == s.len());
        assert(forall|i: int| 0 <= i < s.len() - 1 ==> s.drop_last()[i] == s[i]);
        assert(forall|i: int| 0 <= i < s.len() ==> views_of(s)[i] == s[i]@);
    }
}

impl<A> View for Widget<A> {
    type V = WidgetView;

    open spec fn view(&self) -> WidgetView
        decreases self,
    {
        match self {
            Widget::Row(r) => WidgetView::Row { children: views_of(r.children@) },
            Widget::Column(c) => WidgetView::Column { children: views_of(c.children@) },
            Widget::Button(b) => WidgetView::Button {
                label: b.label@,
                handler: handler_view(b.handler),
            },
            Widget::Entry(e) => WidgetView::Entry {
                value: e.value@,
                handler: handler_view(e.handler),
            },
            Widget::Checkbox(c) => WidgetView::Checkbox {
                label: c.label@,
                value: c.value,
                handler: handler_view(c.handler),
            },
        }
    }
}

impl<A> Widget<A> {
    /// The child list of this node: the contained widgets of a container,
    /// and the empty sequence for a leaf.
    pub open spec fn children_spec(self) -> Seq<Widget<A>> {
        match self {
            Widget::Row(r) => r.children@,
            Widget::Column(c) => c.children@,
            _ => Seq::empty(),
        }
    }

    /// The ordered children of this node.  A leaf has none: the result is
    /// empty, never an error.
    pub fn children(&self) -> (cs: &[Widget<A>])
        ensures
            cs@ == self.children_spec(),
    {
        match self {
            Widget::Row(r) => r.children.as_slice(),
            Widget::Column(c) => c.children.as_slice(),
            _ => &[],
        }
    }

    /// The node reached from `self` by following `path`, one child index
    /// per step; `None` as soon as an index is out of range — in
    /// particular, any step below a leaf.  The empty path reaches `self`.
    pub open spec fn get_spec(self, path: Seq<usize>) -> Option<Widget<A>>
        decreases path.len(),
    {
        if path.len() == 0 {
            Some(self)
        } else {
            let cs = self.children_spec();
            if (path[0] as int) < cs.len() {
                cs[path[0] as int].get_spec(path.drop_first())
            } else {
                None
            }
        }
    }

    /// Walk from this node along `path`, indexing into the children at each
    /// step.
    ///
    /// Returns the node reached, or `None` the moment an index is out of
    /// range for the current node — a leaf's child list is empty, so any
    /// path into a leaf misses.  The empty path returns `self` itself.
    pub fn get<P: TreePath>(&self, path: &P) -> (r: Option<&Widget<A>>)
        ensures
            match r {
                Some(w) => self.get_spec(path.segments_spec()) == Some(*w),
                None => self.get_spec(path.segments_spec()) is None,
            },
    {
        let ghost segs = path.segments_spec();
        let mut cur: &Widget<A> = self;
        let n: usize = path.segment_count();
        let mut i: usize = 0;
        proof {
            assert(segs.skip(0) =~= segs);
        }
        #[verifier::loop_isolation(false)]
        while i < n
            invariant
                i <= n,
                self.get_spec(segs) == cur.get_spec(segs.skip(i as int)),
            decreases n - i,
        {
            let s: usize = path.segment(i);
            proof {
                assert(segs.skip(i as int).len() > 0);
                assert(segs.skip(i as int)[0] == segs[i as int]);
                assert(segs.skip(i as int).drop_first() =~= segs.skip(i as int + 1));
            }
            match cur {
                Widget::Row(row) => {
                    if s < row.children.len() {
                        cur = &row.children[s];
                    } else {
                        return None;
                    }
                },
                Widget::Column(col) => {
                    if s < col.children.len() {
                        cur = &col.children[s];
                    } else {
                        return None;
                    }
                },
                _ => {
                    return None;
                },
            }
            i += 1;
        }
        proof {
            assert(segs.skip(n as int).len() == 0);
        }
        Some(cur)
    }

    /// Walk from this node along `path`, for a path already known to be
    /// valid — one captured from this same tree, for instance.
    ///
    /// Where [`Widget::get`] reports a miss as `None`, a miss here is a
    /// programming error: the caller owes the proof that the path hits, and
    /// on a tree that does not contain the path this operation is
    /// unreachable.
    pub fn index<P: TreePath>(&self, path: &P) -> (r: &Widget<A>)
        requires
            self.get_spec(path.segments_spec()) is Some,
        ensures
            self.get_spec(path.segments_spec()) == Some(*r),
    {
        match self.get(path) {
            Some(w) => w,
            None => vstd::pervasive::unreached(),
        }
    }
}

impl<A> Kind<Widget<A>> for Widget<A> {
    open spec fn widen_spec(self) -> Widget<A> {
        self
    }

    fn widen(self) -> (g: Widget<A>) {
        self
    }
}

impl<A> From<Row<A>> for Widget<A> {
    fn from(w: Row<A>) -> (r: Self) {
        Widget::Row(w)
    }
}

impl<A> vstd::std_specs::convert::FromSpecImpl<Row<A>> for Widget<A> {
    open spec fn obeys_from_spec() -> bool {
        true
    }

    open spec fn from_spec(w: Row<A>) -> Self {
        Widget::Row(w)
    }
}

impl<A> From<Column<A>> for Widget<A> {
    fn from(w: Column<A>) -> (r: Self) {
        Widget::Column(w)
    }
}

impl<A> vstd::std_specs::convert::FromSpecImpl<Column<A>> for Widget<A> {
    open spec fn obeys_from_spec() -> bool {
        true
    }

    open spec fn from_spec(w: Column<A>) -> Self {
        Widget::Column(w)
    }
}

impl<A> From<Button<A>> for Widget<A> {
    fn from(w: Button<A>) -> (r: Self) {
        Widget::Button(w)
    }
}

impl<A> vstd::std_specs::convert::FromSpecImpl<Button<A>> for Widget<A> {
    open spec fn obeys_from_spec() -> bool {
        true
    }

    open spec fn from_spec(w: Button<A>) -> Self {
        Widget::Button(w)
    }
}

impl<A> From<Entry<A>> for Widget<A> {
    fn from(w: Entry<A>) -> (r: Self) {
        Widget::Entry(w)
    }
}

impl<A> vstd::std_specs::convert::FromSpecImpl<Entry<A>> for Widget<A> {
    open spec fn obeys_from_spec() -> bool {
        true
    }

    open spec fn from_spec(w: Entry<A>) -> Self {
        Widget::Entry(w)
    }
}

impl<A> From<Checkbox<A>> for Widget<A> {
    fn from(w: Checkbox<A>) -> (r: Self) {
        Widget::Checkbox(w)
    }
}

impl<A> vstd::std_specs::convert::FromSpecImpl<Checkbox<A>> for Widget<A> {
    open spec fn obeys_from_spec() -> bool {
        true
    }

    open spec fn from_spec(w: Checkbox<A>) -> Self {
        Widget::Checkbox(w)
    }
}

/// One mixing step of the structural hash: fold `x` into the state `h`.
pub open spec fn mix(h: u64, x: u64) -> u64 {
    h.wrapping_mul(31).wrapping_add(x)
}

/// The hash of a character sequence, folded left to right.
pub open spec fn str_hash(s: Seq<char>) -> u64
    decreases s,
{
    if s.len() == 0 {
        7
    } else {
        mix(str_hash(s.drop_last()), s.last() as u64)
    }
}

/// The hash of an optional handler: shape tag and identity where present,
/// a fixed tag where absent.
pub open spec fn opt_handler_hash(h: Option<GenericHandler>) -> u64 {
    match h {
        Some(g) => mix(
            match g {
                GenericHandler::A(_) => 1,
                GenericHandler::B(_) => 2,
                GenericHandler::C(_) => 3,
                GenericHandler::D(_) => 4,
            },
            g.decay_spec(),
        ),
        None => 11,
    }
}

/// The structural hash of a widget's view.
///
/// Every variant folds in its own tag, so two nodes of different kinds hash
/// differently even when their payloads agree — an empty `Row` and an empty
/// `Column` in particular.
pub open spec fn view_hash(v: WidgetView) -> u64
    decreases v,
{
    match v {
        WidgetView::Row { children } => mix(seq_hash(children), 1),
        WidgetView::Column { children } => mix(seq_hash(children), 2),
        WidgetView::Button { label, handler } => mix(
            mix(str_hash(label), opt_handler_hash(handler)),
            3,
        ),
        WidgetView::Entry { value, handler } => mix(
            mix(str_hash(value), opt_handler_hash(handler)),
            4,
        ),
        WidgetView::Checkbox { label, value, handler } => mix(
            mix(mix(str_hash(label), if value { 1 } else { 0 }), opt_handler_hash(handler)),
            5,
        ),
    }
}

/// The hash of a sequence of views, folded left to right.
pub open spec fn seq_hash(s: Seq<WidgetView>) -> u64
    decreases s,
{
    if s.len() == 0 {
        7
    } else {
        mix(seq_hash(s.drop_last()), view_hash(s.last()))
    }
}

fn mix_exec(h: u64, x: u64) -> (r: u64)
    ensures
        r == mix(h, x),
{
    h.wrapping_mul(31).wrapping_add(x)
}

fn str_hash_exec(s: &str) -> (r: u64)
    ensures
        r == str_hash(s@),
{
    let mut acc: u64 = 7;
    let n: usize = s.unicode_len();
    let mut i: usize = 0;
    proof {
        assert(s@.take(0) =~= Seq::<char>::empty());
    }
    #[verifier::loop_isolation(false)]
    while i < n
        invariant
            i <= n,
            n == s@.len(),
            acc == str_hash(s@.take(i as int)),
        decreases n - i,
    {
        let c: char = s.get_char(i);
        proof {
            assert(s@.take(i as int + 1).drop_last() =~= s@.take(i as int));
            assert(s@.take(i as int + 1).last() == s@[i as int]);
        }
        acc = mix_exec(acc, c as u64);
        i += 1;
    }
    proof {
        assert(s@.take(n as int) =~= s@);
    }
    acc
}

fn opt_handler_hash_exec<W, E, A>(h: &OptionalHandler<W, E, A>) -> (r: u64)
    ensures
        r == opt_handler_hash(handler_view(*h)),
{
    match h {
        OptionalHandler::Present(hh) => {
            let g: GenericHandler = hh.storage();
            let tag: u64 = match g {
                GenericHandler::A(_) => 1,
                GenericHandler::B(_) => 2,
                GenericHandler::C(_) => 3,
                GenericHandler::D(_) => 4,
            };
            mix_exec(tag, g.decay())
        },
        OptionalHandler::Absent => 11,
    }
}

impl<A> Widget<A> {
    /// The structural hash of this tree: a value-determined digest that
    /// folds in each node's variant tag along with its payload.
    pub fn structural_hash(&self) -> (h: u64)
        ensures
            h == view_hash(self@),
        decreases *self,
    {
        match self {
            Widget::Row(row) => {
                let ghost vs = views_of(row.children@);
                proof {
                    lemma_views_of(row.children@);
                    assert(vs.take(0) =~= Seq::<WidgetView>::empty());
                }
                let mut acc: u64 = 7;
                let n: usize = row.children.len();
                let mut i: usize = 0;
                #[verifier::loop_isolation(false)]
                while i < n
                    invariant
                        i <= n,
                        acc == seq_hash(vs.take(i as int)),
                    decreases n - i,
                {
                    proof {
                        assert(decreases_to!(*self => self->Row_0));
                        assert(decreases_to!(self->Row_0 => row.children));
                        assert(decreases_to!(row.children => row.children@[i as int]));
                        assert(decreases_to!(*self => row.children@[i as int]));
                        assert(vs.take(i as int + 1).drop_last() =~= vs.take(i as int));
                        assert(vs.take(i as int + 1).last() == row.children@[i as int]@);
                    }
                    let ch: u64 = row.children[i].structural_hash();
                    acc = mix_exec(acc, ch);
                    i += 1;
                }
                proof {
                    assert(vs.take(n as int) =~= vs);
                }
                mix_exec(acc, 1)
            },
            Widget::Column(col) => {
                let ghost vs = views_of(col.children@);
                proof {
                    lemma_views_of(col.children@);
                    assert(vs.take(0) =~= Seq::<WidgetView>::empty());
                }
                let mut acc: u64 = 7;
                let n: usize = col.children.len();
                let mut i: usize = 0;
                #[verifier::loop_isolation(false)]
                while i < n
                    invariant
                        i <= n,
                        acc == seq_hash(vs.take(i as int)),
                    decreases n - i,
                {
                    proof {
                        assert(decreases_to!(*self => self->Column_0));
                        assert(decreases_to!(self->Column_0 => col.children));
                        assert(decreases_to!(col.children => col.children@[i as int]));
                        assert(decreases_to!(*self => col.children@[i as int]));
                        assert(vs.take(i as int + 1).drop_last() =~= vs.take(i as int));
                        assert(vs.take(i as int + 1).last() == col.children@[i as int]@);
                    }
                    let ch: u64 = col.children[i].structural_hash();
                    acc = mix_exec(acc, ch);
                    i += 1;
                }
                proof {
                    assert(vs.take(n as int) =~= vs);
                }
                mix_exec(acc, 2)
            },
            Widget::Button(b) => {
                let sh: u64 = str_hash_exec(b.label.as_str());
                let hh: u64 = opt_handler_hash_exec(&b.handler);
                mix_exec(mix_exec(sh, hh), 3)
            },
            Widget::Entry(e) => {
                let sh: u64 = str_hash_exec(e.value.as_str());
                let hh: u64 = opt_handler_hash_exec(&e.handler);
                mix_exec(mix_exec(sh, hh), 4)
            },
            Widget::Checkbox(c) => {
                let sh: u64 = str_hash_exec(c.label.as_str());
                let vb: u64 = if c.value {
                    1
                } else {
                    0
                };
                let hh: u64 = opt_handler_hash_exec(&c.handler);
                mix_exec(mix_exec(mix_exec(sh, vb), hh), 5)
            },
        }
    }
}

/// Equality and hashing of widgets are discriminant-sensitive: an empty
/// `Row` and an empty `Column` are different values with different
/// structural hashes, even though both carry "no children".
pub proof fn lemma_discriminant_sensitive<A>(r: Row<A>, c: Column<A>)
    requires
        r.children@.len() == 0,
        c.children@.len() == 0,
    ensures
        Widget::Row(r) != Widget::Column(c),
        Widget::Row(r)@ != Widget::Column(c)@,
        view_hash(Widget::Row(r)@) != view_hash(Widget::Column(c)@),
{
    assert(view_hash(Widget::Row(r)@) == mix(7, 1));
    assert(view_hash(Widget::Column(c)@) == mix(7, 2));
}

/// The identity case of path lookup: the empty path reaches the node it
/// starts from.
pub proof fn lemma_get_empty<A>(w: Widget<A>)
    ensures
        w.get_spec(Seq::empty()) == Some(w),
{
}

/// How one more step of a path lookup behaves: extending a path by a final
/// index `i` reaches the `i`-th child of the node the path reaches, and
/// misses exactly when the path already missed or `i` is out of range —
/// on a leaf, whose child list is empty, every extension misses.
pub proof fn lemma_get_step<A>(w: Widget<A>, path: Seq<usize>, i: usize)
    ensures
        w.get_spec(path.push(i)) == (match w.get_spec(path) {
            Some(n) => if (i as int) < n.children_spec().len() {
                Some(n.children_spec()[i as int])
            } else {
                None
            },
            None => None,
        }),
    decreases path.len(),
{
    if path.len() == 0 {
        assert(path.push(i).len() == 1);
        assert(path.push(i).drop_first() =~= Seq::<usize>::empty());
        assert(path.push(i)[0] == i);
        assert(w.get_spec(path) == Some(w));
        if (i as int) < w.children_spec().len() {
            assert(w.get_spec(path.push(i)) == w.children_spec()[i as int].get_spec(
                path.push(i).drop_first(),
            ));
            assert(w.get_spec(path.push(i)) == Some(w.children_spec()[i as int]));
        } else {
            assert(w.get_spec(path.push(i)) is None);
        }
    } else {
        assert(path.push(i).len() == path.len() + 1);
        assert(path.push(i).drop_first() =~= path.drop_first().push(i));
        assert(path.push(i)[0] == path[0]);
        let cs = w.children_spec();
        if (path[0] as int) < cs.len() {
            lemma_get_step(cs[path[0] as int], path.drop_first(), i);
            assert(w.get_spec(path.push(i)) == cs[path[0] as int].get_spec(
                path.drop_first().push(i),
            ));
            assert(w.get_spec(path) == cs[path[0] as int].get_spec(path.drop_first()));
        } else {
            assert(w.get_spec(path.push(i)) is None);
            assert(w.get_spec(path) is None);
        }
    }
}

/// The path lookup law: if `path` reaches node `n` in the tree `w`, then
/// `path` extended by an in-range index reaches the corresponding child of
/// `n`, and `path` extended by any out-of-range index — the child count
/// itself, in particular — reaches nothing.
pub proof fn lemma_path_lookup<A>(w: Widget<A>, path: Seq<usize>, n: Widget<A>, i: usize)
    requires
        w.get_spec(path) == Some(n),
    ensures
        (i as int) < n.children_spec().len() ==> w.get_spec(path.push(i)) == Some(
            n.children_spec()[i as int],
        ),
        (i as int) >= n.children_spec().len() ==> w.get_spec(path.push(i)) is None,
{
    lemma_get_step(w, path, i);
}

impl<A> PartialEq for Widget<A> {
    /// Structural equality, variant tag included: two nodes of different
    /// kinds are never equal, and two nodes of the same kind compare by
    /// their payloads, children in order.
    fn eq(&self, other: &Self) -> (r: bool)
        ensures
            r == (self@ == other@),
        decreases *self,
    {
        match (self, other) {
            (Widget::Row(a), Widget::Row(b)) => {
                proof {
                    assert(decreases_to!(*self => self->Row_0));
                }
                a.eq(b)
            },
            (Widget::Column(a), Widget::Column(b)) => {
                proof {
                    assert(decreases_to!(*self => self->Column_0));
                }
                a.eq(b)
            },
            (Widget::Button(a), Widget::Button(b)) => a.eq(b),
            (Widget::Entry(a), Widget::Entry(b)) => a.eq(b),
            (Widget::Checkbox(a), Widget::Checkbox(b)) => a.eq(b),
            _ => false,
        }
    }
}

impl<A> Eq for Widget<A> {}

impl<A> vstd::std_specs::cmp::PartialEqSpecImpl for Widget<A> {
    open spec fn obeys_eq_spec() -> bool {
        true
    }

    open spec fn eq_spec(&self, other: &Self) -> bool {
        self@ == other@
    }
}

impl<A> Clone for Widget<A> {
    /// A deep copy: the copy describes the same tree, node for node.
    fn clone(&self) -> (res: Self)
        ensures
            res@ == self@,
        decreases *self,
    {
        match self {
            Widget::Row(r) => {
                proof {
                    assert(decreases_to!(*self => self->Row_0));
                }
                Widget::Row(r.clone())
            },
            Widget::Column(c) => {
                proof {
                    assert(decreases_to!(*self => self->Column_0));
                }
                Widget::Column(c.clone())
            },
            Widget::Button(b) => Widget::Button(b.clone()),
            Widget::Entry(e) => Widget::Entry(e.clone()),
            Widget::Checkbox(c) => Widget::Checkbox(c.clone()),
        }
    }
}

} // verus!
