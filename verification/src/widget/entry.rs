//! The text-entry descriptor.

use vstd::prelude::*;

use crate::event::Entered;
use crate::face;
use crate::handler::OptionalHandler;
use crate::widget::handler_view;
use crate::widget::Widget;
use crate::Kind;
use crate::Variant;

verus! {

/// A text entry: its current text, and an optional handler for entered
/// text.
#[derive(Debug, Hash)]
pub struct Entry<A> {
    /// The current text.
    pub value: String,
    /// What to do when text is entered.
    pub handler: OptionalHandler<face::Entry, Entered, A>,
}

impl<A> Entry<A> {
    /// The form of this entry that a callback receives.
    pub open spec fn face_spec(self) -> face::Entry {
        face::Entry { value: self.value }
    }

    /// The form of this entry that a callback receives.
    pub fn face(&self) -> (f: face::Entry)
        ensures
            f == self.face_spec(),
    {
        face::Entry { value: self.value.clone() }
    }
}

impl<A> Default for Entry<A> {
    fn default() -> (d: Self)
        ensures
            d.value@ == Seq::<char>::empty(),
            d.handler == OptionalHandler::<face::Entry, Entered, A>::Absent,
    {
        Entry { value: String::new(), handler: OptionalHandler::Absent }
    }
}

impl<A> Clone for Entry<A> {
    fn clone(&self) -> (res: Self)
        ensures
            res == *self,
    {
        Entry { value: self.value.clone(), handler: self.handler.clone() }
    }
}

impl<A> PartialEq for Entry<A> {
    /// Structural equality: the texts agree, and the handlers agree by
    /// shape and identity.
    fn eq(&self, other: &Self) -> (r: bool)
        ensures
            r == (self.value@ == other.value@ && handler_view(self.handler) == handler_view(
                other.handler,
            )),
    {
        self.value == other.value && self.handler.eq(&other.handler)
    }
}

impl<A> Eq for Entry<A> {}

impl<A> vstd::std_specs::cmp::PartialEqSpecImpl for Entry<A> {
    open spec fn obeys_eq_spec() -> bool {
        true
    }

    open spec fn eq_spec(&self, other: &Self) -> bool {
        self.value@ == other.value@ && handler_view(self.handler) == handler_view(other.handler)
    }
}

impl<A> Kind<Widget<A>> for Entry<A> {
    open spec fn widen_spec(self) -> Widget<A> {
        Widget::Entry(self)
    }

    fn widen(self) -> (g: Widget<A>) {
        Widget::Entry(self)
    }
}

impl<A> Variant<Widget<A>> for Entry<A> {}

} // verus!
