//! The checkbox descriptor.

use vstd::prelude::*;

use crate::event::Toggled;
use crate::face;
use crate::handler::OptionalHandler;
use crate::widget::handler_view;
use crate::widget::Widget;
use crate::Kind;
use crate::Variant;

verus! {

/// A checkbox: a label, its current state, and an optional handler for its
/// toggle events.
#[derive(Debug, Hash)]
pub struct Checkbox<A> {
    /// The text shown beside the box.
    pub label: String,
    /// The current state of the box.
    pub value: bool,
    /// What to do when the box is toggled.
    pub handler: OptionalHandler<face::Checkbox, Toggled, A>,
}

impl<A> Checkbox<A> {
    /// The form of this checkbox that a callback receives.
    pub open spec fn face_spec(self) -> face::Checkbox {
        face::Checkbox { label: self.label, value: self.value }
    }

    /// The form of this checkbox that a callback receives.
    pub fn face(&self) -> (f: face::Checkbox)
        ensures
            f == self.face_spec(),
    {
        face::Checkbox { label: self.label.clone(), value: self.value }
    }
}

impl<A> Default for Checkbox<A> {
    fn default() -> (d: Self)
        ensures
            d.label@ == Seq::<char>::empty(),
            d.value == false,
            d.handler == OptionalHandler::<face::Checkbox, Toggled, A>::Absent,
    {
        Checkbox { label: String::new(), value: false, handler: OptionalHandler::Absent }
    }
}

impl<A> Clone for Checkbox<A> {
    fn clone(&self) -> (res: Self)
        ensures
            res == *self,
    {
        Checkbox {
            label: self.label.clone(),
            value: self.value,
            handler: self.handler.clone(),
        }
    }
}

impl<A> PartialEq for Checkbox<A> {
    /// Structural equality: labels, states, and the handlers' shape and
    /// identity all agree.
    fn eq(&self, other: &Self) -> (r: bool)
        ensures
            r == (self.label@ == other.label@ && self.value == other.value && handler_view(
                self.handler,
            ) == handler_view(other.handler)),
    {
        self.label == other.label && self.value == other.value && self.handler.eq(&other.handler)
    }
}

impl<A> Eq for Checkbox<A> {}

impl<A> vstd::std_specs::cmp::PartialEqSpecImpl for Checkbox<A> {
    open spec fn obeys_eq_spec() -> bool {
        true
    }

    open spec fn eq_spec(&self, other: &Self) -> bool {
        self.label@ == other.label@ && self.value == other.value && handler_view(self.handler)
            == handler_view(other.handler)
    }
}

impl<A> Kind<Widget<A>> for Checkbox<A> {
    open spec fn widen_spec(self) -> Widget<A> {
        Widget::Checkbox(self)
    }

    fn widen(self) -> (g: Widget<A>) {
        Widget::Checkbox(self)
    }
}

impl<A> Variant<Widget<A>> for Checkbox<A> {}

} // verus!
