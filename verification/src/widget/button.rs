//! The button descriptor.

use vstd::prelude::*;

use crate::event::Clicked;
use crate::face;
use crate::handler::OptionalHandler;
use crate::widget::handler_view;
use crate::widget::Widget;
use crate::Kind;
use crate::Variant;

verus! {

/// A button: a label, and an optional handler for its click events.
#[derive(Debug, Hash)]
pub struct Button<A> {
    /// The text shown on the button.
    pub label: String,
    /// What to do when the button is clicked.
    pub handler: OptionalHandler<face::Button, Clicked, A>,
}

impl<A> Button<A> {
    /// The form of this button that a callback receives.
    pub open spec fn face_spec(self) -> face::Button {
        face::Button { label: self.label }
    }

    /// The form of this button that a callback receives.
    pub fn face(&self) -> (f: face::Button)
        ensures
            f == self.face_spec(),
    {
        face::Button { label: self.label.clone() }
    }
}

impl<A> Default for Button<A> {
    fn default() -> (d: Self)
        ensures
            d.label@ == Seq::<char>::empty(),
            d.handler == OptionalHandler::<face::Button, Clicked, A>::Absent,
    {
        Button { label: String::new(), handler: OptionalHandler::Absent }
    }
}

impl<A> Clone for Button<A> {
    fn clone(&self) -> (res: Self)
        ensures
            res == *self,
    {
        Button { label: self.label.clone(), handler: self.handler.clone() }
    }
}

impl<A> PartialEq for Button<A> {
    /// Structural equality: the labels agree, and the handlers agree by
    /// shape and identity.
    fn eq(&self, other: &Self) -> (r: bool)
        ensures
            r == (self.label@ == other.label@ && handler_view(self.handler) == handler_view(
                other.handler,
            )),
    {
        self.label == other.label && self.handler.eq(&other.handler)
    }
}

impl<A> Eq for Button<A> {}

impl<A> vstd::std_specs::cmp::PartialEqSpecImpl for Button<A> {
    open spec fn obeys_eq_spec() -> bool {
        true
    }

    open spec fn eq_spec(&self, other: &Self) -> bool {
        self.label@ == other.label@ && handler_view(self.handler) == handler_view(other.handler)
    }
}

impl<A> Kind<Widget<A>> for Button<A> {
    open spec fn widen_spec(self) -> Widget<A> {
        Widget::Button(self)
    }

    fn widen(self) -> (g: Widget<A>) {
        Widget::Button(self)
    }
}

impl<A> Variant<Widget<A>> for Button<A> {}

} // verus!
