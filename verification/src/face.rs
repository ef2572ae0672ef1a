//! The handler-facing form of a widget: the value a callback receives.
//!
//! A widget descriptor in the tree ([`crate::Widget`]) carries its own event
//! handler, and a handler's type names the widget form it expects — so a
//! widget type cannot itself be that form without becoming self-referential.
//! The types here are the widgets *as a callback sees them*: the same
//! variants and fields, minus the handlers.  They form the closed
//! polymorphic group over which [`crate::Handler`] is typed: the five narrow
//! members and the generic form [`Widget`](self::Widget).

use vstd::prelude::*;

use crate::Kind;
use crate::Variant;

verus! {

/// A button, as its callback sees it.
#[derive(Debug, PartialEq, Eq, Hash)]
pub struct Button {
    /// The text shown on the button.
    pub label: String,
}

impl Clone for Button {
    fn clone(&self) -> (res: Self)
        ensures
            res == *self,
    {
        Button { label: self.label.clone() }
    }
}

/// A text entry, as its callback sees it.
#[derive(Debug, PartialEq, Eq, Hash)]
pub struct Entry {
    /// The current text.
    pub value: String,
}

impl Clone for Entry {
    fn clone(&self) -> (res: Self)
        ensures
            res == *self,
    {
        Entry { value: self.value.clone() }
    }
}

/// A checkbox, as its callback sees it.
#[derive(Debug, PartialEq, Eq, Hash)]
pub struct Checkbox {
    /// The text shown beside the box.
    pub label: String,
    /// The current state of the box.
    pub value: bool,
}

impl Clone for Checkbox {
    fn clone(&self) -> (res: Self)
        ensures
            res == *self,
    {
        Checkbox { label: self.label.clone(), value: self.value }
    }
}

/// A horizontal container, as a callback sees it.
#[derive(Debug, PartialEq, Eq, Hash)]
pub struct Row {
    /// The contained widgets, in display order.
    pub children: Vec<Widget>,
}

/// A vertical container, as a callback sees it.
#[derive(Debug, PartialEq, Eq, Hash)]
pub struct Column {
    /// The contained widgets, in display order.
    pub children: Vec<Widget>,
}

/// A widget in its generic form: what a callback receives when it asks for
/// "any widget" rather than one specific kind.
#[derive(Debug, PartialEq, Eq, Hash)]
pub enum Widget {
    /// A horizontal container.
    Row(Row),
    /// A vertical container.
    Column(Column),
    /// A button.
    Button(Button),
    /// A text entry.
    Entry(Entry),
    /// A checkbox.
    Checkbox(Checkbox),
}

impl Kind<Widget> for Widget {
    open spec fn widen_spec(self) -> Widget {
        self
    }

    fn widen(self) -> (g: Widget) {
        self
    }
}

impl Kind<Widget> for Row {
    open spec fn widen_spec(self) -> Widget {
        Widget::Row(self)
    }

    fn widen(self) -> (g: Widget) {
        Widget::Row(self)
    }
}

impl Variant<Widget> for Row {}

impl Kind<Widget> for Column {
    open spec fn widen_spec(self) -> Widget {
        Widget::Column(self)
    }

    fn widen(self) -> (g: Widget) {
        Widget::Column(self)
    }
}

impl Variant<Widget> for Column {}

impl Kind<Widget> for Button {
    open spec fn widen_spec(self) -> Widget {
        Widget::Button(self)
    }

    fn widen(self) -> (g: Widget) {
        Widget::Button(self)
    }
}

impl Variant<Widget> for Button {}

impl Kind<Widget> for Entry {
    open spec fn widen_spec(self) -> Widget {
        Widget::Entry(self)
    }

    fn widen(self) -> (g: Widget) {
        Widget::Entry(self)
    }
}

impl Variant<Widget> for Entry {}

impl Kind<Widget> for Checkbox {
    open spec fn widen_spec(self) -> Widget {
        Widget::Checkbox(self)
    }

    fn widen(self) -> (g: Widget) {
        Widget::Checkbox(self)
    }
}

impl Variant<Widget> for Checkbox {}

} // verus!
