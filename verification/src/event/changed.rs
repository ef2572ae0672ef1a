//! The one record behind every interaction event: a widget's value after
//! the interaction.

use vstd::prelude::*;

use crate::event::Event;
use crate::Kind;
use crate::Variant;

verus! {

/// An interaction that may have changed the value associated with a widget.
///
/// The payload type states what kind of value the interaction carries; the
/// three closed specializations are [`Entered`], [`Toggled`] and
/// [`Clicked`].
#[derive(Debug, PartialEq, Eq, Hash)]
pub struct Changed<T> {
    /// The value associated with the widget after the interaction.
    pub value: T,
}

impl<T: Default> Default for Changed<T> {
    fn default() -> (d: Self)
        ensures
            call_ensures(T::default, (), d.value),
    {
        Changed { value: T::default() }
    }
}

impl<T: Clone> Clone for Changed<T> {
    fn clone(&self) -> (res: Self)
        ensures
            cloned::<T>(self.value, res.value),
    {
        Changed { value: self.value.clone() }
    }
}

/// Text was entered: the event carries the new text.
pub type Entered = Changed<String>;

/// A boolean state was toggled: the event carries the new state.
pub type Toggled = Changed<bool>;

/// A click: there is no value to carry.
pub type Clicked = Changed<()>;

impl Kind<Event> for Entered {
    open spec fn widen_spec(self) -> Event {
        Event::Entered(self)
    }

    fn widen(self) -> (g: Event) {
        Event::Entered(self)
    }
}

impl Variant<Event> for Entered {}

impl Kind<Event> for Toggled {
    open spec fn widen_spec(self) -> Event {
        Event::Toggled(self)
    }

    fn widen(self) -> (g: Event) {
        Event::Toggled(self)
    }
}

impl Variant<Event> for Toggled {}

impl Kind<Event> for Clicked {
    open spec fn widen_spec(self) -> Event {
        Event::Clicked(self)
    }

    fn widen(self) -> (g: Event) {
        Event::Clicked(self)
    }
}

impl Variant<Event> for Clicked {}

} // verus!
