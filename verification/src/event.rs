//! The closed set of interaction events.

mod changed;

pub use changed::Changed;
pub use changed::Clicked;
pub use changed::Entered;
pub use changed::Toggled;

use vstd::prelude::*;

use crate::Kind;

verus! {

use vstd::std_specs::convert::FromSpec;

/// An interaction event, in its generic form.
///
/// The set of variants is closed: an event is exactly one of text entered,
/// a boolean toggled, or a click, each wrapping the [`Changed`] record that
/// the variant tag determines.  A host runtime constructs an `Event` on user
/// interaction, hands it to a handler invocation, and discards it.
#[derive(Debug, PartialEq, Eq, Hash)]
pub enum Event {
    /// Text was entered.
    Entered(Entered),
    /// A boolean state was toggled.
    Toggled(Toggled),
    /// A click without a payload.
    Clicked(Clicked),
}

impl Kind<Event> for Event {
    open spec fn widen_spec(self) -> Event {
        self
    }

    fn widen(self) -> (g: Event) {
        self
    }
}

impl Clone for Event {
    fn clone(&self) -> (res: Self)
        ensures
            res == *self,
    {
        match self {
            Event::Entered(e) => Event::Entered(Changed { value: e.value.clone() }),
            Event::Toggled(e) => Event::Toggled(Changed { value: e.value }),
            Event::Clicked(e) => Event::Clicked(Changed { value: e.value }),
        }
    }
}

impl From<Entered> for Event {
    fn from(e: Entered) -> (r: Self) {
        Event::Entered(e)
    }
}

impl vstd::std_specs::convert::FromSpecImpl<Entered> for Event {
    open spec fn obeys_from_spec() -> bool {
        true
    }

    open spec fn from_spec(e: Entered) -> Self {
        Event::Entered(e)
    }
}

impl From<Toggled> for Event {
    fn from(e: Toggled) -> (r: Self) {
        Event::Toggled(e)
    }
}

impl vstd::std_specs::convert::FromSpecImpl<Toggled> for Event {
    open spec fn obeys_from_spec() -> bool {
        true
    }

    open spec fn from_spec(e: Toggled) -> Self {
        Event::Toggled(e)
    }
}

impl From<Clicked> for Event {
    fn from(e: Clicked) -> (r: Self) {
        Event::Clicked(e)
    }
}

impl vstd::std_specs::convert::FromSpecImpl<Clicked> for Event {
    open spec fn obeys_from_spec() -> bool {
        true
    }

    open spec fn from_spec(e: Clicked) -> Self {
        Event::Clicked(e)
    }
}

/// Round trip of the event model: wrapping a `Changed` record into its
/// `Event` variant preserves the record exactly, and the variant built by
/// `Event::from` is the one the record's type determines.
pub proof fn lemma_event_round_trip(en: Entered, to: Toggled, cl: Clicked)
    ensures
        <Event as FromSpec<Entered>>::from_spec(en) == Event::Entered(en),
        <Event as FromSpec<Toggled>>::from_spec(to) == Event::Toggled(to),
        <Event as FromSpec<Clicked>>::from_spec(cl) == Event::Clicked(cl),
        <Event as FromSpec<Entered>>::from_spec(en) matches Event::Entered(x) && x == en,
        <Event as FromSpec<Toggled>>::from_spec(to) matches Event::Toggled(y) && y == to,
        <Event as FromSpec<Clicked>>::from_spec(cl) matches Event::Clicked(z) && z == cl,
{
}

} // verus!
