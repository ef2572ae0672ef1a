//! A declarative user-interface description model: an immutable tree of
//! widget descriptors, a closed set of interaction events, and an
//! event-handler abstraction that lets a callback be written against either
//! a concrete widget/event type or the generic widget/event form, with a
//! safe, total coercion between the two.
//!
//! The crate is a pure value model: nothing here renders, blocks, or owns a
//! resource.  A host runtime builds a [`Widget`] tree, locates a node with
//! [`Widget::get`], and asks the node's [`Handler`] how a callback must be
//! invoked for an [`Event`].

use vstd::prelude::*;

pub mod event;
pub mod face;
pub mod handler;
mod index;
mod mock;
mod path;
pub mod widget;

pub use event::Event;
pub use handler::Dispatch;
pub use handler::FnRef;
pub use handler::GenericHandler;
pub use handler::Handler;
pub use handler::OptionalHandler;
pub use index::TreeIndex;
pub use mock::NopHash;
pub use path::TreePath;
pub use widget::Widget;

verus! {

/// Marker relation of a closed polymorphic group: `Self` is interchangeable
/// with the group's generic form `G`.
///
/// It holds for `G` itself and for every declared [`Variant`] of `G`, and for
/// nothing else: the group is closed.  Converting a member to the generic
/// form ([`Kind::widen`]) is total and never fails.
pub trait Kind<G>: Sized {
    /// The generic form that this value widens to.
    spec fn widen_spec(self) -> G;

    /// Convert this value to the group's generic form.
    fn widen(self) -> (g: G)
        ensures
            g == self.widen_spec(),
    ;
}

/// Marker relation of a closed polymorphic group: `Self` is one specific,
/// narrow member of the group `G`.
///
/// Every `Variant<G>` is also a [`Kind<G>`] (it is a supertrait), so a narrow
/// member can always stand where the group is expected; the converse does not
/// hold, which is what keeps one narrow member from being mistaken for a
/// sibling.
pub trait Variant<G>: Kind<G> {}

} // verus!
