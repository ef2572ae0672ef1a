//! Event handlers: a stored callback reference together with the shape of
//! the callback's signature, and the dispatch rule that invokes it.
//!
//! A callback may be written against the narrow widget/event types or
//! against the generic forms ([`face::Widget`], [`Event`]), giving four
//! storage shapes.  Verified code cannot store or call a function pointer,
//! so a callback is represented by a stable identity token ([`FnRef`]) that
//! the host runtime assigns; equality and hashing of handlers go by that
//! identity and the shape, never by behaviour.  [`Handler::handle`] performs
//! the dispatch decision — which callback must be called, with the arguments
//! widened exactly as the stored shape demands — and returns it as a
//! [`Dispatch`] value for the host to execute.

use vstd::prelude::*;

use crate::event::Event;
use crate::face;
use crate::Kind;
use crate::Variant;

verus! {

use core::marker::PhantomData;

/// A reference to a host callback of shape `fn(&W, &E) -> A`, identified by
/// a stable token.
///
/// The token models the function's identity (its address, in a host that
/// stores function pointers): two references denote the same callback
/// exactly when their tokens are equal.  The host runtime assigns tokens and
/// keeps the actual functions; nothing here inspects a callback's behaviour.
#[derive(Debug, Hash)]
pub struct FnRef<W, E, A> {
    token: u64,
    marker: PhantomData<(W, E, A)>,
}

impl<W, E, A> FnRef<W, E, A> {
    /// The identity token of the referenced callback.
    pub closed spec fn token_spec(self) -> u64 {
        self.token
    }

    /// Make a reference to the host callback identified by `token`.
    pub fn new(token: u64) -> (f: Self)
        ensures
            f == FnRef::<W, E, A>::of_token(token),
    {
        FnRef { token, marker: PhantomData }
    }

    /// The reference value carrying `token`.
    pub closed spec fn of_token(token: u64) -> Self {
        FnRef { token, marker: PhantomData }
    }

    /// The identity token of the referenced callback.
    pub fn token(&self) -> (t: u64)
        ensures
            t == self.token_spec(),
    {
        self.token
    }
}

/// Every reference value is the one its token determines.
pub broadcast proof fn lemma_fnref_token<W, E, A>(f: FnRef<W, E, A>)
    ensures
        f == FnRef::<W, E, A>::of_token(#[trigger] f.token_spec()),
        FnRef::<W, E, A>::of_token(f.token_spec()).token_spec() == f.token_spec(),
{
}

impl<W, E, A> Clone for FnRef<W, E, A> {
    fn clone(&self) -> (res: Self)
        ensures
            res == *self,
    {
        FnRef { token: self.token, marker: PhantomData }
    }
}

impl<W, E, A> Copy for FnRef<W, E, A> {}

impl<W, E, A> PartialEq for FnRef<W, E, A> {
    fn eq(&self, other: &Self) -> (r: bool) {
        self.token == other.token
    }
}

impl<W, E, A> Eq for FnRef<W, E, A> {}

impl<W, E, A> vstd::std_specs::cmp::PartialEqSpecImpl for FnRef<W, E, A> {
    open spec fn obeys_eq_spec() -> bool {
        true
    }

    open spec fn eq_spec(&self, other: &Self) -> bool {
        self.token_spec() == other.token_spec()
    }
}

/// The stored form of a callback: its identity token, tagged with the shape
/// of the signature it was taken from.
///
/// The four shapes are the four ways the two parameters can be bound:
/// `A` narrow widget and narrow event, `B` generic widget and narrow event,
/// `C` narrow widget and generic event, `D` generic widget and generic
/// event.
#[derive(Debug, Clone, Copy, PartialEq, Eq, Hash, Structural)]
pub enum GenericHandler {
    /// Narrow widget, narrow event.
    A(u64),
    /// Generic widget, narrow event.
    B(u64),
    /// Narrow widget, generic event.
    C(u64),
    /// Generic widget, generic event.
    D(u64),
}

impl GenericHandler {
    /// The identity token, with the shape tag stripped.
    pub open spec fn decay_spec(self) -> u64 {
        match self {
            GenericHandler::A(t) => t,
            GenericHandler::B(t) => t,
            GenericHandler::C(t) => t,
            GenericHandler::D(t) => t,
        }
    }

    /// Strip the shape tag, leaving the callback's identity.
    pub fn decay(&self) -> (t: u64)
        ensures
            t == self.decay_spec(),
    {
        match self {
            GenericHandler::A(t) => *t,
            GenericHandler::B(t) => *t,
            GenericHandler::C(t) => *t,
            GenericHandler::D(t) => *t,
        }
    }

    /// The storage after the widget slot of the handler's type narrows:
    /// a callback whose widget parameter was narrow is re-tagged as taking
    /// the generic widget form.
    pub open spec fn retag_generic_widget(self) -> GenericHandler {
        match self {
            GenericHandler::A(t) => GenericHandler::B(t),
            GenericHandler::B(t) => GenericHandler::B(t),
            GenericHandler::C(t) => GenericHandler::D(t),
            GenericHandler::D(t) => GenericHandler::D(t),
        }
    }

    /// The storage after the event slot of the handler's type narrows:
    /// a callback whose event parameter was narrow is re-tagged as taking
    /// the generic event form.
    pub open spec fn retag_generic_event(self) -> GenericHandler {
        match self {
            GenericHandler::A(t) => GenericHandler::C(t),
            GenericHandler::B(t) => GenericHandler::D(t),
            GenericHandler::C(t) => GenericHandler::C(t),
            GenericHandler::D(t) => GenericHandler::D(t),
        }
    }
}

/// Whether two storages carry the same shape tag.
pub open spec fn same_shape(x: GenericHandler, y: GenericHandler) -> bool {
    match (x, y) {
        (GenericHandler::A(_), GenericHandler::A(_)) => true,
        (GenericHandler::B(_), GenericHandler::B(_)) => true,
        (GenericHandler::C(_), GenericHandler::C(_)) => true,
        (GenericHandler::D(_), GenericHandler::D(_)) => true,
        _ => false,
    }
}

/// An event handler over widgets of type `W`, events of type `E`, and
/// actions of type `A`.
///
/// Semantically a stored callback `fn(&W, &E) -> A`; the callback itself
/// lives with the host and is designated by identity.  The type parameters
/// record what the handler may be invoked with; the stored shape records
/// what the callback actually takes, which may be the generic forms — then
/// invocation widens the arguments first (see [`Handler::handle`]).
#[derive(Debug, Hash)]
pub struct Handler<W, E, A> {
    inner: GenericHandler,
    marker: PhantomData<(W, E, A)>,
}

impl<W, E, A> Handler<W, E, A> {
    /// The stored shape and identity.
    pub closed spec fn storage_spec(self) -> GenericHandler {
        self.inner
    }

    /// The handler value whose stored shape and identity are `g`.
    pub closed spec fn with_storage(g: GenericHandler) -> Self {
        Handler { inner: g, marker: PhantomData }
    }

    /// The stored shape and identity.
    pub fn storage(&self) -> (g: GenericHandler)
        ensures
            g == self.storage_spec(),
    {
        self.inner
    }
}

/// Every handler value is the one its storage determines.
pub broadcast proof fn lemma_handler_storage<W, E, A>(h: Handler<W, E, A>)
    ensures
        h == Handler::<W, E, A>::with_storage(#[trigger] h.storage_spec()),
        Handler::<W, E, A>::with_storage(h.storage_spec()).storage_spec() == h.storage_spec(),
{
}

impl<W, E, A> Clone for Handler<W, E, A> {
    fn clone(&self) -> (res: Self)
        ensures
            res == *self,
    {
        Handler { inner: self.inner, marker: PhantomData }
    }
}

impl<W, E, A> Copy for Handler<W, E, A> {}

impl<W, E, A> PartialEq for Handler<W, E, A> {
    fn eq(&self, other: &Self) -> (r: bool) {
        self.inner == other.inner
    }
}

impl<W, E, A> Eq for Handler<W, E, A> {}

impl<W, E, A> vstd::std_specs::cmp::PartialEqSpecImpl for Handler<W, E, A> {
    open spec fn obeys_eq_spec() -> bool {
        true
    }

    open spec fn eq_spec(&self, other: &Self) -> bool {
        self.storage_spec() == other.storage_spec()
    }
}

/// Handler equality is identity equality: two handlers are equal exactly
/// when they carry the same shape tag and the same callback identity.  In
/// particular, one callback stored under two different shapes gives two
/// unequal handlers.
pub proof fn lemma_handler_identity_equality<W, E, A>(a: Handler<W, E, A>, b: Handler<W, E, A>)
    ensures
        vstd::std_specs::cmp::PartialEqSpec::eq_spec(&a, &b) <==> (same_shape(
            a.storage_spec(),
            b.storage_spec(),
        ) && a.storage_spec().decay_spec() == b.storage_spec().decay_spec()),
{
}

impl<W: Kind<face::Widget>, E: Kind<Event>, A> Handler<W, E, A> {
    /// Store a callback that takes the handler's own widget and event types.
    pub fn new(f: FnRef<W, E, A>) -> (h: Self)
        ensures
            h == Handler::<W, E, A>::with_storage(GenericHandler::A(f.token_spec())),
    {
        Handler { inner: GenericHandler::A(f.token), marker: PhantomData }
    }

    /// Store a callback over the generic widget form and the generic event
    /// form.
    pub fn from_generic(f: FnRef<face::Widget, Event, A>) -> (h: Self)
        ensures
            h == Handler::<W, E, A>::with_storage(GenericHandler::D(f.token_spec())),
    {
        Handler { inner: GenericHandler::D(f.token), marker: PhantomData }
    }
}

impl<W: Variant<face::Widget>, E: Variant<Event>, A> Handler<W, E, A> {
    /// Store a callback whose two parameters are both narrow.
    pub fn from_narrow(f: FnRef<W, E, A>) -> (h: Self)
        ensures
            h == Handler::<W, E, A>::with_storage(GenericHandler::A(f.token_spec())),
    {
        Handler { inner: GenericHandler::A(f.token), marker: PhantomData }
    }
}

impl<W: Kind<face::Widget>, E: Variant<Event>, A> Handler<W, E, A> {
    /// Store a callback over the generic widget form and the narrow event.
    pub fn from_generic_widget(f: FnRef<face::Widget, E, A>) -> (h: Self)
        ensures
            h == Handler::<W, E, A>::with_storage(GenericHandler::B(f.token_spec())),
    {
        Handler { inner: GenericHandler::B(f.token), marker: PhantomData }
    }
}

impl<W: Variant<face::Widget>, E: Kind<Event>, A> Handler<W, E, A> {
    /// Store a callback over the narrow widget and the generic event form.
    pub fn from_generic_event(f: FnRef<W, Event, A>) -> (h: Self)
        ensures
            h == Handler::<W, E, A>::with_storage(GenericHandler::C(f.token_spec())),
    {
        Handler { inner: GenericHandler::C(f.token), marker: PhantomData }
    }
}

impl<W: Variant<face::Widget>, E, A> Handler<W, E, A> {
    /// Re-coerce a generic-widget handler to a narrow widget type.
    ///
    /// The callback is untouched; only the advertised widget type narrows,
    /// so a shape that claimed the narrow widget is re-tagged as taking the
    /// generic form (`A` to `B`, `C` to `D`).
    pub fn narrow_widget(h: Handler<face::Widget, E, A>) -> (r: Self)
        ensures
            r == Handler::<W, E, A>::with_storage(h.storage_spec().retag_generic_widget()),
    {
        Handler {
            inner: match h.inner {
                GenericHandler::A(t) => GenericHandler::B(t),
                GenericHandler::B(t) => GenericHandler::B(t),
                GenericHandler::C(t) => GenericHandler::D(t),
                GenericHandler::D(t) => GenericHandler::D(t),
            },
            marker: PhantomData,
        }
    }
}

impl<W, E: Variant<Event>, A> Handler<W, E, A> {
    /// Re-coerce a generic-event handler to a narrow event type.
    ///
    /// The callback is untouched; only the advertised event type narrows,
    /// so a shape that claimed the narrow event is re-tagged as taking the
    /// generic form (`A` to `C`, `B` to `D`).
    pub fn narrow_event(h: Handler<W, Event, A>) -> (r: Self)
        ensures
            r == Handler::<W, E, A>::with_storage(h.storage_spec().retag_generic_event()),
    {
        Handler {
            inner: match h.inner {
                GenericHandler::A(t) => GenericHandler::C(t),
                GenericHandler::B(t) => GenericHandler::D(t),
                GenericHandler::C(t) => GenericHandler::C(t),
                GenericHandler::D(t) => GenericHandler::D(t),
            },
            marker: PhantomData,
        }
    }
}

/// Re-coercion is confluent: narrowing the widget type and then the event
/// type re-tags a storage exactly as narrowing in the other order, and both
/// orders end at shape `D` with the callback's identity untouched.
pub proof fn lemma_retag_confluence(g: GenericHandler)
    ensures
        g.retag_generic_widget().retag_generic_event() == g.retag_generic_event()
            .retag_generic_widget(),
        g.retag_generic_widget().retag_generic_event() == GenericHandler::D(g.decay_spec()),
{
}

/// The call a host must perform for one handler invocation: the callback's
/// identity token and the two arguments, each either the narrow value that
/// was passed in or its widening to the generic form, exactly as the stored
/// shape demands.
#[derive(Debug, PartialEq, Eq)]
pub enum Dispatch<W, E> {
    /// Call the callback taking the narrow widget and the narrow event.
    Narrow {
        /// Identity of the callback to call.
        token: u64,
        /// The widget argument, as passed in.
        widget: W,
        /// The event argument, as passed in.
        event: E,
    },
    /// Call the callback taking the generic widget form.
    GenericWidget {
        /// Identity of the callback to call.
        token: u64,
        /// The widget argument, widened.
        widget: face::Widget,
        /// The event argument, as passed in.
        event: E,
    },
    /// Call the callback taking the generic event form.
    GenericEvent {
        /// Identity of the callback to call.
        token: u64,
        /// The widget argument, as passed in.
        widget: W,
        /// The event argument, widened.
        event: Event,
    },
    /// Call the callback taking both generic forms.
    Generic {
        /// Identity of the callback to call.
        token: u64,
        /// The widget argument, widened.
        widget: face::Widget,
        /// The event argument, widened.
        event: Event,
    },
}

impl<W: Kind<face::Widget>, E: Kind<Event>, A> Handler<W, E, A> {
    /// Decide the call for invoking this handler with `widget` and `event`.
    ///
    /// The stored callback receives exactly the values passed in; where its
    /// shape binds a parameter to the generic form, that argument is first
    /// widened — a total conversion that never fails.  The host performs the
    /// returned call; its result is the action of the invocation.
    pub fn handle(&self, widget: W, event: E) -> (d: Dispatch<W, E>)
        ensures
            self.storage_spec() matches GenericHandler::A(t) ==> d == (Dispatch::<W, E>::Narrow {
                token: t,
                widget,
                event,
            }),
            self.storage_spec() matches GenericHandler::B(t) ==> d == (Dispatch::<W, E>::GenericWidget {
                token: t,
                widget: widget.widen_spec(),
                event,
            }),
            self.storage_spec() matches GenericHandler::C(t) ==> d == (Dispatch::<W, E>::GenericEvent {
                token: t,
                widget,
                event: event.widen_spec(),
            }),
            self.storage_spec() matches GenericHandler::D(t) ==> d == (Dispatch::<W, E>::Generic {
                token: t,
                widget: widget.widen_spec(),
                event: event.widen_spec(),
            }),
    {
        match &self.inner {
            GenericHandler::A(t) => Dispatch::Narrow { token: *t, widget, event },
            GenericHandler::B(t) => Dispatch::GenericWidget {
                token: *t,
                widget: widget.widen(),
                event,
            },
            GenericHandler::C(t) => Dispatch::GenericEvent {
                token: *t,
                widget,
                event: event.widen(),
            },
            GenericHandler::D(t) => Dispatch::Generic {
                token: *t,
                widget: widget.widen(),
                event: event.widen(),
            },
        }
    }
}

/// An optional event handler: a handler, or the stable "no handler" state.
///
/// Equality keeps the two states apart: `Absent` is equal only to itself,
/// and two `Present` values compare by handler identity.
#[derive(Debug, Hash)]
pub enum OptionalHandler<W, E, A> {
    /// A handler is present.
    Present(Handler<W, E, A>),
    /// No handler.
    Absent,
}

impl<W, E, A> Default for OptionalHandler<W, E, A> {
    fn default() -> (d: Self)
        ensures
            d == OptionalHandler::<W, E, A>::Absent,
    {
        OptionalHandler::Absent
    }
}

impl<W, E, A> Clone for OptionalHandler<W, E, A> {
    fn clone(&self) -> (res: Self)
        ensures
            res == *self,
    {
        match self {
            OptionalHandler::Present(h) => OptionalHandler::Present(h.clone()),
            OptionalHandler::Absent => OptionalHandler::Absent,
        }
    }
}

impl<W, E, A> Copy for OptionalHandler<W, E, A> {}

impl<W, E, A> PartialEq for OptionalHandler<W, E, A> {
    fn eq(&self, other: &Self) -> (r: bool) {
        match (self, other) {
            (OptionalHandler::Present(a), OptionalHandler::Present(b)) => a.eq(b),
            (OptionalHandler::Absent, OptionalHandler::Absent) => true,
            _ => false,
        }
    }
}

impl<W, E, A> Eq for OptionalHandler<W, E, A> {}

impl<W, E, A> vstd::std_specs::cmp::PartialEqSpecImpl for OptionalHandler<W, E, A> {
    open spec fn obeys_eq_spec() -> bool {
        true
    }

    open spec fn eq_spec(&self, other: &Self) -> bool {
        match (self, other) {
            (OptionalHandler::Present(a), OptionalHandler::Present(b)) => a.storage_spec()
                == b.storage_spec(),
            (OptionalHandler::Absent, OptionalHandler::Absent) => true,
            _ => false,
        }
    }
}

impl<W, E, A> From<Handler<W, E, A>> for OptionalHandler<W, E, A> {
    fn from(h: Handler<W, E, A>) -> (r: Self) {
        OptionalHandler::Present(h)
    }
}

impl<W, E, A> vstd::std_specs::convert::FromSpecImpl<Handler<W, E, A>> for OptionalHandler<W, E, A> {
    open spec fn obeys_from_spec() -> bool {
        true
    }

    open spec fn from_spec(h: Handler<W, E, A>) -> Self {
        OptionalHandler::Present(h)
    }
}

impl<W: Variant<face::Widget>, E: Variant<Event>, A> From<FnRef<W, E, A>> for OptionalHandler<W, E, A> {
    fn from(f: FnRef<W, E, A>) -> (r: Self) {
        OptionalHandler::Present(Handler::from_narrow(f))
    }
}

impl<W: Variant<face::Widget>, E: Variant<Event>, A> vstd::std_specs::convert::FromSpecImpl<FnRef<W, E, A>> for OptionalHandler<W, E, A> {
    open spec fn obeys_from_spec() -> bool {
        true
    }

    open spec fn from_spec(f: FnRef<W, E, A>) -> Self {
        OptionalHandler::Present(
            Handler::<W, E, A>::with_storage(GenericHandler::A(f.token_spec())),
        )
    }
}

} // verus!
