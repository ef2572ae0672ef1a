use oxidizer::event::Changed;
use oxidizer::event::Clicked;
use oxidizer::event::Entered;
use oxidizer::face;
use oxidizer::Dispatch;
use oxidizer::Event;
use oxidizer::FnRef;
use oxidizer::GenericHandler;
use oxidizer::Handler;
use oxidizer::OptionalHandler;

#[derive(Debug, Default, Eq, PartialEq)]
struct Action;

#[test]
fn new() {
    let f = FnRef::<face::Widget, Event, Action>::new(7);
    let h = Handler::new(f);
    assert_eq!(h.storage(), GenericHandler::A(7));
}

#[test]
fn from() {
    let a = FnRef::<face::Button, Entered, Action>::new(1);
    let b = FnRef::<face::Widget, Entered, Action>::new(2);
    let c = FnRef::<face::Button, Event, Action>::new(3);
    let d = FnRef::<face::Widget, Event, Action>::new(4);

    type H = Handler<face::Button, Entered, Action>;
    type O = OptionalHandler<face::Button, Entered, Action>;

    assert_eq!(H::from_narrow(a.clone()).storage(), GenericHandler::A(1));
    assert_eq!(H::from_generic_widget(b.clone()).storage(), GenericHandler::B(2));
    assert_eq!(H::from_generic_event(c.clone()).storage(), GenericHandler::C(3));
    assert_eq!(H::from_generic(d.clone()).storage(), GenericHandler::D(4));

    assert_eq!(O::from(a), OptionalHandler::Present(H::from_narrow(FnRef::new(1))));
    assert_eq!(
        O::from(H::from_generic_widget(b)),
        OptionalHandler::Present(H::from_generic_widget(FnRef::new(2)))
    );
    assert_eq!(
        O::from(H::from_generic_event(c)),
        OptionalHandler::Present(H::from_generic_event(FnRef::new(3)))
    );
    assert_eq!(
        O::from(H::from_generic(d)),
        OptionalHandler::Present(H::from_generic(FnRef::new(4)))
    );
}

#[test]
fn decay_strips_the_shape() {
    assert_eq!(GenericHandler::A(9).decay(), 9);
    assert_eq!(GenericHandler::B(9).decay(), 9);
    assert_eq!(GenericHandler::C(9).decay(), 9);
    assert_eq!(GenericHandler::D(9).decay(), 9);
    // decay ignores the shape; equality does not
    assert_ne!(GenericHandler::A(9), GenericHandler::D(9));
}

#[test]
fn handler_equality_is_identity() {
    type H = Handler<face::Button, Entered, Action>;

    // same shape, same identity: equal
    assert_eq!(H::from_narrow(FnRef::new(5)), H::from_narrow(FnRef::new(5)));
    // same shape, different identity: unequal
    assert_ne!(H::from_narrow(FnRef::new(5)), H::from_narrow(FnRef::new(6)));
    // same identity, different shape: unequal
    assert_ne!(
        H::from_narrow(FnRef::new(5)),
        H::from_generic(FnRef::new(5))
    );
    // a clone keeps both shape and identity
    let h = H::from_generic_widget(FnRef::new(9));
    assert_eq!(h.clone(), h);

    // the "no handler" state is a value of its own
    type O = OptionalHandler<face::Button, Entered, Action>;
    assert_eq!(O::default(), OptionalHandler::Absent);
    assert_ne!(O::from(H::from_narrow(FnRef::new(5))), OptionalHandler::Absent);
}

#[test]
fn widening_confluence() {
    for h in [
        Handler::<face::Widget, Event, Action>::new(FnRef::new(21)),
        Handler::<face::Widget, Event, Action>::from_generic(FnRef::new(21)),
    ] {
        let widget_first = Handler::<face::Button, Entered, Action>::narrow_event(
            Handler::<face::Button, Event, Action>::narrow_widget(h.clone()),
        );
        let event_first = Handler::<face::Button, Entered, Action>::narrow_widget(
            Handler::<face::Widget, Entered, Action>::narrow_event(h),
        );
        assert_eq!(widget_first, event_first);
        assert_eq!(widget_first.storage(), GenericHandler::D(21));
    }
}

#[test]
fn dispatch_shapes() {
    let btn = face::Button { label: "Add".into() };
    let click = Clicked { value: () };

    type H = Handler<face::Button, Clicked, Action>;

    match H::from_narrow(FnRef::new(1)).handle(btn.clone(), click.clone()) {
        Dispatch::Narrow { token, widget, event } => {
            assert_eq!(token, 1);
            assert_eq!(widget, btn);
            assert_eq!(event, click);
        }
        other => panic!("wrong dispatch: {:?}", other),
    }

    match H::from_generic_widget(FnRef::new(2)).handle(btn.clone(), click.clone()) {
        Dispatch::GenericWidget { token, widget, event } => {
            assert_eq!(token, 2);
            assert_eq!(widget, face::Widget::Button(btn.clone()));
            assert_eq!(event, click);
        }
        other => panic!("wrong dispatch: {:?}", other),
    }

    match H::from_generic_event(FnRef::new(3)).handle(btn.clone(), click.clone()) {
        Dispatch::GenericEvent { token, widget, event } => {
            assert_eq!(token, 3);
            assert_eq!(widget, btn);
            assert_eq!(event, Event::Clicked(click.clone()));
        }
        other => panic!("wrong dispatch: {:?}", other),
    }

    match H::from_generic(FnRef::new(4)).handle(btn.clone(), click.clone()) {
        Dispatch::Generic { token, widget, event } => {
            assert_eq!(token, 4);
            assert_eq!(widget, face::Widget::Button(btn));
            assert_eq!(event, Event::Clicked(click));
        }
        other => panic!("wrong dispatch: {:?}", other),
    }
}

#[test]
fn identity_dispatch() {
    // A host-side function table: tokens 1 and 2 name real functions.
    let narrow: fn(&face::Button, &Changed<()>) -> usize = |b, _| b.label.len();
    let generic: fn(&face::Widget, &Event) -> usize = |w, _| match w {
        face::Widget::Button(b) => 100 + b.label.len(),
        _ => 0,
    };

    let btn = face::Button { label: "Add".into() };
    let click = Clicked { value: () };

    // Shape A: the stored callback receives the arguments untouched.
    let h = Handler::<face::Button, Clicked, usize>::from_narrow(FnRef::new(1));
    let got = match h.handle(btn.clone(), click.clone()) {
        Dispatch::Narrow { token: 1, widget, event } => narrow(&widget, &event),
        other => panic!("wrong dispatch: {:?}", other),
    };
    assert_eq!(got, narrow(&btn, &click));

    // Shape D: the stored callback receives both arguments widened.
    let h = Handler::<face::Button, Clicked, usize>::from_generic(FnRef::new(2));
    let got = match h.handle(btn.clone(), click.clone()) {
        Dispatch::Generic { token: 2, widget, event } => generic(&widget, &event),
        other => panic!("wrong dispatch: {:?}", other),
    };
    assert_eq!(got, 103);
}
