use oxidizer::event::Changed;
use oxidizer::event::Clicked;
use oxidizer::event::Entered;
use oxidizer::event::Toggled;
use oxidizer::Event;
use oxidizer::Kind;

#[test]
fn from_entered() {
    let e = Entered { value: "hi".into() };
    assert_eq!(Event::from(e.clone()), Event::Entered(Changed { value: "hi".into() }));
    assert_eq!(e.widen(), Event::Entered(Changed { value: "hi".into() }));
}

#[test]
fn from_toggled() {
    let e = Toggled { value: true };
    assert_eq!(Event::from(e.clone()), Event::Toggled(Changed { value: true }));
    assert_eq!(e.widen(), Event::Toggled(Changed { value: true }));
}

#[test]
fn from_clicked() {
    let e = Clicked { value: () };
    assert_eq!(Event::from(e.clone()), Event::Clicked(Changed { value: () }));
    assert_eq!(e.widen(), Event::Clicked(Changed { value: () }));
}

#[test]
fn event_round_trip() {
    // wrapping, then matching the payload back out, loses nothing
    let original = Entered { value: "text".into() };
    match Event::from(original.clone()) {
        Event::Entered(inner) => assert_eq!(inner, original),
        other => panic!("wrong variant: {:?}", other),
    }
    // an event widens to itself
    let e = Event::Toggled(Toggled { value: false });
    assert_eq!(e.clone().widen(), e);
}

#[test]
fn event_clone() {
    let e = Event::Entered(Entered { value: "abc".into() });
    assert_eq!(e.clone(), e);
    let e = Event::Clicked(Clicked { value: () });
    assert_eq!(e.clone(), e);
}
