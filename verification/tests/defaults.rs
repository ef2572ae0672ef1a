use oxidizer::event::Changed;
use oxidizer::event::Clicked;
use oxidizer::event::Entered;
use oxidizer::event::Toggled;
use oxidizer::widget::Button;
use oxidizer::widget::Checkbox;
use oxidizer::widget::Column;
use oxidizer::widget::Entry;
use oxidizer::widget::Row;
use oxidizer::OptionalHandler;

#[derive(Debug, Default, Eq, PartialEq)]
struct Action;

#[test]
fn changed_default() {
    assert_eq!(Entered::default(), Changed { value: "".into() });
    assert_eq!(Toggled::default(), Changed { value: false });
    assert_eq!(Clicked::default(), Clicked { value: () });
}

#[test]
fn button_default() {
    assert_eq!(
        Button::<Action>::default(),
        Button {
            label: "".into(),
            handler: OptionalHandler::Absent,
        }
    );
}

#[test]
fn checkbox_default() {
    assert_eq!(
        Checkbox::<Action>::default(),
        Checkbox {
            value: false,
            label: "".into(),
            handler: OptionalHandler::Absent,
        }
    );
}

#[test]
fn column_default() {
    assert_eq!(Column::<Action>::default(), Column { children: vec![] });
}

#[test]
fn entry_default() {
    assert_eq!(
        Entry::<Action>::default(),
        Entry {
            value: "".into(),
            handler: OptionalHandler::Absent,
        }
    );
}

#[test]
fn row_default() {
    assert_eq!(Row::<Action>::default(), Row { children: vec![] });
}
