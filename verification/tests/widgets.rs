use oxidizer::widget::Button;
use oxidizer::widget::Checkbox;
use oxidizer::widget::Column;
use oxidizer::widget::Entry;
use oxidizer::widget::Row;
use oxidizer::OptionalHandler;
use oxidizer::Widget;

#[derive(Debug, Default, Eq, PartialEq)]
struct Action;

fn sample_row() -> Widget<Action> {
    Widget::from(Row {
        children: vec![
            Widget::from(Entry {
                value: "".into(),
                handler: OptionalHandler::Absent,
            }),
            Widget::from(Button {
                label: "Add".into(),
                handler: OptionalHandler::Absent,
            }),
        ],
    })
}

#[test]
fn concrete_scenario() {
    let root = sample_row();

    assert_eq!(root.get(&Vec::<usize>::new()), Some(&root));
    assert_eq!(
        root.get(&vec![0usize]),
        Some(&Widget::from(Entry {
            value: "".into(),
            handler: OptionalHandler::Absent,
        }))
    );
    assert_eq!(
        root.get(&vec![1usize]),
        Some(&Widget::from(Button {
            label: "Add".into(),
            handler: OptionalHandler::Absent,
        }))
    );
    assert_eq!(root.get(&vec![2usize]), None);
    assert_eq!(root.get(&vec![0usize, 0usize]), None);
}

#[test]
fn index() {
    let root = sample_row();

    // wherever get returns a node, the index operation returns the same node
    assert_eq!(Some(root.index(&Vec::<usize>::new())), root.get(&Vec::<usize>::new()));
    assert_eq!(Some(root.index(&vec![0usize])), root.get(&vec![0usize]));
    assert_eq!(Some(root.index(&vec![1usize])), root.get(&vec![1usize]));
}

#[test]
fn children() {
    let entry = Widget::<Action>::from(Entry {
        value: "hi".into(),
        handler: OptionalHandler::Absent,
    });
    assert_eq!(entry.children(), &[] as &[Widget<Action>]);

    let root = sample_row();
    assert_eq!(root.children().len(), 2);
    assert_eq!(&root.children()[1], root.index(&vec![1usize]));

    let col = Widget::<Action>::from(Column { children: vec![sample_row()] });
    assert_eq!(col.children(), &[sample_row()][..]);
}

#[test]
fn clone() {
    let root = sample_row();
    let copy = root.clone();
    // a deep copy is value-equal to the original
    assert_eq!(copy, root);
    // the copy is its own tree: dropping the original leaves it intact
    drop(root);
    assert_eq!(copy.get(&vec![1usize]).unwrap().children().len(), 0);

    let boxed = Widget::<Action>::from(Checkbox {
        label: "done".into(),
        value: true,
        handler: OptionalHandler::Absent,
    });
    assert_eq!(boxed.clone(), boxed);
}

#[test]
fn get_reaches_every_enumerable_path() {
    // a nested tree: Column [ Row [ Entry, Button ], Checkbox ]
    let root = Widget::<Action>::from(Column {
        children: vec![
            sample_row(),
            Widget::from(Checkbox {
                label: "done".into(),
                value: false,
                handler: OptionalHandler::Absent,
            }),
        ],
    });

    // walk the tree, enumerating every (path, node) pair
    let mut pending: Vec<(Vec<usize>, &Widget<Action>)> = vec![(vec![], &root)];
    let mut visited: usize = 0;
    while let Some((path, node)) = pending.pop() {
        visited += 1;
        // the path reaches exactly the node it was enumerated from
        assert_eq!(root.get(&path), Some(node));
        assert_eq!(root.index(&path), node);
        // one step past the node's last child reaches nothing
        let mut beyond = path.clone();
        beyond.push(node.children().len());
        assert_eq!(root.get(&beyond), None);
        for (i, child) in node.children().iter().enumerate() {
            let mut next = path.clone();
            next.push(i);
            pending.push((next, child));
        }
    }
    assert_eq!(visited, 5);
}

#[test]
fn row_column_hashes_differ() {
    let row = Widget::<Action>::from(Row { children: vec![] });
    let col = Widget::<Action>::from(Column { children: vec![] });
    assert_ne!(row, col);
    assert_ne!(row.structural_hash(), col.structural_hash());
}

#[test]
fn hash_values() {
    // the empty containers: seed 7, then the variant tag folded in
    let row = Widget::<Action>::from(Row { children: vec![] });
    assert_eq!(row.structural_hash(), 7 * 31 + 1);
    let col = Widget::<Action>::from(Column { children: vec![] });
    assert_eq!(col.structural_hash(), 7 * 31 + 2);

    // an empty entry without a handler: text hash 7, absent-handler tag 11
    let entry = Widget::<Action>::from(Entry {
        value: "".into(),
        handler: OptionalHandler::Absent,
    });
    assert_eq!(entry.structural_hash(), (7u64 * 31 + 11) * 31 + 4);

    // hashing is value-determined: equal trees hash equal
    assert_eq!(sample_row().structural_hash(), sample_row().structural_hash());
}

#[test]
fn conversions() {
    let b = Button::<Action> {
        label: "Add".into(),
        handler: OptionalHandler::Absent,
    };
    assert_eq!(
        Widget::from(b.clone()),
        Widget::Button(Button { label: "Add".into(), handler: OptionalHandler::Absent })
    );
    assert!(matches!(Widget::from(Row::<Action>::default()), Widget::Row(_)));
    assert!(matches!(Widget::from(Column::<Action>::default()), Widget::Column(_)));
    assert!(matches!(Widget::from(Entry::<Action>::default()), Widget::Entry(_)));
    assert!(matches!(Widget::from(Checkbox::<Action>::default()), Widget::Checkbox(_)));

    // the face of a leaf: the same values, minus the handler
    assert_eq!(b.face(), oxidizer::face::Button { label: "Add".into() });
}
