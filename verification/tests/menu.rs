use std::cell::RefCell;
use std::rc::Rc;

use systray::{Application, NativeCommand, SystrayError, SystrayEvent};

type Cb = Box<dyn Fn()>;

#[test]
fn menu_indices_start_at_zero_and_increase_without_gaps() {
    let mut app: Application<Cb> = Application::new();
    let i0 = app.add_menu_item(&"First".to_string(), Box::new(|| {})).unwrap();
    let i1 = app.add_menu_separator().unwrap();
    let i2 = app.add_menu_item(&"Second".to_string(), Box::new(|| {})).unwrap();
    let i3 = app.add_menu_separator().unwrap();
    let i4 = app.add_menu_item(&"Third".to_string(), Box::new(|| {})).unwrap();
    assert_eq!(vec![i0, i1, i2, i3, i4], vec![0, 1, 2, 3, 4]);

    let cmds = app.take_commands();
    assert_eq!(cmds.len(), 5);
    assert!(matches!(&cmds[0], NativeCommand::AddMenuItem { index: 0, label } if label == "First"));
    assert!(matches!(&cmds[1], NativeCommand::AddMenuSeparator { index: 1 }));
    assert!(
        matches!(&cmds[2], NativeCommand::AddMenuItem { index: 2, label } if label == "Second")
    );
    assert!(matches!(&cmds[3], NativeCommand::AddMenuSeparator { index: 3 }));
    assert!(matches!(&cmds[4], NativeCommand::AddMenuItem { index: 4, label } if label == "Third"));
}

#[test]
fn empty_item_name_is_rejected_and_changes_nothing() {
    let mut app: Application<Cb> = Application::new();
    let r = app.add_menu_item(&String::new(), Box::new(|| {}));
    match r {
        Err(SystrayError::OsError(detail)) => {
            assert_eq!(detail, "add_menu_item: empty item name");
        },
        other => panic!("expected an OsError, got {:?}", other.map_err(|e| e.message())),
    }
    assert!(app.take_commands().is_empty());
    let idx = app.add_menu_item(&"Real".to_string(), Box::new(|| {})).unwrap();
    assert_eq!(idx, 0);
}

#[test]
fn activation_dispatches_the_right_callback() {
    let log: Rc<RefCell<Vec<&'static str>>> = Rc::new(RefCell::new(Vec::new()));
    let mut app: Application<Cb> = Application::new();

    let l = Rc::clone(&log);
    let quit_idx = app
        .add_menu_item(&"Quit".to_string(), Box::new(move || l.borrow_mut().push("quit")))
        .unwrap();
    assert_eq!(quit_idx, 0);
    let sep_idx = app.add_menu_separator().unwrap();
    assert_eq!(sep_idx, 1);
    let l = Rc::clone(&log);
    let about_idx = app
        .add_menu_item(&"About".to_string(), Box::new(move || l.borrow_mut().push("about")))
        .unwrap();
    assert_eq!(about_idx, 2);

    let handled = app.dispatch(&SystrayEvent::MenuItemClick(0));
    assert!(handled);
    assert_eq!(*log.borrow(), vec!["quit"]);
}

#[test]
fn separator_and_unknown_indices_dispatch_nothing() {
    let calls = Rc::new(RefCell::new(0u32));
    let mut app: Application<Cb> = Application::new();
    let c = Rc::clone(&calls);
    app.add_menu_item(&"Entry".to_string(), Box::new(move || *c.borrow_mut() += 1)).unwrap();
    let sep = app.add_menu_separator().unwrap();

    assert!(!app.dispatch(&SystrayEvent::MenuItemClick(sep)));
    assert!(!app.dispatch(&SystrayEvent::MenuItemClick(99)));
    assert!(!app.dispatch(&SystrayEvent::LeftButtonClick));
    assert_eq!(*calls.borrow(), 0);
}

#[test]
fn dispatch_invokes_a_callback_exactly_once() {
    let calls = Rc::new(RefCell::new(0u32));
    let mut app: Application<Cb> = Application::new();
    let c = Rc::clone(&calls);
    let idx = app
        .add_menu_item(&"Count".to_string(), Box::new(move || *c.borrow_mut() += 1))
        .unwrap();

    assert!(app.dispatch(&SystrayEvent::MenuItemClick(idx)));
    assert_eq!(*calls.borrow(), 1);
    assert!(app.dispatch(&SystrayEvent::MenuItemClick(idx)));
    assert_eq!(*calls.borrow(), 2);
}
