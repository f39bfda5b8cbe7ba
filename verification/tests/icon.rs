use systray::{Application, IconResource, NativeCommand, SystrayError};

type Cb = Box<dyn Fn()>;

fn file(path: &str) -> IconResource {
    IconResource::File(path.to_string())
}

#[test]
fn showing_the_same_icon_twice_queues_one_native_call() {
    let mut app: Application<Cb> = Application::new();
    app.show_icon(file("a.ico")).unwrap();
    app.show_icon(file("a.ico")).unwrap();
    let cmds = app.take_commands();
    assert_eq!(cmds.len(), 1);
    assert!(
        matches!(&cmds[0], NativeCommand::SetIcon { resource } if *resource == file("a.ico"))
    );
}

#[test]
fn showing_two_different_icons_queues_two_native_calls() {
    let mut app: Application<Cb> = Application::new();
    app.show_icon(file("a.ico")).unwrap();
    app.show_icon(IconResource::Resource("app-icon".to_string())).unwrap();
    let cmds = app.take_commands();
    assert_eq!(cmds.len(), 2);
    assert!(
        matches!(&cmds[0], NativeCommand::SetIcon { resource } if *resource == file("a.ico"))
    );
    assert!(matches!(
        &cmds[1],
        NativeCommand::SetIcon { resource }
            if *resource == IconResource::Resource("app-icon".to_string())
    ));
}

#[test]
fn hiding_before_any_icon_succeeds_without_native_removal() {
    let mut app: Application<Cb> = Application::new();
    assert!(app.hide_icon().is_ok());
    assert!(app.take_commands().is_empty());
}

#[test]
fn reshowing_before_any_resource_reports_the_protocol_error() {
    let mut app: Application<Cb> = Application::new();
    let r = app.reshow_icon();
    assert!(matches!(r, Err(SystrayError::ShowIconWithoutSetError)));
    assert!(app.take_commands().is_empty());
}

#[test]
fn show_hide_show_queues_three_native_calls() {
    let mut app: Application<Cb> = Application::new();
    app.show_icon(file("a.ico")).unwrap();
    app.hide_icon().unwrap();
    app.show_icon(file("a.ico")).unwrap();
    let cmds = app.take_commands();
    assert_eq!(cmds.len(), 3);
    assert!(
        matches!(&cmds[0], NativeCommand::SetIcon { resource } if *resource == file("a.ico"))
    );
    assert!(matches!(&cmds[1], NativeCommand::RemoveIcon));
    assert!(
        matches!(&cmds[2], NativeCommand::SetIcon { resource } if *resource == file("a.ico"))
    );
}

#[test]
fn reshow_after_hide_redisplays_the_remembered_resource() {
    let mut app: Application<Cb> = Application::new();
    app.show_icon(file("a.ico")).unwrap();
    app.hide_icon().unwrap();
    app.reshow_icon().unwrap();
    let cmds = app.take_commands();
    assert_eq!(cmds.len(), 3);
    assert!(
        matches!(&cmds[2], NativeCommand::SetIcon { resource } if *resource == file("a.ico"))
    );
    // already shown again: a second reshow queues nothing
    app.reshow_icon().unwrap();
    assert!(app.take_commands().is_empty());
}

#[test]
fn hiding_while_hidden_still_queues_the_idempotent_removal() {
    let mut app: Application<Cb> = Application::new();
    app.show_icon(file("a.ico")).unwrap();
    app.hide_icon().unwrap();
    app.hide_icon().unwrap();
    let cmds = app.take_commands();
    assert_eq!(cmds.len(), 3);
    assert!(matches!(&cmds[1], NativeCommand::RemoveIcon));
    assert!(matches!(&cmds[2], NativeCommand::RemoveIcon));
}

#[test]
fn tooltip_is_truncated_to_the_native_limit() {
    let mut app: Application<Cb> = Application::new();
    let long: String = std::iter::repeat('x').take(200).collect();
    app.set_tooltip(&long).unwrap();
    let short = "status: fine".to_string();
    app.set_tooltip(&short).unwrap();
    let cmds = app.take_commands();
    assert_eq!(cmds.len(), 2);
    match &cmds[0] {
        NativeCommand::SetTooltip { text } => {
            assert_eq!(text.chars().count(), 127);
            assert!(text.chars().all(|c| c == 'x'));
        },
        other => panic!("expected a tooltip command, got {:?}", other),
    }
    assert!(matches!(&cmds[1], NativeCommand::SetTooltip { text } if text == "status: fine"));
}

#[test]
fn quit_removes_the_icon_and_then_destroys() {
    let mut app: Application<Cb> = Application::new();
    app.show_icon(file("a.ico")).unwrap();
    app.quit();
    let cmds = app.take_commands();
    assert_eq!(cmds.len(), 3);
    assert!(matches!(&cmds[1], NativeCommand::RemoveIcon));
    assert!(matches!(&cmds[2], NativeCommand::Destroy));
    // quitting again is a no-op
    app.quit();
    assert!(app.take_commands().is_empty());
}

#[test]
fn quit_without_an_icon_only_destroys() {
    let mut app: Application<Cb> = Application::new();
    app.quit();
    let cmds = app.take_commands();
    assert_eq!(cmds.len(), 1);
    assert!(matches!(&cmds[0], NativeCommand::Destroy));
}

#[test]
fn buffer_icons_compare_by_contents_and_size() {
    let mut app: Application<Cb> = Application::new();
    let buf = IconResource::Buffer { bytes: vec![1, 2, 3], width: 64, height: 64 };
    app.show_icon(buf.clone()).unwrap();
    app.show_icon(buf.clone()).unwrap();
    let cmds = app.take_commands();
    assert_eq!(cmds.len(), 1);

    // the same bytes at another size are a different resource
    app.show_icon(IconResource::Buffer { bytes: vec![1, 2, 3], width: 32, height: 32 }).unwrap();
    let cmds = app.take_commands();
    assert_eq!(cmds.len(), 1);
    assert!(matches!(
        &cmds[0],
        NativeCommand::SetIcon { resource: IconResource::Buffer { width: 32, height: 32, .. } }
    ));
}
