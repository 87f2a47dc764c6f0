use split_pane::navigation::{Action, App, Message, Screen, Users};
use split_pane::top;

fn loaded(app: &App) -> Option<Vec<String>> {
    match &app.users {
        Users::Loading => None,
        Users::Loaded(users) => Some(users.clone()),
    }
}

#[test]
fn starts_on_the_top_screen_without_users() {
    for app in [App::new(), App::default()] {
        assert!(matches!(app.screen, Screen::Top(_)));
        assert!(matches!(app.users, Users::Loading));
    }
    assert!(matches!(Screen::default(), Screen::Top(_)));
    assert!(matches!(Users::default(), Users::Loading));
    assert_eq!(top::Screen::default(), top::Screen);
}

#[test]
fn screens_are_named_after_their_tabs() {
    assert_eq!(Screen::Top(top::Screen).title(), "Top");
    assert_eq!(Screen::Users.title(), "Users");
}

#[test]
fn first_visit_to_the_users_loads_them() {
    let mut app = App::new();
    assert!(matches!(app.update(Message::Navigate(Screen::Users)), Action::LoadUsers));
    assert!(matches!(app.screen, Screen::Users));
    assert!(matches!(app.users, Users::Loading));
}

#[test]
fn users_that_arrived_are_kept() {
    let mut app = App::new();
    app.update(Message::Navigate(Screen::Users));
    let names = vec!["Alice".to_string(), "Bob".to_string()];
    assert!(matches!(app.update(Message::LoadUsers(Ok(names.clone()))), Action::Nothing));
    assert_eq!(loaded(&app), Some(names.clone()));
    assert!(matches!(app.screen, Screen::Users));
    assert!(matches!(app.update(Message::Navigate(Screen::Top(top::Screen))), Action::Nothing));
    assert!(matches!(app.screen, Screen::Top(_)));
    assert!(matches!(app.update(Message::Navigate(Screen::Users)), Action::Nothing));
    assert!(matches!(app.screen, Screen::Users));
    assert_eq!(loaded(&app), Some(names));
}

#[test]
fn users_are_asked_for_again_while_they_have_not_arrived() {
    let mut app = App::new();
    assert!(matches!(app.update(Message::Navigate(Screen::Users)), Action::LoadUsers));
    app.update(Message::Navigate(Screen::Top(top::Screen)));
    assert!(matches!(app.update(Message::Navigate(Screen::Users)), Action::LoadUsers));
}

#[test]
fn a_failure_is_reported_and_changes_nothing() {
    let mut app = App::new();
    app.update(Message::Navigate(Screen::Users));
    match app.update(Message::LoadUsers(Err("no network".to_string()))) {
        Action::ReportFailure(reason) => assert_eq!(reason, "no network"),
        other => panic!("{other:?}"),
    }
    assert!(matches!(app.screen, Screen::Users));
    assert!(matches!(app.users, Users::Loading));
}

#[test]
fn users_can_arrive_on_any_screen() {
    let mut app = App::new();
    assert!(matches!(app.update(Message::LoadUsers(Ok(vec![]))), Action::Nothing));
    assert_eq!(loaded(&app), Some(vec![]));
    assert!(matches!(app.screen, Screen::Top(_)));
}

#[test]
fn choosing_the_top_screen_loads_nothing() {
    let mut app = App::new();
    assert!(matches!(app.update(Message::Navigate(Screen::Top(top::Screen))), Action::Nothing));
    assert!(matches!(app.screen, Screen::Top(_)));
    assert!(matches!(app.users, Users::Loading));
}
