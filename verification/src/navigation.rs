//! The state of the example application: two screens behind two tabs, and a
//! list of users that is loaded the first time its screen is shown.
//!
//! [`App::update`] takes a message and says what the host has to do next; it
//! does none of it itself.

use crate::top;
use crate::users;
use vstd::prelude::*;

verus! {

/// A user, by name.
pub type User = String;

/// The users, as far as they are known.
#[derive(Debug)]
pub enum Users {
    /// The users have not arrived yet.
    Loading,
    /// The users have arrived.
    Loaded(Vec<User>),
}

impl Default for Users {
    fn default() -> (users: Self)
        ensures
            users is Loading,
    {
        Users::Loading
    }
}

/// The screen that is shown.
#[derive(Clone, Copy, Debug)]
pub enum Screen {
    /// The top screen.
    Top(top::Screen),
    /// The list of users.
    Users,
}

impl Default for Screen {
    fn default() -> (screen: Self)
        ensures
            screen is Top,
    {
        Screen::Top(top::Screen)
    }
}

impl Screen {
    /// The name of the screen, which is the label of its tab: `"Top"` or
    /// `"Users"`.
    pub open spec fn spec_title(&self) -> Seq<char> {
        match self {
            Screen::Top(_) => "Top"@,
            Screen::Users => "Users"@,
        }
    }

    /// The name of the screen.
    pub fn title(&self) -> (title: &'static str)
        ensures
            title@ == self.spec_title(),
    {
        match self {
            Screen::Top(_) => "Top",
            Screen::Users => "Users",
        }
    }
}

/// What can happen to the application.
#[derive(Debug)]
pub enum Message {
    /// A tab was chosen.
    Navigate(Screen),
    /// A message to the top screen.
    Top(top::Message),
    /// A message to the users screen.
    Users(users::Message),
    /// The users arrived, or loading them failed.
    LoadUsers(Result<Vec<String>, String>),
}

/// What the host has to do after a message.
#[derive(Debug)]
pub enum Action {
    /// Nothing.
    Nothing,
    /// Load the users, and send what comes of it as [`Message::LoadUsers`].
    LoadUsers,
    /// Report that loading the users failed, with the reason.
    ReportFailure(String),
}

/// The application: the screen it shows and the users it knows.
#[derive(Debug)]
pub struct App {
    pub screen: Screen,
    pub users: Users,
}

/// The state of the application after `message`.
///
/// Choosing a tab shows its screen. Users that arrived are kept. A failure,
/// and a message to a screen, change nothing.
pub open spec fn state_after(app: App, message: Message) -> App {
    match message {
        Message::Navigate(screen) => App { screen, users: app.users },
        Message::LoadUsers(Ok(users)) => App { screen: app.screen, users: Users::Loaded(users) },
        _ => app,
    }
}

/// What the host has to do after `message`: load the users when their screen
/// is chosen and they have not arrived yet, report a failure when loading
/// failed, and nothing else.
pub open spec fn action_after(app: App, message: Message) -> Action {
    match message {
        Message::Navigate(Screen::Users) => if app.users is Loading {
            Action::LoadUsers
        } else {
            Action::Nothing
        },
        Message::LoadUsers(Err(error)) => Action::ReportFailure(error),
        _ => Action::Nothing,
    }
}

impl App {
    /// The application as it starts: on the top screen, without users.
    pub fn new() -> (app: Self)
        ensures
            app.screen is Top,
            app.users is Loading,
    {
        App { screen: Screen::Top(top::Screen), users: Users::Loading }
    }

    /// Takes a message: moves to [`state_after`] and returns
    /// [`action_after`].
    pub fn update(&mut self, message: Message) -> (action: Action)
        ensures
            *final(self) == state_after(*old(self), message),
            action == action_after(*old(self), message),
    {
        match message {
            Message::Navigate(Screen::Users) => {
                self.screen = Screen::Users;
                if let Users::Loading = self.users {
                    return Action::LoadUsers;
                }
            },
            Message::Navigate(other_screen) => {
                self.screen = other_screen;
            },
            Message::Top(message) => {
                if let Screen::Top(screen) = &mut self.screen {
                    screen.update(message);
                }
            },
            Message::Users(message) => {
                if let Screen::Users = self.screen {
                    let _ = users::update(message);
                }
            },
            Message::LoadUsers(result) => match result {
                Ok(users) => {
                    self.users = Users::Loaded(users);
                },
                Err(error) => {
                    return Action::ReportFailure(error);
                },
            },
        }
        Action::Nothing
    }
}

impl Default for App {
    fn default() -> (app: Self)
        ensures
            app.screen is Top,
            app.users is Loading,
    {
        App::new()
    }
}

} // verus!
