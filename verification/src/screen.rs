//! The desktop window's state: what it shows, and how each message moves
//! it. Drawing, and running what the window asks for, stay outside.
//!
//! A listing that arrives for a person who is no longer selected is dropped:
//! answers may come back in any order, and a late one must not cover the
//! person on screen.

use vstd::prelude::*;

use crate::source::{Person, PersonId};

verus! {

/// What the sidebar has selected.
#[derive(Debug, Clone, Copy, PartialEq, Eq, Structural)]
pub enum Selection {
    Dashboard,
    Person(PersonId),
    Settings,
}

/// The selected person's items, as far as they have arrived.
#[derive(Debug, Clone, PartialEq, Eq)]
pub enum Listing<L> {
    Loading,
    Loaded(Vec<L>),
    Failed(String),
}

/// The window.
#[derive(Debug, Clone, PartialEq, Eq)]
pub enum Screen<L> {
    /// The ledger is being opened.
    Opening,
    /// It could not be opened; why.
    Unavailable(String),
    /// Open: the persons, what is selected, and the listing shown.
    Ready { persons: Vec<Person>, selection: Selection, listing: Listing<L> },
}

/// The ledger opened, with its persons.
#[derive(Debug, Clone, PartialEq, Eq)]
pub struct Opened {
    pub persons: Vec<Person>,
}

/// What happened.
#[derive(Debug, PartialEq, Eq)]
pub enum Message<L> {
    /// Opening the ledger finished.
    Opened(Result<Opened, String>),
    /// A person, the dashboard or the settings was selected.
    Selected(Selection),
    /// A person's items arrived, or failed to.
    Listed(PersonId, Result<Vec<L>, String>),
}

/// What the window asks to be done next.
#[derive(Debug, Clone, Copy, PartialEq, Eq, Structural)]
pub enum Command {
    Nothing,
    /// Read this person's items and answer with [`Message::Listed`].
    LoadItems(PersonId),
}

/// Moves the window by one message.
///
/// Opening shows the dashboard; a failure to open says why. Selecting a
/// person starts loading that person's items. A listing is taken only when
/// it is for the person selected now; anything arriving before the window is
/// open is ignored.
pub fn update<L>(screen: &mut Screen<L>, message: Message<L>) -> (r: Command)
    ensures
        match message {
            Message::Opened(Ok(o)) => r == Command::Nothing && *final(screen) == (Screen::<L>::Ready {
                persons: o.persons,
                selection: Selection::Dashboard,
                listing: Listing::<L>::Loading,
            }),
            Message::Opened(Err(why)) => r == Command::Nothing && *final(screen)
                == Screen::<L>::Unavailable(why),
            Message::Selected(selection) => match *old(screen) {
                Screen::Ready { persons, listing, .. } => match selection {
                    Selection::Person(p) => r == Command::LoadItems(p) && *final(screen) == (
                    Screen::Ready { persons, selection, listing: Listing::<L>::Loading }),
                    _ => r == Command::Nothing && *final(screen) == (Screen::<L>::Ready {
                        persons,
                        selection,
                        listing,
                    }),
                },
                _ => r == Command::Nothing && *final(screen) == *old(screen),
            },
            Message::Listed(p, result) => r == Command::Nothing && match *old(screen) {
                Screen::Ready { persons, selection, listing } => if selection == Selection::Person(
                    p,
                ) {
                    *final(screen) == (Screen::<L>::Ready {
                        persons,
                        selection,
                        listing: match result {
                            Ok(v) => Listing::Loaded(v),
                            Err(why) => Listing::Failed(why),
                        },
                    })
                } else {
                    *final(screen) == *old(screen)
                },
                _ => *final(screen) == *old(screen),
            },
        },
{
    match message {
        Message::Opened(Ok(opened)) => {
            *screen = Screen::Ready {
                persons: opened.persons,
                selection: Selection::Dashboard,
                listing: Listing::Loading,
            };
            Command::Nothing
        },
        Message::Opened(Err(why)) => {
            *screen = Screen::Unavailable(why);
            Command::Nothing
        },
        Message::Selected(selection) => {
            let mut current = Screen::Opening;
            std::mem::swap(screen, &mut current);
            match current {
                Screen::Ready { persons, listing, .. } => match selection {
                    Selection::Person(p) => {
                        *screen = Screen::Ready { persons, selection, listing: Listing::Loading };
                        Command::LoadItems(p)
                    },
                    Selection::Dashboard | Selection::Settings => {
                        *screen = Screen::Ready { persons, selection, listing };
                        Command::Nothing
                    },
                },
                other => {
                    *screen = other;
                    Command::Nothing
                },
            }
        },
        Message::Listed(p, result) => {
            let mut current = Screen::Opening;
            std::mem::swap(screen, &mut current);
            match current {
                Screen::Ready { persons, selection, listing } => {
                    if selection == Selection::Person(p) {
                        let listing = match result {
                            Ok(v) => Listing::Loaded(v),
                            Err(why) => Listing::Failed(why),
                        };
                        *screen = Screen::Ready { persons, selection, listing };
                    } else {
                        *screen = Screen::Ready { persons, selection, listing };
                    }
                    Command::Nothing
                },
                other => {
                    *screen = other;
                    Command::Nothing
                },
            }
        },
    }
}

/// The selected person, when a person is selected and is among those
/// known.
pub fn selected_person<'a>(persons: &'a Vec<Person>, selection: Selection) -> (r: Option<&'a Person>)
    ensures
        match selection {
            Selection::Person(id) => match r {
                Some(p) => p.id == id && persons@.contains(*p),
                None => forall|i: int| 0 <= i < persons@.len() ==> (#[trigger] persons@[i]).id != id,
            },
            _ => r is None,
        },
{
    match selection {
        Selection::Person(id) => {
            let mut i: usize = 0;
            while i < persons.len()
                invariant
                    i <= persons@.len(),
                    selection == Selection::Person(id),
                    forall|j: int| 0 <= j < i ==> (#[trigger] persons@[j]).id != id,
                decreases persons@.len() - i,
            {
                let p: &Person = &persons[i];
                if p.id == id {
                    assert(persons@.contains(*p));
                    return Some(p);
                }
                i = i + 1;
            }
            None
        },
        Selection::Dashboard | Selection::Settings => None,
    }
}

} // verus!
