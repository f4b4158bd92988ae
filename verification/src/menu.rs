//! The sync cycle of an active session: fetch, present for editing, update,
//! and at the user's wish log out. One request is in flight at a time,
//! because editing happens strictly between a fetch and the next update.

use crate::envelope::Vault;
use crate::error::SyncError;
use vstd::prelude::*;

verus! {

/// Where the sync cycle stands.
#[derive(Debug, Clone, Copy, PartialEq, Eq, Structural)]
pub enum MenuState {
    /// A fetch is in flight.
    Fetching,
    /// The vault is shown and the user edits it.
    Editing,
    /// An update is in flight; `logout` tells whether the user asked to
    /// log out after it.
    Updating { logout: bool },
    /// A logout is in flight.
    LoggingOut,
    /// The cycle is over.
    Finished,
}

/// What happened outside.
#[derive(Debug)]
pub enum MenuEvent {
    /// The fetch ended.
    Fetched(Result<Vault, SyncError>),
    /// The user finished editing: the entries, serialized, and whether to
    /// log out after storing them.
    Edited { plaintext: Vec<u8>, logout: bool },
    /// The update ended.
    Updated(Result<(), SyncError>),
    /// The logout ended.
    LoggedOut(Result<(), SyncError>),
}

/// What to do next outside.
#[derive(Debug, Clone)]
pub enum MenuAction {
    /// Fetch the vault.
    Fetch,
    /// Show the vault, or the invitation to add a first entry where it is
    /// empty, and let the user edit.
    Present { vault: Vault },
    /// Store these serialized entries.
    Update { plaintext: Vec<u8> },
    /// Log out.
    Logout,
    /// Show the failure under this code and leave the menu.
    Report { error: SyncError, code: u16 },
    /// Leave the menu.
    Leave,
    /// The event is none that the state waits for: do nothing.
    Ignore,
}

/// The mathematical value of a `MenuEvent`.
pub enum MenuEventView {
    Fetched(Result<Option<Seq<u8>>, SyncError>),
    Edited { plaintext: Seq<u8>, logout: bool },
    Updated(Result<(), SyncError>),
    LoggedOut(Result<(), SyncError>),
}

/// The mathematical value of a `MenuAction`.
pub enum MenuActionView {
    Fetch,
    Present { vault: Option<Seq<u8>> },
    Update { plaintext: Seq<u8> },
    Logout,
    Report { error: SyncError, code: u16 },
    Leave,
    Ignore,
}

impl View for MenuEvent {
    type V = MenuEventView;

    open spec fn view(&self) -> MenuEventView {
        match self {
            MenuEvent::Fetched(Ok(vault)) => MenuEventView::Fetched(Ok(vault@)),
            MenuEvent::Fetched(Err(e)) => MenuEventView::Fetched(Err(*e)),
            MenuEvent::Edited { plaintext, logout } => MenuEventView::Edited {
                plaintext: plaintext@,
                logout: *logout,
            },
            MenuEvent::Updated(outcome) => MenuEventView::Updated(*outcome),
            MenuEvent::LoggedOut(outcome) => MenuEventView::LoggedOut(*outcome),
        }
    }
}

impl View for MenuAction {
    type V = MenuActionView;

    open spec fn view(&self) -> MenuActionView {
        match self {
            MenuAction::Fetch => MenuActionView::Fetch,
            MenuAction::Present { vault } => MenuActionView::Present { vault: vault@ },
            MenuAction::Update { plaintext } => MenuActionView::Update { plaintext: plaintext@ },
            MenuAction::Logout => MenuActionView::Logout,
            MenuAction::Report { error, code } => MenuActionView::Report {
                error: *error,
                code: *code,
            },
            MenuAction::Leave => MenuActionView::Leave,
            MenuAction::Ignore => MenuActionView::Ignore,
        }
    }
}

/// The code under which a failure is shown: the status code where the
/// backend gave one, and 418 for a failure without a status.
pub open spec fn code_of(error: SyncError) -> u16 {
    match error {
        SyncError::MalformedRequest => 400,
        SyncError::Unauthorized => 401,
        SyncError::UnknownAccount => 404,
        SyncError::AccountExists => 409,
        SyncError::BackendFault => 500,
        SyncError::UnexpectedStatus(status) => status,
        _ => 418,
    }
}

/// The step that `main_menue` takes.
///
/// - A fetched vault is presented; a failed fetch is reported and ends the cycle.
/// - Edited entries are stored.
/// - After a stored vault comes the logout if the user asked for it, and the
///   next fetch if not; a failed update is reported and ends the cycle.
/// - After the logout the cycle is over, whether the backend acknowledged it
///   or not.
/// - Any other event is ignored.
pub open spec fn menu_step(state: MenuState, event: MenuEventView) -> (MenuState, MenuActionView) {
    match (state, event) {
        (MenuState::Fetching, MenuEventView::Fetched(Ok(vault))) => (
            MenuState::Editing,
            MenuActionView::Present { vault },
        ),
        (MenuState::Fetching, MenuEventView::Fetched(Err(error))) => (
            MenuState::Finished,
            MenuActionView::Report { error, code: code_of(error) },
        ),
        (MenuState::Editing, MenuEventView::Edited { plaintext, logout }) => (
            MenuState::Updating { logout },
            MenuActionView::Update { plaintext },
        ),
        (MenuState::Updating { logout }, MenuEventView::Updated(Ok(_))) => if logout {
            (MenuState::LoggingOut, MenuActionView::Logout)
        } else {
            (MenuState::Fetching, MenuActionView::Fetch)
        },
        (MenuState::Updating { logout }, MenuEventView::Updated(Err(error))) => (
            MenuState::Finished,
            MenuActionView::Report { error, code: code_of(error) },
        ),
        (MenuState::LoggingOut, MenuEventView::LoggedOut(_)) => (
            MenuState::Finished,
            MenuActionView::Leave,
        ),
        _ => (state, MenuActionView::Ignore),
    }
}

/// The code under which a failure is shown.
pub fn error_code(error: &SyncError) -> (code: u16)
    ensures
        code == code_of(*error),
{
    match error {
        SyncError::MalformedRequest => 400,
        SyncError::Unauthorized => 401,
        SyncError::UnknownAccount => 404,
        SyncError::AccountExists => 409,
        SyncError::BackendFault => 500,
        SyncError::UnexpectedStatus(status) => *status,
        _ => 418,
    }
}

/// The beginning of the sync cycle: a fetch.
pub fn open_menu() -> (r: (MenuState, MenuAction))
    ensures
        r.0 == MenuState::Fetching,
        r.1@ == MenuActionView::Fetch,
{
    (MenuState::Fetching, MenuAction::Fetch)
}

/// Takes one step of the sync cycle.
pub fn main_menue(state: MenuState, event: MenuEvent) -> (r: (MenuState, MenuAction))
    ensures
        (r.0, r.1@) == menu_step(state, event@),
{
    match (state, event) {
        (MenuState::Fetching, MenuEvent::Fetched(Ok(vault))) => (
            MenuState::Editing,
            MenuAction::Present { vault },
        ),
        (MenuState::Fetching, MenuEvent::Fetched(Err(error))) => {
            let code = error_code(&error);
            (MenuState::Finished, MenuAction::Report { error, code })
        },
        (MenuState::Editing, MenuEvent::Edited { plaintext, logout }) => (
            MenuState::Updating { logout },
            MenuAction::Update { plaintext },
        ),
        (MenuState::Updating { logout }, MenuEvent::Updated(Ok(_))) => {
            if logout {
                (MenuState::LoggingOut, MenuAction::Logout)
            } else {
                (MenuState::Fetching, MenuAction::Fetch)
            }
        },
        (MenuState::Updating { logout }, MenuEvent::Updated(Err(error))) => {
            let code = error_code(&error);
            (MenuState::Finished, MenuAction::Report { error, code })
        },
        (MenuState::LoggingOut, MenuEvent::LoggedOut(_)) => (
            MenuState::Finished,
            MenuAction::Leave,
        ),
        (state, _) => (state, MenuAction::Ignore),
    }
}

} // verus!
