use passhub::envelope::Vault;
use passhub::error::SyncError;
use passhub::menu::{main_menue, open_menu, MenuAction, MenuEvent, MenuState};

#[test]
fn the_cycle_opens_with_a_fetch() {
    let (state, action) = open_menu();
    assert_eq!(state, MenuState::Fetching);
    assert!(matches!(action, MenuAction::Fetch));
}

#[test]
fn a_fetched_vault_is_presented() {
    let (state, action) = main_menue(
        MenuState::Fetching,
        MenuEvent::Fetched(Ok(Vault::Entries(b"[]".to_vec()))),
    );
    assert_eq!(state, MenuState::Editing);
    match action {
        MenuAction::Present { vault } => assert_eq!(vault, Vault::Entries(b"[]".to_vec())),
        other => panic!("{:?}", other),
    }
    let (state, action) = main_menue(MenuState::Fetching, MenuEvent::Fetched(Ok(Vault::Empty)));
    assert_eq!(state, MenuState::Editing);
    assert!(matches!(action, MenuAction::Present { vault: Vault::Empty }));
}

#[test]
fn a_failed_fetch_is_reported_and_ends_the_cycle() {
    for (error, code) in [
        (SyncError::Unauthorized, 401u16),
        (SyncError::BackendFault, 500),
        (SyncError::UnexpectedStatus(403), 403),
        (SyncError::Network, 418),
        (SyncError::Decryption, 418),
    ] {
        let (state, action) = main_menue(MenuState::Fetching, MenuEvent::Fetched(Err(error)));
        assert_eq!(state, MenuState::Finished);
        match action {
            MenuAction::Report { error: reported, code: shown } => {
                assert_eq!(reported, error);
                assert_eq!(shown, code);
            },
            other => panic!("{:?}", other),
        }
    }
}

#[test]
fn edited_entries_are_stored() {
    let (state, action) = main_menue(
        MenuState::Editing,
        MenuEvent::Edited { plaintext: b"[1]".to_vec(), logout: true },
    );
    assert_eq!(state, MenuState::Updating { logout: true });
    match action {
        MenuAction::Update { plaintext } => assert_eq!(plaintext, b"[1]".to_vec()),
        other => panic!("{:?}", other),
    }
}

#[test]
fn after_the_update_comes_the_next_fetch_or_the_logout() {
    let (state, action) =
        main_menue(MenuState::Updating { logout: false }, MenuEvent::Updated(Ok(())));
    assert_eq!(state, MenuState::Fetching);
    assert!(matches!(action, MenuAction::Fetch));
    let (state, action) =
        main_menue(MenuState::Updating { logout: true }, MenuEvent::Updated(Ok(())));
    assert_eq!(state, MenuState::LoggingOut);
    assert!(matches!(action, MenuAction::Logout));
}

#[test]
fn a_failed_update_is_reported() {
    let (state, action) = main_menue(
        MenuState::Updating { logout: true },
        MenuEvent::Updated(Err(SyncError::Unauthorized)),
    );
    assert_eq!(state, MenuState::Finished);
    assert!(matches!(
        action,
        MenuAction::Report { error: SyncError::Unauthorized, code: 401 }
    ));
}

#[test]
fn the_logout_ends_the_cycle_whatever_the_backend_said() {
    let (state, action) = main_menue(MenuState::LoggingOut, MenuEvent::LoggedOut(Ok(())));
    assert_eq!(state, MenuState::Finished);
    assert!(matches!(action, MenuAction::Leave));
    let (state, action) =
        main_menue(MenuState::LoggingOut, MenuEvent::LoggedOut(Err(SyncError::Network)));
    assert_eq!(state, MenuState::Finished);
    assert!(matches!(action, MenuAction::Leave));
}

#[test]
fn events_out_of_turn_change_nothing() {
    let (state, action) = main_menue(MenuState::Editing, MenuEvent::Updated(Ok(())));
    assert_eq!(state, MenuState::Editing);
    assert!(matches!(action, MenuAction::Ignore));
    let (state, action) = main_menue(MenuState::Finished, MenuEvent::Fetched(Ok(Vault::Empty)));
    assert_eq!(state, MenuState::Finished);
    assert!(matches!(action, MenuAction::Ignore));
    let (state, action) = main_menue(
        MenuState::Fetching,
        MenuEvent::Edited { plaintext: Vec::new(), logout: false },
    );
    assert_eq!(state, MenuState::Fetching);
    assert!(matches!(action, MenuAction::Ignore));
}
