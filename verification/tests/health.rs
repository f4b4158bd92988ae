use passhub::health::{
    check_health, get_backend_url, next_url_step, trim_url, Complaint, Probe, RetryPolicy,
    UrlAction, UrlEvent, UrlState,
};
use passhub::error::SyncError;
use passhub::protocol::{Method, Reply};

fn http(status: u16) -> Reply {
    Reply::Http { status, body: String::new() }
}

#[test]
fn standard_policy_is_three_attempts_one_second_apart() {
    let policy = RetryPolicy::standard();
    assert_eq!(policy.max_attempts, 3);
    assert_eq!(policy.delay_seconds, 1);
}

#[test]
fn a_200_ends_the_probing_at_any_attempt() {
    let policy = RetryPolicy::standard();
    for attempt in 1..=3 {
        assert_eq!(check_health(&policy, attempt, &http(200)), Probe::Alive);
    }
}

#[test]
fn failures_are_retried_until_the_third_attempt() {
    let policy = RetryPolicy::standard();
    assert_eq!(check_health(&policy, 1, &Reply::Failed), Probe::Retry { wait_seconds: 1 });
    assert_eq!(check_health(&policy, 2, &http(503)), Probe::Retry { wait_seconds: 1 });
    assert_eq!(check_health(&policy, 3, &Reply::Failed), Probe::Unreachable);
    assert_eq!(check_health(&policy, 3, &http(204)), Probe::Unreachable);
    assert_eq!(check_health(&policy, 4, &Reply::Failed), Probe::Unreachable);
}

#[test]
fn other_policies_are_followed() {
    let policy = RetryPolicy { max_attempts: 5, delay_seconds: 7 };
    assert_eq!(check_health(&policy, 4, &Reply::Failed), Probe::Retry { wait_seconds: 7 });
    assert_eq!(check_health(&policy, 5, &Reply::Failed), Probe::Unreachable);
    let once = RetryPolicy { max_attempts: 1, delay_seconds: 0 };
    assert_eq!(check_health(&once, 1, &Reply::Failed), Probe::Unreachable);
}

#[test]
fn stored_address_is_probed_first() {
    let policy = RetryPolicy::standard();
    let (state, action) = get_backend_url(
        &policy,
        UrlState::Start,
        UrlEvent::Stored(Some(String::from("http://localhost:8080"))),
    );
    match state {
        UrlState::Probing { url, attempt } => {
            assert_eq!(url, "http://localhost:8080");
            assert_eq!(attempt, 1);
        },
        other => panic!("{:?}", other),
    }
    match action {
        UrlAction::Probe { request, wait_seconds, save } => {
            assert_eq!(request.method, Method::Get);
            assert_eq!(request.url, "http://localhost:8080/api/v1/health");
            assert_eq!(wait_seconds, 0);
            assert!(!save);
        },
        other => panic!("{:?}", other),
    }
}

#[test]
fn without_a_stored_address_the_user_is_asked() {
    let policy = RetryPolicy::standard();
    let (state, action) = get_backend_url(&policy, UrlState::Start, UrlEvent::Stored(None));
    assert!(matches!(state, UrlState::Asking));
    assert!(matches!(action, UrlAction::Ask { complaint: Complaint::Missing }));
}

#[test]
fn three_failed_probes_make_the_address_unreachable() {
    let policy = RetryPolicy::standard();
    let mut state = UrlState::Probing { url: String::from("http://down.example"), attempt: 1 };
    for expected_attempt in 2..=3u32 {
        let (next, action) = get_backend_url(&policy, state, UrlEvent::Probed(Reply::Failed));
        match &next {
            UrlState::Probing { url, attempt } => {
                assert_eq!(url, "http://down.example");
                assert_eq!(*attempt, expected_attempt);
            },
            other => panic!("{:?}", other),
        }
        match action {
            UrlAction::Probe { request, wait_seconds, save } => {
                assert_eq!(request.url, "http://down.example/api/v1/health");
                assert_eq!(wait_seconds, 1);
                assert!(!save);
            },
            other => panic!("{:?}", other),
        }
        state = next;
    }
    let (state, action) = get_backend_url(&policy, state, UrlEvent::Probed(http(500)));
    assert!(matches!(state, UrlState::Asking));
    match action {
        UrlAction::Ask { complaint: Complaint::Unreachable { url } } => {
            assert_eq!(url, "http://down.example")
        },
        other => panic!("{:?}", other),
    }
}

#[test]
fn an_address_that_answers_is_accepted() {
    let policy = RetryPolicy::standard();
    let state = UrlState::Probing { url: String::from("http://up.example"), attempt: 2 };
    let (state, action) = get_backend_url(&policy, state, UrlEvent::Probed(http(200)));
    match state {
        UrlState::Configured { url } => assert_eq!(url, "http://up.example"),
        other => panic!("{:?}", other),
    }
    match action {
        UrlAction::Accept { url } => assert_eq!(url, "http://up.example"),
        other => panic!("{:?}", other),
    }
}

#[test]
fn entered_url_is_saved_and_probed() {
    let policy = RetryPolicy::standard();
    let (state, action) = get_backend_url(
        &policy,
        UrlState::Asking,
        UrlEvent::Entered(String::from("https://vault.example")),
    );
    match state {
        UrlState::Probing { url, attempt } => {
            assert_eq!(url, "https://vault.example");
            assert_eq!(attempt, 1);
        },
        other => panic!("{:?}", other),
    }
    match action {
        UrlAction::Probe { request, wait_seconds, save } => {
            assert_eq!(request.url, "https://vault.example/api/v1/health");
            assert_eq!(wait_seconds, 0);
            assert!(save);
        },
        other => panic!("{:?}", other),
    }
}

#[test]
fn entered_text_that_is_no_url_is_refused() {
    let policy = RetryPolicy::standard();
    for text in ["", "not a url", "vault.example", "/relative/path"] {
        let (state, action) =
            get_backend_url(&policy, UrlState::Asking, UrlEvent::Entered(String::from(text)));
        assert!(matches!(state, UrlState::Asking), "{:?}", text);
        assert!(matches!(action, UrlAction::Ask { complaint: Complaint::Invalid }), "{:?}", text);
    }
}

#[test]
fn the_verdict_on_the_text_decides_the_step() {
    let policy = RetryPolicy::standard();
    let (state, action) = next_url_step(
        &policy,
        UrlState::Asking,
        UrlEvent::Entered(String::from("anything")),
        true,
    );
    assert!(matches!(state, UrlState::Probing { attempt: 1, .. }));
    assert!(matches!(action, UrlAction::Probe { save: true, wait_seconds: 0, .. }));
    let (state, action) = next_url_step(
        &policy,
        UrlState::Asking,
        UrlEvent::Entered(String::from("https://vault.example")),
        false,
    );
    assert!(matches!(state, UrlState::Asking));
    assert!(matches!(action, UrlAction::Ask { complaint: Complaint::Invalid }));
}

#[test]
fn events_that_a_state_does_not_wait_for_are_ignored() {
    let policy = RetryPolicy::standard();
    let (state, action) = get_backend_url(&policy, UrlState::Start, UrlEvent::Probed(http(200)));
    assert!(matches!(state, UrlState::Start));
    assert!(matches!(action, UrlAction::Ignore));
    let (state, action) = get_backend_url(
        &policy,
        UrlState::Configured { url: String::from("http://up.example") },
        UrlEvent::Entered(String::from("http://other.example")),
    );
    match state {
        UrlState::Configured { url } => assert_eq!(url, "http://up.example"),
        other => panic!("{:?}", other),
    }
    assert!(matches!(action, UrlAction::Ignore));
    let (state, action) = get_backend_url(&policy, UrlState::Asking, UrlEvent::Stored(None));
    assert!(matches!(state, UrlState::Asking));
    assert!(matches!(action, UrlAction::Ignore));
}

#[test]
fn slashes_at_the_end_of_an_address_are_cut_off() {
    assert_eq!(trim_url("https://vault.example/"), "https://vault.example");
    assert_eq!(trim_url("https://vault.example///"), "https://vault.example");
    assert_eq!(trim_url("https://vault.example"), "https://vault.example");
    assert_eq!(trim_url("https://vault.example/path/"), "https://vault.example/path");
    assert_eq!(trim_url("/"), "");
    assert_eq!(trim_url("///"), "");
    assert_eq!(trim_url(""), "");
    assert_eq!(trim_url("https://v\u{e4}ult.example/\u{e4}/"), "https://v\u{e4}ult.example/\u{e4}");
    assert_eq!(trim_url("\u{e4}"), "\u{e4}");
}

#[test]
fn entered_url_is_probed_without_its_trailing_slashes() {
    let policy = RetryPolicy::standard();
    let (state, action) = get_backend_url(
        &policy,
        UrlState::Asking,
        UrlEvent::Entered(String::from("https://vault.example//")),
    );
    match state {
        UrlState::Probing { url, attempt } => {
            assert_eq!(url, "https://vault.example");
            assert_eq!(attempt, 1);
        },
        other => panic!("{:?}", other),
    }
    match action {
        UrlAction::Probe { request, save, .. } => {
            assert_eq!(request.url, "https://vault.example/api/v1/health");
            assert!(save);
        },
        other => panic!("{:?}", other),
    }
}

#[test]
fn complaints_about_the_address_are_configuration_failures() {
    assert_eq!(Complaint::Missing.error(), None);
    assert_eq!(Complaint::Invalid.error(), Some(SyncError::InvalidBackendUrl));
    assert_eq!(
        Complaint::Unreachable { url: String::from("http://down.example") }.error(),
        Some(SyncError::UnreachableBackend)
    );
}
