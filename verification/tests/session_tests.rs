use lazyfav::exchange::{exchange_token, refresh_token, AuthError};
use lazyfav::listener::{Listener, ListenerError};
use lazyfav::record::CredentialRecord;
use lazyfav::session::{abort, Action, Event, Session, SessionError};
use lazyfav::store::{encode_record, load_tokens};

const NOW: u64 = 1_700_000_000;

fn record(access: &str, refresh: &str, expires_in: u64, issued_at: u64) -> CredentialRecord {
    CredentialRecord::new(access.to_string(), refresh.to_string(), expires_in, issued_at)
}

#[test]
fn a_run_begins_by_loading() {
    assert_eq!(Session::new(), Session::Start);
    assert_eq!(Session::new().step(Event::Begin), (Session::Loading, Action::Load));
}

#[test]
fn first_run_authorizes_exchanges_saves_and_uses() {
    // store empty -> code "abc123" -> exchange returns AT1/RT1/3600
    let mut listener = Listener::new();
    listener.listen(true).unwrap();
    let _ = listener.callback(Some("abc123".to_string()));

    let (s, a) = Session::new().step(Event::Begin);
    assert_eq!(a, Action::Load);
    let (s, a) = s.step(Event::Loaded { record: load_tokens(None), now: NOW });
    assert_eq!((&s, &a), (&Session::Authorizing, &Action::Authorize));
    let (s, a) = s.step(Event::Code(listener.finish()));
    assert_eq!((&s, &a), (&Session::Exchanging, &Action::Exchange("abc123".to_string())));
    let outcome = exchange_token(
        200,
        r#"{"access_token":"AT1","refresh_token":"RT1","expires_in":3600}"#,
        NOW,
    );
    let (s, a) = s.step(Event::Exchanged(outcome));
    let stored = match a {
        Action::Save(r) => r,
        other => panic!("expected a save, got {:?}", other),
    };
    assert_eq!(stored, record("AT1", "RT1", 3600, NOW));
    assert_eq!(stored.access_token, "AT1");
    assert_eq!(stored.issued_at, NOW);
    assert_eq!(s, Session::Saving(record("AT1", "RT1", 3600, NOW)));
    assert_eq!(s.access_token(), None);
    let (s, a) = s.step(Event::Saved(true));
    assert_eq!(a, Action::Use("AT1".to_string()));
    assert_eq!(s, Session::Ready(record("AT1", "RT1", 3600, NOW)));
    assert_eq!(s.access_token(), Some("AT1".to_string()));
    assert!(s.is_over());
}

#[test]
fn a_fresh_stored_record_is_used_as_it_is() {
    let stored = record("AT0", "RT0", 3600, NOW - 100);
    let (s, a) = Session::Loading.step(Event::Loaded { record: Some(stored.clone()), now: NOW });
    assert_eq!(a, Action::Use("AT0".to_string()));
    assert_eq!(s, Session::Ready(stored));
}

#[test]
fn a_stored_record_at_the_boundary_is_still_used() {
    let stored = record("AT0", "RT0", 3600, NOW - 3540);
    let (s, a) = Session::Loading.step(Event::Loaded { record: Some(stored.clone()), now: NOW });
    assert_eq!(a, Action::Use("AT0".to_string()));
    assert_eq!(s, Session::Ready(stored));
    let stored = record("AT0", "RT0", 3600, NOW - 3541);
    let (s, a) = Session::Loading.step(Event::Loaded { record: Some(stored), now: NOW });
    assert_eq!(a, Action::Refresh("RT0".to_string()));
    assert_eq!(s, Session::Refreshing);
}

#[test]
fn an_expired_stored_record_is_refreshed_before_use() {
    // issued_at = now - 3600, expires_in = 3600
    let stored = record("AT0", "RT0", 3600, NOW - 3600);
    let (s, a) = Session::new().step(Event::Begin);
    assert_eq!(a, Action::Load);
    let (s, a) = s.step(Event::Loaded { record: Some(stored), now: NOW });
    assert_eq!(a, Action::Refresh("RT0".to_string()));
    assert_eq!(s, Session::Refreshing);
    assert_eq!(s.access_token(), None);
    let outcome = refresh_token(200, r#"{"access_token":"AT1","expires_in":1800}"#, "RT0", NOW);
    let (s, a) = s.step(Event::Refreshed(outcome));
    assert_eq!(a, Action::Save(record("AT1", "RT0", 1800, NOW)));
    let (s, a) = s.step(Event::Saved(true));
    assert_eq!(a, Action::Use("AT1".to_string()));
    assert_eq!(s.access_token(), Some("AT1".to_string()));
}

#[test]
fn a_refused_refresh_aborts_and_saves_nothing() {
    let stored = record("AT0", "RT0", 3600, NOW - 3600);
    let on_disk = encode_record(&stored).unwrap();
    let loaded = load_tokens(Some(on_disk.clone()));
    assert_eq!(loaded, Some(stored.clone()));

    let mut actions = Vec::new();
    let (s, a) = Session::new().step(Event::Begin);
    actions.push(a);
    let (s, a) = s.step(Event::Loaded { record: loaded, now: NOW });
    actions.push(a);
    let outcome = refresh_token(400, r#"{"error":"invalid_grant"}"#, "RT0", NOW);
    assert_eq!(outcome, Err(AuthError::RefreshFailed));
    let (s, a) = s.step(Event::Refreshed(outcome));
    actions.push(a);
    assert_eq!(
        actions,
        vec![
            Action::Load,
            Action::Refresh("RT0".to_string()),
            Action::Abort(SessionError::Auth(AuthError::RefreshFailed)),
        ]
    );
    assert_eq!(s, Session::Failed(SessionError::Auth(AuthError::RefreshFailed)));
    assert!(s.is_over());
    assert_eq!(s.access_token(), None);
    // nothing asked for a save, so what is on disk still holds the prior record
    assert_eq!(load_tokens(Some(on_disk)), Some(stored));
}

#[test]
fn a_failed_exchange_aborts_with_its_error() {
    let (s, a) = Session::Exchanging.step(Event::Exchanged(Err(AuthError::ExchangeFailed)));
    assert_eq!(a, Action::Abort(SessionError::Auth(AuthError::ExchangeFailed)));
    assert_eq!(s, Session::Failed(SessionError::Auth(AuthError::ExchangeFailed)));
    let (s, a) = Session::Exchanging.step(Event::Exchanged(Err(AuthError::MalformedResponse)));
    assert_eq!(a, Action::Abort(SessionError::Auth(AuthError::MalformedResponse)));
    assert_eq!(s, Session::Failed(SessionError::Auth(AuthError::MalformedResponse)));
    let (s, a) = Session::Refreshing.step(Event::Refreshed(Err(AuthError::MalformedResponse)));
    assert_eq!(a, Action::Abort(SessionError::Auth(AuthError::MalformedResponse)));
    assert_eq!(s, Session::Failed(SessionError::Auth(AuthError::MalformedResponse)));
}

#[test]
fn a_listener_without_a_code_aborts() {
    for e in [ListenerError::NoCode, ListenerError::BindFailed] {
        let (s, a) = Session::Authorizing.step(Event::Code(Err(e)));
        assert_eq!(a, Action::Abort(SessionError::Listener(e)));
        assert_eq!(s, Session::Failed(SessionError::Listener(e)));
    }
}

#[test]
fn a_failed_save_aborts_with_a_storage_error() {
    let (s, a) = Session::Saving(record("A", "R", 1, 2)).step(Event::Saved(false));
    assert_eq!(a, Action::Abort(SessionError::Storage));
    assert_eq!(s, Session::Failed(SessionError::Storage));
    assert_eq!(s.access_token(), None);
}

#[test]
fn an_event_out_of_turn_aborts() {
    let cases = vec![
        (Session::Start, Event::Saved(true)),
        (Session::Start, Event::Loaded { record: None, now: 1 }),
        (Session::Loading, Event::Begin),
        (Session::Loading, Event::Exchanged(Ok(record("A", "R", 1, 2)))),
        (Session::Authorizing, Event::Refreshed(Ok(record("A", "R", 1, 2)))),
        (Session::Exchanging, Event::Refreshed(Ok(record("A", "R", 1, 2)))),
        (Session::Refreshing, Event::Exchanged(Ok(record("A", "R", 1, 2)))),
        (Session::Refreshing, Event::Code(Ok("c".to_string()))),
        (Session::Saving(record("A", "R", 1, 2)), Event::Begin),
        (Session::Ready(record("A", "R", 1, 2)), Event::Saved(true)),
        (Session::Ready(record("A", "R", 1, 2)), Event::Begin),
        (Session::Failed(SessionError::Storage), Event::Begin),
    ];
    for (state, event) in cases {
        let (s, a) = state.step(event);
        assert_eq!(a, Action::Abort(SessionError::OutOfTurn));
        assert_eq!(s, Session::Failed(SessionError::OutOfTurn));
    }
}

#[test]
fn abort_pairs_the_failed_state_with_its_report() {
    assert_eq!(
        abort(SessionError::Storage),
        (Session::Failed(SessionError::Storage), Action::Abort(SessionError::Storage))
    );
}

#[test]
fn only_ready_and_failed_are_over() {
    assert!(!Session::Start.is_over());
    assert!(!Session::Loading.is_over());
    assert!(!Session::Authorizing.is_over());
    assert!(!Session::Exchanging.is_over());
    assert!(!Session::Refreshing.is_over());
    assert!(!Session::Saving(record("A", "R", 1, 2)).is_over());
    assert!(Session::Ready(record("A", "R", 1, 2)).is_over());
    assert!(Session::Failed(SessionError::OutOfTurn).is_over());
}
