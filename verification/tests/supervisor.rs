use daemonizer::errors::{error_message, ErrorKind};
use daemonizer::supervisor::{outcome, pending_action, start, step, Action, Event, State};

#[test]
fn not_root_is_refused_with_no_calls() {
    // real uid 1000: refused before any host call, with the fixed message
    let s = start(1000);
    assert_eq!(s, State::Failed { kind: ErrorKind::NotRoot });
    assert_eq!(pending_action(&s), None);
    assert_eq!(outcome(&s), Some(Err(ErrorKind::NotRoot)));
    let msg = error_message(ErrorKind::NotRoot, "svc", "svc");
    assert_eq!(msg, "Starting this application requires root privileges");
}

#[test]
fn root_run_switches_group_then_user_then_daemonizes() {
    // real uid 0; "svc" resolves to gid 500 and uid 500; every host call
    // succeeds; the observed call sequence is lookup group, lookup user,
    // set group id, set user id, daemonize
    let mut actions: Vec<Action> = Vec::new();
    let mut s = start(0);
    while let Some(a) = pending_action(&s) {
        actions.push(a);
        let e = match a {
            Action::LookupGroup => Event::GroupLookup(Some(500)),
            Action::LookupUser => Event::UserLookup(Some(500)),
            Action::SetGroupId(gid) => {
                assert_eq!(gid, 500);
                Event::GroupSet(0)
            }
            Action::SetUserId(uid) => {
                assert_eq!(uid, 500);
                Event::UserSet(0)
            }
            Action::CallDaemon => Event::Daemon(0),
        };
        s = step(s, e);
    }
    assert_eq!(outcome(&s), Some(Ok(())));
    assert_eq!(
        actions,
        vec![
            Action::LookupGroup,
            Action::LookupUser,
            Action::SetGroupId(500),
            Action::SetUserId(500),
            Action::CallDaemon,
        ]
    );
}

#[test]
fn missing_account_fails_switch_without_daemon_call() {
    // real uid 0; the group resolves but the account name does not
    let s = start(0);
    let s = step(s, Event::GroupLookup(Some(500)));
    let s = step(s, Event::UserLookup(None));
    assert_eq!(s, State::Failed { kind: ErrorKind::IdentitySwitchFailed });
    assert_eq!(pending_action(&s), None);
    let msg = error_message(ErrorKind::IdentitySwitchFailed, "svc", "svc");
    assert_eq!(msg, "Unable to set user to svc or svc");
}

#[test]
fn missing_group_fails_switch_without_daemon_call() {
    let s = start(0);
    let s = step(s, Event::GroupLookup(None));
    assert_eq!(s, State::Failed { kind: ErrorKind::IdentitySwitchFailed });
    assert_eq!(pending_action(&s), None);
}

#[test]
fn failing_group_set_stops_before_user_set() {
    // the set-group-id call returns nonzero: the attempt fails without the
    // set-user-id call ever becoming pending
    let mut s = start(0);
    s = step(s, Event::GroupLookup(Some(500)));
    s = step(s, Event::UserLookup(Some(501)));
    assert_eq!(pending_action(&s), Some(Action::SetGroupId(500)));
    s = step(s, Event::GroupSet(-1));
    assert_eq!(s, State::Failed { kind: ErrorKind::IdentitySwitchFailed });
    assert_eq!(pending_action(&s), None);
}

#[test]
fn failing_user_set_fails_switch() {
    let mut s = start(0);
    s = step(s, Event::GroupLookup(Some(500)));
    s = step(s, Event::UserLookup(Some(501)));
    s = step(s, Event::GroupSet(0));
    assert_eq!(pending_action(&s), Some(Action::SetUserId(501)));
    s = step(s, Event::UserSet(1));
    assert_eq!(s, State::Failed { kind: ErrorKind::IdentitySwitchFailed });
    assert_eq!(pending_action(&s), None);
}

#[test]
fn daemon_failure_after_switch() {
    // real uid 0; the identity switch succeeds; the daemonize primitive
    // reports failure
    let mut s = start(0);
    s = step(s, Event::GroupLookup(Some(500)));
    s = step(s, Event::UserLookup(Some(500)));
    s = step(s, Event::GroupSet(0));
    s = step(s, Event::UserSet(0));
    assert_eq!(pending_action(&s), Some(Action::CallDaemon));
    s = step(s, Event::Daemon(-1));
    assert_eq!(s, State::Failed { kind: ErrorKind::DaemonizeFailed });
    assert_eq!(outcome(&s), Some(Err(ErrorKind::DaemonizeFailed)));
    assert_eq!(
        error_message(ErrorKind::DaemonizeFailed, "svc", "svc"),
        "Error on daemon call"
    );
}

#[test]
fn stray_answer_changes_nothing() {
    // an answer that does not belong to the pending call is ignored
    let s = step(State::ResolvingGroup, Event::UserSet(0));
    assert_eq!(s, State::ResolvingGroup);
    let s = step(State::Succeeded, Event::Daemon(-1));
    assert_eq!(s, State::Succeeded);
    let s = step(
        State::Failed { kind: ErrorKind::NotRoot },
        Event::GroupLookup(Some(0)),
    );
    assert_eq!(s, State::Failed { kind: ErrorKind::NotRoot });
}

#[test]
fn outcome_is_pending_until_terminal() {
    assert_eq!(outcome(&State::ResolvingGroup), None);
    assert_eq!(outcome(&State::ResolvingUser { gid: 7 }), None);
    assert_eq!(outcome(&State::SettingGroup { gid: 7, uid: 8 }), None);
    assert_eq!(outcome(&State::SettingUser { uid: 8 }), None);
    assert_eq!(outcome(&State::Daemonizing), None);
    assert_eq!(outcome(&State::Succeeded), Some(Ok(())));
}
