//! What holds of every run of the supervisor, stated and proved once and
//! for all. A run is `spec_start` followed by any sequence of host answers;
//! `state_after` folds the answers into the state they lead to.

use vstd::prelude::*;
use crate::errors::ErrorKind;
use crate::supervisor::{Event, State, spec_pending_action, spec_start, spec_step};

verus! {

/// The state a run reaches: start at `spec_start(real_uid)` and consume the
/// host's answers in order.
pub open spec fn state_after(real_uid: u32, events: Seq<Event>) -> State
    decreases events.len(),
{
    if events.len() == 0 {
        spec_start(real_uid)
    } else {
        spec_step(state_after(real_uid, events.drop_last()), events.last())
    }
}

/// A terminal state absorbs every further answer: once an attempt has
/// succeeded or failed, nothing the host reports changes it.
pub proof fn lemma_terminal_absorbs(s: State, e: Event)
    ensures
        spec_pending_action(s) is None ==> spec_step(s, e) == s,
{
}

/// A process whose real user id is not zero is refused outright: whatever
/// the host would answer, every run stays at the `NotRoot` failure, and no
/// host call — no lookup, no credential set, no daemonize — is ever pending.
pub proof fn lemma_not_root_never_acts(real_uid: u32, events: Seq<Event>)
    requires
        real_uid != 0,
    ensures
        state_after(real_uid, events) == (State::Failed { kind: ErrorKind::NotRoot }),
        spec_pending_action(state_after(real_uid, events)) is None,
    decreases events.len(),
{
    if events.len() > 0 {
        lemma_not_root_never_acts(real_uid, events.drop_last());
    }
}

/// Every failure of the identity phase — either name missing from the
/// directory, or either credential-set call returning nonzero — ends the
/// attempt at the `IdentitySwitchFailed` failure, with no host call pending:
/// in particular the daemonize primitive is never invoked after one.
pub proof fn lemma_identity_failure_terminal(s: State, e: Event)
    ensures
        s is ResolvingGroup && e == Event::GroupLookup(None::<u32>) ==> spec_step(s, e)
            == (State::Failed { kind: ErrorKind::IdentitySwitchFailed }),
        s is ResolvingUser && e == Event::UserLookup(None::<u32>) ==> spec_step(s, e)
            == (State::Failed { kind: ErrorKind::IdentitySwitchFailed }),
        (e matches Event::GroupSet(code) && s is SettingGroup && code != 0) ==> spec_step(s, e)
            == (State::Failed { kind: ErrorKind::IdentitySwitchFailed }),
        (e matches Event::UserSet(code) && s is SettingUser && code != 0) ==> spec_step(s, e)
            == (State::Failed { kind: ErrorKind::IdentitySwitchFailed }),
        spec_pending_action(State::Failed { kind: ErrorKind::IdentitySwitchFailed }) is None,
{
}

/// If the daemonize primitive reports failure after the identity switch has
/// succeeded, the attempt ends at the `DaemonizeFailed` failure with no host
/// call pending: the already-dropped credentials are left as they are — no
/// action that would restore them so much as exists.
pub proof fn lemma_daemon_failure_keeps_drop(code: i32)
    requires
        code != 0,
    ensures
        spec_step(State::Daemonizing, Event::Daemon(code)) == (State::Failed {
            kind: ErrorKind::DaemonizeFailed,
        }),
        spec_pending_action(spec_step(State::Daemonizing, Event::Daemon(code))) is None,
{
}

/// In every run, the group id is set before the user id: whenever a run has
/// the set-user-id call pending, there is an earlier point — returned here —
/// at which the set-group-id call was pending and the host answered it with
/// success.
pub proof fn lemma_group_set_before_user_set(real_uid: u32, events: Seq<Event>) -> (j: int)
    requires
        state_after(real_uid, events) is SettingUser,
    ensures
        0 <= j < events.len(),
        state_after(real_uid, events.take(j)) is SettingGroup,
        events[j] == Event::GroupSet(0),
    decreases events.len(),
{
    let prev = state_after(real_uid, events.drop_last());
    let e = events.last();
    if prev is SettingGroup && e == Event::GroupSet(0) {
        let j = events.len() - 1;
        assert(events.take(j) =~= events.drop_last());
        j
    } else {
        // the last answer was a stray one that changed nothing
        let j = lemma_group_set_before_user_set(real_uid, events.drop_last());
        assert(events.drop_last().take(j) =~= events.take(j));
        j
    }
}

/// In every run, the daemonize primitive comes up only once the user id is
/// set: whenever a run has the daemonize call pending, there is an earlier
/// point — returned here — at which the set-user-id call was pending and the
/// host answered it with success.
pub proof fn lemma_daemon_needs_user_set(real_uid: u32, events: Seq<Event>) -> (j: int)
    requires
        state_after(real_uid, events) is Daemonizing,
    ensures
        0 <= j < events.len(),
        state_after(real_uid, events.take(j)) is SettingUser,
        events[j] == Event::UserSet(0),
    decreases events.len(),
{
    let prev = state_after(real_uid, events.drop_last());
    let e = events.last();
    if prev is SettingUser && e == Event::UserSet(0) {
        let j = events.len() - 1;
        assert(events.take(j) =~= events.drop_last());
        j
    } else {
        // the last answer was a stray one that changed nothing
        let j = lemma_daemon_needs_user_set(real_uid, events.drop_last());
        assert(events.drop_last().take(j) =~= events.take(j));
        j
    }
}

/// The full privilege-drop order, in every run that reaches the daemonize
/// call: the set-group-id call succeeded strictly before the set-user-id
/// call did, and both strictly before the daemonize call became pending.
pub proof fn lemma_group_before_user_before_daemon(real_uid: u32, events: Seq<Event>) -> (r: (
    int,
    int,
))
    requires
        state_after(real_uid, events) is Daemonizing,
    ensures
        0 <= r.0 < r.1 < events.len(),
        state_after(real_uid, events.take(r.0)) is SettingGroup,
        events[r.0] == Event::GroupSet(0),
        state_after(real_uid, events.take(r.1)) is SettingUser,
        events[r.1] == Event::UserSet(0),
{
    let ju = lemma_daemon_needs_user_set(real_uid, events);
    let jg = lemma_group_set_before_user_set(real_uid, events.take(ju));
    assert(events.take(ju).take(jg) =~= events.take(jg));
    (jg, ju)
}

} // verus!
