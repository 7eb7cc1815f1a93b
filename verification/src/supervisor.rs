//! The privilege supervisor: the decision core of the helper.
//!
//! The supervisor never touches the host itself. It is a state machine: from
//! the process's real user id it decides whether to proceed at all, then at
//! each state names the one host call to make next (`pending_action`), and
//! consumes the host's raw answer (`step`) to reach the next state. A driver
//! performs each named call against the real host and feeds the answer back;
//! a test feeds answers from an in-memory fake. Either way the decisions —
//! the superuser check, the lookup-then-switch order, group id before user
//! id, the short-circuit to a terminal error on the first failure — are the
//! ones proved here.

use vstd::prelude::*;
use crate::errors::ErrorKind;

verus! {

/// A host call the supervisor asks its driver to perform next.
#[derive(Clone, Copy, Debug, PartialEq, Eq)]
pub enum Action {
    /// Resolve the supplied group name in the host's group directory.
    LookupGroup,
    /// Resolve the supplied account name in the host's account directory.
    LookupUser,
    /// Set the process's group id to the resolved group id.
    SetGroupId(u32),
    /// Set the process's user id to the resolved user id.
    SetUserId(u32),
    /// Detach from the controlling terminal, keeping the working directory
    /// and the standard descriptors as they are.
    CallDaemon,
}

/// The host's answer to the action the supervisor last asked for. Lookups
/// answer with the resolved id or nothing; the three process calls answer
/// with their raw return code, where zero means success.
#[derive(Clone, Copy, Debug, PartialEq, Eq)]
pub enum Event {
    GroupLookup(Option<u32>),
    UserLookup(Option<u32>),
    GroupSet(i32),
    UserSet(i32),
    Daemon(i32),
}

/// Where the supervisor stands. The first five states each name one pending
/// host call; the last two are terminal.
#[derive(Clone, Copy, Debug, PartialEq, Eq)]
pub enum State {
    /// Superuser confirmed; the group name is being resolved.
    ResolvingGroup,
    /// The group resolved; the account name is being resolved.
    ResolvingUser { gid: u32 },
    /// Both names resolved; the group id is being set first.
    SettingGroup { gid: u32, uid: u32 },
    /// The group id is set; the user id is being set.
    SettingUser { uid: u32 },
    /// Privileges are dropped; the daemonize primitive is being called.
    Daemonizing,
    /// The process is unprivileged and daemonized.
    Succeeded,
    /// The attempt ended with this failure; no host call follows.
    Failed { kind: ErrorKind },
}

/// The state a fresh attempt starts in: anyone but the superuser is refused
/// before any host call is made.
pub open spec fn spec_start(real_uid: u32) -> State {
    if real_uid == 0 {
        State::ResolvingGroup
    } else {
        State::Failed { kind: ErrorKind::NotRoot }
    }
}

/// Begin an attempt for a process whose real user id is `real_uid`.
pub fn start(real_uid: u32) -> (s: State)
    ensures
        s == spec_start(real_uid),
{
    if real_uid == 0 {
        State::ResolvingGroup
    } else {
        State::Failed { kind: ErrorKind::NotRoot }
    }
}

/// The one host call to perform in this state, or nothing in a terminal
/// state.
pub open spec fn spec_pending_action(s: State) -> Option<Action> {
    match s {
        State::ResolvingGroup => Some(Action::LookupGroup),
        State::ResolvingUser { .. } => Some(Action::LookupUser),
        State::SettingGroup { gid, .. } => Some(Action::SetGroupId(gid)),
        State::SettingUser { uid } => Some(Action::SetUserId(uid)),
        State::Daemonizing => Some(Action::CallDaemon),
        State::Succeeded => None,
        State::Failed { .. } => None,
    }
}

/// The host call to perform next, or `None` once the attempt is over.
pub fn pending_action(s: &State) -> (a: Option<Action>)
    ensures
        a == spec_pending_action(*s),
{
    match s {
        State::ResolvingGroup => Some(Action::LookupGroup),
        State::ResolvingUser { .. } => Some(Action::LookupUser),
        State::SettingGroup { gid, .. } => Some(Action::SetGroupId(*gid)),
        State::SettingUser { uid } => Some(Action::SetUserId(*uid)),
        State::Daemonizing => Some(Action::CallDaemon),
        State::Succeeded => None,
        State::Failed { .. } => None,
    }
}

/// How a state consumes the host's answer to its pending call: each failure
/// answer — a lookup miss, a nonzero return code — short-circuits to the
/// matching terminal error, and each success answer moves one step on. An
/// answer that does not belong to the pending call changes nothing, and a
/// terminal state absorbs every answer.
pub open spec fn spec_step(s: State, e: Event) -> State {
    match (s, e) {
        (State::ResolvingGroup, Event::GroupLookup(Some(gid))) => State::ResolvingUser { gid },
        (State::ResolvingGroup, Event::GroupLookup(None)) => State::Failed {
            kind: ErrorKind::IdentitySwitchFailed,
        },
        (State::ResolvingUser { gid }, Event::UserLookup(Some(uid))) => State::SettingGroup {
            gid,
            uid,
        },
        (State::ResolvingUser { .. }, Event::UserLookup(None)) => State::Failed {
            kind: ErrorKind::IdentitySwitchFailed,
        },
        (State::SettingGroup { uid, .. }, Event::GroupSet(code)) => if code == 0 {
            State::SettingUser { uid }
        } else {
            State::Failed { kind: ErrorKind::IdentitySwitchFailed }
        },
        (State::SettingUser { .. }, Event::UserSet(code)) => if code == 0 {
            State::Daemonizing
        } else {
            State::Failed { kind: ErrorKind::IdentitySwitchFailed }
        },
        (State::Daemonizing, Event::Daemon(code)) => if code == 0 {
            State::Succeeded
        } else {
            State::Failed { kind: ErrorKind::DaemonizeFailed }
        },
        _ => s,
    }
}

/// Consume the host's answer `e` in state `s`.
pub fn step(s: State, e: Event) -> (next: State)
    ensures
        next == spec_step(s, e),
{
    match (s, e) {
        (State::ResolvingGroup, Event::GroupLookup(Some(gid))) => State::ResolvingUser { gid },
        (State::ResolvingGroup, Event::GroupLookup(None)) => State::Failed {
            kind: ErrorKind::IdentitySwitchFailed,
        },
        (State::ResolvingUser { gid }, Event::UserLookup(Some(uid))) => State::SettingGroup {
            gid,
            uid,
        },
        (State::ResolvingUser { .. }, Event::UserLookup(None)) => State::Failed {
            kind: ErrorKind::IdentitySwitchFailed,
        },
        (State::SettingGroup { uid, .. }, Event::GroupSet(code)) => if code == 0 {
            State::SettingUser { uid }
        } else {
            State::Failed { kind: ErrorKind::IdentitySwitchFailed }
        },
        (State::SettingUser { .. }, Event::UserSet(code)) => if code == 0 {
            State::Daemonizing
        } else {
            State::Failed { kind: ErrorKind::IdentitySwitchFailed }
        },
        (State::Daemonizing, Event::Daemon(code)) => if code == 0 {
            State::Succeeded
        } else {
            State::Failed { kind: ErrorKind::DaemonizeFailed }
        },
        _ => s,
    }
}

/// The attempt's result: success, the failure kind, or `None` while a host
/// call is still pending.
pub fn outcome(s: &State) -> (r: Option<Result<(), ErrorKind>>)
    ensures
        r is None <==> spec_pending_action(*s) is Some,
        *s is Succeeded ==> r == Some(Result::<(), ErrorKind>::Ok(())),
        *s matches State::Failed { kind } ==> r == Some(Result::<(), ErrorKind>::Err(kind)),
{
    match s {
        State::Succeeded => Some(Ok(())),
        State::Failed { kind } => Some(Err(*kind)),
        _ => None,
    }
}

} // verus!
