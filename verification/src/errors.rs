//! The three terminal failure kinds of the helper, and the exact
//! human-readable message each one carries.

use vstd::prelude::*;
use vstd::string::StringExecFns;

verus! {

/// Why a daemonize attempt failed. Every failure is terminal: nothing is
/// retried, rolled back or logged.
#[derive(Clone, Copy, Debug, PartialEq, Eq)]
pub enum ErrorKind {
    /// The process's real user id was not zero, so it holds no superuser
    /// privilege and nothing further was attempted.
    NotRoot,
    /// The account or group name did not resolve in the host's identity
    /// directory, or a credential-set call returned nonzero.
    IdentitySwitchFailed,
    /// The host's daemonize primitive returned nonzero after the identity
    /// switch had already succeeded.
    DaemonizeFailed,
}

/// The message reported for each failure kind. The identity-switch message
/// interpolates both supplied names verbatim; the other two are fixed.
pub open spec fn spec_message(kind: ErrorKind, user: Seq<char>, group: Seq<char>) -> Seq<char> {
    match kind {
        ErrorKind::NotRoot => "Starting this application requires root privileges"@,
        ErrorKind::IdentitySwitchFailed => "Unable to set user to "@ + user + " or "@ + group,
        ErrorKind::DaemonizeFailed => "Error on daemon call"@,
    }
}

/// Render the message for a failure kind, naming the account and group the
/// caller supplied.
pub fn error_message(kind: ErrorKind, user: &str, group: &str) -> (msg: String)
    ensures
        msg@ == spec_message(kind, user@, group@),
{
    match kind {
        ErrorKind::NotRoot => String::from_str("Starting this application requires root privileges"),
        ErrorKind::IdentitySwitchFailed => {
            let msg = String::from_str("Unable to set user to ")
                .concat(user)
                .concat(" or ")
                .concat(group);
            proof {
                assert(msg@ =~= spec_message(kind, user@, group@));
            }
            msg
        },
        ErrorKind::DaemonizeFailed => String::from_str("Error on daemon call"),
    }
}

/// The identity-switch message contains both supplied names verbatim: the
/// account name right after the fixed prefix, and the group name at the end,
/// separated from the account name by a fixed infix.
pub proof fn lemma_switch_message_contains_names(user: Seq<char>, group: Seq<char>)
    ensures
        spec_message(ErrorKind::IdentitySwitchFailed, user, group).subrange(
            22,
            22 + user.len() as int,
        ) == user,
        spec_message(ErrorKind::IdentitySwitchFailed, user, group).subrange(
            26 + user.len() as int,
            26 + user.len() as int + group.len() as int,
        ) == group,
{
    reveal_strlit("Unable to set user to ");
    reveal_strlit(" or ");
    let msg = spec_message(ErrorKind::IdentitySwitchFailed, user, group);
    assert(msg.subrange(22, 22 + user.len() as int) =~= user);
    assert(msg.subrange(26 + user.len() as int, 26 + user.len() as int + group.len() as int)
        =~= group);
}

} // verus!
