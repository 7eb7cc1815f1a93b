//! A privilege-drop-and-daemonize helper, split into a verified decision
//! core and a thin unverified driver.
//!
//! The core is a small supervisor state machine: given the process's real
//! user id and the answers the host returns for each identity and process
//! call, it decides the next host call to make and the final outcome.
//! Every decision the helper makes — the superuser check, the
//! group-before-user switch order, the short-circuit on the first failure —
//! is stated in contracts and proved here.

pub mod errors;
pub mod laws;
pub mod supervisor;
