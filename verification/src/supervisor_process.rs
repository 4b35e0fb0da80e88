//! The messages of the handshake between the zygote and a supervisor.
//!
//! A supervisor owns the namespaces of one sandbox. It does nothing that
//! depends on its user mapping before it is told `UserMapped`, and it ends
//! itself at once when it is told `Exit`.

use vstd::prelude::*;

verus! {

/// What the zygote tells a supervisor.
#[derive(Clone, Copy, Debug, PartialEq, Eq, Structural)]
pub enum SupervisorRequest {
    /// The user mapping is written: the supervisor may go on.
    UserMapped,
    /// The spawn is given up: the supervisor must end itself.
    Exit,
}

/// What a supervisor answers.
#[derive(Clone, Copy, Debug, PartialEq, Eq, Structural)]
pub enum SupervisorResponse {
    /// The supervisor goes on to hand the sandbox its channel.
    Proceeding,
    /// The supervisor could not set the sandbox up.
    Failed,
}

/// What a supervisor does next.
#[derive(Clone, Copy, Debug, PartialEq, Eq, Structural)]
pub enum SupervisorStep {
    /// Set the sandbox up and hand it its channel.
    Proceed,
    /// End the process, with no further effect.
    Terminate,
}

/// What a supervisor that waits for its user mapping does on a message, or on
/// the failure to receive one.
pub open spec fn supervisor_step(message: Option<SupervisorRequest>) -> SupervisorStep {
    match message {
        Some(SupervisorRequest::UserMapped) => SupervisorStep::Proceed,
        _ => SupervisorStep::Terminate,
    }
}

/// Decides what a supervisor that waits for its user mapping does next. Only
/// `UserMapped` lets it go on. On `Exit`, and when no message can be received,
/// it ends itself.
pub fn on_request(message: Option<SupervisorRequest>) -> (step: SupervisorStep)
    ensures
        step == supervisor_step(message),
        step == SupervisorStep::Proceed <==> message == Some(SupervisorRequest::UserMapped),
{
    match message {
        Some(SupervisorRequest::UserMapped) => SupervisorStep::Proceed,
        _ => SupervisorStep::Terminate,
    }
}

} // verus!
