//! The commands of a backend's thread.

use vstd::prelude::*;

use crate::content::ClipboardContent;

verus! {

/// Commands that the thread of a platform clipboard takes.
#[derive(Debug)]
pub enum Cmd {
    /// Replace the local selection with the given content.
    SetContent(ClipboardContent),
    /// Let go of the clipboard and end the thread.
    Terminate,
}

/// What a look at the command queue gave.
#[derive(Debug)]
pub enum Received {
    Command(Cmd),
    /// No command is waiting.
    Empty,
    /// No command is waiting, and none will ever come.
    Disconnected,
}

/// What is to be done after a look at the command queue.
#[derive(Debug)]
pub enum DrainStep {
    /// Put this on the clipboard, then look again.
    Apply(ClipboardContent),
    /// Go on with other work.
    Idle,
    /// End the thread.
    Exit,
}

/// `step` is right after a look at the command queue that gave `received`.
pub open spec fn follows(received: Received, step: DrainStep) -> bool {
    match received {
        Received::Command(Cmd::SetContent(content)) => step == DrainStep::Apply(content),
        Received::Command(Cmd::Terminate) | Received::Disconnected => step == DrainStep::Exit,
        Received::Empty => step == DrainStep::Idle,
    }
}

/// Decides what follows a look at the command queue. A thread whose owner is
/// gone ends as if it had been told to.
pub fn drain_step(received: Received) -> (step: DrainStep)
    ensures
        step == match received {
            Received::Command(Cmd::SetContent(content)) => DrainStep::Apply(content),
            Received::Command(Cmd::Terminate) | Received::Disconnected => DrainStep::Exit,
            Received::Empty => DrainStep::Idle,
        },
        follows(received, step),
{
    match received {
        Received::Command(Cmd::SetContent(content)) => DrainStep::Apply(content),
        Received::Command(Cmd::Terminate) => DrainStep::Exit,
        Received::Empty => DrainStep::Idle,
        Received::Disconnected => DrainStep::Exit,
    }
}

/// Every content that is to be set is applied, whole; the thread ends exactly
/// where it was told to or where nobody is left to tell it; and it goes on with
/// other work exactly where no command is waiting.
pub proof fn law_every_command_is_carried_out(received: Received, step: DrainStep)
    requires
        follows(received, step),
    ensures
        step is Apply <==> received is Command && received->Command_0 is SetContent,
        step is Apply ==> step->Apply_0 == received->Command_0->SetContent_0,
        step is Exit <==> received is Disconnected || (received is Command
            && received->Command_0 is Terminate),
        step is Idle <==> received is Empty,
{
}

} // verus!
