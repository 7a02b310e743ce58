//! What is asked of the kernel, and what it answers.
//!
//! Nothing here performs a request. The caller does, once for every
//! [`Request`] it is handed, and reports the result as a [`Reply`].

use vstd::prelude::*;
use crate::attributes::TerminalAttributes;
use crate::handle::Vt;
use crate::number::{VtError, VtNumber};

verus! {

/// The kernel's report on the virtual terminals.
#[derive(Copy, Clone, Debug, PartialEq, Eq, Structural)]
pub struct VtStat {
    /// Number of the terminal that is displayed.
    pub v_active: u16,
    /// Signal that the kernel is about to send.
    pub v_signal: u16,
    /// Bit `k` is set while terminal `k` is in use, for the first 16 terminals.
    pub v_state: u16,
}

/// Which queue of a terminal to discard.
#[derive(Copy, Clone, Debug, PartialEq, Eq, Structural)]
pub enum VtFlushType {
    /// What was received and not yet read.
    Incoming,
    /// What was written and not yet sent.
    Outgoing,
    /// Both queues.
    Both,
}

/// One thing to ask of the kernel. A terminal is named by its number.
#[derive(Copy, Clone, Debug, PartialEq, Eq, Structural)]
pub enum Request {
    /// Control device: which is the first terminal that nobody uses?
    FirstFree,
    /// Control device: report the state of the terminals.
    GetState,
    /// Control device: display this terminal.
    Activate(i32),
    /// Control device: return once this terminal is displayed.
    WaitActive(i32),
    /// Control device: release the kernel's resources for this terminal.
    Deallocate(i32),
    /// Control device: forbid switching between terminals.
    LockSwitch,
    /// Control device: allow switching between terminals.
    UnlockSwitch,
    /// Read the console's blank timer, in seconds.
    ReadBlankTimer,
    /// Open the device file of this terminal for reading and writing.
    OpenDevice(i32),
    /// Close a device file of this terminal that was opened before.
    CloseDevice(i32),
    /// Fetch the attributes of this terminal.
    LoadAttributes(i32),
    /// Make these the attributes of this terminal, at once.
    CommitAttributes(i32, TerminalAttributes),
    /// Discard queued data of this terminal.
    Flush(i32, VtFlushType),
    /// Write the sequence that clears the screen to this terminal.
    ClearScreen(i32),
    /// Write the sequence that sets the blank timer, in seconds, to this terminal.
    SetBlankTimer(i32, u32),
    /// Blank the screen, through this terminal.
    Blank(i32),
    /// Light the screen again, through this terminal.
    Unblank(i32),
}

/// What came of a request.
#[derive(Copy, Clone, Debug, PartialEq, Eq, Structural)]
pub enum Reply {
    /// It was done, and there is nothing to report.
    Done,
    /// The answer to [`Request::FirstFree`].
    Number(i32),
    /// The answer to [`Request::GetState`].
    State(VtStat),
    /// The answer to [`Request::LoadAttributes`].
    Attributes(TerminalAttributes),
    /// The answer to [`Request::ReadBlankTimer`].
    Timer(u32),
    /// It failed, with this OS error code.
    Failed(i32),
}

/// What an operation gives when it succeeds.
#[derive(Copy, Clone, Debug, PartialEq, Eq, Structural)]
pub enum Outcome {
    /// Nothing but its success.
    Completed,
    /// A terminal's number.
    Number(VtNumber),
    /// The console's blank timer, in seconds; 0 means that it is off.
    Timer(u32),
    /// A handle to a terminal.
    Handle(Vt),
}

/// What an operation wants next.
#[derive(Copy, Clone, Debug, PartialEq, Eq, Structural)]
pub enum Step {
    /// This request performed, and its reply handed to `resume`.
    Issue(Request),
    /// Nothing: it succeeded.
    Done(Outcome),
    /// Nothing: it failed.
    Failed(VtError),
}

/// How many device files of terminal `number` are open once `requests` were
/// answered by `replies`, one for one: each opening that was done counts one
/// up, each closing one down. A request that no reply is left for counts
/// nothing.
pub open spec fn held(requests: Seq<Request>, replies: Seq<Reply>, number: i32) -> int
    decreases requests.len(),
{
    if requests.len() == 0 || replies.len() == 0 {
        0
    } else {
        held(requests.drop_first(), replies.drop_first(), number) + effect(
            requests[0],
            replies[0],
            number,
        )
    }
}

/// What one answered request changes in the count of open device files of
/// terminal `number`.
pub open spec fn effect(request: Request, reply: Reply, number: i32) -> int {
    if request == Request::OpenDevice(number) && reply == Reply::Done {
        1
    } else if request == Request::CloseDevice(number) {
        -1
    } else {
        0
    }
}

impl Reply {
    /// The error that a reply stands for when it brings no usable answer.
    pub open spec fn spec_error(self) -> VtError {
        match self {
            Reply::Failed(code) => VtError::Io(code),
            _ => VtError::Protocol,
        }
    }

    /// The error that this reply stands for when it brings no usable answer:
    /// the OS error of a failure, else the mark of a reply out of place.
    pub fn error(self) -> (e: VtError)
        ensures
            e == self.spec_error(),
    {
        match self {
            Reply::Failed(code) => VtError::Io(code),
            _ => VtError::Protocol,
        }
    }
}

} // verus!
