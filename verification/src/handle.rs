//! A handle to one terminal.
//!
//! A handle starts out unopened. The first operation that needs the device
//! opens it and fetches the terminal's attributes; from then on the handle
//! works on the attributes it holds, and the device is not opened again.

use vstd::prelude::*;
use crate::attributes::{TerminalAttributes, VtSignals};
use crate::gateway::{Outcome, Reply, Request, Step, VtFlushType};
use crate::number::{AsVtNumber, VtError, VtNumber};

verus! {

/// Whether the terminal goes back to the kernel when its handle is released.
#[derive(Copy, Clone, Debug, PartialEq, Eq, Structural)]
pub enum Ownership {
    /// The handle allocated the terminal, and releases it.
    Owned,
    /// The terminal was there before the handle, and stays.
    Borrowed,
}

/// Whether a handle has opened its device.
#[derive(Copy, Clone, Debug, PartialEq, Eq, Structural)]
pub enum HandleState {
    /// Only the number is known.
    Unopened,
    /// The device is open, and these are the terminal's attributes as the
    /// handle last fetched or set them.
    Opened(TerminalAttributes),
}

/// What an operation on a handle is to do once the device is open.
#[derive(Copy, Clone, Debug, PartialEq, Eq, Structural)]
pub enum Goal {
    /// Nothing more.
    Open,
    /// Clear the screen.
    Clear,
    /// Set the blank timer, in seconds.
    SetBlankTimer(u32),
    /// Blank the screen, or light it again.
    Blank(bool),
    /// Switch echo on or off.
    SetEcho(bool),
    /// Let exactly these signals be raised from the keyboard.
    Signals(VtSignals),
    /// Discard queued data.
    Flush(VtFlushType),
}

/// Where an operation on a handle stands: the reply it waits for.
#[derive(Copy, Clone, Debug, PartialEq, Eq, Structural)]
pub enum Stage {
    /// None: no operation is under way.
    Idle,
    /// The opening of the device.
    Opening(Goal),
    /// The terminal's attributes.
    Loading(Goal),
    /// The closing of the device, after its attributes could not be fetched
    /// for this reason.
    Closing(VtError),
    /// The request to display the terminal.
    Activating,
    /// The console's blank timer.
    TimerQuery,
    /// The setting of the blank timer to 1, without which the screen cannot be
    /// blanked.
    Arming,
    /// The blanking; afterwards the timer is to be set back to 0, or not.
    Blanking(bool),
    /// The last request of the operation.
    Last,
}

/// A handle to a terminal.
#[derive(Copy, Clone, Debug, PartialEq, Eq, Structural)]
pub struct Vt {
    /// The terminal.
    pub number: VtNumber,
    /// Whether releasing the handle releases the terminal.
    pub ownership: Ownership,
    /// Whether the device is open, and the attributes if it is.
    pub state: HandleState,
    /// The operation under way.
    pub stage: Stage,
}

impl Vt {
    /// An unopened handle to a terminal that exists already.
    pub open spec fn spec_borrowed(number: VtNumber) -> Vt {
        Vt {
            number,
            ownership: Ownership::Borrowed,
            state: HandleState::Unopened,
            stage: Stage::Idle,
        }
    }

    /// An opened handle to a terminal that was just allocated.
    pub open spec fn spec_owned(number: VtNumber, attributes: TerminalAttributes) -> Vt {
        Vt {
            number,
            ownership: Ownership::Owned,
            state: HandleState::Opened(attributes),
            stage: Stage::Idle,
        }
    }

    /// Whether the caller holds the device of this terminal open.
    pub open spec fn device_open(self) -> bool {
        self.state is Opened || self.stage is Loading || self.stage is Closing
    }

    /// This handle, waiting for `stage`.
    pub open spec fn at(self, stage: Stage) -> Vt {
        Vt { stage, ..self }
    }

    /// What an open handle with these attributes does for `goal`.
    pub open spec fn pursue(self, goal: Goal, attributes: TerminalAttributes) -> (Vt, Step) {
        let n = self.number.native();
        let open = Vt { state: HandleState::Opened(attributes), ..self };
        match goal {
            Goal::Open => (open.at(Stage::Idle), Step::Done(Outcome::Completed)),
            Goal::Clear => (open.at(Stage::Last), Step::Issue(Request::ClearScreen(n))),
            Goal::SetBlankTimer(seconds) => (
                open.at(Stage::Last),
                Step::Issue(Request::SetBlankTimer(n, seconds)),
            ),
            Goal::Blank(true) => (
                open.at(Stage::TimerQuery),
                Step::Issue(Request::ReadBlankTimer),
            ),
            Goal::Blank(false) => (open.at(Stage::Last), Step::Issue(Request::Unblank(n))),
            Goal::SetEcho(enabled) => (
                Vt {
                    state: HandleState::Opened(attributes.spec_with_echo(enabled)),
                    stage: Stage::Last,
                    ..self
                },
                Step::Issue(Request::CommitAttributes(n, attributes.spec_with_echo(enabled))),
            ),
            Goal::Signals(requested) => (
                Vt {
                    state: HandleState::Opened(attributes.spec_with_signals(requested)),
                    stage: Stage::Last,
                    ..self
                },
                Step::Issue(
                    Request::CommitAttributes(n, attributes.spec_with_signals(requested)),
                ),
            ),
            Goal::Flush(queue) => (open.at(Stage::Last), Step::Issue(Request::Flush(n, queue))),
        }
    }

    /// What a handle does when an operation with `goal` is begun: it opens
    /// the device first unless it is open, and refuses while another
    /// operation is under way.
    pub open spec fn begin(self, goal: Goal) -> (Vt, Step) {
        if !(self.stage is Idle) {
            (self, Step::Failed(VtError::Protocol))
        } else {
            match self.state {
                HandleState::Unopened => (
                    self.at(Stage::Opening(goal)),
                    Step::Issue(Request::OpenDevice(self.number.native())),
                ),
                HandleState::Opened(attributes) => self.pursue(goal, attributes),
            }
        }
    }

    /// What a handle does when it is asked to display its terminal.
    pub open spec fn begin_switch(self) -> (Vt, Step) {
        if !(self.stage is Idle) {
            (self, Step::Failed(VtError::Protocol))
        } else {
            (self.at(Stage::Activating), Step::Issue(Request::Activate(self.number.native())))
        }
    }

    /// The handle after `reply`, and what its operation wants next.
    pub open spec fn next(self, reply: Reply) -> (Vt, Step) {
        let n = self.number.native();
        let failed = (self.at(Stage::Idle), Step::Failed(reply.spec_error()));
        match self.stage {
            Stage::Idle => (self, Step::Failed(VtError::Protocol)),
            Stage::Opening(goal) => match reply {
                Reply::Done => (
                    self.at(Stage::Loading(goal)),
                    Step::Issue(Request::LoadAttributes(n)),
                ),
                _ => failed,
            },
            Stage::Loading(goal) => match reply {
                Reply::Attributes(attributes) => self.pursue(goal, attributes),
                _ => (
                    self.at(Stage::Closing(reply.spec_error())),
                    Step::Issue(Request::CloseDevice(n)),
                ),
            },
            Stage::Closing(error) => (self.at(Stage::Idle), Step::Failed(error)),
            Stage::Activating => match reply {
                Reply::Done => (self.at(Stage::Last), Step::Issue(Request::WaitActive(n))),
                _ => failed,
            },
            Stage::TimerQuery => match reply {
                Reply::Timer(seconds) => if seconds == 0 {
                    (self.at(Stage::Arming), Step::Issue(Request::SetBlankTimer(n, 1)))
                } else {
                    (self.at(Stage::Blanking(false)), Step::Issue(Request::Blank(n)))
                },
                _ => failed,
            },
            Stage::Arming => match reply {
                Reply::Done => (self.at(Stage::Blanking(true)), Step::Issue(Request::Blank(n))),
                _ => failed,
            },
            Stage::Blanking(restore) => match reply {
                Reply::Done => if restore {
                    (self.at(Stage::Last), Step::Issue(Request::SetBlankTimer(n, 0)))
                } else {
                    (self.at(Stage::Idle), Step::Done(Outcome::Completed))
                },
                _ => failed,
            },
            Stage::Last => match reply {
                Reply::Done => (self.at(Stage::Idle), Step::Done(Outcome::Completed)),
                _ => failed,
            },
        }
    }

    /// What is to be asked when the handle goes away: the terminal back to the
    /// kernel if the handle owns it, then the device closed if it is open.
    pub open spec fn spec_release(self) -> Seq<Request> {
        let n = self.number.native();
        let deallocate = if self.ownership is Owned {
            seq![Request::Deallocate(n)]
        } else {
            Seq::<Request>::empty()
        };
        let close = if self.device_open() {
            seq![Request::CloseDevice(n)]
        } else {
            Seq::<Request>::empty()
        };
        deallocate + close
    }
}

impl Vt {
    /// An unopened handle to a terminal that exists already. Releasing it
    /// leaves the terminal to the kernel.
    pub fn borrowed(number: VtNumber) -> (vt: Vt)
        ensures
            vt == Vt::spec_borrowed(number),
    {
        Vt {
            number,
            ownership: Ownership::Borrowed,
            state: HandleState::Unopened,
            stage: Stage::Idle,
        }
    }

    /// An opened handle to a terminal that was just allocated and has these
    /// attributes. Releasing it gives the terminal back.
    pub fn owned(number: VtNumber, attributes: TerminalAttributes) -> (vt: Vt)
        ensures
            vt == Vt::spec_owned(number, attributes),
    {
        Vt {
            number,
            ownership: Ownership::Owned,
            state: HandleState::Opened(attributes),
            stage: Stage::Idle,
        }
    }

    /// Returns the number of this terminal.
    pub fn number(&self) -> (n: VtNumber)
        ensures
            n == self.number,
    {
        self.number
    }

    /// Whether echo is on, as far as the handle knows: nothing is known
    /// before the device is opened.
    pub fn is_echo_enabled(&self) -> (echo: Option<bool>)
        ensures
            echo == match self.state {
                HandleState::Unopened => None::<bool>,
                HandleState::Opened(attributes) => Some(attributes.echo),
            },
    {
        match self.state {
            HandleState::Unopened => None,
            HandleState::Opened(attributes) => Some(attributes.is_echo_enabled()),
        }
    }

    fn proceed(&mut self, goal: Goal, attributes: TerminalAttributes) -> (step: Step)
        ensures
            (*final(self), step) == old(self).pursue(goal, attributes),
    {
        let n: i32 = self.number.as_native();
        self.state = HandleState::Opened(attributes);
        match goal {
            Goal::Open => {
                self.stage = Stage::Idle;
                Step::Done(Outcome::Completed)
            },
            Goal::Clear => {
                self.stage = Stage::Last;
                Step::Issue(Request::ClearScreen(n))
            },
            Goal::SetBlankTimer(seconds) => {
                self.stage = Stage::Last;
                Step::Issue(Request::SetBlankTimer(n, seconds))
            },
            Goal::Blank(blank) => {
                if blank {
                    self.stage = Stage::TimerQuery;
                    Step::Issue(Request::ReadBlankTimer)
                } else {
                    self.stage = Stage::Last;
                    Step::Issue(Request::Unblank(n))
                }
            },
            Goal::SetEcho(enabled) => {
                let changed = attributes.with_echo(enabled);
                self.state = HandleState::Opened(changed);
                self.stage = Stage::Last;
                Step::Issue(Request::CommitAttributes(n, changed))
            },
            Goal::Signals(requested) => {
                let changed = attributes.with_signals(requested);
                self.state = HandleState::Opened(changed);
                self.stage = Stage::Last;
                Step::Issue(Request::CommitAttributes(n, changed))
            },
            Goal::Flush(queue) => {
                self.stage = Stage::Last;
                Step::Issue(Request::Flush(n, queue))
            },
        }
    }

    fn start(&mut self, goal: Goal) -> (step: Step)
        ensures
            (*final(self), step) == old(self).begin(goal),
    {
        match self.stage {
            Stage::Idle => match self.state {
                HandleState::Unopened => {
                    self.stage = Stage::Opening(goal);
                    Step::Issue(Request::OpenDevice(self.number.as_native()))
                },
                HandleState::Opened(attributes) => self.proceed(goal, attributes),
            },
            _ => Step::Failed(VtError::Protocol),
        }
    }

    /// Opens the device and fetches the attributes, unless that was done
    /// before.
    pub fn ensure_open(&mut self) -> (step: Step)
        ensures
            (*final(self), step) == old(self).begin(Goal::Open),
    {
        self.start(Goal::Open)
    }

    /// Switches to this virtual terminal: it is displayed, and the operation
    /// ends once it is.
    pub fn switch(&mut self) -> (step: Step)
        ensures
            (*final(self), step) == old(self).begin_switch(),
    {
        match self.stage {
            Stage::Idle => {
                self.stage = Stage::Activating;
                Step::Issue(Request::Activate(self.number.as_native()))
            },
            _ => Step::Failed(VtError::Protocol),
        }
    }

    /// Clears the terminal.
    pub fn clear(&mut self) -> (step: Step)
        ensures
            (*final(self), step) == old(self).begin(Goal::Clear),
    {
        self.start(Goal::Clear)
    }

    /// Sets the blank timer for this terminal, in seconds. A value of `0`
    /// disables the timer.
    pub fn set_blank_timer(&mut self, timer: u32) -> (step: Step)
        ensures
            (*final(self), step) == old(self).begin(Goal::SetBlankTimer(timer)),
    {
        self.start(Goal::SetBlankTimer(timer))
    }

    /// Blanks or unblanks the terminal. The kernel blanks only while the
    /// console's blank timer runs: where it is off, it is set to one second for
    /// the blanking and switched off again afterwards.
    pub fn blank(&mut self, blank: bool) -> (step: Step)
        ensures
            (*final(self), step) == old(self).begin(Goal::Blank(blank)),
    {
        self.start(Goal::Blank(blank))
    }

    /// Enables or disables the echo of the characters typed by the user, and
    /// commits the attributes, whether or not they changed.
    pub fn set_echo(&mut self, echo: bool) -> (step: Step)
        ensures
            (*final(self), step) == old(self).begin(Goal::SetEcho(echo)),
    {
        self.start(Goal::SetEcho(echo))
    }

    /// Enables signal generation from the terminal, for exactly the signals
    /// given, and commits the attributes.
    pub fn signals(&mut self, signals: VtSignals) -> (step: Step)
        ensures
            (*final(self), step) == old(self).begin(Goal::Signals(signals)),
    {
        self.start(Goal::Signals(signals))
    }

    /// Flushes the internal buffers of the terminal.
    pub fn flush_buffers(&mut self, t: VtFlushType) -> (step: Step)
        ensures
            (*final(self), step) == old(self).begin(Goal::Flush(t)),
    {
        self.start(Goal::Flush(t))
    }

    /// Takes the reply to the request that was handed out last, and says what
    /// the operation wants next.
    pub fn resume(&mut self, reply: Reply) -> (step: Step)
        ensures
            (*final(self), step) == old(self).next(reply),
    {
        let n: i32 = self.number.as_native();
        match self.stage {
            Stage::Idle => Step::Failed(VtError::Protocol),
            Stage::Opening(goal) => match reply {
                Reply::Done => {
                    self.stage = Stage::Loading(goal);
                    Step::Issue(Request::LoadAttributes(n))
                },
                _ => self.fail(reply),
            },
            Stage::Loading(goal) => match reply {
                Reply::Attributes(attributes) => self.proceed(goal, attributes),
                _ => {
                    self.stage = Stage::Closing(reply.error());
                    Step::Issue(Request::CloseDevice(n))
                },
            },
            Stage::Closing(error) => {
                self.stage = Stage::Idle;
                Step::Failed(error)
            },
            Stage::Activating => match reply {
                Reply::Done => {
                    self.stage = Stage::Last;
                    Step::Issue(Request::WaitActive(n))
                },
                _ => self.fail(reply),
            },
            Stage::TimerQuery => match reply {
                Reply::Timer(seconds) => {
                    if seconds == 0 {
                        self.stage = Stage::Arming;
                        Step::Issue(Request::SetBlankTimer(n, 1))
                    } else {
                        self.stage = Stage::Blanking(false);
                        Step::Issue(Request::Blank(n))
                    }
                },
                _ => self.fail(reply),
            },
            Stage::Arming => match reply {
                Reply::Done => {
                    self.stage = Stage::Blanking(true);
                    Step::Issue(Request::Blank(n))
                },
                _ => self.fail(reply),
            },
            Stage::Blanking(restore) => match reply {
                Reply::Done => {
                    if restore {
                        self.stage = Stage::Last;
                        Step::Issue(Request::SetBlankTimer(n, 0))
                    } else {
                        self.stage = Stage::Idle;
                        Step::Done(Outcome::Completed)
                    }
                },
                _ => self.fail(reply),
            },
            Stage::Last => match reply {
                Reply::Done => {
                    self.stage = Stage::Idle;
                    Step::Done(Outcome::Completed)
                },
                _ => self.fail(reply),
            },
        }
    }

    fn fail(&mut self, reply: Reply) -> (step: Step)
        ensures
            *final(self) == old(self).at(Stage::Idle),
            step == Step::Failed(reply.spec_error()),
    {
        self.stage = Stage::Idle;
        Step::Failed(reply.error())
    }

    /// Gives the handle up. The requests returned are to be performed in
    /// order, and whatever comes of them is to be ignored.
    pub fn release(self) -> (requests: Vec<Request>)
        ensures
            requests@ == self.spec_release(),
    {
        let n: i32 = self.number.as_native();
        let mut requests: Vec<Request> = Vec::new();
        match self.ownership {
            Ownership::Owned => {
                requests.push(Request::Deallocate(n));
            },
            Ownership::Borrowed => {},
        }
        let open: bool = match self.state {
            HandleState::Opened(_) => true,
            HandleState::Unopened => match self.stage {
                Stage::Loading(_) => true,
                Stage::Closing(_) => true,
                _ => false,
            },
        };
        if open {
            requests.push(Request::CloseDevice(n));
        }
        requests
    }
}

/// What an operation on a handle did, told by the requests it handed out.
pub struct Run {
    /// The requests, in the order in which they were handed out.
    pub requests: Seq<Request>,
    /// The handle as the operation left it.
    pub handle: Vt,
    /// The last step: the end of the operation, or the request that no
    /// reply was left for.
    pub end: Step,
}

/// The console's blank timer after `requests`, each of which was done, when
/// it was `timer` before: what it was last set to, if it was set.
pub open spec fn timer_after(timer: u32, requests: Seq<Request>) -> u32
    decreases requests.len(),
{
    if requests.len() == 0 {
        timer
    } else {
        match requests.last() {
            Request::SetBlankTimer(_, seconds) => seconds,
            _ => timer_after(timer, requests.drop_last()),
        }
    }
}

impl Vt {
    /// What comes of an operation that has just taken `step`, when the
    /// requests it hands out are answered by `replies`, one after the other.
    pub open spec fn play(self, step: Step, replies: Seq<Reply>) -> Run
        decreases replies.len(),
    {
        match step {
            Step::Issue(request) => if replies.len() == 0 {
                Run { requests: seq![request], handle: self, end: step }
            } else {
                let (handle, then) = self.next(replies[0]);
                let rest = handle.play(then, replies.drop_first());
                Run { requests: seq![request] + rest.requests, ..rest }
            },
            _ => Run { requests: Seq::empty(), handle: self, end: step },
        }
    }

    /// What comes of the operation with `goal`, begun on this handle, when its
    /// requests are answered by `replies`.
    pub open spec fn perform(self, goal: Goal, replies: Seq<Reply>) -> Run {
        self.begin(goal).0.play(self.begin(goal).1, replies)
    }

    /// Blanking while the console's timer is off: the timer is read, set to
    /// one second, the screen is blanked, and the timer is switched off again.
    pub proof fn blank_arms_the_timer(self, attributes: TerminalAttributes)
        requires
            self.stage is Idle,
            self.state == HandleState::Opened(attributes),
        ensures
            self.perform(
                Goal::Blank(true),
                seq![Reply::Timer(0), Reply::Done, Reply::Done, Reply::Done],
            ) == (Run {
                requests: seq![
                    Request::ReadBlankTimer,
                    Request::SetBlankTimer(self.number.native(), 1),
                    Request::Blank(self.number.native()),
                    Request::SetBlankTimer(self.number.native(), 0),
                ],
                handle: self,
                end: Step::Done(Outcome::Completed),
            }),
    {
        reveal_with_fuel(Vt::play, 5);
        let replies = seq![Reply::Timer(0), Reply::Done, Reply::Done, Reply::Done];
        assert(self.perform(Goal::Blank(true), replies).requests =~= seq![
            Request::ReadBlankTimer,
            Request::SetBlankTimer(self.number.native(), 1),
            Request::Blank(self.number.native()),
            Request::SetBlankTimer(self.number.native(), 0),
        ]);
    }

    /// Blanking while the console's timer runs: the timer is read and the
    /// screen is blanked; the timer is left alone.
    pub proof fn blank_keeps_a_running_timer(self, attributes: TerminalAttributes, seconds: u32)
        requires
            self.stage is Idle,
            self.state == HandleState::Opened(attributes),
            seconds != 0,
        ensures
            self.perform(Goal::Blank(true), seq![Reply::Timer(seconds), Reply::Done]) == (Run {
                requests: seq![Request::ReadBlankTimer, Request::Blank(self.number.native())],
                handle: self,
                end: Step::Done(Outcome::Completed),
            }),
    {
        reveal_with_fuel(Vt::play, 3);
        let replies = seq![Reply::Timer(seconds), Reply::Done];
        assert(self.perform(Goal::Blank(true), replies).requests =~= seq![
            Request::ReadBlankTimer,
            Request::Blank(self.number.native()),
        ]);
    }

    /// Blanking leaves the console's timer as it found it: whatever the timer
    /// was and whatever the replies are, after a blanking that succeeded the
    /// timer is what was read at its start.
    pub proof fn blank_leaves_the_timer_as_it_was(
        self,
        attributes: TerminalAttributes,
        seconds: u32,
        later: Seq<Reply>,
    )
        requires
            self.stage is Idle,
            self.state == HandleState::Opened(attributes),
        ensures
            ({
                let run = self.perform(Goal::Blank(true), seq![Reply::Timer(seconds)] + later);
                run.end is Done ==> timer_after(seconds, run.requests) == seconds
            }),
    {
        reveal_with_fuel(Vt::play, 5);
        reveal_with_fuel(timer_after, 5);
        let n = self.number.native();
        let replies = seq![Reply::Timer(seconds)] + later;
        let run = self.perform(Goal::Blank(true), replies);
        if run.end is Done {
            if seconds == 0 {
                assert(run.requests =~= seq![
                    Request::ReadBlankTimer,
                    Request::SetBlankTimer(n, 1),
                    Request::Blank(n),
                    Request::SetBlankTimer(n, 0),
                ]);
            } else {
                assert(run.requests =~= seq![Request::ReadBlankTimer, Request::Blank(n)]);
            }
        }
    }

    /// Lighting the screen again takes one request, and the timer is neither
    /// read nor set.
    pub proof fn unblank_is_one_request(self, attributes: TerminalAttributes)
        requires
            self.stage is Idle,
            self.state == HandleState::Opened(attributes),
        ensures
            self.perform(Goal::Blank(false), seq![Reply::Done]) == (Run {
                requests: seq![Request::Unblank(self.number.native())],
                handle: self,
                end: Step::Done(Outcome::Completed),
            }),
    {
        reveal_with_fuel(Vt::play, 2);
        assert(self.perform(Goal::Blank(false), seq![Reply::Done]).requests =~= seq![
            Request::Unblank(self.number.native()),
        ]);
    }

    /// Setting the echo commits the attributes every time, also when the
    /// handle holds the requested setting already: the first request of an
    /// open handle is the commit of its attributes with the echo as asked.
    pub proof fn set_echo_always_commits(self, attributes: TerminalAttributes, echo: bool)
        requires
            self.stage is Idle,
            self.state == HandleState::Opened(attributes),
        ensures
            self.begin(Goal::SetEcho(echo)).1 == Step::Issue(
                Request::CommitAttributes(
                    self.number.native(),
                    attributes.spec_with_echo(echo),
                ),
            ),
            self.begin(Goal::SetEcho(echo)).0.state == HandleState::Opened(
                attributes.spec_with_echo(echo),
            ),
            self.begin(Goal::SetEcho(echo)).0.stage is Last,
            attributes.spec_with_echo(echo).echo == echo,
    {
    }

    /// Setting the echo twice commits twice, both times with the echo as
    /// asked.
    pub proof fn set_echo_twice_commits_twice(self, attributes: TerminalAttributes, echo: bool)
        requires
            self.stage is Idle,
            self.state == HandleState::Opened(attributes),
        ensures
            ({
                let first = self.perform(Goal::SetEcho(echo), seq![Reply::Done]);
                let second = first.handle.perform(Goal::SetEcho(echo), seq![Reply::Done]);
                let commit = Request::CommitAttributes(
                    self.number.native(),
                    attributes.spec_with_echo(echo),
                );
                &&& first.requests == seq![commit]
                &&& first.end == Step::Done(Outcome::Completed)
                &&& second.requests == seq![commit]
                &&& second.end == Step::Done(Outcome::Completed)
            }),
    {
        reveal_with_fuel(Vt::play, 2);
        let commit = Request::CommitAttributes(
            self.number.native(),
            attributes.spec_with_echo(echo),
        );
        let first = self.perform(Goal::SetEcho(echo), seq![Reply::Done]);
        assert(first.requests =~= seq![commit]);
        let second = first.handle.perform(Goal::SetEcho(echo), seq![Reply::Done]);
        assert(second.requests =~= seq![commit]);
    }

    /// An operation on an unopened handle opens the device and fetches the
    /// attributes first, and then does what it would have done on a handle
    /// that was open with those attributes.
    pub proof fn first_use_opens(self, goal: Goal, attributes: TerminalAttributes)
        requires
            self.stage is Idle,
            self.state is Unopened,
        ensures
            ({
                let (v0, s0) = self.begin(goal);
                let (v1, s1) = v0.next(Reply::Done);
                let opened = Vt { state: HandleState::Opened(attributes), ..self };
                &&& s0 == Step::Issue(Request::OpenDevice(self.number.native()))
                &&& s1 == Step::Issue(Request::LoadAttributes(self.number.native()))
                &&& v1.next(Reply::Attributes(attributes)) == opened.begin(goal)
            }),
    {
    }

    /// An open handle never opens its device nor fetches its attributes
    /// again, whatever is begun on it and whatever the replies are.
    pub proof fn open_handle_stays_open(self, goal: Goal, replies: Seq<Reply>)
        requires
            self.stage is Idle,
            self.state is Opened,
        ensures
            ({
                let run = self.perform(goal, replies);
                &&& run.handle.state is Opened
                &&& forall|i: int|
                    0 <= i < run.requests.len() ==> !(run.requests[i] is OpenDevice)
                        && !(run.requests[i] is LoadAttributes)
            }),
    {
        let (v0, s0) = self.begin(goal);
        v0.play_stays_open(s0, replies);
    }

    proof fn play_stays_open(self, step: Step, replies: Seq<Reply>)
        requires
            self.state is Opened,
            !(self.stage is Opening),
            !(self.stage is Loading),
            step matches Step::Issue(request) ==> !(request is OpenDevice) && !(request
                is LoadAttributes),
        ensures
            ({
                let run = self.play(step, replies);
                &&& run.handle.state is Opened
                &&& forall|i: int|
                    0 <= i < run.requests.len() ==> !(run.requests[i] is OpenDevice)
                        && !(run.requests[i] is LoadAttributes)
            }),
        decreases replies.len(),
    {
        if step is Issue && replies.len() > 0 {
            let (handle, then) = self.next(replies[0]);
            handle.play_stays_open(then, replies.drop_first());
        }
    }

    /// Switching asks for the terminal to be displayed and then waits for
    /// it, in that order.
    pub proof fn switch_activates_then_waits(self)
        requires
            self.stage is Idle,
        ensures
            self.begin_switch().0.play(self.begin_switch().1, seq![Reply::Done, Reply::Done])
                == (Run {
                requests: seq![
                    Request::Activate(self.number.native()),
                    Request::WaitActive(self.number.native()),
                ],
                handle: self,
                end: Step::Done(Outcome::Completed),
            }),
    {
        reveal_with_fuel(Vt::play, 3);
        let run = self.begin_switch().0.play(
            self.begin_switch().1,
            seq![Reply::Done, Reply::Done],
        );
        assert(run.requests =~= seq![
            Request::Activate(self.number.native()),
            Request::WaitActive(self.number.native()),
        ]);
    }

    /// Where the terminal cannot be displayed, switching does not wait for
    /// it: it ends at once with the error of the refusal.
    pub proof fn switch_stops_at_a_refusal(self, code: i32, later: Seq<Reply>)
        requires
            self.stage is Idle,
        ensures
            self.begin_switch().0.play(
                self.begin_switch().1,
                seq![Reply::Failed(code)] + later,
            ) == (Run {
                requests: seq![Request::Activate(self.number.native())],
                handle: self,
                end: Step::Failed(VtError::Io(code)),
            }),
    {
        reveal_with_fuel(Vt::play, 2);
        let run = self.begin_switch().0.play(
            self.begin_switch().1,
            seq![Reply::Failed(code)] + later,
        );
        assert(run.requests =~= seq![Request::Activate(self.number.native())]);
    }

    /// Releasing a handle gives the terminal back exactly when the handle
    /// owns it, whatever state the handle is in; where it does, that is the
    /// first request.
    pub proof fn release_deallocates_what_is_owned(self)
        ensures
            self.ownership is Owned ==> self.spec_release().len() > 0 && self.spec_release()[0]
                == Request::Deallocate(self.number.native()),
            self.ownership is Borrowed ==> forall|i: int|
                0 <= i < self.spec_release().len() ==> !(self.spec_release()[i] is Deallocate),
            forall|i: int|
                0 < i < self.spec_release().len() ==> !(self.spec_release()[i] is Deallocate),
    {
    }
}

impl AsVtNumber for Vt {
    open spec fn vt_number(&self) -> VtNumber {
        self.number
    }

    fn as_vt_number(&self) -> VtNumber {
        self.number
    }
}

} // verus!
