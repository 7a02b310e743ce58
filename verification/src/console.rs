//! The console's control device: which terminal is displayed, which is free,
//! and the allocation of new ones.

use vstd::prelude::*;
use crate::allocator::{Progress, Searching, Verdict, VtAllocator};
use crate::attributes::TerminalAttributes;
use crate::gateway::{effect, held, Outcome, Reply, Request, Step};
use crate::handle::{HandleState, Vt};
use crate::number::{made_number_has_its_value, AsVtNumber, VtError, VtNumber};

verus! {

/// Where an operation on the console stands: the reply it waits for.
#[derive(Copy, Clone, Debug, PartialEq, Eq, Structural)]
pub enum ConsoleStage {
    /// None: no operation is under way.
    Idle,
    /// The state of the terminals, for the one that is displayed.
    State,
    /// The request to display this terminal.
    Activating(VtNumber),
    /// The console's blank timer.
    Timer,
    /// The news that this terminal is displayed.
    Waiting(VtNumber),
    /// The locking of the switch, or its unlocking.
    Locking(bool),
    /// Whatever the search for a free terminal waits for.
    Searching,
    /// The opening of the device of this terminal, which the search found.
    Opening(VtNumber),
    /// The attributes of this terminal.
    Loading(VtNumber),
    /// The commit of these attributes to this terminal.
    Committing(VtNumber, TerminalAttributes),
    /// The release of this terminal, whose attributes could not be committed
    /// for this reason.
    Releasing(VtNumber, VtError),
    /// The closing of the device of this terminal; the allocation then fails
    /// for this reason.
    Closing(VtNumber, VtError),
}

/// A console as contracts see it.
pub struct Controlling {
    /// The reply that is awaited.
    pub stage: ConsoleStage,
    /// The search for a free terminal, while there is one.
    pub search: Option<Searching>,
}

impl Controlling {
    /// A console with no operation under way.
    pub open spec fn idle() -> Controlling {
        Controlling { stage: ConsoleStage::Idle, search: None }
    }

    /// What a console does when an operation is begun that starts with
    /// `request` and then waits in `stage`: it refuses while another operation
    /// is under way.
    pub open spec fn begin(self, stage: ConsoleStage, request: Request) -> (Controlling, Step) {
        if self.stage is Idle {
            (Controlling { stage, search: None }, Step::Issue(request))
        } else {
            (self, Step::Failed(VtError::Protocol))
        }
    }

    /// What a console does when it is asked for a new terminal whose number is
    /// at least `minimum`.
    pub open spec fn begin_allocation(self, minimum: VtNumber) -> (Controlling, Step) {
        if self.stage is Idle {
            (
                Controlling {
                    stage: ConsoleStage::Searching,
                    search: Some(Searching::initial(minimum)),
                },
                Step::Issue(Request::FirstFree),
            )
        } else {
            (self, Step::Failed(VtError::Protocol))
        }
    }

    /// What a console does when it is asked to display `number`.
    pub open spec fn begin_switch(self, number: VtNumber) -> (Controlling, Step) {
        self.begin(ConsoleStage::Activating(number), Request::Activate(number.native()))
    }

    /// What a console does when it is asked to lock or unlock switching.
    pub open spec fn begin_lock(self, lock: bool) -> (Controlling, Step) {
        self.begin(
            ConsoleStage::Locking(lock),
            if lock {
                Request::LockSwitch
            } else {
                Request::UnlockSwitch
            },
        )
    }

    /// The request whose reply is awaited.
    pub open spec fn pending(self) -> Option<Request> {
        match self.stage {
            ConsoleStage::Idle => None,
            ConsoleStage::State => Some(Request::GetState),
            ConsoleStage::Activating(number) => Some(Request::Activate(number.native())),
            ConsoleStage::Waiting(number) => Some(Request::WaitActive(number.native())),
            ConsoleStage::Locking(lock) => Some(
                if lock {
                    Request::LockSwitch
                } else {
                    Request::UnlockSwitch
                },
            ),
            ConsoleStage::Timer => Some(Request::ReadBlankTimer),
            ConsoleStage::Searching => match self.search {
                Some(search) => search.pending(),
                None => None,
            },
            ConsoleStage::Opening(number) => Some(Request::OpenDevice(number.native())),
            ConsoleStage::Loading(number) => Some(Request::LoadAttributes(number.native())),
            ConsoleStage::Committing(number, attributes) => Some(
                Request::CommitAttributes(number.native(), attributes),
            ),
            ConsoleStage::Releasing(number, _) => Some(Request::Deallocate(number.native())),
            ConsoleStage::Closing(number, _) => Some(Request::CloseDevice(number.native())),
        }
    }

    /// What a console does once the search has found `number`: it makes the
    /// handle, for which it needs the device open and the attributes.
    pub open spec fn adopt(number: VtNumber, device_open: bool) -> (Controlling, Step) {
        if device_open {
            (
                Controlling { stage: ConsoleStage::Loading(number), search: None },
                Step::Issue(Request::LoadAttributes(number.native())),
            )
        } else {
            (
                Controlling { stage: ConsoleStage::Opening(number), search: None },
                Step::Issue(Request::OpenDevice(number.native())),
            )
        }
    }

    /// The console after `reply`, and what its operation wants next.
    pub open spec fn next(self, reply: Reply) -> (Controlling, Step) {
        let failed = (Controlling::idle(), Step::Failed(reply.spec_error()));
        match self.stage {
            ConsoleStage::Idle => (self, Step::Failed(VtError::Protocol)),
            ConsoleStage::State => match reply {
                Reply::State(state) => (
                    Controlling::idle(),
                    Step::Done(Outcome::Number(VtNumber::of(state.v_active as i32))),
                ),
                _ => failed,
            },
            ConsoleStage::Activating(number) => match reply {
                Reply::Done => (
                    Controlling { stage: ConsoleStage::Waiting(number), search: None },
                    Step::Issue(Request::WaitActive(number.native())),
                ),
                _ => failed,
            },
            ConsoleStage::Timer => match reply {
                Reply::Timer(seconds) => (
                    Controlling::idle(),
                    Step::Done(Outcome::Timer(seconds)),
                ),
                _ => failed,
            },
            ConsoleStage::Waiting(_) | ConsoleStage::Locking(_) => match reply {
                Reply::Done => (Controlling::idle(), Step::Done(Outcome::Completed)),
                _ => failed,
            },
            ConsoleStage::Searching => match self.search {
                None => (Controlling::idle(), Step::Failed(VtError::Protocol)),
                Some(search) => match search.next(reply).1 {
                    Progress::Issue(request) => (
                        Controlling {
                            stage: ConsoleStage::Searching,
                            search: Some(search.next(reply).0),
                        },
                        Step::Issue(request),
                    ),
                    Progress::Settled(Verdict::Found(found)) => Controlling::adopt(
                        found.number,
                        found.device_open,
                    ),
                    Progress::Settled(Verdict::Failed(error)) => (
                        Controlling::idle(),
                        Step::Failed(error),
                    ),
                },
            },
            ConsoleStage::Opening(number) => match reply {
                Reply::Done => (
                    Controlling { stage: ConsoleStage::Loading(number), search: None },
                    Step::Issue(Request::LoadAttributes(number.native())),
                ),
                _ => failed,
            },
            ConsoleStage::Loading(number) => match reply {
                Reply::Attributes(attributes) => (
                    Controlling {
                        stage: ConsoleStage::Committing(number, attributes.spec_baseline()),
                        search: None,
                    },
                    Step::Issue(
                        Request::CommitAttributes(number.native(), attributes.spec_baseline()),
                    ),
                ),
                _ => (
                    Controlling {
                        stage: ConsoleStage::Closing(number, reply.spec_error()),
                        search: None,
                    },
                    Step::Issue(Request::CloseDevice(number.native())),
                ),
            },
            ConsoleStage::Committing(number, attributes) => match reply {
                Reply::Done => (
                    Controlling::idle(),
                    Step::Done(Outcome::Handle(Vt::spec_owned(number, attributes))),
                ),
                _ => (
                    Controlling {
                        stage: ConsoleStage::Releasing(number, reply.spec_error()),
                        search: None,
                    },
                    Step::Issue(Request::Deallocate(number.native())),
                ),
            },
            ConsoleStage::Releasing(number, error) => (
                Controlling { stage: ConsoleStage::Closing(number, error), search: None },
                Step::Issue(Request::CloseDevice(number.native())),
            ),
            ConsoleStage::Closing(_, error) => (Controlling::idle(), Step::Failed(error)),
        }
    }
}

/// What an operation on the console did, told by the requests it handed out.
pub struct Session {
    /// The requests, in the order in which they were handed out.
    pub requests: Seq<Request>,
    /// The console as the operation left it.
    pub console: Controlling,
    /// The last step: the end of the operation, or the request that no
    /// reply was left for.
    pub end: Step,
}

/// One if the two numbers are the same, else zero.
pub open spec fn one_if(number: VtNumber, other: i32) -> int {
    if number.native() == other {
        1
    } else {
        0
    }
}

impl Controlling {
    /// What comes of an operation that has just taken `step`, when the
    /// requests it hands out are answered by `replies`, one after the other.
    pub open spec fn play(self, step: Step, replies: Seq<Reply>) -> Session
        decreases replies.len(),
    {
        match step {
            Step::Issue(request) => if replies.len() == 0 {
                Session { requests: seq![request], console: self, end: step }
            } else {
                let (console, then) = self.next(replies[0]);
                let rest = console.play(then, replies.drop_first());
                Session { requests: seq![request] + rest.requests, ..rest }
            },
            _ => Session { requests: Seq::empty(), console: self, end: step },
        }
    }

    /// What comes of allocating a terminal at or above `minimum` on an idle
    /// console, when the requests are answered by `replies`.
    pub open spec fn allocate(minimum: VtNumber, replies: Seq<Reply>) -> Session {
        Controlling::idle().begin_allocation(minimum).0.play(
            Controlling::idle().begin_allocation(minimum).1,
            replies,
        )
    }

    /// What comes of switching to `number` on an idle console, when the
    /// requests are answered by `replies`.
    pub open spec fn switch(number: VtNumber, replies: Seq<Reply>) -> Session {
        Controlling::idle().begin_switch(number).0.play(
            Controlling::idle().begin_switch(number).1,
            replies,
        )
    }

    /// Whether `step` is one that this console can just have taken while
    /// allocating a terminal at or above `minimum`.
    pub open spec fn allocating(self, step: Step, minimum: VtNumber) -> bool {
        match self.stage {
            ConsoleStage::Searching => self.search matches Some(search) && search.wf()
                && search.minimum == minimum && search.pending() is Some && step == Step::Issue(
                search.pending()->Some_0,
            ),
            ConsoleStage::Opening(number) => number@ >= minimum@ && step == Step::Issue(
                Request::OpenDevice(number.native()),
            ),
            ConsoleStage::Loading(number) => number@ >= minimum@ && step == Step::Issue(
                Request::LoadAttributes(number.native()),
            ),
            ConsoleStage::Committing(number, attributes) => number@ >= minimum@
                && attributes.spec_baseline() == attributes && step == Step::Issue(
                Request::CommitAttributes(number.native(), attributes),
            ),
            ConsoleStage::Releasing(number, _) => number@ >= minimum@ && step == Step::Issue(
                Request::Deallocate(number.native()),
            ),
            ConsoleStage::Closing(number, _) => number@ >= minimum@ && step == Step::Issue(
                Request::CloseDevice(number.native()),
            ),
            ConsoleStage::Idle => match step {
                Step::Issue(_) => false,
                Step::Failed(_) => true,
                Step::Done(outcome) => outcome matches Outcome::Handle(vt) && vt.number@
                    >= minimum@ && (exists|attributes: TerminalAttributes|
                    vt == Vt::spec_owned(vt.number, attributes) && #[trigger] attributes.spec_baseline()
                        == attributes),
            },
            _ => false,
        }
    }

    /// How many device files of terminal `number` are open on behalf of an
    /// allocation that has just taken `step`.
    pub open spec fn holds(self, step: Step, number: i32) -> int {
        match self.stage {
            ConsoleStage::Searching => match self.search {
                Some(search) => search.holds(Progress::Issue(Request::FirstFree), number),
                None => 0,
            },
            ConsoleStage::Loading(found) => one_if(found, number),
            ConsoleStage::Committing(found, _) => one_if(found, number),
            ConsoleStage::Releasing(found, _) => one_if(found, number),
            ConsoleStage::Closing(found, _) => one_if(found, number),
            ConsoleStage::Idle => match step {
                Step::Done(Outcome::Handle(vt)) => one_if(vt.number, number),
                _ => 0,
            },
            _ => 0,
        }
    }

    proof fn next_accounts(self, request: Request, reply: Reply, minimum: VtNumber, number: i32)
        requires
            self.allocating(Step::Issue(request), minimum),
        ensures
            self.next(reply).0.allocating(self.next(reply).1, minimum),
            self.next(reply).0.holds(self.next(reply).1, number) == self.holds(
                Step::Issue(request),
                number,
            ) + effect(request, reply, number),
    {
        if self.stage is Searching {
            self.search->Some_0.next_accounts(reply, number);
        }
    }

    proof fn play_accounts(self, step: Step, replies: Seq<Reply>, minimum: VtNumber, number: i32)
        requires
            self.allocating(step, minimum),
        ensures
            ({
                let run = self.play(step, replies);
                &&& run.console.allocating(run.end, minimum)
                &&& self.holds(step, number) + held(run.requests, replies, number)
                    == run.console.holds(run.end, number)
            }),
        decreases replies.len(),
    {
        if let Step::Issue(request) = step {
            if replies.len() > 0 {
                let (console, then) = self.next(replies[0]);
                let rest = console.play(then, replies.drop_first());
                self.next_accounts(request, replies[0], minimum, number);
                console.play_accounts(then, replies.drop_first(), minimum, number);
                assert(self.play(step, replies).requests.drop_first() =~= rest.requests);
            }
        }
    }

    /// Whatever the kernel answers: an allocation that succeeds gives a handle
    /// that owns a terminal at or above the minimum and is open, with the
    /// attributes that were committed, which are a baseline; the device file
    /// of that terminal is then the only one left open. An allocation that
    /// fails leaves no device file open. An allocation gives nothing else.
    pub proof fn allocation_keeps_only_its_handle(
        minimum: VtNumber,
        replies: Seq<Reply>,
        number: i32,
    )
        requires
            0 <= minimum@,
        ensures
            ({
                let run = Controlling::allocate(minimum, replies);
                match run.end {
                    Step::Issue(_) => true,
                    Step::Failed(_) => held(run.requests, replies, number) == 0,
                    Step::Done(Outcome::Handle(vt)) => {
                        &&& vt.number@ >= minimum@
                        &&& vt.ownership is Owned
                        &&& vt.stage is Idle
                        &&& vt.state matches HandleState::Opened(attributes)
                            && attributes.spec_baseline() == attributes
                        &&& held(run.requests, replies, number) == one_if(vt.number, number)
                    },
                    Step::Done(_) => false,
                }
            }),
    {
        let (console, step) = Controlling::idle().begin_allocation(minimum);
        console.play_accounts(step, replies, minimum, number);
    }

    /// Where the kernel's first free terminal is high enough, the allocation
    /// asks the control device once: it then opens that terminal, fetches its
    /// attributes, commits the baseline and gives the handle.
    pub proof fn free_terminal_is_taken_at_once(
        minimum: VtNumber,
        offered: i32,
        attributes: TerminalAttributes,
    )
        requires
            offered >= minimum@,
        ensures
            Controlling::allocate(
                minimum,
                seq![
                    Reply::Number(offered),
                    Reply::Done,
                    Reply::Attributes(attributes),
                    Reply::Done,
                ],
            ) == (Session {
                requests: seq![
                    Request::FirstFree,
                    Request::OpenDevice(offered),
                    Request::LoadAttributes(offered),
                    Request::CommitAttributes(offered, attributes.spec_baseline()),
                ],
                console: Controlling::idle(),
                end: Step::Done(
                    Outcome::Handle(
                        Vt::spec_owned(VtNumber::of(offered), attributes.spec_baseline()),
                    ),
                ),
            }),
            VtNumber::of(offered)@ == offered,
    {
        reveal_with_fuel(Controlling::play, 5);
        made_number_has_its_value(offered);
        let replies = seq![
            Reply::Number(offered),
            Reply::Done,
            Reply::Attributes(attributes),
            Reply::Done,
        ];
        assert(Controlling::allocate(minimum, replies).requests =~= seq![
            Request::FirstFree,
            Request::OpenDevice(offered),
            Request::LoadAttributes(offered),
            Request::CommitAttributes(offered, attributes.spec_baseline()),
        ]);
    }

    /// A terminal whose baseline cannot be committed goes back to the
    /// kernel: the allocation asks for its release and closes its device
    /// before it fails with the error of the commit.
    pub proof fn failed_commit_gives_the_terminal_back(
        number: VtNumber,
        attributes: TerminalAttributes,
        code: i32,
        released: Reply,
        closed: Reply,
    )
        ensures
            (Controlling { stage: ConsoleStage::Committing(number, attributes), search: None }).play(
                Step::Issue(Request::CommitAttributes(number.native(), attributes)),
                seq![Reply::Failed(code), released, closed],
            ) == (Session {
                requests: seq![
                    Request::CommitAttributes(number.native(), attributes),
                    Request::Deallocate(number.native()),
                    Request::CloseDevice(number.native()),
                ],
                console: Controlling::idle(),
                end: Step::Failed(VtError::Io(code)),
            }),
    {
        reveal_with_fuel(Controlling::play, 4);
        let committing = Controlling {
            stage: ConsoleStage::Committing(number, attributes),
            search: None,
        };
        let run = committing.play(
            Step::Issue(Request::CommitAttributes(number.native(), attributes)),
            seq![Reply::Failed(code), released, closed],
        );
        assert(run.requests =~= seq![
            Request::CommitAttributes(number.native(), attributes),
            Request::Deallocate(number.native()),
            Request::CloseDevice(number.native()),
        ]);
    }

    /// Switching asks for the terminal to be displayed and then waits for
    /// it, in that order.
    pub proof fn switch_activates_then_waits(number: VtNumber)
        ensures
            Controlling::switch(number, seq![Reply::Done, Reply::Done]) == (Session {
                requests: seq![
                    Request::Activate(number.native()),
                    Request::WaitActive(number.native()),
                ],
                console: Controlling::idle(),
                end: Step::Done(Outcome::Completed),
            }),
    {
        reveal_with_fuel(Controlling::play, 3);
        assert(Controlling::switch(number, seq![Reply::Done, Reply::Done]).requests =~= seq![
            Request::Activate(number.native()),
            Request::WaitActive(number.native()),
        ]);
    }

    /// Where the terminal cannot be displayed, switching does not wait for
    /// it: it ends at once with the error of the refusal.
    pub proof fn switch_stops_at_a_refusal(number: VtNumber, code: i32, later: Seq<Reply>)
        ensures
            Controlling::switch(number, seq![Reply::Failed(code)] + later) == (Session {
                requests: seq![Request::Activate(number.native())],
                console: Controlling::idle(),
                end: Step::Failed(VtError::Io(code)),
            }),
    {
        reveal_with_fuel(Controlling::play, 2);
        assert(Controlling::switch(number, seq![Reply::Failed(code)] + later).requests =~= seq![
            Request::Activate(number.native()),
        ]);
    }
}

/// The console's control device.
pub struct Console {
    stage: ConsoleStage,
    search: Option<VtAllocator>,
}

impl View for Console {
    type V = Controlling;

    closed spec fn view(&self) -> Controlling {
        Controlling {
            stage: self.stage,
            search: match self.search {
                Some(search) => Some(search@),
                None => None,
            },
        }
    }
}

impl Console {
    /// A console with no operation under way. The caller holds the control
    /// device open for as long as it uses this value.
    pub fn open() -> (console: Console)
        ensures
            console@ == Controlling::idle(),
    {
        Console { stage: ConsoleStage::Idle, search: None }
    }

    fn start(&mut self, stage: ConsoleStage, request: Request) -> (step: Step)
        ensures
            (final(self)@, step) == old(self)@.begin(stage, request),
    {
        match self.stage {
            ConsoleStage::Idle => {
                self.stage = stage;
                self.search = None;
                Step::Issue(request)
            },
            _ => Step::Failed(VtError::Protocol),
        }
    }

    /// Returns the currently active virtual terminal.
    pub fn current_vt_number(&mut self) -> (step: Step)
        ensures
            (final(self)@, step) == old(self)@.begin(ConsoleStage::State, Request::GetState),
    {
        self.start(ConsoleStage::State, Request::GetState)
    }

    /// Allocates a new virtual terminal.
    pub fn new_vt(&mut self) -> (step: Step)
        ensures
            (final(self)@, step) == old(self)@.begin_allocation(VtNumber::of(0)),
    {
        match VtNumber::new(0) {
            Ok(minimum) => self.new_vt_with_minimum_number(minimum),
            Err(e) => Step::Failed(e),
        }
    }

    /// Allocates a new virtual terminal with a number greater than or equal to
    /// the given number. The handle that comes of it owns the terminal, is
    /// open, and has echo, signals and the end-of-file character switched off.
    pub fn new_vt_with_minimum_number(&mut self, minimum: VtNumber) -> (step: Step)
        ensures
            (final(self)@, step) == old(self)@.begin_allocation(minimum),
    {
        match self.stage {
            ConsoleStage::Idle => {
                let (search, request) = VtAllocator::start(minimum);
                self.stage = ConsoleStage::Searching;
                self.search = Some(search);
                Step::Issue(request)
            },
            _ => Step::Failed(VtError::Protocol),
        }
    }

    /// Opens the terminal with the given number: gives an unopened handle to
    /// it, which does not own it.
    pub fn open_vt<N: AsVtNumber>(&self, vt_number: N) -> (vt: Vt)
        ensures
            vt == Vt::spec_borrowed(vt_number.vt_number()),
    {
        Vt::borrowed(vt_number.as_vt_number())
    }

    /// Switches to the virtual terminal with the given number: it is
    /// displayed, and the operation ends once it is.
    pub fn switch_to<N: AsVtNumber>(&mut self, vt_number: N) -> (step: Step)
        ensures
            (final(self)@, step) == old(self)@.begin_switch(vt_number.vt_number()),
    {
        let number = vt_number.as_vt_number();
        self.start(ConsoleStage::Activating(number), Request::Activate(number.as_native()))
    }

    /// Enables or disables virtual terminal switching.
    pub fn lock_switch(&mut self, lock: bool) -> (step: Step)
        ensures
            (final(self)@, step) == old(self)@.begin_lock(lock),
    {
        let request = if lock {
            Request::LockSwitch
        } else {
            Request::UnlockSwitch
        };
        self.start(ConsoleStage::Locking(lock), request)
    }

    /// Returns the current console blank timer value. A value of `0` means
    /// that the timer is disabled.
    pub fn blank_timer(&mut self) -> (step: Step)
        ensures
            (final(self)@, step) == old(self)@.begin(ConsoleStage::Timer, Request::ReadBlankTimer),
    {
        self.start(ConsoleStage::Timer, Request::ReadBlankTimer)
    }

    fn fail(&mut self, reply: Reply) -> (step: Step)
        ensures
            final(self)@ == Controlling::idle(),
            step == Step::Failed(reply.spec_error()),
    {
        self.stage = ConsoleStage::Idle;
        self.search = None;
        Step::Failed(reply.error())
    }

    fn goto(&mut self, stage: ConsoleStage, request: Request) -> (step: Step)
        ensures
            final(self)@ == (Controlling { stage, search: None }),
            step == Step::Issue(request),
    {
        self.stage = stage;
        self.search = None;
        Step::Issue(request)
    }

    /// Takes the reply to the request that was handed out last, and says what
    /// the operation wants next.
    pub fn resume(&mut self, reply: Reply) -> (step: Step)
        ensures
            (final(self)@, step) == old(self)@.next(reply),
    {
        match self.stage {
            ConsoleStage::Idle => Step::Failed(VtError::Protocol),
            ConsoleStage::State => match reply {
                Reply::State(state) => {
                    self.stage = ConsoleStage::Idle;
                    self.search = None;
                    match VtNumber::new(state.v_active as i32) {
                        Ok(number) => Step::Done(Outcome::Number(number)),
                        Err(e) => Step::Failed(e),
                    }
                },
                _ => self.fail(reply),
            },
            ConsoleStage::Activating(number) => match reply {
                Reply::Done => self.goto(
                    ConsoleStage::Waiting(number),
                    Request::WaitActive(number.as_native()),
                ),
                _ => self.fail(reply),
            },
            ConsoleStage::Timer => match reply {
                Reply::Timer(seconds) => {
                    self.stage = ConsoleStage::Idle;
                    self.search = None;
                    Step::Done(Outcome::Timer(seconds))
                },
                _ => self.fail(reply),
            },
            ConsoleStage::Waiting(_) | ConsoleStage::Locking(_) => match reply {
                Reply::Done => {
                    self.stage = ConsoleStage::Idle;
                    self.search = None;
                    Step::Done(Outcome::Completed)
                },
                _ => self.fail(reply),
            },
            ConsoleStage::Searching => match self.search.take() {
                None => {
                    self.stage = ConsoleStage::Idle;
                    Step::Failed(VtError::Protocol)
                },
                Some(search) => {
                    let (search, progress) = search.resume(reply);
                    match progress {
                        Progress::Issue(request) => {
                            self.search = Some(search);
                            Step::Issue(request)
                        },
                        Progress::Settled(Verdict::Found(found)) => {
                            if found.device_open {
                                self.goto(
                                    ConsoleStage::Loading(found.number),
                                    Request::LoadAttributes(found.number.as_native()),
                                )
                            } else {
                                self.goto(
                                    ConsoleStage::Opening(found.number),
                                    Request::OpenDevice(found.number.as_native()),
                                )
                            }
                        },
                        Progress::Settled(Verdict::Failed(error)) => {
                            self.stage = ConsoleStage::Idle;
                            Step::Failed(error)
                        },
                    }
                },
            },
            ConsoleStage::Opening(number) => match reply {
                Reply::Done => self.goto(
                    ConsoleStage::Loading(number),
                    Request::LoadAttributes(number.as_native()),
                ),
                _ => self.fail(reply),
            },
            ConsoleStage::Loading(number) => match reply {
                Reply::Attributes(attributes) => {
                    let baseline = attributes.baseline();
                    self.goto(
                        ConsoleStage::Committing(number, baseline),
                        Request::CommitAttributes(number.as_native(), baseline),
                    )
                },
                _ => self.goto(
                    ConsoleStage::Closing(number, reply.error()),
                    Request::CloseDevice(number.as_native()),
                ),
            },
            ConsoleStage::Committing(number, attributes) => match reply {
                Reply::Done => {
                    self.stage = ConsoleStage::Idle;
                    self.search = None;
                    Step::Done(Outcome::Handle(Vt::owned(number, attributes)))
                },
                _ => self.goto(
                    ConsoleStage::Releasing(number, reply.error()),
                    Request::Deallocate(number.as_native()),
                ),
            },
            ConsoleStage::Releasing(number, error) => self.goto(
                ConsoleStage::Closing(number, error),
                Request::CloseDevice(number.as_native()),
            ),
            ConsoleStage::Closing(_, error) => {
                self.stage = ConsoleStage::Idle;
                self.search = None;
                Step::Failed(error)
            },
        }
    }
}

} // verus!
