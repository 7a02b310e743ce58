use vt::{
    Console, HandleState, Outcome, Ownership, Reply, Request, Stage, Step, TerminalAttributes, Vt,
    VtError, VtNumber, VtStat,
};

fn number(n: i32) -> VtNumber {
    VtNumber::new(n).unwrap()
}

fn attributes() -> TerminalAttributes {
    TerminalAttributes {
        ignore_break: false,
        echo: true,
        signal_generation: true,
        interrupt: 3,
        quit: 28,
        suspend: 26,
        end_of_file: 4,
    }
}

fn baseline() -> TerminalAttributes {
    TerminalAttributes {
        ignore_break: true,
        echo: false,
        signal_generation: false,
        interrupt: 3,
        quit: 28,
        suspend: 26,
        end_of_file: 0,
    }
}

fn full() -> Reply {
    Reply::State(VtStat { v_active: 1, v_signal: 0, v_state: 0xffff })
}

/// Answers the requests of an operation that has taken `first`; returns every
/// request that was handed out and the step at which it ended.
fn converse(console: &mut Console, first: Step, replies: &[Reply]) -> (Vec<Request>, Step) {
    let mut requests = Vec::new();
    let mut step = first;
    let mut replies = replies.iter();
    while let Step::Issue(request) = step {
        requests.push(request);
        match replies.next() {
            Some(reply) => step = console.resume(*reply),
            None => break,
        }
    }
    (requests, step)
}

fn allocate(minimum: i32, replies: &[Reply]) -> (Vec<Request>, Step) {
    let mut console = Console::open();
    let first = console.new_vt_with_minimum_number(number(minimum));
    converse(&mut console, first, replies)
}

fn handle(n: i32) -> Step {
    Step::Done(Outcome::Handle(Vt {
        number: number(n),
        ownership: Ownership::Owned,
        state: HandleState::Opened(baseline()),
        stage: Stage::Idle,
    }))
}

#[test]
fn allocation_takes_the_first_free_terminal() {
    let replies = [Reply::Number(3), Reply::Done, Reply::Attributes(attributes()), Reply::Done];
    let (requests, end) = allocate(0, &replies);
    assert_eq!(
        requests,
        vec![
            Request::FirstFree,
            Request::OpenDevice(3),
            Request::LoadAttributes(3),
            Request::CommitAttributes(3, baseline()),
        ]
    );
    assert_eq!(end, handle(3));
}

#[test]
fn new_vt_has_no_minimum() {
    let mut console = Console::open();
    let first = console.new_vt();
    let replies = [Reply::Number(0), Reply::Done, Reply::Attributes(attributes()), Reply::Done];
    let (requests, end) = converse(&mut console, first, &replies);
    assert_eq!(requests[0], Request::FirstFree);
    assert_eq!(requests[1], Request::OpenDevice(0));
    assert_eq!(end, handle(0));
}

#[test]
fn allocation_takes_the_terminal_of_the_mask() {
    let replies = [
        Reply::Number(2),
        Reply::State(VtStat { v_active: 1, v_signal: 0, v_state: 0x007f }),
        Reply::Done,
        Reply::Attributes(attributes()),
        Reply::Done,
    ];
    let (requests, end) = allocate(7, &replies);
    assert_eq!(
        requests,
        vec![
            Request::FirstFree,
            Request::GetState,
            Request::OpenDevice(7),
            Request::LoadAttributes(7),
            Request::CommitAttributes(7, baseline()),
        ]
    );
    assert_eq!(end, handle(7));
}

#[test]
fn allocation_by_probing_keeps_the_last_device_file() {
    let replies = [
        Reply::Number(17),
        full(),
        Reply::Number(17),
        Reply::Done,
        Reply::Number(18),
        Reply::Done,
        Reply::Number(19),
        Reply::Done,
        Reply::Number(20),
        Reply::Done,
        Reply::Done,
        Reply::Done,
        Reply::Done,
        Reply::Attributes(attributes()),
        Reply::Done,
    ];
    let (requests, end) = allocate(20, &replies);
    assert_eq!(
        requests,
        vec![
            Request::FirstFree,
            Request::GetState,
            Request::FirstFree,
            Request::OpenDevice(17),
            Request::FirstFree,
            Request::OpenDevice(18),
            Request::FirstFree,
            Request::OpenDevice(19),
            Request::FirstFree,
            Request::OpenDevice(20),
            Request::CloseDevice(17),
            Request::CloseDevice(18),
            Request::CloseDevice(19),
            Request::LoadAttributes(20),
            Request::CommitAttributes(20, baseline()),
        ]
    );
    assert_eq!(end, handle(20));
}

#[test]
fn allocation_without_a_device_fails() {
    let (requests, end) = allocate(0, &[Reply::Number(3), Reply::Failed(13)]);
    assert_eq!(requests, vec![Request::FirstFree, Request::OpenDevice(3)]);
    assert_eq!(end, Step::Failed(VtError::Io(13)));
}

#[test]
fn allocation_without_attributes_closes_the_device() {
    let (requests, end) =
        allocate(0, &[Reply::Number(3), Reply::Done, Reply::Failed(25), Reply::Done]);
    assert_eq!(
        requests,
        vec![
            Request::FirstFree,
            Request::OpenDevice(3),
            Request::LoadAttributes(3),
            Request::CloseDevice(3),
        ]
    );
    assert_eq!(end, Step::Failed(VtError::Io(25)));
}

#[test]
fn allocation_without_commit_gives_the_terminal_back() {
    let replies = [
        Reply::Number(3),
        Reply::Done,
        Reply::Attributes(attributes()),
        Reply::Failed(5),
        Reply::Failed(16),
        Reply::Done,
    ];
    let (requests, end) = allocate(0, &replies);
    assert_eq!(
        requests,
        vec![
            Request::FirstFree,
            Request::OpenDevice(3),
            Request::LoadAttributes(3),
            Request::CommitAttributes(3, baseline()),
            Request::Deallocate(3),
            Request::CloseDevice(3),
        ]
    );
    assert_eq!(end, Step::Failed(VtError::Io(5)));
}

#[test]
fn allocation_that_fails_while_probing_leaves_nothing_open() {
    let replies = [
        Reply::Number(1),
        full(),
        Reply::Number(16),
        Reply::Done,
        Reply::Number(17),
        Reply::Failed(24),
        Reply::Done,
    ];
    let (requests, end) = allocate(18, &replies);
    let opened = requests.iter().filter(|r| **r == Request::OpenDevice(16)).count();
    let closed = requests.iter().filter(|r| **r == Request::CloseDevice(16)).count();
    assert_eq!((opened, closed), (1, 1));
    assert!(!requests.contains(&Request::CloseDevice(17)));
    assert_eq!(end, Step::Failed(VtError::Io(24)));
}

#[test]
fn allocated_handle_is_ready_for_use() {
    let replies = [Reply::Number(3), Reply::Done, Reply::Attributes(attributes()), Reply::Done];
    let (_, end) = allocate(0, &replies);
    match end {
        Step::Done(Outcome::Handle(mut vt)) => {
            assert_eq!(vt.is_echo_enabled(), Some(false));
            assert_eq!(vt.clear(), Step::Issue(Request::ClearScreen(3)));
        }
        other => panic!("no handle: {:?}", other),
    }
}

#[test]
fn current_terminal_is_the_active_one_of_the_state() {
    let mut console = Console::open();
    let first = console.current_vt_number();
    let state = VtStat { v_active: 2, v_signal: 0, v_state: 0x0006 };
    let (requests, end) = converse(&mut console, first, &[Reply::State(state)]);
    assert_eq!(requests, vec![Request::GetState]);
    assert_eq!(end, Step::Done(Outcome::Number(number(2))));
}

#[test]
fn current_terminal_may_have_the_highest_number_of_the_state() {
    let mut console = Console::open();
    let first = console.current_vt_number();
    let state = VtStat { v_active: u16::MAX, v_signal: 0, v_state: 0 };
    let (_, end) = converse(&mut console, first, &[Reply::State(state)]);
    assert_eq!(end, Step::Done(Outcome::Number(number(65535))));
}

#[test]
fn current_terminal_is_unknown_when_the_query_fails() {
    let mut console = Console::open();
    let first = console.current_vt_number();
    let (_, end) = converse(&mut console, first, &[Reply::Failed(25)]);
    assert_eq!(end, Step::Failed(VtError::Io(25)));
}

#[test]
fn switch_to_activates_then_waits() {
    let mut console = Console::open();
    let first = console.switch_to(number(4));
    let (requests, end) = converse(&mut console, first, &[Reply::Done, Reply::Done]);
    assert_eq!(requests, vec![Request::Activate(4), Request::WaitActive(4)]);
    assert_eq!(end, Step::Done(Outcome::Completed));
}

#[test]
fn switch_to_does_not_wait_after_a_refusal() {
    let mut console = Console::open();
    let first = console.switch_to(number(4));
    let (requests, end) = converse(&mut console, first, &[Reply::Failed(6), Reply::Done]);
    assert_eq!(requests, vec![Request::Activate(4)]);
    assert_eq!(end, Step::Failed(VtError::Io(6)));
}

#[test]
fn switch_to_reports_a_failed_wait() {
    let mut console = Console::open();
    let first = console.switch_to(number(4));
    let (requests, end) = converse(&mut console, first, &[Reply::Done, Reply::Failed(4)]);
    assert_eq!(requests, vec![Request::Activate(4), Request::WaitActive(4)]);
    assert_eq!(end, Step::Failed(VtError::Io(4)));
}

#[test]
fn switch_to_takes_a_handle() {
    let mut console = Console::open();
    let vt = console.open_vt(number(11));
    assert_eq!(console.switch_to(vt), Step::Issue(Request::Activate(11)));
}

#[test]
fn lock_switch_locks_and_unlocks() {
    let mut console = Console::open();
    assert_eq!(console.lock_switch(true), Step::Issue(Request::LockSwitch));
    assert_eq!(console.resume(Reply::Done), Step::Done(Outcome::Completed));
    assert_eq!(console.lock_switch(false), Step::Issue(Request::UnlockSwitch));
    assert_eq!(console.resume(Reply::Failed(1)), Step::Failed(VtError::Io(1)));
}

#[test]
fn blank_timer_is_what_was_read() {
    let mut console = Console::open();
    assert_eq!(console.blank_timer(), Step::Issue(Request::ReadBlankTimer));
    assert_eq!(console.resume(Reply::Timer(600)), Step::Done(Outcome::Timer(600)));
    assert_eq!(console.blank_timer(), Step::Issue(Request::ReadBlankTimer));
    assert_eq!(console.resume(Reply::Timer(0)), Step::Done(Outcome::Timer(0)));
}

#[test]
fn open_vt_gives_an_unopened_handle_that_does_not_own() {
    let vt = Console::open().open_vt(number(2));
    assert_eq!(
        vt,
        Vt {
            number: number(2),
            ownership: Ownership::Borrowed,
            state: HandleState::Unopened,
            stage: Stage::Idle,
        }
    );
    assert_eq!(vt.release(), vec![]);
}

#[test]
fn console_takes_one_operation_at_a_time() {
    let mut console = Console::open();
    assert_eq!(console.blank_timer(), Step::Issue(Request::ReadBlankTimer));
    assert_eq!(console.lock_switch(true), Step::Failed(VtError::Protocol));
    assert_eq!(console.new_vt(), Step::Failed(VtError::Protocol));
    assert_eq!(console.switch_to(number(1)), Step::Failed(VtError::Protocol));
    assert_eq!(console.resume(Reply::Timer(5)), Step::Done(Outcome::Timer(5)));
    assert_eq!(console.resume(Reply::Timer(5)), Step::Failed(VtError::Protocol));
}

#[test]
fn console_is_idle_again_after_a_failure() {
    let mut console = Console::open();
    let first = console.new_vt();
    let (_, end) = converse(&mut console, first, &[Reply::Done]);
    assert_eq!(end, Step::Failed(VtError::Protocol));
    assert_eq!(console.lock_switch(true), Step::Issue(Request::LockSwitch));
}
