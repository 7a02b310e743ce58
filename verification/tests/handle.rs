use vt::{
    Goal, HandleState, Outcome, Ownership, Reply, Request, Stage, Step, TerminalAttributes, Vt,
    VtError, VtFlushType, VtNumber, VtSignals,
};

fn attributes() -> TerminalAttributes {
    TerminalAttributes {
        ignore_break: false,
        echo: true,
        signal_generation: true,
        interrupt: 3,
        quit: 28,
        suspend: 26,
        end_of_file: 4,
    }
}

fn opened(n: i32) -> Vt {
    Vt::owned(VtNumber::new(n).unwrap(), attributes())
}

fn unopened(n: i32) -> Vt {
    Vt::borrowed(VtNumber::new(n).unwrap())
}

/// Answers the requests of an operation that has taken `first`; returns every
/// request that was handed out and the step at which it ended.
fn answer(vt: &mut Vt, first: Step, replies: &[Reply]) -> (Vec<Request>, Step) {
    let mut requests = Vec::new();
    let mut step = first;
    let mut replies = replies.iter();
    while let Step::Issue(request) = step {
        requests.push(request);
        match replies.next() {
            Some(reply) => step = vt.resume(*reply),
            None => break,
        }
    }
    (requests, step)
}

#[test]
fn blanking_with_the_timer_off_arms_and_restores_it() {
    let mut vt = opened(5);
    let first = vt.blank(true);
    let (requests, end) =
        answer(&mut vt, first, &[Reply::Timer(0), Reply::Done, Reply::Done, Reply::Done]);
    assert_eq!(
        requests,
        vec![
            Request::ReadBlankTimer,
            Request::SetBlankTimer(5, 1),
            Request::Blank(5),
            Request::SetBlankTimer(5, 0),
        ]
    );
    assert_eq!(end, Step::Done(Outcome::Completed));
    assert_eq!(vt, opened(5));
}

#[test]
fn blanking_with_the_timer_running_leaves_it_alone() {
    let mut vt = opened(5);
    let first = vt.blank(true);
    let (requests, end) = answer(&mut vt, first, &[Reply::Timer(600), Reply::Done]);
    assert_eq!(requests, vec![Request::ReadBlankTimer, Request::Blank(5)]);
    assert_eq!(end, Step::Done(Outcome::Completed));
}

#[test]
fn blanking_with_a_timer_of_one_second_leaves_it_alone() {
    let mut vt = opened(2);
    let first = vt.blank(true);
    let (requests, end) = answer(&mut vt, first, &[Reply::Timer(1), Reply::Done]);
    assert_eq!(requests, vec![Request::ReadBlankTimer, Request::Blank(2)]);
    assert_eq!(end, Step::Done(Outcome::Completed));
}

#[test]
fn unblanking_does_not_touch_the_timer() {
    let mut vt = opened(5);
    let first = vt.blank(false);
    let (requests, end) = answer(&mut vt, first, &[Reply::Done]);
    assert_eq!(requests, vec![Request::Unblank(5)]);
    assert_eq!(end, Step::Done(Outcome::Completed));
}

#[test]
fn failed_blanking_does_not_restore_the_timer() {
    let mut vt = opened(5);
    let first = vt.blank(true);
    let (requests, end) =
        answer(&mut vt, first, &[Reply::Timer(0), Reply::Done, Reply::Failed(22), Reply::Done]);
    assert_eq!(
        requests,
        vec![Request::ReadBlankTimer, Request::SetBlankTimer(5, 1), Request::Blank(5)]
    );
    assert_eq!(end, Step::Failed(VtError::Io(22)));
    assert_eq!(vt.stage, Stage::Idle);
}

#[test]
fn unreadable_timer_fails_the_blanking() {
    let mut vt = opened(5);
    let first = vt.blank(true);
    let (requests, end) = answer(&mut vt, first, &[Reply::Failed(2), Reply::Done]);
    assert_eq!(requests, vec![Request::ReadBlankTimer]);
    assert_eq!(end, Step::Failed(VtError::Io(2)));
}

#[test]
fn set_echo_commits_twice_when_called_twice() {
    let mut vt = opened(4);
    let quiet = TerminalAttributes { echo: false, ..attributes() };
    let first = vt.set_echo(false);
    assert_eq!(first, Step::Issue(Request::CommitAttributes(4, quiet)));
    assert_eq!(vt.resume(Reply::Done), Step::Done(Outcome::Completed));
    let second = vt.set_echo(false);
    assert_eq!(second, Step::Issue(Request::CommitAttributes(4, quiet)));
    assert_eq!(vt.resume(Reply::Done), Step::Done(Outcome::Completed));
    assert_eq!(vt.is_echo_enabled(), Some(false));
}

#[test]
fn set_echo_commits_what_is_set_already() {
    let mut vt = opened(4);
    assert_eq!(vt.is_echo_enabled(), Some(true));
    let first = vt.set_echo(true);
    assert_eq!(first, Step::Issue(Request::CommitAttributes(4, attributes())));
}

#[test]
fn failed_commit_keeps_the_changed_attributes() {
    let mut vt = opened(4);
    let first = vt.set_echo(false);
    let (_, end) = answer(&mut vt, first, &[Reply::Failed(5)]);
    assert_eq!(end, Step::Failed(VtError::Io(5)));
    assert_eq!(vt.is_echo_enabled(), Some(false));
}

#[test]
fn signals_binds_the_requested_and_disables_the_others() {
    let mut vt = opened(3);
    let first = vt.signals(VtSignals::sigint().union(VtSignals::sigtstp()));
    let expected = TerminalAttributes {
        signal_generation: true,
        interrupt: 3,
        quit: 0,
        suspend: 32,
        ..attributes()
    };
    assert_eq!(first, Step::Issue(Request::CommitAttributes(3, expected)));
    assert_eq!(vt.resume(Reply::Done), Step::Done(Outcome::Completed));
    assert_eq!(vt.state, HandleState::Opened(expected));
}

#[test]
fn signals_switches_generation_on_again() {
    let mut vt = Vt::owned(VtNumber::new(3).unwrap(), attributes().baseline());
    let first = vt.signals(VtSignals::sigquit());
    let expected = TerminalAttributes {
        ignore_break: true,
        echo: false,
        signal_generation: true,
        interrupt: 0,
        quit: 34,
        suspend: 0,
        end_of_file: 0,
    };
    assert_eq!(first, Step::Issue(Request::CommitAttributes(3, expected)));
}

#[test]
fn first_use_opens_the_device_and_fetches_the_attributes() {
    let mut vt = unopened(9);
    assert_eq!(vt.is_echo_enabled(), None);
    let first = vt.clear();
    let (requests, end) =
        answer(&mut vt, first, &[Reply::Done, Reply::Attributes(attributes()), Reply::Done]);
    assert_eq!(
        requests,
        vec![Request::OpenDevice(9), Request::LoadAttributes(9), Request::ClearScreen(9)]
    );
    assert_eq!(end, Step::Done(Outcome::Completed));
    assert_eq!(vt.state, HandleState::Opened(attributes()));
}

#[test]
fn second_use_does_not_open_again() {
    let mut vt = unopened(9);
    let first = vt.ensure_open();
    let (requests, end) = answer(&mut vt, first, &[Reply::Done, Reply::Attributes(attributes())]);
    assert_eq!(requests, vec![Request::OpenDevice(9), Request::LoadAttributes(9)]);
    assert_eq!(end, Step::Done(Outcome::Completed));
    assert_eq!(vt.ensure_open(), Step::Done(Outcome::Completed));
    assert_eq!(vt.flush_buffers(VtFlushType::Both), Step::Issue(Request::Flush(9, VtFlushType::Both)));
}

#[test]
fn set_echo_on_an_unopened_handle_works_on_what_was_fetched() {
    let mut vt = unopened(9);
    let first = vt.set_echo(false);
    let (requests, end) =
        answer(&mut vt, first, &[Reply::Done, Reply::Attributes(attributes()), Reply::Done]);
    assert_eq!(
        requests,
        vec![
            Request::OpenDevice(9),
            Request::LoadAttributes(9),
            Request::CommitAttributes(9, TerminalAttributes { echo: false, ..attributes() }),
        ]
    );
    assert_eq!(end, Step::Done(Outcome::Completed));
}

#[test]
fn device_that_cannot_be_opened_leaves_the_handle_unopened() {
    let mut vt = unopened(9);
    let first = vt.clear();
    let (requests, end) = answer(&mut vt, first, &[Reply::Failed(13)]);
    assert_eq!(requests, vec![Request::OpenDevice(9)]);
    assert_eq!(end, Step::Failed(VtError::Io(13)));
    assert_eq!(vt, unopened(9));
}

#[test]
fn attributes_that_cannot_be_fetched_close_the_device() {
    let mut vt = unopened(9);
    let first = vt.clear();
    let (requests, end) = answer(&mut vt, first, &[Reply::Done, Reply::Failed(25), Reply::Done]);
    assert_eq!(
        requests,
        vec![Request::OpenDevice(9), Request::LoadAttributes(9), Request::CloseDevice(9)]
    );
    assert_eq!(end, Step::Failed(VtError::Io(25)));
    assert_eq!(vt, unopened(9));
}

#[test]
fn each_operation_asks_for_its_request() {
    assert_eq!(opened(6).clear(), Step::Issue(Request::ClearScreen(6)));
    assert_eq!(opened(6).set_blank_timer(0), Step::Issue(Request::SetBlankTimer(6, 0)));
    assert_eq!(opened(6).set_blank_timer(900), Step::Issue(Request::SetBlankTimer(6, 900)));
    assert_eq!(
        opened(6).flush_buffers(VtFlushType::Incoming),
        Step::Issue(Request::Flush(6, VtFlushType::Incoming))
    );
    assert_eq!(
        opened(6).flush_buffers(VtFlushType::Outgoing),
        Step::Issue(Request::Flush(6, VtFlushType::Outgoing))
    );
    assert_eq!(opened(6).switch(), Step::Issue(Request::Activate(6)));
    assert_eq!(opened(6).ensure_open(), Step::Done(Outcome::Completed));
}

#[test]
fn switch_activates_then_waits() {
    let mut vt = unopened(6);
    let first = vt.switch();
    let (requests, end) = answer(&mut vt, first, &[Reply::Done, Reply::Done]);
    assert_eq!(requests, vec![Request::Activate(6), Request::WaitActive(6)]);
    assert_eq!(end, Step::Done(Outcome::Completed));
    assert_eq!(vt, unopened(6));
}

#[test]
fn switch_does_not_wait_after_a_refusal() {
    let mut vt = opened(6);
    let first = vt.switch();
    let (requests, end) = answer(&mut vt, first, &[Reply::Failed(1), Reply::Done]);
    assert_eq!(requests, vec![Request::Activate(6)]);
    assert_eq!(end, Step::Failed(VtError::Io(1)));
}

#[test]
fn operation_begun_during_another_is_refused() {
    let mut vt = opened(6);
    assert_eq!(vt.clear(), Step::Issue(Request::ClearScreen(6)));
    let before = vt;
    assert_eq!(vt.set_echo(true), Step::Failed(VtError::Protocol));
    assert_eq!(vt.switch(), Step::Failed(VtError::Protocol));
    assert_eq!(vt, before);
    assert_eq!(vt.resume(Reply::Done), Step::Done(Outcome::Completed));
}

#[test]
fn reply_without_a_request_is_refused() {
    let mut vt = opened(6);
    assert_eq!(vt.resume(Reply::Done), Step::Failed(VtError::Protocol));
    assert_eq!(vt, opened(6));
}

#[test]
fn reply_out_of_place_fails_the_operation() {
    let mut vt = opened(6);
    let first = vt.blank(true);
    let (_, end) = answer(&mut vt, first, &[Reply::Done]);
    assert_eq!(end, Step::Failed(VtError::Protocol));
    assert_eq!(vt.stage, Stage::Idle);
}

#[test]
fn owned_handle_releases_its_terminal() {
    assert_eq!(opened(8).release(), vec![Request::Deallocate(8), Request::CloseDevice(8)]);
}

#[test]
fn owned_handle_releases_its_terminal_after_a_failure() {
    let mut vt = opened(8);
    let first = vt.set_echo(true);
    let (_, end) = answer(&mut vt, first, &[Reply::Failed(5)]);
    assert_eq!(end, Step::Failed(VtError::Io(5)));
    assert_eq!(vt.release(), vec![Request::Deallocate(8), Request::CloseDevice(8)]);
}

#[test]
fn owned_handle_that_never_opened_releases_its_terminal() {
    let vt = Vt {
        number: VtNumber::new(8).unwrap(),
        ownership: Ownership::Owned,
        state: HandleState::Unopened,
        stage: Stage::Idle,
    };
    assert_eq!(vt.release(), vec![Request::Deallocate(8)]);
}

#[test]
fn borrowed_handle_only_closes_its_device() {
    let mut vt = unopened(8);
    assert_eq!(vt.release(), vec![]);
    let first = vt.ensure_open();
    answer(&mut vt, first, &[Reply::Done, Reply::Attributes(attributes())]);
    assert_eq!(vt.release(), vec![Request::CloseDevice(8)]);
}

#[test]
fn handle_given_up_while_opening_closes_what_it_opened() {
    let mut vt = unopened(8);
    let first = vt.ensure_open();
    assert_eq!(vt.release(), vec![]);
    answer(&mut vt, first, &[Reply::Done]);
    assert_eq!(vt.stage, Stage::Loading(Goal::Open));
    assert_eq!(vt.release(), vec![Request::CloseDevice(8)]);
}
