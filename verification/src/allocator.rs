//! Finding a terminal that nobody uses, at or above a given number.
//!
//! The kernel names the first free terminal of all, and reports which of the
//! first sixteen are in use. Where neither answers the question, the search
//! opens the terminals that the kernel offers, one after the other, until it is
//! offered one that is high enough, and closes the others again.

use vstd::prelude::*;
use crate::gateway::{effect, held, Reply, Request, VtStat};
use crate::number::{made_number_has_its_value, VtError, VtNumber};

verus! {

/// How many terminals the kernel's occupancy mask covers.
pub const WINDOW: i32 = 16;

/// Whether `mask` marks terminal `slot` as in use.
pub open spec fn occupied(mask: u16, slot: int) -> bool
    recommends
        0 <= slot < 16,
{
    mask & (1u16 << (slot as u16)) != 0
}

/// The first terminal at or above `from` that `mask` covers and does not mark
/// as in use.
pub open spec fn first_clear(mask: u16, from: int) -> Option<int>
    decreases 16 - from,
{
    if from < 0 || from >= 16 {
        None
    } else if !occupied(mask, from) {
        Some(from)
    } else {
        first_clear(mask, from + 1)
    }
}

/// `first_clear` finds the least free terminal of the window, and finds one
/// whenever there is one.
pub proof fn first_clear_is_least(mask: u16, from: int)
    requires
        0 <= from,
    ensures
        first_clear(mask, from) matches Some(k) ==> from <= k < 16 && !occupied(mask, k) && (
        forall|j: int| from <= j < k ==> occupied(mask, j)),
        first_clear(mask, from) is None ==> (forall|j: int| from <= j < 16 ==> occupied(mask, j)),
    decreases 16 - from,
{
    if from < 16 && occupied(mask, from) {
        first_clear_is_least(mask, from + 1);
    }
}

/// Scans the occupancy mask upwards from `from` for a terminal that is not
/// in use.
pub fn first_free_slot(mask: u16, from: VtNumber) -> (r: Option<VtNumber>)
    ensures
        r is Some <==> first_clear(mask, from@) is Some,
        r matches Some(k) ==> k@ == first_clear(mask, from@)->Some_0 && k == VtNumber::of(
            first_clear(mask, from@)->Some_0 as i32,
        ),
{
    let start: i32 = from.as_native();
    if start >= WINDOW {
        return None;
    }
    let mut slot: i32 = start;
    while slot < WINDOW
        invariant
            0 <= start <= slot <= 16,
            start == from@,
            first_clear(mask, start as int) == first_clear(mask, slot as int),
        decreases 16 - slot,
    {
        let bit: u16 = 1u16 << (slot as u16);
        assert(occupied(mask, slot as int) <==> mask & bit != 0);
        if mask & bit == 0 {
            assert(first_clear(mask, slot as int) == Some(slot as int));
            return match VtNumber::new(slot) {
                Ok(number) => Some(number),
                Err(_) => None,
            };
        }
        assert(first_clear(mask, slot as int) == first_clear(mask, slot + 1));
        slot += 1;
    }
    None
}

/// A terminal that the search settled on.
#[derive(Copy, Clone, Debug, PartialEq, Eq, Structural)]
pub struct Allocated {
    /// The terminal.
    pub number: VtNumber,
    /// Whether the search left the device file of the terminal open.
    pub device_open: bool,
}

/// How a search ended.
#[derive(Copy, Clone, Debug, PartialEq, Eq, Structural)]
pub enum Verdict {
    /// With this terminal.
    Found(Allocated),
    /// Without one.
    Failed(VtError),
}

/// What a search wants next.
#[derive(Copy, Clone, Debug, PartialEq, Eq, Structural)]
pub enum Progress {
    /// This request performed, and its reply.
    Issue(Request),
    /// Nothing: it is over.
    Settled(Verdict),
}

/// Where a search stands: the reply it waits for.
#[derive(Copy, Clone, Debug, PartialEq, Eq, Structural)]
pub enum Search {
    /// None: the search is over.
    Idle,
    /// The kernel's first free terminal, asked for the first time.
    FirstFree,
    /// The state of the terminals.
    Occupancy,
    /// The kernel's first free terminal, while probing.
    ProbeQuery,
    /// The opening of this terminal, which the kernel offered.
    ProbeOpen(i32),
    /// The closing of the oldest device file still held; the search then ends
    /// in this way.
    Closing(Verdict),
}

/// A search as contracts see it.
pub struct Searching {
    /// The lowest number that will do.
    pub minimum: VtNumber,
    /// The reply that is awaited.
    pub stage: Search,
    /// The terminals below `minimum` whose device files the search holds open,
    /// oldest first.
    pub probes: Seq<i32>,
}

impl Searching {
    /// A search that has just asked for the first free terminal.
    pub open spec fn initial(minimum: VtNumber) -> Searching {
        Searching { minimum, stage: Search::FirstFree, probes: Seq::empty() }
    }

    /// What holds of every search: the probes it holds are all too low, there
    /// is one to close whenever it waits for a closing, and a terminal it
    /// settled on while probing is high enough and open.
    pub open spec fn wf(self) -> bool {
        &&& self.minimum@ >= 0
        &&& forall|i: int| 0 <= i < self.probes.len() ==> self.probes[i] < self.minimum@
        &&& self.stage is Closing ==> self.probes.len() > 0
        &&& self.stage is Idle || self.stage is FirstFree || self.stage is Occupancy
            ==> self.probes.len() == 0
        &&& self.stage matches Search::Closing(Verdict::Found(winner)) ==> winner.number@
            >= self.minimum@ && winner.device_open
    }

    /// The request whose reply is awaited.
    pub open spec fn pending(self) -> Option<Request> {
        match self.stage {
            Search::Idle => None,
            Search::FirstFree => Some(Request::FirstFree),
            Search::Occupancy => Some(Request::GetState),
            Search::ProbeQuery => Some(Request::FirstFree),
            Search::ProbeOpen(number) => Some(Request::OpenDevice(number)),
            Search::Closing(_) => Some(Request::CloseDevice(self.probes[0])),
        }
    }

    /// Ends the search with `verdict`, once every probe is closed: asks for
    /// the oldest to be closed, if there is one.
    pub open spec fn unwind(self, verdict: Verdict) -> (Searching, Progress) {
        if self.probes.len() == 0 {
            (Searching { stage: Search::Idle, ..self }, Progress::Settled(verdict))
        } else {
            (
                Searching { stage: Search::Closing(verdict), ..self },
                Progress::Issue(Request::CloseDevice(self.probes[0])),
            )
        }
    }

    /// The search after `reply`, and what it wants next.
    pub open spec fn next(self, reply: Reply) -> (Searching, Progress) {
        match self.stage {
            Search::Idle => (self, Progress::Settled(Verdict::Failed(VtError::Protocol))),
            Search::FirstFree => match reply {
                Reply::Number(number) => if number >= self.minimum@ {
                    (
                        Searching { stage: Search::Idle, ..self },
                        Progress::Settled(
                            Verdict::Found(
                                Allocated { number: VtNumber::of(number), device_open: false },
                            ),
                        ),
                    )
                } else {
                    (
                        Searching { stage: Search::Occupancy, ..self },
                        Progress::Issue(Request::GetState),
                    )
                },
                _ => self.unwind(Verdict::Failed(reply.spec_error())),
            },
            Search::Occupancy => match reply {
                Reply::State(state) => match first_clear(state.v_state, self.minimum@) {
                    Some(slot) => (
                        Searching { stage: Search::Idle, ..self },
                        Progress::Settled(
                            Verdict::Found(
                                Allocated {
                                    number: VtNumber::of(slot as i32),
                                    device_open: false,
                                },
                            ),
                        ),
                    ),
                    None => (
                        Searching { stage: Search::ProbeQuery, ..self },
                        Progress::Issue(Request::FirstFree),
                    ),
                },
                _ => self.unwind(Verdict::Failed(reply.spec_error())),
            },
            Search::ProbeQuery => match reply {
                Reply::Number(number) => (
                    Searching { stage: Search::ProbeOpen(number), ..self },
                    Progress::Issue(Request::OpenDevice(number)),
                ),
                _ => self.unwind(Verdict::Failed(reply.spec_error())),
            },
            Search::ProbeOpen(number) => match reply {
                Reply::Done => if number >= self.minimum@ {
                    self.unwind(
                        Verdict::Found(
                            Allocated { number: VtNumber::of(number), device_open: true },
                        ),
                    )
                } else {
                    (
                        Searching {
                            stage: Search::ProbeQuery,
                            probes: self.probes.push(number),
                            ..self
                        },
                        Progress::Issue(Request::FirstFree),
                    )
                },
                _ => self.unwind(Verdict::Failed(reply.spec_error())),
            },
            Search::Closing(verdict) => Searching {
                probes: self.probes.remove(0),
                ..self
            }.unwind(verdict),
        }
    }
}

/// What a search did, told by the requests it handed out.
pub struct Hunt {
    /// The requests, in the order in which they were handed out.
    pub requests: Seq<Request>,
    /// The search as it stands at the end.
    pub search: Searching,
    /// The last step: the verdict, or the request that no reply was left for.
    pub end: Progress,
}

/// Whether `request` closes no device file but one of a terminal below
/// `bound`.
pub open spec fn closes_below(request: Request, bound: int) -> bool {
    request matches Request::CloseDevice(closed) ==> closed < bound
}

/// How often `number` stands in `probes`.
pub open spec fn copies(probes: Seq<i32>, number: i32) -> int
    decreases probes.len(),
{
    if probes.len() == 0 {
        0
    } else {
        copies(probes.drop_first(), number) + if probes[0] == number {
            1int
        } else {
            0int
        }
    }
}

/// The replies of a kernel that offers the terminals `low` to a probing
/// search, each of which is then opened.
pub open spec fn offers(low: Seq<i32>) -> Seq<Reply>
    decreases low.len(),
{
    if low.len() == 0 {
        Seq::empty()
    } else {
        seq![Reply::Number(low[0]), Reply::Done] + offers(low.drop_first())
    }
}

/// The requests of a search that probes the terminals `low`: for each, the
/// question for the first free terminal and the opening of its device.
pub open spec fn probings(low: Seq<i32>) -> Seq<Request>
    decreases low.len(),
{
    if low.len() == 0 {
        Seq::empty()
    } else {
        seq![Request::FirstFree, Request::OpenDevice(low[0])] + probings(low.drop_first())
    }
}

/// The requests that close the device files of `probes`, in their order.
pub open spec fn closings(probes: Seq<i32>) -> Seq<Request> {
    Seq::new(probes.len(), |i: int| Request::CloseDevice(probes[i]))
}

proof fn copies_of_push(probes: Seq<i32>, last: i32, number: i32)
    ensures
        copies(probes.push(last), number) == copies(probes, number) + if last == number {
            1int
        } else {
            0int
        },
    decreases probes.len(),
{
    if probes.len() == 0 {
        assert(probes.push(last).drop_first() =~= Seq::<i32>::empty());
        assert(copies(probes.push(last).drop_first(), number) == 0);
    } else {
        assert(probes.push(last).drop_first() =~= probes.drop_first().push(last));
        copies_of_push(probes.drop_first(), last, number);
    }
}

impl Searching {
    /// What comes of a search that has just taken the step `progress`, when
    /// the requests it hands out are answered by `replies`, one after the
    /// other.
    pub open spec fn play(self, progress: Progress, replies: Seq<Reply>) -> Hunt
        decreases replies.len(),
    {
        match progress {
            Progress::Issue(request) => if replies.len() == 0 {
                Hunt { requests: seq![request], search: self, end: progress }
            } else {
                let (search, then) = self.next(replies[0]);
                let rest = search.play(then, replies.drop_first());
                Hunt { requests: seq![request] + rest.requests, ..rest }
            },
            Progress::Settled(_) => Hunt { requests: Seq::empty(), search: self, end: progress },
        }
    }

    /// What comes of the search for a terminal at or above `minimum`, when
    /// its requests are answered by `replies`.
    pub open spec fn hunt(minimum: VtNumber, replies: Seq<Reply>) -> Hunt {
        Searching::initial(minimum).play(Progress::Issue(Request::FirstFree), replies)
    }

    /// Whether `progress` is a step that this search can just have taken: the
    /// request it waits for, or a verdict with a terminal that is high enough.
    pub open spec fn poised(self, progress: Progress) -> bool {
        match progress {
            Progress::Issue(request) => self.pending() == Some(request),
            Progress::Settled(verdict) => self.stage is Idle && (verdict matches Verdict::Found(
                winner,
            ) ==> winner.number@ >= self.minimum@),
        }
    }

    /// How many device files of terminal `number` the search has open when
    /// it has just taken the step `progress`: its probes, and the terminal it
    /// settled on if it opened that.
    pub open spec fn holds(self, progress: Progress, number: i32) -> int {
        copies(self.probes, number) + (if self.stage matches Search::Closing(
            Verdict::Found(winner),
        ) && winner.number.native() == number {
            1int
        } else {
            0int
        }) + (if progress matches Progress::Settled(Verdict::Found(winner))
            && winner.device_open && winner.number.native() == number {
            1int
        } else {
            0int
        })
    }

    /// One reply: the search stays well-formed, its next step is one it can
    /// take, and its count of open device files changes by what the answered
    /// request did.
    pub proof fn next_accounts(self, reply: Reply, number: i32)
        requires
            self.wf(),
            self.pending() is Some,
        ensures
            self.next(reply).0.wf(),
            self.next(reply).0.minimum == self.minimum,
            self.next(reply).0.poised(self.next(reply).1),
            self.next(reply).0.holds(self.next(reply).1, number) == self.holds(
                Progress::Issue(self.pending()->Some_0),
                number,
            ) + effect(self.pending()->Some_0, reply, number),
            self.pending() matches Some(Request::CloseDevice(closed)) ==> closed < self.minimum@,
    {
        let m = self.minimum;
        match self.stage {
            Search::Idle => {},
            Search::FirstFree => {
                if let Reply::Number(offered) = reply {
                    made_number_has_its_value(offered);
                }
            },
            Search::Occupancy => {
                if let Reply::State(state) = reply {
                    first_clear_is_least(state.v_state, m@);
                    if let Some(slot) = first_clear(state.v_state, m@) {
                        made_number_has_its_value(slot as i32);
                    }
                }
            },
            Search::ProbeQuery => {},
            Search::ProbeOpen(offered) => {
                made_number_has_its_value(offered);
                if reply == Reply::Done && offered < m@ {
                    copies_of_push(self.probes, offered, number);
                }
            },
            Search::Closing(verdict) => {
                assert(self.probes.remove(0) =~= self.probes.drop_first());
            },
        }
    }

    proof fn play_accounts(self, progress: Progress, replies: Seq<Reply>, number: i32)
        requires
            self.wf(),
            self.poised(progress),
        ensures
            ({
                let run = self.play(progress, replies);
                &&& run.search.wf()
                &&& run.search.minimum == self.minimum
                &&& run.search.poised(run.end)
                &&& self.holds(progress, number) + held(run.requests, replies, number)
                    == run.search.holds(run.end, number)
                &&& forall|i: int|
                    0 <= i < run.requests.len() ==> closes_below(
                        #[trigger] run.requests[i],
                        self.minimum@,
                    )
            }),
        decreases replies.len(),
    {
        let run = self.play(progress, replies);
        match progress {
            Progress::Issue(request) => {
                if replies.len() == 0 {
                    assert(run.requests =~= seq![request]);
                    if let Request::CloseDevice(closed) = request {
                        self.next_accounts(Reply::Done, number);
                    }
                } else {
                    let (search, then) = self.next(replies[0]);
                    let rest = search.play(then, replies.drop_first());
                    self.next_accounts(replies[0], number);
                    search.play_accounts(then, replies.drop_first(), number);
                    assert(run.requests.drop_first() =~= rest.requests);
                    assert(run.requests[0] == request);
                    assert forall|i: int| 0 <= i < run.requests.len() implies closes_below(
                        #[trigger] run.requests[i],
                        self.minimum@,
                    ) by {
                        if i > 0 {
                            assert(run.requests[i] == rest.requests[i - 1]);
                        }
                    }
                }
            },
            Progress::Settled(_) => {},
        }
    }

    /// Where the kernel's first free terminal is high enough, the search asks
    /// once and settles on that terminal, with nothing opened.
    pub proof fn first_answer_settles(minimum: VtNumber, offered: i32, later: Seq<Reply>)
        requires
            offered >= minimum@,
        ensures
            Searching::hunt(minimum, seq![Reply::Number(offered)] + later) == (Hunt {
                requests: seq![Request::FirstFree],
                search: Searching { minimum, stage: Search::Idle, probes: Seq::empty() },
                end: Progress::Settled(
                    Verdict::Found(Allocated { number: VtNumber::of(offered), device_open: false }),
                ),
            }),
            VtNumber::of(offered)@ == offered,
    {
        reveal_with_fuel(Searching::play, 2);
        made_number_has_its_value(offered);
        assert(Searching::hunt(minimum, seq![Reply::Number(offered)] + later).requests =~= seq![
            Request::FirstFree,
        ]);
    }

    /// Where the kernel's first free terminal is too low and the occupancy
    /// mask shows a free one at or above the minimum, the search asks for the
    /// first free terminal and for the state, and settles on the lowest such
    /// terminal of the mask, with nothing opened and nothing probed.
    pub proof fn mask_answer_settles(
        minimum: VtNumber,
        offered: i32,
        state: VtStat,
        slot: int,
        later: Seq<Reply>,
    )
        requires
            0 <= minimum@,
            offered < minimum@,
            minimum@ <= slot < 16,
            !occupied(state.v_state, slot),
            forall|j: int| minimum@ <= j < slot ==> occupied(state.v_state, j),
        ensures
            Searching::hunt(minimum, seq![Reply::Number(offered), Reply::State(state)] + later)
                == (Hunt {
                requests: seq![Request::FirstFree, Request::GetState],
                search: Searching { minimum, stage: Search::Idle, probes: Seq::empty() },
                end: Progress::Settled(
                    Verdict::Found(
                        Allocated { number: VtNumber::of(slot as i32), device_open: false },
                    ),
                ),
            }),
            VtNumber::of(slot as i32)@ == slot,
    {
        reveal_with_fuel(Searching::play, 3);
        made_number_has_its_value(slot as i32);
        first_clear_is_least(state.v_state, minimum@);
        assert(first_clear(state.v_state, minimum@) == Some(slot));
        let replies = seq![Reply::Number(offered), Reply::State(state)] + later;
        assert(Searching::hunt(minimum, replies).requests =~= seq![
            Request::FirstFree,
            Request::GetState,
        ]);
    }

    /// Probing, one offer after the other: while the kernel offers the
    /// terminals `low`, which are below the minimum, the search opens each and
    /// asks again, and holds them all when it goes on.
    pub proof fn probing_holds_low_offers(self, low: Seq<i32>, later: Seq<Reply>)
        requires
            self.stage is ProbeQuery,
            forall|i: int| 0 <= i < low.len() ==> low[i] < self.minimum@,
        ensures
            self.play(Progress::Issue(Request::FirstFree), offers(low) + later) == ({
                let rest = (Searching { probes: self.probes + low, ..self }).play(
                    Progress::Issue(Request::FirstFree),
                    later,
                );
                Hunt { requests: probings(low) + rest.requests, ..rest }
            }),
        decreases low.len(),
    {
        let rest = (Searching { probes: self.probes + low, ..self }).play(
            Progress::Issue(Request::FirstFree),
            later,
        );
        if low.len() == 0 {
            assert(offers(low) + later =~= later);
            assert(self.probes + low =~= self.probes);
            assert(probings(low) + rest.requests =~= rest.requests);
        } else {
            reveal_with_fuel(Searching::play, 3);
            let tail = low.drop_first();
            let asking = Searching { probes: self.probes.push(low[0]), ..self };
            assert forall|i: int| 0 <= i < tail.len() implies tail[i] < self.minimum@ by {
                assert(tail[i] == low[i + 1]);
            }
            asking.probing_holds_low_offers(tail, later);
            assert(asking.probes + tail =~= self.probes + low);
            assert((offers(low) + later).drop_first().drop_first() =~= offers(tail) + later);
            assert(self.play(Progress::Issue(Request::FirstFree), offers(low) + later).requests
                =~= probings(low) + rest.requests);
        }
    }

    /// Closing, one probe after the other: a search that has settled on a
    /// verdict closes every probe it holds, oldest first, whatever comes of
    /// the closings, and then gives the verdict.
    pub proof fn closing_closes_every_probe(self, verdict: Verdict, answers: Seq<Reply>)
        requires
            self.stage == Search::Closing(verdict),
            self.probes.len() > 0,
            answers.len() == self.probes.len(),
        ensures
            self.play(Progress::Issue(Request::CloseDevice(self.probes[0])), answers) == (Hunt {
                requests: closings(self.probes),
                search: Searching {
                    minimum: self.minimum,
                    stage: Search::Idle,
                    probes: Seq::empty(),
                },
                end: Progress::Settled(verdict),
            }),
        decreases self.probes.len(),
    {
        reveal_with_fuel(Searching::play, 2);
        let (then, _) = self.next(answers[0]);
        if then.probes.len() > 0 {
            then.closing_closes_every_probe(verdict, answers.drop_first());
        } else {
            assert(then.probes =~= Seq::<i32>::empty());
        }
        assert(self.play(
            Progress::Issue(Request::CloseDevice(self.probes[0])),
            answers,
        ).requests =~= closings(self.probes));
    }

    /// Where neither the kernel's first free terminal nor the occupancy mask
    /// gives a terminal, the search probes: it opens every terminal the kernel
    /// offers, settles on the first that is not below the minimum, and closes
    /// all that it opened before, oldest first. The device file of the
    /// terminal it settled on stays open.
    pub proof fn probing_settles_on_the_first_high_offer(
        minimum: VtNumber,
        offered: i32,
        state: VtStat,
        low: Seq<i32>,
        high: i32,
        answers: Seq<Reply>,
    )
        requires
            0 <= minimum@,
            offered < minimum@,
            forall|slot: int| minimum@ <= slot < 16 ==> occupied(state.v_state, slot),
            forall|i: int| 0 <= i < low.len() ==> low[i] < minimum@,
            high >= minimum@,
            answers.len() == low.len(),
        ensures
            Searching::hunt(
                minimum,
                seq![Reply::Number(offered), Reply::State(state)] + offers(low) + seq![
                    Reply::Number(high),
                    Reply::Done,
                ] + answers,
            ) == (Hunt {
                requests: seq![Request::FirstFree, Request::GetState] + probings(low) + seq![
                    Request::FirstFree,
                    Request::OpenDevice(high),
                ] + closings(low),
                search: Searching { minimum, stage: Search::Idle, probes: Seq::empty() },
                end: Progress::Settled(
                    Verdict::Found(Allocated { number: VtNumber::of(high), device_open: true }),
                ),
            }),
            VtNumber::of(high)@ == high,
    {
        reveal_with_fuel(Searching::play, 3);
        made_number_has_its_value(high);
        first_clear_is_least(state.v_state, minimum@);
        let verdict = Verdict::Found(Allocated { number: VtNumber::of(high), device_open: true });
        let last = seq![Reply::Number(high), Reply::Done] + answers;
        let replies = seq![Reply::Number(offered), Reply::State(state)] + offers(low) + last;
        assert(replies =~= seq![Reply::Number(offered), Reply::State(state)] + offers(low) + seq![
            Reply::Number(high),
            Reply::Done,
        ] + answers);
        // the two questions that come before the probing
        let asking = Searching { stage: Search::ProbeQuery, ..Searching::initial(minimum) };
        assert(replies.drop_first().drop_first() =~= offers(low) + last);
        // the probing of what is too low
        asking.probing_holds_low_offers(low, last);
        let holding = Searching { probes: low, ..asking };
        assert(asking.probes + low =~= low);
        // the probe that is high enough, and the closing of the others
        let closing = Searching { stage: Search::Closing(verdict), ..holding };
        assert(last.drop_first().drop_first() =~= answers);
        if low.len() > 0 {
            closing.closing_closes_every_probe(verdict, answers);
        }
        assert(holding.play(Progress::Issue(Request::FirstFree), last).requests =~= seq![
            Request::FirstFree,
            Request::OpenDevice(high),
        ] + closings(low));
        assert(Searching::hunt(minimum, replies).requests =~= seq![
            Request::FirstFree,
            Request::GetState,
        ] + probings(low) + seq![Request::FirstFree, Request::OpenDevice(high)] + closings(low));
    }

    /// Whatever the kernel answers: a search that finds a terminal finds one
    /// that is not below the minimum, and then no device file is open but that
    /// of this terminal, if the search opened it; a search that fails leaves
    /// no device file open. Every device file that the search closes belongs
    /// to a terminal below the minimum.
    pub proof fn search_keeps_only_its_find(minimum: VtNumber, replies: Seq<Reply>, number: i32)
        requires
            0 <= minimum@,
        ensures
            ({
                let run = Searching::hunt(minimum, replies);
                &&& run.end matches Progress::Settled(Verdict::Found(found)) ==> found.number@
                    >= minimum@ && held(run.requests, replies, number) == (if found.device_open
                    && found.number.native() == number {
                    1int
                } else {
                    0int
                })
                &&& run.end matches Progress::Settled(Verdict::Failed(_)) ==> held(
                    run.requests,
                    replies,
                    number,
                ) == 0
                &&& forall|i: int|
                    0 <= i < run.requests.len() ==> closes_below(
                        #[trigger] run.requests[i],
                        minimum@,
                    )
            }),
    {
        Searching::initial(minimum).play_accounts(
            Progress::Issue(Request::FirstFree),
            replies,
            number,
        );
    }
}

/// A search for a free terminal.
pub struct VtAllocator {
    minimum: VtNumber,
    stage: Search,
    probes: Vec<i32>,
}

impl View for VtAllocator {
    type V = Searching;

    closed spec fn view(&self) -> Searching {
        Searching { minimum: self.minimum, stage: self.stage, probes: self.probes@ }
    }
}

impl VtAllocator {
    #[verifier::type_invariant]
    closed spec fn sound(self) -> bool {
        self@.wf()
    }

    /// Begins a search for a free terminal whose number is at least `minimum`.
    /// The request that comes with it is the first to perform.
    pub fn start(minimum: VtNumber) -> (r: (VtAllocator, Request))
        ensures
            r.0@ == Searching::initial(minimum),
            r.0@.wf(),
            r.1 == Request::FirstFree,
    {
        let _ = minimum.as_native();
        (VtAllocator { minimum, stage: Search::FirstFree, probes: Vec::new() }, Request::FirstFree)
    }

    /// The lowest number that will do.
    pub fn minimum(&self) -> (m: VtNumber)
        ensures
            m == self@.minimum,
    {
        self.minimum
    }

    /// Where the search stands.
    pub fn stage(&self) -> (s: Search)
        ensures
            s == self@.stage,
    {
        self.stage
    }

    /// Ends a search that holds `probes` with `verdict`, once they are closed.
    fn unwind(minimum: VtNumber, probes: Vec<i32>, verdict: Verdict) -> (r: (VtAllocator, Progress))
        requires
            minimum@ >= 0,
            forall|i: int| 0 <= i < probes@.len() ==> probes@[i] < minimum@,
            verdict matches Verdict::Found(winner) ==> winner.number@ >= minimum@
                && winner.device_open,
        ensures
            (r.0@, r.1) == (Searching { minimum, stage: Search::Idle, probes: probes@ }).unwind(
                verdict,
            ),
            r.0@.wf(),
    {
        if probes.len() == 0 {
            (VtAllocator { minimum, stage: Search::Idle, probes }, Progress::Settled(verdict))
        } else {
            let oldest: i32 = probes[0];
            (
                VtAllocator { minimum, stage: Search::Closing(verdict), probes },
                Progress::Issue(Request::CloseDevice(oldest)),
            )
        }
    }

    /// Takes the reply to the request that was handed out last, and gives the
    /// search as it then stands with what it wants next.
    pub fn resume(self, reply: Reply) -> (r: (VtAllocator, Progress))
        ensures
            (r.0@, r.1) == self@.next(reply),
            self@.wf(),
            r.0@.wf(),
    {
        proof {
            use_type_invariant(&self);
        }
        let minimum = self.minimum;
        let stage = self.stage;
        let mut probes = self.probes;
        let floor: i32 = minimum.as_native();
        assert(self@.wf() && probes@ == self@.probes);
        match stage {
            Search::Idle => (
                VtAllocator { minimum, stage, probes },
                Progress::Settled(Verdict::Failed(VtError::Protocol)),
            ),
            Search::FirstFree => match reply {
                Reply::Number(number) => {
                    if number >= floor {
                        (
                            VtAllocator { minimum, stage: Search::Idle, probes },
                            Progress::Settled(found(number, false)),
                        )
                    } else {
                        (
                            VtAllocator { minimum, stage: Search::Occupancy, probes },
                            Progress::Issue(Request::GetState),
                        )
                    }
                },
                _ => Self::unwind(minimum, probes, Verdict::Failed(reply.error())),
            },
            Search::Occupancy => match reply {
                Reply::State(state) => match first_free_slot(state.v_state, minimum) {
                    Some(number) => (
                        VtAllocator { minimum, stage: Search::Idle, probes },
                        Progress::Settled(
                            Verdict::Found(Allocated { number, device_open: false }),
                        ),
                    ),
                    None => (
                        VtAllocator { minimum, stage: Search::ProbeQuery, probes },
                        Progress::Issue(Request::FirstFree),
                    ),
                },
                _ => Self::unwind(minimum, probes, Verdict::Failed(reply.error())),
            },
            Search::ProbeQuery => match reply {
                Reply::Number(number) => (
                    VtAllocator { minimum, stage: Search::ProbeOpen(number), probes },
                    Progress::Issue(Request::OpenDevice(number)),
                ),
                _ => Self::unwind(minimum, probes, Verdict::Failed(reply.error())),
            },
            Search::ProbeOpen(number) => match reply {
                Reply::Done => {
                    if number >= floor {
                        proof {
                            made_number_has_its_value(number);
                        }
                        Self::unwind(minimum, probes, found(number, true))
                    } else {
                        probes.push(number);
                        (
                            VtAllocator { minimum, stage: Search::ProbeQuery, probes },
                            Progress::Issue(Request::FirstFree),
                        )
                    }
                },
                _ => Self::unwind(minimum, probes, Verdict::Failed(reply.error())),
            },
            Search::Closing(verdict) => {
                probes.remove(0);
                Self::unwind(minimum, probes, verdict)
            },
        }
    }
}

/// The verdict for a terminal that the kernel offered.
fn found(number: i32, device_open: bool) -> (v: Verdict)
    requires
        number >= 0,
    ensures
        v == Verdict::Found(Allocated { number: VtNumber::of(number), device_open }),
{
    match VtNumber::new(number) {
        Ok(number) => Verdict::Found(Allocated { number, device_open }),
        Err(e) => Verdict::Failed(e),
    }
}

} // verus!
