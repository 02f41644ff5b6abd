//! The admission controller's decisions. Whoever drives a run reads input
//! lines, starts workers and waits for them; this state machine says, after
//! each of those events, what to do next. It admits at most `connections`
//! probes at a time and ends the run only once every admitted probe has
//! reported back.
use vstd::prelude::*;

use crate::admission::Pool;
use crate::config::Config;

verus! {

/// What the driver observed since the last action.
#[derive(Debug)]
pub enum Event {
    /// One line of input, without its line terminator.
    Line(String),
    /// The input is exhausted.
    InputEnd,
    /// Reading the input failed.
    InputFault,
    /// One worker has written its line and finished.
    WorkerDone,
}

/// What the driver is to do next.
#[derive(Debug)]
pub enum Action {
    /// Read the next input line.
    Read,
    /// Start a worker for this URL, then read the next input line.
    Spawn(String),
    /// Wait until one running worker finishes.
    AwaitWorker,
    /// Every worker has finished and the input was read to its end.
    Exit,
    /// Every worker has finished, but reading the input failed.
    Abort,
}

/// Which events the controller is ready for.
#[derive(Clone, Copy, Debug, PartialEq, Eq, Structural)]
pub enum Phase {
    /// Waiting for the outcome of a read.
    Reading,
    /// Waiting for a worker to finish.
    Waiting,
    /// The run is over.
    Finished,
}

/// The URLs among `lines`, in order: every line that is not empty.
pub open spec fn urls_of(lines: Seq<Seq<char>>) -> Seq<Seq<char>>
    decreases lines.len(),
{
    if lines.len() == 0 {
        Seq::empty()
    } else {
        let rest = urls_of(lines.drop_last());
        if lines.last().len() == 0 {
            rest
        } else {
            rest.push(lines.last())
        }
    }
}

/// Reading one more line adds it to the URLs exactly when it is not empty.
pub proof fn lemma_urls_of_push(lines: Seq<Seq<char>>, l: Seq<char>)
    ensures
        urls_of(lines.push(l)) == if l.len() == 0 {
            urls_of(lines)
        } else {
            urls_of(lines).push(l)
        },
{
    assert(lines.push(l).drop_last() =~= lines);
}

/// A line that was read but still waits for a token, as a sequence of at
/// most one URL.
pub open spec fn pending_seq(pending: Option<Seq<char>>) -> Seq<Seq<char>> {
    match pending {
        Some(u) => seq![u],
        None => Seq::empty(),
    }
}

/// The controller as an abstract state.
pub ghost struct ControllerView {
    /// The cap on probes in flight.
    pub capacity: nat,
    /// Probes started and not yet reported finished.
    pub in_flight: nat,
    pub phase: Phase,
    /// Whether reading the input failed.
    pub faulted: bool,
    /// A URL that was read while every token was held.
    pub pending: Option<Seq<char>>,
    /// Every input line read so far, in order.
    pub lines: Seq<Seq<char>>,
    /// Every URL handed to a worker so far, in order.
    pub dispatched: Seq<Seq<char>>,
    /// The number of workers that have reported finishing.
    pub completed: nat,
}

impl ControllerView {
    pub open spec fn wf(self) -> bool {
        &&& 1 <= self.capacity <= u64::MAX
        &&& self.in_flight <= self.capacity
        &&& self.completed + self.in_flight == self.dispatched.len()
        &&& urls_of(self.lines) == self.dispatched + pending_seq(self.pending)
        &&& self.pending is Some ==> self.phase == Phase::Waiting && self.in_flight
            == self.capacity
        &&& self.phase == Phase::Reading ==> self.pending is None && !self.faulted
        &&& self.phase == Phase::Waiting ==> self.in_flight > 0
        &&& self.phase == Phase::Finished ==> self.in_flight == 0 && self.pending is None
        &&& self.faulted ==> self.pending is None
    }

    /// Whether `e` is an event the controller can be waiting for now.
    pub open spec fn accepts(self, e: Event) -> bool {
        match self.phase {
            Phase::Reading => e is Line || e is InputEnd || e is InputFault,
            Phase::Waiting => e is WorkerDone,
            Phase::Finished => false,
        }
    }

    /// The action that ends a drained run.
    pub open spec fn ends_with(self, a: Action) -> bool {
        if self.faulted {
            a is Abort
        } else {
            a is Exit
        }
    }
}

/// The phase that follows handing out action `a`.
pub open spec fn phase_after(a: Action) -> Phase {
    match a {
        Action::Read => Phase::Reading,
        Action::Spawn(_) => Phase::Reading,
        Action::AwaitWorker => Phase::Waiting,
        Action::Exit => Phase::Finished,
        Action::Abort => Phase::Finished,
    }
}

/// The decision state of one run.
pub struct Controller {
    pool: Pool,
    phase: Phase,
    faulted: bool,
    pending: Option<String>,
    lines: Ghost<Seq<Seq<char>>>,
    dispatched: Ghost<Seq<Seq<char>>>,
    completed: Ghost<nat>,
}

impl View for Controller {
    type V = ControllerView;

    closed spec fn view(&self) -> ControllerView {
        ControllerView {
            capacity: self.pool@.capacity,
            in_flight: self.pool@.issued,
            phase: self.phase,
            faulted: self.faulted,
            pending: match self.pending {
                Some(u) => Some(u@),
                None => None,
            },
            lines: self.lines@,
            dispatched: self.dispatched@,
            completed: self.completed@,
        }
    }
}

impl Controller {
    /// The controller's state is consistent; `new` establishes this and
    /// `step` keeps it, so it holds of every controller a caller can hold.
    pub closed spec fn wf(&self) -> bool {
        &&& self@.wf()
        &&& self.pool@.wf()
    }

    /// A controller for a run under `config`, with nothing read yet. Its
    /// first action is `Action::Read`.
    pub fn new(config: &Config) -> (r: Controller)
        requires
            config.valid(),
        ensures
            r.wf(),
            r@ == (ControllerView {
                capacity: config.connections as nat,
                in_flight: 0,
                phase: Phase::Reading,
                faulted: false,
                pending: None,
                lines: Seq::empty(),
                dispatched: Seq::empty(),
                completed: 0,
            }),
    {
        Controller {
            pool: Pool::new(config.connections),
            phase: Phase::Reading,
            faulted: false,
            pending: None,
            lines: Ghost(Seq::empty()),
            dispatched: Ghost(Seq::empty()),
            completed: Ghost(0),
        }
    }

    /// Whether `step` may be given `e` now.
    pub fn accepts(&self, e: &Event) -> (r: bool)
        ensures
            r == self@.accepts(*e),
    {
        match self.phase {
            Phase::Reading => match e {
                Event::WorkerDone => false,
                _ => true,
            },
            Phase::Waiting => match e {
                Event::WorkerDone => true,
                _ => false,
            },
            Phase::Finished => false,
        }
    }

    /// The number of probes started and not yet finished.
    pub fn in_flight(&self) -> (r: u64)
        ensures
            r == self@.in_flight,
    {
        self.pool.issued()
    }

    /// The cap on probes in flight.
    pub fn capacity(&self) -> (r: u64)
        ensures
            r == self@.capacity,
    {
        self.pool.capacity()
    }

    /// Whether the run is over.
    pub fn is_finished(&self) -> (r: bool)
        ensures
            r == (self@.phase == Phase::Finished),
    {
        self.phase == Phase::Finished
    }

    /// Takes in one event and returns the next action. A non-empty line is
    /// spawned at once while a token is free, and otherwise held until a
    /// worker finishes; an empty line is skipped. Once the input has ended
    /// or failed, the run ends only when every spawned worker has finished.
    pub fn step(&mut self, event: Event) -> (r: Action)
        requires
            old(self).wf(),
            old(self)@.accepts(event),
        ensures
            final(self).wf(),
            final(self)@.phase == phase_after(r),
            final(self)@.capacity == old(self)@.capacity,
            final(self)@.faulted == (old(self)@.faulted || event is InputFault),
            final(self)@.lines == match event {
                Event::Line(l) => old(self)@.lines.push(l@),
                _ => old(self)@.lines,
            },
            event matches Event::Line(l) ==> if l@.len() == 0 {
                &&& r is Read
                &&& final(self)@.dispatched == old(self)@.dispatched
                &&& final(self)@.in_flight == old(self)@.in_flight
            } else if old(self)@.in_flight < old(self)@.capacity {
                &&& r matches Action::Spawn(u) && u@ == l@
                &&& final(self)@.dispatched == old(self)@.dispatched.push(l@)
                &&& final(self)@.in_flight == old(self)@.in_flight + 1
            } else {
                &&& r is AwaitWorker
                &&& final(self)@.pending == Some(l@)
                &&& final(self)@.dispatched == old(self)@.dispatched
                &&& final(self)@.in_flight == old(self)@.in_flight
            },
            event is InputEnd || event is InputFault ==> {
                &&& final(self)@.dispatched == old(self)@.dispatched
                &&& final(self)@.in_flight == old(self)@.in_flight
                &&& if old(self)@.in_flight == 0 {
                    final(self)@.ends_with(r)
                } else {
                    r is AwaitWorker
                }
            },
            event is WorkerDone ==> final(self)@.completed == old(self)@.completed + 1 && match old(
                self,
            )@.pending {
                Some(u) => {
                    &&& r matches Action::Spawn(v) && v@ == u
                    &&& final(self)@.dispatched == old(self)@.dispatched.push(u)
                    &&& final(self)@.in_flight == old(self)@.in_flight
                    &&& final(self)@.pending is None
                },
                None => {
                    &&& final(self)@.dispatched == old(self)@.dispatched
                    &&& final(self)@.in_flight == old(self)@.in_flight - 1
                    &&& if old(self)@.in_flight == 1 {
                        final(self)@.ends_with(r)
                    } else {
                        r is AwaitWorker
                    }
                },
            },
            !(event is WorkerDone) ==> final(self)@.completed == old(self)@.completed,
            r is Exit || r is Abort ==> {
                &&& final(self)@.in_flight == 0
                &&& final(self)@.completed == final(self)@.dispatched.len()
                &&& final(self)@.dispatched == urls_of(final(self)@.lines)
            },
    {
        match event {
            Event::Line(l) => {
                proof {
                    lemma_urls_of_push(self.lines@, l@);
                }
                self.lines = Ghost(self.lines@.push(l@));
                if l.as_str().is_empty() {
                    Action::Read
                } else if self.pool.try_acquire() {
                    proof {
                        assert(self.dispatched@.push(l@) =~= self.dispatched@ + seq![l@]);
                    }
                    self.dispatched = Ghost(self.dispatched@.push(l@));
                    assert(self.dispatched@ + pending_seq(None) =~= self.dispatched@);
                    Action::Spawn(l)
                } else {
                    self.pending = Some(l);
                    self.phase = Phase::Waiting;
                    Action::AwaitWorker
                }
            },
            Event::InputEnd => self.drain_or_wait(),
            Event::InputFault => {
                self.faulted = true;
                self.drain_or_wait()
            },
            Event::WorkerDone => {
                self.pool.release();
                self.completed = Ghost(self.completed@ + 1);
                match self.pending.take() {
                    Some(u) => {
                        let acquired = self.pool.try_acquire();
                        assert(acquired);
                        proof {
                            assert(self.dispatched@ + seq![u@] =~= self.dispatched@.push(u@));
                        }
                        self.dispatched = Ghost(self.dispatched@.push(u@));
                        assert(self.dispatched@ + pending_seq(None) =~= self.dispatched@);
                        self.phase = Phase::Reading;
                        Action::Spawn(u)
                    },
                    None => {
                        assert(self.dispatched@ + pending_seq(None) =~= self.dispatched@);
                        self.drain_or_wait()
                    },
                }
            },
        }
    }

    /// Ends the run if nothing is in flight, else waits for a worker.
    fn drain_or_wait(&mut self) -> (r: Action)
        requires
            old(self).pool@.wf(),
            old(self)@.pending is None,
            old(self)@.in_flight <= old(self)@.capacity,
        ensures
            final(self)@ == (ControllerView { phase: phase_after(r), ..old(self)@ }),
            final(self).pool@.wf(),
            old(self)@.in_flight == 0 ==> old(self)@.ends_with(r),
            old(self)@.in_flight > 0 ==> r is AwaitWorker,
    {
        if self.pool.is_drained() {
            self.phase = Phase::Finished;
            if self.faulted {
                Action::Abort
            } else {
                Action::Exit
            }
        } else {
            self.phase = Phase::Waiting;
            Action::AwaitWorker
        }
    }
}

/// In every reachable state, no more probes are in flight than the
/// configured cap.
pub proof fn lemma_in_flight_within_cap(c: &Controller)
    requires
        c.wf(),
    ensures
        c@.in_flight <= c@.capacity,
{
}

/// A finished run has nothing in flight: every worker that was started
/// has reported back before the run ends.
pub proof fn lemma_finished_is_drained(c: &Controller)
    requires
        c.wf(),
        c@.phase == Phase::Finished,
    ensures
        c@.in_flight == 0,
        c@.completed == c@.dispatched.len(),
{
}

/// Once a run is over, each non-empty input line was handed to exactly
/// one worker, in input order, and each of those workers has finished;
/// so there is one result line per non-empty input line.
pub proof fn lemma_one_line_per_url(c: &Controller)
    requires
        c.wf(),
        c@.phase == Phase::Finished,
    ensures
        c@.dispatched == urls_of(c@.lines),
        c@.completed == urls_of(c@.lines).len(),
{
    assert(c@.dispatched + pending_seq(None) =~= c@.dispatched);
}

} // verus!
