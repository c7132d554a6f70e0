//! A practice session: its phases, its log of times and their average.

use crate::scramble::is_scramble;
use crate::screen::{init_screen, ready_frame, summary_frame, summary_screen, Command, Screen};
use vstd::prelude::*;

verus! {

/// Why a session has no average.
#[derive(Clone, Copy, Debug, PartialEq, Eq, Structural)]
pub enum AverageError {
    /// No attempt was completed: the log holds nothing but its placeholder.
    NoAttempts,
}

/// What comes in from the terminal.
#[derive(Clone, Copy, Debug, PartialEq, Eq, Structural)]
pub enum Input {
    /// The key of a character was pressed.
    Char(char),
    /// Another key was pressed.
    OtherKey,
    /// Something happened that is no key: the window changed its size, the
    /// mouse moved.
    Other,
}

/// Where a session stands.
#[derive(Clone, Copy, Debug, PartialEq, Eq, Structural)]
pub enum Phase {
    /// A scramble is shown; the session waits for a start.
    Ready,
    /// The stopwatch runs.
    Running,
    /// The session is over.
    Done,
}

/// The key that starts the stopwatch.
pub const START_KEY: char = ' ';

/// The key that ends the session.
pub const QUIT_KEY: char = 'q';

/// The sum of the times of a log.
pub open spec fn total(times: Seq<u64>) -> nat
    decreases times.len(),
{
    if times.len() == 0 {
        0
    } else {
        total(times.drop_last()) + times.last() as nat
    }
}

/// The average of a log that begins with its placeholder: the sum over one
/// less than the number of entries, in whole milliseconds.
pub open spec fn mean(times: Seq<u64>) -> nat
    recommends
        times.len() >= 2,
{
    total(times) / ((times.len() - 1) as nat)
}

/// Whether a log begins with the placeholder, as the log of every session
/// does: a time of zero that stands for no attempt.
pub open spec fn seeded(times: Seq<u64>) -> bool {
    times.len() >= 1 && times[0] == 0
}

/// Whether what the stopwatch found while it waited stops it: any key
/// does, nothing else.
pub open spec fn stops(polled: Option<Input>) -> bool {
    polled matches Some(input) && !(input is Other)
}

/// A sum of times is at most the number of times by the largest time.
pub proof fn lemma_total_bound(times: Seq<u64>)
    ensures
        total(times) <= times.len() * u64::MAX,
    decreases times.len(),
{
    if times.len() > 0 {
        lemma_total_bound(times.drop_last());
        assert((times.len() - 1) * u64::MAX + u64::MAX == times.len() * u64::MAX)
            by (nonlinear_arith);
    }
}

/// The average of the session whose log is `times`, in milliseconds.
///
/// The first entry is the placeholder that every log begins with: it is
/// added up with the rest but not counted. A log without an attempt has no
/// average. The average is wider than the times, since a first entry that
/// is no placeholder can lift it above the longest of them.
pub fn average(times: &[u64]) -> (result: Result<u128, AverageError>)
    ensures
        match result {
            Ok(average_ms) => times@.len() >= 2 && average_ms == mean(times@),
            Err(e) => times@.len() < 2 && e == AverageError::NoAttempts,
        },
{
    if times.len() < 2 {
        return Err(AverageError::NoAttempts);
    }
    let mut sum: u128 = 0;
    let mut i: usize = 0;
    while i < times.len()
        invariant
            i <= times.len(),
            sum == total(times@.take(i as int)),
        decreases times.len() - i,
    {
        proof {
            assert(times@.take(i + 1).drop_last() =~= times@.take(i as int));
            lemma_total_bound(times@.take(i + 1));
            assert((i + 1) * u64::MAX <= u64::MAX * u64::MAX) by (nonlinear_arith)
                requires
                    i + 1 <= u64::MAX,
            ;
        }
        sum = sum + times[i] as u128;
        i += 1;
    }
    assert(times@.take(times@.len() as int) =~= times@);
    Ok(sum / ((times.len() - 1) as u128))
}

/// One turn of the running stopwatch, after its wait for input: a key
/// stops it, and the time it showed is then added to the log.
pub fn timer(times: &mut Vec<u64>, elapsed_ms: u64, polled: Option<Input>) -> (stopped: bool)
    ensures
        stopped == stops(polled),
        final(times)@ == if stopped {
            old(times)@.push(elapsed_ms)
        } else {
            old(times)@
        },
{
    match polled {
        Some(Input::Char(_)) | Some(Input::OtherKey) => {
            times.push(elapsed_ms);
            true
        },
        _ => false,
    }
}

/// A session as contracts speak of it.
pub struct SessionView {
    pub phase: Phase,
    pub times: Seq<u64>,
}

/// A practice session: its phase and the times of its attempts, in
/// milliseconds and in the order they were made, behind a placeholder of
/// zero that stands for no attempt.
#[derive(Debug)]
pub struct Session {
    phase: Phase,
    times: Vec<u64>,
}

/// The session after an input, for the phase that awaits one: the start key
/// sets the stopwatch running, the quit key ends the session, and anything
/// else changes nothing. In the other phases no input changes anything.
pub open spec fn after_input(session: SessionView, input: Input) -> SessionView {
    if !(session.phase is Ready) {
        session
    } else if input == Input::Char(START_KEY) {
        SessionView { phase: Phase::Running, times: session.times }
    } else if input == Input::Char(QUIT_KEY) {
        SessionView { phase: Phase::Done, times: session.times }
    } else {
        session
    }
}

/// The session after one turn of the stopwatch: a key stops it, the time
/// goes to the end of the log and the session awaits a start again. While
/// no stopwatch runs nothing changes.
pub open spec fn after_poll(
    session: SessionView,
    elapsed_ms: u64,
    polled: Option<Input>,
) -> SessionView {
    if session.phase is Running && stops(polled) {
        SessionView { phase: Phase::Ready, times: session.times.push(elapsed_ms) }
    } else {
        session
    }
}

impl View for Session {
    type V = SessionView;

    closed spec fn view(&self) -> SessionView {
        SessionView { phase: self.phase, times: self.times@ }
    }
}

impl Session {
    /// What holds of every session: its log begins with the placeholder.
    pub open spec fn wf(&self) -> bool {
        seeded(self@.times)
    }

    /// A session that awaits its first start, with nothing but the
    /// placeholder in its log.
    pub fn new() -> (session: Session)
        ensures
            session.wf(),
            session@.phase == Phase::Ready,
            session@.times == seq![0u64],
    {
        let mut times: Vec<u64> = Vec::new();
        times.push(0);
        Session { phase: Phase::Ready, times }
    }

    /// Where the session stands.
    pub fn phase(&self) -> (phase: Phase)
        ensures
            phase == self@.phase,
    {
        self.phase
    }

    /// The log: the placeholder, then the times of the attempts.
    pub fn times(&self) -> (times: &[u64])
        ensures
            times@ == self@.times,
    {
        self.times.as_slice()
    }

    /// The time of the last attempt, or zero before the first.
    pub fn last_time(&self) -> (last: u64)
        requires
            self.wf(),
        ensures
            last == self@.times.last(),
    {
        self.times[self.times.len() - 1]
    }

    /// Takes an input while the session awaits a start.
    pub fn on_input(&mut self, input: Input)
        requires
            old(self).wf(),
        ensures
            final(self).wf(),
            final(self)@ == after_input(old(self)@, input),
    {
        if let Phase::Ready = self.phase {
            match input {
                Input::Char(c) => {
                    if c == START_KEY {
                        self.phase = Phase::Running;
                    } else if c == QUIT_KEY {
                        self.phase = Phase::Done;
                    }
                },
                _ => {},
            }
        }
    }

    /// Takes what one wait of the running stopwatch found, at the time the
    /// stopwatch showed.
    pub fn on_poll(&mut self, elapsed_ms: u64, polled: Option<Input>)
        requires
            old(self).wf(),
        ensures
            final(self).wf(),
            final(self)@ == after_poll(old(self)@, elapsed_ms, polled),
    {
        if let Phase::Running = self.phase {
            if timer(&mut self.times, elapsed_ms, polled) {
                self.phase = Phase::Ready;
            }
        }
    }

    /// A fresh scramble under the time of the last attempt.
    pub fn screen(&self) -> (screen: Screen)
        requires
            self.wf(),
        ensures
            is_scramble(screen.scramble@),
            screen.frame.deep_view() == ready_frame(self@.times.last() as nat, screen.scramble@),
    {
        init_screen(self.last_time())
    }

    /// The frame that closes the session, if an attempt was completed.
    pub fn summary(&self) -> (result: Result<Vec<Command>, AverageError>)
        ensures
            match result {
                Ok(frame) => self@.times.len() >= 2 && frame.deep_view() == summary_frame(
                    mean(self@.times),
                ),
                Err(e) => self@.times.len() < 2 && e == AverageError::NoAttempts,
            },
    {
        match average(self.times.as_slice()) {
            Ok(average_ms) => Ok(summary_screen(average_ms)),
            Err(e) => Err(e),
        }
    }
}

/// No step takes anything out of the log or changes an entry: an input
/// leaves the log as it is, and a turn of the stopwatch at most adds a time
/// at its end. The placeholder stays where it is.
pub proof fn lemma_log_only_grows(
    session: SessionView,
    input: Input,
    elapsed_ms: u64,
    polled: Option<Input>,
)
    ensures
        after_input(session, input).times == session.times,
        session.times.is_prefix_of(after_poll(session, elapsed_ms, polled).times),
        after_poll(session, elapsed_ms, polled).times.len() <= session.times.len() + 1,
        seeded(session.times) ==> seeded(after_poll(session, elapsed_ms, polled).times),
{
}

/// A session that is over stays over, whatever comes in.
pub proof fn lemma_done_is_final(
    session: SessionView,
    input: Input,
    elapsed_ms: u64,
    polled: Option<Input>,
)
    requires
        session.phase is Done,
    ensures
        after_input(session, input) == session,
        after_poll(session, elapsed_ms, polled) == session,
{
}

/// The steps between the phases: a session that awaits a start goes on to
/// run or to end, and only by an input; a running one goes back to await
/// a start, and only by a turn of the stopwatch.
pub proof fn lemma_phases_follow_each_other(
    session: SessionView,
    input: Input,
    elapsed_ms: u64,
    polled: Option<Input>,
)
    ensures
        after_input(session, input).phase != session.phase ==> session.phase is Ready,
        after_poll(session, elapsed_ms, polled).phase != session.phase ==> session.phase
            is Running && after_poll(session, elapsed_ms, polled).phase is Ready,
{
}

/// A session of one attempt: started, stopped by a key at some time and
/// then quit, it is over with that time behind the placeholder in its log,
/// and that time is its average.
pub proof fn lemma_session_of_one_attempt(elapsed_ms: u64, key: Input)
    requires
        !(key is Other),
    ensures
        ({
            let fresh = SessionView { phase: Phase::Ready, times: seq![0u64] };
            let running = after_input(fresh, Input::Char(START_KEY));
            let stopped = after_poll(running, elapsed_ms, Some(key));
            let done = after_input(stopped, Input::Char(QUIT_KEY));
            &&& running.phase is Running
            &&& stopped.phase is Ready
            &&& done.phase is Done
            &&& done.times == seq![0u64, elapsed_ms]
            &&& mean(done.times) == elapsed_ms
        }),
{
    let times = seq![0u64].push(elapsed_ms);
    lemma_mean_of_equal_times(times, elapsed_ms);
}

/// Where every attempt of a log took the same time, that time is the
/// average: the placeholder adds nothing to the sum and is not counted.
pub proof fn lemma_mean_of_equal_times(times: Seq<u64>, each: u64)
    requires
        seeded(times),
        times.len() >= 2,
        forall|i: int| 1 <= i < times.len() ==> times[i] == each,
    ensures
        mean(times) == each,
{
    lemma_total_of_equal_times(times, each);
    let attempts = (times.len() - 1) as nat;
    let sum = total(times);
    assert(sum / attempts == each) by (nonlinear_arith)
        requires
            attempts > 0,
            sum == attempts * each,
    ;
}

proof fn lemma_total_of_equal_times(times: Seq<u64>, each: u64)
    requires
        seeded(times),
        forall|i: int| 1 <= i < times.len() ==> times[i] == each,
    ensures
        total(times) == (times.len() - 1) * each,
    decreases times.len(),
{
    if times.len() == 1 {
        assert(total(times.drop_last()) == 0);
    } else {
        lemma_total_of_equal_times(times.drop_last(), each);
        assert((times.len() - 2) * each + each == (times.len() - 1) * each) by (nonlinear_arith);
    }
}

} // verus!
