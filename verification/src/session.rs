//! The sleep session: its state, the clicks that move it, and what it shows.

use crate::clock::{current_wall_clock_display, shows, wall_clock_text, ClockError};
use crate::text::{duration_text, format_duration};
use vstd::prelude::*;

verus! {

/// Nanoseconds in one second.
pub const NANOS_PER_SECOND: u64 = 1_000_000_000;

/// A reading of a monotonic clock: nanoseconds since an origin that the
/// reader of the clock has fixed.
#[derive(Clone, Copy, Debug, PartialEq, Eq, Structural)]
pub struct Instant {
    pub nanos: u64,
}

impl Instant {
    /// Whole seconds from `earlier` to `self`; zero where `earlier` is the
    /// later of the two.
    pub open spec fn seconds_since(self, earlier: Instant) -> int {
        if self.nanos >= earlier.nanos {
            (self.nanos - earlier.nanos) / 1_000_000_000
        } else {
            0
        }
    }

    /// Whole seconds from `earlier` to `self`; zero where `earlier` is the
    /// later of the two.
    pub fn whole_seconds_since(self, earlier: Instant) -> (seconds: i64)
        ensures
            seconds == self.seconds_since(earlier),
            seconds >= 0,
    {
        if self.nanos >= earlier.nanos {
            ((self.nanos - earlier.nanos) / NANOS_PER_SECOND) as i64
        } else {
            0
        }
    }
}

/// Whether a session is under way.
#[derive(Clone, Copy, Debug, PartialEq, Eq, Structural)]
pub enum SessionState {
    Standby,
    Running,
}

/// The buttons of the timer.
#[derive(Clone, Copy, Debug, PartialEq, Eq, Structural)]
pub enum ButtonId {
    Start,
    Resume,
    Stop,
}

/// What the user did.
#[derive(Clone, Copy, Debug, PartialEq, Eq, Structural)]
pub enum Event {
    ButtonClicked(ButtonId),
    Quit,
}

/// The one sleep period that the timer keeps.
#[derive(Clone, Copy, Debug, PartialEq, Eq)]
pub struct SleepPeriod {
    /// When the session began, on the monotonic clock.
    pub start: Option<Instant>,
    /// When the session was stopped; `None` while it runs and after a resume.
    pub end: Option<Instant>,
    /// The wall-clock reading taken when the session began.
    pub start_wall_clock: Option<Result<i64, ClockError>>,
}

/// A session as a value: the state and the period.
#[derive(Clone, Copy, Debug, PartialEq, Eq)]
pub struct Session {
    pub state: SessionState,
    pub period: SleepPeriod,
}

impl Session {
    /// The session at process start: standing by, nothing recorded.
    pub open spec fn initial() -> Session {
        Session {
            state: SessionState::Standby,
            period: SleepPeriod { start: None, end: None, start_wall_clock: None },
        }
    }

    /// What holds of every session that clicks can reach: a stop is recorded
    /// only for a session that was started and is not running, a running
    /// session has its start, and the two start readings come together.
    pub open spec fn wf(self) -> bool {
        &&& self.period.end.is_some() ==> self.period.start.is_some() && self.state
            == SessionState::Standby
        &&& self.state == SessionState::Running ==> self.period.start.is_some()
        &&& self.period.start.is_some() == self.period.start_wall_clock.is_some()
    }

    /// A stopped session that can go on: standing by, with a stop recorded.
    pub open spec fn resumable(self) -> bool {
        self.state == SessionState::Standby && self.period.end.is_some()
    }

    /// The session after a click on Start: from standby a new period begins
    /// at `now`, and the stop of an earlier period is forgotten with it; a
    /// running session stays as it is.
    pub open spec fn started(self, now: Instant, wall: Result<i64, ClockError>) -> Session {
        if self.state == SessionState::Standby {
            Session {
                state: SessionState::Running,
                period: SleepPeriod { start: Some(now), end: None, start_wall_clock: Some(wall) },
            }
        } else {
            self
        }
    }

    /// The session after a click on Resume: a resumable session runs again
    /// with its stop forgotten and its start kept; any other stays as it is.
    pub open spec fn resumed(self) -> Session {
        if self.resumable() {
            Session {
                state: SessionState::Running,
                period: SleepPeriod { end: None, ..self.period },
            }
        } else {
            self
        }
    }

    /// The session after a click on Stop: a running session stands by with
    /// `now` recorded as its stop; any other stays as it is.
    pub open spec fn stopped(self, now: Instant) -> Session {
        if self.state == SessionState::Running {
            Session {
                state: SessionState::Standby,
                period: SleepPeriod { end: Some(now), ..self.period },
            }
        } else {
            self
        }
    }

    /// The session after `event`, which happened at `now` on the monotonic
    /// clock and at `wall` on the wall clock.
    pub open spec fn after(self, event: Event, now: Instant, wall: Result<i64, ClockError>) -> Session {
        match event {
            Event::ButtonClicked(ButtonId::Start) => self.started(now, wall),
            Event::ButtonClicked(ButtonId::Resume) => self.resumed(),
            Event::ButtonClicked(ButtonId::Stop) => self.stopped(now),
            Event::Quit => self,
        }
    }

    /// Whether a click on `button` changes the session: the button is one
    /// that the current state shows.
    pub open spec fn actionable(self, button: ButtonId) -> bool {
        match button {
            ButtonId::Start => self.state == SessionState::Standby,
            ButtonId::Resume => self.resumable(),
            ButtonId::Stop => self.state == SessionState::Running,
        }
    }

    /// Whole seconds from the start of the period to `now`.
    pub open spec fn elapsed_seconds(self, now: Instant) -> int
        recommends
            self.period.start.is_some(),
    {
        now.seconds_since(self.period.start.unwrap())
    }

    /// The elapsed time as shown at `now`: that of a running session, and
    /// none for one that stands by.
    pub open spec fn elapsed_text(self, now: Instant) -> Option<Seq<char>> {
        if self.state == SessionState::Running && self.period.start.is_some() {
            Some(duration_text(self.elapsed_seconds(now)))
        } else {
            None
        }
    }

    /// The wall-clock start of the session as shown: that of a running
    /// session, and none for one that stands by.
    pub open spec fn start_text(self) -> Option<Result<Seq<char>, ClockError>> {
        if self.state == SessionState::Running && self.period.start_wall_clock.is_some() {
            Some(wall_clock_text(self.period.start_wall_clock.unwrap()))
        } else {
            None
        }
    }

    /// The time from start to stop of a period that was stopped, as shown.
    pub open spec fn completed_text(self) -> Option<Seq<char>> {
        if self.period.end.is_some() && self.period.start.is_some() {
            Some(
                duration_text(self.period.end.unwrap().seconds_since(self.period.start.unwrap())),
            )
        } else {
            None
        }
    }
}

/// An optional `String` and an optional text that say the same.
pub open spec fn shows_text(shown: Option<String>, text: Option<Seq<char>>) -> bool {
    match shown {
        Some(s) => text == Some(s@),
        None => text.is_none(),
    }
}

/// An optional `String` result and an optional text result that say the same.
pub open spec fn shows_reading(
    shown: Option<Result<String, ClockError>>,
    text: Option<Result<Seq<char>, ClockError>>,
) -> bool {
    match shown {
        Some(inner) => text.is_some() && shows(inner, text.unwrap()),
        None => text.is_none(),
    }
}

/// What the timer shows at one tick.
#[derive(Debug, PartialEq, Eq)]
pub struct DisplayRecord {
    pub state: SessionState,
    pub elapsed_display: Option<String>,
    pub session_start_display: Option<Result<String, ClockError>>,
    pub is_resumable: bool,
    pub current_wall_clock_display: Result<String, ClockError>,
}

/// The session controller: it owns the session, moves it on clicks and
/// answers what to show.
pub struct SessionController {
    session: Session,
}

impl View for SessionController {
    type V = Session;

    closed spec fn view(&self) -> Session {
        self.session
    }
}

impl SessionController {
    #[verifier::type_invariant]
    spec fn inv(self) -> bool {
        self.session.wf()
    }

    /// A controller that stands by with nothing recorded.
    pub fn new() -> (controller: SessionController)
        ensures
            controller@ == Session::initial(),
            controller@.wf(),
    {
        SessionController {
            session: Session {
                state: SessionState::Standby,
                period: SleepPeriod { start: None, end: None, start_wall_clock: None },
            },
        }
    }

    /// A click on Start at `now`, with the wall clock reading `wall`.
    pub fn start_clicked(&mut self, now: Instant, wall: Result<i64, ClockError>)
        ensures
            final(self)@ == old(self)@.started(now, wall),
            final(self)@.wf(),
    {
        proof {
            use_type_invariant(&*self);
        }
        match self.session.state {
            SessionState::Standby => {
                self.session = Session {
                    state: SessionState::Running,
                    period: SleepPeriod {
                        start: Some(now),
                        end: None,
                        start_wall_clock: Some(wall),
                    },
                };
            },
            SessionState::Running => {},
        }
    }

    /// A click on Resume.
    pub fn resume_clicked(&mut self)
        ensures
            final(self)@ == old(self)@.resumed(),
            final(self)@.wf(),
    {
        proof {
            use_type_invariant(&*self);
        }
        let resumable = match self.session.state {
            SessionState::Standby => self.session.period.end.is_some(),
            SessionState::Running => false,
        };
        if resumable {
            self.session = Session {
                state: SessionState::Running,
                period: SleepPeriod {
                    start: self.session.period.start,
                    end: None,
                    start_wall_clock: self.session.period.start_wall_clock,
                },
            };
        }
    }

    /// A click on Stop at `now`.
    pub fn stop_clicked(&mut self, now: Instant)
        ensures
            final(self)@ == old(self)@.stopped(now),
            final(self)@.wf(),
    {
        proof {
            use_type_invariant(&*self);
        }
        match self.session.state {
            SessionState::Running => {
                self.session = Session {
                    state: SessionState::Standby,
                    period: SleepPeriod {
                        start: self.session.period.start,
                        end: Some(now),
                        start_wall_clock: self.session.period.start_wall_clock,
                    },
                };
            },
            SessionState::Standby => {},
        }
    }

    /// Takes in one event, which happened at `now` on the monotonic clock and
    /// at `wall` on the wall clock. Says whether the timer goes on: it does
    /// unless the event is `Quit`.
    pub fn handle_event(&mut self, event: Event, now: Instant, wall: Result<i64, ClockError>) -> (go_on: bool)
        ensures
            final(self)@ == old(self)@.after(event, now, wall),
            final(self)@.wf(),
            go_on == (event != Event::Quit),
    {
        proof {
            use_type_invariant(&*self);
        }
        match event {
            Event::ButtonClicked(ButtonId::Start) => {
                self.start_clicked(now, wall);
                true
            },
            Event::ButtonClicked(ButtonId::Resume) => {
                self.resume_clicked();
                true
            },
            Event::ButtonClicked(ButtonId::Stop) => {
                self.stop_clicked(now);
                true
            },
            Event::Quit => false,
        }
    }

    /// The state of the session.
    pub fn state(&self) -> (state: SessionState)
        ensures
            state == self@.state,
    {
        self.session.state
    }

    /// The period as it is recorded.
    pub fn period(&self) -> (period: SleepPeriod)
        ensures
            period == self@.period,
            self@.wf(),
    {
        proof {
            use_type_invariant(self);
        }
        self.session.period
    }

    /// Whether the session was stopped and can go on.
    pub fn is_resumable(&self) -> (resumable: bool)
        ensures
            resumable == self@.resumable(),
    {
        match self.session.state {
            SessionState::Standby => self.session.period.end.is_some(),
            SessionState::Running => false,
        }
    }

    /// Whether a click on `button` would change the session.
    pub fn is_actionable(&self, button: ButtonId) -> (actionable: bool)
        ensures
            actionable == self@.actionable(button),
    {
        match button {
            ButtonId::Start => match self.session.state {
                SessionState::Standby => true,
                SessionState::Running => false,
            },
            ButtonId::Resume => self.is_resumable(),
            ButtonId::Stop => match self.session.state {
                SessionState::Standby => false,
                SessionState::Running => true,
            },
        }
    }

    /// The time that the running session has lasted at `now`, as `HH:MM:SS`;
    /// `None` while the timer stands by.
    pub fn elapsed_display(&self, now: Instant) -> (shown: Option<String>)
        ensures
            shows_text(shown, self@.elapsed_text(now)),
            shown.is_some() == (self@.state == SessionState::Running),
    {
        proof {
            use_type_invariant(self);
        }
        match (self.session.state, self.session.period.start) {
            (SessionState::Running, Some(start)) => {
                Some(format_duration(now.whole_seconds_since(start)))
            },
            _ => None,
        }
    }

    /// The wall-clock time at which the running session began, as a
    /// timestamp, or the error of the reading taken then; `None` while the
    /// timer stands by.
    pub fn session_start_display(&self) -> (shown: Option<Result<String, ClockError>>)
        ensures
            shows_reading(shown, self@.start_text()),
            shown.is_some() == (self@.state == SessionState::Running),
    {
        proof {
            use_type_invariant(self);
        }
        match (self.session.state, self.session.period.start_wall_clock) {
            (SessionState::Running, Some(reading)) => Some(current_wall_clock_display(reading)),
            _ => None,
        }
    }

    /// The time from start to stop of the period that was last stopped, as
    /// `HH:MM:SS`; `None` where no stop is recorded.
    pub fn completed_display(&self) -> (shown: Option<String>)
        ensures
            shows_text(shown, self@.completed_text()),
            shown.is_some() == self@.period.end.is_some(),
    {
        proof {
            use_type_invariant(self);
        }
        match (self.session.period.start, self.session.period.end) {
            (Some(start), Some(end)) => Some(format_duration(end.whole_seconds_since(start))),
            _ => None,
        }
    }

    /// All that the timer shows at one tick, at `now` on the monotonic clock
    /// and `wall` on the wall clock.
    pub fn display(&self, now: Instant, wall: Result<i64, ClockError>) -> (record: DisplayRecord)
        ensures
            record.state == self@.state,
            shows_text(record.elapsed_display, self@.elapsed_text(now)),
            shows_reading(record.session_start_display, self@.start_text()),
            record.is_resumable == self@.resumable(),
            shows(record.current_wall_clock_display, wall_clock_text(wall)),
    {
        DisplayRecord {
            state: self.state(),
            elapsed_display: self.elapsed_display(now),
            session_start_display: self.session_start_display(),
            is_resumable: self.is_resumable(),
            current_wall_clock_display: current_wall_clock_display(wall),
        }
    }
}

/// The session at process start is one that clicks can reach.
pub proof fn lemma_initial_wf()
    ensures
        Session::initial().wf(),
        Session::initial().state == SessionState::Standby,
        !Session::initial().resumable(),
{
}

/// No event leads out of the sessions that clicks can reach.
pub proof fn lemma_after_preserves_wf(
    session: Session,
    event: Event,
    now: Instant,
    wall: Result<i64, ClockError>,
)
    requires
        session.wf(),
    ensures
        session.after(event, now, wall).wf(),
{
}

/// A click changes the session if and only if its button is one that the
/// current state shows; a click on any other button is ignored.
pub proof fn lemma_click_acts_iff_actionable(
    session: Session,
    button: ButtonId,
    now: Instant,
    wall: Result<i64, ClockError>,
)
    requires
        session.wf(),
    ensures
        session.actionable(button) <==> session.after(Event::ButtonClicked(button), now, wall)
            != session,
        session.actionable(button) ==> session.after(Event::ButtonClicked(button), now, wall).state
            != session.state,
{
}

/// Before any session was stopped, a click on Resume does nothing: the timer
/// goes on standing by and is not resumable.
pub proof fn lemma_resume_without_stop_is_ignored(session: Session)
    requires
        session.state == SessionState::Standby,
        session.period.end.is_none(),
    ensures
        session.resumed() == session,
        session.resumed().state == SessionState::Standby,
        !session.resumed().resumable(),
{
}

/// After a click on Start from standby the session runs, and both its
/// elapsed time and its start time are shown at every later tick.
pub proof fn lemma_start_shows_session(
    session: Session,
    now: Instant,
    wall: Result<i64, ClockError>,
    tick: Instant,
)
    requires
        session.state == SessionState::Standby,
    ensures
        session.started(now, wall).state == SessionState::Running,
        session.started(now, wall).elapsed_text(tick) == Some(
            duration_text(tick.seconds_since(now)),
        ),
        session.started(now, wall).start_text() == Some(wall_clock_text(wall)),
{
}

/// After a click on Stop a running session is resumable, and no elapsed time
/// is shown.
pub proof fn lemma_stop_makes_resumable(session: Session, now: Instant, tick: Instant)
    requires
        session.wf(),
        session.state == SessionState::Running,
    ensures
        session.stopped(now).resumable(),
        session.stopped(now).elapsed_text(tick).is_none(),
        session.stopped(now).period.start == session.period.start,
        session.stopped(now).period.start_wall_clock == session.period.start_wall_clock,
{
}

/// A stop followed by a resume leaves a running session as it was: the
/// elapsed time goes on from the start it had and takes in the pause.
pub proof fn lemma_resume_counts_from_first_start(
    session: Session,
    stop_at: Instant,
    tick: Instant,
)
    requires
        session.wf(),
        session.state == SessionState::Running,
    ensures
        session.stopped(stop_at).resumed() == session,
        session.stopped(stop_at).resumed().elapsed_text(tick) == Some(
            duration_text(tick.seconds_since(session.period.start.unwrap())),
        ),
{
}

/// The elapsed time counts whole seconds: `seconds` seconds and less than
/// one second more after the start, the session shows `seconds`.
pub proof fn lemma_elapsed_counts_whole_seconds(
    session: Session,
    now: Instant,
    wall: Result<i64, ClockError>,
    seconds: nat,
    extra_nanos: nat,
)
    requires
        session.state == SessionState::Standby,
        extra_nanos < 1_000_000_000,
        now.nanos + seconds * 1_000_000_000 + extra_nanos <= u64::MAX,
    ensures
        session.started(now, wall).elapsed_text(
            (Instant { nanos: (now.nanos + seconds * 1_000_000_000 + extra_nanos) as u64 }),
        ) == Some(duration_text(seconds as int)),
{
    let tick = Instant { nanos: (now.nanos + seconds * 1_000_000_000 + extra_nanos) as u64 };
    assert(tick.nanos - now.nanos == seconds * 1_000_000_000 + extra_nanos);
    assert((seconds * 1_000_000_000 + extra_nanos) / 1_000_000_000 == seconds);
}

} // verus!
