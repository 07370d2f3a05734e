//! The life of the interactive viewer as a state machine: it takes hold of the terminal, draws
//! and waits for input in turn, and gives the terminal back on every way out.
//!
//! The viewer decides; its caller acts. The caller carries out the pending `Action`, reports what
//! came of it as an `Event`, and gets the next action in return, until the action is `Exit`.

use vstd::prelude::*;

verus! {

/// The longest that the viewer waits for input before it redraws, in milliseconds.
pub const TICK_MILLIS: u64 = 250;

/// What the viewer takes hold of in the terminal, in the order in which it does so.
#[derive(Clone, Copy, Debug, PartialEq, Eq, Structural)]
pub enum Resource {
    RawMode,
    AlternateScreen,
    MouseCapture,
    HiddenCursor,
}

/// The stages of the viewer's life.
#[derive(Clone, Copy, Debug, PartialEq, Eq, Structural)]
pub enum Phase {
    Initializing,
    Running,
    ShuttingDown,
    Terminated,
}

/// A key, as far as the viewer tells keys apart.
#[derive(Clone, Copy, Debug, PartialEq, Eq, Structural)]
pub enum Key {
    Char(char),
    Esc,
    Other,
}

/// What the caller reports back to the viewer.
#[derive(Clone, Copy, Debug, PartialEq, Eq, Structural)]
pub enum Event {
    /// The pending action was carried out.
    Done,
    /// The pending action failed.
    Failed,
    /// A key was pressed while the viewer waited for input.
    Key(Key),
    /// The terminal changed its size while the viewer waited for input.
    Resize,
    /// The wait for input ran out.
    Tick,
    /// Some other input arrived while the viewer waited.
    Other,
}

/// What the viewer asks its caller to do.
#[derive(Clone, Copy, Debug, PartialEq, Eq, Structural)]
pub enum Action {
    /// Take hold of the resource.
    Acquire(Resource),
    /// Draw the screen, after asking the terminal for its size again where `requery_size` is set.
    Draw { requery_size: bool },
    /// Wait for input, at most this long.
    Poll { timeout_millis: u64 },
    /// Give the resource back.
    Release(Resource),
    /// Return to the caller's caller: with an error where `failed` is set.
    Exit { failed: bool },
}

/// What the viewer is waiting for.
#[derive(Clone, Copy, Debug, PartialEq, Eq, Structural)]
pub enum Step {
    Acquiring(Resource),
    Drawing { requery_size: bool },
    Polling,
    Releasing(Resource),
    Terminated,
}

/// What the viewer holds of the terminal, and when it last ticked, in milliseconds on the
/// caller's clock.
#[derive(Clone, Copy, Debug, PartialEq, Eq, Structural)]
pub struct ViewerSession {
    pub raw_mode: bool,
    pub alternate_screen: bool,
    pub mouse_capture: bool,
    pub cursor_hidden: bool,
    pub last_tick: u64,
}

/// The viewer: what it waits for, what it holds, and whether anything has failed so far.
#[derive(Clone, Copy, Debug, PartialEq, Eq, Structural)]
pub struct Viewer {
    pub step: Step,
    pub session: ViewerSession,
    pub failed: bool,
}

/// Whether the key ends the viewer: `q` and Escape do.
pub open spec fn is_quit_key(key: Key) -> bool {
    key == Key::Char('q') || key == Key::Esc
}

/// The resource that is acquired after `resource`, if any is.
pub open spec fn next_resource(resource: Resource) -> Option<Resource> {
    match resource {
        Resource::RawMode => Some(Resource::AlternateScreen),
        Resource::AlternateScreen => Some(Resource::MouseCapture),
        Resource::MouseCapture => Some(Resource::HiddenCursor),
        Resource::HiddenCursor => None,
    }
}

/// The time that has passed since the last tick. A clock that ran backwards counts as none.
pub open spec fn elapsed(last_tick: u64, now: u64) -> u64 {
    if now >= last_tick {
        (now - last_tick) as u64
    } else {
        0
    }
}

/// The time that is left until the next tick is due: none where it is overdue.
pub open spec fn time_until_tick(last_tick: u64, now: u64) -> u64 {
    if elapsed(last_tick, now) >= TICK_MILLIS {
        0
    } else {
        (TICK_MILLIS - elapsed(last_tick, now)) as u64
    }
}

impl ViewerSession {
    /// Whether the session holds the resource.
    pub open spec fn holds(self, resource: Resource) -> bool {
        match resource {
            Resource::RawMode => self.raw_mode,
            Resource::AlternateScreen => self.alternate_screen,
            Resource::MouseCapture => self.mouse_capture,
            Resource::HiddenCursor => self.cursor_hidden,
        }
    }

    /// The session with the resource held or not, as `held` says.
    pub open spec fn with(self, resource: Resource, held: bool) -> ViewerSession {
        match resource {
            Resource::RawMode => ViewerSession { raw_mode: held, ..self },
            Resource::AlternateScreen => ViewerSession { alternate_screen: held, ..self },
            Resource::MouseCapture => ViewerSession { mouse_capture: held, ..self },
            Resource::HiddenCursor => ViewerSession { cursor_hidden: held, ..self },
        }
    }

    /// The resource that was acquired last among those that the session holds.
    pub open spec fn last_held(self) -> Option<Resource> {
        if self.cursor_hidden {
            Some(Resource::HiddenCursor)
        } else if self.mouse_capture {
            Some(Resource::MouseCapture)
        } else if self.alternate_screen {
            Some(Resource::AlternateScreen)
        } else if self.raw_mode {
            Some(Resource::RawMode)
        } else {
            None
        }
    }

    /// The number of resources that the session holds.
    pub open spec fn held_count(self) -> nat {
        (if self.raw_mode { 1nat } else { 0 }) + (if self.alternate_screen { 1nat } else { 0 }) + (
        if self.mouse_capture { 1nat } else { 0 }) + (if self.cursor_hidden { 1nat } else { 0 })
    }

    /// Whether the session holds nothing: the terminal is as it was found.
    pub open spec fn is_released(self) -> bool {
        !self.raw_mode && !self.alternate_screen && !self.mouse_capture && !self.cursor_hidden
    }

    /// Whether the session holds exactly the resources that are acquired before `resource`.
    pub open spec fn holds_all_before(self, resource: Resource) -> bool {
        match resource {
            Resource::RawMode => self.is_released(),
            Resource::AlternateScreen => self.raw_mode && !self.alternate_screen
                && !self.mouse_capture && !self.cursor_hidden,
            Resource::MouseCapture => self.raw_mode && self.alternate_screen && !self.mouse_capture
                && !self.cursor_hidden,
            Resource::HiddenCursor => self.raw_mode && self.alternate_screen && self.mouse_capture
                && !self.cursor_hidden,
        }
    }

    /// Whether the session holds every resource.
    pub open spec fn holds_all(self) -> bool {
        self.raw_mode && self.alternate_screen && self.mouse_capture && self.cursor_hidden
    }

    /// Whether the held resources are a start of the order of acquisition: nothing is held
    /// without what is acquired before it.
    pub open spec fn is_nested(self) -> bool {
        &&& self.cursor_hidden ==> self.mouse_capture
        &&& self.mouse_capture ==> self.alternate_screen
        &&& self.alternate_screen ==> self.raw_mode
    }
}

impl Viewer {
    /// The viewer before it has done anything: it holds nothing and is about to enter raw mode.
    pub open spec fn initial() -> Viewer {
        Viewer {
            step: Step::Acquiring(Resource::RawMode),
            session: ViewerSession {
                raw_mode: false,
                alternate_screen: false,
                mouse_capture: false,
                cursor_hidden: false,
                last_tick: 0,
            },
            failed: false,
        }
    }

    /// The stage of the viewer's life.
    pub open spec fn spec_phase(&self) -> Phase {
        match self.step {
            Step::Acquiring(_) => Phase::Initializing,
            Step::Drawing { .. } => Phase::Running,
            Step::Polling => Phase::Running,
            Step::Releasing(_) => Phase::ShuttingDown,
            Step::Terminated => Phase::Terminated,
        }
    }

    /// The action that the viewer waits for at the time `now`.
    pub open spec fn pending_action(self, now: u64) -> Action {
        match self.step {
            Step::Acquiring(resource) => Action::Acquire(resource),
            Step::Drawing { requery_size } => Action::Draw { requery_size },
            Step::Polling => Action::Poll {
                timeout_millis: time_until_tick(self.session.last_tick, now),
            },
            Step::Releasing(resource) => Action::Release(resource),
            Step::Terminated => Action::Exit { failed: self.failed },
        }
    }

    /// The viewer on its way out: it gives back what it acquired last, or is done where it
    /// holds nothing.
    pub open spec fn shut_down(self) -> Viewer {
        match self.session.last_held() {
            Some(resource) => Viewer { step: Step::Releasing(resource), ..self },
            None => Viewer { step: Step::Terminated, ..self },
        }
    }

    /// The viewer after something failed: it remembers the failure and is on its way out.
    pub open spec fn fail(self) -> Viewer {
        (Viewer { failed: true, ..self }).shut_down()
    }

    /// The viewer about to draw. The tick starts anew at `now` where it was due.
    pub open spec fn redraw(self, requery_size: bool, now: u64) -> Viewer {
        Viewer {
            step: Step::Drawing { requery_size },
            session: ViewerSession {
                last_tick: if elapsed(self.session.last_tick, now) >= TICK_MILLIS {
                    now
                } else {
                    self.session.last_tick
                },
                ..self.session
            },
            ..self
        }
    }

    /// The viewer after `event` at the time `now`. An event that is no answer to what the viewer
    /// waits for changes nothing.
    pub open spec fn next(self, event: Event, now: u64) -> Viewer {
        match (self.step, event) {
            (Step::Acquiring(resource), Event::Done) => match next_resource(resource) {
                Some(following) => Viewer {
                    step: Step::Acquiring(following),
                    session: self.session.with(resource, true),
                    ..self
                },
                None => Viewer {
                    step: Step::Drawing { requery_size: true },
                    session: ViewerSession { last_tick: now, ..self.session.with(resource, true) },
                    ..self
                },
            },
            (Step::Acquiring(_), Event::Failed) => self.fail(),
            (Step::Drawing { .. }, Event::Done) => Viewer { step: Step::Polling, ..self },
            (Step::Drawing { .. }, Event::Failed) => self.fail(),
            (Step::Polling, Event::Key(key)) => if is_quit_key(key) {
                self.shut_down()
            } else {
                self.redraw(false, now)
            },
            (Step::Polling, Event::Resize) => self.redraw(true, now),
            (Step::Polling, Event::Tick) => self.redraw(false, now),
            (Step::Polling, Event::Other) => self.redraw(false, now),
            (Step::Polling, Event::Failed) => self.fail(),
            (Step::Releasing(resource), Event::Done) => (Viewer {
                session: self.session.with(resource, false),
                ..self
            }).shut_down(),
            (Step::Releasing(resource), Event::Failed) => (Viewer {
                session: self.session.with(resource, false),
                failed: true,
                ..self
            }).shut_down(),
            _ => self,
        }
    }

    /// What holds of the viewer in every state that it reaches: while it starts up it holds what
    /// it has acquired so far; while it runs it holds everything; on its way out it gives back
    /// what it acquired last; at the end it holds nothing.
    pub open spec fn valid(self) -> bool {
        match self.step {
            Step::Acquiring(resource) => self.session.holds_all_before(resource) && !self.failed,
            Step::Drawing { .. } => self.session.holds_all(),
            Step::Polling => self.session.holds_all(),
            Step::Releasing(resource) => self.session.is_nested() && self.session.last_held()
                == Some(resource),
            Step::Terminated => self.session.is_released(),
        }
    }

    /// A viewer that has not yet touched the terminal. Its first action is pending.
    pub fn new() -> (viewer: Viewer)
        ensures
            viewer == Viewer::initial(),
    {
        Viewer {
            step: Step::Acquiring(Resource::RawMode),
            session: ViewerSession {
                raw_mode: false,
                alternate_screen: false,
                mouse_capture: false,
                cursor_hidden: false,
                last_tick: 0,
            },
            failed: false,
        }
    }

    /// The stage of the viewer's life.
    #[verifier::when_used_as_spec(spec_phase)]
    pub fn phase(&self) -> (phase: Phase)
        ensures
            phase == self.spec_phase(),
    {
        match self.step {
            Step::Acquiring(_) => Phase::Initializing,
            Step::Drawing { .. } => Phase::Running,
            Step::Polling => Phase::Running,
            Step::Releasing(_) => Phase::ShuttingDown,
            Step::Terminated => Phase::Terminated,
        }
    }

    /// The action that the viewer waits for at the time `now`.
    pub fn pending(&self, now: u64) -> (action: Action)
        ensures
            action == self.pending_action(now),
    {
        match self.step {
            Step::Acquiring(resource) => Action::Acquire(resource),
            Step::Drawing { requery_size } => Action::Draw { requery_size },
            Step::Polling => Action::Poll {
                timeout_millis: poll_timeout(self.session.last_tick, now),
            },
            Step::Releasing(resource) => Action::Release(resource),
            Step::Terminated => Action::Exit { failed: self.failed },
        }
    }

    /// Starts to give the terminal back.
    fn begin_shut_down(&mut self)
        ensures
            *final(self) == old(self).shut_down(),
    {
        match self.session.latest() {
            Some(resource) => {
                self.step = Step::Releasing(resource);
            },
            None => {
                self.step = Step::Terminated;
            },
        }
    }

    /// Gets ready to draw, and starts the tick anew where it was due.
    fn begin_redraw(&mut self, requery_size: bool, now: u64)
        ensures
            *final(self) == old(self).redraw(requery_size, now),
    {
        if poll_timeout(self.session.last_tick, now) == 0 {
            self.session.last_tick = now;
        }
        self.step = Step::Drawing { requery_size };
    }

    /// Takes what came of the pending action, at the time `now`, and gives the action to carry
    /// out next. An event that is no answer to the pending action changes nothing, and the
    /// action stays pending.
    pub fn step(&mut self, event: Event, now: u64) -> (action: Action)
        ensures
            *final(self) == old(self).next(event, now),
            action == final(self).pending_action(now),
    {
        match (self.step, event) {
            (Step::Acquiring(resource), Event::Done) => {
                self.session.set(resource, true);
                match resource {
                    Resource::RawMode => {
                        self.step = Step::Acquiring(Resource::AlternateScreen);
                    },
                    Resource::AlternateScreen => {
                        self.step = Step::Acquiring(Resource::MouseCapture);
                    },
                    Resource::MouseCapture => {
                        self.step = Step::Acquiring(Resource::HiddenCursor);
                    },
                    Resource::HiddenCursor => {
                        self.session.last_tick = now;
                        self.step = Step::Drawing { requery_size: true };
                    },
                }
            },
            (Step::Acquiring(_), Event::Failed) => {
                self.failed = true;
                self.begin_shut_down();
            },
            (Step::Drawing { .. }, Event::Done) => {
                self.step = Step::Polling;
            },
            (Step::Drawing { .. }, Event::Failed) => {
                self.failed = true;
                self.begin_shut_down();
            },
            (Step::Polling, Event::Key(key)) => {
                if is_quit(key) {
                    self.begin_shut_down();
                } else {
                    self.begin_redraw(false, now);
                }
            },
            (Step::Polling, Event::Resize) => {
                self.begin_redraw(true, now);
            },
            (Step::Polling, Event::Tick) => {
                self.begin_redraw(false, now);
            },
            (Step::Polling, Event::Other) => {
                self.begin_redraw(false, now);
            },
            (Step::Polling, Event::Failed) => {
                self.failed = true;
                self.begin_shut_down();
            },
            (Step::Releasing(resource), Event::Done) => {
                self.session.set(resource, false);
                self.begin_shut_down();
            },
            (Step::Releasing(resource), Event::Failed) => {
                self.session.set(resource, false);
                self.failed = true;
                self.begin_shut_down();
            },
            _ => {},
        }
        self.pending(now)
    }
}

/// Whether the key ends the viewer.
pub fn is_quit(key: Key) -> (quit: bool)
    ensures
        quit == is_quit_key(key),
{
    match key {
        Key::Char(c) => c == 'q',
        Key::Esc => true,
        Key::Other => false,
    }
}

/// The time that is left until the next tick is due.
pub fn poll_timeout(last_tick: u64, now: u64) -> (timeout: u64)
    ensures
        timeout == time_until_tick(last_tick, now),
        timeout <= TICK_MILLIS,
{
    let passed = if now >= last_tick {
        now - last_tick
    } else {
        0
    };
    if passed >= TICK_MILLIS {
        0
    } else {
        TICK_MILLIS - passed
    }
}

impl ViewerSession {
    /// Notes that the resource is held, or that it is not.
    fn set(&mut self, resource: Resource, held: bool)
        ensures
            *final(self) == old(self).with(resource, held),
    {
        match resource {
            Resource::RawMode => {
                self.raw_mode = held;
            },
            Resource::AlternateScreen => {
                self.alternate_screen = held;
            },
            Resource::MouseCapture => {
                self.mouse_capture = held;
            },
            Resource::HiddenCursor => {
                self.cursor_hidden = held;
            },
        }
    }

    /// The resource to give back next.
    fn latest(&self) -> (resource: Option<Resource>)
        ensures
            resource == self.last_held(),
    {
        if self.cursor_hidden {
            Some(Resource::HiddenCursor)
        } else if self.mouse_capture {
            Some(Resource::MouseCapture)
        } else if self.alternate_screen {
            Some(Resource::AlternateScreen)
        } else if self.raw_mode {
            Some(Resource::RawMode)
        } else {
            None
        }
    }
}

/// A new viewer is in a valid state, at the start of its life, and holds nothing.
pub proof fn lemma_initial_is_valid()
    ensures
        Viewer::initial().valid(),
        Viewer::initial().spec_phase() == Phase::Initializing,
        Viewer::initial().session.is_released(),
{
}

/// Every event leaves a valid viewer valid.
pub proof fn lemma_next_keeps_valid(viewer: Viewer, event: Event, now: u64)
    requires
        viewer.valid(),
    ensures
        viewer.next(event, now).valid(),
{
}

/// A viewer that has ended holds nothing of the terminal, and a running viewer holds everything.
pub proof fn lemma_phase_tells_what_is_held(viewer: Viewer)
    requires
        viewer.valid(),
    ensures
        viewer.spec_phase() == Phase::Terminated ==> viewer.session.is_released(),
        viewer.spec_phase() == Phase::Running ==> viewer.session.holds_all(),
        viewer.pending_action(0) is Exit <==> viewer.spec_phase() == Phase::Terminated,
{
}

/// The viewer moves through the stages of its life in one direction: it never returns to an
/// earlier one, and once it has ended it stays so.
pub proof fn lemma_phases_only_advance(viewer: Viewer, event: Event, now: u64)
    ensures
        phase_rank(viewer.spec_phase()) <= phase_rank(viewer.next(event, now).spec_phase()),
        viewer.spec_phase() == Phase::Terminated ==> viewer.next(event, now) == viewer,
{
}

/// The place of a phase in the viewer's life.
pub open spec fn phase_rank(phase: Phase) -> nat {
    match phase {
        Phase::Initializing => 0,
        Phase::Running => 1,
        Phase::ShuttingDown => 2,
        Phase::Terminated => 3,
    }
}

/// A failure is never forgotten: once something has failed, the viewer says so to the end.
pub proof fn lemma_failure_is_kept(viewer: Viewer, event: Event, now: u64)
    ensures
        viewer.failed ==> viewer.next(event, now).failed,
        event == Event::Failed && viewer.spec_phase() != Phase::Terminated ==> viewer.next(
            event,
            now,
        ).failed,
{
}

/// While the viewer waits for input, a quit key is the only input that ends the run, and it
/// leads straight to the release of what was acquired last. Every other input leads to one
/// redraw.
pub proof fn lemma_input_while_running(viewer: Viewer, event: Event, now: u64)
    requires
        viewer.valid(),
        viewer.step == Step::Polling,
        event != Event::Failed,
        event != Event::Done,
    ensures
        (event matches Event::Key(key) && is_quit_key(key)) ==> {
            &&& viewer.next(event, now).spec_phase() == Phase::ShuttingDown
            &&& viewer.next(event, now).pending_action(now) == Action::Release(
                Resource::HiddenCursor,
            )
            &&& viewer.next(event, now).failed == viewer.failed
        },
        !(event matches Event::Key(key) && is_quit_key(key)) ==> {
            &&& viewer.next(event, now).pending_action(now) == (Action::Draw {
                requery_size: event == Event::Resize,
            })
            &&& viewer.next(event, now).next(Event::Done, now).step == Step::Polling
        },
{
}

/// Every answer to a release, good or bad, takes the resource out of the session and leaves
/// one resource less to give back. What is held is given back in the reverse of the order in
/// which it was acquired, and the viewer ends when nothing is left.
pub proof fn lemma_release_makes_progress(viewer: Viewer, event: Event, now: u64)
    requires
        viewer.valid(),
        viewer.spec_phase() == Phase::ShuttingDown,
        event == Event::Done || event == Event::Failed,
    ensures
        viewer.step matches Step::Releasing(resource) && {
            let after = viewer.next(event, now);
            &&& viewer.session.holds(resource)
            &&& !after.session.holds(resource)
            &&& after.session.held_count() + 1 == viewer.session.held_count()
            &&& after.session.is_released() <==> after.spec_phase() == Phase::Terminated
            &&& !after.session.is_released() ==> after.spec_phase() == Phase::ShuttingDown
            &&& forall|other: Resource|
                next_resource(other) == Some(resource) ==> after.step == Step::Releasing(other)
        },
{
}

/// Once the viewer is on its way out, four answers are enough to end it, whatever they are:
/// then the terminal is as it was found.
pub proof fn lemma_shut_down_ends(
    viewer: Viewer,
    first: Event,
    second: Event,
    third: Event,
    fourth: Event,
    now: u64,
)
    requires
        viewer.valid(),
        viewer.spec_phase() == Phase::ShuttingDown,
        first == Event::Done || first == Event::Failed,
        second == Event::Done || second == Event::Failed,
        third == Event::Done || third == Event::Failed,
        fourth == Event::Done || fourth == Event::Failed,
    ensures
        ({
            let end = viewer.next(first, now).next(second, now).next(third, now).next(fourth, now);
            &&& end.spec_phase() == Phase::Terminated
            &&& end.session.is_released()
        }),
{
}

} // verus!
