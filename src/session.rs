//! The decisions of a preview worker: a state machine from the events the
//! worker observes to the actions it performs next.

use vstd::prelude::*;
use crate::protocol::{empty_parser, feed_spec, frame_view, Command, FrameParser, Line, ParserView};

verus! {

/// Where a preview worker stands.
#[derive(Clone, Copy, Debug, PartialEq, Eq, Structural)]
pub enum Phase {
    /// Created; no process yet, waiting for the first activation.
    Idle,
    /// A process has been asked for.
    Spawning,
    /// The process runs; its output is being read.
    Streaming,
    /// The process ended with success; a new one follows unless cancelled.
    Restarting,
    /// Done; the worker returns.
    Terminated,
}

/// What the worker observed.
pub enum Event {
    /// The cancellation flag, read once the start grace period is over,
    /// or before a restart.
    Checked { cancelled: bool },
    /// The process started and its output is open.
    Spawned,
    /// The process could not be started.
    SpawnFailed,
    /// A message from the control channel.
    Control(Command),
    /// The control channel's sender is gone.
    ChannelClosed,
    /// A line of the process's output.
    Output(Line),
    /// The process ended on its own, or its pipe failed.
    Exited { success: bool },
}

pub enum EventView {
    Checked { cancelled: bool },
    Spawned,
    SpawnFailed,
    Control(Command),
    ChannelClosed,
    Output(Option<Seq<char>>),
    Exited { success: bool },
}

impl View for Event {
    type V = EventView;

    open spec fn view(&self) -> EventView {
        match self {
            Event::Checked { cancelled } => EventView::Checked { cancelled: *cancelled },
            Event::Spawned => EventView::Spawned,
            Event::SpawnFailed => EventView::SpawnFailed,
            Event::Control(c) => EventView::Control(*c),
            Event::ChannelClosed => EventView::ChannelClosed,
            Event::Output(l) => EventView::Output(l@),
            Event::Exited { success } => EventView::Exited { success: *success },
        }
    }
}

/// What the worker is to do next.
pub enum Action {
    /// Nothing; wait for the next event.
    Wait,
    /// Start the process with these toggles, then report `Spawned` or
    /// `SpawnFailed`.
    Spawn { autoplay: bool, mute: bool },
    /// Write the command's line to the process's input.
    Forward(Command),
    /// Kill the process, wait for it to exit, and return.
    KillAndReap,
    /// Replace the shown frame with this one and signal a redraw.
    Install(Vec<String>),
    /// A frame failed to decode: log it; the session goes on.
    DropFrame,
    /// Read the cancellation flag and report it with `Checked`.
    CheckCancellation,
    /// Show that the preview could not start, and return.
    ReportSpawnError,
    /// Return; no process is left.
    Finish,
}

pub enum ActionView {
    Wait,
    Spawn { autoplay: bool, mute: bool },
    Forward(Command),
    KillAndReap,
    Install(Seq<Seq<char>>),
    DropFrame,
    CheckCancellation,
    ReportSpawnError,
    Finish,
}

impl View for Action {
    type V = ActionView;

    open spec fn view(&self) -> ActionView {
        match self {
            Action::Wait => ActionView::Wait,
            Action::Spawn { autoplay, mute } => ActionView::Spawn { autoplay: *autoplay, mute: *mute },
            Action::Forward(c) => ActionView::Forward(*c),
            Action::KillAndReap => ActionView::KillAndReap,
            Action::Install(f) => ActionView::Install(frame_view(*f)),
            Action::DropFrame => ActionView::DropFrame,
            Action::CheckCancellation => ActionView::CheckCancellation,
            Action::ReportSpawnError => ActionView::ReportSpawnError,
            Action::Finish => ActionView::Finish,
        }
    }
}

/// A preview worker: its phase, the toggles it was started with, whether
/// cancellation was seen, whether its process is alive, and the frame
/// being read.
pub struct PreviewLoop {
    pub phase: Phase,
    pub autoplay: bool,
    pub mute: bool,
    pub cancelled: bool,
    pub child_alive: bool,
    pub parser: FrameParser,
}

pub struct LoopView {
    pub phase: Phase,
    pub autoplay: bool,
    pub mute: bool,
    pub cancelled: bool,
    pub child_alive: bool,
    pub parser: ParserView,
}

impl View for PreviewLoop {
    type V = LoopView;

    open spec fn view(&self) -> LoopView {
        LoopView {
            phase: self.phase,
            autoplay: self.autoplay,
            mute: self.mute,
            cancelled: self.cancelled,
            child_alive: self.child_alive,
            parser: self.parser@,
        }
    }
}

/// A process is alive exactly while streaming.
pub open spec fn loop_wf(s: LoopView) -> bool {
    s.child_alive <==> s.phase == Phase::Streaming
}

pub open spec fn with_phase(s: LoopView, phase: Phase, cancelled: bool, child_alive: bool, parser: ParserView) -> LoopView {
    LoopView { phase, autoplay: s.autoplay, mute: s.mute, cancelled, child_alive, parser }
}

/// One event handled. `Quit`, or the loss of the control channel, ends
/// the session, killing and reaping a live process. A success exit leads
/// to a restart with the same toggles unless cancellation is seen; a
/// failure exit ends the session. Once terminated, nothing more is done.
pub open spec fn step_spec(s: LoopView, e: EventView) -> (LoopView, ActionView) {
    if s.phase == Phase::Terminated {
        (s, ActionView::Wait)
    } else {
        match e {
            EventView::Control(Command::Quit) | EventView::ChannelClosed => (
                with_phase(s, Phase::Terminated, s.cancelled, false, empty_parser()),
                if s.child_alive { ActionView::KillAndReap } else { ActionView::Finish },
            ),
            EventView::Checked { cancelled } => if s.phase == Phase::Idle || s.phase == Phase::Restarting {
                if s.cancelled || cancelled {
                    (with_phase(s, Phase::Terminated, true, false, s.parser), ActionView::Finish)
                } else {
                    (with_phase(s, Phase::Spawning, false, false, s.parser),
                     ActionView::Spawn { autoplay: s.autoplay, mute: s.mute })
                }
            } else {
                (s, ActionView::Wait)
            },
            EventView::Spawned => if s.phase == Phase::Spawning {
                (with_phase(s, Phase::Streaming, s.cancelled, true, s.parser), ActionView::Wait)
            } else {
                (s, ActionView::Wait)
            },
            EventView::SpawnFailed => if s.phase == Phase::Spawning {
                (with_phase(s, Phase::Terminated, s.cancelled, false, s.parser), ActionView::ReportSpawnError)
            } else {
                (s, ActionView::Wait)
            },
            EventView::Control(c) => if s.phase == Phase::Streaming {
                (s, ActionView::Forward(c))
            } else {
                (s, ActionView::Wait)
            },
            EventView::Output(l) => if s.phase == Phase::Streaming {
                let fed = feed_spec(s.parser, l);
                (with_phase(s, s.phase, s.cancelled, s.child_alive, fed.0), match fed.1 {
                    Some(Ok(f)) => ActionView::Install(f),
                    Some(Err(_)) => ActionView::DropFrame,
                    None => ActionView::Wait,
                })
            } else {
                (s, ActionView::Wait)
            },
            EventView::Exited { success } => if s.phase == Phase::Streaming {
                if success {
                    (with_phase(s, Phase::Restarting, s.cancelled, false, empty_parser()),
                     ActionView::CheckCancellation)
                } else {
                    (with_phase(s, Phase::Terminated, s.cancelled, false, empty_parser()), ActionView::Finish)
                }
            } else {
                (s, ActionView::Wait)
            },
        }
    }
}

/// The state after `events`, and the actions taken, in order.
pub open spec fn run_spec(s: LoopView, events: Seq<EventView>) -> (LoopView, Seq<ActionView>)
    decreases events.len(),
{
    if events.len() == 0 {
        (s, Seq::empty())
    } else {
        let prev = run_spec(s, events.drop_last());
        let next = step_spec(prev.0, events.last());
        (next.0, prev.1.push(next.1))
    }
}

pub open spec fn initial_loop(autoplay: bool, mute: bool) -> LoopView {
    LoopView { phase: Phase::Idle, autoplay, mute, cancelled: false, child_alive: false, parser: empty_parser() }
}

impl PreviewLoop {
    /// A worker that will start its process with these toggles.
    pub fn new(autoplay: bool, mute: bool) -> (l: PreviewLoop)
        ensures
            l@ == initial_loop(autoplay, mute),
    {
        PreviewLoop { phase: Phase::Idle, autoplay, mute, cancelled: false, child_alive: false, parser: FrameParser::new() }
    }

    /// Handles one event and says what to do next.
    pub fn step(&mut self, event: Event) -> (a: Action)
        ensures
            (final(self)@, a@) == step_spec(old(self)@, event@),
    {
        if self.phase == Phase::Terminated {
            return Action::Wait;
        }
        match event {
            Event::Control(Command::Quit) | Event::ChannelClosed => {
                let alive = self.child_alive;
                self.phase = Phase::Terminated;
                self.child_alive = false;
                self.parser.discard();
                if alive { Action::KillAndReap } else { Action::Finish }
            },
            Event::Checked { cancelled } => {
                if self.phase == Phase::Idle || self.phase == Phase::Restarting {
                    if self.cancelled || cancelled {
                        self.phase = Phase::Terminated;
                        self.cancelled = true;
                        self.child_alive = false;
                        Action::Finish
                    } else {
                        self.phase = Phase::Spawning;
                        self.child_alive = false;
                        Action::Spawn { autoplay: self.autoplay, mute: self.mute }
                    }
                } else {
                    Action::Wait
                }
            },
            Event::Spawned => {
                if self.phase == Phase::Spawning {
                    self.phase = Phase::Streaming;
                    self.child_alive = true;
                }
                Action::Wait
            },
            Event::SpawnFailed => {
                if self.phase == Phase::Spawning {
                    self.phase = Phase::Terminated;
                    self.child_alive = false;
                    Action::ReportSpawnError
                } else {
                    Action::Wait
                }
            },
            Event::Control(c) => {
                if self.phase == Phase::Streaming { Action::Forward(c) } else { Action::Wait }
            },
            Event::Output(l) => {
                if self.phase == Phase::Streaming {
                    match self.parser.feed(l) {
                        Some(Ok(f)) => Action::Install(f),
                        Some(Err(_)) => Action::DropFrame,
                        None => Action::Wait,
                    }
                } else {
                    Action::Wait
                }
            },
            Event::Exited { success } => {
                if self.phase == Phase::Streaming {
                    self.child_alive = false;
                    self.parser.discard();
                    if success {
                        self.phase = Phase::Restarting;
                        Action::CheckCancellation
                    } else {
                        self.phase = Phase::Terminated;
                        Action::Finish
                    }
                } else {
                    Action::Wait
                }
            },
        }
    }
}

/// Feeds `events` to the worker in order and returns the actions it
/// chose, one per event.
pub fn run(session: &mut PreviewLoop, events: Vec<Event>) -> (actions: Vec<Action>)
    ensures
        (final(session)@, actions@.map_values(|a: Action| a@))
            == run_spec(old(session)@, events@.map_values(|e: Event| e@)),
{
    let ghost all = events@.map_values(|e: Event| e@);
    let ghost start = session@;
    let ghost n = events@.len();
    let mut rest = events;
    let mut actions: Vec<Action> = Vec::new();
    let ghost mut i: int = 0;
    while rest.len() > 0
        invariant
            0 <= i <= n,
            rest@.len() == n - i,
            all.len() == n,
            forall|k: int| 0 <= k < rest@.len() ==> #[trigger] rest@[k]@ == all[i + k],
            (session@, actions@.map_values(|a: Action| a@)) == run_spec(start, all.take(i)),
        decreases rest@.len(),
    {
        let e = rest.remove(0);
        proof {
            assert(all.take(i + 1).drop_last() =~= all.take(i));
            assert(all.take(i + 1).last() == e@);
        }
        let ghost old_actions = actions@;
        let a = session.step(e);
        actions.push(a);
        proof {
            assert(actions@.map_values(|a: Action| a@)
                =~= old_actions.map_values(|a: Action| a@).push(a@));
            i = i + 1;
        }
    }
    proof {
        assert(all.take(i) =~= all);
    }
    actions
}

/// Each step keeps a process alive exactly while streaming, and asks for a
/// process only when none is alive: a session never has two.
pub proof fn lemma_step_keeps_wf(s: LoopView, e: EventView)
    requires
        loop_wf(s),
    ensures
        loop_wf(step_spec(s, e).0),
        step_spec(s, e).1 is Spawn ==> !s.child_alive,
{
}

/// Once cancellation is seen it stays seen, and no process is started.
pub proof fn lemma_cancellation_sticks(s: LoopView, e: EventView)
    requires
        s.cancelled,
    ensures
        step_spec(s, e).0.cancelled,
        !(step_spec(s, e).1 is Spawn),
{
}

/// A terminated worker stays as it is and does nothing.
pub proof fn lemma_terminated_inert(s: LoopView, events: Seq<EventView>)
    requires
        s.phase == Phase::Terminated,
    ensures
        run_spec(s, events).0 == s,
        run_spec(s, events).1.len() == events.len(),
        forall|i: int| 0 <= i < events.len() ==> #[trigger] run_spec(s, events).1[i] == ActionView::Wait,
    decreases events.len(),
{
    if events.len() > 0 {
        lemma_terminated_inert(s, events.drop_last());
    }
}

/// `Quit` as the first event ends the session whatever follows: a live
/// process is killed and reaped, no frame is installed, no process is
/// started, and none is left alive.
pub proof fn lemma_quit_ends_session(s: LoopView, events: Seq<EventView>)
    requires
        s.phase != Phase::Terminated,
        events.len() > 0,
        events[0] == EventView::Control(Command::Quit),
    ensures
        run_spec(s, events).0.phase == Phase::Terminated,
        !run_spec(s, events).0.child_alive,
        run_spec(s, events).1.len() == events.len(),
        run_spec(s, events).1[0] == (if s.child_alive { ActionView::KillAndReap } else { ActionView::Finish }),
        forall|i: int| 0 <= i < events.len() ==>
            !(#[trigger] run_spec(s, events).1[i] is Install) && !(run_spec(s, events).1[i] is Spawn),
    decreases events.len(),
{
    if events.len() == 1 {
        assert(events.drop_last() =~= Seq::<EventView>::empty());
        assert(events.last() == events[0]);
    } else {
        let init = events.drop_last();
        assert(init[0] == events[0]);
        lemma_quit_ends_session(s, init);
    }
}

/// A process that exits with success is started again with the same
/// toggles when no cancellation is seen; when it is, the worker ends
/// without starting one.
pub proof fn lemma_success_exit_restarts(s: LoopView, cancelled: bool)
    requires
        s.phase == Phase::Streaming,
    ensures
        ({
            let r = run_spec(s, seq![EventView::Exited { success: true }, EventView::Checked { cancelled }]);
            &&& r.1.len() == 2
            &&& r.1[0] == ActionView::CheckCancellation
            &&& !s.cancelled && !cancelled ==> r.1[1] == (ActionView::Spawn { autoplay: s.autoplay, mute: s.mute })
                && r.0.phase == Phase::Spawning && r.0.autoplay == s.autoplay && r.0.mute == s.mute
            &&& s.cancelled || cancelled ==> r.1[1] == ActionView::Finish
                && r.0.phase == Phase::Terminated && !r.0.child_alive
        }),
{
    let evs = seq![EventView::Exited { success: true }, EventView::Checked { cancelled }];
    let first = evs.drop_last();
    assert(first =~= seq![EventView::Exited { success: true }]);
    assert(first.drop_last() =~= Seq::<EventView>::empty());
    assert(run_spec(s, first.drop_last()) == (s, Seq::<ActionView>::empty()));
    let mid = step_spec(s, EventView::Exited { success: true });
    assert(first.last() == EventView::Exited { success: true });
    assert(run_spec(s, first) == (mid.0, Seq::<ActionView>::empty().push(mid.1)));
    assert(evs.last() == EventView::Checked { cancelled });
    assert(mid.0.phase == Phase::Restarting);
}

/// A process that exits with failure ends the session; none is started.
pub proof fn lemma_failure_exit_terminates(s: LoopView)
    requires
        s.phase == Phase::Streaming,
    ensures
        step_spec(s, EventView::Exited { success: false }).0.phase == Phase::Terminated,
        !step_spec(s, EventView::Exited { success: false }).0.child_alive,
        step_spec(s, EventView::Exited { success: false }).1 == ActionView::Finish,
{
}

} // verus!
