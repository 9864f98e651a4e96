//! The rotating playback controller.
//!
//! [`RotationController`] owns the ordered, non-empty list of resolved
//! source URLs, the index of the source currently playing, and a model of
//! the playback backend it drives.  It is a pure state machine: every
//! operation returns the list of [`BackendCommand`]s that the embedding
//! event loop must apply to the real pipeline, in order and as a single
//! uninterruptible unit, before dispatching anything else.  The controller's
//! ghost mirror of the backend advances in lockstep with those commands, so
//! the contracts tie what the controller believes to what it asked for.
//!
//! Lifecycle: the controller is created playing its first source
//! ([`RotationController::initialize`]), advances cyclically through the
//! sources on timer ticks ([`RotationController::on_timer_tick`]), requests
//! shutdown exactly once when the backend reports end-of-stream or an error
//! ([`RotationController::on_backend_event`]), and releases the backend on
//! [`RotationController::teardown`], which is idempotent.

use vstd::arithmetic::div_mod::lemma_add_mod_noop_right;
use vstd::arithmetic::div_mod::lemma_mod_bound;
use vstd::arithmetic::div_mod::lemma_mod_multiples_vanish;
use vstd::arithmetic::div_mod::lemma_small_mod;
use vstd::prelude::*;

verus! {

/// The fixed interval, in seconds, at which the embedding event loop fires
/// `on_timer_tick` when rotation is enabled.
pub const ROTATION_INTERVAL_SECONDS: u32 = 10;

/// The backend states the controller drives the pipeline through.
#[derive(Clone, Copy, Debug, PartialEq, Eq, Structural)]
pub enum BackendState {
    /// Fully released; no resources held.
    Null,
    /// Stopped but loaded: the intermediate state during a source switch.
    Ready,
    /// Actively playing the current target.
    Playing,
}

/// One instruction to the embedding program: apply it to the real backend.
#[derive(Debug, PartialEq, Eq)]
pub enum BackendCommand {
    /// Set the backend's target to this URL.
    SetTarget(String),
    /// Request this backend state.
    SetState(BackendState),
}

/// An asynchronous notification from the playback backend.
#[derive(Debug, PartialEq, Eq)]
pub enum BackendEvent {
    /// The stream ended normally.
    EndOfStream,
    /// The pipeline failed; the payload is the diagnostic detail.
    Error(String),
    /// Anything else the backend emits; ignored.
    Other,
}

/// Whether the controller is still driving the backend or has released it.
/// The transient loading and switching steps happen inside a single
/// dispatch and are never observable between calls.
#[derive(Clone, Copy, Debug, PartialEq, Eq, Structural)]
pub enum Phase {
    /// Between `initialize` and `teardown`: the backend is playing.
    Playing,
    /// After `teardown`: the backend has been released.
    Terminated,
}

/// The controller's model of the backend: the target URL it was last given
/// and the state it was last asked to reach.
#[verifier::ext_equal]
pub struct BackendMirror {
    pub target: Option<Seq<char>>,
    pub state: BackendState,
}

/// The mathematical state of a controller: the source URLs as sequences of
/// characters, the current index, the phase, the one-shot lifecycle signal,
/// whether a backend error was observed, and the backend mirror.
#[verifier::ext_equal]
pub struct ControllerModel {
    pub sources: Seq<Seq<char>>,
    pub index: int,
    pub phase: Phase,
    pub shutdown: bool,
    pub failed: bool,
    pub backend: BackendMirror,
}

/// What one command does to the backend mirror.
pub open spec fn apply_command(m: BackendMirror, c: BackendCommand) -> BackendMirror {
    match c {
        BackendCommand::SetTarget(url) => BackendMirror { target: Some(url@), ..m },
        BackendCommand::SetState(s) => BackendMirror { state: s, ..m },
    }
}

/// What a command sequence, applied in order, does to the backend mirror:
/// all but the last command, then the last.
pub open spec fn apply_commands(m: BackendMirror, cs: Seq<BackendCommand>) -> BackendMirror
    decreases cs.len(),
{
    if cs.len() == 0 {
        m
    } else {
        apply_command(apply_commands(m, cs.drop_last()), cs.last())
    }
}

/// A backend not yet touched: no target, fully released.
pub open spec fn detached_backend() -> BackendMirror {
    BackendMirror { target: None, state: BackendState::Null }
}

/// The index the rotation visits after `i` among `n` sources.
pub open spec fn next_index(i: int, n: int) -> int {
    (i + 1) % n
}

/// An event that ends the session: end-of-stream or a pipeline error.
pub open spec fn terminal_event(e: BackendEvent) -> bool {
    e is EndOfStream || e is Error
}

/// Well-formedness: at least one source, the index in range, and the
/// backend mirror consistent with the phase — while playing, the backend's
/// target is the current source; after teardown it is released.
pub open spec fn model_wf(m: ControllerModel) -> bool {
    &&& m.sources.len() >= 1
    &&& 0 <= m.index < m.sources.len()
    &&& (m.phase is Playing ==> m.backend.state is Playing && m.backend.target == Some(
        m.sources[m.index],
    ))
    &&& (m.phase is Terminated ==> m.backend.state is Null)
}

/// The model of a freshly initialized controller over `sources`: index 0,
/// backend targeted at the first source and playing, no shutdown requested.
pub open spec fn spec_initialize(sources: Seq<Seq<char>>) -> ControllerModel {
    ControllerModel {
        sources,
        index: 0,
        phase: Phase::Playing,
        shutdown: false,
        failed: false,
        backend: BackendMirror { target: Some(sources[0]), state: BackendState::Playing },
    }
}

/// The model after one timer tick: the index advances cyclically and the
/// backend is retargeted at the new source and plays again.
pub open spec fn spec_tick(m: ControllerModel) -> ControllerModel {
    let next = next_index(m.index, m.sources.len() as int);
    ControllerModel {
        index: next,
        backend: BackendMirror { target: Some(m.sources[next]), state: BackendState::Playing },
        ..m
    }
}

/// The model after a backend event.  A terminal event sets the lifecycle
/// signal and, for an error, records the failure.  Once the signal is set
/// every further event is a no-op, and non-terminal events always are.
pub open spec fn spec_on_event(m: ControllerModel, e: BackendEvent) -> ControllerModel {
    if m.shutdown || !terminal_event(e) {
        m
    } else {
        ControllerModel { shutdown: true, failed: e is Error, ..m }
    }
}

/// The model after teardown: terminated, with the backend released.
pub open spec fn spec_teardown(m: ControllerModel) -> ControllerModel {
    ControllerModel {
        phase: Phase::Terminated,
        backend: BackendMirror { state: BackendState::Null, ..m.backend },
        ..m
    }
}

/// What the controller tells the event loop after dispatching a backend
/// event: whether to stop the loop now, and an error detail to surface on
/// the diagnostic channel, if the event was an error that ended the session.
pub struct EventOutcome {
    pub quit: bool,
    pub detail: Option<String>,
}

/// The rotating playback controller.  See the module documentation.
pub struct RotationController {
    sources: Vec<String>,
    index: usize,
    phase: Phase,
    shutdown: bool,
    failed: bool,
    backend: Ghost<BackendMirror>,
}

impl View for RotationController {
    type V = ControllerModel;

    closed spec fn view(&self) -> ControllerModel {
        ControllerModel {
            sources: self.sources.deep_view(),
            index: self.index as int,
            phase: self.phase,
            shutdown: self.shutdown,
            failed: self.failed,
            backend: self.backend@,
        }
    }
}

impl RotationController {
    /// Well-formedness of the controller: see [`model_wf`].
    pub open spec fn wf(&self) -> bool {
        model_wf(self@)
    }

    /// More than one source is configured, so the rotation timer is armed.
    pub open spec fn rotating(&self) -> bool {
        self@.sources.len() > 1
    }

    /// Creates the controller over a non-empty source list and returns it
    /// together with the commands that start playback: target the first
    /// source, then play.  Applied to a detached backend they produce
    /// exactly the state the controller's mirror records.
    pub fn initialize(sources: Vec<String>) -> (r: (RotationController, Vec<BackendCommand>))
        requires
            sources@.len() >= 1,
        ensures
            r.0.wf(),
            r.0@ == spec_initialize(sources.deep_view()),
            r.1@.len() == 2,
            r.1@[0] matches BackendCommand::SetTarget(url) && url@ == sources.deep_view()[0],
            r.1@[1] == BackendCommand::SetState(BackendState::Playing),
            r.0@.backend == apply_commands(detached_backend(), r.1@),
    {
        let first = sources[0].clone();
        let controller = RotationController {
            sources,
            index: 0,
            phase: Phase::Playing,
            shutdown: false,
            failed: false,
            backend: Ghost(
                BackendMirror { target: Some(first@), state: BackendState::Playing },
            ),
        };
        let mut commands: Vec<BackendCommand> = Vec::new();
        commands.push(BackendCommand::SetTarget(first));
        let ghost targeted = commands@;
        commands.push(BackendCommand::SetState(BackendState::Playing));
        proof {
            reveal_with_fuel(apply_commands, 3);
            assert(controller@ =~= spec_initialize(controller.sources.deep_view()));
            assert(commands@.drop_last() =~= targeted);
            assert(targeted.drop_last() =~= Seq::<BackendCommand>::empty());
            assert(apply_commands(detached_backend(), commands@) =~= controller@.backend);
        }
        (controller, commands)
    }

    /// The number of configured sources.
    pub fn source_count(&self) -> (n: usize)
        ensures
            n == self@.sources.len(),
    {
        self.sources.len()
    }

    /// The index of the source currently playing.
    pub fn current_index(&self) -> (i: usize)
        ensures
            i == self@.index,
    {
        self.index
    }

    /// The URL of the source currently playing.
    pub fn current_source(&self) -> (url: &String)
        requires
            self.wf(),
        ensures
            url@ == self@.sources[self@.index],
    {
        &self.sources[self.index]
    }

    /// Whether rotation is enabled.  A single-source configuration never
    /// arms the timer: the embedding loop registers the tick callback only
    /// when this returns true.
    pub fn rotation_enabled(&self) -> (r: bool)
        ensures
            r == self.rotating(),
    {
        self.sources.len() > 1
    }

    /// Whether the controller still drives the backend (teardown not yet
    /// performed).
    pub fn active(&self) -> (r: bool)
        ensures
            r == (self@.phase is Playing),
    {
        match self.phase {
            Phase::Playing => true,
            Phase::Terminated => false,
        }
    }

    /// Whether the one-shot lifecycle signal has been set.
    pub fn shutdown_requested(&self) -> (r: bool)
        ensures
            r == self@.shutdown,
    {
        self.shutdown
    }

    /// Whether the session is ending cleanly: true unless a backend error
    /// was observed.  The embedding program exits non-zero when this is
    /// false.
    pub fn clean(&self) -> (r: bool)
        ensures
            r == !self@.failed,
    {
        !self.failed
    }

    /// One timer tick: advances the index cyclically and returns the switch
    /// sequence — stop to ready, retarget, play — which the event loop
    /// applies as one uninterruptible unit.  The tick fires only while more
    /// than one source is configured and playback is running.
    pub fn on_timer_tick(&mut self) -> (commands: Vec<BackendCommand>)
        requires
            old(self).wf(),
            old(self).rotating(),
            old(self)@.phase is Playing,
        ensures
            final(self).wf(),
            final(self)@ == spec_tick(old(self)@),
            final(self)@.index == next_index(old(self)@.index, old(self)@.sources.len() as int),
            final(self)@.sources == old(self)@.sources,
            commands@.len() == 3,
            commands@[0] == BackendCommand::SetState(BackendState::Ready),
            commands@[1] matches BackendCommand::SetTarget(url) && url@
                == final(self)@.sources[final(self)@.index],
            commands@[2] == BackendCommand::SetState(BackendState::Playing),
            final(self)@.backend == apply_commands(old(self)@.backend, commands@),
    {
        proof {
            assert(self.sources.deep_view().len() == self.sources@.len());
        }
        let n: usize = self.sources.len();
        self.index = (self.index + 1) % n;
        let next_url = self.sources[self.index].clone();
        self.backend = Ghost(
            BackendMirror { target: Some(next_url@), state: BackendState::Playing },
        );
        let mut commands: Vec<BackendCommand> = Vec::new();
        commands.push(BackendCommand::SetState(BackendState::Ready));
        let ghost stopped = commands@;
        commands.push(BackendCommand::SetTarget(next_url));
        let ghost retargeted = commands@;
        commands.push(BackendCommand::SetState(BackendState::Playing));
        proof {
            reveal_with_fuel(apply_commands, 4);
            assert(self@ =~= spec_tick(old(self)@));
            assert(commands@.drop_last() =~= retargeted);
            assert(retargeted.drop_last() =~= stopped);
            assert(stopped.drop_last() =~= Seq::<BackendCommand>::empty());
            assert(apply_commands(old(self)@.backend, commands@) =~= self@.backend);
        }
        commands
    }

    /// Dispatches one backend notification.  End-of-stream and errors set
    /// the lifecycle signal exactly once and ask the loop to stop; an error
    /// additionally surfaces its detail.  Once shutdown has been requested,
    /// any further event is a no-op, and `Other` events always are.
    pub fn on_backend_event(&mut self, event: BackendEvent) -> (outcome: EventOutcome)
        requires
            old(self).wf(),
        ensures
            final(self).wf(),
            final(self)@ == spec_on_event(old(self)@, event),
            outcome.quit == (terminal_event(event) && !old(self)@.shutdown),
            final(self)@.shutdown == (old(self)@.shutdown || terminal_event(event)),
            event matches BackendEvent::Error(detail) ==> (!old(self)@.shutdown ==> (
            outcome.detail matches Some(d) && d@ == detail@)),
            (!(event is Error) || old(self)@.shutdown) ==> outcome.detail is None,
    {
        if self.shutdown {
            return EventOutcome { quit: false, detail: None };
        }
        match event {
            BackendEvent::EndOfStream => {
                self.shutdown = true;
                self.failed = false;
                proof {
                    assert(self@ =~= spec_on_event(old(self)@, event));
                }
                EventOutcome { quit: true, detail: None }
            },
            BackendEvent::Error(detail) => {
                self.shutdown = true;
                self.failed = true;
                proof {
                    assert(self@ =~= spec_on_event(old(self)@, event));
                }
                EventOutcome { quit: true, detail: Some(detail) }
            },
            BackendEvent::Other => EventOutcome { quit: false, detail: None },
        }
    }

    /// Releases the backend: returns the command that drives it to the
    /// fully released state and marks the controller terminated.  Safe to
    /// call at any time, after failures included, and idempotent: a second
    /// call changes nothing and re-issues the same harmless command.
    pub fn teardown(&mut self) -> (commands: Vec<BackendCommand>)
        requires
            old(self).wf(),
        ensures
            final(self).wf(),
            final(self)@ == spec_teardown(old(self)@),
            final(self)@.phase is Terminated,
            commands@.len() == 1,
            commands@[0] == BackendCommand::SetState(BackendState::Null),
            final(self)@.backend == apply_commands(old(self)@.backend, commands@),
    {
        self.phase = Phase::Terminated;
        self.backend = Ghost(
            BackendMirror { state: BackendState::Null, ..self.backend@ },
        );
        let mut commands: Vec<BackendCommand> = Vec::new();
        commands.push(BackendCommand::SetState(BackendState::Null));
        proof {
            reveal_with_fuel(apply_commands, 2);
            assert(self@ =~= spec_teardown(old(self)@));
            assert(commands@.drop_last() =~= Seq::<BackendCommand>::empty());
            assert(apply_commands(old(self)@.backend, commands@) =~= self@.backend);
        }
        commands
    }
}

/// The controller model after `k` timer ticks.
pub open spec fn model_after_ticks(m: ControllerModel, k: nat) -> ControllerModel
    decreases k,
{
    if k == 0 {
        m
    } else {
        spec_tick(model_after_ticks(m, (k - 1) as nat))
    }
}

proof fn lemma_index_after_ticks(m: ControllerModel, k: nat)
    requires
        m.sources.len() >= 1,
        0 <= m.index < m.sources.len(),
    ensures
        model_after_ticks(m, k).index == (m.index + k) % (m.sources.len() as int),
        0 <= model_after_ticks(m, k).index < m.sources.len(),
        model_after_ticks(m, k).sources == m.sources,
        model_after_ticks(m, k).phase == m.phase,
        model_after_ticks(m, k).shutdown == m.shutdown,
        model_after_ticks(m, k).failed == m.failed,
    decreases k,
{
    let n: int = m.sources.len() as int;
    if k == 0 {
        lemma_small_mod(m.index as nat, m.sources.len());
    } else {
        lemma_index_after_ticks(m, (k - 1) as nat);
        lemma_add_mod_noop_right(1, m.index + k - 1, n);
        lemma_mod_bound(m.index + k, n);
    }
}

/// Rotation visits the indices cyclically: over a non-empty source list,
/// `k` ticks take the index from `start` to `(start + k) mod n`, which is
/// always in range, returns to its starting value after every further `n`
/// ticks, and ticking changes nothing but the index and the backend target.
pub proof fn lemma_rotation_cycles(m: ControllerModel, k: nat)
    requires
        m.sources.len() >= 1,
        0 <= m.index < m.sources.len(),
    ensures
        model_after_ticks(m, k).index == (m.index + k) % (m.sources.len() as int),
        0 <= model_after_ticks(m, k).index < m.sources.len(),
        model_after_ticks(m, (k + m.sources.len()) as nat).index == model_after_ticks(
            m,
            k,
        ).index,
        model_after_ticks(m, k).sources == m.sources,
        model_after_ticks(m, k).phase == m.phase,
        model_after_ticks(m, k).shutdown == m.shutdown,
        model_after_ticks(m, k).failed == m.failed,
{
    let n: int = m.sources.len() as int;
    lemma_index_after_ticks(m, k);
    lemma_index_after_ticks(m, (k + m.sources.len()) as nat);
    lemma_mod_multiples_vanish(1, m.index + k, n);
}

/// The lifecycle signal is one-shot: a terminal event sets it, and once it
/// is set every further event — terminal or not — leaves the controller
/// exactly as it was.
pub proof fn lemma_shutdown_is_one_shot(
    m: ControllerModel,
    first: BackendEvent,
    second: BackendEvent,
)
    requires
        terminal_event(first),
    ensures
        spec_on_event(m, first).shutdown,
        spec_on_event(spec_on_event(m, first), second) == spec_on_event(m, first),
{
}

/// Teardown is idempotent: tearing the controller down twice in a row
/// leaves it exactly as one teardown does.
pub proof fn lemma_teardown_idempotent(m: ControllerModel)
    ensures
        spec_teardown(spec_teardown(m)) == spec_teardown(m),
{
}

} // verus!
