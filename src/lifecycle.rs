use vstd::prelude::*;
use crate::error_handler::{RenderError, RenderErrorPolicy};

verus! {

/// The current state of the renderer.
#[derive(Debug)]
pub enum RenderState {
    /// No usable device yet: the startup schedule runs in this state.
    Initializing,
    /// Everything is fine and the render schedule runs every frame.
    Ready,
    /// A fault was captured, and the error handler decides what to do.
    Errored(RenderError),
    /// The device is being recreated; waiting for the new resources.
    Reinitializing,
}

/// The work outside the state machine that a dispatched state calls for.
#[derive(Clone, Copy, Debug, PartialEq, Eq, Structural)]
pub enum PassWork {
    /// Run the startup schedule against the render store.
    RunStartup,
    Nothing,
    /// Ask the error handler for a policy, and begin acquisition if it
    /// chooses recovery.
    ConsultHandler,
    /// Try to take newly created resources and install them in both stores.
    PollResources,
}

/// What the work of a pass reported back.
#[derive(Clone, Copy, Debug, PartialEq, Eq, Structural)]
pub enum PassReport {
    StartupRan,
    Idle,
    /// The handler's decision; for `Recover`, acquisition has begun.
    Decided(RenderErrorPolicy),
    /// Whether resources were taken from the slot and installed.
    ResourcesPolled(bool),
}

pub open spec fn work_of(s: RenderState) -> PassWork {
    match s {
        RenderState::Initializing => PassWork::RunStartup,
        RenderState::Ready => PassWork::Nothing,
        RenderState::Errored(_) => PassWork::ConsultHandler,
        RenderState::Reinitializing => PassWork::PollResources,
    }
}

/// The state that a pass dispatches on: a fault overrides whatever was there.
pub open spec fn dispatched(s: RenderState, fault: Option<RenderError>) -> RenderState {
    match fault {
        Some(e) => RenderState::Errored(e),
        None => s,
    }
}

/// The state that dispatch installs, if it installs one.
pub open spec fn installed(s: RenderState, report: PassReport) -> Option<RenderState> {
    match (s, report) {
        (RenderState::Initializing, PassReport::StartupRan) => Some(RenderState::Ready),
        (RenderState::Errored(_), PassReport::Decided(RenderErrorPolicy::Ignore)) => Some(
            RenderState::Ready,
        ),
        (RenderState::Errored(_), PassReport::Decided(RenderErrorPolicy::Recover(_))) => Some(
            RenderState::Reinitializing,
        ),
        (RenderState::Reinitializing, PassReport::ResourcesPolled(true)) => Some(
            RenderState::Initializing,
        ),
        _ => None,
    }
}

/// The state at rest after dispatch: the installed one, or else the
/// dispatched state put back unchanged.
pub open spec fn settled(s: RenderState, report: PassReport) -> RenderState {
    match installed(s, report) {
        Some(n) => n,
        None => s,
    }
}

/// One full pass of the state machine over a frame.
pub open spec fn frame(s: RenderState, fault: Option<RenderError>, report: PassReport) -> RenderState {
    settled(dispatched(s, fault), report)
}

impl RenderState {
    /// The outside work that dispatching on this state calls for.
    pub fn work(&self) -> (r: PassWork)
        ensures
            r == work_of(*self),
    {
        match self {
            RenderState::Initializing => PassWork::RunStartup,
            RenderState::Ready => PassWork::Nothing,
            RenderState::Errored(_) => PassWork::ConsultHandler,
            RenderState::Reinitializing => PassWork::PollResources,
        }
    }

    /// The error of an `Errored` state.
    pub fn error(&self) -> (r: Option<&RenderError>)
        ensures
            match *self {
                RenderState::Errored(e) => r == Some(&e),
                _ => r is None,
            },
    {
        match self {
            RenderState::Errored(e) => Some(e),
            _ => None,
        }
    }
}

/// The render store's slot for the state.
///
/// It holds one state at rest; it is empty only between the two halves of a
/// pass, while the state is dispatched on.
pub struct RenderLifecycle {
    state: Option<RenderState>,
}

impl View for RenderLifecycle {
    type V = Option<RenderState>;

    closed spec fn view(&self) -> Option<RenderState> {
        self.state
    }
}

impl RenderLifecycle {
    /// A renderer that has just started.
    pub fn new() -> (r: Self)
        ensures
            r@ == Some(RenderState::Initializing),
    {
        RenderLifecycle { state: Some(RenderState::Initializing) }
    }

    /// Whether a pass has begun and not finished.
    pub fn in_pass(&self) -> (r: bool)
        ensures
            r == self@ is None,
    {
        self.state.is_none()
    }

    /// The state at rest.
    pub fn current(&self) -> (r: &RenderState)
        requires
            self@ is Some,
        ensures
            *r == self@.unwrap(),
    {
        self.state.as_ref().unwrap()
    }

    /// The first half of a pass: a polled fault replaces the state, which is
    /// then taken out of the slot to be dispatched on.
    pub fn begin_pass(&mut self, fault: Option<RenderError>) -> (taken: RenderState)
        requires
            old(self)@ is Some,
        ensures
            taken == dispatched(old(self)@.unwrap(), fault),
            final(self)@ is None,
    {
        let state = self.state.take().unwrap();
        match fault {
            Some(e) => RenderState::Errored(e),
            None => state,
        }
    }

    /// The second half of a pass: installs the state that the reported work
    /// leads to, or puts the taken state back unchanged.
    pub fn finish_pass(&mut self, taken: RenderState, report: PassReport)
        requires
            old(self)@ is None,
        ensures
            final(self)@ == Some(settled(taken, report)),
    {
        let next = match (taken, report) {
            (RenderState::Initializing, PassReport::StartupRan) => RenderState::Ready,
            (RenderState::Errored(_), PassReport::Decided(RenderErrorPolicy::Ignore)) => {
                RenderState::Ready
            },
            (RenderState::Errored(_), PassReport::Decided(RenderErrorPolicy::Recover(_))) => {
                RenderState::Reinitializing
            },
            (RenderState::Reinitializing, PassReport::ResourcesPolled(true)) => {
                RenderState::Initializing
            },
            (s, _) => s,
        };
        self.state = Some(next);
    }
}

} // verus!

verus! {

/// The render store's slot after one full pass.
pub open spec fn pass_store(
    store: Option<RenderState>,
    fault: Option<RenderError>,
    report: PassReport,
) -> Option<RenderState> {
    match store {
        Some(s) => Some(frame(s, fault, report)),
        None => None,
    }
}

/// The render store's slot after a run of passes, one per frame.
pub open spec fn run_store(
    store: Option<RenderState>,
    frames: Seq<(Option<RenderError>, PassReport)>,
) -> Option<RenderState>
    decreases frames.len(),
{
    if frames.len() == 0 {
        store
    } else {
        let (fault, report) = frames.last();
        pass_store(run_store(store, frames.drop_last()), fault, report)
    }
}

/// A store that holds a state holds exactly one after every pass, whatever
/// faults arrive and whatever the outside work reports.
pub proof fn lemma_state_always_present(s: RenderState, frames: Seq<(Option<RenderError>, PassReport)>)
    ensures
        run_store(Some(s), frames) is Some,
    decreases frames.len(),
{
    if frames.len() > 0 {
        lemma_state_always_present(s, frames.drop_last());
    }
}

/// The state after `n` frames with no fault in which acquisition has not
/// completed.
pub open spec fn waiting(s: RenderState, n: nat) -> RenderState
    decreases n,
{
    if n == 0 {
        s
    } else {
        frame(waiting(s, (n - 1) as nat), None, PassReport::ResourcesPolled(false))
    }
}

/// Choosing recovery leads to `Reinitializing`. The renderer stays there,
/// reaching no other state, for as long as acquisition has not completed and
/// no fault arrives; on the frame at which the new resources are installed it
/// reaches `Initializing`, and `Ready` on the frame after.
pub proof fn lemma_recovery_completes(
    s: RenderState,
    fault: Option<RenderError>,
    creation: crate::settings::RenderCreation,
    waits: nat,
)
    requires
        dispatched(s, fault) is Errored,
    ensures
        frame(s, fault, PassReport::Decided(RenderErrorPolicy::Recover(creation)))
            == RenderState::Reinitializing,
        waiting(RenderState::Reinitializing, waits) == RenderState::Reinitializing,
        frame(waiting(RenderState::Reinitializing, waits), None, PassReport::ResourcesPolled(true))
            == RenderState::Initializing,
        frame(RenderState::Initializing, None, PassReport::StartupRan) == RenderState::Ready,
    decreases waits,
{
    if waits > 0 {
        lemma_recovery_completes(s, fault, creation, (waits - 1) as nat);
    }
}

} // verus!
