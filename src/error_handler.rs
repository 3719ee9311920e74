use vstd::prelude::*;
use crate::settings::RenderCreation;

verus! {

/// The class of a fault reported by the graphics driver.
#[derive(Clone, Copy, Debug, PartialEq, Eq, Structural)]
pub enum ErrorKind {
    DeviceLost,
    OutOfMemory,
    Validation,
    Internal,
}

/// An error encountered during rendering.
#[derive(Debug)]
pub struct RenderError {
    pub ty: ErrorKind,
    pub description: String,
    /// The driver's message for the underlying cause, where it gave one.
    pub source: Option<String>,
}

/// The plain value of a [`RenderError`].
pub struct RenderErrorView {
    pub ty: ErrorKind,
    pub description: Seq<char>,
    pub source: Option<Seq<char>>,
}

pub open spec fn opt_view(s: Option<String>) -> Option<Seq<char>> {
    match s {
        Some(t) => Some(t@),
        None => None,
    }
}

impl View for RenderError {
    type V = RenderErrorView;

    open spec fn view(&self) -> RenderErrorView {
        RenderErrorView { ty: self.ty, description: self.description@, source: opt_view(self.source) }
    }
}

} // verus!

verus! {

/// A fault delivered by the driver's uncaptured-error callback, with the
/// driver's cause already rendered to text.
#[derive(Debug)]
pub enum GpuFault {
    OutOfMemory { source: String },
    Validation { source: String, description: String },
    Internal { source: String, description: String },
}

/// The error that a pending uncaptured fault is reported as.
pub open spec fn fault_error(f: GpuFault) -> RenderErrorView {
    match f {
        GpuFault::OutOfMemory { source } => RenderErrorView {
            ty: ErrorKind::OutOfMemory,
            description: Seq::empty(),
            source: Some(source@),
        },
        GpuFault::Validation { source, description } => RenderErrorView {
            ty: ErrorKind::Validation,
            description: description@,
            source: Some(source@),
        },
        GpuFault::Internal { source, description } => RenderErrorView {
            ty: ErrorKind::Internal,
            description: description@,
            source: Some(source@),
        },
    }
}

/// The error that a pending device loss is reported as.
pub open spec fn lost_error(description: Seq<char>) -> RenderErrorView {
    RenderErrorView { ty: ErrorKind::DeviceLost, description, source: None }
}

/// One notification from the driver.
pub enum CaptureEvent {
    Lost(Seq<char>),
    Uncaptured(RenderErrorView),
}

/// The two single-slot mailboxes of a [`DeviceErrorHandler`], as plain values.
pub struct FaultSlots {
    pub lost: Option<Seq<char>>,
    pub uncaptured: Option<RenderErrorView>,
}

impl FaultSlots {
    pub open spec fn empty() -> FaultSlots {
        FaultSlots { lost: None, uncaptured: None }
    }

    /// A device loss fills its slot; an uncaptured fault fills its slot only
    /// when it is free, so the first one of a poll window is kept.
    pub open spec fn record(self, ev: CaptureEvent) -> FaultSlots {
        match ev {
            CaptureEvent::Lost(d) => FaultSlots { lost: Some(d), ..self },
            CaptureEvent::Uncaptured(e) => FaultSlots {
                uncaptured: if self.uncaptured is Some { self.uncaptured } else { Some(e) },
                ..self
            },
        }
    }

    pub open spec fn record_all(self, evs: Seq<CaptureEvent>) -> FaultSlots
        decreases evs.len(),
    {
        if evs.len() == 0 {
            self
        } else {
            self.record_all(evs.drop_last()).record(evs.last())
        }
    }

    /// What a poll hands out: a device loss before anything else.
    pub open spec fn pending(self) -> Option<RenderErrorView> {
        match self.lost {
            Some(d) => Some(lost_error(d)),
            None => self.uncaptured,
        }
    }
}

pub open spec fn error_opt_view(r: Option<RenderError>) -> Option<RenderErrorView> {
    match r {
        Some(e) => Some(e@),
        None => None,
    }
}

/// Mailboxes filled by the driver's fault callbacks and drained once per frame.
///
/// Each kind of fault has a single slot. Callers share the handler behind a
/// lock, since the driver may notify from a thread of its own.
pub struct DeviceErrorHandler {
    device_lost: Option<String>,
    uncaptured: Option<GpuFault>,
}

impl View for DeviceErrorHandler {
    type V = FaultSlots;

    closed spec fn view(&self) -> FaultSlots {
        FaultSlots {
            lost: opt_view(self.device_lost),
            uncaptured: match self.uncaptured {
                Some(f) => Some(fault_error(f)),
                None => None,
            },
        }
    }
}

impl DeviceErrorHandler {
    /// A handler with no fault pending.
    pub fn new() -> (r: Self)
        ensures
            r@ == FaultSlots::empty(),
    {
        DeviceErrorHandler { device_lost: None, uncaptured: None }
    }

    /// Whether a device loss waits to be polled.
    pub fn has_device_lost(&self) -> (r: bool)
        ensures
            r == self@.lost is Some,
    {
        self.device_lost.is_some()
    }

    /// Records a device loss. The driver reports a loss once and does not
    /// report another before the first has been polled.
    pub fn capture_device_lost(&mut self, description: String)
        requires
            old(self)@.lost is None,
        ensures
            final(self)@ == old(self)@.record(CaptureEvent::Lost(description@)),
    {
        self.device_lost = Some(description);
    }

    /// Records an uncaptured fault, unless one is already pending: the first
    /// fault often causes the later ones, so only it is kept.
    pub fn capture_uncaptured(&mut self, fault: GpuFault)
        ensures
            final(self)@ == old(self)@.record(CaptureEvent::Uncaptured(fault_error(fault))),
    {
        if self.uncaptured.is_none() {
            self.uncaptured = Some(fault);
        }
    }

    /// Drains both slots and returns the pending fault, if any: a device
    /// loss wins over an uncaptured fault, which is then discarded.
    pub fn poll(&mut self) -> (r: Option<RenderError>)
        ensures
            error_opt_view(r) == old(self)@.pending(),
            final(self)@ == FaultSlots::empty(),
    {
        let lost = self.device_lost.take();
        let uncaptured = self.uncaptured.take();
        match lost {
            Some(description) => Some(
                RenderError { ty: ErrorKind::DeviceLost, description, source: None },
            ),
            None => match uncaptured {
                Some(fault) => Some(classify(fault)),
                None => None,
            },
        }
    }
}

/// The error that an uncaptured fault is reported as.
pub fn classify(fault: GpuFault) -> (r: RenderError)
    ensures
        r@ == fault_error(fault),
{
    match fault {
        GpuFault::OutOfMemory { source } => RenderError {
            ty: ErrorKind::OutOfMemory,
            description: String::new(),
            source: Some(source),
        },
        GpuFault::Validation { source, description } => RenderError {
            ty: ErrorKind::Validation,
            description,
            source: Some(source),
        },
        GpuFault::Internal { source, description } => RenderError {
            ty: ErrorKind::Internal,
            description,
            source: Some(source),
        },
    }
}

} // verus!

verus! {

/// The driver reports at most one device loss per poll window.
pub open spec fn lost_at_most_once(evs: Seq<CaptureEvent>) -> bool {
    forall|i: int, j: int|
        0 <= i < evs.len() && 0 <= j < evs.len() && #[trigger] evs[i] is Lost
            && #[trigger] evs[j] is Lost ==> i == j
}

proof fn lemma_lost_slot(evs: Seq<CaptureEvent>)
    requires
        lost_at_most_once(evs),
    ensures
        FaultSlots::empty().record_all(evs).lost is None <==> (forall|k: int|
            0 <= k < evs.len() ==> !(#[trigger] evs[k] is Lost)),
        forall|k: int|
            0 <= k < evs.len() && #[trigger] evs[k] is Lost ==> FaultSlots::empty().record_all(
                evs,
            ).lost == Some(evs[k]->Lost_0),
    decreases evs.len(),
{
    if evs.len() > 0 {
        let prefix = evs.drop_last();
        assert(lost_at_most_once(prefix)) by {
            assert forall|i: int, j: int|
                0 <= i < prefix.len() && 0 <= j < prefix.len() && #[trigger] prefix[i] is Lost
                    && #[trigger] prefix[j] is Lost implies i == j by {
                assert(evs[i] == prefix[i] && evs[j] == prefix[j]);
            }
        }
        lemma_lost_slot(prefix);
        assert forall|k: int| 0 <= k < prefix.len() implies prefix[k] == #[trigger] evs[k] by {}
        if evs.last() is Lost {
            assert(evs[evs.len() - 1] is Lost);
        }
    }
}

proof fn lemma_uncaptured_slot(evs: Seq<CaptureEvent>)
    requires
        evs.len() > 0,
        forall|k: int| 0 <= k < evs.len() ==> !(#[trigger] evs[k] is Lost),
    ensures
        FaultSlots::empty().record_all(evs).uncaptured == Some(evs[0]->Uncaptured_0),
    decreases evs.len(),
{
    assert(evs[0] !is Lost);
    if evs.len() > 1 {
        let prefix = evs.drop_last();
        assert forall|k: int| 0 <= k < prefix.len() implies !(#[trigger] prefix[k] is Lost) by {
            assert(prefix[k] == evs[k]);
        }
        lemma_uncaptured_slot(prefix);
        assert(prefix[0] == evs[0]);
        assert(evs.last() == evs[evs.len() - 1]);
    } else {
        assert(evs.drop_last().len() == 0);
    }
}

/// Within one poll window, a device loss is what the poll hands out, whatever
/// uncaptured faults came before or after it.
pub proof fn lemma_device_lost_first(evs: Seq<CaptureEvent>, i: int)
    requires
        lost_at_most_once(evs),
        0 <= i < evs.len(),
        evs[i] is Lost,
    ensures
        FaultSlots::empty().record_all(evs).pending() == Some(lost_error(evs[i]->Lost_0)),
{
    lemma_lost_slot(evs);
}

/// Within a poll window without a device loss, the poll hands out the first
/// uncaptured fault; the later ones are dropped.
pub proof fn lemma_first_uncaptured_kept(evs: Seq<CaptureEvent>)
    requires
        evs.len() > 0,
        forall|k: int| 0 <= k < evs.len() ==> !(#[trigger] evs[k] is Lost),
    ensures
        FaultSlots::empty().record_all(evs).pending() == Some(evs[0]->Uncaptured_0),
{
    assert(lost_at_most_once(evs));
    lemma_lost_slot(evs);
    lemma_uncaptured_slot(evs);
}

/// After a poll nothing is pending, so a second poll in the same frame hands
/// out nothing.
pub proof fn lemma_poll_drains()
    ensures
        FaultSlots::empty().pending() is None,
        FaultSlots::empty().record_all(Seq::empty()) == FaultSlots::empty(),
{
}

} // verus!

verus! {

/// How the renderer responds to a fault.
#[derive(Clone, Copy, Debug, PartialEq, Eq, Structural)]
pub enum RenderErrorPolicy {
    /// Pretends nothing happened and continues rendering; the fault has
    /// already been logged when it was captured.
    Ignore,
    /// Keeps the app alive but stops rendering: the error state stays, and
    /// the handler is asked again every frame until it decides otherwise.
    StopRendering,
    /// Recreates the render device with the given settings.
    Recover(RenderCreation),
}

/// The policy of a renderer that has no handler of its own: ignore the fault.
pub fn default_policy(_error: &RenderError) -> (r: RenderErrorPolicy)
    ensures
        r == RenderErrorPolicy::Ignore,
{
    RenderErrorPolicy::Ignore
}

} // verus!
