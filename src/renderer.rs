use vstd::prelude::*;

verus! {

/// A single-shot slot for render resources that are created asynchronously.
///
/// It is created empty, filled once by the routine that acquires the device,
/// and emptied once by the state machine. Once its content has been taken it
/// is never filled again: each attempt at (re)initialization gets a new slot.
/// Callers share it behind a lock.
pub struct ResourceSlot<T> {
    value: Option<T>,
    consumed: bool,
}

/// The plain value of a [`ResourceSlot`].
pub struct ResourceSlotView<T> {
    pub value: Option<T>,
    /// Whether a content has been taken out of it.
    pub consumed: bool,
}

impl<T> View for ResourceSlot<T> {
    type V = ResourceSlotView<T>;

    closed spec fn view(&self) -> ResourceSlotView<T> {
        ResourceSlotView { value: self.value, consumed: self.consumed }
    }
}

impl<T> ResourceSlot<T> {
    pub fn new() -> (r: Self)
        ensures
            r@.value is None,
            !r@.consumed,
    {
        ResourceSlot { value: None, consumed: false }
    }

    /// Whether the resources have arrived and not been taken.
    pub fn is_populated(&self) -> (r: bool)
        ensures
            r == self@.value is Some,
    {
        self.value.is_some()
    }

    /// Whether the slot may still be filled.
    pub fn can_populate(&self) -> (r: bool)
        ensures
            r == (self@.value is None && !self@.consumed),
    {
        self.value.is_none() && !self.consumed
    }

    /// Fills the slot with the acquired resources.
    pub fn populate(&mut self, resources: T)
        requires
            old(self)@.value is None,
            !old(self)@.consumed,
        ensures
            final(self)@.value == Some(resources),
            !final(self)@.consumed,
    {
        self.value = Some(resources);
    }

    /// Takes the resources out, leaving the slot empty for good.
    pub fn take(&mut self) -> (r: Option<T>)
        ensures
            r == old(self)@.value,
            final(self)@.value is None,
            final(self)@.consumed == (old(self)@.consumed || old(self)@.value is Some),
    {
        let r = self.value.take();
        if r.is_some() {
            self.consumed = true;
        }
        r
    }
}

/// What a look at the simulation store's resource slot found.
#[derive(Clone, Copy, Debug, PartialEq, Eq, Structural)]
pub enum SlotProbe {
    /// No slot: no device was ever needed.
    Absent,
    /// The slot's lock is held, by the routine that fills it.
    Busy,
    /// The lock was taken without waiting; whether the slot was filled.
    Locked { populated: bool },
}

/// Whether the renderer may finish its setup: there is no slot, or its lock
/// was taken without waiting and it is filled. A busy lock means not yet,
/// but not failed either.
pub fn resources_ready(probe: SlotProbe) -> (r: bool)
    ensures
        r == (probe == SlotProbe::Absent || probe == SlotProbe::Locked { populated: true }),
{
    match probe {
        SlotProbe::Absent => true,
        SlotProbe::Busy => false,
        SlotProbe::Locked { populated } => populated,
    }
}

} // verus!
