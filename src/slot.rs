use vstd::prelude::*;

verus! {

/// A queue of capacity one between two pipeline stages. The producer never
/// waits: an item offered while the slot is occupied is dropped.
pub struct SingleSlot<T> {
    item: Option<T>,
}

impl<T> View for SingleSlot<T> {
    type V = Option<T>;

    closed spec fn view(&self) -> Option<T> {
        self.item
    }
}

impl<T> SingleSlot<T> {
    /// An empty slot.
    pub fn new() -> (r: Self)
        ensures
            r@ is None,
    {
        SingleSlot { item: None }
    }

    /// Admits `item` when the slot is empty and drops it otherwise; returns
    /// whether it was admitted.
    pub fn offer(&mut self, item: T) -> (admitted: bool)
        ensures
            admitted == old(self)@ is None,
            admitted ==> final(self)@ == Some(item),
            !admitted ==> final(self)@ == old(self)@,
    {
        if self.item.is_some() {
            false
        } else {
            self.item = Some(item);
            true
        }
    }

    /// Removes and returns the buffered item, if any.
    pub fn take(&mut self) -> (r: Option<T>)
        ensures
            r == old(self)@,
            final(self)@ is None,
    {
        let r = self.item.take();
        r
    }

    /// Whether an item is buffered.
    pub fn is_occupied(&self) -> (r: bool)
        ensures
            r == self@ is Some,
    {
        self.item.is_some()
    }
}

/// An operation at a stage boundary: the producer offers an item, or the
/// consumer takes one if there is one.
#[derive(Clone, Copy, Debug, PartialEq, Eq, Structural)]
pub enum SlotEvent {
    Produce,
    Consume,
}

/// Whether the slot is occupied after the events, starting empty.
pub open spec fn occupied_after(events: Seq<SlotEvent>) -> bool
    decreases events.len(),
{
    if events.len() == 0 {
        false
    } else {
        match events.last() {
            SlotEvent::Produce => true,
            SlotEvent::Consume => false,
        }
    }
}

/// The number of offered items that the slot admitted.
pub open spec fn admitted_count(events: Seq<SlotEvent>) -> nat
    decreases events.len(),
{
    if events.len() == 0 {
        0
    } else {
        let before = events.drop_last();
        admitted_count(before) + if events.last() == SlotEvent::Produce && !occupied_after(
            before,
        ) {
            1nat
        } else {
            0nat
        }
    }
}

/// The number of items that the consumer took.
pub open spec fn consumed_count(events: Seq<SlotEvent>) -> nat
    decreases events.len(),
{
    if events.len() == 0 {
        0
    } else {
        let before = events.drop_last();
        consumed_count(before) + if events.last() == SlotEvent::Consume && occupied_after(before) {
            1nat
        } else {
            0nat
        }
    }
}

/// The number of items that the producer offered.
pub open spec fn produced_count(events: Seq<SlotEvent>) -> nat
    decreases events.len(),
{
    if events.len() == 0 {
        0
    } else {
        produced_count(events.drop_last()) + if events.last() == SlotEvent::Produce {
            1nat
        } else {
            0nat
        }
    }
}

/// Load shedding is bounded: whatever the order in which items are produced and
/// taken, every admitted item is either consumed or the one buffered item, so
/// at most one item beyond those consumed is ever held, and no more items are
/// admitted than produced.
pub proof fn lemma_load_shedding_bound(events: Seq<SlotEvent>)
    ensures
        admitted_count(events) == consumed_count(events) + if occupied_after(events) {
            1nat
        } else {
            0nat
        },
        consumed_count(events) <= admitted_count(events) <= consumed_count(events) + 1,
        admitted_count(events) <= produced_count(events),
    decreases events.len(),
{
    if events.len() > 0 {
        lemma_load_shedding_bound(events.drop_last());
    }
}

} // verus!
