//! Which answer may still be shown.
//!
//! Requests of one kind share a slot. Each request gets a handle when it is
//! issued, and its outcome is handed to the slot together with that handle
//! when it arrives. Only the outcome of the request issued last is passed
//! on, and only once; every other outcome is dropped without a word. The
//! order in which outcomes arrive plays no part.

use vstd::prelude::*;

verus! {

/// The receipt for one issued request.
#[derive(Clone, Copy, Debug, PartialEq, Eq, Structural)]
pub struct Handle {
    ticket: u64,
}

impl Handle {
    /// The number under which the request was issued.
    pub closed spec fn ticket(self) -> int {
        self.ticket as int
    }
}

/// What became of an outcome that arrived.
#[derive(Debug)]
pub enum Delivery<T> {
    /// The outcome belongs to the request issued last: act on it.
    Apply(T),
    /// The outcome belongs to a request that is no longer awaited.
    Dropped,
}

/// Where a request stands.
#[derive(Clone, Copy, Debug, PartialEq, Eq, Structural)]
pub enum Progress {
    /// Its outcome is awaited and will be passed on.
    Pending,
    /// Its outcome has arrived and was passed on.
    Complete,
    /// It is not the request issued last: its outcome is dropped on arrival.
    Superseded,
}

/// What a slot knows.
pub ghost struct SlotView {
    /// How many requests were issued; the last one bears this number.
    pub issued: int,
    /// Whether nothing is awaited: the last request's outcome has arrived,
    /// or none was issued yet.
    pub settled: bool,
}

impl SlotView {
    /// A slot on which nothing was issued.
    pub open spec fn idle() -> SlotView {
        SlotView { issued: 0, settled: true }
    }

    /// The slot after one more request was issued.
    pub open spec fn submitted(self) -> SlotView {
        SlotView { issued: self.issued + 1, settled: false }
    }

    /// True when the outcome of the request with this number is awaited.
    pub open spec fn awaits(self, ticket: int) -> bool {
        ticket == self.issued && !self.settled
    }

    /// The slot after an outcome arrived for the request with this number.
    pub open spec fn delivered(self, ticket: int) -> SlotView {
        if self.awaits(ticket) {
            SlotView { settled: true, ..self }
        } else {
            self
        }
    }

    /// Where the request with this number stands.
    pub open spec fn progress(self, ticket: int) -> Progress {
        if ticket != self.issued {
            Progress::Superseded
        } else if self.settled {
            Progress::Complete
        } else {
            Progress::Pending
        }
    }
}

/// What became of `outcome`, which arrived for the request with this number.
pub open spec fn delivery<T>(slot: SlotView, ticket: int, outcome: T) -> Delivery<T> {
    if slot.awaits(ticket) {
        Delivery::Apply(outcome)
    } else {
        Delivery::Dropped
    }
}

/// The slot of one kind of request.
pub struct Slot {
    issued: u64,
    settled: bool,
}

impl View for Slot {
    type V = SlotView;

    closed spec fn view(&self) -> SlotView {
        SlotView { issued: self.issued as int, settled: self.settled }
    }
}

impl Slot {
    /// True while the slot can number one more request.
    pub open spec fn has_room(&self) -> bool {
        0 <= self@.issued < u64::MAX
    }

    /// A slot on which nothing was issued.
    pub fn new() -> (slot: Self)
        ensures
            slot@ == SlotView::idle(),
            slot.has_room(),
    {
        Slot { issued: 0, settled: true }
    }

    /// Tells whether the slot can number one more request.
    pub fn can_submit(&self) -> (b: bool)
        ensures
            b == self.has_room(),
    {
        self.issued < u64::MAX
    }

    /// Issues a request. From now on only its outcome is awaited: every
    /// request issued before is superseded.
    pub fn submit(&mut self) -> (handle: Handle)
        requires
            old(self).has_room(),
        ensures
            final(self)@ == old(self)@.submitted(),
            handle.ticket() == final(self)@.issued,
            final(self)@.awaits(handle.ticket()),
    {
        self.issued = self.issued + 1;
        self.settled = false;
        Handle { ticket: self.issued }
    }

    /// Takes the outcome that arrived for a request. It is passed on if the
    /// request is the one issued last and nothing arrived for it before;
    /// otherwise it is dropped and the slot stays as it is.
    pub fn deliver<T>(&mut self, handle: Handle, outcome: T) -> (d: Delivery<T>)
        ensures
            final(self)@ == old(self)@.delivered(handle.ticket()),
            d == delivery(old(self)@, handle.ticket(), outcome),
    {
        if handle.ticket == self.issued && !self.settled {
            self.settled = true;
            Delivery::Apply(outcome)
        } else {
            Delivery::Dropped
        }
    }

    /// Tells where a request stands.
    pub fn progress(&self, handle: Handle) -> (p: Progress)
        ensures
            p == self@.progress(handle.ticket()),
    {
        if handle.ticket != self.issued {
            Progress::Superseded
        } else if self.settled {
            Progress::Complete
        } else {
            Progress::Pending
        }
    }
}

/// Of two requests issued one after the other, only the second is ever
/// passed on, whichever outcome arrives first, and it is passed on once.
pub proof fn lemma_last_request_wins<T>(slot: SlotView, first: T, second: T)
    ensures
        ({
            let a = slot.submitted().issued;
            let both = slot.submitted().submitted();
            let b = both.issued;
            &&& delivery(both, a, first) == Delivery::<T>::Dropped
            &&& delivery(both.delivered(a), b, second) == Delivery::Apply(second)
            &&& delivery(both, b, second) == Delivery::Apply(second)
            &&& delivery(both.delivered(b), a, first) == Delivery::<T>::Dropped
            &&& both.delivered(a).delivered(b) == both.delivered(b).delivered(a)
            &&& delivery(both.delivered(b), b, second) == Delivery::<T>::Dropped
        }),
{
}

/// Once a request has been issued, nothing of any request issued before it
/// is passed on, whatever else is issued or arrives in between.
pub proof fn lemma_superseded_stays_dropped<T>(slot: SlotView, later: SlotView, ticket: int, outcome: T)
    requires
        ticket < slot.issued <= later.issued,
    ensures
        delivery(later, ticket, outcome) == Delivery::<T>::Dropped,
        later.delivered(ticket) == later,
        later.progress(ticket) == Progress::Superseded,
{
}

} // verus!
