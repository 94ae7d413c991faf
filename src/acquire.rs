use vstd::prelude::*;

verus! {

/// What the caller driving an acquisition does next.
#[derive(Clone, Copy, Debug, PartialEq, Eq, Structural)]
pub enum Step {
    /// Every permit asked for has been granted.
    Done,
    /// Register a listener on the semaphore, then poll again.
    Listen,
    /// Suspend on the registered listener until it is notified, then poll again.
    Wait,
}

/// The state of one acquisition, seen as plain numbers.
pub struct AcquireView {
    pub requested: nat,
    pub acquired: nat,
    pub listening: bool,
}

impl AcquireView {
    /// No more is granted than was asked for, and a met request has no
    /// listener outstanding.
    pub open spec fn wf(self) -> bool {
        &&& self.acquired <= self.requested
        &&& self.acquired == self.requested ==> !self.listening
    }

    pub open spec fn remaining(self) -> nat {
        (self.requested - self.acquired) as nat
    }

    pub open spec fn is_complete(self) -> bool {
        self.acquired == self.requested
    }
}

/// The state and the next step after `grant` more permits reached an
/// acquisition in state `v`. A listener is registered before the caller
/// suspends, and the count is tried once more in between, so that permits
/// returned meanwhile are not missed.
pub open spec fn advance_spec(v: AcquireView, grant: nat) -> (AcquireView, Step) {
    let acquired = v.acquired + grant;
    if acquired == v.requested {
        (AcquireView { acquired, listening: false, ..v }, Step::Done)
    } else if !v.listening {
        (AcquireView { acquired, listening: true, ..v }, Step::Listen)
    } else {
        (AcquireView { acquired, listening: false, ..v }, Step::Wait)
    }
}

/// A request for a number of permits that may be met a part at a time.
#[derive(Debug)]
pub struct Acquire {
    requested: usize,
    acquired: usize,
    listening: bool,
}

impl View for Acquire {
    type V = AcquireView;

    closed spec fn view(&self) -> AcquireView {
        AcquireView {
            requested: self.requested as nat,
            acquired: self.acquired as nat,
            listening: self.listening,
        }
    }
}

impl Acquire {
    /// Starts a request for `count` permits, none of them granted yet.
    pub fn new(count: usize) -> (r: Acquire)
        ensures
            r@ == (AcquireView { requested: count as nat, acquired: 0, listening: false }),
            r@.wf(),
    {
        Acquire { requested: count, acquired: 0, listening: false }
    }

    /// The number of permits asked for.
    pub fn requested(&self) -> (r: usize)
        ensures
            r == self@.requested,
    {
        self.requested
    }

    /// The number of permits granted so far.
    pub fn acquired(&self) -> (r: usize)
        ensures
            r == self@.acquired,
    {
        self.acquired
    }

    /// The number of permits still outstanding.
    pub fn remaining(&self) -> (r: usize)
        requires
            self@.wf(),
        ensures
            r == self@.remaining(),
    {
        self.requested - self.acquired
    }

    /// Records that `grant` more permits were obtained and decides the next step.
    pub fn advance(&mut self, grant: usize) -> (s: Step)
        requires
            old(self)@.wf(),
            grant <= old(self)@.remaining(),
        ensures
            (final(self)@, s) == advance_spec(old(self)@, grant as nat),
            final(self)@.wf(),
    {
        self.acquired = self.acquired + grant;
        if self.acquired == self.requested {
            self.listening = false;
            Step::Done
        } else if !self.listening {
            self.listening = true;
            Step::Listen
        } else {
            self.listening = false;
            Step::Wait
        }
    }

    /// Settles an abandoned request. A complete one keeps its permits and is
    /// left as it is (`None`). Otherwise the permits granted so far are
    /// handed back for refunding and the request starts over from nothing,
    /// so that a second settlement refunds nothing more.
    pub fn settle(&mut self) -> (refund: Option<usize>)
        requires
            old(self)@.wf(),
        ensures
            old(self)@.is_complete() ==> refund is None && final(self)@ == old(self)@,
            !old(self)@.is_complete() ==> refund == Some(old(self)@.acquired as usize)
                && final(self)@ == (AcquireView {
                    requested: old(self)@.requested,
                    acquired: 0,
                    listening: false,
                }),
            final(self)@.wf(),
    {
        if self.acquired == self.requested {
            None
        } else {
            let refund = self.acquired;
            self.acquired = 0;
            self.listening = false;
            Some(refund)
        }
    }
}

} // verus!
