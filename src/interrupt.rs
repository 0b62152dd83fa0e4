use vstd::prelude::*;

verus! {

/// The process-wide cancellation signal. Each raise is numbered; a receipt
/// remembers how many raises had happened when it was taken, and fires on the
/// first raise after that, once.
pub struct InterruptBus {
    raises: u64,
    pending: bool,
}

/// One listener's subscription to the bus.
pub struct Receipt {
    seen: u64,
    consumed: bool,
}

impl Receipt {
    /// The number of raises that had happened when the receipt was taken.
    pub closed spec fn seen(&self) -> nat {
        self.seen as nat
    }

    /// The receipt has already reported its raise.
    pub closed spec fn consumed(&self) -> bool {
        self.consumed
    }
}

impl InterruptBus {
    /// The number of raises so far.
    pub closed spec fn raises(&self) -> nat {
        self.raises as nat
    }

    /// A raise has happened since the last reset.
    pub closed spec fn pending(&self) -> bool {
        self.pending
    }

    /// Whether a receipt has a raise to report.
    pub open spec fn fires(&self, r: &Receipt) -> bool {
        !r.consumed() && self.raises() > r.seen()
    }

    pub fn new() -> (r: InterruptBus)
        ensures
            r.raises() == 0,
            !r.pending(),
    {
        InterruptBus { raises: 0, pending: false }
    }

    /// Whether another raise can be counted.
    pub fn can_raise(&self) -> (r: bool)
        ensures
            r == (self.raises() < u64::MAX),
    {
        self.raises < u64::MAX
    }

    /// Notifies every current subscriber that the cycle must abort.
    pub fn raise(&mut self)
        requires
            old(self).raises() < u64::MAX,
        ensures
            final(self).raises() == old(self).raises() + 1,
            final(self).pending(),
    {
        self.raises = self.raises + 1;
        self.pending = true;
    }

    /// Clears the pending state between cycles; receipts already taken keep
    /// the raises they have not reported.
    pub fn reset(&mut self)
        ensures
            final(self).raises() == old(self).raises(),
            !final(self).pending(),
    {
        self.pending = false;
    }

    pub fn is_pending(&self) -> (r: bool)
        ensures
            r == self.pending(),
    {
        self.pending
    }

    /// A fresh receipt: it fires on the next raise, not on any earlier one.
    pub fn subscribe(&self) -> (r: Receipt)
        ensures
            r.seen() == self.raises(),
            !r.consumed(),
            !self.fires(&r),
    {
        Receipt { seen: self.raises, consumed: false }
    }

    /// Reports whether a raise reached `r` since it was taken, at most once:
    /// after a `true` the receipt is spent.
    pub fn take(&self, r: &mut Receipt) -> (fired: bool)
        ensures
            fired == self.fires(old(r)),
            final(r).seen() == old(r).seen(),
            final(r).consumed() == (old(r).consumed() || fired),
            !self.fires(final(r)) || !fired,
    {
        if !r.consumed && self.raises > r.seen {
            r.consumed = true;
            true
        } else {
            false
        }
    }
}

} // verus!
