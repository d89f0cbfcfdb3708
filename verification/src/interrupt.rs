use vstd::prelude::*;

verus! {

/// The two interrupt lines that the bus reports to the processor: the
/// maskable, level-sensitive `irq` and the non-maskable `nmi`.
#[derive(Debug, Copy, Clone, PartialEq, Eq, Structural)]
pub struct Interrupt {
    pub irq: bool,
    pub nmi: bool,
}

impl Interrupt {
    /// No line is raised.
    pub fn none() -> (signal: Self)
        ensures
            signal == (Interrupt { irq: false, nmi: false }),
    {
        Self { irq: false, nmi: false }
    }

    /// Only the maskable line is raised.
    pub fn irq() -> (signal: Self)
        ensures
            signal == (Interrupt { irq: true, nmi: false }),
    {
        Self { irq: true, nmi: false }
    }

    /// Only the non-maskable line is raised.
    pub fn nmi() -> (signal: Self)
        ensures
            signal == (Interrupt { irq: false, nmi: true }),
    {
        Self { irq: false, nmi: true }
    }

    pub fn is_irq(&self) -> (raised: bool)
        ensures
            raised == self.irq,
    {
        self.irq
    }

    pub fn is_nmi(&self) -> (raised: bool)
        ensures
            raised == self.nmi,
    {
        self.nmi
    }

    /// Line by line disjunction of two signals.
    pub open spec fn join(self, other: Self) -> Self {
        Interrupt { irq: self.irq || other.irq, nmi: self.nmi || other.nmi }
    }

    /// Combines two signals: a line is raised if either raises it.
    pub fn or(self, other: Self) -> (signal: Self)
        ensures
            signal == self.join(other),
    {
        Self { irq: self.irq || other.irq, nmi: self.nmi || other.nmi }
    }

    /// `or` is associative and commutative, and `none` is its unit.
    pub proof fn lemma_join_monoid(a: Self, b: Self, c: Self)
        ensures
            a.join(b).join(c) == a.join(b.join(c)),
            a.join(b) == b.join(a),
            a.join(Interrupt { irq: false, nmi: false }) == a,
            a.join(a) == a,
    {
    }
}

impl Default for Interrupt {
    fn default() -> (signal: Self)
        ensures
            signal == (Interrupt { irq: false, nmi: false }),
    {
        Self::none()
    }
}

} // verus!
