//! The data model: one predicted extremum, and the ordered set of
//! predictions the upstream source returns for the station.

use vstd::prelude::*;

verus! {

/// Whether a predicted extremum is a high or a low tide.
#[derive(Clone, Copy, Debug, PartialEq, Eq, Structural)]
pub enum TideKind {
    High,
    Low,
}

/// One predicted tide extremum.
#[derive(Clone, Copy, Debug, PartialEq, Eq, Structural)]
pub struct TideEvent {
    /// The moment the extremum occurs, in whole minutes of station-local
    /// civil time counted from the Unix epoch (the source predicts to the
    /// minute).
    pub minute: i64,
    /// Water height in hundredths of the source's measurement unit (the
    /// source reports a decimal with two displayed digits).
    pub height_hundredths: i64,
    /// High or low water.
    pub kind: TideKind,
}

/// A sequence of predicted extrema, ordered by ascending timestamp exactly
/// as the upstream source returned them.
#[derive(Debug)]
pub struct TideSet {
    pub events: Vec<TideEvent>,
}

impl View for TideSet {
    type V = Seq<TideEvent>;

    open spec fn view(&self) -> Seq<TideEvent> {
        self.events@
    }
}

impl Clone for TideSet {
    fn clone(&self) -> (res: Self)
        ensures
            res@ == self@,
    {
        let mut events: Vec<TideEvent> = Vec::new();
        let n = self.events.len();
        let mut i: usize = 0;
        while i < n
            invariant
                i <= n,
                n == self.events@.len(),
                events@ =~= self.events@.subrange(0, i as int),
            decreases n - i,
        {
            events.push(self.events[i]);
            i += 1;
        }
        assert(events@ =~= self.events@);
        TideSet { events }
    }
}

impl TideSet {
    /// An empty prediction set.
    pub fn new() -> (s: TideSet)
        ensures
            s@ =~= Seq::<TideEvent>::empty(),
    {
        TideSet { events: Vec::new() }
    }

    /// Appends one predicted extremum.
    pub fn push(&mut self, e: TideEvent)
        ensures
            final(self)@ == old(self)@.push(e),
    {
        self.events.push(e);
    }

    /// The number of predicted extrema.
    pub fn len(&self) -> (n: usize)
        ensures
            n == self@.len(),
    {
        self.events.len()
    }

    /// The extremum at position `i`.
    pub fn event(&self, i: usize) -> (e: TideEvent)
        requires
            i < self@.len(),
        ensures
            e == self@[i as int],
    {
        self.events[i]
    }
}

} // verus!
