//! A sweep over a list of memory regions: one read after another.
//!
//! The regions are read in order, each once. The first read that is
//! exhausted ends the sweep; nothing is handed out for the regions read
//! before it.

use vstd::prelude::*;
use crate::channel::{Action, Event};
use crate::command::RESET;
use crate::data::plan;
use crate::device::Device;
use crate::error::ProtocolError;
use crate::memory::Memory;
use crate::try_read::{Retry, RetryView};

verus! {

/// A sweep over a list of regions.
pub struct Sweep {
    regions: Vec<Memory>,
    values: Vec<Vec<u8>>,
    read: Option<Retry>,
    exhausted: bool,
}

/// A sweep as the contracts see it: the regions to read, the responses of
/// those that have been read, the read under way, and whether a read was
/// exhausted.
pub struct SweepView {
    pub regions: Seq<Memory>,
    pub values: Seq<Seq<u8>>,
    pub read: Option<RetryView>,
    pub exhausted: bool,
}

/// The responses as sequences of bytes.
pub open spec fn responses(values: Seq<Vec<u8>>) -> Seq<Seq<u8>> {
    values.map_values(|value: Vec<u8>| value@)
}

/// Whether every region can be read: none lies at the address that equals
/// the reset byte.
pub open spec fn readable(regions: Seq<Memory>) -> bool {
    forall|i: int| 0 <= i < regions.len() ==> (#[trigger] regions[i]).address != RESET
}

impl SweepView {
    /// The read that follows `count` completed reads: of the region at
    /// that place, or none when the list is through.
    pub open spec fn read_at(regions: Seq<Memory>, count: int) -> Option<RetryView> {
        if count < regions.len() {
            Some(RetryView::start(regions[count]))
        } else {
            None
        }
    }

    /// The sweep at its start: no region has been read and the read of
    /// the first begins.
    pub open spec fn start(regions: Seq<Memory>) -> SweepView {
        SweepView {
            regions,
            values: Seq::empty(),
            read: Self::read_at(regions, 0),
            exhausted: false,
        }
    }

    /// Every region can be read, there is a response of the region's size
    /// for each region read so far, and the read under way is a running
    /// read of the region that follows them. No read is under way exactly
    /// when a read was exhausted or every region has been read.
    pub open spec fn wf(self) -> bool {
        &&& readable(self.regions)
        &&& self.values.len() <= self.regions.len()
        &&& forall|i: int|
            0 <= i < self.values.len() ==> (#[trigger] self.values[i]).len()
                == self.regions[i].size
        &&& match self.read {
            Some(read) => {
                &&& read.wf()
                &&& !read.finished()
                &&& !self.exhausted
                &&& self.values.len() < self.regions.len()
                &&& read.memory() == self.regions[self.values.len() as int]
            },
            None => self.exhausted || self.values.len() == self.regions.len(),
        }
    }

    /// Whether the sweep has ended.
    pub open spec fn finished(self) -> bool {
        self.read is None
    }

    /// The operation the sweep waits for; none once it has ended.
    pub open spec fn pending(self) -> Option<Action> {
        match self.read {
            Some(read) => read.pending(),
            None => None,
        }
    }

    /// The sweep after the pending operation ended in `event`.
    ///
    /// The event goes to the read under way. When that read ends with a
    /// response, the response is kept and the read of the next region
    /// begins, if there is one. When it is exhausted, so is the sweep. A
    /// sweep that has ended stays as it is.
    pub open spec fn next(self, event: Event) -> SweepView {
        match self.read {
            None => self,
            Some(read) => match read.next(event).outcome() {
                None => SweepView { read: Some(read.next(event)), ..self },
                Some(Ok(response)) => SweepView {
                    values: self.values.push(response),
                    read: Self::read_at(self.regions, self.values.len() as int + 1),
                    ..self
                },
                Some(Err(_)) => SweepView { read: None, exhausted: true, ..self },
            },
        }
    }

    /// How the sweep ended: with a response for every region, in the order
    /// of the regions, or exhausted; `None` while it runs.
    pub open spec fn outcome(self) -> Option<Result<Seq<Seq<u8>>, ProtocolError>> {
        if self.exhausted {
            Some(Err(ProtocolError::ReadExhausted))
        } else if self.read is None {
            Some(Ok(self.values))
        } else {
            None
        }
    }

    /// An upper bound on the number of events the reads of the regions
    /// from place `from` on consume.
    pub open spec fn budget_from(regions: Seq<Memory>, from: int) -> int
        decreases regions.len() - from,
    {
        if 0 <= from < regions.len() {
            RetryView::start(regions[from]).budget() + Self::budget_from(regions, from + 1)
        } else {
            0
        }
    }

    /// An upper bound on the number of events the sweep still consumes.
    pub open spec fn budget(self) -> int {
        match self.read {
            Some(read) => read.budget() + Self::budget_from(
                self.regions,
                self.values.len() as int + 1,
            ),
            None => 0,
        }
    }

    /// The reads of the regions from any place on consume a number of
    /// events that is not negative.
    pub proof fn lemma_budget_from(regions: Seq<Memory>, from: int)
        ensures
            Self::budget_from(regions, from) >= 0,
        decreases regions.len() - from,
    {
        if 0 <= from < regions.len() {
            Self::lemma_budget_from(regions, from + 1);
        }
    }

    /// A well-formed sweep stays well formed and keeps its regions.
    pub proof fn lemma_next_wf(self, event: Event)
        requires
            self.wf(),
        ensures
            self.next(event).wf(),
            self.next(event).regions == self.regions,
    {
        if let Some(read) = self.read {
            read.lemma_next_wf(event);
        }
    }

    /// Every event brings a running sweep closer to its end: the budget is
    /// never negative and each step lowers it.
    pub proof fn lemma_next_progress(self, event: Event)
        requires
            self.wf(),
            !self.finished(),
        ensures
            0 <= self.next(event).budget() < self.budget(),
    {
        let read = self.read->Some_0;
        read.lemma_next_wf(event);
        read.lemma_next_progress(event);
        Self::lemma_budget_from(self.regions, self.values.len() as int + 1);
        Self::lemma_budget_from(self.regions, self.values.len() as int + 2);
    }

    /// The responses are kept: an event adds at most one, the response of
    /// the read it ends, and takes none away. The sweep is exhausted
    /// exactly by an event that exhausts the read under way.
    pub proof fn lemma_next_values(self, event: Event)
        requires
            self.wf(),
            !self.finished(),
        ensures
            self.next(event).values == match self.read->Some_0.next(event).outcome() {
                Some(Ok(response)) => self.values.push(response),
                _ => self.values,
            },
            self.next(event).exhausted <==> self.read->Some_0.next(event).outcome() == Some(
                Err::<Seq<u8>, ProtocolError>(ProtocolError::ReadExhausted),
            ),
    {
        self.read->Some_0.lemma_next_wf(event);
    }

    /// A sweep that ended well holds one response for each region, of the
    /// region's size.
    pub proof fn lemma_outcome(self)
        requires
            self.wf(),
            self.outcome() is Some,
            self.outcome()->Some_0 is Ok,
        ensures
            self.outcome() == Some(Ok::<Seq<Seq<u8>>, ProtocolError>(self.values)),
            self.values.len() == self.regions.len(),
            forall|i: int|
                0 <= i < self.regions.len() ==> (#[trigger] self.values[i]).len()
                    == self.regions[i].size,
    {
    }
}

impl View for Sweep {
    type V = SweepView;

    closed spec fn view(&self) -> SweepView {
        SweepView {
            regions: self.regions@,
            values: responses(self.values@),
            read: match self.read {
                Some(read) => Some(read@),
                None => None,
            },
            exhausted: self.exhausted,
        }
    }
}

impl Sweep {
    /// The sweep is well formed as its view says, and so is the read it
    /// holds.
    pub closed spec fn wf(&self) -> bool {
        &&& self@.wf()
        &&& self.read matches Some(read) ==> read.wf()
    }

    /// A fresh sweep over `regions`.
    ///
    /// No region may lie at the address that equals the reset byte: the
    /// console has no echo for the one-byte command of that address.
    pub fn new(regions: Vec<Memory>) -> (sweep: Sweep)
        requires
            readable(regions@),
        ensures
            sweep.wf(),
            sweep@ == SweepView::start(regions@),
    {
        let read = if regions.len() > 0 {
            Some(Retry::new(&regions[0]))
        } else {
            None
        };
        let sweep = Sweep { regions, values: Vec::new(), read, exhausted: false };
        assert(responses(sweep.values@) == Seq::<Seq<u8>>::empty());
        sweep
    }

    /// The number of regions read so far.
    pub fn completed(&self) -> (count: usize)
        ensures
            count == self@.values.len(),
    {
        self.values.len()
    }

    /// The operation to perform next, or `None` once the sweep has ended.
    pub fn action(&self) -> (action: Option<Action>)
        requires
            self.wf(),
        ensures
            action == self@.pending(),
    {
        match &self.read {
            Some(read) => read.action(),
            None => None,
        }
    }

    /// Ends the sweep and hands out what it came to: the responses, in
    /// the order of the regions, or `ReadExhausted`; `None` if it has not
    /// ended.
    pub fn finish(self) -> (outcome: Option<Result<Vec<Vec<u8>>, ProtocolError>>)
        requires
            self.wf(),
        ensures
            match outcome {
                Some(Ok(values)) => self@.outcome() == Some(
                    Ok::<Seq<Seq<u8>>, ProtocolError>(responses(values@)),
                ),
                Some(Err(error)) => self@.outcome() == Some(
                    Err::<Seq<Seq<u8>>, ProtocolError>(error),
                ),
                None => self@.outcome().is_none(),
            },
    {
        if self.exhausted {
            Some(Err(ProtocolError::ReadExhausted))
        } else if self.read.is_none() {
            Some(Ok(self.values))
        } else {
            None
        }
    }
}

impl Device {
    /// A fresh sweep over the regions of the plan.
    pub fn sweep(&self) -> (sweep: Sweep)
        requires
            self.wf(),
        ensures
            sweep.wf(),
            sweep@ == SweepView::start(plan(self.memory)),
    {
        Sweep::new(self.plan())
    }

    /// Advances a sweep by the outcome of its pending operation.
    pub fn read_all(state: Sweep, event: Event) -> (next: Sweep)
        requires
            state.wf(),
        ensures
            next.wf(),
            next@ == state@.next(event),
    {
        let ghost before = state@;
        proof {
            before.lemma_next_wf(event);
        }
        let Sweep { regions, values, read, exhausted } = state;
        match read {
            None => Sweep { regions, values, read: None, exhausted },
            Some(read) => {
                let read = Device::try_read(read, event);
                if !read.ended() {
                    Sweep { regions, values, read: Some(read), exhausted }
                } else {
                    match read.finish() {
                        Some(Ok(response)) => {
                            let mut values = values;
                            let ghost kept = values@;
                            values.push(response);
                            assert(responses(values@) == responses(kept).push(response@));
                            let read = if values.len() < regions.len() {
                                Some(Retry::new(&regions[values.len()]))
                            } else {
                                None
                            };
                            Sweep { regions, values, read, exhausted }
                        },
                        _ => Sweep { regions, values, read: None, exhausted: true },
                    }
                }
            },
        }
    }
}

} // verus!
