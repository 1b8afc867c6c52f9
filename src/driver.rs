//! The two-phase optimisation driver as a state machine: it decides which phase
//! runs next and with what parameters, while the phases themselves run outside.
//! Also the log of improving solutions kept during exploration.
use vstd::prelude::*;

verus! {

/// Where the driver stands; each phase waits for the event that ends it.
#[derive(Clone, Copy, Debug, PartialEq, Eq, Structural)]
pub enum Phase {
    Init,
    Constructing,
    Restoring,
    Exploring,
    Compressing,
    Reporting,
    Finished,
}

/// What the driver hands to its environment, which reports back by an [`Event`].
#[derive(Clone, Copy, Debug, PartialEq, Eq, Structural)]
pub enum Action {
    /// Build a starting solution by construction.
    Construct,
    /// Restore the supplied initial solution.
    Restore,
    /// Run the exploration phase under a timeout, with the doubled symmetry axis if any.
    Explore { time_limit: u64, axis_x2: Option<i64> },
    /// Run the compression phase on the exploration's handoff.
    Compress { time_limit: u64, axis_x2: Option<i64> },
    /// Report the final solution to the listener.
    ReportFinal,
}

#[derive(Clone, Copy, Debug, PartialEq, Eq, Structural)]
pub enum Event {
    Start,
    /// A starting solution is ready; its strip has this width.
    StartReady { strip_width: i64 },
    ExplorationDone,
    CompressionDone,
    Reported,
}

#[derive(Clone, Copy, Debug, PartialEq, Eq, Structural)]
pub struct DriverConfig {
    pub exploration_time: u64,
    pub compression_time: u64,
    pub symmetric: bool,
    pub warm_start: bool,
}

/// The symmetry axis of a strip in symmetric mode, else none. The axis stands at
/// half the width and is given doubled, so it is the width itself.
pub open spec fn axis_for(symmetric: bool, strip_width: i64) -> Option<i64> {
    if symmetric {
        Some(strip_width)
    } else {
        None
    }
}

pub fn symmetric_axis(symmetric: bool, strip_width: i64) -> (a: Option<i64>)
    ensures
        a == axis_for(symmetric, strip_width),
{
    if symmetric {
        Some(strip_width)
    } else {
        None
    }
}

pub struct Driver {
    pub phase: Phase,
    pub config: DriverConfig,
    /// The doubled symmetry axis, fixed once the starting solution is known.
    pub axis_x2: Option<i64>,
}

/// The transition table: the next phase, axis and action for an event, or
/// `None` where the event does not belong to the current phase.
pub open spec fn transition(d: &Driver, ev: Event) -> Option<(Phase, Option<i64>, Action)> {
    match (d.phase, ev) {
        (Phase::Init, Event::Start) => if d.config.warm_start {
            Some((Phase::Restoring, d.axis_x2, Action::Restore))
        } else {
            Some((Phase::Constructing, d.axis_x2, Action::Construct))
        },
        (Phase::Constructing, Event::StartReady { strip_width })
        | (Phase::Restoring, Event::StartReady { strip_width }) => {
            let axis = axis_for(d.config.symmetric, strip_width);
            Some((Phase::Exploring, axis, Action::Explore { time_limit: d.config.exploration_time, axis_x2: axis }))
        },
        (Phase::Exploring, Event::ExplorationDone) => Some(
            (Phase::Compressing, d.axis_x2, Action::Compress { time_limit: d.config.compression_time, axis_x2: d.axis_x2 }),
        ),
        (Phase::Compressing, Event::CompressionDone) => Some((Phase::Reporting, d.axis_x2, Action::ReportFinal)),
        (Phase::Reporting, Event::Reported) => Some((Phase::Finished, d.axis_x2, Action::ReportFinal)),
        _ => None,
    }
}

impl Driver {
    pub fn new(config: DriverConfig) -> (d: Driver)
        ensures
            d.phase == Phase::Init,
            d.config == config,
            d.axis_x2.is_none(),
    {
        Driver { phase: Phase::Init, config, axis_x2: None }
    }

    /// Advances on an event. Returns the next action, or `None` when the run is
    /// over or the event does not belong to the current phase (then nothing changes).
    pub fn step(&mut self, ev: Event) -> (a: Option<Action>)
        ensures
            final(self).config == old(self).config,
            match transition(old(self), ev) {
                Some((p, axis, act)) => {
                    &&& final(self).phase == p
                    &&& final(self).axis_x2 == axis
                    &&& a == (if p == Phase::Finished { None } else { Some(act) })
                },
                None => {
                    &&& final(self).phase == old(self).phase
                    &&& final(self).axis_x2 == old(self).axis_x2
                    &&& a.is_none()
                },
            },
    {
        match (self.phase, ev) {
            (Phase::Init, Event::Start) => {
                if self.config.warm_start {
                    self.phase = Phase::Restoring;
                    Some(Action::Restore)
                } else {
                    self.phase = Phase::Constructing;
                    Some(Action::Construct)
                }
            },
            (Phase::Constructing, Event::StartReady { strip_width })
            | (Phase::Restoring, Event::StartReady { strip_width }) => {
                let axis = symmetric_axis(self.config.symmetric, strip_width);
                self.axis_x2 = axis;
                self.phase = Phase::Exploring;
                Some(Action::Explore { time_limit: self.config.exploration_time, axis_x2: axis })
            },
            (Phase::Exploring, Event::ExplorationDone) => {
                self.phase = Phase::Compressing;
                Some(Action::Compress { time_limit: self.config.compression_time, axis_x2: self.axis_x2 })
            },
            (Phase::Compressing, Event::CompressionDone) => {
                self.phase = Phase::Reporting;
                Some(Action::ReportFinal)
            },
            (Phase::Reporting, Event::Reported) => {
                self.phase = Phase::Finished;
                None
            },
            _ => None,
        }
    }
}

/// What decides whether one solution improves on another.
#[derive(Clone, Copy, Debug, PartialEq, Eq, Structural)]
pub struct SolutionScore {
    pub strip_height: u64,
    pub n_placed: u64,
}

/// `a` is strictly better than `b`: a lower strip, or as high with more items.
pub open spec fn better(a: SolutionScore, b: SolutionScore) -> bool {
    a.strip_height < b.strip_height || (a.strip_height == b.strip_height && a.n_placed > b.n_placed)
}

pub fn is_better(a: SolutionScore, b: SolutionScore) -> (r: bool)
    ensures
        r == better(a, b),
{
    a.strip_height < b.strip_height || (a.strip_height == b.strip_height && a.n_placed > b.n_placed)
}

/// The solutions emitted during exploration, in order; the last one is handed
/// on to compression.
pub struct ImprovementLog {
    pub solutions: Vec<SolutionScore>,
}

impl ImprovementLog {
    /// Each solution is strictly better than the one before it.
    pub open spec fn wf(&self) -> bool {
        forall|i: int| 0 < i < self.solutions@.len() ==> #[trigger] better(self.solutions@[i], self.solutions@[i - 1])
    }

    pub fn new() -> (l: ImprovementLog)
        ensures
            l.wf(),
            l.solutions@.len() == 0,
    {
        ImprovementLog { solutions: Vec::new() }
    }

    /// Records `s` when the log is empty or `s` beats its last entry; returns
    /// whether it was recorded.
    pub fn offer(&mut self, s: SolutionScore) -> (accepted: bool)
        requires
            old(self).wf(),
        ensures
            final(self).wf(),
            accepted == (old(self).solutions@.len() == 0 || better(s, old(self).solutions@.last())),
            final(self).solutions@ == (if accepted {
                old(self).solutions@.push(s)
            } else {
                old(self).solutions@
            }),
    {
        let n = self.solutions.len();
        let accepted = n == 0 || is_better(s, self.solutions[n - 1]);
        if accepted {
            self.solutions.push(s);
        }
        accepted
    }

    /// The solution handed on to compression: the last one recorded.
    pub fn handoff(&self) -> (r: Option<SolutionScore>)
        ensures
            r == (if self.solutions@.len() == 0 {
                None
            } else {
                Some(self.solutions@.last())
            }),
    {
        let n = self.solutions.len();
        if n == 0 {
            None
        } else {
            Some(self.solutions[n - 1])
        }
    }
}

/// Every solution in a well-formed log is strictly better than every earlier one.
pub proof fn lemma_log_strictly_improving(log: &ImprovementLog, i: int, j: int)
    requires
        log.wf(),
        0 <= i < j < log.solutions@.len(),
    ensures
        better(log.solutions@[j], log.solutions@[i]),
    decreases j - i,
{
    assert(better(log.solutions@[j], log.solutions@[j - 1]));
    if j - 1 > i {
        lemma_log_strictly_improving(log, i, j - 1);
    }
}

} // verus!
