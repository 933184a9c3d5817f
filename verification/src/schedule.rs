use vstd::prelude::*;
use crate::progress::ProgressData;

verus! {

/// The next thing the GPU driver loop has to do.
#[derive(Debug, Clone, Copy, PartialEq, Eq, Structural)]
pub enum DevelopAction {
    /// Second-order runs only: one first-order step from the initial state,
    /// rotate the state buffers, then renormalise.
    PreDevelop,
    /// Develop step `index`, rotate the state buffers, renormalise when
    /// `normalize`, and publish `index` as the current step when `report`.
    Develop { index: u64, normalize: bool, report: bool },
    /// All steps are done: publish that the run is finished.
    Finish,
}

/// Where an annealing run stands: which step comes next, the last progress
/// percentage, and the progress published so far.
#[derive(Debug, Clone, Copy)]
pub struct DevelopSchedule {
    /// First-order (linear) development; otherwise second-order.
    pub linear: bool,
    pub total_step: u64,
    pub norm_interval: u64,
    /// Whether the second-order warm-up step is behind us.
    pub pre_developed: bool,
    pub next_index: u64,
    /// Percentage of the last developed step (0 before any).
    pub ratio: u8,
    pub finished: bool,
    pub progress: ProgressData,
}

/// The schedule of a fresh run.
pub open spec fn spec_new(linear: bool, total_step: u64, norm_interval: u64) -> DevelopSchedule {
    DevelopSchedule {
        linear,
        total_step,
        norm_interval,
        pre_developed: linear,
        next_index: first_index(linear) as u64,
        ratio: 0,
        finished: false,
        progress: ProgressData { total_step, current_step: 0, is_finished: false },
    }
}

/// The whole-number percentage of the run that step `i` stands at.
pub open spec fn percent(i: int, total: int) -> int {
    (i * 100) / total
}

/// The first step index of the development loop.
pub open spec fn first_index(linear: bool) -> int {
    if linear {
        0
    } else {
        1
    }
}

/// Whether `i * 100` can be formed for every step index `i` of the run.
pub open spec fn steps_fit(total_step: u64) -> bool {
    total_step == 0 || (total_step - 1) * 100 <= u64::MAX
}

/// Whether a run with these settings develops at least one step.
pub open spec fn develops(linear: bool, total_step: u64) -> bool {
    total_step > first_index(linear)
}

impl DevelopSchedule {
    pub open spec fn wf(self) -> bool {
        &&& (self.norm_interval > 0 || !develops(self.linear, self.total_step))
        &&& steps_fit(self.total_step)
        &&& first_index(self.linear) <= self.next_index
        &&& (self.next_index <= self.total_step || self.next_index == first_index(self.linear))
        &&& self.ratio == (if self.next_index == first_index(self.linear) {
            0
        } else {
            percent(self.next_index - 1, self.total_step as int)
        })
        &&& self.progress.total_step == self.total_step
        &&& self.progress.is_finished == self.finished
        &&& self.progress.current_step <= self.next_index
        &&& (self.progress.current_step == 0 || self.progress.current_step < self.total_step)
        &&& (self.finished ==> self.pre_developed && self.next_index >= self.total_step)
        &&& (!self.pre_developed ==> !self.linear && self.next_index == 1)
    }

    /// The schedule after one more action, and that action.
    pub open spec fn spec_next(self) -> (DevelopSchedule, DevelopAction) {
        if !self.pre_developed {
            (DevelopSchedule { pre_developed: true, ..self }, DevelopAction::PreDevelop)
        } else if self.next_index < self.total_step {
            let i = self.next_index;
            let p = percent(i as int, self.total_step as int);
            let report = self.ratio != p;
            (
                DevelopSchedule {
                    next_index: (i + 1) as u64,
                    ratio: p as u8,
                    progress: ProgressData {
                        current_step: if report {
                            i
                        } else {
                            self.progress.current_step
                        },
                        ..self.progress
                    },
                    ..self
                },
                DevelopAction::Develop { index: i, normalize: i % self.norm_interval == 0, report },
            )
        } else {
            (
                DevelopSchedule {
                    finished: true,
                    progress: ProgressData { is_finished: true, ..self.progress },
                    ..self
                },
                DevelopAction::Finish,
            )
        }
    }

    /// Actions left before the run is over, `Finish` included.
    pub open spec fn remaining(self) -> int {
        (if self.pre_developed {
            0int
        } else {
            1int
        }) + (if self.next_index < self.total_step {
            self.total_step - self.next_index
        } else {
            0int
        }) + (if self.finished {
            0int
        } else {
            1int
        })
    }

    /// The schedule of a run of `total_step` steps, renormalising every
    /// `norm_interval` steps; `linear` picks first-order development,
    /// otherwise second-order with one warm-up step.
    pub fn new(linear: bool, total_step: u64, norm_interval: u64) -> (r: Self)
        requires
            norm_interval > 0 || !develops(linear, total_step),
            steps_fit(total_step),
        ensures
            r.wf(),
            r == spec_new(linear, total_step, norm_interval),
    {
        DevelopSchedule {
            linear,
            total_step,
            norm_interval,
            pre_developed: linear,
            next_index: if linear {
                0
            } else {
                1
            },
            ratio: 0,
            finished: false,
            progress: ProgressData { total_step, current_step: 0, is_finished: false },
        }
    }

    /// Decides the next action and records it.
    pub fn next_action(&mut self) -> (r: DevelopAction)
        requires
            old(self).wf(),
            !old(self).finished,
        ensures
            (*final(self), r) == old(self).spec_next(),
            final(self).wf(),
    {
        if !self.pre_developed {
            self.pre_developed = true;
            return DevelopAction::PreDevelop;
        }
        if self.next_index < self.total_step {
            let i = self.next_index;
            let normalize = i % self.norm_interval == 0;
            proof {
                lemma_percent_of_step(i as int, self.total_step as int);
            }
            let new_ratio = (i * 100 / self.total_step) as u8;
            let report = self.ratio != new_ratio;
            if report {
                self.progress.current_step = i;
            }
            self.ratio = new_ratio;
            self.next_index = i + 1;
            return DevelopAction::Develop { index: i, normalize, report };
        }
        self.finished = true;
        self.progress.is_finished = true;
        DevelopAction::Finish
    }
}

/// A step of the run is below 100 percent, and its scaled index fits.
proof fn lemma_percent_of_step(i: int, total: int)
    requires
        0 <= i < total,
        (total - 1) * 100 <= u64::MAX,
    ensures
        i * 100 <= u64::MAX,
        0 <= percent(i, total) < 100,
{
    assert(i * 100 <= (total - 1) * 100) by (nonlinear_arith)
        requires
            i <= total - 1,
    ;
    assert(0 <= (i * 100) / total < 100) by (nonlinear_arith)
        requires
            0 <= i < total,
    ;
}

/// The percentage of the run never goes down as the step index grows.
pub proof fn lemma_percent_monotone(i: int, j: int, total: int)
    requires
        0 <= i <= j,
        total > 0,
    ensures
        percent(i, total) <= percent(j, total),
{
    assert(i * 100 <= j * 100) by (nonlinear_arith)
        requires
            i <= j,
    ;
    vstd::arithmetic::div_mod::lemma_div_is_ordered(i * 100, j * 100, total);
}

/// Every action keeps the progress percentage or raises it, and it rises
/// exactly on the steps that publish their progress.
pub proof fn lemma_ratio_rises_exactly_on_report(s: DevelopSchedule)
    requires
        s.wf(),
        !s.finished,
    ensures
        s.spec_next().0.ratio >= s.ratio,
        s.spec_next().1 matches DevelopAction::Develop { report, .. } ==> (report <==> s.spec_next().0.ratio
            > s.ratio),
        !(s.spec_next().1 is Develop) ==> s.spec_next().0.ratio == s.ratio,
{
    if s.pre_developed && s.next_index < s.total_step {
        let i = s.next_index as int;
        lemma_percent_of_step(i, s.total_step as int);
        if i != first_index(s.linear) {
            lemma_percent_monotone(i - 1, i, s.total_step as int);
        }
    }
}

/// The published current step never goes back.
pub proof fn lemma_progress_never_decreases(s: DevelopSchedule)
    requires
        s.wf(),
        !s.finished,
    ensures
        s.spec_next().0.progress.current_step >= s.progress.current_step,
        s.spec_next().0.progress.total_step == s.progress.total_step,
{
}

/// Each action brings the run one action closer to its end, and the run is
/// over exactly when no action is left.
pub proof fn lemma_each_action_counts_down(s: DevelopSchedule)
    requires
        s.wf(),
    ensures
        s.remaining() == 0 <==> s.finished,
        !s.finished ==> s.spec_next().0.remaining() == s.remaining() - 1,
{
}

/// A fresh first-order run takes one action per step and one to finish; a
/// fresh second-order run takes a warm-up, one action for each step after
/// the first, and one to finish.
pub proof fn lemma_run_length(linear: bool, total_step: u64, norm_interval: u64)
    ensures
        ({
            let s = spec_new(linear, total_step, norm_interval);
            &&& linear ==> s.remaining() == total_step + 1
            &&& !linear ==> s.remaining() == 2 + (if total_step > 1 {
                total_step - 1
            } else {
                0
            })
        }),
{
}

/// Progress publications among the next `k` actions.
pub open spec fn reports_within(s: DevelopSchedule, k: nat) -> nat
    decreases k,
{
    if k == 0 || s.finished {
        0
    } else {
        let (t, a) = s.spec_next();
        (if a matches DevelopAction::Develop { report: true, .. } {
            1nat
        } else {
            0nat
        }) + reports_within(t, (k - 1) as nat)
    }
}

/// However long it runs, a run publishes its progress at most once per
/// whole percent: at most 99 times in all.
pub proof fn lemma_reports_bounded(s: DevelopSchedule, k: nat)
    requires
        s.wf(),
    ensures
        reports_within(s, k) + s.ratio <= 99,
    decreases k,
{
    if s.next_index != first_index(s.linear) {
        lemma_percent_of_step(s.next_index - 1, s.total_step as int);
    }
    if k > 0 && !s.finished {
        let (t, a) = s.spec_next();
        lemma_ratio_rises_exactly_on_report(s);
        if s.pre_developed && s.next_index < s.total_step {
            lemma_percent_of_step(s.next_index as int, s.total_step as int);
        }
        lemma_reports_bounded(t, (k - 1) as nat);
    }
}

/// Each development step is the next step index of the run, below the
/// total; it renormalises exactly when its index is a multiple of
/// `norm_interval`, in first- and second-order runs alike; and it publishes
/// its progress exactly when its whole percentage `index * 100 / total_step`
/// differs from that of the step before it (from 0 for the first step of the
/// run), in which case the published current step becomes its index.
pub proof fn lemma_develop_step(s: DevelopSchedule)
    requires
        s.wf(),
        !s.finished,
    ensures
        s.spec_next().1 matches DevelopAction::Develop { index, normalize, report } ==> {
            let total = s.total_step as int;
            let first: int = if s.linear {
                0
            } else {
                1
            };
            let before: int = if index == first {
                0
            } else {
                ((index - 1) * 100) / total
            };
            &&& s.norm_interval > 0
            &&& index == s.next_index
            &&& first <= index < total
            &&& normalize == (index % s.norm_interval == 0)
            &&& report == ((index * 100) / total != before)
            &&& report ==> s.spec_next().0.progress.current_step == index
            &&& !report ==> s.spec_next().0.progress.current_step == s.progress.current_step
            &&& s.spec_next().0.next_index == index + 1
            &&& !s.spec_next().0.finished
        },
{
}

/// Which kind of action comes next: the warm-up exactly while a
/// second-order run has not had it (never in a first-order run); then a
/// development step while steps remain; then `Finish`, which marks the run
/// and its published progress finished and changes no step count.
pub proof fn lemma_action_kind(s: DevelopSchedule)
    requires
        s.wf(),
        !s.finished,
    ensures
        (s.spec_next().1 == DevelopAction::PreDevelop) <==> !s.pre_developed,
        s.linear ==> s.spec_next().1 != DevelopAction::PreDevelop,
        s.spec_next().1 == DevelopAction::PreDevelop ==> s.spec_next().0.pre_developed
            && s.spec_next().0.next_index == s.next_index && !s.spec_next().0.finished,
        (s.spec_next().1 is Develop) <==> (s.pre_developed && s.next_index < s.total_step),
        (s.spec_next().1 == DevelopAction::Finish) <==> (s.pre_developed && s.next_index >= s.total_step),
        s.spec_next().1 == DevelopAction::Finish ==> s.spec_next().0.finished
            && s.spec_next().0.progress.is_finished
            && s.spec_next().0.progress.current_step == s.progress.current_step
            && s.spec_next().0.progress.total_step == s.total_step,
        s.spec_next().0.total_step == s.total_step,
        s.spec_next().0.norm_interval == s.norm_interval,
        s.spec_next().0.linear == s.linear,
{
}

/// A new schedule has published nothing and starts where its order starts:
/// a first-order run at step 0, a second-order run with its warm-up and
/// then step 1.
pub proof fn lemma_new_schedule_start(linear: bool, total_step: u64, norm_interval: u64)
    ensures
        ({
            let s = spec_new(linear, total_step, norm_interval);
            &&& linear ==> s.next_index == 0 && s.pre_developed
            &&& !linear ==> s.next_index == 1 && !s.pre_developed
            &&& s.progress == ProgressData { total_step, current_step: 0, is_finished: false }
            &&& s.linear == linear && s.total_step == total_step && s.norm_interval == norm_interval
            &&& !s.finished
        }),
{
}

} // verus!
