use vstd::prelude::*;

verus! {

/// How far an annealing run has got; what an observer is shown.
#[derive(Debug, Clone, Copy, PartialEq, Eq, Structural, Default)]
pub struct ProgressData {
    pub total_step: u64,
    pub current_step: u64,
    pub is_finished: bool,
}

impl ProgressData {
    pub fn new(total_step: u64, current_step: u64, is_finished: bool) -> (r: Self)
        ensures
            r == (ProgressData { total_step, current_step, is_finished }),
    {
        Self { total_step, current_step, is_finished }
    }
}

/// A progress snapshot together with data of the observer's own.
#[derive(Debug, Clone)]
pub struct ObserverState<T> {
    pub progress: ProgressData,
    pub user_data: T,
}

/// What an observer does with one snapshot of the progress.
#[derive(Debug, Clone, Copy, PartialEq, Eq, Structural)]
pub struct ObserveDecision {
    /// Hand the snapshot to the observing callback.
    pub notify: bool,
    /// Stop observing: the run has finished.
    pub stop: bool,
}

/// The observer's memory: the last snapshot it handed on.
#[derive(Debug, Clone, Copy)]
pub struct ProgressWatch {
    pub last_saved: Option<ProgressData>,
}

impl ProgressWatch {
    /// A watch that has handed on nothing yet.
    pub fn new() -> (r: Self)
        ensures
            r.last_saved is None,
    {
        ProgressWatch { last_saved: None }
    }

    /// Decides what to do with `snapshot`: hand it on when it differs from
    /// the last one handed on, and stop once the run is finished.
    pub fn observe(&mut self, snapshot: ProgressData) -> (r: ObserveDecision)
        ensures
            r == observe_decision(*old(self), snapshot),
            *final(self) == observed(*old(self), snapshot),
    {
        let notify = match self.last_saved {
            Some(last) => last != snapshot,
            None => true,
        };
        if notify {
            self.last_saved = Some(snapshot);
        }
        ObserveDecision { notify, stop: snapshot.is_finished }
    }
}

/// What a watch decides for `snapshot`.
pub open spec fn observe_decision(watch: ProgressWatch, snapshot: ProgressData) -> ObserveDecision {
    ObserveDecision { notify: watch.last_saved != Some(snapshot), stop: snapshot.is_finished }
}

/// The watch after it has seen `snapshot`: it remembers it.
pub open spec fn observed(watch: ProgressWatch, snapshot: ProgressData) -> ProgressWatch {
    ProgressWatch { last_saved: Some(snapshot) }
}

/// Seeing the same snapshot twice in a row hands it on at most once: after
/// observing `snapshot`, observing it again does not notify.
pub proof fn lemma_repeated_snapshot_is_silent(watch: ProgressWatch, snapshot: ProgressData)
    ensures
        !observe_decision(observed(watch, snapshot), snapshot).notify,
{
}

/// A changed snapshot is always handed on, whatever was seen before.
pub proof fn lemma_changed_snapshot_notifies(watch: ProgressWatch, before: ProgressData, after: ProgressData)
    requires
        before != after,
    ensures
        observe_decision(observed(watch, before), after).notify,
{
}

/// A fresh watch hands on the first snapshot it sees.
pub proof fn lemma_first_snapshot_notifies(snapshot: ProgressData)
    ensures
        observe_decision(ProgressWatch { last_saved: None }, snapshot).notify,
{
}

/// The observer stops exactly when the run is finished, whatever it has
/// seen before, and it hands on a snapshot exactly when it differs from the
/// last one handed on.
pub proof fn lemma_stops_exactly_when_finished(watch: ProgressWatch, snapshot: ProgressData)
    ensures
        observe_decision(watch, snapshot).stop <==> snapshot.is_finished,
        observe_decision(watch, snapshot).notify <==> match watch.last_saved {
            Some(last) => last != snapshot,
            None => true,
        },
{
}

} // verus!
