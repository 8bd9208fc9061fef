//! Progress tracking for a set of asynchronous asset requests.
//!
//! A [`ProgressTracker`] counts the requests that were registered on it and
//! how each of them ended. It is a plain value: whoever has to share one
//! between several completion sites puts it behind a lock of their own.

use vstd::prelude::*;

verus! {

/// Aggregate state of the requests registered on a tracker.
#[derive(Clone, Copy, Debug, PartialEq, Eq, Structural)]
pub enum Completion {
    /// At least one request is still in flight and none has failed.
    Loading,
    /// No request is in flight and none has failed.
    Complete,
    /// At least one request has failed.
    Failed,
}

/// Why a tracker refused to record the end of a request.
#[derive(Clone, Copy, Debug, PartialEq, Eq, Structural)]
pub enum TrackerError {
    /// No request is pending, so there is none that could have ended.
    NothingPending,
}

/// Mathematical state of a tracker: how many requests are in flight, how many
/// succeeded, and the detail of every failure in the order it was recorded.
pub struct ProgressView {
    pub pending: nat,
    pub succeeded: nat,
    pub errors: Seq<String>,
}

impl ProgressView {
    /// The state of a tracker on which nothing was registered yet.
    pub open spec fn fresh() -> ProgressView {
        ProgressView { pending: 0, succeeded: 0, errors: Seq::empty() }
    }

    /// Number of failed requests.
    pub open spec fn failed(self) -> nat {
        self.errors.len()
    }

    /// Number of requests ever registered.
    pub open spec fn total(self) -> nat {
        self.pending + self.succeeded + self.errors.len()
    }

    /// The three-state answer: failure wins over pending work, pending work
    /// over completion.
    pub open spec fn completion(self) -> Completion {
        if self.errors.len() > 0 {
            Completion::Failed
        } else if self.pending > 0 {
            Completion::Loading
        } else {
            Completion::Complete
        }
    }

    /// Whether the tracker has left the loading state.
    pub open spec fn settled(self) -> bool {
        self.completion() != Completion::Loading
    }

    /// State after one more request was registered.
    pub open spec fn register(self) -> ProgressView {
        ProgressView { pending: self.pending + 1, ..self }
    }

    /// State after one pending request succeeded. Without a pending request
    /// the state stays as it is.
    pub open spec fn succeed(self) -> ProgressView {
        if self.pending == 0 {
            self
        } else {
            ProgressView {
                pending: (self.pending - 1) as nat,
                succeeded: self.succeeded + 1,
                ..self
            }
        }
    }

    /// State after one pending request failed with `detail`. Without a
    /// pending request the state stays as it is.
    pub open spec fn fail(self, detail: String) -> ProgressView {
        if self.pending == 0 {
            self
        } else {
            ProgressView {
                pending: (self.pending - 1) as nat,
                errors: self.errors.push(detail),
                ..self
            }
        }
    }

    /// State after `event`.
    pub open spec fn step(self, event: TrackerEvent) -> ProgressView {
        match event {
            TrackerEvent::Registered => self.register(),
            TrackerEvent::Succeeded => self.succeed(),
            TrackerEvent::Failed(detail) => self.fail(detail),
        }
    }

    /// State after all of `events`, first to last.
    pub open spec fn run(self, events: Seq<TrackerEvent>) -> ProgressView
        decreases events.len(),
    {
        if events.len() == 0 {
            self
        } else {
            self.run(events.drop_last()).step(events.last())
        }
    }
}

/// One thing that can happen to a tracker.
pub enum TrackerEvent {
    /// A request was issued.
    Registered,
    /// A request resolved to a value.
    Succeeded,
    /// A request resolved to a failure with the given detail.
    Failed(String),
}

/// Whether `event` is the end of a request rather than the start of one.
pub open spec fn is_resolution(event: TrackerEvent) -> bool {
    !(event is Registered)
}

/// The two counts whose sum must stay within the machine word.
struct Counters {
    pending: usize,
    succeeded: usize,
}

impl Counters {
    #[verifier::type_invariant]
    spec fn counts_fit(self) -> bool {
        self.pending + self.succeeded <= usize::MAX
    }

    fn new() -> (counters: Counters)
        ensures
            counters.pending == 0,
            counters.succeeded == 0,
    {
        Counters { pending: 0, succeeded: 0 }
    }

    fn add_pending(&mut self)
        requires
            old(self).pending + old(self).succeeded < usize::MAX,
        ensures
            final(self).pending == old(self).pending + 1,
            final(self).succeeded == old(self).succeeded,
    {
        self.pending = self.pending + 1;
    }

    fn drop_pending(&mut self)
        requires
            old(self).pending > 0,
        ensures
            final(self).pending == old(self).pending - 1,
            final(self).succeeded == old(self).succeeded,
    {
        proof {
            use_type_invariant(&*self);
        }
        self.pending = self.pending - 1;
    }

    fn pending_to_succeeded(&mut self)
        requires
            old(self).pending > 0,
        ensures
            final(self).pending == old(self).pending - 1,
            final(self).succeeded == old(self).succeeded + 1,
    {
        proof {
            use_type_invariant(&*self);
        }
        let pending = self.pending - 1;
        let succeeded = self.succeeded + 1;
        *self = Counters { pending, succeeded };
    }

    fn unused(&self) -> (n: usize)
        ensures
            n == usize::MAX - self.pending - self.succeeded,
    {
        proof {
            use_type_invariant(self);
        }
        usize::MAX - self.pending - self.succeeded
    }
}

/// Counter of in-flight, succeeded and failed asset requests.
pub struct ProgressTracker {
    counters: Counters,
    errors: Vec<String>,
}

impl View for ProgressTracker {
    type V = ProgressView;

    closed spec fn view(&self) -> ProgressView {
        ProgressView {
            pending: self.counters.pending as nat,
            succeeded: self.counters.succeeded as nat,
            errors: self.errors@,
        }
    }
}

impl Default for ProgressTracker {
    /// A tracker with nothing registered.
    fn default() -> (tracker: ProgressTracker)
        ensures
            tracker@ == ProgressView::fresh(),
    {
        ProgressTracker::new()
    }
}

impl ProgressTracker {
    /// A tracker with nothing registered.
    pub fn new() -> (tracker: ProgressTracker)
        ensures
            tracker@ == ProgressView::fresh(),
    {
        ProgressTracker { counters: Counters::new(), errors: Vec::new() }
    }

    /// Records that one more request was issued.
    pub fn register_pending(&mut self)
        requires
            old(self)@.total() < usize::MAX,
        ensures
            final(self)@ == old(self)@.register(),
    {
        self.counters.add_pending();
    }

    /// Records that one pending request resolved to a value. Refused, with
    /// the tracker left as it was, when no request is pending.
    pub fn mark_succeeded(&mut self) -> (outcome: Result<(), TrackerError>)
        ensures
            final(self)@ == old(self)@.succeed(),
            outcome is Ok <==> old(self)@.pending > 0,
            outcome is Err ==> outcome == Err::<(), TrackerError>(TrackerError::NothingPending),
    {
        if self.counters.pending == 0 {
            return Err(TrackerError::NothingPending);
        }
        self.counters.pending_to_succeeded();
        Ok(())
    }

    /// Records that one pending request failed, keeping `detail`. Refused,
    /// with the tracker left as it was, when no request is pending.
    pub fn mark_failed(&mut self, detail: String) -> (outcome: Result<(), TrackerError>)
        ensures
            final(self)@ == old(self)@.fail(detail),
            outcome is Ok <==> old(self)@.pending > 0,
            outcome is Err ==> outcome == Err::<(), TrackerError>(TrackerError::NothingPending),
    {
        if self.counters.pending == 0 {
            return Err(TrackerError::NothingPending);
        }
        self.counters.drop_pending();
        self.errors.push(detail);
        Ok(())
    }

    /// Loading, complete or failed.
    pub fn completion(&self) -> (answer: Completion)
        ensures
            answer == self@.completion(),
    {
        if self.errors.len() > 0 {
            Completion::Failed
        } else if self.counters.pending > 0 {
            Completion::Loading
        } else {
            Completion::Complete
        }
    }

    /// Number of requests in flight.
    pub fn num_pending(&self) -> (n: usize)
        ensures
            n == self@.pending,
    {
        self.counters.pending
    }

    /// Number of requests that resolved to a value.
    pub fn num_succeeded(&self) -> (n: usize)
        ensures
            n == self@.succeeded,
    {
        self.counters.succeeded
    }

    /// Number of requests that failed.
    pub fn num_failed(&self) -> (n: usize)
        ensures
            n == self@.failed(),
    {
        self.errors.len()
    }

    /// How many more requests can be registered: the distance of the total
    /// from the largest machine word, or zero where there is none.
    pub fn headroom(&self) -> (n: usize)
        ensures
            self@.total() <= usize::MAX ==> n == usize::MAX - self@.total(),
            self@.total() > usize::MAX ==> n == 0,
    {
        let unused = self.counters.unused();
        let failed = self.errors.len();
        if failed > unused {
            0
        } else {
            unused - failed
        }
    }

    /// The detail of every failure, oldest first.
    pub fn errors(&self) -> (details: &Vec<String>)
        ensures
            details@ == self@.errors,
    {
        &self.errors
    }
}

/// A failed tracker stays failed whatever happens to it next.
pub proof fn law_failure_is_sticky(state: ProgressView, events: Seq<TrackerEvent>)
    requires
        state.completion() == Completion::Failed,
    ensures
        state.run(events).completion() == Completion::Failed,
    decreases events.len(),
{
    if events.len() > 0 {
        law_failure_is_sticky(state, events.drop_last());
    }
}

/// Once a tracker has reported complete or failed, the resolution of
/// requests never brings it back to loading.
pub proof fn law_completion_is_monotonic(state: ProgressView, events: Seq<TrackerEvent>)
    requires
        state.settled(),
        forall|i: int| 0 <= i < events.len() ==> is_resolution(#[trigger] events[i]),
    ensures
        state.run(events).settled(),
        state.completion() == Completion::Failed ==> state.run(events).completion()
            == Completion::Failed,
        state.completion() == Completion::Complete ==> state.run(events) == state,
    decreases events.len(),
{
    if events.len() > 0 {
        let earlier = events.drop_last();
        assert forall|i: int| 0 <= i < earlier.len() implies is_resolution(
            #[trigger] earlier[i],
        ) by {
            assert(earlier[i] == events[i]);
        }
        law_completion_is_monotonic(state, earlier);
    }
}

} // verus!
