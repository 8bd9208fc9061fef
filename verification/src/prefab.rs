//! The capability that every kind of template has: to ask for the assets it
//! refers to, to record which of them have arrived or failed, and to write
//! itself into the world once they are there.
//!
//! Each step is stated against a mathematical model. A template says, as
//! a function of what it is given, what it leaves behind and what it answers;
//! the executable step is held to that function. Composite templates build
//! their model from the models of their parts.
//!
//! The loading step only asks and registers. Whoever drives a load calls
//! the recording step between the loading step and its look at the tracker.

use vstd::prelude::*;
use crate::progress::{Completion, ProgressTracker, ProgressView};
use crate::world::{Entity, InsertError};

verus! {

/// Why a template could not do its step.
#[derive(Clone, Copy, Debug, PartialEq, Eq, Structural)]
pub enum LoadError {
    /// A component storage refused an insert.
    Rejected(InsertError),
    /// Something that the step needs could not be had in this tick: part
    /// of the system data, or an asset that is not there.
    Unavailable,
}

/// How the asset references of a template are spread over the four stages
/// of a reference's life.
pub struct Tally {
    /// References for which no request was issued yet.
    pub unissued: nat,
    /// References whose request is registered and has not ended.
    pub awaiting: nat,
    /// References whose request ended with a value.
    pub ready: nat,
    /// References whose request ended with a failure.
    pub broken: nat,
}

impl Tally {
    /// The tally of a template without asset references.
    pub open spec fn none() -> Tally {
        Tally { unissued: 0, awaiting: 0, ready: 0, broken: 0 }
    }

    /// Number of references, whatever their stage.
    pub open spec fn total(self) -> nat {
        self.unissued + self.awaiting + self.ready + self.broken
    }

    /// Whether every reference has its value.
    pub open spec fn resolved(self) -> bool {
        self.unissued == 0 && self.awaiting == 0 && self.broken == 0
    }

    /// Which of the stages short of having a value are taken.
    pub open spec fn standing(self) -> Standing {
        Standing {
            unissued: self.unissued > 0,
            awaiting: self.awaiting > 0,
            broken: self.broken > 0,
        }
    }

    /// The tally of two templates taken together.
    pub open spec fn plus(self, other: Tally) -> Tally {
        Tally {
            unissued: self.unissued + other.unissued,
            awaiting: self.awaiting + other.awaiting,
            ready: self.ready + other.ready,
            broken: self.broken + other.broken,
        }
    }
}

/// Which stages of a reference's life, short of having its value, a
/// template has references at.
#[derive(Clone, Copy, Debug, PartialEq, Eq, Structural)]
pub struct Standing {
    /// Whether a reference has no request yet.
    pub unissued: bool,
    /// Whether a request is registered and has not ended.
    pub awaiting: bool,
    /// Whether a request has ended with a failure.
    pub broken: bool,
}

impl Standing {
    /// Whether every reference has its value.
    pub fn is_resolved(&self) -> (answer: bool)
        ensures
            answer == (!self.unissued && !self.awaiting && !self.broken),
    {
        !self.unissued && !self.awaiting && !self.broken
    }

    /// Whether no request is in flight and none has failed.
    pub fn is_fresh(&self) -> (answer: bool)
        ensures
            answer == (!self.awaiting && !self.broken),
    {
        !self.awaiting && !self.broken
    }

    /// The standing of two templates taken together.
    pub fn or(self, other: Standing) -> (both: Standing)
        ensures
            both == (Standing {
                unissued: self.unissued || other.unissued,
                awaiting: self.awaiting || other.awaiting,
                broken: self.broken || other.broken,
            }),
    {
        Standing {
            unissued: self.unissued || other.unissued,
            awaiting: self.awaiting || other.awaiting,
            broken: self.broken || other.broken,
        }
    }

    /// The standing of a template without references.
    pub fn clear() -> (standing: Standing)
        ensures
            standing == (Standing { unissued: false, awaiting: false, broken: false }),
    {
        Standing { unissued: false, awaiting: false, broken: false }
    }
}

/// What a loading step leaves behind: the template, the tracker's state and
/// the system data as they are afterwards, and the step's answer.
pub struct Triggered<T, D> {
    pub template: T,
    pub progress: ProgressView,
    pub data: D,
    pub outcome: Result<bool, LoadError>,
}

/// What a recording step leaves behind: the template and the tracker's
/// state as they are afterwards.
pub struct Settled<T> {
    pub template: T,
    pub progress: ProgressView,
}

/// What an application step leaves behind: the system data as it is
/// afterwards, and the step's answer.
pub struct Loaded<D, O> {
    pub data: D,
    pub outcome: Result<O, LoadError>,
}

/// A template: a description of what an entity should have, which may
/// refer to assets that have to be loaded first.
pub trait PrefabData: Sized {
    /// The storages and asset stores that this kind of template works on.
    type SystemData: View;

    /// What a successful application hands back.
    type Output;

    /// The part of the system data that holds components of entities.
    type Components;

    /// Where the asset references of this template stand.
    spec fn tally(&self) -> Tally;

    /// The components held in the given system data.
    spec fn components(data: <Self::SystemData as View>::V) -> Self::Components;

    /// The loading step, as a function of the tracker's state and the
    /// system data.
    spec fn spec_trigger(
        &self,
        progress: ProgressView,
        data: <Self::SystemData as View>::V,
    ) -> Triggered<Self, <Self::SystemData as View>::V>;

    /// The recording of ended requests, as a function of the tracker's
    /// state and the system data.
    spec fn spec_settle(
        &self,
        progress: ProgressView,
        data: <Self::SystemData as View>::V,
    ) -> Settled<Self>;

    /// The application step, as a function of the target entity, the
    /// entities of the hierarchy and the system data.
    spec fn spec_load(
        &self,
        entity: Entity,
        entities: Seq<Entity>,
        data: <Self::SystemData as View>::V,
    ) -> Loaded<<Self::SystemData as View>::V, Self::Output>;

    /// Issues a request for every asset reference that has none yet and
    /// registers each on `progress`. Answers whether a request was issued.
    /// What was asked for before is left alone, and so is the tracker's
    /// record of what has ended.
    ///
    /// `progress` has room for the new requests.
    fn trigger_sub_loading(
        &mut self,
        progress: &mut ProgressTracker,
        data: &mut Self::SystemData,
    ) -> (outcome: Result<bool, LoadError>)
        requires
            old(progress)@.total() + old(self).tally().unissued <= usize::MAX,
        ensures
            (Triggered {
                template: *final(self),
                progress: final(progress)@,
                data: final(data)@,
                outcome,
            }) == old(self).spec_trigger(old(progress)@, old(data)@),
            outcome == Ok::<bool, LoadError>(false) ==> {
                &&& *final(self) == *old(self)
                &&& final(progress)@ == old(progress)@
                &&& final(data)@ == old(data)@
            },
            outcome is Ok ==> outcome == Ok::<bool, LoadError>(old(self).tally().unissued > 0)
                && final(self).tally().unissued == 0,
            final(progress)@.pending + final(self).tally().unissued == old(progress)@.pending
                + old(self).tally().unissued,
            final(progress)@.succeeded == old(progress)@.succeeded,
            final(progress)@.errors == old(progress)@.errors,
            Self::components(final(data)@) == Self::components(old(data)@),
    ;

    /// Looks at every request of this template that is registered and has
    /// not been recorded as ended, and records on `progress` those whose
    /// asset has arrived or failed since: each once, as a success or as a
    /// failure with the reason that the store gives.
    ///
    /// `progress` is the tracker on which the outstanding requests of this
    /// template were registered.
    fn settle(&mut self, progress: &mut ProgressTracker, data: &Self::SystemData)
        requires
            old(progress)@.pending >= old(self).tally().awaiting,
        ensures
            (Settled { template: *final(self), progress: final(progress)@ })
                == old(self).spec_settle(old(progress)@, data@),
            old(self).tally().awaiting == 0 ==> {
                &&& *final(self) == *old(self)
                &&& final(progress)@ == old(progress)@
            },
            final(self).tally().unissued == old(self).tally().unissued,
            final(progress)@.pending + old(self).tally().awaiting == old(progress)@.pending
                + final(self).tally().awaiting,
            final(progress)@.total() == old(progress)@.total(),
            old(progress)@.errors.is_prefix_of(final(progress)@.errors),
    ;

    /// Writes the components that this template describes for `entity`
    /// into `data`. `entities` are the entities of the hierarchy that the
    /// template belongs to, for templates that refer to their siblings.
    ///
    /// This is the step for a template whose asset references all have
    /// their value. A reference without one cannot be written: the
    /// template that holds it says what it does then.
    fn load_prefab(&self, entity: Entity, data: &mut Self::SystemData, entities: &[Entity]) -> (outcome:
        Result<Self::Output, LoadError>)
        ensures
            (Loaded { data: final(data)@, outcome }) == self.spec_load(
                entity,
                entities@,
                old(data)@,
            ),
    ;

    /// At which stages the asset references of the template stand.
    fn standing(&self) -> (standing: Standing)
        ensures
            standing == self.tally().standing(),
    ;

    /// The loading step issues and registers, and does nothing else: the
    /// references that had no request move to awaiting, the tracker's
    /// pending count grows by their number, what the tracker has recorded as
    /// ended stays, and no component is touched. A step that answers has
    /// issued every request, and answers whether there was one to issue; a
    /// step that answers that there was none has changed nothing.
    proof fn lemma_trigger(&self, progress: ProgressView, data: <Self::SystemData as View>::V)
        ensures
            ({
                let step = self.spec_trigger(progress, data);
                let before = self.tally();
                let after = step.template.tally();
                &&& Self::components(step.data) == Self::components(data)
                &&& after.unissued <= before.unissued
                &&& after.unissued + after.awaiting == before.unissued + before.awaiting
                &&& after.ready == before.ready
                &&& after.broken == before.broken
                &&& step.progress == (ProgressView {
                    pending: (progress.pending + before.unissued - after.unissued) as nat,
                    ..progress
                })
                &&& step.outcome is Ok ==> after.unissued == 0 && step.outcome == Ok::<
                    bool,
                    LoadError,
                >(before.unissued > 0)
                &&& step.outcome == Ok::<bool, LoadError>(false) ==> step.template == *self
                    && step.data == data
            }),
    ;

    /// The recording step keeps the books: no reference is lost, a
    /// reference moves from awaiting to ready or broken only, the tracker's
    /// counts move with them, and failures are added behind those recorded
    /// before. Where nothing is awaited, nothing changes.
    proof fn lemma_settle(&self, progress: ProgressView, data: <Self::SystemData as View>::V)
        requires
            progress.pending >= self.tally().awaiting,
        ensures
            ({
                let step = self.spec_settle(progress, data);
                let before = self.tally();
                let after = step.template.tally();
                &&& after.unissued == before.unissued
                &&& after.total() == before.total()
                &&& after.ready >= before.ready
                &&& after.broken >= before.broken
                &&& step.progress.pending + before.awaiting == progress.pending + after.awaiting
                &&& step.progress.succeeded + before.ready == progress.succeeded + after.ready
                &&& step.progress.errors.len() + before.broken == progress.errors.len()
                    + after.broken
                &&& progress.errors.is_prefix_of(step.progress.errors)
                &&& before.awaiting == 0 ==> step == (Settled { template: *self, progress })
            }),
    ;

    /// A loading step that follows one that answered, on the system data
    /// that it left behind, changes nothing and answers that no request
    /// was issued, whatever the tracker.
    proof fn lemma_retrigger(
        &self,
        progress: ProgressView,
        data: <Self::SystemData as View>::V,
        again: ProgressView,
    )
        requires
            self.spec_trigger(progress, data).outcome is Ok,
        ensures
            ({
                let first = self.spec_trigger(progress, data);
                first.template.spec_trigger(again, first.data) == (Triggered {
                    template: first.template,
                    progress: again,
                    data: first.data,
                    outcome: Ok(false),
                })
            }),
    ;
}

/// Triggering twice in succession, with nothing happening to the tracker
/// or the system data in between, issues no request the second time: the
/// second step leaves the template, the tracker and the system data as the
/// first one left them, and answers that nothing was issued.
pub proof fn law_trigger_is_idempotent<T: PrefabData>(
    template: T,
    progress: ProgressView,
    data: <T::SystemData as View>::V,
)
    requires
        template.spec_trigger(progress, data).outcome is Ok,
    ensures
        ({
            let first = template.spec_trigger(progress, data);
            let second = first.template.spec_trigger(first.progress, first.data);
            &&& second.template == first.template
            &&& second.progress == first.progress
            &&& second.data == first.data
            &&& second.outcome == Ok::<bool, LoadError>(false)
        }),
{
    let first = template.spec_trigger(progress, data);
    template.lemma_retrigger(progress, data, first.progress);
}

/// A failure on the tracker outlasts both steps of a template: a tracker
/// that reports failed before a loading step or a recording step reports
/// failed after it, with every failure that it held still there, in place.
pub proof fn law_steps_keep_failure<T: PrefabData>(
    template: T,
    progress: ProgressView,
    data: <T::SystemData as View>::V,
)
    requires
        progress.completion() == Completion::Failed,
    ensures
        template.spec_trigger(progress, data).progress.completion() == Completion::Failed,
        template.spec_trigger(progress, data).progress.errors == progress.errors,
        progress.pending >= template.tally().awaiting ==> {
            let step = template.spec_settle(progress, data);
            &&& step.progress.completion() == Completion::Failed
            &&& progress.errors.is_prefix_of(step.progress.errors)
        },
{
    template.lemma_trigger(progress, data);
    if progress.pending >= template.tally().awaiting {
        template.lemma_settle(progress, data);
    }
}

} // verus!
