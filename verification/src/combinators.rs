//! Templates made of templates: one that may be absent, one whose system
//! data may be away, and several in a row. Each does what its parts do, in
//! the order in which they stand.

use vstd::prelude::*;
use crate::prefab::{LoadError, Loaded, PrefabData, Settled, Standing, Tally, Triggered};
use crate::progress::{ProgressTracker, ProgressView};
use crate::world::Entity;

verus! {

/// A template that may be absent. Absent, it asks for nothing and writes
/// nothing; present, it does what the template in it does.
impl<T: PrefabData> PrefabData for Option<T> {
    type SystemData = T::SystemData;

    type Output = Option<T::Output>;

    type Components = T::Components;

    open spec fn tally(&self) -> Tally {
        match *self {
            Some(template) => template.tally(),
            None => Tally::none(),
        }
    }

    open spec fn components(data: <T::SystemData as View>::V) -> T::Components {
        T::components(data)
    }

    open spec fn spec_trigger(&self, progress: ProgressView, data: <T::SystemData as View>::V) -> Triggered<
        Self,
        <T::SystemData as View>::V,
    > {
        match *self {
            Some(template) => {
                let step = template.spec_trigger(progress, data);
                Triggered {
                    template: Some(step.template),
                    progress: step.progress,
                    data: step.data,
                    outcome: step.outcome,
                }
            },
            None => Triggered { template: None, progress, data, outcome: Ok(false) },
        }
    }

    open spec fn spec_settle(&self, progress: ProgressView, data: <T::SystemData as View>::V) -> Settled<
        Self,
    > {
        match *self {
            Some(template) => {
                let step = template.spec_settle(progress, data);
                Settled { template: Some(step.template), progress: step.progress }
            },
            None => Settled { template: None, progress },
        }
    }

    open spec fn spec_load(
        &self,
        entity: Entity,
        entities: Seq<Entity>,
        data: <T::SystemData as View>::V,
    ) -> Loaded<<T::SystemData as View>::V, Option<T::Output>> {
        match *self {
            Some(template) => {
                let step = template.spec_load(entity, entities, data);
                Loaded {
                    data: step.data,
                    outcome: match step.outcome {
                        Ok(output) => Ok(Some(output)),
                        Err(error) => Err(error),
                    },
                }
            },
            None => Loaded { data, outcome: Ok(None) },
        }
    }

    fn trigger_sub_loading(&mut self, progress: &mut ProgressTracker, data: &mut T::SystemData) -> (outcome:
        Result<bool, LoadError>)
        ensures
            (Triggered {
                template: *final(self),
                progress: final(progress)@,
                data: final(data)@,
                outcome,
            }) == old(self).spec_trigger(old(progress)@, old(data)@),
    {
        proof {
            self.lemma_trigger(progress@, data@);
        }
        match self {
            Some(template) => template.trigger_sub_loading(progress, data),
            None => Ok(false),
        }
    }

    fn settle(&mut self, progress: &mut ProgressTracker, data: &T::SystemData)
        ensures
            (Settled { template: *final(self), progress: final(progress)@ })
                == old(self).spec_settle(old(progress)@, data@),
    {
        proof {
            self.lemma_settle(progress@, data@);
        }
        match self {
            Some(template) => template.settle(progress, data),
            None => {},
        }
    }

    fn load_prefab(&self, entity: Entity, data: &mut T::SystemData, entities: &[Entity]) -> (outcome:
        Result<Option<T::Output>, LoadError>)
        ensures
            (Loaded { data: final(data)@, outcome }) == self.spec_load(
                entity,
                entities@,
                old(data)@,
            ),
    {
        match self {
            Some(template) => match template.load_prefab(entity, data, entities) {
                Ok(output) => Ok(Some(output)),
                Err(error) => Err(error),
            },
            None => Ok(None),
        }
    }

    fn standing(&self) -> (standing: Standing)
        ensures
            standing == self.tally().standing(),
    {
        match self {
            Some(template) => template.standing(),
            None => Standing::clear(),
        }
    }

    proof fn lemma_trigger(&self, progress: ProgressView, data: <T::SystemData as View>::V) {
        match *self {
            Some(template) => template.lemma_trigger(progress, data),
            None => {},
        }
    }

    proof fn lemma_settle(&self, progress: ProgressView, data: <T::SystemData as View>::V) {
        match *self {
            Some(template) => template.lemma_settle(progress, data),
            None => {},
        }
    }

    proof fn lemma_retrigger(
        &self,
        progress: ProgressView,
        data: <T::SystemData as View>::V,
        again: ProgressView,
    ) {
        match *self {
            Some(template) => template.lemma_retrigger(progress, data, again),
            None => {},
        }
    }
}

/// System data that may be away for a tick, lent to someone else.
pub enum Shard<D> {
    /// The system data is here.
    Here(D),
    /// The system data cannot be had in this tick.
    Away,
}

/// What a [`Shard`] holds.
pub enum ShardView<V> {
    Here(V),
    Away,
}

impl<D: View> View for Shard<D> {
    type V = ShardView<D::V>;

    open spec fn view(&self) -> ShardView<D::V> {
        match *self {
            Shard::Here(data) => ShardView::Here(data@),
            Shard::Away => ShardView::Away,
        }
    }
}

/// A template whose system data may be away. While it is away the template
/// can do neither step and changes nothing; while it is here the template
/// does what the template in it does.
pub struct Contended<T>(pub T);

impl<T: PrefabData> PrefabData for Contended<T> {
    type SystemData = Shard<T::SystemData>;

    type Output = T::Output;

    type Components = Option<T::Components>;

    open spec fn tally(&self) -> Tally {
        self.0.tally()
    }

    open spec fn components(data: ShardView<<T::SystemData as View>::V>) -> Option<T::Components> {
        match data {
            ShardView::Here(data) => Some(T::components(data)),
            ShardView::Away => None,
        }
    }

    open spec fn spec_trigger(
        &self,
        progress: ProgressView,
        data: ShardView<<T::SystemData as View>::V>,
    ) -> Triggered<Self, ShardView<<T::SystemData as View>::V>> {
        match data {
            ShardView::Here(data) => {
                let step = self.0.spec_trigger(progress, data);
                Triggered {
                    template: Contended(step.template),
                    progress: step.progress,
                    data: ShardView::Here(step.data),
                    outcome: step.outcome,
                }
            },
            ShardView::Away => Triggered {
                template: *self,
                progress,
                data,
                outcome: Err(LoadError::Unavailable),
            },
        }
    }

    open spec fn spec_settle(
        &self,
        progress: ProgressView,
        data: ShardView<<T::SystemData as View>::V>,
    ) -> Settled<Self> {
        match data {
            ShardView::Here(data) => {
                let step = self.0.spec_settle(progress, data);
                Settled { template: Contended(step.template), progress: step.progress }
            },
            ShardView::Away => Settled { template: *self, progress },
        }
    }

    open spec fn spec_load(
        &self,
        entity: Entity,
        entities: Seq<Entity>,
        data: ShardView<<T::SystemData as View>::V>,
    ) -> Loaded<ShardView<<T::SystemData as View>::V>, T::Output> {
        match data {
            ShardView::Here(data) => {
                let step = self.0.spec_load(entity, entities, data);
                Loaded { data: ShardView::Here(step.data), outcome: step.outcome }
            },
            ShardView::Away => Loaded { data, outcome: Err(LoadError::Unavailable) },
        }
    }

    fn trigger_sub_loading(
        &mut self,
        progress: &mut ProgressTracker,
        data: &mut Shard<T::SystemData>,
    ) -> (outcome: Result<bool, LoadError>)
        ensures
            (Triggered {
                template: *final(self),
                progress: final(progress)@,
                data: final(data)@,
                outcome,
            }) == old(self).spec_trigger(old(progress)@, old(data)@),
            *old(data) is Away ==> {
                &&& outcome == Err::<bool, LoadError>(LoadError::Unavailable)
                &&& *final(self) == *old(self)
                &&& final(progress)@ == old(progress)@
                &&& *final(data) is Away
            },
    {
        proof {
            self.lemma_trigger(progress@, data@);
        }
        match data {
            Shard::Here(data) => self.0.trigger_sub_loading(progress, data),
            Shard::Away => Err(LoadError::Unavailable),
        }
    }

    fn settle(&mut self, progress: &mut ProgressTracker, data: &Shard<T::SystemData>)
        ensures
            (Settled { template: *final(self), progress: final(progress)@ })
                == old(self).spec_settle(old(progress)@, data@),
            *data is Away ==> *final(self) == *old(self) && final(progress)@ == old(progress)@,
    {
        proof {
            self.lemma_settle(progress@, data@);
        }
        match data {
            Shard::Here(data) => self.0.settle(progress, data),
            Shard::Away => {},
        }
    }

    fn load_prefab(&self, entity: Entity, data: &mut Shard<T::SystemData>, entities: &[Entity]) -> (outcome:
        Result<T::Output, LoadError>)
        ensures
            (Loaded { data: final(data)@, outcome }) == self.spec_load(
                entity,
                entities@,
                old(data)@,
            ),
            *old(data) is Away ==> {
                &&& outcome == Err::<T::Output, LoadError>(LoadError::Unavailable)
                &&& *final(data) is Away
            },
    {
        match data {
            Shard::Here(data) => self.0.load_prefab(entity, data, entities),
            Shard::Away => Err(LoadError::Unavailable),
        }
    }

    fn standing(&self) -> (standing: Standing)
        ensures
            standing == self.tally().standing(),
    {
        self.0.standing()
    }

    proof fn lemma_trigger(&self, progress: ProgressView, data: ShardView<<T::SystemData as View>::V>) {
        match data {
            ShardView::Here(data) => self.0.lemma_trigger(progress, data),
            ShardView::Away => {},
        }
    }

    proof fn lemma_settle(&self, progress: ProgressView, data: ShardView<<T::SystemData as View>::V>) {
        match data {
            ShardView::Here(data) => self.0.lemma_settle(progress, data),
            ShardView::Away => {},
        }
    }

    proof fn lemma_retrigger(
        &self,
        progress: ProgressView,
        data: ShardView<<T::SystemData as View>::V>,
        again: ProgressView,
    ) {
        match data {
            ShardView::Here(data) => self.0.lemma_retrigger(progress, data, again),
            ShardView::Away => {},
        }
    }
}

/// Two templates in a row. The first does its step, then the second; where
/// the first fails the second is left alone. Each works on its own share of
/// the system data.
impl<S: PrefabData, T: PrefabData> PrefabData for (S, T) {
    type SystemData = (S::SystemData, T::SystemData);

    type Output = ();

    type Components = (S::Components, T::Components);

    open spec fn tally(&self) -> Tally {
        self.0.tally().plus(self.1.tally())
    }

    open spec fn components(data: (<S::SystemData as View>::V, <T::SystemData as View>::V)) -> (
        S::Components,
        T::Components,
    ) {
        (S::components(data.0), T::components(data.1))
    }

    open spec fn spec_trigger(
        &self,
        progress: ProgressView,
        data: (<S::SystemData as View>::V, <T::SystemData as View>::V),
    ) -> Triggered<Self, (<S::SystemData as View>::V, <T::SystemData as View>::V)> {
        let first = self.0.spec_trigger(progress, data.0);
        match first.outcome {
            Err(error) => Triggered {
                template: (first.template, self.1),
                progress: first.progress,
                data: (first.data, data.1),
                outcome: Err(error),
            },
            Ok(issued) => {
                let second = self.1.spec_trigger(first.progress, data.1);
                Triggered {
                    template: (first.template, second.template),
                    progress: second.progress,
                    data: (first.data, second.data),
                    outcome: match second.outcome {
                        Ok(more) => Ok(issued || more),
                        Err(error) => Err(error),
                    },
                }
            },
        }
    }

    open spec fn spec_settle(
        &self,
        progress: ProgressView,
        data: (<S::SystemData as View>::V, <T::SystemData as View>::V),
    ) -> Settled<Self> {
        let first = self.0.spec_settle(progress, data.0);
        let second = self.1.spec_settle(first.progress, data.1);
        Settled { template: (first.template, second.template), progress: second.progress }
    }

    open spec fn spec_load(
        &self,
        entity: Entity,
        entities: Seq<Entity>,
        data: (<S::SystemData as View>::V, <T::SystemData as View>::V),
    ) -> Loaded<(<S::SystemData as View>::V, <T::SystemData as View>::V), ()> {
        let first = self.0.spec_load(entity, entities, data.0);
        match first.outcome {
            Err(error) => Loaded { data: (first.data, data.1), outcome: Err(error) },
            Ok(_) => {
                let second = self.1.spec_load(entity, entities, data.1);
                Loaded {
                    data: (first.data, second.data),
                    outcome: match second.outcome {
                        Ok(_) => Ok(()),
                        Err(error) => Err(error),
                    },
                }
            },
        }
    }

    fn trigger_sub_loading(
        &mut self,
        progress: &mut ProgressTracker,
        data: &mut (S::SystemData, T::SystemData),
    ) -> (outcome: Result<bool, LoadError>)
        ensures
            (Triggered {
                template: *final(self),
                progress: final(progress)@,
                data: final(data)@,
                outcome,
            }) == old(self).spec_trigger(old(progress)@, old(data)@),
    {
        proof {
            self.lemma_trigger(progress@, data@);
        }
        let issued = match self.0.trigger_sub_loading(progress, &mut data.0) {
            Ok(issued) => issued,
            Err(error) => {
                return Err(error);
            },
        };
        match self.1.trigger_sub_loading(progress, &mut data.1) {
            Ok(more) => Ok(issued || more),
            Err(error) => Err(error),
        }
    }

    fn settle(&mut self, progress: &mut ProgressTracker, data: &(S::SystemData, T::SystemData))
        ensures
            (Settled { template: *final(self), progress: final(progress)@ })
                == old(self).spec_settle(old(progress)@, data@),
    {
        proof {
            self.lemma_settle(progress@, data@);
        }
        self.0.settle(progress, &data.0);
        self.1.settle(progress, &data.1);
    }

    fn load_prefab(
        &self,
        entity: Entity,
        data: &mut (S::SystemData, T::SystemData),
        entities: &[Entity],
    ) -> (outcome: Result<(), LoadError>)
        ensures
            (Loaded { data: final(data)@, outcome }) == self.spec_load(
                entity,
                entities@,
                old(data)@,
            ),
    {
        match self.0.load_prefab(entity, &mut data.0, entities) {
            Ok(_) => {},
            Err(error) => {
                return Err(error);
            },
        }
        match self.1.load_prefab(entity, &mut data.1, entities) {
            Ok(_) => Ok(()),
            Err(error) => Err(error),
        }
    }

    fn standing(&self) -> (standing: Standing)
        ensures
            standing == self.tally().standing(),
    {
        self.0.standing().or(self.1.standing())
    }

    proof fn lemma_trigger(
        &self,
        progress: ProgressView,
        data: (<S::SystemData as View>::V, <T::SystemData as View>::V),
    ) {
        self.0.lemma_trigger(progress, data.0);
        let first = self.0.spec_trigger(progress, data.0);
        if first.outcome is Ok {
            self.1.lemma_trigger(first.progress, data.1);
        }
    }

    proof fn lemma_settle(
        &self,
        progress: ProgressView,
        data: (<S::SystemData as View>::V, <T::SystemData as View>::V),
    ) {
        self.0.lemma_settle(progress, data.0);
        let first = self.0.spec_settle(progress, data.0);
        self.1.lemma_settle(first.progress, data.1);
    }

    proof fn lemma_retrigger(
        &self,
        progress: ProgressView,
        data: (<S::SystemData as View>::V, <T::SystemData as View>::V),
        again: ProgressView,
    ) {
        self.0.lemma_retrigger(progress, data.0, again);
        let first = self.0.spec_trigger(progress, data.0);
        self.1.lemma_retrigger(first.progress, data.1, again);
    }
}

/// Three templates in a row: the first, then the second, then the third,
/// each on its own share of the system data. A failure ends the step and
/// leaves the templates behind it alone.
impl<S: PrefabData, T: PrefabData, U: PrefabData> PrefabData for (S, T, U) {
    type SystemData = (S::SystemData, T::SystemData, U::SystemData);

    type Output = ();

    type Components = (S::Components, T::Components, U::Components);

    open spec fn tally(&self) -> Tally {
        self.0.tally().plus(self.1.tally()).plus(self.2.tally())
    }

    open spec fn components(
        data: (<S::SystemData as View>::V, <T::SystemData as View>::V, <U::SystemData as View>::V),
    ) -> (S::Components, T::Components, U::Components) {
        (S::components(data.0), T::components(data.1), U::components(data.2))
    }

    open spec fn spec_trigger(
        &self,
        progress: ProgressView,
        data: (<S::SystemData as View>::V, <T::SystemData as View>::V, <U::SystemData as View>::V),
    ) -> Triggered<
        Self,
        (<S::SystemData as View>::V, <T::SystemData as View>::V, <U::SystemData as View>::V),
    > {
        let front = (self.0, self.1).spec_trigger(progress, (data.0, data.1));
        match front.outcome {
            Err(error) => Triggered {
                template: (front.template.0, front.template.1, self.2),
                progress: front.progress,
                data: (front.data.0, front.data.1, data.2),
                outcome: Err(error),
            },
            Ok(issued) => {
                let third = self.2.spec_trigger(front.progress, data.2);
                Triggered {
                    template: (front.template.0, front.template.1, third.template),
                    progress: third.progress,
                    data: (front.data.0, front.data.1, third.data),
                    outcome: match third.outcome {
                        Ok(more) => Ok(issued || more),
                        Err(error) => Err(error),
                    },
                }
            },
        }
    }

    open spec fn spec_settle(
        &self,
        progress: ProgressView,
        data: (<S::SystemData as View>::V, <T::SystemData as View>::V, <U::SystemData as View>::V),
    ) -> Settled<Self> {
        let front = (self.0, self.1).spec_settle(progress, (data.0, data.1));
        let third = self.2.spec_settle(front.progress, data.2);
        Settled {
            template: (front.template.0, front.template.1, third.template),
            progress: third.progress,
        }
    }

    open spec fn spec_load(
        &self,
        entity: Entity,
        entities: Seq<Entity>,
        data: (<S::SystemData as View>::V, <T::SystemData as View>::V, <U::SystemData as View>::V),
    ) -> Loaded<
        (<S::SystemData as View>::V, <T::SystemData as View>::V, <U::SystemData as View>::V),
        (),
    > {
        let front = (self.0, self.1).spec_load(entity, entities, (data.0, data.1));
        match front.outcome {
            Err(error) => Loaded {
                data: (front.data.0, front.data.1, data.2),
                outcome: Err(error),
            },
            Ok(_) => {
                let third = self.2.spec_load(entity, entities, data.2);
                Loaded {
                    data: (front.data.0, front.data.1, third.data),
                    outcome: match third.outcome {
                        Ok(_) => Ok(()),
                        Err(error) => Err(error),
                    },
                }
            },
        }
    }

    fn trigger_sub_loading(
        &mut self,
        progress: &mut ProgressTracker,
        data: &mut (S::SystemData, T::SystemData, U::SystemData),
    ) -> (outcome: Result<bool, LoadError>)
        ensures
            (Triggered {
                template: *final(self),
                progress: final(progress)@,
                data: final(data)@,
                outcome,
            }) == old(self).spec_trigger(old(progress)@, old(data)@),
    {
        proof {
            self.lemma_trigger(progress@, data@);
        }
        let first = match self.0.trigger_sub_loading(progress, &mut data.0) {
            Ok(issued) => issued,
            Err(error) => {
                return Err(error);
            },
        };
        let second = match self.1.trigger_sub_loading(progress, &mut data.1) {
            Ok(issued) => issued,
            Err(error) => {
                return Err(error);
            },
        };
        match self.2.trigger_sub_loading(progress, &mut data.2) {
            Ok(third) => Ok(first || second || third),
            Err(error) => Err(error),
        }
    }

    fn settle(
        &mut self,
        progress: &mut ProgressTracker,
        data: &(S::SystemData, T::SystemData, U::SystemData),
    )
        ensures
            (Settled { template: *final(self), progress: final(progress)@ })
                == old(self).spec_settle(old(progress)@, data@),
    {
        proof {
            self.lemma_settle(progress@, data@);
        }
        self.0.settle(progress, &data.0);
        self.1.settle(progress, &data.1);
        self.2.settle(progress, &data.2);
    }

    fn load_prefab(
        &self,
        entity: Entity,
        data: &mut (S::SystemData, T::SystemData, U::SystemData),
        entities: &[Entity],
    ) -> (outcome: Result<(), LoadError>)
        ensures
            (Loaded { data: final(data)@, outcome }) == self.spec_load(
                entity,
                entities@,
                old(data)@,
            ),
    {
        match self.0.load_prefab(entity, &mut data.0, entities) {
            Ok(_) => {},
            Err(error) => {
                return Err(error);
            },
        }
        match self.1.load_prefab(entity, &mut data.1, entities) {
            Ok(_) => {},
            Err(error) => {
                return Err(error);
            },
        }
        match self.2.load_prefab(entity, &mut data.2, entities) {
            Ok(_) => Ok(()),
            Err(error) => Err(error),
        }
    }

    fn standing(&self) -> (standing: Standing)
        ensures
            standing == self.tally().standing(),
    {
        self.0.standing().or(self.1.standing()).or(self.2.standing())
    }

    proof fn lemma_trigger(
        &self,
        progress: ProgressView,
        data: (<S::SystemData as View>::V, <T::SystemData as View>::V, <U::SystemData as View>::V),
    ) {
        (self.0, self.1).lemma_trigger(progress, (data.0, data.1));
        let front = (self.0, self.1).spec_trigger(progress, (data.0, data.1));
        if front.outcome is Ok {
            self.2.lemma_trigger(front.progress, data.2);
        }
    }

    proof fn lemma_settle(
        &self,
        progress: ProgressView,
        data: (<S::SystemData as View>::V, <T::SystemData as View>::V, <U::SystemData as View>::V),
    ) {
        (self.0, self.1).lemma_settle(progress, (data.0, data.1));
        let front = (self.0, self.1).spec_settle(progress, (data.0, data.1));
        self.2.lemma_settle(front.progress, data.2);
    }

    proof fn lemma_retrigger(
        &self,
        progress: ProgressView,
        data: (<S::SystemData as View>::V, <T::SystemData as View>::V, <U::SystemData as View>::V),
        again: ProgressView,
    ) {
        (self.0, self.1).lemma_retrigger(progress, (data.0, data.1), again);
        let front = (self.0, self.1).spec_trigger(progress, (data.0, data.1));
        self.2.lemma_retrigger(front.progress, data.2, again);
    }
}

} // verus!
