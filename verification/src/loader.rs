//! The driver of one load: it asks for the assets of a hierarchy of
//! templates, waits until they are all there, and then writes the hierarchy
//! into the world, once.

use vstd::prelude::*;
use crate::hierarchy::{
    apply_upto, law_parents_resolve, lemma_settle_upto, lemma_trigger_upto, link_upto,
    settle_upto, tally_of, tally_upto, trigger_upto, well_formed, Parent, Prefab, PrefabNode,
};
use crate::assets::{state_of, AssetPrefab, AssetState, Format, Handle};
use crate::components::FontAsset;
use crate::prefab::{LoadError, PrefabData, Triggered};
use crate::text::{TextSlots, UiTextBuilder};
use crate::progress::{Completion, ProgressTracker, ProgressView};
use crate::world::{Entities, Entity, InsertError, Storage};

verus! {

/// Where a load stands.
#[derive(Clone, Copy, Debug, PartialEq, Eq, Structural)]
pub enum Phase {
    /// Assets are being asked for or waited for.
    Loading,
    /// The hierarchy was written into the world.
    Applied,
    /// The load has failed.
    Failed,
}

/// What one tick of a load came to.
#[derive(Debug, PartialEq, Eq)]
pub enum Poll {
    /// Requests are still in flight.
    Pending,
    /// A template could not do its loading step in this tick.
    Stalled(LoadError),
    /// The hierarchy was written into the world in this tick. The entities
    /// are those of the nodes, each at its node's position.
    Applied(Vec<Entity>),
    /// An asset could not be had. The texts say why, oldest first.
    AssetsFailed(Vec<String>),
    /// The world has too few entity ids left for the nodes.
    OutOfEntities,
    /// The parent storage refused the parent of a node.
    LinkRefused(InsertError),
    /// A node could not be written.
    ApplyFailed(LoadError),
    /// The load had ended before this tick.
    Ended,
}

/// What a [`Poll`] says, with sequences for vectors.
pub enum PollView {
    Pending,
    Stalled(LoadError),
    Applied(Seq<Entity>),
    AssetsFailed(Seq<String>),
    OutOfEntities,
    LinkRefused(InsertError),
    ApplyFailed(LoadError),
    Ended,
}

impl View for Poll {
    type V = PollView;

    open spec fn view(&self) -> PollView {
        match *self {
            Poll::Pending => PollView::Pending,
            Poll::Stalled(error) => PollView::Stalled(error),
            Poll::Applied(entities) => PollView::Applied(entities@),
            Poll::AssetsFailed(details) => PollView::AssetsFailed(details@),
            Poll::OutOfEntities => PollView::OutOfEntities,
            Poll::LinkRefused(refusal) => PollView::LinkRefused(refusal),
            Poll::ApplyFailed(error) => PollView::ApplyFailed(error),
            Poll::Ended => PollView::Ended,
        }
    }
}

/// The part of the world that a load works on: the entities, the parent
/// links between them, and the system data of the templates.
pub struct World<D> {
    pub entities: Entities,
    pub parents: Storage<Parent>,
    pub data: D,
}

/// What a [`World`] holds.
pub struct WorldView<V> {
    /// Number of entities handed out.
    pub entities: nat,
    pub parents: Seq<Option<Parent>>,
    pub data: V,
}

impl<D: View> View for World<D> {
    type V = WorldView<D::V>;

    open spec fn view(&self) -> WorldView<D::V> {
        WorldView { entities: self.entities@, parents: self.parents@, data: self.data@ }
    }
}

/// The state of a load.
pub struct LoaderView<T> {
    pub nodes: Seq<PrefabNode<T>>,
    pub progress: ProgressView,
    /// The entity that the root of the hierarchy is written to.
    pub root: Entity,
    pub phase: Phase,
}

/// What a tick leaves behind: the load and the world as they are
/// afterwards, and what the tick came to.
pub struct Polled<T, V> {
    pub loader: LoaderView<T>,
    pub world: WorldView<V>,
    pub verdict: PollView,
}

/// The entities of a hierarchy of `count` nodes: the root's entity, then
/// the next `count - 1` entities of a world that has handed out `allocated`.
pub open spec fn batch_model(root: Entity, allocated: nat, count: nat) -> Seq<Entity> {
    Seq::new(
        count,
        |i: int|
            if i == 0 {
                root
            } else {
                Entity { id: (allocated + i - 1) as usize }
            },
    )
}

impl<T: PrefabData> LoaderView<T> {
    /// Whether the tracker counts exactly the requests of the hierarchy:
    /// while the load is loading, as many are pending as the hierarchy
    /// awaits, as many have failed as the hierarchy has broken references,
    /// and the tracker has room for the requests still to be issued.
    pub open spec fn wf(self) -> bool {
        &&& well_formed(self.nodes)
        &&& self.phase == Phase::Loading ==> {
            &&& self.progress.pending == tally_of(self.nodes).awaiting
            &&& self.progress.errors.len() == tally_of(self.nodes).broken
            &&& self.progress.total() + tally_of(self.nodes).unissued <= usize::MAX
        }
    }

    /// One tick. A load that has ended stays as it is. A loading one lets
    /// its templates do their loading step, lets them record which requests
    /// have ended, and looks at the tracker: while requests are in flight
    /// it waits; after a failure it fails, with the world's components
    /// untouched; once everything is there it takes one entity per node
    /// behind the root, links the nodes to their parents and writes them,
    /// and ends as applied, or as failed where the world refused.
    pub open spec fn spec_poll(self, world: WorldView<<T::SystemData as View>::V>) -> Polled<
        T,
        <T::SystemData as View>::V,
    > {
        if self.phase != Phase::Loading {
            Polled { loader: self, world, verdict: PollView::Ended }
        } else {
            let count = self.nodes.len();
            let asking = trigger_upto(self.nodes, self.progress, world.data, count);
            let asked = WorldView { data: asking.data, ..world };
            match asking.outcome {
                Err(error) => Polled {
                    loader: LoaderView { nodes: asking.template, progress: asking.progress, ..self },
                    world: asked,
                    verdict: PollView::Stalled(error),
                },
                Ok(_) => {
                    let step = settle_upto(asking.template, asking.progress, asking.data, count);
                    let loading = LoaderView {
                        nodes: step.template,
                        progress: step.progress,
                        ..self
                    };
                    let failed = LoaderView { phase: Phase::Failed, ..loading };
                    match step.progress.completion() {
                        Completion::Loading => Polled {
                            loader: loading,
                            world: asked,
                            verdict: PollView::Pending,
                        },
                        Completion::Failed => Polled {
                            loader: failed,
                            world: asked,
                            verdict: PollView::AssetsFailed(step.progress.errors),
                        },
                        Completion::Complete => {
                            if world.entities + count - 1 > usize::MAX {
                                Polled {
                                    loader: failed,
                                    world: asked,
                                    verdict: PollView::OutOfEntities,
                                }
                            } else {
                                let batch = batch_model(self.root, world.entities, count);
                                let grown = (world.entities + count - 1) as nat;
                                let linked = link_upto(step.template, batch, world.parents, count);
                                match linked.1 {
                                    Err(refusal) => Polled {
                                        loader: failed,
                                        world: WorldView {
                                            entities: grown,
                                            parents: linked.0,
                                            data: asking.data,
                                        },
                                        verdict: PollView::LinkRefused(refusal),
                                    },
                                    Ok(()) => {
                                        let applied = apply_upto(
                                            step.template,
                                            batch,
                                            asking.data,
                                            count,
                                        );
                                        let written = WorldView {
                                            entities: grown,
                                            parents: linked.0,
                                            data: applied.data,
                                        };
                                        match applied.outcome {
                                            Err(error) => Polled {
                                                loader: failed,
                                                world: written,
                                                verdict: PollView::ApplyFailed(error),
                                            },
                                            Ok(()) => Polled {
                                                loader: LoaderView {
                                                    phase: Phase::Applied,
                                                    ..loading
                                                },
                                                world: written,
                                                verdict: PollView::Applied(batch),
                                            },
                                        }
                                    },
                                }
                            }
                        },
                    }
                },
            }
        }
    }
}

/// What the two steps before the tracker is looked at leave behind, for a
/// load whose books are in order: the books are in order afterwards, the
/// nodes hang where they hung, and no component was touched.
pub proof fn lemma_tick_keeps_books<T: PrefabData>(
    loader: LoaderView<T>,
    world: WorldView<<T::SystemData as View>::V>,
)
    requires
        loader.wf(),
        loader.phase == Phase::Loading,
    ensures
        ({
            let count = loader.nodes.len();
            let asking = trigger_upto(loader.nodes, loader.progress, world.data, count);
            let step = settle_upto(asking.template, asking.progress, asking.data, count);
            &&& T::components(asking.data) == T::components(world.data)
            &&& (LoaderView { nodes: asking.template, progress: asking.progress, ..loader }).wf()
            &&& (LoaderView { nodes: step.template, progress: step.progress, ..loader }).wf()
            &&& asking.progress.pending >= tally_of(asking.template).awaiting
            &&& asking.outcome is Ok ==> tally_of(step.template).unissued == 0
            &&& asking.template.len() == count
            &&& step.template.len() == count
            &&& forall|i: int|
                0 <= i < count ==> (#[trigger] step.template[i]).parent == loader.nodes[i].parent
        }),
{
    let count = loader.nodes.len();
    lemma_trigger_upto(loader.nodes, loader.progress, world.data, count);
    let asking = trigger_upto(loader.nodes, loader.progress, world.data, count);
    lemma_settle_upto(asking.template, asking.progress, asking.data, count);
    let step = settle_upto(asking.template, asking.progress, asking.data, count);
    assert(well_formed(asking.template)) by {
        assert forall|i: int| 0 <= i < asking.template.len() implies ((
        #[trigger] asking.template[i]).parent matches Some(p) ==> p < i) by {
            assert(asking.template[i].parent == loader.nodes[i].parent);
        }
    }
    assert(well_formed(step.template)) by {
        assert forall|i: int| 0 <= i < step.template.len() implies ((
        #[trigger] step.template[i]).parent matches Some(p) ==> p < i) by {
            assert(step.template[i].parent == asking.template[i].parent);
        }
    }
}

/// One load of a hierarchy of templates into a world.
pub struct Loader<T> {
    prefab: Prefab<T>,
    progress: ProgressTracker,
    root: Entity,
    phase: Phase,
}

impl<T> View for Loader<T> {
    type V = LoaderView<T>;

    closed spec fn view(&self) -> LoaderView<T> {
        LoaderView {
            nodes: self.prefab@,
            progress: self.progress@,
            root: self.root,
            phase: self.phase,
        }
    }
}

/// A copy of `texts`.
fn copy_texts(texts: &Vec<String>) -> (copy: Vec<String>)
    ensures
        copy@ == texts@,
{
    let mut copy: Vec<String> = Vec::new();
    let mut i: usize = 0;
    while i < texts.len()
        invariant
            i <= texts@.len(),
            copy@ == texts@.take(i as int),
        decreases texts@.len() - i,
    {
        copy.push(texts[i].clone());
        i = i + 1;
    }
    copy
}

/// The entities of a hierarchy of `count` nodes below `root`, fresh from
/// `entities` but for the root's.
fn take_batch(root: Entity, entities: &mut Entities, count: usize) -> (batch: Vec<Entity>)
    requires
        count >= 1,
        old(entities)@ + count - 1 <= usize::MAX,
    ensures
        batch@ == batch_model(root, old(entities)@, count as nat),
        final(entities)@ == old(entities)@ + count - 1,
{
    let mut batch: Vec<Entity> = Vec::new();
    batch.push(root);
    let mut i: usize = 1;
    while i < count
        invariant
            1 <= i <= count,
            old(entities)@ + count - 1 <= usize::MAX,
            entities@ == old(entities)@ + i - 1,
            batch@ == batch_model(root, old(entities)@, i as nat),
        decreases count - i,
    {
        if let Some(entity) = entities.create() {
            batch.push(entity);
        }
        i = i + 1;
    }
    batch
}

impl<T: PrefabData> Loader<T> {
    /// Whether the load keeps its books in order.
    pub open spec fn wf(&self) -> bool {
        self@.wf()
    }

    /// Starts a load of `prefab` with its root at `root`: a fresh tracker,
    /// and one loading step of the templates. Hands back the load and what
    /// the loading step answered.
    ///
    /// No request of the hierarchy is in flight or has failed, and the
    /// requests to issue are no more than a tracker can count.
    pub fn issue(prefab: Prefab<T>, root: Entity, data: &mut T::SystemData) -> (started: (
        Loader<T>,
        Result<bool, LoadError>,
    ))
        requires
            prefab.wf(),
            prefab.tally().awaiting == 0,
            prefab.tally().broken == 0,
            prefab.tally().unissued <= usize::MAX,
        ensures
            started.0.wf(),
            started.0@.root == root,
            started.0@.phase == Phase::Loading,
            (Triggered {
                template: started.0@.nodes,
                progress: started.0@.progress,
                data: final(data)@,
                outcome: started.1,
            }) == prefab.spec_trigger(ProgressView::fresh(), old(data)@),
    {
        let mut prefab = prefab;
        let mut progress = ProgressTracker::new();
        proof {
            lemma_trigger_upto(prefab@, progress@, data@, prefab@.len());
        }
        let outcome = prefab.trigger_sub_loading(&mut progress, data);
        (Loader { prefab, progress, root, phase: Phase::Loading }, outcome)
    }

    /// Where the load stands.
    pub fn phase(&self) -> (phase: Phase)
        ensures
            phase == self@.phase,
    {
        self.phase
    }

    /// The entity that the root of the hierarchy is written to.
    pub fn root(&self) -> (root: Entity)
        ensures
            root == self@.root,
    {
        self.root
    }

    /// The tracker of this load.
    pub fn progress(&self) -> (progress: &ProgressTracker)
        ensures
            progress@ == self@.progress,
    {
        &self.progress
    }

    /// The hierarchy of this load, with its references as they stand.
    pub fn prefab(&self) -> (prefab: &Prefab<T>)
        ensures
            prefab@ == self@.nodes,
    {
        &self.prefab
    }

    /// One tick of the load.
    pub fn poll(&mut self, world: &mut World<T::SystemData>) -> (verdict: Poll)
        requires
            old(self).wf(),
        ensures
            final(self).wf(),
            (Polled { loader: final(self)@, world: final(world)@, verdict: verdict@ })
                == old(self)@.spec_poll(old(world)@),
    {
        match self.phase {
            Phase::Loading => {},
            _ => {
                return Poll::Ended;
            },
        }
        proof {
            lemma_tick_keeps_books(self@, world@);
        }
        if let Err(error) = self.prefab.trigger_sub_loading(&mut self.progress, &mut world.data) {
            return Poll::Stalled(error);
        }
        self.prefab.settle(&mut self.progress, &world.data);
        match self.progress.completion() {
            Completion::Loading => {
                return Poll::Pending;
            },
            Completion::Failed => {
                self.phase = Phase::Failed;
                return Poll::AssetsFailed(copy_texts(self.progress.errors()));
            },
            Completion::Complete => {},
        }
        let count = self.prefab.len();
        if world.entities.count() > usize::MAX - (count - 1) {
            self.phase = Phase::Failed;
            return Poll::OutOfEntities;
        }
        let batch = take_batch(self.root, &mut world.entities, count);
        if let Err(refusal) = self.prefab.link(batch.as_slice(), &mut world.parents) {
            self.phase = Phase::Failed;
            return Poll::LinkRefused(refusal);
        }
        if let Err(error) = self.prefab.apply(batch.as_slice(), &mut world.data) {
            self.phase = Phase::Failed;
            return Poll::ApplyFailed(error);
        }
        self.phase = Phase::Applied;
        Poll::Applied(batch)
    }
}

/// A load whose assets fail writes nothing: a tick that does not find every
/// asset there leaves every component of the world, every parent link and
/// the entities as they were, and a tick that finds a failed asset ends
/// the load as failed, with the failures of the tracker for its reasons.
pub proof fn law_failed_load_writes_nothing<T: PrefabData>(
    loader: LoaderView<T>,
    world: WorldView<<T::SystemData as View>::V>,
)
    requires
        loader.wf(),
    ensures
        ({
            let tick = loader.spec_poll(world);
            let untouched = {
                &&& T::components(tick.world.data) == T::components(world.data)
                &&& tick.world.parents == world.parents
                &&& tick.world.entities == world.entities
            };
            &&& tick.verdict is Pending ==> untouched
            &&& tick.verdict is Stalled ==> untouched
            &&& tick.verdict is Ended ==> untouched
            &&& tick.verdict is AssetsFailed ==> untouched
            &&& tick.verdict matches PollView::AssetsFailed(details) ==> {
                &&& tick.loader.phase == Phase::Failed
                &&& details == tick.loader.progress.errors
                &&& details.len() > 0
            }
        }),
{
    if loader.phase == Phase::Loading {
        lemma_tick_keeps_books(loader, world);
    }
}

/// The world is written to only once everything is there: a tick that
/// takes entities, links parents or writes components has found the
/// tracker complete, and every asset reference of every node with its
/// value.
pub proof fn law_writes_only_when_resolved<T: PrefabData>(
    loader: LoaderView<T>,
    world: WorldView<<T::SystemData as View>::V>,
)
    requires
        loader.wf(),
    ensures
        ({
            let tick = loader.spec_poll(world);
            let written = {
                ||| T::components(tick.world.data) != T::components(world.data)
                ||| tick.world.parents != world.parents
                ||| tick.world.entities != world.entities
            };
            written ==> {
                &&& loader.phase == Phase::Loading
                &&& tick.loader.phase != Phase::Loading
                &&& tick.loader.progress.completion() == Completion::Complete
                &&& tally_of(tick.loader.nodes).resolved()
            }
        }),
{
    if loader.phase == Phase::Loading {
        lemma_tick_keeps_books(loader, world);
    }
}

/// A text whose font could not be had fails its load in the next tick:
/// where the store has given up on the font that the one text of a load
/// waits for, the tick ends the load as failed with the store's reason,
/// and leaves the world as it was.
pub proof fn law_failed_font_fails_the_load<F: Format>(
    loader: LoaderView<UiTextBuilder<F>>,
    world: WorldView<TextSlots<F>>,
    handle: Handle<FontAsset>,
    detail: String,
)
    requires
        loader.wf(),
        loader.phase == Phase::Loading,
        loader.nodes.len() == 1,
        loader.nodes[0].data matches Some(text) && text.font == AssetPrefab::<
            FontAsset,
            F,
        >::Requested(handle),
        state_of(world.data.2.0, handle) == Some(AssetState::<FontAsset>::Failed(detail)),
    ensures
        ({
            let tick = loader.spec_poll(world);
            &&& tick.verdict == PollView::AssetsFailed(seq![detail])
            &&& tick.loader.phase == Phase::Failed
            &&& tick.loader.progress.completion() == Completion::Failed
            &&& tick.world == world
        }),
{
    reveal_with_fuel(trigger_upto, 3);
    reveal_with_fuel(settle_upto, 3);
    reveal_with_fuel(tally_upto, 3);
    let asking = trigger_upto(loader.nodes, loader.progress, world.data, 1);
    assert(asking.template =~= loader.nodes);
    let step = settle_upto(asking.template, asking.progress, asking.data, 1);
    assert(step.progress.errors =~= seq![detail]);
}

/// A load that has ended stays ended: every later tick says so and changes
/// neither the load nor the world. The hierarchy is written in the one
/// tick that takes the load from loading to applied, and in no other.
pub proof fn law_load_ends_once<T: PrefabData>(
    loader: LoaderView<T>,
    world: WorldView<<T::SystemData as View>::V>,
)
    ensures
        ({
            let tick = loader.spec_poll(world);
            &&& loader.phase != Phase::Loading ==> tick == (Polled {
                loader,
                world,
                verdict: PollView::Ended,
            })
            &&& tick.verdict is Applied <==> loader.phase == Phase::Loading && tick.loader.phase
                == Phase::Applied
            &&& tick.loader.phase == Phase::Loading ==> loader.phase == Phase::Loading
            &&& tick.loader.root == loader.root
        }),
{
}

/// A hierarchy is written with every reference between its entities in
/// place: in the tick that applies it, the entities of the nodes are the
/// root's and, behind it, entities that the world has handed out in this
/// tick and to nobody before, and every node that hangs from another has
/// the entity of that other node, which stands before it, for its parent.
pub proof fn law_hierarchy_is_linked<T: PrefabData>(
    loader: LoaderView<T>,
    world: WorldView<<T::SystemData as View>::V>,
)
    requires
        loader.wf(),
    ensures
        ({
            let tick = loader.spec_poll(world);
            tick.verdict matches PollView::Applied(batch) ==> {
                &&& batch.len() == loader.nodes.len()
                &&& batch[0] == loader.root
                &&& forall|i: int|
                    1 <= i < batch.len() ==> world.entities <= (#[trigger] batch[i]).id
                        < tick.world.entities
                &&& forall|i: int, j: int|
                    1 <= i < j < batch.len() ==> (#[trigger] batch[i]).id != (#[trigger] batch[j]).id
                &&& forall|i: int|
                    0 <= i < batch.len() ==> ((#[trigger] tick.loader.nodes[i]).parent matches Some(
                        p,
                    ) ==> {
                        &&& p < i
                        &&& batch[i].id < tick.world.parents.len()
                        &&& tick.world.parents[batch[i].id as int] == Some(
                            Parent { entity: batch[p as int] },
                        )
                    })
                &&& forall|i: int|
                    0 <= i < batch.len() ==> (#[trigger] tick.loader.nodes[i]).parent
                        == loader.nodes[i].parent
            }
        }),
{
    if loader.phase == Phase::Loading {
        let count = loader.nodes.len();
        lemma_tick_keeps_books(loader, world);
        let asking = trigger_upto(loader.nodes, loader.progress, world.data, count);
        let step = settle_upto(asking.template, asking.progress, asking.data, count);
        if asking.outcome is Ok && step.progress.completion() == Completion::Complete
            && world.entities + count - 1 <= usize::MAX {
            let batch = batch_model(loader.root, world.entities, count);
            if link_upto(step.template, batch, world.parents, count).1 is Ok {
                law_parents_resolve(step.template, batch, world.parents, count);
            }
        }
    }
}

} // verus!
