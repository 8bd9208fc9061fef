//! Templates for several entities at once: a root and, below it, nodes that
//! each name the node they hang from.

use vstd::prelude::*;
use crate::prefab::{LoadError, Loaded, PrefabData, Settled, Standing, Tally, Triggered};
use crate::progress::{ProgressTracker, ProgressView};
use crate::world::{insert_model, Entity, InsertError, Storage};

verus! {

/// Component: the entity hangs from another entity.
#[derive(Clone, Copy, Debug, PartialEq, Eq, Structural)]
pub struct Parent {
    pub entity: Entity,
}

/// One entity of a hierarchy: the position of the node it hangs from, and
/// the template of what it gets.
pub struct PrefabNode<T> {
    pub parent: Option<usize>,
    pub data: Option<T>,
}

/// Whether every node but the root hangs from a node that stands before it,
/// and the root from none.
pub open spec fn well_formed<T>(nodes: Seq<PrefabNode<T>>) -> bool {
    &&& nodes.len() >= 1
    &&& nodes[0].parent is None
    &&& forall|i: int|
        0 <= i < nodes.len() ==> ((#[trigger] nodes[i]).parent matches Some(p) ==> p < i)
}

/// The tally of the first `upto` nodes taken together.
pub open spec fn tally_upto<T: PrefabData>(nodes: Seq<PrefabNode<T>>, upto: nat) -> Tally
    decreases upto,
{
    if upto == 0 {
        Tally::none()
    } else {
        tally_upto(nodes, (upto - 1) as nat).plus(nodes[upto - 1].data.tally())
    }
}

/// The tally of all nodes taken together.
pub open spec fn tally_of<T: PrefabData>(nodes: Seq<PrefabNode<T>>) -> Tally {
    tally_upto(nodes, nodes.len())
}

/// The loading step of the first `upto` nodes, one after the other, each
/// on the system data that the one before left behind. A node that fails
/// ends the step.
pub open spec fn trigger_upto<T: PrefabData>(
    nodes: Seq<PrefabNode<T>>,
    progress: ProgressView,
    data: <T::SystemData as View>::V,
    upto: nat,
) -> Triggered<Seq<PrefabNode<T>>, <T::SystemData as View>::V>
    decreases upto,
{
    if upto == 0 {
        Triggered { template: nodes, progress, data, outcome: Ok(false) }
    } else {
        let earlier = trigger_upto(nodes, progress, data, (upto - 1) as nat);
        match earlier.outcome {
            Err(_) => earlier,
            Ok(issued) => {
                let node = earlier.template[upto - 1];
                let step = node.data.spec_trigger(earlier.progress, earlier.data);
                Triggered {
                    template: earlier.template.update(
                        upto - 1,
                        PrefabNode { parent: node.parent, data: step.template },
                    ),
                    progress: step.progress,
                    data: step.data,
                    outcome: match step.outcome {
                        Ok(more) => Ok(issued || more),
                        Err(error) => Err(error),
                    },
                }
            },
        }
    }
}

/// The recording step of the first `upto` nodes, one after the other, each
/// on the tracker as the one before left it.
pub open spec fn settle_upto<T: PrefabData>(
    nodes: Seq<PrefabNode<T>>,
    progress: ProgressView,
    data: <T::SystemData as View>::V,
    upto: nat,
) -> Settled<Seq<PrefabNode<T>>>
    decreases upto,
{
    if upto == 0 {
        Settled { template: nodes, progress }
    } else {
        let earlier = settle_upto(nodes, progress, data, (upto - 1) as nat);
        let node = earlier.template[upto - 1];
        let step = node.data.spec_settle(earlier.progress, data);
        Settled {
            template: earlier.template.update(
                upto - 1,
                PrefabNode { parent: node.parent, data: step.template },
            ),
            progress: step.progress,
        }
    }
}

/// The parent storage after each of the first `upto` nodes that hangs from
/// another was given its parent, in the order of the nodes, and whether
/// the storage took them all. The first refusal ends the step.
pub open spec fn link_upto<T>(
    nodes: Seq<PrefabNode<T>>,
    entities: Seq<Entity>,
    parents: Seq<Option<Parent>>,
    upto: nat,
) -> (Seq<Option<Parent>>, Result<(), InsertError>)
    decreases upto,
{
    if upto == 0 {
        (parents, Ok(()))
    } else {
        let earlier = link_upto(nodes, entities, parents, (upto - 1) as nat);
        match (earlier.1, nodes[upto - 1].parent) {
            (Ok(()), Some(p)) => insert_model(
                earlier.0,
                entities[upto - 1],
                Parent { entity: entities[p as int] },
            ),
            _ => earlier,
        }
    }
}

/// The application step of the first `upto` nodes, one after the other,
/// node `i` to entity `i`, each on the system data that the one before left
/// behind. The first failure ends the step.
pub open spec fn apply_upto<T: PrefabData>(
    nodes: Seq<PrefabNode<T>>,
    entities: Seq<Entity>,
    data: <T::SystemData as View>::V,
    upto: nat,
) -> Loaded<<T::SystemData as View>::V, ()>
    decreases upto,
{
    if upto == 0 {
        Loaded { data, outcome: Ok(()) }
    } else {
        let earlier = apply_upto(nodes, entities, data, (upto - 1) as nat);
        match earlier.outcome {
            Err(_) => earlier,
            Ok(_) => {
                let step = nodes[upto - 1].data.spec_load(
                    entities[upto - 1],
                    entities,
                    earlier.data,
                );
                Loaded {
                    data: step.data,
                    outcome: match step.outcome {
                        Ok(_) => Ok(()),
                        Err(error) => Err(error),
                    },
                }
            },
        }
    }
}

/// A hierarchy of templates. Node 0 is the root; every other node hangs
/// from a node that was added before it.
pub struct Prefab<T> {
    nodes: Vec<PrefabNode<T>>,
}

impl<T> View for Prefab<T> {
    type V = Seq<PrefabNode<T>>;

    /// The nodes in the order in which they were added.
    closed spec fn view(&self) -> Seq<PrefabNode<T>> {
        self.nodes@
    }
}

impl<T> Prefab<T> {
    /// Whether the hierarchy is one that this type builds.
    pub open spec fn wf(&self) -> bool {
        well_formed(self@)
    }

    /// A hierarchy of a root without a template.
    pub fn new() -> (prefab: Prefab<T>)
        ensures
            prefab.wf(),
            prefab@ == seq![PrefabNode::<T> { parent: None, data: None }],
    {
        let mut nodes: Vec<PrefabNode<T>> = Vec::new();
        nodes.push(PrefabNode { parent: None, data: None });
        Prefab { nodes }
    }

    /// A hierarchy of a root with the template `data`.
    pub fn new_main(data: T) -> (prefab: Prefab<T>)
        ensures
            prefab.wf(),
            prefab@ == seq![PrefabNode { parent: None, data: Some(data) }],
    {
        let mut nodes: Vec<PrefabNode<T>> = Vec::new();
        nodes.push(PrefabNode { parent: None, data: Some(data) });
        Prefab { nodes }
    }

    /// Number of nodes, the root included.
    pub fn len(&self) -> (n: usize)
        ensures
            n == self@.len(),
    {
        self.nodes.len()
    }

    /// Adds a node with the template `data` below the node at position
    /// `parent`, and returns its position. Without a node at `parent`
    /// nothing is added.
    pub fn add(&mut self, parent: usize, data: Option<T>) -> (position: Option<usize>)
        requires
            old(self).wf(),
        ensures
            final(self).wf(),
            parent < old(self)@.len() ==> position == Some(old(self)@.len() as usize)
                && final(self)@ == old(self)@.push(PrefabNode { parent: Some(parent), data }),
            parent >= old(self)@.len() ==> position is None && final(self)@ == old(self)@,
    {
        if parent >= self.nodes.len() {
            return None;
        }
        let position = self.nodes.len();
        self.nodes.push(PrefabNode { parent: Some(parent), data });
        Some(position)
    }

    /// The node at `position`, if there is one.
    pub fn node(&self, position: usize) -> (node: Option<&PrefabNode<T>>)
        ensures
            position < self@.len() ==> node == Some(&self@[position as int]),
            position >= self@.len() ==> node is None,
    {
        if position < self.nodes.len() {
            Some(&self.nodes[position])
        } else {
            None
        }
    }
}

impl<T: PrefabData> Prefab<T> {
    /// Where the asset references of all nodes stand, taken together.
    pub open spec fn tally(&self) -> Tally {
        tally_of(self@)
    }

    /// The loading step of every node, root first.
    pub open spec fn spec_trigger(&self, progress: ProgressView, data: <T::SystemData as View>::V) -> Triggered<
        Seq<PrefabNode<T>>,
        <T::SystemData as View>::V,
    > {
        trigger_upto(self@, progress, data, self@.len())
    }

    /// Lets every node, root first, ask for the assets that it has not
    /// asked for yet, and registers each request on `progress`. The first
    /// node that fails ends the step. Answers whether a request was issued.
    ///
    /// `progress` has room for the new requests.
    pub fn trigger_sub_loading(&mut self, progress: &mut ProgressTracker, data: &mut T::SystemData) -> (outcome:
        Result<bool, LoadError>)
        requires
            old(progress)@.total() + old(self).tally().unissued <= usize::MAX,
        ensures
            (Triggered {
                template: final(self)@,
                progress: final(progress)@,
                data: final(data)@,
                outcome,
            }) == old(self).spec_trigger(old(progress)@, old(data)@),
            outcome == Ok::<bool, LoadError>(false) ==> {
                &&& final(self)@ == old(self)@
                &&& final(progress)@ == old(progress)@
                &&& final(data)@ == old(data)@
            },
            final(progress)@.pending + final(self).tally().unissued == old(progress)@.pending + old(
                self,
            ).tally().unissued,
            final(progress)@.succeeded == old(progress)@.succeeded,
            final(progress)@.errors == old(progress)@.errors,
    {
        let ghost nodes = self.nodes@;
        let ghost before = progress@;
        let ghost given = data@;
        let mut issued = false;
        let mut i: usize = 0;
        while i < self.nodes.len()
            invariant
                nodes == old(self).nodes@,
                before == old(progress)@,
                given == old(data)@,
                i <= nodes.len(),
                self.nodes@.len() == nodes.len(),
                before.total() + tally_of(nodes).unissued <= usize::MAX,
                (Triggered {
                    template: self.nodes@,
                    progress: progress@,
                    data: data@,
                    outcome: Ok::<bool, LoadError>(issued),
                }) == trigger_upto(nodes, before, given, i as nat),
            decreases nodes.len() - i,
        {
            proof {
                lemma_tally_prefix(nodes, (i + 1) as nat);
                lemma_trigger_upto(nodes, before, given, i as nat);
            }
            match self.nodes[i].data.trigger_sub_loading(progress, data) {
                Ok(more) => {
                    issued = issued || more;
                },
                Err(error) => {
                    proof {
                        lemma_trigger_stops(nodes, before, given, (i + 1) as nat, nodes.len());
                        lemma_trigger_upto(nodes, before, given, nodes.len());
                    }
                    return Err(error);
                },
            }
            i = i + 1;
        }
        proof {
            lemma_trigger_upto(nodes, before, given, nodes.len());
        }
        Ok(issued)
    }

    /// The recording step of every node, root first.
    pub open spec fn spec_settle(&self, progress: ProgressView, data: <T::SystemData as View>::V) -> Settled<
        Seq<PrefabNode<T>>,
    > {
        settle_upto(self@, progress, data, self@.len())
    }

    /// Lets every node, root first, record on `progress` which of its
    /// outstanding requests have ended since, and how.
    ///
    /// `progress` is the tracker on which the outstanding requests of this
    /// hierarchy were registered.
    pub fn settle(&mut self, progress: &mut ProgressTracker, data: &T::SystemData)
        requires
            old(progress)@.pending >= old(self).tally().awaiting,
        ensures
            (Settled { template: final(self)@, progress: final(progress)@ })
                == old(self).spec_settle(old(progress)@, data@),
    {
        let ghost nodes = self.nodes@;
        let ghost before = progress@;
        let mut i: usize = 0;
        while i < self.nodes.len()
            invariant
                i <= nodes.len(),
                self.nodes@.len() == nodes.len(),
                before.pending >= tally_of(nodes).awaiting,
                (Settled { template: self.nodes@, progress: progress@ }) == settle_upto(
                    nodes,
                    before,
                    data@,
                    i as nat,
                ),
            decreases nodes.len() - i,
        {
            proof {
                lemma_tally_prefix(nodes, (i + 1) as nat);
                lemma_tally_prefix(nodes, i as nat);
                lemma_settle_upto(nodes, before, data@, i as nat);
            }
            self.nodes[i].data.settle(progress, data);
            i = i + 1;
        }
    }

    /// Gives the entity of every node that hangs from another a parent
    /// component naming the entity of that other node, in the order of the
    /// nodes. `entities` holds the entity of each node at the node's
    /// position. The first refusal ends the step; what was written before
    /// stays.
    pub fn link(&self, entities: &[Entity], parents: &mut Storage<Parent>) -> (outcome: Result<
        (),
        InsertError,
    >)
        requires
            self.wf(),
            entities@.len() == self@.len(),
        ensures
            (final(parents)@, outcome) == link_upto(
                self@,
                entities@,
                old(parents)@,
                self@.len(),
            ),
    {
        let mut i: usize = 0;
        while i < self.nodes.len()
            invariant
                well_formed(self.nodes@),
                entities@.len() == self.nodes@.len(),
                i <= self.nodes@.len(),
                (parents@, Ok::<(), InsertError>(())) == link_upto(
                    self.nodes@,
                    entities@,
                    old(parents)@,
                    i as nat,
                ),
            decreases self.nodes@.len() - i,
        {
            if let Some(p) = self.nodes[i].parent {
                let parent = Parent { entity: entities[p] };
                if let Err(refusal) = parents.insert(entities[i], parent) {
                    proof {
                        lemma_link_stops(
                            self.nodes@,
                            entities@,
                            old(parents)@,
                            (i + 1) as nat,
                            self.nodes@.len(),
                        );
                    }
                    return Err(refusal);
                }
            }
            i = i + 1;
        }
        Ok(())
    }

    /// The application step of every node, root first, node `i` to the
    /// entity at position `i` of `entities`.
    pub open spec fn spec_apply(&self, entities: Seq<Entity>, data: <T::SystemData as View>::V) -> Loaded<
        <T::SystemData as View>::V,
        (),
    > {
        apply_upto(self@, entities, data, self@.len())
    }

    /// Writes the components that each node describes for its entity into
    /// `data`, root first. `entities` holds the entity of each node at the
    /// node's position, and is handed to every node. The first failure ends
    /// the step; what was written before stays.
    pub fn apply(&self, entities: &[Entity], data: &mut T::SystemData) -> (outcome: Result<
        (),
        LoadError,
    >)
        requires
            entities@.len() == self@.len(),
        ensures
            (Loaded { data: final(data)@, outcome }) == self.spec_apply(entities@, old(data)@),
    {
        let mut i: usize = 0;
        while i < self.nodes.len()
            invariant
                entities@.len() == self.nodes@.len(),
                i <= self.nodes@.len(),
                (Loaded { data: data@, outcome: Ok::<(), LoadError>(()) }) == apply_upto(
                    self.nodes@,
                    entities@,
                    old(data)@,
                    i as nat,
                ),
            decreases self.nodes@.len() - i,
        {
            if let Err(error) = self.nodes[i].data.load_prefab(entities[i], data, entities) {
                proof {
                    lemma_apply_stops(
                        self.nodes@,
                        entities@,
                        old(data)@,
                        (i + 1) as nat,
                        self.nodes@.len(),
                    );
                }
                return Err(error);
            }
            i = i + 1;
        }
        Ok(())
    }

    /// At which stages the asset references of the nodes stand, taken
    /// together.
    pub fn standing(&self) -> (standing: Standing)
        ensures
            standing == self.tally().standing(),
    {
        let mut standing = Standing::clear();
        let mut i: usize = 0;
        while i < self.nodes.len()
            invariant
                i <= self.nodes@.len(),
                standing == tally_upto(self.nodes@, i as nat).standing(),
            decreases self.nodes@.len() - i,
        {
            standing = standing.or(self.nodes[i].data.standing());
            i = i + 1;
        }
        standing
    }
}

/// A prefix has no more references at any stage than the whole.
pub proof fn lemma_tally_prefix<T: PrefabData>(nodes: Seq<PrefabNode<T>>, upto: nat)
    requires
        upto <= nodes.len(),
    ensures
        tally_upto(nodes, upto).unissued <= tally_of(nodes).unissued,
        tally_upto(nodes, upto).awaiting <= tally_of(nodes).awaiting,
        tally_upto(nodes, upto).ready <= tally_of(nodes).ready,
        tally_upto(nodes, upto).broken <= tally_of(nodes).broken,
    decreases nodes.len() - upto,
{
    if upto < nodes.len() {
        lemma_tally_prefix(nodes, upto + 1);
    }
}

/// The tally of a prefix does not see what stands behind it.
pub proof fn lemma_tally_ignores_later<T: PrefabData>(
    nodes: Seq<PrefabNode<T>>,
    position: int,
    node: PrefabNode<T>,
    upto: nat,
)
    requires
        upto <= position < nodes.len(),
    ensures
        tally_upto(nodes.update(position, node), upto) == tally_upto(nodes, upto),
    decreases upto,
{
    if upto > 0 {
        lemma_tally_ignores_later(nodes, position, node, (upto - 1) as nat);
    }
}

/// The loading step of a prefix keeps the books as the step of a single
/// template does: the nodes behind the prefix are untouched, the
/// references that had no request move to awaiting, the tracker's pending
/// count grows by their number and nothing else of the tracker changes,
/// and no component is touched. A step that answers has issued every
/// request of the prefix; one that answers that there was none has changed
/// nothing.
pub proof fn lemma_trigger_upto<T: PrefabData>(
    nodes: Seq<PrefabNode<T>>,
    progress: ProgressView,
    data: <T::SystemData as View>::V,
    upto: nat,
)
    requires
        upto <= nodes.len(),
    ensures
        ({
            let step = trigger_upto(nodes, progress, data, upto);
            let before = tally_upto(nodes, upto);
            let after = tally_upto(step.template, upto);
            &&& step.template.len() == nodes.len()
            &&& forall|i: int| upto <= i < nodes.len() ==> step.template[i] == nodes[i]
            &&& forall|i: int|
                0 <= i < nodes.len() ==> (#[trigger] step.template[i]).parent == nodes[i].parent
            &&& T::components(step.data) == T::components(data)
            &&& after.unissued <= before.unissued
            &&& after.unissued + after.awaiting == before.unissued + before.awaiting
            &&& after.ready == before.ready
            &&& after.broken == before.broken
            &&& step.progress == (ProgressView {
                pending: (progress.pending + before.unissued - after.unissued) as nat,
                ..progress
            })
            &&& step.outcome is Ok ==> after.unissued == 0 && step.outcome == Ok::<bool, LoadError>(
                before.unissued > 0,
            )
            &&& step.outcome == Ok::<bool, LoadError>(false) ==> step.template == nodes && step.data
                == data
        }),
    decreases upto,
{
    if upto > 0 {
        let shorter = (upto - 1) as nat;
        lemma_trigger_upto(nodes, progress, data, shorter);
        let earlier = trigger_upto(nodes, progress, data, shorter);
        if earlier.outcome is Ok {
            let node = earlier.template[upto - 1];
            node.data.lemma_trigger(earlier.progress, earlier.data);
            let step = node.data.spec_trigger(earlier.progress, earlier.data);
            let changed = PrefabNode { parent: node.parent, data: step.template };
            lemma_tally_ignores_later(earlier.template, upto - 1, changed, shorter);
            if step.outcome == Ok::<bool, LoadError>(false) && earlier.outcome == Ok::<
                bool,
                LoadError,
            >(false) {
                assert(earlier.template.update(upto - 1, changed) =~= nodes);
            }
        }
    }
}

/// The recording step of a prefix keeps the books as the step of a single
/// template does: the nodes behind the prefix are untouched, no reference
/// is lost, a reference moves from awaiting to ready or broken only, the
/// tracker's counts move with them, and failures are added behind those
/// recorded before. Where nothing is awaited, nothing changes.
pub proof fn lemma_settle_upto<T: PrefabData>(
    nodes: Seq<PrefabNode<T>>,
    progress: ProgressView,
    data: <T::SystemData as View>::V,
    upto: nat,
)
    requires
        upto <= nodes.len(),
        progress.pending >= tally_upto(nodes, upto).awaiting,
    ensures
        ({
            let step = settle_upto(nodes, progress, data, upto);
            let before = tally_upto(nodes, upto);
            let after = tally_upto(step.template, upto);
            &&& step.template.len() == nodes.len()
            &&& forall|i: int| upto <= i < nodes.len() ==> step.template[i] == nodes[i]
            &&& forall|i: int|
                0 <= i < nodes.len() ==> (#[trigger] step.template[i]).parent == nodes[i].parent
            &&& after.unissued == before.unissued
            &&& after.total() == before.total()
            &&& after.ready >= before.ready
            &&& after.broken >= before.broken
            &&& step.progress.pending + before.awaiting == progress.pending + after.awaiting
            &&& step.progress.succeeded + before.ready == progress.succeeded + after.ready
            &&& step.progress.errors.len() + before.broken == progress.errors.len() + after.broken
            &&& progress.errors.is_prefix_of(step.progress.errors)
            &&& before.awaiting == 0 ==> step == (Settled { template: nodes, progress })
        }),
    decreases upto,
{
    if upto > 0 {
        let shorter = (upto - 1) as nat;
        lemma_settle_upto(nodes, progress, data, shorter);
        let earlier = settle_upto(nodes, progress, data, shorter);
        let node = earlier.template[upto - 1];
        node.data.lemma_settle(earlier.progress, data);
        let step = node.data.spec_settle(earlier.progress, data);
        let changed = PrefabNode { parent: node.parent, data: step.template };
        lemma_tally_ignores_later(earlier.template, upto - 1, changed, shorter);
        if tally_upto(nodes, upto).awaiting == 0 {
            assert(earlier.template.update(upto - 1, changed) =~= nodes);
        }
    }
}

/// Once a node has failed, the nodes behind it are left alone.
pub proof fn lemma_trigger_stops<T: PrefabData>(
    nodes: Seq<PrefabNode<T>>,
    progress: ProgressView,
    data: <T::SystemData as View>::V,
    failed: nat,
    upto: nat,
)
    requires
        failed <= upto,
        trigger_upto(nodes, progress, data, failed).outcome is Err,
    ensures
        trigger_upto(nodes, progress, data, upto) == trigger_upto(nodes, progress, data, failed),
    decreases upto - failed,
{
    if failed < upto {
        lemma_trigger_stops(nodes, progress, data, failed, (upto - 1) as nat);
    }
}

/// Once a parent was refused, the nodes behind are left alone.
pub proof fn lemma_link_stops<T>(
    nodes: Seq<PrefabNode<T>>,
    entities: Seq<Entity>,
    parents: Seq<Option<Parent>>,
    failed: nat,
    upto: nat,
)
    requires
        failed <= upto,
        link_upto(nodes, entities, parents, failed).1 is Err,
    ensures
        link_upto(nodes, entities, parents, upto) == link_upto(nodes, entities, parents, failed),
    decreases upto - failed,
{
    if failed < upto {
        lemma_link_stops(nodes, entities, parents, failed, (upto - 1) as nat);
    }
}

/// Once a node could not be applied, the nodes behind it are left alone.
pub proof fn lemma_apply_stops<T: PrefabData>(
    nodes: Seq<PrefabNode<T>>,
    entities: Seq<Entity>,
    data: <T::SystemData as View>::V,
    failed: nat,
    upto: nat,
)
    requires
        failed <= upto,
        apply_upto(nodes, entities, data, failed).outcome is Err,
    ensures
        apply_upto(nodes, entities, data, upto) == apply_upto(nodes, entities, data, failed),
    decreases upto - failed,
{
    if failed < upto {
        lemma_apply_stops(nodes, entities, data, failed, (upto - 1) as nat);
    }
}

/// Where linking succeeds, every node that hangs from another finds its
/// parent: the parent component of its entity names the entity of the node
/// it hangs from, a node that stands before it. Linking adds to the
/// storage and takes nothing away.
pub proof fn law_parents_resolve<T>(
    nodes: Seq<PrefabNode<T>>,
    entities: Seq<Entity>,
    parents: Seq<Option<Parent>>,
    upto: nat,
)
    requires
        well_formed(nodes),
        entities.len() == nodes.len(),
        upto <= nodes.len(),
        link_upto(nodes, entities, parents, upto).1 is Ok,
    ensures
        ({
            let linked = link_upto(nodes, entities, parents, upto).0;
            &&& linked.len() == parents.len()
            &&& forall|k: int| 0 <= k < parents.len() && parents[k] is Some ==> linked[k] == parents[k]
            &&& forall|i: int|
                0 <= i < upto ==> ((#[trigger] nodes[i]).parent matches Some(p) ==> {
                    &&& p < i
                    &&& entities[i].id < linked.len()
                    &&& linked[entities[i].id as int] == Some(Parent { entity: entities[p as int] })
                })
        }),
    decreases upto,
{
    if upto > 0 {
        let shorter = (upto - 1) as nat;
        let earlier = link_upto(nodes, entities, parents, shorter);
        if earlier.1 is Err {
            lemma_link_stops(nodes, entities, parents, shorter, upto);
        }
        law_parents_resolve(nodes, entities, parents, shorter);
    }
}

} // verus!
