//! The template of an element's placement.

use vstd::prelude::*;
use crate::components::{Anchor, Anchored, MouseReactive, Scalar, Stretch, Stretched, UiTransform};
use crate::prefab::{LoadError, Loaded, PrefabData, Settled, Standing, Tally, Triggered};
use crate::progress::{ProgressTracker, ProgressView};
use crate::world::{insert_model, insert_optional_model, vacant, vacant_for, Entity, Storage};

verus! {

/// Loadable placement of an element: where it is, how large it is, and
/// which of the optional placement components it gets.
#[derive(Clone, Debug)]
pub struct UiTransformBuilder {
    pub id: String,
    pub x: Scalar,
    pub y: Scalar,
    pub z: Scalar,
    pub width: Scalar,
    pub height: Scalar,
    pub tab_order: i32,
    /// Whether the element stops events from reaching what lies behind it.
    pub opaque: bool,
    /// Whether position and size are fractions of the parent's.
    pub percent: bool,
    pub stretched: Option<Stretched>,
    pub anchored: Option<Anchored>,
    pub mouse_reactive: bool,
}

/// The storages that a placement is written into.
pub type TransformStorages = (
    Storage<UiTransform>,
    Storage<MouseReactive>,
    Storage<Stretched>,
    Storage<Anchored>,
);

/// What [`TransformStorages`] hold.
pub type TransformSlots = (
    Seq<Option<UiTransform>>,
    Seq<Option<MouseReactive>>,
    Seq<Option<Stretched>>,
    Seq<Option<Anchored>>,
);

impl Default for UiTransformBuilder {
    /// An unnamed element of no size at the origin: opaque to events,
    /// measured in absolute units, without any optional component.
    fn default() -> (builder: UiTransformBuilder)
        ensures
            builder.id@ == Seq::<char>::empty(),
            builder.x == Scalar::spec_zero(),
            builder.y == Scalar::spec_zero(),
            builder.z == Scalar::spec_zero(),
            builder.width == Scalar::spec_zero(),
            builder.height == Scalar::spec_zero(),
            builder.tab_order == 0,
            builder.opaque,
            !builder.percent,
            builder.stretched is None,
            builder.anchored is None,
            !builder.mouse_reactive,
    {
        UiTransformBuilder {
            id: String::new(),
            x: Scalar::zero(),
            y: Scalar::zero(),
            z: Scalar::zero(),
            width: Scalar::zero(),
            height: Scalar::zero(),
            tab_order: 0,
            opaque: true,
            percent: false,
            stretched: None,
            anchored: None,
            mouse_reactive: false,
        }
    }
}

impl UiTransformBuilder {
    /// Sets the id.
    pub fn with_id(self, id: &str) -> (builder: UiTransformBuilder)
        ensures
            builder.id@ == id@,
            builder == (UiTransformBuilder { id: builder.id, ..self }),
    {
        let mut builder = self;
        builder.id = id.to_owned();
        builder
    }

    /// Sets the position.
    pub fn with_position(self, x: Scalar, y: Scalar, z: Scalar) -> (builder: UiTransformBuilder)
        ensures
            builder == (UiTransformBuilder { x, y, z, ..self }),
    {
        let mut builder = self;
        builder.x = x;
        builder.y = y;
        builder.z = z;
        builder
    }

    /// Sets the size.
    pub fn with_size(self, width: Scalar, height: Scalar) -> (builder: UiTransformBuilder)
        ensures
            builder == (UiTransformBuilder { width, height, ..self }),
    {
        let mut builder = self;
        builder.width = width;
        builder.height = height;
        builder
    }

    /// Sets the place in the order in which the tab key visits elements.
    pub fn with_tab_order(self, tab_order: i32) -> (builder: UiTransformBuilder)
        ensures
            builder == (UiTransformBuilder { tab_order, ..self }),
    {
        let mut builder = self;
        builder.tab_order = tab_order;
        builder
    }

    /// Lets events through to what lies behind the element.
    pub fn transparent(self) -> (builder: UiTransformBuilder)
        ensures
            builder == (UiTransformBuilder { opaque: false, ..self }),
    {
        let mut builder = self;
        builder.opaque = false;
        builder
    }

    /// Makes the element react to the mouse.
    pub fn reactive(self) -> (builder: UiTransformBuilder)
        ensures
            builder == (UiTransformBuilder { mouse_reactive: true, ..self }),
    {
        let mut builder = self;
        builder.mouse_reactive = true;
        builder
    }

    /// Places the element against a point of its parent.
    pub fn with_anchor(self, anchor: Anchor) -> (builder: UiTransformBuilder)
        ensures
            builder == (UiTransformBuilder { anchored: Some(Anchored { anchor }), ..self }),
    {
        let mut builder = self;
        builder.anchored = Some(Anchored::new(anchor));
        builder
    }

    /// Lets the element fill its parent along some axes, less a margin.
    pub fn with_stretch(self, stretch: Stretch, margin_x: Scalar, margin_y: Scalar) -> (builder:
        UiTransformBuilder)
        ensures
            builder == (UiTransformBuilder {
                stretched: Some(Stretched { stretch, margin_x, margin_y }),
                ..self
            }),
    {
        let mut builder = self;
        builder.stretched = Some(Stretched::new(stretch, margin_x, margin_y));
        builder
    }

    /// The placement component that this template describes.
    pub open spec fn transform(&self) -> UiTransform {
        UiTransform {
            id: self.id,
            x: self.x,
            y: self.y,
            z: self.z,
            width: self.width,
            height: self.height,
            tab_order: self.tab_order,
            opaque: self.opaque,
            percent: self.percent,
        }
    }

    /// Whether the storages would take everything that this template
    /// describes for `entity`.
    pub open spec fn fits(&self, entity: Entity, data: TransformSlots) -> bool {
        &&& vacant(data.0, entity)
        &&& vacant_for(data.1, entity, self.reaction())
        &&& vacant_for(data.2, entity, self.stretched)
        &&& vacant_for(data.3, entity, self.anchored)
    }

    /// The mouse component that this template describes, if any.
    pub open spec fn reaction(&self) -> Option<MouseReactive> {
        if self.mouse_reactive {
            Some(MouseReactive)
        } else {
            None
        }
    }
}

impl PrefabData for UiTransformBuilder {
    type SystemData = TransformStorages;

    type Output = ();

    type Components = TransformSlots;

    open spec fn tally(&self) -> Tally {
        Tally::none()
    }

    open spec fn components(data: TransformSlots) -> TransformSlots {
        data
    }

    /// A placement refers to no asset: there is nothing to ask for.
    open spec fn spec_trigger(&self, progress: ProgressView, data: TransformSlots) -> Triggered<
        Self,
        TransformSlots,
    > {
        Triggered { template: *self, progress, data, outcome: Ok(false) }
    }

    /// A placement waits for nothing.
    open spec fn spec_settle(&self, progress: ProgressView, data: TransformSlots) -> Settled<Self> {
        Settled { template: *self, progress }
    }

    /// The entity gets the placement, then, as far as the template asks for
    /// them, the mouse component, the stretch and the anchor, in this order.
    /// The first storage that refuses ends the step; what was written before
    /// stays.
    open spec fn spec_load(&self, entity: Entity, entities: Seq<Entity>, data: TransformSlots) -> Loaded<
        TransformSlots,
        (),
    > {
        let (transforms, placed) = insert_model(data.0, entity, self.transform());
        let (reactives, reacting) = insert_optional_model(data.1, entity, self.reaction());
        let (stretches, stretching) = insert_optional_model(data.2, entity, self.stretched);
        let (anchors, anchoring) = insert_optional_model(data.3, entity, self.anchored);
        if let Err(refusal) = placed {
            Loaded { data, outcome: Err(LoadError::Rejected(refusal)) }
        } else if let Err(refusal) = reacting {
            Loaded {
                data: (transforms, data.1, data.2, data.3),
                outcome: Err(LoadError::Rejected(refusal)),
            }
        } else if let Err(refusal) = stretching {
            Loaded {
                data: (transforms, reactives, data.2, data.3),
                outcome: Err(LoadError::Rejected(refusal)),
            }
        } else if let Err(refusal) = anchoring {
            Loaded {
                data: (transforms, reactives, stretches, data.3),
                outcome: Err(LoadError::Rejected(refusal)),
            }
        } else {
            Loaded { data: (transforms, reactives, stretches, anchors), outcome: Ok(()) }
        }
    }

    fn trigger_sub_loading(&mut self, progress: &mut ProgressTracker, data: &mut TransformStorages) -> (outcome:
        Result<bool, LoadError>)
        ensures
            outcome == Ok::<bool, LoadError>(false),
            *final(self) == *old(self),
            final(progress)@ == old(progress)@,
            final(data)@ == old(data)@,
    {
        proof {
            self.lemma_trigger(progress@, data@);
        }
        Ok(false)
    }

    fn settle(&mut self, progress: &mut ProgressTracker, data: &TransformStorages)
        ensures
            *final(self) == *old(self),
            final(progress)@ == old(progress)@,
    {
        proof {
            self.lemma_settle(progress@, data@);
        }
    }

    fn load_prefab(&self, entity: Entity, data: &mut TransformStorages, entities: &[Entity]) -> (outcome:
        Result<(), LoadError>)
        ensures
            (Loaded { data: final(data)@, outcome }) == self.spec_load(
                entity,
                entities@,
                old(data)@,
            ),
            outcome is Ok <==> self.fits(entity, old(data)@),
            outcome is Ok ==> final(data)@ == (
                old(data)@.0.update(entity.id as int, Some(self.transform())),
                insert_optional_model(old(data)@.1, entity, self.reaction()).0,
                insert_optional_model(old(data)@.2, entity, self.stretched).0,
                insert_optional_model(old(data)@.3, entity, self.anchored).0,
            ),
            outcome matches Err(error) ==> error is Rejected,
    {
        let mut transform = UiTransform::new(
            self.id.clone(),
            self.x,
            self.y,
            self.z,
            self.width,
            self.height,
            self.tab_order,
        );
        if !self.opaque {
            transform = transform.as_transparent();
        }
        if self.percent {
            transform = transform.as_percent();
        }
        if let Err(refusal) = data.0.insert(entity, transform) {
            return Err(LoadError::Rejected(refusal));
        }
        if self.mouse_reactive {
            if let Err(refusal) = data.1.insert(entity, MouseReactive) {
                return Err(LoadError::Rejected(refusal));
            }
        }
        if let Some(stretched) = self.stretched {
            if let Err(refusal) = data.2.insert(entity, stretched) {
                return Err(LoadError::Rejected(refusal));
            }
        }
        if let Some(anchored) = self.anchored {
            if let Err(refusal) = data.3.insert(entity, anchored) {
                return Err(LoadError::Rejected(refusal));
            }
        }
        Ok(())
    }

    fn standing(&self) -> (standing: Standing)
        ensures
            standing == (Standing { unissued: false, awaiting: false, broken: false }),
    {
        Standing::clear()
    }

    proof fn lemma_trigger(&self, progress: ProgressView, data: TransformSlots) {
    }

    proof fn lemma_settle(&self, progress: ProgressView, data: TransformSlots) {
    }

    proof fn lemma_retrigger(&self, progress: ProgressView, data: TransformSlots, again: ProgressView) {
    }
}

/// A placement that is written gives its entity exactly the placement
/// component that the template describes, as opaque to events as the
/// template is. A template that was never made transparent is the opaque
/// one that [`UiTransformBuilder::default`] makes, and so is its component.
pub proof fn law_opacity_is_kept(
    builder: UiTransformBuilder,
    entity: Entity,
    entities: Seq<Entity>,
    data: TransformSlots,
)
    requires
        builder.spec_load(entity, entities, data).outcome is Ok,
    ensures
        ({
            let written = builder.spec_load(entity, entities, data).data.0;
            &&& entity.id < written.len()
            &&& written[entity.id as int] == Some(builder.transform())
            &&& builder.transform().opaque == builder.opaque
        }),
{
}

} // verus!
