//! The template of an image.

use vstd::prelude::*;
use crate::assets::{request_model, AssetPrefab, AssetSlot, AssetStore, Format, Handle};
use crate::components::{Texture, UiImage};
use crate::prefab::{LoadError, Loaded, PrefabData, Settled, Standing, Tally, Triggered};
use crate::progress::{ProgressTracker, ProgressView};
use crate::world::{insert_model, vacant, Entity, Storage};

verus! {

/// A reference to a texture. `F` is the format of the texture's source,
/// with whatever the decoder needs to know besides.
pub type TexturePrefab<F> = AssetPrefab<Texture, F>;

/// Loadable image. `F` is the format of the texture's source.
#[derive(Clone)]
pub struct UiImageBuilder<F> {
    /// The image.
    pub image: TexturePrefab<F>,
}

/// The storage and the texture store that an image is written with.
pub type ImageStorages<F> = (Storage<UiImage>, (AssetStore<Texture, F>, Storage<Handle<Texture>>));

/// What [`ImageStorages`] hold.
pub type ImageSlots<F> = (
    Seq<Option<UiImage>>,
    (Seq<AssetSlot<Texture, F>>, Seq<Option<Handle<Texture>>>),
);

/// The components among [`ImageSlots`].
pub type ImageComponents = (Seq<Option<UiImage>>, Seq<Option<Handle<Texture>>>);

impl<F> UiImageBuilder<F> {
    /// Whether the texture is there and the storages would take what this
    /// template describes for `entity`.
    pub open spec fn fits(&self, entity: Entity, data: ImageSlots<F>) -> bool {
        &&& self.image is Loaded
        &&& vacant(data.1.1, entity)
        &&& vacant(data.0, entity)
    }
}

impl<F: Format> PrefabData for UiImageBuilder<F> {
    type SystemData = ImageStorages<F>;

    type Output = ();

    type Components = ImageComponents;

    open spec fn tally(&self) -> Tally {
        self.image.tally()
    }

    open spec fn components(data: ImageSlots<F>) -> ImageComponents {
        (data.0, data.1.1)
    }

    /// The image asks for its texture and for nothing else.
    open spec fn spec_trigger(&self, progress: ProgressView, data: ImageSlots<F>) -> Triggered<
        Self,
        ImageSlots<F>,
    > {
        let step = self.image.spec_trigger(progress, data.1);
        Triggered {
            template: UiImageBuilder { image: step.template },
            progress: step.progress,
            data: (data.0, step.data),
            outcome: step.outcome,
        }
    }

    /// The image looks whether its texture has arrived or failed.
    open spec fn spec_settle(&self, progress: ProgressView, data: ImageSlots<F>) -> Settled<Self> {
        let step = self.image.spec_settle(progress, data.1);
        Settled { template: UiImageBuilder { image: step.template }, progress: step.progress }
    }

    /// The entity gets the texture's handle, then the image that shows that
    /// texture. The first refusal ends the step; what was written before
    /// stays.
    open spec fn spec_load(&self, entity: Entity, entities: Seq<Entity>, data: ImageSlots<F>) -> Loaded<
        ImageSlots<F>,
        (),
    > {
        let texture = self.image.spec_load(entity, entities, data.1);
        match texture.outcome {
            Err(error) => Loaded { data: (data.0, texture.data), outcome: Err(error) },
            Ok(handle) => {
                let (images, shown) = insert_model(data.0, entity, UiImage { texture: handle });
                Loaded {
                    data: (images, texture.data),
                    outcome: match shown {
                        Ok(()) => Ok(()),
                        Err(refusal) => Err(LoadError::Rejected(refusal)),
                    },
                }
            },
        }
    }

    fn trigger_sub_loading(&mut self, progress: &mut ProgressTracker, data: &mut ImageStorages<F>) -> (outcome:
        Result<bool, LoadError>)
        ensures
            (Triggered {
                template: *final(self),
                progress: final(progress)@,
                data: final(data)@,
                outcome,
            }) == old(self).spec_trigger(old(progress)@, old(data)@),
            outcome == Ok::<bool, LoadError>(old(self).image is File),
            old(self).image matches AssetPrefab::File(source, format) ==> {
                let (textures, handle) = request_model(old(data)@.1.0, source, format);
                &&& final(self).image == AssetPrefab::<Texture, F>::Requested(handle)
                &&& final(progress)@ == old(progress)@.register()
                &&& final(data)@ == (old(data)@.0, (textures, old(data)@.1.1))
            },
            !(old(self).image is File) ==> {
                &&& *final(self) == *old(self)
                &&& final(progress)@ == old(progress)@
                &&& final(data)@ == old(data)@
            },
            Self::components(final(data)@) == Self::components(old(data)@),
    {
        proof {
            self.lemma_trigger(progress@, data@);
        }
        self.image.trigger_sub_loading(progress, &mut data.1)
    }

    fn settle(&mut self, progress: &mut ProgressTracker, data: &ImageStorages<F>)
        ensures
            (Settled { template: *final(self), progress: final(progress)@ })
                == old(self).spec_settle(old(progress)@, data@),
    {
        proof {
            self.lemma_settle(progress@, data@);
        }
        self.image.settle(progress, &data.1)
    }

    fn load_prefab(&self, entity: Entity, data: &mut ImageStorages<F>, entities: &[Entity]) -> (outcome:
        Result<(), LoadError>)
        ensures
            (Loaded { data: final(data)@, outcome }) == self.spec_load(
                entity,
                entities@,
                old(data)@,
            ),
            outcome is Ok <==> self.fits(entity, old(data)@),
            !(self.image is Loaded) ==> outcome == Err::<(), LoadError>(LoadError::Unavailable)
                && final(data)@ == old(data)@,
            outcome is Ok ==> (self.image matches AssetPrefab::Loaded(texture) && final(data)@ == (
                old(data)@.0.update(entity.id as int, Some(UiImage { texture })),
                (old(data)@.1.0, old(data)@.1.1.update(entity.id as int, Some(texture))),
            )),
    {
        let texture_handle = match self.image.load_prefab(entity, &mut data.1, entities) {
            Ok(handle) => handle,
            Err(error) => {
                return Err(error);
            },
        };
        match data.0.insert(entity, UiImage { texture: texture_handle }) {
            Ok(()) => Ok(()),
            Err(refusal) => Err(LoadError::Rejected(refusal)),
        }
    }

    fn standing(&self) -> (standing: Standing)
        ensures
            standing == self.tally().standing(),
    {
        self.image.standing()
    }

    proof fn lemma_trigger(&self, progress: ProgressView, data: ImageSlots<F>) {
        self.image.lemma_trigger(progress, data.1);
    }

    proof fn lemma_settle(&self, progress: ProgressView, data: ImageSlots<F>) {
        self.image.lemma_settle(progress, data.1);
    }

    proof fn lemma_retrigger(&self, progress: ProgressView, data: ImageSlots<F>, again: ProgressView) {
        self.image.lemma_retrigger(progress, data.1, again);
    }
}

} // verus!
