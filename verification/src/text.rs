//! The template of a line of text.

use vstd::prelude::*;
use crate::assets::{request_model, AssetPrefab, AssetSlot, AssetStore, Format, Handle};
use crate::components::{Color, FontAsset, Scalar, TextEditing, UiText};
use crate::prefab::{LoadError, Loaded, PrefabData, Settled, Standing, Tally, Triggered};
use crate::progress::{ProgressTracker, ProgressView};
use crate::world::{insert_model, insert_optional_model, vacant, vacant_for, Entity, Storage};

verus! {

/// Loadable editing behaviour of a text.
#[derive(Clone, Copy, Debug, PartialEq, Eq, Structural)]
pub struct TextEditingPrefab {
    /// Largest number of graphemes.
    pub max_length: usize,
    /// Colour of the selected text.
    pub selected_text_color: Color,
    /// Colour behind the selected text.
    pub selected_background_color: Color,
    /// Whether the cursor is a block rather than a line.
    pub use_block_cursor: bool,
}

impl Default for TextEditingPrefab {
    /// Twenty graphemes, black on white where selected, a line for a cursor.
    fn default() -> (prefab: TextEditingPrefab)
        ensures
            prefab == (TextEditingPrefab {
                max_length: 20,
                selected_text_color: Color::spec_black(),
                selected_background_color: Color::spec_white(),
                use_block_cursor: false,
            }),
    {
        TextEditingPrefab {
            max_length: 20,
            selected_text_color: Color::black(),
            selected_background_color: Color::white(),
            use_block_cursor: false,
        }
    }
}

impl TextEditingPrefab {
    /// The editing component that this template describes.
    pub open spec fn editing(&self) -> TextEditing {
        TextEditing {
            max_length: self.max_length,
            selected_text_color: self.selected_text_color,
            selected_background_color: self.selected_background_color,
            use_block_cursor: self.use_block_cursor,
        }
    }
}

/// Loadable text: what it says, how it looks, the font it is set in, and
/// whether it can be edited. `F` is the format of the font's source.
pub struct UiTextBuilder<F> {
    /// Text to display.
    pub text: String,
    /// Size of the font.
    pub font_size: Scalar,
    /// Colour of the font.
    pub color: Color,
    /// The font.
    pub font: AssetPrefab<FontAsset, F>,
    /// Whether the text is shown as a password.
    pub password: bool,
    /// Editing behaviour, for a text that can be edited.
    pub editable: Option<TextEditingPrefab>,
}

/// The storages and the font store that a text is written with.
pub type TextStorages<F> = (
    Storage<UiText>,
    Storage<TextEditing>,
    (AssetStore<FontAsset, F>, Storage<Handle<FontAsset>>),
);

/// What [`TextStorages`] hold.
pub type TextSlots<F> = (
    Seq<Option<UiText>>,
    Seq<Option<TextEditing>>,
    (Seq<AssetSlot<FontAsset, F>>, Seq<Option<Handle<FontAsset>>>),
);

/// The components among [`TextSlots`].
pub type TextComponents = (
    Seq<Option<UiText>>,
    Seq<Option<TextEditing>>,
    Seq<Option<Handle<FontAsset>>>,
);

impl<F> UiTextBuilder<F> {
    /// The text component that this template describes, set in `font`.
    pub open spec fn ui_text(&self, font: Handle<FontAsset>) -> UiText {
        UiText {
            font,
            text: self.text,
            color: self.color,
            font_size: self.font_size,
            password: self.password,
        }
    }

    /// Whether the font is there and the storages would take everything
    /// that this template describes for `entity`.
    pub open spec fn fits(&self, entity: Entity, data: TextSlots<F>) -> bool {
        &&& self.font is Loaded
        &&& vacant(data.2.1, entity)
        &&& vacant(data.0, entity)
        &&& vacant_for(data.1, entity, self.editing())
    }

    /// The editing component that this template describes, if any.
    pub open spec fn editing(&self) -> Option<TextEditing> {
        match self.editable {
            Some(prefab) => Some(prefab.editing()),
            None => None,
        }
    }
}

impl<F: Format> PrefabData for UiTextBuilder<F> {
    type SystemData = TextStorages<F>;

    type Output = ();

    type Components = TextComponents;

    open spec fn tally(&self) -> Tally {
        self.font.tally()
    }

    open spec fn components(data: TextSlots<F>) -> TextComponents {
        (data.0, data.1, data.2.1)
    }

    /// The text asks for its font and for nothing else.
    open spec fn spec_trigger(&self, progress: ProgressView, data: TextSlots<F>) -> Triggered<
        Self,
        TextSlots<F>,
    > {
        let step = self.font.spec_trigger(progress, data.2);
        Triggered {
            template: UiTextBuilder { font: step.template, ..*self },
            progress: step.progress,
            data: (data.0, data.1, step.data),
            outcome: step.outcome,
        }
    }

    /// The text looks whether its font has arrived or failed.
    open spec fn spec_settle(&self, progress: ProgressView, data: TextSlots<F>) -> Settled<Self> {
        let step = self.font.spec_settle(progress, data.2);
        Settled { template: UiTextBuilder { font: step.template, ..*self }, progress: step.progress }
    }

    /// The entity gets the font's handle, then the text set in that font,
    /// then, for a text that can be edited, the editing component. The
    /// first refusal ends the step; what was written before stays.
    open spec fn spec_load(&self, entity: Entity, entities: Seq<Entity>, data: TextSlots<F>) -> Loaded<
        TextSlots<F>,
        (),
    > {
        let font = self.font.spec_load(entity, entities, data.2);
        match font.outcome {
            Err(error) => Loaded { data: (data.0, data.1, font.data), outcome: Err(error) },
            Ok(handle) => {
                let (texts, written) = insert_model(data.0, entity, self.ui_text(handle));
                let (editings, edited) = insert_optional_model(data.1, entity, self.editing());
                if let Err(refusal) = written {
                    Loaded {
                        data: (data.0, data.1, font.data),
                        outcome: Err(LoadError::Rejected(refusal)),
                    }
                } else if let Err(refusal) = edited {
                    Loaded {
                        data: (texts, data.1, font.data),
                        outcome: Err(LoadError::Rejected(refusal)),
                    }
                } else {
                    Loaded { data: (texts, editings, font.data), outcome: Ok(()) }
                }
            },
        }
    }

    fn trigger_sub_loading(&mut self, progress: &mut ProgressTracker, data: &mut TextStorages<F>) -> (outcome:
        Result<bool, LoadError>)
        ensures
            (Triggered {
                template: *final(self),
                progress: final(progress)@,
                data: final(data)@,
                outcome,
            }) == old(self).spec_trigger(old(progress)@, old(data)@),
            outcome == Ok::<bool, LoadError>(old(self).font is File),
            *final(self) == (UiTextBuilder { font: final(self).font, ..*old(self) }),
            old(self).font matches AssetPrefab::File(source, format) ==> {
                let (fonts, handle) = request_model(old(data)@.2.0, source, format);
                &&& final(self).font == AssetPrefab::<FontAsset, F>::Requested(handle)
                &&& final(progress)@ == old(progress)@.register()
                &&& final(data)@ == (old(data)@.0, old(data)@.1, (fonts, old(data)@.2.1))
            },
            !(old(self).font is File) ==> {
                &&& *final(self) == *old(self)
                &&& final(progress)@ == old(progress)@
                &&& final(data)@ == old(data)@
            },
            Self::components(final(data)@) == Self::components(old(data)@),
    {
        proof {
            self.lemma_trigger(progress@, data@);
        }
        self.font.trigger_sub_loading(progress, &mut data.2)
    }

    fn settle(&mut self, progress: &mut ProgressTracker, data: &TextStorages<F>)
        ensures
            (Settled { template: *final(self), progress: final(progress)@ })
                == old(self).spec_settle(old(progress)@, data@),
            *final(self) == (UiTextBuilder { font: final(self).font, ..*old(self) }),
    {
        proof {
            self.lemma_settle(progress@, data@);
        }
        self.font.settle(progress, &data.2)
    }

    fn load_prefab(&self, entity: Entity, data: &mut TextStorages<F>, entities: &[Entity]) -> (outcome:
        Result<(), LoadError>)
        ensures
            (Loaded { data: final(data)@, outcome }) == self.spec_load(
                entity,
                entities@,
                old(data)@,
            ),
            outcome is Ok <==> self.fits(entity, old(data)@),
            !(self.font is Loaded) ==> outcome == Err::<(), LoadError>(LoadError::Unavailable)
                && final(data)@ == old(data)@,
            outcome is Ok ==> (self.font matches AssetPrefab::Loaded(font) && final(data)@ == (
                old(data)@.0.update(entity.id as int, Some(self.ui_text(font))),
                insert_optional_model(old(data)@.1, entity, self.editing()).0,
                (old(data)@.2.0, old(data)@.2.1.update(entity.id as int, Some(font))),
            )),
    {
        let font_handle = match self.font.load_prefab(entity, &mut data.2, entities) {
            Ok(handle) => handle,
            Err(error) => {
                return Err(error);
            },
        };
        let mut ui_text = UiText::new(font_handle, self.text.clone(), self.color, self.font_size);
        ui_text.password = self.password;
        if let Err(refusal) = data.0.insert(entity, ui_text) {
            return Err(LoadError::Rejected(refusal));
        }
        if let Some(editing) = self.editable {
            let component = TextEditing::new(
                editing.max_length,
                editing.selected_text_color,
                editing.selected_background_color,
                editing.use_block_cursor,
            );
            if let Err(refusal) = data.1.insert(entity, component) {
                return Err(LoadError::Rejected(refusal));
            }
        }
        Ok(())
    }

    fn standing(&self) -> (standing: Standing)
        ensures
            standing == self.tally().standing(),
    {
        self.font.standing()
    }

    proof fn lemma_trigger(&self, progress: ProgressView, data: TextSlots<F>) {
        self.font.lemma_trigger(progress, data.2);
    }

    proof fn lemma_settle(&self, progress: ProgressView, data: TextSlots<F>) {
        self.font.lemma_settle(progress, data.2);
    }

    proof fn lemma_retrigger(&self, progress: ProgressView, data: TextSlots<F>, again: ProgressView) {
        self.font.lemma_retrigger(progress, data.2, again);
    }
}

} // verus!
