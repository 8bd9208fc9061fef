use ui_prefab::assets::{AssetPrefab, AssetStore, Handle};
use ui_prefab::components::{
    Anchor, Anchored, Color, FontAsset, MouseReactive, Scalar, Stretch, Stretched, TextEditing,
    Texture, UiImage, UiText, UiTransform, ONE_BITS,
};
use ui_prefab::image::{ImageStorages, UiImageBuilder};
use ui_prefab::prefab::{LoadError, PrefabData};
use ui_prefab::progress::{Completion, ProgressTracker};
use ui_prefab::text::{TextEditingPrefab, TextStorages, UiTextBuilder};
use ui_prefab::transform::{TransformStorages, UiTransformBuilder};
use ui_prefab::world::{Entity, InsertError, Storage};

#[derive(Clone, Debug, PartialEq)]
struct Ttf;

impl ui_prefab::Format for Ttf {
    fn same(&self, other: &Self) -> bool {
        self == other
    }
}

#[derive(Clone, Debug, PartialEq)]
struct Png {
    mipmaps: bool,
}

impl ui_prefab::Format for Png {
    fn same(&self, other: &Self) -> bool {
        self == other
    }
}

fn scalar(value: f32) -> Scalar {
    Scalar::from_bits(value.to_bits())
}

fn transform_storages(capacity: usize) -> TransformStorages {
    (
        Storage::with_capacity(capacity),
        Storage::with_capacity(capacity),
        Storage::with_capacity(capacity),
        Storage::with_capacity(capacity),
    )
}

fn text_storages(capacity: usize) -> TextStorages<Ttf> {
    (
        Storage::with_capacity(capacity),
        Storage::with_capacity(capacity),
        (AssetStore::new(), Storage::with_capacity(capacity)),
    )
}

fn image_storages(capacity: usize) -> ImageStorages<Png> {
    (Storage::with_capacity(capacity), (AssetStore::new(), Storage::with_capacity(capacity)))
}

fn hello(editable: Option<TextEditingPrefab>) -> UiTextBuilder<Ttf> {
    UiTextBuilder {
        text: "hello".to_string(),
        font_size: scalar(18.0),
        color: Color::new(scalar(0.25), scalar(0.5), scalar(0.75), scalar(1.0)),
        font: AssetPrefab::File("font/square.ttf".to_string(), Ttf),
        password: true,
        editable,
    }
}

#[test]
fn scalar_keeps_the_bits_of_the_number() {
    assert_eq!(Scalar::zero().to_bits(), 0.0f32.to_bits());
    assert_eq!(Scalar::one().to_bits(), 1.0f32.to_bits());
    assert_eq!(ONE_BITS, 1.0f32.to_bits());
    assert_eq!(f32::from_bits(scalar(-12.5).to_bits()), -12.5);
    assert_eq!(Color::black(), Color::new(scalar(0.), scalar(0.), scalar(0.), scalar(1.)));
    assert_eq!(Color::white(), Color::new(scalar(1.), scalar(1.), scalar(1.), scalar(1.)));
}

#[test]
fn transform_defaults() {
    let builder = UiTransformBuilder::default();
    assert_eq!(builder.id, "");
    assert_eq!(builder.x, scalar(0.));
    assert_eq!(builder.y, scalar(0.));
    assert_eq!(builder.z, scalar(0.));
    assert_eq!(builder.width, scalar(0.));
    assert_eq!(builder.height, scalar(0.));
    assert_eq!(builder.tab_order, 0);
    assert!(builder.opaque);
    assert!(!builder.percent);
    assert_eq!(builder.stretched, None);
    assert_eq!(builder.anchored, None);
    assert!(!builder.mouse_reactive);
}

#[test]
fn transform_setters_set_their_fields_only() {
    let builder = UiTransformBuilder::default()
        .with_id("button")
        .with_position(scalar(1.), scalar(2.), scalar(3.))
        .with_size(scalar(64.), scalar(32.))
        .with_tab_order(-4)
        .transparent()
        .reactive()
        .with_anchor(Anchor::BottomRight)
        .with_stretch(Stretch::XY, scalar(5.), scalar(6.));
    assert_eq!(builder.id, "button");
    assert_eq!((builder.x, builder.y, builder.z), (scalar(1.), scalar(2.), scalar(3.)));
    assert_eq!((builder.width, builder.height), (scalar(64.), scalar(32.)));
    assert_eq!(builder.tab_order, -4);
    assert!(!builder.opaque);
    assert!(!builder.percent);
    assert!(builder.mouse_reactive);
    assert_eq!(builder.anchored, Some(Anchored::new(Anchor::BottomRight)));
    assert_eq!(builder.stretched, Some(Stretched::new(Stretch::XY, scalar(5.), scalar(6.))));

    let sized = UiTransformBuilder::default().with_size(scalar(7.), scalar(8.));
    assert_eq!(sized.id, "");
    assert_eq!(sized.x, scalar(0.));
    assert!(sized.opaque);
    assert!(!sized.mouse_reactive);
    assert_eq!(sized.anchored, None);
}

#[test]
fn transform_component_constructors() {
    let transform = UiTransform::new(
        "panel".to_string(),
        scalar(1.),
        scalar(2.),
        scalar(3.),
        scalar(4.),
        scalar(5.),
        6,
    );
    assert!(transform.opaque);
    assert!(!transform.percent);
    assert_eq!(transform.id, "panel");
    assert_eq!(transform.tab_order, 6);
    let transparent = transform.clone().as_transparent();
    assert!(!transparent.opaque);
    assert!(!transparent.percent);
    let percent = transform.as_percent();
    assert!(percent.opaque);
    assert!(percent.percent);
    assert_eq!(percent.width, scalar(4.));
}

#[test]
fn template_without_opaque_yields_an_opaque_component() {
    let mut data = transform_storages(2);
    let entity = Entity::new(1);
    let builder = UiTransformBuilder::default().with_id("omitted");
    assert_eq!(builder.load_prefab(entity, &mut data, &[]), Ok(()));
    let transform = data.0.get(entity).unwrap();
    assert!(transform.opaque);
    assert!(!transform.percent);
    assert_eq!(transform.id, "omitted");
    assert_eq!(transform.width, scalar(0.));
}

#[test]
fn transform_load_writes_what_the_template_asks_for() {
    let mut data = transform_storages(4);
    let entity = Entity::new(3);
    let mut builder = UiTransformBuilder::default()
        .with_id("slider")
        .with_position(scalar(10.), scalar(20.), scalar(1.))
        .with_size(scalar(100.), scalar(8.))
        .with_tab_order(2)
        .transparent()
        .reactive()
        .with_anchor(Anchor::TopMiddle)
        .with_stretch(Stretch::X, scalar(4.), scalar(0.));
    builder.percent = true;
    let mut progress = ProgressTracker::new();
    assert_eq!(builder.trigger_sub_loading(&mut progress, &mut data), Ok(false));
    builder.settle(&mut progress, &data);
    assert_eq!(progress.completion(), Completion::Complete);
    assert_eq!(progress.num_pending() + progress.num_succeeded() + progress.num_failed(), 0);
    assert!(builder.standing().is_resolved());
    assert_eq!(builder.load_prefab(entity, &mut data, &[]), Ok(()));
    let transform = data.0.get(entity).unwrap();
    assert_eq!(transform.id, "slider");
    assert_eq!((transform.x, transform.y, transform.z), (scalar(10.), scalar(20.), scalar(1.)));
    assert_eq!((transform.width, transform.height), (scalar(100.), scalar(8.)));
    assert_eq!(transform.tab_order, 2);
    assert!(!transform.opaque);
    assert!(transform.percent);
    assert_eq!(data.1.get(entity), Some(&MouseReactive));
    assert_eq!(data.2.get(entity), Some(&Stretched::new(Stretch::X, scalar(4.), scalar(0.))));
    assert_eq!(data.3.get(entity), Some(&Anchored::new(Anchor::TopMiddle)));
    assert_eq!(data.0.count(), 1);
}

#[test]
fn transform_load_leaves_out_what_the_template_does_not_ask_for() {
    let mut data = transform_storages(4);
    let entity = Entity::new(0);
    assert_eq!(UiTransformBuilder::default().load_prefab(entity, &mut data, &[]), Ok(()));
    assert!(data.0.contains(entity));
    assert!(!data.1.contains(entity));
    assert!(!data.2.contains(entity));
    assert!(!data.3.contains(entity));
}

#[test]
fn transform_load_stops_at_the_first_refusal() {
    let mut data: TransformStorages = (
        Storage::with_capacity(4),
        Storage::with_capacity(4),
        Storage::with_capacity(1),
        Storage::with_capacity(4),
    );
    let entity = Entity::new(2);
    let builder = UiTransformBuilder::default()
        .reactive()
        .with_stretch(Stretch::Y, scalar(0.), scalar(0.))
        .with_anchor(Anchor::Middle);
    assert_eq!(
        builder.load_prefab(entity, &mut data, &[]),
        Err(LoadError::Rejected(InsertError::OutOfCapacity))
    );
    assert!(data.0.contains(entity));
    assert!(data.1.contains(entity));
    assert!(!data.2.contains(entity));
    assert!(!data.3.contains(entity));

    let mut full = transform_storages(4);
    assert_eq!(full.0.insert(entity, taken()), Ok(()));
    assert_eq!(
        builder.load_prefab(entity, &mut full, &[]),
        Err(LoadError::Rejected(InsertError::Occupied))
    );
    assert!(!full.1.contains(entity));
    assert!(!full.3.contains(entity));
}

fn taken() -> UiTransform {
    UiTransform::new("taken".to_string(), scalar(0.), scalar(0.), scalar(0.), scalar(0.), scalar(0.), 0)
}

#[test]
fn text_editing_defaults() {
    let editing = TextEditingPrefab::default();
    assert_eq!(editing.max_length, 20);
    assert_eq!(editing.selected_text_color, Color::new(scalar(0.), scalar(0.), scalar(0.), scalar(1.)));
    assert_eq!(
        editing.selected_background_color,
        Color::new(scalar(1.), scalar(1.), scalar(1.), scalar(1.))
    );
    assert!(!editing.use_block_cursor);
}

#[test]
fn text_component_constructors() {
    let text = UiText::new(Handle::from_id(4), "abc".to_string(), Color::white(), scalar(12.));
    assert_eq!(text.font.id(), 4);
    assert_eq!(text.text, "abc");
    assert_eq!(text.color, Color::white());
    assert_eq!(text.font_size, scalar(12.));
    assert!(!text.password);
    let editing = TextEditing::new(9, Color::black(), Color::white(), true);
    assert_eq!(editing.max_length, 9);
    assert_eq!(editing.selected_text_color, Color::black());
    assert_eq!(editing.selected_background_color, Color::white());
    assert!(editing.use_block_cursor);
}

#[test]
fn text_asks_for_its_font_and_writes_once_it_is_there() {
    let mut data = text_storages(4);
    let mut progress = ProgressTracker::new();
    let editing = TextEditingPrefab { max_length: 8, use_block_cursor: true, ..TextEditingPrefab::default() };
    let mut builder = hello(Some(editing));
    assert!(builder.standing().unissued);
    assert_eq!(builder.trigger_sub_loading(&mut progress, &mut data), Ok(true));
    assert_eq!(builder.trigger_sub_loading(&mut progress, &mut data), Ok(false));
    assert_eq!(data.2 .0.len(), 1);
    assert_eq!(data.2 .0.source(Handle::from_id(0)), Some(&"font/square.ttf".to_string()));
    assert_eq!(progress.completion(), Completion::Loading);
    assert_eq!(data.2 .0.complete(Handle::from_id(0), FontAsset { data: vec![1, 2] }), Ok(()));
    assert_eq!(builder.trigger_sub_loading(&mut progress, &mut data), Ok(false));
    assert_eq!(progress.completion(), Completion::Loading);
    builder.settle(&mut progress, &data);
    assert_eq!(progress.completion(), Completion::Complete);
    assert!(builder.standing().is_resolved());

    let entity = Entity::new(1);
    assert_eq!(builder.load_prefab(entity, &mut data, &[]), Ok(()));
    let text = data.0.get(entity).unwrap();
    assert_eq!(text.font.id(), 0);
    assert_eq!(text.text, "hello");
    assert_eq!(text.font_size, scalar(18.));
    assert_eq!(text.color, Color::new(scalar(0.25), scalar(0.5), scalar(0.75), scalar(1.0)));
    assert!(text.password);
    assert_eq!(data.1.get(entity), Some(&TextEditing::new(8, Color::black(), Color::white(), true)));
    assert_eq!(data.2 .1.get(entity).map(|h| h.id()), Some(0));
}

#[test]
fn text_that_cannot_be_edited_gets_no_editing_component() {
    let mut data = text_storages(2);
    let mut progress = ProgressTracker::new();
    let mut builder = hello(None);
    assert_eq!(builder.trigger_sub_loading(&mut progress, &mut data), Ok(true));
    assert_eq!(data.2 .0.complete(Handle::from_id(0), FontAsset { data: vec![] }), Ok(()));
    builder.settle(&mut progress, &data);
    let entity = Entity::new(0);
    assert_eq!(builder.load_prefab(entity, &mut data, &[]), Ok(()));
    assert!(data.0.contains(entity));
    assert!(!data.1.contains(entity));
}

#[test]
fn text_load_stops_at_the_first_refusal() {
    let mut data: TextStorages<Ttf> = (
        Storage::with_capacity(4),
        Storage::with_capacity(0),
        (AssetStore::new(), Storage::with_capacity(4)),
    );
    let mut progress = ProgressTracker::new();
    let mut builder = hello(Some(TextEditingPrefab::default()));
    assert_eq!(builder.trigger_sub_loading(&mut progress, &mut data), Ok(true));
    assert_eq!(data.2 .0.complete(Handle::from_id(0), FontAsset { data: vec![] }), Ok(()));
    builder.settle(&mut progress, &data);
    let entity = Entity::new(2);
    assert_eq!(
        builder.load_prefab(entity, &mut data, &[]),
        Err(LoadError::Rejected(InsertError::OutOfCapacity))
    );
    assert!(data.2 .1.contains(entity));
    assert!(data.0.contains(entity));
    assert_eq!(
        builder.load_prefab(entity, &mut data, &[]),
        Err(LoadError::Rejected(InsertError::Occupied))
    );
}

#[test]
fn image_asks_for_its_texture_and_writes_once_it_is_there() {
    let mut data = image_storages(3);
    let mut progress = ProgressTracker::new();
    let mut builder = UiImageBuilder {
        image: AssetPrefab::File("texture/logo.png".to_string(), Png { mipmaps: true }),
    };
    assert_eq!(builder.trigger_sub_loading(&mut progress, &mut data), Ok(true));
    assert_eq!(data.1 .0.format(Handle::from_id(0)), Some(&Png { mipmaps: true }));
    assert_eq!(data.1 .0.complete(Handle::from_id(0), Texture { data: vec![9] }), Ok(()));
    assert_eq!(builder.trigger_sub_loading(&mut progress, &mut data), Ok(false));
    assert_eq!(progress.num_pending(), 1);
    builder.settle(&mut progress, &data);
    assert_eq!(progress.completion(), Completion::Complete);
    let entity = Entity::new(2);
    let siblings = [Entity::new(2), Entity::new(0)];
    assert_eq!(builder.load_prefab(entity, &mut data, &siblings), Ok(()));
    let image: &UiImage = data.0.get(entity).unwrap();
    assert_eq!(image.texture.id(), 0);
    assert_eq!(data.1 .1.get(entity).map(|h| h.id()), Some(0));
    assert_eq!(
        builder.load_prefab(entity, &mut data, &siblings),
        Err(LoadError::Rejected(InsertError::Occupied))
    );
    assert_eq!(data.0.count(), 1);
}

#[test]
fn the_loading_step_of_a_text_touches_the_font_reference_only() {
    let mut data = text_storages(4);
    let mut progress = ProgressTracker::new();
    let editing = TextEditingPrefab { max_length: 8, ..TextEditingPrefab::default() };
    let mut builder = hello(Some(editing));
    assert_eq!(builder.trigger_sub_loading(&mut progress, &mut data), Ok(true));
    assert_eq!(progress.num_pending(), 1);
    assert_eq!(progress.num_succeeded(), 0);
    assert_eq!(progress.num_failed(), 0);
    assert!(matches!(builder.font, AssetPrefab::Requested(_)));
    assert_eq!(builder.font.handle().map(|h| h.id()), Some(0));
    assert_eq!(builder.text, "hello");
    assert_eq!(builder.font_size, scalar(18.));
    assert_eq!(builder.color, Color::new(scalar(0.25), scalar(0.5), scalar(0.75), scalar(1.0)));
    assert!(builder.password);
    assert_eq!(builder.editable, Some(editing));
    assert_eq!(data.0.count(), 0);
    assert_eq!(data.1.count(), 0);
    assert_eq!(data.2 .1.count(), 0);

    assert_eq!(builder.trigger_sub_loading(&mut progress, &mut data), Ok(false));
    assert_eq!(progress.num_pending(), 1);
    assert_eq!(builder.font.handle().map(|h| h.id()), Some(0));
    assert_eq!(data.2 .0.len(), 1);
    assert_eq!(data.0.count(), 0);
}

#[test]
fn a_text_whose_font_failed_asks_no_more_and_stays_failed() {
    let mut data = text_storages(4);
    let mut progress = ProgressTracker::new();
    let mut builder = hello(Some(TextEditingPrefab::default()));
    assert_eq!(builder.trigger_sub_loading(&mut progress, &mut data), Ok(true));
    assert_eq!(data.2 .0.fail(Handle::from_id(0), "bad magic".to_string()), Ok(()));
    builder.settle(&mut progress, &data);
    assert_eq!(progress.completion(), Completion::Failed);
    assert_eq!(progress.errors(), &vec!["bad magic".to_string()]);
    assert!(matches!(builder.font, AssetPrefab::Failed(_)));
    assert_eq!(builder.trigger_sub_loading(&mut progress, &mut data), Ok(false));
    builder.settle(&mut progress, &data);
    assert_eq!(progress.completion(), Completion::Failed);
    assert_eq!(progress.num_failed(), 1);
    assert_eq!(progress.num_pending(), 0);
    assert_eq!(data.2 .0.len(), 1);
    assert_eq!(builder.load_prefab(Entity::new(1), &mut data, &[]), Err(LoadError::Unavailable));
    assert_eq!(data.0.count(), 0);
    assert_eq!(data.1.count(), 0);
    assert_eq!(data.2 .1.count(), 0);
}

#[test]
fn two_texts_in_one_font_share_the_asset() {
    let mut data = text_storages(4);
    let mut progress = ProgressTracker::new();
    let mut first = hello(None);
    let mut second = hello(Some(TextEditingPrefab::default()));
    assert_eq!(first.trigger_sub_loading(&mut progress, &mut data), Ok(true));
    assert_eq!(second.trigger_sub_loading(&mut progress, &mut data), Ok(true));
    assert_eq!(data.2 .0.len(), 1);
    assert_eq!(progress.num_pending(), 2);
    assert_eq!(first.font.handle().map(|h| h.id()), Some(0));
    assert_eq!(second.font.handle().map(|h| h.id()), Some(0));
    assert_eq!(data.2 .0.complete(Handle::from_id(0), FontAsset { data: vec![3] }), Ok(()));
    first.settle(&mut progress, &data);
    second.settle(&mut progress, &data);
    assert_eq!(progress.completion(), Completion::Complete);
    let siblings = [Entity::new(0), Entity::new(1)];
    assert_eq!(first.load_prefab(siblings[0], &mut data, &siblings), Ok(()));
    assert_eq!(second.load_prefab(siblings[1], &mut data, &siblings), Ok(()));
    assert_eq!(data.0.get(Entity::new(0)).map(|t| t.font.id()), Some(0));
    assert_eq!(data.0.get(Entity::new(1)).map(|t| t.font.id()), Some(0));
}
