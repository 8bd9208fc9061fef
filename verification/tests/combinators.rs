use ui_prefab::assets::{AssetPrefab, AssetStore, Handle};
use ui_prefab::components::{Anchor, Color, FontAsset, Scalar};
use ui_prefab::image::{ImageStorages, UiImageBuilder};
use ui_prefab::prefab::{LoadError, PrefabData};
use ui_prefab::progress::{Completion, ProgressTracker};
use ui_prefab::text::{TextStorages, UiTextBuilder};
use ui_prefab::transform::{TransformStorages, UiTransformBuilder};
use ui_prefab::world::{Entity, InsertError, Storage};

#[derive(Clone, Debug, PartialEq)]
struct Raw;

impl ui_prefab::Format for Raw {
    fn same(&self, other: &Self) -> bool {
        self == other
    }
}

fn transform_storages(capacity: usize) -> TransformStorages {
    (
        Storage::with_capacity(capacity),
        Storage::with_capacity(capacity),
        Storage::with_capacity(capacity),
        Storage::with_capacity(capacity),
    )
}

fn text_storages(capacity: usize) -> TextStorages<Raw> {
    (
        Storage::with_capacity(capacity),
        Storage::with_capacity(capacity),
        (AssetStore::new(), Storage::with_capacity(capacity)),
    )
}

fn image_storages(capacity: usize) -> ImageStorages<Raw> {
    (Storage::with_capacity(capacity), (AssetStore::new(), Storage::with_capacity(capacity)))
}

fn label(source: &str) -> UiTextBuilder<Raw> {
    UiTextBuilder {
        text: "label".to_string(),
        font_size: Scalar::one(),
        color: Color::white(),
        font: AssetPrefab::File(source.to_string(), Raw),
        password: false,
        editable: None,
    }
}

fn picture(source: &str) -> UiImageBuilder<Raw> {
    UiImageBuilder { image: AssetPrefab::File(source.to_string(), Raw) }
}

#[test]
fn an_absent_template_does_nothing() {
    let mut data = text_storages(2);
    let mut progress = ProgressTracker::new();
    let mut absent: Option<UiTextBuilder<Raw>> = None;
    assert!(absent.standing().is_resolved());
    assert_eq!(absent.trigger_sub_loading(&mut progress, &mut data), Ok(false));
    absent.settle(&mut progress, &data);
    assert_eq!(progress.num_pending(), 0);
    assert_eq!(data.2 .0.len(), 0);
    assert_eq!(absent.load_prefab(Entity::new(0), &mut data, &[]), Ok(None));
    assert_eq!(data.0.count(), 0);
    assert_eq!(data.2 .1.count(), 0);
}

#[test]
fn a_present_template_does_what_it_holds() {
    let mut data = text_storages(2);
    let mut progress = ProgressTracker::new();
    let mut present = Some(label("a.ttf"));
    assert_eq!(present.trigger_sub_loading(&mut progress, &mut data), Ok(true));
    assert_eq!(present.trigger_sub_loading(&mut progress, &mut data), Ok(false));
    assert_eq!(progress.num_pending(), 1);
    assert_eq!(data.2 .0.complete(Handle::from_id(0), FontAsset { data: vec![] }), Ok(()));
    present.settle(&mut progress, &data);
    assert_eq!(progress.num_succeeded(), 1);
    assert_eq!(present.load_prefab(Entity::new(1), &mut data, &[]), Ok(Some(())));
    assert!(data.0.contains(Entity::new(1)));
    assert_eq!(
        present.load_prefab(Entity::new(1), &mut data, &[]),
        Err(LoadError::Rejected(InsertError::Occupied))
    );
}

#[test]
fn a_pair_asks_for_both_and_says_whether_either_asked() {
    let mut data = (text_storages(2), image_storages(2));
    let mut progress = ProgressTracker::new();
    let mut pair = (label("a.ttf"), picture("b.png"));
    assert_eq!(pair.trigger_sub_loading(&mut progress, &mut data), Ok(true));
    assert_eq!(progress.num_pending(), 2);
    assert_eq!(data.0 .2 .0.len(), 1);
    assert_eq!(data.1 .1 .0.len(), 1);
    assert_eq!(pair.trigger_sub_loading(&mut progress, &mut data), Ok(false));
    assert_eq!(progress.num_pending(), 2);
    assert!(pair.standing().awaiting);

    let mut second_only = (UiTransformBuilder::default(), picture("c.png"));
    let mut other = (transform_storages(2), image_storages(2));
    let mut tracker = ProgressTracker::new();
    assert_eq!(second_only.trigger_sub_loading(&mut tracker, &mut other), Ok(true));
    assert_eq!(tracker.num_pending(), 1);
}

#[test]
fn a_pair_writes_in_order_and_stops_at_the_first_failure() {
    let entity = Entity::new(1);
    let first = UiTransformBuilder::default().with_anchor(Anchor::Middle);
    let second = UiTransformBuilder::default().reactive();
    let pair = (first, second);

    let mut data = (transform_storages(2), transform_storages(2));
    assert_eq!(pair.load_prefab(entity, &mut data, &[]), Ok(()));
    assert!(data.0 .3.contains(entity));
    assert!(data.1 .1.contains(entity));

    let mut first_full = (transform_storages(1), transform_storages(2));
    assert_eq!(
        pair.load_prefab(entity, &mut first_full, &[]),
        Err(LoadError::Rejected(InsertError::OutOfCapacity))
    );
    assert_eq!(first_full.1 .0.count(), 0);
    assert_eq!(first_full.1 .1.count(), 0);

    let mut second_full = (transform_storages(2), transform_storages(1));
    assert_eq!(
        pair.load_prefab(entity, &mut second_full, &[]),
        Err(LoadError::Rejected(InsertError::OutOfCapacity))
    );
    assert!(second_full.0 .0.contains(entity));
    assert!(second_full.0 .3.contains(entity));
}

#[test]
fn a_scene_of_optional_parts() {
    let mut scene = (
        Some(UiTransformBuilder::default().with_id("scene")),
        Some(label("a.ttf")),
        None::<UiImageBuilder<Raw>>,
    );
    let mut data = (transform_storages(3), text_storages(3), image_storages(3));
    let mut progress = ProgressTracker::new();
    assert_eq!(scene.trigger_sub_loading(&mut progress, &mut data), Ok(true));
    assert_eq!(progress.num_pending(), 1);
    assert_eq!(progress.completion(), Completion::Loading);
    assert_eq!(data.1 .2 .0.complete(Handle::from_id(0), FontAsset { data: vec![] }), Ok(()));
    assert_eq!(scene.trigger_sub_loading(&mut progress, &mut data), Ok(false));
    assert_eq!(progress.completion(), Completion::Loading);
    scene.settle(&mut progress, &data);
    assert_eq!(progress.completion(), Completion::Complete);
    assert!(scene.standing().is_resolved());
    let entity = Entity::new(2);
    assert_eq!(scene.load_prefab(entity, &mut data, &[entity]), Ok(()));
    assert_eq!(data.0 .0.get(entity).map(|t| t.id.as_str()), Some("scene"));
    assert!(data.1 .0.contains(entity));
    assert!(!data.2 .0.contains(entity));
}

#[test]
fn a_triple_stops_at_the_first_failure() {
    let triple = (
        UiTransformBuilder::default(),
        UiTransformBuilder::default().reactive(),
        UiTransformBuilder::default().with_anchor(Anchor::TopLeft),
    );
    let entity = Entity::new(1);
    let mut data = (transform_storages(2), transform_storages(1), transform_storages(2));
    assert_eq!(
        triple.load_prefab(entity, &mut data, &[]),
        Err(LoadError::Rejected(InsertError::OutOfCapacity))
    );
    assert!(data.0 .0.contains(entity));
    assert_eq!(data.1 .0.count(), 0);
    assert_eq!(data.2 .0.count(), 0);
    assert_eq!(data.2 .3.count(), 0);
}

#[test]
fn a_failed_part_fails_the_tracker_for_all() {
    let mut data = (text_storages(2), image_storages(2));
    let mut progress = ProgressTracker::new();
    let mut pair = (label("a.ttf"), picture("b.png"));
    assert_eq!(pair.trigger_sub_loading(&mut progress, &mut data), Ok(true));
    assert_eq!(data.0 .2 .0.complete(Handle::from_id(0), FontAsset { data: vec![] }), Ok(()));
    assert_eq!(data.1 .1 .0.fail(Handle::from_id(0), "not an image".to_string()), Ok(()));
    assert_eq!(pair.trigger_sub_loading(&mut progress, &mut data), Ok(false));
    assert_eq!(progress.completion(), Completion::Loading);
    pair.settle(&mut progress, &data);
    assert_eq!(progress.completion(), Completion::Failed);
    assert_eq!(progress.num_succeeded(), 1);
    assert_eq!(progress.errors(), &vec!["not an image".to_string()]);
    assert!(pair.standing().broken);
    assert!(!pair.standing().is_resolved());
}
