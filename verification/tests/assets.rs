use ui_prefab::assets::{AssetPrefab, AssetState, AssetStore, Handle, ResolveError};
use ui_prefab::Format as _;
use ui_prefab::prefab::{LoadError, PrefabData};
use ui_prefab::progress::{Completion, ProgressTracker};
use ui_prefab::world::{Entity, InsertError, Storage};

#[derive(Clone, Debug, PartialEq)]
enum Format {
    Ttf,
    Otf,
}

impl ui_prefab::Format for Format {
    fn same(&self, other: &Self) -> bool {
        self == other
    }
}

type Fonts = AssetStore<Vec<u8>, Format>;

fn font_data() -> (Fonts, Storage<Handle<Vec<u8>>>) {
    (AssetStore::new(), Storage::with_capacity(4))
}

#[test]
fn request_returns_at_once_with_a_loading_asset() {
    let mut store: Fonts = AssetStore::new();
    let handle = store.request("square.ttf".to_string(), Format::Ttf);
    assert_eq!(handle.id(), 0);
    assert_eq!(store.len(), 1);
    assert!(matches!(store.poll(handle), Some(AssetState::Loading)));
    assert_eq!(store.source(handle), Some(&"square.ttf".to_string()));
    assert_eq!(store.format(handle), Some(&Format::Ttf));
}

#[test]
fn requests_for_different_sources_get_different_assets() {
    let mut store: Fonts = AssetStore::new();
    let first = store.request("a.ttf".to_string(), Format::Ttf);
    let second = store.request("b.otf".to_string(), Format::Otf);
    assert_eq!(first.id(), 0);
    assert_eq!(second.id(), 1);
    assert_eq!(store.len(), 2);
    assert_eq!(store.find(&"b.otf".to_string(), &Format::Otf).map(|h| h.id()), Some(1));
    assert_eq!(store.find(&"b.otf".to_string(), &Format::Ttf).map(|h| h.id()), None);
    assert_eq!(store.find(&"c.ttf".to_string(), &Format::Ttf).map(|h| h.id()), None);
}

#[test]
fn requests_for_the_same_source_share_one_asset() {
    let mut store: Fonts = AssetStore::new();
    let first = store.request("a.ttf".to_string(), Format::Ttf);
    let other = store.request("b.ttf".to_string(), Format::Ttf);
    let second = store.request("a.ttf".to_string(), Format::Ttf);
    assert_eq!(first.id(), second.id());
    assert_ne!(first.id(), other.id());
    assert_eq!(store.len(), 2);
    assert_eq!(store.format(second), Some(&Format::Ttf));
    assert_eq!(store.complete(first, vec![1, 2, 3]), Ok(()));
    assert!(matches!(store.poll(second), Some(AssetState::Ready(data)) if data == &vec![1u8, 2, 3]));
}

#[test]
fn the_same_source_in_another_format_is_another_asset() {
    let mut store: Fonts = AssetStore::new();
    let first = store.request("a.font".to_string(), Format::Ttf);
    let second = store.request("a.font".to_string(), Format::Otf);
    let third = store.request("a.font".to_string(), Format::Otf);
    assert_eq!(first.id(), 0);
    assert_eq!(second.id(), 1);
    assert_eq!(third.id(), 1);
    assert_eq!(store.len(), 2);
    assert_eq!(store.format(first), Some(&Format::Ttf));
    assert_eq!(store.format(second), Some(&Format::Otf));
    assert_eq!(store.complete(first, vec![1]), Ok(()));
    assert!(matches!(store.poll(second), Some(AssetState::Loading)));
}

#[test]
fn the_formats_of_the_library_tell_themselves_apart() {
    assert!(().same(&()));
    assert!(7u32.same(&7));
    assert!(!7u32.same(&8));
    let mut numbered: AssetStore<u8, u32> = AssetStore::new();
    assert_eq!(numbered.request("a".to_string(), 1).id(), 0);
    assert_eq!(numbered.request("a".to_string(), 2).id(), 1);
    assert_eq!(numbered.request("a".to_string(), 1).id(), 0);
    let mut plain: AssetStore<u8, ()> = AssetStore::new();
    assert_eq!(plain.request("a".to_string(), ()).id(), 0);
    assert_eq!(plain.request("a".to_string(), ()).id(), 0);
    assert_eq!(plain.request("b".to_string(), ()).id(), 1);
}

#[test]
fn an_asset_arrives_once() {
    let mut store: Fonts = AssetStore::new();
    let handle = store.request("a.ttf".to_string(), Format::Ttf);
    assert_eq!(store.complete(handle, vec![7]), Ok(()));
    assert!(matches!(store.poll(handle), Some(AssetState::Ready(data)) if data == &vec![7u8]));
    assert_eq!(store.complete(handle, vec![8]), Err(ResolveError::AlreadyResolved));
    assert_eq!(store.fail(handle, "late".to_string()), Err(ResolveError::AlreadyResolved));
    assert!(matches!(store.poll(handle), Some(AssetState::Ready(data)) if data == &vec![7u8]));
}

#[test]
fn a_failed_asset_keeps_its_reason() {
    let mut store: Fonts = AssetStore::new();
    let handle = store.request("a.ttf".to_string(), Format::Ttf);
    assert_eq!(store.fail(handle, "not a font".to_string()), Ok(()));
    assert!(matches!(store.poll(handle), Some(AssetState::Failed(why)) if why == "not a font"));
    assert_eq!(store.complete(handle, vec![1]), Err(ResolveError::AlreadyResolved));
}

#[test]
fn an_unknown_handle_is_refused() {
    let mut store: Fonts = AssetStore::new();
    let stranger: Handle<Vec<u8>> = Handle::from_id(3);
    assert!(store.poll(stranger).is_none());
    assert_eq!(store.source(stranger), None);
    assert_eq!(store.format(stranger), None);
    assert_eq!(store.complete(stranger, vec![]), Err(ResolveError::UnknownHandle));
    assert_eq!(store.fail(stranger, "x".to_string()), Err(ResolveError::UnknownHandle));
    assert_eq!(store.len(), 0);
}

#[test]
fn next_loading_finds_the_work_in_order() {
    let mut store: Fonts = AssetStore::new();
    let a = store.request("a".to_string(), Format::Ttf);
    let b = store.request("b".to_string(), Format::Ttf);
    let c = store.request("c".to_string(), Format::Ttf);
    assert_eq!(store.next_loading(0).map(|h| h.id()), Some(0));
    assert_eq!(store.complete(a, vec![]), Ok(()));
    assert_eq!(store.next_loading(0).map(|h| h.id()), Some(1));
    assert_eq!(store.fail(b, "gone".to_string()), Ok(()));
    assert_eq!(store.next_loading(0).map(|h| h.id()), Some(2));
    assert_eq!(store.next_loading(3).map(|h| h.id()), None);
    assert_eq!(store.complete(c, vec![]), Ok(()));
    assert_eq!(store.next_loading(0).map(|h| h.id()), None);
}

#[test]
fn a_reference_asks_once() {
    let mut data = font_data();
    let mut progress = ProgressTracker::new();
    let mut font: AssetPrefab<Vec<u8>, Format> = AssetPrefab::File("a.ttf".to_string(), Format::Ttf);
    assert!(font.handle().is_none());
    assert!(font.standing().unissued);
    assert_eq!(font.trigger_sub_loading(&mut progress, &mut data), Ok(true));
    assert_eq!(font.handle().map(|h| h.id()), Some(0));
    assert!(matches!(font, AssetPrefab::Requested(_)));
    assert_eq!(progress.num_pending(), 1);
    assert_eq!(data.0.len(), 1);
    assert_eq!(font.trigger_sub_loading(&mut progress, &mut data), Ok(false));
    assert_eq!(font.trigger_sub_loading(&mut progress, &mut data), Ok(false));
    assert_eq!(progress.num_pending(), 1);
    assert_eq!(data.0.len(), 1);
    assert!(font.standing().awaiting);
    assert!(!font.standing().is_resolved());
}

#[test]
fn the_loading_step_records_no_end() {
    let mut data = font_data();
    let mut progress = ProgressTracker::new();
    let mut font: AssetPrefab<Vec<u8>, Format> = AssetPrefab::File("a.ttf".to_string(), Format::Ttf);
    assert_eq!(font.trigger_sub_loading(&mut progress, &mut data), Ok(true));
    assert_eq!(data.0.complete(Handle::from_id(0), vec![1]), Ok(()));
    assert_eq!(font.trigger_sub_loading(&mut progress, &mut data), Ok(false));
    assert!(matches!(font, AssetPrefab::Requested(_)));
    assert_eq!(progress.num_pending(), 1);
    assert_eq!(progress.num_succeeded(), 0);
    assert_eq!(progress.completion(), Completion::Loading);
}

#[test]
fn the_recording_step_leaves_what_has_not_ended() {
    let mut data = font_data();
    let mut progress = ProgressTracker::new();
    let mut unasked: AssetPrefab<Vec<u8>, Format> = AssetPrefab::File("a.ttf".to_string(), Format::Ttf);
    unasked.settle(&mut progress, &data);
    assert!(matches!(unasked, AssetPrefab::File(_, _)));
    assert_eq!(progress.num_pending(), 0);
    let mut font: AssetPrefab<Vec<u8>, Format> = AssetPrefab::File("a.ttf".to_string(), Format::Ttf);
    assert_eq!(font.trigger_sub_loading(&mut progress, &mut data), Ok(true));
    font.settle(&mut progress, &data);
    assert!(matches!(font, AssetPrefab::Requested(_)));
    assert_eq!(progress.num_pending(), 1);
    assert_eq!(progress.num_succeeded(), 0);
    assert_eq!(progress.num_failed(), 0);
}

#[test]
fn a_reference_records_the_arrival_once() {
    let mut data = font_data();
    let mut progress = ProgressTracker::new();
    let mut font: AssetPrefab<Vec<u8>, Format> = AssetPrefab::File("a.ttf".to_string(), Format::Ttf);
    assert_eq!(font.trigger_sub_loading(&mut progress, &mut data), Ok(true));
    assert_eq!(data.0.complete(Handle::from_id(0), vec![1]), Ok(()));
    assert_eq!(progress.completion(), Completion::Loading);
    font.settle(&mut progress, &data);
    assert!(matches!(font, AssetPrefab::Loaded(_)));
    assert_eq!(progress.completion(), Completion::Complete);
    assert_eq!(progress.num_succeeded(), 1);
    font.settle(&mut progress, &data);
    assert_eq!(font.trigger_sub_loading(&mut progress, &mut data), Ok(false));
    assert_eq!(progress.num_succeeded(), 1);
    assert_eq!(progress.num_pending(), 0);
    assert!(font.standing().is_resolved());
}

#[test]
fn a_reference_records_the_failure_with_its_reason() {
    let mut data = font_data();
    let mut progress = ProgressTracker::new();
    let mut font: AssetPrefab<Vec<u8>, Format> = AssetPrefab::File("a.ttf".to_string(), Format::Ttf);
    assert_eq!(font.trigger_sub_loading(&mut progress, &mut data), Ok(true));
    assert_eq!(data.0.fail(Handle::from_id(0), "truncated table".to_string()), Ok(()));
    font.settle(&mut progress, &data);
    assert!(matches!(font, AssetPrefab::Failed(_)));
    assert_eq!(progress.completion(), Completion::Failed);
    assert_eq!(progress.errors(), &vec!["truncated table".to_string()]);
    font.settle(&mut progress, &data);
    assert_eq!(font.trigger_sub_loading(&mut progress, &mut data), Ok(false));
    assert_eq!(progress.completion(), Completion::Failed);
    assert_eq!(progress.num_failed(), 1);
    assert!(font.standing().broken);
}

#[test]
fn a_reference_to_an_asset_that_is_there_is_asked_for_and_registered() {
    let mut data = font_data();
    let early = data.0.request("a.ttf".to_string(), Format::Ttf);
    assert_eq!(data.0.complete(early, vec![5]), Ok(()));
    let mut progress = ProgressTracker::new();
    let mut font: AssetPrefab<Vec<u8>, Format> = AssetPrefab::File("a.ttf".to_string(), Format::Ttf);
    assert_eq!(font.trigger_sub_loading(&mut progress, &mut data), Ok(true));
    assert!(matches!(font, AssetPrefab::Requested(_)));
    assert_eq!(font.handle().map(|h| h.id()), Some(early.id()));
    assert_eq!(progress.num_pending(), 1);
    assert_eq!(progress.num_succeeded(), 0);
    assert_eq!(data.0.len(), 1);
    font.settle(&mut progress, &data);
    assert!(matches!(font, AssetPrefab::Loaded(_)));
    assert_eq!(progress.num_pending(), 0);
    assert_eq!(progress.num_succeeded(), 1);
}

#[test]
fn two_references_to_one_source_wait_for_one_asset() {
    let mut data = font_data();
    let mut progress = ProgressTracker::new();
    let mut first: AssetPrefab<Vec<u8>, Format> = AssetPrefab::File("a.ttf".to_string(), Format::Ttf);
    let mut second: AssetPrefab<Vec<u8>, Format> = AssetPrefab::File("a.ttf".to_string(), Format::Ttf);
    assert_eq!(first.trigger_sub_loading(&mut progress, &mut data), Ok(true));
    assert_eq!(second.trigger_sub_loading(&mut progress, &mut data), Ok(true));
    assert_eq!(first.handle().map(|h| h.id()), second.handle().map(|h| h.id()));
    assert_eq!(data.0.len(), 1);
    assert_eq!(progress.num_pending(), 2);
    assert_eq!(data.0.complete(Handle::from_id(0), vec![9]), Ok(()));
    first.settle(&mut progress, &data);
    second.settle(&mut progress, &data);
    assert!(matches!(first, AssetPrefab::Loaded(_)));
    assert!(matches!(second, AssetPrefab::Loaded(_)));
    assert_eq!(progress.num_succeeded(), 2);
    assert_eq!(progress.completion(), Completion::Complete);
}

#[test]
fn a_loaded_reference_gives_the_entity_its_handle() {
    let mut data = font_data();
    let mut progress = ProgressTracker::new();
    let mut font: AssetPrefab<Vec<u8>, Format> = AssetPrefab::File("a.ttf".to_string(), Format::Ttf);
    assert_eq!(font.trigger_sub_loading(&mut progress, &mut data), Ok(true));
    assert_eq!(data.0.complete(Handle::from_id(0), vec![1]), Ok(()));
    font.settle(&mut progress, &data);
    let entity = Entity::new(2);
    let handle = font.load_prefab(entity, &mut data, &[]).map(|h| h.id());
    assert_eq!(handle, Ok(0));
    assert_eq!(data.1.get(entity).map(|h| h.id()), Some(0));
    let again = font.load_prefab(entity, &mut data, &[]).map(|h| h.id());
    assert_eq!(again, Err(LoadError::Rejected(InsertError::Occupied)));
    let far = font.load_prefab(Entity::new(4), &mut data, &[]).map(|h| h.id());
    assert_eq!(far, Err(LoadError::Rejected(InsertError::OutOfCapacity)));
}
