//! Assets that take time to arrive: the store that gives out handles to
//! them, and the template that stands for a reference to one.

use vstd::prelude::*;
use core::marker::PhantomData;
use crate::prefab::{LoadError, Loaded, PrefabData, Settled, Standing, Tally, Triggered};
use crate::progress::{ProgressTracker, ProgressView};
use crate::world::{insert_model, vacant, Entity, Storage};

verus! {

/// A key into an [`AssetStore`] of assets of kind `A`. It owns no asset
/// data; any number of handles may name the same asset.
pub struct Handle<A> {
    /// The position of the named asset in its store.
    pub id: usize,
    pub kind: PhantomData<A>,
}

impl<A> Clone for Handle<A> {
    fn clone(&self) -> (copy: Self)
        ensures
            copy == *self,
    {
        Handle { id: self.id, kind: PhantomData }
    }
}

impl<A> Copy for Handle<A> {

}

impl<A> Handle<A> {
    /// The handle of the asset at position `id`.
    pub open spec fn at(id: int) -> Handle<A> {
        Handle { id: id as usize, kind: PhantomData }
    }

    /// The handle of the asset at position `id`.
    pub fn from_id(id: usize) -> (handle: Handle<A>)
        ensures
            handle == Self::at(id as int),
    {
        Handle { id, kind: PhantomData }
    }

    /// The position that this handle names.
    pub fn id(&self) -> (id: usize)
        ensures
            id == self.id,
    {
        self.id
    }
}

/// What is known of an asset that was asked for.
pub enum AssetState<A> {
    /// The asset has not arrived yet.
    Loading,
    /// The asset is there.
    Ready(A),
    /// The asset could not be had; the text says why.
    Failed(String),
}

/// One asset of a store: where it comes from, how it is to be decoded, and
/// what is known of it.
pub struct AssetSlot<A, F> {
    pub source: String,
    pub format: F,
    pub state: AssetState<A>,
}

/// Why a store refused the end of a load.
#[derive(Clone, Copy, Debug, PartialEq, Eq, Structural)]
pub enum ResolveError {
    /// The handle names no asset of this store.
    UnknownHandle,
    /// The asset has arrived or failed before.
    AlreadyResolved,
}

/// How an asset is to be decoded, as far as a store has to know it: whether
/// two requests ask for the same decoding. A store gives two requests for
/// one source the same asset exactly where this says that their formats
/// are the same.
pub trait Format: Sized {
    /// Whether `other` is the same format, with the same options: true for
    /// equal formats and for no others.
    fn same(&self, other: &Self) -> (answer: bool)
        ensures
            answer == (*self == *other),
    ;
}

/// The format of assets that are decoded in one way only.
impl Format for () {
    fn same(&self, other: &Self) -> (answer: bool) {
        true
    }
}

/// A format that is told from others by a number.
impl Format for u32 {
    fn same(&self, other: &Self) -> (answer: bool) {
        *self == *other
    }
}

/// The position of the first asset at or behind `from` that comes from
/// `source` and is decoded as `format` says, if there is one.
pub open spec fn position_from<A, F>(
    slots: Seq<AssetSlot<A, F>>,
    source: Seq<char>,
    format: F,
    from: int,
) -> Option<int>
    decreases slots.len() - from,
{
    if from < 0 || from >= slots.len() {
        None
    } else if slots[from].source@ == source && slots[from].format == format {
        Some(from)
    } else {
        position_from(slots, source, format, from + 1)
    }
}

/// The position of the first asset that comes from `source` and is decoded
/// as `format` says, if there is one.
pub open spec fn position_of<A, F>(slots: Seq<AssetSlot<A, F>>, source: Seq<char>, format: F) -> Option<
    int,
> {
    position_from(slots, source, format, 0)
}

/// The store after a request for the asset from `source`, decoded as
/// `format` says, and the handle that the request gets. What was asked for
/// before, with that source and that format, keeps its asset; anything else
/// gets a new asset, still loading, at the end of the store.
pub open spec fn request_model<A, F>(slots: Seq<AssetSlot<A, F>>, source: String, format: F) -> (
    Seq<AssetSlot<A, F>>,
    Handle<A>,
) {
    match position_of(slots, source@, format) {
        Some(position) => (slots, Handle::at(position)),
        None => (
            slots.push(AssetSlot { source, format, state: AssetState::Loading }),
            Handle::at(slots.len() as int),
        ),
    }
}

/// The store after the load of the asset that `handle` names has ended in
/// `state`, and whether the store took it: only an asset that is still
/// loading can arrive or fail.
pub open spec fn resolve_model<A, F>(
    slots: Seq<AssetSlot<A, F>>,
    handle: Handle<A>,
    state: AssetState<A>,
) -> (Seq<AssetSlot<A, F>>, Result<(), ResolveError>) {
    if handle.id >= slots.len() {
        (slots, Err(ResolveError::UnknownHandle))
    } else if !(slots[handle.id as int].state is Loading) {
        (slots, Err(ResolveError::AlreadyResolved))
    } else {
        (
            slots.update(handle.id as int, AssetSlot { state, ..slots[handle.id as int] }),
            Ok(()),
        )
    }
}

/// What the store knows of the asset that `handle` names, if it names one.
pub open spec fn state_of<A, F>(slots: Seq<AssetSlot<A, F>>, handle: Handle<A>) -> Option<
    AssetState<A>,
> {
    if handle.id < slots.len() {
        Some(slots[handle.id as int].state)
    } else {
        None
    }
}

/// The position of the first asset at or behind `from` that is still
/// loading, if there is one.
pub open spec fn loading_from<A, F>(slots: Seq<AssetSlot<A, F>>, from: int) -> Option<int>
    decreases slots.len() - from,
{
    if from < 0 || from >= slots.len() {
        None
    } else if slots[from].state is Loading {
        Some(from)
    } else {
        loading_from(slots, from + 1)
    }
}

/// Assets of kind `A`, each with the source it comes from and the format
/// `F` that says how to decode it. What is asked for is loaded once: every
/// request with the same source and the same format gets the same asset.
pub struct AssetStore<A, F> {
    slots: Vec<AssetSlot<A, F>>,
}

impl<A, F> View for AssetStore<A, F> {
    type V = Seq<AssetSlot<A, F>>;

    /// The assets in the order in which they were first asked for.
    closed spec fn view(&self) -> Seq<AssetSlot<A, F>> {
        self.slots@
    }
}

impl<A, F> AssetStore<A, F> {
    /// A store without assets.
    pub fn new() -> (store: AssetStore<A, F>)
        ensures
            store@ == Seq::<AssetSlot<A, F>>::empty(),
    {
        AssetStore { slots: Vec::new() }
    }

    /// Number of assets, arrived or not.
    pub fn len(&self) -> (n: usize)
        ensures
            n == self@.len(),
    {
        self.slots.len()
    }

    /// What is known of the asset that `handle` names, if it names one of
    /// this store.
    pub fn poll(&self, handle: Handle<A>) -> (state: Option<&AssetState<A>>)
        ensures
            state == match state_of(self@, handle) {
                Some(state) => Some(&state),
                None => None,
            },
    {
        if handle.id < self.slots.len() {
            Some(&self.slots[handle.id].state)
        } else {
            None
        }
    }

    /// Where the asset that `handle` names comes from.
    pub fn source(&self, handle: Handle<A>) -> (source: Option<&String>)
        ensures
            handle.id < self@.len() ==> source == Some(&self@[handle.id as int].source),
            handle.id >= self@.len() ==> source is None,
    {
        if handle.id < self.slots.len() {
            Some(&self.slots[handle.id].source)
        } else {
            None
        }
    }

    /// How the asset that `handle` names is to be decoded.
    pub fn format(&self, handle: Handle<A>) -> (format: Option<&F>)
        ensures
            handle.id < self@.len() ==> format == Some(&self@[handle.id as int].format),
            handle.id >= self@.len() ==> format is None,
    {
        if handle.id < self.slots.len() {
            Some(&self.slots[handle.id].format)
        } else {
            None
        }
    }

    /// The first asset at or behind position `from` that is still loading:
    /// the next piece of work for whoever does the loading.
    pub fn next_loading(&self, from: usize) -> (handle: Option<Handle<A>>)
        ensures
            handle == match loading_from(self@, from as int) {
                Some(position) => Some(Handle::<A>::at(position)),
                None => None,
            },
    {
        let mut i: usize = from;
        while i < self.slots.len()
            invariant
                from <= i,
                loading_from(self.slots@, from as int) == loading_from(self.slots@, i as int),
            decreases self.slots@.len() - i,
        {
            if let AssetState::Loading = self.slots[i].state {
                return Some(Handle::from_id(i));
            }
            i = i + 1;
        }
        None
    }

    /// Records that the asset that `handle` names has arrived. Refused, with
    /// the store left as it was, unless the asset is still loading.
    pub fn complete(&mut self, handle: Handle<A>, value: A) -> (outcome: Result<(), ResolveError>)
        ensures
            (final(self)@, outcome) == resolve_model(old(self)@, handle, AssetState::Ready(value)),
    {
        self.resolve(handle, AssetState::Ready(value))
    }

    /// Records that the asset that `handle` names could not be had, and
    /// why. Refused, with the store left as it was, unless the asset is
    /// still loading.
    pub fn fail(&mut self, handle: Handle<A>, detail: String) -> (outcome: Result<(), ResolveError>)
        ensures
            (final(self)@, outcome) == resolve_model(old(self)@, handle, AssetState::Failed(detail)),
    {
        self.resolve(handle, AssetState::Failed(detail))
    }

    fn resolve(&mut self, handle: Handle<A>, state: AssetState<A>) -> (outcome: Result<
        (),
        ResolveError,
    >)
        ensures
            (final(self)@, outcome) == resolve_model(old(self)@, handle, state),
    {
        if handle.id >= self.slots.len() {
            return Err(ResolveError::UnknownHandle);
        }
        if let AssetState::Loading = self.slots[handle.id].state {
            self.slots[handle.id].state = state;
            Ok(())
        } else {
            Err(ResolveError::AlreadyResolved)
        }
    }
}

impl<A, F: Format> AssetStore<A, F> {
    /// The handle of the asset that comes from `source` and is decoded as
    /// `format` says, if it was asked for before.
    pub fn find(&self, source: &String, format: &F) -> (handle: Option<Handle<A>>)
        ensures
            handle == match position_of(self@, source@, *format) {
                Some(position) => Some(Handle::<A>::at(position)),
                None => None,
            },
    {
        let mut i: usize = 0;
        while i < self.slots.len()
            invariant
                i <= self.slots@.len(),
                position_of(self.slots@, source@, *format) == position_from(
                    self.slots@,
                    source@,
                    *format,
                    i as int,
                ),
            decreases self.slots@.len() - i,
        {
            if self.slots[i].source == *source && self.slots[i].format.same(format) {
                return Some(Handle::from_id(i));
            }
            i = i + 1;
        }
        None
    }

    /// Asks for the asset from `source`, to be decoded as `format` says.
    /// Returns at once, with a handle to an asset that may arrive later.
    pub fn request(&mut self, source: String, format: F) -> (handle: Handle<A>)
        ensures
            (final(self)@, handle) == request_model(old(self)@, source, format),
    {
        match self.find(&source, &format) {
            Some(handle) => handle,
            None => {
                let handle = Handle::from_id(self.slots.len());
                self.slots.push(AssetSlot { source, format, state: AssetState::Loading });
                handle
            },
        }
    }
}

/// A reference to an asset, as it stands in a template: first a source and
/// a format, then, once asked for, a handle.
#[derive(Clone)]
pub enum AssetPrefab<A, F> {
    /// The asset from the named source, decoded as the format says. No
    /// request was issued yet.
    File(String, F),
    /// The asset was asked for and has not arrived.
    Requested(Handle<A>),
    /// The asset is there.
    Loaded(Handle<A>),
    /// The asset could not be had.
    Failed(Handle<A>),
}

/// What becomes of a reference that waits for `handle`, and of the tracker,
/// once the store is looked at: an asset that has arrived or failed ends
/// the wait and is recorded, anything else leaves both as they were.
pub open spec fn settle_model<A, F>(
    handle: Handle<A>,
    progress: ProgressView,
    slots: Seq<AssetSlot<A, F>>,
) -> Settled<AssetPrefab<A, F>> {
    match state_of(slots, handle) {
        Some(AssetState::Ready(_)) => Settled {
            template: AssetPrefab::Loaded(handle),
            progress: progress.succeed(),
        },
        Some(AssetState::Failed(detail)) => Settled {
            template: AssetPrefab::Failed(handle),
            progress: progress.fail(detail),
        },
        _ => Settled { template: AssetPrefab::Requested(handle), progress },
    }
}

impl<A, F> AssetPrefab<A, F> {
    /// The handle of the asset, once it was asked for.
    pub fn handle(&self) -> (handle: Option<Handle<A>>)
        ensures
            handle == match *self {
                AssetPrefab::File(_, _) => None,
                AssetPrefab::Requested(handle) => Some(handle),
                AssetPrefab::Loaded(handle) => Some(handle),
                AssetPrefab::Failed(handle) => Some(handle),
            },
    {
        match self {
            AssetPrefab::File(_, _) => None,
            AssetPrefab::Requested(handle) => Some(*handle),
            AssetPrefab::Loaded(handle) => Some(*handle),
            AssetPrefab::Failed(handle) => Some(*handle),
        }
    }
}

impl<A, F: Format> PrefabData for AssetPrefab<A, F> {
    type SystemData = (AssetStore<A, F>, Storage<Handle<A>>);

    type Output = Handle<A>;

    type Components = Seq<Option<Handle<A>>>;

    open spec fn tally(&self) -> Tally {
        match *self {
            AssetPrefab::File(_, _) => Tally { unissued: 1, ..Tally::none() },
            AssetPrefab::Requested(_) => Tally { awaiting: 1, ..Tally::none() },
            AssetPrefab::Loaded(_) => Tally { ready: 1, ..Tally::none() },
            AssetPrefab::Failed(_) => Tally { broken: 1, ..Tally::none() },
        }
    }

    open spec fn components(data: (Seq<AssetSlot<A, F>>, Seq<Option<Handle<A>>>)) -> Seq<
        Option<Handle<A>>,
    > {
        data.1
    }

    /// A reference without a request asks the store, is registered and
    /// from then on holds the handle. Any other reference is left alone.
    open spec fn spec_trigger(
        &self,
        progress: ProgressView,
        data: (Seq<AssetSlot<A, F>>, Seq<Option<Handle<A>>>),
    ) -> Triggered<Self, (Seq<AssetSlot<A, F>>, Seq<Option<Handle<A>>>)> {
        match *self {
            AssetPrefab::File(source, format) => {
                let (slots, handle) = request_model(data.0, source, format);
                Triggered {
                    template: AssetPrefab::Requested(handle),
                    progress: progress.register(),
                    data: (slots, data.1),
                    outcome: Ok(true),
                }
            },
            _ => Triggered { template: *self, progress, data, outcome: Ok(false) },
        }
    }

    /// A reference that waits for its asset looks whether the store has it
    /// or has given up on it. Any other reference is left alone.
    open spec fn spec_settle(
        &self,
        progress: ProgressView,
        data: (Seq<AssetSlot<A, F>>, Seq<Option<Handle<A>>>),
    ) -> Settled<Self> {
        match *self {
            AssetPrefab::Requested(handle) => settle_model(handle, progress, data.0),
            _ => Settled { template: *self, progress },
        }
    }

    /// A reference whose asset is there gives the entity the handle as a
    /// component and hands the handle back. A reference whose asset is not
    /// there writes nothing and answers that it is unavailable.
    open spec fn spec_load(
        &self,
        entity: Entity,
        entities: Seq<Entity>,
        data: (Seq<AssetSlot<A, F>>, Seq<Option<Handle<A>>>),
    ) -> Loaded<(Seq<AssetSlot<A, F>>, Seq<Option<Handle<A>>>), Handle<A>> {
        match *self {
            AssetPrefab::Loaded(handle) => {
                let (handles, inserted) = insert_model(data.1, entity, handle);
                Loaded {
                    data: (data.0, handles),
                    outcome: match inserted {
                        Ok(()) => Ok(handle),
                        Err(refusal) => Err(LoadError::Rejected(refusal)),
                    },
                }
            },
            _ => Loaded { data, outcome: Err(LoadError::Unavailable) },
        }
    }

    fn trigger_sub_loading(
        &mut self,
        progress: &mut ProgressTracker,
        data: &mut (AssetStore<A, F>, Storage<Handle<A>>),
    ) -> (outcome: Result<bool, LoadError>)
        ensures
            (Triggered {
                template: *final(self),
                progress: final(progress)@,
                data: final(data)@,
                outcome,
            }) == old(self).spec_trigger(old(progress)@, old(data)@),
            outcome == Ok::<bool, LoadError>(*old(self) is File),
            *old(self) is File ==> final(progress)@ == old(progress)@.register()
                && *final(self) is Requested,
            !(*old(self) is File) ==> *final(self) == *old(self) && final(progress)@ == old(
                progress,
            )@ && final(data)@ == old(data)@,
            final(data).1@ == old(data).1@,
    {
        proof {
            self.lemma_trigger(progress@, data@);
        }
        let mut current = AssetPrefab::Requested(Handle::from_id(0));
        core::mem::swap(self, &mut current);
        match current {
            AssetPrefab::File(source, format) => {
                let handle = data.0.request(source, format);
                progress.register_pending();
                *self = AssetPrefab::Requested(handle);
                Ok(true)
            },
            other => {
                *self = other;
                Ok(false)
            },
        }
    }

    fn settle(&mut self, progress: &mut ProgressTracker, data: &(AssetStore<A, F>, Storage<Handle<A>>))
        ensures
            (Settled { template: *final(self), progress: final(progress)@ })
                == old(self).spec_settle(old(progress)@, data@),
    {
        proof {
            self.lemma_settle(progress@, data@);
        }
        if let AssetPrefab::Requested(handle) = self {
            let handle = *handle;
            match data.0.poll(handle) {
                Some(AssetState::Ready(_)) => {
                    let _ = progress.mark_succeeded();
                    *self = AssetPrefab::Loaded(handle);
                },
                Some(AssetState::Failed(detail)) => {
                    let _ = progress.mark_failed(detail.clone());
                    *self = AssetPrefab::Failed(handle);
                },
                _ => {},
            }
        }
    }

    fn load_prefab(
        &self,
        entity: Entity,
        data: &mut (AssetStore<A, F>, Storage<Handle<A>>),
        entities: &[Entity],
    ) -> (outcome: Result<Handle<A>, LoadError>)
        ensures
            (Loaded { data: final(data)@, outcome }) == self.spec_load(
                entity,
                entities@,
                old(data)@,
            ),
            outcome is Ok <==> *self is Loaded && vacant(old(data)@.1, entity),
            outcome matches Ok(handle) ==> {
                &&& *self == AssetPrefab::<A, F>::Loaded(handle)
                &&& final(data)@ == (
                    old(data)@.0,
                    old(data)@.1.update(entity.id as int, Some(handle)),
                )
            },
            outcome is Err ==> final(data)@ == old(data)@,
            !(*self is Loaded) ==> outcome == Err::<Handle<A>, LoadError>(LoadError::Unavailable),
    {
        match self {
            AssetPrefab::Loaded(handle) => {
                match data.1.insert(entity, *handle) {
                    Ok(()) => Ok(*handle),
                    Err(refusal) => Err(LoadError::Rejected(refusal)),
                }
            },
            _ => Err(LoadError::Unavailable),
        }
    }

    fn standing(&self) -> (standing: Standing)
        ensures
            standing == self.tally().standing(),
    {
        match self {
            AssetPrefab::File(_, _) => Standing { unissued: true, awaiting: false, broken: false },
            AssetPrefab::Requested(_) => Standing {
                unissued: false,
                awaiting: true,
                broken: false,
            },
            AssetPrefab::Loaded(_) => Standing::clear(),
            AssetPrefab::Failed(_) => Standing { unissued: false, awaiting: false, broken: true },
        }
    }

    proof fn lemma_trigger(
        &self,
        progress: ProgressView,
        data: (Seq<AssetSlot<A, F>>, Seq<Option<Handle<A>>>),
    ) {
    }

    proof fn lemma_settle(
        &self,
        progress: ProgressView,
        data: (Seq<AssetSlot<A, F>>, Seq<Option<Handle<A>>>),
    ) {
    }

    proof fn lemma_retrigger(
        &self,
        progress: ProgressView,
        data: (Seq<AssetSlot<A, F>>, Seq<Option<Handle<A>>>),
        again: ProgressView,
    ) {
    }
}

/// What is asked for is loaded once: a second request with the source and
/// the format of an earlier one gets the handle of the earlier one and
/// leaves the store as it was, so that both handles name the same asset.
pub proof fn law_same_source_same_asset<A, F>(
    slots: Seq<AssetSlot<A, F>>,
    source: String,
    format: F,
    again: String,
)
    requires
        again@ == source@,
        slots.len() < usize::MAX,
    ensures
        ({
            let first = request_model(slots, source, format);
            let second = request_model(first.0, again, format);
            &&& second.1 == first.1
            &&& second.0 == first.0
            &&& first.1.id < first.0.len()
            &&& first.0[first.1.id as int].source@ == source@
            &&& first.0[first.1.id as int].format == format
            &&& state_of(second.0, second.1) == state_of(first.0, first.1)
        }),
{
    let first = request_model(slots, source, format);
    lemma_position_found(first.0, source@, format, 0);
    match position_of(slots, source@, format) {
        Some(position) => {},
        None => {
            lemma_position_after_push(
                slots,
                AssetSlot { source, format, state: AssetState::Loading },
                source@,
                format,
                0,
            );
        },
    }
}

/// Two references to the same source in the same format, asked for one
/// after the other, wait for the same asset: the second request finds the
/// asset of the first, the store holds one asset for both, and each
/// reference is registered once.
pub proof fn law_references_share_one_asset<A, F: Format>(
    first: AssetPrefab<A, F>,
    second: AssetPrefab<A, F>,
    progress: ProgressView,
    data: (Seq<AssetSlot<A, F>>, Seq<Option<Handle<A>>>),
)
    requires
        data.0.len() < usize::MAX,
        first matches AssetPrefab::File(source, format) && second matches AssetPrefab::File(
            again,
            same,
        ) && again@ == source@ && same == format,
    ensures
        ({
            let one = first.spec_trigger(progress, data);
            let two = second.spec_trigger(one.progress, one.data);
            &&& one.template matches AssetPrefab::Requested(handle) && two.template
                == AssetPrefab::<A, F>::Requested(handle) && handle.id < two.data.0.len()
            &&& two.data == one.data
            &&& one.data.0.len() <= data.0.len() + 1
            &&& two.progress.pending == progress.pending + 2
            &&& one.outcome == Ok::<bool, LoadError>(true)
            &&& two.outcome == Ok::<bool, LoadError>(true)
        }),
{
    if let AssetPrefab::File(source, format) = first {
        if let AssetPrefab::File(again, same) = second {
            law_same_source_same_asset(data.0, source, format, again);
        }
    }
}

/// Requests that differ in the source or in the format get assets of their
/// own: the handles differ.
pub proof fn law_other_request_other_asset<A, F>(
    slots: Seq<AssetSlot<A, F>>,
    source: String,
    format: F,
    other: String,
    other_format: F,
)
    requires
        other@ != source@ || other_format != format,
        slots.len() + 1 < usize::MAX,
    ensures
        ({
            let first = request_model(slots, source, format);
            let second = request_model(first.0, other, other_format);
            second.1.id != first.1.id
        }),
{
    let first = request_model(slots, source, format);
    lemma_position_found(slots, source@, format, 0);
    lemma_position_found(first.0, other@, other_format, 0);
}

/// Whether no two assets have both the source and the format in common.
pub open spec fn distinct_requests<A, F>(slots: Seq<AssetSlot<A, F>>) -> bool {
    forall|i: int, j: int|
        0 <= i < j < slots.len() ==> (#[trigger] slots[i]).source@ != (#[trigger] slots[j]).source@
            || slots[i].format != slots[j].format
}

/// A store keeps one asset per source and format: requests and the arrival
/// or failure of assets leave them distinct, and never change the source or
/// the format of an asset that is there.
pub proof fn law_one_asset_per_request<A, F>(
    slots: Seq<AssetSlot<A, F>>,
    source: String,
    format: F,
    handle: Handle<A>,
    state: AssetState<A>,
)
    requires
        distinct_requests(slots),
    ensures
        distinct_requests(request_model(slots, source, format).0),
        distinct_requests(resolve_model(slots, handle, state).0),
        forall|i: int|
            0 <= i < slots.len() ==> request_model(slots, source, format).0[i] == #[trigger] slots[i],
        resolve_model(slots, handle, state).0.len() == slots.len(),
        forall|i: int|
            0 <= i < slots.len() ==> {
                &&& (#[trigger] resolve_model(slots, handle, state).0[i]).source == slots[i].source
                &&& resolve_model(slots, handle, state).0[i].format == slots[i].format
            },
{
    lemma_position_found(slots, source@, format, 0);
}

/// The position that is found is one of the store, holds what was looked
/// for, and is the first that does.
pub proof fn lemma_position_found<A, F>(
    slots: Seq<AssetSlot<A, F>>,
    source: Seq<char>,
    format: F,
    from: int,
)
    requires
        0 <= from,
    ensures
        match position_from(slots, source, format, from) {
            Some(position) => {
                &&& from <= position < slots.len()
                &&& slots[position].source@ == source
                &&& slots[position].format == format
                &&& forall|i: int|
                    from <= i < position ==> slots[i].source@ != source || slots[i].format != format
            },
            None => forall|i: int|
                from <= i < slots.len() ==> slots[i].source@ != source || slots[i].format != format,
        },
    decreases slots.len() - from,
{
    if from < slots.len() && !(slots[from].source@ == source && slots[from].format == format) {
        lemma_position_found(slots, source, format, from + 1);
    }
}

/// What the store does not know is found, once an asset for it was added
/// at the end, at the end.
pub proof fn lemma_position_after_push<A, F>(
    slots: Seq<AssetSlot<A, F>>,
    slot: AssetSlot<A, F>,
    source: Seq<char>,
    format: F,
    from: int,
)
    requires
        0 <= from <= slots.len(),
        slot.source@ == source,
        slot.format == format,
        position_from(slots, source, format, from) is None,
    ensures
        position_from(slots.push(slot), source, format, from) == Some(slots.len() as int),
    decreases slots.len() - from,
{
    if from < slots.len() {
        lemma_position_after_push(slots, slot, source, format, from + 1);
    }
}

} // verus!
