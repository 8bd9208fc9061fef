//! Declarative templates for the entities of a user interface, and the
//! engine that turns them into components.
//!
//! A template says what an entity should have. It may refer to assets, such
//! as a font or a texture, that take many ticks to arrive. A load asks for
//! those assets, follows them on a progress tracker, and writes the
//! components into the world in one step once every asset is there; where
//! an asset fails, it writes nothing.
//!
//! - [`progress`]: the tracker of pending, succeeded and failed requests.
//! - [`world`]: entities and component storages.
//! - [`assets`]: the asset store, handles, and references to assets.
//! - [`prefab`]: the steps that every template knows.
//! - [`combinators`]: templates that may be absent, and rows of templates.
//! - [`components`], [`transform`], [`text`], [`image`]: the templates of
//!   the user interface and what they write.
//! - [`hierarchy`]: templates for several entities that refer to each other.
//! - [`loader`]: the driver of one load, tick by tick.
//!
//! Nothing here reads a file or waits: whoever owns the world calls
//! [`loader::Loader::poll`] once per tick and, between ticks, hands the
//! asset stores what has arrived.

pub mod progress;
pub mod world;
pub mod prefab;
pub mod assets;
pub mod combinators;
pub mod components;
pub mod transform;
pub mod text;
pub mod image;
pub mod hierarchy;
pub mod loader;

pub use crate::assets::{AssetPrefab, AssetState, AssetStore, Format, Handle};
pub use crate::hierarchy::{Parent, Prefab, PrefabNode};
pub use crate::image::{TexturePrefab, UiImageBuilder};
pub use crate::loader::{Loader, Phase, Poll, World};
pub use crate::prefab::{LoadError, PrefabData, Standing};
pub use crate::progress::{Completion, ProgressTracker, TrackerError};
pub use crate::text::{TextEditingPrefab, UiTextBuilder};
pub use crate::transform::UiTransformBuilder;
pub use crate::world::{Entities, Entity, InsertError, Storage};
