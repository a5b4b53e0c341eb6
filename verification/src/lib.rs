//! Keeps a typed configuration value in step with a file on disk.
//!
//! An application names a configuration type and a path. At start-up the
//! value is read from the file (or a default stands in), and from then on
//! every change of the file replaces the value whole, without a restart.
//!
//! The host framework owns the event queue, the asset store, the file watcher
//! and the place where the current value lives. This crate holds the rules
//! that sit between them: what the loader makes of a read and a decoding
//! ([`loader`]), what start-up does in which order and when it fails
//! ([`coordinator`]), and which value a batch of asset events leaves behind
//! ([`publisher`]). The host performs the reads, look-ups and requests, and
//! reports their results as plain values.

pub mod coordinator;
pub mod error;
pub mod event;
pub mod handle;
pub mod holder;
pub mod lifecycle;
pub mod loader;
pub mod plugin;
pub mod publisher;

pub use coordinator::{add_asset_to_config_file_holder, StartupAction, StartupEvent};
pub use error::{ConfigFileLoaderError, FileOutcome};
pub use event::{AssetEvent, Delivery};
pub use handle::LoadHandle;
pub use holder::ConfigFileHolder;
pub use loader::ConfigFileAssetLoader;
pub use plugin::{EasyConfigPlugin, Registration};
pub use publisher::update_resource;
