//! Persisted application settings: the values themselves, their defaults,
//! their normalization and validation, and the manager that knows where
//! they live on disk.

pub mod common;
pub mod defaults;
pub mod gui;
pub mod manager;

pub use common::CommonSettings;
pub use gui::GuiSettings;
pub use manager::LoadStrategy;
pub use manager::SettingsManager;
