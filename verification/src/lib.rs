//! Bulk provisioning of per-team version-control repositories for a classroom.
//!
//! Given a roster of student teams and a set of template repositories, the
//! library plans one populated, access-controlled repository per
//! (team, template) pair on a chosen hosting backend (GitHub, GitLab, Gitea,
//! or a plain local filesystem).  The orchestration core is a step machine:
//! callers perform the network and filesystem work that each emitted request
//! asks for and feed the outcome back as an event, so that every decision the
//! run makes is verified while the I/O stays outside.

pub mod cache;
pub mod canvas;
pub mod error;
pub mod platform;
pub mod settings;
pub mod setup;
pub mod strutil;
pub mod types;

pub use canvas::MemberOption;
pub use canvas::StudentInfo;
pub use canvas::YamlConfig;
pub use error::ConfigError;
pub use error::ErrorKind;
pub use error::PlatformError;
pub use error::SetupError;
pub use platform::BackendKind;
pub use platform::Platform;
pub use settings::CommonSettings;
pub use settings::GuiSettings;
pub use settings::SettingsManager;
pub use setup::PlatformEvent;
pub use setup::PlatformRequest;
pub use setup::SetupResult;
pub use setup::SetupRun;
pub use setup::UnitRun;
pub use types::StudentRepo;
pub use types::StudentTeam;
pub use types::TeamPermission;
pub use types::TemplateRepo;
