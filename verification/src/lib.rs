//! Compile-time configuration for building a bundled SQLite from its
//! amalgamated C source.
//!
//! The crate models every supported compile-time option as a typed
//! [`Setting`](settings::Setting), keeps the current selection in a
//! [`Config`](config::Config) keyed by each option's
//! [`SettingKey`](settings::SettingKey), and renders the selection into the
//! preprocessor definitions the C compiler expects. The encoding of each
//! option — presence symbols, inverted "omit" symbols, valued symbols, and
//! packed composites — is specified and verified in [`render`].

pub mod compile;
pub mod config;
pub mod driver;
pub mod render;
pub mod settings;

pub use compile::{build, BuildError, BuildOutput, Location};
pub use config::Config;
pub use render::Definition;
pub use settings::{
    DoubleQuotedStrings, Setting, SettingKey, Synchronous, TemporaryStorage, Threading,
};
