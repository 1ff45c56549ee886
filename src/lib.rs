//! Commands that a desktop shell exposes to its front-end.

mod commands;

pub use commands::{app_version, get_app_version, lemma_version_stable, APP_VERSION};
