//! Verified core of a karaoke song catalog importer: path normalization,
//! song record extraction, directory-entry decisions and catalog
//! reconciliation planning.

pub mod path;
pub mod song;
pub mod record;
pub mod keyset;
pub mod reconcile;
pub mod walk;
