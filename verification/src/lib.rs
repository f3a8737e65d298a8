//! Post-quantum keypair generation.
//!
//! The library holds the registry of algorithms and variants, the dispatcher
//! that binds each valid pair to its provider, and the pipeline that turns
//! key material into two files: what is written, in which order, with which
//! permissions, and when the buffers that held key bytes are wiped.
//!
//! The library does no I/O. Files are created and written by the caller, who
//! follows a [`key_io::KeyWriter`] step by step.

pub mod catalog;
pub mod cli;
pub mod i18n;
pub mod key_io;
pub mod keygen;
pub mod names;
pub mod pem;
pub mod report;
pub mod taxonomy;
pub mod text;
pub mod util;
mod wipe;

pub use crate::i18n::{load_translations, load_translations_default};
pub use crate::key_io::{save_keys, save_keys_default};
pub use crate::keygen::generate_keys;
pub use crate::names::parse_algorithm;
pub use crate::taxonomy::{minimal_variant_for_algorithm, Algorithm, Variant};
pub use crate::util::finalize_paths;
