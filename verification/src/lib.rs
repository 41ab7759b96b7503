//! Conversion pipeline for TWRP backup containers: sniffs the input for the
//! openaes encryption marker, composes a layered byte stream (optional
//! decryption, transparent gzip decompression, tar entry parsing), drives a
//! controllable per-entry iteration protocol, and rewrites each source
//! entry's header into a fresh GNU tar header with explicit normalization
//! rules.

pub mod errors;
pub mod header;
pub mod translate;
pub mod stream;
pub mod iterate;
pub mod writer;

pub use errors::TwrptarxError;
pub use iterate::{CallbackResult, EntryConsumer, EntryStream, SourceEntry};
pub use writer::{read_source_header, transfer_entry, TarSink, Translator};
pub use stream::{try_iter_twrp_backup, RawSource, TwrpTarFile, TwrpTarKind};
