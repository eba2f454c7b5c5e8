//! A ledger of notes. Each note ties a number chosen by its owner and a
//! reference to content kept elsewhere to the owner's key, and lives at an
//! address derived from the owner's key and the note's number. A note is
//! created once and can later be sealed, which marks it permanent for good.

pub mod account;
pub mod address;
mod bucket;
pub mod context;
pub mod error;
pub mod laws;
pub mod ledger;
pub mod model;

pub use account::{NoteAccount, NoteRecord, MAX_HASH_BYTES};
pub use address::derive_note_address;
pub use context::{InitializeNote, SetPermanent, Signer};
pub use error::ErrorCode;
pub use ledger::{initialize_note, set_permanent, Ledger};
