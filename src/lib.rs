//! Asset glue for ATRAC3+ audio: a shared, read-only byte buffer holding a
//! loaded `.at3` file, and the loader that builds it from a file's bytes.

mod loader;
mod source;

pub use loader::{lemma_load_round_trip, Atrac3pLoader};
pub use source::Atrac3pSource;
