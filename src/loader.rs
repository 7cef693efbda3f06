use crate::source::Atrac3pSource;
use std::path::Path;
use vstd::prelude::*;

verus! {

/// Declares std's `Path`, opaque, so that the loader can take the asset path
/// that the engine hands it; nothing is assumed of its contents.
#[verifier::external_type_specification]
#[verifier::external_body]
pub struct ExPath(Path);

/// Declares `anyhow::Error`, opaque, the error type of the engine's loader
/// interface; no value of it is ever made here.
#[verifier::external_type_specification]
#[verifier::external_body]
pub struct ExAnyhowError(anyhow::Error);

/// Builds an [`Atrac3pSource`] from the raw bytes of an `.at3` file.
///
/// No check of the bytes is made here: a stream the decoder cannot read is
/// only found out when a decoder is made from the source.
#[derive(Default)]
pub struct Atrac3pLoader;

impl Atrac3pLoader {
    /// Wraps `bytes` in a new source. The path is advisory and unused.
    pub fn from_bytes(&self, _asset_path: &Path, bytes: Vec<u8>) -> (r: Result<
        Atrac3pSource,
        anyhow::Error,
    >)
        ensures
            r matches Ok(s) && s@ == bytes@,
    {
        Ok(Atrac3pSource::new(bytes))
    }

    /// The file extensions routed to this loader: `"at3"` alone.
    pub fn extensions(&self) -> (r: &'static [&'static str])
        ensures
            r@.len() == 1,
            r@[0]@ == "at3"@,
    {
        &["at3"]
    }
}

/// Loading never fails, whatever the bytes (the empty sequence included), and
/// the loaded source exposes exactly the bytes it was loaded from.
pub proof fn lemma_load_round_trip(
    loader: &Atrac3pLoader,
    path: &Path,
    bytes: Vec<u8>,
    loaded: Result<Atrac3pSource, anyhow::Error>,
)
    requires
        Atrac3pLoader::from_bytes.ensures((loader, path, bytes), loaded),
    ensures
        loaded is Ok,
        forall|exposed: &[u8]|
            #[trigger] Atrac3pSource::as_ref.ensures((&loaded->Ok_0,), exposed) ==> exposed@
                == bytes@,
{
}

} // verus!
