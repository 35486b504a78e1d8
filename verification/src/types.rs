use vstd::prelude::*;

verus! {

/// The input-interpretation state: `Navigation` edits the location text,
/// `Interaction` browses the fetched result.
#[derive(Clone, Copy, Debug, PartialEq, Eq, Structural)]
pub enum Mode {
    Navigation,
    Interaction,
}

/// Errors reported by the data providers and the decoder.
#[derive(Clone, Debug)]
pub enum Errors {
    UnexpectedError(String),
    ProviderError(String),
    BrowserError(String),
    TranslationError(String),
}

/// A failure of one fetch, recovered at the coordinator boundary and
/// delivered as a message on the handoff channel; never fatal.
#[derive(Clone, Debug)]
pub enum FetchError {
    /// The page-retrieval service could not produce content.
    RetrievalFailure(String),
    /// The content-extraction service failed, or returned content the
    /// tolerant decoder could not parse into a result model.
    ExtractionFailure(String),
    /// A fetch was triggered with empty or absent location text.
    NoLocationSet,
}

/// One keystroke, as the session core interprets it.
#[derive(Clone, Copy, Debug, PartialEq, Eq, Structural)]
pub enum InputKey {
    Char(char),
    Backspace,
    Enter,
    Escape,
}

} // verus!
