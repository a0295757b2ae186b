//! Request, response and error types of the extraction pipeline.

use vstd::prelude::*;

verus! {

/// The two request modes: `Raw` converts the whole page, `Readable`
/// extracts the main article first.
#[derive(Clone, Copy, PartialEq, Eq, Structural, Debug)]
pub enum Mode {
    Raw,
    Readable,
}

/// An extraction request: a target URL and the mode to run.
pub struct ScrapeRequest {
    pub url: String,
}

/// The response returned to a caller on success.
pub struct ScrapeResponse {
    pub url: String,
    pub title: String,
    pub markdown: String,
}

/// The response returned to a caller on failure.
pub struct ErrorResponse {
    pub error: String,
}

/// The kind of a pipeline failure.
#[derive(Clone, Copy, PartialEq, Eq, Structural, Debug)]
pub enum ErrorKind {
    /// No usable rendering process.
    EngineUnavailable,
    /// The engine could not create an isolated page session.
    SessionCreationFailed,
    /// Navigation to the target URL failed.
    NavigationFailed,
    /// A stage exceeded its time bound.
    Timeout,
    /// The engine rejected a script or the script evaluation failed.
    EvaluationFailed,
}

/// A typed pipeline failure with a human-readable cause.
#[derive(Debug)]
pub struct ScrapeError {
    pub kind: ErrorKind,
    pub detail: String,
}

/// The value returned to the caller: the page or article title, the
/// markdown rendering, and, in readable mode only, the article HTML.
#[derive(Debug)]
pub struct ExtractionResult {
    pub title: String,
    pub markdown: String,
    pub html: Option<String>,
}

/// The entry point of the pipeline: its associated functions start a
/// request in one of the two modes.
pub struct Scraper;

} // verus!
