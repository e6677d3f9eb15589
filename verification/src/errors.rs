use vstd::prelude::*;

verus! {

/// The typed failures this library surfaces. Each variant carries enough
/// context (the offending URL, field name, or path) to log meaningfully.
#[derive(Debug)]
pub enum InstallError {
    /// The remote catalog document could not be retrieved.
    CatalogUnavailable,
    /// The retrieved catalog bytes do not form the expected structure;
    /// carries the name of the offending field.
    CatalogCorrupt(String),
    /// A single polymorphic field violated its two-shape contract;
    /// carries the field's name.
    MalformedField(String),
    /// The resolver was asked for the highest version of an empty candidate set.
    NoCandidates,
    /// The destination directory could not be prepared; carries the path.
    DestinationUnavailable(String),
    /// One of the batch-fetched URLs failed; carries the first failing URL.
    FetchFailed(String),
    /// The fetched archive could not be extracted.
    ExtractionFailed,
}

} // verus!
