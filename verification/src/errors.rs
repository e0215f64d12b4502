use vstd::prelude::*;

verus! {

/// Why a single recognizer rejected an input. These are local outcomes: the
/// dispatcher absorbs them and keeps trying the remaining product families.
#[derive(Clone, Copy, Debug, PartialEq, Eq, Structural)]
pub enum ParseError {
    /// The input is not a structured label at all.
    NotStructured,
    /// The leading token is not this family's discriminator.
    NotThisFamily,
    /// The discriminator matched but the token count is out of range.
    MalformedLabel,
    /// A token sits at a recognized position but is not in the vocabulary.
    UnrecognizedField,
    /// Free text: no edition keyword was found.
    UnknownEdition,
    /// Free text: no release label could be recognized.
    UnknownRelease,
    /// Free text: a build number was found but is absent from the index.
    UnknownBuild,
    /// No recognizer matched: the aggregate, user-visible failure.
    UnknownOperatingSystem,
}

} // verus!
