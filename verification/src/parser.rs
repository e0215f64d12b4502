//! The resolution entry points. `OS` is the vendor-neutral face of the
//! resolver; `Windows` is the same pipeline narrowed to the one vendor the
//! library currently knows.

use vstd::prelude::*;
use vstd::string::StringExecFns;

use crate::errors::ParseError;
use crate::windows;
use crate::windows::os_lines;

verus! {

/// The aggregate, user-visible failure: no recognizer matched. It carries
/// the original input for diagnostics.
#[derive(Debug)]
pub struct OsError {
    pub input: String,
}

impl OsError {
    /// The human-readable diagnostic line.
    pub fn message(&self) -> (r: String)
        ensures
            r@ == "Unknown operating system: \""@ + self.input@ + "\""@,
    {
        let mut out = String::from_str("Unknown operating system: \"");
        out.append(self.input.as_str());
        out.append("\"");
        out
    }
}

/// A resolved operating system.
pub struct OS(pub windows::Windows);

impl OS {
    /// Resolve an identifier string. Every recognizer failure along the way
    /// is absorbed; only the aggregate failure is surfaced, carrying the
    /// input.
    pub fn parse(label: &str) -> (r: Result<OS, OsError>)
        ensures
            match r {
                Ok(os) => windows::accepts_any(label@) && windows::dispatch_ok(label@, os.0.0),
                Err(e) => !windows::accepts_any(label@) && e.input@ == label@,
            },
    {
        match windows::Windows::parse(label) {
            Ok(w) => Ok(OS(w)),
            Err(_) => Err(OsError { input: label.to_owned() }),
        }
    }

    /// One display line per edition of the resolved record.
    pub fn to_string(&self) -> (r: Vec<String>)
        ensures
            r.deep_view() == os_lines(self.0.0),
    {
        self.0.to_string()
    }
}

/// The Windows-only entry point: the same dispatch, surfacing the
/// per-dispatch error kind instead of the aggregate diagnostic.
pub struct Windows(pub windows::Windows);

impl Windows {
    pub fn parse(label: &str) -> (r: Result<Windows, ParseError>)
        ensures
            match r {
                Ok(w) => windows::accepts_any(label@) && windows::dispatch_ok(label@, w.0.0),
                Err(e) => !windows::accepts_any(label@) && e
                    == ParseError::UnknownOperatingSystem,
            },
    {
        match windows::Windows::parse(label) {
            Ok(w) => Ok(Windows(w)),
            Err(e) => Err(e),
        }
    }

    /// One display line per edition of the resolved record.
    pub fn to_string(&self) -> (r: Vec<String>)
        ensures
            r.deep_view() == os_lines(self.0.0),
    {
        self.0.to_string()
    }
}

} // verus!
