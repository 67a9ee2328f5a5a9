use vstd::prelude::*;

verus! {

/// The classes of failure the library reports.
///
/// `Configuration` covers malformed construction options, `Connection` a
/// failed launch or attach, `Lookup` an unregistered selector name,
/// `NotFound` an element query unmatched after retries, `Interaction` a
/// click/type/navigate primitive that failed after retries, and
/// `RetryExhausted` the generic fallback when no attempt was ever made.
#[derive(Clone, Copy, Debug, PartialEq, Eq, Structural)]
pub enum ErrorKind {
    Configuration,
    Connection,
    Lookup,
    NotFound,
    Interaction,
    RetryExhausted,
}

/// An error of the library: a class together with a human-readable message.
#[derive(Clone, Debug)]
pub struct ScrapeError {
    pub kind: ErrorKind,
    pub message: String,
}

impl ScrapeError {
    pub fn new(kind: ErrorKind, message: String) -> (r: ScrapeError)
        ensures
            r.kind == kind,
            r.message == message,
    {
        ScrapeError { kind, message }
    }

    /// A textual rendering of the error, for callers that print it.
    pub fn describe(&self) -> (r: String)
        ensures
            r@ == self.message@,
    {
        self.message.clone()
    }
}

/// A failure reported by a driver primitive, before the library has
/// classified it into an `ErrorKind`.
#[derive(Clone, Debug)]
pub struct DriverError {
    pub message: String,
}

impl DriverError {
    pub fn new(message: String) -> (r: DriverError)
        ensures
            r.message == message,
    {
        DriverError { message }
    }

    /// Classify this driver failure under the given kind.
    pub fn into_scrape_error(self, kind: ErrorKind) -> (r: ScrapeError)
        ensures
            r.kind == kind,
            r.message == self.message,
    {
        ScrapeError { kind, message: self.message }
    }
}

} // verus!
