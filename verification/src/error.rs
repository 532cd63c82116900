use vstd::prelude::*;
use vstd::string::*;

verus! {

/// Errors reported by the binding.
///
/// `GeosError` holds the name of the GEOS function that failed and, when
/// GEOS reported one, the last error message of the context.
#[derive(Debug, Ord, PartialOrd, Eq, PartialEq)]
pub enum Error {
    GeosError((&'static str, Option<String>)),
    ImpossibleOperation(String),
    ConversionError(String),
    GenericError(String),
}

/// Result type used throughout the binding.
pub type GResult<T> = Result<T, Error>;

/// The text of an optional message.
pub open spec fn opt_text(o: Option<String>) -> Option<Seq<char>> {
    match o {
        Some(s) => Some(s@),
        None => None,
    }
}

/// `res` is the error reported for a failed call of the GEOS function named
/// `func`, carrying `last_error` as the context's message.
pub open spec fn is_geos_error<T>(res: GResult<T>, func: Seq<char>, last_error: Option<Seq<char>>) -> bool {
    match res {
        Err(Error::GeosError((f, msg))) => f@ == func && opt_text(msg) == last_error,
        _ => false,
    }
}

/// `res` is a `GenericError` with the text `text`.
pub open spec fn is_generic_error<T>(res: GResult<T>, text: Seq<char>) -> bool {
    match res {
        Err(Error::GenericError(s)) => s@ == text,
        _ => false,
    }
}

impl Error {
    /// The text that the error is displayed as.
    pub open spec fn message(&self) -> Seq<char> {
        match self {
            Error::GeosError((caller, Some(err))) => caller@ + " failed with "@ + err@,
            Error::GeosError((caller, None)) => caller@ + " failed"@,
            Error::ImpossibleOperation(s) => "impossible operation: "@ + s@,
            Error::ConversionError(s) => "impossible to convert geometry: "@ + s@,
            Error::GenericError(s) => "generic error: "@ + s@,
        }
    }

    /// Renders the error as text (what `Display` writes for it).
    pub fn to_string(&self) -> (res: String)
        ensures
            res@ == self.message(),
    {
        match self {
            Error::GeosError((caller, Some(err))) => {
                let mut res = String::from_str(caller);
                res.append(" failed with ");
                res.append(err.as_str());
                res
            },
            Error::GeosError((caller, None)) => {
                let mut res = String::from_str(caller);
                res.append(" failed");
                res
            },
            Error::ImpossibleOperation(s) => {
                let mut res = String::from_str("impossible operation: ");
                res.append(s.as_str());
                res
            },
            Error::ConversionError(s) => {
                let mut res = String::from_str("impossible to convert geometry: ");
                res.append(s.as_str());
                res
            },
            Error::GenericError(s) => {
                let mut res = String::from_str("generic error: ");
                res.append(s.as_str());
                res
            },
        }
    }
}

impl Clone for Error {
    fn clone(&self) -> (res: Self)
        ensures
            res == *self,
    {
        match self {
            Error::GeosError((caller, last)) => Error::GeosError((*caller, last.clone())),
            Error::ImpossibleOperation(s) => Error::ImpossibleOperation(s.clone()),
            Error::ConversionError(s) => Error::ConversionError(s.clone()),
            Error::GenericError(s) => Error::GenericError(s.clone()),
        }
    }
}

} // verus!
