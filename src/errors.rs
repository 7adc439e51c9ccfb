//! The failures of a feed request, and the HTTP status that each is answered with.
use vstd::prelude::*;

verus! {

/// Why a feed request failed.
#[derive(Clone, Debug)]
pub enum AppError {
    /// The article source could not be reached or answered with something unusable.
    ArticleFetch(String),
    /// The feed could not be written.
    RssBuild(String),
    /// Reading or writing a local file failed.
    Io(String),
    /// The listening address is malformed.
    AddrParse(String),
    /// Any other failure of a collaborating service.
    BoxedError(String),
}

impl AppError {
    /// The HTTP status that answers this failure.
    pub open spec fn status_of(self) -> u16 {
        match self {
            AppError::ArticleFetch(_) => 502,
            AppError::AddrParse(_) => 400,
            _ => 500,
        }
    }

    /// What this failure says to a reader.
    pub open spec fn message_of(self) -> Seq<char> {
        match self {
            AppError::ArticleFetch(m) => "Article fetch error: "@ + m@,
            AppError::RssBuild(m) => "RSS build error: "@ + m@,
            AppError::Io(m) => "IO error: "@ + m@,
            AppError::AddrParse(m) => "Address parse error: "@ + m@,
            AppError::BoxedError(m) => "Service error: "@ + m@,
        }
    }

    /// The HTTP status that answers this failure.
    pub fn status_code(&self) -> (r: u16)
        ensures
            r == self.status_of(),
    {
        match self {
            AppError::ArticleFetch(_) => 502,
            AppError::AddrParse(_) => 400,
            _ => 500,
        }
    }

    /// What this failure says to a reader.
    pub fn message(&self) -> (r: String)
        ensures
            r@ == self.message_of(),
    {
        let (mut out, m) = match self {
            AppError::ArticleFetch(m) => (String::from_str("Article fetch error: "), m),
            AppError::RssBuild(m) => (String::from_str("RSS build error: "), m),
            AppError::Io(m) => (String::from_str("IO error: "), m),
            AppError::AddrParse(m) => (String::from_str("Address parse error: "), m),
            AppError::BoxedError(m) => (String::from_str("Service error: "), m),
        };
        out.append(m.as_str());
        out
    }
}

} // verus!
