use vstd::prelude::*;

verus! {

/// Why a run failed: one variant for each collaborator, carrying the
/// collaborator's own description of the failure.
#[derive(Debug)]
pub enum Error {
    CredentialsError(String),
    ReqError(String),
    ListHostedZonesByNameError(String),
    ChangeResourceRecordSetsError(String),
}

/// The text shown for an error: its kind, then the underlying message.
pub open spec fn error_message(e: Error) -> Seq<char> {
    match e {
        Error::CredentialsError(m) => "credentials error: "@ + m@,
        Error::ReqError(m) => "reqwest error: "@ + m@,
        Error::ListHostedZonesByNameError(m) => "route 53: "@ + m@,
        Error::ChangeResourceRecordSetsError(m) => "route 53: "@ + m@,
    }
}

impl Error {
    /// Formats the error as its kind followed by the underlying message.
    pub fn message(&self) -> (r: String)
        ensures
            r@ == error_message(*self),
    {
        match self {
            Error::CredentialsError(m) => String::from_str("credentials error: ").concat(m.as_str()),
            Error::ReqError(m) => String::from_str("reqwest error: ").concat(m.as_str()),
            Error::ListHostedZonesByNameError(m) => String::from_str("route 53: ").concat(
                m.as_str(),
            ),
            Error::ChangeResourceRecordSetsError(m) => String::from_str("route 53: ").concat(
                m.as_str(),
            ),
        }
    }
}

} // verus!
