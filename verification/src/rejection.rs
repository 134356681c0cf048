//! The request-rejection taxonomy of the agent's HTTP surface, and the
//! status code each rejection answers with.
//!
//! The surrounding server carries the underlying failures; here each is
//! reduced to what the response depends on: the kind, the offending path,
//! and a printable detail.

use vstd::prelude::*;

use crate::os_string::PortableOsString;

verus! {

/// Why a request was refused.
#[derive(Debug)]
pub enum Rejections {
    /// The request body did not decode.
    MalformedBody { detail: String },
    /// Session state could not be serialized.
    SessionDataUnserializable { detail: String },
    /// The reply could not be serialized.
    BincodeReplyUnserializable { detail: String },
    /// A relative path arrived while no current directory is set.
    NoCurdirRelativePath { path: PortableOsString },
    /// A listing was asked for while no current directory is set.
    NoCurdirToLs,
    /// The directory listing failed.
    LsDirError { detail: String },
    /// The file could not be read.
    ReadError { path: PortableOsString, detail: String },
    /// The file's contents did not parse as a character sheet.
    SheetParseError { path: PortableOsString, detail: String },
    /// The session is not authenticated.
    Unauthorized,
}

/// The HTTP status code a rejection answers with: client errors for bad
/// bodies and missing authentication, precondition-required where a current
/// directory must be set first, not-found for unreadable or unparsable
/// files, and server errors for the rest.
pub open spec fn rejection_status(r: Rejections) -> u16 {
    match r {
        Rejections::MalformedBody { .. } => 400,
        Rejections::SessionDataUnserializable { .. } => 500,
        Rejections::BincodeReplyUnserializable { .. } => 500,
        Rejections::NoCurdirRelativePath { .. } => 428,
        Rejections::NoCurdirToLs => 428,
        Rejections::LsDirError { .. } => 500,
        Rejections::ReadError { .. } => 404,
        Rejections::SheetParseError { .. } => 404,
        Rejections::Unauthorized => 401,
    }
}

impl Rejections {
    /// The status code this rejection answers with.
    pub fn status_code(&self) -> (r: u16)
        ensures
            r == rejection_status(*self),
    {
        match self {
            Rejections::MalformedBody { .. } => 400,
            Rejections::SessionDataUnserializable { .. } => 500,
            Rejections::BincodeReplyUnserializable { .. } => 500,
            Rejections::NoCurdirRelativePath { .. } => 428,
            Rejections::NoCurdirToLs => 428,
            Rejections::LsDirError { .. } => 500,
            Rejections::ReadError { .. } => 404,
            Rejections::SheetParseError { .. } => 404,
            Rejections::Unauthorized => 401,
        }
    }
}

} // verus!
