//! The kinds of failure, kept apart until the caller's boundary, and the one
//! line of text that each becomes there.

use vstd::prelude::*;
use vstd::string::*;

verus! {

/// The message of every failure that says no more than that no text came out.
pub const GENERIC_FAILURE: &'static str = "Failed to extract text";

/// The message of a document that is over the size limit.
pub const TOO_LARGE_FAILURE: &'static str = "File exceeds the maximum size";

/// What is put before the reason when the OCR request could not be sent.
pub const SEND_FAILURE_PREFIX: &'static str = "OCR request failed: ";

/// Why an extraction ended without text.
#[derive(Clone, Debug, PartialEq, Eq)]
pub enum ExtractionError {
    /// The document, or its size, could not be read. Holds the reason.
    FileRead(String),
    /// The document is larger than the configured maximum.
    FileTooLarge { size: u64, limit: u64 },
    /// The local extractor did not accept the document. Holds the reason.
    LocalExtraction(String),
    /// The configuration could not be read. Holds the reason.
    Configuration(String),
    /// The request was not sent, or the response not received. Holds the
    /// message for the caller.
    Network(String),
    /// The response body is not JSON.
    ResponseDecode,
    /// The response is JSON without a string member `text`.
    MissingTextField,
    /// The service answered with a status outside 200..=299.
    NonSuccessStatus(u16),
}

/// The mathematical value of an `ExtractionError`.
pub enum ExtractionErrorView {
    FileRead(Seq<char>),
    FileTooLarge { size: u64, limit: u64 },
    LocalExtraction(Seq<char>),
    Configuration(Seq<char>),
    Network(Seq<char>),
    ResponseDecode,
    MissingTextField,
    NonSuccessStatus(u16),
}

impl View for ExtractionError {
    type V = ExtractionErrorView;

    open spec fn view(&self) -> ExtractionErrorView {
        match self {
            ExtractionError::FileRead(reason) => ExtractionErrorView::FileRead(reason@),
            ExtractionError::FileTooLarge { size, limit } => ExtractionErrorView::FileTooLarge {
                size: *size,
                limit: *limit,
            },
            ExtractionError::LocalExtraction(reason) => ExtractionErrorView::LocalExtraction(
                reason@,
            ),
            ExtractionError::Configuration(reason) => ExtractionErrorView::Configuration(reason@),
            ExtractionError::Network(message) => ExtractionErrorView::Network(message@),
            ExtractionError::ResponseDecode => ExtractionErrorView::ResponseDecode,
            ExtractionError::MissingTextField => ExtractionErrorView::MissingTextField,
            ExtractionError::NonSuccessStatus(status) => ExtractionErrorView::NonSuccessStatus(
                *status,
            ),
        }
    }
}

impl ExtractionErrorView {
    /// The text that the caller gets for this failure: the reason where the
    /// failure holds one, and one fixed line for every failure of the OCR
    /// response.
    pub open spec fn message(self) -> Seq<char> {
        match self {
            ExtractionErrorView::FileRead(reason) => reason,
            ExtractionErrorView::FileTooLarge { .. } => TOO_LARGE_FAILURE@,
            ExtractionErrorView::LocalExtraction(reason) => reason,
            ExtractionErrorView::Configuration(reason) => reason,
            ExtractionErrorView::Network(message) => message,
            ExtractionErrorView::ResponseDecode => GENERIC_FAILURE@,
            ExtractionErrorView::MissingTextField => GENERIC_FAILURE@,
            ExtractionErrorView::NonSuccessStatus(_) => GENERIC_FAILURE@,
        }
    }

    /// Whether this is one of the failures of the OCR response that the
    /// caller cannot tell apart.
    pub open spec fn is_generic(self) -> bool {
        self is ResponseDecode || self is MissingTextField || self is NonSuccessStatus
    }
}

impl ExtractionError {
    /// Flattens the failure to the text that crosses the caller's boundary.
    pub fn message(&self) -> (m: String)
        ensures
            m@ == self@.message(),
    {
        match self {
            ExtractionError::FileRead(reason) => reason.clone(),
            ExtractionError::FileTooLarge { .. } => String::from_str(TOO_LARGE_FAILURE),
            ExtractionError::LocalExtraction(reason) => reason.clone(),
            ExtractionError::Configuration(reason) => reason.clone(),
            ExtractionError::Network(message) => message.clone(),
            ExtractionError::ResponseDecode => String::from_str(GENERIC_FAILURE),
            ExtractionError::MissingTextField => String::from_str(GENERIC_FAILURE),
            ExtractionError::NonSuccessStatus(_) => String::from_str(GENERIC_FAILURE),
        }
    }
}

/// Why an update ended without a restart. Each holds the reason.
#[derive(Clone, Debug, PartialEq, Eq)]
pub enum UpdateError {
    /// The remote manifest could not be queried.
    Check(String),
    /// The package could not be downloaded.
    Download(String),
    /// The downloaded package could not be installed.
    Install(String),
}

/// The mathematical value of an `UpdateError`.
pub enum UpdateErrorView {
    Check(Seq<char>),
    Download(Seq<char>),
    Install(Seq<char>),
}

impl View for UpdateError {
    type V = UpdateErrorView;

    open spec fn view(&self) -> UpdateErrorView {
        match self {
            UpdateError::Check(reason) => UpdateErrorView::Check(reason@),
            UpdateError::Download(reason) => UpdateErrorView::Download(reason@),
            UpdateError::Install(reason) => UpdateErrorView::Install(reason@),
        }
    }
}

impl UpdateErrorView {
    /// The text that the caller gets: the underlying reason, unchanged.
    pub open spec fn message(self) -> Seq<char> {
        match self {
            UpdateErrorView::Check(reason) => reason,
            UpdateErrorView::Download(reason) => reason,
            UpdateErrorView::Install(reason) => reason,
        }
    }
}

impl UpdateError {
    /// Flattens the failure to the text that crosses the caller's boundary.
    pub fn message(&self) -> (m: String)
        ensures
            m@ == self@.message(),
    {
        match self {
            UpdateError::Check(reason) => reason.clone(),
            UpdateError::Download(reason) => reason.clone(),
            UpdateError::Install(reason) => reason.clone(),
        }
    }
}

} // verus!
