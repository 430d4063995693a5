//! The OCR fallback: the request that is sent for a document, and what a
//! response is worth.

use crate::failure::{ExtractionError, ExtractionErrorView, GENERIC_FAILURE};
use crate::json::{read_text_field, text_field, TextField, TextFieldView};
use crate::text::{strip_trailing, without_trailing};
use vstd::prelude::*;
use vstd::string::*;

verus! {

/// The path of the OCR operation below the service's base URL.
pub const OCR_PATH: &'static str = "/ocr/pdf";

/// The content type under which a document is sent.
pub const PDF_CONTENT_TYPE: &'static str = "application/pdf";

/// The member of the response that holds the recovered text.
pub const TEXT_MEMBER: &'static str = "text";

/// Where a text came from.
#[derive(Clone, Copy, Debug, PartialEq, Eq, Structural)]
pub enum Provenance {
    /// From the text embedded in the document.
    Local,
    /// From the OCR service.
    Ocr,
}

/// An extracted text, which may be empty, and where it came from.
#[derive(Clone, Debug, PartialEq, Eq)]
pub struct ExtractionResult {
    pub text: String,
    pub provenance: Provenance,
}

/// The mathematical value of an `ExtractionResult`.
pub struct ExtractionResultView {
    pub text: Seq<char>,
    pub provenance: Provenance,
}

impl View for ExtractionResult {
    type V = ExtractionResultView;

    open spec fn view(&self) -> ExtractionResultView {
        ExtractionResultView { text: self.text@, provenance: self.provenance }
    }
}

/// How an extraction ends.
pub type Outcome = Result<ExtractionResult, ExtractionError>;

/// The mathematical value of an `Outcome`.
pub type OutcomeView = Result<ExtractionResultView, ExtractionErrorView>;

/// The view of an outcome: that of the result or of the failure in it.
pub open spec fn outcome_view(outcome: Outcome) -> OutcomeView {
    match outcome {
        Ok(result) => Ok(result@),
        Err(error) => Err(error@),
    }
}

/// What the caller gets for an outcome: the text alone, or the failure's
/// message.
pub open spec fn reply_of(outcome: OutcomeView) -> Result<Seq<char>, Seq<char>> {
    match outcome {
        Ok(result) => Ok(result.text),
        Err(error) => Err(error.message()),
    }
}

/// One POST to the OCR service.
#[derive(Clone, Debug, PartialEq, Eq)]
pub struct OcrRequest {
    pub url: String,
    pub content_type: String,
    pub body: Vec<u8>,
}

/// The mathematical value of an `OcrRequest`.
pub struct OcrRequestView {
    pub url: Seq<char>,
    pub content_type: Seq<char>,
    pub body: Seq<u8>,
}

impl View for OcrRequest {
    type V = OcrRequestView;

    open spec fn view(&self) -> OcrRequestView {
        OcrRequestView { url: self.url@, content_type: self.content_type@, body: self.body@ }
    }
}

/// The URL of the OCR operation for a base URL: the base without the slashes
/// at its end, then the operation's path.
pub open spec fn endpoint(base_url: Seq<char>) -> Seq<char> {
    without_trailing(base_url, '/') + OCR_PATH@
}

/// The request that carries `document` to `url`.
pub open spec fn request_for(url: Seq<char>, document: Seq<u8>) -> OcrRequestView {
    OcrRequestView { url, content_type: PDF_CONTENT_TYPE@, body: document }
}

/// Whether an HTTP status reports success: 200 to 299.
pub open spec fn success_status(status: u16) -> bool {
    200 <= status <= 299
}

/// What a response is worth, given its status and what its body holds under
/// `text`. A status that reports no success decides alone; after that, a body
/// that is no JSON, and then a missing member. A member that is present is the
/// text, also when it is empty.
pub open spec fn response_outcome(status: u16, field: TextFieldView) -> OutcomeView {
    if !success_status(status) {
        Err(ExtractionErrorView::NonSuccessStatus(status))
    } else {
        match field {
            TextFieldView::Undecodable => Err(ExtractionErrorView::ResponseDecode),
            TextFieldView::Absent => Err(ExtractionErrorView::MissingTextField),
            TextFieldView::Present(text) => Ok(
                ExtractionResultView { text, provenance: Provenance::Ocr },
            ),
        }
    }
}

/// Builds the URL of the OCR operation from the configured base URL.
pub fn ocr_endpoint(base_url: &str) -> (url: String)
    ensures
        url@ == endpoint(base_url@),
{
    String::from_str(strip_trailing(base_url, '/')).concat(OCR_PATH)
}

/// Builds the request that carries `document` to `url`.
pub fn ocr_request(url: String, document: Vec<u8>) -> (request: OcrRequest)
    ensures
        request@ == request_for(url@, document@),
{
    OcrRequest { url, content_type: String::from_str(PDF_CONTENT_TYPE), body: document }
}

/// Decides whether an HTTP status reports success.
pub fn is_success(status: u16) -> (r: bool)
    ensures
        r == success_status(status),
{
    200 <= status && status <= 299
}

/// Decides what a response is worth from its status and from what was found
/// in its body.
pub fn interpret_response(status: u16, field: TextField) -> (outcome: Outcome)
    ensures
        outcome_view(outcome) == response_outcome(status, field@),
{
    if !is_success(status) {
        Err(ExtractionError::NonSuccessStatus(status))
    } else {
        match field {
            TextField::Undecodable => Err(ExtractionError::ResponseDecode),
            TextField::Absent => Err(ExtractionError::MissingTextField),
            TextField::Present(text) => Ok(ExtractionResult { text, provenance: Provenance::Ocr }),
        }
    }
}

/// Decides what a response is worth from its status and its raw body. The
/// body is read as JSON only when the status reports success.
pub fn handle_response(status: u16, body: &str) -> (outcome: Outcome)
    ensures
        outcome_view(outcome) == response_outcome(status, text_field(body@, TEXT_MEMBER@)),
{
    if !is_success(status) {
        Err(ExtractionError::NonSuccessStatus(status))
    } else {
        interpret_response(status, read_text_field(body, TEXT_MEMBER))
    }
}

/// Flattens an outcome to what crosses the caller's boundary.
pub fn reply(outcome: Outcome) -> (r: Result<String, String>)
    ensures
        match r {
            Ok(text) => reply_of(outcome_view(outcome)) == Ok::<Seq<char>, Seq<char>>(text@),
            Err(message) => reply_of(outcome_view(outcome)) == Err::<Seq<char>, Seq<char>>(
                message@,
            ),
        },
{
    match outcome {
        Ok(result) => Ok(result.text),
        Err(error) => Err(error.message()),
    }
}

/// A response whose status reports no success is worth the same failure
/// whatever its body holds, and the caller gets the generic message for it.
pub proof fn lemma_failure_status_decides(status: u16, field: TextFieldView)
    requires
        !success_status(status),
    ensures
        response_outcome(status, field) == Err::<ExtractionResultView, ExtractionErrorView>(
            ExtractionErrorView::NonSuccessStatus(status),
        ),
        reply_of(response_outcome(status, field)) == Err::<Seq<char>, Seq<char>>(GENERIC_FAILURE@),
{
}

/// Every failure of a response is generic: the caller gets the same message
/// for a status that reports no success, for a body that is no JSON and for a
/// missing member.
pub proof fn lemma_response_failures_are_generic(status: u16, field: TextFieldView)
    ensures
        response_outcome(status, field) matches Err(error) ==> error.is_generic()
            && error.message() == GENERIC_FAILURE@,
        response_outcome(status, field) is Ok <==> success_status(status) && field is Present,
        response_outcome(status, field) matches Ok(result) ==> field == TextFieldView::Present(
            result.text,
        ) && result.provenance == Provenance::Ocr,
{
}

} // verus!
