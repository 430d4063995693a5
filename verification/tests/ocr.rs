use invoice_extract::failure::{
    ExtractionError, UpdateError, GENERIC_FAILURE, SEND_FAILURE_PREFIX, TOO_LARGE_FAILURE,
};
use invoice_extract::json::TextField;
use invoice_extract::ocr::{
    handle_response, interpret_response, is_success, ocr_endpoint, ocr_request, reply,
    ExtractionResult, OcrRequest, Provenance, OCR_PATH, PDF_CONTENT_TYPE, TEXT_MEMBER,
};

fn ocr_text(text: &str) -> ExtractionResult {
    ExtractionResult { text: text.to_string(), provenance: Provenance::Ocr }
}

#[test]
fn constants_of_the_wire_contract() {
    assert_eq!(OCR_PATH, "/ocr/pdf");
    assert_eq!(PDF_CONTENT_TYPE, "application/pdf");
    assert_eq!(TEXT_MEMBER, "text");
    assert_eq!(GENERIC_FAILURE, "Failed to extract text");
    assert_eq!(SEND_FAILURE_PREFIX, "OCR request failed: ");
}

#[test]
fn endpoint_appends_the_path() {
    assert_eq!(ocr_endpoint("http://localhost:8000"), "http://localhost:8000/ocr/pdf");
}

#[test]
fn endpoint_strips_trailing_slashes_first() {
    assert_eq!(ocr_endpoint("http://localhost:8000/"), "http://localhost:8000/ocr/pdf");
    assert_eq!(ocr_endpoint("https://api.example.com/v1///"), "https://api.example.com/v1/ocr/pdf");
}

#[test]
fn endpoint_of_an_empty_base_is_the_path() {
    assert_eq!(ocr_endpoint(""), "/ocr/pdf");
    assert_eq!(ocr_endpoint("/"), "/ocr/pdf");
}

#[test]
fn request_carries_the_document_as_pdf() {
    let request = ocr_request("http://h/ocr/pdf".to_string(), vec![0x25, 0x50, 0x44, 0x46, 0, 255]);
    assert_eq!(
        request,
        OcrRequest {
            url: "http://h/ocr/pdf".to_string(),
            content_type: "application/pdf".to_string(),
            body: vec![0x25, 0x50, 0x44, 0x46, 0, 255],
        }
    );
}

#[test]
fn success_is_200_to_299() {
    assert!(!is_success(0));
    assert!(!is_success(100));
    assert!(!is_success(199));
    assert!(is_success(200));
    assert!(is_success(204));
    assert!(is_success(299));
    assert!(!is_success(300));
    assert!(!is_success(404));
    assert!(!is_success(500));
    assert!(!is_success(u16::MAX));
}

#[test]
fn interpreting_a_found_text() {
    assert_eq!(
        interpret_response(200, TextField::Present("hello".to_string())),
        Ok(ocr_text("hello"))
    );
    assert_eq!(interpret_response(201, TextField::Present(String::new())), Ok(ocr_text("")));
}

#[test]
fn interpreting_a_failed_status() {
    assert_eq!(
        interpret_response(500, TextField::Present("hello".to_string())),
        Err(ExtractionError::NonSuccessStatus(500))
    );
    assert_eq!(
        interpret_response(404, TextField::Undecodable),
        Err(ExtractionError::NonSuccessStatus(404))
    );
    assert_eq!(interpret_response(302, TextField::Absent), Err(ExtractionError::NonSuccessStatus(302)));
}

#[test]
fn interpreting_a_body_without_text() {
    assert_eq!(interpret_response(200, TextField::Absent), Err(ExtractionError::MissingTextField));
    assert_eq!(interpret_response(200, TextField::Undecodable), Err(ExtractionError::ResponseDecode));
}

#[test]
fn response_200_with_text_gives_the_text() {
    assert_eq!(handle_response(200, "{\"text\": \"hello\"}"), Ok(ocr_text("hello")));
    assert_eq!(reply(handle_response(200, "{\"text\": \"hello\"}")), Ok("hello".to_string()));
}

#[test]
fn response_with_empty_text_is_a_success() {
    assert_eq!(handle_response(200, "{\"text\": \"\"}"), Ok(ocr_text("")));
    assert_eq!(reply(handle_response(200, "{\"text\": \"\"}")), Ok(String::new()));
}

#[test]
fn response_500_fails_whatever_the_body() {
    for body in ["{\"text\": \"hello\"}", "", "Internal Server Error", "{\"foo\": \"bar\"}", "{"] {
        assert_eq!(handle_response(500, body), Err(ExtractionError::NonSuccessStatus(500)));
        assert_eq!(reply(handle_response(500, body)), Err("Failed to extract text".to_string()));
    }
}

#[test]
fn response_200_without_text_member_fails() {
    assert_eq!(handle_response(200, "{\"foo\": \"bar\"}"), Err(ExtractionError::MissingTextField));
    assert_eq!(
        reply(handle_response(200, "{\"foo\": \"bar\"}")),
        Err("Failed to extract text".to_string())
    );
}

#[test]
fn response_200_that_is_no_json_fails() {
    assert_eq!(handle_response(200, "<html></html>"), Err(ExtractionError::ResponseDecode));
    assert_eq!(reply(handle_response(200, "\u{FFFD}\u{FFFD}")), Err("Failed to extract text".to_string()));
}

#[test]
fn message_of_each_extraction_failure() {
    assert_eq!(ExtractionError::FileRead("No such file".to_string()).message(), "No such file");
    assert_eq!(ExtractionError::FileTooLarge { size: 11, limit: 10 }.message(), TOO_LARGE_FAILURE);
    assert_eq!(ExtractionError::LocalExtraction("bad xref".to_string()).message(), "bad xref");
    assert_eq!(ExtractionError::Configuration("store is locked".to_string()).message(), "store is locked");
    assert_eq!(
        ExtractionError::Network("OCR request failed: timed out".to_string()).message(),
        "OCR request failed: timed out"
    );
    assert_eq!(ExtractionError::ResponseDecode.message(), "Failed to extract text");
    assert_eq!(ExtractionError::MissingTextField.message(), "Failed to extract text");
    assert_eq!(ExtractionError::NonSuccessStatus(503).message(), "Failed to extract text");
}

#[test]
fn message_of_each_update_failure() {
    assert_eq!(UpdateError::Check("dns".to_string()).message(), "dns");
    assert_eq!(UpdateError::Download("reset".to_string()).message(), "reset");
    assert_eq!(UpdateError::Install("denied".to_string()).message(), "denied");
}

#[test]
fn reply_keeps_the_text_and_drops_the_provenance() {
    let local = ExtractionResult { text: " Invoice 7 ".to_string(), provenance: Provenance::Local };
    assert_eq!(reply(Ok(local)), Ok(" Invoice 7 ".to_string()));
    assert_eq!(reply(Ok(ocr_text("Invoice 8"))), Ok("Invoice 8".to_string()));
    assert_eq!(
        reply(Err(ExtractionError::FileRead("denied".to_string()))),
        Err("denied".to_string())
    );
}
