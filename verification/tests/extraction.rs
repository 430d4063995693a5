use invoice_extract::extraction::{Action, Event, Extraction, Transition, MAX_DOCUMENT_SIZE};
use invoice_extract::failure::ExtractionError;
use invoice_extract::ocr::{reply, ExtractionResult, OcrRequest, Provenance};

fn after(state: Extraction, event: Event) -> Transition {
    state.step(event).expect("the machine waits for this event")
}

fn awaiting_response() -> Extraction {
    let t = Extraction::start(None);
    let t = after(t.state, Event::LocalText(String::new()));
    let t = after(t.state, Event::BaseUrl("http://localhost:8000/".to_string()));
    let t = after(t.state, Event::Document(vec![1, 2, 3]));
    assert_eq!(t.state, Extraction::Requesting);
    t.state
}

fn text_of(action: Action) -> Result<String, String> {
    match action {
        Action::Finish(outcome) => reply(outcome),
        other => panic!("not finished: {:?}", other),
    }
}

#[test]
fn extraction_without_limit_begins_with_the_local_extractor() {
    let t = Extraction::start(None);
    assert_eq!(t, Transition { state: Extraction::Local, action: Action::ExtractLocally });
    assert!(!t.state.is_finished());
}

#[test]
fn extraction_with_limit_begins_with_the_size() {
    let t = Extraction::start(Some(MAX_DOCUMENT_SIZE));
    assert_eq!(
        t,
        Transition { state: Extraction::Sizing { limit: 10_485_760 }, action: Action::Measure }
    );
}

#[test]
fn the_limit_is_ten_mebibytes() {
    assert_eq!(MAX_DOCUMENT_SIZE, 10 * 1024 * 1024);
}

#[test]
fn embedded_text_is_returned_without_ocr() {
    let t = Extraction::start(None);
    let t = after(t.state, Event::LocalText("  Invoice 42\nTotal 10.00 \n".to_string()));
    assert_eq!(
        t,
        Transition {
            state: Extraction::Success,
            action: Action::Finish(Ok(ExtractionResult {
                text: "  Invoice 42\nTotal 10.00 \n".to_string(),
                provenance: Provenance::Local,
            })),
        }
    );
    assert!(t.state.is_finished());
    assert_eq!(text_of(t.action), Ok("  Invoice 42\nTotal 10.00 \n".to_string()));
}

#[test]
fn finished_extraction_takes_no_event() {
    let t = after(Extraction::Local, Event::LocalText("x".to_string()));
    assert_eq!(t.state, Extraction::Success);
    assert_eq!(Extraction::Success.step(Event::LocalText("x".to_string())), None);
    assert_eq!(Extraction::Success.step(Event::BaseUrl("http://h".to_string())), None);
    assert_eq!(Extraction::Success.step(Event::Document(vec![])), None);
    assert_eq!(Extraction::Failed.step(Event::LocalFailed(ExtractionError::FileRead("x".to_string()))), None);
    assert_eq!(Extraction::Failed.step(Event::Response { status: 200, body: "{}".to_string() }), None);
}

#[test]
fn empty_text_falls_back_to_ocr() {
    let t = after(Extraction::Local, Event::LocalText(String::new()));
    assert_eq!(t, Transition { state: Extraction::Configuring, action: Action::LoadBaseUrl });
}

#[test]
fn white_space_only_text_falls_back_to_ocr() {
    let t = after(Extraction::Local, Event::LocalText(" \n\t \r\n\u{A0}".to_string()));
    assert_eq!(t, Transition { state: Extraction::Configuring, action: Action::LoadBaseUrl });
}

#[test]
fn unreadable_document_falls_back_to_ocr_too() {
    let t = after(
        Extraction::Local,
        Event::LocalFailed(ExtractionError::FileRead("permission denied".to_string())),
    );
    assert_eq!(t, Transition { state: Extraction::Configuring, action: Action::LoadBaseUrl });
}

#[test]
fn failed_local_extraction_falls_back_to_ocr() {
    let t = after(Extraction::Local, Event::LocalFailed(ExtractionError::LocalExtraction("not a PDF".to_string())));
    assert_eq!(t, Transition { state: Extraction::Configuring, action: Action::LoadBaseUrl });
}

#[test]
fn fallback_sends_one_request_with_the_document() {
    let document = vec![0x25, 0x50, 0x44, 0x46, 0x2D, 0xFF, 0x00];
    let t = Extraction::start(None);
    assert_eq!(t.action, Action::ExtractLocally);
    let t = after(t.state, Event::LocalText("   ".to_string()));
    assert_eq!(t.action, Action::LoadBaseUrl);
    let t = after(t.state, Event::BaseUrl("https://api.example.com/".to_string()));
    assert_eq!(t.action, Action::ReadDocument);
    assert_eq!(t.state, Extraction::Reading { url: "https://api.example.com/ocr/pdf".to_string() });
    let t = after(t.state, Event::Document(document.clone()));
    assert_eq!(
        t.action,
        Action::Send(OcrRequest {
            url: "https://api.example.com/ocr/pdf".to_string(),
            content_type: "application/pdf".to_string(),
            body: document,
        })
    );
    assert_eq!(t.state, Extraction::Requesting);
    assert_eq!(Extraction::Requesting.step(Event::Document(vec![1])), None);
    assert_eq!(Extraction::Requesting.step(Event::BaseUrl("http://other".to_string())), None);
}

#[test]
fn missing_base_url_gives_a_bare_path() {
    let t = after(Extraction::Configuring, Event::BaseUrl(String::new()));
    assert_eq!(t.state, Extraction::Reading { url: "/ocr/pdf".to_string() });
}

#[test]
fn ocr_response_with_text_is_returned() {
    let t = after(
        awaiting_response(),
        Event::Response { status: 200, body: "{\"text\": \"hello\"}".to_string() },
    );
    assert_eq!(
        t,
        Transition {
            state: Extraction::Success,
            action: Action::Finish(Ok(ExtractionResult {
                text: "hello".to_string(),
                provenance: Provenance::Ocr,
            })),
        }
    );
    assert_eq!(text_of(t.action), Ok("hello".to_string()));
}

#[test]
fn ocr_response_with_empty_text_is_returned() {
    let t = after(
        awaiting_response(),
        Event::Response { status: 200, body: "{\"text\": \"\"}".to_string() },
    );
    assert_eq!(t.state, Extraction::Success);
    assert_eq!(text_of(t.action), Ok(String::new()));
}

#[test]
fn ocr_response_500_is_a_generic_failure() {
    for body in ["{\"text\": \"hello\"}", "", "oops"] {
        let t = after(awaiting_response(), Event::Response { status: 500, body: body.to_string() });
        assert_eq!(t.state, Extraction::Failed);
        assert_eq!(t.action, Action::Finish(Err(ExtractionError::NonSuccessStatus(500))));
        assert_eq!(text_of(t.action), Err("Failed to extract text".to_string()));
    }
}

#[test]
fn ocr_response_without_text_is_a_generic_failure() {
    let t = after(
        awaiting_response(),
        Event::Response { status: 200, body: "{\"foo\": \"bar\"}".to_string() },
    );
    assert_eq!(t.state, Extraction::Failed);
    assert_eq!(t.action, Action::Finish(Err(ExtractionError::MissingTextField)));
    assert_eq!(text_of(t.action), Err("Failed to extract text".to_string()));
}

#[test]
fn ocr_response_that_is_no_json_is_a_generic_failure() {
    let t = after(
        awaiting_response(),
        Event::Response { status: 200, body: "upstream timed out".to_string() },
    );
    assert_eq!(t.action, Action::Finish(Err(ExtractionError::ResponseDecode)));
    assert_eq!(text_of(t.action), Err("Failed to extract text".to_string()));
}

#[test]
fn request_that_cannot_be_sent_fails_with_its_reason() {
    let t = after(awaiting_response(), Event::SendFailed("connection refused".to_string()));
    assert_eq!(t.state, Extraction::Failed);
    assert_eq!(
        t.action,
        Action::Finish(Err(ExtractionError::Network(
            "OCR request failed: connection refused".to_string()
        )))
    );
    assert_eq!(text_of(t.action), Err("OCR request failed: connection refused".to_string()));
}

#[test]
fn response_that_cannot_be_received_fails_with_its_reason() {
    let t = after(awaiting_response(), Event::ReceiveFailed("connection reset".to_string()));
    assert_eq!(t.state, Extraction::Failed);
    assert_eq!(text_of(t.action), Err("connection reset".to_string()));
}

#[test]
fn unreadable_configuration_fails_with_its_reason() {
    let t = after(Extraction::Configuring, Event::ConfigurationFailed("store is locked".to_string()));
    assert_eq!(t.state, Extraction::Failed);
    assert_eq!(
        t.action,
        Action::Finish(Err(ExtractionError::Configuration("store is locked".to_string())))
    );
}

#[test]
fn unreadable_document_fails_with_its_reason() {
    let t = after(
        Extraction::Reading { url: "http://h/ocr/pdf".to_string() },
        Event::ReadFailed("No such file or directory (os error 2)".to_string()),
    );
    assert_eq!(t.state, Extraction::Failed);
    assert_eq!(text_of(t.action), Err("No such file or directory (os error 2)".to_string()));
}

#[test]
fn oversized_document_is_rejected_before_anything_is_read() {
    let t = Extraction::start(Some(MAX_DOCUMENT_SIZE));
    assert_eq!(t.action, Action::Measure);
    let t = after(t.state, Event::Measured(MAX_DOCUMENT_SIZE + 1));
    assert_eq!(
        t,
        Transition {
            state: Extraction::Failed,
            action: Action::Finish(Err(ExtractionError::FileTooLarge {
                size: 10_485_761,
                limit: 10_485_760,
            })),
        }
    );
    assert_eq!(Extraction::Failed.step(Event::LocalText("x".to_string())), None);
    assert_eq!(Extraction::Failed.step(Event::Document(vec![1])), None);
}

#[test]
fn document_at_the_limit_is_accepted() {
    let t = after(Extraction::Sizing { limit: MAX_DOCUMENT_SIZE }, Event::Measured(MAX_DOCUMENT_SIZE));
    assert_eq!(t, Transition { state: Extraction::Local, action: Action::ExtractLocally });
    let t = after(Extraction::Sizing { limit: 0 }, Event::Measured(0));
    assert_eq!(t.action, Action::ExtractLocally);
    let t = after(Extraction::Sizing { limit: 0 }, Event::Measured(1));
    assert_eq!(t.action, Action::Finish(Err(ExtractionError::FileTooLarge { size: 1, limit: 0 })));
}

#[test]
fn unmeasurable_document_fails_with_its_reason() {
    let t = after(Extraction::Sizing { limit: 10 }, Event::MeasureFailed("permission denied".to_string()));
    assert_eq!(t.state, Extraction::Failed);
    assert_eq!(
        t.action,
        Action::Finish(Err(ExtractionError::FileRead("permission denied".to_string())))
    );
}

#[test]
fn events_out_of_turn_are_refused() {
    assert_eq!(Extraction::Local.step(Event::Measured(1)), None);
    assert_eq!(Extraction::Local.step(Event::BaseUrl("http://h".to_string())), None);
    assert_eq!(Extraction::Local.step(Event::Response { status: 200, body: String::new() }), None);
    assert_eq!(Extraction::Sizing { limit: 5 }.step(Event::LocalText("x".to_string())), None);
    assert_eq!(Extraction::Configuring.step(Event::LocalText("x".to_string())), None);
    assert_eq!(Extraction::Configuring.step(Event::Document(vec![])), None);
    assert_eq!(Extraction::Configuring.step(Event::ReadFailed("x".to_string())), None);
    let reading = Extraction::Reading { url: "u".to_string() };
    assert_eq!(reading.clone().step(Event::BaseUrl("http://h".to_string())), None);
    assert_eq!(reading.step(Event::SendFailed("x".to_string())), None);
    assert_eq!(Extraction::Requesting.step(Event::LocalFailed(ExtractionError::FileRead("x".to_string()))), None);
    assert_eq!(Extraction::Requesting.step(Event::ConfigurationFailed("x".to_string())), None);
}

#[test]
fn whole_extraction_asks_for_each_piece_of_work_once() {
    let events = vec![
        Event::Measured(7),
        Event::LocalFailed(ExtractionError::LocalExtraction("encrypted".to_string())),
        Event::BaseUrl("http://h".to_string()),
        Event::Document(vec![9; 7]),
        Event::Response { status: 200, body: "{\"text\": \"scanned\"}".to_string() },
    ];
    let first = Extraction::start(Some(100));
    let mut state = first.state;
    let mut actions = vec![first.action];
    for event in events {
        let t = after(state, event);
        state = t.state;
        actions.push(t.action);
    }
    assert_eq!(state, Extraction::Success);
    assert_eq!(actions.len(), 6);
    assert_eq!(actions[0], Action::Measure);
    assert_eq!(actions[1], Action::ExtractLocally);
    assert_eq!(actions[2], Action::LoadBaseUrl);
    assert_eq!(actions[3], Action::ReadDocument);
    assert_eq!(
        actions[4],
        Action::Send(OcrRequest {
            url: "http://h/ocr/pdf".to_string(),
            content_type: "application/pdf".to_string(),
            body: vec![9; 7],
        })
    );
    assert_eq!(
        actions[5],
        Action::Finish(Ok(ExtractionResult { text: "scanned".to_string(), provenance: Provenance::Ocr }))
    );
    assert_eq!(actions.iter().filter(|a| matches!(a, Action::Send(_))).count(), 1);
    assert_eq!(actions.iter().filter(|a| matches!(a, Action::ExtractLocally)).count(), 1);
}
