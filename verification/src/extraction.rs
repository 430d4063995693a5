//! The extraction orchestrator as a state machine without I/O.
//!
//! The machine decides; its driver performs. `Extraction::start` names the
//! first thing to do. The driver does it, reports what came of it as an
//! `Event`, and `Extraction::step` answers with the next `Action`, until that
//! action is `Finish`. The machine never asks for the same work twice.

use crate::failure::{
    ExtractionError, ExtractionErrorView, GENERIC_FAILURE, SEND_FAILURE_PREFIX,
};
use crate::json::text_field;
use crate::ocr::{
    endpoint, handle_response, ocr_endpoint, ocr_request, outcome_view, reply_of, request_for,
    response_outcome, success_status, ExtractionResult, ExtractionResultView, OcrRequest,
    OcrRequestView, Outcome, OutcomeView, Provenance, OCR_PATH, PDF_CONTENT_TYPE, TEXT_MEMBER,
};
use crate::text::{blank, is_blank, lemma_blank_iff_trimmed_empty, trimmed, without_trailing};
use vstd::prelude::*;
use vstd::string::*;

verus! {

/// The usual limit on a document's size, for `Extraction::start`: 10 MiB.
pub const MAX_DOCUMENT_SIZE: u64 = 10 * 1024 * 1024;

/// Where an extraction stands.
#[derive(Clone, Debug, PartialEq, Eq)]
pub enum Extraction {
    /// Waiting for the document's size, which must not exceed `limit`.
    Sizing { limit: u64 },
    /// Waiting for the local extractor.
    Local,
    /// Falling back to OCR: waiting for the configured base URL.
    Configuring,
    /// Falling back to OCR: waiting for the document's bytes, to send to `url`.
    Reading { url: String },
    /// Falling back to OCR: the request is out, waiting for the response.
    Requesting,
    /// Ended with a text.
    Success,
    /// Ended without one.
    Failed,
}

/// What the driver reports.
#[derive(Clone, Debug, PartialEq, Eq)]
pub enum Event {
    /// The document's size in bytes, from the file's metadata.
    Measured(u64),
    /// The size could not be read.
    MeasureFailed(String),
    /// The local extractor returned this text.
    LocalText(String),
    /// The local extractor failed: with `FileRead` where it could not read
    /// the document, with `LocalExtraction` where it did not accept it.
    LocalFailed(ExtractionError),
    /// The configured base URL; empty where none is stored.
    BaseUrl(String),
    /// The configuration could not be read.
    ConfigurationFailed(String),
    /// The document's bytes.
    Document(Vec<u8>),
    /// The document could not be read.
    ReadFailed(String),
    /// The response to the OCR request.
    Response { status: u16, body: String },
    /// The OCR request could not be sent.
    SendFailed(String),
    /// The response's body could not be received.
    ReceiveFailed(String),
}

/// What the driver is to do next.
#[derive(Debug, PartialEq, Eq)]
pub enum Action {
    /// Read the document's size from its metadata, and nothing else from it.
    Measure,
    /// Run the local extractor on the document.
    ExtractLocally,
    /// Read the base URL from the configuration.
    LoadBaseUrl,
    /// Read the document's bytes.
    ReadDocument,
    /// Send this request and wait for the response.
    Send(OcrRequest),
    /// Hand this outcome to the caller.
    Finish(Outcome),
}

/// A step of the machine: where it stands afterwards and what is to be done.
#[derive(Debug, PartialEq, Eq)]
pub struct Transition {
    pub state: Extraction,
    pub action: Action,
}

/// The mathematical value of an `Extraction`.
pub enum ExtractionView {
    Sizing { limit: u64 },
    Local,
    Configuring,
    Reading { url: Seq<char> },
    Requesting,
    Success,
    Failed,
}

/// The mathematical value of an `Event`.
pub enum EventView {
    Measured(u64),
    MeasureFailed(Seq<char>),
    LocalText(Seq<char>),
    LocalFailed(ExtractionErrorView),
    BaseUrl(Seq<char>),
    ConfigurationFailed(Seq<char>),
    Document(Seq<u8>),
    ReadFailed(Seq<char>),
    Response { status: u16, body: Seq<char> },
    SendFailed(Seq<char>),
    ReceiveFailed(Seq<char>),
}

/// The mathematical value of an `Action`.
pub enum ActionView {
    Measure,
    ExtractLocally,
    LoadBaseUrl,
    ReadDocument,
    Send(OcrRequestView),
    Finish(OutcomeView),
}

/// The mathematical value of a `Transition`.
pub struct TransitionView {
    pub state: ExtractionView,
    pub action: ActionView,
}

impl View for Extraction {
    type V = ExtractionView;

    open spec fn view(&self) -> ExtractionView {
        match self {
            Extraction::Sizing { limit } => ExtractionView::Sizing { limit: *limit },
            Extraction::Local => ExtractionView::Local,
            Extraction::Configuring => ExtractionView::Configuring,
            Extraction::Reading { url } => ExtractionView::Reading { url: url@ },
            Extraction::Requesting => ExtractionView::Requesting,
            Extraction::Success => ExtractionView::Success,
            Extraction::Failed => ExtractionView::Failed,
        }
    }
}

impl View for Event {
    type V = EventView;

    open spec fn view(&self) -> EventView {
        match self {
            Event::Measured(size) => EventView::Measured(*size),
            Event::MeasureFailed(reason) => EventView::MeasureFailed(reason@),
            Event::LocalText(text) => EventView::LocalText(text@),
            Event::LocalFailed(error) => EventView::LocalFailed(error@),
            Event::BaseUrl(url) => EventView::BaseUrl(url@),
            Event::ConfigurationFailed(reason) => EventView::ConfigurationFailed(reason@),
            Event::Document(bytes) => EventView::Document(bytes@),
            Event::ReadFailed(reason) => EventView::ReadFailed(reason@),
            Event::Response { status, body } => EventView::Response {
                status: *status,
                body: body@,
            },
            Event::SendFailed(reason) => EventView::SendFailed(reason@),
            Event::ReceiveFailed(reason) => EventView::ReceiveFailed(reason@),
        }
    }
}

impl View for Action {
    type V = ActionView;

    open spec fn view(&self) -> ActionView {
        match self {
            Action::Measure => ActionView::Measure,
            Action::ExtractLocally => ActionView::ExtractLocally,
            Action::LoadBaseUrl => ActionView::LoadBaseUrl,
            Action::ReadDocument => ActionView::ReadDocument,
            Action::Send(request) => ActionView::Send(request@),
            Action::Finish(outcome) => ActionView::Finish(outcome_view(*outcome)),
        }
    }
}

impl View for Transition {
    type V = TransitionView;

    open spec fn view(&self) -> TransitionView {
        TransitionView { state: self.state@, action: self.action@ }
    }
}

/// The step that ends an extraction with `outcome`.
pub open spec fn finish(outcome: OutcomeView) -> TransitionView {
    TransitionView {
        state: if outcome is Ok {
            ExtractionView::Success
        } else {
            ExtractionView::Failed
        },
        action: ActionView::Finish(outcome),
    }
}

/// The step that ends an extraction with `error`.
pub open spec fn fail(error: ExtractionErrorView) -> TransitionView {
    finish(Err(error))
}

/// The step into the OCR fallback, which begins by reading the configuration.
pub open spec fn fall_back() -> TransitionView {
    TransitionView { state: ExtractionView::Configuring, action: ActionView::LoadBaseUrl }
}

/// How an extraction begins: with the size check where a limit is
/// configured, else with the local extractor.
pub open spec fn first_step(limit: Option<u64>) -> TransitionView {
    match limit {
        Some(limit) => TransitionView {
            state: ExtractionView::Sizing { limit },
            action: ActionView::Measure,
        },
        None => TransitionView { state: ExtractionView::Local, action: ActionView::ExtractLocally },
    }
}

/// The machine: the step that `event` causes in `state`, or `None` where
/// `state` does not wait for `event`.
pub open spec fn next(state: ExtractionView, event: EventView) -> Option<TransitionView> {
    match (state, event) {
        (ExtractionView::Sizing { limit }, EventView::Measured(size)) => Some(
            if size > limit {
                fail(ExtractionErrorView::FileTooLarge { size, limit })
            } else {
                TransitionView {
                    state: ExtractionView::Local,
                    action: ActionView::ExtractLocally,
                }
            },
        ),
        (ExtractionView::Sizing { .. }, EventView::MeasureFailed(reason)) => Some(
            fail(ExtractionErrorView::FileRead(reason)),
        ),
        (ExtractionView::Local, EventView::LocalText(text)) => Some(
            if blank(text) {
                fall_back()
            } else {
                finish(Ok(ExtractionResultView { text, provenance: Provenance::Local }))
            },
        ),
        (ExtractionView::Local, EventView::LocalFailed(_)) => Some(fall_back()),
        (ExtractionView::Configuring, EventView::BaseUrl(base_url)) => Some(
            TransitionView {
                state: ExtractionView::Reading { url: endpoint(base_url) },
                action: ActionView::ReadDocument,
            },
        ),
        (ExtractionView::Configuring, EventView::ConfigurationFailed(reason)) => Some(
            fail(ExtractionErrorView::Configuration(reason)),
        ),
        (ExtractionView::Reading { url }, EventView::Document(bytes)) => Some(
            TransitionView {
                state: ExtractionView::Requesting,
                action: ActionView::Send(request_for(url, bytes)),
            },
        ),
        (ExtractionView::Reading { .. }, EventView::ReadFailed(reason)) => Some(
            fail(ExtractionErrorView::FileRead(reason)),
        ),
        (ExtractionView::Requesting, EventView::Response { status, body }) => Some(
            finish(response_outcome(status, text_field(body, TEXT_MEMBER@))),
        ),
        (ExtractionView::Requesting, EventView::SendFailed(reason)) => Some(
            fail(ExtractionErrorView::Network(SEND_FAILURE_PREFIX@ + reason)),
        ),
        (ExtractionView::Requesting, EventView::ReceiveFailed(reason)) => Some(
            fail(ExtractionErrorView::Network(reason)),
        ),
        _ => None,
    }
}

/// Ends an extraction with `outcome`.
fn finish_with(outcome: Outcome) -> (t: Transition)
    ensures
        t@ == finish(outcome_view(outcome)),
{
    let state = match &outcome {
        Ok(_) => Extraction::Success,
        Err(_) => Extraction::Failed,
    };
    Transition { state, action: Action::Finish(outcome) }
}

impl Extraction {
    /// Begins an extraction. With a `limit`, the document's size is checked
    /// against it before anything else is read.
    pub fn start(limit: Option<u64>) -> (t: Transition)
        ensures
            t@ == first_step(limit),
    {
        match limit {
            Some(limit) => Transition { state: Extraction::Sizing { limit }, action: Action::Measure },
            None => Transition { state: Extraction::Local, action: Action::ExtractLocally },
        }
    }

    /// Whether the extraction has ended.
    pub fn is_finished(&self) -> (r: bool)
        ensures
            r == (self@ is Success || self@ is Failed),
    {
        match self {
            Extraction::Success => true,
            Extraction::Failed => true,
            _ => false,
        }
    }

    /// Takes the machine one step on `event`. Returns `None`, and decides
    /// nothing, where the machine does not wait for `event` in this state.
    pub fn step(self, event: Event) -> (r: Option<Transition>)
        ensures
            match r {
                Some(t) => next(self@, event@) == Some(t@),
                None => next(self@, event@) is None,
            },
    {
        match (self, event) {
            (Extraction::Sizing { limit }, Event::Measured(size)) => Some(
                if size > limit {
                    finish_with(Err(ExtractionError::FileTooLarge { size, limit }))
                } else {
                    Transition { state: Extraction::Local, action: Action::ExtractLocally }
                },
            ),
            (Extraction::Sizing { .. }, Event::MeasureFailed(reason)) => Some(
                finish_with(Err(ExtractionError::FileRead(reason))),
            ),
            (Extraction::Local, Event::LocalText(text)) => Some(
                if is_blank(text.as_str()) {
                    Transition { state: Extraction::Configuring, action: Action::LoadBaseUrl }
                } else {
                    finish_with(Ok(ExtractionResult { text, provenance: Provenance::Local }))
                },
            ),
            (Extraction::Local, Event::LocalFailed(_)) => Some(
                Transition { state: Extraction::Configuring, action: Action::LoadBaseUrl },
            ),
            (Extraction::Configuring, Event::BaseUrl(base_url)) => Some(
                Transition {
                    state: Extraction::Reading { url: ocr_endpoint(base_url.as_str()) },
                    action: Action::ReadDocument,
                },
            ),
            (Extraction::Configuring, Event::ConfigurationFailed(reason)) => Some(
                finish_with(Err(ExtractionError::Configuration(reason))),
            ),
            (Extraction::Reading { url }, Event::Document(bytes)) => Some(
                Transition {
                    state: Extraction::Requesting,
                    action: Action::Send(ocr_request(url, bytes)),
                },
            ),
            (Extraction::Reading { .. }, Event::ReadFailed(reason)) => Some(
                finish_with(Err(ExtractionError::FileRead(reason))),
            ),
            (Extraction::Requesting, Event::Response { status, body }) => Some(
                finish_with(handle_response(status, body.as_str())),
            ),
            (Extraction::Requesting, Event::SendFailed(reason)) => Some(
                finish_with(
                    Err(
                        ExtractionError::Network(
                            String::from_str(SEND_FAILURE_PREFIX).concat(reason.as_str()),
                        ),
                    ),
                ),
            ),
            (Extraction::Requesting, Event::ReceiveFailed(reason)) => Some(
                finish_with(Err(ExtractionError::Network(reason))),
            ),
            _ => None,
        }
    }
}

/// Where a run of events ends and what it had the driver do, in order.
pub struct RunView {
    pub state: ExtractionView,
    pub actions: Seq<ActionView>,
}

/// Feeds `events` to the machine in order, from `state`. `None` where the
/// machine does not wait for one of them when it comes.
pub open spec fn run(state: ExtractionView, events: Seq<EventView>) -> Option<RunView>
    decreases events.len(),
{
    if events.len() == 0 {
        Some(RunView { state, actions: Seq::empty() })
    } else {
        match next(state, events.first()) {
            None => None,
            Some(t) => match run(t.state, events.drop_first()) {
                None => None,
                Some(rest) => Some(
                    RunView { state: rest.state, actions: seq![t.action] + rest.actions },
                ),
            },
        }
    }
}

/// A whole extraction: the first step, then a run of `events`.
pub open spec fn session(limit: Option<u64>, events: Seq<EventView>) -> Option<RunView> {
    match run(first_step(limit).state, events) {
        None => None,
        Some(rest) => Some(
            RunView { state: rest.state, actions: seq![first_step(limit).action] + rest.actions },
        ),
    }
}

/// The OCR requests among `actions`, in order.
pub open spec fn requests(actions: Seq<ActionView>) -> Seq<OcrRequestView>
    decreases actions.len(),
{
    if actions.len() == 0 {
        Seq::empty()
    } else {
        match actions.first() {
            ActionView::Send(request) => seq![request] + requests(actions.drop_first()),
            _ => requests(actions.drop_first()),
        }
    }
}

/// How often `actions` ask for the local extractor.
pub open spec fn local_attempts(actions: Seq<ActionView>) -> nat
    decreases actions.len(),
{
    if actions.len() == 0 {
        0
    } else if actions.first() is ExtractLocally {
        1 + local_attempts(actions.drop_first())
    } else {
        local_attempts(actions.drop_first())
    }
}

/// Whether an action has the driver open the document's content. Reading the
/// size from the metadata does not.
pub open spec fn opens_document(action: ActionView) -> bool {
    action is ExtractLocally || action is ReadDocument || action is Send
}

/// The requests of a list of actions are those of its first action, then
/// those of the rest; likewise the attempts at local extraction.
pub proof fn lemma_actions_cons(first: ActionView, rest: Seq<ActionView>)
    ensures
        requests(seq![first] + rest) == match first {
            ActionView::Send(request) => seq![request] + requests(rest),
            _ => requests(rest),
        },
        local_attempts(seq![first] + rest) == local_attempts(rest) + if first is ExtractLocally {
            1nat
        } else {
            0nat
        },
{
    assert((seq![first] + rest).drop_first() == rest);
}

/// A run has the driver act once for each event.
pub proof fn lemma_run_length(state: ExtractionView, events: Seq<EventView>)
    requires
        run(state, events) is Some,
    ensures
        run(state, events)->0.actions.len() == events.len(),
    decreases events.len(),
{
    if events.len() > 0 {
        lemma_run_length(next(state, events.first())->0.state, events.drop_first());
    }
}

/// An extraction that has ended takes no further event.
pub proof fn lemma_finished_is_final(state: ExtractionView, events: Seq<EventView>)
    requires
        state is Success || state is Failed,
        run(state, events) is Some,
    ensures
        events.len() == 0,
        run(state, events) == Some(RunView { state, actions: Seq::empty() }),
{
}

/// Every step that ends the extraction, and only such a step, carries the
/// outcome; the state says whether it is a text.
pub proof fn lemma_finish_ends(state: ExtractionView, event: EventView)
    requires
        next(state, event) is Some,
    ensures
        ({
            let t = next(state, event)->0;
            &&& t.action is Finish <==> t.state is Success || t.state is Failed
            &&& t.action matches ActionView::Finish(outcome) ==> (outcome is Ok <==> t.state
                is Success)
        }),
{
}

/// No work is asked for twice: from whatever state, a run asks for the local
/// extractor at most once, and only if it starts at the size check; and it
/// sends at most one OCR request, and none once the request is out.
pub proof fn lemma_run_never_repeats(state: ExtractionView, events: Seq<EventView>)
    requires
        run(state, events) is Some,
    ensures
        local_attempts(run(state, events)->0.actions) <= 1,
        !(state is Sizing) ==> local_attempts(run(state, events)->0.actions) == 0,
        requests(run(state, events)->0.actions).len() <= 1,
        state is Requesting || state is Success || state is Failed ==> requests(
            run(state, events)->0.actions,
        ).len() == 0,
    decreases events.len(),
{
    if events.len() > 0 {
        let t = next(state, events.first())->0;
        let rest = run(t.state, events.drop_first())->0;
        lemma_run_never_repeats(t.state, events.drop_first());
        lemma_actions_cons(t.action, rest.actions);
    }
}

/// A whole extraction never tries twice: it asks for the local extractor at
/// most once and sends at most one OCR request.
pub proof fn lemma_session_never_repeats(limit: Option<u64>, events: Seq<EventView>)
    requires
        session(limit, events) is Some,
    ensures
        local_attempts(session(limit, events)->0.actions) <= 1,
        requests(session(limit, events)->0.actions).len() <= 1,
{
    let first = first_step(limit);
    let rest = run(first.state, events)->0;
    lemma_run_never_repeats(first.state, events);
    lemma_actions_cons(first.action, rest.actions);
}

/// An extraction without a size limit is a run from the local extractor; one
/// with a limit is such a run once the size has been found within the limit.
pub proof fn lemma_session_reaches_local(limit: u64, size: u64, events: Seq<EventView>)
    requires
        size <= limit,
    ensures
        session(None, events) == match run(ExtractionView::Local, events) {
            None => None,
            Some(r) => Some(
                RunView { state: r.state, actions: seq![ActionView::ExtractLocally] + r.actions },
            ),
        },
        session(Some(limit), seq![EventView::Measured(size)] + events) == match run(
            ExtractionView::Local,
            events,
        ) {
            None => None,
            Some(r) => Some(
                RunView {
                    state: r.state,
                    actions: seq![ActionView::Measure, ActionView::ExtractLocally] + r.actions,
                },
            ),
        },
{
    let sized = seq![EventView::Measured(size)] + events;
    assert(sized.drop_first() == events);
    assert(sized.first() == EventView::Measured(size));
    match run(ExtractionView::Local, events) {
        None => {},
        Some(r) => {
            assert(seq![ActionView::Measure] + (seq![ActionView::ExtractLocally] + r.actions)
                == seq![ActionView::Measure, ActionView::ExtractLocally] + r.actions);
        },
    }
}

/// A text that trimming leaves non-empty is the result, as it is and with
/// nothing trimmed off, and it is what the caller gets. The extraction ends
/// there: no OCR request is sent, and nothing else is asked of the driver.
pub proof fn lemma_local_text_is_returned(text: Seq<char>, events: Seq<EventView>)
    requires
        trimmed(text).len() > 0,
        events.len() > 0,
        events.first() == EventView::LocalText(text),
        run(ExtractionView::Local, events) is Some,
    ensures
        events.len() == 1,
        run(ExtractionView::Local, events) == Some(
            RunView {
                state: ExtractionView::Success,
                actions: seq![
                    ActionView::Finish(
                        Ok(ExtractionResultView { text, provenance: Provenance::Local }),
                    ),
                ],
            },
        ),
        requests(run(ExtractionView::Local, events)->0.actions).len() == 0,
        reply_of(Ok(ExtractionResultView { text, provenance: Provenance::Local })) == Ok::<
            Seq<char>,
            Seq<char>,
        >(text),
{
    lemma_blank_iff_trimmed_empty(text);
    let t = next(ExtractionView::Local, events.first())->0;
    lemma_finished_is_final(t.state, events.drop_first());
    let got = run(ExtractionView::Local, events)->0;
    assert(got.actions == seq![t.action]);
    lemma_actions_cons(t.action, Seq::empty());
    assert(seq![t.action] + Seq::<ActionView>::empty() == seq![t.action]);
}

/// Whether the local extractor's report sends the extraction to the OCR
/// fallback: a failure does, and so does a text that trimming leaves empty.
pub open spec fn triggers_fallback(event: EventView) -> bool {
    match event {
        EventView::LocalFailed(_) => true,
        EventView::LocalText(text) => trimmed(text).len() == 0,
        _ => false,
    }
}

/// When the local extractor yields no text, and the configuration and the
/// document can be read, exactly one OCR request is sent, whatever follows:
/// to the base URL without the slashes at its end, followed by `/ocr/pdf`;
/// as `application/pdf`; with the document's bytes as its body.
pub proof fn lemma_fallback_sends_one_request(
    base_url: Seq<char>,
    document: Seq<u8>,
    events: Seq<EventView>,
)
    requires
        events.len() >= 3,
        triggers_fallback(events[0]),
        events[1] == EventView::BaseUrl(base_url),
        events[2] == EventView::Document(document),
        run(ExtractionView::Local, events) is Some,
    ensures
        requests(run(ExtractionView::Local, events)->0.actions) == seq![
            OcrRequestView {
                url: without_trailing(base_url, '/') + OCR_PATH@,
                content_type: PDF_CONTENT_TYPE@,
                body: document,
            },
        ],
{
    if let EventView::LocalText(text) = events[0] {
        lemma_blank_iff_trimmed_empty(text);
    }
    let e1 = events.drop_first();
    let e2 = e1.drop_first();
    let e3 = e2.drop_first();
    assert(e1.first() == events[1]);
    assert(e2.first() == events[2]);
    let t0 = next(ExtractionView::Local, events.first())->0;
    let t1 = next(t0.state, e1.first())->0;
    let t2 = next(t1.state, e2.first())->0;
    let r3 = run(t2.state, e3)->0;
    let r2 = run(t1.state, e2)->0;
    let r1 = run(t0.state, e1)->0;
    lemma_run_never_repeats(t2.state, e3);
    lemma_actions_cons(t2.action, r3.actions);
    lemma_actions_cons(t1.action, r2.actions);
    lemma_actions_cons(t0.action, r1.actions);
    assert(requests(r3.actions) == Seq::<OcrRequestView>::empty());
    assert(seq![request_for(endpoint(base_url), document)] + Seq::<OcrRequestView>::empty()
        == seq![request_for(endpoint(base_url), document)]);
}

/// A response whose status reports no success ends the extraction with a
/// failure, whatever its body holds, and the caller gets the generic message.
pub proof fn lemma_failed_status_ends_generically(status: u16, body: Seq<char>)
    requires
        !success_status(status),
    ensures
        next(ExtractionView::Requesting, EventView::Response { status, body }) == Some(
            fail(ExtractionErrorView::NonSuccessStatus(status)),
        ),
        fail(ExtractionErrorView::NonSuccessStatus(status)).state is Failed,
        reply_of(Err(ExtractionErrorView::NonSuccessStatus(status))) == Err::<
            Seq<char>,
            Seq<char>,
        >(GENERIC_FAILURE@),
{
}

/// A document that is larger than the limit is rejected on its size alone:
/// the extraction ends with that failure, and the driver is never asked to
/// open the document.
pub proof fn lemma_oversized_document_is_rejected(limit: u64, size: u64, events: Seq<EventView>)
    requires
        size > limit,
        events.len() > 0,
        events.first() == EventView::Measured(size),
        session(Some(limit), events) is Some,
    ensures
        events.len() == 1,
        session(Some(limit), events) == Some(
            RunView {
                state: ExtractionView::Failed,
                actions: seq![
                    ActionView::Measure,
                    ActionView::Finish(Err(ExtractionErrorView::FileTooLarge { size, limit })),
                ],
            },
        ),
        forall|i: int|
            0 <= i < session(Some(limit), events)->0.actions.len() ==> !opens_document(
                #[trigger] session(Some(limit), events)->0.actions[i],
            ),
{
    let start = ExtractionView::Sizing { limit };
    let t = next(start, events.first())->0;
    lemma_finished_is_final(t.state, events.drop_first());
    let got = run(start, events)->0;
    assert(got.actions == seq![t.action]);
    assert(seq![ActionView::Measure] + seq![t.action] == seq![ActionView::Measure, t.action]);
}

} // verus!
