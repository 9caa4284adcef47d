//! Streamed inference results: the engine's events shaped, one at a time and
//! in order, into a three-way result envelope that ends at the first error
//! or end.
use vstd::prelude::*;

verus! {

/// One streamed unit of generated text.
#[derive(Clone, Debug)]
pub struct InferenceToken {
    pub token: String,
    pub completed: bool,
}

/// The tag of an `InferenceResult`.
#[derive(Clone, Copy, Debug, PartialEq, Eq, Structural)]
pub enum InferenceResultType {
    Error,
    Data,
    End,
}

/// One result delivered to the host: a token, the engine's failure message,
/// or the end of the stream. Each tag carries exactly its own payload.
#[derive(Clone, Debug)]
pub enum InferenceResult {
    Error(String),
    Data(InferenceToken),
    End,
}

/// What the engine reports during a generation call.
#[derive(Clone, Debug)]
pub enum EngineEvent {
    Token { text: String, completed: bool },
    Failed { message: String },
    Finished,
}

/// Whether the event ends the stream.
pub open spec fn is_terminal_event(e: EngineEvent) -> bool {
    !(e is Token)
}

/// The result that an engine event is delivered as.
pub open spec fn shape_event(e: EngineEvent) -> InferenceResult {
    match e {
        EngineEvent::Token { text, completed } => InferenceResult::Data(InferenceToken { token: text, completed }),
        EngineEvent::Failed { message } => InferenceResult::Error(message),
        EngineEvent::Finished => InferenceResult::End,
    }
}

/// `out` is what a consumer observes from the engine events `events`: each
/// event shaped in order, up to and including the first that ends the
/// stream, and nothing after it.
pub open spec fn shaped_prefix(events: Seq<EngineEvent>, out: Seq<InferenceResult>) -> bool {
    &&& out.len() <= events.len()
    &&& forall|i: int| 0 <= i < out.len() ==> #[trigger] out[i] == shape_event(events[i])
    &&& forall|i: int| 0 <= i < out.len() - 1 ==> !is_terminal_event(#[trigger] events[i])
    &&& out.len() < events.len() ==> out.len() > 0 && is_terminal_event(events[out.len() - 1])
}

impl InferenceResult {
    pub open spec fn spec_result_type(self) -> InferenceResultType {
        match self {
            InferenceResult::Error(_) => InferenceResultType::Error,
            InferenceResult::Data(_) => InferenceResultType::Data,
            InferenceResult::End => InferenceResultType::End,
        }
    }

    /// The tag of this result.
    pub fn result_type(&self) -> (r: InferenceResultType)
        ensures
            r == self.spec_result_type(),
    {
        match self {
            InferenceResult::Error(_) => InferenceResultType::Error,
            InferenceResult::Data(_) => InferenceResultType::Data,
            InferenceResult::End => InferenceResultType::End,
        }
    }

    /// Wraps an engine event into the result it is delivered as.
    pub fn from_event(event: EngineEvent) -> (r: InferenceResult)
        ensures
            r == shape_event(event),
    {
        match event {
            EngineEvent::Token { text, completed } => InferenceResult::Data(InferenceToken { token: text, completed }),
            EngineEvent::Failed { message } => InferenceResult::Error(message),
            EngineEvent::Finished => InferenceResult::End,
        }
    }
}

fn copy_event(e: &EngineEvent) -> (r: EngineEvent)
    ensures
        r == *e,
{
    match e {
        EngineEvent::Token { text, completed } => EngineEvent::Token { text: text.clone(), completed: *completed },
        EngineEvent::Failed { message } => EngineEvent::Failed { message: message.clone() },
        EngineEvent::Finished => EngineEvent::Finished,
    }
}

/// Forwards the engine's events to the host as results, one per event, and
/// nothing after the first error or end.
pub struct ResultStream {
    pub closed: bool,
}

impl ResultStream {
    /// A stream that has delivered nothing yet.
    pub fn new() -> (r: ResultStream)
        ensures
            !r.closed,
    {
        ResultStream { closed: false }
    }

    /// The result to deliver for `event`, or `None` once the stream has
    /// ended; the stream ends with the first error or end it delivers.
    pub fn push(&mut self, event: EngineEvent) -> (r: Option<InferenceResult>)
        ensures
            old(self).closed ==> r is None && final(self).closed,
            !old(self).closed ==> r == Some(shape_event(event)) && final(self).closed == is_terminal_event(event),
    {
        if self.closed {
            None
        } else {
            self.closed = !matches!(event, EngineEvent::Token { .. });
            Some(InferenceResult::from_event(event))
        }
    }
}

/// The results a consumer observes from the engine's events, in order.
pub fn shape_stream(events: &Vec<EngineEvent>) -> (r: Vec<InferenceResult>)
    ensures
        shaped_prefix(events@, r@),
{
    let mut stream = ResultStream::new();
    let mut out: Vec<InferenceResult> = Vec::new();
    let mut i: usize = 0;
    while i < events.len() && !stream.closed
        invariant
            i <= events@.len(),
            out@.len() == i,
            forall|j: int| 0 <= j < i ==> #[trigger] out@[j] == shape_event(events@[j]),
            forall|j: int| 0 <= j < i - 1 ==> !is_terminal_event(#[trigger] events@[j]),
            stream.closed <==> (i > 0 && is_terminal_event(events@[i - 1])),
        decreases events@.len() - i,
    {
        let event = copy_event(&events[i]);
        match stream.push(event) {
            Some(res) => out.push(res),
            None => {},
        }
        i = i + 1;
    }
    out
}

/// A stream ends at the engine's first failure or completion: the consumer
/// observes one data result for each token before it, then exactly one
/// error (with the engine's message, unchanged) or end, and nothing more.
pub proof fn lemma_stream_ends_at_first_terminal(events: Seq<EngineEvent>, out: Seq<InferenceResult>, k: int)
    requires
        shaped_prefix(events, out),
        0 <= k < events.len(),
        is_terminal_event(events[k]),
        forall|j: int| 0 <= j < k ==> !is_terminal_event(#[trigger] events[j]),
    ensures
        out.len() == k + 1,
        forall|j: int| 0 <= j < k ==> #[trigger] out[j] is Data,
        events[k] is Finished ==> out[k] is End,
        forall|m: String| events[k] == (EngineEvent::Failed { message: m }) ==> out[k] == InferenceResult::Error(m),
{
    if out.len() <= k {
        assert(is_terminal_event(events[out.len() - 1]));
    }
    if out.len() > k + 1 {
        assert(!is_terminal_event(events[k]));
    }
    assert forall|j: int| 0 <= j < k implies #[trigger] out[j] is Data by {
        assert(out[j] == shape_event(events[j]));
        assert(!is_terminal_event(events[j]));
    }
}

} // verus!
