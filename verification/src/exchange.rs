use crate::engine::engine_code;
use crate::engine::error_code;
use crate::error::HttpError;
use crate::error::HttpErrorView;
use crate::json::decode_lossy;
use crate::json::json_of;
use crate::json::parse_json;
use crate::json::utf8_lossy;
use serde_json::Value;
use vstd::prelude::*;
use vstd::utf8::*;

verus! {

/// What becomes of the response bytes while they arrive.
#[derive(Debug, Clone, Copy, PartialEq, Eq, Structural)]
pub enum ResponseMode {
    /// Collect the whole response in memory and read it as JSON at the end.
    Buffer,
    /// Hand every chunk on to the caller's sink as it arrives and keep nothing.
    Stream,
}

/// How the engine's blocking transfer ended.
#[derive(Debug, Clone, Copy, PartialEq, Eq, Structural)]
pub enum TransferOutcome {
    /// The server answered; holds the status code of the answer.
    Completed(u32),
    /// The time limit ran out before the transfer was done.
    TimedOut,
    /// The engine gave up for another reason; holds the engine's code.
    Failed(u32),
}

/// The code with which the engine reports that the time limit ran out.
pub const ENGINE_TIMED_OUT: u32 = 28;

/// The outcome that a failure of the engine with the given code amounts to.
pub open spec fn engine_failure(code: u32) -> TransferOutcome {
    if code == ENGINE_TIMED_OUT {
        TransferOutcome::TimedOut
    } else {
        TransferOutcome::Failed(code)
    }
}

impl TransferOutcome {
    /// Reads the engine's answer after the blocking transfer: a status code
    /// means that the server answered; an error is a timeout where the engine
    /// says so, and a failure with the engine's code otherwise.
    pub fn from_engine(answer: Result<u32, curl::Error>) -> (outcome: TransferOutcome)
        ensures
            outcome == match answer {
                Ok(status) => TransferOutcome::Completed(status),
                Err(error) => engine_failure(error_code(error)),
            },
    {
        match answer {
            Ok(status) => TransferOutcome::Completed(status),
            Err(error) => {
                if error.is_operation_timedout() {
                    TransferOutcome::TimedOut
                } else {
                    TransferOutcome::Failed(engine_code(&error))
                }
            },
        }
    }
}

/// The result of a successful POST.
#[derive(Debug, Clone, PartialEq, Eq)]
pub struct Response {
    /// The response bytes that were kept: all of them in buffer mode, none in
    /// stream mode, where each chunk went to the sink instead.
    pub raw: Vec<u8>,
    /// The response read as JSON; present exactly in buffer mode.
    pub json: Option<Value>,
}

/// The mathematical value of a [`Response`].
pub struct ResponseView {
    pub raw: Seq<u8>,
    pub json: Option<Value>,
}

impl View for Response {
    type V = ResponseView;

    open spec fn view(&self) -> ResponseView {
        ResponseView { raw: self.raw@, json: self.json }
    }
}

/// The mathematical value of what a POST hands back.
pub open spec fn result_view(r: Result<Response, HttpError>) -> Result<ResponseView, HttpErrorView> {
    match r {
        Ok(response) => Ok(response@),
        Err(error) => Err(error@),
    }
}

/// Whether an HTTP status code lies in the success range, 200 to 299.
pub open spec fn is_success(status: u32) -> bool {
    200 <= status && status <= 299
}

/// The failure that an outcome of the transfer amounts to, if it is one:
/// a timeout, an engine failure, or an answer with a status outside the
/// success range.
pub open spec fn outcome_failure(outcome: TransferOutcome) -> Option<HttpErrorView> {
    match outcome {
        TransferOutcome::TimedOut => Some(HttpErrorView::TimeoutError),
        TransferOutcome::Failed(code) => Some(HttpErrorView::TransferError(code)),
        TransferOutcome::Completed(status) => if is_success(status) {
            None
        } else {
            Some(HttpErrorView::HttpStatusError(status))
        },
    }
}

/// What buffered response bytes amount to once the parser has spoken: the
/// bytes together with the document, or a parse failure that keeps the bytes.
pub open spec fn concluded(raw: Seq<u8>, parsed: Option<Value>) -> Result<
    ResponseView,
    HttpErrorView,
> {
    match parsed {
        Some(value) => Ok(ResponseView { raw, json: Some(value) }),
        None => Err(HttpErrorView::ResponseParseError(raw)),
    }
}

/// What a finished exchange hands back, given the mode, the bytes kept, the
/// outcome of the transfer and what the parser makes of the bytes' text.
pub open spec fn finished(
    mode: ResponseMode,
    received: Seq<u8>,
    outcome: TransferOutcome,
    parsed: Option<Value>,
) -> Result<ResponseView, HttpErrorView> {
    match outcome_failure(outcome) {
        Some(failure) => Err(failure),
        None => match mode {
            ResponseMode::Stream => Ok(ResponseView { raw: Seq::empty(), json: None }),
            ResponseMode::Buffer => concluded(received, parsed),
        },
    }
}

/// An answer that gives the text of the request back unchanged, with a
/// status in the success range, is read as that text: in buffer mode the
/// exchange ends with the bytes and with what the parser makes of the text
/// that was sent.
pub proof fn lemma_echo(text: Seq<char>, status: u32)
    requires
        is_success(status),
    ensures
        valid_utf8(encode_utf8(text)),
        finished(
            ResponseMode::Buffer,
            encode_utf8(text),
            TransferOutcome::Completed(status),
            json_of(decode_utf8(encode_utf8(text))),
        ) == concluded(encode_utf8(text), json_of(text)),
{
    encode_utf8_valid_utf8(text);
    encode_utf8_decode_utf8(text);
}

/// Turns the outcome of a transfer into the failure it amounts to, if any.
pub fn check_outcome(outcome: TransferOutcome) -> (r: Result<(), HttpError>)
    ensures
        match r {
            Ok(()) => outcome_failure(outcome) is None,
            Err(error) => outcome_failure(outcome) == Some(error@),
        },
{
    match outcome {
        TransferOutcome::TimedOut => Err(HttpError::TimeoutError),
        TransferOutcome::Failed(code) => Err(HttpError::TransferError(code)),
        TransferOutcome::Completed(status) => {
            if 200 <= status && status <= 299 {
                Ok(())
            } else {
                Err(HttpError::HttpStatusError(status))
            }
        },
    }
}

/// Joins buffered response bytes with the parser's answer on their text: the
/// document goes out beside the bytes, a parse failure keeps the bytes for the
/// caller to inspect.
pub fn conclude(raw: Vec<u8>, parsed: Result<Value, serde_json::Error>) -> (r: Result<
    Response,
    HttpError,
>)
    ensures
        result_view(r) == concluded(
            raw@,
            match parsed {
                Ok(value) => Some(value),
                Err(_) => None,
            },
        ),
{
    match parsed {
        Ok(value) => Ok(Response { raw, json: Some(value) }),
        Err(_) => Err(HttpError::ResponseParseError(raw)),
    }
}

/// The request body on its way out: the bytes to send and how many of them
/// the engine has taken so far.
#[derive(Debug)]
pub struct RequestBody {
    data: Vec<u8>,
    sent: usize,
}

impl RequestBody {
    /// All bytes of the body.
    pub closed spec fn data(&self) -> Seq<u8> {
        self.data@
    }

    /// How many bytes have been handed to the engine.
    pub closed spec fn position(&self) -> nat {
        if self.sent <= self.data@.len() {
            self.sent as nat
        } else {
            self.data@.len()
        }
    }

    /// The bytes that the engine has not taken yet.
    pub open spec fn unsent(&self) -> Seq<u8> {
        self.data().skip(self.position() as int)
    }

    /// A body that holds `data`, with nothing sent.
    pub fn new(data: Vec<u8>) -> (body: RequestBody)
        ensures
            body.data() == data@,
            body.position() == 0,
    {
        RequestBody { data, sent: 0 }
    }

    /// The length of the whole body in bytes.
    pub fn len(&self) -> (n: usize)
        ensures
            n == self.data().len(),
    {
        self.data.len()
    }

    /// The number of bytes still to send.
    pub fn remaining(&self) -> (n: usize)
        ensures
            n == self.unsent().len(),
            n + self.position() == self.data().len(),
    {
        if self.sent <= self.data.len() {
            self.data.len() - self.sent
        } else {
            0
        }
    }

    /// The engine's read callback: copies the next unsent bytes to the front
    /// of `buf`, as many as fit, and returns their number. Zero means that
    /// the body is exhausted (or that `buf` is empty).
    pub fn read(&mut self, buf: &mut [u8]) -> (n: usize)
        ensures
            n == if old(buf)@.len() <= old(self).unsent().len() {
                old(buf)@.len()
            } else {
                old(self).unsent().len()
            },
            final(buf)@ == old(self).unsent().take(n as int) + old(buf)@.skip(n as int),
            final(self).data() == old(self).data(),
            final(self).position() == old(self).position() + n,
    {
        let remaining: usize = self.remaining();
        let n: usize = if buf.len() < remaining {
            buf.len()
        } else {
            remaining
        };
        let total: usize = self.data.len();
        let start: usize = total - remaining;
        let mut i: usize = 0;
        while i < n
            invariant
                0 <= i <= n,
                n <= buf@.len(),
                buf@.len() == old(buf)@.len(),
                start + n <= total,
                total == self.data@.len(),
                start == old(self).position(),
                *self == *old(self),
                forall|j: int| 0 <= j < i ==> buf@[j] == self.data@[start + j],
                forall|j: int| i <= j < buf@.len() ==> buf@[j] == old(buf)@[j],
            decreases n - i,
        {
            buf[i] = self.data[start + i];
            i = i + 1;
        }
        self.sent = start + n;
        n
    }
}

/// What the engine is told, and what the caller has to do, after one chunk
/// of the response was offered.
#[derive(Debug, Clone, PartialEq, Eq)]
pub struct Delivery {
    /// The number of bytes taken, which is what the engine's write callback
    /// reports back: always the whole chunk.
    pub accepted: usize,
    /// In stream mode the chunk, for the caller to pass to its sink; `None`
    /// in buffer mode.
    pub forward: Option<Vec<u8>>,
}

/// Where the response arrives: a mode and, in buffer mode, the bytes so far.
#[derive(Debug)]
pub struct ResponseSink {
    mode: ResponseMode,
    received: Vec<u8>,
}

impl ResponseSink {
    /// The mode chosen for this response.
    pub closed spec fn mode(&self) -> ResponseMode {
        self.mode
    }

    /// The bytes kept so far.
    pub closed spec fn received(&self) -> Seq<u8> {
        self.received@
    }

    /// An empty sink of the given mode.
    pub fn new(mode: ResponseMode) -> (sink: ResponseSink)
        ensures
            sink.mode() == mode,
            sink.received() == Seq::<u8>::empty(),
    {
        ResponseSink { mode, received: Vec::new() }
    }

    /// The engine's write callback: takes the whole chunk. In buffer mode the
    /// chunk is appended to the bytes kept; in stream mode nothing is kept
    /// and the chunk comes back for the caller's sink.
    pub fn write(&mut self, data: &[u8]) -> (step: Delivery)
        ensures
            step.accepted == data@.len(),
            final(self).mode() == old(self).mode(),
            old(self).mode() == ResponseMode::Buffer ==> {
                &&& final(self).received() == old(self).received() + data@
                &&& step.forward is None
            },
            old(self).mode() == ResponseMode::Stream ==> {
                &&& final(self).received() == old(self).received()
                &&& step.forward matches Some(chunk) && chunk@ == data@
            },
    {
        match self.mode {
            ResponseMode::Buffer => {
                self.received.extend_from_slice(data);
                Delivery { accepted: data.len(), forward: None }
            },
            ResponseMode::Stream => {
                let mut chunk: Vec<u8> = Vec::new();
                chunk.extend_from_slice(data);
                Delivery { accepted: data.len(), forward: Some(chunk) }
            },
        }
    }

    /// Ends the exchange. A transfer that timed out or failed, or an answer
    /// with a status outside 200 to 299, is that error. Otherwise stream mode
    /// hands back an empty response, and buffer mode decodes the bytes kept as
    /// UTF-8, replacing what is not, and parses the text as JSON: the bytes
    /// with the document, or a parse error that preserves the bytes. Of bytes
    /// that are UTF-8 the text parsed is their plain decoding.
    pub fn finish(self, outcome: TransferOutcome) -> (r: Result<Response, HttpError>)
        ensures
            result_view(r) == finished(
                self.mode(),
                self.received(),
                outcome,
                json_of(utf8_lossy(self.received())),
            ),
            valid_utf8(self.received()) ==> result_view(r) == finished(
                self.mode(),
                self.received(),
                outcome,
                json_of(decode_utf8(self.received())),
            ),
    {
        match check_outcome(outcome) {
            Err(error) => Err(error),
            Ok(()) => match self.mode {
                ResponseMode::Stream => Ok(Response { raw: Vec::new(), json: None }),
                ResponseMode::Buffer => {
                    let text = decode_lossy(self.received.as_slice());
                    let parsed = parse_json(text.as_str());
                    conclude(self.received, parsed)
                },
            },
        }
    }
}

/// A POST in progress: the body on its way out and the response on its way
/// in. The engine pulls from `request` and pushes to `response`, and
/// `response.finish` ends it.
#[derive(Debug)]
pub struct Exchange {
    pub request: RequestBody,
    pub response: ResponseSink,
}

} // verus!
