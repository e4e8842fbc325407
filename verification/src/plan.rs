use crate::error::HttpError;
use crate::exchange::Exchange;
use crate::exchange::RequestBody;
use crate::exchange::ResponseMode;
use crate::exchange::ResponseSink;
use crate::headers::count_key;
use crate::headers::header_line;
use crate::headers::keys_of;
use crate::headers::lemma_lines_match;
use crate::headers::lemma_put_twice;
use crate::headers::lines_of;
use crate::headers::put;
use crate::headers::texts;
use crate::headers::to_map;
use crate::headers::unique_keys;
use crate::headers::HeaderMap;
use vstd::prelude::*;
use vstd::string::*;
use vstd::utf8::*;

verus! {

/// The mathematical value of a [`RequestPlan`].
pub struct PlanView {
    /// The target URL, once one was bound.
    pub url: Option<Seq<char>>,
    /// The headers written so far, in the order of their keys.
    pub headers: Seq<(Seq<char>, Seq<char>)>,
    /// The header lines that the engine holds, once headers were handed over.
    pub header_list: Option<Seq<Seq<char>>>,
    /// The request body.
    pub body: Seq<char>,
    /// What is to become of the response.
    pub mode: ResponseMode,
    /// The time limit for the transfer in milliseconds, if one was set.
    pub timeout_ms: Option<u64>,
    /// Whether the request has been started.
    pub executed: bool,
}

impl PlanView {
    /// The plan of a fresh builder: nothing bound, no headers, an empty body,
    /// buffer mode, no time limit, not started.
    pub open spec fn empty() -> PlanView {
        PlanView {
            url: None,
            headers: Seq::empty(),
            header_list: None,
            body: Seq::empty(),
            mode: ResponseMode::Buffer,
            timeout_ms: None,
            executed: false,
        }
    }

    /// The plan with `url` as its target.
    pub open spec fn bound(self, url: Seq<char>) -> PlanView {
        PlanView { url: Some(url), ..self }
    }

    /// The plan after a header was written.
    pub open spec fn with_header(self, key: Seq<char>, value: Seq<char>) -> PlanView {
        PlanView { headers: put(self.headers, key, value), ..self }
    }

    /// The plan after its headers were handed to the engine: the engine's
    /// list holds one line for each header.
    pub open spec fn materialized(self) -> PlanView {
        PlanView { header_list: Some(lines_of(self.headers)), ..self }
    }

    /// The plan with `body` as request body.
    pub open spec fn with_body(self, body: Seq<char>) -> PlanView {
        PlanView { body, ..self }
    }

    /// The plan with `mode` for the response.
    pub open spec fn with_mode(self, mode: ResponseMode) -> PlanView {
        PlanView { mode, ..self }
    }

    /// The plan with a time limit of `millis` milliseconds.
    pub open spec fn with_timeout(self, millis: u64) -> PlanView {
        PlanView { timeout_ms: Some(millis), ..self }
    }

    /// Whether the request can be started: a URL is bound and the request
    /// was not started before.
    pub open spec fn ready(self) -> bool {
        !self.executed && self.url is Some
    }

    /// The plan after the request was started.
    pub open spec fn started(self) -> PlanView {
        PlanView { executed: true, ..self }
    }

    /// Why a request cannot be started, or was refused by the engine.
    pub open spec fn refusal(self) -> HttpError {
        if self.executed {
            HttpError::ReuseError
        } else {
            HttpError::ConfigError
        }
    }
}

/// A header written twice under one key is in the plan once, with the second
/// value: the second write undoes the first, the key stands in exactly one
/// entry, and the mapping gives the second value for it.
pub proof fn lemma_add_header_twice(
    plan: PlanView,
    key: Seq<char>,
    first: Seq<char>,
    second: Seq<char>,
)
    requires
        unique_keys(plan.headers),
    ensures
        plan.with_header(key, first).with_header(key, second) == plan.with_header(key, second),
        count_key(plan.with_header(key, first).with_header(key, second).headers, key) == 1,
        to_map(plan.with_header(key, first).with_header(key, second).headers) == to_map(
            plan.headers,
        ).insert(key, second),
{
    lemma_put_twice(plan.headers, key, first, second);
}

/// After the headers were handed over, the engine's list has one line for
/// each of the N keys of the mapping: as many lines as keys, each line the
/// key, a colon and the value that the mapping has for the key, and a line
/// for every key.
pub proof fn lemma_materialized_lines(plan: PlanView)
    requires
        unique_keys(plan.headers),
    ensures
        plan.materialized().header_list matches Some(list) && {
            &&& to_map(plan.headers).dom().finite()
            &&& list.len() == to_map(plan.headers).dom().len()
            &&& forall|i: int|
                0 <= i < list.len() ==> {
                    &&& to_map(plan.headers).contains_key(#[trigger] keys_of(plan.headers)[i])
                    &&& list[i] == header_line(
                        keys_of(plan.headers)[i],
                        to_map(plan.headers)[keys_of(plan.headers)[i]],
                    )
                }
            &&& forall|key: Seq<char>| #[trigger]
                to_map(plan.headers).contains_key(key) ==> list.contains(
                    header_line(key, to_map(plan.headers)[key]),
                )
        },
{
    lemma_lines_match(plan.headers);
}

/// Whether `exchange` is the untouched exchange of a plan: the whole body, as
/// UTF-8, still to send, and nothing received in the plan's mode.
pub open spec fn begins(exchange: Exchange, plan: PlanView) -> bool {
    &&& exchange.request.data() == encode_utf8(plan.body)
    &&& exchange.request.position() == 0
    &&& exchange.response.mode() == plan.mode
    &&& exchange.response.received() == Seq::<u8>::empty()
}

/// What the builder knows of its request: the record of every setting that
/// the engine has accepted. Each step that the engine has a say in takes the
/// engine's answer and records the setting only where the engine accepted it.
#[derive(Debug)]
pub struct RequestPlan {
    url: Option<String>,
    headers: HeaderMap,
    header_list: Option<Vec<String>>,
    body: String,
    mode: ResponseMode,
    timeout_ms: Option<u64>,
    executed: bool,
}

impl View for RequestPlan {
    type V = PlanView;

    closed spec fn view(&self) -> PlanView {
        PlanView {
            url: match self.url {
                Some(url) => Some(url@),
                None => None,
            },
            headers: self.headers.entries(),
            header_list: match self.header_list {
                Some(lines) => Some(texts(lines@)),
                None => None,
            },
            body: self.body@,
            mode: self.mode,
            timeout_ms: self.timeout_ms,
            executed: self.executed,
        }
    }
}

impl RequestPlan {
    /// The invariant of the type: no header key occurs twice.
    pub open spec fn wf(&self) -> bool {
        unique_keys(self@.headers)
    }

    /// The plan of a fresh builder.
    pub fn new() -> (plan: RequestPlan)
        ensures
            plan.wf(),
            plan@ == PlanView::empty(),
    {
        RequestPlan {
            url: None,
            headers: HeaderMap::new(),
            header_list: None,
            body: String::new(),
            mode: ResponseMode::Buffer,
            timeout_ms: None,
            executed: false,
        }
    }

    /// Stores the target URL if the engine accepted it; a refusal is a
    /// configuration error and leaves the plan as it was.
    pub fn bind(&mut self, url: String, accepted: Result<(), curl::Error>) -> (r: Result<
        (),
        HttpError,
    >)
        ensures
            match accepted {
                Ok(()) => r is Ok && final(self)@ == old(self)@.bound(url@),
                Err(_) => r == Err::<(), HttpError>(HttpError::ConfigError) && final(self)@ == old(
                    self,
                )@,
            },
    {
        match accepted {
            Ok(()) => {
                self.url = Some(url);
                Ok(())
            },
            Err(_) => Err(HttpError::ConfigError),
        }
    }

    /// Writes a header: a key that is there gets the new value, another key
    /// is added. There is no way for this to fail.
    pub fn add_header(&mut self, key: String, value: String)
        ensures
            final(self)@ == old(self)@.with_header(key@, value@),
            old(self).wf() ==> final(self).wf(),
    {
        self.headers.insert(key, value);
    }

    /// Records that the engine holds the header lines as they stand now, if
    /// the engine accepted them; a refusal is a configuration error and
    /// leaves the plan as it was.
    pub fn materialize_headers(&mut self, accepted: Result<(), curl::Error>) -> (r: Result<
        (),
        HttpError,
    >)
        ensures
            match accepted {
                Ok(()) => r is Ok && final(self)@ == old(self)@.materialized(),
                Err(_) => r == Err::<(), HttpError>(HttpError::ConfigError) && final(self)@ == old(
                    self,
                )@,
            },
    {
        match accepted {
            Ok(()) => {
                let lines: Vec<String> = self.headers.to_lines();
                self.header_list = Some(lines);
                Ok(())
            },
            Err(_) => Err(HttpError::ConfigError),
        }
    }

    /// Takes the serializer's answer: its text becomes the request body; its
    /// failure is a serialization error and leaves the body as it was.
    pub fn set_json_body(&mut self, serialized: Result<String, serde_json::Error>) -> (r: Result<
        (),
        HttpError,
    >)
        ensures
            match serialized {
                Ok(text) => r is Ok && final(self)@ == old(self)@.with_body(text@),
                Err(_) => r == Err::<(), HttpError>(HttpError::SerializationError) && final(self)@
                    == old(self)@,
            },
    {
        match serialized {
            Ok(text) => {
                self.body = text;
                Ok(())
            },
            Err(_) => Err(HttpError::SerializationError),
        }
    }

    /// Chooses what is to become of the response.
    pub fn set_mode(&mut self, mode: ResponseMode)
        ensures
            final(self)@ == old(self)@.with_mode(mode),
    {
        self.mode = mode;
    }

    /// Stores the time limit if the engine accepted it; a refusal is a
    /// configuration error and leaves the plan as it was.
    pub fn set_timeout(&mut self, millis: u64, accepted: Result<(), curl::Error>) -> (r: Result<
        (),
        HttpError,
    >)
        ensures
            match accepted {
                Ok(()) => r is Ok && final(self)@ == old(self)@.with_timeout(millis),
                Err(_) => r == Err::<(), HttpError>(HttpError::ConfigError) && final(self)@ == old(
                    self,
                )@,
            },
    {
        match accepted {
            Ok(()) => {
                self.timeout_ms = Some(millis);
                Ok(())
            },
            Err(_) => Err(HttpError::ConfigError),
        }
    }

    /// The target URL, once one was bound.
    pub fn url(&self) -> (url: Option<&String>)
        ensures
            match url {
                Some(text) => self@.url == Some(text@),
                None => self@.url is None,
            },
    {
        self.url.as_ref()
    }

    /// The headers written so far.
    pub fn headers(&self) -> (headers: &HeaderMap)
        ensures
            headers.entries() == self@.headers,
    {
        &self.headers
    }

    /// The header lines that the engine holds, once headers were handed over.
    pub fn header_list(&self) -> (list: Option<&Vec<String>>)
        ensures
            match list {
                Some(lines) => self@.header_list == Some(texts(lines@)),
                None => self@.header_list is None,
            },
    {
        self.header_list.as_ref()
    }

    /// The request body.
    pub fn body(&self) -> (body: &String)
        ensures
            body@ == self@.body,
    {
        &self.body
    }

    /// What is to become of the response.
    pub fn mode(&self) -> (mode: ResponseMode)
        ensures
            mode == self@.mode,
    {
        self.mode
    }

    /// The time limit for the transfer in milliseconds, if one was set.
    pub fn timeout_ms(&self) -> (limit: Option<u64>)
        ensures
            limit == self@.timeout_ms,
    {
        self.timeout_ms
    }

    /// Whether the request has been started.
    pub fn is_executed(&self) -> (b: bool)
        ensures
            b == self@.executed,
    {
        self.executed
    }

    /// Whether the request can be started.
    pub fn ready(&self) -> (b: bool)
        ensures
            b == self@.ready(),
    {
        !self.executed && self.url.is_some()
    }

    /// The length of the request body in bytes.
    pub fn body_len(&self) -> (n: usize)
        ensures
            n == encode_utf8(self@.body).len(),
    {
        self.body.as_str().as_bytes().len()
    }

    /// Starts the request, once. A plan that was started before gives a
    /// reuse error; one without a URL, or whose POST options the engine
    /// refused, a configuration error; each leaves the plan as it was.
    /// Otherwise the plan is marked as started and the exchange begins with
    /// the whole body to send and nothing received.
    pub fn begin(&mut self, accepted: Result<(), curl::Error>) -> (r: Result<Exchange, HttpError>)
        ensures
            old(self)@.ready() && accepted is Ok ==> r is Ok,
            match r {
                Ok(exchange) => {
                    &&& old(self)@.ready()
                    &&& accepted is Ok
                    &&& final(self)@ == old(self)@.started()
                    &&& begins(exchange, old(self)@)
                },
                Err(error) => {
                    &&& error == old(self)@.refusal()
                    &&& final(self)@ == old(self)@
                },
            },
    {
        if self.executed {
            return Err(HttpError::ReuseError);
        }
        if self.url.is_none() {
            return Err(HttpError::ConfigError);
        }
        match accepted {
            Err(_) => Err(HttpError::ConfigError),
            Ok(()) => {
                self.executed = true;
                let data: Vec<u8> = self.body.as_str().as_bytes_vec();
                Ok(
                    Exchange {
                        request: RequestBody::new(data),
                        response: ResponseSink::new(self.mode),
                    },
                )
            },
        }
    }
}

} // verus!
