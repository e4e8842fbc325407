use crate::engine::error_code;
use crate::engine::list_lines;
use crate::engine::set_timeout;
use crate::error::HttpError;
use crate::exchange::engine_failure;
use crate::exchange::Exchange;
use crate::exchange::ResponseMode;
use crate::exchange::TransferOutcome;
use crate::headers::header_line;
use crate::headers::lemma_put;
use crate::headers::lines_of;
use crate::headers::texts;
use crate::headers::to_map;
use crate::headers::unique_keys;
use crate::json::to_json_text;
use crate::plan::begins;
use crate::plan::PlanView;
use crate::plan::RequestPlan;
use curl::easy::Easy;
use curl::easy::List;
use serde::Serialize;
use vstd::prelude::*;

verus! {

/// Whether the engine takes every one of the lines: none holds a NUL
/// character.
pub open spec fn lines_accepted(lines: Seq<Seq<char>>) -> bool {
    forall|i: int| 0 <= i < lines.len() ==> !(#[trigger] lines[i]).contains('\0')
}

/// A header line holds a NUL character exactly when the key or the value
/// does: such headers, and no others, are what the engine's list refuses.
pub proof fn lemma_line_with_nul(key: Seq<char>, value: Seq<char>)
    ensures
        header_line(key, value).contains('\0') <==> key.contains('\0') || value.contains('\0'),
{
    let line = header_line(key, value);
    if key.contains('\0') {
        let i = choose|i: int| 0 <= i < key.len() && key[i] == '\0';
        assert(line[i] == '\0');
    }
    if value.contains('\0') {
        let i = choose|i: int| 0 <= i < value.len() && value[i] == '\0';
        assert(line[key.len() + 1 + i] == '\0');
    }
    if line.contains('\0') {
        let i = choose|i: int| 0 <= i < line.len() && line[i] == '\0';
        if i < key.len() {
            assert(key[i] == '\0');
        } else {
            assert(value[i - key.len() - 1] == '\0');
        }
    }
}

/// Builds the engine's list from lines, first to last. The list holds
/// exactly the lines; a line with a NUL character is refused by the engine,
/// and then there is no list.
pub fn build_list(lines: &Vec<String>) -> (r: Result<List, HttpError>)
    ensures
        match r {
            Ok(list) => lines_accepted(texts(lines@)) && list_lines(list) == texts(lines@),
            Err(error) => error == HttpError::ConfigError && !lines_accepted(texts(lines@)),
        },
{
    let mut list = List::new();
    let mut i: usize = 0;
    while i < lines.len()
        invariant
            0 <= i <= lines@.len(),
            list_lines(list) == texts(lines@).take(i as int),
            forall|j: int| 0 <= j < i ==> !(#[trigger] texts(lines@)[j]).contains('\0'),
        decreases lines@.len() - i,
    {
        match list.append(lines[i].as_str()) {
            Ok(()) => {},
            Err(_) => {
                assert(texts(lines@)[i as int].contains('\0'));
                return Err(HttpError::ConfigError);
            },
        }
        assert(texts(lines@).take(i as int).push(texts(lines@)[i as int]) =~= texts(lines@).take(
            i + 1,
        ));
        i = i + 1;
    }
    Ok(list)
}

/// A builder for one HTTP POST: it gathers a target URL, headers and a JSON
/// body, configures the transfer engine with them, and starts the exchange.
/// It is used once: a second start is refused.
#[derive(Debug)]
pub struct CurlSimpleHttp {
    easy: Easy,
    plan: RequestPlan,
}

impl View for CurlSimpleHttp {
    type V = PlanView;

    /// What the builder has recorded of its request.
    closed spec fn view(&self) -> PlanView {
        self.plan@
    }
}

impl CurlSimpleHttp {
    /// The engine's handle.
    pub closed spec fn handle(&self) -> Easy {
        self.easy
    }

    /// The invariant of the type: no header key occurs twice. It holds of a
    /// new builder, and every method keeps it.
    pub open spec fn wf(&self) -> bool {
        unique_keys(self@.headers)
    }

    /// A builder with a fresh engine handle and an empty plan.
    pub fn new() -> (http: CurlSimpleHttp)
        ensures
            http.wf(),
            http@ == PlanView::empty(),
    {
        CurlSimpleHttp { easy: Easy::new(), plan: RequestPlan::new() }
    }

    /// Sets the target URL. The engine has the last word: a URL that it
    /// refuses, as it does every URL with a NUL character, is a configuration
    /// error and changes nothing.
    pub fn bind(&mut self, url: String) -> (r: Result<&mut Self, HttpError>)
        ensures
            url@.contains('\0') ==> r is Err,
            match r {
                Ok(http) => {
                    &&& !url@.contains('\0')
                    &&& http@ == old(self)@.bound(url@)
                    &&& *final(self) == *final(http)
                },
                Err(error) => error == HttpError::ConfigError && final(self)@ == old(self)@,
            },
    {
        let accepted = self.easy.url(url.as_str());
        match self.plan.bind(url, accepted) {
            Ok(()) => Ok(self),
            Err(error) => Err(error),
        }
    }

    /// Writes a header: a key that is there gets the new value, another key
    /// is added. The engine learns of it with the next `with_header`.
    pub fn add_header(&mut self, k: String, v: String) -> (http: &mut Self)
        ensures
            http@ == old(self)@.with_header(k@, v@),
            to_map(http@.headers) == to_map(old(self)@.headers).insert(k@, v@),
            old(self).wf() ==> http.wf(),
            *final(self) == *final(http),
    {
        proof {
            lemma_put(self@.headers, k@, v@);
        }
        self.plan.add_header(k, v);
        self
    }

    /// The list of header lines as `with_header` hands it to the engine: one
    /// line for each key. There is none where the engine refuses a line, as
    /// it does every line with a NUL character.
    pub fn header_list(&self) -> (r: Result<List, HttpError>)
        ensures
            match r {
                Ok(list) => {
                    &&& lines_accepted(lines_of(self@.headers))
                    &&& list_lines(list) == lines_of(self@.headers)
                },
                Err(error) => {
                    &&& error == HttpError::ConfigError
                    &&& !lines_accepted(lines_of(self@.headers))
                },
            },
    {
        let lines: Vec<String> = self.plan.headers().to_lines();
        build_list(&lines)
    }

    /// Hands the headers to the engine as a list of lines, one for each key,
    /// in place of any list handed over before. A line that the engine
    /// refuses, as it does every line with a NUL character, or a refusal of
    /// the list, is a configuration error and changes nothing.
    pub fn with_header(&mut self) -> (r: Result<&mut Self, HttpError>)
        ensures
            !lines_accepted(lines_of(old(self)@.headers)) ==> r is Err,
            match r {
                Ok(http) => {
                    &&& lines_accepted(lines_of(old(self)@.headers))
                    &&& http@ == old(self)@.materialized()
                    &&& *final(self) == *final(http)
                },
                Err(error) => error == HttpError::ConfigError && final(self)@ == old(self)@,
            },
    {
        let list = match self.header_list() {
            Ok(list) => list,
            Err(error) => {
                return Err(error);
            },
        };
        let accepted = self.easy.http_headers(list);
        match self.plan.materialize_headers(accepted) {
            Ok(()) => Ok(self),
            Err(error) => Err(error),
        }
    }

    /// Writes the value as JSON and makes the text the request body. A value
    /// that the serializer refuses is a serialization error and changes
    /// nothing.
    pub fn json_body<T: Serialize>(&mut self, t: T) -> (r: Result<&mut Self, HttpError>)
        ensures
            match r {
                Ok(http) => http@ == old(self)@.with_body(http@.body) && *final(self) == *final(http),
                Err(error) => error == HttpError::SerializationError && final(self)@ == old(self)@,
            },
    {
        let serialized = to_json_text(&t);
        match self.plan.set_json_body(serialized) {
            Ok(()) => Ok(self),
            Err(error) => Err(error),
        }
    }

    /// Chooses what is to become of the response: kept and read as JSON, or
    /// passed on chunk by chunk.
    pub fn response_mode(&mut self, mode: ResponseMode) -> (http: &mut Self)
        ensures
            http@ == old(self)@.with_mode(mode),
            *final(self) == *final(http),
    {
        self.plan.set_mode(mode);
        self
    }

    /// Limits the whole transfer to `millis` milliseconds; to the engine a
    /// limit of zero means none. A limit that the engine refuses is a
    /// configuration error and changes nothing.
    pub fn timeout(&mut self, millis: u64) -> (r: Result<&mut Self, HttpError>)
        ensures
            match r {
                Ok(http) => http@ == old(self)@.with_timeout(millis) && *final(self) == *final(http),
                Err(error) => error == HttpError::ConfigError && final(self)@ == old(self)@,
            },
    {
        let accepted = set_timeout(&mut self.easy, millis);
        match self.plan.set_timeout(millis, accepted) {
            Ok(()) => Ok(self),
            Err(error) => Err(error),
        }
    }

    /// Starts the POST: tells the engine to send a body of the body's length
    /// and hands out the exchange, with the whole body to send and nothing
    /// received. The caller lets the engine run the transfer against the
    /// exchange. A builder that was started before gives a reuse error; one
    /// without a URL, or whose POST options the engine refused, a
    /// configuration error; each changes nothing.
    pub fn post(&mut self) -> (r: Result<Exchange, HttpError>)
        ensures
            !old(self)@.ready() ==> r is Err,
            match r {
                Ok(exchange) => {
                    &&& old(self)@.ready()
                    &&& final(self)@ == old(self)@.started()
                    &&& begins(exchange, old(self)@)
                },
                Err(error) => error == old(self)@.refusal() && final(self)@ == old(self)@,
            },
    {
        let accepted = if self.plan.ready() {
            match self.easy.post(true) {
                Ok(()) => self.easy.post_field_size(self.plan.body_len() as u64),
                Err(error) => Err(error),
            }
        } else {
            Ok(())
        };
        self.plan.begin(accepted)
    }

    /// What the builder has recorded of its request.
    pub fn plan(&self) -> (plan: &RequestPlan)
        ensures
            plan@ == self@,
    {
        &self.plan
    }

    /// The engine's handle, for the caller to run the blocking transfer on.
    pub fn engine(&mut self) -> (easy: &mut Easy)
        ensures
            *easy == old(self).handle(),
            final(self).handle() == *final(easy),
            final(self)@ == old(self)@,
    {
        &mut self.easy
    }

    /// Reads how the transfer ended, given what the engine's blocking call
    /// returned: after a failure, the timeout or failure that its code
    /// stands for; after success, whatever the engine reports as the status
    /// of the answer.
    pub fn outcome(&self, performed: Result<(), curl::Error>) -> (outcome: TransferOutcome)
        ensures
            performed matches Err(error) ==> outcome == engine_failure(error_code(error)),
    {
        match performed {
            Ok(()) => TransferOutcome::from_engine(self.easy.response_code()),
            Err(error) => TransferOutcome::from_engine(Err(error)),
        }
    }
}

} // verus!
