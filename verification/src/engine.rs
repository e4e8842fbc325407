use curl::easy::Easy;
use curl::easy::List;
use std::time::Duration;
use vstd::prelude::*;

verus! {

/// `curl::easy::Easy`, the transfer engine's handle for one request.
#[verifier::external_type_specification]
#[verifier::external_body]
pub struct ExEasy(curl::easy::Easy);

/// `curl::easy::List`, the engine's list of strings, used for header lines.
#[verifier::external_type_specification]
#[verifier::external_body]
pub struct ExList(curl::easy::List);

/// `curl::Error`, the engine's error: a code and an optional message.
#[verifier::external_type_specification]
#[verifier::external_body]
pub struct ExEngineError(curl::Error);

/// The strings that a `curl::easy::List` holds, first to last.
pub uninterp spec fn list_lines(list: List) -> Seq<Seq<char>>;

/// The code that a `curl::Error` holds.
pub uninterp spec fn error_code(error: curl::Error) -> u32;

/// `List::new` makes a list that holds nothing.
pub assume_specification[ List::new ]() -> (list: List)
    ensures
        list_lines(list) == Seq::<Seq<char>>::empty(),
;

/// `List::append` turns the string into a C string, which fails exactly when
/// the string holds a NUL character, and then adds it at the end of the list.
/// On failure the list is as before.
pub assume_specification[ List::append ](list: &mut List, data: &str) -> (r: Result<
    (),
    curl::Error,
>)
    ensures
        r is Ok <==> !data@.contains('\0'),
        r is Ok ==> list_lines(*final(list)) == list_lines(*old(list)).push(data@),
        r is Err ==> list_lines(*final(list)) == list_lines(*old(list)),
;

/// `Easy::new` makes a fresh handle. Nothing is claimed of it.
pub assume_specification[ Easy::new ]() -> Easy
;

/// `Easy::url` turns the URL into a C string before it reaches the engine, so
/// a URL with a NUL character is never accepted. Whether the engine takes any
/// other URL is the engine's matter: it does not check the syntax here.
pub assume_specification[ Easy::url ](easy: &mut Easy, url: &str) -> (r: Result<(), curl::Error>)
    ensures
        r is Ok ==> !url@.contains('\0'),
;

/// `Easy::http_headers` hands a list of header lines to the engine. Nothing
/// is claimed of the answer.
pub assume_specification[ Easy::http_headers ](easy: &mut Easy, list: List) -> Result<
    (),
    curl::Error,
>
;

/// `Easy::post` switches the request method to POST. Nothing is claimed of
/// the answer.
pub assume_specification[ Easy::post ](easy: &mut Easy, enable: bool) -> Result<(), curl::Error>
;

/// `Easy::post_field_size` announces the size of a body that a read callback
/// will supply. Nothing is claimed of the answer.
pub assume_specification[ Easy::post_field_size ](easy: &mut Easy, size: u64) -> Result<
    (),
    curl::Error,
>
;

/// `Easy::response_code` reports the status code of the last answer. Nothing
/// is claimed of it.
pub assume_specification[ Easy::response_code ](easy: &Easy) -> Result<u32, curl::Error>
;

/// `curl::Error::is_operation_timedout` compares the code that the error
/// holds with the engine's code for a timeout, 28.
pub assume_specification[ curl::Error::is_operation_timedout ](error: &curl::Error) -> (b: bool)
    ensures
        b == (error_code(*error) == 28),
;

/// Calls `curl::Error::code`. Trusted: the result is the code that the error
/// holds.
#[verifier::external_body]
pub(crate) fn engine_code(error: &curl::Error) -> (code: u32)
    ensures
        code == error_code(*error),
{
    error.code() as u32
}

/// Calls `Easy::timeout` with a duration of `millis` milliseconds, the limit
/// for the whole transfer. Trusted, with nothing claimed of the answer.
#[verifier::external_body]
pub(crate) fn set_timeout(easy: &mut Easy, millis: u64) -> (r: Result<(), curl::Error>) {
    easy.timeout(Duration::from_millis(millis))
}

} // verus!
