use curl_simple_http::exchange::check_outcome;
use curl_simple_http::exchange::conclude;
use curl_simple_http::HttpError;
use curl_simple_http::RequestBody;
use curl_simple_http::Response;
use curl_simple_http::ResponseMode;
use curl_simple_http::ResponseSink;
use curl_simple_http::TransferOutcome;
use serde_json::Value;

#[test]
fn read_hands_out_the_body_in_order() {
    let mut body = RequestBody::new(vec![1, 2, 3, 4, 5]);
    let mut buf = [9u8; 2];
    assert_eq!(body.len(), 5);
    assert_eq!(body.remaining(), 5);
    assert_eq!(body.read(&mut buf), 2);
    assert_eq!(buf, [1, 2]);
    assert_eq!(body.read(&mut buf), 2);
    assert_eq!(buf, [3, 4]);
    assert_eq!(body.remaining(), 1);
    assert_eq!(body.read(&mut buf), 1);
    assert_eq!(buf, [5, 4]);
    assert_eq!(body.read(&mut buf), 0);
    assert_eq!(buf, [5, 4]);
    assert_eq!(body.remaining(), 0);
    assert_eq!(body.len(), 5);
}

#[test]
fn read_into_a_large_buffer_leaves_the_rest_alone() {
    let mut body = RequestBody::new(vec![7, 8]);
    let mut buf = [0u8, 1, 2, 3];
    assert_eq!(body.read(&mut buf), 2);
    assert_eq!(buf, [7, 8, 2, 3]);
}

#[test]
fn read_into_an_empty_buffer_takes_nothing() {
    let mut body = RequestBody::new(vec![7, 8]);
    let mut buf: [u8; 0] = [];
    assert_eq!(body.read(&mut buf), 0);
    assert_eq!(body.remaining(), 2);
}

#[test]
fn read_of_an_empty_body_is_zero() {
    let mut body = RequestBody::new(Vec::new());
    let mut buf = [1u8; 4];
    assert_eq!(body.read(&mut buf), 0);
    assert_eq!(buf, [1, 1, 1, 1]);
}

#[test]
fn write_in_buffer_mode_keeps_the_chunks() {
    let mut sink = ResponseSink::new(ResponseMode::Buffer);
    let first = sink.write(b"{\"a\"");
    assert_eq!(first.accepted, 4);
    assert_eq!(first.forward, None);
    let second = sink.write(b":1}");
    assert_eq!(second.accepted, 3);
    let empty = sink.write(b"");
    assert_eq!(empty.accepted, 0);
    let done = sink.finish(TransferOutcome::Completed(200)).unwrap();
    assert_eq!(done.raw, b"{\"a\":1}".to_vec());
    let mut expected = serde_json::Map::new();
    expected.insert("a".to_string(), Value::from(1));
    assert_eq!(done.json, Some(Value::Object(expected)));
}

#[test]
fn write_in_stream_mode_hands_the_chunks_back() {
    let mut sink = ResponseSink::new(ResponseMode::Stream);
    let first = sink.write(b"abc");
    assert_eq!(first.accepted, 3);
    assert_eq!(first.forward, Some(b"abc".to_vec()));
    let empty = sink.write(b"");
    assert_eq!(empty.accepted, 0);
    assert_eq!(empty.forward, Some(Vec::new()));
    let done = sink.finish(TransferOutcome::Completed(204)).unwrap();
    assert_eq!(done, Response { raw: Vec::new(), json: None });
}

#[test]
fn finish_checks_the_transfer_before_the_body() {
    let mut sink = ResponseSink::new(ResponseMode::Buffer);
    sink.write(b"not json");
    assert_eq!(sink.finish(TransferOutcome::TimedOut), Err(HttpError::TimeoutError));

    let mut sink = ResponseSink::new(ResponseMode::Buffer);
    sink.write(b"{}");
    assert_eq!(sink.finish(TransferOutcome::Failed(7)), Err(HttpError::TransferError(7)));

    let mut sink = ResponseSink::new(ResponseMode::Buffer);
    sink.write(b"not json");
    assert_eq!(sink.finish(TransferOutcome::Completed(404)), Err(HttpError::HttpStatusError(404)));

    let sink = ResponseSink::new(ResponseMode::Stream);
    assert_eq!(sink.finish(TransferOutcome::Completed(500)), Err(HttpError::HttpStatusError(500)));
}

#[test]
fn finish_of_an_empty_response_is_a_parse_error() {
    let sink = ResponseSink::new(ResponseMode::Buffer);
    assert_eq!(
        sink.finish(TransferOutcome::Completed(200)),
        Err(HttpError::ResponseParseError(Vec::new()))
    );
}

#[test]
fn finish_decodes_utf8_before_parsing() {
    let mut sink = ResponseSink::new(ResponseMode::Buffer);
    sink.write("[\"é\", \"日本\"]".as_bytes());
    let done = sink.finish(TransferOutcome::Completed(200)).unwrap();
    assert_eq!(
        done.json,
        Some(Value::Array(vec![Value::String("é".to_string()), Value::String("日本".to_string())]))
    );
}

#[test]
fn finish_replaces_what_is_not_utf8() {
    let mut sink = ResponseSink::new(ResponseMode::Buffer);
    sink.write(b"\"a\xc3\"");
    let done = sink.finish(TransferOutcome::Completed(200)).unwrap();
    assert_eq!(done.json, Some(Value::String("a\u{fffd}".to_string())));
    assert_eq!(done.raw, b"\"a\xc3\"".to_vec());
}

#[test]
fn finish_keeps_the_bytes_of_a_response_that_is_not_json() {
    let mut sink = ResponseSink::new(ResponseMode::Buffer);
    sink.write(b"not json");
    assert_eq!(
        sink.finish(TransferOutcome::Completed(200)),
        Err(HttpError::ResponseParseError(b"not json".to_vec()))
    );
}

#[test]
fn check_outcome_knows_the_success_range() {
    assert_eq!(check_outcome(TransferOutcome::Completed(199)), Err(HttpError::HttpStatusError(199)));
    assert_eq!(check_outcome(TransferOutcome::Completed(200)), Ok(()));
    assert_eq!(check_outcome(TransferOutcome::Completed(204)), Ok(()));
    assert_eq!(check_outcome(TransferOutcome::Completed(299)), Ok(()));
    assert_eq!(check_outcome(TransferOutcome::Completed(300)), Err(HttpError::HttpStatusError(300)));
    assert_eq!(check_outcome(TransferOutcome::Completed(0)), Err(HttpError::HttpStatusError(0)));
    assert_eq!(check_outcome(TransferOutcome::TimedOut), Err(HttpError::TimeoutError));
    assert_eq!(check_outcome(TransferOutcome::Failed(6)), Err(HttpError::TransferError(6)));
}

#[test]
fn conclude_joins_bytes_and_document() {
    let parsed = serde_json::from_str::<Value>("[true]");
    assert_eq!(
        conclude(b"[true]".to_vec(), parsed),
        Ok(Response { raw: b"[true]".to_vec(), json: Some(Value::Array(vec![Value::Bool(true)])) })
    );
    let failed = serde_json::from_str::<Value>("[true");
    assert_eq!(
        conclude(b"[true".to_vec(), failed),
        Err(HttpError::ResponseParseError(b"[true".to_vec()))
    );
}

#[test]
fn from_engine_reads_status_and_errors() {
    assert_eq!(TransferOutcome::from_engine(Ok(204)), TransferOutcome::Completed(204));
    assert_eq!(TransferOutcome::from_engine(Err(curl::Error::new(28))), TransferOutcome::TimedOut);
    assert_eq!(TransferOutcome::from_engine(Err(curl::Error::new(7))), TransferOutcome::Failed(7));
    assert_eq!(TransferOutcome::from_engine(Err(curl::Error::new(27))), TransferOutcome::Failed(27));
}
