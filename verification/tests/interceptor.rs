use request_id::middleware::{
    EchoHandler, FixedHandler, Handler, Readiness, RequestIDWrapper,
};
use request_id::request::{Request, RequestID, REQUEST_ID_HEADER};

fn fresh_request(headers: Vec<(&str, &str)>) -> Request {
    Request {
        headers: headers
            .into_iter()
            .map(|(n, v)| (String::from(n), String::from(v)))
            .collect(),
        request_id: None,
    }
}

#[test]
fn exactly_one_id_header_is_appended_and_echoed() {
    let wrapper = RequestIDWrapper;
    let mut m = wrapper.new_transform(EchoHandler { last: None });
    let req = fresh_request(vec![("accept", "text/plain")]);
    let resp = m.call(req);

    assert_eq!(resp.status, 200);
    assert_eq!(resp.body.len(), 10);
    assert!(resp.body.chars().all(|c| c.is_ascii_alphanumeric()));

    let seen = m.service.last.expect("the inner stage saw the request");
    let named: Vec<&(String, String)> = seen
        .headers
        .iter()
        .filter(|h| h.0 == REQUEST_ID_HEADER)
        .collect();
    assert_eq!(named.len(), 1);
    assert_eq!(named[0].1, resp.body);
    assert_eq!(seen.headers[0].0, "accept");
    assert_eq!(seen.headers[0].1, "text/plain");

    let extracted = RequestID::from_request(&seen).expect("identifier is attached");
    assert_eq!(extracted.0, resp.body);
}

#[test]
fn a_preset_id_header_is_kept_and_the_new_one_appended_after_it() {
    let wrapper = RequestIDWrapper;
    let mut m = wrapper.new_transform(EchoHandler { last: None });
    let req = fresh_request(vec![(REQUEST_ID_HEADER, "preset123")]);
    let resp = m.call(req);

    let seen = m.service.last.expect("the inner stage saw the request");
    let named: Vec<&(String, String)> = seen
        .headers
        .iter()
        .filter(|h| h.0 == REQUEST_ID_HEADER)
        .collect();
    assert_eq!(named.len(), 2);
    assert_eq!(named[0].1, "preset123");
    assert_eq!(named[1].1, resp.body);
    assert_ne!(resp.body, "preset123");

    let extracted = RequestID::from_request(&seen).expect("identifier is attached");
    assert_eq!(extracted.0, resp.body);
}

#[test]
fn the_inner_response_is_passed_through_verbatim() {
    let wrapper = RequestIDWrapper;
    let mut m = wrapper.new_transform(FixedHandler {
        readiness: Readiness::Ready,
        status: 207,
        body: String::from("fixed body"),
    });
    let resp = m.call(fresh_request(vec![]));
    assert_eq!(resp.status, 207);
    assert_eq!(resp.body, "fixed body");
}

#[test]
fn readiness_of_the_inner_stage_is_forwarded_unchanged() {
    let wrapper = RequestIDWrapper;
    let mut pending = wrapper.new_transform(FixedHandler {
        readiness: Readiness::Pending,
        status: 200,
        body: String::new(),
    });
    assert_eq!(pending.poll_ready(), Readiness::Pending);

    let mut ready = wrapper.new_transform(FixedHandler {
        readiness: Readiness::Ready,
        status: 200,
        body: String::new(),
    });
    assert_eq!(ready.poll_ready(), Readiness::Ready);
}

#[test]
fn an_unwrapped_handler_reports_the_missing_identifier() {
    let mut inner = EchoHandler { last: None };
    let resp = inner.handle(fresh_request(vec![]));
    assert_eq!(resp.status, 400);
    assert_eq!(resp.body, "request id is missing");
}
