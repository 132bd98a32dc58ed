use erqwest::command::{ReadOpts, DEFAULT_READ_LENGTH};
use erqwest::config::{
    read, req, req_consume_timeslice, spawn_verdict, ReadOpt, ReqConfig, ReqError, ReqOpt,
    ResponseBody,
};
use erqwest::engine::Wait;
use erqwest::method::Method;
use erqwest::request::{ReqBody, ReqData};

fn base() -> Vec<ReqOpt> {
    vec![ReqOpt::Url(b"http://localhost/".to_vec()), ReqOpt::Method(Method::Get)]
}

#[test]
fn url_and_method_are_enough() {
    assert_eq!(
        req(base()),
        Ok(ReqConfig {
            data: ReqData {
                url: b"http://localhost/".to_vec(),
                headers: vec![],
                method: Method::Get,
                body: None,
                timeout: None,
            },
            response_streamed: false,
        })
    );
}

#[test]
fn every_option_is_taken_in() {
    let opts = vec![
        ReqOpt::Timeout(Some(250)),
        ReqOpt::ResponseBody(ResponseBody::Stream),
        ReqOpt::Body(ReqBody::Stream),
        ReqOpt::Headers(vec![(b"a".to_vec(), b"1".to_vec())]),
        ReqOpt::Method(Method::Post),
        ReqOpt::Url(b"http://localhost/x".to_vec()),
    ];
    let config = req(opts).unwrap();
    assert_eq!(
        config,
        ReqConfig {
            data: ReqData {
                url: b"http://localhost/x".to_vec(),
                headers: vec![(b"a".to_vec(), b"1".to_vec())],
                method: Method::Post,
                body: Some(ReqBody::Stream),
                timeout: Some(250),
            },
            response_streamed: true,
        }
    );
    assert!(config.upload_streamed());
    assert_eq!(config.engine().wants(), Wait::Start);
}

#[test]
fn the_engine_of_a_request_has_the_queues_that_the_request_asks_for() {
    let mut opts = base();
    opts.push(ReqOpt::Body(ReqBody::Complete(vec![1])));
    let config = req(opts).unwrap();
    assert!(!config.upload_streamed());
    assert!(!config.response_streamed);
    let mut engine = config.engine();
    engine.start(config.data);
    assert_eq!(engine.wants(), Wait::Response);

    let mut opts = base();
    opts.push(ReqOpt::Body(ReqBody::Stream));
    let config = req(opts).unwrap();
    let mut engine = config.engine();
    engine.start(config.data);
    assert_eq!(engine.wants(), Wait::CommandOrResponse);
}

#[test]
fn an_unknown_key_is_rejected() {
    let mut opts = base();
    opts.push(ReqOpt::Unknown("verbose".to_string()));
    assert_eq!(req(opts), Err(ReqError::BadOpt("verbose".to_string())));
    assert_eq!(
        req(vec![ReqOpt::Unknown("x".to_string())]),
        Err(ReqError::BadOpt("x".to_string()))
    );
}

#[test]
fn an_invalid_value_is_a_bad_argument() {
    let mut opts = base();
    opts.push(ReqOpt::Invalid);
    assert_eq!(req(opts), Err(ReqError::BadArg));
}

#[test]
fn the_first_refused_option_decides() {
    assert_eq!(
        req(vec![ReqOpt::Invalid, ReqOpt::Unknown("x".to_string())]),
        Err(ReqError::BadArg)
    );
    assert_eq!(
        req(vec![ReqOpt::Unknown("x".to_string()), ReqOpt::Invalid, ReqOpt::Unknown("y".to_string())]),
        Err(ReqError::BadOpt("x".to_string()))
    );
}

#[test]
fn url_and_method_are_required() {
    assert_eq!(req(vec![]), Err(ReqError::BadArg));
    assert_eq!(req(vec![ReqOpt::Method(Method::Get)]), Err(ReqError::BadArg));
    assert_eq!(req(vec![ReqOpt::Url(b"http://localhost/".to_vec())]), Err(ReqError::BadArg));
    assert_eq!(
        req(vec![ReqOpt::Headers(vec![]), ReqOpt::Timeout(None), ReqOpt::Body(ReqBody::Stream)]),
        Err(ReqError::BadArg)
    );
}

#[test]
fn an_option_given_again_replaces_the_earlier_one() {
    let opts = vec![
        ReqOpt::Url(b"http://a/".to_vec()),
        ReqOpt::Method(Method::Get),
        ReqOpt::Timeout(Some(5)),
        ReqOpt::ResponseBody(ResponseBody::Stream),
        ReqOpt::Url(b"http://b/".to_vec()),
        ReqOpt::Method(Method::Head),
        ReqOpt::Timeout(None),
        ReqOpt::ResponseBody(ResponseBody::Complete),
    ];
    let config = req(opts).unwrap();
    assert_eq!(config.data.url, b"http://b/".to_vec());
    assert_eq!(config.data.method, Method::Head);
    assert_eq!(config.data.timeout, None);
    // to ask for the whole response does not take back the stream
    assert!(config.response_streamed);
}

#[test]
fn the_time_slice_grows_with_the_headers() {
    assert_eq!(req_consume_timeslice(0), 3);
    assert_eq!(req_consume_timeslice(16), 3);
    assert_eq!(req_consume_timeslice(17), 4);
    assert_eq!(req_consume_timeslice(100), 9);
    assert_eq!(req_consume_timeslice(1000), 63);
    assert_eq!(req_consume_timeslice(1616), 99);
    assert_eq!(req_consume_timeslice(1617), 100);
    assert_eq!(req_consume_timeslice(1_000_000), 100);
    assert_eq!(req_consume_timeslice(usize::MAX), 100);
}

#[test]
fn a_refused_task_is_reported_by_its_creation() {
    assert_eq!(spawn_verdict(false), Ok(()));
    assert_eq!(spawn_verdict(true), Err(ReqError::BadRuntime));
}

#[test]
fn a_read_without_options_is_long_and_has_no_period() {
    assert_eq!(DEFAULT_READ_LENGTH, 8 * 1024 * 1024);
    assert_eq!(read(vec![]), Ok(ReadOpts { length: 8388608, period: None }));
    assert_eq!(ReadOpts::new(None, Some(3)), ReadOpts { length: 8388608, period: Some(3) });
    assert_eq!(ReadOpts::new(Some(0), None), ReadOpts { length: 0, period: None });
}

#[test]
fn the_options_of_a_read_are_taken_in_order() {
    assert_eq!(
        read(vec![ReadOpt::Length(40), ReadOpt::Period(Some(100))]),
        Ok(ReadOpts { length: 40, period: Some(100) })
    );
    assert_eq!(
        read(vec![ReadOpt::Period(Some(1)), ReadOpt::Length(1), ReadOpt::Period(None), ReadOpt::Length(2)]),
        Ok(ReadOpts { length: 2, period: None })
    );
    assert_eq!(
        read(vec![ReadOpt::Length(1), ReadOpt::Unknown("size".to_string()), ReadOpt::Invalid]),
        Err(ReqError::BadOpt("size".to_string()))
    );
    assert_eq!(read(vec![ReadOpt::Invalid, ReadOpt::Length(1)]), Err(ReqError::BadArg));
}
