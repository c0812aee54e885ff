use trafficserver::cache::{
    cache_read_outcome, decode_cache_event, CacheObject, CacheReadHandler, Error, ReleaseAction,
};
use trafficserver::continuations::{continuation_callback, continuation_raw_handler_once};
use trafficserver::{TS_EVENT_CACHE_OPEN_READ, TS_EVENT_CACHE_OPEN_READ_FAILED, TS_SUCCESS};

#[test]
fn open_succeeded_yields_cache_object_wrapping_the_connection() {
    let (tx, mut rx) = tokio::sync::oneshot::channel();
    let mut cont = continuation_callback(CacheReadHandler::new(tx));

    let code = continuation_raw_handler_once(&mut cont, TS_EVENT_CACHE_OPEN_READ, 42);
    assert_eq!(code, TS_SUCCESS);

    let received = rx.try_recv().ok();
    let result = cache_read_outcome(received);
    let object = result.expect("open succeeded must yield a cache object");
    assert_eq!(object.vconn(), 42);
}

#[test]
fn open_failed_yields_the_numeric_cause() {
    let (tx, mut rx) = tokio::sync::oneshot::channel();
    let mut cont = continuation_callback(CacheReadHandler::new(tx));

    continuation_raw_handler_once(&mut cont, TS_EVENT_CACHE_OPEN_READ_FAILED, 42);

    let received = rx.try_recv().ok();
    assert_eq!(cache_read_outcome(received), Err(Error::OpenFailed(42)));
}

#[test]
fn unexpected_event_yields_protocol_error() {
    let (tx, mut rx) = tokio::sync::oneshot::channel();
    let mut cont = continuation_callback(CacheReadHandler::new(tx));

    continuation_raw_handler_once(&mut cont, 7, 0);

    let received = rx.try_recv().ok();
    assert_eq!(cache_read_outcome(received), Err(Error::UnexpectedEvent));
}

#[test]
fn dropped_continuation_yields_channel_closed() {
    let (tx, mut rx) = tokio::sync::oneshot::channel();
    let cont = continuation_callback(CacheReadHandler::new(tx));
    drop(cont);

    let received = rx.try_recv().ok();
    assert_eq!(cache_read_outcome(received), Err(Error::ChannelClosed));
}

#[test]
fn decode_covers_all_event_codes() {
    let ok = decode_cache_event(TS_EVENT_CACHE_OPEN_READ, 9).unwrap();
    assert_eq!(ok.vconn(), 9);
    assert_eq!(
        decode_cache_event(TS_EVENT_CACHE_OPEN_READ_FAILED, 3),
        Err(Error::OpenFailed(3))
    );
    assert_eq!(decode_cache_event(0, 9), Err(Error::UnexpectedEvent));
}

#[test]
fn teardown_destroys_buffer_before_closing_connection() {
    let mut object = CacheObject::new(42);
    object.set_buffer(7);
    let log = object.teardown_actions();
    assert_eq!(
        log,
        vec![
            ReleaseAction::DestroyIoBuffer(7),
            ReleaseAction::CloseConnection(42)
        ]
    );
}

#[test]
fn teardown_without_buffer_only_closes_connection() {
    let object = CacheObject::new(5);
    assert_eq!(
        object.teardown_actions(),
        vec![ReleaseAction::CloseConnection(5)]
    );
}

#[test]
fn handler_reports_failure_when_the_receiver_is_gone() {
    let (tx, rx) = tokio::sync::oneshot::channel();
    drop(rx);
    let mut cont = continuation_callback(CacheReadHandler::new(tx));
    let code = continuation_raw_handler_once(&mut cont, TS_EVENT_CACHE_OPEN_READ, 1);
    assert_eq!(code, trafficserver::TS_ERROR);
}
