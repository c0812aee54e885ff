use trafficserver::helpers::RawStrError;
use trafficserver::host::{
    HostMimeHdr, HostRemapInfo, HostRequest, HostResponse, HostStr, HostTxn, HostUrl,
};
use trafficserver::remap::{RemapRequestInfo, TSRemapStatus};
use trafficserver::request::{GetsClientRequest, GetsServerRequest, Request};
use trafficserver::response::Response;
use trafficserver::status::Status;
use trafficserver::transaction::{
    GetsInternalTransactionPtr, ReadRequestHeaderHook, RemapHook, SendRequestHeaderHook,
    Transaction, TS_CRUUID_STRING_LEN,
};
use trafficserver::url::Url;
use trafficserver::{
    log_c_string, ts_config_dir_get, ts_result_convert, TS_EVENT_HTTP_CONTINUE,
    TS_EVENT_HTTP_ERROR, TS_SUCCESS,
};

fn host_str(bytes: &[u8]) -> HostStr {
    HostStr::from_bytes(bytes.to_vec())
}

fn sample_url() -> HostUrl {
    HostUrl {
        scheme: host_str(b"https"),
        host: host_str(b"example.net"),
        user: host_str(b"user"),
        password: host_str(b"SECRET-REDACTED"),
        port: 8443,
        path: host_str(b"a/b"),
        query: host_str(b"k=v"),
        params: host_str(b"p"),
        fragment: host_str(b"frag"),
    }
}

fn empty_mime() -> HostMimeHdr {
    HostMimeHdr {
        field_count: 0,
        fields: vec![],
    }
}

fn sample_request() -> HostRequest {
    HostRequest {
        method: host_str(b"GET"),
        host: host_str(b"example.net"),
        url: Some(sample_url()),
        mime: empty_mime(),
    }
}

fn sample_response() -> HostResponse {
    HostResponse {
        status: 404,
        reason: host_str(b"Not Found"),
        mime: empty_mime(),
    }
}

fn sample_txn() -> HostTxn {
    HostTxn {
        client_request: Some(sample_request()),
        server_request: Some(sample_request()),
        client_response: None,
        server_response: Some(sample_response()),
        uuid: None,
    }
}

#[test]
fn url_getters_surface_each_field() {
    let data = sample_url();
    let url: Url<()> = Url::new(&data);
    assert_eq!(url.get_scheme().unwrap(), "https");
    assert_eq!(url.get_host().unwrap(), "example.net");
    assert_eq!(url.get_user().unwrap(), "user");
    assert_eq!(url.get_password().unwrap(), "SECRET-REDACTED");
    assert_eq!(url.get_port(), 8443);
    assert_eq!(url.get_path().unwrap(), "a/b");
    assert_eq!(url.get_query().unwrap(), "k=v");
    assert_eq!(url.get_params().unwrap(), "p");
    assert_eq!(url.get_fragment().unwrap(), "frag");
}

#[test]
fn url_port_passes_sentinel_values_through() {
    let mut data = sample_url();
    data.port = -1;
    let url: Url<()> = Url::new(&data);
    assert_eq!(url.get_port(), -1);
}

#[test]
fn url_getter_surfaces_extraction_failure() {
    let mut data = sample_url();
    data.host = HostStr::null();
    let url: Url<()> = Url::new(&data);
    assert!(matches!(
        url.get_host(),
        Err(trafficserver::Error::InvalidRawString(
            RawStrError::InvalidStringPointer
        ))
    ));
}

#[test]
fn request_view_reads_method_host_url_headers() {
    let data = sample_request();
    let req: Request<()> = Request::new(&data);
    assert_eq!(req.get_method().unwrap(), "GET");
    assert_eq!(req.get_host().unwrap(), "example.net");
    let url = req.get_url().unwrap();
    assert_eq!(url.get_scheme().unwrap(), "https");
    let mut headers = req.get_headers().iter();
    assert!(headers.next().is_none());
}

#[test]
fn request_url_failure_is_typed() {
    let mut data = sample_request();
    data.url = None;
    let req: Request<()> = Request::new(&data);
    assert!(matches!(
        req.get_url(),
        Err(trafficserver::Error::Request(
            trafficserver::request::Error::GetUrlFailed
        ))
    ));
}

#[test]
fn response_view_reads_status_reason_headers() {
    let data = sample_response();
    let resp: Response<()> = Response::new(&data);
    assert_eq!(resp.get_status(), Some(Status::try_from_code(404).unwrap()));
    assert_eq!(resp.get_reason().unwrap(), "Not Found");
    let mut headers = resp.get_headers().iter();
    assert!(headers.next().is_none());
}

#[test]
fn response_status_sentinel_and_out_of_range_are_none() {
    let mut data = sample_response();
    data.status = 0;
    let resp: Response<()> = Response::new(&data);
    assert_eq!(resp.get_status(), None);
    data.status = 1000;
    let resp: Response<()> = Response::new(&data);
    assert_eq!(resp.get_status(), None);
}

#[test]
fn status_accepts_only_the_standard_range() {
    assert_eq!(Status::try_from_code(100).unwrap().code(), 100);
    assert_eq!(Status::try_from_code(599).unwrap().code(), 599);
    assert!(Status::try_from_code(99).is_none());
    assert!(Status::try_from_code(600).is_none());
}

#[test]
fn remap_phase_may_read_the_client_request() {
    let txn_data = sample_txn();
    let txn: Transaction<RemapHook> = Transaction::new(11, &txn_data);
    assert_eq!(txn.get_internal_transaction_pointer(), 11);
    let req = txn.get_client_request().unwrap();
    assert_eq!(req.get_method().unwrap(), "GET");
}

#[test]
fn send_request_header_phase_may_read_both_requests() {
    let txn_data = sample_txn();
    let txn: Transaction<SendRequestHeaderHook> = Transaction::new(12, &txn_data);
    assert!(txn.get_client_request().is_ok());
    assert!(txn.get_server_request().is_ok());
}

#[test]
fn accessor_failure_is_typed_per_accessor() {
    let mut txn_data = sample_txn();
    txn_data.client_request = None;
    let txn: Transaction<ReadRequestHeaderHook> = Transaction::new(13, &txn_data);
    assert!(matches!(
        txn.get_client_request(),
        Err(trafficserver::Error::Request(
            trafficserver::request::Error::GetClientRequestFailed
        ))
    ));
}

#[test]
fn resume_and_abort_consume_the_handle_with_the_right_event() {
    let txn_data = sample_txn();
    let txn: Transaction<RemapHook> = Transaction::new(21, &txn_data);
    assert_eq!(txn.resume(), (21, TS_EVENT_HTTP_CONTINUE));
    let txn: Transaction<RemapHook> = Transaction::new(22, &txn_data);
    assert_eq!(txn.abort(), (22, TS_EVENT_HTTP_ERROR));
}

#[test]
fn uuid_is_trimmed_at_the_first_zero_byte() {
    let mut buf = vec![0u8; TS_CRUUID_STRING_LEN];
    let uuid = b"9ba331b8-bd0d-4078-bd35-65da2a6a07eb";
    buf[..uuid.len()].copy_from_slice(uuid);
    let mut txn_data = sample_txn();
    txn_data.uuid = Some(buf);
    let txn: Transaction<RemapHook> = Transaction::new(1, &txn_data);
    assert_eq!(
        txn.client_request_uuid().unwrap(),
        "9ba331b8-bd0d-4078-bd35-65da2a6a07eb"
    );
}

#[test]
fn uuid_with_invalid_utf8_is_a_hard_error() {
    let mut buf = vec![0u8; TS_CRUUID_STRING_LEN];
    buf[0] = b'a';
    buf[1] = 0xff;
    buf[2] = b'b';
    let mut txn_data = sample_txn();
    txn_data.uuid = Some(buf);
    let txn: Transaction<RemapHook> = Transaction::new(1, &txn_data);
    assert!(matches!(
        txn.client_request_uuid(),
        Err(trafficserver::Error::Transaction(
            trafficserver::transaction::Error::InvalidString(1)
        ))
    ));
}

#[test]
fn uuid_host_failure_is_typed() {
    let txn_data = sample_txn();
    let txn: Transaction<RemapHook> = Transaction::new(1, &txn_data);
    assert!(matches!(
        txn.client_request_uuid(),
        Err(trafficserver::Error::Transaction(
            trafficserver::transaction::Error::GetClientRequestUuidFailed
        ))
    ));
}

#[test]
fn remap_info_exposes_its_three_urls_and_redirect_flag() {
    let data = HostRemapInfo {
        map_from_url: sample_url(),
        map_to_url: sample_url(),
        request_url: sample_url(),
        redirect: 0,
    };
    let mut info = RemapRequestInfo::new(data);
    assert_eq!(info.get_mapped_from().get_host().unwrap(), "example.net");
    assert_eq!(info.get_mapped_to().get_scheme().unwrap(), "https");
    assert_eq!(info.get_request_url().get_path().unwrap(), "a/b");
    assert_eq!(info.redirect(), 0);
    info.set_redirect(true);
    assert_eq!(info.redirect(), 1);
    info.set_redirect(false);
    assert_eq!(info.redirect(), 0);
}

#[test]
fn remap_status_variants_exist() {
    let all = [
        TSRemapStatus::NoRemap,
        TSRemapStatus::DidRemap,
        TSRemapStatus::NoRemapStop,
        TSRemapStatus::DidRemapStop,
        TSRemapStatus::RemapError,
    ];
    assert_eq!(all.len(), 5);
}

#[test]
fn return_code_conversion() {
    assert_eq!(ts_result_convert(TS_SUCCESS), Ok(()));
    assert_eq!(ts_result_convert(-1), Err(()));
    assert_eq!(ts_result_convert(5), Err(()));
}

#[test]
fn log_strings_are_nul_terminated_or_emptied() {
    assert_eq!(log_c_string("tag"), b"tag\0".to_vec());
    assert_eq!(log_c_string(""), b"\0".to_vec());
    assert_eq!(log_c_string("bad\0tag"), b"\0".to_vec());
}

#[test]
fn config_dir_falls_back_to_empty() {
    assert_eq!(ts_config_dir_get(None), "");
    assert_eq!(ts_config_dir_get(Some(b"/opt/etc".to_vec())), "/opt/etc");
    assert_eq!(ts_config_dir_get(Some(vec![0xff])), "");
}

#[test]
fn module_errors_convert_into_the_crate_error() {
    let e: trafficserver::Error = trafficserver::request::Error::GetUrlFailed.into();
    assert_eq!(
        e,
        trafficserver::Error::Request(trafficserver::request::Error::GetUrlFailed)
    );
    let e: trafficserver::Error = RawStrError::InvalidStringPointer.into();
    assert_eq!(
        e,
        trafficserver::Error::InvalidRawString(RawStrError::InvalidStringPointer)
    );
    let e: trafficserver::Error = trafficserver::response::Error::GetClientResponseFailed.into();
    assert_eq!(
        e,
        trafficserver::Error::Response(trafficserver::response::Error::GetClientResponseFailed)
    );
    let e: trafficserver::Error =
        trafficserver::transaction::Error::GetClientRequestUuidFailed.into();
    assert_eq!(
        e,
        trafficserver::Error::Transaction(
            trafficserver::transaction::Error::GetClientRequestUuidFailed
        )
    );
}
