use http::StatusCode;
use unifi_client::api::voucher::VoucherApi;
use unifi_client::api::Method;
use unifi_client::client::UniFiClient;
use unifi_client::models::api_response::{ApiMeta, ApiResponse};
use unifi_client::models::voucher::{
    CreateVoucherRequest, CreateVoucherResponse, Voucher, VoucherConfig, VoucherExpireUnit,
    VoucherStatus,
};
use unifi_client::UniFiError;

fn test_client() -> UniFiClient {
    UniFiClient::builder()
        .controller_url("https://controller.example:8443")
        .username("test-user")
        .password("test-password")
        .site("default")
        .build(Some(&StatusCode::NOT_MODIFIED))
        .unwrap()
}

fn ok<T>(data: T) -> Result<ApiResponse<T>, reqwest::Error> {
    Ok(ApiResponse { meta: ApiMeta { rc: "ok".to_string(), msg: None }, data: Some(data) })
}

fn voucher(id: &str, code: &str, status: VoucherStatus) -> Voucher {
    Voucher {
        id: id.to_string(),
        admin_name: None,
        code: code.to_string(),
        create_time: 1622548800,
        duration: 1440,
        for_hotspot: None,
        note: None,
        qos_overwrite: None,
        qos_rate_max_down: None,
        qos_rate_max_up: None,
        qos_usage_quota: None,
        quota: 1,
        site_id: None,
        status,
        status_expires: None,
        used: 0,
    }
}

#[test]
fn test_list_vouchers() {
    let client = test_client();
    let call = VoucherApi::new(&client).list();
    assert_eq!(call.method, Method::Get);
    assert_eq!(call.endpoint, "/api/s/default/stat/voucher");
    assert!(call.body.is_none());

    let mut first = voucher("voucher1", "ABC123", VoucherStatus::Valid);
    first.qos_rate_max_down = Some(10000);
    first.qos_rate_max_up = Some(5000);
    first.qos_usage_quota = Some(1073741824);
    let mut second = voucher("voucher2", "DEF456", VoucherStatus::Used);
    second.used = 1;
    second.note = Some("Test voucher".to_string());

    let vouchers = UniFiClient::get(&StatusCode::OK, ok(vec![first, second])).unwrap();

    // Verify response
    assert_eq!(vouchers.len(), 2);

    // Check first voucher
    let voucher1 = &vouchers[0];
    assert_eq!(voucher1.id, "voucher1");
    assert_eq!(voucher1.code, "ABC123");
    assert_eq!(voucher1.status, VoucherStatus::Valid);
    assert_eq!(voucher1.qos_rate_max_down, Some(10000));
    assert_eq!(voucher1.qos_rate_max_up, Some(5000));
    assert_eq!(voucher1.qos_usage_quota, Some(1073741824));
    assert_eq!(voucher1.note, None);

    // Check second voucher
    let voucher2 = &vouchers[1];
    assert_eq!(voucher2.id, "voucher2");
    assert_eq!(voucher2.code, "DEF456");
    assert_eq!(voucher2.status, VoucherStatus::Used);
    assert_eq!(voucher2.note, Some("Test voucher".to_string()));
}

#[test]
fn test_create_voucher() {
    let client = test_client();
    let config = VoucherConfig::builder()
        .count(5)
        .duration(1440)
        .note("Test vouchers")
        .build()
        .unwrap();
    let call = VoucherApi::new(&client).create(config).unwrap();
    assert_eq!(call.method, Method::Post);
    assert_eq!(call.endpoint, "/api/s/default/cmd/hotspot");
    let body = call.body.unwrap();
    assert_eq!(body.cmd, "create-voucher");
    assert_eq!(body.n, 5);
    assert_eq!(body.note.as_deref(), Some("Test vouchers"));
    assert_eq!(body.expire, Some(1440));
    assert!(body.expire_number.is_none());
    assert!(body.expire_unit.is_none());
    assert!(body.quota.is_none());
    assert!(body.up.is_none());
    assert!(body.down.is_none());
    assert!(body.bytes.is_none());

    let answer = ok(vec![CreateVoucherResponse { create_time: 1622548800 }]);
    let responses = UniFiClient::post(&StatusCode::OK, answer).unwrap();
    let response = VoucherApi::created(responses).unwrap();
    assert_eq!(response.create_time, 1622548800);
}

#[test]
fn test_delete_voucher() {
    let client = test_client();
    let call = VoucherApi::new(&client).delete("voucher1");
    assert_eq!(call.method, Method::Post);
    assert_eq!(call.endpoint, "/api/s/default/cmd/hotspot");
    let body = call.body.unwrap();
    assert_eq!(body.cmd, "delete-voucher");
    assert_eq!(body.id, "voucher1");

    let result = UniFiClient::post(&StatusCode::OK, ok(Vec::<u8>::new())).map(|_| ());
    assert!(result.is_ok());
}

#[test]
fn test_api_error() {
    let client = test_client();
    let _call = VoucherApi::new(&client).list();
    let answer: Result<ApiResponse<Vec<Voucher>>, reqwest::Error> = Ok(ApiResponse {
        meta: ApiMeta { rc: "error".to_string(), msg: Some("Invalid site".to_string()) },
        data: Some(Vec::new()),
    });
    let result = UniFiClient::get(&StatusCode::OK, answer);

    // Verify error
    assert!(result.is_err());
    match result {
        Err(UniFiError::ApiError(msg)) => assert_eq!(msg, "Invalid site"),
        _ => panic!("Expected ApiError"),
    }
}

#[test]
fn an_envelope_is_opened_in_order() {
    // The status counts first.
    let refused: Result<ApiResponse<u8>, reqwest::Error> = Ok(ApiResponse {
        meta: ApiMeta { rc: "error".to_string(), msg: Some("Invalid site".to_string()) },
        data: None,
    });
    match UniFiClient::request_json(&StatusCode::NOT_FOUND, refused) {
        Err(UniFiError::ApiError(msg)) => {
            assert_eq!(msg, "API request failed with status code: 404 Not Found")
        }
        other => panic!("Expected ApiError, got {other:?}"),
    }
    match UniFiClient::get(&StatusCode::INTERNAL_SERVER_ERROR, ok(1u8)) {
        Err(UniFiError::ApiError(msg)) => assert_eq!(
            msg,
            "API request failed with status code: 500 Internal Server Error"
        ),
        other => panic!("Expected ApiError, got {other:?}"),
    }
    match UniFiClient::post(&StatusCode::FOUND, ok(1u8)) {
        Err(UniFiError::ApiError(msg)) => {
            assert_eq!(msg, "API request failed with status code: 302 Found")
        }
        other => panic!("Expected ApiError, got {other:?}"),
    }
    let odd = StatusCode::from_u16(299).unwrap();
    assert_eq!(UniFiClient::get(&odd, ok(1u8)).unwrap(), 1);
    let odder = StatusCode::from_u16(799).unwrap();
    match UniFiClient::get(&odder, ok(1u8)) {
        Err(UniFiError::ApiError(msg)) => assert_eq!(
            msg,
            "API request failed with status code: 799 <unknown status code>"
        ),
        other => panic!("Expected ApiError, got {other:?}"),
    }

    // Then whether the body could be read.
    let unreadable = reqwest::Client::new().get("not a url").build().unwrap_err();
    let said = unreadable.to_string();
    match UniFiClient::request_json::<u8>(&StatusCode::OK, Err(unreadable)) {
        Err(UniFiError::HttpError(error)) => assert_eq!(error.to_string(), said),
        other => panic!("Expected HttpError, got {other:?}"),
    }

    // Then what the envelope says.
    let wordless: Result<ApiResponse<u8>, reqwest::Error> = Ok(ApiResponse {
        meta: ApiMeta { rc: "error".to_string(), msg: None },
        data: Some(3),
    });
    match UniFiClient::request_json(&StatusCode::OK, wordless) {
        Err(UniFiError::ApiError(msg)) => assert_eq!(msg, "Unknown API error"),
        other => panic!("Expected ApiError, got {other:?}"),
    }
    let shouted: Result<ApiResponse<u8>, reqwest::Error> = Ok(ApiResponse {
        meta: ApiMeta { rc: "OK".to_string(), msg: None },
        data: Some(3),
    });
    assert!(UniFiClient::request_json(&StatusCode::OK, shouted).is_err());

    // Data may be absent, unless it is asked for.
    let empty: Result<ApiResponse<u8>, reqwest::Error> = Ok(ApiResponse {
        meta: ApiMeta { rc: "ok".to_string(), msg: Some("ignored".to_string()) },
        data: None,
    });
    assert_eq!(UniFiClient::request_json(&StatusCode::OK, empty).unwrap(), None);
    assert_eq!(UniFiClient::request_json(&StatusCode::NO_CONTENT, ok(9u8)).unwrap(), Some(9));
    for opened in [
        UniFiClient::get::<u8>(
            &StatusCode::OK,
            Ok(ApiResponse { meta: ApiMeta { rc: "ok".to_string(), msg: None }, data: None }),
        ),
        UniFiClient::post::<u8>(
            &StatusCode::OK,
            Ok(ApiResponse { meta: ApiMeta { rc: "ok".to_string(), msg: None }, data: None }),
        ),
    ] {
        match opened {
            Err(UniFiError::ApiError(msg)) => assert_eq!(msg, "No data returned from API"),
            other => panic!("Expected ApiError, got {other:?}"),
        }
    }
}

#[test]
fn a_status_is_taken_before_the_body_is_read() {
    assert!(UniFiClient::check_status(&StatusCode::OK).is_ok());
    assert!(UniFiClient::check_status(&StatusCode::NO_CONTENT).is_ok());
    assert!(UniFiClient::check_status(&StatusCode::from_u16(299).unwrap()).is_ok());
    for (status, said) in [
        (300u16, "API request failed with status code: 300 Multiple Choices"),
        (199, "API request failed with status code: 199 <unknown status code>"),
        (401, "API request failed with status code: 401 Unauthorized"),
        (404, "API request failed with status code: 404 Not Found"),
        (503, "API request failed with status code: 503 Service Unavailable"),
    ] {
        match UniFiClient::check_status(&StatusCode::from_u16(status).unwrap()) {
            Err(UniFiError::ApiError(msg)) => assert_eq!(msg, said),
            other => panic!("Expected ApiError, got {other:?}"),
        }
    }
}

#[test]
fn api_meta_says_ok_or_why_not() {
    let fine = ApiMeta { rc: "ok".to_string(), msg: None };
    assert!(fine.is_ok());
    assert_eq!(fine.into_message("nothing"), "nothing");
    let bad = ApiMeta { rc: "error".to_string(), msg: Some("api.err.NoSiteContext".to_string()) };
    assert!(!bad.is_ok());
    assert_eq!(bad.into_message("nothing"), "api.err.NoSiteContext");
    assert!(!ApiMeta { rc: "".to_string(), msg: None }.is_ok());
    assert!(!ApiMeta { rc: "ok ".to_string(), msg: None }.is_ok());
    assert!(!ApiMeta { rc: "o".to_string(), msg: None }.is_ok());
}

#[test]
fn voucher_config_is_built_step_by_step() {
    let config = VoucherConfig::builder()
        .count(10)
        .duration(60)
        .note("Conference guests")
        .upload_limit(1000)
        .download_limit(2000)
        .data_quota(500)
        .build()
        .unwrap();
    assert_eq!(config.count, 10);
    assert_eq!(config.duration, Some(60));
    assert_eq!(config.note.as_deref(), Some("Conference guests"));
    assert_eq!(config.up, Some(1000));
    assert_eq!(config.down, Some(2000));
    assert_eq!(config.data_quota, Some(500));

    let request = CreateVoucherRequest::try_from(config).unwrap();
    assert_eq!(request.cmd, "create-voucher");
    assert_eq!(request.n, 10);
    assert_eq!(request.expire, Some(60));
    assert_eq!(request.note.as_deref(), Some("Conference guests"));
    assert_eq!(request.up, Some(1000));
    assert_eq!(request.down, Some(2000));
    assert_eq!(request.bytes, Some(500));
    assert!(request.expire_number.is_none());
    assert!(request.expire_unit.is_none());
    assert!(request.quota.is_none());
}

#[test]
fn voucher_config_needs_a_count() {
    match VoucherConfig::builder().duration(60).build() {
        Err(UniFiError::ApiError(msg)) => assert_eq!(msg, "Voucher count must be greater than 0"),
        other => panic!("Expected ApiError, got {:?}", other.map(|_| ())),
    }
    match VoucherConfig::builder().count(3).count(0).build() {
        Err(UniFiError::ApiError(msg)) => assert_eq!(msg, "Voucher count must be greater than 0"),
        other => panic!("Expected ApiError, got {:?}", other.map(|_| ())),
    }
    let empty = VoucherConfig::default();
    assert_eq!(empty.count, 0);
    match CreateVoucherRequest::try_from(empty) {
        Err(UniFiError::ApiError(msg)) => assert_eq!(msg, "Voucher count must be greater than 0"),
        other => panic!("Expected ApiError, got {:?}", other.map(|_| ())),
    }
    let client = test_client();
    match VoucherApi::new(&client).create(VoucherConfig::default()) {
        Err(UniFiError::ApiError(msg)) => assert_eq!(msg, "Voucher count must be greater than 0"),
        other => panic!("Expected ApiError, got {:?}", other.map(|_| ())),
    }
    assert!(VoucherConfig::builder().count(1).build().is_ok());
    assert!(VoucherConfig::builder().count(u32::MAX).build().is_ok());
}

#[test]
fn an_answer_without_a_voucher_response_is_an_api_error() {
    match VoucherApi::created(Vec::new()) {
        Err(UniFiError::ApiError(msg)) => assert_eq!(msg, "No create voucher response received"),
        other => panic!("Expected ApiError, got {other:?}"),
    }
    let first = VoucherApi::created(vec![
        CreateVoucherResponse { create_time: 1 },
        CreateVoucherResponse { create_time: 2 },
    ])
    .unwrap();
    assert_eq!(first.create_time, 1);
}

#[test]
fn vouchers_are_listed_by_time_and_deleted_one_by_one() {
    let client = test_client().with_site("lab");
    let api = VoucherApi::new(&client);
    assert_eq!(api.client().site(), "lab");
    let call = api.get_by_create_time(1620000000);
    assert_eq!(call.method, Method::Get);
    assert_eq!(call.endpoint, "/api/s/lab/stat/voucher");
    assert_eq!(call.body.unwrap().create_time, 1620000000);

    let vouchers = vec![
        voucher("v1", "11111", VoucherStatus::Valid),
        voucher("v2", "22222", VoucherStatus::Expired),
        voucher("v3", "33333", VoucherStatus::Used),
    ];
    let calls = api.delete_all(&vouchers);
    let ids: Vec<&str> = calls
        .iter()
        .map(|call| {
            assert_eq!(call.method, Method::Post);
            assert_eq!(call.endpoint, "/api/s/lab/cmd/hotspot");
            assert_eq!(call.body.as_ref().unwrap().cmd, "delete-voucher");
            call.body.as_ref().unwrap().id.as_str()
        })
        .collect();
    assert_eq!(ids, vec!["v1", "v2", "v3"]);
    assert!(api.delete_all(&Vec::new()).is_empty());
}

#[test]
fn vouchers_and_their_states_are_shown() {
    assert_eq!(VoucherStatus::Valid.label(), "Valid");
    assert_eq!(VoucherStatus::Used.label(), "Used");
    assert_eq!(VoucherStatus::Expired.label(), "Expired");
    assert_eq!(voucher("v", "ABC123", VoucherStatus::Valid).label(), "Code: ABC123 (Valid)");
    assert_eq!(voucher("v", "", VoucherStatus::Expired).label(), "Code:  (Expired)");
}

#[test]
fn expire_units_have_their_numbers() {
    assert_eq!(u32::from(VoucherExpireUnit::Seconds), 1);
    assert_eq!(u32::from(VoucherExpireUnit::Minutes), 60);
    assert_eq!(u32::from(VoucherExpireUnit::Hours), 3600);
}
