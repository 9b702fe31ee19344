use vod::models::{ApiError, ApiResponseWrapper, Class, DataPayload, DataResponse, Video};
use vod::text::i32_to_decimal;

fn empty_wrapper() -> ApiResponseWrapper {
    ApiResponseWrapper { list: None, class: None, data: None, code: None, msg: None }
}

fn video(id: &str) -> Video {
    Video {
        vod_id: id.to_string(),
        vod_name: "V".to_string(),
        type_id: "1".to_string(),
        type_label: "M".to_string(),
        vod_en: None,
        vod_time: String::new(),
        vod_remarks: String::new(),
        vod_blurb: None,
        vod_play_from: String::new(),
        vod_pic: None,
        vod_play_url: None,
        vod_actor: None,
        vod_director: None,
        vod_area: None,
        vod_lang: None,
        vod_year: None,
    }
}

#[test]
fn test_api_response_error() {
    // {"code": 500, "msg": "Internal error"}
    let mut wrapper = empty_wrapper();
    wrapper.code = Some(500);
    wrapper.msg = Some("Internal error".to_string());
    let result = wrapper.check_error();
    assert!(result.is_err());
    let err = match result {
        Err(e) => e,
        Ok(()) => panic!("expected an error"),
    };
    assert_eq!(err.code, 500);
    assert_eq!(err.msg, "Internal error");
}

#[test]
fn test_api_response_success_code() {
    // {"code": 1, "list": []}
    let mut wrapper = empty_wrapper();
    wrapper.code = Some(1);
    wrapper.list = Some(Vec::new());
    assert!(wrapper.check_error().is_ok());
}

#[test]
fn test_is_empty() {
    // {}
    let wrapper = empty_wrapper();
    assert!(wrapper.is_empty());

    // {"list": []}
    let mut wrapper = empty_wrapper();
    wrapper.list = Some(Vec::new());
    assert!(wrapper.is_empty());

    // {"list": [{"vod_id": "1", "vod_name": "V", "type_id": "1", "type_name": "M", "vod_time": "", "vod_remarks": "", "vod_play_from": ""}]}
    let mut wrapper = empty_wrapper();
    wrapper.list = Some(vec![video("1")]);
    assert!(!wrapper.is_empty());
}

#[test]
fn error_without_message_is_unknown() {
    let mut wrapper = empty_wrapper();
    wrapper.code = Some(-1);
    match wrapper.check_error() {
        Err(e) => {
            assert_eq!(e.code, -1);
            assert_eq!(e.msg, "Unknown error");
        }
        Ok(()) => panic!("expected an error"),
    }
}

#[test]
fn codes_zero_one_and_missing_are_success() {
    let mut wrapper = empty_wrapper();
    assert!(wrapper.check_error().is_ok());
    wrapper.code = Some(0);
    wrapper.msg = Some("ignored".to_string());
    assert!(wrapper.check_error().is_ok());
    wrapper.code = Some(2);
    assert!(wrapper.check_error().is_err());
}

#[test]
fn empty_lists_and_data_count() {
    let mut wrapper = empty_wrapper();
    wrapper.class = Some(Vec::new());
    assert!(wrapper.is_empty());
    wrapper.class = Some(vec![Class { type_id: "1".to_string(), type_label: "M".to_string(), type_pid: "0".to_string() }]);
    assert!(!wrapper.is_empty());
    let mut wrapper = empty_wrapper();
    wrapper.data = Some(DataPayload { video: None, wrapped_video: None, class: None, wrapped_class: None });
    assert!(!wrapper.is_empty());
}

#[test]
fn data_prefers_direct_reading() {
    let mut wrapper = empty_wrapper();
    assert!(wrapper.try_video_data().is_none());
    assert!(wrapper.try_class_data().is_none());
    wrapper.data = Some(DataPayload {
        video: Some(video("direct")),
        wrapped_video: Some(DataResponse { data: video("nested") }),
        class: None,
        wrapped_class: Some(DataResponse {
            data: Class { type_id: "5".to_string(), type_label: "K".to_string(), type_pid: "0".to_string() },
        }),
    });
    assert_eq!(wrapper.try_video_data().map(|v| v.vod_id), Some("direct".to_string()));
    assert_eq!(wrapper.try_class_data().map(|c| c.type_id), Some("5".to_string()));
    wrapper.data = Some(DataPayload {
        video: None,
        wrapped_video: Some(DataResponse { data: video("nested") }),
        class: None,
        wrapped_class: None,
    });
    assert_eq!(wrapper.try_video_data().map(|v| v.vod_id), Some("nested".to_string()));
    assert!(wrapper.try_class_data().is_none());
}

#[test]
fn api_error_message() {
    let e = ApiError { code: 500, msg: "Internal error".to_string() };
    assert_eq!(e.message(), "API error (code=500): Internal error");
    let e = ApiError { code: -42, msg: String::new() };
    assert_eq!(e.message(), "API error (code=-42): ");
}

#[test]
fn decimal_text_of_integers() {
    assert_eq!(i32_to_decimal(0), "0");
    assert_eq!(i32_to_decimal(7), "7");
    assert_eq!(i32_to_decimal(10), "10");
    assert_eq!(i32_to_decimal(-305), "-305");
    assert_eq!(i32_to_decimal(i32::MAX), "2147483647");
    assert_eq!(i32_to_decimal(i32::MIN), "-2147483648");
}
