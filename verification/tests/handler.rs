use vod::handler::{FormatError, Handler};
use vod::models::{ApiResponseWrapper, Class, DataPayload, DataResponse, OutputData, OutputFormat, Video};

fn make_video() -> Video {
    Video {
        vod_id: "1".to_string(),
        vod_name: "Test".to_string(),
        type_id: "1".to_string(),
        type_label: "Movie".to_string(),
        vod_en: None,
        vod_time: "2024-01-01".to_string(),
        vod_remarks: "HD".to_string(),
        vod_blurb: None,
        vod_play_from: "src".to_string(),
        vod_pic: None,
        vod_play_url: None,
        vod_actor: None,
        vod_director: None,
        vod_area: None,
        vod_lang: None,
        vod_year: None,
    }
}

fn list_video(id: &str, name: &str) -> Video {
    Video {
        vod_id: id.to_string(),
        vod_name: name.to_string(),
        type_id: "1".to_string(),
        type_label: "Movie".to_string(),
        vod_en: None,
        vod_time: String::new(),
        vod_remarks: String::new(),
        vod_blurb: None,
        vod_play_from: String::new(),
        vod_pic: None,
        vod_play_url: None,
        vod_actor: None,
        vod_director: None,
        vod_area: None,
        vod_lang: None,
        vod_year: None,
    }
}

fn make_class(id: &str, name: &str, pid: &str) -> Class {
    Class { type_id: id.to_string(), type_label: name.to_string(), type_pid: pid.to_string() }
}

fn empty_wrapper() -> ApiResponseWrapper {
    ApiResponseWrapper { list: None, class: None, data: None, code: None, msg: None }
}

fn ok_string(r: Result<String, FormatError>) -> String {
    match r {
        Ok(s) => s,
        Err(_) => panic!("rendering failed"),
    }
}

#[test]
fn test_extract_data_videos() {
    // {"list": [{"vod_id": "1", "vod_name": "Test", "type_id": "1", "type_name": "Movie", "vod_time": "", "vod_remarks": "", "vod_play_from": ""}]}
    let mut wrapper = empty_wrapper();
    wrapper.list = Some(vec![list_video("1", "Test")]);
    let data = Handler::extract_data(&wrapper, "videolist");
    match data {
        OutputData::Videos(v) => assert_eq!(v.len(), 1),
        _ => panic!("Expected Videos"),
    }
}

#[test]
fn test_format_tabular_video() {
    let video = make_video();
    let data = OutputData::Video(Box::new(video));
    let output = ok_string(Handler::format_output(data, OutputFormat::Tabular));
    assert!(output.starts_with("1\tTest\tMovie"));
}

#[test]
fn test_format_json_video() {
    let video = make_video();
    let data = OutputData::Video(Box::new(video));
    let output = ok_string(Handler::format_output(data, OutputFormat::Json));
    assert!(output.contains("\"vod_id\": \"1\""));
    assert!(output.contains("\"vod_name\": \"Test\""));
}

#[test]
fn tabular_video_line_is_exact() {
    let mut video = make_video();
    video.vod_actor = Some("A".to_string());
    video.vod_year = Some("2024".to_string());
    let line = Handler::format_video_tabular(&video);
    assert_eq!(line, "1\tTest\tMovie\t2024-01-01\tHD\t\tsrc\t\t\tA\t\t\t\t2024");
    assert_eq!(line.matches('\t').count(), 13);
}

#[test]
fn tabular_list_has_one_line_per_record() {
    let videos = vec![list_video("1", "A"), list_video("2", "B"), list_video("3", "C")];
    let out = Handler::format_tabular(OutputData::Videos(&videos));
    assert_eq!(out.lines().count(), 3);
    assert_eq!(out.matches('\n').count(), 3);
    assert!(out.starts_with("1\tA\tMovie\t"));
    assert!(out.ends_with("\n"));
}

#[test]
fn tabular_classes() {
    let classes = vec![make_class("1", "Movie", "0"), make_class("6", "Action", "1")];
    let out = Handler::format_tabular(OutputData::Classes(&classes));
    assert_eq!(out, "1\tMovie\t0\n6\tAction\t1\n");
    let single = Handler::format_class_tabular(&classes[1]);
    assert_eq!(single, "6\tAction\t1");
}

#[test]
fn tabular_empty_list_is_empty() {
    let none: Vec<Video> = Vec::new();
    assert_eq!(Handler::format_tabular(OutputData::Videos(&none)), "");
}

#[test]
fn single_record_prints_as_one_record_list() {
    let v = make_video();
    let list = vec![make_video()];
    let single = Handler::format_tabular(OutputData::Video(Box::new(v)));
    let listed = Handler::format_tabular(OutputData::Videos(&list));
    assert_eq!(single, listed);
    let k = make_class("1", "Movie", "0");
    let ks = vec![make_class("1", "Movie", "0")];
    assert_eq!(
        Handler::format_tabular(OutputData::Class(Box::new(k))),
        Handler::format_tabular(OutputData::Classes(&ks))
    );
}

#[test]
fn json_object_of_video_is_exact() {
    let out = ok_string(Handler::format_json(OutputData::Video(Box::new(make_video()))));
    let expected = "{\n  \"type_id\": \"1\",\n  \"type_name\": \"Movie\",\n  \"vod_actor\": null,\n  \"vod_area\": null,\n  \"vod_blurb\": null,\n  \"vod_director\": null,\n  \"vod_en\": null,\n  \"vod_id\": \"1\",\n  \"vod_lang\": null,\n  \"vod_name\": \"Test\",\n  \"vod_pic\": null,\n  \"vod_play_from\": \"src\",\n  \"vod_play_url\": null,\n  \"vod_remarks\": \"HD\",\n  \"vod_time\": \"2024-01-01\",\n  \"vod_year\": null\n}";
    assert_eq!(out, expected);
}

#[test]
fn json_array_of_classes_is_exact() {
    let classes = vec![make_class("1", "Movie", "0")];
    let out = ok_string(Handler::format_output(OutputData::Classes(&classes), OutputFormat::Json));
    assert_eq!(out, "[\n  {\n    \"type_id\": \"1\",\n    \"type_name\": \"Movie\",\n    \"type_pid\": \"0\"\n  }\n]");
    let none: Vec<Video> = Vec::new();
    let empty = ok_string(Handler::format_output(OutputData::Videos(&none), OutputFormat::Json));
    assert_eq!(empty, "[]");
}

#[test]
fn extract_class_action_prefers_categories() {
    let mut w = empty_wrapper();
    w.list = Some(vec![list_video("1", "A")]);
    w.class = Some(vec![make_class("1", "Movie", "0")]);
    match Handler::extract_data(&w, "class") {
        OutputData::Classes(c) => assert_eq!(c.len(), 1),
        _ => panic!("Expected Classes"),
    }
    match Handler::extract_data(&w, "detail") {
        OutputData::Videos(v) => assert_eq!(v.len(), 1),
        _ => panic!("Expected Videos"),
    }
}

#[test]
fn extract_falls_back_in_order() {
    // class action: no categories, a category in data
    let mut w = empty_wrapper();
    w.list = Some(vec![list_video("1", "A")]);
    w.data = Some(DataPayload {
        video: None,
        wrapped_video: Some(DataResponse { data: list_video("9", "Z") }),
        class: None,
        wrapped_class: Some(DataResponse { data: make_class("7", "Drama", "1") }),
    });
    match Handler::extract_data(&w, "class") {
        OutputData::Class(c) => assert_eq!(c.type_id, "7"),
        _ => panic!("Expected Class"),
    }
    // other action: the list wins over data
    match Handler::extract_data(&w, "videolist") {
        OutputData::Videos(v) => assert_eq!(v[0].vod_id, "1"),
        _ => panic!("Expected Videos"),
    }
    // other action without list: the video in data
    w.list = None;
    match Handler::extract_data(&w, "detail") {
        OutputData::Video(v) => assert_eq!(v.vod_id, "9"),
        _ => panic!("Expected Video"),
    }
    // class action without categories anywhere: the video list, else nothing
    w.data = None;
    w.list = Some(vec![list_video("2", "B")]);
    match Handler::extract_data(&w, "class") {
        OutputData::Videos(v) => assert_eq!(v[0].vod_id, "2"),
        _ => panic!("Expected Videos"),
    }
    w.list = None;
    match Handler::extract_data(&w, "class") {
        OutputData::Classes(c) => assert!(c.is_empty()),
        _ => panic!("Expected Classes"),
    }
    // other action with only categories
    w.class = Some(vec![make_class("1", "Movie", "0")]);
    match Handler::extract_data(&w, "") {
        OutputData::Classes(c) => assert_eq!(c.len(), 1),
        _ => panic!("Expected Classes"),
    }
    w.class = None;
    match Handler::extract_data(&w, "") {
        OutputData::Videos(v) => assert!(v.is_empty()),
        _ => panic!("Expected Videos"),
    }
}

#[test]
fn empty_response_prints_nothing() {
    let w = empty_wrapper();
    assert!(w.is_empty());
    for action in ["class", "videolist", "detail", ""] {
        let out = Handler::format_tabular(Handler::extract_data(&w, action));
        assert_eq!(out, "");
        let json = ok_string(Handler::format_json(Handler::extract_data(&w, action)));
        assert_eq!(json, "[]");
    }
}
