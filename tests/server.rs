use rcelery::server::{
    check_image_extension, image_content_type, to_ascii_lower, is_image_extension, last_segment, upload_extension, AppError,
    FileInfo, Response, Server, ServerError,
};
use rcelery::sysinfo::{mem_used_kb, swap_used_kb};

#[test]
fn app_error_status_codes() {
    assert_eq!(AppError::Io("disk".to_string()).status_code(), 500);
    assert_eq!(AppError::InvalidParam("p".to_string()).status_code(), 400);
    assert_eq!(AppError::Unauthorized.status_code(), 401);
    assert_eq!(AppError::NotFound("f".to_string()).status_code(), 404);
    assert_eq!(AppError::Unknown("u".to_string()).status_code(), 500);
    assert_eq!(AppError::NotFound("dir".to_string()).message(), "not found: dir");
    assert_eq!(AppError::Unauthorized.message(), "unauthorized");
}

#[test]
fn response_status_mapping() {
    let ok: Response<u32> = Response::new(Some(42), "Success".to_string(), 0);
    assert_eq!(ok.http_status(), 200);
    assert_eq!(ok.data, Some(42));
    assert_eq!(ok.msg, "Success");
    let missing: Response<()> = Response::new(None, "Not Found".to_string(), 404);
    assert_eq!(missing.http_status(), 404);
    let other: Response<()> = Response::new(None, "x".to_string(), 200);
    assert_eq!(other.http_status(), 500);
}

#[test]
fn server_settings() {
    let s = Server::new("127.0.0.1".to_string(), 8080);
    assert_eq!(s.host_name(), "127.0.0.1");
    assert_eq!(s.port_number(), 8080);
    assert_eq!(ServerError::InvalidPort(8080).message(), "invalid port: 8080");
    assert_eq!(ServerError::InvalidPort(0).message(), "invalid port: 0");
}

#[test]
fn file_entries() {
    let f = FileInfo::new("a.txt".to_string(), true, 12, false, 1, 2);
    assert_eq!(f.size, 12);
    let d = FileInfo::new("dir".to_string(), false, 4096, true, 1, 2);
    assert_eq!(d.size, 0);
    assert!(d.is_dir);
}

#[test]
fn image_extensions() {
    assert_eq!(image_content_type("png"), "image/png");
    assert!(is_image_extension("jpeg"));
    assert!(!is_image_extension("PNG"));
    assert!(!is_image_extension("txt"));
    assert_eq!(last_segment("a.b.c"), "c");
    assert_eq!(last_segment("noext"), "noext");
    assert_eq!(last_segment("trailing."), "");
    assert_eq!(upload_extension("Photo.PNG").unwrap(), "png");
    assert_eq!(upload_extension("archive.tar.GIF").unwrap(), "gif");
    match upload_extension("notes.txt") {
        Err(AppError::InvalidParam(m)) => assert_eq!(m, "Unsupported file type: txt"),
        other => panic!("unexpected {:?}", other),
    }
    assert!(upload_extension("noext").is_err());
    assert!(check_image_extension("bmp".to_string()).is_ok());
    assert_eq!(to_ascii_lower("AbZ.Ä9"), "abz.Ä9");
    assert_eq!(rcelery::error::decimal(4_294_967_295), "4294967295");
    assert_eq!(rcelery::error::decimal(10), "10");
}

#[test]
fn memory_usage_arithmetic() {
    assert_eq!(mem_used_kb(1000, 300, 600), 400);
    assert_eq!(mem_used_kb(1000, 300, 0), 700);
    assert_eq!(mem_used_kb(1000, 300, 2000), 700);
    assert_eq!(mem_used_kb(1000, 1000, 0), 0);
    assert_eq!(mem_used_kb(0, 0, 0), 0);
    assert_eq!(swap_used_kb(100, 40), 60);
    assert_eq!(swap_used_kb(100, 100), 0);
    assert_eq!(swap_used_kb(0, 5), 0);
}

struct TestData {
    field1: String,
    field2: i32,
}

#[test]
fn test_response_serialization() {
    let response = Response::new(
        Some(TestData { field1: "value1".to_string(), field2: 42 }),
        "Success".to_string(),
        200,
    );

    let mut data = serde_json::Map::new();
    let sent = response.data.as_ref().unwrap();
    data.insert("field1".to_string(), serde_json::Value::String(sent.field1.clone()));
    data.insert("field2".to_string(), serde_json::Value::from(sent.field2));
    let mut body = serde_json::Map::new();
    body.insert("data".to_string(), serde_json::Value::Object(data));
    body.insert("msg".to_string(), serde_json::Value::String(response.msg.clone()));
    body.insert("code".to_string(), serde_json::Value::from(response.code));
    let json = serde_json::Value::Object(body).to_string();

    let parsed: serde_json::Value = serde_json::from_str(&json).unwrap();
    let deserialized = Response::new(
        Some(TestData {
            field1: parsed["data"]["field1"].as_str().unwrap().to_string(),
            field2: parsed["data"]["field2"].as_i64().unwrap() as i32,
        }),
        parsed["msg"].as_str().unwrap().to_string(),
        parsed["code"].as_u64().unwrap() as u16,
    );

    let response_data = response.data.unwrap();
    let deserialized_data = deserialized.data.unwrap();

    assert_eq!(response_data.field1, deserialized_data.field1);
    assert_eq!(response_data.field2, deserialized_data.field2);
    assert_eq!(response.msg, deserialized.msg);
    assert_eq!(response.code, deserialized.code);
}
