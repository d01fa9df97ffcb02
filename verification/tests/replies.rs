use jasper_mcp::error::{INTERNAL_ERROR, INVALID_REQUEST};
use jasper_mcp::json::{json_of, serialization_failure};
use jasper_mcp::server::JasperMcp;
use jasper_mcp::status::{
    failure_err, status_err, StatusCode, BAD_REQUEST, NOT_FOUND, NO_CONTENT, SERVICE_UNAVAILABLE,
    UNAUTHORIZED,
};
use serde_json::Value;

fn status(code: u16) -> StatusCode {
    StatusCode::from_u16(code).unwrap()
}

fn parse_error() -> serde_json::Error {
    serde_json::from_str::<Value>("{").err().unwrap()
}

#[test]
fn status_codes_have_three_digits() {
    assert!(StatusCode::from_u16(99).is_none());
    assert!(StatusCode::from_u16(1000).is_none());
    assert!(StatusCode::from_u16(0).is_none());
    assert_eq!(status(100).as_u16(), 100);
    assert_eq!(status(999).as_u16(), 999);
    for code in 0..2000u16 {
        assert_eq!(
            StatusCode::from_u16(code).is_some(),
            axum::http::StatusCode::from_u16(code).is_ok()
        );
    }
}

#[test]
fn status_numbers_are_those_of_http() {
    assert_eq!(NO_CONTENT, axum::http::StatusCode::NO_CONTENT.as_u16());
    assert_eq!(BAD_REQUEST, axum::http::StatusCode::BAD_REQUEST.as_u16());
    assert_eq!(UNAUTHORIZED, axum::http::StatusCode::UNAUTHORIZED.as_u16());
    assert_eq!(NOT_FOUND, axum::http::StatusCode::NOT_FOUND.as_u16());
    assert_eq!(SERVICE_UNAVAILABLE, axum::http::StatusCode::SERVICE_UNAVAILABLE.as_u16());
}

#[test]
fn error_codes_are_those_of_json_rpc() {
    assert_eq!(INVALID_REQUEST, rmcp::model::ErrorCode::INVALID_REQUEST.0);
    assert_eq!(INTERNAL_ERROR, rmcp::model::ErrorCode::INTERNAL_ERROR.0);
}

#[test]
fn statuses_are_put_into_words() {
    assert_eq!(status_err(status(404), "笔记").message, "笔记不存在");
    assert_eq!(status_err(status(400), "打标签").message, "打标签的参数不合法");
    assert_eq!(status_err(status(503), "笔记").message, "尚未配置数据源");
    assert_eq!(
        status_err(status(500), "新建笔记").message,
        "新建笔记失败（500 Internal Server Error）"
    );
    assert_eq!(status_err(status(403), "笔记").message, "笔记失败（403 Forbidden）");
    assert_eq!(status_err(status(799), "笔记").message, "笔记失败（799 <unknown status code>）");
    assert_eq!(failure_err("笔记", "x").message, "笔记失败（x）");
}

#[test]
fn every_status_prints_its_number_first() {
    for code in 100..1000u16 {
        let error = status_err(status(code), "w");
        assert_eq!(error.code, -32600);
        assert!(error.data.is_none());
        if code != 400 && code != 404 && code != 503 {
            assert!(error.message.starts_with(&format!("w失败（{} ", code)));
        }
    }
}

#[test]
fn an_answer_is_the_reply() {
    let value: Value = serde_json::from_str("[1,{\"a\":null}]").unwrap();
    assert_eq!(json_of(Ok(value.clone())).ok().unwrap(), value);
    assert_eq!(JasperMcp::get_note_reply(Ok(Ok(value.clone()))).ok().unwrap(), value);
}

#[test]
fn a_failed_serialization_is_an_internal_error() {
    let expected = format!("序列化失败: {}", parse_error());
    let error = json_of(Err(parse_error())).err().unwrap();
    assert_eq!(error.code, -32603);
    assert_eq!(error.message, expected);
    assert!(error.data.is_none());
    let error = JasperMcp::create_note_reply(Ok(Err(parse_error()))).err().unwrap();
    assert_eq!(error.code, -32603);
    assert_eq!(error.message, expected);
    assert_eq!(serialization_failure("x").message, "序列化失败: x");
}

#[test]
fn each_tool_names_what_failed() {
    let message = |reply: Result<Value, jasper_mcp::error::ErrorData>| reply.err().unwrap().message;
    assert_eq!(message(JasperMcp::get_note_reply(Err(status(404)))), "笔记不存在");
    assert_eq!(message(JasperMcp::create_note_reply(Err(status(404)))), "新建笔记不存在");
    assert_eq!(message(JasperMcp::update_note_reply(Err(status(404)))), "笔记不存在");
    assert_eq!(message(JasperMcp::create_folder_reply(Err(status(404)))), "新建笔记本不存在");
    assert_eq!(message(JasperMcp::add_note_tag_reply(Err(status(404)))), "打标签不存在");
    assert_eq!(message(JasperMcp::remove_note_tag_reply(Err(status(404)))), "去标签不存在");
    assert_eq!(message(JasperMcp::delete_note_reply(status(404))), "删除笔记不存在");
    assert_eq!(message(JasperMcp::delete_folder_reply(status(404))), "删除笔记本不存在");
}

#[test]
fn only_done_deletions_are_reported() {
    let done: Value = serde_json::from_str("{\"deleted\":true}").unwrap();
    assert_eq!(JasperMcp::delete_note_reply(status(204)).ok().unwrap(), done);
    assert_eq!(JasperMcp::delete_folder_reply(status(204)).ok().unwrap(), done);
    for code in [200, 202, 400, 404, 500, 503] {
        assert!(JasperMcp::delete_note_reply(status(code)).is_err());
        assert!(JasperMcp::delete_folder_reply(status(code)).is_err());
    }
    assert_eq!(
        JasperMcp::delete_folder_reply(status(200)).err().unwrap().message,
        "删除笔记本失败（200 OK）"
    );
}
