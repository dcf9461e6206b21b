use jupiter_swap_api_client::error::RequestError;

#[test]
fn message_is_the_text_of_each_kind() {
    assert_eq!(RequestError::Transport("no route".to_string()).message(), "no route");
    assert_eq!(RequestError::Decode("bad json".to_string()).message(), "bad json");
    let status = RequestError::Status { code: 404, message: "Request status not ok".to_string() };
    assert_eq!(status.message(), "Request status not ok");
}

#[test]
fn status_code_is_there_for_status_errors_only() {
    let status = RequestError::Status { code: 503, message: String::new() };
    assert_eq!(status.status_code(), Some(503));
    assert_eq!(RequestError::Transport("x".to_string()).status_code(), None);
    assert_eq!(RequestError::Decode("x".to_string()).status_code(), None);
}
