use telegram_codex_bridge::telegram::{
    is_success, is_telegram_poll_conflict, read_response, read_response_with, ApiResponse, TelegramClient,
};

fn client() -> TelegramClient {
    TelegramClient::new("123:abc".to_string()).expect("client")
}

#[test]
fn updates_are_polled() {
    let request = client().get_updates(None, 30, 50);
    assert_eq!(request.method, "getUpdates");
    assert_eq!(request.url, "https://api.telegram.org/bot123:abc/getUpdates");
    assert_eq!(request.body.to_text(), r#"{"limit":50,"timeout":30}"#);
    let request = client().duplicate().get_updates(Some(-7), 0, 1);
    assert_eq!(request.body.to_text(), r#"{"limit":1,"offset":-7,"timeout":0}"#);
}

#[test]
fn messages_are_sent_and_edited() {
    let request = client().send_message(-100, "a\n\"b\"");
    assert_eq!(request.url, "https://api.telegram.org/bot123:abc/sendMessage");
    assert_eq!(request.body.to_text(), r#"{"chat_id":-100,"text":"a\n\"b\""}"#);
    let request = client().edit_message(5, 6, "c");
    assert_eq!(request.url, "https://api.telegram.org/bot123:abc/editMessageText");
    assert_eq!(request.body.to_text(), r#"{"chat_id":5,"message_id":6,"text":"c"}"#);
}

#[test]
fn a_client_needs_a_token() {
    let error = TelegramClient::new("\t".to_string()).err().expect("error");
    assert_eq!(error.message(), "empty Telegram bot token");
}

fn response(ok: bool, result: Option<u32>, description: Option<&str>) -> ApiResponse<u32> {
    ApiResponse { ok, result, description: description.map(|d| d.to_string()) }
}

#[test]
fn responses_count_where_everything_succeeded() {
    assert_eq!(read_response("m", 200, response(true, Some(4), None)), Ok(4));
    assert_eq!(read_response("m", 299, response(true, Some(4), None)), Ok(4));
    assert_eq!(
        read_response("m", 200, response(true, None, None)),
        Err("telegram m returned no result".to_string())
    );
    assert_eq!(
        read_response("m", 200, response(false, Some(4), Some("bad"))),
        Err("telegram m failed: bad".to_string())
    );
    assert_eq!(
        read_response("m", 404, response(true, Some(4), None)),
        Err("telegram m failed: http 404 Not Found".to_string())
    );
    assert_eq!(
        read_response("m", 199, response(true, Some(4), None)),
        Err("telegram m failed: http 199 <unknown status code>".to_string())
    );
    assert_eq!(
        read_response("m", 300, response(false, None, None)),
        Err("telegram m failed: http 300 Multiple Choices".to_string())
    );
}

#[test]
fn success_is_reported_by_the_status() {
    assert!(is_success(200) && is_success(299));
    assert!(!is_success(199) && !is_success(300));
}

#[test]
fn a_status_in_words_stands_for_a_missing_description() {
    assert_eq!(
        read_response_with("m", false, "418 tea", response(true, Some(1), None)),
        Err("telegram m failed: http 418 tea".to_string())
    );
    assert_eq!(read_response_with("m", true, "", response(true, Some(1), None)), Ok(1));
}

#[test]
fn poll_conflicts_are_recognised() {
    let error = read_response(
        "getUpdates",
        409,
        response(false, None, Some("Conflict: terminated by other getUpdates request; stop")),
    )
    .err()
    .expect("error");
    assert!(is_telegram_poll_conflict(&error));
    assert!(!is_telegram_poll_conflict("telegram getUpdates failed: http 409 Conflict"));
}
