use std::cell::RefCell;

use wam_message_gatling::message::{EncodeError, Message};
use wam_message_gatling::outcome::{DeliveryError, DeliveryOutcome};
use wam_message_gatling::sender::wamserver::{
    build_request, classify_reply, prepare_request, request_url, send_messages_to_wam_server,
    send_to_wam_server, HttpRequest, CONTENT_TYPE,
};

fn unreachable_endpoint(_request: &HttpRequest) -> Result<u16, String> {
    Err("connection refused".to_string())
}

#[test]
fn test_send_to_wam_server_invalid_url() {
    // Set an invalid URL to test error handling
    let msg = Message {
        id: 1,
        text: "Test".to_string(),
        user_id: 42,
    };
    let result = send_to_wam_server(
        &msg,
        &"http://localhost:9999".to_string(),
        &unreachable_endpoint,
    );
    assert!(result.is_failure());
    assert_eq!(
        result,
        DeliveryOutcome::Failure(DeliveryError::Transport("connection refused".to_string()))
    );
}

#[test]
fn test_send_messages_to_wam_server_empty() {
    // Set a valid URL (but no server running, just test error handling)
    let messages = Vec::new();
    let result = send_messages_to_wam_server(
        messages,
        &"http://localhost:9999".to_string(),
        unreachable_endpoint,
    );
    assert!(result.entries.is_empty());
}

#[test]
fn test_request_url_appends_the_message_path() {
    assert_eq!(request_url("http://localhost:9999"), "http://localhost:9999/message");
    assert_eq!(request_url(""), "/message");
    assert_eq!(request_url("http://h/"), "http://h//message");
}

#[test]
fn test_classify_reply_takes_any_2xx_as_success() {
    for status in [200u16, 201, 204, 250, 299] {
        assert_eq!(classify_reply(Ok(status)), DeliveryOutcome::Success);
    }
}

#[test]
fn test_classify_reply_reports_other_statuses() {
    for status in [0u16, 100, 199, 300, 301, 400, 404, 500, 503, u16::MAX] {
        assert_eq!(
            classify_reply(Ok(status)),
            DeliveryOutcome::Failure(DeliveryError::Status(status))
        );
    }
}

#[test]
fn test_classify_reply_reports_the_transport_cause() {
    assert_eq!(
        classify_reply(Err("timed out".to_string())),
        DeliveryOutcome::Failure(DeliveryError::Transport("timed out".to_string()))
    );
}

#[test]
fn test_prepare_request_from_an_encoding() {
    assert_eq!(
        prepare_request(Ok("{}".to_string()), "http://h"),
        Ok(HttpRequest { url: "http://h/message".to_string(), body: "{}".to_string() })
    );
}

#[test]
fn test_prepare_request_from_a_refused_message() {
    assert_eq!(
        prepare_request(Err(EncodeError { detail: "no".to_string() }), "http://h"),
        Err(DeliveryError::Serialization("no".to_string()))
    );
}

#[test]
fn test_build_request_for_a_message() {
    let msg = Message {
        id: 3,
        text: "a \"b\"".to_string(),
        user_id: 1,
    };
    assert_eq!(
        build_request(&msg, "http://localhost:8080"),
        Ok(HttpRequest {
            url: "http://localhost:8080/message".to_string(),
            body: "{\"id\":3,\"text\":\"a \\\"b\\\"\",\"user_id\":1}".to_string(),
        })
    );
}

#[test]
fn test_send_to_wam_server_hands_one_request_to_the_transport() {
    let requests: RefCell<Vec<HttpRequest>> = RefCell::new(Vec::new());
    let transport = |request: &HttpRequest| -> Result<u16, String> {
        requests.borrow_mut().push(request.clone());
        Ok(201)
    };
    let msg = Message {
        id: 9,
        text: "Test".to_string(),
        user_id: 42,
    };
    let outcome = send_to_wam_server(&msg, &"http://wam".to_string(), &transport);
    assert_eq!(outcome, DeliveryOutcome::Success);
    assert_eq!(
        *requests.borrow(),
        vec![HttpRequest {
            url: "http://wam/message".to_string(),
            body: "{\"id\":9,\"text\":\"Test\",\"user_id\":42}".to_string(),
        }]
    );
}

#[test]
fn test_send_to_wam_server_reports_a_rejection() {
    let msg = Message {
        id: 1,
        text: "Test".to_string(),
        user_id: 42,
    };
    let outcome = send_to_wam_server(
        &msg,
        &"http://wam".to_string(),
        &|_request: &HttpRequest| -> Result<u16, String> { Ok(422) },
    );
    assert_eq!(outcome, DeliveryOutcome::Failure(DeliveryError::Status(422)));
}

#[test]
fn test_send_messages_to_wam_server_collects_every_outcome() {
    let messages = vec![
        Message { id: 11, text: "ok".to_string(), user_id: 1 },
        Message { id: 12, text: "reject".to_string(), user_id: 1 },
        Message { id: 13, text: "drop".to_string(), user_id: 1 },
        Message { id: 14, text: "ok".to_string(), user_id: 1 },
    ];
    let transport = |request: &HttpRequest| -> Result<u16, String> {
        if request.body.contains("reject") {
            Ok(500)
        } else if request.body.contains("drop") {
            Err("reset by peer".to_string())
        } else {
            Ok(200)
        }
    };
    let result = send_messages_to_wam_server(messages, &"http://wam".to_string(), transport);
    let ids: Vec<i32> = result.entries.iter().map(|entry| entry.id).collect();
    assert_eq!(ids, vec![11, 12, 13, 14]);
    assert_eq!(result.entries[0].outcome, DeliveryOutcome::Success);
    assert_eq!(
        result.entries[1].outcome,
        DeliveryOutcome::Failure(DeliveryError::Status(500))
    );
    assert_eq!(
        result.entries[2].outcome,
        DeliveryOutcome::Failure(DeliveryError::Transport("reset by peer".to_string()))
    );
    assert_eq!(result.entries[3].outcome, DeliveryOutcome::Success);
}

#[test]
fn test_send_messages_to_wam_server_unreachable_endpoint() {
    let messages = vec![
        Message { id: 0, text: "a".to_string(), user_id: 1 },
        Message { id: 1, text: "b".to_string(), user_id: 1 },
    ];
    let result = send_messages_to_wam_server(
        messages,
        &"http://localhost:9999".to_string(),
        unreachable_endpoint,
    );
    assert_eq!(result.len(), 2);
    assert!(result.entries.iter().all(|entry| entry.outcome.is_failure()));
}

#[test]
fn test_content_type_is_json() {
    assert_eq!(CONTENT_TYPE, "application/json");
}
