use std::time::Duration;
use zero2prod::domain::SubscriberEmail;
use zero2prod::email_client::params::RequestParams;
use zero2prod::email_client::response::EmailSendError;
use zero2prod::email_client::response::EmailSendResponse;
use zero2prod::email_client::response::EmailSendResult;
use zero2prod::email_client::EmailClient;
use zero2prod::email_client::EmailError;
use zero2prod::email_client::ResponseBody;
use zero2prod::email_client::TransportReply;
use zero2prod::json::JsonValue;
use zero2prod::text::decimal_text;

fn address(text: &str) -> SubscriberEmail {
    SubscriberEmail::parse(text.to_string()).unwrap()
}

/// A client as the service would have it, with a timeout of 200 ms.
fn email_client(base_url: &str) -> EmailClient {
    let timeout = Duration::from_millis(200);
    EmailClient::new(base_url, address("sender@example.com"), "secret-key", timeout, Ok(()))
        .unwrap()
}

fn json_object(members: Vec<(&str, JsonValue)>) -> JsonValue {
    JsonValue::Object(members.into_iter().map(|(name, value)| (name.to_string(), value)).collect())
}

fn json_string(text: &str) -> JsonValue {
    JsonValue::String(text.to_string())
}

fn answer(status: u16, body: JsonValue) -> TransportReply {
    TransportReply::Response { status, body: ResponseBody::Json(body) }
}

fn value_of(pairs: &[(String, String)], name: &str) -> String {
    let found: Vec<&(String, String)> = pairs.iter().filter(|pair| pair.0 == name).collect();
    assert_eq!(found.len(), 1, "{}", name);
    found[0].1.clone()
}

#[test]
fn send_email_fires_a_request_to_base_url_and_succeed_when_200() {
    // Arrange
    let email_client = email_client("http://127.0.0.1:4321");
    let subscriber_email = address("ursula_le_guin@gmail.com");
    let subject = "Welcome aboard";
    let content = "One paragraph.\nAnother paragraph & more.";
    let body = json_object(vec![("result", json_object(vec![("email_id", json_string("some id"))]))]);
    // Act
    let request = email_client.send_email(subscriber_email, subject, content);
    // Assert
    assert_eq!(request.url(), "http://127.0.0.1:4321/ru/api/sendEmail");
    let query = request.params().query();
    assert_eq!(value_of(&query, "format"), "json");
    assert_eq!(value_of(&query, "email"), "ursula_le_guin@gmail.com");
    assert_eq!(value_of(&query, "list_id"), "1");
    assert_eq!(value_of(&query, "subject"), subject);
    assert_eq!(value_of(&query, "body"), content);
    let result = EmailClient::read_reply(answer(200, body));
    assert!(result.is_ok());
}

#[test]
fn send_email_fails_if_the_server_returns_500() {
    let outcome = EmailClient::read_reply(TransportReply::Response {
        status: 500,
        body: ResponseBody::Unparseable { cause: "EOF while parsing a value".to_string() },
    });
    assert!(outcome.is_err());
    match outcome {
        Err(EmailError::TransportFailure { cause }) => assert_eq!(cause, "HTTP status 500"),
        other => panic!("unexpected {:?}", other),
    }
}

#[test]
fn send_email_times_out_if_the_server_takes_too_long() {
    let email_client = email_client("http://127.0.0.1:4321");
    let request = email_client.send_email(address("ursula_le_guin@gmail.com"), "s", "b");
    // The request is given up after the client's timeout.
    assert_eq!(request.timeout(), Duration::from_millis(200));
    let outcome =
        EmailClient::read_reply(TransportReply::Failed { cause: "operation timed out".to_string() });
    assert!(outcome.is_err());
    match outcome {
        Err(EmailError::TransportFailure { cause }) => assert_eq!(cause, "operation timed out"),
        other => panic!("unexpected {:?}", other),
    }
}

#[test]
fn a_delivery_with_only_an_email_id_is_a_success() {
    let body = json_object(vec![("result", json_object(vec![("email_id", json_string("x"))]))]);
    let response = EmailClient::read_reply(answer(200, body)).unwrap();
    assert_eq!(response.result.email_id, "x");
    assert_eq!(response.result.index, None);
    assert!(response.result.errors.is_none());
}

#[test]
fn the_request_holds_every_parameter_once_and_in_order() {
    let client = email_client("https://api.provider.test");
    let request = client.send_email(address("to@example.org"), "", "");
    let query = request.params().query();
    let expected = [
        ("format", "json"),
        ("api_key", "secret-key"),
        ("list_id", "1"),
        ("sender_name", "zero2prod"),
        ("sender_email", "sender@example.com"),
        ("email", "to@example.org"),
        ("subject", ""),
        ("body", ""),
    ];
    assert_eq!(query.len(), expected.len());
    for (pair, (name, value)) in query.iter().zip(expected) {
        assert_eq!(pair.0, name);
        assert_eq!(pair.1, value);
    }
}

#[test]
fn the_url_is_the_base_url_followed_by_the_path() {
    let request = email_client("").send_email(address("to@example.org"), "s", "b");
    assert_eq!(request.url(), "/ru/api/sendEmail");
    let request = email_client("https://h/").send_email(address("to@example.org"), "s", "b");
    assert_eq!(request.url(), "https://h//ru/api/sendEmail");
}

#[test]
fn the_builder_sets_the_fixed_parameters_and_the_key() {
    let params = RequestParams::builder("k");
    assert_eq!(params.format(), "json");
    assert_eq!(params.api_key(), "k");
    assert_eq!(params.list_id(), "1");
    assert_eq!(params.sender_name(), "zero2prod");
    assert_eq!(params.recipient(), "");
    assert_eq!(params.sender(), "");
    assert_eq!(params.subject_line(), "");
    assert_eq!(params.message(), "");
}

#[test]
fn each_builder_step_sets_its_own_parameter() {
    let params = RequestParams::builder("k")
        .sender_email("from@example.com")
        .email("to@example.com")
        .subject("Hello")
        .body("Text");
    assert_eq!(params.sender(), "from@example.com");
    assert_eq!(params.recipient(), "to@example.com");
    assert_eq!(params.subject_line(), "Hello");
    assert_eq!(params.message(), "Text");
    assert_eq!(params.format(), "json");
    assert_eq!(params.api_key(), "k");
    assert_eq!(params.list_id(), "1");
    assert_eq!(params.sender_name(), "zero2prod");
    let again = params.subject("Bye");
    assert_eq!(again.subject_line(), "Bye");
    assert_eq!(again.message(), "Text");
}

#[test]
fn a_client_keeps_its_settings() {
    let client = email_client("https://api.provider.test");
    assert_eq!(client.base_url(), "https://api.provider.test");
    assert_eq!(client.sender().as_ref(), "sender@example.com");
    assert_eq!(client.api_key(), "secret-key");
    assert_eq!(client.timeout(), Duration::from_millis(200));
}

#[test]
fn no_client_without_a_network_client() {
    let result = EmailClient::new(
        "https://api.provider.test",
        address("sender@example.com"),
        "secret-key",
        Duration::from_millis(200),
        Err("builder error".to_string()),
    );
    assert_eq!(result.unwrap_err().cause, "builder error");
}

#[test]
fn every_status_outside_2xx_is_a_transport_failure() {
    let delivery = || json_object(vec![("result", json_object(vec![("email_id", json_string("x"))]))]);
    for status in [0u16, 100, 199, 300, 301, 404, 500, 503, 599, 65535] {
        match EmailClient::read_reply(answer(status, delivery())) {
            Err(EmailError::TransportFailure { cause }) => {
                assert_eq!(cause, format!("HTTP status {}", status))
            }
            other => panic!("status {}: unexpected {:?}", status, other),
        }
    }
    for status in [200u16, 201, 204, 299] {
        assert!(EmailClient::read_reply(answer(status, delivery())).is_ok(), "{}", status);
    }
}

#[test]
fn a_2xx_answer_without_json_is_malformed() {
    let reply = TransportReply::Response {
        status: 200,
        body: ResponseBody::Unparseable { cause: "expected value at line 1 column 1".to_string() },
    };
    match EmailClient::read_reply(reply) {
        Err(EmailError::MalformedResponse { cause }) => {
            assert_eq!(cause, "expected value at line 1 column 1")
        }
        other => panic!("unexpected {:?}", other),
    }
}

#[test]
fn a_2xx_answer_of_another_shape_is_malformed() {
    let bodies = vec![
        JsonValue::Null,
        json_string("ok"),
        JsonValue::Array(vec![json_object(vec![("email_id", json_string("x"))])]),
        json_object(vec![]),
        json_object(vec![("result", JsonValue::Null)]),
        json_object(vec![("result", json_string("x"))]),
        json_object(vec![("result", json_object(vec![]))]),
        json_object(vec![("result", json_object(vec![("email_id", JsonValue::Integer(7))]))]),
        json_object(vec![("result", json_object(vec![("email_id", JsonValue::Null)]))]),
        json_object(vec![("Result", json_object(vec![("email_id", json_string("x"))]))]),
        json_object(vec![(
            "result",
            json_object(vec![("email_id", json_string("x")), ("index", json_string("1"))]),
        )]),
        json_object(vec![(
            "result",
            json_object(vec![
                ("email_id", json_string("x")),
                ("index", JsonValue::Decimal("1.5".to_string())),
            ]),
        )]),
        json_object(vec![(
            "result",
            json_object(vec![("email_id", json_string("x")), ("errors", json_object(vec![]))]),
        )]),
        json_object(vec![(
            "result",
            json_object(vec![
                ("email_id", json_string("x")),
                (
                    "errors",
                    JsonValue::Array(vec![json_object(vec![("code", json_string("c"))])]),
                ),
            ]),
        )]),
        json_object(vec![(
            "result",
            json_object(vec![
                ("email_id", json_string("x")),
                (
                    "errors",
                    JsonValue::Array(vec![
                        json_object(vec![("code", json_string("c")), ("message", json_string("m"))]),
                        json_string("oops"),
                    ]),
                ),
            ]),
        )]),
    ];
    for body in bodies {
        let shown = format!("{:?}", body);
        match EmailClient::read_reply(answer(200, body)) {
            Err(EmailError::MalformedResponse { cause }) => {
                assert_eq!(cause, "the response body does not describe a delivery", "{}", shown)
            }
            other => panic!("{}: unexpected {:?}", shown, other),
        }
    }
}

#[test]
fn issues_in_a_delivery_do_not_fail_the_send() {
    let body = json_object(vec![
        ("status", json_string("done")),
        (
            "result",
            json_object(vec![
                ("index", JsonValue::Integer(-3)),
                ("email_id", json_string("id-1")),
                (
                    "errors",
                    JsonValue::Array(vec![
                        json_object(vec![
                            ("code", json_string("unsubscribed")),
                            ("message", json_string("the recipient has left the list")),
                        ]),
                        json_object(vec![
                            ("message", json_string("second")),
                            ("extra", JsonValue::Bool(true)),
                            ("code", json_string("")),
                        ]),
                    ]),
                ),
            ]),
        ),
    ]);
    let response = EmailClient::read_reply(answer(200, body)).unwrap();
    assert_eq!(response.result.index, Some(-3));
    assert_eq!(response.result.email_id, "id-1");
    let errors = response.result.errors.unwrap();
    assert_eq!(errors.len(), 2);
    assert_eq!(errors[0].code, "unsubscribed");
    assert_eq!(errors[0].message, "the recipient has left the list");
    assert_eq!(errors[1].code, "");
    assert_eq!(errors[1].message, "second");
}

#[test]
fn optional_members_may_be_null_or_empty() {
    let body = json_object(vec![(
        "result",
        json_object(vec![
            ("index", JsonValue::Null),
            ("errors", JsonValue::Null),
            ("email_id", json_string("")),
        ]),
    )]);
    let response = EmailSendResponse::from_json(&body).unwrap();
    assert_eq!(response.result.index, None);
    assert_eq!(response.result.email_id, "");
    assert!(response.result.errors.is_none());
    let body = json_object(vec![(
        "result",
        json_object(vec![
            ("email_id", json_string("x")),
            ("index", JsonValue::Integer(i64::MAX)),
            ("errors", JsonValue::Array(vec![])),
        ]),
    )]);
    let response = EmailSendResponse::from_json(&body).unwrap();
    assert_eq!(response.result.index, Some(i64::MAX));
    assert_eq!(response.result.errors.unwrap().len(), 0);
}

#[test]
fn records_and_issues_are_read_on_their_own() {
    let record = json_object(vec![("email_id", json_string("x")), ("index", JsonValue::Integer(0))]);
    let result = EmailSendResult::from_json(&record).unwrap();
    assert_eq!(result.email_id, "x");
    assert_eq!(result.index, Some(0));
    assert!(EmailSendResult::from_json(&JsonValue::Array(vec![])).is_none());
    let issue = json_object(vec![("code", json_string("c")), ("message", json_string("m"))]);
    let read = EmailSendError::from_json(&issue).unwrap();
    assert_eq!(read.code, "c");
    assert_eq!(read.message, "m");
    assert!(EmailSendError::from_json(&json_object(vec![("code", json_string("c"))])).is_none());
    assert!(EmailSendError::from_json(&json_string("c")).is_none());
}

#[test]
fn the_cause_of_a_failure_is_its_text() {
    let transport = EmailError::TransportFailure { cause: "connection refused".to_string() };
    assert_eq!(transport.cause(), "connection refused");
    let malformed = EmailError::MalformedResponse { cause: "no json".to_string() };
    assert_eq!(malformed.cause(), "no json");
}

#[test]
fn numbers_are_written_in_decimal() {
    assert_eq!(decimal_text(0), "0");
    assert_eq!(decimal_text(7), "7");
    assert_eq!(decimal_text(10), "10");
    assert_eq!(decimal_text(404), "404");
    assert_eq!(decimal_text(9999), "9999");
    assert_eq!(decimal_text(65535), "65535");
    for n in 0..=u16::MAX {
        assert_eq!(decimal_text(n), n.to_string());
    }
}
