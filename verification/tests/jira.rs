use tempo_shortcut::jira::{token_check, token_reply, worklog_outcome, worklog_request, Exchange};

#[test]
fn worklog_request_fields() {
    let r = worklog_request(
        "https://jira.example.com//",
        "tok",
        "  RASA-123 ",
        "2024-05-01T09:30:00.000+0330",
        125,
        "fixed it",
    );
    assert_eq!(r.url, "https://jira.example.com/rest/api/2/issue/RASA-123/worklog");
    assert_eq!(r.api_token, "tok");
    assert_eq!(r.comment, "fixed it");
    assert_eq!(r.started, "2024-05-01T09:30:00.000+0330");
    assert_eq!(r.time_spent_seconds, 125);
}

#[test]
fn worklog_is_at_least_a_minute() {
    let t = |e| worklog_request("u", "t", "K-1", "s", e, "c").time_spent_seconds;
    assert_eq!(t(0), 60);
    assert_eq!(t(59), 60);
    assert_eq!(t(60), 60);
    assert_eq!(t(61), 61);
    assert_eq!(t(-5), 60);
    assert_eq!(t(i64::MAX), i64::MAX);
}

#[test]
fn token_check_url() {
    let c = token_check("https://jira.example.com/", "tok");
    assert_eq!(c.url, "https://jira.example.com/rest/api/2/myself");
    assert_eq!(c.api_token, "tok");
    assert_eq!(token_check("", "t").url, "/rest/api/2/myself");
}

fn replied(status: u16, status_text: &str, body: &[u8]) -> Exchange {
    Exchange::Replied {
        status,
        status_text: status_text.to_string(),
        body: Ok(body.to_vec()),
    }
}

#[test]
fn token_reply_reads_display_name() {
    assert_eq!(
        token_reply(replied(200, "200 OK", br#"{"displayName":"Jane Doe"}"#)),
        Ok("Jane Doe".to_string())
    );
    assert_eq!(
        token_reply(replied(204, "204 No Content", br#"{"displayName":"A","x":1}"#)),
        Ok("A".to_string())
    );
}

#[test]
fn token_reply_without_name_is_unknown_user() {
    assert_eq!(token_reply(replied(200, "200 OK", br#"{"name":"jd"}"#)), Ok("unknown user".to_string()));
    assert_eq!(
        token_reply(replied(200, "200 OK", br#"{"displayName":5}"#)),
        Ok("unknown user".to_string())
    );
    assert_eq!(token_reply(replied(200, "200 OK", b"[1, 2]")), Ok("unknown user".to_string()));
}

#[test]
fn token_reply_not_json() {
    assert_eq!(
        token_reply(replied(200, "200 OK", b"<html>")),
        Err("could not parse Jira response: error decoding response body".to_string())
    );
    assert_eq!(
        token_reply(Exchange::Replied {
            status: 200,
            status_text: "200 OK".to_string(),
            body: Err("request or response body error".to_string()),
        }),
        Err("could not parse Jira response: request or response body error".to_string())
    );
}

#[test]
fn token_reply_rejected() {
    assert_eq!(
        token_reply(replied(401, "401 Unauthorized", b"no \xffway")),
        Err("Jira returned 401 Unauthorized: no \u{fffd}way".to_string())
    );
    assert_eq!(
        token_reply(replied(199, "199 <unknown status code>", br#"{"displayName":"A"}"#)),
        Err("Jira returned 199 <unknown status code>: {\"displayName\":\"A\"}".to_string())
    );
    assert_eq!(
        token_reply(Exchange::Replied {
            status: 500,
            status_text: "500 Internal Server Error".to_string(),
            body: Err("x".to_string()),
        }),
        Err("Jira returned 500 Internal Server Error: ".to_string())
    );
}

#[test]
fn exchange_failures() {
    assert_eq!(
        token_reply(Exchange::NoClient("x".to_string())),
        Err("failed to build HTTP client: x".to_string())
    );
    assert_eq!(
        token_reply(Exchange::NotSent("y".to_string())),
        Err("request to Jira failed: y".to_string())
    );
    assert_eq!(
        worklog_outcome(Exchange::NoClient("x".to_string())),
        Err("failed to build HTTP client: x".to_string())
    );
    assert_eq!(
        worklog_outcome(Exchange::NotSent("y".to_string())),
        Err("request to Jira failed: y".to_string())
    );
}

#[test]
fn worklog_outcome_by_status() {
    assert_eq!(worklog_outcome(replied(201, "201 Created", b"{}")), Ok(()));
    assert_eq!(worklog_outcome(replied(299, "299 <unknown status code>", b"")), Ok(()));
    assert_eq!(
        worklog_outcome(replied(400, "400 Bad Request", b"bad")),
        Err("Jira returned 400 Bad Request: bad".to_string())
    );
    assert_eq!(
        worklog_outcome(replied(300, "300 Multiple Choices", b"")),
        Err("Jira returned 300 Multiple Choices: ".to_string())
    );
}
