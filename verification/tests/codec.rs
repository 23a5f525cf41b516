use fingr::request::Action;
use fingr::request::ParseError;
use fingr::request::Request;
use fingr::response::JSONResponse;
use fingr::response::Response;
use fingr::response::ResponseStatus;
use fingr::userlist::JSONStatus;
use fingr::userlist::UserInfo;

fn lines(raw: &[&str]) -> Vec<Vec<u8>> {
    raw.iter().map(|l| l.as_bytes().to_vec()).collect()
}

#[test]
fn parse_full_request() {
    let req = Request::parse(&lines(&[
        "GET /login?username=alice&key=k1&status=back+soon&zzz=9 HTTP/1.1\r\n",
        "Host: example.test\r\n",
        "Authorization: tok\r\n",
        "\r\n",
    ]))
    .expect("well-formed request");
    assert_eq!(req.action, Action::Login);
    assert_eq!(req.username.as_deref(), Some(b"alice".as_slice()));
    assert_eq!(req.key.as_deref(), Some(b"k1".as_slice()));
    assert_eq!(req.status.as_deref(), Some(b"back soon".as_slice()));
    assert_eq!(req.auth.as_deref(), Some(b"tok".as_slice()));
    assert!(req.finger_user.is_none());
}

#[test]
fn parse_without_query_or_headers() {
    let req = Request::parse(&lines(&["GET /list\r\n"])).expect("well-formed");
    assert_eq!(req.action, Action::List);
    assert!(req.username.is_none());
    assert!(req.key.is_none());
    assert!(req.auth.is_none());
    assert!(req.status.is_none());
}

#[test]
fn parse_finger_target() {
    let req = Request::parse(&lines(&["GET /finger?user=bob\r\n", "\r\n"])).unwrap();
    assert_eq!(req.action, Action::Finger);
    assert_eq!(req.finger_user.as_deref(), Some(b"bob".as_slice()));
}

#[test]
fn parse_rejects_missing_method() {
    assert!(matches!(Request::parse(&lines(&[])), Err(ParseError::BadMethod)));
    assert!(matches!(Request::parse(&lines(&["\r\n"])), Err(ParseError::BadMethod)));
}

#[test]
fn parse_rejects_other_methods() {
    assert!(matches!(Request::parse(&lines(&["POST /login HTTP/1.1\r\n"])), Err(ParseError::BadMethod)));
}

#[test]
fn parse_rejects_missing_path() {
    assert!(matches!(Request::parse(&lines(&["GET\r\n"])), Err(ParseError::MissingPath)));
    assert!(matches!(Request::parse(&lines(&["GET \r\n"])), Err(ParseError::MissingPath)));
}

#[test]
fn parse_rejects_relative_path() {
    assert!(matches!(Request::parse(&lines(&["GET login HTTP/1.1\r\n"])), Err(ParseError::BadPath)));
}

#[test]
fn parse_rejects_unknown_action() {
    assert!(matches!(Request::parse(&lines(&["GET /poke?user=bob\r\n"])), Err(ParseError::UnknownAction)));
    // Action names are case-sensitive.
    assert!(matches!(Request::parse(&lines(&["GET /Login\r\n"])), Err(ParseError::UnknownAction)));
}

#[test]
fn parse_rejects_recognized_key_without_value() {
    assert!(matches!(Request::parse(&lines(&["GET /login?username\r\n"])), Err(ParseError::BadQueryPair)));
}

#[test]
fn parse_ignores_unknown_query_keys() {
    let req = Request::parse(&lines(&["GET /list?color&shade=dark\r\n"])).unwrap();
    assert_eq!(req.action, Action::List);
}

#[test]
fn parse_rejects_header_without_colon() {
    assert!(matches!(Request::parse(&lines(&["GET /list\r\n", "not a header\r\n", "\r\n"])), Err(ParseError::BadHeader)));
}

#[test]
fn parse_error_messages() {
    assert_eq!(ParseError::BadPath.message(), b"invalid path".to_vec());
    assert_eq!(ParseError::BadMethod.message(), b"invalid request type".to_vec());
    assert_eq!(ParseError::MissingPath.message(), b"missing path".to_vec());
    assert_eq!(ParseError::UnknownAction.message(), b"unrecognized action".to_vec());
    assert_eq!(ParseError::BadQueryPair.message(), b"invalid query pair".to_vec());
    assert_eq!(ParseError::BadHeader.message(), b"invalid header".to_vec());
}

#[test]
fn status_lines() {
    assert_eq!(ResponseStatus::Okay.status_line(), b"200 OK".to_vec());
    assert_eq!(ResponseStatus::Bad.status_line(), b"400 Bad Request".to_vec());
    assert_eq!(ResponseStatus::Unauth.status_line(), b"401 Unauthorized".to_vec());
    assert_eq!(ResponseStatus::NotFound.status_line(), b"404 Not Found".to_vec());
    assert_eq!(ResponseStatus::ServerError.status_line(), b"500 Server Error".to_vec());
}

#[test]
fn encode_ok_body_with_content_length() {
    let resp = Response::from(ResponseStatus::Okay, &JSONResponse::OK(b"hi".to_vec()));
    let wire = resp.encode();
    let expected =
        b"HTTP/1.1 200 OK\r\nContent-Type: text/html\r\nContent-Length: 11\r\n\r\n{\"OK\":\"hi\"}";
    assert_eq!(wire, expected.to_vec());
}

#[test]
fn encode_escapes_json_strings() {
    let resp = Response::from(
        ResponseStatus::Bad,
        &JSONResponse::Error(b"a\"b\\c\nd".to_vec()),
    );
    assert_eq!(resp.body, b"{\"Error\":\"a\\\"b\\\\c\\u000ad\"}".to_vec());
}

#[test]
fn encode_user_projection() {
    let resp = Response::from(
        ResponseStatus::Okay,
        &JSONResponse::User(UserInfo {
            username: b"alice".to_vec(),
            status: JSONStatus { online: true, text: Some(b"brb".to_vec()), since: 42 },
        }),
    );
    assert_eq!(
        resp.body,
        b"{\"User\":{\"username\":\"alice\",\"status\":{\"online\":true,\"text\":\"brb\",\"since\":42}}}"
            .to_vec()
    );
}

#[test]
fn encode_list_and_log_bodies() {
    let a = UserInfo {
        username: b"a".to_vec(),
        status: JSONStatus { online: false, text: None, since: 0 },
    };
    let b = UserInfo {
        username: b"b".to_vec(),
        status: JSONStatus { online: true, text: None, since: 120 },
    };
    let list = Response::from(ResponseStatus::Okay, &JSONResponse::List(vec![a, b]));
    assert_eq!(
        list.body,
        b"{\"List\":[{\"username\":\"a\",\"status\":{\"online\":false,\"text\":null,\"since\":0}},{\"username\":\"b\",\"status\":{\"online\":true,\"text\":null,\"since\":120}}]}"
            .to_vec()
    );
    let log = Response::from(ResponseStatus::Okay, &JSONResponse::Log(Vec::new()));
    assert_eq!(log.body, b"{\"Log\":[]}".to_vec());
}

#[test]
fn encode_three_digit_content_length() {
    let body: Vec<u8> = std::iter::repeat(b'x').take(120).collect();
    let resp = Response::from(ResponseStatus::Okay, &JSONResponse::OK(body));
    let wire = resp.encode();
    // body is {"OK":"} + 120 x's + "} = 129 bytes
    let text = String::from_utf8(wire).unwrap();
    assert!(text.contains("Content-Length: 129\r\n\r\n"));
}

#[test]
fn query_stops_at_second_question_mark() {
    let req = Request::parse(&lines(&["GET /login?username=a?username=b\r\n"])).unwrap();
    assert_eq!(req.username.as_deref(), Some(b"a".as_slice()));
}

#[test]
fn value_stops_at_second_equals_sign() {
    let req = Request::parse(&lines(&["GET /login?key=a=b\r\n"])).unwrap();
    assert_eq!(req.key.as_deref(), Some(b"a".as_slice()));
}

#[test]
fn header_value_stops_at_second_colon_and_is_trimmed() {
    let req = Request::parse(&lines(&[
        "GET /list\r\n",
        "Authorization:  tok :extra\r\n",
        "\r\n",
    ]))
    .unwrap();
    assert_eq!(req.auth.as_deref(), Some(b"tok".as_slice()));
}

#[test]
fn last_authorization_header_wins() {
    let req = Request::parse(&lines(&[
        "GET /list\r\n",
        "Authorization: one\r\n",
        "Authorization: two\r\n",
        "\r\n",
    ]))
    .unwrap();
    assert_eq!(req.auth.as_deref(), Some(b"two".as_slice()));
}
